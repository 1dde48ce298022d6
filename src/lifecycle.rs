use vstd::prelude::*;
use crate::command::{Operation, ServerCommand};
use crate::error::AppError;

verus! {

/// Address of the machine that runs the inference service.
pub const SERVER_HOST: &'static str = "192.168.0.5";

/// Hardware address the wake signal is sent to.
pub const WAKE_ADDRESS: &'static str = "10-7c-61-5f-10-be";

/// Port that answers once the operating system is up.
pub const SERVER_PORT: u16 = 22;

/// Port that answers once the inference service is up.
pub const SERVICE_PORT: u16 = 1964;

/// Probes made against each port while starting, at most.
pub const MAX_ATTEMPTS: u32 = 100;

/// Per-attempt wait for the operating-system port while starting.
pub const SERVER_PROBE_MS: u16 = 1000;

/// Per-attempt wait for the service port while starting.
pub const SERVICE_PROBE_MS: u16 = 500;

/// Per-port wait of a status report.
pub const STATUS_PROBE_MS: u16 = 100;

/// Where the start sequence stands.
#[derive(Debug, Clone, Copy, PartialEq, Eq, Structural)]
pub enum StartState {
    /// The wake signal is still to be sent.
    Wake,
    /// Waiting for the operating system; `attempts` probes have failed.
    Server { attempts: u32 },
    /// Waiting for the service; `attempts` probes have failed.
    Service { attempts: u32 },
    /// Nothing left to do.
    Done,
}

/// What the start sequence needs done next.
#[derive(Debug, Clone, Copy, PartialEq, Eq, Structural)]
pub enum StartAction {
    /// Broadcast the wake signal, whatever comes of it.
    SendWake,
    /// Probe `port` on the server, waiting at most `timeout_ms`.
    Probe { port: u16, timeout_ms: u16 },
    /// Report that the server and service were started.
    Finish,
}

/// The text shown when the start sequence ends; it does not depend on
/// whether either port was ever seen up.
pub const START_MESSAGE: &'static str = "SLM server and service started";

impl StartState {
    pub open spec fn wf(&self) -> bool {
        match *self {
            StartState::Server { attempts } => attempts < MAX_ATTEMPTS,
            StartState::Service { attempts } => attempts < MAX_ATTEMPTS,
            _ => true,
        }
    }

    pub open spec fn action_of(&self) -> StartAction {
        match *self {
            StartState::Wake => StartAction::SendWake,
            StartState::Server { .. } => StartAction::Probe {
                port: SERVER_PORT,
                timeout_ms: SERVER_PROBE_MS,
            },
            StartState::Service { .. } => StartAction::Probe {
                port: SERVICE_PORT,
                timeout_ms: SERVICE_PROBE_MS,
            },
            StartState::Done => StartAction::Finish,
        }
    }

    /// The state after the current action; `reachable` is the outcome of a
    /// probe and is not looked at after the wake signal.
    pub open spec fn next_of(&self, reachable: bool) -> StartState {
        match *self {
            StartState::Wake => StartState::Server { attempts: 0 },
            StartState::Server { attempts } => if reachable || attempts + 1 >= MAX_ATTEMPTS {
                StartState::Service { attempts: 0 }
            } else {
                StartState::Server { attempts: (attempts + 1) as u32 }
            },
            StartState::Service { attempts } => if reachable || attempts + 1 >= MAX_ATTEMPTS {
                StartState::Done
            } else {
                StartState::Service { attempts: (attempts + 1) as u32 }
            },
            StartState::Done => StartState::Done,
        }
    }

    /// The progress text shown on that step: a header when a wait begins,
    /// one dot per failed probe, a line end when a wait ends.
    pub open spec fn progress_of(&self, reachable: bool) -> Seq<char> {
        match *self {
            StartState::Wake => "Waiting for server to start "@,
            StartState::Server { attempts } => if reachable {
                "\nWaiting for SLM service to start "@
            } else if attempts + 1 >= MAX_ATTEMPTS {
                ".\nWaiting for SLM service to start "@
            } else {
                "."@
            },
            StartState::Service { attempts } => if reachable {
                "\n"@
            } else if attempts + 1 >= MAX_ATTEMPTS {
                ".\n"@
            } else {
                "."@
            },
            StartState::Done => ""@,
        }
    }

    /// Steps left before `Done`, at most.
    pub open spec fn remaining(&self) -> nat {
        match *self {
            StartState::Wake => (2 * MAX_ATTEMPTS + 1) as nat,
            StartState::Server { attempts } => (2 * MAX_ATTEMPTS - attempts) as nat,
            StartState::Service { attempts } => (MAX_ATTEMPTS - attempts) as nat,
            StartState::Done => 0,
        }
    }

    /// The state before anything was done.
    pub fn new() -> (r: Self)
        ensures
            r == StartState::Wake,
    {
        StartState::Wake
    }

    /// What to do next.
    pub fn action(&self) -> (r: StartAction)
        ensures
            r == self.action_of(),
    {
        match self {
            StartState::Wake => StartAction::SendWake,
            StartState::Server { .. } => StartAction::Probe {
                port: SERVER_PORT,
                timeout_ms: SERVER_PROBE_MS,
            },
            StartState::Service { .. } => StartAction::Probe {
                port: SERVICE_PORT,
                timeout_ms: SERVICE_PROBE_MS,
            },
            StartState::Done => StartAction::Finish,
        }
    }

    /// Moves on once the current action is done, and gives the progress text
    /// to show for it.
    pub fn advance(&self, reachable: bool) -> (r: (StartState, &'static str))
        requires
            self.wf(),
        ensures
            r.0 == self.next_of(reachable),
            r.1@ == self.progress_of(reachable),
            r.0.wf(),
    {
        match *self {
            StartState::Wake => (StartState::Server { attempts: 0 }, "Waiting for server to start "),
            StartState::Server { attempts } => if reachable {
                (StartState::Service { attempts: 0 }, "\nWaiting for SLM service to start ")
            } else if attempts + 1 >= MAX_ATTEMPTS {
                (StartState::Service { attempts: 0 }, ".\nWaiting for SLM service to start ")
            } else {
                (StartState::Server { attempts: attempts + 1 }, ".")
            },
            StartState::Service { attempts } => if reachable {
                (StartState::Done, "\n")
            } else if attempts + 1 >= MAX_ATTEMPTS {
                (StartState::Done, ".\n")
            } else {
                (StartState::Service { attempts: attempts + 1 }, ".")
            },
            StartState::Done => (StartState::Done, ""),
        }
    }
}

/// Every step of the start sequence brings it closer to `Done`, so it makes
/// at most one wake signal and `2 * MAX_ATTEMPTS` probes.
pub proof fn lemma_start_is_bounded(s: StartState, reachable: bool)
    requires
        s.wf(),
        s != StartState::Done,
    ensures
        s.next_of(reachable).wf(),
        s.next_of(reachable).remaining() < s.remaining(),
        s.remaining() <= 2 * MAX_ATTEMPTS + 1,
{
}

/// `up` or `down`.
pub open spec fn up_down(up: bool) -> Seq<char> {
    if up {
        "up"@
    } else {
        "down"@
    }
}

/// The two-line status report.
pub open spec fn status_report(server_up: bool, service_up: bool) -> Seq<char> {
    "- JARVIS server is "@ + up_down(server_up) + "\n- SLM service is "@ + up_down(service_up)
}

/// Whether an HTTP status code reports success.
pub open spec fn is_success(status: u16) -> bool {
    200 <= status < 300
}

impl Operation {
    /// Whether the operation hides failures of its remote calls: starting and
    /// stopping are best effort, a history reset must be confirmed.
    pub fn swallows_errors(&self) -> (r: bool)
        ensures
            r == (*self == Operation::Start || *self == Operation::Stop),
    {
        match self {
            Operation::Start | Operation::Stop => true,
            _ => false,
        }
    }
}

impl ServerCommand {
    /// Renders the status report from one probe of each port.
    pub fn server_status(server_up: bool, service_up: bool) -> (r: String)
        ensures
            r@ == status_report(server_up, service_up),
    {
        let mut s = String::from_str("- JARVIS server is ");
        s.append(if server_up {
            "up"
        } else {
            "down"
        });
        s.append("\n- SLM service is ");
        s.append(if service_up {
            "up"
        } else {
            "down"
        });
        s
    }

    /// The result of a remote control call, from the status it answered with
    /// (`None` when no answer came). A stop succeeds whatever happened; a
    /// history reset fails with `Remote` unless the answer was a success.
    pub fn remote_outcome(op: Operation, status: Option<u16>) -> (r: Result<Option<String>, AppError>)
        requires
            op == Operation::Stop || op == Operation::HistoryReset,
        ensures
            r is Ok <==> (op == Operation::Stop || (status matches Some(c) && is_success(c))),
            r matches Ok(t) ==> (t matches Some(x) && x@.len() == 0),
            r matches Err(e) ==> e is Remote,
    {
        if op.swallows_errors() {
            return Ok(Some(String::new()));
        }
        match status {
            Some(c) => if 200 <= c && c < 300 {
                Ok(Some(String::new()))
            } else {
                Err(AppError::Remote(String::from_str("history reset was refused")))
            },
            None => Err(AppError::Remote(String::from_str("history reset got no answer"))),
        }
    }
}

} // verus!
