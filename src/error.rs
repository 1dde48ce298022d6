use vstd::prelude::*;

verus! {

/// Every failure the assistant can report.
#[derive(Debug, Clone)]
pub enum AppError {
    /// The configuration could not be installed.
    ConfigError,
    /// The input is not a local command.
    ParseCommandError,
    /// A hardware address is not six hexadecimal octets.
    InvalidAddress,
    /// A socket could not be opened or a datagram could not be sent.
    Network(String),
    /// A control call to the remote host failed or was refused.
    Remote(String),
    /// The document store could not be reached or queried.
    Store(String),
    /// An unrecoverable failure, such as a failed inference stream.
    Fatal(String),
}

} // verus!
