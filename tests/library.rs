use jarvis::agent::{Agent, AgentPlan, DictionaryAgent, PromptAgent, RagAgent, PROMPT_SYSTEM, RAG_SYSTEM};
use jarvis::command::{lookup_phrase, Command, DictionaryCommand, Operation, ServerCommand};
use jarvis::config::AppConfig;
use jarvis::dictionary::{decimal_text, heading, render, Definition, Example, Expression, Meaning};
use jarvis::error::AppError;
use jarvis::input::prompt;
use jarvis::lifecycle::{StartAction, StartState, MAX_ATTEMPTS, SERVER_PORT, SERVICE_PORT, START_MESSAGE};
use jarvis::net::{magic_packet, parse_hardware_address};
use jarvis::request::SlmRequest;
use jarvis::router::{route, Route};
use jarvis::stream::{decode_chunk, drain, on_event, Drain, StreamEvent, StreamState};

fn no_config() -> AppConfig {
    AppConfig::default()
}

fn s(t: &str) -> String {
    t.to_string()
}

fn example(text: &str, source: Option<&str>) -> Example {
    Example { text: s(text), source: source.map(s) }
}

fn meaning(definition: &str, examples: Vec<Example>) -> Meaning {
    Meaning { definition: s(definition), examples }
}

fn definition(word: &str, pos: Option<&str>, meanings: Vec<Meaning>, expressions: Vec<Expression>) -> Definition {
    Definition { word: s(word), key: s(word), part_of_speech: pos.map(s), meanings, expressions }
}

#[test]
fn wake_payload_is_ff_then_sixteen_copies() {
    let packet = magic_packet("10-7c-61-5f-10-be").unwrap();
    let mac = [0x10u8, 0x7c, 0x61, 0x5f, 0x10, 0xbe];
    assert_eq!(packet.len(), 102);
    assert_eq!(&packet[0..6], &[0xFFu8; 6]);
    for k in 0..16 {
        assert_eq!(&packet[6 + 6 * k..12 + 6 * k], &mac);
    }
}

#[test]
fn wake_payload_accepts_colons_and_upper_case() {
    let a = magic_packet("10:7C:61:5F:10:BE").unwrap();
    let b = magic_packet("10-7c-61-5f-10-be").unwrap();
    assert_eq!(a, b);
    assert_eq!(parse_hardware_address("aa:bb:cc:dd:ee:ff").unwrap(), vec![0xaa, 0xbb, 0xcc, 0xdd, 0xee, 0xff]);
}

#[test]
fn wake_payload_rejects_non_hex_octet() {
    assert!(matches!(magic_packet("10-7c-61-5f-10-bz"), Err(AppError::InvalidAddress)));
    assert!(matches!(magic_packet("g0:7c:61:5f:10:be"), Err(AppError::InvalidAddress)));
}

#[test]
fn wake_payload_rejects_wrong_length() {
    assert!(matches!(magic_packet("10-7c-61"), Err(AppError::InvalidAddress)));
    assert!(matches!(magic_packet(""), Err(AppError::InvalidAddress)));
    assert!(matches!(magic_packet("10-7c-61-5f-10-be-00"), Err(AppError::InvalidAddress)));
}

fn lookup_term_of(r: &Route) -> Option<String> {
    match r {
        Route::Agent(Agent::Dictionary(_), q) => q.system.clone(),
        _ => None,
    }
}

#[test]
fn lookup_phrases_route_to_lookup() {
    let c = no_config();
    let r = route("define foo", false, None, None, &c);
    assert_eq!(lookup_term_of(&r), Some(s("foo")));
    let r = route("what is bar", false, None, None, &c);
    assert_eq!(lookup_term_of(&r), Some(s("bar")));
    let r = route("DEFINE Foo", false, None, None, &c);
    assert_eq!(lookup_term_of(&r), Some(s("Foo")));
    let r = route("What Is bar", false, None, None, &c);
    assert_eq!(lookup_term_of(&r), Some(s("bar")));
    let r = route("what does casă mean", false, None, None, &c);
    assert_eq!(lookup_term_of(&r), Some(s("casă")));
    let r = route("def of  word", false, Some(s("ignored")), None, &c);
    assert_eq!(lookup_term_of(&r), Some(s("word")));
}

#[test]
fn lookup_phrase_grammar_edges() {
    assert_eq!(lookup_phrase("define foo?"), None);
    assert_eq!(lookup_phrase("definefoo"), None);
    assert_eq!(lookup_phrase("define of"), Some(s("of")));
    assert_eq!(lookup_phrase("define   two words"), Some(s("two words")));
    assert_eq!(lookup_phrase("what is"), None);
    assert_eq!(lookup_phrase("what does  big  cat   mean"), Some(s("big  cat")));
    assert_eq!(lookup_phrase("what does mean"), None);
    assert_eq!(lookup_phrase("tell me a joke"), None);
}

#[test]
fn forced_model_routes_lookup_phrase_to_prompt() {
    let c = no_config();
    match route("define foo", true, None, None, &c) {
        Route::Agent(Agent::Prompt(a), q) => {
            assert_eq!(a.system, PROMPT_SYSTEM);
            assert_eq!(q.prompt, "define foo");
            assert_eq!(q.system, None);
        }
        _ => panic!("expected the direct-prompt strategy"),
    }
    match route("server start", true, None, None, &c) {
        Route::Agent(Agent::Prompt(_), _) => {}
        _ => panic!("expected the direct-prompt strategy"),
    }
}

#[test]
fn context_routes_to_rag() {
    let c = no_config();
    match route("what is bar", false, Some(s("be brief")), Some(s("docs")), &c) {
        Route::Agent(Agent::Rag(a), q) => {
            assert_eq!(a.system, RAG_SYSTEM);
            assert_eq!(q.prompt, "what is bar");
            assert_eq!(q.system, Some(s("be brief")));
            assert_eq!(q.context, Some(s("docs")));
        }
        _ => panic!("expected the retrieval-augmented strategy"),
    }
}

#[test]
fn plain_text_routes_to_prompt_with_caller_system() {
    let c = no_config();
    match route("tell me a joke", false, Some(s("pirate")), None, &c) {
        Route::Agent(Agent::Prompt(_), q) => {
            assert_eq!(q.prompt, "tell me a joke");
            assert_eq!(q.system, Some(s("pirate")));
            assert_eq!(q.context, None);
        }
        _ => panic!("expected the direct-prompt strategy"),
    }
}

fn operation_of(input: &str) -> Option<Operation> {
    match route(input, false, None, None, &no_config()) {
        Route::Local(Command::ServerCommand(c)) => Some(c.operation()),
        _ => None,
    }
}

#[test]
fn lifecycle_commands_map_to_operations() {
    assert_eq!(operation_of("server start"), Some(Operation::Start));
    assert_eq!(operation_of("start"), Some(Operation::Start));
    assert_eq!(operation_of("wake-up"), Some(Operation::Start));
    assert_eq!(operation_of("server stop"), Some(Operation::Stop));
    assert_eq!(operation_of("sleep"), Some(Operation::Stop));
    assert_eq!(operation_of("shutdown"), Some(Operation::Stop));
    assert_eq!(operation_of("server   status"), Some(Operation::Status));
    assert_eq!(operation_of("status"), Some(Operation::Status));
    assert_eq!(operation_of("history clear"), Some(Operation::HistoryReset));
    assert_eq!(operation_of("history reset"), Some(Operation::HistoryReset));
    assert_eq!(operation_of("clear history"), Some(Operation::HistoryReset));
    assert_eq!(operation_of("server"), Some(Operation::NoOp));
    assert_eq!(operation_of("status start"), Some(Operation::NoOp));
    assert_eq!(operation_of("SERVER START"), Some(Operation::NoOp));
    assert_eq!(operation_of("stop now"), None);
    assert_eq!(operation_of("stop "), None);
}

#[test]
fn command_parse_keeps_words_as_written() {
    match Command::parse("Server Start") {
        Ok(Command::ServerCommand(c)) => {
            assert_eq!(c.command, "Server");
            assert_eq!(c.sub_command, Some(s("Start")));
        }
        _ => panic!("expected a lifecycle command"),
    }
    match Command::parse("define of x") {
        Ok(Command::DictionaryCommand(c)) => assert_eq!(c.word, "x"),
        _ => panic!("expected a lookup command"),
    }
    assert!(matches!(Command::parse("hello there"), Err(AppError::ParseCommandError)));
    assert!(DictionaryCommand::parse("status").is_none());
    assert!(ServerCommand::parse("define foo").is_none());
    let parsed: Result<Command, AppError> = "stop".parse();
    assert!(matches!(parsed, Ok(Command::ServerCommand(_))));
}

#[test]
fn markdown_single_definition() {
    let d = definition(
        "foo",
        Some("noun"),
        vec![meaning("a thing", vec![example("see foo", Some("Bk"))])],
        vec![],
    );
    let out = render(&vec![d]).unwrap();
    assert_eq!(out, "\n# foo, noun\n\n1. a thing\n\n> see foo  \n\u{2014} _Bk_\n");
    assert!(!out.contains("## În expresie"));
}

#[test]
fn markdown_lowercases_part_of_speech() {
    let d = definition("Foo", Some("NOUN"), vec![meaning("x", vec![])], vec![]);
    assert_eq!(render(&vec![d]).unwrap(), "\n# Foo, noun\n\n1. x\n");
}

#[test]
fn markdown_without_part_of_speech_and_with_expressions() {
    let d = definition(
        "cal",
        None,
        vec![meaning("animal", vec![example("un cal", None)])],
        vec![Expression { phrase: s("a fi cal"), definition: s("a fi prost") }],
    );
    assert_eq!(
        render(&vec![d]).unwrap(),
        "\n# cal\n\n1. animal\n\n> un cal  \n\n## În expresie\n- __a fi cal__: a fi prost\n"
    );
}

#[test]
fn markdown_numbering_resets_per_definition() {
    let a = definition("a", None, vec![meaning("a1", vec![]), meaning("a2", vec![])], vec![]);
    let b = definition("b", None, vec![meaning("b1", vec![]), meaning("b2", vec![])], vec![]);
    let out = render(&vec![a, b]).unwrap();
    assert_eq!(out, "\n# a\n\n1. a1\n\n2. a2\n\n\n# b\n\n1. b1\n\n2. b2\n");
}

#[test]
fn markdown_expressions_only_record() {
    let d = definition("x", None, vec![], vec![Expression { phrase: s("p"), definition: s("d") }]);
    assert_eq!(render(&vec![d]).unwrap(), "- __p__: d\n");
}

#[test]
fn zero_match_is_no_result() {
    assert_eq!(render(&vec![]), None);
    let empty = definition("x", Some("noun"), vec![], vec![]);
    assert_eq!(render(&vec![empty]), None);
    assert_eq!(DictionaryAgent::answer(None), "");
    assert_eq!(DictionaryAgent::answer(Some(s("text"))), "text");
}

#[test]
fn decimal_and_heading() {
    assert_eq!(decimal_text(0), "0");
    assert_eq!(decimal_text(7), "7");
    assert_eq!(decimal_text(123), "123");
    assert_eq!(decimal_text(u64::MAX), u64::MAX.to_string());
    assert_eq!(heading("foo", Some("noun")), "# foo, noun");
    assert_eq!(heading("foo", None), "# foo");
}

#[test]
fn stream_draining_keeps_arrival_order() {
    let items: Vec<Result<String, AppError>> = vec![Ok(s("Hel")), Ok(s("lo, ")), Ok(s("world"))];
    let d = drain(&items);
    assert_eq!(d.text, "Hello, world");
    assert!(!d.failed);
}

#[test]
fn stream_draining_stops_at_fatal_item() {
    let items: Vec<Result<String, AppError>> =
        vec![Ok(s("a")), Err(AppError::Fatal(s("x"))), Ok(s("b"))];
    let d = drain(&items);
    assert_eq!(d.text, "a");
    assert!(d.failed);
    let mut one = Drain::new();
    assert_eq!(one.accept(&Ok(s("z"))), Some(s("z")));
    assert_eq!(one.accept(&Err(AppError::Fatal(s("y")))), None);
    assert_eq!(one.accept(&Ok(s("w"))), None);
    assert_eq!(one.text, "z");
}

#[test]
fn stream_events() {
    let (st, item) = on_event(StreamState::AwaitingStatus, StreamEvent::Status(500));
    assert_eq!(st, StreamState::Finished);
    assert!(matches!(item, Some(Err(AppError::Fatal(_)))));
    let (st, item) = on_event(StreamState::Finished, StreamEvent::Chunk(b"late".to_vec()));
    assert_eq!(st, StreamState::Finished);
    assert!(item.is_none());
    let (st, item) = on_event(StreamState::AwaitingStatus, StreamEvent::Status(200));
    assert_eq!(st, StreamState::Streaming);
    assert!(item.is_none());
    let (st, item) = on_event(st, StreamEvent::Chunk("Hé".as_bytes().to_vec()));
    assert_eq!(st, StreamState::Streaming);
    assert_eq!(item.unwrap().unwrap(), "Hé");
    let (st2, item) = on_event(st, StreamEvent::Chunk(vec![0xff, 0xfe]));
    assert_eq!(st2, StreamState::Finished);
    assert!(matches!(item, Some(Err(AppError::Fatal(_)))));
    let (st3, item) = on_event(st, StreamEvent::ReadFailed);
    assert_eq!(st3, StreamState::Finished);
    assert!(matches!(item, Some(Err(AppError::Fatal(_)))));
    let (st4, item) = on_event(st, StreamEvent::Closed);
    assert_eq!(st4, StreamState::Finished);
    assert!(item.is_none());
}

#[test]
fn decode_chunk_decodes_utf8() {
    assert_eq!(decode_chunk(vec![0x48, 0xc3, 0xa9]).unwrap(), "Hé");
    assert!(matches!(decode_chunk(vec![0xc3]), Err(AppError::Fatal(_))));
}

#[test]
fn rag_overwrites_system_prompt_keeps_it() {
    let c = AppConfig { rag_system: Some(s("grounded")), prompt_system: Some(s("helpful")), ..AppConfig::default() };
    let rag = RagAgent::new(&c);
    let direct = PromptAgent::new(&c);
    let mut q = SlmRequest::new("question");
    q.set_system("caller");
    q.set_context("ctx");
    let r = rag.prepare(q.clone()).unwrap();
    assert_eq!(r.system, Some(s("grounded")));
    assert_eq!(r.context, Some(s("ctx")));
    let p = direct.prepare(q.clone());
    assert_eq!(p.system, Some(s("caller")));
    let bare = direct.prepare(SlmRequest::new("question"));
    assert_eq!(bare.system, Some(s("helpful")));
    assert!(matches!(rag.prepare(SlmRequest::new("no context")), Err(AppError::Fatal(_))));
}

#[test]
fn agent_plans() {
    let c = no_config();
    let mut q = SlmRequest::new("define foo");
    q.set_system("foo");
    match Agent::Dictionary(DictionaryAgent::new()).plan(q) {
        AgentPlan::Lookup(t) => assert_eq!(t, "foo"),
        _ => panic!("expected a lookup"),
    }
    match Agent::Dictionary(DictionaryAgent::new()).plan(SlmRequest::new("x")) {
        AgentPlan::Failed(AppError::Fatal(m)) => assert_eq!(m, "missing keyword"),
        _ => panic!("expected a failure"),
    }
    match Agent::Prompt(PromptAgent::new(&c)).plan(SlmRequest::new("x")) {
        AgentPlan::Remote(r) => assert_eq!(r.system, Some(s(PROMPT_SYSTEM))),
        _ => panic!("expected a remote call"),
    }
}

#[test]
fn request_setters() {
    let mut q = SlmRequest::new("p");
    q.set_profile("me");
    q.set_settings("terse");
    q.set_template("md");
    assert_eq!(q.prompt, "p");
    assert_eq!(q.profile, Some(s("me")));
    assert_eq!(q.settings, Some(s("terse")));
    assert_eq!(q.template, Some(s("md")));
    assert_eq!(q.get_system(), None);
    q.set_system("sys");
    assert_eq!(q.get_system(), Some("sys"));
}

#[test]
fn status_report_lines() {
    assert_eq!(ServerCommand::server_status(true, false), "- JARVIS server is up\n- SLM service is down");
    assert_eq!(ServerCommand::server_status(false, true), "- JARVIS server is down\n- SLM service is up");
}

#[test]
fn stop_swallows_reset_propagates() {
    assert_eq!(ServerCommand::remote_outcome(Operation::Stop, None).unwrap(), Some(s("")));
    assert_eq!(ServerCommand::remote_outcome(Operation::Stop, Some(500)).unwrap(), Some(s("")));
    assert_eq!(ServerCommand::remote_outcome(Operation::HistoryReset, Some(200)).unwrap(), Some(s("")));
    assert!(matches!(ServerCommand::remote_outcome(Operation::HistoryReset, None), Err(AppError::Remote(_))));
    assert!(matches!(ServerCommand::remote_outcome(Operation::HistoryReset, Some(404)), Err(AppError::Remote(_))));
    assert!(Operation::Start.swallows_errors());
    assert!(!Operation::HistoryReset.swallows_errors());
}

#[test]
fn start_sequence_never_reachable_is_bounded() {
    let mut st = StartState::new();
    let mut probes = 0u32;
    let mut dots = 0u32;
    let mut wakes = 0u32;
    loop {
        match st.action() {
            StartAction::SendWake => wakes += 1,
            StartAction::Probe { .. } => probes += 1,
            StartAction::Finish => break,
        }
        let (next, text) = st.advance(false);
        dots += text.matches('.').count() as u32;
        st = next;
    }
    assert_eq!(wakes, 1);
    assert_eq!(probes, 2 * MAX_ATTEMPTS);
    assert_eq!(dots, 2 * MAX_ATTEMPTS);
    assert_eq!(START_MESSAGE, "SLM server and service started");
}

#[test]
fn start_sequence_stops_polling_on_success() {
    let st = StartState::new();
    let (st, text) = st.advance(false);
    assert_eq!(text, "Waiting for server to start ");
    assert_eq!(st.action(), StartAction::Probe { port: SERVER_PORT, timeout_ms: 1000 });
    let (st, text) = st.advance(false);
    assert_eq!(text, ".");
    let (st, text) = st.advance(true);
    assert_eq!(text, "\nWaiting for SLM service to start ");
    assert_eq!(st.action(), StartAction::Probe { port: SERVICE_PORT, timeout_ms: 500 });
    let (st, text) = st.advance(true);
    assert_eq!(text, "\n");
    assert_eq!(st, StartState::Done);
    assert_eq!(st.action(), StartAction::Finish);
}

#[test]
fn prompt_joins_words() {
    assert_eq!(prompt(&vec![]), "");
    assert_eq!(prompt(&vec![s("hello"), s("world")]), "hello world");
    assert_eq!(prompt(&vec![s(" , "), s("hello"), s("world")]), "hello world");
    assert_eq!(prompt(&vec![s(",,"), s("x")]), ",, x");
    assert_eq!(prompt(&vec![s("")]), "");
}

#[test]
fn config_defaults() {
    let c = AppConfig::default();
    assert!(c.slm_url.is_none() && c.rag_system.is_none() && c.prompt_system.is_none());
    assert_eq!(PromptAgent::new(&c).system, PROMPT_SYSTEM);
    assert_eq!(RagAgent::new(&c).system, RAG_SYSTEM);
}
