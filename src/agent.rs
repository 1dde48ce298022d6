use vstd::prelude::*;
use crate::config::AppConfig;
use crate::error::AppError;
use crate::request::{opt_view, SlmRequest};

verus! {

/// Default instruction of the direct-prompt strategy.
pub const PROMPT_SYSTEM: &'static str = "Question answering agent";

/// Default instruction of the retrieval-augmented strategy.
pub const RAG_SYSTEM: &'static str =
    "Contextual question answering agent that always uses only the provided context and formats answers in Markdown. If requested information is missing from context, respond with 'I do not know'.";

/// Answers a prompt directly through the inference service.
#[derive(Debug, Clone)]
pub struct PromptAgent {
    pub system: String,
}

/// Answers from caller-supplied context through the inference service.
#[derive(Debug, Clone)]
pub struct RagAgent {
    pub system: String,
}

/// Answers by looking a term up in the knowledge base.
#[derive(Debug, Clone)]
pub struct DictionaryAgent;

/// One of the answering strategies.
#[derive(Debug, Clone)]
pub enum Agent {
    Prompt(PromptAgent),
    Rag(RagAgent),
    Dictionary(DictionaryAgent),
}

/// What a strategy needs done to answer a request.
#[derive(Debug, Clone)]
pub enum AgentPlan {
    /// Send this request to the inference service and stream the answer.
    Remote(SlmRequest),
    /// Look this term up in the knowledge base and answer with the rendering.
    Lookup(String),
    /// The request cannot be answered.
    Failed(AppError),
}

/// The configured text when there is one, else the default.
pub open spec fn configured(o: Option<String>, default: Seq<char>) -> Seq<char> {
    match o {
        Some(s) => s@,
        None => default,
    }
}

/// `r` is `q` with its instruction set to `system`.
pub open spec fn with_system(r: SlmRequest, q: SlmRequest, system: Seq<char>) -> bool {
    r.fields() == (q.fields().0, Some(system), q.fields().2, q.fields().3, q.fields().4, q.fields().5)
}

/// The instruction a direct-prompt request carries once prepared: the
/// caller's when there is one, else the agent's.
pub open spec fn prompt_system_after(agent: Seq<char>, caller: Option<Seq<char>>) -> Seq<char> {
    match caller {
        Some(s) => s,
        None => agent,
    }
}

/// The instruction a retrieval-augmented request carries once prepared: the
/// agent's, whatever the caller set.
pub open spec fn rag_system_after(agent: Seq<char>, caller: Option<Seq<char>>) -> Seq<char> {
    agent
}

/// Retrieval-augmented preparation replaces an instruction the caller set,
/// while direct-prompt preparation keeps it.
pub proof fn lemma_rag_replaces_prompt_keeps(agent: Seq<char>, caller: Seq<char>)
    ensures
        rag_system_after(agent, Some(caller)) == agent,
        prompt_system_after(agent, Some(caller)) == caller,
{
}

fn configured_text(o: &Option<String>, default: &str) -> (r: String)
    ensures
        r@ == configured(*o, default@),
{
    match o {
        Some(s) => String::from_str(s.as_str()),
        None => String::from_str(default),
    }
}

impl PromptAgent {
    /// Takes its instruction from the configuration, else the default.
    pub fn new(config: &AppConfig) -> (r: Self)
        ensures
            r.system@ == configured(config.prompt_system, PROMPT_SYSTEM@),
    {
        PromptAgent { system: configured_text(&config.prompt_system, PROMPT_SYSTEM) }
    }

    /// Keeps an instruction the caller set; otherwise sets the agent's own.
    pub fn prepare(&self, request: SlmRequest) -> (r: SlmRequest)
        ensures
            with_system(r, request, prompt_system_after(self.system@, opt_view(request.system))),
    {
        let mut request = request;
        if request.system.is_none() {
            request.set_system(self.system.as_str());
        }
        request
    }
}

impl RagAgent {
    /// Takes its instruction from the configuration, else the default.
    pub fn new(config: &AppConfig) -> (r: Self)
        ensures
            r.system@ == configured(config.rag_system, RAG_SYSTEM@),
    {
        RagAgent { system: configured_text(&config.rag_system, RAG_SYSTEM) }
    }

    /// Always replaces the instruction with the agent's own. The request must
    /// carry a context; without one it is refused.
    pub fn prepare(&self, request: SlmRequest) -> (r: Result<SlmRequest, AppError>)
        ensures
            request.context is None <==> r is Err,
            r matches Ok(q) ==> with_system(
                q,
                request,
                rag_system_after(self.system@, opt_view(request.system)),
            ),
            r matches Err(e) ==> fatal_text(e) == Some("missing context"@),
    {
        if request.context.is_none() {
            return Err(AppError::Fatal(String::from_str("missing context")));
        }
        let mut request = request;
        request.set_system(self.system.as_str());
        Ok(request)
    }
}

/// Text of an error that carries a message.
pub open spec fn fatal_text(e: AppError) -> Option<Seq<char>> {
    match e {
        AppError::Fatal(m) => Some(m@),
        _ => None,
    }
}

impl DictionaryAgent {
    pub fn new() -> (r: Self) {
        DictionaryAgent
    }

    /// The search term, carried in the request's instruction field.
    pub fn search_term(&self, request: &SlmRequest) -> (r: Result<String, AppError>)
        ensures
            request.system is None <==> r is Err,
            r matches Ok(t) ==> t@ == request.system->Some_0@,
            r matches Err(e) ==> fatal_text(e) == Some("missing keyword"@),
    {
        match &request.system {
            Some(s) => Ok(String::from_str(s.as_str())),
            None => Err(AppError::Fatal(String::from_str("missing keyword"))),
        }
    }

    /// The single answer of a lookup: the rendering, or empty text when
    /// nothing was found.
    pub fn answer(found: Option<String>) -> (r: String)
        ensures
            found matches Some(t) ==> r@ == t@,
            found is None ==> r@.len() == 0,
    {
        match found {
            Some(t) => t,
            None => String::new(),
        }
    }
}

impl Agent {
    /// What the chosen strategy does with `request`.
    pub fn plan(&self, request: SlmRequest) -> (r: AgentPlan)
        ensures
            self matches Agent::Prompt(a) ==> r matches AgentPlan::Remote(q) && with_system(
                q,
                request,
                prompt_system_after(a.system@, opt_view(request.system)),
            ),
            self matches Agent::Rag(a) ==> (request.context is Some ==> (r matches AgentPlan::Remote(q)
                && with_system(q, request, rag_system_after(a.system@, opt_view(request.system))))),
            self matches Agent::Rag(a) ==> (request.context is None ==> (r matches AgentPlan::Failed(e)
                && fatal_text(e) == Some("missing context"@))),
            self is Dictionary ==> (request.system matches Some(s) ==> (r matches AgentPlan::Lookup(t)
                && t@ == s@)),
            self is Dictionary ==> (request.system is None ==> (r matches AgentPlan::Failed(e)
                && fatal_text(e) == Some("missing keyword"@))),
    {
        match self {
            Agent::Prompt(a) => AgentPlan::Remote(a.prepare(request)),
            Agent::Rag(a) => match a.prepare(request) {
                Ok(q) => AgentPlan::Remote(q),
                Err(e) => AgentPlan::Failed(e),
            },
            Agent::Dictionary(a) => match a.search_term(&request) {
                Ok(t) => AgentPlan::Lookup(t),
                Err(e) => AgentPlan::Failed(e),
            },
        }
    }
}

} // verus!
