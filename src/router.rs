use vstd::prelude::*;
use crate::agent::{configured, Agent, DictionaryAgent, PromptAgent, RagAgent, PROMPT_SYSTEM, RAG_SYSTEM};
use crate::command::{
    define_term, is_term, is_verb, keyword_then_space, lifecycle_parts, lookup_phrase,
    lookup_term, what_term, Command, ServerCommand,
};
use crate::config::AppConfig;
use crate::request::{opt_view, SlmRequest};
use crate::text::{char_eq_ci, equals_ci, is_space, occurs_ci, skip_space, word_end};

verus! {

/// The path chosen for an input.
#[derive(Debug, Clone, Copy, PartialEq, Eq, Structural)]
pub enum RouteKind {
    Lifecycle,
    Lookup,
    Prompt,
    Rag,
}

/// Lifecycle commands come first, then lookup phrases, then the language
/// model; forcing the model or giving a context skips both kinds of command.
pub open spec fn route_kind_of(s: Seq<char>, force_lm: bool, has_context: bool) -> RouteKind {
    if !force_lm && !has_context && lifecycle_parts(s) is Some {
        RouteKind::Lifecycle
    } else if !force_lm && !has_context && lookup_term(s) is Some {
        RouteKind::Lookup
    } else if has_context {
        RouteKind::Rag
    } else {
        RouteKind::Prompt
    }
}

proof fn lemma_word_end_exact(s: Seq<char>, i: int, k: int)
    requires
        0 <= i <= k < s.len(),
        forall|j: int| i <= j < k ==> !is_space(#[trigger] s[j]),
        is_space(s[k]),
    ensures
        word_end(s, i) == k,
    decreases k - i,
{
    if i < k {
        lemma_word_end_exact(s, i + 1, k);
    }
}

/// A lower-case keyword that stands at the start of `s`, followed by white
/// space, is the first word of `s`.
proof fn lemma_keyword_is_first_word(s: Seq<char>, kw: Seq<char>)
    requires
        keyword_then_space(s, 0, kw) is Some,
        forall|j: int| 0 <= j < kw.len() ==> 'a' <= #[trigger] kw[j] <= 'z',
    ensures
        word_end(s, 0) == kw.len(),
{
    assert forall|j: int| 0 <= j < kw.len() implies !is_space(#[trigger] s[j]) by {
        assert(char_eq_ci(s[0 + j], kw[j]));
    }
    lemma_word_end_exact(s, 0, kw.len() as int);
}

/// No lookup phrase is a lifecycle command.
proof fn lemma_lookup_not_lifecycle(s: Seq<char>)
    requires
        lookup_term(s) is Some,
    ensures
        lifecycle_parts(s) is None,
{
    reveal_strlit("define");
    reveal_strlit("def");
    reveal_strlit("what");
    reveal_strlit("server");
    reveal_strlit("history");
    reveal_strlit("start");
    reveal_strlit("stop");
    reveal_strlit("wake-up");
    reveal_strlit("clear");
    reveal_strlit("shutdown");
    reveal_strlit("sleep");
    reveal_strlit("status");
    let kw = if keyword_then_space(s, 0, "define"@) is Some {
        "define"@
    } else if keyword_then_space(s, 0, "def"@) is Some {
        "def"@
    } else {
        "what"@
    };
    assert(keyword_then_space(s, 0, kw) is Some);
    lemma_keyword_is_first_word(s, kw);
    let verb = s.subrange(0, word_end(s, 0));
    assert(verb.len() == kw.len());
    assert(char_eq_ci(s[0int + 0int], kw[0]));
    assert(verb[0] == s[0]);
    if equals_ci(verb, "server"@) {
        assert(char_eq_ci(verb[0int + 0int], "server"@[0]));
    }
    if equals_ci(verb, "status"@) {
        assert(char_eq_ci(verb[0int + 0int], "status"@[0]));
    }
    if equals_ci(verb, "stop"@) {
        assert(char_eq_ci(verb[0int + 0int], "stop"@[0]));
    }
    assert(!is_verb(verb));
}

/// A lookup phrase goes to the lookup strategy whenever the language model
/// is not forced and no context is given, whatever the case of its keywords.
pub proof fn lemma_lookup_phrase_routes_to_lookup(s: Seq<char>)
    requires
        lookup_term(s) is Some,
    ensures
        route_kind_of(s, false, false) == RouteKind::Lookup,
{
    lemma_lookup_not_lifecycle(s);
}

/// `define X`, with the keyword in any case, looks up `X` and goes to the
/// lookup strategy, for every term `X` that does not begin with `of`.
pub proof fn lemma_define_phrase_looks_up_term(kw: Seq<char>, t: Seq<char>)
    requires
        equals_ci(kw, "define"@),
        is_term(t),
        !is_space(t[0]),
        !char_eq_ci(t[0], 'o'),
    ensures
        lookup_term(kw + " "@ + t) == Some(t),
        route_kind_of(kw + " "@ + t, false, false) == RouteKind::Lookup,
{
    reveal_strlit("define");
    reveal_strlit(" ");
    reveal_strlit("of");
    let s = kw + " "@ + t;
    assert forall|j: int| 0 <= j < 6 implies #[trigger] char_eq_ci(s[0 + j], "define"@[j]) by {
        assert(char_eq_ci(kw[0 + j], "define"@[j]));
    }
    assert(occurs_ci(s, 0, "define"@));
    assert(is_space(s[6]));
    assert(s[7] == t[0]);
    assert(skip_space(s, 7) == 7);
    assert(skip_space(s, 6) == 7);
    assert(keyword_then_space(s, 0, "define"@) == Some(7int));
    assert(!char_eq_ci(s[7int + 0int], "of"@[0]));
    assert(keyword_then_space(s, 7, "of"@) is None);
    assert(s.subrange(7, s.len() as int) =~= t);
    assert(define_term(s) == Some(t));
    lemma_lookup_phrase_routes_to_lookup(s);
}

/// `what is X`, with the keywords in any case, looks up `X` and goes to the
/// lookup strategy, for every term `X`.
pub proof fn lemma_what_is_phrase_looks_up_term(kw1: Seq<char>, kw2: Seq<char>, t: Seq<char>)
    requires
        equals_ci(kw1, "what"@),
        equals_ci(kw2, "is"@),
        is_term(t),
        !is_space(t[0]),
    ensures
        lookup_term(kw1 + " "@ + kw2 + " "@ + t) == Some(t),
        route_kind_of(kw1 + " "@ + kw2 + " "@ + t, false, false) == RouteKind::Lookup,
{
    reveal_strlit("define");
    reveal_strlit("def");
    reveal_strlit("what");
    reveal_strlit("is");
    reveal_strlit(" ");
    let s = kw1 + " "@ + kw2 + " "@ + t;
    assert(char_eq_ci(kw1[0int + 0int], "what"@[0]));
    assert(s[0] == kw1[0]);
    assert(!char_eq_ci(s[0int + 0int], "define"@[0]));
    assert(!char_eq_ci(s[0int + 0int], "def"@[0]));
    assert(define_term(s) is None);
    assert forall|j: int| 0 <= j < 4 implies #[trigger] char_eq_ci(s[0 + j], "what"@[j]) by {
        assert(char_eq_ci(kw1[0 + j], "what"@[j]));
    }
    assert(occurs_ci(s, 0, "what"@));
    assert(is_space(s[4]));
    assert(s[5] == kw2[0]);
    assert(char_eq_ci(kw2[0int + 0int], "is"@[0]));
    assert(!is_space(s[5]));
    assert(skip_space(s, 5) == 5);
    assert(skip_space(s, 4) == 5);
    assert(keyword_then_space(s, 0, "what"@) == Some(5int));
    assert forall|j: int| 0 <= j < 2 implies #[trigger] char_eq_ci(s[5 + j], "is"@[j]) by {
        assert(char_eq_ci(kw2[0 + j], "is"@[j]));
        assert(s[5 + j] == kw2[j]);
    }
    assert(occurs_ci(s, 5, "is"@));
    assert(is_space(s[7]));
    assert(s[8] == t[0]);
    assert(skip_space(s, 8) == 8);
    assert(skip_space(s, 7) == 8);
    assert(keyword_then_space(s, 5, "is"@) == Some(8int));
    assert(s.subrange(8, s.len() as int) =~= t);
    assert(what_term(s) == Some(t));
    lemma_lookup_phrase_routes_to_lookup(s);
}

/// With the language model forced and no context, every input, a lookup
/// phrase included, goes to the direct-prompt strategy.
pub proof fn lemma_forced_model_routes_to_prompt(s: Seq<char>)
    ensures
        route_kind_of(s, true, false) == RouteKind::Prompt,
{
}

/// Where an input goes.
#[derive(Debug, Clone)]
pub enum Route {
    /// A local command, run on this machine.
    Local(Command),
    /// A strategy and the request it answers.
    Agent(Agent, SlmRequest),
}

impl Route {
    pub open spec fn kind(&self) -> RouteKind {
        match self {
            Route::Local(_) => RouteKind::Lifecycle,
            Route::Agent(Agent::Dictionary(_), _) => RouteKind::Lookup,
            Route::Agent(Agent::Prompt(_), _) => RouteKind::Prompt,
            Route::Agent(Agent::Rag(_), _) => RouteKind::Rag,
        }
    }
}

/// Classifies `input` and builds what its path needs. A lifecycle command
/// keeps its words as written. A lookup carries its term in the instruction
/// field. Otherwise the request carries the input as prompt, with the
/// caller's instruction and context, for the retrieval-augmented strategy
/// when there is a context and the direct one when there is not.
pub fn route(
    input: &str,
    force_lm: bool,
    system: Option<String>,
    context: Option<String>,
    config: &AppConfig,
) -> (r: Route)
    ensures
        r.kind() == route_kind_of(input@, force_lm, context is Some),
        r matches Route::Local(c) ==> (c matches Command::ServerCommand(sc) && lifecycle_parts(
            input@,
        ) == Some((sc.command@, opt_view(sc.sub_command)))),
        r matches Route::Agent(Agent::Dictionary(_), q) ==> q.fields() == (
            input@,
            lookup_term(input@),
            None::<Seq<char>>,
            None::<Seq<char>>,
            opt_view(context),
            None::<Seq<char>>,
        ),
        r matches Route::Agent(Agent::Prompt(a), q) ==> a.system@ == configured(
            config.prompt_system,
            PROMPT_SYSTEM@,
        ) && q.fields() == (
            input@,
            opt_view(system),
            None::<Seq<char>>,
            None::<Seq<char>>,
            opt_view(context),
            None::<Seq<char>>,
        ),
        r matches Route::Agent(Agent::Rag(a), q) ==> a.system@ == configured(
            config.rag_system,
            RAG_SYSTEM@,
        ) && q.fields() == (
            input@,
            opt_view(system),
            None::<Seq<char>>,
            None::<Seq<char>>,
            opt_view(context),
            None::<Seq<char>>,
        ),
{
    let mut request = SlmRequest::new(input);
    if let Some(c) = &context {
        request.set_context(c.as_str());
    }
    let classify = !force_lm && context.is_none();
    if classify {
        if let Some(c) = ServerCommand::parse(input) {
            return Route::Local(c);
        }
        if let Some(term) = lookup_phrase(input) {
            request.set_system(term.as_str());
            return Route::Agent(Agent::Dictionary(DictionaryAgent::new()), request);
        }
    }
    if let Some(s) = &system {
        request.set_system(s.as_str());
    }
    if context.is_some() {
        Route::Agent(Agent::Rag(RagAgent::new(config)), request)
    } else {
        Route::Agent(Agent::Prompt(PromptAgent::new(config)), request)
    }
}

} // verus!
