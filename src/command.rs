use vstd::prelude::*;
use crate::error::AppError;
use crate::request::opt_view;
use crate::text::{
    same_text,
    equals_ci, equals_ignore_case, find_word_end, is_space, is_space_char, lemma_skip_space,
    lemma_word_end, occurs_at_ci, occurs_ci, skip_space, skip_spaces, word_end,
};

verus! {

/// A character that may end a search term: an ASCII letter, digit or
/// underscore, or any character beyond ASCII that is not white space.
pub open spec fn is_term_end(c: char) -> bool {
    ('a' <= c && c <= 'z') || ('A' <= c && c <= 'Z') || ('0' <= c && c <= '9') || c == '_'
        || (c as u32 >= 128 && !is_space(c))
}

/// A usable search term: non-empty, on one line, ending in a term character.
pub open spec fn is_term(t: Seq<char>) -> bool {
    t.len() > 0 && is_term_end(t.last()) && forall|j: int| 0 <= j < t.len() ==> t[j] != '\n'
}

/// When `kw` stands at `i` followed by white space, the position after that
/// white space.
pub open spec fn keyword_then_space(s: Seq<char>, i: int, kw: Seq<char>) -> Option<int> {
    if occurs_ci(s, i, kw) && i + kw.len() < s.len() && is_space(s[i + kw.len()]) {
        Some(skip_space(s, i + kw.len()))
    } else {
        None
    }
}

/// The end of `s[lo..e]` once trailing white space is dropped.
pub open spec fn trim_end_at(s: Seq<char>, lo: int, e: int) -> int
    decreases e - lo,
{
    if lo < e && is_space(s[e - 1]) {
        trim_end_at(s, lo, e - 1)
    } else {
        e
    }
}

/// `s[from..]` when it is a usable term.
pub open spec fn term_from(s: Seq<char>, from: int) -> Option<Seq<char>> {
    if is_term(s.subrange(from, s.len() as int)) {
        Some(s.subrange(from, s.len() as int))
    } else {
        None
    }
}

/// The term of `define X`, `def X`, `define of X` (keywords in any case).
pub open spec fn define_term(s: Seq<char>) -> Option<Seq<char>> {
    let after = if keyword_then_space(s, 0, "define"@) is Some {
        keyword_then_space(s, 0, "define"@)
    } else {
        keyword_then_space(s, 0, "def"@)
    };
    match after {
        None => None,
        Some(j) => {
            let of = keyword_then_space(s, j, "of"@);
            if of is Some && of->Some_0 < s.len() {
                term_from(s, of->Some_0)
            } else {
                term_from(s, j)
            }
        },
    }
}

/// The term of `what is X` or `what does X mean` (keywords in any case).
pub open spec fn what_term(s: Seq<char>) -> Option<Seq<char>> {
    match keyword_then_space(s, 0, "what"@) {
        None => None,
        Some(j) => match keyword_then_space(s, j, "is"@) {
            Some(q) => term_from(s, q),
            None => match keyword_then_space(s, j, "does"@) {
                None => None,
                Some(q) => {
                    let m = s.len() - 4;
                    if q < m && occurs_ci(s, m, "mean"@) && is_space(s[m - 1]) {
                        let t = s.subrange(q, trim_end_at(s, q, m));
                        if is_term(t) {
                            Some(t)
                        } else {
                            None
                        }
                    } else {
                        None
                    }
                },
            },
        },
    }
}

/// The search term of a knowledge-lookup phrase, if `s` is one.
pub open spec fn lookup_term(s: Seq<char>) -> Option<Seq<char>> {
    if define_term(s) is Some {
        define_term(s)
    } else {
        what_term(s)
    }
}

/// A lifecycle verb, in any case.
pub open spec fn is_verb(w: Seq<char>) -> bool {
    equals_ci(w, "server"@) || equals_ci(w, "history"@) || equals_ci(w, "start"@)
        || equals_ci(w, "stop"@) || equals_ci(w, "wake-up"@) || equals_ci(w, "clear"@)
        || equals_ci(w, "shutdown"@) || equals_ci(w, "sleep"@) || equals_ci(w, "status"@)
}

/// A lifecycle sub-verb, in any case.
pub open spec fn is_sub_verb(w: Seq<char>) -> bool {
    equals_ci(w, "status"@) || equals_ci(w, "start"@) || equals_ci(w, "stop"@)
        || equals_ci(w, "clear"@) || equals_ci(w, "reset"@) || equals_ci(w, "history"@)
}

/// The verb and optional sub-verb of a lifecycle command, as written, when
/// `s` is a verb alone or a verb, white space and a sub-verb.
pub open spec fn lifecycle_parts(s: Seq<char>) -> Option<(Seq<char>, Option<Seq<char>>)> {
    let e = word_end(s, 0);
    let verb = s.subrange(0, e);
    if !is_verb(verb) {
        None
    } else if e == s.len() {
        Some((verb, None))
    } else {
        let sub = s.subrange(skip_space(s, e), s.len() as int);
        if is_sub_verb(sub) {
            Some((verb, Some(sub)))
        } else {
            None
        }
    }
}

/// The operation a lifecycle command asks for.
#[derive(Debug, Clone, Copy, PartialEq, Eq, Structural)]
pub enum Operation {
    Start,
    Stop,
    Status,
    HistoryReset,
    NoOp,
}

/// Verb and sub-verb (as written, matched exactly) to operation.
pub open spec fn operation_of(verb: Seq<char>, sub: Option<Seq<char>>) -> Operation {
    match sub {
        Some(sv) => if verb == "server"@ && sv == "start"@ {
            Operation::Start
        } else if verb == "server"@ && sv == "stop"@ {
            Operation::Stop
        } else if verb == "server"@ && sv == "status"@ {
            Operation::Status
        } else if (verb == "history"@ && (sv == "clear"@ || sv == "reset"@)) || (verb
            == "clear"@ && sv == "history"@) {
            Operation::HistoryReset
        } else {
            Operation::NoOp
        },
        None => if verb == "shutdown"@ || verb == "sleep"@ || verb == "stop"@ {
            Operation::Stop
        } else if verb == "start"@ || verb == "wake-up"@ {
            Operation::Start
        } else if verb == "status"@ {
            Operation::Status
        } else {
            Operation::NoOp
        },
    }
}

/// A knowledge-lookup command and its search term.
#[derive(Debug, Clone)]
pub struct DictionaryCommand {
    pub word: String,
}

/// A lifecycle command: a verb and an optional sub-verb, as written.
#[derive(Debug, Clone)]
pub struct ServerCommand {
    pub command: String,
    pub sub_command: Option<String>,
}

/// A local command.
#[derive(Debug, Clone)]
pub enum Command {
    DictionaryCommand(DictionaryCommand),
    ServerCommand(ServerCommand),
}

fn keyword_space(s: &str, i: usize, kw: &str) -> (r: Option<usize>)
    requires
        i <= s@.len(),
    ensures
        r matches Some(p) ==> keyword_then_space(s@, i as int, kw@) == Some(p as int),
        r is None ==> keyword_then_space(s@, i as int, kw@) is None,
        r matches Some(p) ==> p <= s@.len(),
{
    let n = s.unicode_len();
    if occurs_at_ci(s, i, kw) {
        let k = i + kw.unicode_len();
        if k < n && is_space_char(s.get_char(k)) {
            proof {
                lemma_skip_space(s@, k as int);
            }
            return Some(skip_spaces(s, k));
        }
    }
    None
}

fn is_term_end_char(c: char) -> (r: bool)
    ensures
        r == is_term_end(c),
{
    ('a' <= c && c <= 'z') || ('A' <= c && c <= 'Z') || ('0' <= c && c <= '9') || c == '_' || (
    c as u32 >= 128 && !is_space_char(c))
}

fn is_term_range(s: &str, from: usize, to: usize) -> (r: bool)
    requires
        from <= to <= s@.len(),
    ensures
        r == is_term(s@.subrange(from as int, to as int)),
{
    let ghost t = s@.subrange(from as int, to as int);
    if from == to || !is_term_end_char(s.get_char(to - 1)) {
        return false;
    }
    let mut k: usize = from;
    while k < to
        invariant
            from <= k <= to <= s@.len(),
            t == s@.subrange(from as int, to as int),
            forall|j: int| 0 <= j < k - from ==> t[j] != '\n',
        decreases to - k,
    {
        if s.get_char(k) == '\n' {
            assert(t[k - from] == '\n');
            return false;
        }
        k = k + 1;
    }
    true
}

fn term_after(s: &str, from: usize) -> (r: Option<String>)
    requires
        from <= s@.len(),
    ensures
        opt_view(r) == term_from(s@, from as int),
{
    let n = s.unicode_len();
    if is_term_range(s, from, n) {
        Some(String::from_str(s.substring_char(from, n)))
    } else {
        None
    }
}

fn define_phrase(s: &str) -> (r: Option<String>)
    ensures
        opt_view(r) == define_term(s@),
{
    let after = match keyword_space(s, 0, "define") {
        Some(j) => Some(j),
        None => keyword_space(s, 0, "def"),
    };
    match after {
        None => None,
        Some(j) => {
            let n = s.unicode_len();
            match keyword_space(s, j, "of") {
                Some(q) => if q < n {
                    term_after(s, q)
                } else {
                    term_after(s, j)
                },
                None => term_after(s, j),
            }
        },
    }
}

fn what_phrase(s: &str) -> (r: Option<String>)
    ensures
        opt_view(r) == what_term(s@),
{
    let n = s.unicode_len();
    match keyword_space(s, 0, "what") {
        None => None,
        Some(j) => match keyword_space(s, j, "is") {
            Some(q) => term_after(s, q),
            None => match keyword_space(s, j, "does") {
                None => None,
                Some(q) => {
                    if n < 4 {
                        return None;
                    }
                    let m = n - 4;
                    if q < m && occurs_at_ci(s, m, "mean") && is_space_char(s.get_char(m - 1)) {
                        let mut e: usize = m;
                        while q < e && is_space_char(s.get_char(e - 1))
                            invariant
                                q <= e <= m,
                                m < n,
                                n == s@.len(),
                                trim_end_at(s@, q as int, e as int) == trim_end_at(
                                    s@,
                                    q as int,
                                    m as int,
                                ),
                            decreases e,
                        {
                            e = e - 1;
                        }
                        if is_term_range(s, q, e) {
                            Some(String::from_str(s.substring_char(q, e)))
                        } else {
                            None
                        }
                    } else {
                        None
                    }
                },
            },
        },
    }
}

/// The search term of a knowledge-lookup phrase: `define X`, `def X`,
/// `define of X`, `what is X` or `what does X mean`, keywords in any case.
pub fn lookup_phrase(s: &str) -> (r: Option<String>)
    ensures
        opt_view(r) == lookup_term(s@),
{
    match define_phrase(s) {
        Some(t) => Some(t),
        None => what_phrase(s),
    }
}

fn is_verb_text(w: &str) -> (r: bool)
    ensures
        r == is_verb(w@),
{
    equals_ignore_case(w, "server") || equals_ignore_case(w, "history") || equals_ignore_case(
        w,
        "start",
    ) || equals_ignore_case(w, "stop") || equals_ignore_case(w, "wake-up") || equals_ignore_case(
        w,
        "clear",
    ) || equals_ignore_case(w, "shutdown") || equals_ignore_case(w, "sleep")
        || equals_ignore_case(w, "status")
}

fn is_sub_verb_text(w: &str) -> (r: bool)
    ensures
        r == is_sub_verb(w@),
{
    equals_ignore_case(w, "status") || equals_ignore_case(w, "start") || equals_ignore_case(
        w,
        "stop",
    ) || equals_ignore_case(w, "clear") || equals_ignore_case(w, "reset") || equals_ignore_case(
        w,
        "history",
    )
}

impl DictionaryCommand {
    /// Recognises a knowledge-lookup phrase.
    pub fn parse(s: &str) -> (r: Option<Command>)
        ensures
            lookup_term(s@) is None ==> r is None,
            lookup_term(s@) matches Some(t) ==> r matches Some(Command::DictionaryCommand(c))
                && c.word@ == t,
    {
        match lookup_phrase(s) {
            Some(word) => Some(Command::DictionaryCommand(DictionaryCommand { word })),
            None => None,
        }
    }
}

impl ServerCommand {
    /// Recognises a lifecycle command: one of the verbs `server`, `history`,
    /// `start`, `stop`, `wake-up`, `clear`, `shutdown`, `sleep`, `status`,
    /// optionally followed by white space and one of `status`, `start`,
    /// `stop`, `clear`, `reset`, `history`; both in any case, kept as written.
    pub fn parse(s: &str) -> (r: Option<Command>)
        ensures
            lifecycle_parts(s@) is None ==> r is None,
            lifecycle_parts(s@) matches Some(p) ==> r matches Some(Command::ServerCommand(c))
                && c.command@ == p.0 && opt_view(c.sub_command) == p.1,
    {
        let n = s.unicode_len();
        let e = find_word_end(s, 0);
        proof {
            lemma_word_end(s@, 0);
        }
        let verb = s.substring_char(0, e);
        if !is_verb_text(verb) {
            return None;
        }
        if e == n {
            return Some(
                Command::ServerCommand(
                    ServerCommand { command: String::from_str(verb), sub_command: None },
                ),
            );
        }
        proof {
            lemma_skip_space(s@, e as int);
        }
        let q = skip_spaces(s, e);
        let sub = s.substring_char(q, n);
        if is_sub_verb_text(sub) {
            Some(
                Command::ServerCommand(
                    ServerCommand {
                        command: String::from_str(verb),
                        sub_command: Some(String::from_str(sub)),
                    },
                ),
            )
        } else {
            None
        }
    }

    /// The operation this command asks for. Verbs and sub-verbs select an
    /// operation only when written in lower case; any other combination is a
    /// no-op.
    pub fn operation(&self) -> (r: Operation)
        ensures
            r == operation_of(self.command@, opt_view(self.sub_command)),
    {
        let v = self.command.as_str();
        match &self.sub_command {
            Some(sub) => {
                let sv = sub.as_str();
                if same_text(v, "server") && same_text(sv, "start") {
                    Operation::Start
                } else if same_text(v, "server") && same_text(sv, "stop") {
                    Operation::Stop
                } else if same_text(v, "server") && same_text(sv, "status") {
                    Operation::Status
                } else if (same_text(v, "history") && (same_text(sv, "clear") || same_text(
                    sv,
                    "reset",
                ))) || (same_text(v, "clear") && same_text(sv, "history")) {
                    Operation::HistoryReset
                } else {
                    Operation::NoOp
                }
            },
            None => {
                if same_text(v, "shutdown") || same_text(v, "sleep") || same_text(v, "stop") {
                    Operation::Stop
                } else if same_text(v, "start") || same_text(v, "wake-up") {
                    Operation::Start
                } else if same_text(v, "status") {
                    Operation::Status
                } else {
                    Operation::NoOp
                }
            },
        }
    }
}

impl Command {
    /// Recognises a local command: a lifecycle command first, then a
    /// knowledge-lookup phrase; anything else is `ParseCommandError`.
    pub fn parse(s: &str) -> (r: Result<Command, AppError>)
        ensures
            lifecycle_parts(s@) matches Some(p) ==> r matches Ok(Command::ServerCommand(c))
                && c.command@ == p.0 && opt_view(c.sub_command) == p.1,
            lifecycle_parts(s@) is None ==> (lookup_term(s@) matches Some(t) ==> r matches Ok(
                Command::DictionaryCommand(c),
            ) && c.word@ == t),
            lifecycle_parts(s@) is None ==> (lookup_term(s@) is None ==> r matches Err(
                AppError::ParseCommandError,
            )),
    {
        match ServerCommand::parse(s) {
            Some(c) => Ok(c),
            None => match DictionaryCommand::parse(s) {
                Some(c) => Ok(c),
                None => Err(AppError::ParseCommandError),
            },
        }
    }
}

impl std::str::FromStr for Command {
    type Err = AppError;

    fn from_str(s: &str) -> Result<Command, AppError> {
        Command::parse(s)
    }
}

} // verus!
