use vstd::prelude::*;

verus! {

/// A usage example of a meaning, with its optional source.
#[derive(Debug, Clone)]
pub struct Example {
    pub text: String,
    pub source: Option<String>,
}

/// One meaning of a word, with its examples in order.
#[derive(Debug, Clone)]
pub struct Meaning {
    pub definition: String,
    pub examples: Vec<Example>,
}

/// A set phrase that uses the word, and what it means.
#[derive(Debug, Clone)]
pub struct Expression {
    pub phrase: String,
    pub definition: String,
}

/// A knowledge-base record for one word.
#[derive(Debug, Clone)]
pub struct Definition {
    pub word: String,
    pub key: String,
    pub part_of_speech: Option<String>,
    pub meanings: Vec<Meaning>,
    pub expressions: Vec<Expression>,
}

/// What `str::to_lowercase` makes of a text.
pub uninterp spec fn lowercase_of(s: Seq<char>) -> Seq<char>;

/// Relies on `str::to_lowercase`: the result depends on the characters alone.
#[verifier::external_body]
fn to_lower(s: &str) -> (r: String)
    ensures
        r@ == lowercase_of(s@),
{
    s.to_lowercase()
}

/// The character of a decimal digit.
pub open spec fn digit_char(d: nat) -> char {
    if d == 0 {
        '0'
    } else if d == 1 {
        '1'
    } else if d == 2 {
        '2'
    } else if d == 3 {
        '3'
    } else if d == 4 {
        '4'
    } else if d == 5 {
        '5'
    } else if d == 6 {
        '6'
    } else if d == 7 {
        '7'
    } else if d == 8 {
        '8'
    } else {
        '9'
    }
}

/// `n` written in decimal, without leading zeros.
pub open spec fn decimal(n: nat) -> Seq<char>
    decreases n,
{
    if n < 10 {
        seq![digit_char(n)]
    } else {
        decimal(n / 10).push(digit_char(n % 10))
    }
}

/// `# word` or `# word, part-of-speech`.
pub open spec fn heading_line(word: Seq<char>, pos: Option<Seq<char>>) -> Seq<char> {
    match pos {
        Some(p) => "# "@ + word + ", "@ + p,
        None => "# "@ + word,
    }
}

pub open spec fn blank() -> Seq<char> {
    Seq::<char>::empty()
}

/// A quoted example, its attribution when it has a source, and a blank line.
pub open spec fn example_lines(e: Example) -> Seq<Seq<char>> {
    let source = match e.source {
        Some(s) => seq!["\u{2014} _"@ + s@ + "_"@],
        None => Seq::<Seq<char>>::empty(),
    };
    seq!["> "@ + e.text@ + "  "@] + source + seq![blank()]
}

pub open spec fn examples_lines(es: Seq<Example>) -> Seq<Seq<char>>
    decreases es.len(),
{
    if es.len() == 0 {
        Seq::<Seq<char>>::empty()
    } else {
        examples_lines(es.drop_last()) + example_lines(es.last())
    }
}

/// The `n`-th meaning: its numbered item, a blank line, its examples.
pub open spec fn meaning_lines(m: Meaning, n: nat) -> Seq<Seq<char>> {
    seq![decimal(n) + ". "@ + m.definition@, blank()] + examples_lines(m.examples@)
}

/// The meanings of one record, numbered from 1.
pub open spec fn meanings_lines(ms: Seq<Meaning>) -> Seq<Seq<char>>
    decreases ms.len(),
{
    if ms.len() == 0 {
        Seq::<Seq<char>>::empty()
    } else {
        meanings_lines(ms.drop_last()) + meaning_lines(ms.last(), ms.len())
    }
}

pub open spec fn expression_line(x: Expression) -> Seq<char> {
    "- __"@ + x.phrase@ + "__: "@ + x.definition@
}

pub open spec fn expressions_lines(xs: Seq<Expression>) -> Seq<Seq<char>>
    decreases xs.len(),
{
    if xs.len() == 0 {
        Seq::<Seq<char>>::empty()
    } else {
        expressions_lines(xs.drop_last()).push(expression_line(xs.last()))
    }
}

/// The part of speech of a record, lower-cased.
pub open spec fn lowered_pos(d: Definition) -> Option<Seq<char>> {
    match d.part_of_speech {
        Some(p) => Some(lowercase_of(p@)),
        None => None,
    }
}

/// The lines of one record. A record with meanings gets a heading, its
/// numbered meanings and, when it has expressions, the expressions
/// sub-heading; the expressions of every record follow, then a blank line.
pub open spec fn definition_lines(d: Definition) -> Seq<Seq<char>> {
    let body = if d.meanings@.len() > 0 {
        seq![blank(), heading_line(d.word@, lowered_pos(d)), blank()] + meanings_lines(d.meanings@)
            + if d.expressions@.len() > 0 {
            seq!["## În expresie"@]
        } else {
            Seq::<Seq<char>>::empty()
        }
    } else {
        Seq::<Seq<char>>::empty()
    };
    body + expressions_lines(d.expressions@) + if d.expressions@.len() > 0 {
        seq![blank()]
    } else {
        Seq::<Seq<char>>::empty()
    }
}

/// The lines of all records, in the order given.
pub open spec fn render_lines(defs: Seq<Definition>) -> Seq<Seq<char>>
    decreases defs.len(),
{
    if defs.len() == 0 {
        Seq::<Seq<char>>::empty()
    } else {
        render_lines(defs.drop_last()) + definition_lines(defs.last())
    }
}

/// Lines joined with a line feed between each two.
pub open spec fn join_lines(ls: Seq<Seq<char>>) -> Seq<char>
    decreases ls.len(),
{
    if ls.len() == 0 {
        Seq::<char>::empty()
    } else if ls.len() == 1 {
        ls[0]
    } else {
        join_lines(ls.drop_last()) + "\n"@ + ls.last()
    }
}

/// The Markdown of a search result, or `None` when it has no lines.
pub open spec fn rendering(defs: Seq<Definition>) -> Option<Seq<char>> {
    if render_lines(defs).len() == 0 {
        None
    } else {
        Some(join_lines(render_lines(defs)))
    }
}

/// Text made of lines, built one line at a time.
struct LineWriter {
    text: String,
    empty: bool,
    lines: Ghost<Seq<Seq<char>>>,
}

impl LineWriter {
    spec fn wf(&self) -> bool {
        self.text@ == join_lines(self.lines@) && self.empty == (self.lines@.len() == 0)
    }

    fn new() -> (r: Self)
        ensures
            r.wf(),
            r.lines@ == Seq::<Seq<char>>::empty(),
    {
        LineWriter { text: String::new(), empty: true, lines: Ghost(Seq::empty()) }
    }

    fn push(&mut self, line: &str)
        requires
            old(self).wf(),
        ensures
            final(self).wf(),
            final(self).lines@ == old(self).lines@.push(line@),
    {
        let ghost old_lines = self.lines@;
        if self.empty {
            self.text = String::from_str(line);
        } else {
            self.text.append("\n");
            self.text.append(line);
        }
        self.empty = false;
        self.lines = Ghost(old_lines.push(line@));
        assert(self.lines@.drop_last() =~= old_lines);
    }
}

fn digit_text(d: u64) -> (r: &'static str)
    requires
        d < 10,
    ensures
        r@ == seq![digit_char(d as nat)],
{
    proof {
        reveal_strlit("0");
        reveal_strlit("1");
        reveal_strlit("2");
        reveal_strlit("3");
        reveal_strlit("4");
        reveal_strlit("5");
        reveal_strlit("6");
        reveal_strlit("7");
        reveal_strlit("8");
        reveal_strlit("9");
    }
    if d == 0 {
        "0"
    } else if d == 1 {
        "1"
    } else if d == 2 {
        "2"
    } else if d == 3 {
        "3"
    } else if d == 4 {
        "4"
    } else if d == 5 {
        "5"
    } else if d == 6 {
        "6"
    } else if d == 7 {
        "7"
    } else if d == 8 {
        "8"
    } else {
        proof {
            assert(seq![digit_char(d as nat)] =~= "9"@);
        }
        "9"
    }
}

/// `n` written in decimal.
pub fn decimal_text(n: u64) -> (r: String)
    ensures
        r@ == decimal(n as nat),
    decreases n,
{
    if n < 10 {
        String::from_str(digit_text(n))
    } else {
        let mut s = decimal_text(n / 10);
        s.append(digit_text(n % 10));
        s
    }
}

/// The heading of a record, from its word and its part of speech already
/// lower-cased.
pub fn heading(word: &str, pos: Option<&str>) -> (r: String)
    ensures
        r@ == heading_line(word@, match pos {
            Some(p) => Some(p@),
            None => None,
        }),
{
    let mut s = String::from_str("# ");
    s.append(word);
    if let Some(p) = pos {
        s.append(", ");
        s.append(p);
    }
    s
}

fn push_example(w: &mut LineWriter, e: &Example)
    requires
        old(w).wf(),
    ensures
        final(w).wf(),
        final(w).lines@ == old(w).lines@ + example_lines(*e),
{
    let ghost base = w.lines@;
    let mut quote = String::from_str("> ");
    quote.append(e.text.as_str());
    quote.append("  ");
    w.push(quote.as_str());
    if let Some(source) = &e.source {
        let mut credit = String::from_str("\u{2014} _");
        credit.append(source.as_str());
        credit.append("_");
        w.push(credit.as_str());
    }
    let empty = String::new();
    w.push(empty.as_str());
    assert(w.lines@ =~= base + example_lines(*e));
}

fn push_meaning(w: &mut LineWriter, m: &Meaning, n: u64)
    requires
        old(w).wf(),
    ensures
        final(w).wf(),
        final(w).lines@ == old(w).lines@ + meaning_lines(*m, n as nat),
{
    let ghost base = w.lines@;
    let mut item = decimal_text(n);
    item.append(". ");
    item.append(m.definition.as_str());
    w.push(item.as_str());
    let empty = String::new();
    w.push(empty.as_str());
    let ghost head = seq![decimal(n as nat) + ". "@ + m.definition@, blank()];
    assert(w.lines@ =~= base + head + examples_lines(m.examples@.subrange(0, 0)));
    let mut k: usize = 0;
    while k < m.examples.len()
        invariant
            w.wf(),
            k <= m.examples@.len(),
            w.lines@ == base + head + examples_lines(m.examples@.subrange(0, k as int)),
        decreases m.examples@.len() - k,
    {
        push_example(w, &m.examples[k]);
        assert(m.examples@.subrange(0, k + 1).drop_last() =~= m.examples@.subrange(0, k as int));
        assert(w.lines@ =~= base + head + examples_lines(m.examples@.subrange(0, k + 1)));
        k = k + 1;
    }
    assert(m.examples@.subrange(0, k as int) =~= m.examples@);
    assert(w.lines@ =~= base + meaning_lines(*m, n as nat));
}

fn push_definition(w: &mut LineWriter, d: &Definition)
    requires
        old(w).wf(),
    ensures
        final(w).wf(),
        final(w).lines@ == old(w).lines@ + definition_lines(*d),
{
    let ghost base = w.lines@;
    let ghost body = if d.meanings@.len() > 0 {
        seq![blank(), heading_line(d.word@, lowered_pos(*d)), blank()] + meanings_lines(
            d.meanings@,
        ) + if d.expressions@.len() > 0 {
            seq!["## În expresie"@]
        } else {
            Seq::<Seq<char>>::empty()
        }
    } else {
        Seq::<Seq<char>>::empty()
    };
    if d.meanings.len() > 0 {
        let empty = String::new();
        w.push(empty.as_str());
        let title = match &d.part_of_speech {
            Some(p) => {
                let lowered = to_lower(p.as_str());
                heading(d.word.as_str(), Some(lowered.as_str()))
            },
            None => heading(d.word.as_str(), None),
        };
        w.push(title.as_str());
        w.push(empty.as_str());
        let ghost top = seq![blank(), heading_line(d.word@, lowered_pos(*d)), blank()];
        assert(w.lines@ =~= base + top + meanings_lines(d.meanings@.subrange(0, 0)));
        let mut k: usize = 0;
        while k < d.meanings.len()
            invariant
                w.wf(),
                k <= d.meanings@.len(),
                w.lines@ == base + top + meanings_lines(d.meanings@.subrange(0, k as int)),
            decreases d.meanings@.len() - k,
        {
            push_meaning(w, &d.meanings[k], (k + 1) as u64);
            assert(d.meanings@.subrange(0, k + 1).drop_last() =~= d.meanings@.subrange(
                0,
                k as int,
            ));
            assert(w.lines@ =~= base + top + meanings_lines(d.meanings@.subrange(0, k + 1)));
            k = k + 1;
        }
        assert(d.meanings@.subrange(0, k as int) =~= d.meanings@);
        if d.expressions.len() > 0 {
            w.push("## În expresie");
        }
    }
    assert(w.lines@ =~= base + body + expressions_lines(d.expressions@.subrange(0, 0)));
    let mut j: usize = 0;
    while j < d.expressions.len()
        invariant
            w.wf(),
            j <= d.expressions@.len(),
            w.lines@ == base + body + expressions_lines(d.expressions@.subrange(0, j as int)),
        decreases d.expressions@.len() - j,
    {
        let x = &d.expressions[j];
        let mut line = String::from_str("- __");
        line.append(x.phrase.as_str());
        line.append("__: ");
        line.append(x.definition.as_str());
        w.push(line.as_str());
        assert(d.expressions@.subrange(0, j + 1).drop_last() =~= d.expressions@.subrange(
            0,
            j as int,
        ));
        assert(w.lines@ =~= base + body + expressions_lines(d.expressions@.subrange(0, j + 1)));
        j = j + 1;
    }
    assert(d.expressions@.subrange(0, j as int) =~= d.expressions@);
    if d.expressions.len() > 0 {
        let empty = String::new();
        w.push(empty.as_str());
    }
    assert(w.lines@ =~= base + definition_lines(*d));
}

/// Renders search results as Markdown, in the order the store delivered
/// them, or `None` when they yield no line at all.
pub fn render(defs: &Vec<Definition>) -> (r: Option<String>)
    ensures
        match r {
            Some(t) => rendering(defs@) == Some(t@),
            None => rendering(defs@) is None,
        },
{
    let mut w = LineWriter::new();
    let mut i: usize = 0;
    while i < defs.len()
        invariant
            w.wf(),
            i <= defs@.len(),
            w.lines@ == render_lines(defs@.subrange(0, i as int)),
        decreases defs@.len() - i,
    {
        push_definition(&mut w, &defs[i]);
        assert(defs@.subrange(0, i + 1).drop_last() =~= defs@.subrange(0, i as int));
        i = i + 1;
    }
    assert(defs@.subrange(0, i as int) =~= defs@);
    if w.empty {
        None
    } else {
        Some(w.text)
    }
}

/// Rendering a list of records renders each record on its own, in order.
pub proof fn lemma_render_concat(a: Seq<Definition>, b: Seq<Definition>)
    ensures
        render_lines(a + b) == render_lines(a) + render_lines(b),
    decreases b.len(),
{
    if b.len() == 0 {
        assert(a + b =~= a);
        assert(render_lines(a) + render_lines(b) =~= render_lines(a));
    } else {
        lemma_render_concat(a, b.drop_last());
        assert((a + b).drop_last() =~= a + b.drop_last());
        assert((a + b).last() == b.last());
        assert(render_lines(a + b) =~= render_lines(a) + render_lines(b));
    }
}

proof fn lemma_first_meaning_line(ms: Seq<Meaning>)
    requires
        ms.len() > 0,
    ensures
        meanings_lines(ms).len() >= 2,
        meanings_lines(ms)[0] == decimal(1) + ". "@ + ms[0].definition@,
    decreases ms.len(),
{
    if ms.len() == 1 {
        assert(ms.drop_last().len() == 0);
        assert(meanings_lines(ms) =~= meaning_lines(ms[0], 1));
    } else {
        lemma_first_meaning_line(ms.drop_last());
    }
}

/// Numbering restarts with every record: wherever a record with meanings
/// stands in a search result, its first meaning is numbered 1, on the fourth
/// of its lines.
pub proof fn lemma_numbering_restarts(defs: Seq<Definition>, i: int)
    requires
        0 <= i < defs.len(),
        defs[i].meanings@.len() > 0,
    ensures
        render_lines(defs)[render_lines(defs.subrange(0, i)).len() + 3int] == decimal(1) + ". "@
            + defs[i].meanings@[0].definition@,
{
    let pre = defs.subrange(0, i);
    let one = seq![defs[i]];
    let post = defs.subrange(i + 1, defs.len() as int);
    assert(defs =~= pre + one + post);
    lemma_render_concat(pre + one, post);
    lemma_render_concat(pre, one);
    assert(one.drop_last() =~= Seq::<Definition>::empty());
    assert(one.last() == defs[i]);
    assert(render_lines(one.drop_last()) == Seq::<Seq<char>>::empty());
    assert(render_lines(one) =~= definition_lines(defs[i]));
    lemma_first_meaning_line(defs[i].meanings@);
    let d = defs[i];
    assert(definition_lines(d)[3] == meanings_lines(d.meanings@)[0]);
}

/// A search that matches nothing renders to no result, not to empty text.
pub proof fn lemma_no_match_no_result()
    ensures
        rendering(Seq::<Definition>::empty()) is None,
{
}

} // verus!
