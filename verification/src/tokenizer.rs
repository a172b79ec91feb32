//! Splitting a completed logical line into argument tokens.
//!
//! The scan walks the line character by character, keeping an `escaping`
//! flag and a one-slot quote stack. Unescaped, unquoted spaces and tabs
//! separate tokens; quote characters toggle the quote slot and are dropped
//! from the token text; a backslash escapes the character that follows it.

use crate::text::push_char;
use vstd::prelude::*;

verus! {

/// A quoting delimiter: double quote, single quote, or backtick.
pub open spec fn is_quote_char(c: char) -> bool {
    c == '"' || c == '\'' || c == '`'
}

/// Token-separating whitespace: space or tab.
pub open spec fn is_blank(c: char) -> bool {
    c == ' ' || c == '\t'
}

/// The tokenizer's scan state after some prefix of the line.
///
/// `cur` is the text of the token being accumulated and `started` says
/// whether that token exists at all: it is set as soon as a character is
/// appended or a quote delimiter is consumed, so a quoted empty segment
/// still yields a token, while runs of separating whitespace yield none.
pub struct TokState {
    pub escaping: bool,
    pub quote: Option<char>,
    pub cur: Seq<char>,
    pub started: bool,
    pub out: Seq<Seq<char>>,
}

/// The state before any character has been scanned.
pub open spec fn tok_init() -> TokState {
    TokState {
        escaping: false,
        quote: None,
        cur: Seq::empty(),
        started: false,
        out: Seq::empty(),
    }
}

/// One character of the scan.
pub open spec fn tok_step(st: TokState, c: char) -> TokState {
    if st.escaping {
        TokState { escaping: false, cur: st.cur.push(c), started: true, ..st }
    } else if is_quote_char(c) {
        match st.quote {
            None => TokState { quote: Some(c), started: true, ..st },
            Some(q) => if q == c {
                TokState { quote: None, ..st }
            } else {
                TokState { cur: st.cur.push(c), started: true, ..st }
            },
        }
    } else if c == '\\' {
        TokState { escaping: true, ..st }
    } else if is_blank(c) && st.quote is None {
        if st.started {
            TokState { cur: Seq::empty(), started: false, out: st.out.push(st.cur), ..st }
        } else {
            st
        }
    } else {
        TokState { cur: st.cur.push(c), started: true, ..st }
    }
}

/// The scan state after a whole sequence of characters.
pub open spec fn tok_run(st: TokState, s: Seq<char>) -> TokState
    decreases s.len(),
{
    if s.len() == 0 {
        st
    } else {
        tok_run(tok_step(st, s[0]), s.drop_first())
    }
}

/// At end of input the accumulated token is emitted if one was started.
pub open spec fn tok_finish(st: TokState) -> Seq<Seq<char>> {
    if st.started {
        st.out.push(st.cur)
    } else {
        st.out
    }
}

/// The tokens of a completed logical line.
pub open spec fn tokens_of(line: Seq<char>) -> Seq<Seq<char>> {
    tok_finish(tok_run(tok_init(), line))
}

/// Scanning one more character extends a run by one step.
pub proof fn lemma_tok_run_snoc(st: TokState, s: Seq<char>, c: char)
    ensures
        tok_run(st, s.push(c)) == tok_step(tok_run(st, s), c),
    decreases s.len(),
{
    reveal_with_fuel(tok_run, 2);
    assert(s.push(c)[s.len() as int] == c);
    if s.len() == 0 {
        assert(s.push(c).drop_first() =~= Seq::<char>::empty());
        assert(s.push(c)[0] == c);
    } else {
        assert(s.push(c).drop_first() =~= s.drop_first().push(c));
        assert(s.push(c)[0] == s[0]);
        lemma_tok_run_snoc(tok_step(st, s[0]), s.drop_first(), c);
    }
}

/// A run over a concatenation is the run over the first part continued
/// over the second.
pub proof fn lemma_tok_run_concat(st: TokState, a: Seq<char>, b: Seq<char>)
    ensures
        tok_run(st, a + b) == tok_run(tok_run(st, a), b),
    decreases a.len(),
{
    if a.len() == 0 {
        assert(a + b =~= b);
    } else {
        assert((a + b).drop_first() =~= a.drop_first() + b);
        assert((a + b)[0] == a[0]);
        lemma_tok_run_concat(tok_step(st, a[0]), a.drop_first(), b);
    }
}

/// A character that opens no quote and starts no escape.
pub open spec fn plain_char(c: char) -> bool {
    !is_quote_char(c) && c != '\\'
}

/// A line of plain characters only.
pub open spec fn plain_line(s: Seq<char>) -> bool {
    forall|i: int| 0 <= i < s.len() ==> plain_char(#[trigger] s[i])
}

/// One step of splitting on whitespace alone: the pair is the word being
/// accumulated and the words already emitted.
pub open spec fn ws_split_step(cur: Seq<char>, out: Seq<Seq<char>>, c: char) -> (Seq<char>, Seq<
    Seq<char>,
>) {
    if is_blank(c) {
        if cur.len() > 0 {
            (Seq::empty(), out.push(cur))
        } else {
            (cur, out)
        }
    } else {
        (cur.push(c), out)
    }
}

/// Splitting a whole sequence on whitespace, step by step.
pub open spec fn ws_split_run(cur: Seq<char>, out: Seq<Seq<char>>, s: Seq<char>) -> (Seq<char>, Seq<
    Seq<char>,
>)
    decreases s.len(),
{
    if s.len() == 0 {
        (cur, out)
    } else {
        let st = ws_split_step(cur, out, s[0]);
        ws_split_run(st.0, st.1, s.drop_first())
    }
}

/// The words of a line split on runs of spaces and tabs; no word is empty.
pub open spec fn split_whitespace(line: Seq<char>) -> Seq<Seq<char>> {
    let st = ws_split_run(Seq::empty(), Seq::empty(), line);
    if st.0.len() > 0 {
        st.1.push(st.0)
    } else {
        st.1
    }
}

proof fn lemma_tok_run_plain(st: TokState, s: Seq<char>)
    requires
        plain_line(s),
        !st.escaping,
        st.quote is None,
        st.started <==> st.cur.len() > 0,
    ensures
        ({
            let t = tok_run(st, s);
            let w = ws_split_run(st.cur, st.out, s);
            &&& t.cur == w.0
            &&& t.out == w.1
            &&& !t.escaping
            &&& t.quote is None
            &&& (t.started <==> t.cur.len() > 0)
        }),
    decreases s.len(),
{
    if s.len() > 0 {
        assert(plain_char(s[0]));
        assert forall|i: int| 0 <= i < s.drop_first().len() implies plain_char(
            #[trigger] s.drop_first()[i],
        ) by {
            assert(s.drop_first()[i] == s[i + 1]);
        }
        lemma_tok_run_plain(tok_step(st, s[0]), s.drop_first());
    }
}

/// On a line of plain characters — no quotes, no backslashes — the tokens
/// are exactly the line split on whitespace.
pub proof fn lemma_tokens_plain_line(line: Seq<char>)
    requires
        plain_line(line),
    ensures
        tokens_of(line) == split_whitespace(line),
{
    lemma_tok_run_plain(tok_init(), line);
}

proof fn lemma_tok_run_quoted(st: TokState, q: char, s: Seq<char>)
    requires
        !st.escaping,
        st.quote == Some(q),
        forall|i: int| 0 <= i < s.len() ==> #[trigger] s[i] != q && s[i] != '\\',
    ensures
        tok_run(st, s) == (TokState { cur: st.cur + s, started: st.started || s.len() > 0, ..st }),
    decreases s.len(),
{
    if s.len() == 0 {
        assert(st.cur + s =~= st.cur);
        assert(tok_run(st, s) == (TokState { cur: st.cur + s, started: st.started, ..st }));
    } else {
        assert forall|i: int| 0 <= i < s.drop_first().len() implies #[trigger] s.drop_first()[i]
            != q && s.drop_first()[i] != '\\' by {
            assert(s.drop_first()[i] == s[i + 1]);
        }
        lemma_tok_run_quoted(tok_step(st, s[0]), q, s.drop_first());
        assert(st.cur.push(s[0]) + s.drop_first() =~= st.cur + s);
    }
}

/// Wrapping a segment in one quote type — the segment holding neither that
/// quote nor a backslash — yields exactly one token: the segment itself,
/// with the quotes stripped.
pub proof fn lemma_quoted_segment(q: char, s: Seq<char>)
    requires
        is_quote_char(q),
        forall|i: int| 0 <= i < s.len() ==> #[trigger] s[i] != q && s[i] != '\\',
    ensures
        tokens_of(seq![q] + s + seq![q]) == seq![s],
{
    reveal_with_fuel(tok_run, 2);
    let st1 = tok_step(tok_init(), q);
    assert(tok_run(tok_init(), seq![q]) == st1) by {
        assert(seq![q].drop_first() =~= Seq::<char>::empty());
    }
    lemma_tok_run_concat(tok_init(), seq![q], s);
    assert(seq![q] + s + seq![q] =~= seq![q] + (s + seq![q]));
    lemma_tok_run_concat(tok_init(), seq![q], s + seq![q]);
    lemma_tok_run_concat(st1, s, seq![q]);
    lemma_tok_run_quoted(st1, q, s);
    let st2 = tok_run(st1, s);
    assert(st2.cur =~= s);
    let st3 = tok_run(st2, seq![q]);
    assert(st3 == tok_step(st2, q)) by {
        assert(seq![q].drop_first() =~= Seq::<char>::empty());
    }
    assert(tok_finish(st3) =~= seq![s]);
}

/// Two consecutive backslashes followed by an ordinary character tokenize
/// to one token: a literal backslash followed by that character.
pub proof fn lemma_double_backslash(c: char)
    requires
        !is_blank(c),
        !is_quote_char(c),
        c != '\\',
    ensures
        tokens_of(seq!['\\', '\\', c]) == seq![seq!['\\', c]],
{
    reveal_with_fuel(tok_run, 4);
    let line = seq!['\\', '\\', c];
    assert(line.drop_first() =~= seq!['\\', c]);
    assert(line.drop_first().drop_first() =~= seq![c]);
    assert(line.drop_first().drop_first().drop_first() =~= Seq::<char>::empty());
    let st = tok_run(tok_init(), line);
    assert(st.cur =~= seq!['\\', c]);
    assert(tok_finish(st) =~= seq![seq!['\\', c]]);
}

/// Splits a logical line into its argument tokens.
pub fn split_line(line: &str) -> (r: Vec<String>)
    ensures
        r.deep_view() == tokens_of(line@),
{
    let n = line.unicode_len();
    let mut i: usize = 0;
    let mut escaping: bool = false;
    let mut quote: Option<char> = None;
    let mut cur: String = String::new();
    let mut started: bool = false;
    let mut out: Vec<String> = Vec::new();
    while i < n
        invariant
            n == line@.len(),
            i <= n,
            ({
                let st = tok_run(tok_init(), line@.subrange(0, i as int));
                &&& escaping == st.escaping
                &&& quote == st.quote
                &&& cur@ == st.cur
                &&& started == st.started
                &&& out.deep_view() == st.out
            }),
        decreases n - i,
    {
        let c = line.get_char(i);
        proof {
            assert(line@.subrange(0, i as int).push(c) =~= line@.subrange(0, i as int + 1));
            lemma_tok_run_snoc(tok_init(), line@.subrange(0, i as int), c);
        }
        if escaping {
            push_char(&mut cur, c);
            escaping = false;
            started = true;
        } else if c == '"' || c == '\'' || c == '`' {
            match quote {
                None => {
                    quote = Some(c);
                    started = true;
                },
                Some(q) => {
                    if q == c {
                        quote = None;
                    } else {
                        push_char(&mut cur, c);
                        started = true;
                    }
                },
            }
        } else if c == '\\' {
            escaping = true;
        } else if (c == ' ' || c == '\t') && quote.is_none() {
            if started {
                let ghost pre = out.deep_view();
                out.push(cur);
                proof {
                    assert(out.deep_view() =~= pre.push(cur@));
                }
                cur = String::new();
                started = false;
            }
        } else {
            push_char(&mut cur, c);
            started = true;
        }
        i = i + 1;
    }
    proof {
        assert(line@.subrange(0, n as int) =~= line@);
    }
    if started {
        let ghost pre = out.deep_view();
        out.push(cur);
        proof {
            assert(out.deep_view() =~= pre.push(cur@));
        }
    }
    out
}

} // verus!
