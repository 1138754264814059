//! Terminal styling through `owo_colors`.
//!
//! Each wrapper renders a string with one `owo_colors` style. The contracts
//! state the exact text `owo_colors` 4.4 writes: a foreground colour is the
//! escape sequence `ESC [ <code> m`, the text, and `ESC [ 39 m`; a style
//! (bold, dim, strike-through) is `ESC [ <code> m`, the text, and `ESC [ 0 m`.

use owo_colors::OwoColorize;
use vstd::prelude::*;

verus! {

/// `ESC [ code m`.
pub open spec fn sgr(code: Seq<char>) -> Seq<char> {
    seq!['\x1b', '['] + code + seq!['m']
}

/// Text in a foreground colour, reset with the default-foreground code.
pub open spec fn fg_text(code: Seq<char>, s: Seq<char>) -> Seq<char> {
    sgr(code) + s + sgr(seq!['3', '9'])
}

/// Text in a style, reset with the full reset code.
pub open spec fn style_text(code: Seq<char>, s: Seq<char>) -> Seq<char> {
    sgr(code) + s + sgr(seq!['0'])
}

pub open spec fn red_text(s: Seq<char>) -> Seq<char> {
    fg_text(seq!['3', '1'], s)
}

pub open spec fn green_text(s: Seq<char>) -> Seq<char> {
    fg_text(seq!['3', '2'], s)
}

pub open spec fn yellow_text(s: Seq<char>) -> Seq<char> {
    fg_text(seq!['3', '3'], s)
}

pub open spec fn blue_text(s: Seq<char>) -> Seq<char> {
    fg_text(seq!['3', '4'], s)
}

pub open spec fn cyan_text(s: Seq<char>) -> Seq<char> {
    fg_text(seq!['3', '6'], s)
}

pub open spec fn bold_text(s: Seq<char>) -> Seq<char> {
    style_text(seq!['1'], s)
}

pub open spec fn dimmed_text(s: Seq<char>) -> Seq<char> {
    style_text(seq!['2'], s)
}

pub open spec fn strikethrough_text(s: Seq<char>) -> Seq<char> {
    style_text(seq!['9'], s)
}

/// The visible text of `s`: `s` without its escape sequences, each an escape
/// character up to and including the next `m`; `in_escape` says whether `s`
/// begins inside such a sequence.
pub open spec fn unstyled_from(s: Seq<char>, in_escape: bool) -> Seq<char>
    decreases s.len(),
{
    if s.len() == 0 {
        Seq::empty()
    } else if in_escape {
        unstyled_from(s.skip(1), s[0] != 'm')
    } else if s[0] == '\x1b' {
        unstyled_from(s.skip(1), true)
    } else {
        seq![s[0]] + unstyled_from(s.skip(1), false)
    }
}

/// The visible text of `s`.
pub open spec fn unstyled(s: Seq<char>) -> Seq<char> {
    unstyled_from(s, false)
}

/// `s` holds no escape character.
pub open spec fn escape_free(s: Seq<char>) -> bool {
    forall|i: int| 0 <= i < s.len() ==> s[i] != '\x1b'
}

/// Text without escapes is visible as it is, and stays so before any text.
pub proof fn lemma_unstyled_plain(a: Seq<char>, b: Seq<char>)
    requires
        escape_free(a),
    ensures
        unstyled(a + b) == a + unstyled(b),
    decreases a.len(),
{
    if a.len() == 0 {
        assert(a + b =~= b);
    } else {
        let t = a.skip(1);
        assert((a + b).skip(1) =~= t + b);
        assert((a + b)[0] == a[0]);
        lemma_unstyled_plain(t, b);
        assert(a =~= seq![a[0]] + t);
    }
}

/// Inside an escape sequence whose body holds no `m`, everything up to
/// the closing `m` is hidden.
proof fn lemma_unstyled_escape_body(code: Seq<char>, rest: Seq<char>)
    requires
        forall|i: int| 0 <= i < code.len() ==> code[i] != 'm',
    ensures
        unstyled_from(code + seq!['m'] + rest, true) == unstyled(rest),
    decreases code.len(),
{
    let s = code + seq!['m'] + rest;
    if code.len() == 0 {
        assert(s[0] == 'm');
        assert(s.skip(1) =~= rest);
    } else {
        assert(s[0] == code[0]);
        assert(s.skip(1) =~= code.skip(1) + seq!['m'] + rest);
        lemma_unstyled_escape_body(code.skip(1), rest);
    }
}

/// An escape sequence `ESC [ code m` is not visible.
pub proof fn lemma_unstyled_sgr(code: Seq<char>, rest: Seq<char>)
    requires
        forall|i: int| 0 <= i < code.len() ==> code[i] != 'm',
    ensures
        unstyled(sgr(code) + rest) == unstyled(rest),
{
    let s = sgr(code) + rest;
    let body = seq!['['] + code;
    assert(forall|i: int| 0 <= i < body.len() ==> body[i] != 'm') by {
        assert forall|i: int| 0 <= i < body.len() implies body[i] != 'm' by {
            if i > 0 {
                assert(body[i] == code[i - 1]);
            }
        }
    }
    assert(s[0] == '\x1b');
    assert(s.skip(1) =~= body + seq!['m'] + rest);
    lemma_unstyled_escape_body(body, rest);
}

/// A coloured text shows exactly the text it colours.
pub proof fn lemma_unstyled_fg(code: Seq<char>, s: Seq<char>)
    requires
        forall|i: int| 0 <= i < code.len() ==> code[i] != 'm',
        escape_free(s),
    ensures
        unstyled(fg_text(code, s)) == s,
{
    let reset = seq!['3', '9'];
    assert(fg_text(code, s) =~= sgr(code) + (s + sgr(reset)));
    lemma_unstyled_sgr(code, s + sgr(reset));
    lemma_unstyled_plain(s, sgr(reset));
    assert(sgr(reset) =~= sgr(reset) + Seq::<char>::empty());
    lemma_unstyled_sgr(reset, Seq::empty());
    assert(unstyled(Seq::<char>::empty()) == Seq::<char>::empty());
}

/// A styled text shows exactly the text it styles.
pub proof fn lemma_unstyled_style(code: Seq<char>, s: Seq<char>)
    requires
        forall|i: int| 0 <= i < code.len() ==> code[i] != 'm',
        escape_free(s),
    ensures
        unstyled(style_text(code, s)) == s,
{
    let reset = seq!['0'];
    assert(style_text(code, s) =~= sgr(code) + (s + sgr(reset)));
    lemma_unstyled_sgr(code, s + sgr(reset));
    lemma_unstyled_plain(s, sgr(reset));
    assert(sgr(reset) =~= sgr(reset) + Seq::<char>::empty());
    lemma_unstyled_sgr(reset, Seq::empty());
    assert(unstyled(Seq::<char>::empty()) == Seq::<char>::empty());
}

/// `s.red().to_string()`.
#[verifier::external_body]
pub(crate) fn red(s: &str) -> (r: String)
    ensures
        r@ == red_text(s@),
{
    s.red().to_string()
}

/// `s.green().to_string()`.
#[verifier::external_body]
pub(crate) fn green(s: &str) -> (r: String)
    ensures
        r@ == green_text(s@),
{
    s.green().to_string()
}

/// `s.yellow().to_string()`.
#[verifier::external_body]
pub(crate) fn yellow(s: &str) -> (r: String)
    ensures
        r@ == yellow_text(s@),
{
    s.yellow().to_string()
}

/// `s.blue().to_string()`.
#[verifier::external_body]
pub(crate) fn blue(s: &str) -> (r: String)
    ensures
        r@ == blue_text(s@),
{
    s.blue().to_string()
}

/// `s.cyan().to_string()`.
#[verifier::external_body]
pub(crate) fn cyan(s: &str) -> (r: String)
    ensures
        r@ == cyan_text(s@),
{
    s.cyan().to_string()
}

/// `s.bold().to_string()`.
#[verifier::external_body]
pub(crate) fn bold(s: &str) -> (r: String)
    ensures
        r@ == bold_text(s@),
{
    s.bold().to_string()
}

/// `s.dimmed().to_string()`.
#[verifier::external_body]
pub(crate) fn dimmed(s: &str) -> (r: String)
    ensures
        r@ == dimmed_text(s@),
{
    s.dimmed().to_string()
}

/// `s.strikethrough().to_string()`.
#[verifier::external_body]
pub(crate) fn strikethrough(s: &str) -> (r: String)
    ensures
        r@ == strikethrough_text(s@),
{
    s.strikethrough().to_string()
}

} // verus!
