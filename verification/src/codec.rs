//! The persistence codec for the retained state store.
//!
//! The store is written as one JSON document: widget id to retained
//! state, plus the global debug flag. The writer emits a fixed shape
//! with no whitespace; the reader is a strict recursive descent over
//! exactly that shape that also refuses a repeated id. The writer
//! returns exactly `enc_store`, the reader returns exactly what the
//! spec-level reader `p_store` accepts, and `lemma_store_round_trip`
//! proves that the one inverts the other: reading back what was
//! written reproduces every stored id, window state, counter and flag
//! bit for bit, for ids free of quote characters (the writer leaves
//! ids unescaped).

use vstd::prelude::*;

use crate::layer::Layer;
use crate::idmap::IdMap;
use crate::memory::{Memory, WidgetMemory};
use crate::resize::{ResizeDir, ResizeState, WindowState};
use crate::types::{fits, LclPt, LclRt, Pt2D, Rt2D, ZOrder};

verus! {

/// The decimal digit character for `d`.
pub open spec fn digit_char(d: int) -> char {
    if d == 0 {
        '0'
    } else if d == 1 {
        '1'
    } else if d == 2 {
        '2'
    } else if d == 3 {
        '3'
    } else if d == 4 {
        '4'
    } else if d == 5 {
        '5'
    } else if d == 6 {
        '6'
    } else if d == 7 {
        '7'
    } else if d == 8 {
        '8'
    } else {
        '9'
    }
}

/// Whether `c` is a decimal digit character.
pub open spec fn is_digit(c: char) -> bool {
    c == '0' || c == '1' || c == '2' || c == '3' || c == '4' || c == '5' || c == '6' || c == '7'
        || c == '8' || c == '9'
}

/// The value of a digit character.
pub open spec fn digit_val(c: char) -> int {
    if c == '0' {
        0
    } else if c == '1' {
        1
    } else if c == '2' {
        2
    } else if c == '3' {
        3
    } else if c == '4' {
        4
    } else if c == '5' {
        5
    } else if c == '6' {
        6
    } else if c == '7' {
        7
    } else if c == '8' {
        8
    } else {
        9
    }
}

/// The decimal representation of a non-negative number, most
/// significant digit first.
pub open spec fn dec_rep(n: int) -> Seq<char>
    decreases n,
{
    if n < 10 {
        seq![digit_char(n)]
    } else {
        dec_rep(n / 10) + seq![digit_char(n % 10)]
    }
}

/// The textual form of a signed number.
pub open spec fn int_chars(v: int) -> Seq<char> {
    if v < 0 {
        seq!['-'] + dec_rep(-v)
    } else {
        dec_rep(v)
    }
}

/// Every character of a decimal representation is a digit, and it is
/// never empty.
proof fn lemma_dec_rep_digits(n: int)
    requires
        n >= 0,
    ensures
        dec_rep(n).len() >= 1,
        forall|i: int| 0 <= i < dec_rep(n).len() ==> is_digit(#[trigger] dec_rep(n)[i]),
    decreases n,
{
    if n >= 10 {
        lemma_dec_rep_digits(n / 10);
    }
}

/// The exec mirror of `digit_char`.
fn digit_str(d: u64) -> (r: &'static str)
    requires
        d < 10,
    ensures
        r@ == seq![digit_char(d as int)],
{
    proof {
        reveal_strlit("0");
        reveal_strlit("1");
        reveal_strlit("2");
        reveal_strlit("3");
        reveal_strlit("4");
        reveal_strlit("5");
        reveal_strlit("6");
        reveal_strlit("7");
        reveal_strlit("8");
        reveal_strlit("9");
    }
    if d == 0 {
        "0"
    } else if d == 1 {
        "1"
    } else if d == 2 {
        "2"
    } else if d == 3 {
        "3"
    } else if d == 4 {
        "4"
    } else if d == 5 {
        "5"
    } else if d == 6 {
        "6"
    } else if d == 7 {
        "7"
    } else if d == 8 {
        "8"
    } else {
        "9"
    }
}

/// Append the decimal representation of `n`.
fn push_u64(s: &mut String, n: u64)
    ensures
        final(s)@ == old(s)@ + dec_rep(n as int),
    decreases n,
{
    if n >= 10 {
        push_u64(s, n / 10);
        s.append(digit_str(n % 10));
    } else {
        s.append(digit_str(n));
    }
    proof {
        if n >= 10 {
            assert(final(s)@ == old(s)@ + (dec_rep(n as int / 10) + seq![
                digit_char(n as int % 10),
            ]));
            assert(old(s)@ + (dec_rep(n as int / 10) + seq![digit_char(n as int % 10)]) =~= old(
                s,
            )@ + dec_rep(n as int));
        }
    }
}

/// Append the textual form of `v`.
fn push_i64(s: &mut String, v: i64)
    ensures
        final(s)@ == old(s)@ + int_chars(v as int),
{
    proof {
        reveal_strlit("-");
    }
    if v < 0 {
        s.append("-");
        let m: u64 = if v == i64::MIN {
            9223372036854775808u64
        } else {
            (-v) as u64
        };
        push_u64(s, m);
        proof {
            assert((old(s)@ + seq!['-']) + dec_rep(m as int) =~= old(s)@ + (seq!['-'] + dec_rep(
                m as int,
            )));
        }
    } else {
        push_u64(s, v as u64);
    }
}

/// The value of the digit run `s[pos..end]`, most significant first.
pub open spec fn dec_val(s: Seq<char>, pos: int, end: int) -> int
    decreases end - pos,
{
    if pos >= end {
        0
    } else {
        dec_val(s, pos, end - 1) * 10 + digit_val(s[end - 1])
    }
}

/// Where the digit run starting at `pos` ends.
pub open spec fn digits_end(s: Seq<char>, pos: int) -> int
    decreases s.len() - pos,
{
    if 0 <= pos < s.len() && is_digit(s[pos]) {
        digits_end(s, pos + 1)
    } else {
        pos
    }
}

/// Reading the digits of `dec_rep(n)` back gives `n`.
proof fn lemma_dec_val_of_rep(s: Seq<char>, pos: int, n: int)
    requires
        n >= 0,
        0 <= pos,
        pos + dec_rep(n).len() <= s.len(),
        s.subrange(pos, pos + dec_rep(n).len() as int) == dec_rep(n),
    ensures
        dec_val(s, pos, pos + dec_rep(n).len() as int) == n,
    decreases n,
{
    let rep = dec_rep(n);
    if n < 10 {
        assert(s[pos] == s.subrange(pos, pos + 1)[0]);
        assert(digit_val(digit_char(n)) == n);
        assert(dec_val(s, pos, pos) == 0);
        assert(dec_val(s, pos, pos + 1) == digit_val(s[pos]));
    } else {
        let rep10 = dec_rep(n / 10);
        assert(rep == rep10 + seq![digit_char(n % 10)]);
        assert(s.subrange(pos, pos + rep10.len() as int) =~= rep10) by {
            assert forall|i: int| 0 <= i < rep10.len() implies s.subrange(
                pos,
                pos + rep10.len() as int,
            )[i] == rep10[i] by {
                assert(s.subrange(pos, pos + rep10.len() as int)[i] == s[pos + i]);
                assert(s[pos + i] == s.subrange(pos, pos + rep.len() as int)[i]);
            }
        }
        lemma_dec_val_of_rep(s, pos, n / 10);
        assert(s[pos + rep.len() - 1] == s.subrange(pos, pos + rep.len() as int)[rep.len() - 1]);
        assert(digit_val(digit_char(n % 10)) == n % 10);
        assert(dec_val(s, pos, pos + rep.len() as int) == dec_val(
            s,
            pos,
            pos + rep.len() as int - 1,
        ) * 10 + digit_val(s[pos + rep.len() - 1]));
    }
}

/// A digit run surrounded by non-digits ends exactly at its end.
proof fn lemma_digits_end_of_rep(s: Seq<char>, pos: int, n: int)
    requires
        n >= 0,
        0 <= pos,
        pos + dec_rep(n).len() <= s.len(),
        s.subrange(pos, pos + dec_rep(n).len() as int) == dec_rep(n),
        pos + dec_rep(n).len() == s.len() || !is_digit(s[pos + dec_rep(n).len()]),
    ensures
        digits_end(s, pos) == pos + dec_rep(n).len(),
{
    lemma_dec_rep_digits(n);
    let end = pos + dec_rep(n).len() as int;
    assert forall|i: int| pos <= i < end implies is_digit(#[trigger] s[i]) by {
        assert(s[i] == s.subrange(pos, end)[i - pos]);
        assert(is_digit(dec_rep(n)[i - pos]));
    }
    lemma_digits_end_bounded(s, pos, pos, end);
}

/// Helper: a run of digits from `pos` to `end`, with `end` not a
/// digit, makes `digits_end` land on `end`.
proof fn lemma_digits_end_bounded(s: Seq<char>, pos: int, cur: int, end: int)
    requires
        0 <= pos <= cur <= end <= s.len(),
        forall|i: int| pos <= i < end ==> is_digit(#[trigger] s[i]),
        end == s.len() || !is_digit(s[end]),
    ensures
        digits_end(s, cur) == end,
    decreases end - cur,
{
    if cur < end {
        lemma_digits_end_bounded(s, pos, cur + 1, end);
    }
}

/// A digit run's value is never negative: every digit value is.
proof fn lemma_dec_val_nonneg(s: Seq<char>, st: int, e: int)
    requires
        st <= e,
    ensures
        dec_val(s, st, e) >= 0,
    decreases e - st,
{
    if st < e {
        lemma_dec_val_nonneg(s, st, e - 1);
    }
}

/// Extending a digit run to the right never shrinks its value.
proof fn lemma_dec_val_mono(s: Seq<char>, st: int, a: int, b: int)
    requires
        st <= a <= b,
    ensures
        dec_val(s, st, b) >= dec_val(s, st, a),
    decreases b - a,
{
    if a < b {
        lemma_dec_val_mono(s, st, a, b - 1);
        lemma_dec_val_nonneg(s, st, b - 1);
    }
}

/// The end of a digit run never lies before its start.
proof fn lemma_digits_end_ge(s: Seq<char>, cur: int)
    ensures
        digits_end(s, cur) >= cur,
    decreases s.len() - cur,
{
    if 0 <= cur < s.len() && is_digit(s[cur]) {
        lemma_digits_end_ge(s, cur + 1);
    }
}

/// A digit at `p`, with digits all the way from `cur`, pushes the end
/// of the run past `p`.
proof fn lemma_digits_end_past(s: Seq<char>, cur: int, p: int)
    requires
        0 <= cur <= p < s.len(),
        forall|j: int| cur <= j <= p ==> is_digit(#[trigger] s[j]),
    ensures
        digits_end(s, cur) >= p + 1,
    decreases p - cur,
{
    if cur < p {
        lemma_digits_end_past(s, cur + 1, p);
    } else {
        lemma_digits_end_ge(s, cur + 1);
    }
}

/// Everything before the end of a digit run is a digit, and the run
/// never runs past the text.
proof fn lemma_digits_end_digits(s: Seq<char>, cur: int)
    requires
        0 <= cur,
    ensures
        digits_end(s, cur) <= s.len() || digits_end(s, cur) == cur,
        forall|j: int| cur <= j < digits_end(s, cur) ==> is_digit(#[trigger] s[j]),
    decreases s.len() - cur,
{
    if 0 <= cur < s.len() && is_digit(s[cur]) {
        lemma_digits_end_digits(s, cur + 1);
    }
}

/// The signed-number reader's result on text that starts with
/// `int_chars(v)` followed by a non-digit: the value and the position
/// after it.
pub open spec fn p_int(s: Seq<char>, pos: int) -> Option<(int, int)> {
    if 0 <= pos < s.len() && s[pos] == '-' {
        let end = digits_end(s, pos + 1);
        if end > pos + 1 {
            Some((-dec_val(s, pos + 1, end), end))
        } else {
            None
        }
    } else {
        let end = digits_end(s, pos);
        if 0 <= pos && end > pos {
            Some((dec_val(s, pos, end), end))
        } else {
            None
        }
    }
}

/// Parsing at the front of `int_chars(v) + post`, with `post` not
/// starting in a digit, yields `v` exactly.
proof fn lemma_p_int_of_chars(s: Seq<char>, pos: int, v: int)
    requires
        0 <= pos,
        pos + int_chars(v).len() <= s.len(),
        s.subrange(pos, pos + int_chars(v).len() as int) == int_chars(v),
        pos + int_chars(v).len() == s.len() || !is_digit(s[pos + int_chars(v).len()]),
    ensures
        p_int(s, pos) == Some((v, pos + int_chars(v).len() as int)),
{
    let ic = int_chars(v);
    if v < 0 {
        let rep = dec_rep(-v);
        assert(ic == seq!['-'] + rep);
        assert(s[pos] == s.subrange(pos, pos + ic.len() as int)[0]);
        assert(s.subrange(pos + 1, pos + 1 + rep.len() as int) =~= rep) by {
            assert forall|i: int| 0 <= i < rep.len() implies s.subrange(
                pos + 1,
                pos + 1 + rep.len() as int,
            )[i] == rep[i] by {
                assert(s.subrange(pos + 1, pos + 1 + rep.len() as int)[i] == s[pos + 1 + i]);
                assert(s[pos + 1 + i] == s.subrange(pos, pos + ic.len() as int)[i + 1]);
            }
        }
        lemma_dec_rep_digits(-v);
        lemma_digits_end_of_rep(s, pos + 1, -v);
        lemma_dec_val_of_rep(s, pos + 1, -v);
    } else {
        assert(s[pos] == s.subrange(pos, pos + ic.len() as int)[0]);
        lemma_dec_rep_digits(v);
        assert(is_digit(s[pos]));
        assert(s[pos] != '-');
        lemma_digits_end_of_rep(s, pos, v);
        lemma_dec_val_of_rep(s, pos, v);
    }
}

/// Literal matcher: the position after `lit` when it sits at `pos`.
pub open spec fn p_lit(s: Seq<char>, pos: int, lit: Seq<char>) -> Option<int> {
    if 0 <= pos && pos + lit.len() <= s.len() && s.subrange(pos, pos + lit.len() as int) == lit {
        Some(pos + lit.len() as int)
    } else {
        None
    }
}

/// A subrange equals a part when the elements line up.
proof fn lemma_subrange_at(s: Seq<char>, pos: int, part: Seq<char>)
    requires
        0 <= pos,
        pos + part.len() <= s.len(),
        forall|i: int| 0 <= i < part.len() ==> s[pos + i] == #[trigger] part[i],
    ensures
        s.subrange(pos, pos + part.len() as int) == part,
{
    assert(s.subrange(pos, pos + part.len() as int) =~= part);
}

/// Where the run of non-quote characters starting at `pos` ends.
pub open spec fn quote_end(s: Seq<char>, pos: int) -> int
    decreases s.len() - pos,
{
    if 0 <= pos < s.len() && s[pos] != '"' {
        quote_end(s, pos + 1)
    } else {
        pos
    }
}

/// Read up to the next quote: the characters before it and the
/// position of the quote itself.
pub open spec fn p_until_quote(s: Seq<char>, pos: int) -> Option<(Seq<char>, int)> {
    let end = quote_end(s, pos);
    if 0 <= pos && end < s.len() {
        Some((s.subrange(pos, end), end))
    } else {
        None
    }
}

/// Whether `t` contains no quote character.
pub open spec fn quote_free(t: Seq<char>) -> bool {
    forall|i: int| 0 <= i < t.len() ==> t[i] != '"'
}

/// Helper: a quote-free run followed by a quote makes `quote_end`
/// land on the quote.
proof fn lemma_quote_end_bounded(s: Seq<char>, pos: int, cur: int, end: int)
    requires
        0 <= pos <= cur <= end <= s.len(),
        forall|i: int| pos <= i < end ==> s[i] != '"',
        end == s.len() || s[end] == '"',
    ensures
        quote_end(s, cur) == end,
    decreases end - cur,
{
    if cur < end {
        lemma_quote_end_bounded(s, pos, cur + 1, end);
    }
}

/// Reading up to a quote recovers exactly the quote-free text before
/// it.
proof fn lemma_p_until_quote(s: Seq<char>, pos: int, t: Seq<char>)
    requires
        0 <= pos,
        pos + t.len() < s.len(),
        quote_free(t),
        forall|i: int| 0 <= i < t.len() ==> s[pos + i] == #[trigger] t[i],
        s[pos + t.len()] == '"',
    ensures
        p_until_quote(s, pos) == Some((t, pos + t.len() as int)),
{
    assert forall|i: int| pos <= i < pos + t.len() implies s[i] != '"' by {
        assert(s[i] == t[i - pos]);
    }
    lemma_quote_end_bounded(s, pos, pos, pos + t.len() as int);
    lemma_subrange_at(s, pos, t);
}

/// The textual form of a rectangle.
#[verifier::opaque]
pub open spec fn enc_rt(r: LclRt) -> Seq<char> {
    "{\"x\":"@ + int_chars(r.x as int) + ",\"y\":"@ + int_chars(r.y as int) + ",\"w\":"@
        + int_chars(r.w as int) + ",\"h\":"@ + int_chars(r.h as int) + "}"@
}

/// The textual form of a point.
#[verifier::opaque]
pub open spec fn enc_pt(p: LclPt) -> Seq<char> {
    "{\"x\":"@ + int_chars(p.x as int) + ",\"y\":"@ + int_chars(p.y as int) + "}"@
}

/// The rectangle reader: four labelled numbers in braces.
#[verifier::opaque]
pub open spec fn p_rt(s: Seq<char>, pos: int) -> Option<(LclRt, int)> {
    match p_lit(s, pos, "{\"x\":"@) {
        Some(p1) => match p_int(s, p1) {
            Some((x, p2)) => match p_lit(s, p2, ",\"y\":"@) {
                Some(p3) => match p_int(s, p3) {
                    Some((y, p4)) => match p_lit(s, p4, ",\"w\":"@) {
                        Some(p5) => match p_int(s, p5) {
                            Some((w, p6)) => match p_lit(s, p6, ",\"h\":"@) {
                                Some(p7) => match p_int(s, p7) {
                                    Some((h, p8)) => match p_lit(s, p8, "}"@) {
                                        Some(p9) => if fits(x) && fits(y) && fits(w) && fits(h) {
                                            Some(
                                                (
                                                    Rt2D {
                                                        x: x as i64,
                                                        y: y as i64,
                                                        w: w as i64,
                                                        h: h as i64,
                                                        _u: core::marker::PhantomData,
                                                    },
                                                    p9,
                                                ),
                                            )
                                        } else {
                                            None
                                        },
                                        None => None,
                                    },
                                    None => None,
                                },
                                None => None,
                            },
                            None => None,
                        },
                        None => None,
                    },
                    None => None,
                },
                None => None,
            },
            None => None,
        },
        None => None,
    }
}

/// The point reader: two labelled numbers in braces.
#[verifier::opaque]
pub open spec fn p_pt(s: Seq<char>, pos: int) -> Option<(LclPt, int)> {
    match p_lit(s, pos, "{\"x\":"@) {
        Some(p1) => match p_int(s, p1) {
            Some((x, p2)) => match p_lit(s, p2, ",\"y\":"@) {
                Some(p3) => match p_int(s, p3) {
                    Some((y, p4)) => match p_lit(s, p4, "}"@) {
                        Some(p5) => if fits(x) && fits(y) {
                            Some(
                                (
                                    Pt2D {
                                        x: x as i64,
                                        y: y as i64,
                                        _u: core::marker::PhantomData,
                                    },
                                    p5,
                                ),
                            )
                        } else {
                            None
                        },
                        None => None,
                    },
                    None => None,
                },
                None => None,
            },
            None => None,
        },
        None => None,
    }
}

/// A literal right after `front` parses there, and the text regroups
/// past it.
proof fn lemma_tail_lit(s: Seq<char>, front: Seq<char>, lit: Seq<char>, rest: Seq<char>)
    requires
        s == front + (lit + rest),
    ensures
        p_lit(s, front.len() as int, lit) == Some((front.len() + lit.len()) as int),
        s == (front + lit) + rest,
    decreases 0int,
{
    lemma_subrange_at(s, front.len() as int, lit);
    assert(s =~= (front + lit) + rest);
}

/// A number right after `front`, followed by a non-digit, parses
/// there, and the text regroups past it.
proof fn lemma_tail_int(s: Seq<char>, front: Seq<char>, v: int, rest: Seq<char>)
    requires
        s == front + (int_chars(v) + rest),
        rest.len() > 0,
        !is_digit(rest[0]),
    ensures
        p_int(s, front.len() as int) == Some((v, (front.len() + int_chars(v).len()) as int)),
        s == (front + int_chars(v)) + rest,
    decreases 0int,
{
    let ic = int_chars(v);
    lemma_subrange_at(s, front.len() as int, ic);
    assert(s[front.len() + ic.len() as int] == rest[0]);
    lemma_p_int_of_chars(s, front.len() as int, v);
    assert(s =~= (front + ic) + rest);
}

/// Reading back an encoded rectangle recovers it exactly, and the
/// text regroups past it.
#[verifier::rlimit(100)]
pub proof fn lemma_p_rt(s: Seq<char>, front: Seq<char>, r: LclRt, post: Seq<char>)
    requires
        s == front + (enc_rt(r) + post),
    ensures
        p_rt(s, front.len() as int) == Some((r, (front.len() + enc_rt(r).len()) as int)),
        s == (front + enc_rt(r)) + post,
{
    reveal(enc_rt);
    reveal(p_rt);
    reveal_strlit("{\"x\":");
    reveal_strlit(",\"y\":");
    reveal_strlit(",\"w\":");
    reveal_strlit(",\"h\":");
    reveal_strlit("}");
    let a = "{\"x\":"@;
    let b = ",\"y\":"@;
    let c = ",\"w\":"@;
    let d = ",\"h\":"@;
    let e = "}"@;
    let ix = int_chars(r.x as int);
    let iy = int_chars(r.y as int);
    let iw = int_chars(r.w as int);
    let ih = int_chars(r.h as int);
    let r8 = e + post;
    let r7 = ih + r8;
    let r6 = d + r7;
    let r5 = iw + r6;
    let r4 = c + r5;
    let r3 = iy + r4;
    let r2 = b + r3;
    let r1 = ix + r2;
    assert(s =~= front + (a + r1));
    lemma_tail_lit(s, front, a, r1);
    lemma_tail_int(s, front + a, r.x as int, r2);
    lemma_tail_lit(s, (front + a) + ix, b, r3);
    lemma_tail_int(s, ((front + a) + ix) + b, r.y as int, r4);
    lemma_tail_lit(s, (((front + a) + ix) + b) + iy, c, r5);
    lemma_tail_int(s, ((((front + a) + ix) + b) + iy) + c, r.w as int, r6);
    lemma_tail_lit(s, (((((front + a) + ix) + b) + iy) + c) + iw, d, r7);
    lemma_tail_int(s, ((((((front + a) + ix) + b) + iy) + c) + iw) + d, r.h as int, r8);
    lemma_tail_lit(s, (((((((front + a) + ix) + b) + iy) + c) + iw) + d) + ih, e, post);
    assert(s =~= (front + enc_rt(r)) + post);
}

/// Reading back an encoded point recovers it exactly, and the text
/// regroups past it.
#[verifier::rlimit(100)]
pub proof fn lemma_p_pt(s: Seq<char>, front: Seq<char>, p: LclPt, post: Seq<char>)
    requires
        s == front + (enc_pt(p) + post),
    ensures
        p_pt(s, front.len() as int) == Some((p, (front.len() + enc_pt(p).len()) as int)),
        s == (front + enc_pt(p)) + post,
{
    reveal(enc_pt);
    reveal(p_pt);
    reveal_strlit("{\"x\":");
    reveal_strlit(",\"y\":");
    reveal_strlit("}");
    let a = "{\"x\":"@;
    let b = ",\"y\":"@;
    let e = "}"@;
    let ix = int_chars(p.x as int);
    let iy = int_chars(p.y as int);
    let r4 = e + post;
    let r3 = iy + r4;
    let r2 = b + r3;
    let r1 = ix + r2;
    assert(s =~= front + (a + r1));
    lemma_tail_lit(s, front, a, r1);
    lemma_tail_int(s, front + a, p.x as int, r2);
    lemma_tail_lit(s, (front + a) + ix, b, r3);
    lemma_tail_int(s, ((front + a) + ix) + b, p.y as int, r4);
    lemma_tail_lit(s, (((front + a) + ix) + b) + iy, e, post);
    assert(s =~= (front + enc_pt(p)) + post);
}

/// The textual name of a resize direction.
pub open spec fn dir_chars(d: ResizeDir) -> Seq<char> {
    match d {
        ResizeDir::TopLeft => "TopLeft"@,
        ResizeDir::TopRight => "TopRight"@,
        ResizeDir::BottomLeft => "BottomLeft"@,
        ResizeDir::BottomRight => "BottomRight"@,
        ResizeDir::Left => "Left"@,
        ResizeDir::Top => "Top"@,
        ResizeDir::Right => "Right"@,
        ResizeDir::Bottom => "Bottom"@,
        ResizeDir::Move => "Move"@,
    }
}

/// The direction a textual name denotes, if any.
pub open spec fn dir_of(t: Seq<char>) -> Option<ResizeDir> {
    if t == "TopLeft"@ {
        Some(ResizeDir::TopLeft)
    } else if t == "TopRight"@ {
        Some(ResizeDir::TopRight)
    } else if t == "BottomLeft"@ {
        Some(ResizeDir::BottomLeft)
    } else if t == "BottomRight"@ {
        Some(ResizeDir::BottomRight)
    } else if t == "Left"@ {
        Some(ResizeDir::Left)
    } else if t == "Top"@ {
        Some(ResizeDir::Top)
    } else if t == "Right"@ {
        Some(ResizeDir::Right)
    } else if t == "Bottom"@ {
        Some(ResizeDir::Bottom)
    } else if t == "Move"@ {
        Some(ResizeDir::Move)
    } else {
        None
    }
}

/// Direction names round trip and hold no quote.
proof fn lemma_dir_chars(d: ResizeDir)
    ensures
        dir_of(dir_chars(d)) == Some(d),
        quote_free(dir_chars(d)),
{
    reveal_strlit("TopLeft");
    reveal_strlit("TopRight");
    reveal_strlit("BottomLeft");
    reveal_strlit("BottomRight");
    reveal_strlit("Left");
    reveal_strlit("Top");
    reveal_strlit("Right");
    reveal_strlit("Bottom");
    reveal_strlit("Move");
    assert(("TopLeft"@).len() == 7);
    assert(("TopRight"@).len() == 8);
    assert(("BottomLeft"@).len() == 10);
    assert(("BottomRight"@).len() == 11);
    assert(("Left"@).len() == 4);
    assert(("Top"@).len() == 3);
    assert(("Right"@).len() == 5);
    assert(("Bottom"@).len() == 6);
    assert(("Move"@).len() == 4);
    if d is Move {
        assert("Move"@[0] == 'M');
        assert("Left"@[0] == 'L');
        assert(dir_chars(d) != "Left"@);
    }
}

/// A quote-free payload right before a quote reads back exactly, and
/// the text regroups past it (the quote stays in the remainder).
proof fn lemma_tail_quote(s: Seq<char>, front: Seq<char>, t: Seq<char>, rest: Seq<char>)
    requires
        s == front + (t + rest),
        quote_free(t),
        rest.len() > 0,
        rest[0] == '"',
    ensures
        p_until_quote(s, front.len() as int) == Some((t, (front.len() + t.len()) as int)),
        s == (front + t) + rest,
    decreases 0int,
{
    assert(s[front.len() + t.len() as int] == rest[0]);
    lemma_p_until_quote(s, front.len() as int, t);
    assert(s =~= (front + t) + rest);
}

/// The textual form of a window's retained state.
#[verifier::opaque]
pub open spec fn enc_ws(w: WindowState) -> Seq<char> {
    "{\"l\":{\"r\":"@ + enc_rt(w.l.r) + ",\"z\":"@ + int_chars(w.l.z.z as int) + "},\"dir\":\""@
        + dir_chars(w.dir) + "\",\"mouse_st\":"@ + enc_pt(w.mouse_st) + ",\"rt_st\":"@ + enc_rt(
        w.rt_st,
    ) + "}"@
}

/// The window-state reader.
#[verifier::opaque]
pub open spec fn p_ws(s: Seq<char>, pos: int) -> Option<(WindowState, int)> {
    match p_lit(s, pos, "{\"l\":{\"r\":"@) {
        Some(p1) => match p_rt(s, p1) {
            Some((lr, p2)) => match p_lit(s, p2, ",\"z\":"@) {
                Some(p3) => match p_int(s, p3) {
                    Some((z, p4)) => match p_lit(s, p4, "},\"dir\":\""@) {
                        Some(p5) => match p_until_quote(s, p5) {
                            Some((dt, p6)) => match dir_of(dt) {
                                Some(dir) => match p_lit(s, p6, "\",\"mouse_st\":"@) {
                                    Some(p7) => match p_pt(s, p7) {
                                        Some((ms, p8)) => match p_lit(s, p8, ",\"rt_st\":"@) {
                                            Some(p9) => match p_rt(s, p9) {
                                                Some((rs, p10)) => match p_lit(s, p10, "}"@) {
                                                    Some(p11) => if fits(z) {
                                                        Some(
                                                            (
                                                                WindowState {
                                                                    l: Layer {
                                                                        r: lr,
                                                                        z: ZOrder {
                                                                            z: z as i64,
                                                                            _u: core::marker::PhantomData,
                                                                        },
                                                                    },
                                                                    dir,
                                                                    mouse_st: ms,
                                                                    rt_st: rs,
                                                                },
                                                                p11,
                                                            ),
                                                        )
                                                    } else {
                                                        None
                                                    },
                                                    None => None,
                                                },
                                                None => None,
                                            },
                                            None => None,
                                        },
                                        None => None,
                                    },
                                    None => None,
                                },
                                None => None,
                            },
                            None => None,
                        },
                        None => None,
                    },
                    None => None,
                },
                None => None,
            },
            None => None,
        },
        None => None,
    }
}

/// Sequence concatenation re-associates.
proof fn lemma_assoc(x: Seq<char>, y: Seq<char>, z: Seq<char>)
    ensures
        (x + y) + z == x + (y + z),
    decreases 0int,
{
    assert((x + y) + z =~= x + (y + z));
}

/// Reading back an encoded window state recovers it exactly — the
/// persistence round trip for one widget's retained state.
#[verifier::rlimit(100)]
pub proof fn lemma_p_ws(s: Seq<char>, front: Seq<char>, w: WindowState, post: Seq<char>)
    requires
        s == front + (enc_ws(w) + post),
    ensures
        p_ws(s, front.len() as int) == Some((w, (front.len() + enc_ws(w).len()) as int)),
        s == (front + enc_ws(w)) + post,
{
    reveal(enc_ws);
    reveal(p_ws);
    reveal_strlit("{\"l\":{\"r\":");
    reveal_strlit(",\"z\":");
    reveal_strlit("},\"dir\":\"");
    reveal_strlit("\",\"mouse_st\":");
    reveal_strlit(",\"rt_st\":");
    reveal_strlit("}");
    let a = "{\"l\":{\"r\":"@;
    let b = ",\"z\":"@;
    let c = "},\"dir\":\""@;
    let d = "\",\"mouse_st\":"@;
    let e = ",\"rt_st\":"@;
    let f = "}"@;
    let iz = int_chars(w.l.z.z as int);
    let dt = dir_chars(w.dir);
    let e1 = enc_rt(w.l.r);
    let e2 = enc_pt(w.mouse_st);
    let e3 = enc_rt(w.rt_st);
    lemma_dir_chars(w.dir);
    let r10 = f + post;
    let r9 = e3 + r10;
    let r8 = e + r9;
    let r7 = e2 + r8;
    let r6 = d + r7;
    let r5 = dt + r6;
    let r4 = c + r5;
    let r3 = iz + r4;
    let r2 = b + r3;
    let r1 = e1 + r2;
    // Peel the encoding into a right-nested chain, one associativity
    // step at a time.
    let q1 = a + e1;
    let q2 = q1 + b;
    let q3 = q2 + iz;
    let q4 = q3 + c;
    let q5 = q4 + dt;
    let q6 = q5 + d;
    let q7 = q6 + e2;
    let q8 = q7 + e;
    let q9 = q8 + e3;
    assert(enc_ws(w) == q9 + f);
    lemma_assoc(q9, f, post);
    lemma_assoc(q8, e3, r10);
    lemma_assoc(q7, e, r9);
    lemma_assoc(q6, e2, r8);
    lemma_assoc(q5, d, r7);
    lemma_assoc(q4, dt, r6);
    lemma_assoc(q3, c, r5);
    lemma_assoc(q2, iz, r4);
    lemma_assoc(q1, b, r3);
    lemma_assoc(a, e1, r2);
    assert(s == front + (a + r1));
    lemma_tail_lit(s, front, a, r1);
    lemma_p_rt(s, front + a, w.l.r, r2);
    lemma_tail_lit(s, (front + a) + e1, b, r3);
    lemma_tail_int(s, ((front + a) + e1) + b, w.l.z.z as int, r4);
    lemma_tail_lit(s, (((front + a) + e1) + b) + iz, c, r5);
    lemma_tail_quote(s, ((((front + a) + e1) + b) + iz) + c, dt, r6);
    lemma_tail_lit(s, (((((front + a) + e1) + b) + iz) + c) + dt, d, r7);
    lemma_p_pt(s, ((((((front + a) + e1) + b) + iz) + c) + dt) + d, w.mouse_st, r8);
    lemma_tail_lit(s, (((((((front + a) + e1) + b) + iz) + c) + dt) + d) + e2, e, r9);
    lemma_p_rt(s, ((((((((front + a) + e1) + b) + iz) + c) + dt) + d) + e2) + e, w.rt_st, r10);
    lemma_tail_lit(
        s,
        (((((((((front + a) + e1) + b) + iz) + c) + dt) + d) + e2) + e) + e3,
        f,
        post,
    );
    // Regroup the consumed pieces back into the whole encoding.
    lemma_assoc(front, a, e1);
    lemma_assoc(front, q1, b);
    lemma_assoc(front, q2, iz);
    lemma_assoc(front, q3, c);
    lemma_assoc(front, q4, dt);
    lemma_assoc(front, q5, d);
    lemma_assoc(front, q6, e2);
    lemma_assoc(front, q7, e);
    lemma_assoc(front, q8, e3);
    lemma_assoc(front, q9, f);
    assert(s == (front + enc_ws(w)) + post);
}

/// One named window entry: a quoted id, a colon, the state.
#[verifier::opaque]
pub open spec fn p_win(s: Seq<char>, pos: int) -> Option<((Seq<char>, WindowState), int)> {
    match p_lit(s, pos, "\""@) {
        Some(p1) => match p_until_quote(s, p1) {
            Some((id, p2)) => match p_lit(s, p2, "\":"@) {
                Some(p3) => match p_ws(s, p3) {
                    Some((w, p4)) => Some(((id, w), p4)),
                    None => None,
                },
                None => None,
            },
            None => None,
        },
        None => None,
    }
}

/// Whether a parsed table already holds an entry named `id`.
pub open spec fn model_has_id<V>(es: Seq<(Seq<char>, V)>, id: Seq<char>) -> bool {
    exists|j: int| 0 <= j < es.len() && (#[trigger] es[j]).0 == id
}

/// A window table: entries separated by commas, or nothing before a
/// closing brace; a repeated id makes the document invalid.
pub open spec fn p_wins(s: Seq<char>, pos: int) -> Option<(Seq<(Seq<char>, WindowState)>, int)>
    decreases s.len() - pos,
{
    if 0 <= pos < s.len() && s[pos] == '}' {
        Some((Seq::empty(), pos))
    } else {
        match p_win(s, pos) {
            Some((e, p)) => if pos < p <= s.len() {
                if p < s.len() && s[p] == ',' {
                    match p_wins(s, p + 1) {
                        Some((rest, q)) => if model_has_id(rest, e.0) {
                            None
                        } else {
                            Some((seq![e] + rest, q))
                        },
                        None => None,
                    }
                } else {
                    Some((seq![e], p))
                }
            } else {
                None
            },
            None => None,
        }
    }
}

/// The id-and-state views of a window table's entries, in order.
pub open spec fn win_models(es: Seq<(String, WindowState)>) -> Seq<(Seq<char>, WindowState)> {
    es.map_values(|e: (String, WindowState)| (e.0@, e.1))
}

/// Whether every id in a window table is free of quotes (the codec
/// writes ids unescaped).
pub open spec fn win_ids_ok(es: Seq<(String, WindowState)>) -> bool {
    forall|i: int| 0 <= i < es.len() ==> quote_free((#[trigger] es[i]).0@)
}

/// The textual form of one named window entry.
#[verifier::opaque]
pub open spec fn enc_win(id: Seq<char>, w: WindowState) -> Seq<char> {
    "\""@ + id + ("\":"@ + enc_ws(w))
}

/// The textual form of a window table, entries in order.
pub open spec fn enc_wins(es: Seq<(String, WindowState)>) -> Seq<char>
    decreases es.len(),
{
    if es.len() == 0 {
        Seq::empty()
    } else if es.len() == 1 {
        enc_win(es[0].0@, es[0].1)
    } else {
        enc_win(es[0].0@, es[0].1) + (","@ + enc_wins(es.drop_first()))
    }
}

/// The textual form of one widget's retained memory.
pub open spec fn enc_wm(wm: WidgetMemory) -> Seq<char> {
    "{\"pos\":{\"wins\":{"@ + enc_wins(wm.pos.wins.entries@) + "},\"top_z\":"@ + int_chars(
        wm.pos.top_z.z as int,
    ) + "}}"@
}

/// The textual form of one named widget entry.
#[verifier::opaque]
pub open spec fn enc_wid(id: Seq<char>, wm: WidgetMemory) -> Seq<char> {
    "\""@ + id + ("\":"@ + enc_wm(wm))
}

/// The textual form of the widget table, entries in order.
pub open spec fn enc_wids(es: Seq<(String, WidgetMemory)>) -> Seq<char>
    decreases es.len(),
{
    if es.len() == 0 {
        Seq::empty()
    } else if es.len() == 1 {
        enc_wid(es[0].0@, es[0].1)
    } else {
        enc_wid(es[0].0@, es[0].1) + (","@ + enc_wids(es.drop_first()))
    }
}

/// The whole store as one JSON document.
pub open spec fn enc_store(m: Memory) -> Seq<char> {
    "{\"wid\":{"@ + enc_wids(m.wid.entries@) + "},\"debug\":"@ + (if m.debug {
        "true"@
    } else {
        "false"@
    }) + "}"@
}

/// Append a rectangle.
fn push_rt(s: &mut String, r: &LclRt)
    ensures
        final(s)@ == old(s)@ + enc_rt(*r),
{
    proof {
        reveal(enc_rt);
    }
    s.append("{\"x\":");
    push_i64(s, r.x);
    s.append(",\"y\":");
    push_i64(s, r.y);
    s.append(",\"w\":");
    push_i64(s, r.w);
    s.append(",\"h\":");
    push_i64(s, r.h);
    s.append("}");
    proof {
        assert(final(s)@ =~= old(s)@ + enc_rt(*r));
    }
}

/// Append a point.
fn push_pt(s: &mut String, p: &LclPt)
    ensures
        final(s)@ == old(s)@ + enc_pt(*p),
{
    proof {
        reveal(enc_pt);
    }
    s.append("{\"x\":");
    push_i64(s, p.x);
    s.append(",\"y\":");
    push_i64(s, p.y);
    s.append("}");
    proof {
        assert(final(s)@ =~= old(s)@ + enc_pt(*p));
    }
}

/// The exec mirror of `dir_chars`.
fn dir_str(d: ResizeDir) -> (r: &'static str)
    ensures
        r@ == dir_chars(d),
{
    match d {
        ResizeDir::TopLeft => "TopLeft",
        ResizeDir::TopRight => "TopRight",
        ResizeDir::BottomLeft => "BottomLeft",
        ResizeDir::BottomRight => "BottomRight",
        ResizeDir::Left => "Left",
        ResizeDir::Top => "Top",
        ResizeDir::Right => "Right",
        ResizeDir::Bottom => "Bottom",
        ResizeDir::Move => "Move",
    }
}

/// Append a window state.
fn push_ws(s: &mut String, w: &WindowState)
    ensures
        final(s)@ == old(s)@ + enc_ws(*w),
{
    proof {
        reveal(enc_ws);
    }
    s.append("{\"l\":{\"r\":");
    push_rt(s, &w.l.r);
    s.append(",\"z\":");
    push_i64(s, w.l.z.z);
    s.append("},\"dir\":\"");
    s.append(dir_str(w.dir));
    s.append("\",\"mouse_st\":");
    push_pt(s, &w.mouse_st);
    s.append(",\"rt_st\":");
    push_rt(s, &w.rt_st);
    s.append("}");
    proof {
        assert(final(s)@ =~= old(s)@ + enc_ws(*w));
    }
}

/// Append the window-table entries from `i` on.
fn push_wins_from(s: &mut String, es: &Vec<(String, WindowState)>, i: usize)
    requires
        i <= es@.len(),
    ensures
        final(s)@ == old(s)@ + enc_wins(es@.skip(i as int)),
    decreases es@.len() - i,
{
    proof {
        reveal(enc_win);
    }
    if i < es.len() {
        s.append("\"");
        s.append(es[i].0.as_str());
        s.append("\":");
        push_ws(s, &es[i].1);
        proof {
            assert(es@.skip(i as int)[0] == es@[i as int]);
        }
        if i + 1 < es.len() {
            s.append(",");
            push_wins_from(s, es, i + 1);
            proof {
                assert(es@.skip(i as int).drop_first() =~= es@.skip(i + 1));
                assert(final(s)@ =~= old(s)@ + enc_wins(es@.skip(i as int)));
            }
        } else {
            proof {
                assert(es@.skip(i as int).len() == 1);
                assert(final(s)@ =~= old(s)@ + enc_wins(es@.skip(i as int)));
            }
        }
    } else {
        proof {
            assert(es@.skip(i as int) =~= Seq::empty());
            assert(final(s)@ =~= old(s)@ + enc_wins(es@.skip(i as int)));
        }
    }
}

/// Append a window table.
fn push_wins(s: &mut String, es: &Vec<(String, WindowState)>)
    ensures
        final(s)@ == old(s)@ + enc_wins(es@),
{
    push_wins_from(s, es, 0);
    proof {
        assert(es@.skip(0) =~= es@);
    }
}

/// Append one widget's retained memory.
fn push_wm(s: &mut String, wm: &WidgetMemory)
    ensures
        final(s)@ == old(s)@ + enc_wm(*wm),
{
    s.append("{\"pos\":{\"wins\":{");
    push_wins(s, &wm.pos.wins.entries);
    s.append("},\"top_z\":");
    push_i64(s, wm.pos.top_z.z);
    s.append("}}");
    proof {
        assert(final(s)@ =~= old(s)@ + enc_wm(*wm));
    }
}

/// Append the widget-table entries from `i` on.
fn push_wids_from(s: &mut String, es: &Vec<(String, WidgetMemory)>, i: usize)
    requires
        i <= es@.len(),
    ensures
        final(s)@ == old(s)@ + enc_wids(es@.skip(i as int)),
    decreases es@.len() - i,
{
    proof {
        reveal(enc_wid);
    }
    if i < es.len() {
        s.append("\"");
        s.append(es[i].0.as_str());
        s.append("\":");
        push_wm(s, &es[i].1);
        proof {
            assert(es@.skip(i as int)[0] == es@[i as int]);
        }
        if i + 1 < es.len() {
            s.append(",");
            push_wids_from(s, es, i + 1);
            proof {
                assert(es@.skip(i as int).drop_first() =~= es@.skip(i + 1));
                assert(final(s)@ =~= old(s)@ + enc_wids(es@.skip(i as int)));
            }
        } else {
            proof {
                assert(es@.skip(i as int).len() == 1);
                assert(final(s)@ =~= old(s)@ + enc_wids(es@.skip(i as int)));
            }
        }
    } else {
        proof {
            assert(es@.skip(i as int) =~= Seq::empty());
            assert(final(s)@ =~= old(s)@ + enc_wids(es@.skip(i as int)));
        }
    }
}

/// Append the widget table.
fn push_wids(s: &mut String, es: &Vec<(String, WidgetMemory)>)
    ensures
        final(s)@ == old(s)@ + enc_wids(es@),
{
    push_wids_from(s, es, 0);
    proof {
        assert(es@.skip(0) =~= es@);
    }
}

/// Write the whole store as one JSON document. Ids are written as
/// they are; the reader recovers them exactly as long as they hold no
/// quote character.
pub fn save_store(m: &Memory) -> (r: String)
    ensures
        r@ == enc_store(*m),
{
    let mut s = String::new();
    s.append("{\"wid\":{");
    push_wids(&mut s, &m.wid.entries);
    s.append("},\"debug\":");
    if m.debug {
        s.append("true");
    } else {
        s.append("false");
    }
    s.append("}");
    proof {
        assert(s@ =~= enc_store(*m));
    }
    s
}

/// Reading back one encoded window entry recovers its id and state,
/// and the text regroups past it.
#[verifier::rlimit(100)]
pub proof fn lemma_p_win(s: Seq<char>, front: Seq<char>, id: Seq<char>, w: WindowState, post: Seq<char>)
    requires
        s == front + (enc_win(id, w) + post),
        quote_free(id),
    ensures
        p_win(s, front.len() as int) == Some(((id, w), (front.len() + enc_win(id, w).len()) as int)),
        s == (front + enc_win(id, w)) + post,
        s[front.len() as int] == '"',
    decreases 0int,
{
    reveal(enc_win);
    reveal(p_win);
    reveal_strlit("\"");
    reveal_strlit("\":");
    let q = "\""@;
    let qc = "\":"@;
    let r3 = enc_ws(w) + post;
    let r2 = qc + r3;
    let r1 = id + r2;
    lemma_assoc(q, id, r2);
    lemma_assoc(q + id, qc, r3);
    assert(s == front + (q + r1));
    lemma_tail_lit(s, front, q, r1);
    assert(qc[0] == '"');
    lemma_tail_quote(s, front + q, id, r2);
    lemma_tail_lit(s, (front + q) + id, qc, r3);
    lemma_p_ws(s, ((front + q) + id) + qc, w, post);
    lemma_assoc(front, q, id);
    lemma_assoc(front, q + id, qc);
    lemma_assoc(front, (q + id) + qc, enc_ws(w));
    assert(s == (front + enc_win(id, w)) + post);
    assert(s[front.len() as int] == (q + r1)[0]);
}

/// Reading back an encoded window table, up against a closing brace,
/// recovers every id and state in order.
#[verifier::rlimit(100)]
pub proof fn lemma_p_wins(
    s: Seq<char>,
    front: Seq<char>,
    es: Seq<(String, WindowState)>,
    post: Seq<char>,
)
    requires
        s == front + (enc_wins(es) + post),
        win_ids_ok(es),
        forall|i: int, j: int| 0 <= i < j < es.len() ==> (#[trigger] es[i]).0@ != (#[trigger] es[j]).0@,
        post.len() > 0,
        post[0] == '}',
    ensures
        p_wins(s, front.len() as int) == Some(
            (win_models(es), (front.len() + enc_wins(es).len()) as int),
        ),
        s == (front + enc_wins(es)) + post,
    decreases es.len(),
{
    if es.len() == 0 {
        assert(s =~= front + post);
        assert(s[front.len() as int] == post[0]);
        assert(win_models(es) =~= Seq::empty());
        assert(s =~= (front + enc_wins(es)) + post);
    } else if es.len() == 1 {
        lemma_p_win(s, front, es[0].0@, es[0].1, post);
        let p = front.len() + enc_win(es[0].0@, es[0].1).len();
        assert(p <= s.len());
        assert(s[p as int] == post[0]);
        assert(s[front.len() as int] == '"');
        assert(win_models(es) =~= seq![(es[0].0@, es[0].1)]);
    } else {
        let e0 = enc_win(es[0].0@, es[0].1);
        let rest = es.drop_first();
        let r1 = ","@ + (enc_wins(rest) + post);
        reveal_strlit(",");
        lemma_assoc(","@, enc_wins(rest), post);
        lemma_assoc(e0, ","@ + enc_wins(rest), post);
        assert(e0 + ((","@ + enc_wins(rest)) + post) =~= e0 + r1);
        assert(s == front + (e0 + r1));
        lemma_p_win(s, front, es[0].0@, es[0].1, r1);
        lemma_tail_lit(s, front + e0, ","@, enc_wins(rest) + post);
        assert(win_ids_ok(rest)) by {
            assert(forall|i: int| 0 <= i < rest.len() ==> rest[i] == es[i + 1]);
        }
        lemma_p_wins(s, (front + e0) + ","@, rest, post);
        let p0 = front.len() as int;
        let p1 = p0 + e0.len() as int;
        assert(s[p1] == (","@ + (enc_wins(rest) + post))[0]);
        assert(s[p1] == ',');
        assert(!model_has_id(win_models(rest), es[0].0@)) by {
            if model_has_id(win_models(rest), es[0].0@) {
                let j = choose|j: int|
                    0 <= j < win_models(rest).len() && (#[trigger] win_models(rest)[j]).0 == es[0].0@;
                assert(rest[j].0@ == es[j + 1].0@);
                assert(es[0].0@ != es[j + 1].0@);
            }
        }
        assert(win_models(es) =~= seq![(es[0].0@, es[0].1)] + win_models(rest)) by {
            assert(forall|i: int| 0 <= i < rest.len() ==> rest[i] == es[i + 1]);
        }
        lemma_assoc(front, e0, ","@);
        lemma_assoc(front, e0 + ","@, enc_wins(rest));
        assert(s == (front + enc_wins(es)) + post) by {
            assert(enc_wins(es) == e0 + (","@ + enc_wins(rest)));
            lemma_assoc(e0, ","@, enc_wins(rest));
        }
        assert(p1 + 1 <= s.len());
        assert(p_wins(s, p0) == Some(
            (win_models(es), (front.len() + enc_wins(es).len()) as int),
        )) by {
            assert(s[p0] == '"');
            assert(p_win(s, p0) == Some(((es[0].0@, es[0].1), p1)));
        }
    }
}

/// The contents of one widget's memory, as parsed: its window
/// entries and its top z counter.
pub open spec fn wm_model(wm: WidgetMemory) -> (Seq<(Seq<char>, WindowState)>, int) {
    (win_models(wm.pos.wins.entries@), wm.pos.top_z.z as int)
}

/// One widget's memory: a window table in braces plus the counter.
#[verifier::opaque]
pub open spec fn p_wm(s: Seq<char>, pos: int) -> Option<
    ((Seq<(Seq<char>, WindowState)>, int), int),
> {
    match p_lit(s, pos, "{\"pos\":{\"wins\":{"@) {
        Some(p1) => match p_wins(s, p1) {
            Some((ws, p2)) => match p_lit(s, p2, "},\"top_z\":"@) {
                Some(p3) => match p_int(s, p3) {
                    Some((z, p4)) => match p_lit(s, p4, "}}"@) {
                        Some(p5) => if fits(z) {
                            Some(((ws, z), p5))
                        } else {
                            None
                        },
                        None => None,
                    },
                    None => None,
                },
                None => None,
            },
            None => None,
        },
        None => None,
    }
}

/// Reading back one widget's encoded memory recovers its windows and
/// counter, and the text regroups past it.
#[verifier::rlimit(100)]
pub proof fn lemma_p_wm(s: Seq<char>, front: Seq<char>, wm: WidgetMemory, post: Seq<char>)
    requires
        s == front + (enc_wm(wm) + post),
        win_ids_ok(wm.pos.wins.entries@),
        wm.wf(),
    ensures
        p_wm(s, front.len() as int) == Some(
            (wm_model(wm), (front.len() + enc_wm(wm).len()) as int),
        ),
        s == (front + enc_wm(wm)) + post,
    decreases 0int,
{
    reveal(enc_wm);
    reveal(p_wm);
    reveal_strlit("{\"pos\":{\"wins\":{");
    reveal_strlit("},\"top_z\":");
    reveal_strlit("}}");
    let a = "{\"pos\":{\"wins\":{"@;
    let b = "},\"top_z\":"@;
    let c = "}}"@;
    let ew = enc_wins(wm.pos.wins.entries@);
    let iz = int_chars(wm.pos.top_z.z as int);
    let r3 = c + post;
    let r2 = iz + r3;
    let r1 = b + r2;
    let q1 = a + ew;
    let q2 = q1 + b;
    let q3 = q2 + iz;
    assert(enc_wm(wm) == q3 + c);
    lemma_assoc(q3, c, post);
    lemma_assoc(q2, iz, r3);
    lemma_assoc(q1, b, r2);
    lemma_assoc(a, ew, r1);
    assert(s == front + (a + (ew + r1)));
    lemma_tail_lit(s, front, a, ew + r1);
    assert(r1[0] == '}');
    lemma_p_wins(s, front + a, wm.pos.wins.entries@, r1);
    lemma_tail_lit(s, (front + a) + ew, b, r2);
    assert(r3[0] == '}');
    lemma_tail_int(s, ((front + a) + ew) + b, wm.pos.top_z.z as int, r3);
    lemma_tail_lit(s, (((front + a) + ew) + b) + iz, c, post);
    lemma_assoc(front, a, ew);
    lemma_assoc(front, q1, b);
    lemma_assoc(front, q2, iz);
    lemma_assoc(front, q3, c);
    assert(s == (front + enc_wm(wm)) + post);
}

/// One named widget entry: a quoted id, a colon, the memory.
#[verifier::opaque]
pub open spec fn p_wid(s: Seq<char>, pos: int) -> Option<
    ((Seq<char>, (Seq<(Seq<char>, WindowState)>, int)), int),
> {
    match p_lit(s, pos, "\""@) {
        Some(p1) => match p_until_quote(s, p1) {
            Some((id, p2)) => match p_lit(s, p2, "\":"@) {
                Some(p3) => match p_wm(s, p3) {
                    Some((wm, p4)) => Some(((id, wm), p4)),
                    None => None,
                },
                None => None,
            },
            None => None,
        },
        None => None,
    }
}

/// Reading back one encoded widget entry recovers its id and memory.
#[verifier::rlimit(100)]
pub proof fn lemma_p_wid(
    s: Seq<char>,
    front: Seq<char>,
    id: Seq<char>,
    wm: WidgetMemory,
    post: Seq<char>,
)
    requires
        s == front + (enc_wid(id, wm) + post),
        quote_free(id),
        win_ids_ok(wm.pos.wins.entries@),
        wm.wf(),
    ensures
        p_wid(s, front.len() as int) == Some(
            ((id, wm_model(wm)), (front.len() + enc_wid(id, wm).len()) as int),
        ),
        s == (front + enc_wid(id, wm)) + post,
        s[front.len() as int] == '"',
    decreases 0int,
{
    reveal(enc_wid);
    reveal(p_wid);
    reveal_strlit("\"");
    reveal_strlit("\":");
    let q = "\""@;
    let qc = "\":"@;
    let r3 = enc_wm(wm) + post;
    let r2 = qc + r3;
    let r1 = id + r2;
    lemma_assoc(q, id, r2);
    lemma_assoc(q + id, qc, r3);
    assert(s == front + (q + r1));
    lemma_tail_lit(s, front, q, r1);
    assert(qc[0] == '"');
    lemma_tail_quote(s, front + q, id, r2);
    lemma_tail_lit(s, (front + q) + id, qc, r3);
    lemma_p_wm(s, ((front + q) + id) + qc, wm, post);
    lemma_assoc(front, q, id);
    lemma_assoc(front, q + id, qc);
    lemma_assoc(front, (q + id) + qc, enc_wm(wm));
    assert(s == (front + enc_wid(id, wm)) + post);
    assert(s[front.len() as int] == (q + r1)[0]);
}

/// A widget table: entries separated by commas, or nothing before a
/// closing brace; a repeated id makes the document invalid.
pub open spec fn p_wids(s: Seq<char>, pos: int) -> Option<
    (Seq<(Seq<char>, (Seq<(Seq<char>, WindowState)>, int))>, int),
>
    decreases s.len() - pos,
{
    if 0 <= pos < s.len() && s[pos] == '}' {
        Some((Seq::empty(), pos))
    } else {
        match p_wid(s, pos) {
            Some((e, p)) => if pos < p <= s.len() {
                if p < s.len() && s[p] == ',' {
                    match p_wids(s, p + 1) {
                        Some((rest, q)) => if model_has_id(rest, e.0) {
                            None
                        } else {
                            Some((seq![e] + rest, q))
                        },
                        None => None,
                    }
                } else {
                    Some((seq![e], p))
                }
            } else {
                None
            },
            None => None,
        }
    }
}

/// The id-and-memory views of the widget table's entries, in order.
pub open spec fn wid_models(es: Seq<(String, WidgetMemory)>) -> Seq<
    (Seq<char>, (Seq<(Seq<char>, WindowState)>, int)),
> {
    es.map_values(|e: (String, WidgetMemory)| (e.0@, wm_model(e.1)))
}

/// Whether every id in the store — widget ids and their window ids —
/// is free of quotes.
pub open spec fn store_ids_ok(m: Memory) -> bool {
    forall|i: int|
        0 <= i < m.wid.entries@.len() ==> quote_free((#[trigger] m.wid.entries@[i]).0@)
            && win_ids_ok(m.wid.entries@[i].1.pos.wins.entries@)
}

/// Reading back an encoded widget table, up against a closing brace,
/// recovers every id and memory in order.
#[verifier::rlimit(100)]
pub proof fn lemma_p_wids(
    s: Seq<char>,
    front: Seq<char>,
    es: Seq<(String, WidgetMemory)>,
    post: Seq<char>,
)
    requires
        s == front + (enc_wids(es) + post),
        forall|i: int|
            0 <= i < es.len() ==> quote_free((#[trigger] es[i]).0@) && win_ids_ok(
                es[i].1.pos.wins.entries@,
            ) && es[i].1.wf(),
        forall|i: int, j: int| 0 <= i < j < es.len() ==> (#[trigger] es[i]).0@ != (#[trigger] es[j]).0@,
        post.len() > 0,
        post[0] == '}',
    ensures
        p_wids(s, front.len() as int) == Some(
            (wid_models(es), (front.len() + enc_wids(es).len()) as int),
        ),
        s == (front + enc_wids(es)) + post,
    decreases es.len(),
{
    if es.len() == 0 {
        assert(s =~= front + post);
        assert(s[front.len() as int] == post[0]);
        assert(wid_models(es) =~= Seq::empty());
        assert(s =~= (front + enc_wids(es)) + post);
    } else if es.len() == 1 {
        lemma_p_wid(s, front, es[0].0@, es[0].1, post);
        let p = front.len() + enc_wid(es[0].0@, es[0].1).len();
        assert(p <= s.len());
        assert(s[p as int] == post[0]);
        assert(s[front.len() as int] == '"');
        assert(wid_models(es) =~= seq![(es[0].0@, wm_model(es[0].1))]);
    } else {
        let e0 = enc_wid(es[0].0@, es[0].1);
        let rest = es.drop_first();
        let r1 = ","@ + (enc_wids(rest) + post);
        reveal_strlit(",");
        lemma_assoc(","@, enc_wids(rest), post);
        lemma_assoc(e0, ","@ + enc_wids(rest), post);
        assert(e0 + ((","@ + enc_wids(rest)) + post) =~= e0 + r1);
        assert(s == front + (e0 + r1));
        lemma_p_wid(s, front, es[0].0@, es[0].1, r1);
        lemma_tail_lit(s, front + e0, ","@, enc_wids(rest) + post);
        assert(forall|i: int| 0 <= i < rest.len() ==> rest[i] == es[i + 1]);
        lemma_p_wids(s, (front + e0) + ","@, rest, post);
        let p0 = front.len() as int;
        let p1 = p0 + e0.len() as int;
        assert(s[p1] == (","@ + (enc_wids(rest) + post))[0]);
        assert(s[p1] == ',');
        assert(!model_has_id(wid_models(rest), es[0].0@)) by {
            if model_has_id(wid_models(rest), es[0].0@) {
                let j = choose|j: int|
                    0 <= j < wid_models(rest).len() && (#[trigger] wid_models(rest)[j]).0 == es[0].0@;
                assert(rest[j].0@ == es[j + 1].0@);
                assert(es[0].0@ != es[j + 1].0@);
            }
        }
        assert(wid_models(es) =~= seq![(es[0].0@, wm_model(es[0].1))] + wid_models(rest)) by {
            assert(forall|i: int| 0 <= i < rest.len() ==> rest[i] == es[i + 1]);
        }
        lemma_assoc(front, e0, ","@);
        lemma_assoc(front, e0 + ","@, enc_wids(rest));
        assert(s == (front + enc_wids(es)) + post) by {
            assert(enc_wids(es) == e0 + (","@ + enc_wids(rest)));
            lemma_assoc(e0, ","@, enc_wids(rest));
        }
        assert(p1 + 1 <= s.len());
        assert(p_wids(s, p0) == Some(
            (wid_models(es), (front.len() + enc_wids(es).len()) as int),
        )) by {
            assert(s[p0] == '"');
            assert(p_wid(s, p0) == Some(((es[0].0@, wm_model(es[0].1)), p1)));
        }
    }
}

/// The whole-store reader: the widget table in braces, then the
/// debug flag, then the end of the document.
#[verifier::opaque]
pub open spec fn p_store(s: Seq<char>) -> Option<
    (Seq<(Seq<char>, (Seq<(Seq<char>, WindowState)>, int))>, bool),
> {
    match p_lit(s, 0, "{\"wid\":{"@) {
        Some(p1) => match p_wids(s, p1) {
            Some((es, p2)) => match p_lit(s, p2, "},\"debug\":"@) {
                Some(p3) => {
                    let (debug, p4) = if p_lit(s, p3, "true"@) is Some {
                        (true, p3 + 4)
                    } else if p_lit(s, p3, "false"@) is Some {
                        (false, p3 + 5)
                    } else {
                        (false, -1)
                    };
                    if p4 >= 0 {
                        match p_lit(s, p4, "}"@) {
                            Some(p5) => if p5 == s.len() {
                                Some((es, debug))
                            } else {
                                None
                            },
                            None => None,
                        }
                    } else {
                        None
                    }
                },
                None => None,
            },
            None => None,
        },
        None => None,
    }
}

/// The persistence round trip: reading back a written store
/// reproduces every widget id, every window id and state, every
/// counter and the debug flag — as long as ids hold no quote
/// character, which the writer leaves unescaped.
#[verifier::rlimit(100)]
pub proof fn lemma_store_round_trip(m: Memory)
    requires
        m.wf(),
        store_ids_ok(m),
    ensures
        p_store(enc_store(m)) == Some((wid_models(m.wid.entries@), m.debug)),
{
    reveal(p_store);
    reveal_strlit("{\"wid\":{");
    reveal_strlit("},\"debug\":");
    reveal_strlit("true");
    reveal_strlit("false");
    reveal_strlit("}");
    let s = enc_store(m);
    let a = "{\"wid\":{"@;
    let b = "},\"debug\":"@;
    let dbg = if m.debug {
        "true"@
    } else {
        "false"@
    };
    let f = "}"@;
    let ew = enc_wids(m.wid.entries@);
    let r3 = f + Seq::<char>::empty();
    let r2 = dbg + r3;
    let r1 = b + r2;
    let q1 = a + ew;
    let q2 = q1 + b;
    let q3 = q2 + dbg;
    assert(s =~= q3 + f);
    assert(q3 + f =~= (q3 + f) + Seq::<char>::empty());
    lemma_assoc(q3, f, Seq::empty());
    lemma_assoc(q2, dbg, r3);
    lemma_assoc(q1, b, r2);
    lemma_assoc(a, ew, r1);
    assert(s == Seq::<char>::empty() + (a + (ew + r1))) by {
        assert(Seq::<char>::empty() + (a + (ew + r1)) =~= a + (ew + r1));
    }
    lemma_tail_lit(s, Seq::empty(), a, ew + r1);
    assert(r1[0] == '}');
    lemma_p_wids(s, Seq::empty() + a, m.wid.entries@, r1);
    lemma_tail_lit(s, (Seq::<char>::empty() + a) + ew, b, r2);
    lemma_tail_lit(s, ((Seq::<char>::empty() + a) + ew) + b, dbg, r3);
    if m.debug {
        assert(p_lit(s, (((Seq::<char>::empty() + a) + ew) + b).len() as int, "true"@) is Some);
    } else {
        // "false" does not start like "true", so the first match
        // fails and the second one lands.
        let p3 = (((Seq::<char>::empty() + a) + ew) + b).len() as int;
        assert(s[p3] == dbg[0]);
        assert(dbg[0] == 'f');
        if p_lit(s, p3, "true"@) is Some {
            assert(s.subrange(p3, p3 + 4)[0] == 't');
            assert(false);
        }
    }
    lemma_tail_lit(s, (((Seq::<char>::empty() + a) + ew) + b) + dbg, f, Seq::empty());
    assert((((((Seq::<char>::empty() + a) + ew) + b) + dbg) + f).len() == s.len());
}

/// Whether `lit` sits at `pos`; on a match, the position after it —
/// exactly as the spec-level matcher decides.
fn expect(s: &str, pos: usize, lit: &str) -> (r: Option<usize>)
    ensures
        r matches Some(p) ==> p_lit(s@, pos as int, lit@) == Some(p as int) && pos + lit@.len()
            == p && p <= s@.len(),
        r is None ==> p_lit(s@, pos as int, lit@) is None,
{
    let n = s.unicode_len();
    let m = lit.unicode_len();
    if pos > n || m > n - pos {
        return None;
    }
    let mut i: usize = 0;
    while i < m
        invariant
            i <= m,
            m == lit@.len(),
            n == s@.len(),
            pos + m <= n,
            forall|j: int| 0 <= j < i ==> s@[pos + j] == lit@[j],
        decreases m - i,
    {
        if s.get_char(pos + i) != lit.get_char(i) {
            proof {
                assert(s@.subrange(pos as int, pos + m) != lit@) by {
                    assert(s@.subrange(pos as int, pos + m)[i as int] == s@[pos + i]);
                }
            }
            return None;
        }
        i = i + 1;
    }
    proof {
        lemma_subrange_at(s@, pos as int, lit@);
    }
    Some(pos + m)
}

/// Read a signed decimal number; refuse one that does not fit — the
/// result is the spec-level reader's, whenever that value fits.
fn parse_i64(s: &str, pos: usize) -> (r: Option<(i64, usize)>)
    ensures
        match p_int(s@, pos as int) {
            Some(t) => if fits(t.0) {
                r matches Some(e) && e.0 as int == t.0 && e.1 as int == t.1 && pos < e.1
                    && e.1 <= s@.len()
            } else {
                r is None
            },
            None => r is None,
        },
{
    let n = s.unicode_len();
    if pos >= n {
        return None;
    }
    let mut p = pos;
    let mut neg = false;
    if s.get_char(p) == '-' {
        neg = true;
        p = p + 1;
    }
    let ghost start = p as int;
    let mut acc: u64 = 0;
    let mut any = false;
    while p < n
        invariant
            pos < n,
            pos <= start <= p <= n,
            n == s@.len(),
            neg ==> start == pos + 1 && s@[pos as int] == '-',
            !neg ==> start == pos as int && s@[pos as int] != '-',
            any <==> start < p,
            forall|j: int| start <= j < p ==> is_digit(#[trigger] s@[j]),
            acc as int == dec_val(s@, start, p as int),
        decreases n - p,
    {
        let c = s.get_char(p);
        let d: u64 = match c {
            '0' => 0,
            '1' => 1,
            '2' => 2,
            '3' => 3,
            '4' => 4,
            '5' => 5,
            '6' => 6,
            '7' => 7,
            '8' => 8,
            '9' => 9,
            _ => {
                proof {
                    lemma_digits_end_bounded(s@, start, start, p as int);
                }
                return if any {
                    finish_i64(neg, acc, p)
                } else {
                    None
                };
            },
        };
        proof {
            assert(is_digit(c) && digit_val(c) == d);
        }
        if acc > (u64::MAX - d) / 10 {
            // The run's value can only grow from here; it is already
            // past what an i64 holds.
            proof {
                lemma_digits_end_past(s@, start, p as int);
                lemma_digits_end_digits(s@, start);
                let de = digits_end(s@, start);
                lemma_dec_val_mono(s@, start, p + 1, de);
                assert(dec_val(s@, start, p + 1) == acc as int * 10 + d);
                assert(dec_val(s@, start, de) > u64::MAX);
            }
            return None;
        }
        acc = acc * 10 + d;
        any = true;
        p = p + 1;
    }
    proof {
        lemma_digits_end_bounded(s@, start, start, p as int);
    }
    if any {
        finish_i64(neg, acc, p)
    } else {
        None
    }
}

/// Fold the sign into an accumulated magnitude, refusing overflow.
fn finish_i64(neg: bool, acc: u64, p: usize) -> (r: Option<(i64, usize)>)
    ensures
        ({
            let v: int = if neg {
                -(acc as int)
            } else {
                acc as int
            };
            &&& fits(v) ==> (r matches Some(t) && t.0 as int == v && t.1 == p)
            &&& !fits(v) ==> r is None
        }),
{
    if neg {
        if acc > 9223372036854775808u64 {
            None
        } else if acc == 9223372036854775808u64 {
            Some((i64::MIN, p))
        } else {
            Some((-(acc as i64), p))
        }
    } else {
        if acc > i64::MAX as u64 {
            None
        } else {
            Some((acc as i64, p))
        }
    }
}

/// Read the characters before the next quote as an owned id — the
/// spec-level reader's result exactly.
fn parse_id(s: &str, pos: usize) -> (r: Option<(String, usize)>)
    ensures
        match p_until_quote(s@, pos as int) {
            Some(t) => r matches Some(e) && e.0@ == t.0 && e.1 as int == t.1 && pos <= e.1
                && e.1 < s@.len(),
            None => r is None,
        },
{
    let n = s.unicode_len();
    if pos > n {
        return None;
    }
    let mut p = pos;
    while p < n
        invariant
            pos <= p <= n,
            n == s@.len(),
            forall|j: int| pos <= j < p ==> s@[j] != '"',
        decreases n - p,
    {
        if s.get_char(p) == '"' {
            proof {
                lemma_quote_end_bounded(s@, pos as int, pos as int, p as int);
            }
            let t = s.substring_char(pos, p);
            return Some((<String as vstd::string::StringExecFns>::from_str(t), p));
        }
        p = p + 1;
    }
    proof {
        lemma_quote_end_bounded(s@, pos as int, pos as int, n as int);
    }
    None
}

/// The direction a textual name denotes, if any — `dir_of` exactly.
fn dir_of_name(t: &str) -> (r: Option<ResizeDir>)
    ensures
        r == dir_of(t@),
{
    let ts = crate::ident::id_owned(t);
    if ts.eq(&crate::ident::id_owned("TopLeft")) {
        Some(ResizeDir::TopLeft)
    } else if ts.eq(&crate::ident::id_owned("TopRight")) {
        Some(ResizeDir::TopRight)
    } else if ts.eq(&crate::ident::id_owned("BottomLeft")) {
        Some(ResizeDir::BottomLeft)
    } else if ts.eq(&crate::ident::id_owned("BottomRight")) {
        Some(ResizeDir::BottomRight)
    } else if ts.eq(&crate::ident::id_owned("Left")) {
        Some(ResizeDir::Left)
    } else if ts.eq(&crate::ident::id_owned("Top")) {
        Some(ResizeDir::Top)
    } else if ts.eq(&crate::ident::id_owned("Right")) {
        Some(ResizeDir::Right)
    } else if ts.eq(&crate::ident::id_owned("Bottom")) {
        Some(ResizeDir::Bottom)
    } else if ts.eq(&crate::ident::id_owned("Move")) {
        Some(ResizeDir::Move)
    } else {
        None
    }
}

/// Read a rectangle — the spec-level reader's result exactly.
fn parse_rt(s: &str, pos: usize) -> (r: Option<(LclRt, usize)>)
    ensures
        match p_rt(s@, pos as int) {
            Some(t) => r matches Some(e) && e.0 == t.0 && e.1 as int == t.1 && pos < e.1
                && e.1 <= s@.len(),
            None => r is None,
        },
{
    proof {
        reveal(p_rt);
        reveal_strlit("{\"x\":");
    }
    let p1 = match expect(s, pos, "{\"x\":") {
        Some(p) => p,
        None => { return None },
    };
    let (x, p2) = match parse_i64(s, p1) {
        Some(t) => t,
        None => { return None },
    };
    let p3 = match expect(s, p2, ",\"y\":") {
        Some(p) => p,
        None => { return None },
    };
    let (y, p4) = match parse_i64(s, p3) {
        Some(t) => t,
        None => { return None },
    };
    let p5 = match expect(s, p4, ",\"w\":") {
        Some(p) => p,
        None => { return None },
    };
    let (w, p6) = match parse_i64(s, p5) {
        Some(t) => t,
        None => { return None },
    };
    let p7 = match expect(s, p6, ",\"h\":") {
        Some(p) => p,
        None => { return None },
    };
    let (h, p8) = match parse_i64(s, p7) {
        Some(t) => t,
        None => { return None },
    };
    let p9 = match expect(s, p8, "}") {
        Some(p) => p,
        None => { return None },
    };
    Some((LclRt::new(x, y, w, h), p9))
}

/// Read a point — the spec-level reader's result exactly.
fn parse_pt(s: &str, pos: usize) -> (r: Option<(LclPt, usize)>)
    ensures
        match p_pt(s@, pos as int) {
            Some(t) => r matches Some(e) && e.0 == t.0 && e.1 as int == t.1 && pos < e.1
                && e.1 <= s@.len(),
            None => r is None,
        },
{
    proof {
        reveal(p_pt);
        reveal_strlit("{\"x\":");
    }
    let p1 = match expect(s, pos, "{\"x\":") {
        Some(p) => p,
        None => { return None },
    };
    let (x, p2) = match parse_i64(s, p1) {
        Some(t) => t,
        None => { return None },
    };
    let p3 = match expect(s, p2, ",\"y\":") {
        Some(p) => p,
        None => { return None },
    };
    let (y, p4) = match parse_i64(s, p3) {
        Some(t) => t,
        None => { return None },
    };
    let p5 = match expect(s, p4, "}") {
        Some(p) => p,
        None => { return None },
    };
    Some((LclPt::new(x, y), p5))
}

/// Read one window state — the spec-level reader's result exactly.
fn parse_ws(s: &str, pos: usize) -> (r: Option<(WindowState, usize)>)
    ensures
        match p_ws(s@, pos as int) {
            Some(t) => r matches Some(e) && e.0 == t.0 && e.1 as int == t.1 && pos < e.1
                && e.1 <= s@.len(),
            None => r is None,
        },
{
    proof {
        reveal(p_ws);
        reveal_strlit("{\"l\":{\"r\":");
    }
    let p1 = match expect(s, pos, "{\"l\":{\"r\":") {
        Some(p) => p,
        None => { return None },
    };
    let (lr, p2) = match parse_rt(s, p1) {
        Some(t) => t,
        None => { return None },
    };
    let p3 = match expect(s, p2, ",\"z\":") {
        Some(p) => p,
        None => { return None },
    };
    let (z, p4) = match parse_i64(s, p3) {
        Some(t) => t,
        None => { return None },
    };
    let p5 = match expect(s, p4, "},\"dir\":\"") {
        Some(p) => p,
        None => { return None },
    };
    let (dt, p6) = match parse_id(s, p5) {
        Some(t) => t,
        None => { return None },
    };
    let dir = match dir_of_name(dt.as_str()) {
        Some(d) => d,
        None => { return None },
    };
    let p7 = match expect(s, p6, "\",\"mouse_st\":") {
        Some(p) => p,
        None => { return None },
    };
    let (ms, p8) = match parse_pt(s, p7) {
        Some(t) => t,
        None => { return None },
    };
    let p9 = match expect(s, p8, ",\"rt_st\":") {
        Some(p) => p,
        None => { return None },
    };
    let (rs, p10) = match parse_rt(s, p9) {
        Some(t) => t,
        None => { return None },
    };
    let p11 = match expect(s, p10, "}") {
        Some(p) => p,
        None => { return None },
    };
    Some((WindowState { l: Layer::new(lr, ZOrder::new(z)), dir, mouse_st: ms, rt_st: rs }, p11))
}

/// Read one named window entry — the spec-level reader's result
/// exactly.
fn parse_win(s: &str, pos: usize) -> (r: Option<((String, WindowState), usize)>)
    ensures
        match p_win(s@, pos as int) {
            Some(t) => r matches Some(e) && e.0.0@ == t.0.0 && e.0.1 == t.0.1 && e.1 as int == t.1
                && pos < e.1 && e.1 <= s@.len(),
            None => r is None,
        },
{
    proof {
        reveal(p_win);
        reveal_strlit("\"");
    }
    let p1 = match expect(s, pos, "\"") {
        Some(p) => p,
        None => { return None },
    };
    let (id, p2) = match parse_id(s, p1) {
        Some(t) => t,
        None => { return None },
    };
    let p3 = match expect(s, p2, "\":") {
        Some(p) => p,
        None => { return None },
    };
    let (w, p4) = match parse_ws(s, p3) {
        Some(t) => t,
        None => { return None },
    };
    Some(((id, w), p4))
}

/// Read a window table (the text between its braces) — the entries
/// the spec-level reader gives, in order, as a well-formed table.
fn parse_wins(s: &str, pos: usize) -> (r: Option<(IdMap<WindowState>, usize)>)
    ensures
        match p_wins(s@, pos as int) {
            Some(t) => r matches Some(e) && e.1 as int == t.1 && pos <= e.1 && e.1 <= s@.len()
                && e.0.wf() && win_models(e.0.entries@) == t.0,
            None => r is None,
        },
    decreases s@.len() - pos,
{
    let n = s.unicode_len();
    if pos < n && s.get_char(pos) == '}' {
        let map = IdMap::<WindowState>::new();
        proof {
            assert(win_models(map.entries@) =~= Seq::<(Seq<char>, WindowState)>::empty());
        }
        return Some((map, pos));
    }
    let (e, p) = match parse_win(s, pos) {
        Some(t) => t,
        None => { return None },
    };
    if p < n && s.get_char(p) == ',' {
        let (mut map, q) = match parse_wins(s, p + 1) {
            Some(t) => t,
            None => { return None },
        };
        if map.contains(e.0.as_str()) {
            proof {
                let ghost rest = p_wins(s@, p + 1)->Some_0.0;
                assert(model_has_id(rest, e.0@)) by {
                    let j = map.idx_spec(e.0@);
                    assert(win_models(map.entries@)[j].0 == map.entries@[j].0@);
                }
            }
            return None;
        }
        proof {
            let ghost rest = p_wins(s@, p + 1)->Some_0.0;
            assert(!model_has_id(rest, e.0@)) by {
                if model_has_id(rest, e.0@) {
                    let j = choose|j: int|
                        0 <= j < rest.len() && (#[trigger] rest[j]).0 == e.0@;
                    assert(win_models(map.entries@)[j].0 == map.entries@[j].0@);
                    assert(map.contains_spec(e.0@));
                }
            }
        }
        let ghost before = map;
        map.entries.insert(0, e);
        proof {
            assert(map.entries@ =~= seq![e].add(before.entries@));
            assert forall|i: int, j: int|
                0 <= i < j < map.entries@.len() implies map.entries@[i].0@
                != map.entries@[j].0@ by {
                if i == 0 {
                    assert(win_models(before.entries@)[j - 1].0 == before.entries@[j - 1].0@);
                    if map.entries@[0].0@ == map.entries@[j].0@ {
                        assert(before.contains_spec(e.0@));
                    }
                }
            }
            assert(win_models(map.entries@) =~= seq![(e.0@, e.1)] + win_models(before.entries@));
        }
        Some((map, q))
    } else {
        let mut map = IdMap::<WindowState>::new();
        map.set(e.0.as_str(), e.1);
        proof {
            assert(map.entries@.len() == 1);
            assert(win_models(map.entries@) =~= seq![(e.0@, e.1)]);
        }
        Some((map, p))
    }
}

/// Read one widget's retained memory — the spec-level reader's result
/// exactly, as a well-formed value.
fn parse_wm(s: &str, pos: usize) -> (r: Option<(WidgetMemory, usize)>)
    ensures
        match p_wm(s@, pos as int) {
            Some(t) => r matches Some(e) && wm_model(e.0) == t.0 && e.1 as int == t.1 && e.0.wf()
                && pos < e.1 && e.1 <= s@.len(),
            None => r is None,
        },
{
    proof {
        reveal(p_wm);
        reveal_strlit("{\"pos\":{\"wins\":{");
    }
    let p1 = match expect(s, pos, "{\"pos\":{\"wins\":{") {
        Some(p) => p,
        None => { return None },
    };
    let (wins, p2) = match parse_wins(s, p1) {
        Some(t) => t,
        None => { return None },
    };
    let p3 = match expect(s, p2, "},\"top_z\":") {
        Some(p) => p,
        None => { return None },
    };
    let (z, p4) = match parse_i64(s, p3) {
        Some(t) => t,
        None => { return None },
    };
    let p5 = match expect(s, p4, "}}") {
        Some(p) => p,
        None => { return None },
    };
    Some((WidgetMemory { pos: ResizeState { wins, top_z: ZOrder::new(z) } }, p5))
}

/// Read one named widget entry — the spec-level reader's result
/// exactly.
fn parse_wid(s: &str, pos: usize) -> (r: Option<((String, WidgetMemory), usize)>)
    ensures
        match p_wid(s@, pos as int) {
            Some(t) => r matches Some(e) && e.0.0@ == t.0.0 && wm_model(e.0.1) == t.0.1
                && e.0.1.wf() && e.1 as int == t.1 && pos < e.1 && e.1 <= s@.len(),
            None => r is None,
        },
{
    proof {
        reveal(p_wid);
        reveal_strlit("\"");
    }
    let p1 = match expect(s, pos, "\"") {
        Some(p) => p,
        None => { return None },
    };
    let (id, p2) = match parse_id(s, p1) {
        Some(t) => t,
        None => { return None },
    };
    let p3 = match expect(s, p2, "\":") {
        Some(p) => p,
        None => { return None },
    };
    let (wm, p4) = match parse_wm(s, p3) {
        Some(t) => t,
        None => { return None },
    };
    Some(((id, wm), p4))
}

/// Read the widget table — the entries the spec-level reader gives,
/// in order, as a well-formed table of well-formed memories.
fn parse_wids(s: &str, pos: usize) -> (r: Option<(IdMap<WidgetMemory>, usize)>)
    ensures
        match p_wids(s@, pos as int) {
            Some(t) => r matches Some(e) && e.1 as int == t.1 && pos <= e.1 && e.1 <= s@.len()
                && e.0.wf() && wid_models(e.0.entries@) == t.0 && forall|i: int|
                0 <= i < e.0.entries@.len() ==> (#[trigger] e.0.entries@[i].1).wf(),
            None => r is None,
        },
    decreases s@.len() - pos,
{
    let n = s.unicode_len();
    if pos < n && s.get_char(pos) == '}' {
        let map = IdMap::<WidgetMemory>::new();
        proof {
            assert(wid_models(map.entries@) =~= Seq::<
                (Seq<char>, (Seq<(Seq<char>, WindowState)>, int)),
            >::empty());
        }
        return Some((map, pos));
    }
    let (e, p) = match parse_wid(s, pos) {
        Some(t) => t,
        None => { return None },
    };
    if p < n && s.get_char(p) == ',' {
        let (mut map, q) = match parse_wids(s, p + 1) {
            Some(t) => t,
            None => { return None },
        };
        if map.contains(e.0.as_str()) {
            proof {
                let ghost rest = p_wids(s@, p + 1)->Some_0.0;
                assert(model_has_id(rest, e.0@)) by {
                    let j = map.idx_spec(e.0@);
                    assert(wid_models(map.entries@)[j].0 == map.entries@[j].0@);
                }
            }
            return None;
        }
        proof {
            let ghost rest = p_wids(s@, p + 1)->Some_0.0;
            assert(!model_has_id(rest, e.0@)) by {
                if model_has_id(rest, e.0@) {
                    let j = choose|j: int|
                        0 <= j < rest.len() && (#[trigger] rest[j]).0 == e.0@;
                    assert(wid_models(map.entries@)[j].0 == map.entries@[j].0@);
                    assert(map.contains_spec(e.0@));
                }
            }
        }
        let ghost before = map;
        map.entries.insert(0, e);
        proof {
            assert(map.entries@ =~= seq![e].add(before.entries@));
            assert forall|i: int, j: int|
                0 <= i < j < map.entries@.len() implies map.entries@[i].0@
                != map.entries@[j].0@ by {
                if i == 0 {
                    assert(wid_models(before.entries@)[j - 1].0 == before.entries@[j - 1].0@);
                    if map.entries@[0].0@ == map.entries@[j].0@ {
                        assert(before.contains_spec(e.0@));
                    }
                }
            }
            assert(wid_models(map.entries@) =~= seq![(e.0@, wm_model(e.1))] + wid_models(
                before.entries@,
            ));
        }
        Some((map, q))
    } else {
        let mut map = IdMap::<WidgetMemory>::new();
        map.set(e.0.as_str(), e.1);
        proof {
            assert(map.entries@.len() == 1);
            assert(wid_models(map.entries@) =~= seq![(e.0@, wm_model(e.1))]);
        }
        Some((map, p))
    }
}

/// Read back a whole store written by `save_store`: exactly what the
/// spec-level reader accepts, as a well-formed store; a malformed
/// document reads as nothing.
pub fn load_store(s: &str) -> (r: Option<Memory>)
    ensures
        match p_store(s@) {
            Some(t) => r matches Some(m) && m.wf() && wid_models(m.wid.entries@) == t.0 && m.debug
                == t.1,
            None => r is None,
        },
{
    proof {
        reveal(p_store);
        reveal_strlit("{\"wid\":{");
        reveal_strlit("},\"debug\":");
        reveal_strlit("true");
        reveal_strlit("false");
        reveal_strlit("}");
    }
    let n = s.unicode_len();
    let p1 = match expect(s, 0, "{\"wid\":{") {
        Some(p) => p,
        None => { return None },
    };
    let (wid, p2) = match parse_wids(s, p1) {
        Some(t) => t,
        None => { return None },
    };
    let p3 = match expect(s, p2, "},\"debug\":") {
        Some(p) => p,
        None => { return None },
    };
    let (debug, p4) = match expect(s, p3, "true") {
        Some(q) => (true, q),
        None => match expect(s, p3, "false") {
            Some(q) => (false, q),
            None => { return None },
        },
    };
    let p5 = match expect(s, p4, "}") {
        Some(q) => q,
        None => { return None },
    };
    if p5 != n {
        return None;
    }
    Some(Memory { wid, debug })
}

} // verus!
