//! Small string utilities shared by the option groups and the command:
//! joining argument tokens with spaces and printing decimal integers.

use vstd::prelude::*;

verus! {

/// The tokens of `items` joined by a single space, with no leading or
/// trailing space; empty when `items` is empty.
pub open spec fn join_spaced(items: Seq<Seq<char>>) -> Seq<char>
    decreases items.len(),
{
    if items.len() == 0 {
        Seq::empty()
    } else if items.len() == 1 {
        items[0]
    } else {
        join_spaced(items.drop_last()) + seq![' '] + items.last()
    }
}

/// Relies on `String::push`: appends the one character to the string.
#[verifier::external_body]
pub(crate) fn push_char(s: &mut String, c: char)
    ensures
        final(s)@ == old(s)@.push(c),
{
    s.push(c);
}

/// Joins the given tokens with single spaces.
pub fn join_with_space(items: &Vec<String>) -> (r: String)
    ensures
        r@ == join_spaced(items.deep_view()),
{
    let ghost dv = items.deep_view();
    let mut r = String::new();
    let mut i: usize = 0;
    while i < items.len()
        invariant
            0 <= i <= items.len(),
            dv == items.deep_view(),
            dv.len() == items.len(),
            r@ == join_spaced(dv.take(i as int)),
        decreases items.len() - i,
    {
        if i > 0 {
            push_char(&mut r, ' ');
        }
        r.append(items[i].as_str());
        proof {
            assert(dv[i as int] == items@[i as int]@);
            let prefix = dv.take(i + 1 as int);
            assert(prefix.drop_last() =~= dv.take(i as int));
            assert(prefix.last() == dv[i as int]);
            assert(r@ =~= join_spaced(prefix));
        }
        i = i + 1;
    }
    proof {
        assert(dv.take(items.len() as int) =~= dv);
    }
    r
}

/// The character for one decimal digit.
pub open spec fn digit_char(d: nat) -> char
    recommends
        d < 10,
{
    ((d + 48) as u8) as char
}

/// The decimal representation of `n`, most significant digit first,
/// without a sign and without leading zeros (`0` is printed as "0").
pub open spec fn dec_rep(n: nat) -> Seq<char>
    decreases n,
{
    if n < 10 {
        seq![digit_char(n)]
    } else {
        dec_rep(n / 10) + seq![digit_char(n % 10)]
    }
}

/// Prints `n` in decimal.
pub fn u64_to_decimal(n: u64) -> (r: String)
    ensures
        r@ == dec_rep(n as nat),
    decreases n,
{
    let d: u8 = (n % 10) as u8 + 48;
    let c: char = d as char;
    if n < 10 {
        let mut s = String::new();
        push_char(&mut s, c);
        proof {
            assert(s@ =~= dec_rep(n as nat));
        }
        s
    } else {
        let mut s = u64_to_decimal(n / 10);
        push_char(&mut s, c);
        proof {
            assert(s@ =~= dec_rep(n as nat));
        }
        s
    }
}

/// The decimal representation of `n` with a leading minus sign when `n`
/// is negative.
pub open spec fn int_rep(n: int) -> Seq<char> {
    if n < 0 {
        seq!['-'] + dec_rep((-n) as nat)
    } else {
        dec_rep(n as nat)
    }
}

/// Prints `n` in decimal, with a minus sign when negative.
pub fn i64_to_decimal(n: i64) -> (r: String)
    ensures
        r@ == int_rep(n as int),
{
    if n >= 0 {
        u64_to_decimal(n as u64)
    } else {
        let mag: u64 = (-(n as i128)) as u64;
        let mut r = String::new();
        push_char(&mut r, '-');
        let digits = u64_to_decimal(mag);
        r.append(digits.as_str());
        proof {
            assert(r@ =~= int_rep(n as int));
        }
        r
    }
}

/// The concatenation of the segments of `segs` from position `i` on.
pub open spec fn cat_from<A>(segs: Seq<Seq<A>>, i: int) -> Seq<A>
    decreases segs.len() - i,
{
    if i < 0 || i >= segs.len() {
        Seq::empty()
    } else {
        segs[i] + cat_from(segs, i + 1)
    }
}

/// The concatenation of the segments of `segs` before position `i`.
pub open spec fn cat_upto<A>(segs: Seq<Seq<A>>, i: int) -> Seq<A>
    decreases i,
{
    if i <= 0 || i > segs.len() {
        Seq::empty()
    } else {
        cat_upto(segs, i - 1) + segs[i - 1]
    }
}

/// The whole concatenation splits at any position into the part before it
/// and the part from it on.
pub proof fn lemma_cat_split<A>(segs: Seq<Seq<A>>, i: int)
    requires
        0 <= i <= segs.len(),
    ensures
        cat_from(segs, 0) == cat_upto(segs, i) + cat_from(segs, i),
    decreases i,
{
    if i == 0 {
        assert(cat_from(segs, 0) =~= cat_upto(segs, 0) + cat_from(segs, 0));
    } else {
        lemma_cat_split(segs, i - 1);
        assert(cat_from(segs, i - 1) == segs[i - 1] + cat_from(segs, i));
        assert(cat_upto(segs, i - 1) + (segs[i - 1] + cat_from(segs, i)) =~= (cat_upto(segs, i
            - 1) + segs[i - 1]) + cat_from(segs, i));
    }
}

/// The whole concatenation splits around any one segment: the part before
/// it, the segment itself, and the part after it.
pub proof fn lemma_cat_split_three<A>(segs: Seq<Seq<A>>, i: int)
    requires
        0 <= i < segs.len(),
    ensures
        cat_from(segs, 0) == cat_upto(segs, i) + segs[i] + cat_from(segs, i + 1),
{
    lemma_cat_split(segs, i);
    assert(cat_from(segs, i) == segs[i] + cat_from(segs, i + 1));
    assert(cat_upto(segs, i) + (segs[i] + cat_from(segs, i + 1)) =~= cat_upto(segs, i) + segs[i]
        + cat_from(segs, i + 1));
}

/// Segment lists that agree from position `i` on concatenate to the same
/// tail.
pub proof fn lemma_cat_from_congruent<A>(s1: Seq<Seq<A>>, s2: Seq<Seq<A>>, i: int)
    requires
        s1.len() == s2.len(),
        forall|j: int| i <= j < s1.len() ==> s1[j] == s2[j],
    ensures
        cat_from(s1, i) == cat_from(s2, i),
    decreases s1.len() - i,
{
    if 0 <= i < s1.len() {
        lemma_cat_from_congruent(s1, s2, i + 1);
    }
}

/// Segment lists that agree before position `i` concatenate to the same
/// prefix.
pub proof fn lemma_cat_upto_congruent<A>(s1: Seq<Seq<A>>, s2: Seq<Seq<A>>, i: int)
    requires
        s1.len() == s2.len(),
        forall|j: int| 0 <= j < i ==> s1[j] == s2[j],
    ensures
        cat_upto(s1, i) == cat_upto(s2, i),
    decreases i,
{
    if 0 < i <= s1.len() {
        lemma_cat_upto_congruent(s1, s2, i - 1);
    }
}

/// A concatenation of empty segments is empty.
pub proof fn lemma_cat_from_empty<A>(segs: Seq<Seq<A>>, i: int)
    requires
        forall|j: int| 0 <= j < segs.len() ==> segs[j] == Seq::<A>::empty(),
    ensures
        cat_from(segs, i) == Seq::<A>::empty(),
    decreases segs.len() - i,
{
    if 0 <= i < segs.len() {
        lemma_cat_from_empty(segs, i + 1);
        assert(segs[i] + Seq::<A>::empty() =~= Seq::<A>::empty());
    }
}

/// Appends one flag token.
pub(crate) fn push_flag(cmd: &mut Vec<String>, flag: &str)
    ensures
        final(cmd).deep_view() == old(cmd).deep_view().push(flag@),
{
    cmd.push(flag.to_owned());
    proof {
        assert(cmd.deep_view() =~= old(cmd).deep_view().push(flag@));
    }
}

/// Appends a flag token followed by its value.
pub(crate) fn push_flag_value(cmd: &mut Vec<String>, flag: &str, value: &String)
    ensures
        final(cmd).deep_view() == old(cmd).deep_view() + seq![flag@, value@],
{
    cmd.push(flag.to_owned());
    cmd.push(value.clone());
    proof {
        assert(cmd.deep_view() =~= old(cmd).deep_view() + seq![flag@, value@]);
    }
}

/// Appends a flag token followed by an owned value.
pub(crate) fn push_flag_owned(cmd: &mut Vec<String>, flag: &str, value: String)
    ensures
        final(cmd).deep_view() == old(cmd).deep_view() + seq![flag@, value@],
{
    let ghost value_chars = value@;
    cmd.push(flag.to_owned());
    cmd.push(value);
    proof {
        assert(cmd.deep_view() =~= old(cmd).deep_view() + seq![flag@, value_chars]);
    }
}

/// Appends the flag token when `set`, nothing otherwise: one boolean
/// field's whole segment.
pub(crate) fn emit_bool_flag(cmd: &mut Vec<String>, set: bool, flag: &str)
    ensures
        final(cmd).deep_view() == old(cmd).deep_view() + (if set {
            seq![flag@]
        } else {
            Seq::<Seq<char>>::empty()
        }),
{
    if set {
        push_flag(cmd, flag);
    }
    proof {
        assert(cmd.deep_view() =~= old(cmd).deep_view() + (if set {
            seq![flag@]
        } else {
            Seq::<Seq<char>>::empty()
        }));
    }
}

/// Appends the flag token and the value when the value is non-empty,
/// nothing otherwise: one string field's whole segment.
pub(crate) fn emit_string_flag(cmd: &mut Vec<String>, value: &String, flag: &str)
    ensures
        final(cmd).deep_view() == old(cmd).deep_view() + (if value@.len() > 0 {
            seq![flag@, value@]
        } else {
            Seq::<Seq<char>>::empty()
        }),
{
    if !value.as_str().is_empty() {
        push_flag_value(cmd, flag, value);
    }
    proof {
        assert(cmd.deep_view() =~= old(cmd).deep_view() + (if value@.len() > 0 {
            seq![flag@, value@]
        } else {
            Seq::<Seq<char>>::empty()
        }));
    }
}

/// Appends the token when it is non-empty, nothing otherwise.
pub(crate) fn emit_token_if_nonempty(cmd: &mut Vec<String>, tok: &str)
    ensures
        final(cmd).deep_view() == old(cmd).deep_view() + (if tok@.len() > 0 {
            seq![tok@]
        } else {
            Seq::<Seq<char>>::empty()
        }),
{
    if !tok.is_empty() {
        push_flag(cmd, tok);
    }
    proof {
        assert(cmd.deep_view() =~= old(cmd).deep_view() + (if tok@.len() > 0 {
            seq![tok@]
        } else {
            Seq::<Seq<char>>::empty()
        }));
    }
}

} // verus!
