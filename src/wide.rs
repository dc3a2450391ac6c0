//! Marshalling text into the engine's null-terminated UTF-16 form.
use vstd::prelude::*;

verus! {

/// The UTF-16 code units of one character: one unit below 0x10000, otherwise
/// a high surrogate followed by a low surrogate.
pub open spec fn utf16_units(c: char) -> Seq<u16> {
    let v = c as u32;
    if v < 0x10000 {
        seq![v as u16]
    } else {
        let w = (v - 0x10000) as u32;
        seq![(0xd800 + w / 0x400) as u16, (0xdc00 + w % 0x400) as u16]
    }
}

/// The UTF-16 encoding of a character sequence.
pub open spec fn utf16_encode(s: Seq<char>) -> Seq<u16>
    decreases s.len(),
{
    if s.len() == 0 {
        Seq::empty()
    } else {
        utf16_encode(s.drop_last()) + utf16_units(s.last())
    }
}

/// The null-terminated UTF-16 form of a character sequence.
pub open spec fn wide_of(s: Seq<char>) -> Seq<u16> {
    utf16_encode(s).push(0)
}

/// True for a unit in the low-surrogate range.
pub open spec fn is_low_surrogate(u: u16) -> bool {
    0xdc00 <= u <= 0xdfff
}

/// The character that a high and a low surrogate stand for.
pub open spec fn surrogate_pair_char(hi: u16, lo: u16) -> char {
    (0x10000 + (hi - 0xd800) * 0x400 + (lo - 0xdc00)) as u32 as char
}

/// Reads UTF-16 units back into characters, from the last unit backwards.
pub open spec fn utf16_decode(u: Seq<u16>) -> Seq<char>
    decreases u.len(),
{
    if u.len() == 0 {
        Seq::empty()
    } else if u.len() >= 2 && is_low_surrogate(u.last()) {
        utf16_decode(u.subrange(0, u.len() - 2)).push(surrogate_pair_char(u[u.len() - 2], u.last()))
    } else {
        utf16_decode(u.drop_last()).push(u.last() as u32 as char)
    }
}

/// Decoding the units of one character appended to an encoding gives that
/// character back after what was decoded before.
proof fn lemma_decode_step(prefix: Seq<u16>, c: char)
    ensures
        utf16_decode(prefix + utf16_units(c)) == utf16_decode(prefix).push(c),
{
    broadcast use vstd::utf8::char_is_scalar, vstd::utf8::char_u32_cast;

    let v = c as u32;
    let u = prefix + utf16_units(c);
    if v < 0x10000 {
        assert(u.drop_last() =~= prefix);
        assert(u.last() == v as u16);
        assert(!(0xd800 <= v <= 0xdfff));
        assert(!is_low_surrogate(u.last()));
        assert((v as u16) as u32 == v);
    } else {
        let w = (v - 0x10000) as u32;
        let hi = (0xd800 + w / 0x400) as u16;
        let lo = (0xdc00 + w % 0x400) as u16;
        assert(v <= 0x10ffff);
        assert(u.subrange(0, u.len() - 2) =~= prefix);
        assert(u[u.len() - 2] == hi);
        assert(u.last() == lo);
        assert(is_low_surrogate(lo));
        assert(0x10000 + (hi - 0xd800) * 0x400 + (lo - 0xdc00) == v) by (nonlinear_arith)
            requires
                w == v - 0x10000,
                w < 0x100000,
                hi == 0xd800 + w / 0x400,
                lo == 0xdc00 + w % 0x400,
        ;
    }
}

/// Decoding an encoding gives back the characters that were encoded.
pub proof fn lemma_utf16_round_trip(s: Seq<char>)
    ensures
        utf16_decode(utf16_encode(s)) == s,
    decreases s.len(),
{
    if s.len() > 0 {
        lemma_utf16_round_trip(s.drop_last());
        lemma_decode_step(utf16_encode(s.drop_last()), s.last());
        assert(s.drop_last().push(s.last()) =~= s);
    }
}

/// The wide form loses nothing: its units before the terminator decode to the
/// original characters, and two texts with the same wide form are equal.
pub proof fn lemma_wide_lossless(a: Seq<char>, b: Seq<char>)
    ensures
        wide_of(a).last() == 0,
        utf16_decode(wide_of(a).drop_last()) == a,
        wide_of(a) == wide_of(b) ==> a == b,
{
    assert(wide_of(a).drop_last() =~= utf16_encode(a));
    assert(wide_of(b).drop_last() =~= utf16_encode(b));
    lemma_utf16_round_trip(a);
    lemma_utf16_round_trip(b);
}

/// Converts text into the null-terminated UTF-16 form that the engine's
/// calls take.
pub fn to_wide(s: &str) -> (r: Vec<u16>)
    ensures
        r@ == wide_of(s@),
{
    broadcast use vstd::string::axiom_spec_iter, vstd::utf8::char_is_scalar;

    let mut r: Vec<u16> = Vec::new();
    for c in it: s.chars()
        invariant
            it.seq() == s@,
            r@ == utf16_encode(s@.take(it.index() as int)),
    {
        let ghost done = s@.take(it.index() as int);
        let v: u32 = c as u32;
        if v < 0x10000 {
            r.push(v as u16);
        } else {
            let w: u32 = v - 0x10000;
            r.push((0xd800 + w / 0x400) as u16);
            r.push((0xdc00 + w % 0x400) as u16);
        }
        proof {
            let next = s@.take(it.index() + 1);
            assert(next.drop_last() =~= done);
            assert(next.last() == c);
        }
    }
    assert(s@.take(s@.len() as int) =~= s@);
    r.push(0);
    r
}

} // verus!
