//! URL-safe sextet encoding of byte sequences.
//!
//! The input is taken three bytes at a time; each group is split into four
//! six-bit values, and each value is mapped through a fixed alphabet: digits
//! for 0-9, upper-case letters for 10-35, lower-case letters for 36-61, and
//! `-` and `_` for 62 and 63. A trailing group of one or two bytes is padded
//! with zero bytes before the same expansion, so non-empty input always
//! encodes to a multiple of four characters.

use vstd::prelude::*;

verus! {

/// The sextet alphabet. Values above 63 cannot arise from the masked
/// splitting below; they map to a sentinel that marks an internal defect.
pub open spec fn encode6bit_spec(v: u8) -> char {
    if v < 10 {
        ((v + 48) as u8) as char
    } else if v < 36 {
        ((v + 55) as u8) as char
    } else if v < 62 {
        ((v + 61) as u8) as char
    } else if v == 62 {
        '-'
    } else if v == 63 {
        '_'
    } else {
        '?'
    }
}

/// The four alphabet characters produced from one three-byte group.
pub open spec fn append3_spec(e: u8, n: u8, t: u8) -> Seq<char> {
    seq![
        encode6bit_spec(63 & (e >> 2)),
        encode6bit_spec(63 & ((3 & e) << 4 | n >> 4)),
        encode6bit_spec(63 & ((15 & n) << 2 | t >> 6)),
        encode6bit_spec(63 & t),
    ]
}

/// The whole encoding: full groups of three, then a zero-padded tail.
pub open spec fn encode64_spec(b: Seq<u8>) -> Seq<char>
    decreases b.len(),
{
    if b.len() == 0 {
        Seq::empty()
    } else if b.len() == 1 {
        append3_spec(b[0], 0, 0)
    } else if b.len() == 2 {
        append3_spec(b[0], b[1], 0)
    } else {
        append3_spec(b[0], b[1], b[2]) + encode64_spec(b.skip(3))
    }
}

/// Maps one six-bit value through the encoding alphabet.
pub fn encode6bit(e1: u8) -> (c: char)
    ensures
        c == encode6bit_spec(e1),
{
    if e1 < 10 {
        (e1 + 48) as char
    } else if e1 < 36 {
        (e1 + 55) as char
    } else if e1 < 62 {
        (e1 + 61) as char
    } else if e1 == 62 {
        '-'
    } else if e1 == 63 {
        '_'
    } else {
        '?'
    }
}

/// Relies on String::push: appends exactly the given character at the end.
#[verifier::external_body]
fn push_char(s: &mut String, c: char)
    ensures
        final(s)@ == old(s)@ + seq![c],
{
    s.push(c)
}

/// Expands one three-byte group into its four alphabet characters.
pub fn append3bytes(e: u8, n: u8, t: u8) -> (r: String)
    ensures
        r@ == append3_spec(e, n, t),
{
    let c1: u8 = e >> 2;
    let c2: u8 = ((3 & e) << 4) | (n >> 4);
    let c3: u8 = ((15 & n) << 2) | (t >> 6);
    let c4: u8 = 63 & t;
    let mut r = String::new();
    push_char(&mut r, encode6bit(63 & c1));
    push_char(&mut r, encode6bit(63 & c2));
    push_char(&mut r, encode6bit(63 & c3));
    push_char(&mut r, encode6bit(c4));
    proof {
        assert(r@ =~= append3_spec(e, n, t));
    }
    r
}

/// Encodes an arbitrary byte sequence with the sextet alphabet; a trailing
/// group of one or two bytes is zero-padded.
pub fn encode64_(e: &[u8]) -> (r: String)
    ensures
        r@ == encode64_spec(e@),
{
    let mut r = String::new();
    let mut i: usize = 0;
    proof {
        assert(e@.skip(0) =~= e@);
        assert(r@ + encode64_spec(e@.skip(0)) =~= encode64_spec(e@));
    }
    while e.len() >= 3 && i <= e.len() - 3
        invariant
            i <= e@.len(),
            encode64_spec(e@) == r@ + encode64_spec(e@.skip(i as int)),
        decreases e@.len() - i,
    {
        let g = append3bytes(e[i], e[i + 1], e[i + 2]);
        proof {
            let tail = e@.skip(i as int);
            assert(tail[0] == e@[i as int]);
            assert(tail[1] == e@[i as int + 1]);
            assert(tail[2] == e@[i as int + 2]);
            assert(tail.skip(3) =~= e@.skip(i as int + 3));
            assert(r@ + g@ + encode64_spec(e@.skip(i as int + 3)) =~= r@ + encode64_spec(
                e@.skip(i as int),
            ));
        }
        r.append(g.as_str());
        i = i + 3;
    }
    let ghost tail = e@.skip(i as int);
    let rem: usize = e.len() - i;
    if rem == 2 {
        let g = append3bytes(e[i], e[i + 1], 0);
        proof {
            assert(tail[0] == e@[i as int]);
            assert(tail[1] == e@[i as int + 1]);
            assert(r@ + g@ =~= r@ + encode64_spec(tail));
        }
        r.append(g.as_str());
    } else if rem == 1 {
        let g = append3bytes(e[i], 0, 0);
        proof {
            assert(tail[0] == e@[i as int]);
            assert(r@ + g@ =~= r@ + encode64_spec(tail));
        }
        r.append(g.as_str());
    } else {
        proof {
            assert(tail.len() == 0);
            assert(r@ + encode64_spec(tail) =~= r@);
        }
    }
    r
}

/// The encoded form of an empty input is empty; a non-empty input of `k`
/// bytes encodes to exactly `(ceil(k / 3)) * 4` characters, so always to a
/// multiple of four.
pub proof fn lemma_encode64_len(b: Seq<u8>)
    ensures
        b.len() == 0 ==> encode64_spec(b) == Seq::<char>::empty(),
        b.len() > 0 ==> encode64_spec(b).len() == ((b.len() + 2) / 3) * 4,
    decreases b.len(),
{
    if b.len() >= 3 {
        lemma_encode64_len(b.skip(3));
        assert(b.skip(3).len() == b.len() - 3);
        if b.len() > 3 {
            assert((b.len() - 3 + 2) / 3 + 1 == (b.len() + 2) / 3);
        }
    }
}

} // verus!
