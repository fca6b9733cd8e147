//! Client-side codec for a small framed binary protocol that inspects and
//! mutates the memory of a remote process: read a value at an address, write
//! a value, register a watch on an address, list the registered watches, and
//! remove a watch.
//!
//! This crate holds the verified core: frame encoding, response decoding and
//! the type resolver. The caller owns the transport; every function here maps
//! plain values to plain values.

use vstd::prelude::*;

pub mod bytes;
pub mod data_type;
pub mod decode;
pub mod commands;
pub mod error;

verus! {

/// True of the characters a hexadecimal address may hold.
pub open spec fn is_hex_digit(c: char) -> bool {
    ('0' <= c && c <= '9') || ('A' <= c && c <= 'F') || ('a' <= c && c <= 'f')
}

/// Strip from `s` every character that is not a hexadecimal digit, keeping
/// the rest in order. Used to scrub a typed-in address or value before it is
/// parsed.
pub fn hex_only_string(s: &mut String)
    ensures
        final(s)@ == old(s)@.filter(|c: char| is_hex_digit(c)),
{
    let len = s.as_str().unicode_len();
    let mut kept = String::new();
    let mut i: usize = 0;
    while i < len
        invariant
            i <= len,
            len == s@.len(),
            s@ == old(s)@,
            kept@ == s@.subrange(0, i as int).filter(|c: char| is_hex_digit(c)),
        decreases len - i,
    {
        let c = s.as_str().get_char(i);
        if ('0' <= c && c <= '9') || ('A' <= c && c <= 'F') || ('a' <= c && c <= 'f') {
            let piece = s.as_str().substring_char(i, i + 1);
            kept.append(piece);
            assert(piece@ =~= seq![s@[i as int]]);
        }
        proof {
            let pred = |c: char| is_hex_digit(c);
            let before = s@.subrange(0, i as int);
            let through = s@.subrange(0, i + 1);
            assert(through.drop_last() =~= before);
            assert(through.last() == s@[i as int]);
            reveal_with_fuel(Seq::filter, 2);
            if pred(s@[i as int]) {
                assert(before.filter(pred).push(s@[i as int]) =~= before.filter(pred) + seq![
                    s@[i as int],
                ]);
            }
        }
        i = i + 1;
    }
    proof {
        assert(s@.subrange(0, len as int) =~= s@);
    }
    *s = kept;
}

} // verus!
