//! Decoding of the view-watches response, the one response that is itself a
//! variable-length frame.
//!
//! The response shape is `START, VIEW_WATCH_COMMAND, count(4, BE),
//! count × entry, END`, where each entry is `address(4, BE), width(1),
//! sign_tag(1), value(width, BE)`. The decoder works on a caller-supplied
//! byte buffer: the caller reads from the transport into the buffer and
//! calls again with more bytes whenever the buffer is a prefix of a valid
//! response. A decode error is final; the stream is then desynchronized.

use vstd::prelude::*;

use crate::bytes::{be16_of, be32_of};
use crate::commands::{Watch, COMMAND_END, COMMAND_START, VIEW_WATCH_COMMAND};
use crate::data_type::{data_type_of, valid_width, DataType};
use crate::error::Error;

verus! {

/// What a byte buffer holds, read as a view-watches response: a complete
/// response of `used` bytes, a proper prefix of some valid response, or a
/// protocol error.
pub enum ParseOutcome {
    Complete { watches: Seq<Watch>, used: int },
    NeedMore,
    Fail { err: Error },
}

/// The total byte length of an entry of value width `w`, its six header
/// bytes included.
pub open spec fn entry_len(w: u8) -> int
    recommends
        valid_width(w),
{
    6 + w
}

/// The value carried by the entry at offset `i`, zero-extended into its
/// 32-bit container.
pub open spec fn entry_value(b: Seq<u8>, i: int, w: u8) -> u32
    recommends
        valid_width(w),
        i + entry_len(w) <= b.len(),
{
    if w == 1 {
        b[i + 6] as u32
    } else if w == 2 {
        be16_of(b.subrange(i + 6, i + 8)) as u32
    } else {
        be32_of(b.subrange(i + 6, i + 10))
    }
}

/// The watch described by the entry at offset `i`.
pub open spec fn entry_watch(b: Seq<u8>, i: int) -> Watch
    recommends
        valid_width(b[i + 4]),
        i + entry_len(b[i + 4]) <= b.len(),
{
    Watch {
        address: be32_of(b.subrange(i, i + 4)),
        nbytes: b[i + 4],
        value: entry_value(b, i, b[i + 4]),
        data_type: data_type_of(b[i + 4], b[i + 5]),
    }
}

/// Parse `n` consecutive entries starting at offset `i`. On success the
/// outcome carries the decoded watches in order and the offset just past the
/// last entry.
pub open spec fn parse_entries(b: Seq<u8>, i: int, n: nat) -> ParseOutcome
    decreases n,
{
    if n == 0 {
        ParseOutcome::Complete { watches: Seq::empty(), used: i }
    } else if b.len() < i + 6 {
        ParseOutcome::NeedMore
    } else {
        let w = b[i + 4];
        if !valid_width(w) {
            ParseOutcome::Fail { err: Error::InvalidByteSize(w) }
        } else if b.len() < i + entry_len(w) {
            ParseOutcome::NeedMore
        } else {
            match parse_entries(b, i + entry_len(w), (n - 1) as nat) {
                ParseOutcome::Complete { watches, used } => ParseOutcome::Complete {
                    watches: seq![entry_watch(b, i)] + watches,
                    used,
                },
                rest => rest,
            }
        }
    }
}

/// Parse a complete view-watches response from the start of `b`.
pub open spec fn parse_view_watches(b: Seq<u8>) -> ParseOutcome {
    if b.len() < 1 {
        ParseOutcome::NeedMore
    } else if b[0] != COMMAND_START {
        ParseOutcome::Fail { err: Error::InvalidReturnByte(b[0], COMMAND_START) }
    } else if b.len() < 2 {
        ParseOutcome::NeedMore
    } else if b[1] != VIEW_WATCH_COMMAND {
        ParseOutcome::Fail { err: Error::InvalidReturnByte(b[1], VIEW_WATCH_COMMAND) }
    } else if b.len() < 6 {
        ParseOutcome::NeedMore
    } else {
        match parse_entries(b, 6, be32_of(b.subrange(2, 6)) as nat) {
            ParseOutcome::Complete { watches, used } => {
                if b.len() < used + 1 {
                    ParseOutcome::NeedMore
                } else if b[used] != COMMAND_END {
                    ParseOutcome::Fail { err: Error::InvalidReturnByte(b[used], COMMAND_END) }
                } else {
                    ParseOutcome::Complete { watches, used: used + 1 }
                }
            },
            rest => rest,
        }
    }
}

/// `outcome` with `pre` prepended to its watches, when it is complete.
pub open spec fn with_prefix(pre: Seq<Watch>, outcome: ParseOutcome) -> ParseOutcome {
    match outcome {
        ParseOutcome::Complete { watches, used } => ParseOutcome::Complete {
            watches: pre + watches,
            used,
        },
        rest => rest,
    }
}

proof fn lemma_with_prefix_empty(outcome: ParseOutcome)
    ensures
        with_prefix(Seq::empty(), outcome) == outcome,
{
    match outcome {
        ParseOutcome::Complete { watches, used } => {
            assert(Seq::empty() + watches =~= watches);
        },
        _ => {},
    }
}

proof fn lemma_with_prefix_push(pre: Seq<Watch>, w: Watch, outcome: ParseOutcome)
    ensures
        with_prefix(pre, with_prefix(seq![w], outcome)) == with_prefix(pre.push(w), outcome),
{
    match outcome {
        ParseOutcome::Complete { watches, used } => {
            assert(pre + (seq![w] + watches) =~= pre.push(w) + watches);
        },
        _ => {},
    }
}

/// A response that carries an entry count of zero decodes to the empty watch
/// sequence and succeeds: it is exactly the start byte, the view-watches
/// identifier, a zero count and the end byte, seven bytes in all.
pub proof fn lemma_empty_response(b: Seq<u8>)
    requires
        b.len() == 7,
        b[0] == COMMAND_START,
        b[1] == VIEW_WATCH_COMMAND,
        be32_of(b.subrange(2, 6)) == 0,
        b[6] == COMMAND_END,
    ensures
        parse_view_watches(b) == (ParseOutcome::Complete {
            watches: Seq::<Watch>::empty(),
            used: 7,
        }),
{
}

/// A response whose first byte is not the start byte fails with
/// `InvalidReturnByte(got, COMMAND_START)`, whatever follows.
pub proof fn lemma_bad_start_byte(b: Seq<u8>)
    requires
        b.len() >= 1,
        b[0] != COMMAND_START,
    ensures
        parse_view_watches(b) == (ParseOutcome::Fail {
            err: Error::InvalidReturnByte(b[0], COMMAND_START),
        }),
{
}

/// An entry whose width field is not 1, 2 or 4 — width 3, say — fails the
/// whole parse with `InvalidByteSize` of that width, whatever follows.
pub proof fn lemma_invalid_entry_width(b: Seq<u8>, i: int, n: nat)
    requires
        n > 0,
        0 <= i,
        i + 6 <= b.len(),
        !valid_width(b[i + 4]),
    ensures
        parse_entries(b, i, n) == (ParseOutcome::Fail { err: Error::InvalidByteSize(b[i + 4]) }),
{
}

/// Decode a view-watches response from `bytes`.
///
/// Returns `Ok(Some(watches))` with the complete, freshly built sequence of
/// decoded watches, in the peer's enumeration order, when `bytes` begins
/// with a complete valid response; `Ok(None)` when `bytes` is a prefix of
/// some valid response and more bytes must be read first; and `Err(..)` with
/// the exact protocol error otherwise. A failed decode hands back no partial
/// result.
pub fn decode_view_watches(bytes: &[u8]) -> (r: Result<Option<Vec<Watch>>, Error>)
    ensures
        (parse_view_watches(bytes@) matches ParseOutcome::Complete { watches, .. } ==> r
            matches Ok(rv) && rv matches Some(v) && v@ == watches),
        parse_view_watches(bytes@) is NeedMore ==> (r matches Ok(rv) && rv is None),
        (parse_view_watches(bytes@) matches ParseOutcome::Fail { err } ==> r matches Err(e) && e
            == err),
{
    if bytes.len() < 1 {
        return Ok(None);
    }
    if bytes[0] != COMMAND_START {
        return Err(Error::InvalidReturnByte(bytes[0], COMMAND_START));
    }
    if bytes.len() < 2 {
        return Ok(None);
    }
    if bytes[1] != VIEW_WATCH_COMMAND {
        return Err(Error::InvalidReturnByte(bytes[1], VIEW_WATCH_COMMAND));
    }
    if bytes.len() < 6 {
        return Ok(None);
    }
    let count = crate::bytes::read_u32_at(bytes, 2);
    let ghost n = count as nat;
    let mut watches: Vec<Watch> = Vec::new();
    let mut pos: usize = 6;
    let mut k: u32 = 0;
    proof {
        lemma_with_prefix_empty(parse_entries(bytes@, 6, n));
    }
    while k < count
        invariant
            k <= count,
            n == count as nat,
            6 <= pos <= bytes@.len(),
            bytes@.len() >= 6,
            bytes@[0] == COMMAND_START,
            bytes@[1] == VIEW_WATCH_COMMAND,
            count == be32_of(bytes@.subrange(2, 6)),
            watches@.len() == k,
            parse_entries(bytes@, 6, n) == with_prefix(
                watches@,
                parse_entries(bytes@, pos as int, (n - k) as nat),
            ),
        decreases count - k,
    {
        if bytes.len() - pos < 6 {
            return Ok(None);
        }
        let address = crate::bytes::read_u32_at(bytes, pos);
        let w = bytes[pos + 4];
        let tag = bytes[pos + 5];
        if !(w == 1 || w == 2 || w == 4) {
            return Err(Error::InvalidByteSize(w));
        }
        let need: usize = 6 + w as usize;
        if bytes.len() - pos < need {
            return Ok(None);
        }
        let value: u32 = if w == 1 {
            bytes[pos + 6] as u32
        } else if w == 2 {
            crate::bytes::read_u16_at(bytes, pos + 6) as u32
        } else {
            crate::bytes::read_u32_at(bytes, pos + 6)
        };
        let data_type = DataType::from_wire(w, tag);
        let watch = Watch { address, nbytes: w, value, data_type };
        proof {
            assert(watch == entry_watch(bytes@, pos as int));
            assert(parse_entries(bytes@, pos as int, (n - k) as nat) == with_prefix(
                seq![entry_watch(bytes@, pos as int)],
                parse_entries(bytes@, pos + entry_len(w), (n - k - 1) as nat),
            ));
            lemma_with_prefix_push(
                watches@,
                watch,
                parse_entries(bytes@, pos + entry_len(w), (n - k - 1) as nat),
            );
        }
        watches.push(watch);
        pos = pos + need;
        k = k + 1;
    }
    if bytes.len() - pos < 1 {
        return Ok(None);
    }
    if bytes[pos] != COMMAND_END {
        return Err(Error::InvalidReturnByte(bytes[pos], COMMAND_END));
    }
    proof {
        assert(watches@ + Seq::<Watch>::empty() =~= watches@);
    }
    Ok(Some(watches))
}

} // verus!
