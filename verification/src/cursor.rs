//! The durable cursor: the last processed ledger position.
//!
//! The ledger issues opaque position tokens; the engine never looks inside
//! one, it only stores the latest token and hands it back on the next poll.
//! A cursor is persisted as the hex encoding of its bytes, the sole contents
//! of a small state file. The surrounding process does the file I/O; this
//! module fixes the file's contents and proves that a written cursor reads
//! back unchanged, and that a missing file means "start from genesis".

use vstd::prelude::*;

use crate::errors::SuiEventSubscriberError;

verus! {

/// An opaque ledger position token.
pub struct Cursor {
    pub bytes: Vec<u8>,
}

/// A copy of a byte string, byte for byte.
pub fn copy_bytes(v: &Vec<u8>) -> (r: Vec<u8>)
    ensures
        r@ == v@,
{
    let mut r: Vec<u8> = Vec::new();
    let n = v.len();
    let mut i: usize = 0;
    while i < n
        invariant
            n == v@.len(),
            i <= n,
            r@ == v@.take(i as int),
        decreases n - i,
    {
        r.push(v[i]);
        proof {
            assert(v@.take(i as int + 1) =~= v@.take(i as int).push(v@[i as int]));
        }
        i += 1;
    }
    proof {
        assert(v@.take(n as int) =~= v@);
    }
    r
}

/// The hex digit (as an ASCII byte) for a nibble below 16.
pub open spec fn nibble_code(n: u8) -> u8 {
    if n < 10 {
        (48 + n) as u8
    } else {
        (87 + n) as u8
    }
}

/// The nibble a hex-digit byte stands for, if it is one.
pub open spec fn nibble_val(b: u8) -> Option<u8> {
    if 48 <= b <= 57 {
        Some((b - 48) as u8)
    } else if 97 <= b <= 102 {
        Some((b - 87) as u8)
    } else {
        None
    }
}

/// The hex encoding of a byte string: two digits per byte, high nibble first.
pub open spec fn hex_of(bs: Seq<u8>) -> Seq<u8>
    decreases bs.len(),
{
    if bs.len() == 0 {
        Seq::empty()
    } else {
        hex_of(bs.drop_last()).push(nibble_code(bs.last() / 16)).push(
            nibble_code(bs.last() % 16),
        )
    }
}

/// The byte string a hex encoding stands for: defined exactly on even-length
/// strings of hex digits, undefined (`None`) otherwise.
pub open spec fn unhex(hs: Seq<u8>) -> Option<Seq<u8>>
    decreases hs.len(),
{
    if hs.len() % 2 != 0 {
        None
    } else if hs.len() == 0 {
        Some(Seq::empty())
    } else {
        match (unhex(hs.take(hs.len() - 2)), nibble_val(hs[hs.len() - 2]), nibble_val(
            hs[hs.len() - 1],
        )) {
            (Some(prefix), Some(hi), Some(lo)) => Some(prefix.push((hi * 16 + lo) as u8)),
            _ => None,
        }
    }
}

/// Hex encoding loses nothing: decoding what was encoded gives the bytes back.
pub proof fn lemma_hex_round_trip(bs: Seq<u8>)
    ensures
        unhex(hex_of(bs)) == Some(bs),
    decreases bs.len(),
{
    lemma_hex_len(bs);
    if bs.len() == 0 {
        assert(hex_of(bs) =~= Seq::<u8>::empty());
        assert(unhex(hex_of(bs)) == Some(Seq::<u8>::empty()));
        assert(Seq::<u8>::empty() =~= bs);
    } else {
        lemma_hex_round_trip(bs.drop_last());
        let hs = hex_of(bs);
        lemma_hex_len(bs.drop_last());
        assert(hs.take(hs.len() - 2) =~= hex_of(bs.drop_last()));
        let b = bs.last();
        assert(nibble_val(nibble_code(b / 16)) == Some((b / 16) as u8));
        assert(nibble_val(nibble_code(b % 16)) == Some((b % 16) as u8));
        assert(b / 16 * 16 + b % 16 == b) by (nonlinear_arith);
        assert(unhex(hs) == Some(bs.drop_last().push(b)));
        assert(bs.drop_last().push(b) =~= bs);
    }
}

/// The round trip of the cursor store: a cursor written under its encoding
/// reads back unchanged.
pub proof fn lemma_cursor_round_trip(c: Cursor)
    ensures
        unhex(hex_of(c.bytes@)) == Some(c.bytes@),
{
    lemma_hex_round_trip(c.bytes@);
}

/// A hex encoding is twice as long as the bytes it encodes.
proof fn lemma_hex_len(bs: Seq<u8>)
    ensures
        hex_of(bs).len() == 2 * bs.len(),
    decreases bs.len(),
{
    if bs.len() > 0 {
        lemma_hex_len(bs.drop_last());
    }
}

/// A failed pair anywhere makes the whole decode fail: if an even prefix of
/// an even-length string does not decode, neither does the string.
proof fn lemma_unhex_none_prefix(hs: Seq<u8>, i: int)
    requires
        hs.len() % 2 == 0,
        0 <= i <= hs.len(),
        i % 2 == 0,
        unhex(hs.take(i)) is None,
    ensures
        unhex(hs) is None,
    decreases hs.len() - i,
{
    if i == hs.len() {
        assert(hs.take(i) =~= hs);
    } else {
        assert(hs.take(i + 2).take(i) =~= hs.take(i));
        lemma_unhex_none_prefix(hs, i + 2);
    }
}

/// The hex digit for a nibble.
fn hex_digit(n: u8) -> (r: u8)
    requires
        n < 16,
    ensures
        r == nibble_code(n),
{
    if n < 10 {
        48 + n
    } else {
        87 + n
    }
}

/// The nibble a byte stands for, if it is a hex digit.
fn hex_val(b: u8) -> (r: Option<u8>)
    ensures
        r == nibble_val(b),
{
    if 48 <= b && b <= 57 {
        Some(b - 48)
    } else if 97 <= b && b <= 102 {
        Some(b - 87)
    } else {
        None
    }
}

/// Hex-encodes a byte string, as `hex_of` says.
pub fn hex_encode(bs: &Vec<u8>) -> (r: Vec<u8>)
    ensures
        r@ == hex_of(bs@),
{
    let mut r: Vec<u8> = Vec::new();
    let n = bs.len();
    let mut i: usize = 0;
    proof {
        assert(bs@.take(0) =~= Seq::<u8>::empty());
    }
    while i < n
        invariant
            n == bs@.len(),
            i <= n,
            r@ == hex_of(bs@.take(i as int)),
        decreases n - i,
    {
        let b = bs[i];
        r.push(hex_digit(b / 16));
        r.push(hex_digit(b % 16));
        proof {
            assert(bs@.take(i as int + 1).drop_last() =~= bs@.take(i as int));
        }
        i += 1;
    }
    proof {
        assert(bs@.take(n as int) =~= bs@);
    }
    r
}

/// Decodes a hex string, exactly as `unhex` says.
pub fn hex_decode(hs: &Vec<u8>) -> (r: Option<Vec<u8>>)
    ensures
        match r {
            Some(bs) => unhex(hs@) == Some(bs@),
            None => unhex(hs@) is None,
        },
{
    let n = hs.len();
    if n % 2 != 0 {
        return None;
    }
    let mut r: Vec<u8> = Vec::new();
    let mut i: usize = 0;
    proof {
        assert(hs@.take(0) =~= Seq::<u8>::empty());
    }
    while i < n
        invariant
            n == hs@.len(),
            n % 2 == 0,
            i <= n,
            i % 2 == 0,
            unhex(hs@.take(i as int)) == Some(r@),
        decreases n - i,
    {
        proof {
            assert(hs@.take(i as int + 2).take(i as int) =~= hs@.take(i as int));
        }
        let hi = hex_val(hs[i]);
        let lo = hex_val(hs[i + 1]);
        match (hi, lo) {
            (Some(hi), Some(lo)) => {
                r.push(hi * 16 + lo);
            },
            _ => {
                proof {
                    lemma_unhex_none_prefix(hs@, i as int + 2);
                }
                return None;
            },
        }
        i += 2;
    }
    proof {
        assert(hs@.take(n as int) =~= hs@);
    }
    Some(r)
}

impl Cursor {
    /// The file contents under which this cursor is persisted.
    pub fn encode(&self) -> (r: Vec<u8>)
        ensures
            r@ == hex_of(self.bytes@),
    {
        hex_encode(&self.bytes)
    }
}

/// The contents the state file must hold after a checkpoint: the encoding of
/// the cursor, or nothing to write when no cursor has been seen yet.
pub fn cursor_file_bytes(cursor: &Option<Cursor>) -> (r: Option<Vec<u8>>)
    ensures
        match cursor {
            Some(c) => r matches Some(bs) && bs@ == hex_of(c.bytes@),
            None => r is None,
        },
{
    match cursor {
        Some(c) => Some(c.encode()),
        None => None,
    }
}

/// Reads a cursor back from the state file's contents. A missing file
/// (`None`) is not an error: it means "start from genesis". Corrupt contents
/// are the one failure.
pub fn read_cursor(contents: Option<&Vec<u8>>) -> (r: Result<
    Option<Cursor>,
    SuiEventSubscriberError,
>)
    ensures
        match contents {
            None => r matches Ok(c) && c is None,
            Some(bs) => match unhex(bs@) {
                Some(decoded) => r matches Ok(c) && c matches Some(cur) && cur.bytes@ == decoded,
                None => r matches Err(e) && e == SuiEventSubscriberError::DeserializeCursorError,
            },
        },
{
    match contents {
        None => Ok(None),
        Some(bs) => match hex_decode(bs) {
            Some(decoded) => Ok(Some(Cursor { bytes: decoded })),
            None => Err(SuiEventSubscriberError::DeserializeCursorError),
        },
    }
}

} // verus!
