use vstd::prelude::*;

use crate::error::ExtractError;

verus! {

/// Index of the first zero byte of `m` at or after `off`; `m.len()` when no
/// zero byte follows `off`.
pub open spec fn first_zero_from(m: Seq<u8>, off: int) -> int
    decreases m.len() - off,
{
    if off < 0 || off >= m.len() {
        m.len() as int
    } else if m[off] == 0 {
        off
    } else {
        first_zero_from(m, off + 1)
    }
}

/// Whether a zero terminator exists at or after `off`.
pub open spec fn has_terminator(m: Seq<u8>, off: int) -> bool {
    first_zero_from(m, off) < m.len()
}

/// The byte run that extraction recovers: everything from `off` up to, and
/// excluding, the first zero byte.
pub open spec fn scanned_bytes(m: Seq<u8>, off: int) -> Seq<u8> {
    m.subrange(off, first_zero_from(m, off))
}

/// Scanning from `off` skips nothing: as long as every byte before `k` is
/// non-zero, the first terminator seen from `off` is the one seen from `k`.
proof fn lemma_first_zero_skip(m: Seq<u8>, off: int, k: int)
    requires
        0 <= off <= k <= m.len(),
        forall|j: int| off <= j < k ==> m[j] != 0,
    ensures
        first_zero_from(m, off) == first_zero_from(m, k),
    decreases k - off,
{
    if off < k {
        lemma_first_zero_skip(m, off + 1, k);
    }
}

/// Basic shape of `first_zero_from`: the result lies between `off` and
/// `m.len()`, every byte strictly before it (from `off` on) is non-zero, and
/// when it lies inside `m` it indexes a zero byte.
pub proof fn lemma_first_zero_bounds(m: Seq<u8>, off: int)
    requires
        0 <= off <= m.len(),
    ensures
        off <= first_zero_from(m, off) <= m.len(),
        forall|j: int| off <= j < first_zero_from(m, off) ==> m[j] != 0,
        first_zero_from(m, off) < m.len() ==> m[first_zero_from(m, off)] == 0,
    decreases m.len() - off,
{
    if off < m.len() && m[off] != 0 {
        lemma_first_zero_bounds(m, off + 1);
    }
}

/// Round trip: a run of non-zero bytes placed at `off` and followed by a zero
/// terminator is recovered exactly, whatever else the memory holds.
pub proof fn lemma_round_trip(m: Seq<u8>, off: int, text: Seq<u8>)
    requires
        0 <= off,
        off + text.len() < m.len(),
        forall|i: int| 0 <= i < text.len() ==> text[i] != 0,
        m.subrange(off, off + text.len()) == text,
        m[off + text.len()] == 0,
    ensures
        first_zero_from(m, off) == off + text.len(),
        scanned_bytes(m, off) == text,
{
    assert forall|j: int| off <= j < off + text.len() implies m[j] != 0 by {
        assert(text[j - off] != 0);
        assert(m[j] == m.subrange(off, off + text.len())[j - off]);
    }
    lemma_first_zero_skip(m, off, off + text.len());
    assert(first_zero_from(m, off + text.len()) == off + text.len());
}

/// Extraction never reads past the terminator: two memories of the same size
/// that agree from `off` up to and including the first zero byte of the first
/// one yield the same byte run, whatever follows that zero byte.
pub proof fn lemma_ignores_bytes_after_terminator(m1: Seq<u8>, m2: Seq<u8>, off: int)
    requires
        0 <= off <= m1.len(),
        m1.len() == m2.len(),
        has_terminator(m1, off),
        forall|j: int| off <= j <= first_zero_from(m1, off) ==> m1[j] == m2[j],
    ensures
        first_zero_from(m2, off) == first_zero_from(m1, off),
        scanned_bytes(m2, off) == scanned_bytes(m1, off),
{
    let fz = first_zero_from(m1, off);
    lemma_first_zero_bounds(m1, off);
    assert forall|j: int| off <= j < fz implies m2[j] != 0 by {
        assert(m2[j] == m1[j]);
    }
    lemma_first_zero_skip(m2, off, fz);
    assert(first_zero_from(m2, fz) == fz);
    assert(scanned_bytes(m2, off) =~= scanned_bytes(m1, off));
}

/// Walk `buf` from `offset` to the first zero byte and return the bytes
/// before it; report an out-of-bounds scan when `offset` is outside `buf` or
/// no zero byte follows it.
pub fn scan_text(buf: &[u8], offset: u64) -> (r: Result<Vec<u8>, ExtractError>)
    ensures
        ({
            let off = offset as int;
            let m = buf@;
            if off < m.len() && has_terminator(m, off) {
                r matches Ok(bytes) && bytes@ == scanned_bytes(m, off)
            } else {
                r == Err::<Vec<u8>, ExtractError>(ExtractError::OutOfBoundsScan {
                    offset,
                    memory_len: m.len() as u64,
                })
            }
        }),
{
    let len = buf.len();
    if offset >= len as u64 {
        return Err(ExtractError::OutOfBoundsScan { offset, memory_len: len as u64 });
    }
    let mut i: usize = offset as usize;
    let mut out: Vec<u8> = Vec::new();
    while i < len
        invariant
            len == buf@.len(),
            offset as int <= i as int <= len as int,
            first_zero_from(buf@, offset as int) == first_zero_from(buf@, i as int),
            out@ == buf@.subrange(offset as int, i as int),
            forall|j: int| offset as int <= j < i as int ==> buf@[j] != 0,
        decreases len - i,
    {
        let b = buf[i];
        if b == 0 {
            assert(first_zero_from(buf@, i as int) == i as int);
            assert(scanned_bytes(buf@, offset as int) == out@);
            return Ok(out);
        }
        assert(first_zero_from(buf@, i as int) == first_zero_from(buf@, i as int + 1));
        out.push(b);
        assert(buf@.subrange(offset as int, i as int + 1) =~= buf@.subrange(
            offset as int,
            i as int,
        ).push(b));
        i = i + 1;
    }
    assert(first_zero_from(buf@, i as int) == buf@.len());
    Err(ExtractError::OutOfBoundsScan { offset, memory_len: len as u64 })
}

/// The UTF-8 reading of a byte sequence: `Some` of its character sequence
/// exactly when the bytes are valid UTF-8, `None` otherwise.
pub uninterp spec fn utf8_decode(bytes: Seq<u8>) -> Option<Seq<char>>;

/// Relies on std's `String::from_utf8`: it returns the string decoding of the
/// bytes exactly when they are valid UTF-8, and fails otherwise.
#[verifier::external_body]
fn from_utf8(bytes: Vec<u8>) -> (r: Option<String>)
    ensures
        match r {
            Some(s) => utf8_decode(bytes@) == Some(s@),
            None => utf8_decode(bytes@) is None,
        },
{
    String::from_utf8(bytes).ok()
}

/// Decode a scanned byte run as UTF-8 text, reporting invalid encoding as the
/// one failure this stage can produce.
pub fn decode_text(bytes: Vec<u8>) -> (r: Result<String, ExtractError>)
    ensures
        match r {
            Ok(s) => utf8_decode(bytes@) == Some(s@),
            Err(e) => e == ExtractError::InvalidTextEncoding && utf8_decode(bytes@) is None,
        },
{
    match from_utf8(bytes) {
        Some(s) => Ok(s),
        None => Err(ExtractError::InvalidTextEncoding),
    }
}

/// The whole in-memory stage of extraction: scan `buf` from `offset` to the
/// first zero byte, then decode the run before it as UTF-8.
pub fn scan_and_decode(buf: &[u8], offset: u64) -> (r: Result<String, ExtractError>)
    ensures
        ({
            let off = offset as int;
            let m = buf@;
            if off < m.len() && has_terminator(m, off) {
                match utf8_decode(scanned_bytes(m, off)) {
                    Some(t) => r matches Ok(s) && s@ == t,
                    None => r == Err::<String, ExtractError>(ExtractError::InvalidTextEncoding),
                }
            } else {
                r == Err::<String, ExtractError>(ExtractError::OutOfBoundsScan {
                    offset,
                    memory_len: m.len() as u64,
                })
            }
        }),
{
    match scan_text(buf, offset) {
        Ok(bytes) => decode_text(bytes),
        Err(e) => Err(e),
    }
}

} // verus!
