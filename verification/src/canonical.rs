//! Executable helpers for the canonical binary format: writing and
//! reading one length-prefixed nested structure. Their contracts are
//! stated against the spec functions of `model`, so the record's codec
//! can be proved against `canonical_decode_spec` field by field.

use vstd::prelude::*;
use crate::model::le_bytes_of_u32;
use crate::model::le_u32_at;
use crate::model::length_prefixed;
use crate::model::step_len;
use crate::model::step_next;
use crate::model::step_payload;
use crate::model::step_truncated;

verus! {

/// Why reading one nested structure failed: the input ended too early,
/// or the payload length does not match the field's mandated length.
pub(crate) enum FieldReadError {
    Truncated,
    WrongLength,
}

/// Appends the canonical nested structure for `payload` to `out`: a
/// four-byte little-endian length prefix, then the payload bytes.
pub(crate) fn append_length_prefixed(out: &mut Vec<u8>, payload: &[u8])
    requires
        payload@.len() < 0x1_0000_0000,
    ensures
        final(out)@ == old(out)@ + length_prefixed(payload@),
{
    let len: usize = payload.len();
    out.push((len % 256) as u8);
    out.push(((len / 256) % 256) as u8);
    out.push(((len / 65536) % 256) as u8);
    out.push(((len / 16777216) % 256) as u8);
    proof {
        assert(out@ =~= old(out)@ + le_bytes_of_u32(payload@.len()));
    }
    let ghost prefixed: Seq<u8> = out@;
    let mut i: usize = 0;
    while i < payload.len()
        invariant
            i <= payload@.len(),
            out@ == prefixed + payload@.subrange(0, i as int),
        decreases payload@.len() - i,
    {
        out.push(payload[i]);
        proof {
            assert(payload@.subrange(0, i as int).push(payload@[i as int]) =~= payload@.subrange(
                0,
                i + 1 as int,
            ));
        }
        i = i + 1;
    }
    proof {
        assert(payload@.subrange(0, payload@.len() as int) =~= payload@);
        assert(out@ =~= old(out)@ + length_prefixed(payload@));
    }
}

/// Reads the nested structure at `pos`, whose payload must be exactly
/// `expected_len` bytes long, and returns the payload together with the
/// position just past it. The two failures are told apart exactly as the
/// decoder's error taxonomy requires: a structure that runs off the end
/// of the input is `Truncated`, a complete structure whose length is not
/// the mandated one is `WrongLength`.
pub(crate) fn read_field(bytes: &[u8], pos: usize, expected_len: usize) -> (r: Result<
    (Vec<u8>, usize),
    FieldReadError,
>)
    requires
        pos <= bytes@.len(),
    ensures
        match r {
            Ok(p) => !step_truncated(bytes@, pos as int) && step_len(bytes@, pos as int)
                == expected_len && p.0@ == step_payload(bytes@, pos as int) && p.1 as int
                == step_next(bytes@, pos as int) && p.1 <= bytes@.len(),
            Err(FieldReadError::Truncated) => step_truncated(bytes@, pos as int),
            Err(FieldReadError::WrongLength) => !step_truncated(bytes@, pos as int) && step_len(
                bytes@,
                pos as int,
            ) != expected_len,
        },
{
    if bytes.len() - pos < 4 {
        return Err(FieldReadError::Truncated);
    }
    let b0 = bytes[pos];
    let b1 = bytes[pos + 1];
    let b2 = bytes[pos + 2];
    let b3 = bytes[pos + 3];
    let len_val: u64 = b0 as u64 + 256 * (b1 as u64) + 65536 * (b2 as u64) + 16777216 * (
    b3 as u64);
    proof {
        assert(len_val as nat == le_u32_at(bytes@, pos as int));
    }
    let avail: u64 = (bytes.len() - pos - 4) as u64;
    if avail < len_val {
        return Err(FieldReadError::Truncated);
    }
    if len_val != expected_len as u64 {
        return Err(FieldReadError::WrongLength);
    }
    let n: usize = expected_len;
    proof {
        assert(avail as nat == bytes@.len() - pos - 4);
        assert(n as u64 == len_val);
        assert(pos + 4 + n <= bytes@.len());
    }
    let mut payload: Vec<u8> = Vec::new();
    let mut j: usize = 0;
    while j < n
        invariant
            j <= n,
            pos + 4 + n <= bytes@.len(),
            bytes@.len() <= usize::MAX,
            payload@ == bytes@.subrange(pos + 4 as int, pos + 4 + j as int),
        decreases n - j,
    {
        payload.push(bytes[pos + 4 + j]);
        proof {
            assert(bytes@.subrange(pos + 4 as int, pos + 4 + j as int).push(
                bytes@[pos + 4 + j as int],
            ) =~= bytes@.subrange(pos + 4 as int, pos + 4 + (j + 1) as int));
        }
        j = j + 1;
    }
    proof {
        assert(payload@ == step_payload(bytes@, pos as int));
    }
    Ok((payload, pos + 4 + n))
}

} // verus!
