//! The four-byte integrity suffix of an address payload.
use crate::dogeaddress::DogeAddressError;
use crate::primitives::{sha256, sha256_of};
use vstd::prelude::*;

verus! {

pub const DOGE_ADDRESS_CHECKSUM_LEN: usize = 4;

/// The first four bytes of the double SHA-256 of `prefix ‖ payload`.
pub open spec fn checksum_of(prefix: u8, payload: Seq<u8>) -> Seq<u8> {
    Seq::new(4, |i: int| sha256_of(sha256_of(seq![prefix] + payload))[i])
}

/// What checking the suffix of `data` gives: which error, if any.
pub open spec fn verify_result(data: Seq<u8>) -> Result<bool, DogeAddressError> {
    if data.len() == 0 {
        Err(DogeAddressError::MissingPrefix)
    } else if data.len() < 5 {
        Err(DogeAddressError::InvalidPayloadLength(data.len() as usize))
    } else if data.skip(data.len() - 4) != checksum_of(data[0], data.subrange(1, data.len() - 4)) {
        Err(DogeAddressError::InvalidChecksum)
    } else {
        Ok(true)
    }
}

/// Double SHA-256 of `data`.
pub fn sha256d(data: &[u8]) -> (r: [u8; 32])
    ensures
        r@ == sha256_of(sha256_of(data@)),
{
    let first = sha256(data);
    sha256(first.as_slice())
}

/// Computes the checksum of `prefix ‖ payload`.
pub fn _calculate_checksum(prefix: u8, payload: &[u8]) -> (r: [u8; 4])
    ensures
        r@ == checksum_of(prefix, payload@),
{
    let mut preimage: Vec<u8> = Vec::new();
    preimage.push(prefix);
    let mut i: usize = 0;
    while i < payload.len()
        invariant
            i <= payload@.len(),
            preimage@ == seq![prefix] + payload@.take(i as int),
        decreases payload@.len() - i,
    {
        preimage.push(payload[i]);
        i = i + 1;
        assert(payload@.take(i as int) == payload@.take(i - 1) + seq![payload@[i - 1]]);
    }
    assert(payload@.take(payload@.len() as int) == payload@);
    let hash = sha256d(preimage.as_slice());
    let r: [u8; 4] = [hash[0], hash[1], hash[2], hash[3]];
    assert(r@ =~= hash@.take(4));
    r
}

/// Checks the trailing checksum of `prefix ‖ payload ‖ checksum`.
pub fn _verify_checksum(data: &[u8]) -> (r: Result<bool, DogeAddressError>)
    ensures
        r == verify_result(data@),
{
    if data.len() == 0 {
        return Err(DogeAddressError::MissingPrefix);
    }
    if data.len() < 5 {
        return Err(DogeAddressError::InvalidPayloadLength(data.len()));
    }
    let start = data.len() - DOGE_ADDRESS_CHECKSUM_LEN;
    let mut payload: Vec<u8> = Vec::new();
    let mut i: usize = 1;
    while i < start
        invariant
            1 <= i <= start,
            start == data@.len() - 4,
            payload@ == data@.subrange(1, i as int),
        decreases start - i,
    {
        payload.push(data[i]);
        i = i + 1;
        assert(data@.subrange(1, i as int) == data@.subrange(1, i - 1) + seq![data@[i - 1]]);
    }
    let expected = _calculate_checksum(data[0], payload.as_slice());
    let mut j: usize = 0;
    while j < DOGE_ADDRESS_CHECKSUM_LEN
        invariant
            j <= 4,
            data@.len() >= 5,
            start + 4 == data.len(),
            start == data@.len() - 4,
            expected@ == checksum_of(data@[0], data@.subrange(1, start as int)),
            forall|k: int| 0 <= k < j ==> expected@[k] == data@[start + k],
        decreases 4 - j,
    {
        if expected[j] != data[start + j] {
            assert(data@.skip(start as int)[j as int] != checksum_of(
                data@[0],
                data@.subrange(1, start as int),
            )[j as int]);
            return Err(DogeAddressError::InvalidChecksum);
        }
        j = j + 1;
    }
    assert(data@.skip(start as int) =~= expected@);
    Ok(true)
}

} // verus!
