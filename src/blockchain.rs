//! Output-script classification and display helpers for hashes and difficulty.
use crate::chain::{prefix_of, AddressType, Chain};
use crate::dogeaddress::{address_text, DogeAddress};
use crate::primitives::{hex_decode, hex_encode, hex_of, is_hex_text, unhex};
use crate::script::{
    copy_range, is_nulldata, is_p2pk, is_p2pkh, is_p2sh, ops_of, ops_view, parse_ops, Op,
    OP_CHECKSIG, OP_DUP, OP_EQUAL, OP_EQUALVERIFY, OP_HASH160, OP_RETURN,
};
use vstd::prelude::*;

verus! {

/// Why a hexadecimal text could not be read.
#[derive(Debug)]
pub enum HexError {
    InvalidHex(hex::FromHexError),
}

/// What an output script pays to.
#[derive(Clone, Debug)]
pub enum Destination {
    Nulldata(Vec<Op>),
    Address(DogeAddress),
    P2PK(Vec<u8>),
    Unknown(Vec<u8>),
}

/// The kind of script an address pays to.
#[derive(Clone, Copy, Debug, PartialEq, Eq, Hash, Structural)]
pub enum ScriptType {
    P2pkh,
    P2sh,
}

/// `s` in the opposite order.
pub open spec fn reversed(s: Seq<u8>) -> Seq<u8> {
    Seq::new(s.len(), |i: int| s[s.len() - 1 - i])
}

/// Whether `a` is the address of `hash` as `addr_type` on `chain`.
pub open spec fn is_address_of(
    a: DogeAddress,
    chain: Chain,
    addr_type: AddressType,
    hash: Seq<u8>,
) -> bool {
    a.spec_addr_type() == addr_type && a.spec_hash() == hash && a.spec_chain() == chain
        && a.spec_addr() == address_text(chain, addr_type, hash)
}

/// Whether a hash template of `addr_type` can become an address on `chain`.
pub open spec fn addressable(s: Seq<u8>, chain: Chain) -> bool {
    (is_p2pkh(s) && prefix_of(chain, AddressType::P2PKH) is Some) || (is_p2sh(s) && prefix_of(
        chain,
        AddressType::P2SH,
    ) is Some)
}

/// Whether `d` is what the script `s` pays to on `chain`.
pub open spec fn classifies_as(d: Destination, s: Seq<u8>, chain: Chain) -> bool {
    match d {
        Destination::Address(a) => (is_p2pkh(s) && is_address_of(
            a,
            chain,
            AddressType::P2PKH,
            s.subrange(3, 23),
        )) || (is_p2sh(s) && is_address_of(a, chain, AddressType::P2SH, s.subrange(2, 22))),
        Destination::P2PK(key) => is_p2pk(s) && key@ == s.subrange(1, s.len() - 1),
        Destination::Nulldata(ops) => is_nulldata(s) && ops_of(s.skip(1)) == Some(ops_view(ops@)),
        Destination::Unknown(bytes) => bytes@ == s && !addressable(s, chain) && !is_p2pk(s) && !(
        is_nulldata(s) && ops_of(s.skip(1)) is Some),
    }
}

/// Copies `bytes` in the opposite order.
fn reverse_bytes(bytes: &[u8]) -> (r: Vec<u8>)
    ensures
        r@ == reversed(bytes@),
{
    let mut r: Vec<u8> = Vec::new();
    let mut i: usize = bytes.len();
    while i > 0
        invariant
            i <= bytes@.len(),
            r@.len() == bytes@.len() - i,
            forall|k: int| 0 <= k < r@.len() ==> r@[k] == bytes@[bytes@.len() - 1 - k],
        decreases i,
    {
        i = i - 1;
        r.push(bytes[i]);
    }
    assert(r@ =~= reversed(bytes@));
    r
}

/// Lowercase hex of `slice` with its bytes in the opposite order.
pub fn to_be_hex(slice: &[u8]) -> (r: String)
    ensures
        r@ == hex_of(reversed(slice@)),
{
    let v = reverse_bytes(slice);
    hex_encode(v.as_slice())
}

/// Reads hex digit pairs and puts the bytes in the opposite order.
pub fn from_be_hex(string: &str) -> (r: Result<Vec<u8>, HexError>)
    ensures
        r is Ok <==> is_hex_text(string@),
        r is Ok ==> r->Ok_0@ == reversed(unhex(string@)),
{
    match hex_decode(string) {
        Ok(decoded) => Ok(reverse_bytes(decoded.as_slice())),
        Err(e) => Err(HexError::InvalidHex(e)),
    }
}

/// Copies the 20 bytes of `s` from `start`.
fn hash_at(s: &[u8], start: usize) -> (r: [u8; 20])
    requires
        start + 20 <= s.len(),
    ensures
        r@ == s@.subrange(start as int, start + 20),
{
    let mut hash: [u8; 20] = [0u8; 20];
    let mut i: usize = 0;
    while i < 20
        invariant
            i <= 20,
            start + 20 <= s.len(),
            forall|k: int| 0 <= k < i ==> hash@[k] == s@[start + k],
        decreases 20 - i,
    {
        hash[i] = s[start + i];
        i = i + 1;
    }
    assert(hash@ =~= s@.subrange(start as int, start + 20));
    hash
}

/// Builds the address of a hash template, or falls back to the raw script.
fn address_or_unknown(script: &[u8], addr_type: AddressType, start: usize, chain: Chain) -> (r:
    Destination)
    requires
        start + 20 <= script.len(),
    ensures
        match r {
            Destination::Address(a) => prefix_of(chain, addr_type) is Some && is_address_of(
                a,
                chain,
                addr_type,
                script@.subrange(start as int, start + 20),
            ),
            Destination::Unknown(bytes) => prefix_of(chain, addr_type) is None && bytes@
                == script@,
            _ => false,
        },
{
    match DogeAddress::from_hash(addr_type, hash_at(script, start), chain) {
        Ok(addr) => Destination::Address(addr),
        Err(_) => {
            assert(script@.subrange(0, script@.len() as int) =~= script@);
            Destination::Unknown(copy_range(script, 0, script.len()))
        },
    }
}

/// Classifies an output script by the template it matches exactly.
pub fn destination_from_script(script: &[u8], chain: Chain) -> (r: Destination)
    ensures
        classifies_as(r, script@, chain),
{
    let n = script.len();
    proof {
        crate::script::lemma_templates_exclusive(script@);
        assert(script@.subrange(0, n as int) =~= script@);
    }
    if n == 25 && script[0] == OP_DUP && script[1] == OP_HASH160 && script[2] == 20 && script[23]
        == OP_EQUALVERIFY && script[24] == OP_CHECKSIG {
        address_or_unknown(script, AddressType::P2PKH, 3, chain)
    } else if n == 23 && script[0] == OP_HASH160 && script[1] == 20 && script[22] == OP_EQUAL {
        address_or_unknown(script, AddressType::P2SH, 2, chain)
    } else if ((n == 35 && script[0] == 33) || (n == 67 && script[0] == 65)) && script[n - 1]
        == OP_CHECKSIG {
        Destination::P2PK(copy_range(script, 1, n - 1))
    } else if n >= 1 && script[0] == OP_RETURN {
        let data = vstd::slice::slice_subrange(script, 1, n);
        assert(data@ =~= script@.skip(1));
        match parse_ops(data) {
            Some(ops) => Destination::Nulldata(ops),
            None => Destination::Unknown(copy_range(script, 0, n)),
        }
    } else {
        Destination::Unknown(copy_range(script, 0, n))
    }
}

/// The size byte and the 24-bit word of a compact difficulty encoding.
pub fn compact_parts(n_bits: u32) -> (r: (u32, u32))
    ensures
        r.0 == n_bits / 0x100_0000,
        r.1 == n_bits % 0x100_0000,
{
    let size = n_bits >> 24u32;
    let word = n_bits & 0xff_ffffu32;
    assert(size == n_bits / 0x100_0000 && word == n_bits % 0x100_0000) by (bit_vector)
        requires
            size == n_bits >> 24u32,
            word == n_bits & 0xff_ffffu32,
    ;
    (size, word)
}

/// The script type and hash that an address pays to.
pub fn doge_addr_to_script_type_payload(addr: &DogeAddress) -> (r: (ScriptType, [u8; 20]))
    ensures
        r.0 == (match addr.spec_addr_type() {
            AddressType::P2PKH => ScriptType::P2pkh,
            AddressType::P2SH => ScriptType::P2sh,
        }),
        r.1@ == addr.spec_hash(),
{
    let script_type = match addr.addr_type() {
        AddressType::P2PKH => ScriptType::P2pkh,
        AddressType::P2SH => ScriptType::P2sh,
    };
    (script_type, *addr.hash())
}

} // verus!
