//! Base58check addresses: a version prefix, a 20-byte hash and a checksum.
use crate::chain::{lookup_pair, lookup_prefix, pair_of_prefix, prefix_of, AddressType, Chain};
use crate::checksum::{_calculate_checksum, _verify_checksum, checksum_of, verify_result};
use crate::script::{p2pkh_script, p2sh_script, OP_CHECKSIG, OP_DUP, OP_EQUAL, OP_EQUALVERIFY, OP_HASH160};
use crate::primitives::{base58_decode, base58_decode_of, base58_encode, base58_encode_of, is_base58_text};
use vstd::prelude::*;

verus! {

/// An address of a chain, with the hash and address type it stands for.
#[derive(Clone, Debug, PartialEq, Eq, Hash)]
pub struct DogeAddress {
    addr_type: AddressType,
    hash: [u8; 20],
    addr: String,
    chain: Chain,
}

/// Why an address could not be built or read.
#[derive(Debug)]
pub enum DogeAddressError {
    InvalidBase58(bs58::decode::Error),
    MissingPrefix,
    InvalidPayloadLength(usize),
    InvalidPayload,
    InvalidChecksum,
    InvalidAddressType(u8),
    InvalidChain,
    InvalidChainOrAddressType,
}

/// The 25 bytes behind an address: prefix, hash and checksum.
pub open spec fn address_bytes(prefix: u8, hash: Seq<u8>) -> Seq<u8> {
    seq![prefix] + hash + checksum_of(prefix, hash)
}

/// The address text of `hash` as `addr_type` on `chain`, where the pair has a
/// prefix.
pub open spec fn address_text(chain: Chain, addr_type: AddressType, hash: Seq<u8>) -> Seq<char>
    recommends
        prefix_of(chain, addr_type) is Some,
{
    base58_encode_of(address_bytes(prefix_of(chain, addr_type)->0, hash))
}

/// What reading the decoded bytes `data` of an address gives: its hash, type
/// and chain, or the first error met.
pub open spec fn read_address_bytes(data: Seq<u8>) -> Result<
    (Seq<u8>, AddressType, Chain),
    DogeAddressError,
> {
    match verify_result(data) {
        Err(e) => Err(e),
        Ok(_) => match pair_of_prefix(data[0]) {
            None => Err(DogeAddressError::InvalidAddressType(data[0])),
            Some((chain, addr_type)) => if data.len() - 5 != 20 {
                Err(DogeAddressError::InvalidPayloadLength((data.len() - 5) as usize))
            } else {
                Ok((data.subrange(1, data.len() - 4), addr_type, chain))
            },
        },
    }
}

/// What reading an address text expected on `chain` gives, for a text made of
/// base58 characters: its hash and type, or the first error met.
pub open spec fn parse_result(data: Seq<u8>, curr_chain: Chain) -> Result<
    (Seq<u8>, AddressType),
    DogeAddressError,
> {
    match read_address_bytes(data) {
        Err(e) => Err(e),
        Ok((hash, addr_type, chain)) => if chain != curr_chain {
            Err(DogeAddressError::InvalidChain)
        } else {
            Ok((hash, addr_type))
        },
    }
}

/// The hash and type that an address result carries.
pub open spec fn address_result_view(r: Result<DogeAddress, DogeAddressError>) -> Result<
    (Seq<u8>, AddressType),
    DogeAddressError,
> {
    match r {
        Ok(a) => Ok((a.spec_hash(), a.spec_addr_type())),
        Err(e) => Err(e),
    }
}

/// Whether an address text is made of base58 characters and reads back, on
/// `chain`, as `hash` with `addr_type`.
pub open spec fn decodes_to(text: Seq<char>, chain: Chain, addr_type: AddressType, hash: Seq<u8>) -> bool {
    is_base58_text(text) && parse_result(base58_decode_of(text), chain) == Ok::<_, DogeAddressError>(
        (hash, addr_type),
    )
}

/// Round trip: the bytes behind the address of a 20-byte hash, read on the
/// same chain, give back that hash and address type.
pub proof fn lemma_round_trip(chain: Chain, addr_type: AddressType, hash: Seq<u8>)
    requires
        hash.len() == 20,
        prefix_of(chain, addr_type) is Some,
    ensures
        parse_result(address_bytes(prefix_of(chain, addr_type)->0, hash), chain) == Ok::<
            _,
            DogeAddressError,
        >((hash, addr_type)),
{
    let p = prefix_of(chain, addr_type)->0;
    let data = address_bytes(p, hash);
    crate::chain::lemma_prefix_table_unambiguous(chain, addr_type, p);
    assert(data[0] == p);
    assert(data.subrange(1, 21) =~= hash);
    assert(data.skip(21) =~= checksum_of(p, hash));
}

/// Checksum sensitivity: flipping any one bit of the four checksum bytes behind
/// an address makes reading it fail with a checksum error.
pub proof fn lemma_checksum_bit_flip(
    chain: Chain,
    addr_type: AddressType,
    hash: Seq<u8>,
    index: int,
    bit: u8,
)
    requires
        hash.len() == 20,
        prefix_of(chain, addr_type) is Some,
        21 <= index < 25,
        bit < 8,
    ensures
        ({
            let data = address_bytes(prefix_of(chain, addr_type)->0, hash);
            parse_result(data.update(index, data[index] ^ (1u8 << bit)), chain) == Err::<
                (Seq<u8>, AddressType),
                _,
            >(DogeAddressError::InvalidChecksum)
        }),
{
    let p = prefix_of(chain, addr_type)->0;
    let data = address_bytes(p, hash);
    let x = data[index];
    let flipped = data.update(index, x ^ (1u8 << bit));
    assert(x ^ (1u8 << bit) != x) by (bit_vector)
        requires
            bit < 8,
    ;
    assert(flipped[0] == p);
    assert(flipped.subrange(1, 21) =~= hash);
    assert(flipped.skip(21)[index - 21] != checksum_of(p, hash)[index - 21]);
}

impl DogeAddress {
    pub closed spec fn spec_addr_type(&self) -> AddressType {
        self.addr_type
    }

    pub closed spec fn spec_hash(&self) -> Seq<u8> {
        self.hash@
    }

    pub closed spec fn spec_addr(&self) -> Seq<char> {
        self.addr@
    }

    pub closed spec fn spec_chain(&self) -> Chain {
        self.chain
    }

    /// Builds the address of `hash` as `addr_type` on `chain`; fails exactly
    /// when the pair has no prefix.
    pub fn from_hash(addr_type: AddressType, hash: [u8; 20], chain: Chain) -> (r: Result<
        Self,
        DogeAddressError,
    >)
        ensures
            r is Err <==> prefix_of(chain, addr_type) is None,
            r is Err ==> r->Err_0 == DogeAddressError::InvalidChainOrAddressType,
            r is Ok ==> decodes_to(r->Ok_0.spec_addr(), chain, addr_type, hash@),
            r is Ok ==> r->Ok_0.spec_addr_type() == addr_type && r->Ok_0.spec_hash() == hash@
                && r->Ok_0.spec_chain() == chain && r->Ok_0.spec_addr() == address_text(
                chain,
                addr_type,
                hash@,
            ),
    {
        let prefix = match lookup_prefix(chain, addr_type) {
            Some(p) => p,
            None => return Err(DogeAddressError::InvalidChainOrAddressType),
        };
        proof {
            lemma_round_trip(chain, addr_type, hash@);
        }
        Ok(DogeAddress { addr: _to_doge_addr(prefix, hash.as_slice()), addr_type, hash, chain })
    }

    /// Reads an address text that is expected to belong to `curr_chain`.
    pub fn parse_cow(addr: String, curr_chain: Chain) -> (r: Result<Self, DogeAddressError>)
        ensures
            !is_base58_text(addr@) <==> r matches Err(DogeAddressError::InvalidBase58(_)),
            is_base58_text(addr@) ==> address_result_view(r) == parse_result(
                base58_decode_of(addr@),
                curr_chain,
            ),
            r is Ok ==> r->Ok_0.spec_addr() == addr@ && r->Ok_0.spec_chain() == curr_chain,
    {
        let (hash, addr_type, chain) = match _from_str(addr.as_str()) {
            Ok(t) => t,
            Err(e) => return Err(e),
        };
        if chain != curr_chain {
            return Err(DogeAddressError::InvalidChain);
        }
        Ok(DogeAddress { addr_type, hash, addr, chain: curr_chain })
    }

    pub fn hash(&self) -> (r: &[u8; 20])
        ensures
            r@ == self.spec_hash(),
    {
        &self.hash
    }

    pub fn chain(&self) -> (r: &Chain)
        ensures
            *r == self.spec_chain(),
    {
        &self.chain
    }

    pub fn as_str(&self) -> (r: &str)
        ensures
            r@ == self.spec_addr(),
    {
        self.addr.as_str()
    }

    pub fn into_string(self) -> (r: String)
        ensures
            r@ == self.spec_addr(),
    {
        self.addr
    }

    pub fn addr_type(&self) -> (r: AddressType)
        ensures
            r == self.spec_addr_type(),
    {
        self.addr_type
    }

    /// The output script that pays to this address.
    pub fn to_script(&self) -> (r: Vec<u8>)
        ensures
            r@ == (match self.spec_addr_type() {
                AddressType::P2PKH => p2pkh_script(self.spec_hash()),
                AddressType::P2SH => p2sh_script(self.spec_hash()),
            }),
    {
        let mut r: Vec<u8> = Vec::new();
        match self.addr_type {
            AddressType::P2PKH => {
                r.push(OP_DUP);
                r.push(OP_HASH160);
            },
            AddressType::P2SH => {
                r.push(OP_HASH160);
            },
        }
        r.push(20);
        let ghost head = r@;
        let mut i: usize = 0;
        while i < 20
            invariant
                i <= 20,
                r@ == head + self.hash@.take(i as int),
            decreases 20 - i,
        {
            r.push(self.hash[i]);
            i = i + 1;
            assert(self.hash@.take(i as int) == self.hash@.take(i - 1) + seq![self.hash@[i - 1]]);
        }
        assert(self.hash@.take(20) == self.hash@);
        match self.addr_type {
            AddressType::P2PKH => {
                r.push(OP_EQUALVERIFY);
                r.push(OP_CHECKSIG);
                assert(r@ =~= p2pkh_script(self.hash@));
            },
            AddressType::P2SH => {
                r.push(OP_EQUAL);
                assert(r@ =~= p2sh_script(self.hash@));
            },
        }
        r
    }
}

/// Encodes `prefix ‖ hash ‖ checksum` in base58.
pub fn _to_doge_addr(prefix: u8, hash_bytes: &[u8]) -> (r: String)
    ensures
        r@ == base58_encode_of(address_bytes(prefix, hash_bytes@)),
        base58_decode_of(r@) == address_bytes(prefix, hash_bytes@),
        is_base58_text(r@),
{
    let checksum = _calculate_checksum(prefix, hash_bytes);
    let mut data: Vec<u8> = Vec::new();
    data.push(prefix);
    let mut i: usize = 0;
    while i < hash_bytes.len()
        invariant
            i <= hash_bytes@.len(),
            data@ == seq![prefix] + hash_bytes@.take(i as int),
        decreases hash_bytes@.len() - i,
    {
        data.push(hash_bytes[i]);
        i = i + 1;
        assert(hash_bytes@.take(i as int) == hash_bytes@.take(i - 1) + seq![hash_bytes@[i - 1]]);
    }
    assert(hash_bytes@.take(hash_bytes@.len() as int) == hash_bytes@);
    let mut j: usize = 0;
    while j < 4
        invariant
            j <= 4,
            data@ == seq![prefix] + hash_bytes@ + checksum@.take(j as int),
        decreases 4 - j,
    {
        data.push(checksum[j]);
        j = j + 1;
        assert(checksum@.take(j as int) == checksum@.take(j - 1) + seq![checksum@[j - 1]]);
    }
    assert(checksum@.take(4) == checksum@);
    base58_encode(data.as_slice())
}

/// Reads the hash, address type and chain out of the bytes behind an address.
pub fn read_address_data(data: &[u8]) -> (r: Result<([u8; 20], AddressType, Chain), DogeAddressError>)
    ensures
        match r {
            Ok((hash, addr_type, chain)) => read_address_bytes(data@) == Ok::<_, DogeAddressError>(
                (hash@, addr_type, chain),
            ),
            Err(e) => read_address_bytes(data@) == Err::<(Seq<u8>, AddressType, Chain), _>(e),
        },
{
    match _verify_checksum(data) {
        Ok(_) => {},
        Err(e) => return Err(e),
    }
    let prefix = data[0];
    let (chain, address_type) = match lookup_pair(prefix) {
        Some(p) => p,
        None => return Err(DogeAddressError::InvalidAddressType(prefix)),
    };
    let hash_len = data.len() - 5;
    if hash_len != 20 {
        return Err(DogeAddressError::InvalidPayloadLength(hash_len));
    }
    let mut hash: [u8; 20] = [0u8; 20];
    let mut i: usize = 0;
    while i < 20
        invariant
            i <= 20,
            data@.len() == 25,
            forall|k: int| 0 <= k < i ==> hash@[k] == data@[k + 1],
        decreases 20 - i,
    {
        hash[i] = data[i + 1];
        i = i + 1;
    }
    assert(hash@ =~= data@.subrange(1, 21));
    Ok((hash, address_type, chain))
}

/// Reads the hash, address type and chain out of an address text.
pub fn _from_str(addr_string: &str) -> (r: Result<([u8; 20], AddressType, Chain), DogeAddressError>)
    ensures
        !is_base58_text(addr_string@) <==> r matches Err(DogeAddressError::InvalidBase58(_)),
        is_base58_text(addr_string@) ==> match r {
            Ok((hash, addr_type, chain)) => read_address_bytes(base58_decode_of(addr_string@))
                == Ok::<_, DogeAddressError>((hash@, addr_type, chain)),
            Err(e) => read_address_bytes(base58_decode_of(addr_string@)) == Err::<
                (Seq<u8>, AddressType, Chain),
                _,
            >(e),
        },
{
    let data = match base58_decode(addr_string) {
        Ok(d) => d,
        Err(e) => return Err(DogeAddressError::InvalidBase58(e)),
    };
    read_address_data(data.as_slice())
}

} // verus!
