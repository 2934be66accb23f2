//! Networks, address kinds and the table of version prefixes between them.
use vstd::prelude::*;

verus! {

/// The network whose prefixes an address uses.
#[derive(Clone, Copy, Debug, PartialEq, Eq, Hash, Structural)]
pub enum Chain {
    Mainnet,
    Testnet,
    Regtest,
}

/// Pay to public-key hash, or pay to script hash.
#[derive(Clone, Copy, Debug, PartialEq, Eq, Hash, Structural)]
pub enum AddressType {
    P2PKH,
    P2SH,
}

pub const MAINNET_P2PKH_PREFIX: u8 = 30;

pub const TESTNET_P2PKH_PREFIX: u8 = 113;

pub const REGTEST_P2PKH_PREFIX: u8 = 111;

pub const MAINNET_P2SH_PREFIX: u8 = 22;

pub const TESTNET_P2SH_PREFIX: u8 = 196;

/// The version prefix of each supported (chain, address type) pair; regtest
/// has no pay-to-script-hash prefix.
pub open spec fn prefix_of(chain: Chain, addr_type: AddressType) -> Option<u8> {
    match (chain, addr_type) {
        (Chain::Mainnet, AddressType::P2PKH) => Some(MAINNET_P2PKH_PREFIX),
        (Chain::Testnet, AddressType::P2PKH) => Some(TESTNET_P2PKH_PREFIX),
        (Chain::Regtest, AddressType::P2PKH) => Some(REGTEST_P2PKH_PREFIX),
        (Chain::Mainnet, AddressType::P2SH) => Some(MAINNET_P2SH_PREFIX),
        (Chain::Testnet, AddressType::P2SH) => Some(TESTNET_P2SH_PREFIX),
        (Chain::Regtest, AddressType::P2SH) => None,
    }
}

/// The (chain, address type) pair that a version prefix belongs to.
pub open spec fn pair_of_prefix(prefix: u8) -> Option<(Chain, AddressType)> {
    if prefix == MAINNET_P2PKH_PREFIX {
        Some((Chain::Mainnet, AddressType::P2PKH))
    } else if prefix == TESTNET_P2PKH_PREFIX {
        Some((Chain::Testnet, AddressType::P2PKH))
    } else if prefix == REGTEST_P2PKH_PREFIX {
        Some((Chain::Regtest, AddressType::P2PKH))
    } else if prefix == MAINNET_P2SH_PREFIX {
        Some((Chain::Mainnet, AddressType::P2SH))
    } else if prefix == TESTNET_P2SH_PREFIX {
        Some((Chain::Testnet, AddressType::P2SH))
    } else {
        None
    }
}

/// The prefix table is one to one: a prefix names exactly the pair that it was
/// assigned to, so decoding a prefix recovers the pair it was encoded from.
pub proof fn lemma_prefix_table_unambiguous(chain: Chain, addr_type: AddressType, prefix: u8)
    ensures
        prefix_of(chain, addr_type) == Some(prefix) <==> pair_of_prefix(prefix) == Some(
            (chain, addr_type),
        ),
{
}

/// Looks up the version prefix of a (chain, address type) pair.
pub fn lookup_prefix(chain: Chain, addr_type: AddressType) -> (r: Option<u8>)
    ensures
        r == prefix_of(chain, addr_type),
{
    match (chain, addr_type) {
        (Chain::Mainnet, AddressType::P2PKH) => Some(MAINNET_P2PKH_PREFIX),
        (Chain::Testnet, AddressType::P2PKH) => Some(TESTNET_P2PKH_PREFIX),
        (Chain::Regtest, AddressType::P2PKH) => Some(REGTEST_P2PKH_PREFIX),
        (Chain::Mainnet, AddressType::P2SH) => Some(MAINNET_P2SH_PREFIX),
        (Chain::Testnet, AddressType::P2SH) => Some(TESTNET_P2SH_PREFIX),
        (Chain::Regtest, AddressType::P2SH) => None,
    }
}

/// Finds the (chain, address type) pair that a version prefix belongs to.
pub fn lookup_pair(prefix: u8) -> (r: Option<(Chain, AddressType)>)
    ensures
        r == pair_of_prefix(prefix),
{
    if prefix == MAINNET_P2PKH_PREFIX {
        Some((Chain::Mainnet, AddressType::P2PKH))
    } else if prefix == TESTNET_P2PKH_PREFIX {
        Some((Chain::Testnet, AddressType::P2PKH))
    } else if prefix == REGTEST_P2PKH_PREFIX {
        Some((Chain::Regtest, AddressType::P2PKH))
    } else if prefix == MAINNET_P2SH_PREFIX {
        Some((Chain::Mainnet, AddressType::P2SH))
    } else if prefix == TESTNET_P2SH_PREFIX {
        Some((Chain::Testnet, AddressType::P2SH))
    } else {
        None
    }
}

} // verus!
