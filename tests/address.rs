use dogeaddr::chain::{AddressType, Chain};
use dogeaddr::checksum::{_calculate_checksum, _verify_checksum};
use dogeaddr::dogeaddress::{_from_str, _to_doge_addr, read_address_data, DogeAddress, DogeAddressError};

fn sample_hash() -> [u8; 20] {
    let mut h = [0u8; 20];
    for i in 0..20 {
        h[i] = (i + 1) as u8;
    }
    h
}

fn from_hex(s: &str) -> Vec<u8> {
    hex::decode(s).unwrap()
}

#[test]
fn encodes_known_vectors() {
    let h = sample_hash();
    let cases = [
        (Chain::Mainnet, AddressType::P2PKH, "D5ERdEN1gsouFSs7zsq7VYJxyWP6dP28H1"),
        (Chain::Testnet, AddressType::P2PKH, "nUHVMF6vcrGd8RSK2hUZjwuGDNmPeNoBRb"),
        (Chain::Regtest, AddressType::P2PKH, "mfcHP2WMCVLsVZA8yrovmhMgxNFW9r98xw"),
        (Chain::Mainnet, AddressType::P2SH, "9rXbkMyi1S6thykRoXAZcY8fwUKYsy6cXE"),
        (Chain::Testnet, AddressType::P2SH, "2MsLZ5FqqYpjM1Q1W4X81zMVZTF9gdbhVwd"),
    ];
    for (chain, addr_type, text) in cases {
        let addr = DogeAddress::from_hash(addr_type, h, chain).unwrap();
        assert_eq!(addr.as_str(), text);
        assert_eq!(*addr.chain(), chain);
        assert_eq!(addr.addr_type(), addr_type);
        assert_eq!(addr.hash(), &h);
    }
}

#[test]
fn encodes_zero_hash() {
    let addr = DogeAddress::from_hash(AddressType::P2PKH, [0u8; 20], Chain::Mainnet).unwrap();
    assert_eq!(addr.into_string(), "D596YFweJQuHY1BbjazZYmAbt8jJPbKehC");
}

#[test]
fn round_trip_every_supported_pair() {
    let h = sample_hash();
    for chain in [Chain::Mainnet, Chain::Testnet, Chain::Regtest] {
        for addr_type in [AddressType::P2PKH, AddressType::P2SH] {
            if let Ok(addr) = DogeAddress::from_hash(addr_type, h, chain) {
                let back = DogeAddress::parse_cow(addr.as_str().to_string(), chain).unwrap();
                assert_eq!(back.hash(), &h);
                assert_eq!(back.addr_type(), addr_type);
                assert_eq!(back.as_str(), addr.as_str());
                assert_eq!(back, addr);
            }
        }
    }
}

#[test]
fn regtest_p2sh_has_no_prefix() {
    let r = DogeAddress::from_hash(AddressType::P2SH, sample_hash(), Chain::Regtest);
    assert!(matches!(r, Err(DogeAddressError::InvalidChainOrAddressType)));
    for chain in [Chain::Mainnet, Chain::Testnet, Chain::Regtest] {
        assert!(DogeAddress::from_hash(AddressType::P2PKH, sample_hash(), chain).is_ok());
    }
    assert!(DogeAddress::from_hash(AddressType::P2SH, sample_hash(), Chain::Mainnet).is_ok());
    assert!(DogeAddress::from_hash(AddressType::P2SH, sample_hash(), Chain::Testnet).is_ok());
}

#[test]
fn flipped_checksum_bit_fails() {
    let addr = DogeAddress::from_hash(AddressType::P2PKH, sample_hash(), Chain::Mainnet).unwrap();
    let data = bs58::decode(addr.as_str()).into_vec().unwrap();
    for index in 21..25 {
        for bit in 0..8 {
            let mut flipped = data.clone();
            flipped[index] ^= 1u8 << bit;
            let text = bs58::encode(&flipped).into_string();
            let r = DogeAddress::parse_cow(text, Chain::Mainnet);
            assert!(matches!(r, Err(DogeAddressError::InvalidChecksum)));
        }
    }
    let r = DogeAddress::parse_cow("D5ERdEN1gsouFSs7zsq7VYJxyWP6dP28H2".to_string(), Chain::Mainnet);
    assert!(matches!(r, Err(DogeAddressError::InvalidChecksum)));
}

#[test]
fn non_alphabet_character_is_invalid_base58() {
    let r = DogeAddress::parse_cow("D5ERdEN1gsouFSs7zsq7VYJxyWP6dP28Hl".to_string(), Chain::Mainnet);
    assert!(matches!(r, Err(DogeAddressError::InvalidBase58(_))));
    for text in ["0abc", "O", "I", "ab c", "é"] {
        assert!(matches!(_from_str(text), Err(DogeAddressError::InvalidBase58(_))));
    }
}

#[test]
fn wrong_chain_is_rejected() {
    let r = DogeAddress::parse_cow("D5ERdEN1gsouFSs7zsq7VYJxyWP6dP28H1".to_string(), Chain::Testnet);
    assert!(matches!(r, Err(DogeAddressError::InvalidChain)));
}

#[test]
fn unknown_prefix_is_rejected() {
    let r = DogeAddress::parse_cow("M7zVKQKmtV5Rc7erVGVVC3khZbXxsS5HEX".to_string(), Chain::Mainnet);
    assert!(matches!(r, Err(DogeAddressError::InvalidAddressType(50))));
}

#[test]
fn short_hash_is_rejected() {
    let r = DogeAddress::parse_cow("3jeUnN9qe8S8Jmq4Q5iiM4UBR8ZfzrCrx".to_string(), Chain::Mainnet);
    assert!(matches!(r, Err(DogeAddressError::InvalidPayloadLength(19))));
}

#[test]
fn short_and_empty_data() {
    assert!(matches!(_from_str(""), Err(DogeAddressError::MissingPrefix)));
    assert!(matches!(_from_str("Ldp"), Err(DogeAddressError::InvalidPayloadLength(3))));
    assert!(matches!(_verify_checksum(&[]), Err(DogeAddressError::MissingPrefix)));
    for n in 1..5usize {
        let data = vec![7u8; n];
        match _verify_checksum(&data) {
            Err(DogeAddressError::InvalidPayloadLength(k)) => assert_eq!(k, n),
            other => panic!("unexpected {:?}", other),
        }
    }
}

#[test]
fn checksum_known_value() {
    let h = sample_hash();
    assert_eq!(_calculate_checksum(30, &h), [0xc0, 0x21, 0xea, 0xe4]);
    let data = from_hex("1e0102030405060708090a0b0c0d0e0f1011121314c021eae4");
    assert!(matches!(_verify_checksum(&data), Ok(true)));
    let mut bad = data.clone();
    bad[10] ^= 0x80;
    assert!(matches!(_verify_checksum(&bad), Err(DogeAddressError::InvalidChecksum)));
}

#[test]
fn reads_address_bytes() {
    let data = from_hex("c40102030405060708090a0b0c0d0e0f1011121314a665b2f0");
    let (hash, addr_type, chain) = read_address_data(&data).unwrap();
    assert_eq!(hash, sample_hash());
    assert_eq!(addr_type, AddressType::P2SH);
    assert_eq!(chain, Chain::Testnet);
    let data = from_hex("6f0102030405060708090a0b0c0d0e0f1011121314371e7638");
    let (_, addr_type, chain) = read_address_data(&data).unwrap();
    assert_eq!(addr_type, AddressType::P2PKH);
    assert_eq!(chain, Chain::Regtest);
}

#[test]
fn to_doge_addr_matches_from_hash() {
    assert_eq!(_to_doge_addr(22, &sample_hash()), "9rXbkMyi1S6thykRoXAZcY8fwUKYsy6cXE");
    let (hash, addr_type, chain) = _from_str("nUHVMF6vcrGd8RSK2hUZjwuGDNmPeNoBRb").unwrap();
    assert_eq!(hash, sample_hash());
    assert_eq!(addr_type, AddressType::P2PKH);
    assert_eq!(chain, Chain::Testnet);
}
