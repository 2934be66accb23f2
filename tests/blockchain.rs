use dogeaddr::blockchain::{
    compact_parts, destination_from_script, doge_addr_to_script_type_payload, from_be_hex, to_be_hex,
    Destination, HexError, ScriptType,
};
use dogeaddr::chain::{AddressType, Chain};
use dogeaddr::dogeaddress::DogeAddress;
use dogeaddr::script::{parse_ops, read_op, Op};

fn sample_hash() -> [u8; 20] {
    let mut h = [0u8; 20];
    for i in 0..20 {
        h[i] = (i + 1) as u8;
    }
    h
}

fn p2pkh_script(hash: &[u8]) -> Vec<u8> {
    let mut s = vec![0x76, 0xa9, hash.len() as u8];
    s.extend_from_slice(hash);
    s.extend_from_slice(&[0x88, 0xac]);
    s
}

fn p2sh_script(hash: &[u8]) -> Vec<u8> {
    let mut s = vec![0xa9, hash.len() as u8];
    s.extend_from_slice(hash);
    s.push(0x87);
    s
}

#[test]
fn be_hex_known_vector() {
    assert_eq!(to_be_hex(&[0x01, 0x02, 0x03]), "030201");
    assert_eq!(from_be_hex("030201").unwrap(), vec![0x01, 0x02, 0x03]);
    assert_eq!(to_be_hex(&[]), "");
    assert_eq!(to_be_hex(&[0xab, 0x0f]), "0fab");
    assert_eq!(from_be_hex("0FaB").unwrap(), vec![0xab, 0x0f]);
}

#[test]
fn be_hex_rejects_malformed_text() {
    assert!(matches!(from_be_hex("abc"), Err(HexError::InvalidHex(_))));
    assert!(matches!(from_be_hex("zz"), Err(HexError::InvalidHex(_))));
    assert!(from_be_hex("").unwrap().is_empty());
}

#[test]
fn classifies_p2pkh() {
    let script = p2pkh_script(&sample_hash());
    match destination_from_script(&script, Chain::Mainnet) {
        Destination::Address(addr) => {
            assert_eq!(addr.as_str(), "D5ERdEN1gsouFSs7zsq7VYJxyWP6dP28H1");
            assert_eq!(addr.addr_type(), AddressType::P2PKH);
        }
        other => panic!("unexpected {:?}", other),
    }
}

#[test]
fn classifies_p2sh() {
    let script = p2sh_script(&sample_hash());
    match destination_from_script(&script, Chain::Testnet) {
        Destination::Address(addr) => {
            assert_eq!(addr.as_str(), "2MsLZ5FqqYpjM1Q1W4X81zMVZTF9gdbhVwd");
            assert_eq!(addr.addr_type(), AddressType::P2SH);
        }
        other => panic!("unexpected {:?}", other),
    }
}

#[test]
fn regtest_p2sh_script_is_unknown() {
    let script = p2sh_script(&sample_hash());
    match destination_from_script(&script, Chain::Regtest) {
        Destination::Unknown(bytes) => assert_eq!(bytes, script),
        other => panic!("unexpected {:?}", other),
    }
}

#[test]
fn classifies_p2pk() {
    for len in [33usize, 65] {
        let mut script = vec![len as u8];
        script.extend(std::iter::repeat(2u8).take(len));
        script.push(0xac);
        match destination_from_script(&script, Chain::Mainnet) {
            Destination::P2PK(key) => assert_eq!(key, vec![2u8; len]),
            other => panic!("unexpected {:?}", other),
        }
    }
}

#[test]
fn classifies_nulldata() {
    let script = vec![0x6a, 0x03, 0xaa, 0xbb, 0xcc, 0x00, 0x51];
    match destination_from_script(&script, Chain::Mainnet) {
        Destination::Nulldata(ops) => assert_eq!(
            ops,
            vec![Op::Push(3, vec![0xaa, 0xbb, 0xcc]), Op::Code(0), Op::Code(0x51)]
        ),
        other => panic!("unexpected {:?}", other),
    }
    match destination_from_script(&[0x6a], Chain::Mainnet) {
        Destination::Nulldata(ops) => assert!(ops.is_empty()),
        other => panic!("unexpected {:?}", other),
    }
}

#[test]
fn truncated_nulldata_is_unknown() {
    let script = vec![0x6a, 0x05, 0xaa];
    match destination_from_script(&script, Chain::Mainnet) {
        Destination::Unknown(bytes) => assert_eq!(bytes, script),
        other => panic!("unexpected {:?}", other),
    }
}

#[test]
fn near_matches_are_unknown() {
    let short = p2pkh_script(&sample_hash()[..19]);
    let mut long_p2sh = p2sh_script(&sample_hash());
    long_p2sh.push(0x00);
    let mut bad_key = vec![33u8];
    bad_key.extend(std::iter::repeat(2u8).take(32));
    bad_key.push(0xac);
    for script in [short, long_p2sh, bad_key, vec![], vec![0x76, 0xa9]] {
        match destination_from_script(&script, Chain::Mainnet) {
            Destination::Unknown(bytes) => assert_eq!(bytes, script),
            other => panic!("unexpected {:?}", other),
        }
    }
}

#[test]
fn address_script_classifies_back() {
    let h = sample_hash();
    for (chain, addr_type) in [(Chain::Mainnet, AddressType::P2PKH), (Chain::Testnet, AddressType::P2SH)] {
        let addr = DogeAddress::from_hash(addr_type, h, chain).unwrap();
        let script = addr.to_script();
        match destination_from_script(&script, chain) {
            Destination::Address(back) => {
                assert_eq!(back.as_str(), addr.as_str());
                assert_eq!(back.addr_type(), addr_type);
            }
            other => panic!("unexpected {:?}", other),
        }
    }
    let addr = DogeAddress::from_hash(AddressType::P2PKH, h, Chain::Mainnet).unwrap();
    assert_eq!(addr.to_script(), p2pkh_script(&h));
}

#[test]
fn script_type_payload() {
    let h = sample_hash();
    let addr = DogeAddress::from_hash(AddressType::P2SH, h, Chain::Mainnet).unwrap();
    assert_eq!(doge_addr_to_script_type_payload(&addr), (ScriptType::P2sh, h));
    let addr = DogeAddress::from_hash(AddressType::P2PKH, h, Chain::Regtest).unwrap();
    assert_eq!(doge_addr_to_script_type_payload(&addr), (ScriptType::P2pkh, h));
}

#[test]
fn pushdata_operations() {
    let script = vec![0x4c, 0x02, 0x01, 0x02, 0x4d, 0x01, 0x00, 0x09, 0x4e, 0x00, 0x00, 0x00, 0x00];
    assert_eq!(
        parse_ops(&script).unwrap(),
        vec![Op::Push(0x4c, vec![1, 2]), Op::Push(0x4d, vec![9]), Op::Push(0x4e, vec![])]
    );
    assert!(parse_ops(&[0x4d, 0x01]).is_none());
    assert!(parse_ops(&[0x4e, 0xff, 0xff, 0xff, 0xff, 0x00]).is_none());
    assert_eq!(read_op(&[0x00, 0x02, 0x05, 0x06], 1), Some((Op::Push(2, vec![5, 6]), 4)));
}

#[test]
fn compact_difficulty_parts() {
    assert_eq!(compact_parts(0x1d00ffff), (0x1d, 0xffff));
    assert_eq!(compact_parts(0x1b0404cb), (0x1b, 0x0404cb));
    let (size, word) = compact_parts(0x1d00ffff);
    let max_target = 0x00ffff as f64 * 2f64.powi(8 * (0x1d - 3));
    let difficulty = max_target / (word as f64 * 2f64.powi(8 * (size as i32 - 3)));
    assert!((difficulty - 1.0).abs() < 1e-9);
}
