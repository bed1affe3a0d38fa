use bridge_shared::hex_text::HexDecodeError;
use bridge_shared::types::{
    Amount, BridgeTransferDetails, BridgeTransferId, CounterpartyCompletedDetails, EthValue,
    HashLock, HashLockPreImage, InitiatorAddress, InitiatorAddressCounterParty, LockDetails,
    ParseError, RecipientAddress, RecipientAddressCounterparty, TimeLock, Uint256,
};

const HEX_UPPER: &str = "00112233445566778899AABBCCDDEEFF00112233445566778899aAbBcCdDeEfF";
const HEX_LOWER: &str = "00112233445566778899aabbccddeeff00112233445566778899aabbccddeeff";

fn sample_bytes() -> [u8; 32] {
    let mut a = [0u8; 32];
    for i in 0..16 {
        a[i] = (i as u8) * 0x11;
        a[16 + i] = (i as u8) * 0x11;
    }
    a
}

#[test]
fn parse_transfer_id_mixed_case() {
    let id = BridgeTransferId::parse(HEX_UPPER).unwrap();
    assert_eq!(id.0, sample_bytes());
    assert_eq!(*id.inner(), sample_bytes());
}

#[test]
fn format_after_parse_is_lowercase_input() {
    let id = BridgeTransferId::parse(HEX_UPPER).unwrap();
    assert_eq!(id.to_hex(), HEX_LOWER);
    let lock = HashLock::parse(HEX_UPPER).unwrap();
    assert_eq!(lock.to_hex(), HEX_LOWER);
    assert_eq!(HashLock::parse(HEX_LOWER).unwrap().to_hex(), HEX_LOWER);
}

#[test]
fn to_hex_of_bytes() {
    let mut a = [0u8; 32];
    a[0] = 0xab;
    a[31] = 0x0f;
    let s = BridgeTransferId(a).to_hex();
    assert_eq!(s.len(), 64);
    assert!(s.starts_with("ab00"));
    assert!(s.ends_with("000f"));
}

#[test]
fn parse_wrong_length() {
    assert_eq!(BridgeTransferId::parse("abcd"), Err(ParseError::InvalidLength));
    assert_eq!(HashLock::parse(""), Err(ParseError::InvalidLength));
    let long = format!("{}00", HEX_LOWER);
    assert_eq!(HashLock::parse(&long), Err(ParseError::InvalidLength));
}

#[test]
fn parse_odd_length() {
    assert_eq!(
        BridgeTransferId::parse("abc"),
        Err(ParseError::HexDecodeError(HexDecodeError::OddLength))
    );
}

#[test]
fn parse_invalid_character() {
    assert_eq!(
        HashLock::parse("invalid_hash_lock!"),
        Err(ParseError::HexDecodeError(HexDecodeError::InvalidHexCharacter {
            c: 'i',
            index: 0
        }))
    );
    let mut s = String::from(HEX_LOWER);
    s.replace_range(10..11, "g");
    assert_eq!(
        BridgeTransferId::parse(&s),
        Err(ParseError::HexDecodeError(HexDecodeError::InvalidHexCharacter {
            c: 'g',
            index: 10
        }))
    );
}

#[test]
fn amount_accessors() {
    let both = Amount(EthValue::WethAndEth((7, 9)));
    assert_eq!(both.weth(), 7);
    assert_eq!(both.eth(), 9);
    let weth = Amount(EthValue::Weth(5));
    assert_eq!(weth.weth(), 5);
    assert_eq!(weth.eth(), 0);
    let eth = Amount(EthValue::Eth(3));
    assert_eq!(eth.weth(), 0);
    assert_eq!(eth.eth(), 3);
}

#[test]
fn time_lock_keeps_low_bits() {
    let v = Uint256 { limbs: [100, 1, 2, 3] };
    assert_eq!(TimeLock::from(v), TimeLock(100));
    assert_eq!(Uint256 { limbs: [u64::MAX, 0, 0, 0] }.low_u64(), u64::MAX);
}

#[test]
fn amount_from_wide_integer_is_eth() {
    let v = Uint256 { limbs: [1000, 0, 0, 7] };
    let a: Amount<EthValue> = Amount::from(v);
    assert_eq!(a, Amount(EthValue::Eth(1000)));
}

#[test]
fn from_alloy_uint() {
    let v = alloy::primitives::Uint::<256, 4>::from_limbs([42, 5, 0, 1]);
    assert_eq!(TimeLock::from(v), TimeLock(42));
    let a: Amount<EthValue> = Amount::from(v);
    assert_eq!(a.eth(), 42);
}

#[test]
fn addresses_from_text() {
    assert_eq!(InitiatorAddress::from("initiator").0, b"initiator".to_vec());
    assert_eq!(InitiatorAddress::from(String::from("abc")).0, b"abc".to_vec());
    assert_eq!(RecipientAddress::from("recipient").0, b"recipient".to_vec());
}

#[test]
fn address_round_trip() {
    let a = InitiatorAddress::from("0xinitiator");
    let c = InitiatorAddressCounterParty::from(a.clone());
    assert_eq!(c.0, b"0xinitiator".to_vec());
    assert_eq!(InitiatorAddress::from(c), a);
    let r = RecipientAddress::from("recipient");
    let rc = RecipientAddressCounterparty::from(r.clone());
    assert_eq!(RecipientAddress::from(rc), r);
}

#[test]
fn random_secret_has_32_bytes() {
    let a = HashLockPreImage::random();
    let b = HashLockPreImage::random();
    assert_eq!(a.0.len(), 32);
    assert_eq!(b.as_ref().len(), 32);
    assert_ne!(a, b);
}

fn sample_details() -> BridgeTransferDetails<Vec<u8>, [u8; 32], u64> {
    BridgeTransferDetails {
        bridge_transfer_id: BridgeTransferId([1u8; 32]),
        initiator_address: InitiatorAddress::from("initiator"),
        recipient_address: RecipientAddress::from("recipient"),
        hash_lock: HashLock([2u8; 32]),
        time_lock: TimeLock(100),
        amount: Amount(1000),
    }
}

#[test]
fn completed_from_transfer_details() {
    let d = sample_details();
    let secret = HashLockPreImage(b"secret".to_vec());
    let c = CounterpartyCompletedDetails::from_bridge_transfer_details(d.clone(), secret.clone());
    assert_eq!(c.bridge_transfer_id, d.bridge_transfer_id);
    assert_eq!(c.hash_lock, d.hash_lock);
    assert_eq!(c.amount, d.amount);
    assert_eq!(c.secret, secret);
    assert_eq!(c.initiator_address, d.initiator_address);
    assert_eq!(c.recipient_address, d.recipient_address);
}

#[test]
fn completed_from_lock_details() {
    let l: LockDetails<Vec<u8>, [u8; 32], u64> = LockDetails {
        bridge_transfer_id: BridgeTransferId([3u8; 32]),
        initiator_address: InitiatorAddress::from("initiator"),
        recipient_address: RecipientAddress::from("recipient"),
        hash_lock: HashLock([4u8; 32]),
        time_lock: TimeLock(5),
        amount: Amount(1),
    };
    let secret = HashLockPreImage(vec![9u8; 32]);
    let c = CounterpartyCompletedDetails::from_lock_details(l.clone(), secret.clone());
    assert_eq!(c.bridge_transfer_id, l.bridge_transfer_id);
    assert_eq!(c.initiator_address, l.initiator_address);
    assert_eq!(c.recipient_address, l.recipient_address);
    assert_eq!(c.hash_lock, l.hash_lock);
    assert_eq!(c.amount, l.amount);
    assert_eq!(c.secret, secret);
}
