//! The identities, commitments, addresses and amounts of a transfer, and the
//! three records that successive stages of one transfer are seen through.

use vstd::prelude::*;
use vstd::std_specs::convert::FromSpec;
use vstd::slice::slice_to_vec;
use vstd::utf8::encode_utf8;
use vstd::string::StringSliceAdditionalSpecFns;
use crate::hex_text::{decode, encode_hex, hex_decoded, hex_encoded, is_decode_error_of, is_hex_text, HexDecodeError};

verus! {

/// The number of bytes of a hash in its fixed-size form.
pub const HASH_LEN: usize = 32;

/// Why text is no 32-byte hash.
#[derive(Debug, Clone, Copy, PartialEq, Eq, Structural)]
pub enum ParseError {
    /// The text is not hexadecimal.
    HexDecodeError(HexDecodeError),
    /// The text is hexadecimal but does not stand for exactly 32 bytes.
    InvalidLength,
}

/// Text that stands for a 32-byte hash: 64 hexadecimal digits of either case.
pub open spec fn is_hash_text(b: Seq<u8>) -> bool {
    is_hex_text(b) && b.len() == 2 * HASH_LEN
}

/// What parsing the bytes `b` of a text as a 32-byte hash gives.
pub open spec fn is_parse_outcome(b: Seq<u8>, r: Result<Seq<u8>, ParseError>) -> bool {
    &&& r is Ok <==> is_hash_text(b)
    &&& r matches Ok(h) ==> h == hex_decoded(b)
    &&& r == Err::<Seq<u8>, ParseError>(ParseError::InvalidLength) <==> is_hex_text(b) && b.len()
        != 2 * HASH_LEN
    &&& r matches Err(ParseError::HexDecodeError(e)) ==> is_decode_error_of(b, e)
}

/// Parses text into the 32 bytes it stands for.
fn parse_hash(s: &str) -> (r: Result<[u8; 32], ParseError>)
    ensures
        is_parse_outcome(
            s.spec_bytes(),
            match r {
                Ok(a) => Ok(a@),
                Err(e) => Err(e),
            },
        ),
{
    let bytes = s.as_bytes();
    match decode(bytes) {
        Err(e) => Err(ParseError::HexDecodeError(e)),
        Ok(v) => {
            if v.len() != HASH_LEN {
                return Err(ParseError::InvalidLength);
            }
            let mut array = [0u8; 32];
            let mut i: usize = 0;
            while i < HASH_LEN
                invariant
                    v.len() == HASH_LEN,
                    i <= HASH_LEN,
                    forall|j: int| 0 <= j < i ==> array@[j] == v@[j],
                decreases HASH_LEN - i,
            {
                array.set(i, v[i]);
                i = i + 1;
            }
            assert(array@ =~= v@);
            Ok(array)
        },
    }
}

/// The identity of a transfer, the same on both chains.
#[derive(Debug, Clone, PartialEq, Eq, Hash)]
pub struct BridgeTransferId<H>(pub H);

impl<H> BridgeTransferId<H> {
    pub fn inner(&self) -> (r: &H)
        ensures
            *r == self.0,
    {
        &self.0
    }
}

impl BridgeTransferId<[u8; 32]> {
    /// Parses 64 hexadecimal digits of either case.
    pub fn parse(s: &str) -> (r: Result<Self, ParseError>)
        ensures
            is_parse_outcome(
                s.spec_bytes(),
                match r {
                    Ok(id) => Ok(id.0@),
                    Err(e) => Err(e),
                },
            ),
    {
        match parse_hash(s) {
            Ok(a) => Ok(BridgeTransferId(a)),
            Err(e) => Err(e),
        }
    }

    /// The 64 lowercase hexadecimal digits of the hash.
    pub fn to_hex(&self) -> (r: String)
        ensures
            r@ == hex_encoded(self.0@),
    {
        encode_hex(self.0.as_slice())
    }
}

/// Re-expresses a transfer's identity in another hash encoding.
pub fn convert_bridge_transfer_id<H: From<O>, O>(other: BridgeTransferId<O>) -> (r: BridgeTransferId<H>)
    ensures
        H::obeys_from_spec() ==> r.0 == H::from_spec(other.0),
{
    BridgeTransferId(H::from(other.0))
}

/// The committed hash of a secret.
#[derive(Debug, Clone, PartialEq, Eq, Hash)]
pub struct HashLock<H>(pub H);

impl<H> HashLock<H> {
    pub fn inner(&self) -> (r: &H)
        ensures
            *r == self.0,
    {
        &self.0
    }
}

impl HashLock<[u8; 32]> {
    /// Parses 64 hexadecimal digits of either case.
    pub fn parse(s: &str) -> (r: Result<Self, ParseError>)
        ensures
            is_parse_outcome(
                s.spec_bytes(),
                match r {
                    Ok(h) => Ok(h.0@),
                    Err(e) => Err(e),
                },
            ),
    {
        match parse_hash(s) {
            Ok(a) => Ok(HashLock(a)),
            Err(e) => Err(e),
        }
    }

    /// The 64 lowercase hexadecimal digits of the hash.
    pub fn to_hex(&self) -> (r: String)
        ensures
            r@ == hex_encoded(self.0@),
    {
        encode_hex(self.0.as_slice())
    }
}

/// Re-expresses a hash lock in another hash encoding.
pub fn convert_hash_lock<H: From<O>, O>(other: HashLock<O>) -> (r: HashLock<H>)
    ensures
        H::obeys_from_spec() ==> r.0 == H::from_spec(other.0),
{
    HashLock(H::from(other.0))
}

/// The address of the party that starts a transfer.
#[derive(Debug, Clone, PartialEq, Eq, Hash)]
pub struct InitiatorAddress<A>(pub A);

/// The address of the party that receives a transfer.
#[derive(Debug, Clone, PartialEq, Eq, Hash)]
pub struct RecipientAddress<A>(pub A);

/// The recipient's address in the counterparty chain's own encoding.
#[derive(Debug, Clone, PartialEq, Eq, Hash)]
pub struct RecipientAddressCounterparty<A>(pub A);

/// The initiator's address as the counterparty chain holds it: raw bytes.
#[derive(Debug, Clone, PartialEq, Eq, Hash)]
pub struct InitiatorAddressCounterParty(pub Vec<u8>);

impl From<&str> for InitiatorAddress<Vec<u8>> {
    fn from(value: &str) -> (r: Self)
        ensures
            r.0@ == value.spec_bytes(),
    {
        InitiatorAddress(slice_to_vec(value.as_bytes()))
    }
}

impl vstd::std_specs::convert::FromSpecImpl<&str> for InitiatorAddress<Vec<u8>> {
    open spec fn obeys_from_spec() -> bool {
        false
    }

    open spec fn from_spec(v: &str) -> Self {
        arbitrary()
    }
}

impl From<String> for InitiatorAddress<Vec<u8>> {
    fn from(value: String) -> (r: Self)
        ensures
            r.0@ == encode_utf8(value@),
    {
        InitiatorAddress(slice_to_vec(value.as_str().as_bytes()))
    }
}

impl vstd::std_specs::convert::FromSpecImpl<String> for InitiatorAddress<Vec<u8>> {
    open spec fn obeys_from_spec() -> bool {
        false
    }

    open spec fn from_spec(v: String) -> Self {
        arbitrary()
    }
}

impl From<&str> for RecipientAddress<Vec<u8>> {
    fn from(value: &str) -> (r: Self)
        ensures
            r.0@ == value.spec_bytes(),
    {
        RecipientAddress(slice_to_vec(value.as_bytes()))
    }
}

impl vstd::std_specs::convert::FromSpecImpl<&str> for RecipientAddress<Vec<u8>> {
    open spec fn obeys_from_spec() -> bool {
        false
    }

    open spec fn from_spec(v: &str) -> Self {
        arbitrary()
    }
}

impl From<InitiatorAddress<Vec<u8>>> for InitiatorAddressCounterParty {
    fn from(value: InitiatorAddress<Vec<u8>>) -> Self {
        InitiatorAddressCounterParty(value.0)
    }
}

impl vstd::std_specs::convert::FromSpecImpl<InitiatorAddress<Vec<u8>>> for InitiatorAddressCounterParty {
    open spec fn obeys_from_spec() -> bool {
        true
    }

    open spec fn from_spec(v: InitiatorAddress<Vec<u8>>) -> Self {
        InitiatorAddressCounterParty(v.0)
    }
}

impl From<InitiatorAddressCounterParty> for InitiatorAddress<Vec<u8>> {
    fn from(value: InitiatorAddressCounterParty) -> Self {
        InitiatorAddress(value.0)
    }
}

impl vstd::std_specs::convert::FromSpecImpl<InitiatorAddressCounterParty> for InitiatorAddress<Vec<u8>> {
    open spec fn obeys_from_spec() -> bool {
        true
    }

    open spec fn from_spec(v: InitiatorAddressCounterParty) -> Self {
        InitiatorAddress(v.0)
    }
}

impl<A> From<RecipientAddress<A>> for RecipientAddressCounterparty<A> {
    fn from(value: RecipientAddress<A>) -> Self {
        RecipientAddressCounterparty(value.0)
    }
}

impl<A> vstd::std_specs::convert::FromSpecImpl<RecipientAddress<A>> for RecipientAddressCounterparty<A> {
    open spec fn obeys_from_spec() -> bool {
        true
    }

    open spec fn from_spec(v: RecipientAddress<A>) -> Self {
        RecipientAddressCounterparty(v.0)
    }
}

impl<A> From<RecipientAddressCounterparty<A>> for RecipientAddress<A> {
    fn from(value: RecipientAddressCounterparty<A>) -> Self {
        RecipientAddress(value.0)
    }
}

impl<A> vstd::std_specs::convert::FromSpecImpl<RecipientAddressCounterparty<A>> for RecipientAddress<A> {
    open spec fn obeys_from_spec() -> bool {
        true
    }

    open spec fn from_spec(v: RecipientAddressCounterparty<A>) -> Self {
        RecipientAddress(v.0)
    }
}

/// An initiator's address, carried over to the counterparty chain's form and
/// back, is the address it was, byte for byte.
pub proof fn lemma_initiator_address_round_trip(a: InitiatorAddress<Vec<u8>>)
    ensures
        <InitiatorAddressCounterParty as FromSpec<InitiatorAddress<Vec<u8>>>>::obeys_from_spec(),
        <InitiatorAddress<Vec<u8>> as FromSpec<InitiatorAddressCounterParty>>::obeys_from_spec(),
        <InitiatorAddress<Vec<u8>> as FromSpec<InitiatorAddressCounterParty>>::from_spec(
            <InitiatorAddressCounterParty as FromSpec<InitiatorAddress<Vec<u8>>>>::from_spec(a),
        ) == a,
        <InitiatorAddressCounterParty as FromSpec<InitiatorAddress<Vec<u8>>>>::from_spec(a).0@
            == a.0@,
{
}

/// A recipient's address, carried over to the counterparty chain's form and
/// back, is the address it was.
pub proof fn lemma_recipient_address_round_trip<A>(a: RecipientAddress<A>)
    ensures
        <RecipientAddressCounterparty<A> as FromSpec<RecipientAddress<A>>>::obeys_from_spec(),
        <RecipientAddress<A> as FromSpec<RecipientAddressCounterparty<A>>>::obeys_from_spec(),
        <RecipientAddress<A> as FromSpec<RecipientAddressCounterparty<A>>>::from_spec(
            <RecipientAddressCounterparty<A> as FromSpec<RecipientAddress<A>>>::from_spec(a),
        ) == a,
{
}

/// A secret whose hash is a transfer's hash lock.
#[derive(Debug, Clone, PartialEq, Eq)]
pub struct HashLockPreImage(pub Vec<u8>);

impl AsRef<[u8]> for HashLockPreImage {
    fn as_ref(&self) -> (r: &[u8])
        ensures
            r@ == self.0@,
    {
        self.0.as_slice()
    }
}

/// Relies on `rand::thread_rng` and `RngCore::fill_bytes`: every byte of
/// `dest` is overwritten from the thread's cryptographically secure
/// generator, and its length is kept.
#[verifier::external_body]
fn fill_random(dest: &mut Vec<u8>)
    ensures
        final(dest)@.len() == old(dest)@.len(),
{
    rand::RngCore::fill_bytes(&mut rand::thread_rng(), dest.as_mut_slice())
}

impl HashLockPreImage {
    /// A fresh secret of 32 bytes from a cryptographically secure generator.
    pub fn random() -> (r: Self)
        ensures
            r.0@.len() == HASH_LEN,
    {
        let mut secret = vec![0u8; HASH_LEN];
        fill_random(&mut secret);
        HashLockPreImage(secret)
    }
}

/// A deadline, in the counter the chain keeps time by.
#[derive(Debug, Clone, PartialEq, Eq, Structural)]
pub struct TimeLock(pub u64);

/// The tokens that a transfer can carry.
#[derive(Debug, Clone, PartialEq, Eq, Copy)]
pub enum BridgedToken {
    Weth(u64),
    Eth(u64),
    WethAndEth((u64, u64)),
}

/// 2^64, the weight of one limb.
pub open spec fn limb_modulus() -> int {
    0x1_0000_0000_0000_0000
}

/// An unsigned 256-bit integer as four 64-bit limbs, least significant first.
#[derive(Debug, Clone, Copy, PartialEq, Eq)]
pub struct Uint256 {
    pub limbs: [u64; 4],
}

impl Uint256 {
    pub open spec fn value(&self) -> nat {
        (self.limbs[0] + limb_modulus() * (self.limbs[1] + limb_modulus() * (self.limbs[2]
            + limb_modulus() * self.limbs[3]))) as nat
    }

    /// The low 64 bits: the value modulo 2^64, the higher bits discarded.
    pub fn low_u64(&self) -> (r: u64)
        ensures
            r == self.value() as int % limb_modulus(),
    {
        let low = self.limbs[0];
        proof {
            let m = limb_modulus();
            let (l1, l2, l3) = (self.limbs[1] as int, self.limbs[2] as int, self.limbs[3] as int);
            let high = l1 + m * (l2 + m * l3);
            vstd::arithmetic::div_mod::lemma_mod_multiples_vanish(high, low as int, limb_modulus());
            vstd::arithmetic::div_mod::lemma_small_mod(low as nat, limb_modulus() as nat);
        }
        low
    }
}

/// The integer type that the initiator chain reports deadlines and values in.
#[verifier::external_type_specification]
#[verifier::external_body]
pub struct ExUint<const BITS: usize, const LIMBS: usize>(alloy::primitives::Uint<BITS, LIMBS>);

/// Relies on `Uint::as_limbs`: the limbs of the integer, least significant
/// first.
#[verifier::external_body]
fn limbs_of(value: &alloy::primitives::Uint<256, 4>) -> (r: Uint256) {
    Uint256 { limbs: *value.as_limbs() }
}

impl From<Uint256> for TimeLock {
    /// Keeps the low 64 bits; the higher ones are discarded.
    fn from(value: Uint256) -> (r: Self)
        ensures
            r.0 == value.value() as int % limb_modulus(),
    {
        TimeLock(value.low_u64())
    }
}

impl vstd::std_specs::convert::FromSpecImpl<Uint256> for TimeLock {
    open spec fn obeys_from_spec() -> bool {
        true
    }

    open spec fn from_spec(v: Uint256) -> Self {
        TimeLock((v.value() as int % limb_modulus()) as u64)
    }
}

impl From<alloy::primitives::Uint<256, 4>> for TimeLock {
    /// Keeps the low 64 bits; the higher ones are discarded.
    fn from(value: alloy::primitives::Uint<256, 4>) -> Self {
        TimeLock::from(limbs_of(&value))
    }
}

impl vstd::std_specs::convert::FromSpecImpl<alloy::primitives::Uint<256, 4>> for TimeLock {
    open spec fn obeys_from_spec() -> bool {
        false
    }

    open spec fn from_spec(v: alloy::primitives::Uint<256, 4>) -> Self {
        arbitrary()
    }
}

/// A value carried by a transfer.
#[derive(Debug, Clone, Copy, PartialEq, Eq)]
pub struct Amount<V>(pub V);

/// A value in wrapped ether, in ether, or in both at once.
#[derive(Clone, Copy, Debug, PartialEq, Eq)]
pub enum EthValue {
    Weth(u64),
    Eth(u64),
    WethAndEth((u64, u64)),
}

impl EthValue {
    /// The wrapped ether part; zero where there is none.
    pub open spec fn weth_part(self) -> u64 {
        match self {
            EthValue::Weth(w) => w,
            EthValue::WethAndEth((w, _)) => w,
            EthValue::Eth(_) => 0,
        }
    }

    /// The ether part; zero where there is none.
    pub open spec fn eth_part(self) -> u64 {
        match self {
            EthValue::Eth(e) => e,
            EthValue::WethAndEth((_, e)) => e,
            EthValue::Weth(_) => 0,
        }
    }
}

impl Amount<EthValue> {
    pub fn weth(&self) -> (r: u64)
        ensures
            r == self.0.weth_part(),
    {
        match self.0 {
            EthValue::Weth(value) => value,
            EthValue::WethAndEth((weth_value, _)) => weth_value,
            EthValue::Eth(_) => 0,
        }
    }

    pub fn eth(&self) -> (r: u64)
        ensures
            r == self.0.eth_part(),
    {
        match self.0 {
            EthValue::Eth(value) => value,
            EthValue::WethAndEth((_, eth_value)) => eth_value,
            EthValue::Weth(_) => 0,
        }
    }
}

impl From<Uint256> for Amount<EthValue> {
    /// An amount in ether: the low 64 bits; the higher ones are discarded.
    fn from(value: Uint256) -> (r: Self)
        ensures
            r.0 == EthValue::Eth((value.value() as int % limb_modulus()) as u64),
    {
        Amount(EthValue::Eth(value.low_u64()))
    }
}

impl vstd::std_specs::convert::FromSpecImpl<Uint256> for Amount<EthValue> {
    open spec fn obeys_from_spec() -> bool {
        true
    }

    open spec fn from_spec(v: Uint256) -> Self {
        Amount(EthValue::Eth((v.value() as int % limb_modulus()) as u64))
    }
}

impl From<alloy::primitives::Uint<256, 4>> for Amount<EthValue> {
    /// An amount in ether: the low 64 bits; the higher ones are discarded.
    fn from(value: alloy::primitives::Uint<256, 4>) -> Self {
        Amount::from(limbs_of(&value))
    }
}

impl vstd::std_specs::convert::FromSpecImpl<alloy::primitives::Uint<256, 4>> for Amount<EthValue> {
    open spec fn obeys_from_spec() -> bool {
        false
    }

    open spec fn from_spec(v: alloy::primitives::Uint<256, 4>) -> Self {
        arbitrary()
    }
}

/// Of a value in both wrapped ether and ether, each part is read back as it
/// was given; of a value in one of them, the other part reads as zero.
pub proof fn lemma_amount_parts(w: u64, e: u64)
    ensures
        EthValue::WethAndEth((w, e)).weth_part() == w,
        EthValue::WethAndEth((w, e)).eth_part() == e,
        EthValue::Weth(w).weth_part() == w,
        EthValue::Weth(w).eth_part() == 0,
        EthValue::Eth(e).eth_part() == e,
        EthValue::Eth(e).weth_part() == 0,
{
}

/// A transfer as the initiator chain sees it: the recipient's address is still
/// raw bytes.
#[derive(Debug, PartialEq, Eq, Clone)]
pub struct BridgeTransferDetails<A, H, V> {
    pub bridge_transfer_id: BridgeTransferId<H>,
    pub initiator_address: InitiatorAddress<A>,
    pub recipient_address: RecipientAddress<Vec<u8>>,
    pub hash_lock: HashLock<H>,
    pub time_lock: TimeLock,
    pub amount: Amount<V>,
}

/// A transfer as the counterparty chain sees it: the initiator's address is
/// raw bytes.
#[derive(Debug, PartialEq, Eq, Clone)]
pub struct LockDetails<A, H, V> {
    pub bridge_transfer_id: BridgeTransferId<H>,
    pub initiator_address: InitiatorAddress<Vec<u8>>,
    pub recipient_address: RecipientAddress<A>,
    pub hash_lock: HashLock<H>,
    pub time_lock: TimeLock,
    pub amount: Amount<V>,
}

/// A transfer completed on the counterparty chain, with the secret that
/// completed it.
#[derive(Debug, PartialEq, Eq, Clone)]
pub struct CounterpartyCompletedDetails<A, H, V> {
    pub bridge_transfer_id: BridgeTransferId<H>,
    pub initiator_address: InitiatorAddress<Vec<u8>>,
    pub recipient_address: RecipientAddress<A>,
    pub hash_lock: HashLock<H>,
    pub secret: HashLockPreImage,
    pub amount: Amount<V>,
}

impl<A, H, V> CounterpartyCompletedDetails<A, H, V> where
    InitiatorAddress<Vec<u8>>: From<InitiatorAddress<A>>,
    RecipientAddress<A>: From<RecipientAddress<Vec<u8>>>,
 {
    /// The completed record of a transfer first seen on the initiator chain;
    /// both addresses are carried over to the counterparty chain's forms.
    pub fn from_bridge_transfer_details(
        bridge_transfer_details: BridgeTransferDetails<A, H, V>,
        secret: HashLockPreImage,
    ) -> (r: Self)
        ensures
            r.bridge_transfer_id == bridge_transfer_details.bridge_transfer_id,
            r.hash_lock == bridge_transfer_details.hash_lock,
            r.amount == bridge_transfer_details.amount,
            r.secret == secret,
            <InitiatorAddress<Vec<u8>> as FromSpec<InitiatorAddress<A>>>::obeys_from_spec()
                ==> r.initiator_address == <InitiatorAddress<Vec<u8>> as FromSpec<
                InitiatorAddress<A>,
            >>::from_spec(bridge_transfer_details.initiator_address),
            <RecipientAddress<A> as FromSpec<RecipientAddress<Vec<u8>>>>::obeys_from_spec()
                ==> r.recipient_address == <RecipientAddress<A> as FromSpec<
                RecipientAddress<Vec<u8>>,
            >>::from_spec(bridge_transfer_details.recipient_address),
    {
        CounterpartyCompletedDetails {
            bridge_transfer_id: bridge_transfer_details.bridge_transfer_id,
            initiator_address: InitiatorAddress::<Vec<u8>>::from(
                bridge_transfer_details.initiator_address,
            ),
            recipient_address: RecipientAddress::<A>::from(
                bridge_transfer_details.recipient_address,
            ),
            hash_lock: bridge_transfer_details.hash_lock,
            secret,
            amount: bridge_transfer_details.amount,
        }
    }
}

impl<A, H, V> CounterpartyCompletedDetails<A, H, V> {
    /// The completed record of a transfer locked on the counterparty chain;
    /// every field but the secret is carried over as it is.
    pub fn from_lock_details(lock_details: LockDetails<A, H, V>, secret: HashLockPreImage) -> (r:
        Self)
        ensures
            r.bridge_transfer_id == lock_details.bridge_transfer_id,
            r.initiator_address == lock_details.initiator_address,
            r.recipient_address == lock_details.recipient_address,
            r.hash_lock == lock_details.hash_lock,
            r.amount == lock_details.amount,
            r.secret == secret,
    {
        CounterpartyCompletedDetails {
            bridge_transfer_id: lock_details.bridge_transfer_id,
            initiator_address: lock_details.initiator_address,
            recipient_address: lock_details.recipient_address,
            hash_lock: lock_details.hash_lock,
            secret,
            amount: lock_details.amount,
        }
    }
}

/// What a hash encoding of a chain offers.
pub trait BridgeHashType: std::fmt::Debug + PartialEq + Eq + std::hash::Hash + Unpin + Send + Sync + Clone {

}

/// What an address encoding of a chain offers; every address can be made
/// from raw bytes.
pub trait BridgeAddressType: std::fmt::Debug + PartialEq + Eq + std::hash::Hash + Unpin + Send + Sync + Clone + From<Vec<u8>> {

}

/// What a value encoding of a chain offers.
pub trait BridgeValueType: std::fmt::Debug + PartialEq + Eq + Clone + Send + Sync + Unpin {

}

impl<T> BridgeHashType for T where
    T: std::fmt::Debug + PartialEq + Eq + std::hash::Hash + Unpin + Send + Sync + Clone,
 {

}

impl<T> BridgeAddressType for T where
    T: std::fmt::Debug + PartialEq + Eq + std::hash::Hash + Unpin + Send + Sync + Clone + From<Vec<u8>>,
 {

}

impl<T> BridgeValueType for T where T: std::fmt::Debug + PartialEq + Eq + Clone + Send + Sync + Unpin {

}

/// A total conversion of a value into another chain's encoding.
pub trait Convert<O> {
    /// What converting `other` gives.
    spec fn converted(other: &Self) -> O;

    fn convert(other: &Self) -> (r: O)
        ensures
            r == Self::converted(other),
    ;
}

impl<H, O> Convert<BridgeTransferId<O>> for BridgeTransferId<H> where H: Convert<O> {
    /// The identity is kept: its hash alone is converted.
    open spec fn converted(other: &Self) -> BridgeTransferId<O> {
        BridgeTransferId(H::converted(&other.0))
    }

    fn convert(me: &BridgeTransferId<H>) -> (r: BridgeTransferId<O>) {
        BridgeTransferId(H::convert(&me.0))
    }
}

} // verus!
