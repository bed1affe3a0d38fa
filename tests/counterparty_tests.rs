use bridge_shared::counterparty::{BridgeContractCounterpartyError, CounterpartyLocks};
use bridge_shared::types::{
    convert_bridge_transfer_id, convert_hash_lock, Amount, BridgeTransferId, HashLock,
    HashLockPreImage, InitiatorAddress, RecipientAddress, TimeLock,
};

fn lock(
    ledger: &mut CounterpartyLocks<Vec<u8>, u64>,
    id: [u8; 32],
    hash: [u8; 32],
    time_lock: u64,
    now: u64,
) -> Result<(), BridgeContractCounterpartyError> {
    ledger.lock_bridge_transfer_assets(
        BridgeTransferId(id),
        HashLock(hash),
        TimeLock(time_lock),
        InitiatorAddress::from("initiator"),
        RecipientAddress::from("recipient"),
        Amount(1000),
        now,
    )
}

#[test]
fn locking_twice_is_refused() {
    let mut ledger = CounterpartyLocks::new();
    assert_eq!(lock(&mut ledger, [1u8; 32], [2u8; 32], 100, 10), Ok(()));
    assert_eq!(
        lock(&mut ledger, [1u8; 32], [2u8; 32], 100, 10),
        Err(BridgeContractCounterpartyError::LockTransferAssetsError)
    );
    // The one lock there is still completes, exactly once.
    let done = ledger
        .complete_bridge_transfer(BridgeTransferId([1u8; 32]), HashLockPreImage(vec![7]), [2u8; 32])
        .unwrap();
    assert_eq!(done.amount, Amount(1000));
    assert_eq!(
        ledger.complete_bridge_transfer(
            BridgeTransferId([1u8; 32]),
            HashLockPreImage(vec![7]),
            [2u8; 32]
        ),
        Err(BridgeContractCounterpartyError::TransferNotFound)
    );
}

#[test]
fn locking_with_expired_time_lock_is_refused() {
    let mut ledger = CounterpartyLocks::new();
    assert_eq!(
        lock(&mut ledger, [1u8; 32], [2u8; 32], 100, 100),
        Err(BridgeContractCounterpartyError::LockTransferAssetsError)
    );
    assert_eq!(lock(&mut ledger, [1u8; 32], [2u8; 32], 100, 99), Ok(()));
}

#[test]
fn completed_transfer_cannot_be_locked_again() {
    let mut ledger = CounterpartyLocks::new();
    assert_eq!(lock(&mut ledger, [5u8; 32], [6u8; 32], 100, 0), Ok(()));
    assert!(ledger
        .complete_bridge_transfer(BridgeTransferId([5u8; 32]), HashLockPreImage(vec![1]), [6u8; 32])
        .is_ok());
    assert_eq!(
        lock(&mut ledger, [5u8; 32], [6u8; 32], 100, 0),
        Err(BridgeContractCounterpartyError::LockTransferAssetsError)
    );
}

#[test]
fn invalid_secret_does_not_complete() {
    let mut ledger = CounterpartyLocks::new();
    let hash = [0xabu8; 32];
    assert_eq!(lock(&mut ledger, [9u8; 32], hash, 100, 0), Ok(()));
    assert_eq!(
        ledger.complete_bridge_transfer(
            BridgeTransferId([9u8; 32]),
            HashLockPreImage(b"invalid_secret".to_vec()),
            [0u8; 32]
        ),
        Err(BridgeContractCounterpartyError::InvalidSecret)
    );
    assert_eq!(
        ledger.complete_bridge_transfer(
            BridgeTransferId([8u8; 32]),
            HashLockPreImage(b"invalid_secret".to_vec()),
            hash
        ),
        Err(BridgeContractCounterpartyError::TransferNotFound)
    );
    // The failed attempts left the lock in place: the right secret completes it.
    let secret = HashLockPreImage(b"secret".to_vec());
    let done = ledger
        .complete_bridge_transfer(BridgeTransferId([9u8; 32]), secret.clone(), hash)
        .unwrap();
    assert_eq!(done.bridge_transfer_id, BridgeTransferId([9u8; 32]));
    assert_eq!(done.hash_lock, HashLock(hash));
    assert_eq!(done.secret, secret);
    assert_eq!(done.initiator_address, InitiatorAddress::from("initiator"));
    assert_eq!(done.recipient_address, RecipientAddress::from("recipient"));
}

#[test]
fn first_lock_fails_then_retry_succeeds() {
    // A failed lock attempt (a refused time lock here) leaves nothing behind,
    // so the coordinating side may retry with valid parameters.
    let mut ledger = CounterpartyLocks::new();
    assert_eq!(
        lock(&mut ledger, [3u8; 32], [4u8; 32], 100, 200),
        Err(BridgeContractCounterpartyError::LockTransferAssetsError)
    );
    assert_eq!(lock(&mut ledger, [3u8; 32], [4u8; 32], 100, 50), Ok(()));
    assert_eq!(
        ledger.complete_bridge_transfer(
            BridgeTransferId([3u8; 32]),
            HashLockPreImage(b"invalid_secret".to_vec()),
            [0u8; 32]
        ),
        Err(BridgeContractCounterpartyError::InvalidSecret)
    );
}

#[test]
fn converting_identities_keeps_them() {
    let id: BridgeTransferId<Vec<u8>> = convert_bridge_transfer_id(BridgeTransferId([1u8; 4]));
    assert_eq!(id.0, vec![1u8; 4]);
    let lock: HashLock<u64> = convert_hash_lock(HashLock(7u32));
    assert_eq!(lock.0, 7u64);
    assert_eq!(*lock.inner(), 7u64);
}
