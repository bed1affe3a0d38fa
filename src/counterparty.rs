//! The decisions of the counterparty chain's side of a transfer: locking the
//! assets of a transfer once, and releasing them to the one secret whose hash
//! is the transfer's hash lock.

use vstd::prelude::*;
use crate::types::{
    Amount, BridgeTransferId, CounterpartyCompletedDetails, HashLock, HashLockPreImage,
    InitiatorAddress, LockDetails, RecipientAddress, TimeLock,
};

verus! {

/// Why an operation on the counterparty chain failed.
#[derive(Debug, Clone, PartialEq, Eq)]
pub enum BridgeContractCounterpartyError {
    /// The chain refused the lock: a transfer with that identity was locked
    /// before, or the time lock has passed.
    LockTransferAssetsError,
    /// No transfer with that identity is locked and waiting for its secret.
    TransferNotFound,
    /// The secret's hash is not the transfer's hash lock.
    InvalidSecret,
    /// The call to the chain failed, for the reason given.
    ContractCallFailed(String),
}

/// The transfers of the counterparty chain: those locked and waiting for
/// their secret, and the identities of those completed.
pub struct LocksState<A, V> {
    pub locked: Seq<LockDetails<A, [u8; 32], V>>,
    pub completed: Seq<[u8; 32]>,
}

/// Where the locked transfer `id` stands in `s`, or -1.
pub open spec fn index_of<A, V>(s: Seq<LockDetails<A, [u8; 32], V>>, id: Seq<u8>) -> int
    decreases s.len(),
{
    if s.len() == 0 {
        -1
    } else if index_of(s.drop_last(), id) != -1 {
        index_of(s.drop_last(), id)
    } else if s.last().bridge_transfer_id.0@ == id {
        s.len() - 1
    } else {
        -1
    }
}

/// The transfer `id` was completed.
pub open spec fn is_completed(c: Seq<[u8; 32]>, id: Seq<u8>) -> bool {
    exists|j: int| 0 <= j < c.len() && #[trigger] c[j]@ == id
}

/// Locking `details` at time `now`: a transfer whose identity is locked or
/// completed already, or whose time lock has passed, is refused and nothing
/// changes; any other is added to the locked transfers.
pub open spec fn lock_step<A, V>(
    s: LocksState<A, V>,
    details: LockDetails<A, [u8; 32], V>,
    now: u64,
) -> (LocksState<A, V>, Result<(), BridgeContractCounterpartyError>) {
    let id = details.bridge_transfer_id.0@;
    if index_of(s.locked, id) != -1 || is_completed(s.completed, id) || details.time_lock.0 <= now {
        (s, Err(BridgeContractCounterpartyError::LockTransferAssetsError))
    } else {
        (LocksState { locked: s.locked.push(details), ..s }, Ok(()))
    }
}

/// The completed record of a locked transfer and its secret.
pub open spec fn completed_record<A, V>(
    l: LockDetails<A, [u8; 32], V>,
    secret: HashLockPreImage,
) -> CounterpartyCompletedDetails<A, [u8; 32], V> {
    CounterpartyCompletedDetails {
        bridge_transfer_id: l.bridge_transfer_id,
        initiator_address: l.initiator_address,
        recipient_address: l.recipient_address,
        hash_lock: l.hash_lock,
        secret,
        amount: l.amount,
    }
}

/// Completing the transfer `id` with a secret whose hash is `secret_hash`:
/// refused, and nothing changes, where no such transfer is locked or where the
/// hash is not its hash lock; otherwise the transfer leaves the locked ones,
/// its identity joins the completed ones, and its completed record is given.
pub open spec fn complete_step<A, V>(
    s: LocksState<A, V>,
    id: Seq<u8>,
    secret: HashLockPreImage,
    secret_hash: Seq<u8>,
) -> (LocksState<A, V>, Result<CounterpartyCompletedDetails<A, [u8; 32], V>, BridgeContractCounterpartyError>) {
    let i = index_of(s.locked, id);
    if i == -1 {
        (s, Err(BridgeContractCounterpartyError::TransferNotFound))
    } else if s.locked[i].hash_lock.0@ != secret_hash {
        (s, Err(BridgeContractCounterpartyError::InvalidSecret))
    } else {
        (
            LocksState {
                locked: s.locked.remove(i),
                completed: s.completed.push(s.locked[i].bridge_transfer_id.0),
            },
            Ok(completed_record(s.locked[i], secret)),
        )
    }
}

proof fn lemma_index_of<A, V>(s: Seq<LockDetails<A, [u8; 32], V>>, id: Seq<u8>)
    ensures
        -1 <= index_of(s, id) < s.len(),
        index_of(s, id) == -1 <==> forall|j: int|
            0 <= j < s.len() ==> #[trigger] s[j].bridge_transfer_id.0@ != id,
        index_of(s, id) != -1 ==> s[index_of(s, id)].bridge_transfer_id.0@ == id,
        forall|j: int| 0 <= j < index_of(s, id) ==> #[trigger] s[j].bridge_transfer_id.0@ != id,
    decreases s.len(),
{
    if s.len() > 0 {
        lemma_index_of(s.drop_last(), id);
        assert forall|j: int| 0 <= j < s.len() - 1 implies s[j] == s.drop_last()[j] by {}
    }
}

fn same_hash(a: &[u8; 32], b: &[u8; 32]) -> (r: bool)
    ensures
        r == (a@ == b@),
{
    let mut i: usize = 0;
    while i < 32
        invariant
            i <= 32,
            a@.len() == 32,
            b@.len() == 32,
            forall|j: int| 0 <= j < i ==> a@[j] == b@[j],
        decreases 32 - i,
    {
        if a[i] != b[i] {
            return false;
        }
        i = i + 1;
    }
    assert(a@ =~= b@);
    true
}

/// The counterparty chain's transfers, as the chain keeps them.
pub struct CounterpartyLocks<A, V> {
    locked: Vec<LockDetails<A, [u8; 32], V>>,
    completed: Vec<[u8; 32]>,
}

impl<A, V> CounterpartyLocks<A, V> {
    pub closed spec fn view(&self) -> LocksState<A, V> {
        LocksState { locked: self.locked@, completed: self.completed@ }
    }

    /// A chain on which nothing is locked yet.
    pub fn new() -> (r: Self)
        ensures
            r.view().locked == Seq::<LockDetails<A, [u8; 32], V>>::empty(),
            r.view().completed == Seq::<[u8; 32]>::empty(),
    {
        CounterpartyLocks { locked: Vec::new(), completed: Vec::new() }
    }

    /// Where the locked transfer `id` stands, if it is locked.
    fn find(&self, id: &[u8; 32]) -> (r: Option<usize>)
        ensures
            match r {
                Some(i) => i < self.view().locked.len() && i as int == index_of(self.view().locked, id@),
                None => index_of(self.view().locked, id@) == -1,
            },
    {
        let mut i: usize = 0;
        while i < self.locked.len()
            invariant
                i <= self.locked.len(),
                forall|j: int| 0 <= j < i ==> #[trigger] self.locked@[j].bridge_transfer_id.0@ != id@,
            decreases self.locked.len() - i,
        {
            if same_hash(&self.locked[i].bridge_transfer_id.0, id) {
                proof {
                    lemma_index_of(self.locked@, id@);
                    assert(self.locked@[i as int].bridge_transfer_id.0@ == id@);
                }
                return Some(i);
            }
            i = i + 1;
        }
        proof {
            lemma_index_of(self.locked@, id@);
        }
        None
    }

    /// Whether the transfer `id` was completed.
    fn was_completed(&self, id: &[u8; 32]) -> (r: bool)
        ensures
            r == is_completed(self.view().completed, id@),
    {
        let mut i: usize = 0;
        while i < self.completed.len()
            invariant
                i <= self.completed.len(),
                forall|j: int| 0 <= j < i ==> #[trigger] self.completed@[j]@ != id@,
            decreases self.completed.len() - i,
        {
            if same_hash(&self.completed[i], id) {
                return true;
            }
            i = i + 1;
        }
        false
    }

    /// Locks the assets of a transfer on this chain at time `now`.
    pub fn lock_bridge_transfer_assets(
        &mut self,
        bridge_transfer_id: BridgeTransferId<[u8; 32]>,
        hash_lock: HashLock<[u8; 32]>,
        time_lock: TimeLock,
        initiator: InitiatorAddress<Vec<u8>>,
        recipient: RecipientAddress<A>,
        amount: Amount<V>,
        now: u64,
    ) -> (r: Result<(), BridgeContractCounterpartyError>)
        ensures
            (final(self).view(), r) == lock_step(
                old(self).view(),
                LockDetails {
                    bridge_transfer_id,
                    initiator_address: initiator,
                    recipient_address: recipient,
                    hash_lock,
                    time_lock,
                    amount,
                },
                now,
            ),
    {
        if self.find(&bridge_transfer_id.0).is_some() || self.was_completed(&bridge_transfer_id.0)
            || time_lock.0 <= now {
            return Err(BridgeContractCounterpartyError::LockTransferAssetsError);
        }
        self.locked.push(
            LockDetails {
                bridge_transfer_id,
                initiator_address: initiator,
                recipient_address: recipient,
                hash_lock,
                time_lock,
                amount,
            },
        );
        Ok(())
    }

    /// Completes the transfer `bridge_transfer_id` with `secret`, whose hash by
    /// the chain's hash function is `secret_hash`.
    pub fn complete_bridge_transfer(
        &mut self,
        bridge_transfer_id: BridgeTransferId<[u8; 32]>,
        secret: HashLockPreImage,
        secret_hash: [u8; 32],
    ) -> (r: Result<CounterpartyCompletedDetails<A, [u8; 32], V>, BridgeContractCounterpartyError>)
        ensures
            (final(self).view(), r) == complete_step(
                old(self).view(),
                bridge_transfer_id.0@,
                secret,
                secret_hash@,
            ),
    {
        match self.find(&bridge_transfer_id.0) {
            None => Err(BridgeContractCounterpartyError::TransferNotFound),
            Some(i) => {
                if !same_hash(&self.locked[i].hash_lock.0, &secret_hash) {
                    return Err(BridgeContractCounterpartyError::InvalidSecret);
                }
                let l = self.locked.remove(i);
                self.completed.push(l.bridge_transfer_id.0);
                Ok(CounterpartyCompletedDetails::from_lock_details(l, secret))
            },
        }
    }
}

/// Locking a transfer a second time, with the same details, is refused and
/// changes nothing: no transfer is ever locked twice.
pub proof fn lemma_lock_is_idempotent<A, V>(
    s: LocksState<A, V>,
    details: LockDetails<A, [u8; 32], V>,
    now: u64,
)
    ensures
        lock_step(lock_step(s, details, now).0, details, now).0 == lock_step(s, details, now).0,
        lock_step(lock_step(s, details, now).0, details, now).1 == Err::<
            (),
            BridgeContractCounterpartyError,
        >(BridgeContractCounterpartyError::LockTransferAssetsError),
{
    let t = lock_step(s, details, now).0;
    lemma_index_of(t.locked, details.bridge_transfer_id.0@);
    if t.locked != s.locked {
        assert(t.locked[t.locked.len() - 1] == details);
    }
}

/// No identity is locked twice, and none is both locked and completed.
pub open spec fn locks_wf<A, V>(s: LocksState<A, V>) -> bool {
    &&& forall|i: int, j: int|
        0 <= i < j < s.locked.len() ==> #[trigger] s.locked[i].bridge_transfer_id.0@
            != #[trigger] s.locked[j].bridge_transfer_id.0@
    &&& forall|i: int| 0 <= i < s.locked.len() ==> !is_completed(s.completed, #[trigger] s.locked[i].bridge_transfer_id.0@)
}

/// Locking and completing keep the transfers well formed.
pub proof fn lemma_steps_keep_wf<A, V>(
    s: LocksState<A, V>,
    details: LockDetails<A, [u8; 32], V>,
    now: u64,
    id: Seq<u8>,
    secret: HashLockPreImage,
    secret_hash: Seq<u8>,
)
    requires
        locks_wf(s),
    ensures
        locks_wf(lock_step(s, details, now).0),
        locks_wf(complete_step(s, id, secret, secret_hash).0),
{
    lemma_index_of(s.locked, details.bridge_transfer_id.0@);
    lemma_index_of(s.locked, id);
    let t = complete_step(s, id, secret, secret_hash).0;
    let k = index_of(s.locked, id);
    if k != -1 && s.locked[k].hash_lock.0@ == secret_hash {
        assert forall|i: int| 0 <= i < t.locked.len() implies !is_completed(
            t.completed,
            #[trigger] t.locked[i].bridge_transfer_id.0@,
        ) by {
            let src = if i < k { i } else { i + 1 };
            assert(t.locked[i] == s.locked[src]);
            if is_completed(t.completed, t.locked[i].bridge_transfer_id.0@) {
                let j = choose|j: int| 0 <= j < t.completed.len() && #[trigger] t.completed[j]@
                    == t.locked[i].bridge_transfer_id.0@;
                if j < s.completed.len() {
                    assert(s.completed[j] == t.completed[j]);
                    assert(is_completed(s.completed, s.locked[src].bridge_transfer_id.0@));
                } else {
                    if src < k {
                        assert(s.locked[src].bridge_transfer_id.0@ != s.locked[k].bridge_transfer_id.0@);
                    } else {
                        assert(s.locked[k].bridge_transfer_id.0@ != s.locked[src].bridge_transfer_id.0@);
                    }
                }
            }
        }
        assert forall|i: int, j: int| 0 <= i < j < t.locked.len() implies #[trigger] t.locked[i].bridge_transfer_id.0@
            != #[trigger] t.locked[j].bridge_transfer_id.0@ by {
            let si = if i < k { i } else { i + 1 };
            let sj = if j < k { j } else { j + 1 };
            assert(t.locked[i] == s.locked[si]);
            assert(t.locked[j] == s.locked[sj]);
        }
    }
    let u = lock_step(s, details, now).0;
    if u != s {
        assert forall|i: int| 0 <= i < u.locked.len() implies !is_completed(
            u.completed,
            #[trigger] u.locked[i].bridge_transfer_id.0@,
        ) by {
            if i < s.locked.len() {
                assert(u.locked[i] == s.locked[i]);
            }
        }
        assert forall|i: int, j: int| 0 <= i < j < u.locked.len() implies #[trigger] u.locked[i].bridge_transfer_id.0@
            != #[trigger] u.locked[j].bridge_transfer_id.0@ by {
            assert(u.locked[i] == s.locked[i]);
            if j < s.locked.len() {
                assert(u.locked[j] == s.locked[j]);
            }
        }
    }
}

/// A transfer completes once: completing it again, with any secret, finds no
/// transfer to complete and changes nothing.
pub proof fn lemma_complete_is_once<A, V>(
    s: LocksState<A, V>,
    id: Seq<u8>,
    secret: HashLockPreImage,
    secret_hash: Seq<u8>,
    again: HashLockPreImage,
    again_hash: Seq<u8>,
)
    requires
        locks_wf(s),
        complete_step(s, id, secret, secret_hash).1 is Ok,
    ensures
        ({
            let t = complete_step(s, id, secret, secret_hash).0;
            &&& complete_step(t, id, again, again_hash).1 == Err::<
                CounterpartyCompletedDetails<A, [u8; 32], V>,
                BridgeContractCounterpartyError,
            >(BridgeContractCounterpartyError::TransferNotFound)
            &&& complete_step(t, id, again, again_hash).0 == t
        }),
{
    lemma_index_of(s.locked, id);
    let k = index_of(s.locked, id);
    let t = complete_step(s, id, secret, secret_hash).0;
    lemma_index_of(t.locked, id);
    assert forall|j: int| 0 <= j < t.locked.len() implies #[trigger] t.locked[j].bridge_transfer_id.0@ != id by {
        let src = if j < k { j } else { j + 1 };
        assert(t.locked[j] == s.locked[src]);
        if src < k {
            assert(s.locked[src].bridge_transfer_id.0@ != s.locked[k].bridge_transfer_id.0@);
        } else {
            assert(s.locked[k].bridge_transfer_id.0@ != s.locked[src].bridge_transfer_id.0@);
        }
    }
}

} // verus!
