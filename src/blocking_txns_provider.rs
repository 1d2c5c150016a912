//! A transaction supply whose slots are filled while workers already read
//! them: a read of an empty slot blocks until a producer fills it.

use crate::txn_provider::{TxnIndex, TxnProvider};
use std::sync::{Arc, OnceLock};
use vstd::prelude::*;

verus! {

/// The state of one slot, as seen at one moment.
pub enum BlockingTransactionStatus<T> {
    Ready(Arc<T>),
    Waiting,
}

/// A second fill of a slot: the same transaction index was produced twice.
#[derive(Clone, Copy, Debug, PartialEq, Eq, Structural)]
pub struct TxnAlreadyPresent;

/// One slot: empty until a producer fills it, once. The cell blocks readers
/// of an empty slot without spinning and wakes all of them when it is filled.
#[verifier::reject_recursive_types(T)]
pub struct BlockingTransaction<T> {
    pub txn: OnceLock<Arc<T>>,
    /// The transaction the slot holds once it is filled. It is fixed for the
    /// slot's whole life, since a slot is filled at most once; a new slot
    /// says nothing of it.
    filled: Ghost<Option<Arc<T>>>,
}

impl<T> BlockingTransaction<T> {
    /// The transaction the slot holds, or will hold once it is filled.
    pub closed spec fn filled_with(&self) -> Option<Arc<T>> {
        self.filled@
    }

    /// Relies on `OnceLock::new`: an empty slot.
    #[verifier::external_body]
    pub fn new() -> (r: Self) {
        BlockingTransaction { txn: OnceLock::new(), filled: Ghost(arbitrary()) }
    }

    /// Relies on `OnceLock::get`: a filled slot's transaction, without
    /// blocking; `Waiting` for an empty one.
    #[verifier::external_body]
    pub(crate) fn status(&self) -> (r: BlockingTransactionStatus<T>)
        ensures
            r matches BlockingTransactionStatus::Ready(t) ==> self.filled_with() == Some(t),
    {
        match self.txn.get() {
            Some(t) => BlockingTransactionStatus::Ready(t.clone()),
            None => BlockingTransactionStatus::Waiting,
        }
    }

    /// Relies on `OnceLock::set`: the first fill is taken and fixes the slot's
    /// transaction; any later one is refused and hands its value back.
    #[verifier::external_body]
    pub(crate) fn set(&self, txn: T) -> (r: Result<(), TxnAlreadyPresent>)
        ensures
            r is Ok ==> self.filled_with() == Some(Arc::new(txn)),
            r is Err ==> self.filled_with() is Some,
    {
        match self.txn.set(Arc::new(txn)) {
            Ok(()) => Ok(()),
            Err(_) => Err(TxnAlreadyPresent),
        }
    }

    /// Relies on `OnceLock::wait`: blocks until the slot is filled and returns
    /// its transaction.
    #[verifier::external_body]
    pub(crate) fn wait(&self) -> (r: Arc<T>)
        ensures
            self.filled_with() == Some(r),
    {
        self.txn.wait().clone()
    }
}

impl<T> Default for BlockingTransaction<T> {
    /// An empty slot, as `new` makes it.
    fn default() -> (r: Self) {
        Self::new()
    }
}

/// A fixed number of slots, filled concurrently with being read.
#[verifier::reject_recursive_types(T)]
pub struct BlockingTxnsProvider<T> {
    txns: Vec<BlockingTransaction<T>>,
}

impl<T> BlockingTxnsProvider<T> {
    /// The number of slots.
    pub closed spec fn len(&self) -> nat {
        self.txns@.len()
    }

    /// The transaction slot `i` holds, or will hold once it is filled.
    pub closed spec fn slot(&self, i: int) -> Option<Arc<T>> {
        self.txns@[i].filled_with()
    }

    /// A supply over `txns`, slot for slot, in order.
    pub fn new(txns: Vec<BlockingTransaction<T>>) -> (r: Self)
        ensures
            r.len() == txns@.len(),
            forall|i: int| 0 <= i < txns@.len() ==> r.slot(i) == (#[trigger] txns@[i]).filled_with(),
    {
        BlockingTxnsProvider { txns }
    }

    /// Fills slot `idx` with `txn`. A slot is filled once: on `Ok` the slot
    /// holds `txn` from then on; a second fill is refused with
    /// `TxnAlreadyPresent` and the slot keeps the transaction it holds. A
    /// refusal means the same index was produced twice, a defect of the
    /// producer that callers treat as fatal.
    pub fn set_txn(&self, idx: TxnIndex, txn: T) -> (r: Result<(), TxnAlreadyPresent>)
        requires
            (idx as nat) < self.len(),
        ensures
            r is Ok ==> self.slot(idx as int) == Some(Arc::new(txn)),
            r is Err ==> self.slot(idx as int) is Some,
    {
        self.txns[idx as usize].set(txn)
    }

    /// The status of slot `idx` now, without blocking: a filled slot is
    /// `Ready` with its transaction.
    pub fn txn_status(&self, idx: TxnIndex) -> (r: BlockingTransactionStatus<T>)
        requires
            (idx as nat) < self.len(),
        ensures
            r matches BlockingTransactionStatus::Ready(t) ==> self.slot(idx as int) == Some(t),
    {
        self.txns[idx as usize].status()
    }
}

/// Every read of a slot returns the transaction that the slot's accepted
/// fill stored, whichever thread filled it and whenever the reads began:
/// given the fill's `Ok` (`set_txn`'s `ensures`) and each read's result
/// (`get_txn`'s `ensures`), every reader holds `txn`.
pub proof fn lemma_reads_return_the_filled_txn<T>(
    p: &BlockingTxnsProvider<T>,
    idx: int,
    txn: T,
    reads: Seq<Arc<T>>,
)
    requires
        0 <= idx < p.len(),
        p.slot(idx) == Some(Arc::new(txn)),
        forall|k: int| 0 <= k < reads.len() ==> p.slot(idx) == Some(#[trigger] reads[k]),
    ensures
        forall|k: int| 0 <= k < reads.len() ==> #[trigger] reads[k] == Arc::new(txn),
{
}

/// A slot is filled once: two fills of one slot that were both accepted
/// stored the same transaction, so a fill that would replace the slot's
/// transaction is refused.
pub proof fn lemma_slot_filled_once<T>(p: &BlockingTxnsProvider<T>, idx: int, first: T, second: T)
    requires
        0 <= idx < p.len(),
        p.slot(idx) == Some(Arc::new(first)),
        p.slot(idx) == Some(Arc::new(second)),
    ensures
        first == second,
{
}

impl<T: Clone> TxnProvider<T> for BlockingTxnsProvider<T> {
    open spec fn num_slots(&self) -> nat {
        self.len()
    }

    open spec fn spec_txn(&self, i: int) -> Option<Arc<T>> {
        self.slot(i)
    }

    fn num_txns(&self) -> (r: usize) {
        self.txns.len()
    }

    /// Blocks until slot `idx` is filled, then returns its transaction.
    fn get_txn(&self, idx: TxnIndex) -> (r: Arc<T>) {
        self.txns[idx as usize].wait()
    }

    fn to_vec(&self) -> (r: Vec<T>) {
        let mut out: Vec<T> = Vec::new();
        let n = self.txns.len();
        let mut i: usize = 0;
        while i < n
            invariant
                n == self.len(),
                n <= u32::MAX + 1,
                i <= n,
                out@.len() == i,
                forall|j: int| 0 <= j < i ==> (#[trigger] self.slot(j)) is Some,
                forall|j: int| 0 <= j < i ==> cloned::<T>(*self.slot(j)->0, #[trigger] out@[j]),
            decreases n - i,
        {
            let txn = self.get_txn(i as TxnIndex);
            let t: &T = &txn;
            let c = t.clone();
            out.push(c);
            i = i + 1;
        }
        out
    }
}

} // verus!
