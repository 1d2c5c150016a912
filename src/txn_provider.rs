//! Index-addressed access to the transactions of a block.

use std::sync::Arc;
use vstd::prelude::*;

verus! {

/// Position of a transaction in its block.
pub type TxnIndex = u32;

/// A fixed number of transaction slots, read by index.
pub trait TxnProvider<T: Clone> {
    /// The number of slots, fixed when the supply is made.
    spec fn num_slots(&self) -> nat;

    /// The transaction that slot `i` holds, or will hold once it is filled.
    spec fn spec_txn(&self, i: int) -> Option<Arc<T>>;

    /// Total number of transactions.
    fn num_txns(&self) -> (r: usize)
        ensures
            r == self.num_slots(),
    ;

    /// The transaction at `idx`.
    fn get_txn(&self, idx: TxnIndex) -> (r: Arc<T>)
        requires
            (idx as nat) < self.num_slots(),
        ensures
            self.spec_txn(idx as int) == Some(r),
    ;

    /// All transactions, in order.
    fn to_vec(&self) -> (r: Vec<T>)
        requires
            self.num_slots() <= u32::MAX + 1,
        ensures
            r@.len() == self.num_slots(),
            forall|i: int|
                0 <= i < r@.len() ==> (self.spec_txn(i) is Some && cloned::<T>(
                    *self.spec_txn(i)->0,
                    #[trigger] r@[i],
                )),
    ;
}

/// A supply whose transactions are all present from the start.
pub struct DefaultTxnProvider<T> {
    txns: Vec<Arc<T>>,
}

impl<T> DefaultTxnProvider<T> {
    /// The transactions, in order.
    pub closed spec fn view(&self) -> Seq<Arc<T>> {
        self.txns@
    }

    pub fn new(txns: Vec<Arc<T>>) -> (r: Self)
        ensures
            r.view() == txns@,
    {
        DefaultTxnProvider { txns }
    }
}

impl<T: Clone> TxnProvider<T> for DefaultTxnProvider<T> {
    open spec fn num_slots(&self) -> nat {
        self.view().len()
    }

    open spec fn spec_txn(&self, i: int) -> Option<Arc<T>> {
        if 0 <= i < self.view().len() {
            Some(self.view()[i])
        } else {
            None
        }
    }

    fn num_txns(&self) -> (r: usize) {
        self.txns.len()
    }

    fn get_txn(&self, idx: TxnIndex) -> (r: Arc<T>) {
        self.txn_at(idx)
    }

    fn to_vec(&self) -> (r: Vec<T>) {
        let mut out: Vec<T> = Vec::new();
        let mut i: usize = 0;
        while i < self.txns.len()
            invariant
                i <= self.txns@.len(),
                out@.len() == i,
                forall|j: int|
                    0 <= j < i ==> (self.spec_txn(j) is Some && cloned::<T>(
                        *self.spec_txn(j)->0,
                        #[trigger] out@[j],
                    )),
            decreases self.txns@.len() - i,
        {
            let txn: &T = &self.txns[i];
            let c = txn.clone();
            out.push(c);
            i = i + 1;
        }
        out
    }
}

impl<T: Clone> DefaultTxnProvider<T> {
    /// The transaction at `idx`: the one the supply was made with there.
    pub fn txn_at(&self, idx: TxnIndex) -> (r: Arc<T>)
        requires
            (idx as nat) < self.view().len(),
        ensures
            r == self.view()[idx as int],
    {
        self.txns[idx as usize].clone()
    }
}

} // verus!
