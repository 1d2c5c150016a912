//! The execution task: one per worker, bound to a virtual machine and the
//! identity of the state view it was created from, that executes one
//! transaction and classifies the outcome.

use crate::status::{
    direct_payload_status, execution_status, is_direct_payload_status, is_execution_status,
    ExecutionStatus, VMStatus,
};
use crate::txn_provider::{TxnIndex, TxnProvider};
use vstd::prelude::*;

verus! {

/// What a log line of the virtual machine is attributed to: the state view
/// and the transaction's position.
#[derive(Clone, Copy, Debug)]
pub struct LogContext<Id> {
    pub view_id: Id,
    pub txn_idx: usize,
}

impl<Id> LogContext<Id> {
    pub fn new(view_id: Id, txn_idx: usize) -> (r: LogContext<Id>)
        ensures
            r.view_id == view_id,
            r.txn_idx == txn_idx,
    {
        LogContext { view_id, txn_idx }
    }
}

/// The virtual machine, as the execution task consumes it. Each method is a
/// function of its arguments, named by the spec function beside it: that is
/// what makes an execution reproducible, whether it runs speculatively or in
/// order. An implementation proves each `ensures` against its own spec
/// functions.
pub trait TransactionVM: Sized {
    /// The long-lived execution environment a machine is built from.
    type Environment;
    /// A plain, non-speculative view of ledger state.
    type StateView;
    /// The speculative view: reads with conflict tracking, plain and
    /// resource-group aware.
    type ExecutorView;
    /// A transaction of the block.
    type Txn;
    /// A direct write-set payload carried by a transaction.
    type WriteSetPayload;
    /// The effects of one transaction.
    type Output;
    /// The identity of a state view.
    type ViewId: Copy;

    spec fn spec_new_with_environment(env: Self::Environment, state_view: Self::StateView) -> Self;

    spec fn spec_state_view_id(state_view: Self::StateView) -> Self::ViewId;

    spec fn spec_direct_payload(txn: Self::Txn) -> Option<Self::WriteSetPayload>;

    spec fn spec_execute_direct(
        &self,
        base_view: Self::StateView,
        payload: Self::WriteSetPayload,
        log_context: LogContext<Self::ViewId>,
    ) -> Result<Self::Output, VMStatus>;

    spec fn spec_execute(
        &self,
        txn: Self::Txn,
        view: Self::ExecutorView,
        log_context: LogContext<Self::ViewId>,
    ) -> Result<(VMStatus, Self::Output), VMStatus>;

    spec fn spec_should_restart(output: Self::Output) -> bool;

    fn new_with_environment(env: Self::Environment, state_view: &Self::StateView) -> (r: Self)
        ensures
            r == Self::spec_new_with_environment(env, *state_view),
    ;

    fn state_view_id(state_view: &Self::StateView) -> (r: Self::ViewId)
        ensures
            r == Self::spec_state_view_id(*state_view),
    ;

    /// The transaction's direct write-set payload, if it carries a valid one.
    fn as_valid_direct_write_set_payload(txn: &Self::Txn) -> (r: Option<&Self::WriteSetPayload>)
        ensures
            r is None <==> Self::spec_direct_payload(*txn) is None,
            r matches Some(p) ==> Self::spec_direct_payload(*txn) == Some(*p),
    ;

    /// Applies a direct write-set payload, reading from the base view only.
    fn execute_direct_write_set_payload(
        &self,
        base_view: &Self::StateView,
        payload: &Self::WriteSetPayload,
        log_context: &LogContext<Self::ViewId>,
    ) -> (r: Result<Self::Output, VMStatus>)
        ensures
            r == self.spec_execute_direct(*base_view, *payload, *log_context),
    ;

    /// Runs a transaction against the speculative view.
    fn execute_single_transaction(
        &self,
        txn: &Self::Txn,
        view: &Self::ExecutorView,
        log_context: &LogContext<Self::ViewId>,
    ) -> (r: Result<(VMStatus, Self::Output), VMStatus>)
        ensures
            r == self.spec_execute(*txn, *view, *log_context),
    ;

    /// Whether the changes of `output` demand that execution not run ahead of
    /// them (a reconfiguration).
    fn should_restart_execution(output: &Self::Output) -> (r: bool)
        ensures
            r == Self::spec_should_restart(*output),
    ;
}

/// Executes transactions of a block, one at a time, on behalf of one worker.
pub struct AptosExecutorTask<V: TransactionVM> {
    pub vm: V,
    pub id: V::ViewId,
}

impl<V: TransactionVM> AptosExecutorTask<V> {
    /// `r` is the status of executing `txn` at `txn_idx`: a transaction that
    /// carries a direct write-set payload is applied against `base_view` and
    /// classified by `is_direct_payload_status`; any other runs against
    /// `executor_view` and is classified by `is_execution_status`, where only a
    /// successful execution can demand a restart.
    pub open spec fn is_status_of(
        &self,
        r: ExecutionStatus<V::Output, VMStatus>,
        base_view: V::StateView,
        executor_view: V::ExecutorView,
        txn: V::Txn,
        txn_idx: int,
    ) -> bool {
        let ctx = (LogContext { view_id: self.id, txn_idx: txn_idx as usize });
        match V::spec_direct_payload(txn) {
            Some(payload) => is_direct_payload_status(
                r,
                self.vm.spec_execute_direct(base_view, payload, ctx),
            ),
            None => {
                let result = self.vm.spec_execute(txn, executor_view, ctx);
                let restart = match result {
                    Ok((_, output)) => V::spec_should_restart(output),
                    Err(_) => false,
                };
                is_execution_status(r, result, restart)
            },
        }
    }

    /// Builds a task from an environment and the base state view, whose
    /// identity the task keeps.
    pub fn init(env: V::Environment, state_view: &V::StateView) -> (r: Self)
        ensures
            r.vm == V::spec_new_with_environment(env, *state_view),
            r.id == V::spec_state_view_id(*state_view),
    {
        let vm = V::new_with_environment(env, state_view);
        let id = V::state_view_id(state_view);
        AptosExecutorTask { vm, id }
    }

    /// Executes `txn`, the transaction at `txn_idx`, and classifies what the
    /// machine returned (see `is_status_of`).
    pub fn execute_transaction(
        &self,
        base_view: &V::StateView,
        executor_view: &V::ExecutorView,
        txn: &V::Txn,
        txn_idx: TxnIndex,
    ) -> (r: ExecutionStatus<V::Output, VMStatus>)
        ensures
            self.is_status_of(r, *base_view, *executor_view, *txn, txn_idx as int),
    {
        let log_context = LogContext::new(self.id, txn_idx as usize);
        match V::as_valid_direct_write_set_payload(txn) {
            Some(payload) => {
                let result = self.vm.execute_direct_write_set_payload(
                    base_view,
                    payload,
                    &log_context,
                );
                direct_payload_status(result)
            },
            None => {
                let result = self.vm.execute_single_transaction(txn, executor_view, &log_context);
                let restart = match &result {
                    Ok((_, output)) => V::should_restart_execution(output),
                    Err(_) => false,
                };
                execution_status(result, restart)
            },
        }
    }

    /// Executes the transactions of `txns` in order, one attempt each, and
    /// returns their statuses: the i-th is the status of the i-th transaction. The run stops after the first status that does
    /// not let the block go on (a skip-rest status or an engine error); the
    /// transactions after it are not executed.
    pub fn execute_block<P: TxnProvider<V::Txn>>(
        &self,
        base_view: &V::StateView,
        executor_view: &V::ExecutorView,
        txns: &P,
    ) -> (r: Vec<ExecutionStatus<V::Output, VMStatus>>)
        where V::Txn: Clone,
        requires
            txns.num_slots() <= u32::MAX + 1,
        ensures
            r@.len() <= txns.num_slots(),
            forall|i: int|
                0 <= i < r@.len() ==> (txns.spec_txn(i) is Some && self.is_status_of(
                    #[trigger] r@[i],
                    *base_view,
                    *executor_view,
                    *txns.spec_txn(i)->0,
                    i,
                )),
            forall|i: int| 0 <= i < r@.len() - 1 ==> (#[trigger] r@[i]).spec_continues_block(),
            r@.len() < txns.num_slots() ==> r@.len() > 0 && !r@.last().spec_continues_block(),
    {
        let n = txns.num_txns();
        let mut statuses: Vec<ExecutionStatus<V::Output, VMStatus>> = Vec::new();
        let mut i: usize = 0;
        while i < n
            invariant
                n == txns.num_slots(),
                n <= u32::MAX + 1,
                i <= n,
                statuses@.len() == i,
                forall|j: int| 0 <= j < i ==> (#[trigger] txns.spec_txn(j)) is Some,
                forall|j: int|
                    0 <= j < i ==> self.is_status_of(
                        #[trigger] statuses@[j],
                        *base_view,
                        *executor_view,
                        *txns.spec_txn(j)->0,
                        j,
                    ),
                forall|j: int| 0 <= j < i ==> (#[trigger] statuses@[j]).spec_continues_block(),
            decreases n - i,
        {
            let txn = txns.get_txn(i as TxnIndex);
            let status = self.execute_transaction(base_view, executor_view, &txn, i as TxnIndex);
            let go_on = status.continues_block();
            statuses.push(status);
            if !go_on {
                return statuses;
            }
            i = i + 1;
        }
        statuses
    }
}

} // verus!
