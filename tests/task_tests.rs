use block_execution::status::{ExecutionStatus, StatusCode, VMStatus};
use block_execution::task::{AptosExecutorTask, LogContext, TransactionVM};
use block_execution::txn_provider::DefaultTxnProvider;
use std::sync::Arc;

#[derive(Clone, Debug)]
enum Txn {
    /// Normal execution: a value, the code returned, whether it reconfigures.
    User { value: u64, code: StatusCode, reconfig: bool },
    /// Normal execution that fails outright with the code.
    Failing { code: StatusCode },
    /// A direct write-set payload: its value, or a failure.
    Direct { payload: Result<u64, u64> },
}

#[derive(Clone, Debug, PartialEq, Eq)]
struct Output {
    value: u64,
    reconfig: bool,
    view: u32,
}

struct FakeVm {
    epoch: u64,
}

impl TransactionVM for FakeVm {
    type Environment = u64;
    type StateView = u32;
    type ExecutorView = u32;
    type Txn = Txn;
    type WriteSetPayload = Result<u64, u64>;
    type Output = Output;
    type ViewId = u32;

    // The spec functions name each method's result for a verified
    // implementation; nothing calls them at run time.
    fn spec_new_with_environment(_env: u64, _state_view: u32) -> Self {
        unreachable!()
    }

    fn spec_state_view_id(_state_view: u32) -> u32 {
        unreachable!()
    }

    fn spec_direct_payload(_txn: Txn) -> Option<Result<u64, u64>> {
        unreachable!()
    }

    fn spec_execute_direct(
        &self,
        _base_view: u32,
        _payload: Result<u64, u64>,
        _log_context: LogContext<u32>,
    ) -> Result<Output, VMStatus> {
        unreachable!()
    }

    fn spec_execute(
        &self,
        _txn: Txn,
        _view: u32,
        _log_context: LogContext<u32>,
    ) -> Result<(VMStatus, Output), VMStatus> {
        unreachable!()
    }

    fn spec_should_restart(_output: Output) -> bool {
        unreachable!()
    }

    fn new_with_environment(env: u64, _state_view: &u32) -> Self {
        FakeVm { epoch: env }
    }

    fn state_view_id(state_view: &u32) -> u32 {
        *state_view
    }

    fn as_valid_direct_write_set_payload(txn: &Txn) -> Option<&Result<u64, u64>> {
        match txn {
            Txn::Direct { payload } => Some(payload),
            _ => None,
        }
    }

    fn execute_direct_write_set_payload(
        &self,
        base_view: &u32,
        payload: &Result<u64, u64>,
        _log_context: &LogContext<u32>,
    ) -> Result<Output, VMStatus> {
        match payload {
            Ok(v) => Ok(Output { value: *v + self.epoch, reconfig: true, view: *base_view }),
            Err(c) => Err(VMStatus::new(StatusCode::Other(*c), None)),
        }
    }

    fn execute_single_transaction(
        &self,
        txn: &Txn,
        view: &u32,
        log_context: &LogContext<u32>,
    ) -> Result<(VMStatus, Output), VMStatus> {
        match txn {
            Txn::User { value, code, reconfig } => Ok((
                VMStatus::new(*code, Some(format!("txn {}", log_context.txn_idx))),
                Output { value: *value + self.epoch, reconfig: *reconfig, view: *view },
            )),
            Txn::Failing { code } => Err(VMStatus::new(*code, Some("failed".to_string()))),
            Txn::Direct { .. } => Err(VMStatus::new(StatusCode::Other(0), None)),
        }
    }

    fn should_restart_execution(output: &Output) -> bool {
        output.reconfig
    }
}

fn user(value: u64, reconfig: bool) -> Txn {
    Txn::User { value, code: StatusCode::Other(0), reconfig }
}

fn task() -> AptosExecutorTask<FakeVm> {
    AptosExecutorTask::init(100, &7)
}

fn out(value: u64, reconfig: bool, view: u32) -> Output {
    Output { value, reconfig, view }
}

#[test]
fn init_keeps_the_view_identity() {
    let t = task();
    assert_eq!(t.id, 7);
    assert_eq!(t.vm.epoch, 100);
}

#[test]
fn normal_txn_runs_on_the_speculative_view() {
    let r = task().execute_transaction(&1, &2, &user(5, false), 0);
    assert_eq!(r, ExecutionStatus::Success(out(105, false, 2)));
}

#[test]
fn reconfiguring_txn_skips_the_rest() {
    let r = task().execute_transaction(&1, &2, &user(5, true), 0);
    assert_eq!(r, ExecutionStatus::SkipRest(out(105, true, 2)));
}

#[test]
fn direct_payload_applies_on_the_base_view() {
    let r = task().execute_transaction(&1, &2, &Txn::Direct { payload: Ok(3) }, 4);
    assert_eq!(r, ExecutionStatus::MaterializedSkipRest(out(103, true, 1)));
}

#[test]
fn failed_direct_payload_aborts() {
    let r = task().execute_transaction(&1, &2, &Txn::Direct { payload: Err(9) }, 4);
    match r {
        ExecutionStatus::Abort(e) => assert_eq!(e.status_code(), StatusCode::Other(9)),
        other => panic!("expected Abort, got {:?}", other),
    }
}

#[test]
fn speculative_code_from_execution_is_retried() {
    let txn = Txn::User {
        value: 1,
        code: StatusCode::SpeculativeExecutionAbortError,
        reconfig: true,
    };
    let r = task().execute_transaction(&1, &2, &txn, 3);
    assert_eq!(r, ExecutionStatus::SpeculativeExecutionAbortError("txn 3".to_string()));
    let failing = Txn::Failing { code: StatusCode::SpeculativeExecutionAbortError };
    let r = task().execute_transaction(&1, &2, &failing, 3);
    assert_eq!(r, ExecutionStatus::SpeculativeExecutionAbortError("failed".to_string()));
}

#[test]
fn failing_execution_of_other_code_aborts() {
    let r = task().execute_transaction(&1, &2, &Txn::Failing { code: StatusCode::Other(12) }, 0);
    match r {
        ExecutionStatus::Abort(e) => {
            assert_eq!(e.status_code(), StatusCode::Other(12));
            assert_eq!(e.message().as_deref(), Some("failed"));
        },
        other => panic!("expected Abort, got {:?}", other),
    }
}

#[test]
fn reexecution_gives_the_same_status() {
    let t = task();
    for txn in [user(8, false), user(8, true), Txn::Direct { payload: Ok(1) }] {
        assert_eq!(
            t.execute_transaction(&1, &2, &txn, 0),
            t.execute_transaction(&1, &2, &txn, 0)
        );
    }
}

fn block(txns: Vec<Txn>) -> DefaultTxnProvider<Txn> {
    DefaultTxnProvider::new(txns.into_iter().map(Arc::new).collect())
}

fn committed(statuses: &[ExecutionStatus<Output, VMStatus>]) -> usize {
    statuses.iter().filter(|s| s.output().is_some()).count()
}

#[test]
fn block_without_reconfiguration_runs_every_txn() {
    let txns = block(vec![user(1, false), user(2, false), user(3, false)]);
    let r = task().execute_block(&1, &2, &txns);
    assert_eq!(
        r,
        vec![
            ExecutionStatus::Success(out(101, false, 2)),
            ExecutionStatus::Success(out(102, false, 2)),
            ExecutionStatus::Success(out(103, false, 2)),
        ]
    );
    assert_eq!(committed(&r), 3);
}

#[test]
fn block_stops_after_reconfiguration() {
    let txns = block(vec![user(1, false), user(2, true), user(3, false)]);
    let r = task().execute_block(&1, &2, &txns);
    assert_eq!(
        r,
        vec![
            ExecutionStatus::Success(out(101, false, 2)),
            ExecutionStatus::SkipRest(out(102, true, 2)),
        ]
    );
    assert_eq!(committed(&r), 2);
}

#[test]
fn block_goes_on_after_an_abort() {
    let txns = block(vec![Txn::Failing { code: StatusCode::Other(1) }, user(2, false)]);
    let r = task().execute_block(&1, &2, &txns);
    assert_eq!(r.len(), 2);
    assert!(matches!(r[0], ExecutionStatus::Abort(_)));
    assert_eq!(r[1], ExecutionStatus::Success(out(102, false, 2)));
    assert_eq!(committed(&r), 1);
}

#[test]
fn block_stops_after_a_direct_payload() {
    let txns = block(vec![Txn::Direct { payload: Ok(0) }, user(2, false)]);
    let r = task().execute_block(&1, &2, &txns);
    assert_eq!(r, vec![ExecutionStatus::MaterializedSkipRest(out(100, true, 1))]);
}

#[test]
fn empty_block_runs_nothing() {
    let r = task().execute_block(&1, &2, &block(Vec::new()));
    assert!(r.is_empty());
}
