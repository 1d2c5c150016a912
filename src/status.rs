//! The outcome of one execution attempt and the rules that classify what the
//! virtual machine returned into that outcome.

use vstd::prelude::*;

verus! {

/// Status codes the execution engine distinguishes; every other code of the
/// virtual machine is carried as `Other`.
#[derive(Clone, Copy, Debug, PartialEq, Eq, Structural)]
pub enum StatusCode {
    /// The transaction read speculative state that was concurrently invalidated.
    SpeculativeExecutionAbortError,
    /// An internal invariant over deferred (delayed) fields broke.
    DelayedMaterializationCodeInvariantError,
    /// Any other code, by its numeric value.
    Other(u64),
}

/// A status reported by the virtual machine: a code and an optional message.
#[derive(Clone, Debug, PartialEq, Eq)]
pub struct VMStatus {
    pub code: StatusCode,
    pub message: Option<String>,
}

impl VMStatus {
    pub fn new(code: StatusCode, message: Option<String>) -> (r: VMStatus)
        ensures
            r.code == code,
            r.message == message,
    {
        VMStatus { code, message }
    }

    pub fn status_code(&self) -> (r: StatusCode)
        ensures
            r == self.code,
    {
        self.code
    }

    pub fn message(&self) -> (r: &Option<String>)
        ensures
            *r == self.message,
    {
        &self.message
    }
}

/// The outcome of executing exactly one transaction once.
#[derive(Clone, Debug, PartialEq, Eq)]
pub enum ExecutionStatus<O, E> {
    /// Normal effects; the block goes on with the next transaction.
    Success(O),
    /// Effects are kept, but no later transaction of the block runs.
    SkipRest(O),
    /// Like `SkipRest`, with effects that were applied directly and are final.
    MaterializedSkipRest(O),
    /// The transaction's effects are discarded.
    Abort(E),
    /// Inconsistent speculative reads: the transaction must run again.
    SpeculativeExecutionAbortError(String),
    /// A deferred-field invariant broke: a fatal engine defect.
    DelayedFieldsCodeInvariantError(String),
}

impl<O, E> ExecutionStatus<O, E> {
    /// Whether a block goes on after this status: after `Success` and `Abort`
    /// it does; after a skip-rest status, and after either engine error, it
    /// stops.
    pub open spec fn spec_continues_block(&self) -> bool {
        self is Success || self is Abort
    }

    pub fn continues_block(&self) -> (r: bool)
        ensures
            r == self.spec_continues_block(),
    {
        match self {
            ExecutionStatus::Success(_) | ExecutionStatus::Abort(_) => true,
            _ => false,
        }
    }

    /// The output to commit: present for `Success`, `SkipRest` and
    /// `MaterializedSkipRest`, absent otherwise.
    pub open spec fn spec_output(&self) -> Option<O> {
        match self {
            ExecutionStatus::Success(o) => Some(*o),
            ExecutionStatus::SkipRest(o) => Some(*o),
            ExecutionStatus::MaterializedSkipRest(o) => Some(*o),
            _ => None,
        }
    }

    pub fn output(&self) -> (r: Option<&O>)
        ensures
            r matches Some(o) ==> self.spec_output() == Some(*o),
            r is None <==> self.spec_output() is None,
    {
        match self {
            ExecutionStatus::Success(o) => Some(o),
            ExecutionStatus::SkipRest(o) => Some(o),
            ExecutionStatus::MaterializedSkipRest(o) => Some(o),
            _ => None,
        }
    }
}

/// The text of an optional message, empty when there is none.
pub open spec fn message_text(message: Option<String>) -> Seq<char> {
    match message {
        Some(s) => s@,
        None => Seq::empty(),
    }
}

/// `r` is the status for the code and message of `status`, provided that the
/// code is one of the two that the engine handles itself.
pub open spec fn is_special_code_status<O, E>(
    r: ExecutionStatus<O, E>,
    status: VMStatus,
) -> bool {
    match status.code {
        StatusCode::SpeculativeExecutionAbortError => r matches ExecutionStatus::SpeculativeExecutionAbortError(m)
            && m@ == message_text(status.message),
        StatusCode::DelayedMaterializationCodeInvariantError => r matches ExecutionStatus::DelayedFieldsCodeInvariantError(m)
            && m@ == message_text(status.message),
        StatusCode::Other(_) => false,
    }
}

/// `r` is the status for a transaction whose execution returned `vm_status`
/// and `output`, where `restart` tells whether the output's changes demand
/// that execution not run ahead of them.
pub open spec fn is_output_status<O>(
    r: ExecutionStatus<O, VMStatus>,
    vm_status: VMStatus,
    output: O,
    restart: bool,
) -> bool {
    if vm_status.code is Other {
        if restart {
            r == ExecutionStatus::<O, VMStatus>::SkipRest(output)
        } else {
            r == ExecutionStatus::<O, VMStatus>::Success(output)
        }
    } else {
        is_special_code_status(r, vm_status)
    }
}

/// `r` is the status for a transaction whose execution failed with `err`.
pub open spec fn is_error_status<O>(r: ExecutionStatus<O, VMStatus>, err: VMStatus) -> bool {
    if err.code is Other {
        r == ExecutionStatus::<O, VMStatus>::Abort(err)
    } else {
        is_special_code_status(r, err)
    }
}

/// `r` is the status for the result of normal execution of a transaction.
pub open spec fn is_execution_status<O>(
    r: ExecutionStatus<O, VMStatus>,
    result: Result<(VMStatus, O), VMStatus>,
    restart: bool,
) -> bool {
    match result {
        Ok((vm_status, output)) => is_output_status(r, vm_status, output, restart),
        Err(err) => is_error_status(r, err),
    }
}

/// `r` is the status for the result of applying a direct write-set payload.
pub open spec fn is_direct_payload_status<O>(
    r: ExecutionStatus<O, VMStatus>,
    result: Result<O, VMStatus>,
) -> bool {
    match result {
        Ok(output) => r == ExecutionStatus::<O, VMStatus>::MaterializedSkipRest(output),
        Err(err) => r == ExecutionStatus::<O, VMStatus>::Abort(err),
    }
}

/// The text of `message`, or the empty string.
fn message_or_empty(message: Option<String>) -> (r: String)
    ensures
        r@ == message_text(message),
{
    match message {
        Some(s) => s,
        None => String::new(),
    }
}

/// The status for a code the engine handles itself, or `None` for any other
/// code.
fn special_code_status<O, E>(status: &VMStatus) -> (r: Option<ExecutionStatus<O, E>>)
    ensures
        status.code is Other <==> r is None,
        r matches Some(s) ==> is_special_code_status(s, *status),
{
    match status.code {
        StatusCode::SpeculativeExecutionAbortError => Some(
            ExecutionStatus::SpeculativeExecutionAbortError(message_or_empty(status.message.clone())),
        ),
        StatusCode::DelayedMaterializationCodeInvariantError => Some(
            ExecutionStatus::DelayedFieldsCodeInvariantError(message_or_empty(status.message.clone())),
        ),
        StatusCode::Other(_) => None,
    }
}

/// Two statuses agree: the same variant with the same payload, messages
/// compared by their text.
pub open spec fn same_status<O, E>(a: ExecutionStatus<O, E>, b: ExecutionStatus<O, E>) -> bool {
    match (a, b) {
        (
            ExecutionStatus::SpeculativeExecutionAbortError(m),
            ExecutionStatus::SpeculativeExecutionAbortError(n),
        ) => m@ == n@,
        (
            ExecutionStatus::DelayedFieldsCodeInvariantError(m),
            ExecutionStatus::DelayedFieldsCodeInvariantError(n),
        ) => m@ == n@,
        _ => a == b,
    }
}

/// Classifies the result of normal execution of a transaction: the two codes
/// the engine handles itself come first, whether execution succeeded or not;
/// then a failure aborts the transaction, and a success is `SkipRest` when
/// `restart` says that its changes demand it, `Success` otherwise.
pub fn execution_status<O>(result: Result<(VMStatus, O), VMStatus>, restart: bool) -> (r:
    ExecutionStatus<O, VMStatus>)
    ensures
        is_execution_status(r, result, restart),
{
    match result {
        Ok((vm_status, output)) => {
            match special_code_status(&vm_status) {
                Some(s) => s,
                None => {
                    if restart {
                        ExecutionStatus::SkipRest(output)
                    } else {
                        ExecutionStatus::Success(output)
                    }
                },
            }
        },
        Err(err) => {
            match special_code_status(&err) {
                Some(s) => s,
                None => ExecutionStatus::Abort(err),
            }
        },
    }
}

/// Classifies the result of applying a direct write-set payload: its output
/// is final and ends the block, and a failure aborts the transaction.
pub fn direct_payload_status<O>(result: Result<O, VMStatus>) -> (r: ExecutionStatus<O, VMStatus>)
    ensures
        is_direct_payload_status(r, result),
{
    match result {
        Ok(output) => ExecutionStatus::MaterializedSkipRest(output),
        Err(err) => ExecutionStatus::Abort(err),
    }
}

/// A direct write-set payload only ever yields `MaterializedSkipRest` or
/// `Abort`.
pub proof fn lemma_direct_payload_status_kinds<O>(
    r: ExecutionStatus<O, VMStatus>,
    result: Result<O, VMStatus>,
)
    requires
        is_direct_payload_status(r, result),
    ensures
        r is MaterializedSkipRest || r is Abort,
        !(r is Success || r is SkipRest || r is SpeculativeExecutionAbortError
            || r is DelayedFieldsCodeInvariantError),
{
}

/// The code of the status that normal execution returned, whether it
/// succeeded or failed.
pub open spec fn result_code<O>(result: Result<(VMStatus, O), VMStatus>) -> StatusCode {
    match result {
        Ok((vm_status, _)) => vm_status.code,
        Err(err) => err.code,
    }
}

/// The speculative-inconsistency code always yields
/// `SpeculativeExecutionAbortError`, never `Abort`, whatever else the
/// execution returned.
pub proof fn lemma_speculative_code_is_retried<O>(
    r: ExecutionStatus<O, VMStatus>,
    result: Result<(VMStatus, O), VMStatus>,
    restart: bool,
)
    requires
        is_execution_status(r, result, restart),
        result_code(result) == StatusCode::SpeculativeExecutionAbortError,
    ensures
        r is SpeculativeExecutionAbortError,
        !(r is Abort),
{
}

/// Classification is a function of what execution returned: the same result
/// gives the same status, variant and payload.
pub proof fn lemma_execution_status_deterministic<O>(
    r1: ExecutionStatus<O, VMStatus>,
    r2: ExecutionStatus<O, VMStatus>,
    result: Result<(VMStatus, O), VMStatus>,
    restart: bool,
)
    requires
        is_execution_status(r1, result, restart),
        is_execution_status(r2, result, restart),
    ensures
        same_status(r1, r2),
{
}

/// The same holds of a direct write-set payload.
pub proof fn lemma_direct_payload_status_deterministic<O>(
    r1: ExecutionStatus<O, VMStatus>,
    r2: ExecutionStatus<O, VMStatus>,
    result: Result<O, VMStatus>,
)
    requires
        is_direct_payload_status(r1, result),
        is_direct_payload_status(r2, result),
    ensures
        r1 == r2,
{
}

} // verus!
