use vstd::prelude::*;
use crate::error::ConvertError;

verus! {

/// Life cycle shared by every converter: one `prepare`, any number of frames,
/// one `finish`. `Failed` is entered on any error and never left.
#[derive(Debug, Clone, Copy, PartialEq, Eq, Structural)]
pub enum ConverterState {
    Uninitialized,
    Prepared,
    Streaming,
    Finished,
    Failed,
}

/// The three calls a converter accepts.
#[derive(Debug, Clone, Copy, PartialEq, Eq, Structural)]
pub enum Operation {
    Prepare,
    ConvertFrame,
    Finish,
}

/// The state after `op` in state `s`, or the error it meets.
pub open spec fn transition(s: ConverterState, op: Operation) -> Result<ConverterState, ConvertError> {
    match (s, op) {
        (ConverterState::Uninitialized, Operation::Prepare) => Ok(ConverterState::Prepared),
        (ConverterState::Uninitialized, _) => Err(ConvertError::PrepareBeforeUse),
        (ConverterState::Prepared, Operation::ConvertFrame) => Ok(ConverterState::Streaming),
        (ConverterState::Streaming, Operation::ConvertFrame) => Ok(ConverterState::Streaming),
        (ConverterState::Prepared, Operation::Finish) => Ok(ConverterState::Finished),
        (ConverterState::Streaming, Operation::Finish) => Ok(ConverterState::Finished),
        _ => Err(ConvertError::InvalidState),
    }
}

/// The state a converter is left in by `op` from `s`: the next state, or
/// `Failed` when the call is refused.
pub open spec fn state_after(s: ConverterState, op: Operation) -> ConverterState {
    match transition(s, op) {
        Ok(n) => n,
        Err(_) => ConverterState::Failed,
    }
}

/// Applies one operation to a converter state.
pub fn step(s: ConverterState, op: Operation) -> (r: Result<ConverterState, ConvertError>)
    ensures
        r == transition(s, op),
{
    match (s, op) {
        (ConverterState::Uninitialized, Operation::Prepare) => Ok(ConverterState::Prepared),
        (ConverterState::Uninitialized, _) => Err(ConvertError::PrepareBeforeUse),
        (ConverterState::Prepared, Operation::ConvertFrame) => Ok(ConverterState::Streaming),
        (ConverterState::Streaming, Operation::ConvertFrame) => Ok(ConverterState::Streaming),
        (ConverterState::Prepared, Operation::Finish) => Ok(ConverterState::Finished),
        (ConverterState::Streaming, Operation::Finish) => Ok(ConverterState::Finished),
        _ => Err(ConvertError::InvalidState),
    }
}

/// Before `prepare`, a frame or `finish` is refused with `PrepareBeforeUse`.
pub proof fn lemma_prepare_before_use(op: Operation)
    requires
        op != Operation::Prepare,
    ensures
        transition(ConverterState::Uninitialized, op) == Err::<ConverterState, ConvertError>(
            ConvertError::PrepareBeforeUse,
        ),
{
}

/// Once failed, a converter refuses every call and stays failed.
pub proof fn lemma_failed_is_absorbing(op: Operation)
    ensures
        transition(ConverterState::Failed, op) is Err,
        state_after(ConverterState::Failed, op) == ConverterState::Failed,
{
}

} // verus!
