//! The steps of handing the greeting to a managed-runtime callback object:
//! first the greeting becomes a managed string, then the object's `callback`
//! method is invoked with it. A failed step ends the call with a typed error;
//! nothing is retried.

use vstd::prelude::*;

verus! {

/// The name of the method invoked on the callback object.
pub const CALLBACK_METHOD: &'static str = "callback";

/// The method's type descriptor: one string argument, no result.
pub const CALLBACK_SIGNATURE: &'static str = "(Ljava/lang/String;)V";

/// Why the managed-runtime callback did not complete.
#[derive(Clone, Copy, Debug, PartialEq, Eq, Structural)]
pub enum InvokeError {
    /// The greeting could not be turned into a managed string.
    StringConversion,
    /// The `callback` method could not be invoked, or it raised.
    Invocation,
}

/// Where a managed-runtime callback stands: the step to perform next, or
/// how it ended.
#[derive(Clone, Copy, Debug, PartialEq, Eq, Structural)]
pub enum InvokeStage {
    /// Turn the greeting into a managed string.
    CreateString,
    /// Invoke `callback` on the object with that string.
    CallMethod,
    /// The callback was invoked once and returned.
    Done,
    /// A step failed; the call ends here.
    Failed(InvokeError),
}

/// The stage after performing the step of `stage`, given whether it
/// succeeded. A finished stage stays as it is.
pub open spec fn next_stage(stage: InvokeStage, succeeded: bool) -> InvokeStage {
    match stage {
        InvokeStage::CreateString => if succeeded {
            InvokeStage::CallMethod
        } else {
            InvokeStage::Failed(InvokeError::StringConversion)
        },
        InvokeStage::CallMethod => if succeeded {
            InvokeStage::Done
        } else {
            InvokeStage::Failed(InvokeError::Invocation)
        },
        _ => stage,
    }
}

/// Whether `stage` is an end: nothing more is to be performed.
pub open spec fn is_finished(stage: InvokeStage) -> bool {
    stage is Done || stage is Failed
}

/// Moves to the next stage once the step of `stage` was performed and
/// reported as succeeded or not.
pub fn advance(stage: InvokeStage, succeeded: bool) -> (r: InvokeStage)
    ensures
        r == next_stage(stage, succeeded),
{
    match stage {
        InvokeStage::CreateString => if succeeded {
            InvokeStage::CallMethod
        } else {
            InvokeStage::Failed(InvokeError::StringConversion)
        },
        InvokeStage::CallMethod => if succeeded {
            InvokeStage::Done
        } else {
            InvokeStage::Failed(InvokeError::Invocation)
        },
        InvokeStage::Done => InvokeStage::Done,
        InvokeStage::Failed(e) => InvokeStage::Failed(e),
    }
}

/// Turns a finished stage into the call's result: `Ok` only for `Done`,
/// otherwise the error that ended it.
pub fn outcome(stage: InvokeStage) -> (r: Result<(), InvokeError>)
    requires
        is_finished(stage),
    ensures
        r is Ok <==> stage is Done,
        stage is Failed ==> r == Err::<(), InvokeError>(stage->Failed_0),
{
    match stage {
        InvokeStage::Failed(e) => Err(e),
        _ => Ok(()),
    }
}

/// A callback path always ends after its two steps, and it ends well only
/// when both succeeded: a failed string conversion or a failed invocation
/// (a missing `callback` method among them) ends it with that error, never
/// silently as done.
pub proof fn lemma_two_steps_decide(converted: bool, invoked: bool)
    ensures
        is_finished(next_stage(next_stage(InvokeStage::CreateString, converted), invoked)),
        next_stage(next_stage(InvokeStage::CreateString, converted), invoked) == InvokeStage::Done
            <==> converted && invoked,
        !converted ==> next_stage(next_stage(InvokeStage::CreateString, converted), invoked)
            == InvokeStage::Failed(InvokeError::StringConversion),
        converted && !invoked ==> next_stage(
            next_stage(InvokeStage::CreateString, converted),
            invoked,
        ) == InvokeStage::Failed(InvokeError::Invocation),
{
}

/// A finished stage is never left again.
pub proof fn lemma_finished_is_final(stage: InvokeStage, succeeded: bool)
    requires
        is_finished(stage),
    ensures
        next_stage(stage, succeeded) == stage,
{
}

} // verus!
