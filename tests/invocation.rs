use android_rust::{advance, outcome, InvokeError, InvokeStage, CALLBACK_METHOD, CALLBACK_SIGNATURE};

#[test]
fn callback_descriptor() {
    assert_eq!(CALLBACK_METHOD, "callback");
    assert_eq!(CALLBACK_SIGNATURE, "(Ljava/lang/String;)V");
}

#[test]
fn both_steps_succeed() {
    let stage = advance(InvokeStage::CreateString, true);
    assert_eq!(stage, InvokeStage::CallMethod);
    let stage = advance(stage, true);
    assert_eq!(stage, InvokeStage::Done);
    assert_eq!(outcome(stage), Ok(()));
}

#[test]
fn string_conversion_failure_ends_the_call() {
    let stage = advance(InvokeStage::CreateString, false);
    assert_eq!(stage, InvokeStage::Failed(InvokeError::StringConversion));
    assert_eq!(advance(stage, true), stage);
    assert_eq!(outcome(stage), Err(InvokeError::StringConversion));
}

#[test]
fn missing_callback_method_is_an_error() {
    let stage = advance(InvokeStage::CreateString, true);
    let stage = advance(stage, false);
    assert_eq!(stage, InvokeStage::Failed(InvokeError::Invocation));
    assert_eq!(outcome(stage), Err(InvokeError::Invocation));
}

#[test]
fn finished_stages_stay() {
    assert_eq!(advance(InvokeStage::Done, false), InvokeStage::Done);
    let failed = InvokeStage::Failed(InvokeError::Invocation);
    assert_eq!(advance(failed, true), failed);
}
