//! Builds the greeting that the native entry points hand back to their
//! callers, and decides the steps of the managed-runtime callback.

pub mod greeting;
pub mod invocation;

pub use greeting::{hello, hello_c_string, Features};
pub use invocation::{
    advance, outcome, InvokeError, InvokeStage, CALLBACK_METHOD, CALLBACK_SIGNATURE,
};
