//! The failures of the engine that runs a plugin's module.

use vstd::prelude::*;
use vstd::string::*;

verus! {

/// A module that could not be compiled, linked, instantiated or run, with
/// the engine's message.
#[derive(Debug, PartialEq, Eq)]
pub enum WasmError {
    GenericError(String),
}

impl View for WasmError {
    type V = Seq<char>;

    /// The message of the failure.
    open spec fn view(&self) -> Seq<char> {
        match self {
            WasmError::GenericError(message) => message@,
        }
    }
}

impl WasmError {
    /// The failure of a module that did not compile: the engine's message,
    /// a space, and the path of the file.
    pub fn compile_failure(reason: &str, path: &str) -> (error: WasmError)
        ensures
            error@ == reason@ + " "@ + path@,
    {
        let mut message = String::from_str(reason);
        message.append(" ");
        message.append(path);
        WasmError::GenericError(message)
    }

    /// The message of the failure.
    pub fn message(&self) -> (message: &String)
        ensures
            message@ == self@,
    {
        match self {
            WasmError::GenericError(message) => message,
        }
    }
}

} // verus!
