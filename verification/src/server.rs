//! The two front doors: what each answers for the outcome of an invocation.

use vstd::prelude::*;
use vstd::string::*;
use crate::plugin_manager::{spec_error_text, InvocationError, InvocationErrorView};
use crate::rest::{InvokePluginResponse, InvokePluginResponseView};

verus! {

/// The status code of a failed call.
#[derive(Debug, Clone, Copy, PartialEq, Eq, Structural)]
pub enum Code {
    Internal,
}

/// The status of a failed call: its code and a message for the caller.
#[derive(Debug, PartialEq, Eq)]
pub struct Status {
    pub code: Code,
    pub message: String,
}

/// A status as plain values.
pub struct StatusView {
    pub code: Code,
    pub message: Seq<char>,
}

impl View for Status {
    type V = StatusView;

    open spec fn view(&self) -> StatusView {
        StatusView { code: self.code, message: self.message@ }
    }
}

/// A call of the RPC front door: the plugin's name and its input, given as
/// pairs of key and value.
#[derive(Debug, PartialEq, Eq)]
pub struct GetRequest {
    pub name: String,
    pub options: Vec<(String, String)>,
}

/// The answer of the RPC front door: the plugin's output.
#[derive(Debug, PartialEq, Eq)]
pub struct GetResponse {
    pub output: String,
}

/// The outcome of an invocation as plain values; `None` says that no
/// registry was set up.
pub open spec fn spec_outcome_view(outcome: Option<Result<String, InvocationError>>) -> Option<
    Result<Seq<char>, InvocationErrorView>,
> {
    match outcome {
        None => None,
        Some(Ok(output)) => Some(Ok(output@)),
        Some(Err(error)) => Some(Err(error@)),
    }
}

/// What the RPC front door answers: the output of an invocation that
/// succeeded; else an internal error, whose message tells a registry that is
/// missing from an invocation that failed and says no more.
pub open spec fn spec_get(outcome: Option<Result<Seq<char>, InvocationErrorView>>) -> Result<
    Seq<char>,
    StatusView,
> {
    match outcome {
        None => Err(StatusView { code: Code::Internal, message: "No plugins setup"@ }),
        Some(Err(_)) => Err(StatusView { code: Code::Internal, message: "Internal Error"@ }),
        Some(Ok(output)) => Ok(output),
    }
}

/// What the REST front door answers: the output of an invocation that
/// succeeded, and else an error that names what went wrong. Exactly one of
/// the two fields is filled.
pub open spec fn spec_rest_invoke(
    outcome: Option<Result<Seq<char>, InvocationErrorView>>,
) -> InvokePluginResponseView {
    match outcome {
        None => InvokePluginResponseView { output: None, error: Some("No plugins setup"@) },
        Some(Err(error)) => InvokePluginResponseView {
            output: None,
            error: Some("error while invoking plugin "@ + spec_error_text(error)),
        },
        Some(Ok(output)) => InvokePluginResponseView { output: Some(output), error: None },
    }
}

/// The plain values of an answer of the RPC front door.
pub open spec fn spec_get_view(answer: Result<GetResponse, Status>) -> Result<
    Seq<char>,
    StatusView,
> {
    match answer {
        Ok(response) => Ok(response.output@),
        Err(status) => Err(status@),
    }
}

/// The RPC front door.
#[derive(Debug)]
pub struct DatabookGrpc {}

impl DatabookGrpc {
    pub fn new() -> (service: Self)
        ensures
            service == (DatabookGrpc {  }),
    {
        DatabookGrpc {  }
    }

    /// Answers a call with the outcome of its invocation; `None` says that
    /// no registry was set up.
    pub fn get(&self, outcome: Option<Result<String, InvocationError>>) -> (answer: Result<
        GetResponse,
        Status,
    >)
        ensures
            spec_get_view(answer) == spec_get(spec_outcome_view(outcome)),
    {
        match outcome {
            None => Err(
                Status { code: Code::Internal, message: String::from_str("No plugins setup") },
            ),
            Some(Err(_)) => Err(
                Status { code: Code::Internal, message: String::from_str("Internal Error") },
            ),
            Some(Ok(output)) => Ok(GetResponse { output }),
        }
    }
}

impl Default for DatabookGrpc {
    fn default() -> (service: Self)
        ensures
            service == (DatabookGrpc {  }),
    {
        Self::new()
    }
}

/// Answers a REST request with the outcome of its invocation; `None` says
/// that no registry was set up.
pub fn rest_invoke(outcome: Option<Result<String, InvocationError>>) -> (answer:
    InvokePluginResponse)
    ensures
        answer@ == spec_rest_invoke(spec_outcome_view(outcome)),
{
    match outcome {
        None => InvokePluginResponse {
            output: None,
            error: Some(String::from_str("No plugins setup")),
        },
        Some(Err(error)) => {
            let mut message = String::from_str("error while invoking plugin ");
            let described = error.describe();
            message.append(described.as_str());
            InvokePluginResponse { output: None, error: Some(message) }
        },
        Some(Ok(output)) => InvokePluginResponse { output: Some(output), error: None },
    }
}

} // verus!
