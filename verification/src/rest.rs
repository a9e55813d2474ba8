//! The bodies of the REST front door.

use vstd::prelude::*;

verus! {

/// A request to invoke the plugin `name` on `options`, given as pairs of key
/// and value.
#[derive(Debug, PartialEq, Eq)]
pub struct InvokePluginRequest {
    pub name: String,
    pub options: Vec<(String, String)>,
}

/// The answer to a request: the plugin's output, or an error in words.
#[derive(Debug, PartialEq, Eq)]
pub struct InvokePluginResponse {
    pub output: Option<String>,
    pub error: Option<String>,
}

/// An answer as plain values.
pub struct InvokePluginResponseView {
    pub output: Option<Seq<char>>,
    pub error: Option<Seq<char>>,
}

impl View for InvokePluginResponse {
    type V = InvokePluginResponseView;

    open spec fn view(&self) -> InvokePluginResponseView {
        InvokePluginResponseView {
            output: self.output.deep_view(),
            error: self.error.deep_view(),
        }
    }
}

} // verus!
