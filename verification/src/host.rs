//! The value types that pass between a plugin and its host.

use vstd::prelude::*;

verus! {

/// The code of an error that is not a transport failure: a call that the
/// policy denies, an unknown method, a variable that is not set, a body that
/// is not text.
pub const GENERIC_FAILURE: u16 = 0;

/// The code of a request that the transport could not carry out.
pub const HTTP_REQUEST_FAILED: u16 = 100;

/// One header line.
#[derive(Debug, PartialEq, Eq)]
pub struct HttpHeader {
    pub key: String,
    pub value: String,
}

/// A header line as plain values.
pub struct HttpHeaderView {
    pub key: Seq<char>,
    pub value: Seq<char>,
}

impl View for HttpHeader {
    type V = HttpHeaderView;

    open spec fn view(&self) -> HttpHeaderView {
        HttpHeaderView { key: self.key@, value: self.value@ }
    }
}

impl DeepView for HttpHeader {
    type V = HttpHeaderView;

    open spec fn deep_view(&self) -> HttpHeaderView {
        self@
    }
}

impl Clone for HttpHeader {
    fn clone(&self) -> (copy: Self)
        ensures
            copy@ == self@,
    {
        HttpHeader { key: self.key.clone(), value: self.value.clone() }
    }
}

/// What a plugin asks the host to send.
#[derive(Debug, PartialEq, Eq)]
pub struct HttpRequest {
    pub method: String,
    pub url: String,
    pub params: String,
    pub body: String,
    pub headers: Vec<HttpHeader>,
}

/// A request as plain values.
pub struct HttpRequestView {
    pub method: Seq<char>,
    pub url: Seq<char>,
    pub params: Seq<char>,
    pub body: Seq<char>,
    pub headers: Seq<HttpHeaderView>,
}

impl View for HttpRequest {
    type V = HttpRequestView;

    open spec fn view(&self) -> HttpRequestView {
        HttpRequestView {
            method: self.method@,
            url: self.url@,
            params: self.params@,
            body: self.body@,
            headers: self.headers.deep_view(),
        }
    }
}

/// What the host hands back to the plugin after a request.
#[derive(Debug, PartialEq, Eq)]
pub struct HttpResponse {
    pub status: u16,
    pub response: String,
    pub headers: Vec<HttpHeader>,
}

/// A response as plain values.
pub struct HttpResponseView {
    pub status: u16,
    pub response: Seq<char>,
    pub headers: Seq<HttpHeaderView>,
}

impl View for HttpResponse {
    type V = HttpResponseView;

    open spec fn view(&self) -> HttpResponseView {
        HttpResponseView {
            status: self.status,
            response: self.response@,
            headers: self.headers.deep_view(),
        }
    }
}

/// A failed host call, as the plugin sees it. It is a value handed to the
/// plugin, never a fault of the host.
#[derive(Debug, PartialEq, Eq)]
pub struct HostError {
    pub code: u16,
    pub message: String,
}

/// A failed host call as plain values.
pub struct HostErrorView {
    pub code: u16,
    pub message: Seq<char>,
}

impl View for HostError {
    type V = HostErrorView;

    open spec fn view(&self) -> HostErrorView {
        HostErrorView { code: self.code, message: self.message@ }
    }
}

/// The level of a log line.
#[derive(Debug, Clone, Copy, PartialEq, Eq, Structural)]
pub enum LogLevel {
    Trace,
    Debug,
    Info,
    Warn,
    Error,
}

} // verus!
