//! What is exchanged with the callers of the proxy manager.

use vstd::prelude::*;

verus! {

/// One reverse-proxy mapping. `name` is also the name of its file.
#[derive(Debug, Clone, PartialEq, Eq)]
pub struct NginxProxy {
    pub name: String,
    pub domain: String,
    pub backend: String,
    pub ssl: bool,
    pub extra_config: Option<String>,
}

/// The mathematical content of an `NginxProxy`.
pub struct ProxyView {
    pub name: Seq<char>,
    pub domain: Seq<char>,
    pub backend: Seq<char>,
    pub ssl: bool,
    pub extra_config: Option<Seq<char>>,
}

impl View for NginxProxy {
    type V = ProxyView;

    open spec fn view(&self) -> ProxyView {
        ProxyView {
            name: self.name@,
            domain: self.domain@,
            backend: self.backend@,
            ssl: self.ssl,
            extra_config: match self.extra_config {
                Some(e) => Some(e@),
                None => None,
            },
        }
    }
}

/// How an operation on a proxy ended.
#[derive(Debug, Clone, PartialEq, Eq)]
pub struct NginxResponse {
    pub success: bool,
    pub message: String,
}

/// A request to check and lay out a configuration fragment.
#[derive(Debug, Clone, PartialEq, Eq)]
pub struct FormatRequest {
    pub config: String,
}

/// The fragment laid out, or why it was refused.
#[derive(Debug, Clone, PartialEq, Eq)]
pub struct FormatResponse {
    pub success: bool,
    pub formatted: Option<String>,
    pub error: Option<String>,
}

} // verus!
