//! A declarative HTTP request engine over an attribute store.
//!
//! The attribute store is read to assemble a request (URI, method, headers,
//! body); hyper's request builder turns it into a `hyper::Request`; the host
//! sends it, and the outcome is written back into the store, under the
//! `response` block.
use vstd::prelude::*;

pub mod capture;
pub mod http;
pub mod laws;
pub mod request;
pub mod store;

verus! {

/// The request plugin: reads a request from the attribute store, sends it
/// with a hyper client, and captures the response body.
pub struct HyperContext;

impl HyperContext {
    /// The attribute symbol under which the plugin is installed.
    pub fn symbol() -> (r: &'static str)
        ensures
            r@ == "request"@,
    {
        "request"
    }

    /// A one-line description of the plugin.
    pub fn description() -> (r: &'static str)
        ensures
            r@ == "Creates a http request, and sends a request with a hyper client. HTTPS only"@,
    {
        "Creates a http request, and sends a request with a hyper client. HTTPS only"
    }
}

} // verus!
