//! A client library for speakers that are controlled through UPnP/SOAP.
//!
//! The library holds the protocol logic: cleaning vendor XML, locating tags,
//! building SOAP envelopes, decoding responses into typed values, mapping
//! device error codes, and the bookkeeping of a discovery pass.
pub mod actions;
pub mod decode;
pub mod discovery;
pub mod envelope;
pub mod errors;
pub mod protocol;
pub mod responses;
pub mod sanitize;
pub mod services;
pub mod speaker;
pub mod text;
pub mod xml;
