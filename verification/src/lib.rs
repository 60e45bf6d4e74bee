//! Probes domain names over HTTP(S) for their live status, preferred
//! protocol, and canonical (`www` vs bare) form.
//!
//! The library holds the verified core: the ordered fallback strategy that
//! derives four candidate URLs per domain and tries them in turn until the
//! first transport-level success, and the aggregation of the resulting
//! outcomes into normalized report rows. The HTTP transport itself, along
//! with reading input lists and writing reports, lives outside the library;
//! callers drive a [`probe::Resolver`] by performing each requested fetch and
//! handing back its transport-level result.

pub mod probe;
pub mod report;
