//! Verified core of a container-listing tool: it models the paginated
//! listing protocol of a cloud object store — the XML wire format, the
//! per-target pagination and retry state machine, and the bounded-concurrency
//! scheduler — and proves the laws that the tool relies on.
//!
//! Layering, leaves first: `tokenizer` scans one response body into tags and
//! text runs; `decoder` walks those tokens into a `records::ListingPage`;
//! `driver` turns fetch outcomes into retry, emit and stop decisions for one
//! target; `scheduler` admits targets under a concurrency bound; `client`
//! builds the request URL, headers, output path and output columns. All I/O
//! stays with the caller: the library computes from plain values to plain
//! values.
pub mod client;
pub mod decoder;
pub mod driver;
pub mod records;
pub mod scheduler;
pub mod tokenizer;
