//! Abstract data-access contract for financial market information.
//!
//! This crate defines a vocabulary of two polymorphic capability sets — a
//! [`Market`](market::Market) and a [`Company`](company::Company) (listed
//! stock) — that downstream systems can program against without depending on
//! any concrete data source. The crate performs no data ingestion, storage or
//! I/O of its own: it is an interface boundary, stated as Verus traits whose
//! contracts pin down the lookup and rendering semantics every conforming
//! implementation must provide.
//!
//! A reference implementation backed by plain in-memory values lives in
//! [`mock`]; it exists to demonstrate that the contracts are satisfiable and
//! to support conformance testing.

pub mod company;
pub mod laws;
pub mod market;
pub mod mock;
pub mod model;
pub mod text;
