//! Host-side core of a front end for the libharu PDF engine: translation of the
//! engine's status codes, the decisions of the callback streams through which the
//! engine reads and writes host bytes, and the lifecycle of a document handle.
pub mod handover;
pub mod lifecycle;
pub mod page;
pub mod page_layout;
pub mod reader;
pub mod status;
pub mod writer;
