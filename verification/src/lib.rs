//! Verified core of a JavaScript runtime's WebCrypto `SubtleCrypto` helpers
//! and of its Web Streams `TransformStream`.
//!
//! The JavaScript engine stays outside: every decision taken between two
//! calls into the engine is a function here, from plain values to plain
//! values, with a contract.
use vstd::prelude::*;

pub mod algorithm_name;
pub mod subtle;
pub mod import_key;
pub mod subtle_stubs;
pub mod transform_types;
pub mod transform_controller;
pub mod transform_stream;
pub mod transform_laws;

verus! {

} // verus!
