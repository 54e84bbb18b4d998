//! Plain-value core of a binding layer for a native render-graph runtime:
//! type descriptors, the reading of status codes, entry-point naming, the
//! rules of the binding generator and the decisions made while attaching to
//! the optional JIT backend library.

pub mod base;
pub mod bindings;
pub mod entry;
pub mod flags;
pub mod jit;
pub mod status;
pub mod type_info;
