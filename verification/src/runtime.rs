//! The types of the XR runtime binding that pass through the library.
//!
//! The library hands these values on and never looks inside them.

use vstd::prelude::*;

verus! {

/// `openxr::sys::Space`, the raw handle of a tracking space. Nothing is
/// claimed of its content.
#[verifier::external_type_specification]
#[verifier::external_body]
pub struct ExSpace(openxr::sys::Space);

/// `openxr::sys::Result`, the result code of a runtime call. Nothing is
/// claimed of its content.
#[verifier::external_type_specification]
#[verifier::external_body]
pub struct ExResult(openxr::sys::Result);

} // verus!
