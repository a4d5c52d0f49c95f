//! The trusted boundary to the native client stack's error type.
//!
//! Remote operations are executed outside the library; what a failed
//! one hands back is the native stack's error value.  The library
//! takes such a value, renders it, and classifies the text.  Only the
//! rendering is trusted; the classification is verified.  The rendered
//! text is a function of the error value alone, so it carries a name,
//! `rendered_of`, through which callers' contracts tie the classified
//! error back to the error that was rendered.

use vstd::prelude::*;

verus! {

#[verifier::external_type_specification]
#[verifier::external_body]
pub struct ExSdkError(typespec::error::Error);

/// The text that rendering an error yields.
pub uninterp spec fn rendered_of(err: typespec::error::Error) -> Seq<char>;

/// Relies on the `Display` implementation of `typespec::error::Error`:
/// renders the error as the text the classifier inspects — the stored
/// message, or the inner kind's or boxed error's own rendering.
#[verifier::external_body]
pub(crate) fn sdk_error_message(err: &typespec::error::Error) -> (r: String)
    ensures
        r@ == rendered_of(*err),
{
    format!("{}", err)
}

} // verus!
