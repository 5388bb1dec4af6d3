//! The recoverable errors of converting a host value to a typed handle.

use vstd::prelude::*;
use crate::robj::{Robj, RobjView};

verus! {

/// Why a host value was refused as a typed handle.
#[derive(Debug)]
pub enum Error {
    /// The value is not an opaque handle at all. Carries the value.
    ExpectedExternalPtr(Robj),
    /// The value is an opaque handle whose tag is not the expected type name.
    /// Carries the value and the expected type name.
    ExpectedExternalPtrType(Robj, String),
}

/// The mathematical value of an [`Error`].
pub ghost enum ErrorView {
    ExpectedExternalPtr(RobjView),
    ExpectedExternalPtrType(RobjView, Seq<char>),
}

impl View for Error {
    type V = ErrorView;

    open spec fn view(&self) -> ErrorView {
        match self {
            Error::ExpectedExternalPtr(r) => ErrorView::ExpectedExternalPtr(r@),
            Error::ExpectedExternalPtrType(r, n) => ErrorView::ExpectedExternalPtrType(r@, n@),
        }
    }
}

impl Error {
    /// The host value that was refused.
    pub fn robj(&self) -> (res: &Robj)
        ensures
            res@ == match self@ {
                ErrorView::ExpectedExternalPtr(r) => r,
                ErrorView::ExpectedExternalPtrType(r, _) => r,
            },
    {
        match self {
            Error::ExpectedExternalPtr(r) => r,
            Error::ExpectedExternalPtrType(r, _) => r,
        }
    }
}

} // verus!
