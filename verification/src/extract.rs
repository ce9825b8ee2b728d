//! Argument extraction plans: for each declared value kind, the step a
//! generated wrapper performs to turn one raw foreign reference into the
//! typed native value the implementation expects.

use vstd::prelude::*;

use crate::rust_type::RustType;
use crate::rust_type::RustTypeV;
use crate::rust_type::TypeReference;
use crate::rust_type::TypeReferenceV;
use crate::rust_type::spec_preprocess_tref;
use crate::rust_type::spec_unwrap_ty_group;
use crate::rust_type::preprocess_tref;
use crate::rust_type::unwrap_ty_group;
use crate::ty::Ty;

verus! {

/// A typed extraction into a borrowed native reference: the requested type
/// with `Self` resolved and the lifetime erased, and the borrow's mutability.
pub struct BorrowSpec {
    pub target: TypeReference,
    pub mutable: bool,
}

/// Ghost mirror of `BorrowSpec`.
#[verifier::ext_equal]
pub struct BorrowSpecV {
    pub target: TypeReferenceV,
    pub mutable: bool,
}

impl View for BorrowSpec {
    type V = BorrowSpecV;

    open spec fn view(&self) -> BorrowSpecV {
        BorrowSpecV { target: self.target@, mutable: self.mutable }
    }
}

/// Whether a reference-valued argument is extracted into an owned native
/// value or a borrowed native reference.
pub enum ExtractDest {
    Owned,
    Borrowed(BorrowSpec),
}

/// Ghost mirror of `ExtractDest`.
#[verifier::ext_equal]
pub enum ExtractDestV {
    Owned,
    Borrowed(BorrowSpecV),
}

impl View for ExtractDest {
    type V = ExtractDestV;

    open spec fn view(&self) -> ExtractDestV {
        match self {
            ExtractDest::Owned => ExtractDestV::Owned,
            ExtractDest::Borrowed(b) => ExtractDestV::Borrowed(b@),
        }
    }
}

/// The extraction step a wrapper performs for one declared argument.
pub enum ExtractStep {
    /// Typed conversion from a plain object reference; failure propagates.
    FromAny(ExtractDest),
    /// Typed conversion that, on failure, returns the foreign
    /// "not implemented" sentinel instead of raising.
    FromAnyOrNotImplemented(ExtractDest),
    /// As `FromAny`, from a reference the convention guarantees non-null.
    FromNonNull(ExtractDest),
    /// Decode the raw comparison-operator code; an out-of-range code is a
    /// hard value error.
    DecodeCompareOp,
}

/// Ghost mirror of `ExtractStep`.
#[verifier::ext_equal]
pub enum ExtractStepV {
    FromAny(ExtractDestV),
    FromAnyOrNotImplemented(ExtractDestV),
    FromNonNull(ExtractDestV),
    DecodeCompareOp,
}

impl View for ExtractStep {
    type V = ExtractStepV;

    open spec fn view(&self) -> ExtractStepV {
        match self {
            ExtractStep::FromAny(d) => ExtractStepV::FromAny(d@),
            ExtractStep::FromAnyOrNotImplemented(d) => ExtractStepV::FromAnyOrNotImplemented(d@),
            ExtractStep::FromNonNull(d) => ExtractStepV::FromNonNull(d@),
            ExtractStep::DecodeCompareOp => ExtractStepV::DecodeCompareOp,
        }
    }
}

/// The ghost views of a list of extraction steps.
pub open spec fn deep_view_steps(v: Seq<ExtractStep>) -> Seq<ExtractStepV> {
    Seq::new(v.len(), |i: int| v[i]@)
}

/// Where a typed conversion lands: borrowed when the requested native type is
/// a reference (with `Self` resolved against the receiver type and the
/// borrow's mutability read off the declaration), owned otherwise.
pub open spec fn spec_extract_from_any(self_: RustTypeV, target: RustTypeV) -> ExtractDestV {
    match spec_unwrap_ty_group(target) {
        RustTypeV::Reference(tref) => {
            let (prepared, mutable) = spec_preprocess_tref(tref, self_);
            ExtractDestV::Borrowed(BorrowSpecV { target: prepared, mutable })
        },
        _ => ExtractDestV::Owned,
    }
}

/// The destination of a typed conversion from a plain object reference.
pub fn extract_from_any(self_: &RustType, target: &RustType) -> (r: ExtractDest)
    ensures
        r@ == spec_extract_from_any(self_@, target@),
{
    match unwrap_ty_group(target) {
        RustType::Reference(tref) => {
            let (prepared, mutable) = preprocess_tref(tref, self_);
            ExtractDest::Borrowed(BorrowSpec { target: prepared, mutable })
        },
        _ => ExtractDest::Owned,
    }
}

/// The extraction step for one argument of kind `kind`, targeting the native
/// type `target` on a receiver of type `cls`.
pub open spec fn spec_ty_extract(kind: Ty, cls: RustTypeV, target: RustTypeV) -> ExtractStepV
    recommends
        kind.is_argument_kind(),
{
    match kind {
        Ty::Object => ExtractStepV::FromAny(spec_extract_from_any(cls, target)),
        Ty::ObjectOrNotImplemented => ExtractStepV::FromAnyOrNotImplemented(
            spec_extract_from_any(cls, target),
        ),
        Ty::NonNullObject => ExtractStepV::FromNonNull(spec_extract_from_any(cls, target)),
        _ => ExtractStepV::DecodeCompareOp,
    }
}

impl Ty {
    /// The extraction step a wrapper performs for an argument of this kind.
    /// Only reference-valued kinds and the comparison code may be declared as
    /// arguments; the remaining kinds are return kinds only.
    pub fn extract(self, cls: &RustType, target: &RustType) -> (r: ExtractStep)
        requires
            self.is_argument_kind(),
        ensures
            r@ == spec_ty_extract(self, cls@, target@),
    {
        match self {
            Ty::Object => ExtractStep::FromAny(extract_from_any(cls, target)),
            Ty::ObjectOrNotImplemented => ExtractStep::FromAnyOrNotImplemented(
                extract_from_any(cls, target),
            ),
            Ty::NonNullObject => ExtractStep::FromNonNull(extract_from_any(cls, target)),
            Ty::CompareOp => ExtractStep::DecodeCompareOp,
            Ty::Int | Ty::PyHashT | Ty::PySsizeT | Ty::Void => vstd::pervasive::unreached(),
        }
    }
}

} // verus!
