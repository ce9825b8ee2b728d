//! The catalog of value kinds that can cross the foreign boundary, the
//! foreign ABI representation of each, and the closed comparison-operator
//! enumeration with its decoder.

use vstd::prelude::*;

verus! {

/// A value kind that a slot's calling convention passes or returns.
#[derive(Clone, Copy, Debug, PartialEq, Eq, Structural)]
pub enum Ty {
    /// A plain foreign object reference.
    Object,
    /// An object reference whose typed extraction, on failure, yields the
    /// foreign "not implemented" sentinel instead of an error.
    ObjectOrNotImplemented,
    /// An object reference that the calling convention guarantees non-null.
    NonNullObject,
    /// A raw comparison-operator code.
    CompareOp,
    /// A C `int`.
    Int,
    /// The foreign runtime's hash-width integer.
    PyHashT,
    /// The foreign runtime's size-width integer.
    PySsizeT,
    /// No value.
    Void,
}

/// The foreign ABI representation of a value kind.
#[derive(Clone, Copy, Debug, PartialEq, Eq, Structural)]
pub enum FfiType {
    /// `*mut PyObject`.
    ObjectPtr,
    /// `NonNull<PyObject>`.
    NonNullObjectPtr,
    /// `c_int`.
    CInt,
    /// `Py_hash_t`.
    HashInt,
    /// `Py_ssize_t`.
    SsizeInt,
    /// `()`.
    Unit,
}

/// How a failed argument or receiver extraction surfaces at call time.
#[derive(Clone, Copy, Debug, PartialEq, Eq, Structural)]
pub enum ExtractErrorMode {
    /// The failure propagates as the slot's standard error return.
    Raise,
    /// The failure is swallowed and the slot returns the foreign
    /// "not implemented" sentinel, deferring to a cooperating implementation.
    NotImplemented,
}

impl Ty {
    /// The foreign ABI type that carries this value kind.
    pub fn ffi_type(self) -> (r: FfiType)
        ensures
            r == self.spec_ffi_type(),
    {
        match self {
            Ty::Object | Ty::ObjectOrNotImplemented => FfiType::ObjectPtr,
            Ty::NonNullObject => FfiType::NonNullObjectPtr,
            Ty::Int | Ty::CompareOp => FfiType::CInt,
            Ty::PyHashT => FfiType::HashInt,
            Ty::PySsizeT => FfiType::SsizeInt,
            Ty::Void => FfiType::Unit,
        }
    }

    pub open spec fn spec_ffi_type(self) -> FfiType {
        match self {
            Ty::Object | Ty::ObjectOrNotImplemented => FfiType::ObjectPtr,
            Ty::NonNullObject => FfiType::NonNullObjectPtr,
            Ty::Int | Ty::CompareOp => FfiType::CInt,
            Ty::PyHashT => FfiType::HashInt,
            Ty::PySsizeT => FfiType::SsizeInt,
            Ty::Void => FfiType::Unit,
        }
    }

    /// Whether a slot may declare this kind as an argument: extraction is
    /// defined only for reference-valued kinds and the comparison code.
    pub open spec fn is_argument_kind(self) -> bool {
        match self {
            Ty::Object | Ty::ObjectOrNotImplemented | Ty::NonNullObject | Ty::CompareOp => true,
            Ty::Int | Ty::PyHashT | Ty::PySsizeT | Ty::Void => false,
        }
    }
}

/// The closed enumeration of rich-comparison operators.
#[derive(Clone, Copy, Debug, PartialEq, Eq, Structural)]
pub enum CompareOp {
    Lt,
    Le,
    Eq,
    Ne,
    Gt,
    Ge,
}

/// The raw operator code each comparison operator stands for in the foreign
/// calling convention.
pub open spec fn spec_compare_op_from_raw(raw: i32) -> Option<CompareOp> {
    if raw == 0 {
        Some(CompareOp::Lt)
    } else if raw == 1 {
        Some(CompareOp::Le)
    } else if raw == 2 {
        Some(CompareOp::Eq)
    } else if raw == 3 {
        Some(CompareOp::Ne)
    } else if raw == 4 {
        Some(CompareOp::Gt)
    } else if raw == 5 {
        Some(CompareOp::Ge)
    } else {
        None
    }
}

impl CompareOp {
    /// Decode a raw comparison-operator code; any code outside the closed
    /// enumeration is rejected.
    pub fn from_raw(raw: i32) -> (r: Option<CompareOp>)
        ensures
            r == spec_compare_op_from_raw(raw),
    {
        if raw == 0 {
            Some(CompareOp::Lt)
        } else if raw == 1 {
            Some(CompareOp::Le)
        } else if raw == 2 {
            Some(CompareOp::Eq)
        } else if raw == 3 {
            Some(CompareOp::Ne)
        } else if raw == 4 {
            Some(CompareOp::Gt)
        } else if raw == 5 {
            Some(CompareOp::Ge)
        } else {
            None
        }
    }
}

} // verus!
