//! A small model of the native type syntax that trampoline generation has to
//! read: enough to unwrap parenthesised groups, follow references, and
//! rewrite `Self` to the concrete receiver type before a borrowed extraction
//! is emitted.  The rewrite is a purely lexical tree transformation.

use vstd::prelude::*;

use crate::strutil::clone_strings;
use crate::strutil::str_eq;

verus! {

/// A path type, as a sequence of segment names (`a::b::C`).
#[derive(Debug)]
pub struct TypePath {
    pub segments: Vec<String>,
}

impl View for TypePath {
    type V = Seq<Seq<char>>;

    open spec fn view(&self) -> Seq<Seq<char>> {
        Seq::new(self.segments@.len(), |i: int| self.segments@[i]@)
    }
}

impl TypePath {
    /// A path of a single plain segment names an identifier.
    pub open spec fn spec_get_ident(self) -> Option<Seq<char>> {
        if self@.len() == 1 {
            Some(self@[0])
        } else {
            None
        }
    }

    /// A copy of the path with the same segments.
    pub fn dup(&self) -> (r: TypePath)
        ensures
            r@ == self@,
    {
        let r = TypePath { segments: clone_strings(&self.segments) };
        proof {
            assert(r@ =~= self@);
        }
        r
    }
}

/// A reference type: optional lifetime, mutability, and the referent.
#[derive(Debug)]
pub struct TypeReference {
    pub has_lifetime: bool,
    pub mutable: bool,
    pub elem: Box<RustType>,
}

/// The shapes of native types the generator inspects; anything else is
/// carried through opaquely.
#[derive(Debug)]
pub enum RustType {
    Path(TypePath),
    Reference(TypeReference),
    Group(Box<RustType>),
    Other,
}

/// Ghost mirror of `TypeReference`.
#[verifier::ext_equal]
pub struct TypeReferenceV {
    pub has_lifetime: bool,
    pub mutable: bool,
    pub elem: Box<RustTypeV>,
}

/// Ghost mirror of `RustType`.
#[verifier::ext_equal]
pub enum RustTypeV {
    Path(Seq<Seq<char>>),
    Reference(TypeReferenceV),
    Group(Box<RustTypeV>),
    Other,
}

impl View for TypeReference {
    type V = TypeReferenceV;

    open spec fn view(&self) -> TypeReferenceV
        decreases self,
    {
        TypeReferenceV {
            has_lifetime: self.has_lifetime,
            mutable: self.mutable,
            elem: Box::new((*self.elem)@),
        }
    }
}

impl View for RustType {
    type V = RustTypeV;

    open spec fn view(&self) -> RustTypeV
        decreases self,
    {
        match self {
            RustType::Path(p) => RustTypeV::Path(p@),
            RustType::Reference(r) => RustTypeV::Reference(r@),
            RustType::Group(inner) => RustTypeV::Group(Box::new((**inner)@)),
            RustType::Other => RustTypeV::Other,
        }
    }
}

impl RustType {
    /// A copy of the type with the same structure.
    pub fn dup(&self) -> (r: RustType)
        ensures
            r@ == self@,
        decreases self,
    {
        match self {
            RustType::Path(p) => RustType::Path(p.dup()),
            RustType::Reference(tref) => RustType::Reference(tref.dup()),
            RustType::Group(inner) => RustType::Group(Box::new(inner.dup())),
            RustType::Other => RustType::Other,
        }
    }
}

impl TypeReference {
    /// A copy of the reference type with the same structure.
    pub fn dup(&self) -> (r: TypeReference)
        ensures
            r@ == self@,
        decreases self,
    {
        TypeReference {
            has_lifetime: self.has_lifetime,
            mutable: self.mutable,
            elem: Box::new(self.elem.dup()),
        }
    }
}

/// Strip parenthesised groups from around a type.
pub open spec fn spec_unwrap_ty_group(ty: RustTypeV) -> RustTypeV
    decreases ty,
{
    match ty {
        RustTypeV::Group(inner) => spec_unwrap_ty_group(*inner),
        _ => ty,
    }
}

/// Strip parenthesised groups from around a type.
pub fn unwrap_ty_group(ty: &RustType) -> (r: &RustType)
    ensures
        r@ == spec_unwrap_ty_group(ty@),
    decreases ty,
{
    match ty {
        RustType::Group(inner) => unwrap_ty_group(inner),
        _ => ty,
    }
}

/// `Self` rewritten to `self_path` where it stands as the referent of a
/// (chain of) reference types.
pub open spec fn spec_replace_self(tref: TypeReferenceV, self_path: Seq<Seq<char>>) -> TypeReferenceV
    decreases tref,
{
    TypeReferenceV {
        has_lifetime: tref.has_lifetime,
        mutable: tref.mutable,
        elem: Box::new(
            match *tref.elem {
                RustTypeV::Reference(inner) => RustTypeV::Reference(
                    spec_replace_self(inner, self_path),
                ),
                RustTypeV::Path(segs) => {
                    if segs.len() == 1 && segs[0] == "Self"@ {
                        RustTypeV::Path(self_path)
                    } else {
                        RustTypeV::Path(segs)
                    }
                },
                other => other,
            },
        ),
    }
}

/// Rewrite `Self` to the concrete receiver path, since the emitted code
/// stands outside the receiver's `impl` block.
pub fn replace_self(tref: TypeReference, self_path: &TypePath) -> (r: TypeReference)
    ensures
        r@ == spec_replace_self(tref@, self_path@),
    decreases tref,
{
    let TypeReference { has_lifetime, mutable, elem } = tref;
    let new_elem: RustType = match *elem {
        RustType::Reference(inner) => RustType::Reference(replace_self(inner, self_path)),
        RustType::Path(tpath) => {
            if tpath.segments.len() == 1 && str_eq(tpath.segments[0].as_str(), "Self") {
                RustType::Path(self_path.dup())
            } else {
                RustType::Path(tpath)
            }
        },
        other => other,
    };
    TypeReference { has_lifetime, mutable, elem: Box::new(new_elem) }
}

/// The outcome of preparing a reference type for a borrowed extraction:
/// `Self` resolved, lifetime erased, mutability read off the declaration.
pub open spec fn spec_preprocess_tref(tref: TypeReferenceV, self_: RustTypeV) -> (
    TypeReferenceV,
    bool,
) {
    let replaced = match self_ {
        RustTypeV::Path(p) => spec_replace_self(tref, p),
        _ => tref,
    };
    let erased = TypeReferenceV { has_lifetime: false, ..replaced };
    (erased, erased.mutable)
}

/// Resolve `Self`, erase the lifetime, and read the borrow's mutability from
/// the declared reference type.
pub fn preprocess_tref(tref: &TypeReference, self_: &RustType) -> (r: (TypeReference, bool))
    ensures
        r.0@ == spec_preprocess_tref(tref@, self_@).0,
        r.1 == spec_preprocess_tref(tref@, self_@).1,
{
    let mut tref = tref.dup();
    match self_ {
        RustType::Path(tpath) => {
            tref = replace_self(tref, tpath);
        },
        _ => {},
    }
    tref.has_lifetime = false;
    let mut_ = tref.mutable;
    (tref, mut_)
}

} // verus!
