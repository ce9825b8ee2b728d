//! The lexical rewrite of requested native types before a borrowed
//! extraction: `Self` resolution, lifetime erasure, group unwrapping.

use pymethod_backend::extract::ExtractDest;
use pymethod_backend::extract::ExtractStep;
use pymethod_backend::rust_type::RustType;
use pymethod_backend::rust_type::TypePath;
use pymethod_backend::rust_type::TypeReference;
use pymethod_backend::rust_type::preprocess_tref;
use pymethod_backend::rust_type::replace_self;
use pymethod_backend::rust_type::unwrap_ty_group;
use pymethod_backend::ty::Ty;

fn path(segments: &[&str]) -> TypePath {
    TypePath { segments: segments.iter().map(|s| s.to_string()).collect() }
}

fn self_ref(mutable: bool) -> TypeReference {
    TypeReference {
        has_lifetime: true,
        mutable,
        elem: Box::new(RustType::Path(path(&["Self"]))),
    }
}

#[test]
fn replace_self_rewrites_single_segment_self() {
    let rewritten = replace_self(self_ref(true), &path(&["my_mod", "MyClass"]));
    match *rewritten.elem {
        RustType::Path(ref p) => assert_eq!(p.segments, vec!["my_mod", "MyClass"]),
        _ => panic!("expected a path"),
    }
    assert!(rewritten.mutable);
}

#[test]
fn replace_self_descends_through_nested_references() {
    let nested = TypeReference {
        has_lifetime: false,
        mutable: false,
        elem: Box::new(RustType::Reference(self_ref(false))),
    };
    let rewritten = replace_self(nested, &path(&["C"]));
    match *rewritten.elem {
        RustType::Reference(ref inner) => match *inner.elem {
            RustType::Path(ref p) => assert_eq!(p.segments, vec!["C"]),
            _ => panic!("expected a path under the inner reference"),
        },
        _ => panic!("expected a nested reference"),
    }
}

#[test]
fn replace_self_leaves_other_paths_alone() {
    let other = TypeReference {
        has_lifetime: false,
        mutable: false,
        elem: Box::new(RustType::Path(path(&["String"]))),
    };
    let rewritten = replace_self(other, &path(&["C"]));
    match *rewritten.elem {
        RustType::Path(ref p) => assert_eq!(p.segments, vec!["String"]),
        _ => panic!("expected a path"),
    }
}

#[test]
fn preprocess_tref_erases_lifetime_and_reads_mutability() {
    let (prepared, mutable) = preprocess_tref(
        &self_ref(true),
        &RustType::Path(path(&["MyClass"])),
    );
    assert!(!prepared.has_lifetime);
    assert!(mutable);
    match *prepared.elem {
        RustType::Path(ref p) => assert_eq!(p.segments, vec!["MyClass"]),
        _ => panic!("expected the receiver path"),
    }
}

#[test]
fn unwrap_ty_group_strips_nested_groups() {
    let grouped = RustType::Group(Box::new(RustType::Group(Box::new(RustType::Path(path(
        &["T"],
    ))))));
    match unwrap_ty_group(&grouped) {
        RustType::Path(p) => assert_eq!(p.segments, vec!["T"]),
        _ => panic!("expected the inner path"),
    }
}

#[test]
fn extract_steps_follow_kind_and_target_shape() {
    let cls = RustType::Path(path(&["C"]));
    let owned_target = RustType::Path(path(&["u32"]));
    let borrowed_target = RustType::Reference(self_ref(false));

    match Ty::Object.extract(&cls, &owned_target) {
        ExtractStep::FromAny(ExtractDest::Owned) => {}
        _ => panic!("owned extraction expected"),
    }
    match Ty::ObjectOrNotImplemented.extract(&cls, &borrowed_target) {
        ExtractStep::FromAnyOrNotImplemented(ExtractDest::Borrowed(b)) => {
            assert!(!b.mutable);
            assert!(!b.target.has_lifetime);
            match *b.target.elem {
                RustType::Path(ref p) => assert_eq!(p.segments, vec!["C"]),
                _ => panic!("expected the rewritten receiver path"),
            }
        }
        _ => panic!("borrowed fallback extraction expected"),
    }
    match Ty::NonNullObject.extract(&cls, &owned_target) {
        ExtractStep::FromNonNull(ExtractDest::Owned) => {}
        _ => panic!("non-null extraction expected"),
    }
    match Ty::CompareOp.extract(&cls, &owned_target) {
        ExtractStep::DecodeCompareOp => {}
        _ => panic!("comparison-code decode expected"),
    }
}
