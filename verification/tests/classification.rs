//! The two registries and the top-level classifier.

use pymethod_backend::errors::DefError;
use pymethod_backend::fragment::pyproto_fragment;
use pymethod_backend::method::Deprecations;
use pymethod_backend::method::FnType;
use pymethod_backend::method::GenericParamKind;
use pymethod_backend::method::MethodSpec;
use pymethod_backend::method::PyFunctionOptions;
use pymethod_backend::method::SelfType;
use pymethod_backend::method::Signature;
use pymethod_backend::method::check_generic;
use pymethod_backend::method::ensure_function_options_valid;
use pymethod_backend::method::ensure_not_async_fn;
use pymethod_backend::pymethod::GeneratedPyMethod;
use pymethod_backend::pymethod::MethodFlag;
use pymethod_backend::pymethod::PyMethodDefType;
use pymethod_backend::pymethod::gen_py_method;
use pymethod_backend::rust_type::RustType;
use pymethod_backend::rust_type::TypePath;
use pymethod_backend::slot_def::BeforeCall;
use pymethod_backend::slot_def::ConversionKind;
use pymethod_backend::slot_def::ReturnMode;
use pymethod_backend::slot_def::pyproto;
use pymethod_backend::ty::ExtractErrorMode;
use pymethod_backend::ty::Ty;

fn cls() -> RustType {
    RustType::Path(TypePath { segments: vec!["MyClass".to_string()] })
}

fn plain_sig() -> Signature {
    Signature { generics: Vec::new(), asyncness: false }
}

fn spec_named(python_name: &str, tp: FnType) -> MethodSpec {
    MethodSpec {
        tp,
        name: "native_impl".to_string(),
        python_name: python_name.to_string(),
        args: Vec::new(),
        doc: "docs".to_string(),
        deprecations: Deprecations { notes: Vec::new() },
    }
}

#[test]
fn pyproto_inplace_add_entry() {
    let d = pyproto("__iadd__").unwrap();
    assert_eq!(d.slot, "Py_nb_inplace_add");
    assert_eq!(d.func_ty, "binaryfunc");
    assert_eq!(d.arguments, vec![Ty::ObjectOrNotImplemented]);
    assert_eq!(d.ret_ty, Ty::Object);
    assert_eq!(d.extract_error_mode, ExtractErrorMode::NotImplemented);
    assert_eq!(d.return_mode, Some(ReturnMode::ReturnSelf));
    assert!(d.before_call_method.is_none());
}

#[test]
fn pyproto_hash_entry() {
    let d = pyproto("__hash__").unwrap();
    assert_eq!(d.slot, "Py_tp_hash");
    assert_eq!(d.func_ty, "hashfunc");
    assert_eq!(d.ret_ty, Ty::PyHashT);
    assert_eq!(
        d.return_mode,
        Some(ReturnMode::Conversion(ConversionKind::HashCallbackOutput))
    );
}

#[test]
fn pyproto_richcmp_entry() {
    let d = pyproto("__richcmp__").unwrap();
    assert_eq!(d.slot, "Py_tp_richcompare");
    assert_eq!(d.arguments, vec![Ty::ObjectOrNotImplemented, Ty::CompareOp]);
    assert_eq!(d.extract_error_mode, ExtractErrorMode::NotImplemented);
}

#[test]
fn pyproto_getattr_has_lookup_hook() {
    let d = pyproto("__getattr__").unwrap();
    assert_eq!(d.slot, "Py_tp_getattro");
    assert_eq!(d.before_call_method, Some(BeforeCall::GenericGetattrFallback));
    assert_eq!(d.arguments, vec![Ty::Object]);
}

#[test]
fn pyproto_bool_returns_c_int() {
    let d = pyproto("__bool__").unwrap();
    assert_eq!(d.slot, "Py_nb_bool");
    assert_eq!(d.func_ty, "inquiry");
    assert_eq!(d.ret_ty, Ty::Int);
}

#[test]
fn pyproto_misses_ordinary_and_fragment_names() {
    assert!(pyproto("__init__").is_none());
    assert!(pyproto("__add__").is_none());
    assert!(pyproto("frobnicate").is_none());
}

#[test]
fn fragment_add_and_radd_entries() {
    for name in ["__add__", "__radd__"] {
        let d = pyproto_fragment(name).unwrap();
        assert_eq!(d.fragment, name);
        assert_eq!(d.arguments, vec![Ty::ObjectOrNotImplemented]);
        assert_eq!(d.extract_error_mode, ExtractErrorMode::NotImplemented);
        assert_eq!(d.ret_ty, Ty::Object);
    }
}

#[test]
fn fragment_setattr_and_pow_entries() {
    let d = pyproto_fragment("__setattr__").unwrap();
    assert_eq!(d.arguments, vec![Ty::Object, Ty::NonNullObject]);
    assert_eq!(d.extract_error_mode, ExtractErrorMode::Raise);
    assert_eq!(d.ret_ty, Ty::Void);

    let d = pyproto_fragment("__pow__").unwrap();
    assert_eq!(
        d.arguments,
        vec![Ty::ObjectOrNotImplemented, Ty::ObjectOrNotImplemented]
    );
    assert_eq!(d.ret_ty, Ty::Object);
}

#[test]
fn fragment_misses_slot_names() {
    assert!(pyproto_fragment("__iadd__").is_none());
    assert!(pyproto_fragment("__hash__").is_none());
}

#[test]
fn check_generic_accepts_lifetimes_rejects_types_and_consts() {
    let ok = Signature { generics: vec![GenericParamKind::Lifetime], asyncness: false };
    assert!(check_generic(&ok).is_ok());

    let ty = Signature {
        generics: vec![GenericParamKind::Lifetime, GenericParamKind::Type],
        asyncness: false,
    };
    assert_eq!(check_generic(&ty), Err(DefError::GenericTypeParam));

    let konst = Signature { generics: vec![GenericParamKind::Const], asyncness: false };
    assert_eq!(check_generic(&konst), Err(DefError::GenericConstParam));
}

#[test]
fn async_and_pass_module_are_definition_errors() {
    let sig = Signature { generics: Vec::new(), asyncness: true };
    assert_eq!(ensure_not_async_fn(&sig), Err(DefError::AsyncFunction));

    let options = PyFunctionOptions { pass_module: true };
    assert_eq!(ensure_function_options_valid(&options), Err(DefError::PassModule));

    let spec = spec_named("__len__", FnType::Fn(SelfType::Receiver { mutable: false }));
    let r = gen_py_method(&cls(), &sig, &spec, &PyFunctionOptions { pass_module: false });
    assert_eq!(r.err(), Some(DefError::AsyncFunction));

    let r = gen_py_method(&cls(), &plain_sig(), &spec, &options);
    assert_eq!(r.err(), Some(DefError::PassModule));
}

#[test]
fn gen_py_method_classifies_slot_protocol() {
    let spec = spec_named("__iadd__", FnType::Fn(SelfType::Receiver { mutable: false }));
    let r = gen_py_method(&cls(), &plain_sig(), &spec, &PyFunctionOptions { pass_module: false });
    match r.unwrap() {
        GeneratedPyMethod::Proto(t) => {
            assert_eq!(t.slot, "Py_nb_inplace_add");
            assert_eq!(t.func_ty, "binaryfunc");
            assert_eq!(
                t.method_arguments,
                vec![pymethod_backend::ty::FfiType::ObjectPtr]
            );
            assert_eq!(t.ret_ty, pymethod_backend::ty::FfiType::ObjectPtr);
            assert_eq!(
                t.body.return_plan,
                pymethod_backend::slot_def::ReturnPlan::ReturnReceiver
            );
        }
        _ => panic!("expected a whole-slot trampoline"),
    }
}

#[test]
fn gen_py_method_classifies_fragment() {
    let spec = spec_named("__radd__", FnType::Fn(SelfType::Receiver { mutable: false }));
    let r = gen_py_method(&cls(), &plain_sig(), &spec, &PyFunctionOptions { pass_module: false });
    match r.unwrap() {
        GeneratedPyMethod::SlotTraitImpl(name, f) => {
            assert_eq!(name, "__radd__");
            assert_eq!(f.fragment_trait, "PyClass__radd__SlotFragment");
            assert_eq!(f.method, "__radd__");
            assert_eq!(f.ret_ty, pymethod_backend::ty::FfiType::ObjectPtr);
        }
        _ => panic!("expected a slot fragment"),
    }
}

#[test]
fn gen_py_method_falls_back_to_ordinary_method() {
    let spec = spec_named("frobnicate", FnType::Fn(SelfType::Receiver { mutable: false }));
    let r = gen_py_method(&cls(), &plain_sig(), &spec, &PyFunctionOptions { pass_module: false });
    match r.unwrap() {
        GeneratedPyMethod::Method(PyMethodDefType::Method(d)) => {
            assert_eq!(d.python_name, "frobnicate\0");
            assert_eq!(d.doc, "docs");
            assert_eq!(d.flags, None);
            assert_eq!(d.wrapper.name, "native_impl");
        }
        _ => panic!("expected an ordinary method definition"),
    }
}

#[test]
fn gen_py_method_tags_class_and_static_methods() {
    let spec = spec_named("make", FnType::FnClass);
    let r = gen_py_method(&cls(), &plain_sig(), &spec, &PyFunctionOptions { pass_module: false });
    match r.unwrap() {
        GeneratedPyMethod::Method(PyMethodDefType::Class(d)) => {
            assert_eq!(d.flags, Some(MethodFlag::MethClass));
        }
        _ => panic!("expected a class method definition"),
    }

    let spec = spec_named("build", FnType::FnStatic);
    let r = gen_py_method(&cls(), &plain_sig(), &spec, &PyFunctionOptions { pass_module: false });
    match r.unwrap() {
        GeneratedPyMethod::Method(PyMethodDefType::Static(d)) => {
            assert_eq!(d.flags, Some(MethodFlag::MethStatic));
        }
        _ => panic!("expected a static method definition"),
    }
}

#[test]
fn gen_py_method_routes_new_call_and_class_attribute() {
    let spec = spec_named("__new__", FnType::FnNew);
    let r = gen_py_method(&cls(), &plain_sig(), &spec, &PyFunctionOptions { pass_module: false });
    assert!(matches!(
        r.unwrap(),
        GeneratedPyMethod::TraitImpl(t)
            if t.kind == pymethod_backend::pymethod::TraitImplKind::New
    ));

    let spec = spec_named("__call__", FnType::FnCall(SelfType::Receiver { mutable: false }));
    let r = gen_py_method(&cls(), &plain_sig(), &spec, &PyFunctionOptions { pass_module: false });
    assert!(matches!(
        r.unwrap(),
        GeneratedPyMethod::TraitImpl(t)
            if t.kind == pymethod_backend::pymethod::TraitImplKind::Call
    ));

    let spec = spec_named("LIMIT", FnType::ClassAttribute);
    let r = gen_py_method(&cls(), &plain_sig(), &spec, &PyFunctionOptions { pass_module: false });
    match r.unwrap() {
        GeneratedPyMethod::Method(PyMethodDefType::ClassAttribute(d)) => {
            assert_eq!(d.python_name, "LIMIT\0");
            assert_eq!(d.name, "native_impl");
        }
        _ => panic!("expected a class attribute definition"),
    }
}
