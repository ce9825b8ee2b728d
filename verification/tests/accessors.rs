//! Property-accessor generation: name resolution, argument-count
//! validation, and the definition errors.

use pymethod_backend::errors::DefError;
use pymethod_backend::method::Deprecations;
use pymethod_backend::method::FnArg;
use pymethod_backend::method::FnType;
use pymethod_backend::method::MethodSpec;
use pymethod_backend::method::SelfType;
use pymethod_backend::property::Field;
use pymethod_backend::property::FieldIdent;
use pymethod_backend::property::GetterKind;
use pymethod_backend::property::PropertyType;
use pymethod_backend::property::SetterKind;
use pymethod_backend::property::impl_py_getter_def;
use pymethod_backend::property::impl_py_setter_def;
use pymethod_backend::rust_type::RustType;
use pymethod_backend::rust_type::TypePath;
use pymethod_backend::ty::ExtractErrorMode;

fn cls() -> RustType {
    RustType::Path(TypePath { segments: vec!["MyClass".to_string()] })
}

fn value_arg() -> FnArg {
    FnArg { py: false, ty: RustType::Other }
}

fn py_arg() -> FnArg {
    FnArg { py: true, ty: RustType::Other }
}

fn accessor_spec(tp: FnType, args: Vec<FnArg>) -> MethodSpec {
    MethodSpec {
        tp,
        name: "accessor".to_string(),
        python_name: "value".to_string(),
        args,
        doc: "property docs".to_string(),
        deprecations: Deprecations { notes: Vec::new() },
    }
}

fn named_field() -> Field {
    Field {
        ident: Some(FieldIdent { raw: false, name: "count".to_string() }),
        doc: "field docs".to_string(),
    }
}

fn bare_field() -> Field {
    Field { ident: None, doc: String::new() }
}

#[test]
fn named_field_setter_terminates_name_and_borrows_mutably() {
    let field = named_field();
    let pt = PropertyType::Descriptor { field_index: 0, field: &field, python_name: None };
    let d = impl_py_setter_def(&cls(), &pt).unwrap();
    assert_eq!(d.python_name, "count\0");
    assert_eq!(d.doc, "field docs");
    assert_eq!(
        d.receiver.self_type,
        SelfType::Receiver { mutable: true }
    );
    assert_eq!(d.receiver.error_mode, ExtractErrorMode::Raise);
    match d.kind {
        SetterKind::NamedField(id) => assert_eq!(id.name, "count"),
        _ => panic!("expected a named-field write"),
    }
}

#[test]
fn raw_field_identifier_is_unrawed_in_the_exposed_name() {
    let field = Field {
        ident: Some(FieldIdent { raw: true, name: "type".to_string() }),
        doc: String::new(),
    };
    let pt = PropertyType::Descriptor { field_index: 0, field: &field, python_name: None };
    let d = impl_py_getter_def(&cls(), &pt).unwrap();
    assert_eq!(d.python_name, "type\0");
}

#[test]
fn explicit_name_is_taken_as_given() {
    let field = bare_field();
    let explicit = "renamed".to_string();
    let pt = PropertyType::Descriptor {
        field_index: 3,
        field: &field,
        python_name: Some(&explicit),
    };
    let d = impl_py_getter_def(&cls(), &pt).unwrap();
    assert_eq!(d.python_name, "renamed");
    match d.kind {
        GetterKind::IndexedField(k) => assert_eq!(k, 3),
        _ => panic!("expected an indexed-field read"),
    }
    assert_eq!(
        d.receiver.self_type,
        SelfType::Receiver { mutable: false }
    );
}

#[test]
fn positional_field_without_name_is_a_definition_error() {
    let field = bare_field();
    let pt = PropertyType::Descriptor { field_index: 1, field: &field, python_name: None };
    assert_eq!(impl_py_getter_def(&cls(), &pt).err(), Some(DefError::TupleFieldNoName));
    assert_eq!(impl_py_setter_def(&cls(), &pt).err(), Some(DefError::TupleFieldNoName));
}

#[test]
fn setter_argument_counts_are_validated() {
    let st = SelfType::Receiver { mutable: true };

    let none = accessor_spec(FnType::Setter(st), vec![]);
    let pt = PropertyType::Function { self_type: &st, spec: &none };
    assert_eq!(impl_py_setter_def(&cls(), &pt).err(), Some(DefError::SetterNoArguments));

    let too_many = accessor_spec(FnType::Setter(st), vec![value_arg(), value_arg()]);
    let pt = PropertyType::Function { self_type: &st, spec: &too_many };
    assert_eq!(
        impl_py_setter_def(&cls(), &pt).err(),
        Some(DefError::SetterTooManyArguments)
    );

    let with_py = accessor_spec(FnType::Setter(st), vec![py_arg(), value_arg()]);
    let pt = PropertyType::Function { self_type: &st, spec: &with_py };
    let d = impl_py_setter_def(&cls(), &pt).unwrap();
    assert_eq!(d.python_name, "value\0");
    match d.kind {
        SetterKind::MethodCall(c) => {
            assert!(c.pass_py);
            assert_eq!(c.name, "accessor");
        }
        _ => panic!("expected a method-backed setter"),
    }
}

#[test]
fn getter_rejects_value_arguments() {
    let st = SelfType::Receiver { mutable: false };

    let with_value = accessor_spec(FnType::Getter(st), vec![value_arg()]);
    let pt = PropertyType::Function { self_type: &st, spec: &with_value };
    assert_eq!(impl_py_getter_def(&cls(), &pt).err(), Some(DefError::GetterHasArguments));

    let with_py = accessor_spec(FnType::Getter(st), vec![py_arg()]);
    let pt = PropertyType::Function { self_type: &st, spec: &with_py };
    let d = impl_py_getter_def(&cls(), &pt).unwrap();
    match d.kind {
        GetterKind::MethodCall(c) => assert!(c.pass_py),
        _ => panic!("expected a method-backed getter"),
    }
}

#[test]
fn error_messages_name_the_fault() {
    assert_eq!(
        DefError::SetterTooManyArguments.message(),
        "setter function can have at most two arguments ([pyo3::Python,] and value)"
    );
    assert_eq!(
        DefError::GetterHasArguments.message(),
        "getter function can only have one argument (of type pyo3::Python)"
    );
    assert_eq!(
        DefError::TupleFieldNoName.message(),
        "`get` and `set` with tuple struct fields require `name`"
    );
    assert_eq!(
        DefError::GenericTypeParam.message(),
        "Python functions cannot have generic type parameters"
    );
}
