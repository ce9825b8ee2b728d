//! The call-time discipline of the generated wrappers: extraction fallback,
//! the hard comparison-code error, receiver-returning in-place operators,
//! fault containment, attribute-lookup precedence, accessor round trips,
//! and cooperative fragment composition.

use pymethod_backend::fragment::pyproto_fragment;
use pymethod_backend::method::Deprecations;
use pymethod_backend::method::FnArg;
use pymethod_backend::method::FnType;
use pymethod_backend::method::MethodSpec;
use pymethod_backend::method::SelfType;
use pymethod_backend::property::Field;
use pymethod_backend::property::FieldIdent;
use pymethod_backend::property::GetterKind;
use pymethod_backend::property::PropertyType;
use pymethod_backend::property::SetterKind;
use pymethod_backend::property::impl_py_getter_def;
use pymethod_backend::property::impl_py_setter_def;
use pymethod_backend::rust_type::RustType;
use pymethod_backend::rust_type::TypePath;
use pymethod_backend::runtime::ErrKind;
use pymethod_backend::runtime::ExtractOutcome;
use pymethod_backend::runtime::FragmentResult;
use pymethod_backend::runtime::GetattrAction;
use pymethod_backend::runtime::Heap;
use pymethod_backend::runtime::NativeOutcome;
use pymethod_backend::runtime::ObjCell;
use pymethod_backend::runtime::RawArg;
use pymethod_backend::runtime::RetValue;
use pymethod_backend::runtime::SlotOutcome;
use pymethod_backend::runtime::apply_conversion;
use pymethod_backend::runtime::apply_return_plan;
use pymethod_backend::runtime::extract_call_args;
use pymethod_backend::runtime::getattr_preamble;
use pymethod_backend::runtime::run_field_getter;
use pymethod_backend::runtime::run_field_setter;
use pymethod_backend::runtime::run_type_slot;
use pymethod_backend::runtime::try_fragments;
use pymethod_backend::slot_def::ConversionKind;
use pymethod_backend::slot_def::ReturnPlan;
use pymethod_backend::slot_def::pyproto;
use pymethod_backend::ty::CompareOp;
use pymethod_backend::ty::ExtractErrorMode;
use pymethod_backend::ty::Ty;

const INT_TAG: u64 = 7;
const STR_TAG: u64 = 8;

fn cell(tag: u64) -> ObjCell {
    ObjCell {
        refcount: 1,
        type_tag: tag,
        fields: Vec::new(),
        mut_borrowed: false,
        shared_borrows: 0,
    }
}

/// Two objects: index 0 carries the integer tag, index 1 the string tag.
fn two_object_heap() -> Heap {
    Heap { cells: vec![cell(INT_TAG), cell(STR_TAG)] }
}

#[test]
fn compare_op_codes_decode_exactly() {
    assert_eq!(CompareOp::from_raw(0), Some(CompareOp::Lt));
    assert_eq!(CompareOp::from_raw(1), Some(CompareOp::Le));
    assert_eq!(CompareOp::from_raw(2), Some(CompareOp::Eq));
    assert_eq!(CompareOp::from_raw(3), Some(CompareOp::Ne));
    assert_eq!(CompareOp::from_raw(4), Some(CompareOp::Gt));
    assert_eq!(CompareOp::from_raw(5), Some(CompareOp::Ge));
    assert_eq!(CompareOp::from_raw(6), None);
    assert_eq!(CompareOp::from_raw(-1), None);
}

#[test]
fn fallback_operand_failure_yields_not_implemented() {
    let heap = two_object_heap();
    // The operand at index 1 carries the string tag; the slot expects the
    // integer tag, so the typed conversion fails and the slot defers.
    let r = extract_call_args(
        &vec![Ty::ObjectOrNotImplemented],
        ExtractErrorMode::NotImplemented,
        &vec![RawArg::Obj(1)],
        &vec![INT_TAG],
        &heap,
    );
    assert!(matches!(r, ExtractOutcome::Fallback));
}

#[test]
fn propagating_mode_raises_type_error_on_plain_object_failure() {
    let heap = two_object_heap();
    let r = extract_call_args(
        &vec![Ty::Object],
        ExtractErrorMode::Raise,
        &vec![RawArg::Obj(1)],
        &vec![INT_TAG],
        &heap,
    );
    assert!(matches!(r, ExtractOutcome::Raised(ErrKind::TypeError)));
}

#[test]
fn invalid_compare_code_is_a_value_error_even_in_fallback_mode() {
    let heap = two_object_heap();
    // The rich-comparison convention: a fallback operand, then the code.
    let r = extract_call_args(
        &vec![Ty::ObjectOrNotImplemented, Ty::CompareOp],
        ExtractErrorMode::NotImplemented,
        &vec![RawArg::Obj(0), RawArg::Code(17)],
        &vec![INT_TAG, 0],
        &heap,
    );
    assert!(matches!(r, ExtractOutcome::Raised(ErrKind::ValueError)));
}

#[test]
fn successful_extraction_converts_every_argument() {
    let heap = two_object_heap();
    let r = extract_call_args(
        &vec![Ty::ObjectOrNotImplemented, Ty::CompareOp],
        ExtractErrorMode::NotImplemented,
        &vec![RawArg::Obj(0), RawArg::Code(2)],
        &vec![INT_TAG, 0],
        &heap,
    );
    match r {
        ExtractOutcome::Converted(v) => assert_eq!(v.len(), 2),
        _ => panic!("expected a full conversion"),
    }
}

#[test]
fn return_receiver_increments_ownership_by_exactly_one() {
    let mut heap = two_object_heap();
    let r = apply_return_plan(
        ReturnPlan::ReturnReceiver,
        0,
        NativeOutcome::Returned(RetValue::Unit),
        &mut heap,
    );
    assert_eq!(r, SlotOutcome::Value(RetValue::Obj(0)));
    assert_eq!(heap.cells[0].refcount, 2);
    assert_eq!(heap.cells[1].refcount, 1);
}

#[test]
fn failing_native_call_leaves_ownership_unchanged_and_propagates() {
    let mut heap = two_object_heap();
    let r = apply_return_plan(
        ReturnPlan::ReturnReceiver,
        0,
        NativeOutcome::Raised(ErrKind::ValueError),
        &mut heap,
    );
    assert_eq!(r, SlotOutcome::Raised(ErrKind::ValueError));
    assert_eq!(heap.cells[0].refcount, 1);
}

#[test]
fn native_fault_is_contained_at_the_trampoline_edge() {
    let mut heap = two_object_heap();
    // A deliberately faulting native function: the fault must be converted
    // into the runtime's error representation, never unwind further.
    let r = apply_return_plan(ReturnPlan::Direct, 0, NativeOutcome::Panicked, &mut heap);
    assert_eq!(r, SlotOutcome::Raised(ErrKind::NativePanic));
    assert_eq!(heap.cells[0].refcount, 1);

    let d = pyproto("__len__").unwrap();
    let mut heap = two_object_heap();
    let (outcome, called) = run_type_slot(
        &d,
        0,
        &Vec::new(),
        &Vec::new(),
        None,
        NativeOutcome::Panicked,
        &mut heap,
    );
    assert!(called);
    assert_eq!(outcome, SlotOutcome::Raised(ErrKind::NativePanic));
}

#[test]
fn hash_output_normalizes_the_reserved_value_in_one_place() {
    assert_eq!(
        apply_conversion(ConversionKind::HashCallbackOutput, RetValue::Int(7)),
        SlotOutcome::Value(RetValue::Int(7))
    );
    assert_eq!(
        apply_conversion(ConversionKind::HashCallbackOutput, RetValue::Int(-1)),
        SlotOutcome::Value(RetValue::Int(-2))
    );
}

#[test]
fn iterator_output_keeps_yielded_and_exhausted_apart() {
    assert_eq!(
        apply_conversion(ConversionKind::IterNextOutput, RetValue::Yielded(4)),
        SlotOutcome::Value(RetValue::Obj(4))
    );
    assert_eq!(
        apply_conversion(ConversionKind::IterNextOutput, RetValue::Exhausted),
        SlotOutcome::Raised(ErrKind::StopIteration)
    );
    assert_eq!(
        apply_conversion(ConversionKind::AIterNextOutput, RetValue::Exhausted),
        SlotOutcome::Raised(ErrKind::StopAsyncIteration)
    );
}

#[test]
fn generic_lookup_success_shadows_the_custom_hook() {
    // A call counter around the hook decision: the hook body runs only when
    // the generic lookup failed.
    let mut hook_calls = 0;
    for (existing, expect_hook) in [(Some(5usize), false), (None, true)] {
        match getattr_preamble(existing) {
            GetattrAction::UseExisting(v) => assert_eq!(Some(v), existing),
            GetattrAction::InvokeHook => hook_calls += 1,
        }
        assert_eq!(hook_calls > 0, expect_hook);
    }
    assert_eq!(hook_calls, 1);
}

#[test]
fn getattr_slot_invokes_native_iff_lookup_fails() {
    let d = pyproto("__getattr__").unwrap();

    let mut heap = two_object_heap();
    let (outcome, native_called) = run_type_slot(
        &d,
        0,
        &vec![RawArg::Obj(1)],
        &vec![STR_TAG],
        Some(1),
        NativeOutcome::Returned(RetValue::Obj(0)),
        &mut heap,
    );
    assert!(!native_called);
    assert_eq!(outcome, SlotOutcome::Value(RetValue::Obj(1)));

    let mut heap = two_object_heap();
    let (outcome, native_called) = run_type_slot(
        &d,
        0,
        &vec![RawArg::Obj(1)],
        &vec![STR_TAG],
        None,
        NativeOutcome::Returned(RetValue::Obj(0)),
        &mut heap,
    );
    assert!(native_called);
    assert_eq!(outcome, SlotOutcome::Value(RetValue::Obj(0)));
}

#[test]
fn inplace_add_slot_returns_the_receiver() {
    let d = pyproto("__iadd__").unwrap();
    let mut heap = two_object_heap();
    let (outcome, native_called) = run_type_slot(
        &d,
        0,
        &vec![RawArg::Obj(1)],
        &vec![STR_TAG],
        None,
        NativeOutcome::Returned(RetValue::Unit),
        &mut heap,
    );
    assert!(native_called);
    assert_eq!(outcome, SlotOutcome::Value(RetValue::Obj(0)));
    assert_eq!(heap.cells[0].refcount, 2);

    // Operand of the wrong type: the slot defers, the native function is
    // never invoked, the ownership count stands.
    let mut heap = two_object_heap();
    let (outcome, native_called) = run_type_slot(
        &d,
        0,
        &vec![RawArg::Obj(1)],
        &vec![INT_TAG],
        None,
        NativeOutcome::Returned(RetValue::Unit),
        &mut heap,
    );
    assert!(!native_called);
    assert_eq!(outcome, SlotOutcome::NotImplemented);
    assert_eq!(heap.cells[0].refcount, 1);
}

#[test]
fn field_getter_reads_the_stored_value() {
    let mut heap = two_object_heap();
    heap.cells[0].fields = vec![10, 20, 30];
    assert_eq!(run_field_getter(&heap, 0, 2), Ok(30));
}

#[test]
fn setter_then_getter_round_trips_the_value() {
    let mut heap = two_object_heap();
    heap.cells[0].fields = vec![0, 0];
    assert_eq!(run_field_setter(&mut heap, 0, 1, 42), Ok(()));
    assert_eq!(run_field_getter(&heap, 0, 1), Ok(42));
    assert_eq!(run_field_getter(&heap, 0, 0), Ok(0));
}

#[test]
fn generated_accessor_pair_round_trips_a_value() {
    let cls = RustType::Path(TypePath { segments: vec!["MyClass".to_string()] });

    // A native setter declared as (receiver, context, value) generates
    // a method-backed accessor.
    let st = SelfType::Receiver { mutable: true };
    let setter_spec = MethodSpec {
        tp: FnType::Setter(st),
        name: "set_value".to_string(),
        python_name: "value".to_string(),
        args: vec![
            FnArg { py: true, ty: RustType::Other },
            FnArg { py: false, ty: RustType::Other },
        ],
        doc: String::new(),
        deprecations: Deprecations { notes: Vec::new() },
    };
    let pt = PropertyType::Function { self_type: &st, spec: &setter_spec };
    let generated = impl_py_setter_def(&cls, &pt).unwrap();
    assert!(matches!(generated.kind, SetterKind::MethodCall(ref c) if c.pass_py));

    // A field-backed pair over the same positional index: writing through
    // the generated setter and reading through the matching getter returns
    // the value unchanged.
    let field = Field {
        ident: Some(FieldIdent { raw: false, name: "value".to_string() }),
        doc: String::new(),
    };
    let pt = PropertyType::Descriptor { field_index: 1, field: &field, python_name: None };
    let setter = impl_py_setter_def(&cls, &pt).unwrap();
    let getter = impl_py_getter_def(&cls, &pt).unwrap();
    assert!(matches!(setter.kind, SetterKind::NamedField(_)));
    assert!(matches!(getter.kind, GetterKind::NamedField(_)));

    let mut heap = two_object_heap();
    heap.cells[0].fields = vec![0, 0, 0];
    assert_eq!(run_field_setter(&mut heap, 0, 1, -77), Ok(()));
    assert_eq!(run_field_getter(&heap, 0, 1), Ok(-77));
}

#[test]
fn conflicting_borrows_fail_recoverably() {
    let mut heap = two_object_heap();
    heap.cells[0].fields = vec![1];
    heap.cells[0].mut_borrowed = true;
    assert_eq!(run_field_getter(&heap, 0, 0), Err(ErrKind::BorrowError));
    assert_eq!(run_field_setter(&mut heap, 0, 0, 9), Err(ErrKind::BorrowError));
    assert_eq!(heap.cells[0].fields, vec![1]);

    heap.cells[0].mut_borrowed = false;
    heap.cells[0].shared_borrows = 2;
    assert_eq!(run_field_getter(&heap, 0, 0), Ok(1));
    assert_eq!(run_field_setter(&mut heap, 0, 0, 9), Err(ErrKind::BorrowError));
}

#[test]
fn fragment_composition_tries_add_before_radd() {
    // Both fragments of the shared arithmetic slot are registered; the
    // operands only suit the reflected one.  The forward fragment is tried
    // first and reports "not applicable"; composition then succeeds through
    // the reflected fragment.
    let add = pyproto_fragment("__add__").unwrap();
    let radd = pyproto_fragment("__radd__").unwrap();
    let heap = two_object_heap();

    let mut tried = Vec::new();
    let mut results = Vec::new();
    for def in [&add, &radd] {
        let extraction = extract_call_args(
            &def.arguments,
            def.extract_error_mode,
            &vec![RawArg::Obj(1)],
            // The forward fragment expects the integer tag and fails;
            // the reflected fragment expects the string tag and converts.
            &vec![if tried.is_empty() { INT_TAG } else { STR_TAG }],
            &heap,
        );
        tried.push(def.fragment.clone());
        results.push(match extraction {
            ExtractOutcome::Fallback => FragmentResult::NotApplicable,
            ExtractOutcome::Raised(e) => FragmentResult::Raised(e),
            ExtractOutcome::Converted(_) => FragmentResult::Value(RetValue::Obj(0)),
        });
    }
    assert_eq!(tried, vec!["__add__", "__radd__"]);
    assert_eq!(results[0], FragmentResult::NotApplicable);
    assert_eq!(try_fragments(&results), FragmentResult::Value(RetValue::Obj(0)));
}

#[test]
fn fragment_composition_with_no_applicable_fragment_defers() {
    let results = vec![FragmentResult::NotApplicable, FragmentResult::NotApplicable];
    assert_eq!(try_fragments(&results), FragmentResult::NotApplicable);
    assert_eq!(try_fragments(&Vec::new()), FragmentResult::NotApplicable);
}

#[test]
fn first_applicable_fragment_decides_even_when_it_raises() {
    let results = vec![
        FragmentResult::NotApplicable,
        FragmentResult::Raised(ErrKind::TypeError),
        FragmentResult::Value(RetValue::Obj(3)),
    ];
    assert_eq!(try_fragments(&results), FragmentResult::Raised(ErrKind::TypeError));
}
