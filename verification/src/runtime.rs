//! The call-time semantics the generated wrappers must implement: what a
//! trampoline does with its raw foreign arguments, the native call's
//! outcome, and the receiver's ownership count.  The generator's policies —
//! fallback-sentinel extraction, the hard comparison-code error, the
//! "return the receiver" conversion, attribute-lookup precedence, fault
//! containment, and cooperative fragment composition — are stated and proved
//! here over a model of the foreign heap.

use vstd::prelude::*;

use crate::ty::CompareOp;
use crate::ty::ExtractErrorMode;
use crate::ty::Ty;
use crate::ty::spec_compare_op_from_raw;

verus! {

/// The error classes a wrapper can leave set in the foreign runtime.
#[derive(Clone, Copy, Debug, PartialEq, Eq, Structural)]
pub enum ErrKind {
    /// A typed conversion failed and the slot propagates failures.
    TypeError,
    /// An operand value is invalid, such as an out-of-range comparison code.
    ValueError,
    /// An attribute is missing or may not be written.
    AttributeError,
    /// The iterator protocol's exhaustion signal.
    StopIteration,
    /// The asynchronous iterator protocol's exhaustion signal.
    StopAsyncIteration,
    /// A conflicting receiver borrow at the point of borrow.
    BorrowError,
    /// A native fault intercepted at the trampoline edge.
    NativePanic,
}

/// One object of the modeled foreign heap: its ownership count, the type tag
/// typed conversion checks against, its data-descriptor fields, and its
/// outstanding borrows.
pub struct ObjCell {
    pub refcount: u64,
    pub type_tag: u64,
    pub fields: Vec<i64>,
    pub mut_borrowed: bool,
    pub shared_borrows: u64,
}

/// Ghost mirror of `ObjCell`.
#[verifier::ext_equal]
pub struct ObjCellV {
    pub refcount: u64,
    pub type_tag: u64,
    pub fields: Seq<i64>,
    pub mut_borrowed: bool,
    pub shared_borrows: u64,
}

impl View for ObjCell {
    type V = ObjCellV;

    open spec fn view(&self) -> ObjCellV {
        ObjCellV {
            refcount: self.refcount,
            type_tag: self.type_tag,
            fields: self.fields@,
            mut_borrowed: self.mut_borrowed,
            shared_borrows: self.shared_borrows,
        }
    }
}

/// The modeled foreign heap: objects addressed by index.
pub struct Heap {
    pub cells: Vec<ObjCell>,
}

impl View for Heap {
    type V = Seq<ObjCellV>;

    open spec fn view(&self) -> Seq<ObjCellV> {
        Seq::new(self.cells@.len(), |i: int| self.cells@[i]@)
    }
}

/// A raw argument as the foreign calling convention hands it over: an object
/// reference, or a raw comparison-operator code.
#[derive(Clone, Copy, Debug, PartialEq, Eq, Structural)]
pub enum RawArg {
    Obj(usize),
    Code(i32),
}

/// One extracted, typed native argument.
#[derive(Clone, Copy, Debug, PartialEq, Eq, Structural)]
pub enum Extracted {
    Obj(usize),
    Cmp(CompareOp),
}

/// The outcome of extracting one argument.
#[derive(Clone, Copy, Debug, PartialEq, Eq, Structural)]
pub enum StepOutcome {
    /// The typed value.
    Got(Extracted),
    /// Conversion failed and this slot defers to a cooperating
    /// implementation.
    Fallback,
    /// Conversion failed hard.
    Raised(ErrKind),
}

/// The outcome of extracting a whole argument list.
pub enum ExtractOutcome {
    /// Every argument converted.
    Converted(Vec<Extracted>),
    /// Some conversion failed and the slot returns the "not implemented"
    /// sentinel.
    Fallback,
    /// Some conversion failed hard.
    Raised(ErrKind),
}

/// Ghost mirror of `ExtractOutcome`.
#[verifier::ext_equal]
pub enum ExtractOutcomeV {
    Converted(Seq<Extracted>),
    Fallback,
    Raised(ErrKind),
}

impl View for ExtractOutcome {
    type V = ExtractOutcomeV;

    open spec fn view(&self) -> ExtractOutcomeV {
        match self {
            ExtractOutcome::Converted(v) => ExtractOutcomeV::Converted(v@),
            ExtractOutcome::Fallback => ExtractOutcomeV::Fallback,
            ExtractOutcome::Raised(e) => ExtractOutcomeV::Raised(*e),
        }
    }
}

/// A raw argument has the shape the declared kind's ABI representation
/// demands, and any object reference it carries is live in the heap.
pub open spec fn arg_matches_kind(kind: Ty, arg: RawArg, heap: Seq<ObjCellV>) -> bool {
    match kind {
        Ty::CompareOp => arg is Code,
        Ty::Object | Ty::ObjectOrNotImplemented | Ty::NonNullObject => arg matches RawArg::Obj(o)
            && o < heap.len(),
        _ => false,
    }
}

/// Extraction of one argument.  Typed conversion of an object succeeds
/// exactly when the object's type tag is the expected one.  A failed
/// conversion of an `ObjectOrNotImplemented` operand always defers; for the
/// other object kinds the slot's error mode decides; an out-of-range
/// comparison code raises a value error under either mode.
pub open spec fn spec_extract_one(
    kind: Ty,
    mode: ExtractErrorMode,
    arg: RawArg,
    expected_tag: u64,
    heap: Seq<ObjCellV>,
) -> StepOutcome
    recommends
        kind.is_argument_kind(),
        arg_matches_kind(kind, arg, heap),
{
    match kind {
        Ty::CompareOp => match arg {
            RawArg::Code(c) => match spec_compare_op_from_raw(c) {
                Some(op) => StepOutcome::Got(Extracted::Cmp(op)),
                None => StepOutcome::Raised(ErrKind::ValueError),
            },
            _ => StepOutcome::Raised(ErrKind::TypeError),
        },
        Ty::ObjectOrNotImplemented => match arg {
            RawArg::Obj(o) => if o < heap.len() && heap[o as int].type_tag == expected_tag {
                StepOutcome::Got(Extracted::Obj(o))
            } else {
                StepOutcome::Fallback
            },
            _ => StepOutcome::Fallback,
        },
        Ty::Object | Ty::NonNullObject => match arg {
            RawArg::Obj(o) => if o < heap.len() && heap[o as int].type_tag == expected_tag {
                StepOutcome::Got(Extracted::Obj(o))
            } else {
                match mode {
                    ExtractErrorMode::Raise => StepOutcome::Raised(ErrKind::TypeError),
                    ExtractErrorMode::NotImplemented => StepOutcome::Fallback,
                }
            },
            _ => StepOutcome::Raised(ErrKind::TypeError),
        },
        _ => StepOutcome::Raised(ErrKind::TypeError),
    }
}

/// Extraction of a whole argument list, in declaration order, stopping at
/// the first failure.
pub open spec fn spec_extract_call_args(
    kinds: Seq<Ty>,
    mode: ExtractErrorMode,
    args: Seq<RawArg>,
    expected_tags: Seq<u64>,
    heap: Seq<ObjCellV>,
) -> ExtractOutcomeV
    decreases kinds.len(),
{
    if kinds.len() == 0 {
        ExtractOutcomeV::Converted(Seq::empty())
    } else {
        match spec_extract_one(kinds[0], mode, args[0], expected_tags[0], heap) {
            StepOutcome::Got(x) => match spec_extract_call_args(
                kinds.skip(1),
                mode,
                args.skip(1),
                expected_tags.skip(1),
                heap,
            ) {
                ExtractOutcomeV::Converted(rest) => ExtractOutcomeV::Converted(seq![x] + rest),
                other => other,
            },
            StepOutcome::Fallback => ExtractOutcomeV::Fallback,
            StepOutcome::Raised(e) => ExtractOutcomeV::Raised(e),
        }
    }
}

/// Extract one argument at call time.
pub fn extract_one(
    kind: Ty,
    mode: ExtractErrorMode,
    arg: RawArg,
    expected_tag: u64,
    heap: &Heap,
) -> (r: StepOutcome)
    requires
        kind.is_argument_kind(),
        arg_matches_kind(kind, arg, heap@),
    ensures
        r == spec_extract_one(kind, mode, arg, expected_tag, heap@),
{
    match kind {
        Ty::CompareOp => match arg {
            RawArg::Code(c) => match CompareOp::from_raw(c) {
                Some(op) => StepOutcome::Got(Extracted::Cmp(op)),
                None => StepOutcome::Raised(ErrKind::ValueError),
            },
            _ => vstd::pervasive::unreached(),
        },
        Ty::ObjectOrNotImplemented => match arg {
            RawArg::Obj(o) => {
                if o < heap.cells.len() && heap.cells[o].type_tag == expected_tag {
                    StepOutcome::Got(Extracted::Obj(o))
                } else {
                    StepOutcome::Fallback
                }
            },
            _ => vstd::pervasive::unreached(),
        },
        Ty::Object | Ty::NonNullObject => match arg {
            RawArg::Obj(o) => {
                if o < heap.cells.len() && heap.cells[o].type_tag == expected_tag {
                    StepOutcome::Got(Extracted::Obj(o))
                } else {
                    match mode {
                        ExtractErrorMode::Raise => StepOutcome::Raised(ErrKind::TypeError),
                        ExtractErrorMode::NotImplemented => StepOutcome::Fallback,
                    }
                }
            },
            _ => vstd::pervasive::unreached(),
        },
        Ty::Int | Ty::PyHashT | Ty::PySsizeT | Ty::Void => vstd::pervasive::unreached(),
    }
}

/// Extract a slot's whole argument list at call time, in declaration order,
/// stopping at the first failure.
pub fn extract_call_args(
    kinds: &Vec<Ty>,
    mode: ExtractErrorMode,
    args: &Vec<RawArg>,
    expected_tags: &Vec<u64>,
    heap: &Heap,
) -> (r: ExtractOutcome)
    requires
        args@.len() == kinds@.len(),
        expected_tags@.len() == kinds@.len(),
        forall|i: int| 0 <= i < kinds@.len() ==> kinds@[i].is_argument_kind(),
        forall|i: int| 0 <= i < kinds@.len() ==> arg_matches_kind(kinds@[i], args@[i], heap@),
    ensures
        r@ == spec_extract_call_args(kinds@, mode, args@, expected_tags@, heap@),
{
    let mut out: Vec<Extracted> = Vec::new();
    let mut i: usize = 0;
    proof {
        assert(kinds@.skip(0) =~= kinds@);
        assert(args@.skip(0) =~= args@);
        assert(expected_tags@.skip(0) =~= expected_tags@);
    }
    while i < kinds.len()
        invariant
            i <= kinds@.len(),
            args@.len() == kinds@.len(),
            expected_tags@.len() == kinds@.len(),
            forall|j: int| 0 <= j < kinds@.len() ==> kinds@[j].is_argument_kind(),
            forall|j: int| 0 <= j < kinds@.len() ==> arg_matches_kind(kinds@[j], args@[j], heap@),
            spec_extract_call_args(kinds@, mode, args@, expected_tags@, heap@) == (match
                spec_extract_call_args(
                kinds@.skip(i as int),
                mode,
                args@.skip(i as int),
                expected_tags@.skip(i as int),
                heap@,
            ) {
                ExtractOutcomeV::Converted(rest) => ExtractOutcomeV::Converted(out@ + rest),
                other => other,
            }),
        decreases kinds@.len() - i,
    {
        proof {
            assert(kinds@.skip(i as int)[0] == kinds@[i as int]);
            assert(args@.skip(i as int)[0] == args@[i as int]);
            assert(expected_tags@.skip(i as int)[0] == expected_tags@[i as int]);
            assert(kinds@.skip(i as int).skip(1) =~= kinds@.skip(i + 1));
            assert(args@.skip(i as int).skip(1) =~= args@.skip(i + 1));
            assert(expected_tags@.skip(i as int).skip(1) =~= expected_tags@.skip(i + 1));
        }
        let step = extract_one(kinds[i], mode, args[i], expected_tags[i], heap);
        match step {
            StepOutcome::Got(x) => {
                let ghost old_out = out@;
                out.push(x);
                proof {
                    assert(out@ =~= old_out + seq![x]);
                    assert forall|rest: Seq<Extracted>|
                        true implies old_out + (seq![x] + rest) =~= out@ + rest by {}
                }
            },
            StepOutcome::Fallback => {
                return ExtractOutcome::Fallback;
            },
            StepOutcome::Raised(e) => {
                return ExtractOutcome::Raised(e);
            },
        }
        i = i + 1;
    }
    proof {
        assert(kinds@.skip(i as int) =~= Seq::<Ty>::empty());
        assert(out@ + Seq::<Extracted>::empty() =~= out@);
    }
    ExtractOutcome::Converted(out)
}

/// A typed native result crossing back over the boundary.
#[derive(Clone, Copy, Debug, PartialEq, Eq, Structural)]
pub enum RetValue {
    /// An object reference.
    Obj(usize),
    /// A plain integer (also carries hash- and size-width results).
    Int(i64),
    /// No value.
    Unit,
    /// The iterator protocol yielded a value.
    Yielded(usize),
    /// The iterator protocol is exhausted.
    Exhausted,
}

/// What the native call produced, as observed at the trampoline edge.
#[derive(Clone, Copy, Debug, PartialEq, Eq, Structural)]
pub enum NativeOutcome {
    /// The native function returned a value.
    Returned(RetValue),
    /// The native function returned its error representation.
    Raised(ErrKind),
    /// The native function aborted; the fault is intercepted at the
    /// trampoline edge and must never unwind across the foreign convention.
    Panicked,
}

/// What the slot's caller observes.
#[derive(Clone, Copy, Debug, PartialEq, Eq, Structural)]
pub enum SlotOutcome {
    /// A value in the slot's return representation.
    Value(RetValue),
    /// The foreign "not implemented" sentinel: this implementation defers to
    /// a cooperating one.
    NotImplemented,
    /// An error is set in the foreign runtime.
    Raised(ErrKind),
}

/// The final encoding step of a conversion wrapper.  The hash wrapper
/// normalizes to the ABI's hash width in exactly one place: the width's
/// reserved error value is mapped to its substitute.  The iterator wrappers
/// keep "exhausted" and "yielded" apart: exhaustion becomes the protocol's
/// exhaustion signal, never a null value.
pub open spec fn spec_apply_conversion(kind: crate::slot_def::ConversionKind, v: RetValue)
    -> SlotOutcome {
    match kind {
        crate::slot_def::ConversionKind::HashCallbackOutput => match v {
            RetValue::Int(h) => SlotOutcome::Value(RetValue::Int(if h == -1 { -2int } else { h as int } as i64)),
            other => SlotOutcome::Value(other),
        },
        crate::slot_def::ConversionKind::IterNextOutput => match v {
            RetValue::Yielded(o) => SlotOutcome::Value(RetValue::Obj(o)),
            RetValue::Exhausted => SlotOutcome::Raised(ErrKind::StopIteration),
            other => SlotOutcome::Value(other),
        },
        crate::slot_def::ConversionKind::AIterNextOutput => match v {
            RetValue::Yielded(o) => SlotOutcome::Value(RetValue::Obj(o)),
            RetValue::Exhausted => SlotOutcome::Raised(ErrKind::StopAsyncIteration),
            other => SlotOutcome::Value(other),
        },
    }
}

/// Run a conversion wrapper's final encoding step.
pub fn apply_conversion(kind: crate::slot_def::ConversionKind, v: RetValue) -> (r: SlotOutcome)
    ensures
        r == spec_apply_conversion(kind, v),
{
    match kind {
        crate::slot_def::ConversionKind::HashCallbackOutput => match v {
            RetValue::Int(h) => SlotOutcome::Value(RetValue::Int(if h == -1 { -2 } else { h })),
            other => SlotOutcome::Value(other),
        },
        crate::slot_def::ConversionKind::IterNextOutput => match v {
            RetValue::Yielded(o) => SlotOutcome::Value(RetValue::Obj(o)),
            RetValue::Exhausted => SlotOutcome::Raised(ErrKind::StopIteration),
            other => SlotOutcome::Value(other),
        },
        crate::slot_def::ConversionKind::AIterNextOutput => match v {
            RetValue::Yielded(o) => SlotOutcome::Value(RetValue::Obj(o)),
            RetValue::Exhausted => SlotOutcome::Raised(ErrKind::StopAsyncIteration),
            other => SlotOutcome::Value(other),
        },
    }
}

/// What a wrapper does with the native call's outcome.  A fault is converted
/// into the runtime's unrecoverable-error representation at the edge; an
/// error short-circuits before any ownership count changes; under the
/// receiver-returning plan a success increments the receiver's ownership
/// count by exactly one and hands back the original receiver reference.
pub open spec fn spec_apply_return_plan(
    plan: crate::slot_def::ReturnPlan,
    raw_slf: usize,
    native: NativeOutcome,
    heap: Seq<ObjCellV>,
) -> (Seq<ObjCellV>, SlotOutcome)
    recommends
        raw_slf < heap.len(),
{
    match native {
        NativeOutcome::Panicked => (heap, SlotOutcome::Raised(ErrKind::NativePanic)),
        NativeOutcome::Raised(e) => (heap, SlotOutcome::Raised(e)),
        NativeOutcome::Returned(v) => match plan {
            crate::slot_def::ReturnPlan::Direct => (heap, SlotOutcome::Value(v)),
            crate::slot_def::ReturnPlan::Convert(kind) => (heap, spec_apply_conversion(kind, v)),
            crate::slot_def::ReturnPlan::ReturnReceiver => {
                let cell = heap[raw_slf as int];
                (
                    heap.update(
                        raw_slf as int,
                        ObjCellV { refcount: (cell.refcount + 1) as u64, ..cell },
                    ),
                    SlotOutcome::Value(RetValue::Obj(raw_slf)),
                )
            },
        },
    }
}

/// Apply a wrapper's return plan to the native call's outcome.
pub fn apply_return_plan(
    plan: crate::slot_def::ReturnPlan,
    raw_slf: usize,
    native: NativeOutcome,
    heap: &mut Heap,
) -> (r: SlotOutcome)
    requires
        raw_slf < old(heap)@.len(),
        plan is ReturnReceiver && native is Returned ==> old(heap)@[raw_slf as int].refcount
            < u64::MAX,
    ensures
        (final(heap)@, r) == spec_apply_return_plan(plan, raw_slf, native, old(heap)@),
        native is Returned && plan is ReturnReceiver ==> {
            &&& r == SlotOutcome::Value(RetValue::Obj(raw_slf))
            &&& final(heap)@[raw_slf as int].refcount == old(heap)@[raw_slf as int].refcount + 1
            &&& final(heap)@[raw_slf as int].fields == old(heap)@[raw_slf as int].fields
            &&& forall|j: int|
                0 <= j < old(heap)@.len() && j != raw_slf ==> final(heap)@[j] == old(heap)@[j]
        },
        !(native is Returned) ==> final(heap)@ == old(heap)@ && (native matches
            NativeOutcome::Raised(e) ==> r == SlotOutcome::Raised(e)) && (native is Panicked ==> r
            == SlotOutcome::Raised(ErrKind::NativePanic)),
{
    match native {
        NativeOutcome::Panicked => SlotOutcome::Raised(ErrKind::NativePanic),
        NativeOutcome::Raised(e) => SlotOutcome::Raised(e),
        NativeOutcome::Returned(v) => match plan {
            crate::slot_def::ReturnPlan::Direct => SlotOutcome::Value(v),
            crate::slot_def::ReturnPlan::Convert(kind) => apply_conversion(kind, v),
            crate::slot_def::ReturnPlan::ReturnReceiver => {
                let cell = &mut heap.cells[raw_slf];
                cell.refcount = cell.refcount + 1;
                proof {
                    let old_cell = old(heap)@[raw_slf as int];
                    assert(final(heap)@ =~= old(heap)@.update(
                        raw_slf as int,
                        ObjCellV { refcount: (old_cell.refcount + 1) as u64, ..old_cell },
                    ));
                }
                SlotOutcome::Value(RetValue::Obj(raw_slf))
            },
        },
    }
}

/// The attribute-read precedence decision the generated wrapper makes before
/// its body runs: a successful generic lookup is returned as-is and shadows
/// the custom hook; only a failed lookup (whose transient error state the
/// wrapper clears) falls through to the hook.
#[derive(Clone, Copy, Debug, PartialEq, Eq, Structural)]
pub enum GetattrAction {
    /// The generic lookup succeeded: return its result; the hook's native
    /// function is never invoked.
    UseExisting(usize),
    /// The generic lookup failed: clear the transient error and invoke the
    /// custom hook.
    InvokeHook,
}

/// Decide between the generic attribute lookup's result and the custom hook.
pub fn getattr_preamble(existing: Option<usize>) -> (r: GetattrAction)
    ensures
        existing matches Some(v) ==> r == GetattrAction::UseExisting(v),
        r is InvokeHook <==> existing is None,
{
    match existing {
        Some(v) => GetattrAction::UseExisting(v),
        None => GetattrAction::InvokeHook,
    }
}

/// One whole trampoline invocation, given what the surrounding runtime
/// supplies: the generic lookup's result (for the attribute-read hook) and
/// the native call's outcome (used only if control reaches the call).
/// Returns the heap after the call, the slot's outcome, and whether the
/// native function was invoked.
pub open spec fn spec_run_type_slot(
    def: crate::slot_def::SlotDefV,
    raw_slf: usize,
    args: Seq<RawArg>,
    expected_tags: Seq<u64>,
    generic_lookup: Option<usize>,
    native: NativeOutcome,
    heap: Seq<ObjCellV>,
) -> (Seq<ObjCellV>, SlotOutcome, bool) {
    if def.before_call_method is Some && generic_lookup is Some {
        (heap, SlotOutcome::Value(RetValue::Obj(generic_lookup.unwrap())), false)
    } else {
        match spec_extract_call_args(
            def.arguments,
            def.extract_error_mode,
            args,
            expected_tags,
            heap,
        ) {
            ExtractOutcomeV::Fallback => (heap, SlotOutcome::NotImplemented, false),
            ExtractOutcomeV::Raised(e) => (heap, SlotOutcome::Raised(e), false),
            ExtractOutcomeV::Converted(_) => {
                let after = spec_apply_return_plan(
                    crate::slot_def::spec_return_plan(def.return_mode),
                    raw_slf,
                    native,
                    heap,
                );
                (after.0, after.1, true)
            },
        }
    }
}

/// Run one generated whole-slot wrapper against the modeled runtime.  The
/// native call's outcome is a parameter: the wrapper's guarantees hold
/// whatever the native function did.
pub fn run_type_slot(
    def: &crate::slot_def::SlotDef,
    raw_slf: usize,
    args: &Vec<RawArg>,
    expected_tags: &Vec<u64>,
    generic_lookup: Option<usize>,
    native: NativeOutcome,
    heap: &mut Heap,
) -> (r: (SlotOutcome, bool))
    requires
        raw_slf < old(heap)@.len(),
        old(heap)@[raw_slf as int].refcount < u64::MAX,
        args@.len() == def.arguments@.len(),
        expected_tags@.len() == def.arguments@.len(),
        forall|i: int| 0 <= i < def.arguments@.len() ==> def.arguments@[i].is_argument_kind(),
        forall|i: int|
            0 <= i < def.arguments@.len() ==> arg_matches_kind(
                def.arguments@[i],
                args@[i],
                old(heap)@,
            ),
    ensures
        (final(heap)@, r.0, r.1) == spec_run_type_slot(
            def@,
            raw_slf,
            args@,
            expected_tags@,
            generic_lookup,
            native,
            old(heap)@,
        ),
        def.before_call_method is Some ==> (generic_lookup matches Some(v) ==> (r == (
            SlotOutcome::Value(RetValue::Obj(v)),
            false,
        ) && final(heap)@ == old(heap)@)),
        r.1 <==> !(def.before_call_method is Some && generic_lookup is Some)
            && spec_extract_call_args(
            def.arguments@,
            def.extract_error_mode,
            args@,
            expected_tags@,
            old(heap)@,
        ) is Converted,
{
    if def.before_call_method.is_some() && generic_lookup.is_some() {
        let v = match generic_lookup {
            Some(v) => v,
            None => vstd::pervasive::unreached(),
        };
        return (SlotOutcome::Value(RetValue::Obj(v)), false);
    }
    match extract_call_args(&def.arguments, def.extract_error_mode, args, expected_tags, heap) {
        ExtractOutcome::Fallback => (SlotOutcome::NotImplemented, false),
        ExtractOutcome::Raised(e) => (SlotOutcome::Raised(e), false),
        ExtractOutcome::Converted(_) => {
            let plan = match &def.return_mode {
                Some(rm) => rm.return_call_output(),
                None => crate::slot_def::ReturnPlan::Direct,
            };
            let outcome = apply_return_plan(plan, raw_slf, native, heap);
            (outcome, true)
        },
    }
}

/// What one cooperative fragment reported when the owning slot wrapper tried
/// it.
#[derive(Clone, Copy, Debug, PartialEq, Eq, Structural)]
pub enum FragmentResult {
    /// The fragment does not apply to these operands: try the next one.
    NotApplicable,
    /// The fragment produced the slot's value.
    Value(RetValue),
    /// The fragment raised.
    Raised(ErrKind),
}

/// The composition the owning slot wrapper performs: try each registered
/// fragment in order, advancing past "not applicable"; the first applicable
/// fragment decides the outcome; where none applies the slot itself reports
/// "not applicable".
pub open spec fn spec_try_fragments(results: Seq<FragmentResult>) -> FragmentResult
    decreases results.len(),
{
    if results.len() == 0 {
        FragmentResult::NotApplicable
    } else if results[0] is NotApplicable {
        spec_try_fragments(results.skip(1))
    } else {
        results[0]
    }
}

/// Try each registered fragment's result in order, advancing past
/// "not applicable".
pub fn try_fragments(results: &Vec<FragmentResult>) -> (r: FragmentResult)
    ensures
        r == spec_try_fragments(results@),
{
    let mut i: usize = 0;
    proof {
        assert(results@.skip(0) =~= results@);
    }
    while i < results.len()
        invariant
            i <= results@.len(),
            spec_try_fragments(results@) == spec_try_fragments(results@.skip(i as int)),
            forall|j: int| 0 <= j < i ==> results@[j] is NotApplicable,
        decreases results@.len() - i,
    {
        proof {
            assert(results@.skip(i as int)[0] == results@[i as int]);
            assert(results@.skip(i as int).skip(1) =~= results@.skip(i + 1));
        }
        match results[i] {
            FragmentResult::NotApplicable => {},
            other => {
                return other;
            },
        }
        i = i + 1;
    }
    proof {
        assert(results@.skip(i as int) =~= Seq::<FragmentResult>::empty());
    }
    FragmentResult::NotApplicable
}

/// The composed outcome is the first applicable fragment's, and every
/// fragment before it was tried and found not applicable.
pub proof fn lemma_try_fragments_first_applicable(results: Seq<FragmentResult>, i: int)
    requires
        0 <= i < results.len(),
        !(results[i] is NotApplicable),
        forall|j: int| 0 <= j < i ==> results[j] is NotApplicable,
    ensures
        spec_try_fragments(results) == results[i],
    decreases i,
{
    if i == 0 {
    } else {
        assert(results.skip(1)[i - 1] == results[i]);
        assert forall|j: int| 0 <= j < i - 1 implies results.skip(1)[j] is NotApplicable by {
            assert(results.skip(1)[j] == results[j + 1]);
        }
        lemma_try_fragments_first_applicable(results.skip(1), i - 1);
    }
}

/// Where no fragment applies, the composed slot reports "not applicable".
pub proof fn lemma_try_fragments_none_applicable(results: Seq<FragmentResult>)
    requires
        forall|j: int| 0 <= j < results.len() ==> results[j] is NotApplicable,
    ensures
        spec_try_fragments(results) is NotApplicable,
    decreases results.len(),
{
    if results.len() > 0 {
        assert forall|j: int| 0 <= j < results.skip(1).len() implies results.skip(1)[j]
            is NotApplicable by {
            assert(results.skip(1)[j] == results[j + 1]);
        }
        lemma_try_fragments_none_applicable(results.skip(1));
    }
}

/// A data-descriptor read: the value stored at the addressed field, by
/// value-preserving copy, under a shared receiver borrow; the only failure
/// is a conflicting exclusive borrow.
pub open spec fn spec_run_field_getter(heap: Seq<ObjCellV>, slf: usize, k: usize) -> Result<
    i64,
    ErrKind,
>
    recommends
        slf < heap.len(),
        k < heap[slf as int].fields.len(),
{
    if heap[slf as int].mut_borrowed {
        Err(ErrKind::BorrowError)
    } else {
        Ok(heap[slf as int].fields[k as int])
    }
}

/// Read a positionally-indexed field of the receiver.
pub fn run_field_getter(heap: &Heap, slf: usize, k: usize) -> (r: Result<i64, ErrKind>)
    requires
        slf < heap@.len(),
        k < heap@[slf as int].fields.len(),
    ensures
        r == spec_run_field_getter(heap@, slf, k),
        r matches Ok(v) ==> v == heap@[slf as int].fields[k as int],
{
    let cell = &heap.cells[slf];
    if cell.mut_borrowed {
        Err(ErrKind::BorrowError)
    } else {
        Ok(cell.fields[k])
    }
}

/// A data-descriptor write: stores the extracted value at the addressed
/// field under an exclusive receiver borrow; the only failure is a
/// conflicting borrow, which leaves the receiver untouched.
pub open spec fn spec_run_field_setter(heap: Seq<ObjCellV>, slf: usize, k: usize, v: i64) -> (
    Seq<ObjCellV>,
    Result<(), ErrKind>,
)
    recommends
        slf < heap.len(),
        k < heap[slf as int].fields.len(),
{
    let cell = heap[slf as int];
    if cell.mut_borrowed || cell.shared_borrows > 0 {
        (heap, Err(ErrKind::BorrowError))
    } else {
        (
            heap.update(slf as int, ObjCellV { fields: cell.fields.update(k as int, v), ..cell }),
            Ok(()),
        )
    }
}

/// Write a positionally-indexed field of the receiver.
pub fn run_field_setter(heap: &mut Heap, slf: usize, k: usize, v: i64) -> (r: Result<(), ErrKind>)
    requires
        slf < old(heap)@.len(),
        k < old(heap)@[slf as int].fields.len(),
    ensures
        (final(heap)@, r) == spec_run_field_setter(old(heap)@, slf, k, v),
        r matches Err(e) ==> e == ErrKind::BorrowError && final(heap)@ == old(heap)@,
        r is Ok ==> final(heap)@[slf as int].fields[k as int] == v,
{
    let cell = &mut heap.cells[slf];
    if cell.mut_borrowed || cell.shared_borrows > 0 {
        proof {
            assert(final(heap)@ =~= old(heap)@);
        }
        Err(ErrKind::BorrowError)
    } else {
        cell.fields[k] = v;
        proof {
            let old_cell = old(heap)@[slf as int];
            assert(final(heap)@ =~= old(heap)@.update(
                slf as int,
                ObjCellV { fields: old_cell.fields.update(k as int, v), ..old_cell },
            ));
        }
        Ok(())
    }
}

/// Round-trip law: writing a field through its setter and reading it back
/// through its getter returns the same value unchanged.
pub proof fn lemma_accessor_round_trip(heap: Seq<ObjCellV>, slf: usize, k: usize, v: i64)
    requires
        slf < heap.len(),
        k < heap[slf as int].fields.len(),
        !heap[slf as int].mut_borrowed,
        heap[slf as int].shared_borrows == 0,
    ensures
        spec_run_field_setter(heap, slf, k, v).1 is Ok,
        spec_run_field_getter(spec_run_field_setter(heap, slf, k, v).0, slf, k) == Ok::<
            i64,
            ErrKind,
        >(v),
{
}

/// Under fallback-sentinel extraction, a failure is never surfaced as an
/// exception: the only hard error an argument list can raise is the value
/// error of an out-of-range comparison code.
pub proof fn lemma_sentinel_mode_never_exception(
    kinds: Seq<Ty>,
    args: Seq<RawArg>,
    expected_tags: Seq<u64>,
    heap: Seq<ObjCellV>,
)
    requires
        args.len() == kinds.len(),
        forall|i: int| 0 <= i < kinds.len() ==> kinds[i].is_argument_kind(),
        forall|i: int| 0 <= i < kinds.len() ==> arg_matches_kind(kinds[i], args[i], heap),
    ensures
        spec_extract_call_args(kinds, ExtractErrorMode::NotImplemented, args, expected_tags, heap)
            matches ExtractOutcomeV::Raised(e) ==> e == ErrKind::ValueError,
    decreases kinds.len(),
{
    if kinds.len() > 0 {
        assert forall|j: int| 0 <= j < kinds.skip(1).len() implies kinds.skip(1)[j]
            .is_argument_kind() && arg_matches_kind(kinds.skip(1)[j], args.skip(1)[j], heap) by {
            assert(kinds.skip(1)[j] == kinds[j + 1]);
            assert(args.skip(1)[j] == args[j + 1]);
        }
        lemma_sentinel_mode_never_exception(kinds.skip(1), args.skip(1), expected_tags.skip(1), heap);
    }
}

/// A typed-extraction failure on a fallback operand yields the
/// "not implemented" marker: where every earlier argument converted and the
/// operand at position `i` fails its conversion, the whole extraction
/// defers.
pub proof fn lemma_operand_failure_defers(
    kinds: Seq<Ty>,
    mode: ExtractErrorMode,
    args: Seq<RawArg>,
    expected_tags: Seq<u64>,
    heap: Seq<ObjCellV>,
    i: int,
)
    requires
        args.len() == kinds.len(),
        expected_tags.len() == kinds.len(),
        0 <= i < kinds.len(),
        spec_extract_one(kinds[i], mode, args[i], expected_tags[i], heap) is Fallback,
        forall|j: int|
            0 <= j < i ==> spec_extract_one(kinds[j], mode, args[j], expected_tags[j], heap)
                is Got,
    ensures
        spec_extract_call_args(kinds, mode, args, expected_tags, heap)
            == ExtractOutcomeV::Fallback,
    decreases i,
{
    if i > 0 {
        assert(kinds.skip(1)[i - 1] == kinds[i]);
        assert(args.skip(1)[i - 1] == args[i]);
        assert(expected_tags.skip(1)[i - 1] == expected_tags[i]);
        assert forall|j: int|
            0 <= j < i - 1 implies spec_extract_one(
            kinds.skip(1)[j],
            mode,
            args.skip(1)[j],
            expected_tags.skip(1)[j],
            heap,
        ) is Got by {
            assert(kinds.skip(1)[j] == kinds[j + 1]);
            assert(args.skip(1)[j] == args[j + 1]);
            assert(expected_tags.skip(1)[j] == expected_tags[j + 1]);
        }
        lemma_operand_failure_defers(
            kinds.skip(1),
            mode,
            args.skip(1),
            expected_tags.skip(1),
            heap,
            i - 1,
        );
    }
}

/// An out-of-range comparison-operator code is a hard value error under
/// either extraction-error mode, whatever the receiver and operand values:
/// where every earlier argument converted, the whole extraction raises the
/// value error.
pub proof fn lemma_invalid_compare_code_is_value_error(
    kinds: Seq<Ty>,
    mode: ExtractErrorMode,
    args: Seq<RawArg>,
    expected_tags: Seq<u64>,
    heap: Seq<ObjCellV>,
    i: int,
)
    requires
        args.len() == kinds.len(),
        expected_tags.len() == kinds.len(),
        0 <= i < kinds.len(),
        kinds[i] is CompareOp,
        args[i] matches RawArg::Code(c) && spec_compare_op_from_raw(c) is None,
        forall|j: int|
            0 <= j < i ==> spec_extract_one(kinds[j], mode, args[j], expected_tags[j], heap)
                is Got,
    ensures
        spec_extract_call_args(kinds, mode, args, expected_tags, heap) == ExtractOutcomeV::Raised(
            ErrKind::ValueError,
        ),
    decreases i,
{
    if i > 0 {
        assert(kinds.skip(1)[i - 1] == kinds[i]);
        assert(args.skip(1)[i - 1] == args[i]);
        assert(expected_tags.skip(1)[i - 1] == expected_tags[i]);
        assert forall|j: int|
            0 <= j < i - 1 implies spec_extract_one(
            kinds.skip(1)[j],
            mode,
            args.skip(1)[j],
            expected_tags.skip(1)[j],
            heap,
        ) is Got by {
            assert(kinds.skip(1)[j] == kinds[j + 1]);
            assert(args.skip(1)[j] == args[j + 1]);
            assert(expected_tags.skip(1)[j] == expected_tags[j + 1]);
        }
        lemma_invalid_compare_code_is_value_error(
            kinds.skip(1),
            mode,
            args.skip(1),
            expected_tags.skip(1),
            heap,
            i - 1,
        );
    }
}

/// Law: for every registry slot with fallback-sentinel extraction, a
/// typed-extraction failure on an operand (every earlier argument having
/// converted) yields the "not implemented" marker.
pub proof fn lemma_fallback_slot_operand_defers(
    name: Seq<char>,
    def: crate::slot_def::SlotDefV,
    args: Seq<RawArg>,
    expected_tags: Seq<u64>,
    heap: Seq<ObjCellV>,
    i: int,
)
    requires
        crate::slot_def::spec_pyproto(name) == Some(def),
        def.extract_error_mode == ExtractErrorMode::NotImplemented,
        args.len() == def.arguments.len(),
        expected_tags.len() == def.arguments.len(),
        0 <= i < def.arguments.len(),
        def.arguments[i] is ObjectOrNotImplemented,
        spec_extract_one(
            def.arguments[i],
            def.extract_error_mode,
            args[i],
            expected_tags[i],
            heap,
        ) is Fallback,
        forall|j: int|
            0 <= j < i ==> spec_extract_one(
                def.arguments[j],
                def.extract_error_mode,
                args[j],
                expected_tags[j],
                heap,
            ) is Got,
    ensures
        spec_extract_call_args(
            def.arguments,
            def.extract_error_mode,
            args,
            expected_tags,
            heap,
        ) == ExtractOutcomeV::Fallback,
{
    lemma_operand_failure_defers(
        def.arguments,
        def.extract_error_mode,
        args,
        expected_tags,
        heap,
        i,
    );
}

/// Law: a registry slot with fallback-sentinel extraction never surfaces an
/// extraction failure as an exception; its only hard error is the value
/// error of an out-of-range comparison code.
pub proof fn lemma_fallback_slot_never_exception(
    name: Seq<char>,
    def: crate::slot_def::SlotDefV,
    args: Seq<RawArg>,
    expected_tags: Seq<u64>,
    heap: Seq<ObjCellV>,
)
    requires
        crate::slot_def::spec_pyproto(name) == Some(def),
        def.extract_error_mode == ExtractErrorMode::NotImplemented,
        args.len() == def.arguments.len(),
        forall|i: int| 0 <= i < def.arguments.len() ==> arg_matches_kind(def.arguments[i], args[i], heap),
    ensures
        spec_extract_call_args(def.arguments, def.extract_error_mode, args, expected_tags, heap)
            matches ExtractOutcomeV::Raised(e) ==> e == ErrKind::ValueError,
{
    crate::slot_def::lemma_pyproto_well_formed(name);
    lemma_sentinel_mode_never_exception(def.arguments, args, expected_tags, heap);
}

/// Law: for every operator fragment with fallback-sentinel extraction, a
/// typed-extraction failure on an operand (every earlier operand having
/// converted) yields the "not implemented" marker, deferring to the
/// cooperating implementation.
pub proof fn lemma_fallback_fragment_operand_defers(
    name: Seq<char>,
    def: crate::fragment::SlotFragmentDefV,
    args: Seq<RawArg>,
    expected_tags: Seq<u64>,
    heap: Seq<ObjCellV>,
    i: int,
)
    requires
        crate::fragment::spec_pyproto_fragment(name) == Some(def),
        def.extract_error_mode == ExtractErrorMode::NotImplemented,
        args.len() == def.arguments.len(),
        expected_tags.len() == def.arguments.len(),
        0 <= i < def.arguments.len(),
        spec_extract_one(
            def.arguments[i],
            def.extract_error_mode,
            args[i],
            expected_tags[i],
            heap,
        ) is Fallback,
        forall|j: int|
            0 <= j < i ==> spec_extract_one(
                def.arguments[j],
                def.extract_error_mode,
                args[j],
                expected_tags[j],
                heap,
            ) is Got,
    ensures
        spec_extract_call_args(
            def.arguments,
            def.extract_error_mode,
            args,
            expected_tags,
            heap,
        ) == ExtractOutcomeV::Fallback,
{
    lemma_operand_failure_defers(
        def.arguments,
        def.extract_error_mode,
        args,
        expected_tags,
        heap,
        i,
    );
}

/// Law: an operator fragment with fallback-sentinel extraction never
/// surfaces an extraction failure as an exception at all: its operands all
/// carry the fallback kind, which only converts or defers.
pub proof fn lemma_fallback_fragment_never_exception(
    name: Seq<char>,
    def: crate::fragment::SlotFragmentDefV,
    args: Seq<RawArg>,
    expected_tags: Seq<u64>,
    heap: Seq<ObjCellV>,
)
    requires
        crate::fragment::spec_pyproto_fragment(name) == Some(def),
        def.extract_error_mode == ExtractErrorMode::NotImplemented,
        args.len() == def.arguments.len(),
        forall|i: int| 0 <= i < def.arguments.len() ==> arg_matches_kind(def.arguments[i], args[i], heap),
    ensures
        !(spec_extract_call_args(def.arguments, def.extract_error_mode, args, expected_tags, heap)
            is Raised),
{
    crate::fragment::lemma_pyproto_fragment_well_formed(name);
    crate::fragment::lemma_fragment_fallback_operands(name);
    lemma_sentinel_mode_never_exception(def.arguments, args, expected_tags, heap);
    lemma_fragment_no_compare_no_value_error(
        def.arguments,
        def.extract_error_mode,
        args,
        expected_tags,
        heap,
    );
}

/// An argument list without the comparison-code kind can never raise the
/// comparison code's value error either.
proof fn lemma_fragment_no_compare_no_value_error(
    kinds: Seq<Ty>,
    mode: ExtractErrorMode,
    args: Seq<RawArg>,
    expected_tags: Seq<u64>,
    heap: Seq<ObjCellV>,
)
    requires
        forall|i: int| 0 <= i < kinds.len() ==> kinds[i] is ObjectOrNotImplemented,
    ensures
        !(spec_extract_call_args(kinds, mode, args, expected_tags, heap) is Raised),
    decreases kinds.len(),
{
    if kinds.len() > 0 {
        assert forall|j: int| 0 <= j < kinds.skip(1).len() implies kinds.skip(1)[j]
            is ObjectOrNotImplemented by {
            assert(kinds.skip(1)[j] == kinds[j + 1]);
        }
        lemma_fragment_no_compare_no_value_error(
            kinds.skip(1),
            mode,
            args.skip(1),
            expected_tags.skip(1),
            heap,
        );
    }
}

/// Law: for every in-place operator slot (a registry slot that returns the
/// receiver), once the operands extract, the native function is invoked;
/// a successful native call returns a reference identical to the original
/// receiver with its ownership count incremented by exactly one, and a
/// failing native call leaves the ownership count unchanged and propagates
/// the error.
pub proof fn lemma_inplace_slot_returns_receiver(
    name: Seq<char>,
    def: crate::slot_def::SlotDefV,
    raw_slf: usize,
    args: Seq<RawArg>,
    expected_tags: Seq<u64>,
    generic_lookup: Option<usize>,
    native: NativeOutcome,
    heap: Seq<ObjCellV>,
)
    requires
        crate::slot_def::spec_pyproto(name) == Some(def),
        def.return_mode == Some(crate::slot_def::ReturnMode::ReturnSelf),
        raw_slf < heap.len(),
        heap[raw_slf as int].refcount < u64::MAX,
        spec_extract_call_args(def.arguments, def.extract_error_mode, args, expected_tags, heap)
            is Converted,
    ensures
        ({
            let (after, outcome, native_called) = spec_run_type_slot(
                def,
                raw_slf,
                args,
                expected_tags,
                generic_lookup,
                native,
                heap,
            );
            &&& native_called
            &&& native is Returned ==> {
                &&& outcome == SlotOutcome::Value(RetValue::Obj(raw_slf))
                &&& after[raw_slf as int].refcount == heap[raw_slf as int].refcount + 1
                &&& after[raw_slf as int].fields == heap[raw_slf as int].fields
                &&& forall|j: int|
                    0 <= j < heap.len() && j != raw_slf ==> after[j] == heap[j]
            }
            &&& native matches NativeOutcome::Raised(e) ==> outcome == SlotOutcome::Raised(e)
                && after == heap
            &&& native is Panicked ==> outcome == SlotOutcome::Raised(ErrKind::NativePanic)
                && after == heap
        }),
{
    crate::slot_def::lemma_pyproto_return_self_slots(name);
}

} // verus!
