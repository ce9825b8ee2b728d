//! The slot registry: one `SlotDef` per protocol method name that owns a
//! whole ABI slot, and the generation of the trampoline description that
//! bridges that slot's calling convention to the native implementation.

use vstd::prelude::*;

use crate::errors::DefError;
use crate::extract::ExtractStep;
use crate::extract::ExtractStepV;
use crate::extract::deep_view_steps;
use crate::extract::spec_ty_extract;
use crate::method::FnArg;
use crate::method::FnArgV;
use crate::method::MethodSpec;
use crate::method::MethodSpecV;
use crate::method::SelfConversion;
use crate::method::deep_view_args;
use crate::rust_type::RustType;
use crate::rust_type::RustTypeV;
use crate::strutil::clone_string;
use crate::strutil::str_eq;
use crate::ty::ExtractErrorMode;
use crate::ty::FfiType;
use crate::ty::Ty;

verus! {

/// The return-conversion wrappers a slot can route its native result
/// through: a closed set, one per protocol that needs a final encoding step.
#[derive(Clone, Copy, Debug, PartialEq, Eq, Structural)]
pub enum ConversionKind {
    /// Normalization of a hash result to the ABI's hash width.
    HashCallbackOutput,
    /// The two-variant yielded/exhausted output of the iterator protocol.
    IterNextOutput,
    /// The asynchronous counterpart of `IterNextOutput`.
    AIterNextOutput,
}

/// What the wrapper does with the native call's outcome.
#[derive(Clone, Copy, Debug, PartialEq, Eq, Structural)]
pub enum ReturnMode {
    /// Discard the (unit) result, take a new ownership count on the receiver,
    /// and return the original receiver reference.
    ReturnSelf,
    /// Route the result through the named wrapper's final encoding step.
    Conversion(ConversionKind),
}

/// The body a wrapper runs after the native call, in executable order.
#[derive(Clone, Copy, Debug, PartialEq, Eq, Structural)]
pub enum ReturnPlan {
    /// Convert the typed result directly to the slot's return representation.
    Direct,
    /// Convert through the named wrapper's final encoding step.
    Convert(ConversionKind),
    /// Return the receiver itself after a new ownership count is taken.
    ReturnReceiver,
}

impl ReturnMode {
    pub open spec fn spec_return_call_output(self) -> ReturnPlan {
        match self {
            ReturnMode::Conversion(kind) => ReturnPlan::Convert(kind),
            ReturnMode::ReturnSelf => ReturnPlan::ReturnReceiver,
        }
    }

    /// How the wrapper turns the native call's outcome into the slot's
    /// return value.
    pub fn return_call_output(&self) -> (r: ReturnPlan)
        ensures
            r == self.spec_return_call_output(),
    {
        match self {
            ReturnMode::Conversion(kind) => ReturnPlan::Convert(*kind),
            ReturnMode::ReturnSelf => ReturnPlan::ReturnReceiver,
        }
    }
}

/// The plan for a `return_mode` that may be absent.
pub open spec fn spec_return_plan(return_mode: Option<ReturnMode>) -> ReturnPlan {
    match return_mode {
        Some(rm) => rm.spec_return_call_output(),
        None => ReturnPlan::Direct,
    }
}

/// The pre-invocation hooks a slot can run before its wrapper body: a closed
/// set, currently only the attribute-read precedence check.
#[derive(Clone, Copy, Debug, PartialEq, Eq, Structural)]
pub enum BeforeCall {
    /// Try the runtime's generic attribute lookup first; only on its failure
    /// does control fall through to the custom trampoline body.
    GenericGetattrFallback,
}

/// One slot-registry entry: everything the generator needs to wrap one
/// native function as the single owner of one ABI slot.
pub struct SlotDef {
    /// The ABI slot identifier.
    pub slot: String,
    /// The name of the slot's function-pointer type.
    pub func_ty: String,
    /// The kinds of the slot's non-receiver arguments, in order.
    pub arguments: Vec<Ty>,
    /// The kind of the slot's return value.
    pub ret_ty: Ty,
    /// An optional pre-invocation hook.
    pub before_call_method: Option<BeforeCall>,
    /// What a failed receiver or argument extraction does at call time.
    pub extract_error_mode: ExtractErrorMode,
    /// An optional replacement for direct return conversion.
    pub return_mode: Option<ReturnMode>,
}

/// Ghost mirror of `SlotDef`.
#[verifier::ext_equal]
pub struct SlotDefV {
    pub slot: Seq<char>,
    pub func_ty: Seq<char>,
    pub arguments: Seq<Ty>,
    pub ret_ty: Ty,
    pub before_call_method: Option<BeforeCall>,
    pub extract_error_mode: ExtractErrorMode,
    pub return_mode: Option<ReturnMode>,
}

impl View for SlotDef {
    type V = SlotDefV;

    open spec fn view(&self) -> SlotDefV {
        SlotDefV {
            slot: self.slot@,
            func_ty: self.func_ty@,
            arguments: self.arguments@,
            ret_ty: self.ret_ty,
            before_call_method: self.before_call_method,
            extract_error_mode: self.extract_error_mode,
            return_mode: self.return_mode,
        }
    }
}

impl SlotDefV {
    /// A fresh entry: no arguments, object return, no hook, propagating
    /// extraction errors, direct return conversion.
    pub open spec fn spec_new(slot: Seq<char>, func_ty: Seq<char>) -> SlotDefV {
        SlotDefV {
            slot,
            func_ty,
            arguments: Seq::empty(),
            ret_ty: Ty::Object,
            before_call_method: None,
            extract_error_mode: ExtractErrorMode::Raise,
            return_mode: None,
        }
    }

    pub open spec fn with_arguments(self, arguments: Seq<Ty>) -> SlotDefV {
        SlotDefV { arguments, ..self }
    }

    pub open spec fn with_ret_ty(self, ret_ty: Ty) -> SlotDefV {
        SlotDefV { ret_ty, ..self }
    }

    pub open spec fn with_before_call_method(self, hook: BeforeCall) -> SlotDefV {
        SlotDefV { before_call_method: Some(hook), ..self }
    }

    pub open spec fn with_return_conversion(self, kind: ConversionKind) -> SlotDefV {
        SlotDefV { return_mode: Some(ReturnMode::Conversion(kind)), ..self }
    }

    pub open spec fn with_extract_error_mode(self, mode: ExtractErrorMode) -> SlotDefV {
        SlotDefV { extract_error_mode: mode, ..self }
    }

    pub open spec fn with_return_self(self) -> SlotDefV {
        SlotDefV { return_mode: Some(ReturnMode::ReturnSelf), ..self }
    }

    /// Every declared argument kind has an extraction procedure.
    pub open spec fn arguments_well_formed(self) -> bool {
        forall|i: int| 0 <= i < self.arguments.len() ==> self.arguments[i].is_argument_kind()
    }
}

impl SlotDef {
    /// A fresh entry for the given ABI slot and function-pointer type.
    pub fn new(slot: &str, func_ty: &str) -> (r: SlotDef)
        ensures
            r@ == SlotDefV::spec_new(slot@, func_ty@),
    {
        let r = SlotDef {
            slot: slot.to_owned(),
            func_ty: func_ty.to_owned(),
            arguments: Vec::new(),
            ret_ty: Ty::Object,
            before_call_method: None,
            extract_error_mode: ExtractErrorMode::Raise,
            return_mode: None,
        };
        proof {
            assert(r@ =~= SlotDefV::spec_new(slot@, func_ty@));
        }
        r
    }

    /// Declare the slot's non-receiver argument kinds.
    pub fn arguments(self, arguments: Vec<Ty>) -> (r: SlotDef)
        ensures
            r@ == self@.with_arguments(arguments@),
    {
        let r = SlotDef { arguments, ..self };
        proof {
            assert(r@ =~= self@.with_arguments(r.arguments@));
        }
        r
    }

    /// Declare the slot's return kind.
    pub fn ret_ty(self, ret_ty: Ty) -> (r: SlotDef)
        ensures
            r@ == self@.with_ret_ty(ret_ty),
    {
        let r = SlotDef { ret_ty, ..self };
        proof {
            assert(r@ =~= self@.with_ret_ty(ret_ty));
        }
        r
    }

    /// Attach a pre-invocation hook.
    pub fn before_call_method(self, hook: BeforeCall) -> (r: SlotDef)
        ensures
            r@ == self@.with_before_call_method(hook),
    {
        let r = SlotDef { before_call_method: Some(hook), ..self };
        proof {
            assert(r@ =~= self@.with_before_call_method(hook));
        }
        r
    }

    /// Route the native result through a final encoding step.
    pub fn return_conversion(self, kind: ConversionKind) -> (r: SlotDef)
        ensures
            r@ == self@.with_return_conversion(kind),
    {
        let r = SlotDef { return_mode: Some(ReturnMode::Conversion(kind)), ..self };
        proof {
            assert(r@ =~= self@.with_return_conversion(kind));
        }
        r
    }

    /// Declare what a failed extraction does at call time.
    pub fn extract_error_mode(self, mode: ExtractErrorMode) -> (r: SlotDef)
        ensures
            r@ == self@.with_extract_error_mode(mode),
    {
        let r = SlotDef { extract_error_mode: mode, ..self };
        proof {
            assert(r@ =~= self@.with_extract_error_mode(mode));
        }
        r
    }

    /// Return the receiver itself after a successful native call.
    pub fn return_self(self) -> (r: SlotDef)
        ensures
            r@ == self@.with_return_self(),
    {
        let r = SlotDef { return_mode: Some(ReturnMode::ReturnSelf), ..self };
        proof {
            assert(r@ =~= self@.with_return_self());
        }
        r
    }
}

/// One declared argument kind.
pub fn ty_args1(a: Ty) -> (r: Vec<Ty>)
    ensures
        r@ =~= seq![a],
{
    let mut v: Vec<Ty> = Vec::new();
    v.push(a);
    v
}

/// Two declared argument kinds.
pub fn ty_args2(a: Ty, b: Ty) -> (r: Vec<Ty>)
    ensures
        r@ =~= seq![a, b],
{
    let mut v: Vec<Ty> = Vec::new();
    v.push(a);
    v.push(b);
    v
}

// The registry entries, each in ghost and executable form.  A unary slot is
// a plain object-to-object entry; a fallback binary slot extracts its operand
// with the "not implemented" fallback; an in-place slot additionally returns
// the receiver itself.

pub open spec fn spec_unary_slot(slot: Seq<char>) -> SlotDefV {
    SlotDefV::spec_new(slot, "unaryfunc"@)
}

fn unary_slot(slot: &str) -> (r: SlotDef)
    ensures
        r@ == spec_unary_slot(slot@),
{
    SlotDef::new(slot, "unaryfunc")
}

pub open spec fn spec_fallback_binary_slot(slot: Seq<char>) -> SlotDefV {
    SlotDefV::spec_new(slot, "binaryfunc"@).with_arguments(
        seq![Ty::ObjectOrNotImplemented],
    ).with_extract_error_mode(ExtractErrorMode::NotImplemented)
}

fn fallback_binary_slot(slot: &str) -> (r: SlotDef)
    ensures
        r@ == spec_fallback_binary_slot(slot@),
{
    SlotDef::new(slot, "binaryfunc").arguments(ty_args1(Ty::ObjectOrNotImplemented))
        .extract_error_mode(ExtractErrorMode::NotImplemented)
}

pub open spec fn spec_inplace_slot(slot: Seq<char>) -> SlotDefV {
    spec_fallback_binary_slot(slot).with_return_self()
}

fn inplace_slot(slot: &str) -> (r: SlotDef)
    ensures
        r@ == spec_inplace_slot(slot@),
{
    fallback_binary_slot(slot).return_self()
}

pub open spec fn spec_getattr_slot() -> SlotDefV {
    SlotDefV::spec_new("Py_tp_getattro"@, "getattrofunc"@).with_arguments(
        seq![Ty::Object],
    ).with_before_call_method(BeforeCall::GenericGetattrFallback)
}

pub open spec fn spec_hash_slot() -> SlotDefV {
    SlotDefV::spec_new("Py_tp_hash"@, "hashfunc"@).with_ret_ty(Ty::PyHashT)
        .with_return_conversion(ConversionKind::HashCallbackOutput)
}

pub open spec fn spec_richcmp_slot() -> SlotDefV {
    SlotDefV::spec_new("Py_tp_richcompare"@, "richcmpfunc"@).with_extract_error_mode(
        ExtractErrorMode::NotImplemented,
    ).with_arguments(seq![Ty::ObjectOrNotImplemented, Ty::CompareOp])
}

pub open spec fn spec_ipow_slot() -> SlotDefV {
    SlotDefV::spec_new("Py_nb_inplace_power"@, "ternaryfunc"@).with_arguments(
        seq![Ty::ObjectOrNotImplemented, Ty::ObjectOrNotImplemented],
    ).with_extract_error_mode(ExtractErrorMode::NotImplemented).with_return_self()
}

/// The whole-slot registry: the protocol method names whose single native
/// implementation fully determines one ABI slot, and the policy of each.
pub open spec fn spec_pyproto(name: Seq<char>) -> Option<SlotDefV> {
    if name == "__getattr__"@ {
        Some(spec_getattr_slot())
    } else if name == "__str__"@ {
        Some(SlotDefV::spec_new("Py_tp_str"@, "reprfunc"@))
    } else if name == "__repr__"@ {
        Some(SlotDefV::spec_new("Py_tp_repr"@, "reprfunc"@))
    } else if name == "__hash__"@ {
        Some(spec_hash_slot())
    } else if name == "__richcmp__"@ {
        Some(spec_richcmp_slot())
    } else if name == "__get__"@ {
        Some(
            SlotDefV::spec_new("Py_tp_descr_get"@, "descrgetfunc"@).with_arguments(
                seq![Ty::Object, Ty::Object],
            ),
        )
    } else if name == "__iter__"@ {
        Some(SlotDefV::spec_new("Py_tp_iter"@, "getiterfunc"@))
    } else if name == "__next__"@ {
        Some(
            SlotDefV::spec_new("Py_tp_iternext"@, "iternextfunc"@).with_return_conversion(
                ConversionKind::IterNextOutput,
            ),
        )
    } else if name == "__await__"@ {
        Some(spec_unary_slot("Py_am_await"@))
    } else if name == "__aiter__"@ {
        Some(spec_unary_slot("Py_am_aiter"@))
    } else if name == "__anext__"@ {
        Some(
            spec_unary_slot("Py_am_anext"@).with_return_conversion(
                ConversionKind::AIterNextOutput,
            ),
        )
    } else if name == "__len__"@ {
        Some(SlotDefV::spec_new("Py_mp_length"@, "lenfunc"@).with_ret_ty(Ty::PySsizeT))
    } else if name == "__contains__"@ {
        Some(
            SlotDefV::spec_new("Py_sq_contains"@, "objobjproc"@).with_arguments(
                seq![Ty::Object],
            ).with_ret_ty(Ty::Int),
        )
    } else if name == "__getitem__"@ {
        Some(
            SlotDefV::spec_new("Py_mp_subscript"@, "binaryfunc"@).with_arguments(
                seq![Ty::Object],
            ),
        )
    } else if name == "__pos__"@ {
        Some(spec_unary_slot("Py_nb_positive"@))
    } else if name == "__neg__"@ {
        Some(spec_unary_slot("Py_nb_negative"@))
    } else if name == "__abs__"@ {
        Some(spec_unary_slot("Py_nb_absolute"@))
    } else if name == "__invert__"@ {
        Some(spec_unary_slot("Py_nb_invert"@))
    } else if name == "__index__"@ {
        Some(spec_unary_slot("Py_nb_index"@))
    } else if name == "__int__"@ {
        Some(spec_unary_slot("Py_nb_int"@))
    } else if name == "__float__"@ {
        Some(spec_unary_slot("Py_nb_float"@))
    } else if name == "__bool__"@ {
        Some(SlotDefV::spec_new("Py_nb_bool"@, "inquiry"@).with_ret_ty(Ty::Int))
    } else if name == "__truediv__"@ {
        Some(spec_fallback_binary_slot("Py_nb_true_divide"@))
    } else if name == "__floordiv__"@ {
        Some(spec_fallback_binary_slot("Py_nb_floor_divide"@))
    } else if name == "__iadd__"@ {
        Some(spec_inplace_slot("Py_nb_inplace_add"@))
    } else if name == "__isub__"@ {
        Some(spec_inplace_slot("Py_nb_inplace_subtract"@))
    } else if name == "__imul__"@ {
        Some(spec_inplace_slot("Py_nb_inplace_multiply"@))
    } else if name == "__imatmul__"@ {
        Some(spec_inplace_slot("Py_nb_inplace_matrix_multiply"@))
    } else if name == "__itruediv__"@ {
        Some(spec_inplace_slot("Py_nb_inplace_true_divide"@))
    } else if name == "__ifloordiv__"@ {
        Some(spec_inplace_slot("Py_nb_inplace_floor_divide"@))
    } else if name == "__imod__"@ {
        Some(spec_inplace_slot("Py_nb_inplace_remainder"@))
    } else if name == "__ipow__"@ {
        Some(spec_ipow_slot())
    } else if name == "__ilshift__"@ {
        Some(spec_inplace_slot("Py_nb_inplace_lshift"@))
    } else if name == "__irshift__"@ {
        Some(spec_inplace_slot("Py_nb_inplace_rshift"@))
    } else if name == "__iand__"@ {
        Some(spec_inplace_slot("Py_nb_inplace_and"@))
    } else if name == "__ixor__"@ {
        Some(spec_inplace_slot("Py_nb_inplace_xor"@))
    } else if name == "__ior__"@ {
        Some(spec_inplace_slot("Py_nb_inplace_or"@))
    } else {
        None
    }
}

/// Look a protocol method name up in the whole-slot registry.
pub fn pyproto(method_name: &str) -> (r: Option<SlotDef>)
    ensures
        r matches Some(d) ==> spec_pyproto(method_name@) == Some(d@),
        r is None ==> spec_pyproto(method_name@) is None,
{
    if str_eq(method_name, "__getattr__") {
        let d = SlotDef::new("Py_tp_getattro", "getattrofunc").arguments(ty_args1(Ty::Object))
            .before_call_method(BeforeCall::GenericGetattrFallback);
        proof {
            assert(d@ =~= spec_getattr_slot());
        }
        Some(d)
    } else if str_eq(method_name, "__str__") {
        Some(SlotDef::new("Py_tp_str", "reprfunc"))
    } else if str_eq(method_name, "__repr__") {
        Some(SlotDef::new("Py_tp_repr", "reprfunc"))
    } else if str_eq(method_name, "__hash__") {
        let d = SlotDef::new("Py_tp_hash", "hashfunc").ret_ty(Ty::PyHashT).return_conversion(
            ConversionKind::HashCallbackOutput,
        );
        proof {
            assert(d@ =~= spec_hash_slot());
        }
        Some(d)
    } else if str_eq(method_name, "__richcmp__") {
        let d = SlotDef::new("Py_tp_richcompare", "richcmpfunc").extract_error_mode(
            ExtractErrorMode::NotImplemented,
        ).arguments(ty_args2(Ty::ObjectOrNotImplemented, Ty::CompareOp));
        proof {
            assert(d@ =~= spec_richcmp_slot());
        }
        Some(d)
    } else if str_eq(method_name, "__get__") {
        let d = SlotDef::new("Py_tp_descr_get", "descrgetfunc").arguments(
            ty_args2(Ty::Object, Ty::Object),
        );
        proof {
            assert(d@ =~= SlotDefV::spec_new("Py_tp_descr_get"@, "descrgetfunc"@).with_arguments(
                seq![Ty::Object, Ty::Object]));
        }
        Some(d)
    } else if str_eq(method_name, "__iter__") {
        Some(SlotDef::new("Py_tp_iter", "getiterfunc"))
    } else if str_eq(method_name, "__next__") {
        Some(
            SlotDef::new("Py_tp_iternext", "iternextfunc").return_conversion(
                ConversionKind::IterNextOutput,
            ),
        )
    } else if str_eq(method_name, "__await__") {
        Some(unary_slot("Py_am_await"))
    } else if str_eq(method_name, "__aiter__") {
        Some(unary_slot("Py_am_aiter"))
    } else if str_eq(method_name, "__anext__") {
        Some(unary_slot("Py_am_anext").return_conversion(ConversionKind::AIterNextOutput))
    } else if str_eq(method_name, "__len__") {
        Some(SlotDef::new("Py_mp_length", "lenfunc").ret_ty(Ty::PySsizeT))
    } else if str_eq(method_name, "__contains__") {
        let d = SlotDef::new("Py_sq_contains", "objobjproc").arguments(ty_args1(Ty::Object))
            .ret_ty(Ty::Int);
        proof {
            assert(d@ =~= SlotDefV::spec_new("Py_sq_contains"@, "objobjproc"@).with_arguments(
                seq![Ty::Object]).with_ret_ty(Ty::Int));
        }
        Some(d)
    } else if str_eq(method_name, "__getitem__") {
        let d = SlotDef::new("Py_mp_subscript", "binaryfunc").arguments(ty_args1(Ty::Object));
        proof {
            assert(d@ =~= SlotDefV::spec_new("Py_mp_subscript"@, "binaryfunc"@).with_arguments(
                seq![Ty::Object]));
        }
        Some(d)
    } else if str_eq(method_name, "__pos__") {
        Some(unary_slot("Py_nb_positive"))
    } else if str_eq(method_name, "__neg__") {
        Some(unary_slot("Py_nb_negative"))
    } else if str_eq(method_name, "__abs__") {
        Some(unary_slot("Py_nb_absolute"))
    } else if str_eq(method_name, "__invert__") {
        Some(unary_slot("Py_nb_invert"))
    } else if str_eq(method_name, "__index__") {
        Some(unary_slot("Py_nb_index"))
    } else if str_eq(method_name, "__int__") {
        Some(unary_slot("Py_nb_int"))
    } else if str_eq(method_name, "__float__") {
        Some(unary_slot("Py_nb_float"))
    } else if str_eq(method_name, "__bool__") {
        Some(SlotDef::new("Py_nb_bool", "inquiry").ret_ty(Ty::Int))
    } else if str_eq(method_name, "__truediv__") {
        Some(fallback_binary_slot("Py_nb_true_divide"))
    } else if str_eq(method_name, "__floordiv__") {
        Some(fallback_binary_slot("Py_nb_floor_divide"))
    } else if str_eq(method_name, "__iadd__") {
        Some(inplace_slot("Py_nb_inplace_add"))
    } else if str_eq(method_name, "__isub__") {
        Some(inplace_slot("Py_nb_inplace_subtract"))
    } else if str_eq(method_name, "__imul__") {
        Some(inplace_slot("Py_nb_inplace_multiply"))
    } else if str_eq(method_name, "__imatmul__") {
        Some(inplace_slot("Py_nb_inplace_matrix_multiply"))
    } else if str_eq(method_name, "__itruediv__") {
        Some(inplace_slot("Py_nb_inplace_true_divide"))
    } else if str_eq(method_name, "__ifloordiv__") {
        Some(inplace_slot("Py_nb_inplace_floor_divide"))
    } else if str_eq(method_name, "__imod__") {
        Some(inplace_slot("Py_nb_inplace_remainder"))
    } else if str_eq(method_name, "__ipow__") {
        let d = SlotDef::new("Py_nb_inplace_power", "ternaryfunc").arguments(
            ty_args2(Ty::ObjectOrNotImplemented, Ty::ObjectOrNotImplemented),
        ).extract_error_mode(ExtractErrorMode::NotImplemented).return_self();
        proof {
            assert(d@ =~= spec_ipow_slot());
        }
        Some(d)
    } else if str_eq(method_name, "__ilshift__") {
        Some(inplace_slot("Py_nb_inplace_lshift"))
    } else if str_eq(method_name, "__irshift__") {
        Some(inplace_slot("Py_nb_inplace_rshift"))
    } else if str_eq(method_name, "__iand__") {
        Some(inplace_slot("Py_nb_inplace_and"))
    } else if str_eq(method_name, "__ixor__") {
        Some(inplace_slot("Py_nb_inplace_xor"))
    } else if str_eq(method_name, "__ior__") {
        Some(inplace_slot("Py_nb_inplace_or"))
    } else {
        None
    }
}

/// Every registry entry declares only argument kinds that have an extraction
/// procedure, and never more than two of them.
pub proof fn lemma_pyproto_well_formed(name: Seq<char>)
    ensures
        spec_pyproto(name) matches Some(d) ==> d.arguments_well_formed() && d.arguments.len() <= 2,
{
}

/// Every registry slot with fallback-sentinel extraction declares only
/// operands whose conversion failure defers, beside the comparison code:
/// no argument of such a slot can surface a conversion failure as an
/// exception.
pub proof fn lemma_pyproto_fallback_operands(name: Seq<char>)
    ensures
        match spec_pyproto(name) {
            Some(d) => d.extract_error_mode == ExtractErrorMode::NotImplemented ==> forall|i: int|
                0 <= i < d.arguments.len() ==> d.arguments[i] is ObjectOrNotImplemented
                    || d.arguments[i] is CompareOp,
            None => true,
        },
{
}

/// Every registry slot that returns the receiver itself extracts its
/// operands with the fallback sentinel: the in-place operators cooperate
/// with their reflected counterparts.
pub proof fn lemma_pyproto_return_self_slots(name: Seq<char>)
    ensures
        match spec_pyproto(name) {
            Some(d) => d.return_mode == Some(ReturnMode::ReturnSelf)
                ==> d.extract_error_mode == ExtractErrorMode::NotImplemented
                    && d.before_call_method is None,
            None => true,
        },
{
}

/// Where one native-call argument comes from: the context token, or the next
/// slot argument in declaration order.
#[derive(Clone, Copy, Debug, PartialEq, Eq, Structural)]
pub enum ArgSource {
    /// The wrapper's context token.
    Python,
    /// The next extracted slot argument.
    Slot,
}

/// The native call a wrapper's body makes: the receiver type and the native
/// function's name; its arguments are listed by the surrounding body.
pub struct CallSpec {
    pub cls: RustType,
    pub name: String,
}

/// Ghost mirror of `CallSpec`.
#[verifier::ext_equal]
pub struct CallSpecV {
    pub cls: RustTypeV,
    pub name: Seq<char>,
}

impl View for CallSpec {
    type V = CallSpecV;

    open spec fn view(&self) -> CallSpecV {
        CallSpecV { cls: self.cls@, name: self.name@ }
    }
}

/// The body of a generated wrapper, in executable order: materialize the
/// receiver, run the extraction steps, invoke the native function on the
/// listed argument sources, and apply the return plan to the outcome.
pub struct BodySpec {
    pub self_conversion: Option<SelfConversion>,
    pub arg_sources: Vec<ArgSource>,
    pub conversions: Vec<ExtractStep>,
    pub call: CallSpec,
    pub return_plan: ReturnPlan,
}

/// Ghost mirror of `BodySpec`.
#[verifier::ext_equal]
pub struct BodySpecV {
    pub self_conversion: Option<SelfConversion>,
    pub arg_sources: Seq<ArgSource>,
    pub conversions: Seq<ExtractStepV>,
    pub call: CallSpecV,
    pub return_plan: ReturnPlan,
}

impl View for BodySpec {
    type V = BodySpecV;

    open spec fn view(&self) -> BodySpecV {
        BodySpecV {
            self_conversion: self.self_conversion,
            arg_sources: self.arg_sources@,
            conversions: deep_view_steps(self.conversions@),
            call: self.call@,
            return_plan: self.return_plan,
        }
    }
}

/// Everything the surrounding registration machinery needs to install one
/// generated whole-slot wrapper: the ABI slot, the wrapper's foreign
/// signature, and its body.
pub struct TrampolineSpec {
    pub slot: String,
    pub func_ty: String,
    pub method_arguments: Vec<FfiType>,
    pub ret_ty: FfiType,
    pub before_call_method: Option<BeforeCall>,
    pub body: BodySpec,
}

/// Ghost mirror of `TrampolineSpec`.
#[verifier::ext_equal]
pub struct TrampolineSpecV {
    pub slot: Seq<char>,
    pub func_ty: Seq<char>,
    pub method_arguments: Seq<FfiType>,
    pub ret_ty: FfiType,
    pub before_call_method: Option<BeforeCall>,
    pub body: BodySpecV,
}

impl View for TrampolineSpec {
    type V = TrampolineSpecV;

    open spec fn view(&self) -> TrampolineSpecV {
        TrampolineSpecV {
            slot: self.slot@,
            func_ty: self.func_ty@,
            method_arguments: self.method_arguments@,
            ret_ty: self.ret_ty,
            before_call_method: self.before_call_method,
            body: self.body@,
        }
    }
}

/// Pair each declared native argument with its source, and each non-context
/// argument with its extraction step; `k` counts the slot arguments already
/// consumed.  A native function declaring more non-context arguments than
/// the protocol's slot supplies is a definition error.
pub open spec fn spec_extract_proto_arguments(
    cls: RustTypeV,
    method_args: Seq<FnArgV>,
    proto_args: Seq<Ty>,
    k: int,
) -> Result<(Seq<ArgSource>, Seq<ExtractStepV>), DefError>
    decreases method_args.len(),
{
    if method_args.len() == 0 {
        Ok((Seq::empty(), Seq::empty()))
    } else if method_args[0].py {
        match spec_extract_proto_arguments(cls, method_args.skip(1), proto_args, k) {
            Ok(tail) => Ok((seq![ArgSource::Python] + tail.0, tail.1)),
            Err(e) => Err(e),
        }
    } else if k >= proto_args.len() {
        Err(DefError::TooManyProtoArguments { max: proto_args.len() as usize })
    } else {
        match spec_extract_proto_arguments(cls, method_args.skip(1), proto_args, k + 1) {
            Ok(tail) => Ok(
                (
                    seq![ArgSource::Slot] + tail.0,
                    seq![spec_ty_extract(proto_args[k], cls, method_args[0].ty)] + tail.1,
                ),
            ),
            Err(e) => Err(e),
        }
    }
}

/// Walk the native argument list, handing the context token through and
/// planning one extraction per non-context argument.
pub fn extract_proto_arguments(
    cls: &RustType,
    method_args: &Vec<FnArg>,
    proto_args: &Vec<Ty>,
) -> (r: Result<(Vec<ArgSource>, Vec<ExtractStep>), DefError>)
    requires
        forall|i: int| 0 <= i < proto_args@.len() ==> proto_args@[i].is_argument_kind(),
    ensures
        r matches Ok(ok) ==> spec_extract_proto_arguments(
            cls@,
            deep_view_args(method_args@),
            proto_args@,
            0,
        ) == Ok::<_, DefError>((ok.0@, deep_view_steps(ok.1@))),
        r matches Err(e) ==> spec_extract_proto_arguments(
            cls@,
            deep_view_args(method_args@),
            proto_args@,
            0,
        ) == Err::<(Seq<ArgSource>, Seq<ExtractStepV>), _>(e),
{
    let ghost av = deep_view_args(method_args@);
    let mut arg_sources: Vec<ArgSource> = Vec::new();
    let mut conversions: Vec<ExtractStep> = Vec::new();
    let mut k: usize = 0;
    let mut i: usize = 0;
    proof {
        assert(av.skip(0) =~= av);
    }
    while i < method_args.len()
        invariant
            i <= av.len(),
            k <= i,
            av.len() == method_args@.len(),
            forall|j: int| 0 <= j < proto_args@.len() ==> proto_args@[j].is_argument_kind(),
            k <= proto_args@.len(),
            forall|j: int| 0 <= j < av.len() ==> av[j] == method_args@[j]@,
            spec_extract_proto_arguments(cls@, av, proto_args@, 0) == (match
                spec_extract_proto_arguments(cls@, av.skip(i as int), proto_args@, k as int) {
                Ok(tail) => Ok::<_, DefError>(
                    (arg_sources@ + tail.0, deep_view_steps(conversions@) + tail.1),
                ),
                Err(e) => Err::<(Seq<ArgSource>, Seq<ExtractStepV>), _>(e),
            }),
        decreases av.len() - i,
    {
        let ghost pre = av.skip(i as int);
        proof {
            assert(pre[0] == av[i as int]);
            assert(pre.skip(1) =~= av.skip(i + 1));
        }
        let arg = &method_args[i];
        if arg.py {
            let ghost old_sources = arg_sources@;
            arg_sources.push(ArgSource::Python);
            proof {
                assert(arg_sources@ =~= old_sources + seq![ArgSource::Python]);
                assert forall|tail0: Seq<ArgSource>|
                    true implies old_sources + (seq![ArgSource::Python] + tail0) =~= arg_sources@
                    + tail0 by {}
            }
        } else {
            if k >= proto_args.len() {
                let n = proto_args.len();
                proof {
                    assert(pre.len() > 0);
                    assert(!pre[0].py);
                    assert(k as int >= proto_args@.len());
                    assert(spec_extract_proto_arguments(cls@, pre, proto_args@, k as int)
                        == Err::<(Seq<ArgSource>, Seq<ExtractStepV>), DefError>(
                        DefError::TooManyProtoArguments { max: n },
                    ));
                    assert(spec_extract_proto_arguments(cls@, av, proto_args@, 0)
                        == Err::<(Seq<ArgSource>, Seq<ExtractStepV>), DefError>(
                        DefError::TooManyProtoArguments { max: n },
                    ));
                    assert(av == deep_view_args(method_args@));
                }
                return Err(DefError::TooManyProtoArguments { max: n });
            }
            let step = proto_args[k].extract(cls, &arg.ty);
            let ghost old_sources = arg_sources@;
            let ghost old_steps = deep_view_steps(conversions@);
            arg_sources.push(ArgSource::Slot);
            conversions.push(step);
            k = k + 1;
            proof {
                assert(arg_sources@ =~= old_sources + seq![ArgSource::Slot]);
                assert(deep_view_steps(conversions@) =~= old_steps + seq![step@]);
                assert forall|tail0: Seq<ArgSource>|
                    true implies old_sources + (seq![ArgSource::Slot] + tail0) =~= arg_sources@
                    + tail0 by {}
                assert forall|tail1: Seq<ExtractStepV>|
                    true implies old_steps + (seq![step@] + tail1) =~= deep_view_steps(
                    conversions@,
                ) + tail1 by {}
            }
        }
        i = i + 1;
    }
    proof {
        assert(av.skip(i as int) =~= Seq::<FnArgV>::empty());
        assert(arg_sources@ + Seq::<ArgSource>::empty() =~= arg_sources@);
        assert(deep_view_steps(conversions@) + Seq::<ExtractStepV>::empty() =~= deep_view_steps(
            conversions@,
        ));
    }
    Ok((arg_sources, conversions))
}

/// The foreign ABI types of a slot's declared arguments, in order.
pub fn generate_method_arguments(arguments: &Vec<Ty>) -> (r: Vec<FfiType>)
    ensures
        r@ =~= Seq::new(arguments@.len(), |i: int| arguments@[i].spec_ffi_type()),
{
    let mut out: Vec<FfiType> = Vec::new();
    let mut i: usize = 0;
    while i < arguments.len()
        invariant
            i <= arguments@.len(),
            out@.len() == i,
            forall|j: int| 0 <= j < i ==> out@[j] == arguments@[j].spec_ffi_type(),
        decreases arguments@.len() - i,
    {
        out.push(arguments[i].ffi_type());
        i = i + 1;
    }
    out
}

/// The wrapper body for one classified method: receiver materialization,
/// argument extraction, the native call, and the return plan.
pub open spec fn spec_generate_method_body(
    cls: RustTypeV,
    spec: MethodSpecV,
    proto_args: Seq<Ty>,
    extract_error_mode: ExtractErrorMode,
    return_mode: Option<ReturnMode>,
) -> Result<BodySpecV, DefError> {
    match spec_extract_proto_arguments(cls, spec.args, proto_args, 0) {
        Ok(planned) => Ok(
            BodySpecV {
                self_conversion: spec.tp.spec_self_conversion(extract_error_mode),
                arg_sources: planned.0,
                conversions: planned.1,
                call: CallSpecV { cls: cls, name: spec.name },
                return_plan: spec_return_plan(return_mode),
            },
        ),
        Err(e) => Err(e),
    }
}

/// Assemble the wrapper body for one classified method.
pub fn generate_method_body(
    cls: &RustType,
    spec: &MethodSpec,
    proto_args: &Vec<Ty>,
    extract_error_mode: ExtractErrorMode,
    return_mode: Option<&ReturnMode>,
) -> (r: Result<BodySpec, DefError>)
    requires
        forall|i: int| 0 <= i < proto_args@.len() ==> proto_args@[i].is_argument_kind(),
    ensures
        r matches Ok(body) ==> spec_generate_method_body(
            cls@,
            spec@,
            proto_args@,
            extract_error_mode,
            match return_mode {
                Some(rm) => Some(*rm),
                None => None,
            },
        ) == Ok::<_, DefError>(body@),
        r matches Err(e) ==> spec_generate_method_body(
            cls@,
            spec@,
            proto_args@,
            extract_error_mode,
            match return_mode {
                Some(rm) => Some(*rm),
                None => None,
            },
        ) == Err::<BodySpecV, _>(e),
{
    let self_conversion = spec.tp.self_conversion(extract_error_mode);
    let planned = match extract_proto_arguments(cls, &spec.args, proto_args) {
        Ok(planned) => planned,
        Err(e) => {
            return Err(e);
        },
    };
    let return_plan = match return_mode {
        Some(rm) => rm.return_call_output(),
        None => ReturnPlan::Direct,
    };
    let body = BodySpec {
        self_conversion,
        arg_sources: planned.0,
        conversions: planned.1,
        call: CallSpec { cls: cls.dup(), name: clone_string(&spec.name) },
        return_plan,
    };
    proof {
        let rm = match return_mode {
            Some(rm) => Some(*rm),
            None => None,
        };
        let expected = spec_generate_method_body(cls@, spec@, proto_args@, extract_error_mode, rm);
        assert(expected matches Ok(b) && body@ =~= b);
    }
    Ok(body)
}

/// The installable wrapper for one whole-slot protocol method.
pub open spec fn spec_generate_type_slot(
    def: SlotDefV,
    cls: RustTypeV,
    spec: MethodSpecV,
) -> Result<TrampolineSpecV, DefError> {
    match spec_generate_method_body(
        cls,
        spec,
        def.arguments,
        def.extract_error_mode,
        def.return_mode,
    ) {
        Ok(body) => Ok(
            TrampolineSpecV {
                slot: def.slot,
                func_ty: def.func_ty,
                method_arguments: Seq::new(
                    def.arguments.len(),
                    |i: int| def.arguments[i].spec_ffi_type(),
                ),
                ret_ty: def.ret_ty.spec_ffi_type(),
                before_call_method: def.before_call_method,
                body,
            },
        ),
        Err(e) => Err(e),
    }
}

impl SlotDef {
    /// Generate the installable wrapper bridging this slot's calling
    /// convention to the given native function.
    pub fn generate_type_slot(&self, cls: &RustType, spec: &MethodSpec) -> (r: Result<
        TrampolineSpec,
        DefError,
    >)
        requires
            self@.arguments_well_formed(),
        ensures
            r matches Ok(t) ==> spec_generate_type_slot(self@, cls@, spec@) == Ok::<
                _,
                DefError,
            >(t@),
            r matches Err(e) ==> spec_generate_type_slot(self@, cls@, spec@) == Err::<
                TrampolineSpecV,
                _,
            >(e),
    {
        let method_arguments = generate_method_arguments(&self.arguments);
        let body = match generate_method_body(
            cls,
            spec,
            &self.arguments,
            self.extract_error_mode,
            self.return_mode.as_ref(),
        ) {
            Ok(body) => body,
            Err(e) => {
                return Err(e);
            },
        };
        let t = TrampolineSpec {
            slot: clone_string(&self.slot),
            func_ty: clone_string(&self.func_ty),
            method_arguments,
            ret_ty: self.ret_ty.ffi_type(),
            before_call_method: self.before_call_method,
            body,
        };
        proof {
            let expected = spec_generate_type_slot(self@, cls@, spec@);
            assert(expected matches Ok(tv) && t@ =~= tv);
        }
        Ok(t)
    }
}

} // verus!
