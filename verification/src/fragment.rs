//! The fragment registry: protocol method names that do not own a whole ABI
//! slot, because several independently-defined implementations cooperate to
//! fill one shared slot (forward/reflected operator pairs, attribute and
//! item writes).  Each entry is compiled as a separable trampoline fragment
//! behind a small capability trait; the owning slot wrapper composes them.

use vstd::prelude::*;
use vstd::string::StringExecFns;

use crate::errors::DefError;
use crate::method::MethodSpec;
use crate::method::MethodSpecV;
use crate::rust_type::RustType;
use crate::rust_type::RustTypeV;
use crate::slot_def::BodySpec;
use crate::slot_def::BodySpecV;
use crate::slot_def::generate_method_arguments;
use crate::slot_def::generate_method_body;
use crate::slot_def::spec_generate_method_body;
use crate::slot_def::ty_args1;
use crate::slot_def::ty_args2;
use crate::strutil::clone_string;
use crate::strutil::str_eq;
use crate::ty::ExtractErrorMode;
use crate::ty::FfiType;
use crate::ty::Ty;

verus! {

/// One fragment-registry entry: the cooperative fragment a protocol method
/// name contributes to, and the calling convention of that fragment.
pub struct SlotFragmentDef {
    /// The fragment's name; also the method name of its capability trait.
    pub fragment: String,
    /// The kinds of the fragment's non-receiver arguments, in order.
    pub arguments: Vec<Ty>,
    /// What a failed receiver or argument extraction does at call time.
    pub extract_error_mode: ExtractErrorMode,
    /// The kind of the fragment's return value.
    pub ret_ty: Ty,
}

/// Ghost mirror of `SlotFragmentDef`.
#[verifier::ext_equal]
pub struct SlotFragmentDefV {
    pub fragment: Seq<char>,
    pub arguments: Seq<Ty>,
    pub extract_error_mode: ExtractErrorMode,
    pub ret_ty: Ty,
}

impl View for SlotFragmentDef {
    type V = SlotFragmentDefV;

    open spec fn view(&self) -> SlotFragmentDefV {
        SlotFragmentDefV {
            fragment: self.fragment@,
            arguments: self.arguments@,
            extract_error_mode: self.extract_error_mode,
            ret_ty: self.ret_ty,
        }
    }
}

impl SlotFragmentDefV {
    /// A fresh entry: propagating extraction errors, unit return.
    pub open spec fn spec_new(fragment: Seq<char>, arguments: Seq<Ty>) -> SlotFragmentDefV {
        SlotFragmentDefV {
            fragment,
            arguments,
            extract_error_mode: ExtractErrorMode::Raise,
            ret_ty: Ty::Void,
        }
    }

    pub open spec fn with_extract_error_mode(self, mode: ExtractErrorMode) -> SlotFragmentDefV {
        SlotFragmentDefV { extract_error_mode: mode, ..self }
    }

    pub open spec fn with_ret_ty(self, ret_ty: Ty) -> SlotFragmentDefV {
        SlotFragmentDefV { ret_ty, ..self }
    }

    /// Every declared argument kind has an extraction procedure.
    pub open spec fn arguments_well_formed(self) -> bool {
        forall|i: int| 0 <= i < self.arguments.len() ==> self.arguments[i].is_argument_kind()
    }
}

impl SlotFragmentDef {
    /// A fresh entry for the given fragment and argument kinds.
    pub fn new(fragment: &str, arguments: Vec<Ty>) -> (r: SlotFragmentDef)
        ensures
            r@ == SlotFragmentDefV::spec_new(fragment@, arguments@),
    {
        let r = SlotFragmentDef {
            fragment: fragment.to_owned(),
            arguments,
            extract_error_mode: ExtractErrorMode::Raise,
            ret_ty: Ty::Void,
        };
        proof {
            assert(r@ =~= SlotFragmentDefV::spec_new(fragment@, r.arguments@));
        }
        r
    }

    /// Declare what a failed extraction does at call time.
    pub fn extract_error_mode(self, mode: ExtractErrorMode) -> (r: SlotFragmentDef)
        ensures
            r@ == self@.with_extract_error_mode(mode),
    {
        let r = SlotFragmentDef { extract_error_mode: mode, ..self };
        proof {
            assert(r@ =~= self@.with_extract_error_mode(mode));
        }
        r
    }

    /// Declare the fragment's return kind.
    pub fn ret_ty(self, ret_ty: Ty) -> (r: SlotFragmentDef)
        ensures
            r@ == self@.with_ret_ty(ret_ty),
    {
        let r = SlotFragmentDef { ret_ty, ..self };
        proof {
            assert(r@ =~= self@.with_ret_ty(ret_ty));
        }
        r
    }
}

/// A forward or reflected binary numeric/bitwise operator fragment: one
/// operand extracted with the "not implemented" fallback, object return.
pub open spec fn spec_binary_num_fragment(name: Seq<char>) -> SlotFragmentDefV {
    SlotFragmentDefV::spec_new(name, seq![Ty::ObjectOrNotImplemented]).with_extract_error_mode(
        ExtractErrorMode::NotImplemented,
    ).with_ret_ty(Ty::Object)
}

fn binary_num_fragment(name: &str) -> (r: SlotFragmentDef)
    ensures
        r@ == spec_binary_num_fragment(name@),
{
    SlotFragmentDef::new(name, ty_args1(Ty::ObjectOrNotImplemented)).extract_error_mode(
        ExtractErrorMode::NotImplemented,
    ).ret_ty(Ty::Object)
}

/// A ternary power fragment: two operands, both with the "not implemented"
/// fallback, object return.
pub open spec fn spec_pow_fragment(name: Seq<char>) -> SlotFragmentDefV {
    SlotFragmentDefV::spec_new(
        name,
        seq![Ty::ObjectOrNotImplemented, Ty::ObjectOrNotImplemented],
    ).with_extract_error_mode(ExtractErrorMode::NotImplemented).with_ret_ty(Ty::Object)
}

fn pow_fragment(name: &str) -> (r: SlotFragmentDef)
    ensures
        r@ == spec_pow_fragment(name@),
{
    SlotFragmentDef::new(
        name,
        ty_args2(Ty::ObjectOrNotImplemented, Ty::ObjectOrNotImplemented),
    ).extract_error_mode(ExtractErrorMode::NotImplemented).ret_ty(Ty::Object)
}

/// A write/delete fragment carries its target as a plain object; the written
/// value, where there is one, is guaranteed non-null by the owning slot.
pub open spec fn spec_write_fragment(name: Seq<char>) -> SlotFragmentDefV {
    SlotFragmentDefV::spec_new(name, seq![Ty::Object, Ty::NonNullObject])
}

fn write_fragment(name: &str) -> (r: SlotFragmentDef)
    ensures
        r@ == spec_write_fragment(name@),
{
    SlotFragmentDef::new(name, ty_args2(Ty::Object, Ty::NonNullObject))
}

pub open spec fn spec_delete_fragment(name: Seq<char>) -> SlotFragmentDefV {
    SlotFragmentDefV::spec_new(name, seq![Ty::Object])
}

fn delete_fragment(name: &str) -> (r: SlotFragmentDef)
    ensures
        r@ == spec_delete_fragment(name@),
{
    SlotFragmentDef::new(name, ty_args1(Ty::Object))
}

/// The write/delete tier of the fragment registry.
pub open spec fn spec_write_lookup(name: Seq<char>) -> Option<SlotFragmentDefV> {
    if name == "__setattr__"@ {
        Some(spec_write_fragment("__setattr__"@))
    } else if name == "__delattr__"@ {
        Some(spec_delete_fragment("__delattr__"@))
    } else if name == "__set__"@ {
        Some(spec_write_fragment("__set__"@))
    } else if name == "__delete__"@ {
        Some(spec_delete_fragment("__delete__"@))
    } else if name == "__setitem__"@ {
        Some(spec_write_fragment("__setitem__"@))
    } else if name == "__delitem__"@ {
        Some(spec_delete_fragment("__delitem__"@))
    } else {
        None
    }
}

fn write_lookup(method_name: &str) -> (r: Option<SlotFragmentDef>)
    ensures
        r matches Some(d) ==> spec_write_lookup(method_name@) == Some(d@),
        r is None ==> spec_write_lookup(method_name@) is None,
{
    if str_eq(method_name, "__setattr__") {
        Some(write_fragment("__setattr__"))
    } else if str_eq(method_name, "__delattr__") {
        Some(delete_fragment("__delattr__"))
    } else if str_eq(method_name, "__set__") {
        Some(write_fragment("__set__"))
    } else if str_eq(method_name, "__delete__") {
        Some(delete_fragment("__delete__"))
    } else if str_eq(method_name, "__setitem__") {
        Some(write_fragment("__setitem__"))
    } else if str_eq(method_name, "__delitem__") {
        Some(delete_fragment("__delitem__"))
    } else {
        None
    }
}

/// The forward binary-operator tier of the fragment registry.
pub open spec fn spec_forward_binary_lookup(name: Seq<char>) -> Option<SlotFragmentDefV> {
    if name == "__add__"@ {
        Some(spec_binary_num_fragment("__add__"@))
    } else if name == "__sub__"@ {
        Some(spec_binary_num_fragment("__sub__"@))
    } else if name == "__mul__"@ {
        Some(spec_binary_num_fragment("__mul__"@))
    } else if name == "__matmul__"@ {
        Some(spec_binary_num_fragment("__matmul__"@))
    } else if name == "__divmod__"@ {
        Some(spec_binary_num_fragment("__divmod__"@))
    } else if name == "__mod__"@ {
        Some(spec_binary_num_fragment("__mod__"@))
    } else if name == "__lshift__"@ {
        Some(spec_binary_num_fragment("__lshift__"@))
    } else if name == "__rshift__"@ {
        Some(spec_binary_num_fragment("__rshift__"@))
    } else if name == "__and__"@ {
        Some(spec_binary_num_fragment("__and__"@))
    } else if name == "__xor__"@ {
        Some(spec_binary_num_fragment("__xor__"@))
    } else if name == "__or__"@ {
        Some(spec_binary_num_fragment("__or__"@))
    } else {
        None
    }
}

fn forward_binary_lookup(method_name: &str) -> (r: Option<SlotFragmentDef>)
    ensures
        r matches Some(d) ==> spec_forward_binary_lookup(method_name@) == Some(d@),
        r is None ==> spec_forward_binary_lookup(method_name@) is None,
{
    if str_eq(method_name, "__add__") {
        Some(binary_num_fragment("__add__"))
    } else if str_eq(method_name, "__sub__") {
        Some(binary_num_fragment("__sub__"))
    } else if str_eq(method_name, "__mul__") {
        Some(binary_num_fragment("__mul__"))
    } else if str_eq(method_name, "__matmul__") {
        Some(binary_num_fragment("__matmul__"))
    } else if str_eq(method_name, "__divmod__") {
        Some(binary_num_fragment("__divmod__"))
    } else if str_eq(method_name, "__mod__") {
        Some(binary_num_fragment("__mod__"))
    } else if str_eq(method_name, "__lshift__") {
        Some(binary_num_fragment("__lshift__"))
    } else if str_eq(method_name, "__rshift__") {
        Some(binary_num_fragment("__rshift__"))
    } else if str_eq(method_name, "__and__") {
        Some(binary_num_fragment("__and__"))
    } else if str_eq(method_name, "__xor__") {
        Some(binary_num_fragment("__xor__"))
    } else if str_eq(method_name, "__or__") {
        Some(binary_num_fragment("__or__"))
    } else {
        None
    }
}

/// The reflected binary-operator tier of the fragment registry.
pub open spec fn spec_reflected_binary_lookup(name: Seq<char>) -> Option<SlotFragmentDefV> {
    if name == "__radd__"@ {
        Some(spec_binary_num_fragment("__radd__"@))
    } else if name == "__rsub__"@ {
        Some(spec_binary_num_fragment("__rsub__"@))
    } else if name == "__rmul__"@ {
        Some(spec_binary_num_fragment("__rmul__"@))
    } else if name == "__rmatmul__"@ {
        Some(spec_binary_num_fragment("__rmatmul__"@))
    } else if name == "__rdivmod__"@ {
        Some(spec_binary_num_fragment("__rdivmod__"@))
    } else if name == "__rmod__"@ {
        Some(spec_binary_num_fragment("__rmod__"@))
    } else if name == "__rlshift__"@ {
        Some(spec_binary_num_fragment("__rlshift__"@))
    } else if name == "__rrshift__"@ {
        Some(spec_binary_num_fragment("__rrshift__"@))
    } else if name == "__rand__"@ {
        Some(spec_binary_num_fragment("__rand__"@))
    } else if name == "__rxor__"@ {
        Some(spec_binary_num_fragment("__rxor__"@))
    } else if name == "__ror__"@ {
        Some(spec_binary_num_fragment("__ror__"@))
    } else {
        None
    }
}

fn reflected_binary_lookup(method_name: &str) -> (r: Option<SlotFragmentDef>)
    ensures
        r matches Some(d) ==> spec_reflected_binary_lookup(method_name@) == Some(d@),
        r is None ==> spec_reflected_binary_lookup(method_name@) is None,
{
    if str_eq(method_name, "__radd__") {
        Some(binary_num_fragment("__radd__"))
    } else if str_eq(method_name, "__rsub__") {
        Some(binary_num_fragment("__rsub__"))
    } else if str_eq(method_name, "__rmul__") {
        Some(binary_num_fragment("__rmul__"))
    } else if str_eq(method_name, "__rmatmul__") {
        Some(binary_num_fragment("__rmatmul__"))
    } else if str_eq(method_name, "__rdivmod__") {
        Some(binary_num_fragment("__rdivmod__"))
    } else if str_eq(method_name, "__rmod__") {
        Some(binary_num_fragment("__rmod__"))
    } else if str_eq(method_name, "__rlshift__") {
        Some(binary_num_fragment("__rlshift__"))
    } else if str_eq(method_name, "__rrshift__") {
        Some(binary_num_fragment("__rrshift__"))
    } else if str_eq(method_name, "__rand__") {
        Some(binary_num_fragment("__rand__"))
    } else if str_eq(method_name, "__rxor__") {
        Some(binary_num_fragment("__rxor__"))
    } else if str_eq(method_name, "__ror__") {
        Some(binary_num_fragment("__ror__"))
    } else {
        None
    }
}

/// The power tier of the fragment registry.
pub open spec fn spec_pow_lookup(name: Seq<char>) -> Option<SlotFragmentDefV> {
    if name == "__pow__"@ {
        Some(spec_pow_fragment("__pow__"@))
    } else if name == "__rpow__"@ {
        Some(spec_pow_fragment("__rpow__"@))
    } else {
        None
    }
}

fn pow_lookup(method_name: &str) -> (r: Option<SlotFragmentDef>)
    ensures
        r matches Some(d) ==> spec_pow_lookup(method_name@) == Some(d@),
        r is None ==> spec_pow_lookup(method_name@) is None,
{
    if str_eq(method_name, "__pow__") {
        Some(pow_fragment("__pow__"))
    } else if str_eq(method_name, "__rpow__") {
        Some(pow_fragment("__rpow__"))
    } else {
        None
    }
}

/// The fragment registry: the protocol method names that cooperate through a
/// shared slot, and the fragment convention of each.
pub open spec fn spec_pyproto_fragment(name: Seq<char>) -> Option<SlotFragmentDefV> {
    if spec_write_lookup(name) is Some {
        spec_write_lookup(name)
    } else if spec_forward_binary_lookup(name) is Some {
        spec_forward_binary_lookup(name)
    } else if spec_reflected_binary_lookup(name) is Some {
        spec_reflected_binary_lookup(name)
    } else {
        spec_pow_lookup(name)
    }
}

/// Look a protocol method name up in the fragment registry.
pub fn pyproto_fragment(method_name: &str) -> (r: Option<SlotFragmentDef>)
    ensures
        r matches Some(d) ==> spec_pyproto_fragment(method_name@) == Some(d@),
        r is None ==> spec_pyproto_fragment(method_name@) is None,
{
    let r = write_lookup(method_name);
    if r.is_some() {
        return r;
    }
    let r = forward_binary_lookup(method_name);
    if r.is_some() {
        return r;
    }
    let r = reflected_binary_lookup(method_name);
    if r.is_some() {
        return r;
    }
    pow_lookup(method_name)
}

/// Every fragment entry declares only argument kinds that have an extraction
/// procedure, and never more than two of them.
pub proof fn lemma_pyproto_fragment_well_formed(name: Seq<char>)
    ensures
        spec_pyproto_fragment(name) matches Some(d) ==> d.arguments_well_formed()
            && d.arguments.len() <= 2,
{
}

/// Every fragment with fallback-sentinel extraction declares only operands
/// whose conversion failure defers: the binary and ternary operator
/// fragments never surface a conversion failure as an exception.
pub proof fn lemma_fragment_fallback_operands(name: Seq<char>)
    ensures
        match spec_pyproto_fragment(name) {
            Some(d) => d.extract_error_mode == ExtractErrorMode::NotImplemented ==> forall|i: int|
                0 <= i < d.arguments.len() ==> d.arguments[i] is ObjectOrNotImplemented,
            None => true,
        },
{
}

/// Everything the surrounding class-assembly machinery needs to install one
/// generated fragment: the capability trait, its method, the fragment's
/// foreign signature, and its body.
pub struct FragmentImplSpec {
    pub fragment_trait: String,
    pub method: String,
    pub method_arguments: Vec<FfiType>,
    pub ret_ty: FfiType,
    pub body: BodySpec,
}

/// Ghost mirror of `FragmentImplSpec`.
#[verifier::ext_equal]
pub struct FragmentImplSpecV {
    pub fragment_trait: Seq<char>,
    pub method: Seq<char>,
    pub method_arguments: Seq<FfiType>,
    pub ret_ty: FfiType,
    pub body: BodySpecV,
}

impl View for FragmentImplSpec {
    type V = FragmentImplSpecV;

    open spec fn view(&self) -> FragmentImplSpecV {
        FragmentImplSpecV {
            fragment_trait: self.fragment_trait@,
            method: self.method@,
            method_arguments: self.method_arguments@,
            ret_ty: self.ret_ty,
            body: self.body@,
        }
    }
}

/// The installable fragment for one cooperative protocol method.  The
/// capability trait is named after the fragment; the fragment's body never
/// routes through a return plan of its own: composition belongs to the
/// owning slot wrapper.
pub open spec fn spec_generate_pyproto_fragment(
    def: SlotFragmentDefV,
    cls: RustTypeV,
    spec: MethodSpecV,
) -> Result<FragmentImplSpecV, DefError> {
    match spec_generate_method_body(
        cls,
        spec,
        def.arguments,
        def.extract_error_mode,
        None,
    ) {
        Ok(body) => Ok(
            FragmentImplSpecV {
                fragment_trait: "PyClass"@ + def.fragment + "SlotFragment"@,
                method: def.fragment,
                method_arguments: Seq::new(
                    def.arguments.len(),
                    |i: int| def.arguments[i].spec_ffi_type(),
                ),
                ret_ty: def.ret_ty.spec_ffi_type(),
                body,
            },
        ),
        Err(e) => Err(e),
    }
}

impl SlotFragmentDef {
    /// Generate the installable fragment implementation for the given native
    /// function.
    pub fn generate_pyproto_fragment(&self, cls: &RustType, spec: &MethodSpec) -> (r: Result<
        FragmentImplSpec,
        DefError,
    >)
        requires
            self@.arguments_well_formed(),
        ensures
            r matches Ok(f) ==> spec_generate_pyproto_fragment(self@, cls@, spec@) == Ok::<
                _,
                DefError,
            >(f@),
            r matches Err(e) ==> spec_generate_pyproto_fragment(self@, cls@, spec@) == Err::<
                FragmentImplSpecV,
                _,
            >(e),
    {
        let mut fragment_trait = "PyClass".to_owned();
        fragment_trait.append(self.fragment.as_str());
        fragment_trait.append("SlotFragment");
        let method_arguments = generate_method_arguments(&self.arguments);
        let body = match generate_method_body(
            cls,
            spec,
            &self.arguments,
            self.extract_error_mode,
            None,
        ) {
            Ok(body) => body,
            Err(e) => {
                return Err(e);
            },
        };
        let f = FragmentImplSpec {
            fragment_trait,
            method: clone_string(&self.fragment),
            method_arguments,
            ret_ty: self.ret_ty.ffi_type(),
            body,
        };
        proof {
            let expected = spec_generate_pyproto_fragment(self@, cls@, spec@);
            assert(expected matches Ok(fv) && f@ =~= fv);
        }
        Ok(f)
    }
}

} // verus!
