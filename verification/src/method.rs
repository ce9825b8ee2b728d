//! The native-function description a collaborator hands to the generator:
//! name, argument list, receiver contract, and the validation that runs
//! before any classification.

use vstd::prelude::*;
use vstd::string::StringExecFns;

use crate::errors::DefError;
use crate::strutil::clone_string;
use crate::rust_type::RustType;
use crate::rust_type::RustTypeV;
use crate::ty::ExtractErrorMode;

verus! {

/// One kind of generic parameter on a native signature.
#[derive(Clone, Copy, Debug, PartialEq, Eq, Structural)]
pub enum GenericParamKind {
    Lifetime,
    Type,
    Const,
}

/// The parts of a native signature that validation inspects.
pub struct Signature {
    pub generics: Vec<GenericParamKind>,
    pub asyncness: bool,
}

/// Ghost mirror of `Signature`.
#[verifier::ext_equal]
pub struct SignatureV {
    pub generics: Seq<GenericParamKind>,
    pub asyncness: bool,
}

impl View for Signature {
    type V = SignatureV;

    open spec fn view(&self) -> SignatureV {
        SignatureV { generics: self.generics@, asyncness: self.asyncness }
    }
}

/// How to obtain the receiver from the raw self pointer.
#[derive(Clone, Copy, Debug, PartialEq, Eq, Structural)]
pub enum SelfType {
    /// A borrow of the receiver, shared or exclusive.
    Receiver { mutable: bool },
    /// The receiver is materialized from the owning cell type.
    TryFromPyCell,
}

/// The receiver-materialization step at the head of a generated wrapper.
#[derive(Clone, Copy, Debug, PartialEq, Eq, Structural)]
pub struct SelfConversion {
    pub self_type: SelfType,
    pub error_mode: ExtractErrorMode,
}

impl SelfType {
    /// The receiver-materialization step for this receiver contract under the
    /// given extraction-failure policy.
    pub fn receiver(&self, error_mode: ExtractErrorMode) -> (r: SelfConversion)
        ensures
            r == (SelfConversion { self_type: *self, error_mode }),
    {
        SelfConversion { self_type: *self, error_mode }
    }
}

/// The classification a collaborator already made of how the native function
/// is declared (plain method, constructor, accessor, ...).
#[derive(Clone, Copy, Debug, PartialEq, Eq, Structural)]
pub enum FnType {
    Getter(SelfType),
    Setter(SelfType),
    Fn(SelfType),
    FnCall(SelfType),
    FnNew,
    FnClass,
    FnStatic,
    ClassAttribute,
    FnModule,
}

impl FnType {
    /// The receiver step for this function kind, or none where the kind has
    /// no receiver.
    pub fn self_conversion(&self, error_mode: ExtractErrorMode) -> (r: Option<SelfConversion>)
        ensures
            r == self.spec_self_conversion(error_mode),
    {
        match self {
            FnType::Getter(st) | FnType::Setter(st) | FnType::Fn(st) | FnType::FnCall(st) => Some(
                st.receiver(error_mode),
            ),
            FnType::FnNew | FnType::FnClass | FnType::FnStatic | FnType::ClassAttribute
                | FnType::FnModule => None,
        }
    }

    pub open spec fn spec_self_conversion(self, error_mode: ExtractErrorMode) -> Option<
        SelfConversion,
    > {
        match self {
            FnType::Getter(st) | FnType::Setter(st) | FnType::Fn(st) | FnType::FnCall(st) => Some(
                SelfConversion { self_type: st, error_mode },
            ),
            FnType::FnNew | FnType::FnClass | FnType::FnStatic | FnType::ClassAttribute
                | FnType::FnModule => None,
        }
    }
}

/// One declared argument of the native function: whether it is the
/// context-token parameter, and its declared type.
pub struct FnArg {
    pub py: bool,
    pub ty: RustType,
}

/// Ghost mirror of `FnArg`.
#[verifier::ext_equal]
pub struct FnArgV {
    pub py: bool,
    pub ty: RustTypeV,
}

impl View for FnArg {
    type V = FnArgV;

    open spec fn view(&self) -> FnArgV {
        FnArgV { py: self.py, ty: self.ty@ }
    }
}

/// Collected deprecation notices attached to a declaration; carried through
/// to the emitted wrapper, never interpreted here.
pub struct Deprecations {
    pub notes: Vec<String>,
}

impl View for Deprecations {
    type V = Seq<Seq<char>>;

    open spec fn view(&self) -> Seq<Seq<char>> {
        Seq::new(self.notes@.len(), |i: int| self.notes@[i]@)
    }
}

/// The parsed description of one native function, as the collaborating
/// parser supplies it.
pub struct MethodSpec {
    pub tp: FnType,
    /// The native function's name.
    pub name: String,
    /// The method name the foreign runtime dispatches on.
    pub python_name: String,
    pub args: Vec<FnArg>,
    pub doc: String,
    pub deprecations: Deprecations,
}

/// The ghost views of a list of declared arguments.
pub open spec fn deep_view_args(v: Seq<FnArg>) -> Seq<FnArgV> {
    Seq::new(v.len(), |i: int| v[i]@)
}

/// Ghost mirror of `MethodSpec`.
#[verifier::ext_equal]
pub struct MethodSpecV {
    pub tp: FnType,
    pub name: Seq<char>,
    pub python_name: Seq<char>,
    pub args: Seq<FnArgV>,
    pub doc: Seq<char>,
    pub deprecations: Seq<Seq<char>>,
}

impl View for MethodSpec {
    type V = MethodSpecV;

    open spec fn view(&self) -> MethodSpecV {
        MethodSpecV {
            tp: self.tp,
            name: self.name@,
            python_name: self.python_name@,
            args: deep_view_args(self.args@),
            doc: self.doc@,
            deprecations: self.deprecations@,
        }
    }
}

impl MethodSpec {
    /// The method name the foreign runtime dispatches on, terminated for the
    /// foreign ABI.
    pub fn null_terminated_python_name(&self) -> (r: String)
        ensures
            r@ == self.python_name@ + "\0"@,
    {
        let mut s = clone_string(&self.python_name);
        s.append("\0");
        s
    }
}

/// The options a declaration can carry; the only one validation cares about
/// is the request to pass the module context.
pub struct PyFunctionOptions {
    pub pass_module: bool,
}

/// The first definition error among the generic parameters, if any: a type
/// or const parameter is rejected, lifetimes are permitted.
pub open spec fn spec_check_generic(params: Seq<GenericParamKind>) -> Option<DefError>
    decreases params.len(),
{
    if params.len() == 0 {
        None
    } else {
        match params[0] {
            GenericParamKind::Lifetime => spec_check_generic(params.skip(1)),
            GenericParamKind::Type => Some(DefError::GenericTypeParam),
            GenericParamKind::Const => Some(DefError::GenericConstParam),
        }
    }
}

/// The generic check passes exactly when every parameter is a lifetime.
pub proof fn lemma_check_generic_ok(params: Seq<GenericParamKind>)
    ensures
        spec_check_generic(params) is None <==> (forall|i: int|
            0 <= i < params.len() ==> params[i] is Lifetime),
    decreases params.len(),
{
    if params.len() > 0 {
        lemma_check_generic_ok(params.skip(1));
        assert(forall|i: int|
            0 <= i < params.skip(1).len() ==> params.skip(1)[i] == params[i + 1]);
        if params[0] is Lifetime {
            if spec_check_generic(params) is None {
                assert forall|i: int| 0 <= i < params.len() implies params[i] is Lifetime by {
                    if i > 0 {
                        assert(params.skip(1)[i - 1] == params[i]);
                    }
                }
            }
            if forall|i: int| 0 <= i < params.len() ==> params[i] is Lifetime {
                assert(forall|i: int|
                    0 <= i < params.skip(1).len() ==> params.skip(1)[i] is Lifetime);
            }
        }
    }
}

/// Reject generic type and const parameters: the native function must be
/// usable without per-call specialization.
pub fn check_generic(sig: &Signature) -> (r: Result<(), DefError>)
    ensures
        r matches Err(e) ==> spec_check_generic(sig.generics@) == Some(e),
        r is Ok <==> spec_check_generic(sig.generics@) is None,
{
    let mut i: usize = 0;
    proof {
        assert(sig.generics@.skip(0) =~= sig.generics@);
    }
    while i < sig.generics.len()
        invariant
            i <= sig.generics@.len(),
            spec_check_generic(sig.generics@) == spec_check_generic(sig.generics@.skip(i as int)),
        decreases sig.generics@.len() - i,
    {
        let ghost pre = sig.generics@.skip(i as int);
        match sig.generics[i] {
            GenericParamKind::Lifetime => {},
            GenericParamKind::Type => {
                return Err(DefError::GenericTypeParam);
            },
            GenericParamKind::Const => {
                return Err(DefError::GenericConstParam);
            },
        }
        proof {
            assert(pre.skip(1) =~= sig.generics@.skip(i + 1));
        }
        i = i + 1;
    }
    Ok(())
}

/// Reject an `async fn`: the foreign calling convention is synchronous.
pub fn ensure_not_async_fn(sig: &Signature) -> (r: Result<(), DefError>)
    ensures
        r is Ok <==> !sig.asyncness,
        r matches Err(e) ==> e == DefError::AsyncFunction,
{
    if sig.asyncness {
        Err(DefError::AsyncFunction)
    } else {
        Ok(())
    }
}

/// Reject the module-context option: protocol dispatch has no module slot.
pub fn ensure_function_options_valid(options: &PyFunctionOptions) -> (r: Result<(), DefError>)
    ensures
        r is Ok <==> !options.pass_module,
        r matches Err(e) ==> e == DefError::PassModule,
{
    if options.pass_module {
        Err(DefError::PassModule)
    } else {
        Ok(())
    }
}

/// Split the context-token argument off the front of the argument list, if
/// one is present.
pub fn split_off_python_arg<'a>(args: &'a [FnArg]) -> (r: (Option<&'a FnArg>, &'a [FnArg]))
    ensures
        args@.len() > 0 && args@[0].py ==> {
            &&& r.0 matches Some(a) && *a == args@[0]
            &&& r.1@ =~= args@.skip(1)
        },
        !(args@.len() > 0 && args@[0].py) ==> r.0 is None && r.1@ == args@,
{
    if args.len() > 0 && args[0].py {
        let (_, rest) = args.split_at(1);
        proof {
            assert(rest@ =~= args@.skip(1));
        }
        (Some(&args[0]), rest)
    } else {
        (None, args)
    }
}

} // verus!
