//! The method classifier: a protocol method name and its native description
//! enter here, and exactly one of four things comes out — a whole-slot
//! trampoline, a cooperative slot fragment, a property accessor, or an
//! ordinary callable descriptor for names that match no protocol.

use vstd::prelude::*;

use crate::errors::DefError;
use crate::fragment::FragmentImplSpec;
use crate::fragment::FragmentImplSpecV;
use crate::fragment::lemma_pyproto_fragment_well_formed;
use crate::fragment::pyproto_fragment;
use crate::fragment::spec_generate_pyproto_fragment;
use crate::fragment::spec_pyproto_fragment;
use crate::method::Deprecations;
use crate::method::FnType;
use crate::method::MethodSpec;
use crate::method::MethodSpecV;
use crate::method::PyFunctionOptions;
use crate::method::Signature;
use crate::method::SignatureV;
use crate::method::check_generic;
use crate::method::ensure_function_options_valid;
use crate::method::ensure_not_async_fn;
use crate::method::spec_check_generic;
use crate::property::PropertyType;
use crate::property::PropertyTypeV;
use crate::property::PyGetterDef;
use crate::property::PyGetterDefV;
use crate::property::PySetterDef;
use crate::property::PySetterDefV;
use crate::property::impl_py_getter_def;
use crate::property::impl_py_setter_def;
use crate::property::spec_impl_py_getter_def;
use crate::property::spec_impl_py_setter_def;
use crate::rust_type::RustType;
use crate::rust_type::RustTypeV;
use crate::slot_def::TrampolineSpec;
use crate::slot_def::TrampolineSpecV;
use crate::slot_def::lemma_pyproto_well_formed;
use crate::slot_def::pyproto;
use crate::slot_def::spec_generate_type_slot;
use crate::slot_def::spec_pyproto;
use crate::strutil::clone_string;
use crate::strutil::clone_strings;

verus! {

/// The calling-convention flags an ordinary method definition can carry.
#[derive(Clone, Copy, Debug, PartialEq, Eq, Structural)]
pub enum MethodFlag {
    /// The method receives its class rather than an instance.
    MethClass,
    /// The method receives no receiver at all.
    MethStatic,
}

/// The identity of the collaborator-generated argument-parsing wrapper
/// around one native function: the receiver type and the native name.
pub struct OrdinaryWrapper {
    pub cls: RustType,
    pub name: String,
}

/// Ghost mirror of `OrdinaryWrapper`.
#[verifier::ext_equal]
pub struct OrdinaryWrapperV {
    pub cls: RustTypeV,
    pub name: Seq<char>,
}

impl View for OrdinaryWrapper {
    type V = OrdinaryWrapperV;

    open spec fn view(&self) -> OrdinaryWrapperV {
        OrdinaryWrapperV { cls: self.cls@, name: self.name@ }
    }
}

/// One ordinary method definition: the exposed name, its documentation, an
/// optional calling-convention flag, and the wrapper to install.
pub struct MethodDef {
    pub python_name: String,
    pub doc: String,
    pub flags: Option<MethodFlag>,
    pub wrapper: OrdinaryWrapper,
}

/// Ghost mirror of `MethodDef`.
#[verifier::ext_equal]
pub struct MethodDefV {
    pub python_name: Seq<char>,
    pub doc: Seq<char>,
    pub flags: Option<MethodFlag>,
    pub wrapper: OrdinaryWrapperV,
}

impl View for MethodDef {
    type V = MethodDefV;

    open spec fn view(&self) -> MethodDefV {
        MethodDefV {
            python_name: self.python_name@,
            doc: self.doc@,
            flags: self.flags,
            wrapper: self.wrapper@,
        }
    }
}

/// One class-attribute definition: a factory evaluated on the class.
pub struct ClassAttributeDef {
    pub python_name: String,
    pub deprecations: Deprecations,
    pub cls: RustType,
    pub name: String,
}

/// Ghost mirror of `ClassAttributeDef`.
#[verifier::ext_equal]
pub struct ClassAttributeDefV {
    pub python_name: Seq<char>,
    pub deprecations: Seq<Seq<char>>,
    pub cls: RustTypeV,
    pub name: Seq<char>,
}

impl View for ClassAttributeDef {
    type V = ClassAttributeDefV;

    open spec fn view(&self) -> ClassAttributeDefV {
        ClassAttributeDefV {
            python_name: self.python_name@,
            deprecations: self.deprecations@,
            cls: self.cls@,
            name: self.name@,
        }
    }
}

/// One registration-table entry, tagged with the dispatch table it installs
/// into.
pub enum PyMethodDefType {
    /// A plain instance method.
    Method(MethodDef),
    /// A class method.
    Class(MethodDef),
    /// A static method.
    Static(MethodDef),
    /// A class attribute computed once from a native factory.
    ClassAttribute(ClassAttributeDef),
    /// A property getter.
    Getter(PyGetterDef),
    /// A property setter.
    Setter(PySetterDef),
}

/// Ghost mirror of `PyMethodDefType`.
#[verifier::ext_equal]
pub enum PyMethodDefTypeV {
    Method(MethodDefV),
    Class(MethodDefV),
    Static(MethodDefV),
    ClassAttribute(ClassAttributeDefV),
    Getter(PyGetterDefV),
    Setter(PySetterDefV),
}

impl View for PyMethodDefType {
    type V = PyMethodDefTypeV;

    open spec fn view(&self) -> PyMethodDefTypeV {
        match self {
            PyMethodDefType::Method(d) => PyMethodDefTypeV::Method(d@),
            PyMethodDefType::Class(d) => PyMethodDefTypeV::Class(d@),
            PyMethodDefType::Static(d) => PyMethodDefTypeV::Static(d@),
            PyMethodDefType::ClassAttribute(d) => PyMethodDefTypeV::ClassAttribute(d@),
            PyMethodDefType::Getter(d) => PyMethodDefTypeV::Getter(d@),
            PyMethodDefType::Setter(d) => PyMethodDefTypeV::Setter(d@),
        }
    }
}

/// Which special constructor protocol a trait-level implementation fills.
#[derive(Clone, Copy, Debug, PartialEq, Eq, Structural)]
pub enum TraitImplKind {
    /// The instance-creation protocol.
    New,
    /// The instance-call protocol.
    Call,
}

/// One trait-level implementation installing a constructor-like wrapper.
pub struct TraitImplSpec {
    pub kind: TraitImplKind,
    pub wrapper: OrdinaryWrapper,
}

/// Ghost mirror of `TraitImplSpec`.
#[verifier::ext_equal]
pub struct TraitImplSpecV {
    pub kind: TraitImplKind,
    pub wrapper: OrdinaryWrapperV,
}

impl View for TraitImplSpec {
    type V = TraitImplSpecV;

    open spec fn view(&self) -> TraitImplSpecV {
        TraitImplSpecV { kind: self.kind, wrapper: self.wrapper@ }
    }
}

/// Everything one classified protocol method can turn into.
pub enum GeneratedPyMethod {
    /// An ordinary registration-table entry.
    Method(PyMethodDefType),
    /// A whole-slot trampoline.
    Proto(TrampolineSpec),
    /// A constructor-like trait implementation.
    TraitImpl(TraitImplSpec),
    /// A cooperative slot fragment, keyed by its method name.
    SlotTraitImpl(String, FragmentImplSpec),
}

/// Ghost mirror of `GeneratedPyMethod`.
#[verifier::ext_equal]
pub enum GeneratedPyMethodV {
    Method(PyMethodDefTypeV),
    Proto(TrampolineSpecV),
    TraitImpl(TraitImplSpecV),
    SlotTraitImpl(Seq<char>, FragmentImplSpecV),
}

impl View for GeneratedPyMethod {
    type V = GeneratedPyMethodV;

    open spec fn view(&self) -> GeneratedPyMethodV {
        match self {
            GeneratedPyMethod::Method(d) => GeneratedPyMethodV::Method(d@),
            GeneratedPyMethod::Proto(t) => GeneratedPyMethodV::Proto(t@),
            GeneratedPyMethod::TraitImpl(t) => GeneratedPyMethodV::TraitImpl(t@),
            GeneratedPyMethod::SlotTraitImpl(n, f) => GeneratedPyMethodV::SlotTraitImpl(n@, f@),
        }
    }
}

/// The wrapper identity for one native function on one receiver type.
pub open spec fn spec_wrapper(cls: RustTypeV, spec: MethodSpecV) -> OrdinaryWrapperV {
    OrdinaryWrapperV { cls, name: spec.name }
}

fn make_wrapper(cls: &RustType, spec: &MethodSpec) -> (r: OrdinaryWrapper)
    ensures
        r@ == spec_wrapper(cls@, spec@),
{
    OrdinaryWrapper { cls: cls.dup(), name: clone_string(&spec.name) }
}

/// The registration entry for an ordinary method: tagged static or class
/// where the function kind says so, a plain method otherwise.
pub open spec fn spec_impl_py_method_def(
    cls: RustTypeV,
    spec: MethodSpecV,
    flags: Option<MethodFlag>,
) -> PyMethodDefTypeV {
    let def = MethodDefV {
        python_name: spec.python_name + "\0"@,
        doc: spec.doc,
        flags,
        wrapper: spec_wrapper(cls, spec),
    };
    match spec.tp {
        FnType::FnStatic => PyMethodDefTypeV::Static(def),
        FnType::FnClass => PyMethodDefTypeV::Class(def),
        _ => PyMethodDefTypeV::Method(def),
    }
}

/// Build the registration entry for an ordinary method.
pub fn impl_py_method_def(cls: &RustType, spec: &MethodSpec, flags: Option<MethodFlag>) -> (r:
    PyMethodDefType)
    ensures
        r@ == spec_impl_py_method_def(cls@, spec@, flags),
{
    let def = MethodDef {
        python_name: spec.null_terminated_python_name(),
        doc: clone_string(&spec.doc),
        flags,
        wrapper: make_wrapper(cls, spec),
    };
    proof {
        assert(def@ =~= (MethodDefV {
            python_name: spec@.python_name + "\0"@,
            doc: spec@.doc,
            flags,
            wrapper: spec_wrapper(cls@, spec@),
        }));
    }
    match spec.tp {
        FnType::FnStatic => PyMethodDefType::Static(def),
        FnType::FnClass => PyMethodDefType::Class(def),
        _ => PyMethodDefType::Method(def),
    }
}

/// The trait-level implementation filling the instance-creation protocol.
pub open spec fn spec_impl_py_method_def_new(cls: RustTypeV, spec: MethodSpecV) -> TraitImplSpecV {
    TraitImplSpecV { kind: TraitImplKind::New, wrapper: spec_wrapper(cls, spec) }
}

/// Build the trait-level implementation for the instance-creation protocol.
pub fn impl_py_method_def_new(cls: &RustType, spec: &MethodSpec) -> (r: TraitImplSpec)
    ensures
        r@ == spec_impl_py_method_def_new(cls@, spec@),
{
    TraitImplSpec { kind: TraitImplKind::New, wrapper: make_wrapper(cls, spec) }
}

/// The trait-level implementation filling the instance-call protocol.
pub open spec fn spec_impl_py_method_def_call(cls: RustTypeV, spec: MethodSpecV) -> TraitImplSpecV {
    TraitImplSpecV { kind: TraitImplKind::Call, wrapper: spec_wrapper(cls, spec) }
}

/// Build the trait-level implementation for the instance-call protocol.
pub fn impl_py_method_def_call(cls: &RustType, spec: &MethodSpec) -> (r: TraitImplSpec)
    ensures
        r@ == spec_impl_py_method_def_call(cls@, spec@),
{
    TraitImplSpec { kind: TraitImplKind::Call, wrapper: make_wrapper(cls, spec) }
}

/// The registration entry for a class attribute: its factory is the native
/// function itself, evaluated with only the context token.
pub open spec fn spec_impl_py_class_attribute(
    cls: RustTypeV,
    spec: MethodSpecV,
) -> ClassAttributeDefV {
    ClassAttributeDefV {
        python_name: spec.python_name + "\0"@,
        deprecations: spec.deprecations,
        cls,
        name: spec.name,
    }
}

/// Build the registration entry for a class attribute.
pub fn impl_py_class_attribute(cls: &RustType, spec: &MethodSpec) -> (r: ClassAttributeDef)
    ensures
        r@ == spec_impl_py_class_attribute(cls@, spec@),
{
    let r = ClassAttributeDef {
        python_name: spec.null_terminated_python_name(),
        deprecations: Deprecations { notes: clone_strings(&spec.deprecations.notes) },
        cls: cls.dup(),
        name: clone_string(&spec.name),
    };
    proof {
        assert(r@ =~= spec_impl_py_class_attribute(cls@, spec@));
    }
    r
}

/// What the classifier produces for a method name that matches no protocol
/// table: an ordinary registration entry keyed off the function kind.
pub open spec fn spec_gen_ordinary(cls: RustTypeV, spec: MethodSpecV) -> Result<
    GeneratedPyMethodV,
    DefError,
> {
    match spec.tp {
        FnType::Fn(_) => Ok(GeneratedPyMethodV::Method(spec_impl_py_method_def(cls, spec, None))),
        FnType::FnClass => Ok(
            GeneratedPyMethodV::Method(
                spec_impl_py_method_def(cls, spec, Some(MethodFlag::MethClass)),
            ),
        ),
        FnType::FnStatic => Ok(
            GeneratedPyMethodV::Method(
                spec_impl_py_method_def(cls, spec, Some(MethodFlag::MethStatic)),
            ),
        ),
        FnType::FnNew => Ok(GeneratedPyMethodV::TraitImpl(spec_impl_py_method_def_new(cls, spec))),
        FnType::FnCall(_) => Ok(
            GeneratedPyMethodV::TraitImpl(spec_impl_py_method_def_call(cls, spec)),
        ),
        FnType::ClassAttribute => Ok(
            GeneratedPyMethodV::Method(
                PyMethodDefTypeV::ClassAttribute(spec_impl_py_class_attribute(cls, spec)),
            ),
        ),
        FnType::Getter(st) => {
            match spec_impl_py_getter_def(
                cls,
                PropertyTypeV::Function { self_type: st, spec: spec },
            ) {
                Ok(d) => Ok(GeneratedPyMethodV::Method(PyMethodDefTypeV::Getter(d))),
                Err(e) => Err(e),
            }
        },
        FnType::Setter(st) => {
            match spec_impl_py_setter_def(
                cls,
                PropertyTypeV::Function { self_type: st, spec: spec },
            ) {
                Ok(d) => Ok(GeneratedPyMethodV::Method(PyMethodDefTypeV::Setter(d))),
                Err(e) => Err(e),
            }
        },
        FnType::FnModule => vstd::pervasive::arbitrary(),
    }
}

/// The whole classification: validation, the two registry lookups in order,
/// then the ordinary-method fallback.
pub open spec fn spec_gen_py_method(
    cls: RustTypeV,
    sig: SignatureV,
    spec: MethodSpecV,
    pass_module: bool,
) -> Result<GeneratedPyMethodV, DefError> {
    match spec_check_generic(sig.generics) {
        Some(e) => Err(e),
        None => {
            if sig.asyncness {
                Err(DefError::AsyncFunction)
            } else if pass_module {
                Err(DefError::PassModule)
            } else {
                match spec_pyproto(spec.python_name) {
                    Some(def) => match spec_generate_type_slot(def, cls, spec) {
                        Ok(t) => Ok(GeneratedPyMethodV::Proto(t)),
                        Err(e) => Err(e),
                    },
                    None => match spec_pyproto_fragment(spec.python_name) {
                        Some(def) => match spec_generate_pyproto_fragment(def, cls, spec) {
                            Ok(f) => Ok(GeneratedPyMethodV::SlotTraitImpl(spec.python_name, f)),
                            Err(e) => Err(e),
                        },
                        None => spec_gen_ordinary(cls, spec),
                    },
                }
            }
        },
    }
}

/// Classify one method: validate its signature and options, look its name up
/// in the whole-slot registry and then the fragment registry, and fall back
/// to an ordinary callable where neither matches.  A definition error is
/// fatal to this declaration only.
pub fn gen_py_method(
    cls: &RustType,
    sig: &Signature,
    spec: &MethodSpec,
    options: &PyFunctionOptions,
) -> (r: Result<GeneratedPyMethod, DefError>)
    requires
        !(spec.tp is FnModule),
    ensures
        r matches Ok(g) ==> spec_gen_py_method(cls@, sig@, spec@, options.pass_module) == Ok::<
            _,
            DefError,
        >(g@),
        r matches Err(e) ==> spec_gen_py_method(cls@, sig@, spec@, options.pass_module) == Err::<
            GeneratedPyMethodV,
            _,
        >(e),
{
    match check_generic(sig) {
        Ok(_) => {},
        Err(e) => {
            return Err(e);
        },
    }
    match ensure_not_async_fn(sig) {
        Ok(_) => {},
        Err(e) => {
            return Err(e);
        },
    }
    match ensure_function_options_valid(options) {
        Ok(_) => {},
        Err(e) => {
            return Err(e);
        },
    }

    let method_name = spec.python_name.as_str();

    if let Some(slot_def) = pyproto(method_name) {
        proof {
            lemma_pyproto_well_formed(method_name@);
        }
        let slot = match slot_def.generate_type_slot(cls, spec) {
            Ok(slot) => slot,
            Err(e) => {
                return Err(e);
            },
        };
        return Ok(GeneratedPyMethod::Proto(slot));
    }

    if let Some(slot_fragment_def) = pyproto_fragment(method_name) {
        proof {
            lemma_pyproto_fragment_well_formed(method_name@);
        }
        let proto = match slot_fragment_def.generate_pyproto_fragment(cls, spec) {
            Ok(proto) => proto,
            Err(e) => {
                return Err(e);
            },
        };
        return Ok(GeneratedPyMethod::SlotTraitImpl(clone_string(&spec.python_name), proto));
    }

    match &spec.tp {
        FnType::Fn(_) => Ok(GeneratedPyMethod::Method(impl_py_method_def(cls, spec, None))),
        FnType::FnClass => Ok(
            GeneratedPyMethod::Method(impl_py_method_def(cls, spec, Some(MethodFlag::MethClass))),
        ),
        FnType::FnStatic => Ok(
            GeneratedPyMethod::Method(impl_py_method_def(cls, spec, Some(MethodFlag::MethStatic))),
        ),
        FnType::FnNew => Ok(GeneratedPyMethod::TraitImpl(impl_py_method_def_new(cls, spec))),
        FnType::FnCall(_) => Ok(GeneratedPyMethod::TraitImpl(impl_py_method_def_call(cls, spec))),
        FnType::ClassAttribute => Ok(
            GeneratedPyMethod::Method(
                PyMethodDefType::ClassAttribute(impl_py_class_attribute(cls, spec)),
            ),
        ),
        FnType::Getter(self_type) => {
            match impl_py_getter_def(cls, &(PropertyType::Function { self_type, spec })) {
                Ok(d) => Ok(GeneratedPyMethod::Method(PyMethodDefType::Getter(d))),
                Err(e) => Err(e),
            }
        },
        FnType::Setter(self_type) => {
            match impl_py_setter_def(cls, &(PropertyType::Function { self_type, spec })) {
                Ok(d) => Ok(GeneratedPyMethod::Method(PyMethodDefType::Setter(d))),
                Err(e) => Err(e),
            }
        },
        FnType::FnModule => vstd::pervasive::unreached(),
    }
}

} // verus!
