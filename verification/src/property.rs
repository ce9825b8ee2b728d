//! Property-accessor generation: getter and setter wrappers for computed
//! properties (backed by a native method) and for plain data fields (backed
//! by direct field access, addressed by name or by positional index).

use vstd::prelude::*;
use vstd::string::StringExecFns;

use crate::errors::DefError;
use crate::method::Deprecations;
use crate::method::FnArg;
use crate::method::MethodSpec;
use crate::method::MethodSpecV;
use crate::method::SelfConversion;
use crate::method::SelfType;
use crate::method::split_off_python_arg;
use crate::rust_type::RustType;
use crate::rust_type::RustTypeV;
use crate::strutil::clone_string;
use crate::strutil::clone_strings;
use crate::ty::ExtractErrorMode;

verus! {

/// A field or method identifier, with its rawness recorded rather than
/// spelled into the name.
pub struct FieldIdent {
    pub raw: bool,
    pub name: String,
}

/// Ghost mirror of `FieldIdent`.
#[verifier::ext_equal]
pub struct FieldIdentV {
    pub raw: bool,
    pub name: Seq<char>,
}

impl View for FieldIdent {
    type V = FieldIdentV;

    open spec fn view(&self) -> FieldIdentV {
        FieldIdentV { raw: self.raw, name: self.name@ }
    }
}

impl FieldIdent {
    /// A copy of the identifier.
    pub fn dup(&self) -> (r: FieldIdent)
        ensures
            r@ == self@,
    {
        FieldIdent { raw: self.raw, name: clone_string(&self.name) }
    }
}

/// The parts of a struct field that accessor generation reads: its
/// identifier, if the struct names its fields, and its extracted
/// documentation string.
pub struct Field {
    pub ident: Option<FieldIdent>,
    pub doc: String,
}

/// Ghost mirror of `Field`.
#[verifier::ext_equal]
pub struct FieldV {
    pub ident: Option<FieldIdentV>,
    pub doc: Seq<char>,
}

impl View for Field {
    type V = FieldV;

    open spec fn view(&self) -> FieldV {
        FieldV {
            ident: match &self.ident {
                Some(id) => Some(id@),
                None => None,
            },
            doc: self.doc@,
        }
    }
}

/// What a generated accessor wraps: a plain data field (a data descriptor)
/// or a native accessor method.
pub enum PropertyType<'a> {
    Descriptor {
        field_index: usize,
        field: &'a Field,
        python_name: Option<&'a String>,
    },
    Function {
        self_type: &'a SelfType,
        spec: &'a MethodSpec,
    },
}

/// Ghost mirror of `PropertyType`.
#[verifier::ext_equal]
pub enum PropertyTypeV {
    Descriptor { field_index: usize, field: FieldV, python_name: Option<Seq<char>> },
    Function { self_type: SelfType, spec: MethodSpecV },
}

impl<'a> View for PropertyType<'a> {
    type V = PropertyTypeV;

    open spec fn view(&self) -> PropertyTypeV {
        match self {
            PropertyType::Descriptor { field_index, field, python_name } => {
                PropertyTypeV::Descriptor {
                    field_index: *field_index,
                    field: (*field)@,
                    python_name: match python_name {
                        Some(n) => Some((*n)@),
                        None => None,
                    },
                }
            },
            PropertyType::Function { self_type, spec } => PropertyTypeV::Function {
                self_type: **self_type,
                spec: (*spec)@,
            },
        }
    }
}

/// The exposed name of a property, terminated for the foreign ABI.  An
/// explicit external name is taken as given; a named field contributes its
/// bare (unrawed) identifier; a positionally-indexed field with neither is a
/// definition error, since no name can be synthesized.
pub open spec fn spec_null_terminated_python_name(pt: PropertyTypeV) -> Result<
    Seq<char>,
    DefError,
> {
    match pt {
        PropertyTypeV::Descriptor { field, python_name, .. } => {
            match python_name {
                Some(name) => Ok(name),
                None => match field.ident {
                    Some(field_name) => Ok(field_name.name + "\0"@),
                    None => Err(DefError::TupleFieldNoName),
                },
            }
        },
        PropertyTypeV::Function { spec, .. } => Ok(spec.python_name + "\0"@),
    }
}

/// What a generated setter writes to, once the value argument is extracted.
pub enum SetterKind {
    /// Direct write to a named field of the receiver.
    NamedField(FieldIdent),
    /// Direct write to a positionally-indexed field of the receiver.
    IndexedField(usize),
    /// A call of the native setter method.
    MethodCall(AccessorCall),
}

/// Ghost mirror of `SetterKind`.
#[verifier::ext_equal]
pub enum SetterKindV {
    NamedField(FieldIdentV),
    IndexedField(usize),
    MethodCall(AccessorCallV),
}

impl View for SetterKind {
    type V = SetterKindV;

    open spec fn view(&self) -> SetterKindV {
        match self {
            SetterKind::NamedField(id) => SetterKindV::NamedField(id@),
            SetterKind::IndexedField(i) => SetterKindV::IndexedField(*i),
            SetterKind::MethodCall(c) => SetterKindV::MethodCall(c@),
        }
    }
}

/// What a generated getter reads, converted back over the boundary.  A
/// field-backed getter reads by value-preserving clone.
pub enum GetterKind {
    /// Clone of a named field of the receiver.
    NamedField(FieldIdent),
    /// Clone of a positionally-indexed field of the receiver.
    IndexedField(usize),
    /// A call of the native getter method.
    MethodCall(AccessorCall),
}

/// Ghost mirror of `GetterKind`.
#[verifier::ext_equal]
pub enum GetterKindV {
    NamedField(FieldIdentV),
    IndexedField(usize),
    MethodCall(AccessorCallV),
}

impl View for GetterKind {
    type V = GetterKindV;

    open spec fn view(&self) -> GetterKindV {
        match self {
            GetterKind::NamedField(id) => GetterKindV::NamedField(id@),
            GetterKind::IndexedField(i) => GetterKindV::IndexedField(*i),
            GetterKind::MethodCall(c) => GetterKindV::MethodCall(c@),
        }
    }
}

/// A call of a native accessor method: the receiver type, the method's name,
/// and whether the context token is passed through.
pub struct AccessorCall {
    pub cls: RustType,
    pub name: String,
    pub pass_py: bool,
}

/// Ghost mirror of `AccessorCall`.
#[verifier::ext_equal]
pub struct AccessorCallV {
    pub cls: RustTypeV,
    pub name: Seq<char>,
    pub pass_py: bool,
}

impl View for AccessorCall {
    type V = AccessorCallV;

    open spec fn view(&self) -> AccessorCallV {
        AccessorCallV { cls: self.cls@, name: self.name@, pass_py: self.pass_py }
    }
}

/// The call a setter wrapper makes, given the argument list of the native
/// setter.  A setter takes exactly one value argument, beside an optional
/// leading context token.
pub open spec fn spec_impl_call_setter(cls: RustTypeV, spec: MethodSpecV) -> Result<
    AccessorCallV,
    DefError,
> {
    let has_py = spec.args.len() > 0 && spec.args[0].py;
    let value_args = if has_py {
        spec.args.len() - 1
    } else {
        spec.args.len() as int
    };
    if value_args == 0 {
        Err(DefError::SetterNoArguments)
    } else if value_args > 1 {
        Err(DefError::SetterTooManyArguments)
    } else {
        Ok(AccessorCallV { cls, name: spec.name, pass_py: has_py })
    }
}

/// Validate a native setter's argument list and plan its call.
pub fn impl_call_setter(cls: &RustType, spec: &MethodSpec) -> (r: Result<AccessorCall, DefError>)
    ensures
        r matches Ok(c) ==> spec_impl_call_setter(cls@, spec@) == Ok::<_, DefError>(c@),
        r matches Err(e) ==> spec_impl_call_setter(cls@, spec@) == Err::<AccessorCallV, _>(e),
{
    let (py_arg, args) = split_off_python_arg(self_args(spec));
    if args.len() == 0 {
        return Err(DefError::SetterNoArguments);
    } else if args.len() > 1 {
        return Err(DefError::SetterTooManyArguments);
    }
    let c = AccessorCall {
        cls: cls.dup(),
        name: clone_string(&spec.name),
        pass_py: py_arg.is_some(),
    };
    proof {
        assert(spec_impl_call_setter(cls@, spec@) matches Ok(cv) && c@ =~= cv);
    }
    Ok(c)
}

/// The call a getter wrapper makes.  A getter takes no value argument,
/// beside an optional leading context token.
pub open spec fn spec_impl_call_getter(cls: RustTypeV, spec: MethodSpecV) -> Result<
    AccessorCallV,
    DefError,
> {
    let has_py = spec.args.len() > 0 && spec.args[0].py;
    let value_args = if has_py {
        spec.args.len() - 1
    } else {
        spec.args.len() as int
    };
    if value_args != 0 {
        Err(DefError::GetterHasArguments)
    } else {
        Ok(AccessorCallV { cls, name: spec.name, pass_py: has_py })
    }
}

/// Validate a native getter's argument list and plan its call.
pub fn impl_call_getter(cls: &RustType, spec: &MethodSpec) -> (r: Result<AccessorCall, DefError>)
    ensures
        r matches Ok(c) ==> spec_impl_call_getter(cls@, spec@) == Ok::<_, DefError>(c@),
        r matches Err(e) ==> spec_impl_call_getter(cls@, spec@) == Err::<AccessorCallV, _>(e),
{
    let (py_arg, args) = split_off_python_arg(self_args(spec));
    if args.len() > 0 {
        return Err(DefError::GetterHasArguments);
    }
    let c = AccessorCall {
        cls: cls.dup(),
        name: clone_string(&spec.name),
        pass_py: py_arg.is_some(),
    };
    proof {
        assert(spec_impl_call_getter(cls@, spec@) matches Ok(cv) && c@ =~= cv);
    }
    Ok(c)
}

/// The argument list of a method description, as a slice.
fn self_args(spec: &MethodSpec) -> (r: &[FnArg])
    ensures
        r@ == spec.args@,
{
    spec.args.as_slice()
}

/// One installable setter: the property's exposed name, its documentation,
/// the receiver borrow (always exclusive for a data descriptor), and what
/// the extracted value is written to.
pub struct PySetterDef {
    pub python_name: String,
    pub doc: String,
    pub deprecations: Deprecations,
    pub receiver: SelfConversion,
    pub kind: SetterKind,
}

/// Ghost mirror of `PySetterDef`.
#[verifier::ext_equal]
pub struct PySetterDefV {
    pub python_name: Seq<char>,
    pub doc: Seq<char>,
    pub deprecations: Seq<Seq<char>>,
    pub receiver: SelfConversion,
    pub kind: SetterKindV,
}

impl View for PySetterDef {
    type V = PySetterDefV;

    open spec fn view(&self) -> PySetterDefV {
        PySetterDefV {
            python_name: self.python_name@,
            doc: self.doc@,
            deprecations: self.deprecations@,
            receiver: self.receiver,
            kind: self.kind@,
        }
    }
}

/// One installable getter.
pub struct PyGetterDef {
    pub python_name: String,
    pub doc: String,
    pub deprecations: Deprecations,
    pub receiver: SelfConversion,
    pub kind: GetterKind,
}

/// Ghost mirror of `PyGetterDef`.
#[verifier::ext_equal]
pub struct PyGetterDefV {
    pub python_name: Seq<char>,
    pub doc: Seq<char>,
    pub deprecations: Seq<Seq<char>>,
    pub receiver: SelfConversion,
    pub kind: GetterKindV,
}

impl View for PyGetterDef {
    type V = PyGetterDefV;

    open spec fn view(&self) -> PyGetterDefV {
        PyGetterDefV {
            python_name: self.python_name@,
            doc: self.doc@,
            deprecations: self.deprecations@,
            receiver: self.receiver,
            kind: self.kind@,
        }
    }
}

/// The deprecation notices an accessor carries through: a data descriptor
/// has none; a method-backed accessor carries its method's.
pub open spec fn spec_property_deprecations(pt: PropertyTypeV) -> Seq<Seq<char>> {
    match pt {
        PropertyTypeV::Descriptor { .. } => Seq::empty(),
        PropertyTypeV::Function { spec, .. } => spec.deprecations,
    }
}

/// The documentation string an accessor carries through.
pub open spec fn spec_property_doc(pt: PropertyTypeV) -> Seq<char> {
    match pt {
        PropertyTypeV::Descriptor { field, .. } => field.doc,
        PropertyTypeV::Function { spec, .. } => spec.doc,
    }
}

/// The receiver borrow of a setter: always exclusive for a data descriptor,
/// as declared for a method-backed setter; extraction failures raise.
pub open spec fn spec_setter_receiver(pt: PropertyTypeV) -> SelfConversion {
    match pt {
        PropertyTypeV::Descriptor { .. } => SelfConversion {
            self_type: SelfType::Receiver { mutable: true },
            error_mode: ExtractErrorMode::Raise,
        },
        PropertyTypeV::Function { self_type, .. } => SelfConversion {
            self_type,
            error_mode: ExtractErrorMode::Raise,
        },
    }
}

/// The receiver borrow of a getter: shared for a data descriptor.
pub open spec fn spec_getter_receiver(pt: PropertyTypeV) -> SelfConversion {
    match pt {
        PropertyTypeV::Descriptor { .. } => SelfConversion {
            self_type: SelfType::Receiver { mutable: false },
            error_mode: ExtractErrorMode::Raise,
        },
        PropertyTypeV::Function { self_type, .. } => SelfConversion {
            self_type,
            error_mode: ExtractErrorMode::Raise,
        },
    }
}

/// The installable setter for one property.
pub open spec fn spec_impl_py_setter_def(cls: RustTypeV, pt: PropertyTypeV) -> Result<
    PySetterDefV,
    DefError,
> {
    match spec_null_terminated_python_name(pt) {
        Ok(python_name) => {
            let kind = match pt {
                PropertyTypeV::Descriptor { field, field_index, .. } => {
                    match field.ident {
                        Some(id) => Ok(SetterKindV::NamedField(id)),
                        None => Ok(SetterKindV::IndexedField(field_index)),
                    }
                },
                PropertyTypeV::Function { spec, .. } => {
                    match spec_impl_call_setter(cls, spec) {
                        Ok(c) => Ok(SetterKindV::MethodCall(c)),
                        Err(e) => Err(e),
                    }
                },
            };
            match kind {
                Ok(kind) => Ok(
                    PySetterDefV {
                        python_name,
                        doc: spec_property_doc(pt),
                        deprecations: spec_property_deprecations(pt),
                        receiver: spec_setter_receiver(pt),
                        kind,
                    },
                ),
                Err(e) => Err(e),
            }
        },
        Err(e) => Err(e),
    }
}

/// The installable getter for one property.
pub open spec fn spec_impl_py_getter_def(cls: RustTypeV, pt: PropertyTypeV) -> Result<
    PyGetterDefV,
    DefError,
> {
    match spec_null_terminated_python_name(pt) {
        Ok(python_name) => {
            let kind = match pt {
                PropertyTypeV::Descriptor { field, field_index, .. } => {
                    match field.ident {
                        Some(id) => Ok(GetterKindV::NamedField(id)),
                        None => Ok(GetterKindV::IndexedField(field_index)),
                    }
                },
                PropertyTypeV::Function { spec, .. } => {
                    match spec_impl_call_getter(cls, spec) {
                        Ok(c) => Ok(GetterKindV::MethodCall(c)),
                        Err(e) => Err(e),
                    }
                },
            };
            match kind {
                Ok(kind) => Ok(
                    PyGetterDefV {
                        python_name,
                        doc: spec_property_doc(pt),
                        deprecations: spec_property_deprecations(pt),
                        receiver: spec_getter_receiver(pt),
                        kind,
                    },
                ),
                Err(e) => Err(e),
            }
        },
        Err(e) => Err(e),
    }
}

impl<'a> PropertyType<'a> {
    /// The property's exposed, terminator-carrying name, or the definition
    /// error where none can be synthesized.
    pub fn null_terminated_python_name(&self) -> (r: Result<String, DefError>)
        ensures
            r matches Ok(s) ==> spec_null_terminated_python_name(self@) == Ok::<_, DefError>(s@),
            r matches Err(e) ==> spec_null_terminated_python_name(self@) == Err::<Seq<char>, _>(e),
    {
        match self {
            PropertyType::Descriptor { field, python_name, .. } => {
                match python_name {
                    Some(name) => Ok(clone_string(name)),
                    None => match &field.ident {
                        Some(field_name) => {
                            let mut s = clone_string(&field_name.name);
                            s.append("\0");
                            Ok(s)
                        },
                        None => Err(DefError::TupleFieldNoName),
                    },
                }
            },
            PropertyType::Function { spec, .. } => {
                let mut s = clone_string(&spec.python_name);
                s.append("\0");
                Ok(s)
            },
        }
    }

    /// The deprecation notices the accessor carries through.
    pub fn deprecations(&self) -> (r: Option<&Deprecations>)
        ensures
            r matches Some(d) ==> spec_property_deprecations(self@) == d@,
            r is None ==> spec_property_deprecations(self@) == Seq::<Seq<char>>::empty(),
    {
        match self {
            PropertyType::Descriptor { .. } => None,
            PropertyType::Function { spec, .. } => Some(&spec.deprecations),
        }
    }

    /// The documentation string the accessor carries through.
    pub fn doc(&self) -> (r: String)
        ensures
            r@ == spec_property_doc(self@),
    {
        match self {
            PropertyType::Descriptor { field, .. } => clone_string(&field.doc),
            PropertyType::Function { spec, .. } => clone_string(&spec.doc),
        }
    }

    /// A copy of the deprecation notices the accessor carries through.
    fn deprecations_owned(&self) -> (r: Deprecations)
        ensures
            r@ == spec_property_deprecations(self@),
    {
        let r = match self.deprecations() {
            Some(d) => Deprecations { notes: clone_strings(&d.notes) },
            None => Deprecations { notes: Vec::new() },
        };
        proof {
            assert(r@ =~= spec_property_deprecations(self@));
        }
        r
    }
}

/// Generate the installable setter for one property: resolve its exposed
/// name, plan the write (direct field write, or a validated method call),
/// and demand an exclusive receiver borrow.
pub fn impl_py_setter_def(cls: &RustType, property_type: &PropertyType<'_>) -> (r: Result<
    PySetterDef,
    DefError,
>)
    ensures
        r matches Ok(d) ==> spec_impl_py_setter_def(cls@, property_type@) == Ok::<_, DefError>(d@),
        r matches Err(e) ==> spec_impl_py_setter_def(cls@, property_type@) == Err::<
            PySetterDefV,
            _,
        >(e),
{
    let python_name = match property_type.null_terminated_python_name() {
        Ok(n) => n,
        Err(e) => {
            return Err(e);
        },
    };
    let deprecations = property_type.deprecations_owned();
    let doc = property_type.doc();
    let kind = match property_type {
        PropertyType::Descriptor { field, field_index, .. } => {
            match &field.ident {
                Some(ident) => SetterKind::NamedField(ident.dup()),
                None => SetterKind::IndexedField(*field_index),
            }
        },
        PropertyType::Function { spec, .. } => {
            match impl_call_setter(cls, spec) {
                Ok(c) => SetterKind::MethodCall(c),
                Err(e) => {
                    return Err(e);
                },
            }
        },
    };
    let receiver = match property_type {
        PropertyType::Descriptor { .. } => (SelfType::Receiver { mutable: true }).receiver(
            ExtractErrorMode::Raise,
        ),
        PropertyType::Function { self_type, .. } => self_type.receiver(ExtractErrorMode::Raise),
    };
    let d = PySetterDef { python_name, doc, deprecations, receiver, kind };
    proof {
        assert(spec_impl_py_setter_def(cls@, property_type@) matches Ok(dv) && d@ =~= dv);
    }
    Ok(d)
}

/// Generate the installable getter for one property: resolve its exposed
/// name, plan the read (value-preserving field clone, or a validated method
/// call), and demand a shared receiver borrow.
pub fn impl_py_getter_def(cls: &RustType, property_type: &PropertyType<'_>) -> (r: Result<
    PyGetterDef,
    DefError,
>)
    ensures
        r matches Ok(d) ==> spec_impl_py_getter_def(cls@, property_type@) == Ok::<_, DefError>(d@),
        r matches Err(e) ==> spec_impl_py_getter_def(cls@, property_type@) == Err::<
            PyGetterDefV,
            _,
        >(e),
{
    let python_name = match property_type.null_terminated_python_name() {
        Ok(n) => n,
        Err(e) => {
            return Err(e);
        },
    };
    let deprecations = property_type.deprecations_owned();
    let doc = property_type.doc();
    let kind = match property_type {
        PropertyType::Descriptor { field, field_index, .. } => {
            match &field.ident {
                Some(ident) => GetterKind::NamedField(ident.dup()),
                None => GetterKind::IndexedField(*field_index),
            }
        },
        PropertyType::Function { spec, .. } => {
            match impl_call_getter(cls, spec) {
                Ok(c) => GetterKind::MethodCall(c),
                Err(e) => {
                    return Err(e);
                },
            }
        },
    };
    let receiver = match property_type {
        PropertyType::Descriptor { .. } => (SelfType::Receiver { mutable: false }).receiver(
            ExtractErrorMode::Raise,
        ),
        PropertyType::Function { self_type, .. } => self_type.receiver(ExtractErrorMode::Raise),
    };
    let d = PyGetterDef { python_name, doc, deprecations, receiver, kind };
    proof {
        assert(spec_impl_py_getter_def(cls@, property_type@) matches Ok(dv) && d@ =~= dv);
    }
    Ok(d)
}

} // verus!
