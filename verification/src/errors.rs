//! Definition errors: faults in a method declaration that are reported at
//! generation time and are fatal to that declaration only.

use vstd::prelude::*;

verus! {

/// Everything that can be wrong with one method declaration.
#[derive(Clone, Copy, Debug, PartialEq, Eq, Structural)]
pub enum DefError {
    /// A generic type parameter on a protocol method.
    GenericTypeParam,
    /// A generic const parameter on a protocol method.
    GenericConstParam,
    /// An `async fn` offered as a protocol method.
    AsyncFunction,
    /// The module-context option on a method, where the dispatch convention
    /// has no module argument.
    PassModule,
    /// A setter with no value argument.
    SetterNoArguments,
    /// A setter with more than one value argument.
    SetterTooManyArguments,
    /// A getter with a value argument.
    GetterHasArguments,
    /// A positionally-indexed field with neither an identifier nor an
    /// explicit external name: no name can be synthesized.
    TupleFieldNoName,
    /// More non-context native arguments than the protocol's slot accepts.
    TooManyProtoArguments { max: usize },
}

impl DefError {
    pub open spec fn spec_message(self) -> Seq<char> {
        match self {
            DefError::GenericTypeParam => "Python functions cannot have generic type parameters"@,
            DefError::GenericConstParam => "Python functions cannot have generic const parameters"@,
            DefError::AsyncFunction => "`async fn` is not yet supported for Python functions"@,
            DefError::PassModule => "`pass_module` cannot be used on Python methods"@,
            DefError::SetterNoArguments => "setter function expected to have one argument"@,
            DefError::SetterTooManyArguments => "setter function can have at most two arguments ([pyo3::Python,] and value)"@,
            DefError::GetterHasArguments => "getter function can only have one argument (of type pyo3::Python)"@,
            DefError::TupleFieldNoName => "`get` and `set` with tuple struct fields require `name`"@,
            DefError::TooManyProtoArguments { .. } => "too many non-python arguments for this protocol method"@,
        }
    }

    /// The diagnostic text for this error.
    pub fn message(&self) -> (r: String)
        ensures
            r@ == self.spec_message(),
    {
        match self {
            DefError::GenericTypeParam => "Python functions cannot have generic type parameters".to_owned(),
            DefError::GenericConstParam => "Python functions cannot have generic const parameters".to_owned(),
            DefError::AsyncFunction => "`async fn` is not yet supported for Python functions".to_owned(),
            DefError::PassModule => "`pass_module` cannot be used on Python methods".to_owned(),
            DefError::SetterNoArguments => "setter function expected to have one argument".to_owned(),
            DefError::SetterTooManyArguments => "setter function can have at most two arguments ([pyo3::Python,] and value)".to_owned(),
            DefError::GetterHasArguments => "getter function can only have one argument (of type pyo3::Python)".to_owned(),
            DefError::TupleFieldNoName => "`get` and `set` with tuple struct fields require `name`".to_owned(),
            DefError::TooManyProtoArguments { .. } => "too many non-python arguments for this protocol method".to_owned(),
        }
    }
}

} // verus!
