//! Diagnostics: the error taxonomy of this core, and the sink that
//! accumulates errors over one compilation run.
//!
//! Fallible operations hand their caller only an [`ErrorEmitted`] marker;
//! the diagnostic itself has already been pushed onto the shared [`Handler`],
//! so one analysis run can keep collecting further, independent errors.

use vstd::prelude::*;

use crate::ident::{Ident, IdentV};
use crate::span::Span;

verus! {

/// The mathematical value of a [`CompileError`].
pub ghost enum ErrorV {
    SymbolNotFound { name: IdentV },
    UnknownVariable { name: IdentV },
    VariableShadowsConstant { name: IdentV },
    ConstantShadowsVariable { name: IdentV },
    MultipleDefinitionsOfConstant { name: IdentV },
    ConstantShadowsConstant { name: IdentV },
    MultipleDefinitionsOfName { name: IdentV },
    GenericShadowsGeneric { name: IdentV },
    MultipleStorageDeclarations { span: Span },
    NoDeclaredStorage { span: Span },
    TypeError { span: Span },
    FieldNotFound { field_name: IdentV, struct_name: Seq<char>, available_fields: Seq<char> },
    TupleIndexOutOfBounds { index: int, count: int, span: Span },
    FieldAccessOnNonStruct { span: Span, actually: Seq<char> },
    NotATuple { name: Seq<char>, span: Span, actually: Seq<char> },
    NotIndexable { name: Seq<char>, span: Span, actually: Seq<char> },
    StorageFieldDoesNotExist { field_name: IdentV },
}

/// One compile error.  Every variant carries enough context to render a
/// user-facing message; none of it feeds back into resolution logic.
#[derive(Debug)]
#[allow(inconsistent_fields)]
pub enum CompileError {
    /// A name looked up in a scope was not bound there.
    SymbolNotFound { name: Ident },
    /// The base name of a projection was not bound in the scope.
    UnknownVariable { name: Ident },
    /// A variable was declared over a constant of the same name.
    VariableShadowsConstant { name: Ident },
    /// A constant was declared over a variable of the same name.
    ConstantShadowsVariable { name: Ident },
    /// A constant was re-declared at item level.
    MultipleDefinitionsOfConstant { name: Ident },
    /// A constant re-bound an earlier constant inside an executable body.
    ConstantShadowsConstant { name: Ident },
    /// A type-like declaration re-used the name of another type-like one.
    MultipleDefinitionsOfName { name: Ident },
    /// A generic type parameter shadowed another generic type parameter.
    GenericShadowsGeneric { name: Ident },
    /// A second storage declaration appeared in one scope.
    MultipleStorageDeclarations { span: Span },
    /// Storage was accessed although no storage declaration exists.
    NoDeclaredStorage { span: Span },
    /// The type registry could not resolve a type handle.
    TypeError { span: Span },
    /// A struct has no field of the requested name; `available_fields`
    /// lists the fields it does have, comma-joined.
    FieldNotFound { field_name: Ident, struct_name: String, available_fields: String },
    /// A tuple access used an index at or beyond the tuple's arity.
    TupleIndexOutOfBounds { index: usize, count: usize, span: Span },
    /// A field access was applied to a value whose type is not a struct.
    FieldAccessOnNonStruct { span: Span, actually: String },
    /// A tuple access was applied to a value whose type is not a tuple.
    NotATuple { name: String, span: Span, actually: String },
    /// An index access was applied to a value whose type is not an array.
    NotIndexable { name: String, span: Span, actually: String },
    /// A storage access path began with a field the storage does not have.
    StorageFieldDoesNotExist { field_name: Ident },
}

impl View for CompileError {
    type V = ErrorV;

    open spec fn view(&self) -> ErrorV {
        match self {
            CompileError::SymbolNotFound { name } => ErrorV::SymbolNotFound { name: name@ },
            CompileError::UnknownVariable { name } => ErrorV::UnknownVariable { name: name@ },
            CompileError::VariableShadowsConstant { name } => ErrorV::VariableShadowsConstant {
                name: name@,
            },
            CompileError::ConstantShadowsVariable { name } => ErrorV::ConstantShadowsVariable {
                name: name@,
            },
            CompileError::MultipleDefinitionsOfConstant {
                name,
            } => ErrorV::MultipleDefinitionsOfConstant { name: name@ },
            CompileError::ConstantShadowsConstant { name } => ErrorV::ConstantShadowsConstant {
                name: name@,
            },
            CompileError::MultipleDefinitionsOfName { name } => ErrorV::MultipleDefinitionsOfName {
                name: name@,
            },
            CompileError::GenericShadowsGeneric { name } => ErrorV::GenericShadowsGeneric {
                name: name@,
            },
            CompileError::MultipleStorageDeclarations {
                span,
            } => ErrorV::MultipleStorageDeclarations { span: *span },
            CompileError::NoDeclaredStorage { span } => ErrorV::NoDeclaredStorage { span: *span },
            CompileError::TypeError { span } => ErrorV::TypeError { span: *span },
            CompileError::FieldNotFound {
                field_name,
                struct_name,
                available_fields,
            } => ErrorV::FieldNotFound {
                field_name: field_name@,
                struct_name: struct_name@,
                available_fields: available_fields@,
            },
            CompileError::TupleIndexOutOfBounds {
                index,
                count,
                span,
            } => ErrorV::TupleIndexOutOfBounds {
                index: *index as int,
                count: *count as int,
                span: *span,
            },
            CompileError::FieldAccessOnNonStruct {
                span,
                actually,
            } => ErrorV::FieldAccessOnNonStruct { span: *span, actually: actually@ },
            CompileError::NotATuple { name, span, actually } => ErrorV::NotATuple {
                name: name@,
                span: *span,
                actually: actually@,
            },
            CompileError::NotIndexable { name, span, actually } => ErrorV::NotIndexable {
                name: name@,
                span: *span,
                actually: actually@,
            },
            CompileError::StorageFieldDoesNotExist {
                field_name,
            } => ErrorV::StorageFieldDoesNotExist { field_name: field_name@ },
        }
    }
}

/// The opaque "an error was recorded" token handed back by the sink.
/// It carries no payload: the diagnostic detail already lives in the sink.
#[derive(Clone, Copy, Debug, PartialEq, Eq, Structural)]
pub struct ErrorEmitted;

/// The diagnostic sink for one compilation run.  Its view is the sequence
/// of errors recorded so far, oldest first.
#[derive(Debug)]
pub struct Handler {
    errors: Vec<CompileError>,
}

impl View for Handler {
    type V = Seq<ErrorV>;

    closed spec fn view(&self) -> Seq<ErrorV> {
        self.errors@.map_values(|e: CompileError| e@)
    }
}

impl Handler {
    /// An empty sink.
    pub fn new() -> (r: Handler)
        ensures
            r@ == Seq::<ErrorV>::empty(),
    {
        let r = Handler { errors: Vec::new() };
        proof {
            assert(r@ =~= Seq::<ErrorV>::empty());
        }
        r
    }

    /// Record one error and hand back the marker token.
    pub fn emit_err(&mut self, err: CompileError) -> (r: ErrorEmitted)
        ensures
            final(self)@ == old(self)@.push(err@),
    {
        let ghost before = self.errors@;
        self.errors.push(err);
        proof {
            assert(self.errors@.map_values(|e: CompileError| e@) =~= before.map_values(
                |e: CompileError| e@,
            ).push(self.errors@.last()@));
        }
        ErrorEmitted
    }

    /// How many errors have been recorded.
    pub fn error_count(&self) -> (n: usize)
        ensures
            n == self@.len(),
    {
        self.errors.len()
    }

    /// All recorded errors, oldest first.
    pub fn errors(&self) -> (r: &Vec<CompileError>)
        ensures
            r@.map_values(|e: CompileError| e@) == self@,
            r@.len() == self@.len(),
    {
        &self.errors
    }
}

impl Default for Handler {
    /// An empty sink.
    fn default() -> (r: Handler)
        ensures
            r@ == Seq::<ErrorV>::empty(),
    {
        Handler::new()
    }
}

} // verus!
