//! Declarations as the symbol table sees them: the kinds relevant to
//! shadowing decisions, plus an `Other` bucket for everything else.

use vstd::prelude::*;

use crate::ident::{Ident, IdentV};
use crate::types::TypeId;

verus! {

/// A handle to a typed declaration.  The table stores these; bodies live in
/// the declaration registry.  Kinds irrelevant to shadowing (functions,
/// impls, ...) all fall under `Other`.
#[derive(Clone, Copy, Debug, PartialEq, Eq, Structural)]
pub enum Decl {
    /// A variable binding; `type_id` is its use-site type.
    Variable { type_id: TypeId },
    /// A constant binding; `type_id` is its use-site type.
    Constant { type_id: TypeId },
    /// A struct declaration.
    Struct,
    /// An enum declaration.
    Enum,
    /// A type alias.
    TypeAlias,
    /// A trait declaration.
    Trait,
    /// An ABI declaration.
    Abi,
    /// A generic type parameter bound in a function scope.
    GenericTypeParameter,
    /// Any declaration kind that plays no part in shadowing decisions.
    Other,
}

impl Decl {
    /// The use-site type of the declaration, where it has one.  Only
    /// value bindings can stand as the base of a projection.
    pub open spec fn spec_return_type(self) -> Option<TypeId> {
        match self {
            Decl::Variable { type_id } => Some(type_id),
            Decl::Constant { type_id } => Some(type_id),
            _ => None,
        }
    }

    /// Resolve the declaration's own use-site type, if it has one.
    pub fn return_type(&self) -> (r: Option<TypeId>)
        ensures
            r == self.spec_return_type(),
    {
        match self {
            Decl::Variable { type_id } => Some(*type_id),
            Decl::Constant { type_id } => Some(*type_id),
            _ => None,
        }
    }

    /// Whether this kind takes part in the type-like rows of the shadowing
    /// matrix: structs, enums, type aliases, traits and ABIs all contend
    /// for one name space.
    pub open spec fn is_type_like(self) -> bool {
        self is Struct || self is Enum || self is TypeAlias || self is Trait || self is Abi
    }
}

/// How a constant re-declaration at the insertion site is to be judged:
/// at item level it is an outright re-definition, inside an executable
/// body it is (diagnosed) sequential shadowing.
#[derive(Clone, Copy, Debug, PartialEq, Eq, Structural)]
pub enum ConstShadowingMode {
    ItemStyle,
    Sequential,
}

/// Whether an import brought a name in through a glob (`use path::*`).
/// Glob-imported names neither trigger nor receive shadowing diagnostics.
#[derive(Clone, Copy, Debug, PartialEq, Eq, Structural)]
pub enum GlobImport {
    Yes,
    No,
}

/// The mathematical value of a [`SynonymRecord`].
pub ghost struct SynonymRecordV {
    pub path: Seq<IdentV>,
    pub glob: GlobImport,
    pub decl: Decl,
    pub reexport: bool,
}

/// What an import statement bound a local name to: the absolute path it
/// came from, whether the import was a glob, a snapshot of the imported
/// declaration, and the re-export marker carried through from the
/// importing statement.
#[derive(Debug, Clone)]
pub struct SynonymRecord {
    pub path: Vec<Ident>,
    pub glob: GlobImport,
    pub decl: Decl,
    pub reexport: bool,
}

impl View for SynonymRecord {
    type V = SynonymRecordV;

    open spec fn view(&self) -> SynonymRecordV {
        SynonymRecordV {
            path: self.path@.map_values(|i: Ident| i@),
            glob: self.glob,
            decl: self.decl,
            reexport: self.reexport,
        }
    }
}

} // verus!
