//! The type and declaration registries, modelled as plain data.
//!
//! Type handles are opaque indices; a handle is resolved into a structural
//! description only through [`Engines::to_typeinfo`].  Two distinct handles
//! may well describe the same structure.

use vstd::prelude::*;
use vstd::string::StringExecFns;

use crate::diag::{CompileError, ErrorEmitted, ErrorV, Handler};
use crate::ident::{Ident, IdentV};
use crate::span::Span;
use crate::text::str_eq;

verus! {

/// An opaque handle into the type registry.  Not itself a type: resolution
/// always goes through the registry.
#[derive(Clone, Copy, Debug, PartialEq, Eq, Structural)]
pub struct TypeId {
    pub index: usize,
}

/// The mathematical value of a [`TypeInfo`].
pub ghost enum TypeInfoV {
    Struct { decl_id: int },
    Tuple { elems: Seq<TypeId> },
    Array { elem: TypeId },
    Integer,
    Boolean,
    Unknown,
}

/// The structural description of a type, as the registry reports it.
#[derive(Debug)]
pub enum TypeInfo {
    /// A struct; its fields live in the declaration registry under `decl_id`.
    Struct { decl_id: usize },
    /// A tuple of the given element types.
    Tuple { elems: Vec<TypeId> },
    /// An array; every element has the same type.
    Array { elem: TypeId },
    /// The integer type.
    Integer,
    /// The boolean type.
    Boolean,
    /// A type the registry could not resolve; looking it up fails.
    Unknown,
}

impl View for TypeInfo {
    type V = TypeInfoV;

    open spec fn view(&self) -> TypeInfoV {
        match self {
            TypeInfo::Struct { decl_id } => TypeInfoV::Struct { decl_id: *decl_id as int },
            TypeInfo::Tuple { elems } => TypeInfoV::Tuple { elems: elems@ },
            TypeInfo::Array { elem } => TypeInfoV::Array { elem: *elem },
            TypeInfo::Integer => TypeInfoV::Integer,
            TypeInfo::Boolean => TypeInfoV::Boolean,
            TypeInfo::Unknown => TypeInfoV::Unknown,
        }
    }
}

/// The mathematical value of a [`StructField`].
pub ghost struct StructFieldV {
    pub name: Seq<char>,
    pub type_id: TypeId,
}

/// One field of a struct declaration.
#[derive(Debug)]
pub struct StructField {
    pub name: String,
    pub type_id: TypeId,
}

impl View for StructField {
    type V = StructFieldV;

    open spec fn view(&self) -> StructFieldV {
        StructFieldV { name: self.name@, type_id: self.type_id }
    }
}

/// The mathematical value of a [`StructDecl`].
pub ghost struct StructDeclV {
    pub name: Seq<char>,
    pub fields: Seq<StructFieldV>,
}

/// A struct declaration: its name and its fields, in declaration order.
#[derive(Debug)]
pub struct StructDecl {
    pub name: String,
    pub fields: Vec<StructField>,
}

impl View for StructDecl {
    type V = StructDeclV;

    open spec fn view(&self) -> StructDeclV {
        StructDeclV { name: self.name@, fields: self.fields@.map_values(|f: StructField| f@) }
    }
}

/// The mathematical value of a [`StorageField`].
pub ghost struct StorageFieldV {
    pub name: Seq<char>,
    pub type_id: TypeId,
}

/// One field of a contract-storage declaration.
#[derive(Debug)]
pub struct StorageField {
    pub name: String,
    pub type_id: TypeId,
}

impl View for StorageField {
    type V = StorageFieldV;

    open spec fn view(&self) -> StorageFieldV {
        StorageFieldV { name: self.name@, type_id: self.type_id }
    }
}

impl Clone for StorageField {
    fn clone(&self) -> (r: Self)
        ensures
            r@ == self@,
    {
        StorageField { name: self.name.clone(), type_id: self.type_id }
    }
}

/// The mathematical value of a [`StorageDecl`].
pub ghost struct StorageDeclV {
    pub fields: Seq<StorageFieldV>,
}

/// A contract-storage declaration: its fields, in declaration order.
#[derive(Debug)]
pub struct StorageDecl {
    pub fields: Vec<StorageField>,
}

impl View for StorageDecl {
    type V = StorageDeclV;

    open spec fn view(&self) -> StorageDeclV {
        StorageDeclV { fields: self.fields@.map_values(|f: StorageField| f@) }
    }
}

impl StorageDecl {
    /// Resolve a storage access path against the supplied field
    /// descriptors: the leading path element must name one of them, and
    /// the access takes that descriptor's type.  Deeper path elements are
    /// carried in the access unchecked; their resolution belongs to the
    /// member-access layer, not to the storage entity.
    pub fn apply_storage_load(
        &self,
        handler: &mut Handler,
        fields: Vec<Ident>,
        storage_fields: &[StorageField],
        storage_keyword_span: Span,
    ) -> (r: Result<(StorageAccess, TypeId), ErrorEmitted>)
        requires
            fields@.len() > 0,
        ensures
            match find_storage_field(
                storage_fields@.map_values(|f: StorageField| f@),
                fields@[0]@.name,
            ) {
                Some(f) => r matches Ok(pair) && pair.0@ == (StorageAccessV {
                    fields: fields@.map_values(|i: Ident| i@),
                    storage_keyword_span,
                }) && pair.1 == f.type_id && final(handler)@ == old(handler)@,
                None => r is Err && final(handler)@ == old(handler)@.push(
                    ErrorV::StorageFieldDoesNotExist { field_name: fields@[0]@ },
                ),
            },
    {
        let first = fields[0].clone();
        let ghost fviews = storage_fields@.map_values(|f: StorageField| f@);
        proof {
            assert(fviews.skip(0) =~= fviews);
        }
        let mut i: usize = 0;
        while i < storage_fields.len()
            invariant
                i <= storage_fields.len(),
                fviews == storage_fields@.map_values(|f: StorageField| f@),
                fviews.len() == storage_fields@.len(),
                first@ == fields@[0]@,
                find_storage_field(fviews, first@.name) == find_storage_field(
                    fviews.skip(i as int),
                    first@.name,
                ),
            decreases storage_fields.len() - i,
        {
            proof {
                assert(fviews.skip(i as int)[0] == fviews[i as int]);
                assert(fviews.skip(i as int).drop_first() =~= fviews.skip(i as int + 1));
            }
            if str_eq(storage_fields[i].name.as_str(), first.as_str()) {
                let type_id = storage_fields[i].type_id;
                let access = StorageAccess { fields, storage_keyword_span };
                return Ok((access, type_id));
            }
            i += 1;
        }
        proof {
            assert(fviews.skip(storage_fields@.len() as int) =~= Seq::<StorageFieldV>::empty());
        }
        let token = handler.emit_err(CompileError::StorageFieldDoesNotExist { field_name: first });
        Err(token)
    }

    /// An owned copy of the field list, in order.
    pub fn fields_copy(&self) -> (r: Vec<StorageField>)
        ensures
            r@.map_values(|f: StorageField| f@) == self@.fields,
    {
        let mut r: Vec<StorageField> = Vec::new();
        let mut i: usize = 0;
        while i < self.fields.len()
            invariant
                i <= self.fields.len(),
                r@.map_values(|f: StorageField| f@) == self@.fields.take(i as int),
            decreases self.fields.len() - i,
        {
            let ghost before = r@;
            r.push(self.fields[i].clone());
            proof {
                assert(r@.map_values(|f: StorageField| f@) =~= before.map_values(
                    |f: StorageField| f@,
                ).push(r@.last()@));
                assert(self@.fields.take(i as int).push(self@.fields[i as int]) =~= self@.fields.take(
                    i as int + 1,
                ));
            }
            i += 1;
        }
        proof {
            assert(self@.fields.take(self@.fields.len() as int) =~= self@.fields);
        }
        r
    }
}

/// The first storage field descriptor named `name`, if any.
pub open spec fn find_storage_field(fields: Seq<StorageFieldV>, name: Seq<char>) -> Option<
    StorageFieldV,
>
    decreases fields.len(),
{
    if fields.len() == 0 {
        None
    } else if fields[0].name == name {
        Some(fields[0])
    } else {
        find_storage_field(fields.drop_first(), name)
    }
}

/// The mathematical value of a [`StorageAccess`].
pub ghost struct StorageAccessV {
    pub fields: Seq<IdentV>,
    pub storage_keyword_span: Span,
}

/// A resolved storage access: the field path as written, and the location
/// of the `storage` keyword that introduced it.
#[derive(Debug)]
pub struct StorageAccess {
    pub fields: Vec<Ident>,
    pub storage_keyword_span: Span,
}

impl View for StorageAccess {
    type V = StorageAccessV;

    open spec fn view(&self) -> StorageAccessV {
        StorageAccessV {
            fields: self.fields@.map_values(|i: Ident| i@),
            storage_keyword_span: self.storage_keyword_span,
        }
    }
}

/// A handle to a storage declaration in the declaration registry, together
/// with the location of the declaration for diagnostics.
#[derive(Clone, Copy, Debug, PartialEq, Eq, Structural)]
pub struct StorageRef {
    pub id: usize,
    pub span: Span,
}

/// The mathematical value of [`Engines`]: both registries as sequences
/// indexed by handle.
pub ghost struct EnginesV {
    pub types: Seq<TypeInfoV>,
    pub structs: Seq<StructDeclV>,
    pub storages: Seq<StorageDeclV>,
}

impl EnginesV {
    /// Every struct handle mentioned by a type entry resolves in the
    /// declaration registry.  Registry construction maintains this.
    pub open spec fn wf(self) -> bool {
        forall|i: int|
            0 <= i < self.types.len() ==> (#[trigger] self.types[i] matches TypeInfoV::Struct {
                decl_id,
            } ==> 0 <= decl_id < self.structs.len())
    }

    /// The structural description behind a handle, if the registry can
    /// resolve it.
    pub open spec fn typeinfo_of(self, t: TypeId) -> Option<TypeInfoV> {
        if t.index < self.types.len() && !(self.types[t.index as int] is Unknown) {
            Some(self.types[t.index as int])
        } else {
            None
        }
    }
}

/// The human-readable rendering of a structural kind, for diagnostics.
pub open spec fn spec_render(e: EnginesV, info: TypeInfoV) -> Seq<char> {
    match info {
        TypeInfoV::Struct { decl_id } => if 0 <= decl_id < e.structs.len() {
            e.structs[decl_id].name
        } else {
            Seq::empty()
        },
        TypeInfoV::Tuple { elems } => "tuple"@,
        TypeInfoV::Array { elem } => "array"@,
        TypeInfoV::Integer => "Int"@,
        TypeInfoV::Boolean => "Bool"@,
        TypeInfoV::Unknown => "unknown"@,
    }
}

/// The shared type and declaration registries.  Handles are indices into
/// the registries; entries, once added, are never changed, so a handle
/// always resolves to the same description.
#[derive(Debug)]
pub struct Engines {
    types: Vec<TypeInfo>,
    structs: Vec<StructDecl>,
    storages: Vec<StorageDecl>,
}

impl View for Engines {
    type V = EnginesV;

    closed spec fn view(&self) -> EnginesV {
        EnginesV {
            types: self.types@.map_values(|t: TypeInfo| t@),
            structs: self.structs@.map_values(|s: StructDecl| s@),
            storages: self.storages@.map_values(|s: StorageDecl| s@),
        }
    }
}

impl Engines {
    /// Empty registries.
    pub fn new() -> (r: Engines)
        ensures
            r@.types == Seq::<TypeInfoV>::empty(),
            r@.structs == Seq::<StructDeclV>::empty(),
            r@.storages == Seq::<StorageDeclV>::empty(),
            r@.wf(),
    {
        let r = Engines { types: Vec::new(), structs: Vec::new(), storages: Vec::new() };
        proof {
            assert(r@.types =~= Seq::<TypeInfoV>::empty());
            assert(r@.structs =~= Seq::<StructDeclV>::empty());
            assert(r@.storages =~= Seq::<StorageDeclV>::empty());
        }
        r
    }

    /// Register a type description and hand back its fresh handle.
    ///
    /// A struct description must point into the declaration registry.
    pub fn add_type(&mut self, info: TypeInfo) -> (t: TypeId)
        requires
            old(self)@.wf(),
            info@ matches TypeInfoV::Struct { decl_id } ==> 0 <= decl_id < old(
                self,
            )@.structs.len(),
        ensures
            final(self)@.types == old(self)@.types.push(info@),
            final(self)@.structs == old(self)@.structs,
            final(self)@.storages == old(self)@.storages,
            final(self)@.wf(),
            t.index == old(self)@.types.len(),
    {
        let t = TypeId { index: self.types.len() };
        let ghost before = self.types@;
        self.types.push(info);
        proof {
            assert(self.types@.map_values(|x: TypeInfo| x@) =~= before.map_values(
                |x: TypeInfo| x@,
            ).push(self.types@.last()@));
        }
        t
    }

    /// Register a struct declaration and hand back its fresh handle.
    pub fn add_struct(&mut self, decl: StructDecl) -> (id: usize)
        ensures
            final(self)@.structs == old(self)@.structs.push(decl@),
            final(self)@.types == old(self)@.types,
            final(self)@.storages == old(self)@.storages,
            old(self)@.wf() ==> final(self)@.wf(),
            id == old(self)@.structs.len(),
    {
        let id = self.structs.len();
        let ghost before = self.structs@;
        self.structs.push(decl);
        proof {
            assert(self.structs@.map_values(|x: StructDecl| x@) =~= before.map_values(
                |x: StructDecl| x@,
            ).push(self.structs@.last()@));
        }
        id
    }

    /// Register a storage declaration and hand back its fresh handle.
    pub fn add_storage(&mut self, decl: StorageDecl) -> (id: usize)
        ensures
            final(self)@.storages == old(self)@.storages.push(decl@),
            final(self)@.types == old(self)@.types,
            final(self)@.structs == old(self)@.structs,
            old(self)@.wf() ==> final(self)@.wf(),
            id == old(self)@.storages.len(),
    {
        let id = self.storages.len();
        let ghost before = self.storages@;
        self.storages.push(decl);
        proof {
            assert(self.storages@.map_values(|x: StorageDecl| x@) =~= before.map_values(
                |x: StorageDecl| x@,
            ).push(self.storages@.last()@));
        }
        id
    }

    /// Resolve a handle into its structural description, or report that the
    /// registry cannot (an unknown handle, or an unresolved entry).
    pub fn to_typeinfo(&self, t: TypeId) -> (r: Option<&TypeInfo>)
        ensures
            match r {
                Some(info) => self@.typeinfo_of(t) == Some(info@),
                None => self@.typeinfo_of(t) is None,
            },
    {
        if t.index < self.types.len() {
            let info = &self.types[t.index];
            if let TypeInfo::Unknown = info {
                None
            } else {
                Some(info)
            }
        } else {
            None
        }
    }

    /// The struct declaration behind a handle.
    pub fn get_struct(&self, decl_id: usize) -> (r: &StructDecl)
        requires
            decl_id < self@.structs.len(),
        ensures
            r@ == self@.structs[decl_id as int],
    {
        &self.structs[decl_id]
    }

    /// The storage declaration behind a reference.
    pub fn get_storage(&self, decl_ref: &StorageRef) -> (r: &StorageDecl)
        requires
            decl_ref.id < self@.storages.len(),
        ensures
            r@ == self@.storages[decl_ref.id as int],
    {
        &self.storages[decl_ref.id]
    }

    /// Render a structural kind for a diagnostic message.
    pub fn render(&self, info: &TypeInfo) -> (r: String)
        requires
            self@.wf(),
            info@ matches TypeInfoV::Struct { decl_id } ==> 0 <= decl_id < self@.structs.len(),
        ensures
            r@ == spec_render(self@, info@),
    {
        match info {
            TypeInfo::Struct { decl_id } => self.structs[*decl_id].name.clone(),
            TypeInfo::Tuple { elems } => String::from_str("tuple"),
            TypeInfo::Array { elem } => String::from_str("array"),
            TypeInfo::Integer => String::from_str("Int"),
            TypeInfo::Boolean => String::from_str("Bool"),
            TypeInfo::Unknown => String::from_str("unknown"),
        }
    }
}

} // verus!
