//! Name tokens: a name together with the source location it was written at.

use vstd::prelude::*;

use crate::span::Span;

verus! {

/// The mathematical value of an [`Ident`]: its text and its location.
///
/// Two identifiers denote the same name whenever their `name` components are
/// equal; the location only anchors diagnostics.
pub ghost struct IdentV {
    pub name: Seq<char>,
    pub span: Span,
}

/// A name token carrying its source location.  Used both as a lookup key
/// (by name text alone) and as a diagnostic anchor (by location).
#[derive(Debug)]
pub struct Ident {
    name: String,
    span: Span,
}

impl View for Ident {
    type V = IdentV;

    closed spec fn view(&self) -> IdentV {
        IdentV { name: self.name@, span: self.span }
    }
}

impl Ident {
    pub fn new(name: String, span: Span) -> (r: Ident)
        ensures
            r@ == (IdentV { name: name@, span }),
    {
        Ident { name, span }
    }

    /// The name text.
    pub fn as_str(&self) -> (r: &str)
        ensures
            r@ == self@.name,
    {
        self.name.as_str()
    }

    /// An owned copy of the name text.
    pub fn name_string(&self) -> (r: String)
        ensures
            r@ == self@.name,
    {
        self.name.clone()
    }

    /// Give up the token for its name text alone.
    pub fn into_name(self) -> (r: String)
        ensures
            r@ == self@.name,
    {
        self.name
    }

    /// The source location the name was written at.
    pub fn span(&self) -> (r: Span)
        ensures
            r == self@.span,
    {
        self.span
    }
}

impl Clone for Ident {
    fn clone(&self) -> (r: Self)
        ensures
            r@ == self@,
    {
        Ident { name: self.name.clone(), span: self.span }
    }
}

} // verus!
