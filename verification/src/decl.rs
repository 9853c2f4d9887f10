//! The declarations that generated code is made of.
//!
//! These are the parts shared by the generators: a typed name, which is a
//! parameter in a signature and a field in a record; the raw record, whose
//! fields lie one after another as the native side lays them out; the
//! idiomatic value type; and the overlay union.

use vstd::prelude::*;
use crate::types::{CsType, CsTypeView};

verus! {

/// A name together with its type: a parameter, or a field.
#[derive(Debug, PartialEq, Eq, Hash)]
pub struct TypedIdent {
    pub ty: CsType,
    pub ident: String,
}

/// The view of [`TypedIdent`].
pub struct TypedIdentView {
    pub ty: CsTypeView,
    pub ident: Seq<char>,
}

impl View for TypedIdent {
    type V = TypedIdentView;

    open spec fn view(&self) -> TypedIdentView {
        TypedIdentView { ty: self.ty@, ident: self.ident@ }
    }
}

/// The views of a list of typed names, in order.
pub open spec fn typed_idents_view(items: Seq<TypedIdent>) -> Seq<TypedIdentView> {
    Seq::new(items.len(), |i: int| items[i]@)
}

impl Clone for TypedIdent {
    fn clone(&self) -> (r: TypedIdent)
        ensures
            r@ == self@,
    {
        TypedIdent { ty: self.ty.clone(), ident: self.ident.clone() }
    }
}

/// Copies a list of typed names.
pub fn clone_typed_idents(items: &Vec<TypedIdent>) -> (r: Vec<TypedIdent>)
    ensures
        typed_idents_view(r@) == typed_idents_view(items@),
{
    let mut r: Vec<TypedIdent> = Vec::new();
    let mut i: usize = 0;
    while i < items.len()
        invariant
            i <= items.len(),
            r.len() == i,
            forall|j: int| 0 <= j < i ==> (#[trigger] r@[j])@ == items@[j]@,
        decreases items.len() - i,
    {
        r.push(items[i].clone());
        i += 1;
    }
    assert(typed_idents_view(r@) =~= typed_idents_view(items@));
    r
}

/// A record with sequential layout: the fields occupy memory in the order
/// given, each with the layout of its raw type.
#[derive(Debug, PartialEq, Eq, Hash)]
pub struct RawRecord {
    pub name: String,
    pub fields: Vec<TypedIdent>,
}

/// The view of [`RawRecord`].
pub struct RawRecordView {
    pub name: Seq<char>,
    pub fields: Seq<TypedIdentView>,
}

impl View for RawRecord {
    type V = RawRecordView;

    open spec fn view(&self) -> RawRecordView {
        RawRecordView { name: self.name@, fields: typed_idents_view(self.fields@) }
    }
}

impl RawRecordView {
    /// Whether every field has a raw type, so that the record's layout is
    /// fixed.
    pub open spec fn is_raw(self) -> bool {
        forall|i: int| 0 <= i < self.fields.len() ==> (#[trigger] self.fields[i]).ty.is_raw()
    }
}

/// A public value type of the idiomatic side. `marker` is the interface it
/// implements, if any.
#[derive(Debug, PartialEq, Eq, Hash)]
pub struct ValueType {
    pub name: String,
    pub marker: Option<String>,
    pub fields: Vec<TypedIdent>,
}

/// The view of [`ValueType`].
pub struct ValueTypeView {
    pub name: Seq<char>,
    pub marker: Option<Seq<char>>,
    pub fields: Seq<TypedIdentView>,
}

impl View for ValueType {
    type V = ValueTypeView;

    open spec fn view(&self) -> ValueTypeView {
        ValueTypeView {
            name: self.name@,
            marker: crate::schema::text_view(self.marker),
            fields: typed_idents_view(self.fields@),
        }
    }
}

/// One member of an overlay union: a raw record placed at `offset`.
#[derive(Debug, PartialEq, Eq, Hash)]
pub struct OverlayMember {
    pub offset: usize,
    pub record: String,
    pub ident: String,
}

/// The view of [`OverlayMember`].
pub struct OverlayMemberView {
    pub offset: usize,
    pub record: Seq<char>,
    pub ident: Seq<char>,
}

impl View for OverlayMember {
    type V = OverlayMemberView;

    open spec fn view(&self) -> OverlayMemberView {
        OverlayMemberView { offset: self.offset, record: self.record@, ident: self.ident@ }
    }
}

/// A record with explicit layout whose members share their storage.
#[derive(Debug, PartialEq, Eq, Hash)]
pub struct OverlayUnion {
    pub name: String,
    pub members: Vec<OverlayMember>,
}

/// The view of [`OverlayUnion`].
pub struct OverlayUnionView {
    pub name: Seq<char>,
    pub members: Seq<OverlayMemberView>,
}

impl View for OverlayUnion {
    type V = OverlayUnionView;

    open spec fn view(&self) -> OverlayUnionView {
        OverlayUnionView {
            name: self.name@,
            members: Seq::new(self.members@.len(), |i: int| self.members@[i]@),
        }
    }
}

impl OverlayUnionView {
    /// Whether every member starts at the base of the union.
    pub open spec fn all_at_base(self) -> bool {
        forall|i: int| 0 <= i < self.members.len() ==> (#[trigger] self.members[i]).offset == 0
    }
}

} // verus!
