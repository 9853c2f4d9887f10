//! Declarations for structs that are marshaled by value.
//!
//! Such a struct has two declarations: the idiomatic value type that user
//! code works with, and the raw record that crosses the boundary. Both have
//! one field for each field of the struct, in declaration order.

use vstd::prelude::*;
use crate::collect::{
    lemma_try_map_empty, lemma_try_map_error_stays, lemma_try_map_ok, lemma_try_map_step, try_map,
};
use crate::decl::{
    typed_idents_view, RawRecord, RawRecordView, TypedIdent, TypedIdentView, ValueType,
    ValueTypeView,
};
use crate::error::{
    result_view, FieldError, FieldErrorView, GenError, GenErrorView, Place, ResolveErrorView,
};
use crate::export::{NamedType, NamedTypeView};
use crate::idiomatic::{cs_type_of_schema, quote_cs_type};
use crate::naming::{positional_ident, positional_name, raw_ident, raw_name};
use crate::registry::Registry;
use crate::resolve::{lemma_raw_type_is_raw, raw_type_from_schema, raw_type_of_schema};
use crate::schema::{fields_view, text_view, Field, FieldView, SchemaView, Struct, StructView, TypeNameView};
use crate::types::CsTypeView;

verus! {

/// The name of a field in generated declarations: the name it was declared
/// with, or `Element` and its position for a field without one.
pub open spec fn field_name(name: Option<Seq<char>>, index: nat) -> Seq<char> {
    match name {
        Some(declared) => declared,
        None => positional_name(index),
    }
}

/// The type of a field: its raw type where `raw` is set, its idiomatic type
/// otherwise.
pub open spec fn field_type(
    schema: SchemaView,
    types: Map<TypeNameView, NamedTypeView>,
    raw: bool,
) -> Result<CsTypeView, ResolveErrorView> {
    if raw {
        raw_type_of_schema(schema, types)
    } else {
        cs_type_of_schema(schema, types)
    }
}

/// The declaration of the field at `index`: its `field_name` with its
/// `field_type`.
pub open spec fn typed_field(
    field: FieldView,
    index: int,
    types: Map<TypeNameView, NamedTypeView>,
    raw: bool,
) -> Result<TypedIdentView, FieldErrorView> {
    match field_type(field.schema, types, raw) {
        Err(cause) => Err(FieldErrorView { index: index as usize, cause }),
        Ok(ty) => Ok(TypedIdentView { ty, ident: field_name(field.name, index as nat) }),
    }
}

/// `typed_field`, as a function of the position and the field.
pub open spec fn typed_field_fn(types: Map<TypeNameView, NamedTypeView>, raw: bool) -> spec_fn(
    int,
    FieldView,
) -> Result<TypedIdentView, FieldErrorView> {
    |index: int, field: FieldView| typed_field(field, index, types, raw)
}

/// The declarations of the given fields, in order. Where the type of some
/// field does not resolve, the result is the error of the first such field.
pub open spec fn typed_fields_of(
    fields: Seq<FieldView>,
    types: Map<TypeNameView, NamedTypeView>,
    raw: bool,
) -> Result<Seq<TypedIdentView>, FieldErrorView> {
    try_map(fields, typed_field_fn(types, raw))
}

/// Where the fields of an aggregate have declarations, there is one for
/// each field, at the field's position, under the field's name and with the
/// field's type; and where the types are raw, each has a fixed layout.
pub proof fn lemma_typed_fields(
    fields: Seq<FieldView>,
    types: Map<TypeNameView, NamedTypeView>,
    raw: bool,
)
    requires
        typed_fields_of(fields, types, raw) is Ok,
    ensures
        ({
            let decls = typed_fields_of(fields, types, raw)->Ok_0;
            &&& decls.len() == fields.len()
            &&& forall|i: int|
                0 <= i < fields.len() ==> {
                    &&& (#[trigger] decls[i]).ident == field_name(fields[i].name, i as nat)
                    &&& field_type(fields[i].schema, types, raw) == Ok::<
                        CsTypeView,
                        ResolveErrorView,
                    >(decls[i].ty)
                    &&& raw ==> decls[i].ty.is_raw()
                }
        }),
{
    let f = typed_field_fn(types, raw);
    lemma_try_map_ok(fields, f);
    let decls = typed_fields_of(fields, types, raw)->Ok_0;
    assert forall|i: int| 0 <= i < fields.len() implies {
        &&& (#[trigger] decls[i]).ident == field_name(fields[i].name, i as nat)
        &&& field_type(fields[i].schema, types, raw) == Ok::<CsTypeView, ResolveErrorView>(
            decls[i].ty,
        )
        &&& raw ==> decls[i].ty.is_raw()
    } by {
        assert(f(i, fields[i]) == Ok::<TypedIdentView, FieldErrorView>(decls[i]));
        if raw {
            lemma_raw_type_is_raw(fields[i].schema, types);
        }
    }
}

/// The raw record of a struct has one field for each field of the struct,
/// in declaration order and of a fixed layout, and so has its idiomatic
/// type, under the same names.
pub proof fn lemma_struct_binding(
    export: NamedTypeView,
    schema: StructView,
    types: Map<TypeNameView, NamedTypeView>,
)
    requires
        struct_binding_of(export, schema, types) is Ok,
    ensures
        ({
            let binding = struct_binding_of(export, schema, types)->Ok_0;
            &&& binding.raw.fields.len() == schema.fields.len()
            &&& binding.idiomatic.fields.len() == schema.fields.len()
            &&& binding.raw.is_raw()
            &&& forall|i: int|
                0 <= i < schema.fields.len() ==> {
                    &&& (#[trigger] binding.raw.fields[i]).ident == field_name(
                        schema.fields[i].name,
                        i as nat,
                    )
                    &&& binding.idiomatic.fields[i].ident == binding.raw.fields[i].ident
                    &&& raw_type_of_schema(schema.fields[i].schema, types) == Ok::<
                        CsTypeView,
                        ResolveErrorView,
                    >(binding.raw.fields[i].ty)
                }
        }),
{
    lemma_typed_fields(schema.fields, types, true);
    lemma_typed_fields(schema.fields, types, false);
}

/// The fields that the raw record of an aggregate declares.
pub open spec fn raw_fields_of(
    fields: Seq<FieldView>,
    types: Map<TypeNameView, NamedTypeView>,
) -> Result<Seq<TypedIdentView>, FieldErrorView> {
    typed_fields_of(fields, types, true)
}

/// The fields that the idiomatic type of an aggregate declares.
pub open spec fn cs_fields_of(
    fields: Seq<FieldView>,
    types: Map<TypeNameView, NamedTypeView>,
) -> Result<Seq<TypedIdentView>, FieldErrorView> {
    typed_fields_of(fields, types, false)
}

/// The view of a list of field declarations, or of the error in its place.
pub open spec fn fields_result_view(result: Result<Vec<TypedIdent>, FieldError>) -> Result<
    Seq<TypedIdentView>,
    FieldErrorView,
> {
    match result {
        Ok(decls) => Ok(typed_idents_view(decls@)),
        Err(error) => Err(error@),
    }
}

/// A failure at a field of a struct, as the failure of the struct.
pub open spec fn at_field<T>(result: Result<T, FieldErrorView>) -> Result<T, GenErrorView> {
    match result {
        Ok(value) => Ok(value),
        Err(error) => Err(GenErrorView::Resolve { place: Place::Field(error.index), cause: error.cause }),
    }
}

/// The two declarations of a struct that is marshaled by value.
#[derive(Debug, PartialEq, Eq, Hash)]
pub struct StructBinding {
    pub idiomatic: ValueType,
    pub raw: RawRecord,
}

/// The view of [`StructBinding`].
pub struct StructBindingView {
    pub idiomatic: ValueTypeView,
    pub raw: RawRecordView,
}

impl View for StructBinding {
    type V = StructBindingView;

    open spec fn view(&self) -> StructBindingView {
        StructBindingView { idiomatic: self.idiomatic@, raw: self.raw@ }
    }
}

/// The declarations of the struct `schema`, exported as `export`: an
/// idiomatic type under the struct's own name and a raw record under its
/// raw name, each with the struct's fields in declaration order.
pub open spec fn struct_binding_of(
    export: NamedTypeView,
    schema: StructView,
    types: Map<TypeNameView, NamedTypeView>,
) -> Result<StructBindingView, GenErrorView> {
    match at_field(cs_fields_of(schema.fields, types)) {
        Err(error) => Err(error),
        Ok(fields) => match at_field(raw_fields_of(schema.fields, types)) {
            Err(error) => Err(error),
            Ok(raw_fields) => Ok(
                StructBindingView {
                    idiomatic: ValueTypeView {
                        name: export.name.name,
                        marker: None,
                        fields,
                    },
                    raw: RawRecordView { name: raw_name(export.name.name), fields: raw_fields },
                },
            ),
        },
    }
}

/// The identifier of a field in generated declarations.
pub fn field_ident(name: &Option<String>, index: usize) -> (r: String)
    ensures
        r@ == field_name(text_view(*name), index as nat),
{
    match name {
        Some(declared) => declared.clone(),
        None => positional_ident(index),
    }
}

fn typed_fields(fields: &Vec<Field>, types: &Registry, raw: bool) -> (r: Result<
    Vec<TypedIdent>,
    FieldError,
>)
    ensures
        fields_result_view(r) == typed_fields_of(fields_view(*fields), types@, raw),
        r matches Ok(decls) ==> decls@.len() == fields@.len(),
{
    let ghost all = fields_view(*fields);
    let ghost f = typed_field_fn(types@, raw);
    let mut decls: Vec<TypedIdent> = Vec::new();
    let mut i: usize = 0;
    proof {
        lemma_try_map_empty(all.take(0), f);
        assert(typed_idents_view(decls@) =~= Seq::<TypedIdentView>::empty());
    }
    while i < fields.len()
        invariant
            i <= fields.len(),
            decls.len() == i,
            all == fields_view(*fields),
            f == typed_field_fn(types@, raw),
            try_map(all.take(i as int), f) == Ok::<Seq<TypedIdentView>, FieldErrorView>(
                typed_idents_view(decls@),
            ),
        decreases fields.len() - i,
    {
        let field = &fields[i];
        proof {
            lemma_try_map_step(all, f, i as int);
        }
        let resolved = if raw {
            raw_type_from_schema(&field.schema, types)
        } else {
            quote_cs_type(&field.schema, types)
        };
        match resolved {
            Err(cause) => {
                proof {
                    lemma_try_map_error_stays(all, f, i + 1);
                }
                return Err(FieldError { index: i, cause });
            },
            Ok(ty) => {
                let ghost before = typed_idents_view(decls@);
                decls.push(TypedIdent { ty, ident: field_ident(&field.name, i) });
                assert(typed_idents_view(decls@) =~= before.push(decls@[i as int]@));
            },
        }
        i += 1;
    }
    assert(all.take(i as int) =~= all);
    Ok(decls)
}

/// The fields of the raw record of an aggregate with the given fields.
pub fn raw_struct_fields(fields: &Vec<Field>, types: &Registry) -> (r: Result<
    Vec<TypedIdent>,
    FieldError,
>)
    ensures
        fields_result_view(r) == raw_fields_of(fields_view(*fields), types@),
        r matches Ok(decls) ==> decls@.len() == fields@.len(),
{
    typed_fields(fields, types, true)
}

/// The fields of the idiomatic type of an aggregate with the given fields.
pub fn struct_fields(fields: &Vec<Field>, types: &Registry) -> (r: Result<
    Vec<TypedIdent>,
    FieldError,
>)
    ensures
        fields_result_view(r) == cs_fields_of(fields_view(*fields), types@),
        r matches Ok(decls) ==> decls@.len() == fields@.len(),
{
    typed_fields(fields, types, false)
}

/// Generates the declarations of a struct that is marshaled by value.
pub fn quote_struct_binding(export: &NamedType, schema: &Struct, types: &Registry) -> (r: Result<
    StructBinding,
    GenError,
>)
    ensures
        result_view(r) == struct_binding_of(export@, schema@, types@),
{
    let fields = match struct_fields(&schema.fields, types) {
        Ok(fields) => fields,
        Err(error) => {
            return Err(GenError::Resolve { place: Place::Field(error.index), cause: error.cause });
        },
    };
    let raw_fields = match raw_struct_fields(&schema.fields, types) {
        Ok(fields) => fields,
        Err(error) => {
            return Err(GenError::Resolve { place: Place::Field(error.index), cause: error.cause });
        },
    };
    Ok(
        StructBinding {
            idiomatic: ValueType { name: export.name.name.clone(), marker: None, fields },
            raw: RawRecord { name: raw_ident(&export.name), fields: raw_fields },
        },
    )
}

} // verus!
