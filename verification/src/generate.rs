//! Everything that is generated for one exported item.
//!
//! The declarations of an item are generated as a whole: either all of
//! them, or the error that stands in the way of one of them. The type
//! declarations come first, then the raw binding, then the wrapper.

use vstd::prelude::*;
use crate::binding::{quote_raw_binding, raw_binding_of, RawBinding, RawBindingView};
use crate::collect::{lemma_try_map_empty, lemma_try_map_error_stays, lemma_try_map_step, try_map};
use crate::enumeration::{enum_binding_of, quote_enum_binding, EnumBinding, EnumBindingView};
use crate::error::{result_view, GenError, GenErrorView, Place};
use crate::export::{BindingStyle, Export, ExportView, MethodView, NamedType, NamedTypeView};
use crate::func::{named_arguments_of, quote_wrapper_fn, wrapper_fn_of, WrapperFn, WrapperFnView};
use crate::naming::camel_case_of;
use crate::registry::Registry;
use crate::resolve::{raw_type_from_schema, raw_type_of_schema};
use crate::schema::{Schema, SchemaView, TypeNameView};
use crate::strukt::{quote_struct_binding, struct_binding_of, StructBinding, StructBindingView};
use crate::types::{CsType, CsTypeView};

verus! {

/// The declarations of a named type.
#[derive(Debug, PartialEq, Eq, Hash)]
pub enum TypeDecl {
    Struct(StructBinding),
    Enum(EnumBinding),
}

/// The view of [`TypeDecl`].
pub enum TypeDeclView {
    Struct(StructBindingView),
    Enum(EnumBindingView),
}

impl View for TypeDecl {
    type V = TypeDeclView;

    open spec fn view(&self) -> TypeDeclView {
        match self {
            TypeDecl::Struct(binding) => TypeDeclView::Struct(binding@),
            TypeDecl::Enum(binding) => TypeDeclView::Enum(binding@),
        }
    }
}

/// What is generated for one exported item.
#[derive(Debug, PartialEq, Eq, Hash)]
pub struct Fragments {
    /// The declarations of the type, for a struct that is marshaled by
    /// value and for an enum.
    pub declaration: Option<TypeDecl>,
    pub binding: RawBinding,
    /// The wrapper, for a function and for a method.
    pub wrapper: Option<WrapperFn>,
}

/// The view of [`Fragments`].
pub struct FragmentsView {
    pub declaration: Option<TypeDeclView>,
    pub binding: RawBindingView,
    pub wrapper: Option<WrapperFnView>,
}

impl View for Fragments {
    type V = FragmentsView;

    open spec fn view(&self) -> FragmentsView {
        FragmentsView {
            declaration: match self.declaration {
                Some(declaration) => Some(declaration@),
                None => None,
            },
            binding: self.binding@,
            wrapper: match self.wrapper {
                Some(wrapper) => Some(wrapper@),
                None => None,
            },
        }
    }
}

/// The expression through which the wrapper of a method reaches the handle
/// of the value it is called on.
pub open spec fn handle_expr() -> Seq<char> {
    "_handle"@
}

/// The expression with which the wrapper of a method converts the value it
/// is called on into its raw form.
pub open spec fn value_expr() -> Seq<char> {
    "__bindings.__IntoRaw(this)"@
}

/// What the wrapper of a method passes for the value it is called on:
/// nothing where the method has no receiver, the handle where the type is
/// marshaled as one, and the raw form of the value otherwise.
pub open spec fn receiver_of(
    method: MethodView,
    types: Map<TypeNameView, NamedTypeView>,
) -> Result<Option<Seq<char>>, GenErrorView> {
    if method.receiver is None {
        Ok(None)
    } else {
        match raw_type_of_schema(method.self_type, types) {
            Err(cause) => Err(GenErrorView::Resolve { place: Place::Receiver, cause }),
            Ok(CsTypeView::HandlePtr) => Ok(Some(handle_expr())),
            Ok(_) => Ok(Some(value_expr())),
        }
    }
}

/// The declarations of the given named type: those of a struct where it is
/// a struct marshaled by value, those of an enum where it is an enum, and
/// none otherwise.
pub open spec fn type_decl_of(
    named: NamedTypeView,
    types: Map<TypeNameView, NamedTypeView>,
) -> Result<Option<TypeDeclView>, GenErrorView> {
    match named.schema {
        SchemaView::Struct(schema) => if named.binding_style is Value {
            match struct_binding_of(named, schema, types) {
                Ok(binding) => Ok(Some(TypeDeclView::Struct(binding))),
                Err(error) => Err(error),
            }
        } else {
            Ok(None)
        },
        SchemaView::Enum(schema) => match enum_binding_of(named, schema, types) {
            Ok(binding) => Ok(Some(TypeDeclView::Enum(binding))),
            Err(error) => Err(error),
        },
        _ => Ok(None),
    }
}

/// The wrapper of the given item: that of a function, that of a method,
/// which passes what `receiver_of` says, and none for a named type.
pub open spec fn wrapper_of(export: ExportView, types: Map<TypeNameView, NamedTypeView>) -> Result<
    Option<WrapperFnView>,
    GenErrorView,
> {
    match export {
        ExportView::Fn(func) => match wrapper_fn_of(
            camel_case_of(func.name),
            func.binding,
            None,
            named_arguments_of(func.inputs),
            func.output,
            types,
        ) {
            Ok(wrapper) => Ok(Some(wrapper)),
            Err(error) => Err(error),
        },
        ExportView::Method(method) => match receiver_of(method, types) {
            Err(error) => Err(error),
            Ok(receiver) => match wrapper_fn_of(
                camel_case_of(method.name),
                method.binding,
                receiver,
                named_arguments_of(method.inputs),
                method.output,
                types,
            ) {
                Ok(wrapper) => Ok(Some(wrapper)),
                Err(error) => Err(error),
            },
        },
        ExportView::Named(_) => Ok(None),
    }
}

/// Everything that is generated for the given item, or the first error on
/// the way.
pub open spec fn fragments_of(
    export: ExportView,
    dll: Seq<char>,
    types: Map<TypeNameView, NamedTypeView>,
) -> Result<FragmentsView, GenErrorView> {
    let declared = match export {
        ExportView::Named(named) => type_decl_of(named, types),
        _ => Ok(None),
    };
    match declared {
        Err(error) => Err(error),
        Ok(declaration) => match raw_binding_of(export, dll, types) {
            Err(error) => Err(error),
            Ok(binding) => match wrapper_of(export, types) {
                Err(error) => Err(error),
                Ok(wrapper) => Ok(FragmentsView { declaration, binding, wrapper }),
            },
        },
    }
}

/// An item that is exported but refers to a struct or an enum that is not
/// registered has nothing generated for it.
pub proof fn lemma_unregistered_export_has_no_fragments(
    export: ExportView,
    dll: Seq<char>,
    types: Map<TypeNameView, NamedTypeView>,
)
    requires
        crate::binding::export_is_unregistered(export, types),
    ensures
        fragments_of(export, dll, types) is Err,
{
    crate::binding::lemma_unregistered_export(export, dll, types);
}

/// The view of the declarations of a type, or of the error in their place.
pub open spec fn declared_view(result: Result<Option<TypeDecl>, GenError>) -> Result<
    Option<TypeDeclView>,
    GenErrorView,
> {
    match result {
        Ok(Some(declaration)) => Ok(Some(declaration@)),
        Ok(None) => Ok(None),
        Err(error) => Err(error@),
    }
}

/// Generates the declarations of a named type.
pub fn quote_type_decl(named: &NamedType, types: &Registry) -> (r: Result<
    Option<TypeDecl>,
    GenError,
>)
    ensures
        declared_view(r) == type_decl_of(named@, types@),
{
    match &named.schema {
        Schema::Struct(schema) => match named.binding_style {
            BindingStyle::Value(_) => {
                let binding = quote_struct_binding(named, schema, types)?;
                Ok(Some(TypeDecl::Struct(binding)))
            },
            BindingStyle::Handle => Ok(None),
        },
        Schema::Enum(schema) => {
            let binding = quote_enum_binding(named, schema, types)?;
            Ok(Some(TypeDecl::Enum(binding)))
        },
        _ => Ok(None),
    }
}

/// Generates everything for one exported item, loaded from the library
/// `dll_name`.
pub fn generate(export: &Export, dll_name: &str, types: &Registry) -> (r: Result<
    Fragments,
    GenError,
>)
    ensures
        result_view(r) == fragments_of(export@, dll_name@, types@),
{
    let declaration = match export {
        Export::Named(named) => quote_type_decl(named, types)?,
        _ => None,
    };
    let binding = quote_raw_binding(export, dll_name, types)?;
    let wrapper = match export {
        Export::Fn(func) => Some(
            quote_wrapper_fn(
                func.name.as_str(),
                func.binding.as_str(),
                None,
                &func.inputs,
                func.output.as_ref(),
                types,
            )?,
        ),
        Export::Method(method) => {
            let receiver = if method.receiver.is_some() {
                match raw_type_from_schema(&method.self_type, types) {
                    Err(cause) => {
                        return Err(GenError::Resolve { place: Place::Receiver, cause });
                    },
                    Ok(CsType::HandlePtr) => Some("_handle"),
                    Ok(_) => Some("__bindings.__IntoRaw(this)"),
                }
            } else {
                None
            };
            Some(
                quote_wrapper_fn(
                    method.name.as_str(),
                    method.binding.as_str(),
                    receiver,
                    &method.inputs,
                    method.output.as_ref(),
                    types,
                )?,
            )
        },
        Export::Named(_) => None,
    };
    Ok(Fragments { declaration, binding, wrapper })
}

/// The failure of one item of a run: the position of the item among the
/// exported items, and what went wrong with it.
#[derive(Debug, PartialEq, Eq, Hash)]
pub struct ExportError {
    pub index: usize,
    pub error: GenError,
}

/// The view of [`ExportError`].
pub struct ExportErrorView {
    pub index: usize,
    pub error: GenErrorView,
}

impl View for ExportError {
    type V = ExportErrorView;

    open spec fn view(&self) -> ExportErrorView {
        ExportErrorView { index: self.index, error: self.error@ }
    }
}

/// The views of a list of exported items, in order.
pub open spec fn exports_view(exports: Seq<Export>) -> Seq<ExportView> {
    Seq::new(exports.len(), |i: int| exports[i]@)
}

/// The views of what was generated for a list of items, in order.
pub open spec fn all_fragments_view(fragments: Seq<Fragments>) -> Seq<FragmentsView> {
    Seq::new(fragments.len(), |i: int| fragments[i]@)
}

/// What is generated for the item at position `index`, with its failure as
/// that of the run.
pub open spec fn fragments_at(
    export: ExportView,
    index: int,
    dll: Seq<char>,
    types: Map<TypeNameView, NamedTypeView>,
) -> Result<FragmentsView, ExportErrorView> {
    match fragments_of(export, dll, types) {
        Ok(fragments) => Ok(fragments),
        Err(error) => Err(ExportErrorView { index: index as usize, error }),
    }
}

/// `fragments_at`, as a function of the position and the item.
pub open spec fn fragments_fn(dll: Seq<char>, types: Map<TypeNameView, NamedTypeView>) -> spec_fn(
    int,
    ExportView,
) -> Result<FragmentsView, ExportErrorView> {
    |index: int, export: ExportView| fragments_at(export, index, dll, types)
}

/// What is generated for a list of exported items: the declarations of
/// every item, in order, or the failure of the first item that has none.
pub open spec fn all_fragments_of(
    exports: Seq<ExportView>,
    dll: Seq<char>,
    types: Map<TypeNameView, NamedTypeView>,
) -> Result<Seq<FragmentsView>, ExportErrorView> {
    try_map(exports, fragments_fn(dll, types))
}

/// The view of what was generated for a run, or of the failure in its
/// place.
pub open spec fn run_view(result: Result<Vec<Fragments>, ExportError>) -> Result<
    Seq<FragmentsView>,
    ExportErrorView,
> {
    match result {
        Ok(fragments) => Ok(all_fragments_view(fragments@)),
        Err(error) => Err(error@),
    }
}

/// Generates the declarations of every exported item. No item is skipped:
/// the first one that fails ends the run with its error.
pub fn generate_all(exports: &Vec<Export>, dll_name: &str, types: &Registry) -> (r: Result<
    Vec<Fragments>,
    ExportError,
>)
    ensures
        run_view(r) == all_fragments_of(exports_view(exports@), dll_name@, types@),
        r matches Ok(fragments) ==> fragments@.len() == exports@.len(),
{
    let ghost all = exports_view(exports@);
    let ghost f = fragments_fn(dll_name@, types@);
    let mut generated: Vec<Fragments> = Vec::new();
    let mut i: usize = 0;
    proof {
        lemma_try_map_empty(all.take(0), f);
        assert(all_fragments_view(generated@) =~= Seq::<FragmentsView>::empty());
    }
    while i < exports.len()
        invariant
            i <= exports.len(),
            generated.len() == i,
            all == exports_view(exports@),
            f == fragments_fn(dll_name@, types@),
            try_map(all.take(i as int), f) == Ok::<Seq<FragmentsView>, ExportErrorView>(
                all_fragments_view(generated@),
            ),
        decreases exports.len() - i,
    {
        proof {
            lemma_try_map_step(all, f, i as int);
        }
        match generate(&exports[i], dll_name, types) {
            Err(error) => {
                proof {
                    lemma_try_map_error_stays(all, f, i + 1);
                }
                return Err(ExportError { index: i, error });
            },
            Ok(fragments) => {
                let ghost before = all_fragments_view(generated@);
                generated.push(fragments);
                assert(all_fragments_view(generated@) =~= before.push(generated@[i as int]@));
            },
        }
        i += 1;
    }
    assert(all.take(i as int) =~= all);
    Ok(generated)
}

/// The text of what was generated for a list of items, one after the
/// other.
pub open spec fn all_fragments_text(fragments: Seq<FragmentsView>) -> Seq<char>
    decreases fragments.len(),
{
    if fragments.len() == 0 {
        Seq::empty()
    } else {
        all_fragments_text(fragments.drop_last()) + fragments.last().text()
    }
}

/// Writes what was generated for a list of items as source text.
pub fn write_all(fragments: &Vec<Fragments>) -> (r: String)
    ensures
        r@ == all_fragments_text(all_fragments_view(fragments@)),
{
    let ghost all = all_fragments_view(fragments@);
    let mut r = String::new();
    let mut i: usize = 0;
    assert(all.take(0) =~= Seq::<FragmentsView>::empty());
    while i < fragments.len()
        invariant
            i <= fragments.len(),
            all == all_fragments_view(fragments@),
            r@ == all_fragments_text(all.take(i as int)),
        decreases fragments.len() - i,
    {
        proof {
            assert(all.take(i + 1).drop_last() =~= all.take(i as int));
        }
        let text = fragments[i].text();
        r.append(text.as_str());
        i += 1;
    }
    assert(all.take(i as int) =~= all);
    r
}

} // verus!
