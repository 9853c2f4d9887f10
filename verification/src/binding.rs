//! The raw bindings: declarations of the functions that the native library
//! exports.
//!
//! Each is a `static extern` function that names the library and the entry
//! point it is loaded from. These are the generated entry points, not the
//! functions as the library's author declared them; the wrappers that user
//! code calls are built on top of them.

use vstd::prelude::*;
use crate::collect::{
    lemma_try_map_empty, lemma_try_map_err, lemma_try_map_error_stays, lemma_try_map_ok,
    lemma_try_map_step, try_map,
};
use crate::decl::{typed_idents_view, TypedIdent, TypedIdentView};
use crate::error::{at_place, result_view, GenError, GenErrorView, Place};
use crate::export::{
    args_view, output_view, BindingStyle, BindingStyleView, Export, ExportView, FnArg, FnArgView,
    NamedType, NamedTypeView,
};
use crate::idiomatic::{cs_type_of_schema, quote_cs_type};
use crate::naming::prefixed;
use crate::registry::Registry;
use crate::error::ResolveErrorView;
use crate::resolve::{is_unregistered, raw_type_from_schema, raw_type_of_schema};
use crate::schema::{Schema, SchemaView, TypeNameView};
use crate::types::{CsType, CsTypeView};

verus! {

/// The declaration of a function that is loaded from a native library.
#[derive(Debug, PartialEq, Eq, Hash)]
pub struct ForeignFn {
    /// The library that exports the function.
    pub dll: String,
    /// The name the function is exported under, which is also the name it is
    /// declared with.
    pub entry_point: String,
    pub return_ty: CsType,
    pub params: Vec<TypedIdent>,
}

/// The view of [`ForeignFn`].
pub struct ForeignFnView {
    pub dll: Seq<char>,
    pub entry_point: Seq<char>,
    pub return_ty: CsTypeView,
    pub params: Seq<TypedIdentView>,
}

impl View for ForeignFn {
    type V = ForeignFnView;

    open spec fn view(&self) -> ForeignFnView {
        ForeignFnView {
            dll: self.dll@,
            entry_point: self.entry_point@,
            return_ty: self.return_ty@,
            params: typed_idents_view(self.params@),
        }
    }
}

/// The helpers through which sequences of a type that is marshaled by value
/// cross the boundary, one element at a time.
#[derive(Debug, PartialEq, Eq, Hash)]
pub struct SequenceBindings {
    /// Reads the element at an index out of a borrowed sequence.
    pub index_fn: ForeignFn,
    /// Builds an owned sequence from a borrowed one.
    pub convert_list_fn: ForeignFn,
    /// Releases an owned sequence.
    pub drop_vec_fn: ForeignFn,
    /// The idiomatic type of an element, between which and `raw_element`
    /// the generated list conversions convert.
    pub element: CsType,
    pub raw_element: CsType,
}

/// The view of [`SequenceBindings`].
pub struct SequenceBindingsView {
    pub index_fn: ForeignFnView,
    pub convert_list_fn: ForeignFnView,
    pub drop_vec_fn: ForeignFnView,
    pub element: CsTypeView,
    pub raw_element: CsTypeView,
}

impl View for SequenceBindings {
    type V = SequenceBindingsView;

    open spec fn view(&self) -> SequenceBindingsView {
        SequenceBindingsView {
            index_fn: self.index_fn@,
            convert_list_fn: self.convert_list_fn@,
            drop_vec_fn: self.drop_vec_fn@,
            element: self.element@,
            raw_element: self.raw_element@,
        }
    }
}

/// The raw binding of one exported item.
#[derive(Debug, PartialEq, Eq, Hash)]
pub enum RawBinding {
    /// The entry point of a function or of a method.
    Function(ForeignFn),
    /// The entry point that releases a handle.
    Destructor(ForeignFn),
    /// The sequence helpers of a type that is marshaled by value.
    Sequences(SequenceBindings),
}

/// The view of [`RawBinding`].
pub enum RawBindingView {
    Function(ForeignFnView),
    Destructor(ForeignFnView),
    Sequences(SequenceBindingsView),
}

impl View for RawBinding {
    type V = RawBindingView;

    open spec fn view(&self) -> RawBindingView {
        match self {
            RawBinding::Function(function) => RawBindingView::Function(function@),
            RawBinding::Destructor(function) => RawBindingView::Destructor(function@),
            RawBinding::Sequences(sequences) => RawBindingView::Sequences(sequences@),
        }
    }
}

/// The class in which the raw bindings are declared.
#[derive(Debug, PartialEq, Eq, Hash)]
pub struct BindingsClass {
    pub name: String,
    pub members: Vec<RawBinding>,
}

/// The view of [`BindingsClass`].
pub struct BindingsClassView {
    pub name: Seq<char>,
    pub members: Seq<RawBindingView>,
}

impl View for BindingsClass {
    type V = BindingsClassView;

    open spec fn view(&self) -> BindingsClassView {
        BindingsClassView {
            name: self.name@,
            members: Seq::new(self.members@.len(), |i: int| self.members@[i]@),
        }
    }
}

/// The parameter of a raw binding for the argument at position `index`: the
/// argument's name with its raw type.
pub open spec fn raw_param(
    arg: FnArgView,
    index: int,
    types: Map<TypeNameView, NamedTypeView>,
) -> Result<TypedIdentView, GenErrorView> {
    match raw_type_of_schema(arg.schema, types) {
        Err(cause) => Err(GenErrorView::Resolve { place: Place::Input(index as usize), cause }),
        Ok(ty) => Ok(TypedIdentView { ty, ident: arg.name }),
    }
}

/// `raw_param`, as a function of the position and the argument.
pub open spec fn raw_param_fn(types: Map<TypeNameView, NamedTypeView>) -> spec_fn(
    int,
    FnArgView,
) -> Result<TypedIdentView, GenErrorView> {
    |index: int, arg: FnArgView| raw_param(arg, index, types)
}

/// The parameters of the raw binding of a function with the given
/// arguments, in order; or the error of the first argument whose type does
/// not resolve.
pub open spec fn binding_args_of(
    inputs: Seq<FnArgView>,
    types: Map<TypeNameView, NamedTypeView>,
) -> Result<Seq<TypedIdentView>, GenErrorView> {
    try_map(inputs, raw_param_fn(types))
}

/// The return type of the raw binding of a function: the raw type of what
/// it returns, and `void` where it returns nothing.
pub open spec fn raw_return_of(
    output: Option<SchemaView>,
    types: Map<TypeNameView, NamedTypeView>,
) -> Result<CsTypeView, GenErrorView> {
    match output {
        None => Ok(CsTypeView::Void),
        Some(schema) => at_place(Place::Output, raw_type_of_schema(schema, types)),
    }
}

/// The parameter through which a method receives the value it is called
/// on.
pub open spec fn receiver_param() -> TypedIdentView {
    TypedIdentView { ty: CsTypeView::HandlePtr, ident: "self"@ }
}

/// The entry point that releases a handle of the type of the given name.
pub open spec fn drop_fn_name(name: Seq<char>) -> Seq<char> {
    "__cs_bindgen_drop__"@ + name
}

/// The raw binding of a function or method with the given entry point,
/// arguments and output. `receiver` says whether the value the method is
/// called on is passed first.
pub open spec fn function_binding_of(
    binding: Seq<char>,
    receiver: bool,
    inputs: Seq<FnArgView>,
    output: Option<SchemaView>,
    dll: Seq<char>,
    types: Map<TypeNameView, NamedTypeView>,
) -> Result<ForeignFnView, GenErrorView> {
    match binding_args_of(inputs, types) {
        Err(error) => Err(error),
        Ok(params) => match raw_return_of(output, types) {
            Err(error) => Err(error),
            Ok(return_ty) => Ok(
                ForeignFnView {
                    dll,
                    entry_point: binding,
                    return_ty,
                    params: if receiver {
                        seq![receiver_param()] + params
                    } else {
                        params
                    },
                },
            ),
        },
    }
}

/// The sequence helpers of a type that is marshaled by value with the raw
/// representation of `schema`.
pub open spec fn sequence_bindings_of(
    export: NamedTypeView,
    schema: SchemaView,
    dll: Seq<char>,
    types: Map<TypeNameView, NamedTypeView>,
) -> Result<SequenceBindingsView, GenErrorView> {
    match at_place(Place::Representation, raw_type_of_schema(schema, types)) {
        Err(error) => Err(error),
        Ok(raw_element) => match at_place(Place::Representation, cs_type_of_schema(schema, types)) {
            Err(error) => Err(error),
            Ok(element) => Ok(
                SequenceBindingsView {
                    index_fn: ForeignFnView {
                        dll,
                        entry_point: export.index_fn,
                        return_ty: raw_element,
                        params: seq![
                            TypedIdentView { ty: CsTypeView::RawSlice, ident: "slice"@ },
                            TypedIdentView { ty: CsTypeView::UIntPtr, ident: "index"@ },
                        ],
                    },
                    convert_list_fn: ForeignFnView {
                        dll,
                        entry_point: export.convert_list_fn,
                        return_ty: CsTypeView::RawVec,
                        params: seq![TypedIdentView { ty: CsTypeView::RawSlice, ident: "raw"@ }],
                    },
                    drop_vec_fn: ForeignFnView {
                        dll,
                        entry_point: export.drop_vec_fn,
                        return_ty: CsTypeView::Void,
                        params: seq![TypedIdentView { ty: CsTypeView::RawVec, ident: "vec"@ }],
                    },
                    element,
                    raw_element,
                },
            ),
        },
    }
}

/// The destructor of a handle of the given type: it takes the handle and
/// returns nothing.
pub open spec fn destructor_of(export: NamedTypeView, dll: Seq<char>) -> ForeignFnView {
    ForeignFnView {
        dll,
        entry_point: drop_fn_name(export.name.name),
        return_ty: CsTypeView::Void,
        params: seq![receiver_param()],
    }
}

/// The raw binding of an exported item, loaded from the library `dll`.
///
/// A function has one entry point, whose parameters are the raw types of
/// its arguments and whose return type is the raw type of its output. A
/// method has the same, after the handle of the value it is called on if it
/// has a receiver. A handle type has its destructor, and a type marshaled
/// by value its sequence helpers.
pub open spec fn raw_binding_of(
    export: ExportView,
    dll: Seq<char>,
    types: Map<TypeNameView, NamedTypeView>,
) -> Result<RawBindingView, GenErrorView> {
    match export {
        ExportView::Fn(func) => match function_binding_of(
            func.binding,
            false,
            func.inputs,
            func.output,
            dll,
            types,
        ) {
            Ok(function) => Ok(RawBindingView::Function(function)),
            Err(error) => Err(error),
        },
        ExportView::Method(method) => match function_binding_of(
            method.binding,
            method.receiver is Some,
            method.inputs,
            method.output,
            dll,
            types,
        ) {
            Ok(function) => Ok(RawBindingView::Function(function)),
            Err(error) => Err(error),
        },
        ExportView::Named(named) => match named.binding_style {
            BindingStyleView::Handle => Ok(RawBindingView::Destructor(destructor_of(named, dll))),
            BindingStyleView::Value(schema) => match sequence_bindings_of(named, schema, dll, types) {
                Ok(sequences) => Ok(RawBindingView::Sequences(sequences)),
                Err(error) => Err(error),
            },
        },
    }
}

/// A function that takes a value of a struct or an enum that is not
/// registered has no raw binding. Where the arguments before it resolve,
/// the error names the argument and the type.
pub proof fn lemma_unregistered_input(
    binding: Seq<char>,
    receiver: bool,
    inputs: Seq<FnArgView>,
    output: Option<SchemaView>,
    dll: Seq<char>,
    types: Map<TypeNameView, NamedTypeView>,
    index: int,
)
    requires
        0 <= index < inputs.len(),
        is_unregistered(inputs[index].schema, types),
    ensures
        function_binding_of(binding, receiver, inputs, output, dll, types) is Err,
        (forall|j: int| 0 <= j < index ==> raw_type_of_schema(inputs[j].schema, types) is Ok)
            ==> function_binding_of(binding, receiver, inputs, output, dll, types) == Err::<
            ForeignFnView,
            GenErrorView,
        >(
            GenErrorView::Resolve {
                place: Place::Input(index as usize),
                cause: ResolveErrorView::UnresolvedType(inputs[index].schema.declared_name()->0),
            },
        ),
{
    let f = raw_param_fn(types);
    assert(f(index, inputs[index]) is Err);
    if try_map(inputs, f) is Ok {
        lemma_try_map_ok(inputs, f);
    }
    lemma_try_map_err(inputs, f);
    if forall|j: int| 0 <= j < index ==> raw_type_of_schema(inputs[j].schema, types) is Ok {
        let first = choose|i: int|
            0 <= i < inputs.len() && (#[trigger] f(i, inputs[i])) == Err::<
                TypedIdentView,
                GenErrorView,
            >(try_map(inputs, f)->Err_0) && forall|j: int|
                0 <= j < i ==> (#[trigger] f(j, inputs[j])) is Ok;
        if first < index {
            assert(raw_type_of_schema(inputs[first].schema, types) is Ok);
        }
        if first > index {
            assert(f(index, inputs[index]) is Ok);
        }
    }
}

/// A function that returns a value of a struct or an enum that is not
/// registered has no raw binding. Where its arguments resolve, the error
/// names the output and the type.
pub proof fn lemma_unregistered_output(
    binding: Seq<char>,
    receiver: bool,
    inputs: Seq<FnArgView>,
    output: SchemaView,
    dll: Seq<char>,
    types: Map<TypeNameView, NamedTypeView>,
)
    requires
        is_unregistered(output, types),
    ensures
        function_binding_of(binding, receiver, inputs, Some(output), dll, types) is Err,
        binding_args_of(inputs, types) is Ok ==> function_binding_of(
            binding,
            receiver,
            inputs,
            Some(output),
            dll,
            types,
        ) == Err::<ForeignFnView, GenErrorView>(
            GenErrorView::Resolve {
                place: Place::Output,
                cause: ResolveErrorView::UnresolvedType(output.declared_name()->0),
            },
        ),
{
}

/// Whether a function with the given arguments and output takes or returns
/// a value of a struct or an enum that is not registered.
pub open spec fn signature_is_unregistered(
    inputs: Seq<FnArgView>,
    output: Option<SchemaView>,
    types: Map<TypeNameView, NamedTypeView>,
) -> bool {
    ||| exists|i: int| 0 <= i < inputs.len() && is_unregistered(#[trigger] inputs[i].schema, types)
    ||| output matches Some(schema) && is_unregistered(schema, types)
}

/// Whether an exported item refers to a struct or an enum that is not
/// registered: in its signature, or as the representation it is marshaled
/// in.
pub open spec fn export_is_unregistered(
    export: ExportView,
    types: Map<TypeNameView, NamedTypeView>,
) -> bool {
    match export {
        ExportView::Fn(func) => signature_is_unregistered(func.inputs, func.output, types),
        ExportView::Method(method) => signature_is_unregistered(
            method.inputs,
            method.output,
            types,
        ),
        ExportView::Named(named) => named.binding_style matches BindingStyleView::Value(schema)
            && is_unregistered(schema, types),
    }
}

/// An exported item that refers to a struct or an enum that is not
/// registered has no raw binding; what it has instead is the error of a type
/// that did not resolve, with the place where it stands.
pub proof fn lemma_unregistered_export(
    export: ExportView,
    dll: Seq<char>,
    types: Map<TypeNameView, NamedTypeView>,
)
    requires
        export_is_unregistered(export, types),
    ensures
        raw_binding_of(export, dll, types) matches Err(error) && error is Resolve,
{
    match export {
        ExportView::Fn(func) => {
            lemma_unregistered_signature(func.binding, false, func.inputs, func.output, dll, types);
        },
        ExportView::Method(method) => {
            lemma_unregistered_signature(
                method.binding,
                method.receiver is Some,
                method.inputs,
                method.output,
                dll,
                types,
            );
        },
        ExportView::Named(named) => {},
    }
}

proof fn lemma_unregistered_signature(
    binding: Seq<char>,
    receiver: bool,
    inputs: Seq<FnArgView>,
    output: Option<SchemaView>,
    dll: Seq<char>,
    types: Map<TypeNameView, NamedTypeView>,
)
    requires
        signature_is_unregistered(inputs, output, types),
    ensures
        function_binding_of(binding, receiver, inputs, output, dll, types) matches Err(error)
            && error is Resolve,
{
    let f = raw_param_fn(types);
    if try_map(inputs, f) is Err {
        lemma_try_map_err(inputs, f);
    } else if exists|i: int|
        0 <= i < inputs.len() && is_unregistered(#[trigger] inputs[i].schema, types) {
        let i = choose|i: int|
            0 <= i < inputs.len() && is_unregistered(#[trigger] inputs[i].schema, types);
        lemma_unregistered_input(binding, receiver, inputs, output, dll, types, i);
    }
}

/// The view of a list of parameters, or of the error in its place.
pub open spec fn params_result_view(result: Result<Vec<TypedIdent>, GenError>) -> Result<
    Seq<TypedIdentView>,
    GenErrorView,
> {
    match result {
        Ok(params) => Ok(typed_idents_view(params@)),
        Err(error) => Err(error@),
    }
}

/// The parameters of the raw binding of a function with the given
/// arguments.
pub fn quote_binding_args(inputs: &Vec<FnArg>, types: &Registry) -> (r: Result<
    Vec<TypedIdent>,
    GenError,
>)
    ensures
        params_result_view(r) == binding_args_of(args_view(*inputs), types@),
        r matches Ok(params) ==> params@.len() == inputs@.len(),
{
    let ghost all = args_view(*inputs);
    let ghost f = raw_param_fn(types@);
    let mut params: Vec<TypedIdent> = Vec::new();
    let mut i: usize = 0;
    proof {
        lemma_try_map_empty(all.take(0), f);
        assert(typed_idents_view(params@) =~= Seq::<TypedIdentView>::empty());
    }
    while i < inputs.len()
        invariant
            i <= inputs.len(),
            params.len() == i,
            all == args_view(*inputs),
            f == raw_param_fn(types@),
            try_map(all.take(i as int), f) == Ok::<Seq<TypedIdentView>, GenErrorView>(
                typed_idents_view(params@),
            ),
        decreases inputs.len() - i,
    {
        proof {
            lemma_try_map_step(all, f, i as int);
        }
        let arg = &inputs[i];
        match raw_type_from_schema(&arg.schema, types) {
            Err(cause) => {
                proof {
                    lemma_try_map_error_stays(all, f, i + 1);
                }
                return Err(GenError::Resolve { place: Place::Input(i), cause });
            },
            Ok(ty) => {
                let ghost before = typed_idents_view(params@);
                params.push(TypedIdent { ty, ident: arg.name.clone() });
                assert(typed_idents_view(params@) =~= before.push(params@[i as int]@));
            },
        }
        i += 1;
    }
    assert(all.take(i as int) =~= all);
    Ok(params)
}

/// The declaration of the function that `dll` exports as `entry_point`.
pub fn quote_raw_fn_binding(
    entry_point: &str,
    return_ty: CsType,
    params: Vec<TypedIdent>,
    dll: &str,
) -> (r: ForeignFn)
    ensures
        r@ == (ForeignFnView {
            dll: dll@,
            entry_point: entry_point@,
            return_ty: return_ty@,
            params: typed_idents_view(params@),
        }),
{
    ForeignFn {
        dll: String::from_str(dll),
        entry_point: String::from_str(entry_point),
        return_ty,
        params,
    }
}

fn quote_raw_return(output: &Option<Schema>, types: &Registry) -> (r: Result<CsType, GenError>)
    ensures
        result_view(r) == raw_return_of(output_view(*output), types@),
{
    match output {
        None => Ok(CsType::Void),
        Some(schema) => match raw_type_from_schema(schema, types) {
            Ok(ty) => Ok(ty),
            Err(cause) => Err(GenError::Resolve { place: Place::Output, cause }),
        },
    }
}

fn receiver() -> (r: TypedIdent)
    ensures
        r@ == receiver_param(),
{
    TypedIdent { ty: CsType::HandlePtr, ident: String::from_str("self") }
}

fn quote_function_binding(
    binding: &String,
    has_receiver: bool,
    inputs: &Vec<FnArg>,
    output: &Option<Schema>,
    dll: &str,
    types: &Registry,
) -> (r: Result<ForeignFn, GenError>)
    ensures
        result_view(r) == function_binding_of(
            binding@,
            has_receiver,
            args_view(*inputs),
            output_view(*output),
            dll@,
            types@,
        ),
{
    let mut params = quote_binding_args(inputs, types)?;
    let return_ty = quote_raw_return(output, types)?;
    if has_receiver {
        let ghost before = typed_idents_view(params@);
        params.insert(0, receiver());
        assert(typed_idents_view(params@) =~= seq![receiver_param()] + before);
    }
    Ok(quote_raw_fn_binding(binding.as_str(), return_ty, params, dll))
}

fn one_param(ty: CsType, ident: &str) -> (r: Vec<TypedIdent>)
    ensures
        r@.len() == 1,
        typed_idents_view(r@) == seq![TypedIdentView { ty: ty@, ident: ident@ }],
{
    let mut params: Vec<TypedIdent> = Vec::new();
    params.push(TypedIdent { ty, ident: String::from_str(ident) });
    assert(typed_idents_view(params@) =~= seq![TypedIdentView { ty: ty@, ident: ident@ }]);
    params
}

/// The name of the entry point that releases a handle of the type of the
/// given name.
pub fn drop_fn_ident(name: &str) -> (r: String)
    ensures
        r@ == drop_fn_name(name@),
{
    prefixed("__cs_bindgen_drop__", name)
}

/// The destructor of a handle type.
pub fn quote_drop_fn(export: &NamedType, dll_name: &str) -> (r: ForeignFn)
    ensures
        r@ == destructor_of(export@, dll_name@),
{
    let entry_point = drop_fn_ident(export.name.name.as_str());
    let params = one_param(CsType::HandlePtr, "self");
    quote_raw_fn_binding(entry_point.as_str(), CsType::Void, params, dll_name)
}

/// Generates the raw binding of an exported item.
pub fn quote_raw_binding(export: &Export, dll_name: &str, types: &Registry) -> (r: Result<
    RawBinding,
    GenError,
>)
    ensures
        result_view(r) == raw_binding_of(export@, dll_name@, types@),
{
    match export {
        Export::Fn(func) => {
            let function = quote_function_binding(
                &func.binding,
                false,
                &func.inputs,
                &func.output,
                dll_name,
                types,
            )?;
            Ok(RawBinding::Function(function))
        },
        Export::Method(method) => {
            let function = quote_function_binding(
                &method.binding,
                method.receiver.is_some(),
                &method.inputs,
                &method.output,
                dll_name,
                types,
            )?;
            Ok(RawBinding::Function(function))
        },
        Export::Named(named) => match &named.binding_style {
            BindingStyle::Handle => Ok(RawBinding::Destructor(quote_drop_fn(named, dll_name))),
            BindingStyle::Value(schema) => {
                let raw_element = match raw_type_from_schema(schema, types) {
                    Ok(ty) => ty,
                    Err(cause) => {
                        return Err(GenError::Resolve { place: Place::Representation, cause });
                    },
                };
                let element = match quote_cs_type(schema, types) {
                    Ok(ty) => ty,
                    Err(cause) => {
                        return Err(GenError::Resolve { place: Place::Representation, cause });
                    },
                };
                let mut index_params = one_param(CsType::RawSlice, "slice");
                let ghost before = typed_idents_view(index_params@);
                index_params.push(TypedIdent { ty: CsType::UIntPtr, ident: String::from_str("index") });
                assert(typed_idents_view(index_params@) =~= seq![
                    TypedIdentView { ty: CsTypeView::RawSlice, ident: "slice"@ },
                    TypedIdentView { ty: CsTypeView::UIntPtr, ident: "index"@ },
                ]) by {
                    assert(typed_idents_view(index_params@) =~= before.push(index_params@[1]@));
                }
                let index_fn = quote_raw_fn_binding(
                    named.index_fn.as_str(),
                    raw_element.clone(),
                    index_params,
                    dll_name,
                );
                let convert_list_fn = quote_raw_fn_binding(
                    named.convert_list_fn.as_str(),
                    CsType::RawVec,
                    one_param(CsType::RawSlice, "raw"),
                    dll_name,
                );
                let drop_vec_fn = quote_raw_fn_binding(
                    named.drop_vec_fn.as_str(),
                    CsType::Void,
                    one_param(CsType::RawVec, "vec"),
                    dll_name,
                );
                Ok(
                    RawBinding::Sequences(
                        SequenceBindings {
                            index_fn,
                            convert_list_fn,
                            drop_vec_fn,
                            element,
                            raw_element,
                        },
                    ),
                )
            },
        },
    }
}

/// Gathers raw bindings into the class that declares them.
pub fn wrap_bindings(members: Vec<RawBinding>) -> (r: BindingsClass)
    ensures
        r@.name == crate::naming::bindings_class(),
        r@.members == Seq::new(members@.len(), |i: int| members@[i]@),
{
    BindingsClass { name: crate::naming::bindings_class_ident(), members }
}

} // verus!
