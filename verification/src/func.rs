//! The wrappers: the functions that user code calls.
//!
//! A wrapper converts its arguments to their raw representations, calls the
//! raw binding and converts what comes back. The conversions all go by one
//! overloaded name in each direction, so a wrapper never names a conversion
//! for a particular type. Arguments that lend a buffer to the native side
//! are pinned while the call runs.

use vstd::prelude::*;
use crate::collect::{
    lemma_try_map_empty, lemma_try_map_err, lemma_try_map_error_stays, lemma_try_map_ok,
    lemma_try_map_step, try_map,
};
use crate::decl::{typed_idents_view, TypedIdent, TypedIdentView};
use crate::error::{at_place, result_view, GenError, GenErrorView, Place};
use crate::export::{args_view, FnArg, FnArgView, NamedTypeView};
use crate::idiomatic::{
    cs_type_of_schema, lemma_unregistered_has_no_cs_type, mentions_unregistered, quote_cs_type,
};
use crate::naming::{camel_case, camel_case_of, mixed_case, mixed_case_of, prefixed};
use crate::registry::Registry;
use crate::schema::{text_view, Schema, SchemaView, TypeNameView};
use crate::types::{CsType, CsTypeView};

verus! {

/// An argument of an exported function together with the name it has in the
/// wrapper.
pub struct Argument<'a> {
    pub ident: String,
    pub schema: &'a Schema,
}

/// The view of [`Argument`].
pub struct ArgumentView {
    pub ident: Seq<char>,
    pub schema: SchemaView,
}

impl<'a> View for Argument<'a> {
    type V = ArgumentView;

    open spec fn view(&self) -> ArgumentView {
        ArgumentView { ident: self.ident@, schema: (*self.schema)@ }
    }
}

/// The views of the items of a list, in order.
pub open spec fn arguments_view(args: Seq<Argument>) -> Seq<ArgumentView> {
    Seq::new(args.len(), |i: int| args[i]@)
}

/// One argument of the call to the raw binding.
#[derive(Debug, PartialEq, Eq, Hash)]
pub enum InvokeArg {
    /// The value the method is called on, as the expression that yields its
    /// raw form.
    Receiver(String),
    /// The wrapper's argument of the given name, converted into its raw
    /// form.
    IntoRaw(String),
}

/// The view of [`InvokeArg`].
pub enum InvokeArgView {
    Receiver(Seq<char>),
    IntoRaw(Seq<char>),
}

impl View for InvokeArg {
    type V = InvokeArgView;

    open spec fn view(&self) -> InvokeArgView {
        match self {
            InvokeArg::Receiver(expr) => InvokeArgView::Receiver(expr@),
            InvokeArg::IntoRaw(ident) => InvokeArgView::IntoRaw(ident@),
        }
    }
}

/// The views of the items of a list, in order.
pub open spec fn invoke_args_view(args: Seq<InvokeArg>) -> Seq<InvokeArgView> {
    Seq::new(args.len(), |i: int| args[i]@)
}

/// The call to a raw binding. Where `result` names a variable, what the
/// binding returns is converted from its raw form and assigned to it;
/// otherwise the binding returns nothing.
#[derive(Debug, PartialEq, Eq, Hash)]
pub struct Invocation {
    pub binding: String,
    pub args: Vec<InvokeArg>,
    pub result: Option<String>,
}

/// The view of [`Invocation`].
pub struct InvocationView {
    pub binding: Seq<char>,
    pub args: Seq<InvokeArgView>,
    pub result: Option<Seq<char>>,
}

impl View for Invocation {
    type V = InvocationView;

    open spec fn view(&self) -> InvocationView {
        InvocationView {
            binding: self.binding@,
            args: invoke_args_view(self.args@),
            result: text_view(self.result),
        }
    }
}

/// What a pinned argument lends to the native side.
#[derive(Clone, Copy, Debug, PartialEq, Eq, Hash)]
pub enum PinKind {
    /// The characters of a text.
    Text,
    /// The elements of a slice.
    Elements,
}

/// A scope in which the buffer of the argument `source` does not move. The
/// pointer to the buffer is `pointer`, and it is valid inside the scope
/// only.
#[derive(Debug, PartialEq, Eq, Hash)]
pub struct PinScope {
    pub pointer: String,
    pub source: String,
    pub kind: PinKind,
}

/// The view of [`PinScope`].
pub struct PinScopeView {
    pub pointer: Seq<char>,
    pub source: Seq<char>,
    pub kind: PinKind,
}

impl View for PinScope {
    type V = PinScopeView;

    open spec fn view(&self) -> PinScopeView {
        PinScopeView { pointer: self.pointer@, source: self.source@, kind: self.kind }
    }
}

/// The views of the items of a list, in order.
pub open spec fn pin_scopes_view(scopes: Seq<PinScope>) -> Seq<PinScopeView> {
    Seq::new(scopes.len(), |i: int| scopes[i]@)
}

/// The body of a wrapper: the call to the raw binding inside the pinning
/// scopes. The scopes are listed from the outermost to the innermost, so
/// the call stands inside the last one.
#[derive(Debug, PartialEq, Eq, Hash)]
pub struct WrapperBody {
    pub scopes: Vec<PinScope>,
    pub invocation: Invocation,
}

/// The view of [`WrapperBody`].
pub struct WrapperBodyView {
    pub scopes: Seq<PinScopeView>,
    pub invocation: InvocationView,
}

impl View for WrapperBody {
    type V = WrapperBodyView;

    open spec fn view(&self) -> WrapperBodyView {
        WrapperBodyView { scopes: pin_scopes_view(self.scopes@), invocation: self.invocation@ }
    }
}

/// A wrapper function. It declares the variable that the body assigns the
/// result to, runs the body, and returns the variable once every pinning
/// scope has closed; a wrapper whose return type is `void` does neither the
/// first nor the last.
#[derive(Debug, PartialEq, Eq, Hash)]
pub struct WrapperFn {
    pub name: String,
    /// Whether the wrapper is a static function, as opposed to a method of
    /// the value it is called on.
    pub is_static: bool,
    pub return_ty: CsType,
    pub params: Vec<TypedIdent>,
    pub body: WrapperBody,
}

/// The view of [`WrapperFn`].
pub struct WrapperFnView {
    pub name: Seq<char>,
    pub is_static: bool,
    pub return_ty: CsTypeView,
    pub params: Seq<TypedIdentView>,
    pub body: WrapperBodyView,
}

impl View for WrapperFn {
    type V = WrapperFnView;

    open spec fn view(&self) -> WrapperFnView {
        WrapperFnView {
            name: self.name@,
            is_static: self.is_static,
            return_ty: self.return_ty@,
            params: typed_idents_view(self.params@),
            body: self.body@,
        }
    }
}

/// The view of an optional expression.
pub open spec fn expr_view(expr: Option<&str>) -> Option<Seq<char>> {
    match expr {
        Some(text) => Some(text@),
        None => None,
    }
}

/// The view of an optional reference to a schema.
pub open spec fn schema_ref_view(schema: Option<&Schema>) -> Option<SchemaView> {
    match schema {
        Some(schema) => Some(schema@),
        None => None,
    }
}

/// The name of the variable that holds a wrapper's result.
pub open spec fn result_variable() -> Seq<char> {
    "__ret"@
}

/// The arguments under the names they have in a wrapper: each argument's
/// own name in mixed case.
pub open spec fn named_arguments_of(inputs: Seq<FnArgView>) -> Seq<ArgumentView> {
    Seq::new(
        inputs.len(),
        |i: int| ArgumentView { ident: mixed_case_of(inputs[i].name), schema: inputs[i].schema },
    )
}

/// The arguments of the call to the raw binding: each of the wrapper's
/// arguments, converted into its raw form, in order.
pub open spec fn invoke_args_of(args: Seq<ArgumentView>) -> Seq<InvokeArgView> {
    Seq::new(args.len(), |i: int| InvokeArgView::IntoRaw(args[i].ident))
}

/// Whether an argument of the given type lends a buffer to the native side,
/// which must stay in place for the duration of the call.
pub open spec fn needs_pin(schema: SchemaView) -> bool {
    schema is Str || schema is Slice
}

/// The scope that pins the given argument.
pub open spec fn pin_scope_of(arg: ArgumentView) -> PinScopeView {
    PinScopeView {
        pointer: "__fixed_"@ + arg.ident,
        source: arg.ident,
        kind: if arg.schema is Str {
            PinKind::Text
        } else {
            PinKind::Elements
        },
    }
}

/// The scopes that pin the first `n` arguments, from the outermost to the
/// innermost: one for each argument that needs one, in the order of the
/// arguments.
pub open spec fn pin_scopes_upto(args: Seq<ArgumentView>, n: nat) -> Seq<PinScopeView>
    decreases n,
{
    if n == 0 {
        Seq::empty()
    } else {
        let front = pin_scopes_upto(args, (n - 1) as nat);
        if needs_pin(args[n - 1].schema) {
            front.push(pin_scope_of(args[n - 1]))
        } else {
            front
        }
    }
}

/// The scopes that pin the arguments of a call.
pub open spec fn pin_scopes_of(args: Seq<ArgumentView>) -> Seq<PinScopeView> {
    pin_scopes_upto(args, args.len())
}

/// The parameter of a wrapper for the argument at position `index`: the
/// argument's name in the wrapper with its idiomatic type.
pub open spec fn wrapper_param(
    arg: ArgumentView,
    index: int,
    types: Map<TypeNameView, NamedTypeView>,
) -> Result<TypedIdentView, GenErrorView> {
    match cs_type_of_schema(arg.schema, types) {
        Err(cause) => Err(GenErrorView::Resolve { place: Place::Input(index as usize), cause }),
        Ok(ty) => Ok(TypedIdentView { ty, ident: arg.ident }),
    }
}

/// `wrapper_param`, as a function of the position and the argument.
pub open spec fn wrapper_param_fn(types: Map<TypeNameView, NamedTypeView>) -> spec_fn(
    int,
    ArgumentView,
) -> Result<TypedIdentView, GenErrorView> {
    |index: int, arg: ArgumentView| wrapper_param(arg, index, types)
}

/// The parameters of a wrapper, in order; or the error of the first
/// argument whose type does not resolve.
pub open spec fn wrapper_params_of(
    args: Seq<ArgumentView>,
    types: Map<TypeNameView, NamedTypeView>,
) -> Result<Seq<TypedIdentView>, GenErrorView> {
    try_map(args, wrapper_param_fn(types))
}

/// The body of the wrapper around the raw binding `binding`.
///
/// The call passes the receiver, if there is one, and then every argument
/// converted into its raw form. Where the function has an output, the
/// result of the call is converted and assigned to `result_variable`. The
/// call stands inside the pinning scopes of the arguments.
pub open spec fn wrapper_body_of(
    binding: Seq<char>,
    receiver: Option<Seq<char>>,
    args: Seq<ArgumentView>,
    has_output: bool,
) -> WrapperBodyView {
    WrapperBodyView {
        scopes: pin_scopes_of(args),
        invocation: InvocationView {
            binding,
            args: match receiver {
                Some(expr) => seq![InvokeArgView::Receiver(expr)] + invoke_args_of(args),
                None => invoke_args_of(args),
            },
            result: if has_output {
                Some(result_variable())
            } else {
                None
            },
        },
    }
}

/// The return type of a wrapper: the idiomatic type of the output, and
/// `void` where there is none.
pub open spec fn wrapper_return_of(
    output: Option<SchemaView>,
    types: Map<TypeNameView, NamedTypeView>,
) -> Result<CsTypeView, GenErrorView> {
    match output {
        None => Ok(CsTypeView::Void),
        Some(schema) => at_place(Place::Output, cs_type_of_schema(schema, types)),
    }
}

/// The wrapper named `name` around the raw binding `binding`. It is static
/// unless there is a receiver.
pub open spec fn wrapper_fn_of(
    name: Seq<char>,
    binding: Seq<char>,
    receiver: Option<Seq<char>>,
    args: Seq<ArgumentView>,
    output: Option<SchemaView>,
    types: Map<TypeNameView, NamedTypeView>,
) -> Result<WrapperFnView, GenErrorView> {
    match wrapper_return_of(output, types) {
        Err(error) => Err(error),
        Ok(return_ty) => match wrapper_params_of(args, types) {
            Err(error) => Err(error),
            Ok(params) => Ok(
                WrapperFnView {
                    name,
                    is_static: receiver is None,
                    return_ty,
                    params,
                    body: wrapper_body_of(binding, receiver, args, output is Some),
                },
            ),
        },
    }
}

/// A function that takes or returns a value whose type mentions a struct or
/// an enum that is not registered has no wrapper; what it has instead is
/// the error of a type that did not resolve, with the place where it
/// stands.
pub proof fn lemma_unregistered_wrapper(
    name: Seq<char>,
    binding: Seq<char>,
    receiver: Option<Seq<char>>,
    args: Seq<ArgumentView>,
    output: Option<SchemaView>,
    types: Map<TypeNameView, NamedTypeView>,
)
    requires
        (exists|i: int| 0 <= i < args.len() && mentions_unregistered(#[trigger] args[i].schema, types))
            || (output matches Some(schema) && mentions_unregistered(schema, types)),
    ensures
        wrapper_fn_of(name, binding, receiver, args, output, types) matches Err(error) && error
            is Resolve,
{
    let f = wrapper_param_fn(types);
    if output matches Some(schema) && mentions_unregistered(schema, types) {
        lemma_unregistered_has_no_cs_type(output->0, types);
    } else if wrapper_return_of(output, types) is Ok {
        let i = choose|i: int|
            0 <= i < args.len() && mentions_unregistered(#[trigger] args[i].schema, types);
        lemma_unregistered_has_no_cs_type(args[i].schema, types);
        assert(f(i, args[i]) is Err);
        if try_map(args, f) is Ok {
            lemma_try_map_ok(args, f);
        }
        lemma_try_map_err(args, f);
    }
}

/// Gives each argument the name it has in a wrapper.
pub fn name_arguments<'a>(inputs: &'a Vec<FnArg>) -> (r: Vec<Argument<'a>>)
    ensures
        arguments_view(r@) == named_arguments_of(args_view(*inputs)),
        r@.len() == inputs@.len(),
{
    let mut args: Vec<Argument<'a>> = Vec::new();
    let mut i: usize = 0;
    while i < inputs.len()
        invariant
            i <= inputs.len(),
            args.len() == i,
            forall|j: int|
                0 <= j < i ==> (#[trigger] args@[j])@ == (ArgumentView {
                    ident: mixed_case_of(inputs@[j].name@),
                    schema: inputs@[j].schema@,
                }),
        decreases inputs.len() - i,
    {
        let input = &inputs[i];
        args.push(Argument { ident: mixed_case(input.name.as_str()), schema: &input.schema });
        i += 1;
    }
    assert(arguments_view(args@) =~= named_arguments_of(args_view(*inputs)));
    args
}

/// The arguments of the call to the raw binding.
pub fn invoke_args(args: &Vec<Argument>) -> (r: Vec<InvokeArg>)
    ensures
        invoke_args_view(r@) == invoke_args_of(arguments_view(args@)),
        r@.len() == args@.len(),
{
    let mut out: Vec<InvokeArg> = Vec::new();
    let mut i: usize = 0;
    while i < args.len()
        invariant
            i <= args.len(),
            out.len() == i,
            forall|j: int|
                0 <= j < i ==> (#[trigger] out@[j])@ == InvokeArgView::IntoRaw(args@[j].ident@),
        decreases args.len() - i,
    {
        out.push(InvokeArg::IntoRaw(args[i].ident.clone()));
        i += 1;
    }
    assert(invoke_args_view(out@) =~= invoke_args_of(arguments_view(args@)));
    out
}

/// The scopes that pin the arguments of a call, from the outermost to the
/// innermost.
pub fn pin_scopes(args: &Vec<Argument>) -> (r: Vec<PinScope>)
    ensures
        pin_scopes_view(r@) == pin_scopes_of(arguments_view(args@)),
{
    let ghost all = arguments_view(args@);
    let mut scopes: Vec<PinScope> = Vec::new();
    let mut i: usize = 0;
    assert(pin_scopes_view(scopes@) =~= pin_scopes_upto(all, 0));
    while i < args.len()
        invariant
            i <= args.len(),
            all == arguments_view(args@),
            pin_scopes_view(scopes@) == pin_scopes_upto(all, i as nat),
        decreases args.len() - i,
    {
        let arg = &args[i];
        let kind = match arg.schema {
            Schema::Str => Some(PinKind::Text),
            Schema::Slice(_) => Some(PinKind::Elements),
            _ => None,
        };
        match kind {
            Some(kind) => {
                let ghost before = pin_scopes_view(scopes@);
                scopes.push(
                    PinScope {
                        pointer: prefixed("__fixed_", arg.ident.as_str()),
                        source: arg.ident.clone(),
                        kind,
                    },
                );
                assert(pin_scopes_view(scopes@) =~= before.push(pin_scope_of(all[i as int])));
            },
            None => {},
        }
        i += 1;
    }
    scopes
}

/// The parameters of a wrapper.
pub fn wrapper_params(args: &Vec<Argument>, types: &Registry) -> (r: Result<
    Vec<TypedIdent>,
    GenError,
>)
    ensures
        crate::binding::params_result_view(r) == wrapper_params_of(arguments_view(args@), types@),
        r matches Ok(params) ==> params@.len() == args@.len(),
{
    let ghost all = arguments_view(args@);
    let ghost f = wrapper_param_fn(types@);
    let mut params: Vec<TypedIdent> = Vec::new();
    let mut i: usize = 0;
    proof {
        lemma_try_map_empty(all.take(0), f);
        assert(typed_idents_view(params@) =~= Seq::<TypedIdentView>::empty());
    }
    while i < args.len()
        invariant
            i <= args.len(),
            params.len() == i,
            all == arguments_view(args@),
            f == wrapper_param_fn(types@),
            try_map(all.take(i as int), f) == Ok::<Seq<TypedIdentView>, GenErrorView>(
                typed_idents_view(params@),
            ),
        decreases args.len() - i,
    {
        proof {
            lemma_try_map_step(all, f, i as int);
        }
        let arg = &args[i];
        match quote_cs_type(arg.schema, types) {
            Err(cause) => {
                proof {
                    lemma_try_map_error_stays(all, f, i + 1);
                }
                return Err(GenError::Resolve { place: Place::Input(i), cause });
            },
            Ok(ty) => {
                let ghost before = typed_idents_view(params@);
                params.push(TypedIdent { ty, ident: arg.ident.clone() });
                assert(typed_idents_view(params@) =~= before.push(params@[i as int]@));
            },
        }
        i += 1;
    }
    assert(all.take(i as int) =~= all);
    Ok(params)
}

/// The body of the wrapper around the raw binding `binding`.
pub fn wrapper_body(binding: &str, receiver: Option<&str>, args: &Vec<Argument>, has_output: bool)
    -> (r: WrapperBody)
    ensures
        r@ == wrapper_body_of(binding@, expr_view(receiver), arguments_view(args@), has_output),
{
    let mut call_args = invoke_args(args);
    match receiver {
        Some(expr) => {
            let ghost before = invoke_args_view(call_args@);
            call_args.insert(0, InvokeArg::Receiver(String::from_str(expr)));
            assert(invoke_args_view(call_args@) =~= seq![InvokeArgView::Receiver(expr@)] + before);
        },
        None => {},
    }
    let result = if has_output {
        Some(String::from_str("__ret"))
    } else {
        None
    };
    WrapperBody {
        scopes: pin_scopes(args),
        invocation: Invocation { binding: String::from_str(binding), args: call_args, result },
    }
}

/// The wrapper named `name` around the raw binding `binding`.
pub fn wrapper_fn(
    name: String,
    binding: &str,
    receiver: Option<&str>,
    args: &Vec<Argument>,
    output: Option<&Schema>,
    types: &Registry,
) -> (r: Result<WrapperFn, GenError>)
    ensures
        result_view(r) == wrapper_fn_of(
            name@,
            binding@,
            expr_view(receiver),
            arguments_view(args@),
            schema_ref_view(output),
            types@,
        ),
{
    let return_ty = match output {
        None => CsType::Void,
        Some(schema) => match quote_cs_type(schema, types) {
            Ok(ty) => ty,
            Err(cause) => {
                return Err(GenError::Resolve { place: Place::Output, cause });
            },
        },
    };
    let params = wrapper_params(args, types)?;
    Ok(
        WrapperFn {
            name,
            is_static: receiver.is_none(),
            return_ty,
            params,
            body: wrapper_body(binding, receiver, args, output.is_some()),
        },
    )
}

/// The arguments with which a wrapper calls its raw binding: each of its
/// own arguments, under its name in mixed case, converted into its raw
/// form.
pub fn quote_invoke_args(inputs: &Vec<FnArg>) -> (r: Vec<InvokeArg>)
    ensures
        invoke_args_view(r@) == invoke_args_of(named_arguments_of(args_view(*inputs))),
        r@.len() == inputs@.len(),
{
    let args = name_arguments(inputs);
    invoke_args(&args)
}

/// Puts a call inside the scopes that pin the arguments which lend a buffer
/// to the native side. The first such argument has the outermost scope and
/// the last the innermost, so that every buffer stays in place until the
/// call has returned.
pub fn fold_fixed_blocks(base_invoke: Invocation, inputs: &Vec<FnArg>) -> (r: WrapperBody)
    ensures
        r@ == (WrapperBodyView {
            scopes: pin_scopes_of(named_arguments_of(args_view(*inputs))),
            invocation: base_invoke@,
        }),
{
    let args = name_arguments(inputs);
    WrapperBody { scopes: pin_scopes(&args), invocation: base_invoke }
}

/// The parameters of a wrapper: each argument under its name in mixed case,
/// with its idiomatic type.
pub fn quote_args(inputs: &Vec<FnArg>, types: &Registry) -> (r: Result<Vec<TypedIdent>, GenError>)
    ensures
        crate::binding::params_result_view(r) == wrapper_params_of(
            named_arguments_of(args_view(*inputs)),
            types@,
        ),
        r matches Ok(params) ==> params@.len() == inputs@.len(),
{
    let args = name_arguments(inputs);
    wrapper_params(&args, types)
}

/// The body of the wrapper around the raw binding `binding_name`.
pub fn quote_wrapper_body(
    binding_name: &str,
    receiver: Option<&str>,
    inputs: &Vec<FnArg>,
    output: Option<&Schema>,
) -> (r: WrapperBody)
    ensures
        r@ == wrapper_body_of(
            binding_name@,
            expr_view(receiver),
            named_arguments_of(args_view(*inputs)),
            output is Some,
        ),
{
    let args = name_arguments(inputs);
    wrapper_body(binding_name, receiver, &args, output.is_some())
}

/// Generates the wrapper of an exported function or method.
///
/// The wrapper is named after the function, in camel case, and its
/// parameters after the function's arguments, in mixed case. `receiver` is
/// the expression for the raw form of the value a method is called on.
pub fn quote_wrapper_fn(
    name: &str,
    binding: &str,
    receiver: Option<&str>,
    inputs: &Vec<FnArg>,
    output: Option<&Schema>,
    types: &Registry,
) -> (r: Result<WrapperFn, GenError>)
    ensures
        result_view(r) == wrapper_fn_of(
            camel_case_of(name@),
            binding@,
            expr_view(receiver),
            named_arguments_of(args_view(*inputs)),
            schema_ref_view(output),
            types@,
        ),
{
    let args = name_arguments(inputs);
    wrapper_fn(camel_case(name), binding, receiver, &args, output, types)
}

} // verus!
