//! The items that a native library exports: functions, methods and named
//! types.

use vstd::prelude::*;
use crate::schema::{Schema, SchemaView, TypeName, TypeNameView};

verus! {

/// How values of a named type cross the boundary.
#[derive(Debug, PartialEq, Eq, Hash)]
pub enum BindingStyle {
    /// As an opaque pointer to state that the native side owns.
    Handle,
    /// By copying a raw representation derived from the given schema.
    Value(Schema),
}

/// The view of [`BindingStyle`].
pub enum BindingStyleView {
    Handle,
    Value(SchemaView),
}

impl View for BindingStyle {
    type V = BindingStyleView;

    open spec fn view(&self) -> BindingStyleView {
        match self {
            BindingStyle::Handle => BindingStyleView::Handle,
            BindingStyle::Value(schema) => BindingStyleView::Value(schema@),
        }
    }
}

/// How a method takes `self`.
#[derive(Clone, Copy, Debug, PartialEq, Eq, Hash)]
pub enum ReceiverStyle {
    Move,
    Ref,
    RefMut,
}

/// One argument of an exported function.
#[derive(Debug, PartialEq, Eq, Hash)]
pub struct FnArg {
    pub name: String,
    pub schema: Schema,
}

/// The view of [`FnArg`].
pub struct FnArgView {
    pub name: Seq<char>,
    pub schema: SchemaView,
}

impl View for FnArg {
    type V = FnArgView;

    open spec fn view(&self) -> FnArgView {
        FnArgView { name: self.name@, schema: self.schema@ }
    }
}

/// The views of a list of arguments, in order.
pub open spec fn args_view(args: Vec<FnArg>) -> Seq<FnArgView> {
    Seq::new(args.len() as nat, |i: int| args[i]@)
}

/// The view of an optional schema.
pub open spec fn output_view(output: Option<Schema>) -> Option<SchemaView> {
    match output {
        Some(schema) => Some(schema@),
        None => None,
    }
}

/// A free function.
#[derive(Debug, PartialEq, Eq, Hash)]
pub struct Func {
    /// The name the function was declared with.
    pub name: String,
    /// The name of the entry point that the native library exports for it.
    pub binding: String,
    pub inputs: Vec<FnArg>,
    pub output: Option<Schema>,
}

/// The view of [`Func`].
pub struct FuncView {
    pub name: Seq<char>,
    pub binding: Seq<char>,
    pub inputs: Seq<FnArgView>,
    pub output: Option<SchemaView>,
}

impl View for Func {
    type V = FuncView;

    open spec fn view(&self) -> FuncView {
        FuncView {
            name: self.name@,
            binding: self.binding@,
            inputs: args_view(self.inputs),
            output: output_view(self.output),
        }
    }
}

/// A method of a named type. The receiver is not among `inputs`.
#[derive(Debug, PartialEq, Eq, Hash)]
pub struct Method {
    pub name: String,
    pub binding: String,
    pub self_type: Schema,
    pub receiver: Option<ReceiverStyle>,
    pub inputs: Vec<FnArg>,
    pub output: Option<Schema>,
}

/// The view of [`Method`].
pub struct MethodView {
    pub name: Seq<char>,
    pub binding: Seq<char>,
    pub self_type: SchemaView,
    pub receiver: Option<ReceiverStyle>,
    pub inputs: Seq<FnArgView>,
    pub output: Option<SchemaView>,
}

impl View for Method {
    type V = MethodView;

    open spec fn view(&self) -> MethodView {
        MethodView {
            name: self.name@,
            binding: self.binding@,
            self_type: self.self_type@,
            receiver: self.receiver,
            inputs: args_view(self.inputs),
            output: output_view(self.output),
        }
    }
}

/// A struct or an enum declared by the native library.
#[derive(Debug, PartialEq, Eq, Hash)]
pub struct NamedType {
    pub name: TypeName,
    pub binding_style: BindingStyle,
    pub schema: Schema,
    /// Entry point that reads one element out of a sequence of this type.
    pub index_fn: String,
    /// Entry point that builds an owned sequence of this type from a view.
    pub convert_list_fn: String,
    /// Entry point that releases an owned sequence of this type.
    pub drop_vec_fn: String,
}

/// The view of [`NamedType`].
pub struct NamedTypeView {
    pub name: TypeNameView,
    pub binding_style: BindingStyleView,
    pub schema: SchemaView,
    pub index_fn: Seq<char>,
    pub convert_list_fn: Seq<char>,
    pub drop_vec_fn: Seq<char>,
}

impl View for NamedType {
    type V = NamedTypeView;

    open spec fn view(&self) -> NamedTypeView {
        NamedTypeView {
            name: self.name@,
            binding_style: self.binding_style@,
            schema: self.schema@,
            index_fn: self.index_fn@,
            convert_list_fn: self.convert_list_fn@,
            drop_vec_fn: self.drop_vec_fn@,
        }
    }
}

/// One exported item.
#[derive(Debug, PartialEq, Eq, Hash)]
pub enum Export {
    Fn(Func),
    Method(Method),
    Named(NamedType),
}

/// The view of [`Export`].
pub enum ExportView {
    Fn(FuncView),
    Method(MethodView),
    Named(NamedTypeView),
}

impl View for Export {
    type V = ExportView;

    open spec fn view(&self) -> ExportView {
        match self {
            Export::Fn(func) => ExportView::Fn(func@),
            Export::Method(method) => ExportView::Method(method@),
            Export::Named(named) => ExportView::Named(named@),
        }
    }
}

impl Func {
    /// The arguments of the function, in declaration order.
    pub fn inputs(&self) -> (r: &Vec<FnArg>)
        ensures
            args_view(*r) == self@.inputs,
    {
        &self.inputs
    }
}

impl Method {
    /// The arguments of the method after the receiver, in declaration order.
    pub fn inputs(&self) -> (r: &Vec<FnArg>)
        ensures
            args_view(*r) == self@.inputs,
    {
        &self.inputs
    }
}

/// Copies a list of arguments.
fn clone_args(args: &Vec<FnArg>) -> (r: Vec<FnArg>)
    ensures
        args_view(r) == args_view(*args),
{
    let mut copies: Vec<FnArg> = Vec::new();
    let mut i: usize = 0;
    while i < args.len()
        invariant
            i <= args.len(),
            copies.len() == i,
            forall|j: int| 0 <= j < i ==> (#[trigger] copies[j])@ == args[j]@,
        decreases args.len() - i,
    {
        copies.push(args[i].clone());
        i += 1;
    }
    assert(args_view(copies) =~= args_view(*args));
    copies
}

/// Copies an optional schema.
fn clone_output(output: &Option<Schema>) -> (r: Option<Schema>)
    ensures
        output_view(r) == output_view(*output),
{
    match output {
        Some(schema) => Some(schema.clone()),
        None => None,
    }
}

impl Clone for BindingStyle {
    fn clone(&self) -> (r: BindingStyle)
        ensures
            r@ == self@,
    {
        match self {
            BindingStyle::Handle => BindingStyle::Handle,
            BindingStyle::Value(schema) => BindingStyle::Value(schema.clone()),
        }
    }
}

impl Clone for FnArg {
    fn clone(&self) -> (r: FnArg)
        ensures
            r@ == self@,
    {
        FnArg { name: self.name.clone(), schema: self.schema.clone() }
    }
}

impl Clone for Func {
    fn clone(&self) -> (r: Func)
        ensures
            r@ == self@,
    {
        Func {
            name: self.name.clone(),
            binding: self.binding.clone(),
            inputs: clone_args(&self.inputs),
            output: clone_output(&self.output),
        }
    }
}

impl Clone for Method {
    fn clone(&self) -> (r: Method)
        ensures
            r@ == self@,
    {
        Method {
            name: self.name.clone(),
            binding: self.binding.clone(),
            self_type: self.self_type.clone(),
            receiver: self.receiver,
            inputs: clone_args(&self.inputs),
            output: clone_output(&self.output),
        }
    }
}

impl Clone for NamedType {
    fn clone(&self) -> (r: NamedType)
        ensures
            r@ == self@,
    {
        NamedType {
            name: self.name.clone(),
            binding_style: self.binding_style.clone(),
            schema: self.schema.clone(),
            index_fn: self.index_fn.clone(),
            convert_list_fn: self.convert_list_fn.clone(),
            drop_vec_fn: self.drop_vec_fn.clone(),
        }
    }
}

impl Clone for Export {
    fn clone(&self) -> (r: Export)
        ensures
            r@ == self@,
    {
        match self {
            Export::Fn(func) => Export::Fn(func.clone()),
            Export::Method(method) => Export::Method(method.clone()),
            Export::Named(named) => Export::Named(named.clone()),
        }
    }
}

} // verus!
