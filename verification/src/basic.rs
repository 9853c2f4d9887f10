//! Bindings for functions described by a [`BindgenFn`]: free functions
//! without arguments that return a value of a basic type, or nothing.
//!
//! The declarations for one such function make up a class of their own,
//! named after the library: the raw binding of the function, the raw
//! binding that releases a text, and the wrapper.

use vstd::prelude::*;
use crate::bindgen_fn::{generated_name_of, BasicType, BindgenFn, BindgenFnView};
use crate::naming::{camel_case, camel_case_of, prefixed};
use crate::types::{CsType, CsTypeView};

verus! {

/// The view of an optional type.
pub open spec fn type_view(ty: Option<CsType>) -> Option<CsTypeView> {
    match ty {
        Some(ty) => Some(ty@),
        None => None,
    }
}

/// The type in which a value of the given basic type is returned by the
/// raw binding: a pointer for a text, one byte for a `bool`, the scalar
/// value for a `char`, and the C# type of the same width for a number. A
/// function that returns nothing has no such type.
pub open spec fn binding_return_type(return_ty: Option<BasicType>) -> Option<CsTypeView> {
    match return_ty {
        None => None,
        Some(BasicType::String) => Some(CsTypeView::IntPtr),
        Some(BasicType::Char) => Some(CsTypeView::UInt),
        Some(BasicType::I8) => Some(CsTypeView::SByte),
        Some(BasicType::I16) => Some(CsTypeView::Short),
        Some(BasicType::I32) => Some(CsTypeView::Int),
        Some(BasicType::I64) => Some(CsTypeView::Long),
        Some(BasicType::U8) => Some(CsTypeView::Byte),
        Some(BasicType::U16) => Some(CsTypeView::UShort),
        Some(BasicType::U32) => Some(CsTypeView::UInt),
        Some(BasicType::U64) => Some(CsTypeView::ULong),
        Some(BasicType::F32) => Some(CsTypeView::Float),
        Some(BasicType::F64) => Some(CsTypeView::Double),
        Some(BasicType::Bool) => Some(CsTypeView::Byte),
    }
}

/// The type in which the wrapper returns a value of the given basic type:
/// as `binding_return_type`, but a text is a `string` and a `bool` a
/// `bool`.
pub open spec fn wrapper_return_type(return_ty: Option<BasicType>) -> Option<CsTypeView> {
    match return_ty {
        Some(BasicType::String) => Some(CsTypeView::Text),
        Some(BasicType::Bool) => Some(CsTypeView::Bool),
        _ => binding_return_type(return_ty),
    }
}

/// What a wrapper does with the value that the raw binding returned.
#[derive(Clone, Copy, Debug, PartialEq, Eq, Hash)]
pub enum ResultConversion {
    /// The raw binding returns nothing, and so does the wrapper.
    Nothing,
    /// The value is a pointer to UTF-8 text, whose length the raw binding
    /// hands out beside it. The wrapper decodes the text and then has the
    /// native side release it.
    Text,
    /// The value is a byte, which the wrapper compares with zero.
    Flag,
    /// The value is returned as it is.
    Plain,
}

/// What the wrapper of a function that returns the given type does with
/// the value.
pub open spec fn conversion_of(return_ty: Option<BasicType>) -> ResultConversion {
    match return_ty {
        None => ResultConversion::Nothing,
        Some(BasicType::String) => ResultConversion::Text,
        Some(BasicType::Bool) => ResultConversion::Flag,
        Some(_) => ResultConversion::Plain,
    }
}

/// The wrapper of a described function.
#[derive(Debug, PartialEq, Eq, Hash)]
pub struct BasicWrapper {
    pub name: String,
    pub return_ty: Option<CsType>,
    /// The raw binding that the wrapper calls.
    pub raw_binding: String,
    pub conversion: ResultConversion,
}

/// The view of [`BasicWrapper`].
pub struct BasicWrapperView {
    pub name: Seq<char>,
    pub return_ty: Option<CsTypeView>,
    pub raw_binding: Seq<char>,
    pub conversion: ResultConversion,
}

impl View for BasicWrapper {
    type V = BasicWrapperView;

    open spec fn view(&self) -> BasicWrapperView {
        BasicWrapperView {
            name: self.name@,
            return_ty: type_view(self.return_ty),
            raw_binding: self.raw_binding@,
            conversion: self.conversion,
        }
    }
}

/// The declarations for one described function.
#[derive(Debug, PartialEq, Eq, Hash)]
pub struct BasicClass {
    pub name: String,
    /// The library that the raw bindings are loaded from.
    pub dll: String,
    /// The entry point of the function in the library.
    pub entry_point: String,
    /// The name of the raw binding of the function.
    pub raw_binding: String,
    pub binding_return_ty: Option<CsType>,
    /// Whether the raw binding hands out the length of the text it
    /// returns.
    pub returns_length: bool,
    pub wrapper: BasicWrapper,
}

/// The view of [`BasicClass`].
pub struct BasicClassView {
    pub name: Seq<char>,
    pub dll: Seq<char>,
    pub entry_point: Seq<char>,
    pub raw_binding: Seq<char>,
    pub binding_return_ty: Option<CsTypeView>,
    pub returns_length: bool,
    pub wrapper: BasicWrapperView,
}

impl View for BasicClass {
    type V = BasicClassView;

    open spec fn view(&self) -> BasicClassView {
        BasicClassView {
            name: self.name@,
            dll: self.dll@,
            entry_point: self.entry_point@,
            raw_binding: self.raw_binding@,
            binding_return_ty: type_view(self.binding_return_ty),
            returns_length: self.returns_length,
            wrapper: self.wrapper@,
        }
    }
}

/// The wrapper of the described function around the given raw binding,
/// under the name `name`.
pub open spec fn basic_wrapper_of(
    name: Seq<char>,
    return_ty: Option<BasicType>,
    raw_binding: Seq<char>,
) -> BasicWrapperView {
    BasicWrapperView {
        name,
        return_ty: wrapper_return_type(return_ty),
        raw_binding,
        conversion: conversion_of(return_ty),
    }
}

/// The declarations for the described function, loaded from the library
/// `dll`. `class_name` is the name of the class and `cased` the function's
/// name in the casing of the target.
pub open spec fn basic_class_of(
    described: BindgenFnView,
    dll: Seq<char>,
    class_name: Seq<char>,
    cased: Seq<char>,
) -> BasicClassView {
    BasicClassView {
        name: class_name,
        dll,
        entry_point: generated_name_of(described.ident),
        raw_binding: "__"@ + cased,
        binding_return_ty: binding_return_type(described.ret),
        returns_length: described.ret == Some(BasicType::String),
        wrapper: basic_wrapper_of(cased, described.ret, "__"@ + cased),
    }
}

/// The type in which the raw binding returns a value of the given type.
pub fn quote_binding_return_type(return_ty: &Option<BasicType>) -> (r: Option<CsType>)
    ensures
        type_view(r) == binding_return_type(*return_ty),
{
    match return_ty {
        None => None,
        Some(BasicType::String) => Some(CsType::IntPtr),
        Some(BasicType::Char) => Some(CsType::UInt),
        Some(BasicType::I8) => Some(CsType::SByte),
        Some(BasicType::I16) => Some(CsType::Short),
        Some(BasicType::I32) => Some(CsType::Int),
        Some(BasicType::I64) => Some(CsType::Long),
        Some(BasicType::U8) => Some(CsType::Byte),
        Some(BasicType::U16) => Some(CsType::UShort),
        Some(BasicType::U32) => Some(CsType::UInt),
        Some(BasicType::U64) => Some(CsType::ULong),
        Some(BasicType::F32) => Some(CsType::Float),
        Some(BasicType::F64) => Some(CsType::Double),
        Some(BasicType::Bool) => Some(CsType::Byte),
    }
}

/// The type in which the wrapper returns a value of the given type.
pub fn quote_return_type(return_ty: &Option<BasicType>) -> (r: Option<CsType>)
    ensures
        type_view(r) == wrapper_return_type(*return_ty),
{
    match return_ty {
        None => None,
        Some(BasicType::String) => Some(CsType::Text),
        Some(BasicType::Char) => Some(CsType::UInt),
        Some(BasicType::I8) => Some(CsType::SByte),
        Some(BasicType::I16) => Some(CsType::Short),
        Some(BasicType::I32) => Some(CsType::Int),
        Some(BasicType::I64) => Some(CsType::Long),
        Some(BasicType::U8) => Some(CsType::Byte),
        Some(BasicType::U16) => Some(CsType::UShort),
        Some(BasicType::U32) => Some(CsType::UInt),
        Some(BasicType::U64) => Some(CsType::ULong),
        Some(BasicType::F32) => Some(CsType::Float),
        Some(BasicType::F64) => Some(CsType::Double),
        Some(BasicType::Bool) => Some(CsType::Bool),
    }
}

/// The wrapper named `name` of a function that returns `return_ty`, around
/// the given raw binding.
pub fn basic_wrapper(name: String, return_ty: &Option<BasicType>, raw_binding: &str) -> (r:
    BasicWrapper)
    ensures
        r@ == basic_wrapper_of(name@, *return_ty, raw_binding@),
{
    let conversion = match return_ty {
        None => ResultConversion::Nothing,
        Some(BasicType::String) => ResultConversion::Text,
        Some(BasicType::Bool) => ResultConversion::Flag,
        Some(_) => ResultConversion::Plain,
    };
    BasicWrapper {
        name,
        return_ty: quote_return_type(return_ty),
        raw_binding: String::from_str(raw_binding),
        conversion,
    }
}

/// Generates the wrapper of a described function around the given raw
/// binding. The wrapper is named after the function, in camel case.
pub fn quote_wrapper_fn(bindgen_fn: &BindgenFn, raw_binding: &str) -> (r: BasicWrapper)
    ensures
        r@ == basic_wrapper_of(
            camel_case_of(bindgen_fn@.ident),
            bindgen_fn@.ret,
            raw_binding@,
        ),
{
    basic_wrapper(camel_case(bindgen_fn.raw_ident()), &bindgen_fn.ret, raw_binding)
}

/// The declarations for a described function, given the name of the class
/// and the function's name in the casing of the target.
pub fn basic_class(bindgen_fn: &BindgenFn, dll_name: &str, class_name: String, cased: String) -> (r:
    BasicClass)
    ensures
        r@ == basic_class_of(bindgen_fn@, dll_name@, class_name@, cased@),
{
    let raw_binding = prefixed("__", cased.as_str());
    let returns_length = match bindgen_fn.ret {
        Some(BasicType::String) => true,
        _ => false,
    };
    let wrapper = basic_wrapper(cased, &bindgen_fn.ret, raw_binding.as_str());
    BasicClass {
        name: class_name,
        dll: String::from_str(dll_name),
        entry_point: bindgen_fn.generated_name(),
        raw_binding,
        binding_return_ty: quote_binding_return_type(&bindgen_fn.ret),
        returns_length,
        wrapper,
    }
}

/// Generates the declarations for a described function that the library
/// `dll_name` exports. The class is named after the library and the
/// function's declarations after the function, both in camel case.
pub fn quote_class(bindgen_fn: &BindgenFn, dll_name: &str) -> (r: BasicClass)
    ensures
        r@ == basic_class_of(
            bindgen_fn@,
            dll_name@,
            camel_case_of(dll_name@),
            camel_case_of(bindgen_fn@.ident),
        ),
{
    basic_class(
        bindgen_fn,
        dll_name,
        camel_case(dll_name),
        camel_case(bindgen_fn.raw_ident()),
    )
}

} // verus!
