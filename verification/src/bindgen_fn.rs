//! The description of a function, taken from its signature.
//!
//! Only free functions over a small set of basic types are described this
//! way. The signature is given as the facts that were read from the source:
//! whether the function is `async`, its name, and for each input whether it
//! is a receiver or a pattern with a type.

use vstd::prelude::*;
use crate::collect::{lemma_try_map_empty, lemma_try_map_error_stays, lemma_try_map_step, try_map};
use crate::naming::{decimal, decimal_text, prefixed};
use crate::schema::text_view;

verus! {

/// A type that a described function may take or return.
#[derive(Clone, Copy, Debug, PartialEq, Eq, Hash)]
pub enum BasicType {
    String,
    Char,
    I8,
    I16,
    I32,
    I64,
    U8,
    U16,
    U32,
    U64,
    F32,
    F64,
    Bool,
}

/// The basic type that is written as `name`, if there is one.
pub open spec fn basic_type_named(name: Seq<char>) -> Option<BasicType> {
    if name == "String"@ {
        Some(BasicType::String)
    } else if name == "char"@ {
        Some(BasicType::Char)
    } else if name == "i8"@ {
        Some(BasicType::I8)
    } else if name == "i16"@ {
        Some(BasicType::I16)
    } else if name == "i32"@ {
        Some(BasicType::I32)
    } else if name == "i64"@ {
        Some(BasicType::I64)
    } else if name == "u8"@ {
        Some(BasicType::U8)
    } else if name == "u16"@ {
        Some(BasicType::U16)
    } else if name == "u32"@ {
        Some(BasicType::U32)
    } else if name == "u64"@ {
        Some(BasicType::U64)
    } else if name == "f32"@ {
        Some(BasicType::F32)
    } else if name == "f64"@ {
        Some(BasicType::F64)
    } else if name == "bool"@ {
        Some(BasicType::Bool)
    } else {
        None
    }
}

fn is_text(name: &String, expected: &str) -> (r: bool)
    ensures
        r == (name@ == expected@),
{
    let expected = String::from_str(expected);
    *name == expected
}

impl BasicType {
    /// The basic type that is written as `name`.
    pub fn from_name(name: &String) -> (r: Option<BasicType>)
        ensures
            r == basic_type_named(name@),
    {
        if is_text(name, "String") {
            Some(BasicType::String)
        } else if is_text(name, "char") {
            Some(BasicType::Char)
        } else if is_text(name, "i8") {
            Some(BasicType::I8)
        } else if is_text(name, "i16") {
            Some(BasicType::I16)
        } else if is_text(name, "i32") {
            Some(BasicType::I32)
        } else if is_text(name, "i64") {
            Some(BasicType::I64)
        } else if is_text(name, "u8") {
            Some(BasicType::U8)
        } else if is_text(name, "u16") {
            Some(BasicType::U16)
        } else if is_text(name, "u32") {
            Some(BasicType::U32)
        } else if is_text(name, "u64") {
            Some(BasicType::U64)
        } else if is_text(name, "f32") {
            Some(BasicType::F32)
        } else if is_text(name, "f64") {
            Some(BasicType::F64)
        } else if is_text(name, "bool") {
            Some(BasicType::Bool)
        } else {
            None
        }
    }
}

/// One input of a signature.
#[derive(Debug, PartialEq, Eq, Hash)]
pub enum Input {
    /// `self`, `&self` or `&mut self`.
    Receiver { reference: bool, mutability: bool },
    /// A pattern with a type. `ident` is the name that the pattern binds,
    /// where the pattern is a plain name; `ty` is the type as written.
    Typed { ident: Option<String>, ty: String },
}

/// The view of [`Input`].
pub enum InputView {
    Receiver { reference: bool, mutability: bool },
    Typed { ident: Option<Seq<char>>, ty: Seq<char> },
}

impl View for Input {
    type V = InputView;

    open spec fn view(&self) -> InputView {
        match self {
            Input::Receiver { reference, mutability } => InputView::Receiver {
                reference: *reference,
                mutability: *mutability,
            },
            Input::Typed { ident, ty } => InputView::Typed { ident: text_view(*ident), ty: ty@ },
        }
    }
}

/// What was read from the signature of a function.
#[derive(Debug, PartialEq, Eq, Hash)]
pub struct Signature {
    pub asyncness: bool,
    pub ident: String,
    pub inputs: Vec<Input>,
    /// The return type as written, if one is.
    pub output: Option<String>,
}

/// The view of [`Signature`].
pub struct SignatureShape {
    pub asyncness: bool,
    pub ident: Seq<char>,
    pub inputs: Seq<InputView>,
    pub output: Option<Seq<char>>,
}

impl View for Signature {
    type V = SignatureShape;

    open spec fn view(&self) -> SignatureShape {
        SignatureShape {
            asyncness: self.asyncness,
            ident: self.ident@,
            inputs: Seq::new(self.inputs@.len(), |i: int| self.inputs@[i]@),
            output: text_view(self.output),
        }
    }
}

/// Why a signature does not describe a function that can be exported.
#[derive(Clone, Copy, Debug, PartialEq, Eq, Hash)]
pub enum SignatureError {
    /// The function is `async`.
    Async,
    /// What stands in the place of the receiver is not one.
    InvalidReceiver,
    /// The input at the given position is a receiver.
    Method(usize),
    /// The type of the input at the given position is not a basic type.
    UnknownArgumentType(usize),
    /// The return type is not a basic type.
    UnknownReturnType,
}

impl SignatureError {
    /// What is wrong with the signature, in words.
    pub open spec fn message_text(self) -> Seq<char> {
        match self {
            SignatureError::Async => "Async functions are not supported with `#[cs_bindgen]`"@,
            SignatureError::InvalidReceiver => "Invalid receiver for `#[cs_bindgen]` method"@,
            SignatureError::Method(_) => "Methods are not supported, only free functions"@,
            SignatureError::UnknownArgumentType(_) =>
                "Unknown argument type, only primitives are supported"@,
            SignatureError::UnknownReturnType =>
                "Unknown return type, only primitives are supported"@,
        }
    }

    /// Writes what is wrong with the signature.
    pub fn message(&self) -> (r: &'static str)
        ensures
            r@ == self.message_text(),
    {
        match self {
            SignatureError::Async => "Async functions are not supported with `#[cs_bindgen]`",
            SignatureError::InvalidReceiver => "Invalid receiver for `#[cs_bindgen]` method",
            SignatureError::Method(_) => "Methods are not supported, only free functions",
            SignatureError::UnknownArgumentType(_) =>
                "Unknown argument type, only primitives are supported",
            SignatureError::UnknownReturnType =>
                "Unknown return type, only primitives are supported",
        }
    }
}

/// How a method takes the value it is called on.
#[derive(Clone, Copy, Debug, PartialEq, Eq, Hash)]
pub enum Receiver {
    Ref,
    RefMut,
    Value,
}

/// One argument of a described function.
#[derive(Debug, PartialEq, Eq, Hash)]
pub struct BasicArg {
    pub ident: String,
    pub ty: BasicType,
}

/// The view of [`BasicArg`].
pub struct BasicArgView {
    pub ident: Seq<char>,
    pub ty: BasicType,
}

impl View for BasicArg {
    type V = BasicArgView;

    open spec fn view(&self) -> BasicArgView {
        BasicArgView { ident: self.ident@, ty: self.ty }
    }
}

/// The views of the items of a list, in order.
pub open spec fn basic_args_view(args: Seq<BasicArg>) -> Seq<BasicArgView> {
    Seq::new(args.len(), |i: int| args[i]@)
}

/// The description of a function.
#[derive(Debug, PartialEq, Eq, Hash)]
pub struct BindgenFn {
    /// The name the function was declared with.
    pub ident: String,
    pub receiver: Option<Receiver>,
    pub args: Vec<BasicArg>,
    pub ret: Option<BasicType>,
}

/// The view of [`BindgenFn`].
pub struct BindgenFnView {
    pub ident: Seq<char>,
    pub receiver: Option<Receiver>,
    pub args: Seq<BasicArgView>,
    pub ret: Option<BasicType>,
}

impl View for BindgenFn {
    type V = BindgenFnView;

    open spec fn view(&self) -> BindgenFnView {
        BindgenFnView {
            ident: self.ident@,
            receiver: self.receiver,
            args: basic_args_view(self.args@),
            ret: self.ret,
        }
    }
}

/// The way in which the given input takes the value a method is called on.
pub open spec fn receiver_of(input: InputView) -> Result<Receiver, SignatureError> {
    match input {
        InputView::Receiver { reference, mutability } => if reference {
            if mutability {
                Ok(Receiver::RefMut)
            } else {
                Ok(Receiver::Ref)
            }
        } else {
            Ok(Receiver::Value)
        },
        InputView::Typed { .. } => Err(SignatureError::InvalidReceiver),
    }
}

/// Whether the input stands in the place of the receiver: it is one, or it
/// is a pattern that binds `self`.
pub open spec fn is_receiver_like(input: InputView) -> bool {
    match input {
        InputView::Receiver { .. } => true,
        InputView::Typed { ident, .. } => ident == Some("self"@),
    }
}

/// The receiver of a function with the given inputs: what the first input
/// says, where it stands in the place of the receiver.
pub open spec fn signature_receiver(inputs: Seq<InputView>) -> Result<
    Option<Receiver>,
    SignatureError,
> {
    if inputs.len() > 0 && is_receiver_like(inputs[0]) {
        match receiver_of(inputs[0]) {
            Ok(receiver) => Ok(Some(receiver)),
            Err(error) => Err(error),
        }
    } else {
        Ok(None)
    }
}

/// The name of an argument whose pattern binds no name.
pub open spec fn placeholder_name(index: nat) -> Seq<char> {
    "__arg"@ + decimal(index)
}

/// The argument for the input at position `index`. A receiver is none, nor
/// is an input whose type is not basic.
pub open spec fn basic_arg_of(input: InputView, index: int) -> Result<BasicArgView, SignatureError> {
    match input {
        InputView::Receiver { .. } => Err(SignatureError::Method(index as usize)),
        InputView::Typed { ident, ty } => match basic_type_named(ty) {
            None => Err(SignatureError::UnknownArgumentType(index as usize)),
            Some(ty) => Ok(
                BasicArgView {
                    ident: match ident {
                        Some(name) => name,
                        None => placeholder_name(index as nat),
                    },
                    ty,
                },
            ),
        },
    }
}

/// `basic_arg_of`, as a function of the position and the input.
pub open spec fn basic_arg_fn() -> spec_fn(int, InputView) -> Result<BasicArgView, SignatureError> {
    |index: int, input: InputView| basic_arg_of(input, index)
}

/// The return type of a function whose signature spells it as `output`.
pub open spec fn return_type_of(output: Option<Seq<char>>) -> Result<
    Option<BasicType>,
    SignatureError,
> {
    match output {
        None => Ok(None),
        Some(ty) => match basic_type_named(ty) {
            Some(ty) => Ok(Some(ty)),
            None => Err(SignatureError::UnknownReturnType),
        },
    }
}

/// The description of the function with the given signature.
///
/// An `async` function has none. The receiver is read first, then the
/// arguments in order, then the return type; the first of them that cannot
/// be described decides the error.
pub open spec fn bindgen_fn_of(signature: SignatureShape) -> Result<BindgenFnView, SignatureError> {
    if signature.asyncness {
        Err(SignatureError::Async)
    } else {
        match signature_receiver(signature.inputs) {
            Err(error) => Err(error),
            Ok(receiver) => match try_map(signature.inputs, basic_arg_fn()) {
                Err(error) => Err(error),
                Ok(args) => match return_type_of(signature.output) {
                    Err(error) => Err(error),
                    Ok(ret) => Ok(BindgenFnView { ident: signature.ident, receiver, args, ret }),
                },
            },
        }
    }
}

/// The name of the entry point generated for the function of the given
/// name.
pub open spec fn generated_name_of(ident: Seq<char>) -> Seq<char> {
    "__cs_bindgen_generated_"@ + ident
}

/// The name of the entry point generated for the method of the given name
/// on the type `self_ty`.
pub open spec fn generated_method_name_of(self_ty: Seq<char>, ident: Seq<char>) -> Seq<char> {
    "__cs_bindgen_generated__"@ + self_ty + "__"@ + ident
}

/// The view of a described function, or of the error in its place.
pub open spec fn described_view(result: Result<BindgenFn, SignatureError>) -> Result<
    BindgenFnView,
    SignatureError,
> {
    match result {
        Ok(described) => Ok(described@),
        Err(error) => Err(error),
    }
}

impl Receiver {
    /// Reads the way in which a method takes the value it is called on.
    pub fn from_syn(arg: &Input) -> (r: Result<Receiver, SignatureError>)
        ensures
            r == receiver_of(arg@),
    {
        match arg {
            Input::Receiver { reference, mutability } => Ok(
                if *reference {
                    if *mutability {
                        Receiver::RefMut
                    } else {
                        Receiver::Ref
                    }
                } else {
                    Receiver::Value
                },
            ),
            Input::Typed { .. } => Err(SignatureError::InvalidReceiver),
        }
    }
}

impl Signature {
    /// The input that stands in the place of the receiver, if there is one.
    pub fn receiver(&self) -> (r: Option<&Input>)
        ensures
            r is Some == (self@.inputs.len() > 0 && is_receiver_like(self@.inputs[0])),
            r matches Some(input) ==> input@ == self@.inputs[0],
    {
        if self.inputs.len() == 0 {
            return None;
        }
        let first = &self.inputs[0];
        match first {
            Input::Receiver { .. } => Some(first),
            Input::Typed { ident, .. } => match ident {
                Some(name) => {
                    if is_text(name, "self") {
                        Some(first)
                    } else {
                        None
                    }
                },
                None => None,
            },
        }
    }
}

impl BindgenFn {
    /// Describes the function with the given signature.
    pub fn from_signature(signature: &Signature) -> (r: Result<BindgenFn, SignatureError>)
        ensures
            described_view(r) == bindgen_fn_of(signature@),
    {
        if signature.asyncness {
            return Err(SignatureError::Async);
        }
        let receiver = match signature.receiver() {
            None => None,
            Some(input) => match Receiver::from_syn(input) {
                Ok(receiver) => Some(receiver),
                Err(error) => {
                    return Err(error);
                },
            },
        };
        let ghost all = signature@.inputs;
        let ghost f = basic_arg_fn();
        let mut args: Vec<BasicArg> = Vec::new();
        let mut i: usize = 0;
        proof {
            lemma_try_map_empty(all.take(0), f);
            assert(basic_args_view(args@) =~= Seq::<BasicArgView>::empty());
        }
        while i < signature.inputs.len()
            invariant
                i <= signature.inputs.len(),
                args.len() == i,
                all == signature@.inputs,
                f == basic_arg_fn(),
                !signature.asyncness,
                signature_receiver(all) == Ok::<Option<Receiver>, SignatureError>(receiver),
                try_map(all.take(i as int), f) == Ok::<Seq<BasicArgView>, SignatureError>(
                    basic_args_view(args@),
                ),
            decreases signature.inputs.len() - i,
        {
            proof {
                lemma_try_map_step(all, f, i as int);
            }
            let arg = match &signature.inputs[i] {
                Input::Receiver { .. } => Err(SignatureError::Method(i)),
                Input::Typed { ident, ty } => match BasicType::from_name(ty) {
                    None => Err(SignatureError::UnknownArgumentType(i)),
                    Some(ty) => {
                        let ident = match ident {
                            Some(name) => name.clone(),
                            None => prefixed("__arg", decimal_text(i).as_str()),
                        };
                        Ok(BasicArg { ident, ty })
                    },
                },
            };
            match arg {
                Err(error) => {
                    proof {
                        lemma_try_map_error_stays(all, f, i + 1);
                    }
                    return Err(error);
                },
                Ok(arg) => {
                    let ghost before = basic_args_view(args@);
                    args.push(arg);
                    assert(basic_args_view(args@) =~= before.push(args@[i as int]@));
                },
            }
            i += 1;
        }
        assert(all.take(i as int) =~= all);
        let ret = match &signature.output {
            None => None,
            Some(ty) => match BasicType::from_name(ty) {
                Some(ty) => Some(ty),
                None => {
                    return Err(SignatureError::UnknownReturnType);
                },
            },
        };
        Ok(BindgenFn { ident: signature.ident.clone(), receiver, args, ret })
    }

    /// The name of the function as it was declared.
    pub fn raw_ident(&self) -> (r: &str)
        ensures
            r@ == self@.ident,
    {
        self.ident.as_str()
    }

    /// The name of the function, for use as an identifier.
    pub fn ident(&self) -> (r: String)
        ensures
            r@ == self@.ident,
    {
        self.ident.clone()
    }

    /// The name of the entry point generated for the function.
    pub fn generated_name(&self) -> (r: String)
        ensures
            r@ == generated_name_of(self@.ident),
    {
        prefixed("__cs_bindgen_generated_", self.ident.as_str())
    }

    /// The name of the generated entry point, for use as an identifier.
    pub fn generated_ident(&self) -> (r: String)
        ensures
            r@ == generated_name_of(self@.ident),
    {
        self.generated_name()
    }

    /// The name of the entry point generated for the function as a method
    /// of the type `self_ty`.
    pub fn generated_method_name(&self, self_ty: &str) -> (r: String)
        ensures
            r@ == generated_method_name_of(self_ty@, self@.ident),
    {
        let mut r = String::from_str("__cs_bindgen_generated__");
        r.append(self_ty);
        r.append("__");
        r.append(self.ident.as_str());
        r
    }

    /// The name of the generated method entry point, for use as an
    /// identifier.
    pub fn generated_method_ident(&self, self_ty: &str) -> (r: String)
        ensures
            r@ == generated_method_name_of(self_ty@, self@.ident),
    {
        self.generated_method_name(self_ty)
    }
}

impl Clone for Input {
    fn clone(&self) -> (r: Input)
        ensures
            r@ == self@,
    {
        match self {
            Input::Receiver { reference, mutability } => Input::Receiver {
                reference: *reference,
                mutability: *mutability,
            },
            Input::Typed { ident, ty } => Input::Typed {
                ident: crate::schema::clone_text(ident),
                ty: ty.clone(),
            },
        }
    }
}

impl Clone for Signature {
    fn clone(&self) -> (r: Signature)
        ensures
            r@ == self@,
    {
        let mut inputs: Vec<Input> = Vec::new();
        let mut i: usize = 0;
        while i < self.inputs.len()
            invariant
                i <= self.inputs.len(),
                inputs.len() == i,
                forall|j: int| 0 <= j < i ==> (#[trigger] inputs@[j])@ == self.inputs@[j]@,
            decreases self.inputs.len() - i,
        {
            inputs.push(self.inputs[i].clone());
            i += 1;
        }
        let r = Signature {
            asyncness: self.asyncness,
            ident: self.ident.clone(),
            inputs,
            output: crate::schema::clone_text(&self.output),
        };
        assert(r@.inputs =~= self@.inputs);
        r
    }
}

impl Clone for BasicArg {
    fn clone(&self) -> (r: BasicArg)
        ensures
            r@ == self@,
    {
        BasicArg { ident: self.ident.clone(), ty: self.ty }
    }
}

impl Clone for BindgenFn {
    fn clone(&self) -> (r: BindgenFn)
        ensures
            r@ == self@,
    {
        let mut args: Vec<BasicArg> = Vec::new();
        let mut i: usize = 0;
        while i < self.args.len()
            invariant
                i <= self.args.len(),
                args.len() == i,
                forall|j: int| 0 <= j < i ==> (#[trigger] args@[j])@ == self.args@[j]@,
            decreases self.args.len() - i,
        {
            args.push(self.args[i].clone());
            i += 1;
        }
        assert(basic_args_view(args@) =~= basic_args_view(self.args@));
        BindgenFn { ident: self.ident.clone(), receiver: self.receiver, args, ret: self.ret }
    }
}

} // verus!
