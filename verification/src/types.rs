//! References to C# types, as they are written in generated declarations.

use vstd::prelude::*;

verus! {

/// A C# type, as a declaration names it.
#[derive(Debug, PartialEq, Eq, Hash)]
pub enum CsType {
    Void,
    Bool,
    Byte,
    SByte,
    Short,
    UShort,
    Int,
    UInt,
    Long,
    ULong,
    IntPtr,
    UIntPtr,
    Float,
    Double,
    /// `string`
    Text,
    /// The record `{pointer, length, capacity}` of a buffer whose ownership
    /// crosses the boundary.
    RawVec,
    /// The record `{pointer, length}` of a buffer lent for one call.
    RawSlice,
    /// `void*`, the one pointer type that every handle is passed as.
    HandlePtr,
    /// A generated type, by its own name.
    Named(String),
    /// A generated type, by its name under `global::`.
    Global(String),
    /// `RawEnum<U>`: a discriminant together with the overlay union `U`.
    RawEnum(String),
    /// `List<T>`
    List(Box<CsType>),
}

/// The view of [`CsType`].
pub enum CsTypeView {
    Void,
    Bool,
    Byte,
    SByte,
    Short,
    UShort,
    Int,
    UInt,
    Long,
    ULong,
    IntPtr,
    UIntPtr,
    Float,
    Double,
    Text,
    RawVec,
    RawSlice,
    HandlePtr,
    Named(Seq<char>),
    Global(Seq<char>),
    RawEnum(Seq<char>),
    List(Box<CsTypeView>),
}

/// The view of a type.
pub open spec fn cs_type_view(ty: CsType) -> CsTypeView
    decreases ty,
{
    match ty {
        CsType::Void => CsTypeView::Void,
        CsType::Bool => CsTypeView::Bool,
        CsType::Byte => CsTypeView::Byte,
        CsType::SByte => CsTypeView::SByte,
        CsType::Short => CsTypeView::Short,
        CsType::UShort => CsTypeView::UShort,
        CsType::Int => CsTypeView::Int,
        CsType::UInt => CsTypeView::UInt,
        CsType::Long => CsTypeView::Long,
        CsType::ULong => CsTypeView::ULong,
        CsType::IntPtr => CsTypeView::IntPtr,
        CsType::UIntPtr => CsTypeView::UIntPtr,
        CsType::Float => CsTypeView::Float,
        CsType::Double => CsTypeView::Double,
        CsType::Text => CsTypeView::Text,
        CsType::RawVec => CsTypeView::RawVec,
        CsType::RawSlice => CsTypeView::RawSlice,
        CsType::HandlePtr => CsTypeView::HandlePtr,
        CsType::Named(name) => CsTypeView::Named(name@),
        CsType::Global(name) => CsTypeView::Global(name@),
        CsType::RawEnum(name) => CsTypeView::RawEnum(name@),
        CsType::List(element) => CsTypeView::List(Box::new(cs_type_view(*element))),
    }
}

impl View for CsType {
    type V = CsTypeView;

    open spec fn view(&self) -> CsTypeView {
        cs_type_view(*self)
    }
}

impl CsTypeView {
    /// Whether the type has a fixed layout that both sides of the boundary
    /// agree on, so that it may stand in a foreign function's signature or
    /// in a raw record.
    pub open spec fn is_raw(self) -> bool {
        match self {
            CsTypeView::Void => false,
            CsTypeView::Bool => false,
            CsTypeView::Text => false,
            CsTypeView::Named(_) => false,
            CsTypeView::List(_) => false,
            _ => true,
        }
    }

    /// The size of a value of the type, for the types whose size does not
    /// depend on the platform or on a declaration.
    pub open spec fn width(self) -> Option<nat> {
        match self {
            CsTypeView::Bool => Some(1),
            CsTypeView::Byte => Some(1),
            CsTypeView::SByte => Some(1),
            CsTypeView::Short => Some(2),
            CsTypeView::UShort => Some(2),
            CsTypeView::Int => Some(4),
            CsTypeView::UInt => Some(4),
            CsTypeView::Float => Some(4),
            CsTypeView::Long => Some(8),
            CsTypeView::ULong => Some(8),
            CsTypeView::Double => Some(8),
            _ => None,
        }
    }

    /// The type as it is written in C# source.
    pub open spec fn text(self) -> Seq<char>
        decreases self,
    {
        match self {
            CsTypeView::Void => "void"@,
            CsTypeView::Bool => "bool"@,
            CsTypeView::Byte => "byte"@,
            CsTypeView::SByte => "sbyte"@,
            CsTypeView::Short => "short"@,
            CsTypeView::UShort => "ushort"@,
            CsTypeView::Int => "int"@,
            CsTypeView::UInt => "uint"@,
            CsTypeView::Long => "long"@,
            CsTypeView::ULong => "ulong"@,
            CsTypeView::IntPtr => "IntPtr"@,
            CsTypeView::UIntPtr => "UIntPtr"@,
            CsTypeView::Float => "float"@,
            CsTypeView::Double => "double"@,
            CsTypeView::Text => "string"@,
            CsTypeView::RawVec => "RawVec"@,
            CsTypeView::RawSlice => "RawSlice"@,
            CsTypeView::HandlePtr => "void*"@,
            CsTypeView::Named(name) => name,
            CsTypeView::Global(name) => "global::"@ + name,
            CsTypeView::RawEnum(name) => "RawEnum<"@ + name + ">"@,
            CsTypeView::List(element) => "List<"@ + element.text() + ">"@,
        }
    }
}

impl CsType {
    fn copy(&self) -> (r: CsType)
        ensures
            r@ == self@,
        decreases self,
    {
        match self {
            CsType::Void => CsType::Void,
            CsType::Bool => CsType::Bool,
            CsType::Byte => CsType::Byte,
            CsType::SByte => CsType::SByte,
            CsType::Short => CsType::Short,
            CsType::UShort => CsType::UShort,
            CsType::Int => CsType::Int,
            CsType::UInt => CsType::UInt,
            CsType::Long => CsType::Long,
            CsType::ULong => CsType::ULong,
            CsType::IntPtr => CsType::IntPtr,
            CsType::UIntPtr => CsType::UIntPtr,
            CsType::Float => CsType::Float,
            CsType::Double => CsType::Double,
            CsType::Text => CsType::Text,
            CsType::RawVec => CsType::RawVec,
            CsType::RawSlice => CsType::RawSlice,
            CsType::HandlePtr => CsType::HandlePtr,
            CsType::Named(name) => CsType::Named(name.clone()),
            CsType::Global(name) => CsType::Global(name.clone()),
            CsType::RawEnum(name) => CsType::RawEnum(name.clone()),
            CsType::List(element) => CsType::List(Box::new(element.copy())),
        }
    }

    /// The size in bytes of a value of the type, where it is fixed.
    pub fn width(&self) -> (r: Option<u8>)
        ensures
            r is Some == self@.width() is Some,
            r matches Some(w) ==> self@.width() == Some(w as nat),
    {
        match self {
            CsType::Bool | CsType::Byte | CsType::SByte => Some(1),
            CsType::Short | CsType::UShort => Some(2),
            CsType::Int | CsType::UInt | CsType::Float => Some(4),
            CsType::Long | CsType::ULong | CsType::Double => Some(8),
            _ => None,
        }
    }

    /// Whether the type has a fixed layout that both sides of the boundary
    /// agree on.
    pub fn is_raw(&self) -> (b: bool)
        ensures
            b == self@.is_raw(),
    {
        match self {
            CsType::Void | CsType::Bool | CsType::Text | CsType::Named(_) | CsType::List(_) => false,
            _ => true,
        }
    }

    /// Writes the type as C# source.
    pub fn text(&self) -> (r: String)
        ensures
            r@ == self@.text(),
        decreases self,
    {
        match self {
            CsType::Void => String::from_str("void"),
            CsType::Bool => String::from_str("bool"),
            CsType::Byte => String::from_str("byte"),
            CsType::SByte => String::from_str("sbyte"),
            CsType::Short => String::from_str("short"),
            CsType::UShort => String::from_str("ushort"),
            CsType::Int => String::from_str("int"),
            CsType::UInt => String::from_str("uint"),
            CsType::Long => String::from_str("long"),
            CsType::ULong => String::from_str("ulong"),
            CsType::IntPtr => String::from_str("IntPtr"),
            CsType::UIntPtr => String::from_str("UIntPtr"),
            CsType::Float => String::from_str("float"),
            CsType::Double => String::from_str("double"),
            CsType::Text => String::from_str("string"),
            CsType::RawVec => String::from_str("RawVec"),
            CsType::RawSlice => String::from_str("RawSlice"),
            CsType::HandlePtr => String::from_str("void*"),
            CsType::Named(name) => name.clone(),
            CsType::Global(name) => {
                let mut r = String::from_str("global::");
                r.append(name.as_str());
                r
            },
            CsType::RawEnum(name) => {
                let mut r = String::from_str("RawEnum<");
                r.append(name.as_str());
                r.append(">");
                r
            },
            CsType::List(element) => {
                let inner = element.text();
                let mut r = String::from_str("List<");
                r.append(inner.as_str());
                r.append(">");
                r
            },
        }
    }
}

impl Clone for CsType {
    fn clone(&self) -> (r: CsType)
        ensures
            r@ == self@,
    {
        self.copy()
    }
}

} // verus!
