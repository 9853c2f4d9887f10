//! What can go wrong while declarations are generated.
//!
//! Generation for one exported item either yields all of its declarations or
//! one of these errors; nothing is emitted for an item that fails.

use vstd::prelude::*;
use crate::naming::{decimal, decimal_text, prefixed};
use crate::schema::{TypeName, TypeNameView};

verus! {

/// A schema kind that has no representation at the boundary.
#[derive(Clone, Copy, Debug, PartialEq, Eq, Hash)]
pub enum UnsupportedKind {
    /// A fixed-size array.
    Array,
    /// An optional value.
    Optional,
    /// An anonymous tuple.
    Tuple,
    /// A map from keys to values.
    Mapping,
    /// A result that is either a value or an error.
    Fallible,
    /// A 128-bit integer.
    WideInteger,
    /// A growable sequence of a type other than the standard vector.
    Sequence,
}

/// Why a type could not be given a C# type.
#[derive(Debug, PartialEq, Eq, Hash)]
pub enum ResolveError {
    /// The named type has no entry in the registry.
    UnresolvedType(TypeName),
    /// The type is of a kind that cannot cross the boundary.
    Unsupported(UnsupportedKind),
}

/// The view of [`ResolveError`].
pub enum ResolveErrorView {
    UnresolvedType(TypeNameView),
    Unsupported(UnsupportedKind),
}

impl View for ResolveError {
    type V = ResolveErrorView;

    open spec fn view(&self) -> ResolveErrorView {
        match self {
            ResolveError::UnresolvedType(name) => ResolveErrorView::UnresolvedType(name@),
            ResolveError::Unsupported(kind) => ResolveErrorView::Unsupported(*kind),
        }
    }
}

/// The field of an aggregate whose type failed to resolve, by position.
#[derive(Debug, PartialEq, Eq, Hash)]
pub struct FieldError {
    pub index: usize,
    pub cause: ResolveError,
}

/// The view of [`FieldError`].
pub struct FieldErrorView {
    pub index: usize,
    pub cause: ResolveErrorView,
}

impl View for FieldError {
    type V = FieldErrorView;

    open spec fn view(&self) -> FieldErrorView {
        FieldErrorView { index: self.index, cause: self.cause@ }
    }
}

/// The part of an exported item in which a type failed to resolve.
#[derive(Clone, Copy, Debug, PartialEq, Eq, Hash)]
pub enum Place {
    /// The argument at the given position.
    Input(usize),
    /// The return value.
    Output,
    /// The receiver of a method.
    Receiver,
    /// The by-value representation of a named type.
    Representation,
    /// The field at the given position of a struct.
    Field(usize),
    /// A field of an enum variant, both by position.
    VariantField { variant: usize, field: usize },
}

/// Why no declarations were generated for an exported item.
#[derive(Debug, PartialEq, Eq, Hash)]
pub enum GenError {
    /// A type that the item mentions could not be resolved.
    Resolve { place: Place, cause: ResolveError },
    /// An enum whose variants carry data is marshaled as a handle.
    HandleWithData(TypeName),
    /// The variant at the given position carries data, in an enum that is
    /// generated as a plain list of discriminants.
    NonUnitVariant(usize),
    /// The discriminant of the variant at the given position is not an
    /// integer literal; `text` is what was declared.
    MalformedDiscriminant { variant: usize, text: String },
}

/// The view of [`GenError`].
pub enum GenErrorView {
    Resolve { place: Place, cause: ResolveErrorView },
    HandleWithData(TypeNameView),
    NonUnitVariant(usize),
    MalformedDiscriminant { variant: usize, text: Seq<char> },
}

impl View for GenError {
    type V = GenErrorView;

    open spec fn view(&self) -> GenErrorView {
        match self {
            GenError::Resolve { place, cause } => GenErrorView::Resolve {
                place: *place,
                cause: cause@,
            },
            GenError::HandleWithData(name) => GenErrorView::HandleWithData(name@),
            GenError::NonUnitVariant(index) => GenErrorView::NonUnitVariant(*index),
            GenError::MalformedDiscriminant { variant, text } => GenErrorView::MalformedDiscriminant {
                variant: *variant,
                text: text@,
            },
        }
    }
}

/// The view of a result: the view of what it holds, on either side.
pub open spec fn result_view<T: View, E: View>(result: Result<T, E>) -> Result<T::V, E::V> {
    match result {
        Ok(value) => Ok(value@),
        Err(error) => Err(error@),
    }
}

/// A failure to resolve, as the failure of the item at `place`.
pub open spec fn at_place<T>(place: Place, resolved: Result<T, ResolveErrorView>) -> Result<
    T,
    GenErrorView,
> {
    match resolved {
        Ok(value) => Ok(value),
        Err(cause) => Err(GenErrorView::Resolve { place, cause }),
    }
}

impl UnsupportedKind {
    /// The kind in words.
    pub open spec fn description(self) -> Seq<char> {
        match self {
            UnsupportedKind::Array => "a fixed-size array"@,
            UnsupportedKind::Optional => "an optional value"@,
            UnsupportedKind::Tuple => "a tuple"@,
            UnsupportedKind::Mapping => "a map"@,
            UnsupportedKind::Fallible => "a result"@,
            UnsupportedKind::WideInteger => "a 128-bit integer"@,
            UnsupportedKind::Sequence => "a sequence other than the standard vector"@,
        }
    }

    /// Writes the kind in words.
    pub fn describe(&self) -> (r: &'static str)
        ensures
            r@ == self.description(),
    {
        match self {
            UnsupportedKind::Array => "a fixed-size array",
            UnsupportedKind::Optional => "an optional value",
            UnsupportedKind::Tuple => "a tuple",
            UnsupportedKind::Mapping => "a map",
            UnsupportedKind::Fallible => "a result",
            UnsupportedKind::WideInteger => "a 128-bit integer",
            UnsupportedKind::Sequence => "a sequence other than the standard vector",
        }
    }
}

impl ResolveErrorView {
    /// What went wrong, in words: the missing type by module and name, or
    /// the unsupported kind.
    pub open spec fn message(self) -> Seq<char> {
        match self {
            ResolveErrorView::UnresolvedType(name) => "no export found for the named type "@
                + name.module + "::"@ + name.name,
            ResolveErrorView::Unsupported(kind) => "unsupported schema: "@ + kind.description(),
        }
    }
}

impl Place {
    /// The place in words.
    pub open spec fn description(self) -> Seq<char> {
        match self {
            Place::Input(index) => "argument "@ + decimal(index as nat),
            Place::Output => "the return value"@,
            Place::Receiver => "the receiver"@,
            Place::Representation => "the representation"@,
            Place::Field(index) => "field "@ + decimal(index as nat),
            Place::VariantField { variant, field } => "field "@ + decimal(field as nat)
                + " of variant "@ + decimal(variant as nat),
        }
    }

    /// Writes the place in words.
    pub fn describe(&self) -> (r: String)
        ensures
            r@ == self.description(),
    {
        match self {
            Place::Input(index) => prefixed("argument ", decimal_text(*index).as_str()),
            Place::Output => String::from_str("the return value"),
            Place::Receiver => String::from_str("the receiver"),
            Place::Representation => String::from_str("the representation"),
            Place::Field(index) => prefixed("field ", decimal_text(*index).as_str()),
            Place::VariantField { variant, field } => {
                let mut r = prefixed("field ", decimal_text(*field).as_str());
                r.append(" of variant ");
                r.append(decimal_text(*variant).as_str());
                r
            },
        }
    }
}

impl GenErrorView {
    /// What went wrong, in words.
    pub open spec fn message(self) -> Seq<char> {
        match self {
            GenErrorView::Resolve { place, cause } => place.description() + ": "@ + cause.message(),
            GenErrorView::HandleWithData(name) => "the enum "@ + name.module + "::"@ + name.name
                + " carries data and can only be exported by value"@,
            GenErrorView::NonUnitVariant(index) => "variant "@ + decimal(index as nat)
                + " carries data, in an enum that has none"@,
            GenErrorView::MalformedDiscriminant { variant, text } => "the discriminant of variant "@
                + decimal(variant as nat) + " is not an integer literal: "@ + text,
        }
    }
}

impl ResolveError {
    /// Writes what went wrong.
    pub fn message(&self) -> (r: String)
        ensures
            r@ == self@.message(),
    {
        match self {
            ResolveError::UnresolvedType(name) => {
                let mut r = String::from_str("no export found for the named type ");
                r.append(name.module.as_str());
                r.append("::");
                r.append(name.name.as_str());
                r
            },
            ResolveError::Unsupported(kind) => prefixed("unsupported schema: ", kind.describe()),
        }
    }
}

impl GenError {
    /// Writes what went wrong.
    pub fn message(&self) -> (r: String)
        ensures
            r@ == self@.message(),
    {
        match self {
            GenError::Resolve { place, cause } => {
                let mut r = place.describe();
                r.append(": ");
                r.append(cause.message().as_str());
                r
            },
            GenError::HandleWithData(name) => {
                let mut r = String::from_str("the enum ");
                r.append(name.module.as_str());
                r.append("::");
                r.append(name.name.as_str());
                r.append(" carries data and can only be exported by value");
                r
            },
            GenError::NonUnitVariant(index) => {
                let mut r = prefixed("variant ", decimal_text(*index).as_str());
                r.append(" carries data, in an enum that has none");
                r
            },
            GenError::MalformedDiscriminant { variant, text } => {
                let mut r = prefixed("the discriminant of variant ", decimal_text(*variant).as_str());
                r.append(" is not an integer literal: ");
                r.append(text.as_str());
                r
            },
        }
    }
}

impl Clone for ResolveError {
    fn clone(&self) -> (r: ResolveError)
        ensures
            r@ == self@,
    {
        match self {
            ResolveError::UnresolvedType(name) => ResolveError::UnresolvedType(name.clone()),
            ResolveError::Unsupported(kind) => ResolveError::Unsupported(*kind),
        }
    }
}

impl Clone for FieldError {
    fn clone(&self) -> (r: FieldError)
        ensures
            r@ == self@,
    {
        FieldError { index: self.index, cause: self.cause.clone() }
    }
}

impl Clone for GenError {
    fn clone(&self) -> (r: GenError)
        ensures
            r@ == self@,
    {
        match self {
            GenError::Resolve { place, cause } => GenError::Resolve {
                place: *place,
                cause: cause.clone(),
            },
            GenError::HandleWithData(name) => GenError::HandleWithData(name.clone()),
            GenError::NonUnitVariant(index) => GenError::NonUnitVariant(*index),
            GenError::MalformedDiscriminant { variant, text } => GenError::MalformedDiscriminant {
                variant: *variant,
                text: text.clone(),
            },
        }
    }
}

} // verus!
