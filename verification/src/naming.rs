//! The names of generated declarations.
//!
//! Names that follow C# casing conventions are produced by the `heck` crate;
//! what it returns is named here by `camel_case_of` and `mixed_case_of`, and
//! contracts that depend on it speak of those two functions.

use vstd::prelude::*;
use crate::schema::TypeName;

verus! {

/// What `heck` makes of `name` in `CamelCase`.
pub uninterp spec fn camel_case_of(name: Seq<char>) -> Seq<char>;

/// What `heck` makes of `name` in `mixedCase`.
pub uninterp spec fn mixed_case_of(name: Seq<char>) -> Seq<char>;

/// Calls `heck::CamelCase::to_camel_case` on `name`. The conversion splits
/// the text into words by Unicode rules and rejoins them capitalised; it is a
/// function of the text alone, and the contract only gives its result a name.
#[verifier::external_body]
pub(crate) fn camel_case(name: &str) -> (r: String)
    ensures
        r@ == camel_case_of(name@),
{
    heck::CamelCase::to_camel_case(name)
}

/// Calls `heck::MixedCase::to_mixed_case` on `name`. As `camel_case`, but the
/// first word is lowercased; the contract only gives the result a name.
#[verifier::external_body]
pub(crate) fn mixed_case(name: &str) -> (r: String)
    ensures
        r@ == mixed_case_of(name@),
{
    heck::MixedCase::to_mixed_case(name)
}

/// The decimal digit for a number below ten.
pub open spec fn digit(d: nat) -> char {
    if d == 0 {
        '0'
    } else if d == 1 {
        '1'
    } else if d == 2 {
        '2'
    } else if d == 3 {
        '3'
    } else if d == 4 {
        '4'
    } else if d == 5 {
        '5'
    } else if d == 6 {
        '6'
    } else if d == 7 {
        '7'
    } else if d == 8 {
        '8'
    } else {
        '9'
    }
}

/// A number in decimal, without leading zeros.
pub open spec fn decimal(n: nat) -> Seq<char>
    decreases n,
{
    if n < 10 {
        seq![digit(n)]
    } else {
        decimal(n / 10).push(digit(n % 10))
    }
}

fn digit_text(d: usize) -> (r: &'static str)
    requires
        d < 10,
    ensures
        r@ == seq![digit(d as nat)],
{
    proof {
        reveal_strlit("0");
        reveal_strlit("1");
        reveal_strlit("2");
        reveal_strlit("3");
        reveal_strlit("4");
        reveal_strlit("5");
        reveal_strlit("6");
        reveal_strlit("7");
        reveal_strlit("8");
        reveal_strlit("9");
    }
    let r = if d == 0 {
        "0"
    } else if d == 1 {
        "1"
    } else if d == 2 {
        "2"
    } else if d == 3 {
        "3"
    } else if d == 4 {
        "4"
    } else if d == 5 {
        "5"
    } else if d == 6 {
        "6"
    } else if d == 7 {
        "7"
    } else if d == 8 {
        "8"
    } else {
        "9"
    };
    assert(r@ =~= seq![digit(d as nat)]);
    r
}

/// Writes a number in decimal.
pub fn decimal_text(n: usize) -> (r: String)
    ensures
        r@ == decimal(n as nat),
    decreases n,
{
    if n < 10 {
        String::from_str(digit_text(n))
    } else {
        let mut r = decimal_text(n / 10);
        r.append(digit_text(n % 10));
        assert(r@ =~= decimal(n as nat));
        r
    }
}

/// The name of the class that holds every raw binding.
pub open spec fn bindings_class() -> Seq<char> {
    "__bindings"@
}

/// The name of the overloaded conversion from a raw value.
pub open spec fn from_raw_fn() -> Seq<char> {
    "__FromRaw"@
}

/// The name of the overloaded conversion into a raw value.
pub open spec fn into_raw_fn() -> Seq<char> {
    "__IntoRaw"@
}

/// The name of the raw record of a type that is marshaled by value.
pub open spec fn raw_name(name: Seq<char>) -> Seq<char> {
    "__"@ + name + "__Raw"@
}

/// The name given to the field at `index` of a tuple-like aggregate.
pub open spec fn positional_name(index: nat) -> Seq<char> {
    "Element"@ + decimal(index)
}

/// The identifier of the class that holds every raw binding.
pub fn bindings_class_ident() -> (r: String)
    ensures
        r@ == bindings_class(),
{
    String::from_str("__bindings")
}

/// The identifier of the conversion from a raw value. It is overloaded for
/// every primitive and every exported type, so that one name converts any
/// value.
pub fn from_raw_fn_ident() -> (r: String)
    ensures
        r@ == from_raw_fn(),
{
    String::from_str("__FromRaw")
}

/// The identifier of the conversion into a raw value, overloaded as
/// `from_raw_fn_ident` is.
pub fn into_raw_fn_ident() -> (r: String)
    ensures
        r@ == into_raw_fn(),
{
    String::from_str("__IntoRaw")
}

/// The identifier of the raw record that stands for the given type when its
/// values are marshaled by copying.
pub fn raw_ident(name: &TypeName) -> (r: String)
    ensures
        r@ == raw_name(name@.name),
{
    let mut r = String::from_str("__");
    r.append(name.name.as_str());
    r.append("__Raw");
    r
}

/// The identifier of the field at `index` of a tuple-like aggregate.
pub fn positional_ident(index: usize) -> (r: String)
    ensures
        r@ == positional_name(index as nat),
{
    let digits = decimal_text(index);
    let mut r = String::from_str("Element");
    r.append(digits.as_str());
    r
}

/// `prefix` followed by `name`.
pub fn prefixed(prefix: &str, name: &str) -> (r: String)
    ensures
        r@ == prefix@ + name@,
{
    let mut r = String::from_str(prefix);
    r.append(name);
    r
}

/// `name` followed by `suffix`.
pub fn suffixed(name: &str, suffix: &str) -> (r: String)
    ensures
        r@ == name@ + suffix@,
{
    let mut r = String::from_str(name);
    r.append(suffix);
    r
}

} // verus!
