//! Discriminant literals.
//!
//! A description carries the explicit discriminant of an enum variant as the
//! text it was declared with. The text is not interpreted: it is parsed as
//! an integer literal by the `syn` crate, and the generated declaration
//! holds the literal as `syn` writes it.

use vstd::prelude::*;
use crate::schema::text_view;

verus! {

/// The characters of which an integer literal, with its sign and the space
/// that may follow the sign, is made.
pub open spec fn is_literal_char(c: char) -> bool {
    ('0' <= c && c <= '9') || ('a' <= c && c <= 'z') || ('A' <= c && c <= 'Z') || c == '_' || c
        == '-' || c == ' '
}

/// Whether the text is made of such characters only.
pub open spec fn is_literal_text(text: Seq<char>) -> bool {
    forall|i: int| 0 <= i < text.len() ==> is_literal_char(#[trigger] text[i])
}

/// What `syn` makes of `text` when it parses it as an integer literal and
/// writes the literal back: the literal as text, or nothing where `text`
/// is no integer literal.
pub uninterp spec fn int_literal(text: Seq<char>) -> Option<Seq<char>>;

/// The literal that a declaration holds for a discriminant declared as
/// `text`, or nothing where `text` cannot be a discriminant.
pub open spec fn discriminant_of(text: Seq<char>) -> Option<Seq<char>> {
    if is_literal_text(text) {
        int_literal(text)
    } else {
        None
    }
}

/// Calls `syn::parse_str::<syn::LitInt>` on `text` and, where that
/// succeeds, returns the literal as its `Display` writes it. The result is
/// a function of the text alone, and the contract only gives it a name.
///
/// The parser hands every literal token to `syn::Lit::new`, which panics on
/// a token it does not recognise, and the tokenizer produces such tokens
/// from quoted and bracketed text. Text made of `is_literal_char` only holds
/// neither: its tokens are words, minus signs and numbers.
#[verifier::external_body]
fn parse_int_literal(text: &str) -> (r: Option<String>)
    requires
        is_literal_text(text@),
    ensures
        text_view(r) == int_literal(text@),
{
    match syn::parse_str::<syn::LitInt>(text) {
        Ok(literal) => Some(literal.to_string()),
        Err(_) => None,
    }
}

fn is_literal_byte(b: u8) -> (r: bool)
    ensures
        r == is_literal_char(b as char),
{
    (b >= 48 && b <= 57) || (b >= 97 && b <= 122) || (b >= 65 && b <= 90) || b == 95 || b == 45
        || b == 32
}

/// Whether the text is made of the characters of integer literals only.
pub fn check_literal_text(text: &str) -> (r: bool)
    ensures
        r == is_literal_text(text@),
{
    if !text.is_ascii() {
        proof {
            let i = choose|i: int| 0 <= i < text@.len() && !('\0' <= #[trigger] text@[i] <= '\u{7f}');
            assert(!is_literal_char(text@[i]));
        }
        return false;
    }
    let n = text.unicode_len();
    let mut i: usize = 0;
    while i < n
        invariant
            i <= n,
            n == text@.len(),
            text.is_ascii(),
            forall|j: int| 0 <= j < i ==> is_literal_char(#[trigger] text@[j]),
        decreases n - i,
    {
        let b = text.get_ascii(i);
        proof {
            let c = text@[i as int];
            assert('\0' <= c <= '\u{7f}');
            assert(c as u8 == b);
            assert(b as char == c);
        }
        if !is_literal_byte(b) {
            return false;
        }
        i += 1;
    }
    true
}

/// The literal that a declaration holds for a discriminant declared as
/// `text`.
pub fn discriminant_literal(text: &str) -> (r: Option<String>)
    ensures
        text_view(r) == discriminant_of(text@),
{
    if check_literal_text(text) {
        parse_int_literal(text)
    } else {
        None
    }
}

} // verus!
