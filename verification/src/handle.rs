//! The native side of a type that is marshaled as a handle.
//!
//! A handle is a pointer to a value that lives on the native heap. The
//! native library needs, for each such type, the conversions between the
//! value, or a reference to it, and the pointer, and an exported function
//! through which the other side releases the value. This module writes
//! those items as Rust source.

use vstd::prelude::*;
use crate::binding::{drop_fn_ident, drop_fn_name};

verus! {

/// The conversions for the type itself: a value moves to the heap when it
/// is handed out and back when it is taken in.
pub open spec fn owned_abi_text(ident: Seq<char>) -> Seq<char> {
    "impl cs_bindgen::abi::Abi for "@ + ident
        + " {\n    type Abi = *const Self;\n\n    fn as_abi(&self) -> Self::Abi {\n        self\n    }\n\n    fn into_abi(self) -> Self::Abi {\n        std::boxed::Box::into_raw(std::boxed::Box::new(self))\n    }\n\n    unsafe fn from_abi(abi: Self::Abi) -> Self {\n        *std::boxed::Box::from_raw(abi as *mut _)\n    }\n}\n\n"@
}

/// The conversions for a reference to the type, shared or unique: the
/// reference is the pointer. `borrow` is `&'a ` or `&'a mut `, and
/// `reborrow` the expression that makes the reference from the pointer
/// `abi`.
pub open spec fn borrowed_abi_text(ident: Seq<char>, borrow: Seq<char>, reborrow: Seq<char>) -> Seq<
    char,
> {
    "impl<'a> cs_bindgen::abi::Abi for "@ + borrow + ident + " {\n    type Abi = *const "@ + ident
        + ";\n\n    fn as_abi(&self) -> Self::Abi {\n        "@ + ident
        + "::as_abi(self)\n    }\n\n    fn into_abi(self) -> Self::Abi {\n        "@ + ident
        + "::as_abi(self)\n    }\n\n    unsafe fn from_abi(abi: Self::Abi) -> Self {\n        "@
        + reborrow + "\n    }\n}\n\n"@
}

/// The exported function that releases a value of the type. It takes the
/// value by its handle and does nothing else: the value is dropped where
/// the function returns.
pub open spec fn drop_fn_text(ident: Seq<char>) -> Seq<char> {
    "#[no_mangle]\npub unsafe extern \"C\" fn "@ + drop_fn_name(ident) + "(_: <"@ + ident
        + " as cs_bindgen::abi::Abi>::Abi) {}\n"@
}

/// The items for the type named `ident`.
pub open spec fn handle_items_text(ident: Seq<char>) -> Seq<char> {
    owned_abi_text(ident) + borrowed_abi_text(ident, "&'a "@, "&*abi"@) + borrowed_abi_text(
        ident,
        "&'a mut "@,
        "&mut *(abi as *mut _)"@,
    ) + drop_fn_text(ident)
}

fn write_borrowed_abi(ident: &str, borrow: &str, reborrow: &str) -> (r: String)
    ensures
        r@ == borrowed_abi_text(ident@, borrow@, reborrow@),
{
    let mut r = String::from_str("impl<'a> cs_bindgen::abi::Abi for ");
    r.append(borrow);
    r.append(ident);
    r.append(" {\n    type Abi = *const ");
    r.append(ident);
    r.append(";\n\n    fn as_abi(&self) -> Self::Abi {\n        ");
    r.append(ident);
    r.append("::as_abi(self)\n    }\n\n    fn into_abi(self) -> Self::Abi {\n        ");
    r.append(ident);
    r.append(
        "::as_abi(self)\n    }\n\n    unsafe fn from_abi(abi: Self::Abi) -> Self {\n        ",
    );
    r.append(reborrow);
    r.append("\n    }\n}\n\n");
    r
}

/// Writes the items that make the type named `ident` cross the boundary as
/// a handle.
pub fn quote_type_as_handle(ident: &str) -> (r: String)
    ensures
        r@ == handle_items_text(ident@),
{
    let mut r = String::from_str("impl cs_bindgen::abi::Abi for ");
    r.append(ident);
    r.append(
        " {\n    type Abi = *const Self;\n\n    fn as_abi(&self) -> Self::Abi {\n        self\n    }\n\n    fn into_abi(self) -> Self::Abi {\n        std::boxed::Box::into_raw(std::boxed::Box::new(self))\n    }\n\n    unsafe fn from_abi(abi: Self::Abi) -> Self {\n        *std::boxed::Box::from_raw(abi as *mut _)\n    }\n}\n\n",
    );
    let shared = write_borrowed_abi(ident, "&'a ", "&*abi");
    r.append(shared.as_str());
    let unique = write_borrowed_abi(ident, "&'a mut ", "&mut *(abi as *mut _)");
    r.append(unique.as_str());
    let mut drop_fn = String::from_str("#[no_mangle]\npub unsafe extern \"C\" fn ");
    let drop_ident = drop_fn_ident(ident);
    drop_fn.append(drop_ident.as_str());
    drop_fn.append("(_: <");
    drop_fn.append(ident);
    drop_fn.append(" as cs_bindgen::abi::Abi>::Abi) {}\n");
    r.append(drop_fn.as_str());
    r
}

} // verus!
