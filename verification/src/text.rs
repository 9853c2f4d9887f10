//! The generated declarations as C# source text.
//!
//! Every declaration has a `text` method, and its view a `text` function
//! that says which text that is. Names are written as they are given:
//! nothing is escaped or checked to be an identifier. Blocks are indented
//! by four spaces; the statements inside the pinning scopes of a wrapper
//! are not indented further.

use vstd::prelude::*;
use crate::basic::{
    BasicClass, BasicClassView, BasicWrapper, BasicWrapperView, ResultConversion,
};
use crate::binding::{
    BindingsClass, BindingsClassView, ForeignFn, ForeignFnView, RawBinding, RawBindingView,
    SequenceBindings, SequenceBindingsView,
};
use crate::decl::{
    typed_idents_view, OverlayMember, OverlayMemberView, OverlayUnion, OverlayUnionView, RawRecord,
    RawRecordView, TypedIdent, TypedIdentView, ValueType, ValueTypeView,
};
use crate::enumeration::{
    ComplexEnum, ComplexEnumView, EnumBinding,
    EnumBindingView, EnumMember, EnumMemberView, SimpleEnum, SimpleEnumView, VariantBinding,
    VariantBindingView,
};
use crate::generate::{Fragments, FragmentsView, TypeDecl, TypeDeclView};
use crate::func::{
    invoke_args_view, InvokeArg, InvokeArgView, Invocation, InvocationView,
    PinKind, PinScope, PinScopeView, WrapperBody, WrapperBodyView, WrapperFn, WrapperFnView,
};
use crate::naming::{decimal, decimal_text};
use crate::types::{CsType, CsTypeView};
use crate::strukt::{StructBinding, StructBindingView};

verus! {

impl TypedIdentView {
    /// The type, a space and the name.
    pub open spec fn text(self) -> Seq<char> {
        self.ty.text() + " "@ + self.ident
    }
}

/// The parameters of a signature, separated by a comma and a space.
pub open spec fn params_text(params: Seq<TypedIdentView>) -> Seq<char>
    decreases params.len(),
{
    if params.len() == 0 {
        Seq::empty()
    } else if params.len() == 1 {
        params[0].text()
    } else {
        params_text(params.drop_last()) + ", "@ + params.last().text()
    }
}

/// The fields of a record, one to a line, each after `access`.
pub open spec fn fields_text(fields: Seq<TypedIdentView>, access: Seq<char>) -> Seq<char>
    decreases fields.len(),
{
    if fields.len() == 0 {
        Seq::empty()
    } else {
        fields_text(fields.drop_last(), access) + "    "@ + access + " "@ + fields.last().text()
            + ";\n"@
    }
}

impl ForeignFnView {
    /// The attribute that names the library and the entry point, and below
    /// it the declaration of the function.
    pub open spec fn text(self) -> Seq<char> {
        "[DllImport(\""@ + self.dll + "\", EntryPoint = \""@ + self.entry_point
            + "\", CallingConvention = CallingConvention.Cdecl)]\ninternal static extern "@
            + self.return_ty.text() + " "@ + self.entry_point + "("@ + params_text(self.params)
            + ");\n"@
    }
}

impl RawRecordView {
    /// The declaration as source text.
    pub open spec fn text(self) -> Seq<char> {
        "[StructLayout(LayoutKind.Sequential)]\ninternal struct "@ + self.name + "\n{\n"@
            + fields_text(self.fields, "internal"@) + "}\n"@
    }
}

impl ValueTypeView {
    /// What follows the name of the type in its declaration: the marker it
    /// implements, if any.
    pub open spec fn base_text(self) -> Seq<char> {
        match self.marker {
            Some(marker) => " : "@ + marker,
            None => Seq::empty(),
        }
    }

    /// The declaration as source text.
    pub open spec fn text(self) -> Seq<char> {
        "public struct "@ + self.name + self.base_text() + "\n{\n"@ + fields_text(
            self.fields,
            "public"@,
        ) + "}\n"@
    }
}

impl OverlayMemberView {
    /// The declaration as source text.
    pub open spec fn text(self) -> Seq<char> {
        "    [FieldOffset("@ + decimal(self.offset as nat) + ")]\n    internal "@ + self.record
            + " "@ + self.ident + ";\n"@
    }
}

/// The members of a union, one after the other.
pub open spec fn members_text(members: Seq<OverlayMemberView>) -> Seq<char>
    decreases members.len(),
{
    if members.len() == 0 {
        Seq::empty()
    } else {
        members_text(members.drop_last()) + members.last().text()
    }
}

impl OverlayUnionView {
    /// The declaration as source text.
    pub open spec fn text(self) -> Seq<char> {
        "[StructLayout(LayoutKind.Explicit)]\ninternal struct "@ + self.name + "\n{\n"@
            + members_text(self.members) + "}\n"@
    }
}

impl TypedIdent {
    /// Writes the declaration as source text.
    pub fn text(&self) -> (r: String)
        ensures
            r@ == self@.text(),
    {
        let mut r = self.ty.text();
        r.append(" ");
        r.append(self.ident.as_str());
        r
    }
}

/// Writes the parameters of a signature.
pub fn write_params(params: &Vec<TypedIdent>) -> (r: String)
    ensures
        r@ == params_text(typed_idents_view(params@)),
{
    let ghost all = typed_idents_view(params@);
    let mut r = String::new();
    let mut i: usize = 0;
    assert(all.take(0) =~= Seq::<TypedIdentView>::empty());
    while i < params.len()
        invariant
            i <= params.len(),
            all == typed_idents_view(params@),
            r@ == params_text(all.take(i as int)),
        decreases params.len() - i,
    {
        proof {
            assert(all.take(i + 1).drop_last() =~= all.take(i as int));
            assert(all.take(i + 1).last() == params@[i as int]@);
            assert(all.take(i + 1)[0] == all[0]);
        }
        if i > 0 {
            r.append(", ");
        }
        let text = params[i].text();
        r.append(text.as_str());
        proof {
            if i == 0 {
                assert(r@ =~= params@[0]@.text());
            }
        }
        i += 1;
    }
    assert(all.take(i as int) =~= all);
    r
}

/// Writes the fields of a record.
pub fn write_fields(fields: &Vec<TypedIdent>, access: &str) -> (r: String)
    ensures
        r@ == fields_text(typed_idents_view(fields@), access@),
{
    let ghost all = typed_idents_view(fields@);
    let mut r = String::new();
    let mut i: usize = 0;
    assert(all.take(0) =~= Seq::<TypedIdentView>::empty());
    while i < fields.len()
        invariant
            i <= fields.len(),
            all == typed_idents_view(fields@),
            r@ == fields_text(all.take(i as int), access@),
        decreases fields.len() - i,
    {
        proof {
            assert(all.take(i + 1).drop_last() =~= all.take(i as int));
            assert(all.take(i + 1).last() == fields@[i as int]@);
        }
        r.append("    ");
        r.append(access);
        r.append(" ");
        let text = fields[i].text();
        r.append(text.as_str());
        r.append(";\n");
        i += 1;
    }
    assert(all.take(i as int) =~= all);
    r
}

impl ForeignFn {
    /// Writes the declaration as source text.
    pub fn text(&self) -> (r: String)
        ensures
            r@ == self@.text(),
    {
        let mut r = String::from_str("[DllImport(\"");
        r.append(self.dll.as_str());
        r.append("\", EntryPoint = \"");
        r.append(self.entry_point.as_str());
        r.append("\", CallingConvention = CallingConvention.Cdecl)]\ninternal static extern ");
        let return_ty = self.return_ty.text();
        r.append(return_ty.as_str());
        r.append(" ");
        r.append(self.entry_point.as_str());
        r.append("(");
        let params = write_params(&self.params);
        r.append(params.as_str());
        r.append(");\n");
        r
    }
}

impl RawRecord {
    /// Writes the declaration as source text.
    pub fn text(&self) -> (r: String)
        ensures
            r@ == self@.text(),
    {
        let mut r = String::from_str("[StructLayout(LayoutKind.Sequential)]\ninternal struct ");
        r.append(self.name.as_str());
        r.append("\n{\n");
        let fields = write_fields(&self.fields, "internal");
        r.append(fields.as_str());
        r.append("}\n");
        r
    }
}

impl ValueType {
    /// Writes the declaration as source text.
    pub fn text(&self) -> (r: String)
        ensures
            r@ == self@.text(),
    {
        let mut r = String::from_str("public struct ");
        r.append(self.name.as_str());
        match &self.marker {
            Some(marker) => {
                let ghost before = r@;
                r.append(" : ");
                r.append(marker.as_str());
                assert(r@ =~= before + (" : "@ + marker@));
            },
            None => {
                assert(r@ =~= r@ + Seq::<char>::empty());
            },
        }
        r.append("\n{\n");
        let fields = write_fields(&self.fields, "public");
        r.append(fields.as_str());
        r.append("}\n");
        r
    }
}

impl OverlayMember {
    /// Writes the declaration as source text.
    pub fn text(&self) -> (r: String)
        ensures
            r@ == self@.text(),
    {
        let mut r = String::from_str("    [FieldOffset(");
        let offset = decimal_text(self.offset);
        r.append(offset.as_str());
        r.append(")]\n    internal ");
        r.append(self.record.as_str());
        r.append(" ");
        r.append(self.ident.as_str());
        r.append(";\n");
        r
    }
}

impl OverlayUnion {
    /// Writes the declaration as source text.
    pub fn text(&self) -> (r: String)
        ensures
            r@ == self@.text(),
    {
        let mut r = String::from_str("[StructLayout(LayoutKind.Explicit)]\ninternal struct ");
        r.append(self.name.as_str());
        r.append("\n{\n");
        let ghost head = r@;
        let ghost all = self@.members;
        let mut i: usize = 0;
        assert(all.take(0) =~= Seq::<OverlayMemberView>::empty());
        assert(r@ =~= head + members_text(all.take(0)));
        while i < self.members.len()
            invariant
                i <= self.members.len(),
                all == self@.members,
                r@ == head + members_text(all.take(i as int)),
            decreases self.members.len() - i,
        {
            proof {
                assert(all.take(i + 1).drop_last() =~= all.take(i as int));
                assert(all.take(i + 1).last() == self.members@[i as int]@);
            }
            let member = self.members[i].text();
            r.append(member.as_str());
            assert(r@ =~= head + members_text(all.take(i + 1)));
            i += 1;
        }
        assert(all.take(i as int) =~= all);
        r.append("}\n");
        r
    }
}

impl EnumMemberView {
    /// What follows the name of the member: the value it is declared
    /// with, if any.
    pub open spec fn value_text(self) -> Seq<char> {
        match self.literal {
            Some(literal) => " = "@ + literal,
            None => Seq::empty(),
        }
    }

    /// The declaration as source text.
    pub open spec fn text(self) -> Seq<char> {
        "    "@ + self.name + self.value_text() + ",\n"@
    }
}

/// The members of an enum, one to a line.
pub open spec fn enum_members_text(members: Seq<EnumMemberView>) -> Seq<char>
    decreases members.len(),
{
    if members.len() == 0 {
        Seq::empty()
    } else {
        enum_members_text(members.drop_last()) + members.last().text()
    }
}

impl SimpleEnumView {
    /// The declaration as source text.
    pub open spec fn text(self) -> Seq<char> {
        "public enum "@ + self.name + "\n{\n"@ + enum_members_text(self.members) + "}\n"@
    }
}

impl VariantBindingView {
    /// The value type of the variant and its two raw records.
    pub open spec fn text(self) -> Seq<char> {
        self.idiomatic.text() + self.arg_record.text() + self.return_record.text()
    }
}

/// The declarations of the variants of an enum, one after the other.
pub open spec fn variants_text(variants: Seq<VariantBindingView>) -> Seq<char>
    decreases variants.len(),
{
    if variants.len() == 0 {
        Seq::empty()
    } else {
        variants_text(variants.drop_last()) + variants.last().text()
    }
}

impl ComplexEnumView {
    /// The marker interface, the declarations of the variants, and the two
    /// unions.
    pub open spec fn text(self) -> Seq<char> {
        "public interface "@ + self.marker + " { }\n"@ + variants_text(self.variants)
            + self.arg_union.text() + self.return_union.text()
    }
}

impl EnumBindingView {
    /// The declaration as source text.
    pub open spec fn text(self) -> Seq<char> {
        match self {
            EnumBindingView::Simple(simple) => simple.text(),
            EnumBindingView::Complex(complex) => complex.text(),
        }
    }
}

impl StructBindingView {
    /// The idiomatic type and the raw record.
    pub open spec fn text(self) -> Seq<char> {
        self.idiomatic.text() + self.raw.text()
    }
}

impl EnumMember {
    /// Writes the declaration as source text.
    pub fn text(&self) -> (r: String)
        ensures
            r@ == self@.text(),
    {
        let mut r = String::from_str("    ");
        r.append(self.name.as_str());
        match &self.literal {
            Some(literal) => {
                let ghost before = r@;
                r.append(" = ");
                r.append(literal.as_str());
                assert(r@ =~= before + (" = "@ + literal@));
            },
            None => {
                assert(r@ =~= r@ + Seq::<char>::empty());
            },
        }
        r.append(",\n");
        r
    }
}

impl SimpleEnum {
    /// Writes the declaration as source text.
    pub fn text(&self) -> (r: String)
        ensures
            r@ == self@.text(),
    {
        let mut r = String::from_str("public enum ");
        r.append(self.name.as_str());
        r.append("\n{\n");
        let ghost head = r@;
        let ghost all = self@.members;
        let mut i: usize = 0;
        assert(all.take(0) =~= Seq::<EnumMemberView>::empty());
        assert(r@ =~= head + enum_members_text(all.take(0)));
        while i < self.members.len()
            invariant
                i <= self.members.len(),
                all == self@.members,
                r@ == head + enum_members_text(all.take(i as int)),
            decreases self.members.len() - i,
        {
            proof {
                assert(all.take(i + 1).drop_last() =~= all.take(i as int));
                assert(all.take(i + 1).last() == self.members@[i as int]@);
            }
            let member = self.members[i].text();
            r.append(member.as_str());
            assert(r@ =~= head + enum_members_text(all.take(i + 1)));
            i += 1;
        }
        assert(all.take(i as int) =~= all);
        r.append("}\n");
        r
    }
}

impl VariantBinding {
    /// Writes the declaration as source text.
    pub fn text(&self) -> (r: String)
        ensures
            r@ == self@.text(),
    {
        let mut r = self.idiomatic.text();
        let arg_record = self.arg_record.text();
        r.append(arg_record.as_str());
        let return_record = self.return_record.text();
        r.append(return_record.as_str());
        r
    }
}

impl ComplexEnum {
    /// Writes the declaration as source text.
    pub fn text(&self) -> (r: String)
        ensures
            r@ == self@.text(),
    {
        let mut r = String::from_str("public interface ");
        r.append(self.marker.as_str());
        r.append(" { }\n");
        let ghost head = r@;
        let ghost all = self@.variants;
        let mut i: usize = 0;
        assert(all.take(0) =~= Seq::<VariantBindingView>::empty());
        assert(r@ =~= head + variants_text(all.take(0)));
        while i < self.variants.len()
            invariant
                i <= self.variants.len(),
                all == self@.variants,
                r@ == head + variants_text(all.take(i as int)),
            decreases self.variants.len() - i,
        {
            proof {
                assert(all.take(i + 1).drop_last() =~= all.take(i as int));
                assert(all.take(i + 1).last() == self.variants@[i as int]@);
            }
            let variant = self.variants[i].text();
            r.append(variant.as_str());
            assert(r@ =~= head + variants_text(all.take(i + 1)));
            i += 1;
        }
        assert(all.take(i as int) =~= all);
        let arg_union = self.arg_union.text();
        r.append(arg_union.as_str());
        let return_union = self.return_union.text();
        r.append(return_union.as_str());
        r
    }
}

impl EnumBinding {
    /// Writes the declaration as source text.
    pub fn text(&self) -> (r: String)
        ensures
            r@ == self@.text(),
    {
        match self {
            EnumBinding::Simple(simple) => simple.text(),
            EnumBinding::Complex(complex) => complex.text(),
        }
    }
}

impl StructBinding {
    /// Writes the declaration as source text.
    pub fn text(&self) -> (r: String)
        ensures
            r@ == self@.text(),
    {
        let mut r = self.idiomatic.text();
        let raw = self.raw.text();
        r.append(raw.as_str());
        r
    }
}

impl SequenceBindingsView {
    /// The conversion of a raw sequence into a list: every element is read
    /// and converted, and the raw sequence is released.
    pub open spec fn list_from_raw_text(self) -> Seq<char> {
        "internal static void __FromRaw(RawVec raw, out List<"@ + self.element.text()
            + "> result)\n{\n    result = raw.ToList<"@ + self.raw_element.text() + ", "@
            + self.element.text() + ">("@ + self.index_fn.entry_point
            + ", __FromRaw);\n    "@ + self.drop_vec_fn.entry_point + "(raw);\n}\n"@
    }

    /// The conversion of a list into a raw sequence: every element is
    /// converted, and the native side builds the sequence from them.
    pub open spec fn list_into_raw_text(self) -> Seq<char> {
        "internal static void __IntoRaw(List<"@ + self.element.text()
            + "> items, out RawVec result)\n{\n    result = RawVec.FromList(items, item => { __IntoRaw(item, out "@
            + self.raw_element.text() + " raw); return raw; }, "@
            + self.convert_list_fn.entry_point + ");\n}\n"@
    }

    /// The three helpers and the two list conversions built on them.
    pub open spec fn text(self) -> Seq<char> {
        self.index_fn.text() + self.convert_list_fn.text() + self.drop_vec_fn.text()
            + self.list_from_raw_text() + self.list_into_raw_text()
    }
}

impl RawBindingView {
    /// The declaration as source text.
    pub open spec fn text(self) -> Seq<char> {
        match self {
            RawBindingView::Function(function) => function.text(),
            RawBindingView::Destructor(function) => function.text(),
            RawBindingView::Sequences(sequences) => sequences.text(),
        }
    }
}

/// The raw bindings of a class, one after the other.
pub open spec fn bindings_text(members: Seq<RawBindingView>) -> Seq<char>
    decreases members.len(),
{
    if members.len() == 0 {
        Seq::empty()
    } else {
        bindings_text(members.drop_last()) + members.last().text()
    }
}

impl BindingsClassView {
    /// The declaration as source text.
    pub open spec fn text(self) -> Seq<char> {
        "internal unsafe static partial class "@ + self.name + "\n{\n"@ + bindings_text(
            self.members,
        ) + "}\n"@
    }
}

impl InvokeArgView {
    /// The receiver as it is, any other argument inside the conversion
    /// into its raw form.
    pub open spec fn text(self) -> Seq<char> {
        match self {
            InvokeArgView::Receiver(expr) => expr,
            InvokeArgView::IntoRaw(ident) => "__bindings.__IntoRaw("@ + ident + ")"@,
        }
    }
}

/// The arguments of a call, separated by a comma and a space.
pub open spec fn invoke_args_text(args: Seq<InvokeArgView>) -> Seq<char>
    decreases args.len(),
{
    if args.len() == 0 {
        Seq::empty()
    } else if args.len() == 1 {
        args[0].text()
    } else {
        invoke_args_text(args.drop_last()) + ", "@ + args.last().text()
    }
}

impl InvocationView {
    /// The call of the raw binding.
    pub open spec fn call_text(self) -> Seq<char> {
        "__bindings."@ + self.binding + "("@ + invoke_args_text(self.args) + ")"@
    }

    /// The statement that makes the call: where there is a result, it is
    /// converted from its raw form and assigned.
    pub open spec fn text(self) -> Seq<char> {
        match self.result {
            Some(result) => result + " = __bindings.__FromRaw("@ + self.call_text() + ");\n"@,
            None => self.call_text() + ";\n"@,
        }
    }
}

/// The type that a pinned pointer points to.
pub open spec fn pointee_text(kind: PinKind) -> Seq<char> {
    match kind {
        PinKind::Text => "char"@,
        PinKind::Elements => "void"@,
    }
}

impl PinScopeView {
    /// The head of the scope and its opening brace.
    pub open spec fn open_text(self) -> Seq<char> {
        "fixed ("@ + pointee_text(self.kind) + "* "@ + self.pointer + " = "@ + self.source
            + ")\n{\n"@
    }
}

/// The heads of the scopes, from the outermost to the innermost.
pub open spec fn scopes_open_text(scopes: Seq<PinScopeView>) -> Seq<char>
    decreases scopes.len(),
{
    if scopes.len() == 0 {
        Seq::empty()
    } else {
        scopes_open_text(scopes.drop_last()) + scopes.last().open_text()
    }
}

/// As many closing braces as there are scopes.
pub open spec fn scopes_close_text(count: nat) -> Seq<char>
    decreases count,
{
    if count == 0 {
        Seq::empty()
    } else {
        scopes_close_text((count - 1) as nat) + "}\n"@
    }
}

impl WrapperBodyView {
    /// The scopes are opened in order, the call is made inside the last,
    /// and all are closed.
    pub open spec fn text(self) -> Seq<char> {
        scopes_open_text(self.scopes) + self.invocation.text() + scopes_close_text(
            self.scopes.len(),
        )
    }
}

impl WrapperFnView {
    /// The modifiers of the function.
    pub open spec fn modifiers_text(self) -> Seq<char> {
        if self.is_static {
            "public static "@
        } else {
            "public "@
        }
    }

    /// The declaration of the variable that holds the result, if there is
    /// one.
    pub open spec fn result_decl_text(self) -> Seq<char> {
        match self.body.invocation.result {
            Some(result) => "    "@ + self.return_ty.text() + " "@ + result + ";\n"@,
            None => Seq::empty(),
        }
    }

    /// The statement that returns the result, if there is one.
    pub open spec fn return_text(self) -> Seq<char> {
        match self.body.invocation.result {
            Some(result) => "    return "@ + result + ";\n"@,
            None => Seq::empty(),
        }
    }

    /// The result is declared first, the body runs in an `unsafe` block, and
    /// the result is returned after the block, when every pinning scope has
    /// closed.
    pub open spec fn text(self) -> Seq<char> {
        self.modifiers_text() + self.return_ty.text() + " "@ + self.name + "("@ + params_text(
            self.params,
        ) + ")\n{\n"@ + self.result_decl_text() + "    unsafe\n    {\n"@ + self.body.text()
            + "    }\n"@ + self.return_text() + "}\n"@
    }
}

impl SequenceBindings {
    /// Writes the declaration as source text.
    pub fn text(&self) -> (r: String)
        ensures
            r@ == self@.text(),
    {
        let element = self.element.text();
        let raw_element = self.raw_element.text();
        let mut r = self.index_fn.text();
        let convert_list_fn = self.convert_list_fn.text();
        r.append(convert_list_fn.as_str());
        let drop_vec_fn = self.drop_vec_fn.text();
        r.append(drop_vec_fn.as_str());

        let mut from_raw = String::from_str("internal static void __FromRaw(RawVec raw, out List<");
        from_raw.append(element.as_str());
        from_raw.append("> result)\n{\n    result = raw.ToList<");
        from_raw.append(raw_element.as_str());
        from_raw.append(", ");
        from_raw.append(element.as_str());
        from_raw.append(">(");
        from_raw.append(self.index_fn.entry_point.as_str());
        from_raw.append(", __FromRaw);\n    ");
        from_raw.append(self.drop_vec_fn.entry_point.as_str());
        from_raw.append("(raw);\n}\n");
        r.append(from_raw.as_str());

        let mut into_raw = String::from_str("internal static void __IntoRaw(List<");
        into_raw.append(element.as_str());
        into_raw.append(
            "> items, out RawVec result)\n{\n    result = RawVec.FromList(items, item => { __IntoRaw(item, out ",
        );
        into_raw.append(raw_element.as_str());
        into_raw.append(" raw); return raw; }, ");
        into_raw.append(self.convert_list_fn.entry_point.as_str());
        into_raw.append(");\n}\n");
        r.append(into_raw.as_str());
        r
    }
}

impl RawBinding {
    /// Writes the declaration as source text.
    pub fn text(&self) -> (r: String)
        ensures
            r@ == self@.text(),
    {
        match self {
            RawBinding::Function(function) => function.text(),
            RawBinding::Destructor(function) => function.text(),
            RawBinding::Sequences(sequences) => sequences.text(),
        }
    }
}

impl BindingsClass {
    /// Writes the declaration as source text.
    pub fn text(&self) -> (r: String)
        ensures
            r@ == self@.text(),
    {
        let mut r = String::from_str("internal unsafe static partial class ");
        r.append(self.name.as_str());
        r.append("\n{\n");
        let ghost head = r@;
        let ghost all = self@.members;
        let mut i: usize = 0;
        assert(all.take(0) =~= Seq::<RawBindingView>::empty());
        assert(r@ =~= head + bindings_text(all.take(0)));
        while i < self.members.len()
            invariant
                i <= self.members.len(),
                all == self@.members,
                r@ == head + bindings_text(all.take(i as int)),
            decreases self.members.len() - i,
        {
            proof {
                assert(all.take(i + 1).drop_last() =~= all.take(i as int));
                assert(all.take(i + 1).last() == self.members@[i as int]@);
            }
            let member = self.members[i].text();
            r.append(member.as_str());
            assert(r@ =~= head + bindings_text(all.take(i + 1)));
            i += 1;
        }
        assert(all.take(i as int) =~= all);
        r.append("}\n");
        r
    }
}

impl InvokeArg {
    /// Writes the declaration as source text.
    pub fn text(&self) -> (r: String)
        ensures
            r@ == self@.text(),
    {
        match self {
            InvokeArg::Receiver(expr) => expr.clone(),
            InvokeArg::IntoRaw(ident) => {
                let mut r = String::from_str("__bindings.__IntoRaw(");
                r.append(ident.as_str());
                r.append(")");
                r
            },
        }
    }
}

/// Writes the arguments of a call.
pub fn write_invoke_args(args: &Vec<InvokeArg>) -> (r: String)
    ensures
        r@ == invoke_args_text(invoke_args_view(args@)),
{
    let ghost all = invoke_args_view(args@);
    let mut r = String::new();
    let mut i: usize = 0;
    assert(all.take(0) =~= Seq::<InvokeArgView>::empty());
    while i < args.len()
        invariant
            i <= args.len(),
            all == invoke_args_view(args@),
            r@ == invoke_args_text(all.take(i as int)),
        decreases args.len() - i,
    {
        proof {
            assert(all.take(i + 1).drop_last() =~= all.take(i as int));
            assert(all.take(i + 1).last() == args@[i as int]@);
            assert(all.take(i + 1)[0] == all[0]);
        }
        if i > 0 {
            r.append(", ");
        }
        let text = args[i].text();
        r.append(text.as_str());
        proof {
            if i == 0 {
                assert(r@ =~= args@[0]@.text());
            }
        }
        i += 1;
    }
    assert(all.take(i as int) =~= all);
    r
}

impl Invocation {
    /// Writes the declaration as source text.
    pub fn text(&self) -> (r: String)
        ensures
            r@ == self@.text(),
    {
        let mut call = String::from_str("__bindings.");
        call.append(self.binding.as_str());
        call.append("(");
        let args = write_invoke_args(&self.args);
        call.append(args.as_str());
        call.append(")");
        match &self.result {
            Some(result) => {
                let mut r = result.clone();
                r.append(" = __bindings.__FromRaw(");
                r.append(call.as_str());
                r.append(");\n");
                r
            },
            None => {
                call.append(";\n");
                call
            },
        }
    }
}

impl PinScope {
    /// Writes the head of the scope and its opening brace.
    pub fn open_text(&self) -> (r: String)
        ensures
            r@ == self@.open_text(),
    {
        let mut r = String::from_str("fixed (");
        match self.kind {
            PinKind::Text => {
                r.append("char");
            },
            PinKind::Elements => {
                r.append("void");
            },
        }
        r.append("* ");
        r.append(self.pointer.as_str());
        r.append(" = ");
        r.append(self.source.as_str());
        r.append(")\n{\n");
        r
    }
}

impl WrapperBody {
    /// Writes the declaration as source text.
    pub fn text(&self) -> (r: String)
        ensures
            r@ == self@.text(),
    {
        let ghost all = self@.scopes;
        let mut r = String::new();
        let mut i: usize = 0;
        assert(all.take(0) =~= Seq::<PinScopeView>::empty());
        while i < self.scopes.len()
            invariant
                i <= self.scopes.len(),
                all == self@.scopes,
                r@ == scopes_open_text(all.take(i as int)),
            decreases self.scopes.len() - i,
        {
            proof {
                assert(all.take(i + 1).drop_last() =~= all.take(i as int));
                assert(all.take(i + 1).last() == self.scopes@[i as int]@);
            }
            let head = self.scopes[i].open_text();
            r.append(head.as_str());
            i += 1;
        }
        assert(all.take(i as int) =~= all);
        let invocation = self.invocation.text();
        r.append(invocation.as_str());
        let ghost inner = r@;
        let mut closed: usize = 0;
        assert(r@ =~= inner + scopes_close_text(0));
        while closed < self.scopes.len()
            invariant
                closed <= self.scopes.len(),
                r@ == inner + scopes_close_text(closed as nat),
            decreases self.scopes.len() - closed,
        {
            r.append("}\n");
            closed += 1;
            assert(r@ =~= inner + scopes_close_text(closed as nat));
        }
        r
    }
}

impl WrapperFn {
    /// Writes the declaration as source text.
    pub fn text(&self) -> (r: String)
        ensures
            r@ == self@.text(),
    {
        let return_ty = self.return_ty.text();
        let mut r = if self.is_static {
            String::from_str("public static ")
        } else {
            String::from_str("public ")
        };
        r.append(return_ty.as_str());
        r.append(" ");
        r.append(self.name.as_str());
        r.append("(");
        let params = write_params(&self.params);
        r.append(params.as_str());
        r.append(")\n{\n");
        match &self.body.invocation.result {
            Some(result) => {
                let ghost before = r@;
                r.append("    ");
                r.append(return_ty.as_str());
                r.append(" ");
                r.append(result.as_str());
                r.append(";\n");
                assert(r@ =~= before + self@.result_decl_text());
            },
            None => {
                assert(r@ =~= r@ + self@.result_decl_text());
            },
        }
        r.append("    unsafe\n    {\n");
        let body = self.body.text();
        r.append(body.as_str());
        r.append("    }\n");
        match &self.body.invocation.result {
            Some(result) => {
                let ghost before = r@;
                r.append("    return ");
                r.append(result.as_str());
                r.append(";\n");
                assert(r@ =~= before + self@.return_text());
            },
            None => {
                assert(r@ =~= r@ + self@.return_text());
            },
        }
        r.append("}\n");
        r
    }
}

/// A return type as it is written: `void` where there is none.
pub open spec fn return_type_text(ty: Option<CsTypeView>) -> Seq<char> {
    match ty {
        Some(ty) => ty.text(),
        None => "void"@,
    }
}

impl BasicWrapperView {
    /// The statements of the wrapper: the call, and what is done with the
    /// value it returns.
    pub open spec fn statements_text(self) -> Seq<char> {
        match self.conversion {
            ResultConversion::Nothing => "        "@ + self.raw_binding + "();\n"@,
            ResultConversion::Text => "        var rawResult = "@ + self.raw_binding
                + "(out var length);\n        string result;\n        unsafe\n        {\n            result = Encoding.UTF8.GetString((byte*)rawResult, length);\n        }\n        DropString(rawResult);\n        return result;\n"@,
            ResultConversion::Flag => "        var rawResult = "@ + self.raw_binding
                + "();\n        return rawResult != 0;\n"@,
            ResultConversion::Plain => "        var rawResult = "@ + self.raw_binding
                + "();\n        return rawResult;\n"@,
        }
    }

    /// The declaration as source text.
    pub open spec fn text(self) -> Seq<char> {
        "    public static "@ + return_type_text(self.return_ty) + " "@ + self.name
            + "()\n    {\n"@ + self.statements_text() + "    }\n"@
    }
}

impl BasicClassView {
    /// The parameter through which the raw binding hands out the length of
    /// a text.
    pub open spec fn length_param_text(self) -> Seq<char> {
        if self.returns_length {
            "out int length"@
        } else {
            Seq::empty()
        }
    }

    /// The namespaces that the declarations use, and the class with the raw
    /// binding of the function, the raw binding that releases a text, and
    /// the wrapper.
    pub open spec fn text(self) -> Seq<char> {
        "using System;\nusing System.Runtime.InteropServices;\nusing System.Text;\n\npublic class "@
            + self.name + "\n{\n    [DllImport(\""@ + self.dll + "\", EntryPoint = \""@
            + self.entry_point
            + "\", CallingConvention = CallingConvention.Cdecl)]\n    private static extern "@
            + return_type_text(self.binding_return_ty) + " "@ + self.raw_binding + "("@
            + self.length_param_text() + ");\n\n    [DllImport(\""@ + self.dll
            + "\", EntryPoint = \"__cs_bindgen_drop_string\", CallingConvention = CallingConvention.Cdecl)]\n    private static extern void DropString(IntPtr raw);\n\n"@
            + self.wrapper.text() + "}\n"@
    }
}

/// Writes a return type.
pub fn write_return_type(ty: &Option<CsType>) -> (r: String)
    ensures
        r@ == return_type_text(crate::basic::type_view(*ty)),
{
    match ty {
        Some(ty) => ty.text(),
        None => String::from_str("void"),
    }
}

impl BasicWrapper {
    /// Writes the declaration as source text.
    pub fn text(&self) -> (r: String)
        ensures
            r@ == self@.text(),
    {
        let mut r = String::from_str("    public static ");
        let return_ty = write_return_type(&self.return_ty);
        r.append(return_ty.as_str());
        r.append(" ");
        r.append(self.name.as_str());
        r.append("()\n    {\n");
        let ghost before = r@;
        match self.conversion {
            ResultConversion::Nothing => {
                r.append("        ");
                r.append(self.raw_binding.as_str());
                r.append("();\n");
            },
            ResultConversion::Text => {
                r.append("        var rawResult = ");
                r.append(self.raw_binding.as_str());
                r.append(
                    "(out var length);\n        string result;\n        unsafe\n        {\n            result = Encoding.UTF8.GetString((byte*)rawResult, length);\n        }\n        DropString(rawResult);\n        return result;\n",
                );
            },
            ResultConversion::Flag => {
                r.append("        var rawResult = ");
                r.append(self.raw_binding.as_str());
                r.append("();\n        return rawResult != 0;\n");
            },
            ResultConversion::Plain => {
                r.append("        var rawResult = ");
                r.append(self.raw_binding.as_str());
                r.append("();\n        return rawResult;\n");
            },
        }
        assert(r@ =~= before + self@.statements_text());
        r.append("    }\n");
        r
    }
}

impl BasicClass {
    /// Writes the declaration as source text.
    pub fn text(&self) -> (r: String)
        ensures
            r@ == self@.text(),
    {
        let mut r = String::from_str(
            "using System;\nusing System.Runtime.InteropServices;\nusing System.Text;\n\npublic class ",
        );
        r.append(self.name.as_str());
        r.append("\n{\n    [DllImport(\"");
        r.append(self.dll.as_str());
        r.append("\", EntryPoint = \"");
        r.append(self.entry_point.as_str());
        r.append("\", CallingConvention = CallingConvention.Cdecl)]\n    private static extern ");
        let return_ty = write_return_type(&self.binding_return_ty);
        r.append(return_ty.as_str());
        r.append(" ");
        r.append(self.raw_binding.as_str());
        r.append("(");
        if self.returns_length {
            r.append("out int length");
        } else {
            assert(r@ =~= r@ + Seq::<char>::empty());
        }
        r.append(");\n\n    [DllImport(\"");
        r.append(self.dll.as_str());
        r.append(
            "\", EntryPoint = \"__cs_bindgen_drop_string\", CallingConvention = CallingConvention.Cdecl)]\n    private static extern void DropString(IntPtr raw);\n\n",
        );
        let wrapper = self.wrapper.text();
        r.append(wrapper.as_str());
        r.append("}\n");
        r
    }
}

impl TypeDeclView {
    /// The declaration as source text.
    pub open spec fn text(self) -> Seq<char> {
        match self {
            TypeDeclView::Struct(binding) => binding.text(),
            TypeDeclView::Enum(binding) => binding.text(),
        }
    }
}

impl FragmentsView {
    /// The declarations of the type, if there are any.
    pub open spec fn declaration_text(self) -> Seq<char> {
        match self.declaration {
            Some(declaration) => declaration.text(),
            None => Seq::empty(),
        }
    }

    /// The wrapper, if there is one.
    pub open spec fn wrapper_text(self) -> Seq<char> {
        match self.wrapper {
            Some(wrapper) => wrapper.text(),
            None => Seq::empty(),
        }
    }

    /// The raw binding, inside the class of the raw bindings.
    pub open spec fn binding_text(self) -> Seq<char> {
        "internal unsafe static partial class "@ + crate::naming::bindings_class() + "\n{\n"@
            + self.binding.text() + "}\n"@
    }

    /// The declarations of the type, the raw binding, and the wrapper.
    pub open spec fn text(self) -> Seq<char> {
        self.declaration_text() + self.binding_text() + self.wrapper_text()
    }
}

impl TypeDecl {
    /// Writes the declaration as source text.
    pub fn text(&self) -> (r: String)
        ensures
            r@ == self@.text(),
    {
        match self {
            TypeDecl::Struct(binding) => binding.text(),
            TypeDecl::Enum(binding) => binding.text(),
        }
    }
}

impl Fragments {
    /// Writes the declaration as source text.
    pub fn text(&self) -> (r: String)
        ensures
            r@ == self@.text(),
    {
        let mut r = match &self.declaration {
            Some(declaration) => declaration.text(),
            None => String::new(),
        };
        let mut class = String::from_str("internal unsafe static partial class ");
        let class_name = crate::naming::bindings_class_ident();
        class.append(class_name.as_str());
        class.append("\n{\n");
        let binding = self.binding.text();
        class.append(binding.as_str());
        class.append("}\n");
        r.append(class.as_str());
        match &self.wrapper {
            Some(wrapper) => {
                let wrapper = wrapper.text();
                r.append(wrapper.as_str());
            },
            None => {
                assert(r@ =~= r@ + Seq::<char>::empty());
            },
        }
        r
    }
}

} // verus!
