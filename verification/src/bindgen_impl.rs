//! The description of an `impl` block, taken from its header and the
//! signatures of its methods.

use vstd::prelude::*;
use crate::bindgen_fn::{
    bindgen_fn_of, BindgenFn, BindgenFnView, Signature, SignatureError, SignatureShape,
};
use crate::collect::{lemma_try_map_empty, lemma_try_map_error_stays, lemma_try_map_step, try_map};

verus! {

/// The type that an `impl` block is for.
#[derive(Debug, PartialEq, Eq, Hash)]
pub enum SelfType {
    /// A type written as a single name.
    Ident(String),
    /// A type written as a longer path.
    Path,
    /// A type that is not written as a path, such as a reference or a
    /// tuple.
    Other,
}

/// The view of [`SelfType`].
pub enum SelfTypeView {
    Ident(Seq<char>),
    Path,
    Other,
}

impl View for SelfType {
    type V = SelfTypeView;

    open spec fn view(&self) -> SelfTypeView {
        match self {
            SelfType::Ident(name) => SelfTypeView::Ident(name@),
            SelfType::Path => SelfTypeView::Path,
            SelfType::Other => SelfTypeView::Other,
        }
    }
}

/// One item of an `impl` block.
#[derive(Debug, PartialEq, Eq, Hash)]
pub enum ImplItem {
    Method(Signature),
    /// A constant, a type or a macro.
    Other,
}

/// The view of [`ImplItem`].
pub enum ImplItemView {
    Method(SignatureShape),
    Other,
}

impl View for ImplItem {
    type V = ImplItemView;

    open spec fn view(&self) -> ImplItemView {
        match self {
            ImplItem::Method(signature) => ImplItemView::Method(signature@),
            ImplItem::Other => ImplItemView::Other,
        }
    }
}

/// What was read from an `impl` block.
#[derive(Debug, PartialEq, Eq, Hash)]
pub struct ItemImpl {
    /// Whether the block implements a trait.
    pub trait_impl: bool,
    /// Whether the block has generic parameters.
    pub generic: bool,
    pub self_ty: SelfType,
    pub items: Vec<ImplItem>,
}

/// The view of [`ItemImpl`].
pub struct ItemImplView {
    pub trait_impl: bool,
    pub generic: bool,
    pub self_ty: SelfTypeView,
    pub items: Seq<ImplItemView>,
}

impl View for ItemImpl {
    type V = ItemImplView;

    open spec fn view(&self) -> ItemImplView {
        ItemImplView {
            trait_impl: self.trait_impl,
            generic: self.generic,
            self_ty: self.self_ty@,
            items: Seq::new(self.items@.len(), |i: int| self.items@[i]@),
        }
    }
}

/// Why an `impl` block does not describe methods that can be exported.
#[derive(Clone, Copy, Debug, PartialEq, Eq, Hash)]
pub enum ImplError {
    /// The block implements a trait.
    TraitImpl,
    /// The block has generic parameters.
    GenericImpl,
    /// The type is written as a path of more than a name.
    SelfTypeNotIdent,
    /// The type is not written as a path.
    SelfTypeNotPath,
    /// A method cannot be described.
    Method(SignatureError),
}

impl ImplError {
    /// What is wrong with the block, in words.
    pub open spec fn message_text(self) -> Seq<char> {
        match self {
            ImplError::TraitImpl => "Trait impls are not yet supported with `#[cs_bindgen]`"@,
            ImplError::GenericImpl => "Generic impls are not supported with `#[cs_bindgen]`"@,
            ImplError::SelfTypeNotIdent => "Self type not supported in impl for `#[cs_bindgen]`"@,
            ImplError::SelfTypeNotPath =>
                "Impls for this type of item are not supported by `#[cs_bindgen]`"@,
            ImplError::Method(error) => error.message_text(),
        }
    }

    /// Writes what is wrong with the block.
    pub fn message(&self) -> (r: &'static str)
        ensures
            r@ == self.message_text(),
    {
        match self {
            ImplError::TraitImpl => "Trait impls are not yet supported with `#[cs_bindgen]`",
            ImplError::GenericImpl => "Generic impls are not supported with `#[cs_bindgen]`",
            ImplError::SelfTypeNotIdent => "Self type not supported in impl for `#[cs_bindgen]`",
            ImplError::SelfTypeNotPath =>
                "Impls for this type of item are not supported by `#[cs_bindgen]`",
            ImplError::Method(error) => error.message(),
        }
    }
}

/// The description of an `impl` block.
#[derive(Debug, PartialEq, Eq, Hash)]
pub struct BindgenImpl {
    pub ty_ident: String,
    pub methods: Vec<BindgenFn>,
}

/// The view of [`BindgenImpl`].
pub struct BindgenImplView {
    pub ty_ident: Seq<char>,
    pub methods: Seq<BindgenFnView>,
}

/// The views of the items of a list, in order.
pub open spec fn methods_view(methods: Seq<BindgenFn>) -> Seq<BindgenFnView> {
    Seq::new(methods.len(), |i: int| methods[i]@)
}

impl View for BindgenImpl {
    type V = BindgenImplView;

    open spec fn view(&self) -> BindgenImplView {
        BindgenImplView { ty_ident: self.ty_ident@, methods: methods_view(self.methods@) }
    }
}

/// The methods among the items, in order.
pub open spec fn method_signatures(items: Seq<ImplItemView>) -> Seq<SignatureShape>
    decreases items.len(),
{
    if items.len() == 0 {
        Seq::empty()
    } else {
        let front = method_signatures(items.drop_last());
        match items.last() {
            ImplItemView::Method(signature) => front.push(signature),
            ImplItemView::Other => front,
        }
    }
}

/// The description of a method, with its failure as that of the block.
pub open spec fn described_method(signature: SignatureShape) -> Result<BindgenFnView, ImplError> {
    match bindgen_fn_of(signature) {
        Ok(described) => Ok(described),
        Err(error) => Err(ImplError::Method(error)),
    }
}

/// `described_method`, as a function of the position and the signature.
pub open spec fn described_method_fn() -> spec_fn(int, SignatureShape) -> Result<
    BindgenFnView,
    ImplError,
> {
    |index: int, signature: SignatureShape| described_method(signature)
}

/// The description of the given `impl` block.
///
/// A block that implements a trait has none, nor has one with generic
/// parameters, nor one for a type that is not written as a single name.
/// Otherwise the block is described by the name of its type and its
/// methods, in order; the first method that cannot be described decides the
/// error.
pub open spec fn bindgen_impl_of(item: ItemImplView) -> Result<BindgenImplView, ImplError> {
    if item.trait_impl {
        Err(ImplError::TraitImpl)
    } else if item.generic {
        Err(ImplError::GenericImpl)
    } else {
        match item.self_ty {
            SelfTypeView::Other => Err(ImplError::SelfTypeNotPath),
            SelfTypeView::Path => Err(ImplError::SelfTypeNotIdent),
            SelfTypeView::Ident(ty_ident) => match try_map(
                method_signatures(item.items),
                described_method_fn(),
            ) {
                Err(error) => Err(error),
                Ok(methods) => Ok(BindgenImplView { ty_ident, methods }),
            },
        }
    }
}

/// The view of a described block, or of the error in its place.
pub open spec fn described_impl_view(result: Result<BindgenImpl, ImplError>) -> Result<
    BindgenImplView,
    ImplError,
> {
    match result {
        Ok(described) => Ok(described@),
        Err(error) => Err(error),
    }
}

impl BindgenImpl {
    /// Describes the given `impl` block.
    pub fn from_item(item: ItemImpl) -> (r: Result<BindgenImpl, ImplError>)
        ensures
            described_impl_view(r) == bindgen_impl_of(item@),
    {
        if item.trait_impl {
            return Err(ImplError::TraitImpl);
        }
        if item.generic {
            return Err(ImplError::GenericImpl);
        }
        let ty_ident = match &item.self_ty {
            SelfType::Ident(name) => name.clone(),
            SelfType::Path => {
                return Err(ImplError::SelfTypeNotIdent);
            },
            SelfType::Other => {
                return Err(ImplError::SelfTypeNotPath);
            },
        };
        let ghost items = item@.items;
        let ghost f = described_method_fn();
        let mut methods: Vec<BindgenFn> = Vec::new();
        let mut i: usize = 0;
        proof {
            assert(items.take(0) =~= Seq::<ImplItemView>::empty());
            lemma_try_map_empty(method_signatures(items.take(0)), f);
            assert(methods_view(methods@) =~= Seq::<BindgenFnView>::empty());
        }
        while i < item.items.len()
            invariant
                i <= item.items.len(),
                items == item@.items,
                f == described_method_fn(),
                !item.trait_impl,
                !item.generic,
                item@.self_ty == SelfTypeView::Ident(ty_ident@),
                try_map(method_signatures(items.take(i as int)), f) == Ok::<
                    Seq<BindgenFnView>,
                    ImplError,
                >(methods_view(methods@)),
            decreases item.items.len() - i,
        {
            proof {
                assert(items.take(i + 1).drop_last() =~= items.take(i as int));
                assert(items.take(i + 1).last() == item.items@[i as int]@);
            }
            match &item.items[i] {
                ImplItem::Other => {},
                ImplItem::Method(signature) => {
                    let ghost before = method_signatures(items.take(i as int));
                    let ghost now = method_signatures(items.take(i + 1));
                    proof {
                        assert(now == before.push(signature@));
                        assert(now.take(before.len() as int) =~= before);
                        lemma_try_map_step(now, f, before.len() as int);
                    }
                    match BindgenFn::from_signature(signature) {
                        Err(error) => {
                            proof {
                                assert(now.take(now.len() as int) =~= now);
                                lemma_methods_stay_undescribed(items, i + 1);
                            }
                            return Err(ImplError::Method(error));
                        },
                        Ok(described) => {
                            let ghost seen = methods_view(methods@);
                            methods.push(described);
                            assert(methods_view(methods@) =~= seen.push(
                                methods@[methods.len() - 1]@,
                            ));
                            assert(now.take(now.len() as int) =~= now);
                        },
                    }
                },
            }
            i += 1;
        }
        assert(items.take(i as int) =~= items);
        Ok(BindgenImpl { ty_ident, methods })
    }
}

/// The methods among the first items are the first methods among all.
proof fn lemma_method_signatures_prefix(items: Seq<ImplItemView>, n: int)
    requires
        0 <= n <= items.len(),
    ensures
        method_signatures(items.take(n)).len() <= method_signatures(items).len(),
        method_signatures(items).take(method_signatures(items.take(n)).len() as int)
            == method_signatures(items.take(n)),
    decreases items.len() - n,
{
    if n < items.len() {
        lemma_method_signatures_prefix(items, n + 1);
        assert(items.take(n + 1).drop_last() =~= items.take(n));
        let longer = method_signatures(items.take(n + 1));
        let shorter = method_signatures(items.take(n));
        assert(method_signatures(items).take(shorter.len() as int) =~= longer.take(
            shorter.len() as int,
        ));
        assert(longer.take(shorter.len() as int) =~= shorter);
    } else {
        assert(items.take(n) =~= items);
        assert(method_signatures(items).take(method_signatures(items).len() as int)
            =~= method_signatures(items));
    }
}

/// Once a method among the first `n` items cannot be described, the block
/// cannot, for the same reason.
proof fn lemma_methods_stay_undescribed(items: Seq<ImplItemView>, n: int)
    requires
        0 <= n <= items.len(),
        try_map(method_signatures(items.take(n)), described_method_fn()) is Err,
    ensures
        try_map(method_signatures(items), described_method_fn()) == try_map(
            method_signatures(items.take(n)),
            described_method_fn(),
        ),
{
    lemma_method_signatures_prefix(items, n);
    lemma_try_map_error_stays(
        method_signatures(items),
        described_method_fn(),
        method_signatures(items.take(n)).len() as int,
    );
}

impl Clone for SelfType {
    fn clone(&self) -> (r: SelfType)
        ensures
            r@ == self@,
    {
        match self {
            SelfType::Ident(name) => SelfType::Ident(name.clone()),
            SelfType::Path => SelfType::Path,
            SelfType::Other => SelfType::Other,
        }
    }
}

impl Clone for ImplItem {
    fn clone(&self) -> (r: ImplItem)
        ensures
            r@ == self@,
    {
        match self {
            ImplItem::Method(signature) => ImplItem::Method(signature.clone()),
            ImplItem::Other => ImplItem::Other,
        }
    }
}

impl Clone for ItemImpl {
    fn clone(&self) -> (r: ItemImpl)
        ensures
            r@ == self@,
    {
        let mut items: Vec<ImplItem> = Vec::new();
        let mut i: usize = 0;
        while i < self.items.len()
            invariant
                i <= self.items.len(),
                items.len() == i,
                forall|j: int| 0 <= j < i ==> (#[trigger] items@[j])@ == self.items@[j]@,
            decreases self.items.len() - i,
        {
            items.push(self.items[i].clone());
            i += 1;
        }
        let r = ItemImpl {
            trait_impl: self.trait_impl,
            generic: self.generic,
            self_ty: self.self_ty.clone(),
            items,
        };
        assert(r@.items =~= self@.items);
        r
    }
}

impl Clone for BindgenImpl {
    fn clone(&self) -> (r: BindgenImpl)
        ensures
            r@ == self@,
    {
        let mut methods: Vec<BindgenFn> = Vec::new();
        let mut i: usize = 0;
        while i < self.methods.len()
            invariant
                i <= self.methods.len(),
                methods.len() == i,
                forall|j: int| 0 <= j < i ==> (#[trigger] methods@[j])@ == self.methods@[j]@,
            decreases self.methods.len() - i,
        {
            methods.push(self.methods[i].clone());
            i += 1;
        }
        assert(methods_view(methods@) =~= methods_view(self.methods@));
        BindgenImpl { ty_ident: self.ty_ident.clone(), methods }
    }
}

} // verus!
