//! The parser: source text in, a syntax tree and its top-level
//! declarations out.
//!
//! Parsing and printing are the work of `syn`, `quote` and `proc_macro2`.
//! Nothing is proved of them. The few functions below that call them are
//! marked `external_body`; each says in its comment what is taken on trust.
//! Everything else in this module is verified against those statements.
//!
//! The three crates are built without their `proc-macro` feature, so
//! tokens are always printed by `proc_macro2` itself, never by a compiler
//! that happens to be running: the text of an item depends on the item
//! alone.

use crate::declaration::{Declaration, DeclarationView, NamedKind};
use crate::symbols::{
    declares, lemma_symbol_table_domain, lemma_unindexed_is_skipped, symbol_table,
};
use quote::ToTokens;
use vstd::prelude::*;

verus! {

/// A parsed source file, `syn::File`. Its inside is not visible to proofs.
#[verifier::external_type_specification]
#[verifier::external_body]
pub struct ExFile(syn::File);

/// A syntax error, `syn::Error`. Its inside is not visible to proofs.
#[verifier::external_type_specification]
#[verifier::external_body]
pub struct ExError(syn::Error);

/// The kind of a top-level item: one for each variant of `syn::Item`.
#[derive(Clone, Copy, Debug, PartialEq, Eq, Structural)]
pub enum ItemKind {
    /// `const MAX: u16 = 65535;`
    Const,
    /// `enum Foo { A, B }`
    Enum,
    /// `extern crate serde;`
    ExternCrate,
    /// `fn process(n: usize) { }`
    Fn,
    /// `extern "C" { }`
    ForeignMod,
    /// `impl Trait for Data { }` or `impl Data { }`
    Impl,
    /// A macro invocation, a definition by `macro_rules!` among them.
    Macro,
    /// `mod m;` or `mod m { }`
    Mod,
    /// `static BIKE: Shed = Shed(42);`
    Static,
    /// `struct Foo { x: u8 }`
    Struct,
    /// `trait Iterator { }`
    Trait,
    /// `trait Both = Send + Sync;`
    TraitAlias,
    /// `type Byte = u8;`
    Type,
    /// `union Foo { x: u8 }`
    Union,
    /// `use std::fmt;`
    Use,
    /// Tokens that the parser kept without interpreting them.
    Verbatim,
    /// A variant that `syn` did not have when this was written.
    Unlisted,
}

impl ItemKind {
    /// The kind as a kind of named declaration, where it is one: a
    /// function, a struct, an enum, a constant, a static or a trait.
    /// No other kind of item is indexed under an identifier of its own.
    pub open spec fn named(self) -> Option<NamedKind> {
        match self {
            ItemKind::Fn => Some(NamedKind::Function),
            ItemKind::Struct => Some(NamedKind::Struct),
            ItemKind::Enum => Some(NamedKind::Enum),
            ItemKind::Const => Some(NamedKind::Const),
            ItemKind::Static => Some(NamedKind::Static),
            ItemKind::Trait => Some(NamedKind::Trait),
            _ => None,
        }
    }

    /// The kind itself where it is one of the first eight, in the order
    /// in which `syn::Item` lists its variants.
    pub open spec fn among_first(self) -> Option<ItemKind> {
        match self {
            ItemKind::Const
            | ItemKind::Enum
            | ItemKind::ExternCrate
            | ItemKind::Fn
            | ItemKind::ForeignMod
            | ItemKind::Impl
            | ItemKind::Macro
            | ItemKind::Mod => Some(self),
            _ => None,
        }
    }

    /// The kind itself where it is one of the last eight, in the order in
    /// which `syn::Item` lists its variants.
    pub open spec fn among_last(self) -> Option<ItemKind> {
        match self {
            ItemKind::Static
            | ItemKind::Struct
            | ItemKind::Trait
            | ItemKind::TraitAlias
            | ItemKind::Type
            | ItemKind::Union
            | ItemKind::Use
            | ItemKind::Verbatim => Some(self),
            _ => None,
        }
    }

    /// The kind as a kind of named declaration, where it is one.
    pub fn as_named(self) -> (kind: Option<NamedKind>)
        ensures
            kind == self.named(),
    {
        match self {
            ItemKind::Fn => Some(NamedKind::Function),
            ItemKind::Struct => Some(NamedKind::Struct),
            ItemKind::Enum => Some(NamedKind::Enum),
            ItemKind::Const => Some(NamedKind::Const),
            ItemKind::Static => Some(NamedKind::Static),
            ItemKind::Trait => Some(NamedKind::Trait),
            _ => None,
        }
    }
}

/// The mathematical value of an [`Item`].
pub struct ItemView {
    /// The kind of the item.
    pub kind: ItemKind,
    /// The identifier of a named item.
    pub ident: Option<Seq<char>>,
    /// For an implementation of a trait, the identifiers of the trait's
    /// path, outermost first.
    pub trait_path: Option<Seq<Seq<char>>>,
    /// For an implementation block, its type as source text.
    pub self_type: Option<Seq<char>>,
    /// The whole item as source text.
    pub tokens: Seq<char>,
}

impl ItemView {
    /// Whether the parts fit the kind: an identifier is there exactly for
    /// a named kind, a type exactly for an implementation block, and a
    /// trait path for nothing but an implementation block. This holds of
    /// every item that is read from a syntax tree.
    pub open spec fn wf(self) -> bool {
        &&& self.ident is Some <==> self.kind.named() is Some
        &&& self.self_type is Some <==> self.kind == ItemKind::Impl
        &&& self.trait_path is Some ==> self.kind == ItemKind::Impl
    }
}

/// What the parser reports of one top-level item.
#[derive(Debug, PartialEq, Eq)]
pub struct Item {
    /// The kind of the item.
    pub kind: ItemKind,
    /// The identifier of a named item.
    pub ident: Option<String>,
    /// For an implementation of a trait, the identifiers of the trait's
    /// path, outermost first.
    pub trait_path: Option<Vec<String>>,
    /// For an implementation block, its type as source text.
    pub self_type: Option<String>,
    /// The whole item as source text.
    pub tokens: String,
}

impl View for Item {
    type V = ItemView;

    open spec fn view(&self) -> ItemView {
        ItemView {
            kind: self.kind,
            ident: self.ident.deep_view(),
            trait_path: self.trait_path.deep_view(),
            self_type: self.self_type.deep_view(),
            tokens: self.tokens@,
        }
    }
}

impl DeepView for Item {
    type V = ItemView;

    open spec fn deep_view(&self) -> ItemView {
        self@
    }
}

/// What `syn::parse_file` returns for a source text.
pub uninterp spec fn parsed_file(source: Seq<char>) -> Result<syn::File, syn::Error>;

/// The message of a syntax error: what `syn::Error` displays.
pub uninterp spec fn error_text(error: syn::Error) -> Seq<char>;

/// The top-level items that a syntax tree holds in its field `items`, in
/// order, each as the functions below read it: the kind by the variant of
/// `syn::Item`, the identifier, the trait path, the type and the tokens by
/// printing them. Nothing else is known of it: what the items of a given
/// tree are is for `syn` to say.
pub uninterp spec fn file_items(ast: syn::File) -> Seq<ItemView>;

/// Calls `syn::parse_file`.
///
/// Trusted: the outcome depends on the text alone, so it can go by the
/// name `parsed_file`. Nothing is said about which texts parse, nor about
/// what the tree of a text holds. The parser descends once for each level
/// of nesting and sets no limit to it: a text that is nested deeper than
/// the stack allows ends the process. No measure of a text that a
/// contract could bound tells when that happens.
#[verifier::external_body]
fn parse_file(source: &str) -> (outcome: Result<syn::File, syn::Error>)
    ensures
        outcome == parsed_file(source@),
{
    syn::parse_file(source)
}

/// Calls `to_string` on a `syn::Error`, which goes through its `Display`
/// impl and gives the message of the error.
///
/// Trusted: the text depends on the error alone, so it can go by the name
/// `error_text`.
#[verifier::external_body]
fn error_message(error: &syn::Error) -> (text: String)
    ensures
        text@ == error_text(*error),
{
    error.to_string()
}

/// Reads the length of `items`, the public field of `syn::File` that
/// holds the top-level items.
///
/// Trusted: `file_items` has that many items.
#[verifier::external_body]
fn item_count(ast: &syn::File) -> (count: usize)
    ensures
        count == file_items(*ast).len(),
{
    ast.items.len()
}

/// Tells the first eight variants of `syn::Item` apart, one kind for each
/// variant; gives nothing for any other variant.
///
/// Trusted: the `kind` that `file_items` reports of item `i` is the kind
/// of its variant, and the result is that kind where it is among the
/// first eight.
#[verifier::external_body]
fn item_kind_among_first(ast: &syn::File, i: usize) -> (kind: Option<ItemKind>)
    requires
        i < file_items(*ast).len(),
    ensures
        kind == file_items(*ast)[i as int].kind.among_first(),
{
    match &ast.items[i] {
        syn::Item::Const(_) => Some(ItemKind::Const),
        syn::Item::Enum(_) => Some(ItemKind::Enum),
        syn::Item::ExternCrate(_) => Some(ItemKind::ExternCrate),
        syn::Item::Fn(_) => Some(ItemKind::Fn),
        syn::Item::ForeignMod(_) => Some(ItemKind::ForeignMod),
        syn::Item::Impl(_) => Some(ItemKind::Impl),
        syn::Item::Macro(_) => Some(ItemKind::Macro),
        syn::Item::Mod(_) => Some(ItemKind::Mod),
        _ => None,
    }
}

/// Tells the last eight variants of `syn::Item` apart, one kind for each
/// variant; gives nothing for any other variant.
///
/// Trusted: the `kind` that `file_items` reports of item `i` is the kind
/// of its variant, and the result is that kind where it is among the last
/// eight.
#[verifier::external_body]
fn item_kind_among_last(ast: &syn::File, i: usize) -> (kind: Option<ItemKind>)
    requires
        i < file_items(*ast).len(),
    ensures
        kind == file_items(*ast)[i as int].kind.among_last(),
{
    match &ast.items[i] {
        syn::Item::Static(_) => Some(ItemKind::Static),
        syn::Item::Struct(_) => Some(ItemKind::Struct),
        syn::Item::Trait(_) => Some(ItemKind::Trait),
        syn::Item::TraitAlias(_) => Some(ItemKind::TraitAlias),
        syn::Item::Type(_) => Some(ItemKind::Type),
        syn::Item::Union(_) => Some(ItemKind::Union),
        syn::Item::Use(_) => Some(ItemKind::Use),
        syn::Item::Verbatim(_) => Some(ItemKind::Verbatim),
        _ => None,
    }
}

/// Calls `to_string` on the `proc_macro2::Ident` that a function (in its
/// signature), a struct, an enum, a constant, a static or a trait item
/// holds in its field `ident`; gives nothing for another item.
///
/// Trusted: the result is the `ident` that `file_items` reports of item
/// `i`, and it is there exactly where the kind of the item is one of
/// those six.
#[verifier::external_body]
fn item_ident(ast: &syn::File, i: usize) -> (ident: Option<String>)
    requires
        i < file_items(*ast).len(),
    ensures
        ident.deep_view() == file_items(*ast)[i as int].ident,
        ident is Some <==> file_items(*ast)[i as int].kind.named() is Some,
{
    let ident = match &ast.items[i] {
        syn::Item::Fn(item) => &item.sig.ident,
        syn::Item::Struct(item) => &item.ident,
        syn::Item::Enum(item) => &item.ident,
        syn::Item::Const(item) => &item.ident,
        syn::Item::Static(item) => &item.ident,
        syn::Item::Trait(item) => &item.ident,
        _ => return None,
    };
    Some(ident.to_string())
}

/// Calls `to_string` on the `proc_macro2::Ident` of each segment of the
/// path that a `syn::ItemImpl` holds in its field `trait_`, in order;
/// gives nothing where that field is empty, as it is for an inherent
/// implementation, and for another item.
///
/// Trusted: the result is the `trait_path` that `file_items` reports of
/// item `i`, and it is there for an implementation block only.
#[verifier::external_body]
fn impl_trait_path(ast: &syn::File, i: usize) -> (path: Option<Vec<String>>)
    requires
        i < file_items(*ast).len(),
    ensures
        path.deep_view() == file_items(*ast)[i as int].trait_path,
        path is Some ==> file_items(*ast)[i as int].kind == ItemKind::Impl,
{
    match &ast.items[i] {
        syn::Item::Impl(syn::ItemImpl { trait_: Some((_, path, _)), .. }) => Some(
            path.segments.iter().map(|segment| segment.ident.to_string()).collect(),
        ),
        _ => None,
    }
}

/// Calls `quote::ToTokens::to_token_stream` on the type that a
/// `syn::ItemImpl` holds in its field `self_ty`, and `to_string` on the
/// `proc_macro2::TokenStream` that comes back; gives nothing for another
/// item.
///
/// Trusted: the result is the `self_type` that `file_items` reports of
/// item `i`, and it is there exactly for an implementation block.
#[verifier::external_body]
fn impl_self_type(ast: &syn::File, i: usize) -> (text: Option<String>)
    requires
        i < file_items(*ast).len(),
    ensures
        text.deep_view() == file_items(*ast)[i as int].self_type,
        text is Some <==> file_items(*ast)[i as int].kind == ItemKind::Impl,
{
    match &ast.items[i] {
        syn::Item::Impl(block) => Some(block.self_ty.to_token_stream().to_string()),
        _ => None,
    }
}

/// Calls `quote::ToTokens::to_token_stream` on a `syn::Item`, and
/// `to_string` on the `proc_macro2::TokenStream` that comes back.
///
/// Trusted: the result is the `tokens` that `file_items` reports of item
/// `i`.
#[verifier::external_body]
fn item_tokens(ast: &syn::File, i: usize) -> (text: String)
    requires
        i < file_items(*ast).len(),
    ensures
        text@ == file_items(*ast)[i as int].tokens,
{
    ast.items[i].to_token_stream().to_string()
}

/// The declaration that an item stands for.
///
/// An item of a named kind is that declaration, under its identifier. An
/// implementation block is a trait implementation where it has a trait
/// path, and an inherent one otherwise. An item of any other kind (a
/// module, a type alias, a macro, a `use`, ...) is
/// [`DeclarationView::Other`], and so is an item that lacks what its kind
/// calls for.
pub open spec fn declaration_of(item: ItemView) -> DeclarationView {
    match item.kind.named() {
        Some(kind) => match item.ident {
            Some(ident) => DeclarationView::Named { kind, ident, tokens: item.tokens },
            None => DeclarationView::Other,
        },
        None => match (item.kind, item.trait_path, item.self_type) {
            (ItemKind::Impl, Some(trait_path), _) => DeclarationView::TraitImpl {
                trait_path,
                tokens: item.tokens,
            },
            (ItemKind::Impl, None, Some(self_type)) => DeclarationView::InherentImpl {
                self_type,
                tokens: item.tokens,
            },
            _ => DeclarationView::Other,
        },
    }
}

/// Whether every item of a syntax tree is well-formed. It is: reading
/// the tree shows it.
pub open spec fn well_read(ast: syn::File) -> bool {
    forall|i: int| 0 <= i < file_items(ast).len() ==> (#[trigger] file_items(ast)[i]).wf()
}

/// The declarations that a list of items stands for, in the same order.
pub open spec fn declarations_of(items: Seq<ItemView>) -> Seq<DeclarationView> {
    items.map_values(|item: ItemView| declaration_of(item))
}

/// The outcome of parsing, with a syntax error reduced to its message.
pub open spec fn parse_outcome(source: Seq<char>) -> Result<syn::File, Seq<char>> {
    match parsed_file(source) {
        Ok(ast) => Ok(ast),
        Err(error) => Err(error_text(error)),
    }
}

/// The value of what [`parse`] returns.
pub open spec fn outcome_view(outcome: Result<syn::File, String>) -> Result<syn::File, Seq<char>> {
    match outcome {
        Ok(ast) => Ok(ast),
        Err(message) => Err(message@),
    }
}

/// Parses a source text.
///
/// Returns the syntax tree, or the message of the syntax error.
pub fn parse(source: &str) -> (outcome: Result<syn::File, String>)
    ensures
        outcome_view(outcome) == parse_outcome(source@),
{
    match parse_file(source) {
        Ok(ast) => Ok(ast),
        Err(error) => Err(error_message(&error)),
    }
}

impl Item {
    /// Turns the item into the declaration that it stands for.
    pub fn into_declaration(self) -> (declaration: Declaration)
        ensures
            declaration@ == declaration_of(self@),
    {
        match self.kind.as_named() {
            Some(kind) => match self.ident {
                Some(ident) => Declaration::Named { kind, ident, tokens: self.tokens },
                None => Declaration::Other,
            },
            None => match (self.kind, self.trait_path, self.self_type) {
                (ItemKind::Impl, Some(trait_path), _) => Declaration::TraitImpl {
                    trait_path,
                    tokens: self.tokens,
                },
                (ItemKind::Impl, None, Some(self_type)) => Declaration::InherentImpl {
                    self_type,
                    tokens: self.tokens,
                },
                _ => Declaration::Other,
            },
        }
    }
}

/// Reads the kind of item `i` of a syntax tree.
fn item_kind(ast: &syn::File, i: usize) -> (kind: ItemKind)
    requires
        i < file_items(*ast).len(),
    ensures
        kind == file_items(*ast)[i as int].kind,
{
    match item_kind_among_first(ast, i) {
        Some(kind) => kind,
        None => match item_kind_among_last(ast, i) {
            Some(kind) => kind,
            None => ItemKind::Unlisted,
        },
    }
}

/// Reads item `i` of a syntax tree.
fn item_at(ast: &syn::File, i: usize) -> (item: Item)
    requires
        i < file_items(*ast).len(),
    ensures
        item@ == file_items(*ast)[i as int],
        item@.wf(),
{
    Item {
        kind: item_kind(ast, i),
        ident: item_ident(ast, i),
        trait_path: impl_trait_path(ast, i),
        self_type: impl_self_type(ast, i),
        tokens: item_tokens(ast, i),
    }
}

/// Lists the top-level items of a syntax tree, in source order. Every one
/// of them is well-formed.
pub fn items(ast: &syn::File) -> (list: Vec<Item>)
    ensures
        list.deep_view() == file_items(*ast),
        well_read(*ast),
{
    let count = item_count(ast);
    let mut list: Vec<Item> = Vec::new();
    let mut i: usize = 0;
    while i < count
        invariant
            i <= count,
            count == file_items(*ast).len(),
            list.len() == i,
            forall|j: int| 0 <= j < i ==> list@[j]@ == file_items(*ast)[j],
            forall|j: int| 0 <= j < i ==> (#[trigger] file_items(*ast)[j]).wf(),
        decreases count - i,
    {
        list.push(item_at(ast, i));
        i = i + 1;
    }
    assert(list.deep_view() =~= file_items(*ast));
    list
}

/// Lists the top-level declarations of a syntax tree, in source order.
/// Every item that is read on the way is well-formed.
pub fn declarations(ast: &syn::File) -> (list: Vec<Declaration>)
    ensures
        list.deep_view() == declarations_of(file_items(*ast)),
        well_read(*ast),
{
    let count = item_count(ast);
    let mut list: Vec<Declaration> = Vec::new();
    let mut i: usize = 0;
    while i < count
        invariant
            i <= count,
            count == file_items(*ast).len(),
            list.len() == i,
            forall|j: int| 0 <= j < i ==> list@[j]@ == declaration_of(file_items(*ast)[j]),
            forall|j: int| 0 <= j < i ==> (#[trigger] file_items(*ast)[j]).wf(),
        decreases count - i,
    {
        list.push(item_at(ast, i).into_declaration());
        i = i + 1;
    }
    assert(list.deep_view() =~= declarations_of(file_items(*ast)));
    list
}

/// A well-formed item is declared as its kind says: a named item under
/// its identifier, an implementation block as an implementation of its
/// trait or of its type, and an item of any other kind not at all.
pub proof fn lemma_item_is_declared_by_kind(item: ItemView)
    requires
        item.wf(),
    ensures
        item.kind.named() is Some ==> declaration_of(item) == (DeclarationView::Named {
            kind: item.kind.named().unwrap(),
            ident: item.ident.unwrap(),
            tokens: item.tokens,
        }),
        item.kind == ItemKind::Impl && item.trait_path is Some ==> declaration_of(item) == (
        DeclarationView::TraitImpl { trait_path: item.trait_path.unwrap(), tokens: item.tokens }),
        item.kind == ItemKind::Impl && item.trait_path is None ==> declaration_of(item) == (
        DeclarationView::InherentImpl { self_type: item.self_type.unwrap(), tokens: item.tokens }),
        item.kind.named() is None && item.kind != ItemKind::Impl ==> declaration_of(item)
            == DeclarationView::Other,
{
}

/// Every well-formed item of a named kind is indexed: its identifier is
/// a symbol of the table.
pub proof fn lemma_named_item_is_indexed(items: Seq<ItemView>, i: int)
    requires
        0 <= i < items.len(),
        items[i].wf(),
        items[i].kind.named() is Some,
    ensures
        symbol_table(declarations_of(items)).contains_key(items[i].ident.unwrap()),
{
    lemma_item_is_declared_by_kind(items[i]);
    let symbol = items[i].ident.unwrap();
    assert(declares(declarations_of(items), i, symbol));
    lemma_symbol_table_domain(declarations_of(items), symbol);
}

/// An item that is neither of a named kind nor an implementation block
/// (a module, a type alias, a macro, a `use`, ...) leaves no trace in the
/// table: the table is that of the items without it.
pub proof fn lemma_other_item_is_skipped(items: Seq<ItemView>, i: int)
    requires
        0 <= i < items.len(),
        items[i].kind.named() is None,
        items[i].kind != ItemKind::Impl,
    ensures
        symbol_table(declarations_of(items)) == symbol_table(declarations_of(items.remove(i))),
{
    assert(declarations_of(items).remove(i) =~= declarations_of(items.remove(i)));
    lemma_unindexed_is_skipped(declarations_of(items), i);
}

} // verus!
