//! Top-level declarations and the names under which they are indexed.

use vstd::prelude::*;
use vstd::string::StringExecFns;

verus! {

/// The kinds of declaration that carry an identifier of their own.
#[derive(Clone, Copy, Debug, PartialEq, Eq, Structural)]
pub enum NamedKind {
    Function,
    Struct,
    Enum,
    Const,
    Static,
    Trait,
}

/// One top-level declaration of a source file, reduced to what the symbol
/// index reads: what it declares, and its own source text as tokens.
#[derive(Debug, PartialEq, Eq)]
pub enum Declaration {
    /// A function, struct, enum, constant, static or trait.
    Named { kind: NamedKind, ident: String, tokens: String },
    /// `impl Trait for Type`. `trait_path` holds the identifiers of the
    /// trait's path, outermost first.
    TraitImpl { trait_path: Vec<String>, tokens: String },
    /// `impl Type`. `self_type` is the type as source text.
    InherentImpl { self_type: String, tokens: String },
    /// Any other item (a module, a type alias, a macro, a `use`, ...).
    Other,
}

/// The mathematical value of a [`Declaration`].
pub enum DeclarationView {
    Named { kind: NamedKind, ident: Seq<char>, tokens: Seq<char> },
    TraitImpl { trait_path: Seq<Seq<char>>, tokens: Seq<char> },
    InherentImpl { self_type: Seq<char>, tokens: Seq<char> },
    Other,
}

impl View for Declaration {
    type V = DeclarationView;

    open spec fn view(&self) -> DeclarationView {
        match self {
            Declaration::Named { kind, ident, tokens } => DeclarationView::Named {
                kind: *kind,
                ident: ident@,
                tokens: tokens@,
            },
            Declaration::TraitImpl { trait_path, tokens } => DeclarationView::TraitImpl {
                trait_path: trait_path.deep_view(),
                tokens: tokens@,
            },
            Declaration::InherentImpl { self_type, tokens } => DeclarationView::InherentImpl {
                self_type: self_type@,
                tokens: tokens@,
            },
            Declaration::Other => DeclarationView::Other,
        }
    }
}

/// The symbol under which an implementation block is indexed: `impl_`
/// followed by what it implements.
pub open spec fn impl_symbol(subject: Seq<char>) -> Seq<char> {
    "impl_"@ + subject
}

impl DeclarationView {
    /// The symbol under which the declaration is indexed, if it is indexed.
    ///
    /// A named declaration goes by its identifier. A trait implementation
    /// goes by the last identifier of the trait's path, whatever the
    /// implementing type; an inherent implementation by the text of its
    /// type. Everything else has no symbol.
    pub open spec fn symbol(self) -> Option<Seq<char>> {
        match self {
            DeclarationView::Named { ident, .. } => Some(ident),
            DeclarationView::TraitImpl { trait_path, .. } => if trait_path.len() > 0 {
                Some(impl_symbol(trait_path.last()))
            } else {
                None
            },
            DeclarationView::InherentImpl { self_type, .. } => Some(impl_symbol(self_type)),
            DeclarationView::Other => None,
        }
    }

    /// The tokens of the declaration, if it is of an indexed kind.
    pub open spec fn tokens(self) -> Option<Seq<char>> {
        match self {
            DeclarationView::Named { tokens, .. } => Some(tokens),
            DeclarationView::TraitImpl { tokens, .. } => Some(tokens),
            DeclarationView::InherentImpl { tokens, .. } => Some(tokens),
            DeclarationView::Other => None,
        }
    }

    /// The entry that the declaration contributes to a symbol table: its
    /// symbol and its tokens.
    pub open spec fn entry(self) -> Option<(Seq<char>, Seq<char>)> {
        match (self.symbol(), self.tokens()) {
            (Some(symbol), Some(tokens)) => Some((symbol, tokens)),
            _ => None,
        }
    }
}

impl Clone for Declaration {
    fn clone(&self) -> (copy: Declaration)
        ensures
            copy@ == self@,
    {
        match self {
            Declaration::Named { kind, ident, tokens } => Declaration::Named {
                kind: *kind,
                ident: ident.clone(),
                tokens: tokens.clone(),
            },
            Declaration::TraitImpl { trait_path, tokens } => {
                let path = trait_path.clone();
                assert(path.deep_view() =~= trait_path.deep_view());
                Declaration::TraitImpl { trait_path: path, tokens: tokens.clone() }
            },
            Declaration::InherentImpl { self_type, tokens } => Declaration::InherentImpl {
                self_type: self_type.clone(),
                tokens: tokens.clone(),
            },
            Declaration::Other => Declaration::Other,
        }
    }
}

impl DeepView for Declaration {
    type V = DeclarationView;

    open spec fn deep_view(&self) -> DeclarationView {
        self@
    }
}

/// Builds the symbol of an implementation block.
pub fn impl_symbol_for(subject: &str) -> (symbol: String)
    ensures
        symbol@ == impl_symbol(subject@),
{
    String::from_str("impl_").concat(subject)
}

impl Declaration {
    /// The symbol under which the declaration is indexed, if it is indexed.
    pub fn symbol(&self) -> (symbol: Option<String>)
        ensures
            symbol.deep_view() == self@.symbol(),
    {
        match self {
            Declaration::Named { ident, .. } => Some(ident.clone()),
            Declaration::TraitImpl { trait_path, .. } => {
                let n: usize = trait_path.len();
                if n > 0 {
                    assert(trait_path.deep_view().last() == trait_path@[n - 1]@);
                    Some(impl_symbol_for(trait_path[n - 1].as_str()))
                } else {
                    None
                }
            },
            Declaration::InherentImpl { self_type, .. } => Some(
                impl_symbol_for(self_type.as_str()),
            ),
            Declaration::Other => None,
        }
    }

    /// The tokens of the declaration, if it is of an indexed kind.
    pub fn tokens(&self) -> (tokens: Option<&String>)
        ensures
            tokens.deep_view() == self@.tokens(),
    {
        match self {
            Declaration::Named { tokens, .. } => Some(tokens),
            Declaration::TraitImpl { tokens, .. } => Some(tokens),
            Declaration::InherentImpl { tokens, .. } => Some(tokens),
            Declaration::Other => None,
        }
    }

    /// The entry that the declaration contributes to a symbol table.
    pub fn entry(&self) -> (entry: Option<(String, String)>)
        ensures
            entry.deep_view() == self@.entry(),
    {
        match (self.symbol(), self.tokens()) {
            (Some(symbol), Some(tokens)) => Some((symbol, tokens.clone())),
            _ => None,
        }
    }
}

} // verus!
