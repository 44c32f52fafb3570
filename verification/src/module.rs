//! A module: one source file, parsed and indexed.

use crate::locator::is_candidate;
use crate::symbols::{extract_symbols, symbol_table, SymbolTable};
use crate::syntax::{declarations, declarations_of, file_items, well_read};
use vstd::prelude::*;

verus! {

/// One resolved, parsed and indexed source file.
pub struct Module {
    /// The logical name under which the module was requested.
    pub name: String,
    /// The path of the file that the module was read from.
    pub path: String,
    /// The whole parsed file.
    pub ast: syn::File,
    /// The indexed declarations of the file, by symbol.
    pub symbols: SymbolTable,
}

/// The mathematical value of a [`Module`].
pub struct ModuleView {
    pub name: Seq<char>,
    pub path: Seq<char>,
    pub ast: syn::File,
    pub symbols: Map<Seq<char>, Seq<char>>,
}

impl View for Module {
    type V = ModuleView;

    open spec fn view(&self) -> ModuleView {
        ModuleView { name: self.name@, path: self.path@, ast: self.ast, symbols: self.symbols@ }
    }
}

impl DeepView for Module {
    type V = ModuleView;

    open spec fn deep_view(&self) -> ModuleView {
        self@
    }
}

impl ModuleView {
    /// The top-level declarations of the module, in source order.
    pub open spec fn declarations(self) -> Seq<crate::declaration::DeclarationView> {
        declarations_of(file_items(self.ast))
    }

    /// The module as it is made from a name, a path and a syntax tree.
    pub open spec fn from_ast(name: Seq<char>, path: Seq<char>, ast: syn::File) -> ModuleView {
        ModuleView { name, path, ast, symbols: symbol_table(declarations_of(file_items(ast))) }
    }

    /// Whether the symbols are those of the module's own declarations.
    pub open spec fn wf(self) -> bool {
        self.symbols == symbol_table(self.declarations())
    }

    /// Whether this is a module as a registry with the given search
    /// directories keeps it under `name`: it goes by that name, its path
    /// is the path at which one of the directories would hold it, and its
    /// symbols are those of its own declarations.
    pub open spec fn is_import_of(self, search_paths: Seq<Seq<char>>, name: Seq<char>) -> bool {
        &&& self.name == name
        &&& is_candidate(search_paths, name, self.path)
        &&& self.wf()
    }
}

impl Module {
    /// Indexes a syntax tree and makes a module of it. Every item that is
    /// read from the tree on the way is well-formed.
    pub fn new(name: String, path: String, ast: syn::File) -> (module: Module)
        ensures
            module@ == ModuleView::from_ast(name@, path@, ast),
            module@.wf(),
            well_read(module@.ast),
    {
        let list = declarations(&ast);
        let symbols = extract_symbols(&list);
        Module { name, path, ast, symbols }
    }
}

} // verus!
