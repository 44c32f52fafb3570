//! The symbol table of a module: its indexed declarations by name.

use crate::declaration::{Declaration, DeclarationView};
use vstd::hash_map::StringHashMap;
use vstd::prelude::*;

verus! {

/// The symbol table that a list of declarations gives.
///
/// The declarations are taken in source order. Each indexed one enters
/// its tokens under its symbol; where a symbol comes twice, the later
/// declaration replaces the earlier one.
pub open spec fn symbol_table(declarations: Seq<DeclarationView>) -> Map<Seq<char>, Seq<char>>
    decreases declarations.len(),
{
    if declarations.len() == 0 {
        Map::empty()
    } else {
        let earlier = symbol_table(declarations.drop_last());
        match declarations.last().entry() {
            Some((symbol, tokens)) => earlier.insert(symbol, tokens),
            None => earlier,
        }
    }
}

/// A map from symbol names to the tokens of the declarations they name.
pub struct SymbolTable {
    entries: StringHashMap<String>,
}

impl View for SymbolTable {
    type V = Map<Seq<char>, Seq<char>>;

    closed spec fn view(&self) -> Map<Seq<char>, Seq<char>> {
        self.entries@.map_values(|tokens: String| tokens@)
    }
}

impl SymbolTable {
    /// A table without entries.
    pub fn new() -> (table: SymbolTable)
        ensures
            table@ == Map::<Seq<char>, Seq<char>>::empty(),
    {
        let table = SymbolTable { entries: StringHashMap::new() };
        assert(table@ =~= Map::<Seq<char>, Seq<char>>::empty());
        table
    }

    /// Enters `tokens` under `symbol`, in place of what stood there.
    pub fn insert(&mut self, symbol: String, tokens: String)
        ensures
            final(self)@ == old(self)@.insert(symbol@, tokens@),
    {
        self.entries.insert(symbol, tokens);
        assert(self@ =~= old(self)@.insert(symbol@, tokens@));
    }

    /// The tokens entered under `symbol`, if there are any.
    pub fn get(&self, symbol: &str) -> (tokens: Option<&String>)
        ensures
            tokens.deep_view() == self@.get(symbol@),
    {
        self.entries.get(symbol)
    }

    /// Whether anything is entered under `symbol`.
    pub fn contains_key(&self, symbol: &str) -> (present: bool)
        ensures
            present == self@.contains_key(symbol@),
    {
        self.entries.contains_key(symbol)
    }

    /// The number of entries.
    pub fn len(&self) -> (count: usize)
        ensures
            count == self@.len(),
    {
        assert(self@.dom() =~= self.entries@.dom());
        self.entries.len()
    }

    /// Whether the table has no entries.
    pub fn is_empty(&self) -> (empty: bool)
        ensures
            empty == (self@.len() == 0),
    {
        self.len() == 0
    }
}

/// Indexes a list of declarations.
pub fn extract_symbols(declarations: &Vec<Declaration>) -> (table: SymbolTable)
    ensures
        table@ == symbol_table(declarations.deep_view()),
{
    let mut table = SymbolTable::new();
    let ghost all = declarations.deep_view();
    let mut i: usize = 0;
    while i < declarations.len()
        invariant
            i <= declarations.len(),
            all == declarations.deep_view(),
            table@ == symbol_table(all.take(i as int)),
        decreases declarations.len() - i,
    {
        proof {
            let next = all.take(i + 1);
            assert(next.drop_last() =~= all.take(i as int));
            assert(next.last() == declarations@[i as int]@);
        }
        match declarations[i].entry() {
            Some((symbol, tokens)) => {
                table.insert(symbol, tokens);
            },
            None => {},
        }
        i = i + 1;
    }
    proof {
        assert(all.take(i as int) =~= all);
    }
    table
}

/// Whether declaration `i` of `declarations` goes by `symbol`.
pub open spec fn declares(declarations: Seq<DeclarationView>, i: int, symbol: Seq<char>) -> bool {
    0 <= i < declarations.len() && declarations[i].symbol() == Some(symbol)
}

/// A symbol is in the table exactly when some declaration goes by it.
pub proof fn lemma_symbol_table_domain(declarations: Seq<DeclarationView>, symbol: Seq<char>)
    ensures
        symbol_table(declarations).contains_key(symbol) <==> exists|i: int|
            declares(declarations, i, symbol),
    decreases declarations.len(),
{
    if declarations.len() > 0 {
        let earlier = declarations.drop_last();
        let last = declarations.len() - 1;
        lemma_symbol_table_domain(earlier, symbol);
        if symbol_table(declarations).contains_key(symbol) {
            if declarations.last().symbol() == Some(symbol) {
                assert(declares(declarations, last, symbol));
            } else {
                let i = choose|i: int| declares(earlier, i, symbol);
                assert(declares(declarations, i, symbol));
            }
        }
        if exists|i: int| declares(declarations, i, symbol) {
            let i = choose|i: int| declares(declarations, i, symbol);
            if i < last {
                assert(declares(earlier, i, symbol));
            }
        }
    }
}

/// Where several declarations go by one symbol, the table holds the tokens
/// of the last of them.
pub proof fn lemma_last_declaration_wins(
    declarations: Seq<DeclarationView>,
    i: int,
    symbol: Seq<char>,
)
    requires
        declares(declarations, i, symbol),
        forall|j: int| i < j < declarations.len() ==> !declares(declarations, j, symbol),
    ensures
        symbol_table(declarations).contains_key(symbol),
        Some(symbol_table(declarations)[symbol]) == declarations[i].tokens(),
    decreases declarations.len(),
{
    let last = declarations.len() - 1;
    if i < last {
        let earlier = declarations.drop_last();
        assert(declares(earlier, i, symbol));
        assert forall|j: int| i < j < earlier.len() implies !declares(earlier, j, symbol) by {
            assert(!declares(declarations, j, symbol));
        }
        assert(!declares(declarations, last, symbol));
        lemma_last_declaration_wins(earlier, i, symbol);
    }
}

/// The table of two lists in a row is the table of the first, overlaid
/// with the table of the second.
pub proof fn lemma_symbol_table_concat(first: Seq<DeclarationView>, second: Seq<DeclarationView>)
    ensures
        symbol_table(first + second) == symbol_table(first).union_prefer_right(
            symbol_table(second),
        ),
    decreases second.len(),
{
    if second.len() == 0 {
        assert(first + second =~= first);
        assert(symbol_table(first).union_prefer_right(symbol_table(second)) =~= symbol_table(
            first,
        ));
    } else {
        let both = first + second;
        assert(both.drop_last() =~= first + second.drop_last());
        assert(both.last() == second.last());
        lemma_symbol_table_concat(first, second.drop_last());
        assert(symbol_table(both) =~= symbol_table(first).union_prefer_right(
            symbol_table(second),
        ));
    }
}

/// A declaration that is not indexed leaves no trace in the table: the
/// table is that of the list without it.
pub proof fn lemma_unindexed_is_skipped(declarations: Seq<DeclarationView>, i: int)
    requires
        0 <= i < declarations.len(),
        declarations[i].entry() is None,
    ensures
        symbol_table(declarations) == symbol_table(declarations.remove(i)),
{
    let before = declarations.take(i);
    let one = seq![declarations[i]];
    let after = declarations.skip(i + 1);
    assert(declarations =~= (before + one) + after);
    assert(declarations.remove(i) =~= before + after);
    assert(symbol_table(one) == Map::<Seq<char>, Seq<char>>::empty()) by {
        assert(one.last() == declarations[i]);
        assert(symbol_table(one.drop_last()) == Map::<Seq<char>, Seq<char>>::empty());
    }
    lemma_symbol_table_concat(before, one);
    assert(symbol_table(before + one) =~= symbol_table(before));
    lemma_symbol_table_concat(before + one, after);
    lemma_symbol_table_concat(before, after);
}

} // verus!
