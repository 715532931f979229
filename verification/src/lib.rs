//! Front end of a small imperative language: lexical analysis, recursive-descent
//! parsing into a syntax tree, and lowering of that tree into a typed,
//! control-flow-explicit intermediate representation.

pub mod colors;
pub mod generator;
pub mod lexer;
pub mod names;
pub mod parser;
pub mod text;

use crate::names::NameMap;
use vstd::prelude::*;

verus! {

/// What is recorded of a declared function: the type of its result and the
/// scope in which it was declared.
#[derive(Clone, Debug)]
pub struct Symbol {
    type_: String,
    scope: String,
}

/// The model of a [`Symbol`].
pub ghost struct SymbolModel {
    pub type_: Seq<char>,
    pub scope: Seq<char>,
}

impl View for Symbol {
    type V = SymbolModel;

    closed spec fn view(&self) -> SymbolModel {
        SymbolModel { type_: self.type_@, scope: self.scope@ }
    }
}

impl Symbol {
    /// A symbol of the given type, declared in the given scope.
    pub fn new(type_: String, scope: String) -> (r: Self)
        ensures
            r@ == (SymbolModel { type_: type_@, scope: scope@ }),
    {
        Symbol { type_, scope }
    }

    /// The type that the symbol was declared with.
    pub fn type_(&self) -> (r: &String)
        ensures
            r@ == self@.type_,
    {
        &self.type_
    }

    /// The scope that the symbol was declared in.
    pub fn scope(&self) -> (r: &String)
        ensures
            r@ == self@.scope,
    {
        &self.scope
    }

    /// A copy of the symbol.
    pub fn copy(&self) -> (r: Self)
        ensures
            r@ == self@,
    {
        Symbol { type_: self.type_.clone(), scope: self.scope.clone() }
    }
}

/// The models of a sequence of symbols.
pub open spec fn symbols_view(v: Seq<Symbol>) -> Seq<SymbolModel> {
    Seq::new(v.len(), |i: int| v[i]@)
}

/// The symbols of a program by name.
#[derive(Debug)]
pub struct SymbolTable {
    symbols: NameMap<Symbol>,
}

impl SymbolTable {
    /// The invariant of the table.
    pub closed spec fn wf(&self) -> bool {
        self.symbols.wf()
    }

    /// The names of the table, in the order in which they were first inserted.
    pub closed spec fn names(&self) -> Seq<Seq<char>> {
        self.symbols.names()
    }

    /// The symbols of the table, each at the index of its name.
    pub closed spec fn symbols(&self) -> Seq<SymbolModel> {
        symbols_view(self.symbols.values())
    }

    /// The symbol that the table holds for `name`.
    pub open spec fn find(&self, name: Seq<char>) -> Option<SymbolModel> {
        match crate::names::find(self.names(), name) {
            Some(i) => Some(self.symbols()[i]),
            None => None,
        }
    }

    /// An empty table.
    pub fn new() -> (r: Self)
        ensures
            r.wf(),
            r.names() == Seq::<Seq<char>>::empty(),
            r.symbols() == Seq::<SymbolModel>::empty(),
    {
        let r = SymbolTable { symbols: NameMap::new() };
        assert(r.symbols() =~= Seq::<SymbolModel>::empty());
        r
    }

    /// Records `symbol` under `name`, in place of what was recorded under
    /// that name before. Returns 0.
    pub fn insert(&mut self, name: String, symbol: Symbol) -> (r: i32)
        requires
            old(self).wf(),
        ensures
            r == 0,
            final(self).wf(),
            match crate::names::find(old(self).names(), name@) {
                Some(i) => {
                    &&& final(self).names() == old(self).names()
                    &&& final(self).symbols() == old(self).symbols().update(i, symbol@)
                },
                None => {
                    &&& final(self).names() == old(self).names().push(name@)
                    &&& final(self).symbols() == old(self).symbols().push(symbol@)
                },
            },
    {
        proof {
            self.symbols.lemma_lengths();
        }
        let ghost found = crate::names::find(self.names(), name@);
        self.symbols.insert(name, symbol);
        proof {
            match found {
                Some(i) => {
                    assert(i == old(self).names().index_of(name@));
                    assert(self.symbols() =~= old(self).symbols().update(i, symbol@));
                },
                None => {
                    assert(self.symbols() =~= old(self).symbols().push(symbol@));
                },
            }
        }
        0
    }

    /// The symbol recorded under `name`, if there is one.
    pub fn lookup(&mut self, name: String) -> (r: Option<Symbol>)
        requires
            old(self).wf(),
        ensures
            *final(self) == *old(self),
            match r {
                Some(s) => old(self).find(name@) == Some(s@),
                None => old(self).find(name@) is None,
            },
    {
        match self.symbols.position(name.as_str()) {
            Some(i) => Some(self.symbols.get(i).copy()),
            None => None,
        }
    }
}

/// CLI input configuration and parameters.
pub struct CLIInput {
    /// Path to input file.
    pub input_path: String,
    /// `input_path` file name without file extension.
    pub input_name: String,
    /// Whether or not raw tokens should be printed.
    pub print_tokens: bool,
    /// Whether or not raw AST should be printed.
    pub print_ast: bool,
    /// Whether to filter logs or not.
    pub verbose: u32,
    /// output path
    pub output_path: String,
    /// Optimization level (0-3)
    pub optimization: u32,
}

} // verus!
