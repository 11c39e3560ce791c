//! Symbol identities and the table of final names, an `FxHashMap` keyed by
//! the symbol's packed identity.

use rustc_hash::FxBuildHasher;
use rustc_hash::FxHashMap;
use vstd::prelude::*;

verus! {

#[verifier::external_type_specification]
#[verifier::external_body]
pub struct ExFxBuildHasher(FxBuildHasher);

/// A symbol of the program: the module that declares it and its index there.
#[derive(Clone, Copy, Debug, PartialEq, Eq, Structural)]
pub struct SymbolRef {
    pub owner: u32,
    pub symbol: u32,
}

impl SymbolRef {
    /// The key under which the name table files this symbol.
    pub open spec fn key(self) -> u64 {
        (self.owner * 0x1_0000_0000 + self.symbol) as u64
    }

    pub fn packed(self) -> (k: u64)
        ensures
            k == self.key(),
    {
        let hi: u64 = self.owner as u64;
        let lo: u64 = self.symbol as u64;
        hi * 0x1_0000_0000u64 + lo
    }
}

/// The table's representation: packed symbol identity to name.
pub type NameTable = FxHashMap<u64, String>;

/// `FxHashMap::default`: an empty table.
#[verifier::external_body]
fn table_new() -> (m: NameTable)
    ensures
        m@ == (Map::<u64, String>::empty()),
{
    FxHashMap::default()
}

/// `HashMap::insert` on an `FxHashMap`: the table maps `key` to `name` and
/// is otherwise unchanged.
#[verifier::external_body]
fn table_insert(m: &mut NameTable, key: u64, name: String)
    ensures
        final(m)@ == old(m)@.insert(key, name),
{
    m.insert(key, name);
}

/// `HashMap::get` on an `FxHashMap`: the value filed under `key`, if any.
#[verifier::external_body]
fn table_get<'a>(m: &'a NameTable, key: u64) -> (r: Option<&'a String>)
    ensures
        match r {
            Some(name) => m@.contains_key(key) && *name == m@[key],
            None => !m@.contains_key(key),
        },
{
    m.get(&key)
}

/// The final names that the program's canonical symbols were given.
pub struct FinalNames {
    pub table: NameTable,
}

impl FinalNames {
    /// The name filed for `symbol`, if any.
    pub open spec fn name_of(&self, symbol: SymbolRef) -> Option<Seq<char>> {
        if self.table@.contains_key(symbol.key()) {
            Some(self.table@[symbol.key()]@)
        } else {
            None
        }
    }

    pub fn new() -> (names: FinalNames)
        ensures
            forall|s: SymbolRef| names.name_of(s) is None,
    {
        FinalNames { table: table_new() }
    }

    /// Files `name` for `symbol`, in place of an earlier name if there is one.
    pub fn insert(&mut self, symbol: SymbolRef, name: String)
        ensures
            final(self).name_of(symbol) == Some(name@),
            forall|s: SymbolRef| s != symbol ==> final(self).name_of(s) == old(self).name_of(s),
    {
        proof {
            assert forall|s: SymbolRef| s != symbol implies s.key() != symbol.key() by {
                lemma_key_injective(s, symbol);
            }
        }
        table_insert(&mut self.table, symbol.packed(), name);
    }

    pub fn get(&self, symbol: SymbolRef) -> (r: Option<&String>)
        ensures
            match r {
                Some(name) => self.name_of(symbol) == Some(name@),
                None => self.name_of(symbol) is None,
            },
    {
        table_get(&self.table, symbol.packed())
    }
}

/// Two symbols with one key are one symbol.
pub proof fn lemma_key_injective(a: SymbolRef, b: SymbolRef)
    ensures
        a.key() == b.key() ==> a == b,
{
}

} // verus!
