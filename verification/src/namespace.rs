//! The namespace object of a module: one live accessor for each export.

use crate::names::SymbolRef;
use crate::snippets::getter;
use crate::snippets::getter_text;
use crate::snippets::joined_text;
use crate::snippets::member;
use crate::snippets::member_text;
use crate::snippets::namespace_object;
use crate::snippets::namespace_object_text;
use crate::renderer::RendererContext;
use vstd::pervasive::unreached;
use vstd::prelude::*;

verus! {

impl<'ast> RendererContext<'ast> {
    /// What a getter or a rewritten reference reads for `symbol`: a property
    /// of a namespace object where its canonical symbol is an alias, else
    /// its final name.
    pub open spec fn value_text(&self, symbol: SymbolRef) -> Seq<char> {
        match self.graph.symbols.symbol(self.graph.symbols.canonical(symbol)).namespace_alias {
            Some(alias) => member_text(self.name_of(alias.namespace_ref)->0, alias.property_name@),
            None => self.name_of(symbol)->0,
        }
    }

    /// The names that `value_text` reads for `symbol` exist.
    pub open spec fn value_ready(&self, symbol: SymbolRef) -> bool {
        match self.graph.symbols.symbol(self.graph.symbols.canonical(symbol)).namespace_alias {
            Some(alias) => self.name_of(alias.namespace_ref) is Some,
            None => self.name_of(symbol) is Some,
        }
    }

    /// The accessors of the namespace object, one for each of the first `n`
    /// resolved exports, in their order.
    pub open spec fn export_lines(&self, n: int) -> Seq<Seq<char>> {
        Seq::new(
            n as nat,
            |i: int|
                getter_text(
                    self.linking_info.resolved_exports@[i].exported_name@,
                    self.value_text(self.linking_info.resolved_exports@[i].symbol),
                ),
        )
    }

    /// The declaration of the module's namespace object, where the module's
    /// namespace symbol has a final name.
    pub open spec fn namespace_declaration_text(&self) -> Option<Seq<char>> {
        match self.namespace_symbol_name {
            Some(name) => Some(
                namespace_object_text(
                    name@,
                    joined_text(self.export_lines(self.linking_info.resolved_exports@.len() as int)),
                ),
            ),
            None => None,
        }
    }

    pub fn generate_namespace_variable_declaration(&self) -> (text: Option<String>)
        requires
            self.wf(),
            self.namespace_symbol_name is Some ==> forall|i: int|
                0 <= i < self.linking_info.resolved_exports@.len() ==> self.value_ready(
                    (#[trigger] self.linking_info.resolved_exports@[i]).symbol,
                ),
        ensures
            match text {
                Some(t) => self.namespace_declaration_text() == Some(t@),
                None => self.namespace_declaration_text() is None,
            },
    {
        let namespace_name = match self.namespace_symbol_name {
            Some(name) => name,
            None => {
                return None;
            },
        };
        let graph = self.graph;
        let exports = &self.linking_info.resolved_exports;
        let mut joined = String::new();
        let mut i: usize = 0;
        while i < exports.len()
            invariant
                self.wf(),
                graph == self.graph,
                exports == &self.linking_info.resolved_exports,
                i <= exports@.len(),
                forall|k: int|
                    0 <= k < exports@.len() ==> self.value_ready((#[trigger] exports@[k]).symbol),
                joined@ == joined_text(self.export_lines(i as int)),
            decreases exports@.len() - i,
        {
            let entry = &exports[i];
            let canonical_ref = graph.symbols.par_get_canonical_ref(entry.symbol);
            let symbol = graph.symbols.get(canonical_ref);
            let return_expr = match &symbol.namespace_alias {
                Some(ns_alias) => {
                    let ns_name = match self.get_symbol_final_name(ns_alias.namespace_ref) {
                        Some(n) => n,
                        None => unreached(),
                    };
                    member(ns_name.as_str(), ns_alias.property_name.as_str())
                },
                None => {
                    match self.get_symbol_final_name(entry.symbol) {
                        Some(n) => n.clone(),
                        None => unreached(),
                    }
                },
            };
            let line = getter(entry.exported_name.as_str(), return_expr.as_str());
            proof {
                assert(return_expr@ == self.value_text(entry.symbol));
                assert(self.export_lines(i + 1).drop_last() =~= self.export_lines(i as int));
                assert(self.export_lines(i + 1).last() == line@);
            }
            if i > 0 {
                joined.append(",\n");
            }
            joined.append(line.as_str());
            i += 1;
        }
        Some(namespace_object(namespace_name.as_str(), joined.as_str()))
    }
}

} // verus!
