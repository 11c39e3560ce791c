//! Bindings and references: renaming, and redirection to namespace objects.

use crate::ast::BindingIdentifier;
use crate::ast::IdentifierReference;
use crate::buffer::Edit;
use crate::buffer::lemma_edits_free_one;
use crate::graph::Span;
use crate::names::SymbolRef;
use crate::snippets::indirect_member;
use crate::snippets::indirect_member_text;
use crate::snippets::member;
use crate::snippets::member_text;
use crate::renderer::RendererContext;
use vstd::pervasive::unreached;
use vstd::prelude::*;

verus! {

impl<'ast> RendererContext<'ast> {
    /// What the visit of an occurrence of `symbol`, spelled `spelling`,
    /// issues: the occurrence is overwritten with the final name where the
    /// symbol has one that differs from the spelling.
    pub open spec fn rename_edits(&self, symbol: SymbolRef, span: Span, spelling: Seq<char>) -> Seq<
        Edit,
    > {
        match self.name_of(symbol) {
            Some(name) => if name != spelling {
                Self::overwrite_edits(span.start, span.end, name)
            } else {
                Seq::empty()
            },
            None => Seq::empty(),
        }
    }

    fn rename_occurrence(&mut self, symbol: SymbolRef, span: Span, spelling: &String)
        requires
            old(self).in_step(),
            old(self).graph.symbols.has(symbol),
            old(self).can_issue(old(self).rename_edits(symbol, span, spelling@)),
        ensures
            final(self).after(old(self), old(self).rename_edits(symbol, span, spelling@)),
    {
        proof {
            assert(self.edits() + Seq::<Edit>::empty() =~= self.edits());
        }
        match self.get_symbol_final_name(symbol) {
            Some(name) => {
                if !spelling.eq(name) {
                    self.rename_symbol(span, name.clone());
                }
            },
            None => {},
        }
    }

    pub fn visit_binding_identifier(&mut self, ident: &BindingIdentifier)
        requires
            old(self).in_step(),
            old(self).graph.symbols.has(old(self).local(ident.symbol_id)),
            old(self).can_issue(
                old(self).rename_edits(old(self).local(ident.symbol_id), ident.span, ident.name@),
            ),
        ensures
            final(self).after(
                old(self),
                old(self).rename_edits(old(self).local(ident.symbol_id), ident.span, ident.name@),
            ),
    {
        let symbol = SymbolRef { owner: self.module.id, symbol: ident.symbol_id };
        self.rename_occurrence(symbol, ident.span, &ident.name);
    }

    /// The names that the visit of a reference needs exist.
    pub open spec fn reference_ready(&self, ident: IdentifierReference) -> bool {
        &&& self.graph.symbols.has_reference(self.module.id, ident.reference_id)
        &&& match self.graph.symbols.reference(self.module.id, ident.reference_id) {
            Some(id) => match self.graph.symbols.symbol(
                self.graph.symbols.canonical(self.local(id)),
            ).namespace_alias {
                Some(alias) => self.name_of(alias.namespace_ref) is Some,
                None => true,
            },
            None => true,
        }
    }

    /// What the visit of a reference issues. A reference that resolves to
    /// no symbol stays. One to an alias becomes a property read of the
    /// namespace object, wrapped as `(0, ..)` in callee position. Any other
    /// is renamed as a binding is.
    pub open spec fn reference_edits(&self, ident: IdentifierReference, is_call: bool) -> Seq<
        Edit,
    > {
        match self.graph.symbols.reference(self.module.id, ident.reference_id) {
            Some(id) => match self.graph.symbols.symbol(
                self.graph.symbols.canonical(self.local(id)),
            ).namespace_alias {
                Some(alias) => seq![
                    Edit::Replace {
                        start: ident.span.start,
                        end: ident.span.end,
                        text: if is_call {
                            indirect_member_text(
                                self.name_of(alias.namespace_ref)->0,
                                alias.property_name@,
                            )
                        } else {
                            member_text(self.name_of(alias.namespace_ref)->0, alias.property_name@)
                        },
                        clear: false,
                    },
                ],
                None => self.rename_edits(self.local(id), ident.span, ident.name@),
            },
            None => Seq::empty(),
        }
    }

    pub fn visit_identifier_reference(&mut self, ident: &IdentifierReference, is_call: bool)
        requires
            old(self).wf(),
            old(self).reference_ready(*ident),
            old(self).can_issue(old(self).reference_edits(*ident, is_call)),
        ensures
            final(self).after(old(self), old(self).reference_edits(*ident, is_call)),
    {
        let graph = self.graph;
        proof {
            assert(self.edits() + Seq::<Edit>::empty() =~= self.edits());
        }
        let symbol_id = match graph.symbols.resolve_reference(self.module.id, ident.reference_id) {
            Some(id) => id,
            None => {
                return ;
            },
        };
        let symbol_ref = SymbolRef { owner: self.module.id, symbol: symbol_id };
        let canonical_ref = graph.symbols.par_get_canonical_ref(symbol_ref);
        let symbol = graph.symbols.get(canonical_ref);
        match &symbol.namespace_alias {
            Some(ns_alias) => {
                let canonical_ns_name = match self.get_symbol_final_name(ns_alias.namespace_ref) {
                    Some(n) => n,
                    None => unreached(),
                };
                let text = if is_call {
                    indirect_member(canonical_ns_name.as_str(), ns_alias.property_name.as_str())
                } else {
                    member(canonical_ns_name.as_str(), ns_alias.property_name.as_str())
                };
                proof {
                    lemma_edits_free_one(
                        self.original(),
                        self.edits(),
                        Edit::Replace {
                            start: ident.span.start,
                            end: ident.span.end,
                            text: text@,
                            clear: false,
                        },
                    );
                }
                self.issue_update(ident.span.start, ident.span.end, text, false);
            },
            None => {
                self.rename_occurrence(symbol_ref, ident.span, &ident.name);
            },
        }
    }
}

} // verus!
