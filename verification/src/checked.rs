//! Visits that test first what they need: each makes its visit where the
//! names exist and the session can take the edits, and says so.

use crate::ast::BindingIdentifier;
use crate::ast::CallExpression;
use crate::ast::ExportAllDeclaration;
use crate::ast::IdentifierReference;
use crate::ast::ImportDeclaration;
use crate::ast::ImportExpression;
use crate::buffer::lemma_clear_is_missing;
use crate::buffer::lemma_edits_free_one;
use crate::buffer::lemma_edits_free_two;
use crate::buffer::lemma_spans_of_push;
use crate::buffer::Edit;
use crate::graph::lemma_find_import_is_listed;
use crate::graph::ExportsKind;
use crate::graph::LinkingInfo;
use crate::graph::Module;
use crate::graph::NormalModule;
use crate::graph::RuntimeHelper;
use crate::graph::Span;
use crate::names::SymbolRef;
use crate::renderer::RendererContext;
use vstd::prelude::*;
use vstd::string::StringExecFns;

verus! {

impl<'ast> RendererContext<'ast> {
    /// Whether the canonical symbol of `symbol` has a final name.
    pub fn has_name(&self, symbol: SymbolRef) -> (ok: bool)
        requires
            self.graph.symbols.has(symbol),
        ensures
            ok == (self.name_of(symbol) is Some),
    {
        self.get_symbol_final_name(symbol).is_some()
    }

    /// Whether a runtime helper has a final name.
    pub fn has_runtime_name(&self, helper: RuntimeHelper) -> (ok: bool)
        requires
            self.graph.wf(),
        ensures
            ok == (self.runtime_name(helper) is Some),
    {
        self.has_name(self.graph.runtime.resolve_symbol(helper))
    }

    /// Whether the names that the import of a CommonJS module needs exist.
    pub fn is_import_commonjs_ready(
        &self,
        importee: &NormalModule,
        info: &LinkingInfo,
        with_namespace_init: bool,
    ) -> (ok: bool)
        requires
            self.graph.wf(),
        ensures
            ok == self.import_commonjs_ready(*importee, *info, with_namespace_init),
    {
        let wrap = match info.wrap_symbol {
            Some(w) => w,
            None => {
                return false;
            },
        };
        if !self.graph.symbols.contains(wrap) || !self.has_name(wrap) || !self.has_runtime_name(
            RuntimeHelper::ToEsm,
        ) {
            return false;
        }
        if with_namespace_init {
            if !self.graph.symbols.contains(importee.namespace_symbol) {
                return false;
            }
            return self.has_name(importee.namespace_symbol);
        }
        true
    }

    /// Whether the session can take the edits of the visit of an occurrence.
    pub fn can_rename(&self, symbol: SymbolRef, span: Span, spelling: &String) -> (ok: bool)
        requires
            self.in_step(),
            self.graph.symbols.has(symbol),
        ensures
            ok == self.can_issue(self.rename_edits(symbol, span, spelling@)),
    {
        match self.get_symbol_final_name(symbol) {
            Some(name) => {
                if !spelling.eq(name) {
                    proof {
                        lemma_edits_free_one(
                            self.original(),
                            self.edits(),
                            Edit::Replace {
                                start: span.start,
                                end: span.end,
                                text: name@,
                                clear: true,
                            },
                        );
                    }
                    self.can_replace(span.start, span.end)
                } else {
                    true
                }
            },
            None => true,
        }
    }

    /// Whether the names that the accessor of `symbol` reads exist.
    pub fn is_value_ready(&self, symbol: SymbolRef) -> (ok: bool)
        requires
            self.wf(),
            self.graph.symbols.has(symbol),
        ensures
            ok == self.value_ready(symbol),
    {
        let graph = self.graph;
        let canonical = graph.symbols.par_get_canonical_ref(symbol);
        match &graph.symbols.get(canonical).namespace_alias {
            Some(alias) => self.has_name(alias.namespace_ref),
            None => self.has_name(symbol),
        }
    }

    /// Whether the names that the namespace object's accessors read exist.
    pub fn are_exports_ready(&self) -> (ok: bool)
        requires
            self.wf(),
        ensures
            ok == forall|i: int|
                0 <= i < self.linking_info.resolved_exports@.len() ==> self.value_ready(
                    (#[trigger] self.linking_info.resolved_exports@[i]).symbol,
                ),
    {
        let exports = &self.linking_info.resolved_exports;
        let mut i: usize = 0;
        while i < exports.len()
            invariant
                self.wf(),
                exports == &self.linking_info.resolved_exports,
                i <= exports@.len(),
                forall|k: int| 0 <= k < i ==> self.value_ready((#[trigger] exports@[k]).symbol),
            decreases exports@.len() - i,
        {
            if !self.is_value_ready(exports[i].symbol) {
                return false;
            }
            i += 1;
        }
        true
    }

    /// Visits a binding where its symbol is one of the table and the session
    /// can take the edits; else leaves the session as it is.
    pub fn try_visit_binding_identifier(&mut self, ident: &BindingIdentifier) -> (done: bool)
        requires
            old(self).wf(),
        ensures
            done == (old(self).graph.symbols.has(old(self).local(ident.symbol_id)) && old(
                self,
            ).can_issue(
                old(self).rename_edits(old(self).local(ident.symbol_id), ident.span, ident.name@),
            )),
            done ==> final(self).after(
                old(self),
                old(self).rename_edits(old(self).local(ident.symbol_id), ident.span, ident.name@),
            ),
            !done ==> *final(self) == *old(self),
    {
        let symbol = SymbolRef { owner: self.module.id, symbol: ident.symbol_id };
        if !self.graph.symbols.contains(symbol) || !self.can_rename(symbol, ident.span, &ident.name) {
            return false;
        }
        self.visit_binding_identifier(ident);
        true
    }

    /// Visits a reference where it is one of the module, the names exist
    /// and the session can take the edits; else leaves the session as it is.
    pub fn try_visit_identifier_reference(&mut self, ident: &IdentifierReference, is_call: bool) -> (done:
        bool)
        requires
            old(self).wf(),
        ensures
            done == (old(self).reference_ready(*ident) && old(self).can_issue(
                old(self).reference_edits(*ident, is_call),
            )),
            done ==> final(self).after(old(self), old(self).reference_edits(*ident, is_call)),
            !done ==> *final(self) == *old(self),
    {
        let graph = self.graph;
        let owner = self.module.id;
        if (owner as usize) >= graph.symbols.references_table.len() {
            return false;
        }
        if (ident.reference_id as usize) >= graph.symbols.references_table[owner as usize].len() {
            return false;
        }
        proof {
            assert(graph.symbols.has_reference(owner, ident.reference_id));
        }
        let ok = match graph.symbols.resolve_reference(owner, ident.reference_id) {
            Some(id) => {
                let symbol = SymbolRef { owner, symbol: id };
                let canonical = graph.symbols.par_get_canonical_ref(symbol);
                match &graph.symbols.get(canonical).namespace_alias {
                    Some(alias) => {
                        proof {
                            lemma_edits_free_one(
                                self.original(),
                                self.edits(),
                                self.reference_edits(*ident, is_call)[0],
                            );
                            assert(self.reference_edits(*ident, is_call) =~= seq![
                                self.reference_edits(*ident, is_call)[0],
                            ]);
                        }
                        self.has_name(alias.namespace_ref) && self.can_replace(
                            ident.span.start,
                            ident.span.end,
                        )
                    },
                    None => self.can_rename(symbol, ident.span, &ident.name),
                }
            },
            None => true,
        };
        if !ok {
            return false;
        }
        self.visit_identifier_reference(ident, is_call);
        true
    }

    /// Visits a dynamic import where its site is one of the module and the
    /// session can take the edits; else leaves the session as it is.
    pub fn try_visit_import_expression(&mut self, expr: &ImportExpression) -> (done: bool)
        requires
            old(self).wf(),
        ensures
            done == ((expr.source is Some ==> old(self).module.import_at(expr.span) is Some) && old(
                self,
            ).can_issue(old(self).import_expression_edits(*expr))),
            done ==> final(self).after(old(self), old(self).import_expression_edits(*expr)),
            !done ==> *final(self) == *old(self),
    {
        let chunk_graph = self.chunk_graph;
        let ok = match expr.source {
            Some(literal) => {
                proof {
                    lemma_find_import_is_listed(self.module.imports@, expr.span);
                }
                match self.module.find_import_module_by_span(expr.span) {
                    Some(importee) => match chunk_graph.chunk_file_name(importee) {
                        Some(_) => {
                            proof {
                                lemma_edits_free_one(
                                    self.original(),
                                    self.edits(),
                                    self.import_expression_edits(*expr)[0],
                                );
                                assert(self.import_expression_edits(*expr) =~= seq![
                                    self.import_expression_edits(*expr)[0],
                                ]);
                            }
                            self.can_replace(literal.start, literal.end)
                        },
                        None => true,
                    },
                    None => false,
                }
            },
            None => true,
        };
        if !ok {
            return false;
        }
        self.visit_import_expression(expr);
        true
    }

    /// Visits `export * from` where its site is one of the module, the names
    /// exist and the session can take the edits; else leaves the session as
    /// it is.
    pub fn try_visit_export_all_declaration(&mut self, decl: &ExportAllDeclaration) -> (done: bool)
        requires
            old(self).wf(),
        ensures
            done == (old(self).export_all_ready(decl.span) && old(self).can_issue(
                old(self).export_all_edits(decl.span),
            )),
            done ==> final(self).after(old(self), old(self).export_all_edits(decl.span)),
            !done ==> *final(self) == *old(self),
    {
        let graph = self.graph;
        if self.module.find_import_module_by_span(decl.span).is_none() {
            return false;
        }
        let ready = match self.get_importee_by_span(decl.span) {
            Module::Normal(importee) => {
                if importee.exports_kind == ExportsKind::CommonJs {
                    self.namespace_symbol_name.is_some() && self.has_runtime_name(
                        RuntimeHelper::ReExport,
                    ) && self.is_import_commonjs_ready(
                        importee,
                        &graph.linking_infos[importee.id as usize],
                        false,
                    )
                } else {
                    true
                }
            },
            Module::External(_) => true,
        };
        proof {
            lemma_edits_free_one(self.original(), self.edits(), self.export_all_edits(decl.span)[0]);
            assert(self.export_all_edits(decl.span) =~= seq![self.export_all_edits(decl.span)[0]]);
        }
        if !ready || !self.can_replace(decl.span.start, decl.span.end) {
            return false;
        }
        self.visit_export_all_declaration(decl);
        true
    }

    /// Visits a call where, if it is one of `require`, its site is one of
    /// the module, the names exist and the session can take the edits; else
    /// leaves the session as it is.
    pub fn try_visit_call_expression(&mut self, expr: &CallExpression) -> (done: bool)
        requires
            old(self).wf(),
        ensures
            done == (old(self).call_ready(*expr) && old(self).can_issue(old(self).call_edits(*expr))),
            done ==> final(self).after(old(self), old(self).call_edits(*expr)),
            !done ==> *final(self) == *old(self),
    {
        let graph = self.graph;
        let is_require = match &expr.callee {
            Some(name) => name.eq(&String::from_str("require")),
            None => false,
        };
        if is_require {
            if self.module.find_import_module_by_span(expr.span).is_none() {
                return false;
            }
            match self.get_importee_by_span(expr.span) {
                Module::Normal(importee) => {
                    let wrap = match graph.linking_infos[importee.id as usize].wrap_symbol {
                        Some(w) => w,
                        None => {
                            return false;
                        },
                    };
                    if !self.has_name(wrap) {
                        return false;
                    }
                    if importee.exports_kind != ExportsKind::CommonJs {
                        if !self.has_name(importee.namespace_symbol) || !self.has_runtime_name(
                            RuntimeHelper::ToCommonJs,
                        ) {
                            return false;
                        }
                    }
                    proof {
                        lemma_edits_free_one(
                            self.original(),
                            self.edits(),
                            self.call_edits(*expr)[0],
                        );
                        assert(self.call_edits(*expr) =~= seq![self.call_edits(*expr)[0]]);
                    }
                    if !self.can_replace(expr.span.start, expr.span.end) {
                        return false;
                    }
                },
                Module::External(_) => {},
            }
        }
        self.visit_call_expression(expr);
        true
    }

    /// Visits an import declaration where its site is one of the module,
    /// the names exist and the session can take the edits; else leaves the
    /// session as it is.
    pub fn try_visit_import_declaration(&mut self, decl: &ImportDeclaration) -> (done: bool)
        requires
            old(self).wf(),
        ensures
            done == (old(self).import_declaration_ready(decl.span) && old(self).can_issue(
                old(self).import_declaration_edits(decl.span),
            )),
            done ==> final(self).after(old(self), old(self).import_declaration_edits(decl.span)),
            !done ==> *final(self) == *old(self),
    {
        let graph = self.graph;
        if self.module.find_import_module_by_span(decl.span).is_none() {
            return false;
        }
        let start = match self.first_stmt_start {
            Some(s) => s,
            None => decl.span.start,
        };
        let mut inserts = false;
        match self.get_importee_by_span(decl.span) {
            Module::Normal(importee) => {
                if importee.exports_kind == ExportsKind::CommonJs {
                    if !self.is_import_commonjs_ready(
                        importee,
                        &graph.linking_infos[importee.id as usize],
                        true,
                    ) {
                        return false;
                    }
                    inserts = true;
                } else {
                    match graph.linking_infos[importee.id as usize].wrap_symbol {
                        Some(wrap) => {
                            if !self.has_name(wrap) {
                                return false;
                            }
                            inserts = true;
                        },
                        None => {},
                    }
                }
            },
            Module::External(_) => {},
        }
        let ghost removal = Edit::Remove { start: decl.span.start, end: decl.span.end };
        proof {
            let planned = self.import_declaration_edits(decl.span);
            lemma_edits_free_one(self.original(), self.edits(), removal);
            if inserts {
                assert(planned =~= seq![removal, planned[1]]);
                lemma_edits_free_two(self.original(), self.edits(), removal, planned[1]);
                lemma_clear_is_missing(self.edits(), start, start);
                lemma_clear_is_missing(self.edits().push(removal), start, start);
                lemma_spans_of_push(self.edits(), removal);
                let spans = crate::buffer::spans_of(self.edits());
                let more = spans.push(Span { start: decl.span.start, end: decl.span.end });
                assert(forall|i: int| 0 <= i < spans.len() ==> more[i] == spans[i]);
                assert(more[more.len() - 1] == Span { start: decl.span.start, end: decl.span.end });
            } else {
                assert(planned =~= seq![removal]);
            }
        }
        if !self.can_replace(decl.span.start, decl.span.end) {
            return false;
        }
        if inserts && !(self.can_insert(start) && (start <= decl.span.start || decl.span.end
            <= start)) {
            return false;
        }
        self.visit_import_declaration(decl);
        true
    }
}

} // verus!
