//! The rendering session of one module.

use crate::ast::Statement;
use crate::buffer::range_free;
use crate::buffer::buffer_edits;
use crate::buffer::buffer_insert;
use crate::buffer::is_cut_point;
use crate::buffer::lemma_clear_is_missing;
use crate::buffer::lemma_spans_of_push;
use crate::buffer::position_free;
use crate::buffer::position_misses_spans;
use crate::buffer::range_misses_spans;
use crate::buffer::spans_of;
use crate::buffer::buffer_new;
use crate::buffer::buffer_remove;
use crate::buffer::buffer_source;
use crate::buffer::buffer_text;
use crate::buffer::buffer_update;
use crate::buffer::edits_free;
use crate::buffer::lemma_edits_free_one;
use crate::buffer::rendered;
use crate::buffer::Edit;
use crate::graph::get_symbol_final_name;
use crate::graph::lemma_find_import_is_listed;
use crate::graph::ChunkGraph;
use crate::graph::Graph;
use crate::graph::LinkingInfo;
use crate::graph::Module;
use crate::graph::NormalModule;
use crate::graph::RuntimeHelper;
use crate::graph::Span;
use crate::names::FinalNames;
use crate::names::SymbolRef;
use string_wizard::MagicString;
use vstd::pervasive::unreached;
use vstd::prelude::*;

verus! {

/// The text of a name that may be missing.
pub open spec fn text_of(name: Option<&String>) -> Option<Seq<char>> {
    match name {
        Some(n) => Some(n@),
        None => None,
    }
}

/// One module's rendering: the frozen inputs, the module's text buffer and
/// the hoist point.
pub struct RendererContext<'ast> {
    pub graph: &'ast Graph,
    pub final_names: &'ast FinalNames,
    pub source: MagicString<'static>,
    pub chunk_graph: &'ast ChunkGraph,
    pub module: &'ast NormalModule,
    pub linking_info: &'ast LinkingInfo,
    pub wrap_symbol_name: Option<&'ast String>,
    pub namespace_symbol_name: Option<&'ast String>,
    pub default_symbol_name: Option<&'ast String>,
    /// Where import initializers go: the start of the first statement that
    /// is no declaration, once one was seen.
    pub first_stmt_start: Option<u32>,
    /// The module's text as it was given.
    pub text: String,
    /// The ranges replaced or removed so far.
    pub touched: Vec<Span>,
}

impl<'ast> RendererContext<'ast> {
    /// The edits issued so far.
    pub open spec fn edits(&self) -> Seq<Edit> {
        buffer_edits(self.source)
    }

    /// The module's original text.
    pub open spec fn original(&self) -> Seq<char> {
        buffer_source(self.source)
    }

    /// The text that the session renders to.
    pub open spec fn output(&self) -> Seq<char> {
        rendered(self.original(), self.edits())
    }

    /// The final name of the canonical symbol of `symbol`.
    pub open spec fn name_of(&self, symbol: SymbolRef) -> Option<Seq<char>> {
        self.graph.name_of(self.final_names, symbol)
    }

    /// The final name of a runtime helper.
    pub open spec fn runtime_name(&self, helper: RuntimeHelper) -> Option<Seq<char>> {
        self.name_of(self.graph.runtime.symbol_of(helper))
    }

    /// The symbol of this module with index `id`.
    pub open spec fn local(&self, id: u32) -> SymbolRef {
        SymbolRef { owner: self.module.id, symbol: id }
    }

    /// What the session keeps of its buffer is in step with the buffer.
    pub open spec fn in_step(&self) -> bool {
        &&& self.text@ == self.original()
        &&& self.touched@ == spans_of(self.edits())
    }

    /// The inputs are well formed, the names kept at hand are those that
    /// the name table gives, and the session is in step with its buffer.
    pub open spec fn wf(&self) -> bool {
        self.inputs_wf() && self.in_step()
    }

    /// The part of `wf` that speaks of the frozen inputs.
    pub open spec fn inputs_wf(&self) -> bool {
        &&& self.graph.wf()
        &&& self.graph.normal_wf(*self.module)
        &&& self.graph.linking_wf(*self.linking_info)
        &&& self.chunk_graph.wf(self.graph.modules@.len())
        &&& text_of(self.wrap_symbol_name) == match self.linking_info.wrap_symbol {
            Some(w) => self.name_of(w),
            None => None,
        }
        &&& text_of(self.namespace_symbol_name) == self.name_of(self.module.namespace_symbol)
        &&& text_of(self.default_symbol_name) == match self.module.default_export_symbol {
            Some(d) => self.name_of(self.local(d)),
            None => None,
        }
    }

    /// `self` has the inputs and the original text of `before`.
    pub open spec fn same_inputs(&self, before: &Self) -> bool {
        &&& self.graph == before.graph
        &&& self.final_names == before.final_names
        &&& self.chunk_graph == before.chunk_graph
        &&& self.module == before.module
        &&& self.linking_info == before.linking_info
        &&& self.wrap_symbol_name == before.wrap_symbol_name
        &&& self.namespace_symbol_name == before.namespace_symbol_name
        &&& self.default_symbol_name == before.default_symbol_name
        &&& self.original() == before.original()
    }

    /// `self` is `before` after it has issued `added` and nothing else.
    pub open spec fn after(&self, before: &Self, added: Seq<Edit>) -> bool {
        &&& self.same_inputs(before)
        &&& self.first_stmt_start == before.first_stmt_start
        &&& self.edits() == before.edits() + added
        &&& before.in_step() ==> self.in_step()
    }

    /// The session can still issue `added`.
    pub open spec fn can_issue(&self, added: Seq<Edit>) -> bool {
        edits_free(self.original(), self.edits(), added)
    }

    pub fn new(
        graph: &'ast Graph,
        final_names: &'ast FinalNames,
        source: String,
        chunk_graph: &'ast ChunkGraph,
        module: &'ast NormalModule,
        linking_info: &'ast LinkingInfo,
    ) -> (ctx: Self)
        requires
            graph.wf(),
            graph.normal_wf(*module),
            graph.linking_wf(*linking_info),
            chunk_graph.wf(graph.modules@.len()),
            vstd::utf8::encode_utf8(source@).len() <= u32::MAX,
        ensures
            ctx.wf(),
            ctx.graph == graph,
            ctx.final_names == final_names,
            ctx.chunk_graph == chunk_graph,
            ctx.module == module,
            ctx.linking_info == linking_info,
            ctx.original() == source@,
            ctx.edits() == Seq::<Edit>::empty(),
            ctx.first_stmt_start is None,
    {
        let wrap_symbol_name = match linking_info.wrap_symbol {
            Some(s) => get_symbol_final_name(s, &graph.symbols, final_names),
            None => None,
        };
        let namespace_symbol_name = get_symbol_final_name(
            module.namespace_symbol,
            &graph.symbols,
            final_names,
        );
        let default_symbol_name = match module.default_export_symbol {
            Some(s) => get_symbol_final_name(
                SymbolRef { owner: module.id, symbol: s },
                &graph.symbols,
                final_names,
            ),
            None => None,
        };
        let text = source.clone();
        RendererContext {
            graph,
            final_names,
            source: buffer_new(source),
            text,
            touched: Vec::new(),
            chunk_graph,
            module,
            linking_info,
            wrap_symbol_name,
            namespace_symbol_name,
            default_symbol_name,
            first_stmt_start: None,
        }
    }

    /// A session over inputs that were not checked before: `None` where the
    /// inputs are not well formed.
    pub fn try_new(
        graph: &'ast Graph,
        final_names: &'ast FinalNames,
        source: String,
        chunk_graph: &'ast ChunkGraph,
        module: &'ast NormalModule,
        linking_info: &'ast LinkingInfo,
    ) -> (r: Option<Self>)
        requires
            vstd::utf8::encode_utf8(source@).len() <= u32::MAX,
        ensures
            r is Some <==> {
                &&& graph.wf()
                &&& graph.normal_wf(*module)
                &&& graph.linking_wf(*linking_info)
                &&& chunk_graph.wf(graph.modules@.len())
            },
            match r {
                Some(ctx) => {
                    &&& ctx.wf()
                    &&& ctx.graph == graph
                    &&& ctx.final_names == final_names
                    &&& ctx.chunk_graph == chunk_graph
                    &&& ctx.module == module
                    &&& ctx.linking_info == linking_info
                    &&& ctx.original() == source@
                    &&& ctx.edits() == Seq::<Edit>::empty()
                    &&& ctx.first_stmt_start is None
                },
                None => true,
            },
    {
        if !graph.is_wf() || !graph.is_normal_wf(module) || !graph.is_linking_wf(linking_info)
            || !chunk_graph.is_wf(graph.modules.len()) {
            return None;
        }
        Some(Self::new(graph, final_names, source, chunk_graph, module, linking_info))
    }

    /// Ends the session and gives the module's rendered text.
    pub fn finish(self) -> (text: String)
        ensures
            text@ == self.output(),
    {
        buffer_text(&self.source)
    }

    /// Whether the session can still replace or remove `start..end`.
    pub fn can_replace(&self, start: u32, end: u32) -> (ok: bool)
        requires
            self.in_step(),
        ensures
            ok == range_free(self.original(), self.edits(), start, end),
    {
        proof {
            lemma_clear_is_missing(self.edits(), start, end);
        }
        start < end && is_cut_point(self.text.as_str(), start) && is_cut_point(
            self.text.as_str(),
            end,
        ) && range_misses_spans(&self.touched, start, end)
    }

    /// Whether the session can still insert at `at`.
    pub fn can_insert(&self, at: u32) -> (ok: bool)
        requires
            self.in_step(),
        ensures
            ok == position_free(self.original(), self.edits(), at),
    {
        proof {
            lemma_clear_is_missing(self.edits(), at, at);
        }
        is_cut_point(self.text.as_str(), at) && position_misses_spans(&self.touched, at)
    }

    pub(crate) fn issue_update(&mut self, start: u32, end: u32, content: String, overwrite: bool)
        requires
            old(self).in_step(),
            range_free(old(self).original(), old(self).edits(), start, end),
        ensures
            final(self).same_inputs(old(self)),
            final(self).first_stmt_start == old(self).first_stmt_start,
            final(self).in_step(),
            final(self).edits() == old(self).edits().push(
                Edit::Replace { start, end, text: content@, clear: overwrite },
            ),
    {
        proof {
            lemma_spans_of_push(
                self.edits(),
                Edit::Replace { start, end, text: content@, clear: overwrite },
            );
        }
        buffer_update(&mut self.source, start, end, content, overwrite);
        self.touched.push(Span { start, end });
    }

    pub(crate) fn issue_remove(&mut self, start: u32, end: u32)
        requires
            old(self).in_step(),
            range_free(old(self).original(), old(self).edits(), start, end),
        ensures
            final(self).same_inputs(old(self)),
            final(self).first_stmt_start == old(self).first_stmt_start,
            final(self).in_step(),
            final(self).edits() == old(self).edits().push(Edit::Remove { start, end }),
    {
        proof {
            lemma_spans_of_push(self.edits(), Edit::Remove { start, end });
        }
        buffer_remove(&mut self.source, start, end);
        self.touched.push(Span { start, end });
    }

    pub(crate) fn issue_insert(&mut self, at: u32, content: String)
        requires
            old(self).in_step(),
            position_free(old(self).original(), old(self).edits(), at),
        ensures
            final(self).same_inputs(old(self)),
            final(self).first_stmt_start == old(self).first_stmt_start,
            final(self).in_step(),
            final(self).edits() == old(self).edits().push(Edit::Insert { at, text: content@ }),
    {
        proof {
            lemma_spans_of_push(self.edits(), Edit::Insert { at, text: content@ });
        }
        buffer_insert(&mut self.source, at, content);
    }

    /// What `overwrite` issues.
    pub open spec fn overwrite_edits(start: u32, end: u32, content: Seq<char>) -> Seq<Edit> {
        seq![Edit::Replace { start, end, text: content, clear: true }]
    }

    /// Replaces the original bytes `start..end` by `content`.
    pub fn overwrite(&mut self, start: u32, end: u32, content: String)
        requires
            old(self).in_step(),
            old(self).can_issue(Self::overwrite_edits(start, end, content@)),
        ensures
            final(self).after(old(self), Self::overwrite_edits(start, end, content@)),
    {
        proof {
            lemma_edits_free_one(
                self.original(),
                self.edits(),
                Edit::Replace { start, end, text: content@, clear: true },
            );
        }
        self.issue_update(start, end, content, true);
    }

    /// What `remove_node` issues.
    pub open spec fn remove_edits(span: Span) -> Seq<Edit> {
        seq![Edit::Remove { start: span.start, end: span.end }]
    }

    /// Deletes the original bytes of `span`.
    pub fn remove_node(&mut self, span: Span)
        requires
            old(self).in_step(),
            old(self).can_issue(Self::remove_edits(span)),
        ensures
            final(self).after(old(self), Self::remove_edits(span)),
    {
        proof {
            lemma_edits_free_one(
                self.original(),
                self.edits(),
                Edit::Remove { start: span.start, end: span.end },
            );
        }
        self.issue_remove(span.start, span.end);
    }

    /// Replaces the occurrence at `span` by `name`.
    pub fn rename_symbol(&mut self, span: Span, name: String)
        requires
            old(self).in_step(),
            old(self).can_issue(Self::overwrite_edits(span.start, span.end, name@)),
        ensures
            final(self).after(old(self), Self::overwrite_edits(span.start, span.end, name@)),
    {
        self.overwrite(span.start, span.end, name);
    }

    pub fn get_symbol_final_name(&self, symbol: SymbolRef) -> (name: Option<&'ast String>)
        requires
            self.graph.symbols.has(symbol),
        ensures
            text_of(name) == self.name_of(symbol),
    {
        get_symbol_final_name(symbol, &self.graph.symbols, self.final_names)
    }

    pub fn get_runtime_symbol_final_name(&self, helper: RuntimeHelper) -> (name: &'ast String)
        requires
            self.graph.wf(),
            self.runtime_name(helper) is Some,
        ensures
            Some(name@) == self.runtime_name(helper),
    {
        let symbol = self.graph.runtime.resolve_symbol(helper);
        match self.get_symbol_final_name(symbol) {
            Some(name) => name,
            None => unreached(),
        }
    }

    /// The module imported at `span`.
    pub open spec fn importee_at(&self, span: Span) -> Module {
        self.graph.modules@[self.module.import_at(span)->0 as int]
    }

    pub fn get_importee_by_span(&self, span: Span) -> (importee: &'ast Module)
        requires
            self.wf(),
            self.module.import_at(span) is Some,
        ensures
            *importee == self.importee_at(span),
            self.module.import_at(span)->0 < self.graph.modules@.len(),
            self.graph.module_wf(self.module.import_at(span)->0 as int),
    {
        proof {
            lemma_find_import_is_listed(self.module.imports@, span);
            assert(self.graph.module_wf(self.module.import_at(span)->0 as int));
        }
        let graph = self.graph;
        &graph.modules[self.module.get_import_module_by_span(span) as usize]
    }

    /// The hoist point after a statement was seen: the start of the first
    /// statement that is no declaration; later statements leave it as it is.
    pub open spec fn hoist_after(first: Option<u32>, stmt: Statement) -> Option<u32> {
        if !stmt.is_declaration && first is None {
            Some(stmt.span.start)
        } else {
            first
        }
    }

    /// Records the hoist point; issues no edit.
    pub fn visit_statement(&mut self, stmt: &Statement)
        ensures
            final(self).same_inputs(old(self)),
            final(self).edits() == old(self).edits(),
            final(self).first_stmt_start == Self::hoist_after(old(self).first_stmt_start, *stmt),
            old(self).in_step() ==> final(self).in_step(),
    {
        if !stmt.is_declaration && self.first_stmt_start.is_none() {
            self.first_stmt_start = Some(stmt.span.start);
        }
    }
}

} // verus!
