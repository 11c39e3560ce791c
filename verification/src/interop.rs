//! Imports, exports, `require` and dynamic imports between ESM and CommonJS.

use crate::ast::CallExpression;
use crate::ast::ExportAllDeclaration;
use crate::ast::ImportDeclaration;
use crate::ast::ImportExpression;
use crate::buffer::Edit;
use crate::buffer::lemma_edits_free_one;
use crate::buffer::lemma_edits_free_two;
use crate::graph::ExportsKind;
use crate::graph::LinkingInfo;
use crate::graph::Module;
use crate::graph::ModuleType;
use crate::graph::NormalModule;
use crate::graph::RuntimeHelper;
use crate::graph::Span;
use crate::graph::lemma_find_import_is_listed;
use crate::snippets::chunk_specifier;
use crate::snippets::chunk_specifier_text;
use crate::snippets::namespace_init;
use crate::snippets::namespace_init_text;
use crate::snippets::re_export_call;
use crate::snippets::re_export_text;
use crate::snippets::require_esm;
use crate::snippets::require_esm_text;
use crate::snippets::to_esm_call;
use crate::snippets::to_esm_text;
use crate::snippets::wrap_call;
use crate::snippets::wrap_call_text;
use crate::snippets::wrap_statement;
use crate::snippets::wrap_statement_text;
use crate::renderer::RendererContext;
use vstd::pervasive::unreached;
use vstd::prelude::*;

verus! {

impl<'ast> RendererContext<'ast> {
    /// The names that the import of a CommonJS module needs exist.
    pub open spec fn import_commonjs_ready(
        &self,
        importee: NormalModule,
        info: LinkingInfo,
        with_namespace_init: bool,
    ) -> bool {
        &&& info.wrap_symbol is Some
        &&& self.graph.symbols.has(info.wrap_symbol->0)
        &&& self.name_of(info.wrap_symbol->0) is Some
        &&& self.runtime_name(RuntimeHelper::ToEsm) is Some
        &&& with_namespace_init ==> {
            &&& self.graph.symbols.has(importee.namespace_symbol)
            &&& self.name_of(importee.namespace_symbol) is Some
        }
    }

    /// The expression that initializes a CommonJS importee and converts what
    /// it exports, bound to the importee's namespace name where asked.
    pub open spec fn import_commonjs_text(
        &self,
        importee: NormalModule,
        info: LinkingInfo,
        with_namespace_init: bool,
    ) -> Seq<char> {
        let code = to_esm_text(
            self.runtime_name(RuntimeHelper::ToEsm)->0,
            self.name_of(info.wrap_symbol->0)->0,
            self.module.module_type == ModuleType::Esm,
        );
        if with_namespace_init {
            namespace_init_text(self.name_of(importee.namespace_symbol)->0, code)
        } else {
            code
        }
    }

    pub fn generate_import_commonjs_module(
        &self,
        importee: &NormalModule,
        importee_linking_info: &LinkingInfo,
        with_namespace_init: bool,
    ) -> (text: String)
        requires
            self.graph.wf(),
            self.import_commonjs_ready(*importee, *importee_linking_info, with_namespace_init),
        ensures
            text@ == self.import_commonjs_text(
                *importee,
                *importee_linking_info,
                with_namespace_init,
            ),
    {
        let wrap_symbol = match importee_linking_info.wrap_symbol {
            Some(w) => w,
            None => unreached(),
        };
        let wrap_symbol_name = match self.get_symbol_final_name(wrap_symbol) {
            Some(n) => n,
            None => unreached(),
        };
        let to_esm_runtime_symbol_name = self.get_runtime_symbol_final_name(RuntimeHelper::ToEsm);
        let code = to_esm_call(
            to_esm_runtime_symbol_name.as_str(),
            wrap_symbol_name.as_str(),
            self.module.module_type.is_esm(),
        );
        if with_namespace_init {
            let namespace_name = match self.get_symbol_final_name(importee.namespace_symbol) {
                Some(n) => n,
                None => unreached(),
            };
            namespace_init(namespace_name.as_str(), code.as_str())
        } else {
            code
        }
    }

    /// The names that the visit of `export * from` at `span` needs exist.
    pub open spec fn export_all_ready(&self, span: Span) -> bool {
        &&& self.module.import_at(span) is Some
        &&& match self.importee_at(span) {
            Module::Normal(importee) => importee.exports_kind == ExportsKind::CommonJs ==> {
                &&& self.namespace_symbol_name is Some
                &&& self.runtime_name(RuntimeHelper::ReExport) is Some
                &&& self.import_commonjs_ready(
                    importee,
                    self.graph.linking_infos@[importee.id as int],
                    false,
                )
            },
            Module::External(_) => true,
        }
    }

    /// What the visit of `export * from` issues. From a CommonJS module the
    /// declaration becomes one call of the re-export helper on this
    /// module's namespace object and the converted importee; any other
    /// declaration is removed.
    pub open spec fn export_all_edits(&self, span: Span) -> Seq<Edit> {
        match self.importee_at(span) {
            Module::Normal(importee) => if importee.exports_kind == ExportsKind::CommonJs {
                seq![
                    Edit::Replace {
                        start: span.start,
                        end: span.end,
                        text: re_export_text(
                            self.runtime_name(RuntimeHelper::ReExport)->0,
                            self.namespace_symbol_name->0@,
                            self.import_commonjs_text(
                                importee,
                                self.graph.linking_infos@[importee.id as int],
                                false,
                            ),
                        ),
                        clear: false,
                    },
                ]
            } else {
                Self::remove_edits(span)
            },
            Module::External(_) => Self::remove_edits(span),
        }
    }

    pub fn visit_export_all_declaration(&mut self, decl: &ExportAllDeclaration)
        requires
            old(self).wf(),
            old(self).export_all_ready(decl.span),
            old(self).can_issue(old(self).export_all_edits(decl.span)),
        ensures
            final(self).after(old(self), old(self).export_all_edits(decl.span)),
    {
        let graph = self.graph;
        match self.get_importee_by_span(decl.span) {
            Module::Normal(importee) => {
                if importee.exports_kind == ExportsKind::CommonJs {
                    let namespace_name = match self.namespace_symbol_name {
                        Some(n) => n,
                        None => unreached(),
                    };
                    let re_export_runtime_symbol_name = self.get_runtime_symbol_final_name(
                        RuntimeHelper::ReExport,
                    );
                    let code = self.generate_import_commonjs_module(
                        importee,
                        &graph.linking_infos[importee.id as usize],
                        false,
                    );
                    let text = re_export_call(
                        re_export_runtime_symbol_name.as_str(),
                        namespace_name.as_str(),
                        code.as_str(),
                    );
                    proof {
                        lemma_edits_free_one(
                            self.original(),
                            self.edits(),
                            Edit::Replace {
                                start: decl.span.start,
                                end: decl.span.end,
                                text: text@,
                                clear: false,
                            },
                        );
                    }
                    self.issue_update(decl.span.start, decl.span.end, text, false);
                    return ;
                }
            },
            Module::External(_) => {},
        }
        self.remove_node(decl.span);
    }

    /// What the visit of a dynamic import issues: a literal specifier of a
    /// module that was placed in a chunk becomes the chunk's file name;
    /// anything else stays.
    pub open spec fn import_expression_edits(&self, expr: ImportExpression) -> Seq<Edit> {
        match expr.source {
            Some(literal) => match self.chunk_graph.file_name_of(self.module.import_at(expr.span)->0) {
                Some(file_name) => Self::overwrite_edits(
                    literal.start,
                    literal.end,
                    chunk_specifier_text(file_name),
                ),
                None => Seq::empty(),
            },
            None => Seq::empty(),
        }
    }

    pub fn visit_import_expression(&mut self, expr: &ImportExpression)
        requires
            old(self).wf(),
            expr.source is Some ==> old(self).module.import_at(expr.span) is Some,
            old(self).can_issue(old(self).import_expression_edits(*expr)),
        ensures
            final(self).after(old(self), old(self).import_expression_edits(*expr)),
    {
        proof {
            assert(self.edits() + Seq::<Edit>::empty() =~= self.edits());
        }
        let chunk_graph = self.chunk_graph;
        match expr.source {
            Some(literal) => {
                proof {
                    lemma_find_import_is_listed(self.module.imports@, expr.span);
                }
                let importee = self.module.get_import_module_by_span(expr.span);
                match chunk_graph.chunk_file_name(importee) {
                    Some(file_name) => {
                        self.overwrite(
                            literal.start,
                            literal.end,
                            chunk_specifier(file_name.as_str()),
                        );
                    },
                    None => {},
                }
            },
            None => {},
        }
    }

    /// The position at which the initializer of an import declared at
    /// `span` goes: the hoist point, or the declaration's own start while
    /// there is none.
    pub open spec fn hoist_point(&self, span: Span) -> u32 {
        match self.first_stmt_start {
            Some(start) => start,
            None => span.start,
        }
    }

    /// The names that the visit of an import declaration at `span` needs
    /// exist.
    pub open spec fn import_declaration_ready(&self, span: Span) -> bool {
        &&& self.module.import_at(span) is Some
        &&& match self.importee_at(span) {
            Module::Normal(importee) => if importee.exports_kind == ExportsKind::CommonJs {
                self.import_commonjs_ready(
                    importee,
                    self.graph.linking_infos@[importee.id as int],
                    true,
                )
            } else {
                match self.graph.linking_infos@[importee.id as int].wrap_symbol {
                    Some(wrap) => self.name_of(wrap) is Some,
                    None => true,
                }
            },
            Module::External(_) => true,
        }
    }

    /// What the visit of an import declaration issues. The declaration is
    /// removed. For a CommonJS importee its converted exports are bound to
    /// its namespace name at the hoist point; for a wrapped ESM importee
    /// its initializer is called there; for any other nothing is inserted.
    pub open spec fn import_declaration_edits(&self, span: Span) -> Seq<Edit> {
        let removal = Edit::Remove { start: span.start, end: span.end };
        match self.importee_at(span) {
            Module::Normal(importee) => if importee.exports_kind == ExportsKind::CommonJs {
                seq![
                    removal,
                    Edit::Insert {
                        at: self.hoist_point(span),
                        text: self.import_commonjs_text(
                            importee,
                            self.graph.linking_infos@[importee.id as int],
                            true,
                        ),
                    },
                ]
            } else {
                match self.graph.linking_infos@[importee.id as int].wrap_symbol {
                    Some(wrap) => seq![
                        removal,
                        Edit::Insert {
                            at: self.hoist_point(span),
                            text: wrap_statement_text(self.name_of(wrap)->0),
                        },
                    ],
                    None => seq![removal],
                }
            },
            Module::External(_) => seq![removal],
        }
    }

    pub fn visit_import_declaration(&mut self, decl: &ImportDeclaration)
        requires
            old(self).wf(),
            old(self).import_declaration_ready(decl.span),
            old(self).can_issue(old(self).import_declaration_edits(decl.span)),
        ensures
            final(self).after(old(self), old(self).import_declaration_edits(decl.span)),
    {
        let graph = self.graph;
        let ghost removal = Edit::Remove { start: decl.span.start, end: decl.span.end };
        let ghost before = self.edits();
        let importee = self.get_importee_by_span(decl.span);
        let start = match self.first_stmt_start {
            Some(s) => s,
            None => decl.span.start,
        };
        let inserted: Option<String> = match importee {
            Module::Normal(importee) => {
                if importee.exports_kind == ExportsKind::CommonJs {
                    Some(
                        self.generate_import_commonjs_module(
                            importee,
                            &graph.linking_infos[importee.id as usize],
                            true,
                        ),
                    )
                } else {
                    match graph.linking_infos[importee.id as usize].wrap_symbol {
                        Some(wrap_symbol) => {
                            let wrap_symbol_name = match self.get_symbol_final_name(wrap_symbol) {
                                Some(n) => n,
                                None => unreached(),
                            };
                            Some(wrap_statement(wrap_symbol_name.as_str()))
                        },
                        None => None,
                    }
                }
            },
            Module::External(_) => None,
        };
        proof {
            lemma_edits_free_one(self.original(), before, removal);
            if inserted is Some {
                lemma_edits_free_two(
                    self.original(),
                    before,
                    removal,
                    Edit::Insert { at: start, text: inserted->0@ },
                );
            }
        }
        self.issue_remove(decl.span.start, decl.span.end);
        match inserted {
            Some(text) => {
                self.issue_insert(start, text);
            },
            None => {},
        }
    }

    /// Whether the call is one of `require` that the visit rewrites.
    pub open spec fn is_require(expr: CallExpression) -> bool {
        expr.callee is Some && expr.callee->0@ == "require"@
    }

    /// The names that the visit of a call needs exist.
    pub open spec fn call_ready(&self, expr: CallExpression) -> bool {
        Self::is_require(expr) ==> {
            &&& self.module.import_at(expr.span) is Some
            &&& match self.importee_at(expr.span) {
                Module::Normal(importee) => {
                    &&& self.graph.linking_infos@[importee.id as int].wrap_symbol is Some
                    &&& self.name_of(
                        self.graph.linking_infos@[importee.id as int].wrap_symbol->0,
                    ) is Some
                    &&& importee.exports_kind != ExportsKind::CommonJs ==> {
                        &&& self.name_of(importee.namespace_symbol) is Some
                        &&& self.runtime_name(RuntimeHelper::ToCommonJs) is Some
                    }
                },
                Module::External(_) => true,
            }
        }
    }

    /// What the visit of a call issues. `require` of a bundled CommonJS
    /// module becomes a call of its initializer; of a bundled ESM module,
    /// its initializer's call followed by the conversion of its namespace
    /// object. Any other call stays.
    pub open spec fn call_edits(&self, expr: CallExpression) -> Seq<Edit> {
        if Self::is_require(expr) {
            match self.importee_at(expr.span) {
                Module::Normal(importee) => {
                    let wrap = self.name_of(
                        self.graph.linking_infos@[importee.id as int].wrap_symbol->0,
                    )->0;
                    seq![
                        Edit::Replace {
                            start: expr.span.start,
                            end: expr.span.end,
                            text: if importee.exports_kind == ExportsKind::CommonJs {
                                wrap_call_text(wrap)
                            } else {
                                require_esm_text(
                                    wrap,
                                    self.runtime_name(RuntimeHelper::ToCommonJs)->0,
                                    self.name_of(importee.namespace_symbol)->0,
                                )
                            },
                            clear: false,
                        },
                    ]
                },
                Module::External(_) => Seq::empty(),
            }
        } else {
            Seq::empty()
        }
    }

    pub fn visit_call_expression(&mut self, expr: &CallExpression)
        requires
            old(self).wf(),
            old(self).call_ready(*expr),
            old(self).can_issue(old(self).call_edits(*expr)),
        ensures
            final(self).after(old(self), old(self).call_edits(*expr)),
    {
        let graph = self.graph;
        proof {
            assert(self.edits() + Seq::<Edit>::empty() =~= self.edits());
        }
        let callee = match &expr.callee {
            Some(name) => name,
            None => {
                return ;
            },
        };
        if !callee.eq(&String::from_str("require")) {
            return ;
        }
        match self.get_importee_by_span(expr.span) {
            Module::Normal(importee) => {
                let wrap_symbol = match graph.linking_infos[importee.id as usize].wrap_symbol {
                    Some(w) => w,
                    None => unreached(),
                };
                let wrap_symbol_name = match self.get_symbol_final_name(wrap_symbol) {
                    Some(n) => n,
                    None => unreached(),
                };
                let text = if importee.exports_kind == ExportsKind::CommonJs {
                    wrap_call(wrap_symbol_name.as_str())
                } else {
                    let namespace_name = match self.get_symbol_final_name(
                        importee.namespace_symbol,
                    ) {
                        Some(n) => n,
                        None => unreached(),
                    };
                    let to_commonjs_runtime_symbol_name = self.get_runtime_symbol_final_name(
                        RuntimeHelper::ToCommonJs,
                    );
                    require_esm(
                        wrap_symbol_name.as_str(),
                        to_commonjs_runtime_symbol_name.as_str(),
                        namespace_name.as_str(),
                    )
                };
                proof {
                    lemma_edits_free_one(
                        self.original(),
                        self.edits(),
                        Edit::Replace {
                            start: expr.span.start,
                            end: expr.span.end,
                            text: text@,
                            clear: false,
                        },
                    );
                }
                self.issue_update(expr.span.start, expr.span.end, text, false);
            },
            Module::External(_) => {},
        }
    }
}

} // verus!
