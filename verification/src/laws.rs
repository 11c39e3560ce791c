//! What holds of rendering as a whole.

use crate::ast::CallExpression;
use crate::ast::IdentifierReference;
use crate::ast::ImportExpression;
use crate::ast::Statement;
use crate::buffer::Edit;
use crate::graph::ExportsKind;
use crate::graph::Module;
use crate::graph::ModuleType;
use crate::graph::RuntimeHelper;
use crate::graph::Span;
use crate::names::SymbolRef;
use crate::renderer::RendererContext;
use crate::snippets::namespace_init_text;
use crate::snippets::re_export_text;
use crate::snippets::to_esm_text;
use vstd::prelude::*;

verus! {

/// The text at an occurrence spelled `spelling` once `edits`, the edits of
/// its visit, are applied.
pub open spec fn occurrence_after(edits: Seq<Edit>, spelling: Seq<char>) -> Seq<char> {
    if edits.len() == 0 {
        spelling
    } else {
        match edits[0] {
            Edit::Replace { text, .. } => text,
            _ => spelling,
        }
    }
}

/// Rendering is determined by its inputs: two sessions with the same text
/// and the same edits render to the same text, and two sessions with the
/// same inputs and hoist point issue the same edits at every site.
pub proof fn law_rendering_is_determined(
    a: RendererContext,
    b: RendererContext,
    span: Span,
    symbol: SymbolRef,
    spelling: Seq<char>,
    reference: IdentifierReference,
    is_call: bool,
    import: ImportExpression,
    call: CallExpression,
)
    requires
        a.same_inputs(&b),
        a.first_stmt_start == b.first_stmt_start,
    ensures
        a.edits() == b.edits() ==> a.output() == b.output(),
        a.rename_edits(symbol, span, spelling) == b.rename_edits(symbol, span, spelling),
        a.reference_edits(reference, is_call) == b.reference_edits(reference, is_call),
        a.import_declaration_edits(span) == b.import_declaration_edits(span),
        a.export_all_edits(span) == b.export_all_edits(span),
        a.import_expression_edits(import) == b.import_expression_edits(import),
        a.call_edits(call) == b.call_edits(call),
        a.namespace_declaration_text() == b.namespace_declaration_text(),
{
    let n = a.linking_info.resolved_exports@.len() as int;
    assert(a.export_lines(n) =~= b.export_lines(n));
}

/// Every occurrence of a symbol that has a final name reads that name once
/// visited, whatever it was spelled; so two occurrences of symbols with one
/// canonical symbol are never left with two spellings.
pub proof fn law_rename_complete(
    ctx: RendererContext,
    first: SymbolRef,
    first_span: Span,
    first_spelling: Seq<char>,
    second: SymbolRef,
    second_span: Span,
    second_spelling: Seq<char>,
)
    requires
        ctx.name_of(first) is Some,
        ctx.graph.symbols.canonical(first) == ctx.graph.symbols.canonical(second),
    ensures
        occurrence_after(ctx.rename_edits(first, first_span, first_spelling), first_spelling)
            == ctx.name_of(first)->0,
        occurrence_after(ctx.rename_edits(second, second_span, second_spelling), second_spelling)
            == ctx.name_of(first)->0,
        first_spelling != ctx.name_of(first)->0 ==> ctx.rename_edits(
            first,
            first_span,
            first_spelling,
        ) == seq![
            Edit::Replace {
                start: first_span.start,
                end: first_span.end,
                text: ctx.name_of(first)->0,
                clear: true,
            },
        ],
{
}

/// The hoist point is set once: declarations do not set it, the first
/// other statement sets it to its own start, and no later statement moves
/// it.
pub proof fn law_hoist_point_is_stable(first: Option<u32>, stmt: Statement, later: Statement)
    ensures
        first is Some ==> RendererContext::hoist_after(first, stmt) == first,
        first is None && stmt.is_declaration ==> RendererContext::hoist_after(first, stmt) is None,
        first is None && !stmt.is_declaration ==> RendererContext::hoist_after(first, stmt) == Some(
            stmt.span.start,
        ),
        RendererContext::hoist_after(first, stmt) is Some ==> RendererContext::hoist_after(
            RendererContext::hoist_after(first, stmt),
            later,
        ) == RendererContext::hoist_after(first, stmt),
{
}

/// Issuing edits keeps a session well formed.
pub proof fn law_edits_keep_session(before: RendererContext, after: RendererContext, added: Seq<Edit>)
    requires
        before.wf(),
        after.after(&before, added),
    ensures
        after.wf(),
{
}

/// The visit of an import declaration removes the declaration and inserts
/// at most one text, at the hoist point. For a CommonJS importee it inserts
/// exactly one: the importee's converted exports bound to its namespace
/// name, with the flag `, 1` if and only if the importer is ESM.
pub proof fn law_import_elision(ctx: RendererContext, span: Span)
    requires
        ctx.wf(),
        ctx.import_declaration_ready(span),
    ensures
        ({
            let edits = ctx.import_declaration_edits(span);
            &&& 1 <= edits.len() <= 2
            &&& edits[0] == Edit::Remove { start: span.start, end: span.end }
            &&& edits.len() == 2 ==> edits[1] is Insert && edits[1]->at == ctx.hoist_point(span)
            &&& match ctx.importee_at(span) {
                Module::Normal(importee) => importee.exports_kind == ExportsKind::CommonJs ==> {
                    &&& edits.len() == 2
                    &&& edits[1]->Insert_text == namespace_init_text(
                        ctx.name_of(importee.namespace_symbol)->0,
                        to_esm_text(
                            ctx.runtime_name(RuntimeHelper::ToEsm)->0,
                            ctx.name_of(
                                ctx.graph.linking_infos@[importee.id as int].wrap_symbol->0,
                            )->0,
                            ctx.module.module_type == ModuleType::Esm,
                        ),
                    )
                },
                Module::External(_) => edits.len() == 1,
            }
        }),
{
}

/// `export * from` a CommonJS module becomes one call of the re-export
/// helper whose second argument is the importee's converted exports, with
/// no binding of a namespace name in it.
pub proof fn law_export_all_commonjs(ctx: RendererContext, span: Span)
    requires
        ctx.wf(),
        ctx.export_all_ready(span),
        ctx.importee_at(span) is Normal,
        ctx.importee_at(span)->Normal_0.exports_kind == ExportsKind::CommonJs,
    ensures
        ({
            let importee = ctx.importee_at(span)->Normal_0;
            ctx.export_all_edits(span) == seq![
                Edit::Replace {
                    start: span.start,
                    end: span.end,
                    text: re_export_text(
                        ctx.runtime_name(RuntimeHelper::ReExport)->0,
                        ctx.namespace_symbol_name->0@,
                        to_esm_text(
                            ctx.runtime_name(RuntimeHelper::ToEsm)->0,
                            ctx.name_of(
                                ctx.graph.linking_infos@[importee.id as int].wrap_symbol->0,
                            )->0,
                            ctx.module.module_type == ModuleType::Esm,
                        ),
                    ),
                    clear: false,
                },
            ]
        }),
{
}

} // verus!
