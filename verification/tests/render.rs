use module_render::ast::BindingIdentifier;
use module_render::ast::CallExpression;
use module_render::ast::ExportAllDeclaration;
use module_render::ast::IdentifierReference;
use module_render::ast::ImportDeclaration;
use module_render::ast::ImportExpression;
use module_render::ast::Statement;
use module_render::graph::get_symbol_final_name;
use module_render::graph::Chunk;
use module_render::graph::ChunkGraph;
use module_render::graph::ExportsKind;
use module_render::graph::ExternalModule;
use module_render::graph::Graph;
use module_render::graph::ImportRecord;
use module_render::graph::LinkingInfo;
use module_render::graph::Module;
use module_render::graph::ModuleType;
use module_render::graph::NamespaceAlias;
use module_render::graph::NormalModule;
use module_render::graph::ResolvedExport;
use module_render::graph::Runtime;
use module_render::graph::RuntimeHelper;
use module_render::graph::Span;
use module_render::graph::Symbol;
use module_render::graph::Symbols;
use module_render::names::FinalNames;
use module_render::names::SymbolRef;
use module_render::renderer::RendererContext;
use module_render::snippets;

const IMPORTER: u32 = 0;
const CJS: u32 = 1;
const WRAPPED_ESM: u32 = 2;
const RUNTIME: u32 = 3;
const EXTERNAL: u32 = 4;
const PLAIN_ESM: u32 = 5;

fn sym(owner: u32, symbol: u32) -> SymbolRef {
    SymbolRef { owner, symbol }
}

fn span(start: u32, end: u32) -> Span {
    Span { start, end }
}

fn plain(owner: u32, symbol: u32) -> Symbol {
    Symbol { link: sym(owner, symbol), namespace_alias: None }
}

fn normal(id: u32, exports_kind: ExportsKind, module_type: ModuleType, namespace: u32) -> Module {
    Module::Normal(NormalModule {
        id,
        exports_kind,
        module_type,
        namespace_symbol: sym(id, namespace),
        default_export_symbol: None,
        imports: Vec::new(),
    })
}

fn linking(wrap: Option<SymbolRef>) -> LinkingInfo {
    LinkingInfo { wrap_symbol: wrap, resolved_exports: Vec::new() }
}

/// A program of six modules: the importer that is rendered, a CommonJS
/// module, a wrapped ESM module, the runtime, an external module and an ESM
/// module in a chunk of its own.
fn world(importer_type: ModuleType, imports: Vec<ImportRecord>) -> (Graph, FinalNames, ChunkGraph) {
    let alias = Symbol {
        link: sym(IMPORTER, 1),
        namespace_alias: Some(NamespaceAlias {
            namespace_ref: sym(CJS, 0),
            property_name: "a".to_string(),
        }),
    };
    let symbols = Symbols {
        tables: vec![
            vec![plain(IMPORTER, 0), alias, plain(IMPORTER, 2), plain(IMPORTER, 0)],
            vec![plain(CJS, 0), plain(CJS, 1)],
            vec![plain(WRAPPED_ESM, 0), plain(WRAPPED_ESM, 1)],
            vec![plain(RUNTIME, 0), plain(RUNTIME, 1), plain(RUNTIME, 2)],
            vec![],
            vec![plain(PLAIN_ESM, 0)],
        ],
        references_table: vec![
            vec![Some(0), Some(1), Some(1), None, Some(3)],
            vec![],
            vec![],
            vec![],
            vec![],
            vec![],
        ],
    };
    let importer = Module::Normal(NormalModule {
        id: IMPORTER,
        exports_kind: ExportsKind::Esm,
        module_type: importer_type,
        namespace_symbol: sym(IMPORTER, 2),
        default_export_symbol: Some(0),
        imports,
    });
    let mut importer_linking = linking(None);
    importer_linking.resolved_exports.push(ResolvedExport {
        exported_name: "foo".to_string(),
        symbol: sym(IMPORTER, 3),
    });
    importer_linking.resolved_exports.push(ResolvedExport {
        exported_name: "b".to_string(),
        symbol: sym(IMPORTER, 1),
    });
    let graph = Graph {
        symbols,
        modules: vec![
            importer,
            normal(CJS, ExportsKind::CommonJs, ModuleType::Cjs, 0),
            normal(WRAPPED_ESM, ExportsKind::Esm, ModuleType::Esm, 0),
            normal(RUNTIME, ExportsKind::Esm, ModuleType::Esm, 0),
            Module::External(ExternalModule { id: EXTERNAL }),
            normal(PLAIN_ESM, ExportsKind::Esm, ModuleType::Esm, 0),
        ],
        linking_infos: vec![
            importer_linking,
            linking(Some(sym(CJS, 1))),
            linking(Some(sym(WRAPPED_ESM, 1))),
            linking(None),
            linking(None),
            linking(None),
        ],
        runtime: Runtime { id: RUNTIME, to_esm: 0, to_commonjs: 1, re_export: 2 },
    };
    let mut names = FinalNames::new();
    names.insert(sym(IMPORTER, 0), "foo$1".to_string());
    names.insert(sym(IMPORTER, 2), "a_exports".to_string());
    names.insert(sym(CJS, 0), "ns".to_string());
    names.insert(sym(CJS, 1), "wrap".to_string());
    names.insert(sym(WRAPPED_ESM, 0), "esm_ns".to_string());
    names.insert(sym(WRAPPED_ESM, 1), "init_esm".to_string());
    names.insert(sym(RUNTIME, 0), "__toESM".to_string());
    names.insert(sym(RUNTIME, 1), "__toCommonJS".to_string());
    names.insert(sym(RUNTIME, 2), "__reExport".to_string());
    let chunk_graph = ChunkGraph {
        module_to_chunk: vec![Some(0), Some(0), Some(0), Some(0), None, Some(1)],
        chunks: vec![
            Chunk { file_name: Some("main.js".to_string()) },
            Chunk { file_name: Some("chunk-A.js".to_string()) },
        ],
    };
    (graph, names, chunk_graph)
}

fn importer(graph: &Graph) -> &NormalModule {
    match &graph.modules[0] {
        Module::Normal(m) => m,
        Module::External(_) => unreachable!(),
    }
}

fn session<'a>(
    graph: &'a Graph,
    names: &'a FinalNames,
    chunks: &'a ChunkGraph,
    source: &str,
) -> RendererContext<'a> {
    RendererContext::new(
        graph,
        names,
        source.to_string(),
        chunks,
        importer(graph),
        &graph.linking_infos[0],
    )
}

fn record(start: u32, end: u32, importee: u32) -> ImportRecord {
    ImportRecord { span: span(start, end), importee }
}

#[test]
fn final_names_are_found_by_symbol() {
    let mut names = FinalNames::new();
    assert!(names.get(sym(1, 2)).is_none());
    names.insert(sym(1, 2), "x".to_string());
    names.insert(sym(2, 1), "y".to_string());
    assert_eq!(names.get(sym(1, 2)).map(|s| s.as_str()), Some("x"));
    assert_eq!(names.get(sym(2, 1)).map(|s| s.as_str()), Some("y"));
    assert!(names.get(sym(1, 1)).is_none());
    names.insert(sym(1, 2), "z".to_string());
    assert_eq!(names.get(sym(1, 2)).map(|s| s.as_str()), Some("z"));
}

#[test]
fn packed_key_keeps_both_parts() {
    assert_eq!(sym(1, 2).packed(), 0x1_0000_0002);
    assert_eq!(sym(0, 7).packed(), 7);
    assert_eq!(sym(u32::MAX, u32::MAX).packed(), u64::MAX);
}

#[test]
fn final_name_goes_through_the_canonical_symbol() {
    let (graph, names, _) = world(ModuleType::Esm, vec![]);
    let name = get_symbol_final_name(sym(IMPORTER, 3), &graph.symbols, &names);
    assert_eq!(name.map(|s| s.as_str()), Some("foo$1"));
    assert!(get_symbol_final_name(sym(IMPORTER, 1), &graph.symbols, &names).is_none());
    assert_eq!(graph.symbols.par_get_canonical_ref(sym(IMPORTER, 3)), sym(IMPORTER, 0));
}

#[test]
fn import_sites_are_found_by_span() {
    let (graph, _, _) = world(ModuleType::Esm, vec![record(0, 5, CJS), record(7, 9, PLAIN_ESM)]);
    let module = importer(&graph);
    assert_eq!(module.find_import_module_by_span(span(0, 5)), Some(CJS));
    assert_eq!(module.get_import_module_by_span(span(7, 9)), PLAIN_ESM);
    assert_eq!(module.find_import_module_by_span(span(0, 9)), None);
}

#[test]
fn new_session_keeps_names_at_hand_and_renders_source() {
    let (graph, names, chunks) = world(ModuleType::Esm, vec![]);
    let ctx = session(&graph, &names, &chunks, "let x = 1;");
    assert_eq!(ctx.namespace_symbol_name.map(|s| s.as_str()), Some("a_exports"));
    assert_eq!(ctx.default_symbol_name.map(|s| s.as_str()), Some("foo$1"));
    assert!(ctx.wrap_symbol_name.is_none());
    assert!(ctx.first_stmt_start.is_none());
    assert_eq!(ctx.get_runtime_symbol_final_name(RuntimeHelper::ToEsm), "__toESM");
    assert_eq!(ctx.get_runtime_symbol_final_name(RuntimeHelper::ToCommonJs), "__toCommonJS");
    assert_eq!(ctx.get_runtime_symbol_final_name(RuntimeHelper::ReExport), "__reExport");
    assert_eq!(ctx.finish(), "let x = 1;");
}

#[test]
fn rendering_twice_gives_the_same_text() {
    let source = "import x from 'cjs';\nfoo(a);";
    let mut outputs = Vec::new();
    for _ in 0..2 {
        let (graph, names, chunks) = world(ModuleType::Esm, vec![record(0, 20, CJS)]);
        let mut ctx = session(&graph, &names, &chunks, source);
        ctx.visit_import_declaration(&ImportDeclaration { span: span(0, 20) });
        ctx.visit_identifier_reference(
            &IdentifierReference { span: span(21, 24), name: "foo".to_string(), reference_id: 0 },
            true,
        );
        ctx.visit_identifier_reference(
            &IdentifierReference { span: span(25, 26), name: "a".to_string(), reference_id: 1 },
            false,
        );
        outputs.push(ctx.finish());
    }
    assert_eq!(outputs[0], outputs[1]);
    assert_eq!(outputs[0], "var ns = __toESM(wrap(), 1);\n\nfoo$1(ns.a);");
}

#[test]
fn overwrite_remove_and_rename_edit_the_original_ranges() {
    let (graph, names, chunks) = world(ModuleType::Esm, vec![]);
    let mut ctx = session(&graph, &names, &chunks, "0123456789");
    ctx.overwrite(2, 4, "ab".to_string());
    ctx.remove_node(span(6, 8));
    ctx.rename_symbol(span(9, 10), "z".to_string());
    assert_eq!(ctx.finish(), "01ab458z");
}

#[test]
fn renamed_symbol_has_one_spelling_everywhere() {
    let (graph, names, chunks) = world(ModuleType::Esm, vec![]);
    let mut ctx = session(&graph, &names, &chunks, "let foo = 1; foo; fo0;");
    ctx.visit_binding_identifier(
        &BindingIdentifier { span: span(4, 7), name: "foo".to_string(), symbol_id: 0 },
    );
    ctx.visit_identifier_reference(
        &IdentifierReference { span: span(13, 16), name: "foo".to_string(), reference_id: 0 },
        false,
    );
    ctx.visit_identifier_reference(
        &IdentifierReference { span: span(18, 21), name: "fo0".to_string(), reference_id: 4 },
        false,
    );
    assert_eq!(ctx.finish(), "let foo$1 = 1; foo$1; foo$1;");
}

#[test]
fn binding_with_its_final_spelling_is_left_alone() {
    let (graph, names, chunks) = world(ModuleType::Esm, vec![]);
    let mut ctx = session(&graph, &names, &chunks, "let foo$1 = 1; x;");
    ctx.visit_binding_identifier(
        &BindingIdentifier { span: span(4, 9), name: "foo$1".to_string(), symbol_id: 0 },
    );
    ctx.visit_binding_identifier(
        &BindingIdentifier { span: span(15, 16), name: "x".to_string(), symbol_id: 1 },
    );
    assert_eq!(ctx.finish(), "let foo$1 = 1; x;");
}

#[test]
fn global_reference_is_left_alone() {
    let (graph, names, chunks) = world(ModuleType::Esm, vec![]);
    let mut ctx = session(&graph, &names, &chunks, "console.log(1)");
    ctx.visit_identifier_reference(
        &IdentifierReference { span: span(0, 7), name: "console".to_string(), reference_id: 3 },
        false,
    );
    assert_eq!(ctx.finish(), "console.log(1)");
}

#[test]
fn namespace_alias_is_read_as_property_and_wrapped_in_calls() {
    let (graph, names, chunks) = world(ModuleType::Esm, vec![]);
    let mut ctx = session(&graph, &names, &chunks, "a; a();");
    ctx.visit_identifier_reference(
        &IdentifierReference { span: span(0, 1), name: "a".to_string(), reference_id: 1 },
        false,
    );
    ctx.visit_identifier_reference(
        &IdentifierReference { span: span(3, 4), name: "a".to_string(), reference_id: 2 },
        true,
    );
    assert_eq!(ctx.finish(), "ns.a; (0, ns.a)();");
}

#[test]
fn commonjs_import_is_elided_and_initialized_with_flag_for_esm_importer() {
    let (graph, names, chunks) = world(ModuleType::Esm, vec![record(0, 20, CJS)]);
    let mut ctx = session(&graph, &names, &chunks, "import x from 'cjs';go();");
    ctx.visit_import_declaration(&ImportDeclaration { span: span(0, 20) });
    let out = ctx.finish();
    assert_eq!(out, "var ns = __toESM(wrap(), 1);\ngo();");
    assert!(!out.contains("import"));
    assert_eq!(out.matches("__toESM(wrap(), 1)").count(), 1);
}

#[test]
fn commonjs_import_has_no_flag_for_commonjs_importer() {
    let (graph, names, chunks) = world(ModuleType::Cjs, vec![record(0, 20, CJS)]);
    let mut ctx = session(&graph, &names, &chunks, "import x from 'cjs';go();");
    ctx.visit_import_declaration(&ImportDeclaration { span: span(0, 20) });
    let out = ctx.finish();
    assert_eq!(out, "var ns = __toESM(wrap());\ngo();");
    assert_eq!(out.matches("__toESM(wrap())").count(), 1);
}

#[test]
fn plain_esm_import_is_elided_without_insertion() {
    let (graph, names, chunks) = world(
        ModuleType::Esm,
        vec![record(0, 18, PLAIN_ESM), record(18, 36, EXTERNAL)],
    );
    let mut ctx = session(&graph, &names, &chunks, "import x from 'p';import y from 'e';go();");
    ctx.visit_import_declaration(&ImportDeclaration { span: span(0, 18) });
    ctx.visit_import_declaration(&ImportDeclaration { span: span(18, 36) });
    assert_eq!(ctx.finish(), "go();");
}

#[test]
fn import_initializer_goes_to_the_hoist_point() {
    let source = "function f(){}\nimport 'x';\nlet y = 1;";
    let (graph, names, chunks) = world(ModuleType::Esm, vec![record(15, 26, WRAPPED_ESM)]);
    let mut ctx = session(&graph, &names, &chunks, source);
    ctx.visit_statement(&Statement { span: span(0, 14), is_declaration: true });
    assert!(ctx.first_stmt_start.is_none());
    ctx.visit_statement(&Statement { span: span(15, 26), is_declaration: false });
    ctx.visit_import_declaration(&ImportDeclaration { span: span(15, 26) });
    ctx.visit_statement(&Statement { span: span(27, 37), is_declaration: true });
    assert_eq!(ctx.first_stmt_start, Some(15));
    assert_eq!(ctx.finish(), "function f(){}\ninit_esm();\n\nlet y = 1;");
}

#[test]
fn hoist_point_is_the_first_statement_that_is_no_declaration() {
    let source = "go();\nstop();\nimport 'x';";
    let (graph, names, chunks) = world(ModuleType::Esm, vec![record(14, 25, WRAPPED_ESM)]);
    let mut ctx = session(&graph, &names, &chunks, source);
    ctx.visit_statement(&Statement { span: span(0, 5), is_declaration: false });
    ctx.visit_statement(&Statement { span: span(6, 13), is_declaration: false });
    assert_eq!(ctx.first_stmt_start, Some(0));
    ctx.visit_import_declaration(&ImportDeclaration { span: span(14, 25) });
    assert_eq!(ctx.finish(), "init_esm();\ngo();\nstop();\n");
}

#[test]
fn initializers_at_one_point_keep_import_order() {
    let source = "go();import 'c';import 'x';";
    let (graph, names, chunks) = world(
        ModuleType::Esm,
        vec![record(5, 16, CJS), record(16, 27, WRAPPED_ESM)],
    );
    let mut ctx = session(&graph, &names, &chunks, source);
    ctx.visit_statement(&Statement { span: span(0, 5), is_declaration: false });
    ctx.visit_import_declaration(&ImportDeclaration { span: span(5, 16) });
    ctx.visit_import_declaration(&ImportDeclaration { span: span(16, 27) });
    assert_eq!(ctx.finish(), "var ns = __toESM(wrap(), 1);\ninit_esm();\ngo();");
}

#[test]
fn require_of_esm_runs_it_and_converts_its_namespace() {
    let source = "require('esm-target')";
    let (graph, names, chunks) = world(ModuleType::Cjs, vec![record(0, 21, WRAPPED_ESM)]);
    let mut ctx = session(&graph, &names, &chunks, source);
    ctx.visit_call_expression(
        &CallExpression { span: span(0, 21), callee: Some("require".to_string()) },
    );
    assert_eq!(ctx.finish(), "(init_esm(), __toCommonJS(esm_ns))");
}

#[test]
fn require_of_commonjs_calls_its_initializer() {
    let source = "x = require('cjs');";
    let (graph, names, chunks) = world(ModuleType::Cjs, vec![record(4, 18, CJS)]);
    let mut ctx = session(&graph, &names, &chunks, source);
    ctx.visit_call_expression(
        &CallExpression { span: span(4, 18), callee: Some("require".to_string()) },
    );
    assert_eq!(ctx.finish(), "x = wrap();");
}

#[test]
fn other_calls_and_external_requires_stay() {
    let source = "f(1); require('ext'); (g)();";
    let (graph, names, chunks) = world(ModuleType::Cjs, vec![record(6, 20, EXTERNAL)]);
    let mut ctx = session(&graph, &names, &chunks, source);
    ctx.visit_call_expression(&CallExpression { span: span(0, 4), callee: Some("f".to_string()) });
    ctx.visit_call_expression(
        &CallExpression { span: span(6, 20), callee: Some("require".to_string()) },
    );
    ctx.visit_call_expression(&CallExpression { span: span(22, 27), callee: None });
    assert_eq!(ctx.finish(), source);
}

#[test]
fn dynamic_import_of_bundled_module_names_its_chunk() {
    let source = "import('./x')";
    let (graph, names, chunks) = world(ModuleType::Esm, vec![record(0, 13, PLAIN_ESM)]);
    let mut ctx = session(&graph, &names, &chunks, source);
    ctx.visit_import_expression(&ImportExpression { span: span(0, 13), source: Some(span(7, 12)) });
    assert_eq!(ctx.finish(), "import('./chunk-A.js')");
}

#[test]
fn dynamic_import_of_external_module_stays() {
    let source = "import('./x'); import(y)";
    let (graph, names, chunks) = world(ModuleType::Esm, vec![record(0, 13, EXTERNAL)]);
    let mut ctx = session(&graph, &names, &chunks, source);
    ctx.visit_import_expression(&ImportExpression { span: span(0, 13), source: Some(span(7, 12)) });
    ctx.visit_import_expression(&ImportExpression { span: span(15, 24), source: None });
    assert_eq!(ctx.finish(), source);
}

#[test]
fn export_all_from_commonjs_is_one_re_export_call() {
    let source = "export * from 'cjs-mod';";
    let (graph, names, chunks) = world(ModuleType::Unknown, vec![record(0, 24, CJS)]);
    let mut ctx = session(&graph, &names, &chunks, source);
    ctx.visit_export_all_declaration(&ExportAllDeclaration { span: span(0, 24) });
    let out = ctx.finish();
    assert_eq!(out, "__reExport(a_exports, __toESM(wrap()));");
    assert_eq!(out.matches("__reExport(").count(), 1);
    assert!(!out.contains("var "));
}

#[test]
fn export_all_from_esm_is_removed() {
    let source = "export * from 'p';go();";
    let (graph, names, chunks) = world(ModuleType::Esm, vec![record(0, 18, PLAIN_ESM)]);
    let mut ctx = session(&graph, &names, &chunks, source);
    ctx.visit_export_all_declaration(&ExportAllDeclaration { span: span(0, 18) });
    assert_eq!(ctx.finish(), "go();");
}

#[test]
fn commonjs_import_expression_with_and_without_namespace() {
    let (graph, names, chunks) = world(ModuleType::Esm, vec![]);
    let ctx = session(&graph, &names, &chunks, "");
    let importee = match &graph.modules[1] {
        Module::Normal(m) => m,
        Module::External(_) => unreachable!(),
    };
    assert_eq!(
        ctx.generate_import_commonjs_module(importee, &graph.linking_infos[1], true),
        "var ns = __toESM(wrap(), 1);\n"
    );
    assert_eq!(
        ctx.generate_import_commonjs_module(importee, &graph.linking_infos[1], false),
        "__toESM(wrap(), 1)"
    );
}

#[test]
fn namespace_object_has_one_getter_for_each_export_in_order() {
    let (graph, names, chunks) = world(ModuleType::Esm, vec![]);
    let ctx = session(&graph, &names, &chunks, "");
    assert_eq!(
        ctx.generate_namespace_variable_declaration().as_deref(),
        Some("var a_exports = {\n  get foo() { return foo$1 },\n  get b() { return ns.a }\n};\n")
    );
}

#[test]
fn module_without_namespace_name_has_no_namespace_object() {
    let (graph, names, chunks) = world(ModuleType::Esm, vec![]);
    let module = match &graph.modules[5] {
        Module::Normal(m) => m,
        Module::External(_) => unreachable!(),
    };
    let ctx = RendererContext::new(
        &graph,
        &names,
        String::new(),
        &chunks,
        module,
        &graph.linking_infos[5],
    );
    assert!(ctx.namespace_symbol_name.is_none());
    assert!(ctx.generate_namespace_variable_declaration().is_none());
}

#[test]
fn importee_is_found_by_span() {
    let (graph, names, chunks) = world(ModuleType::Esm, vec![record(0, 5, EXTERNAL), record(5, 9, CJS)]);
    let ctx = session(&graph, &names, &chunks, "");
    assert!(matches!(ctx.get_importee_by_span(span(0, 5)), Module::External(e) if e.id == EXTERNAL));
    assert!(matches!(ctx.get_importee_by_span(span(5, 9)), Module::Normal(n) if n.id == CJS));
}

#[test]
fn snippets_have_their_exact_text() {
    assert_eq!(snippets::member("ns", "a"), "ns.a");
    assert_eq!(snippets::indirect_member("ns", "a"), "(0, ns.a)");
    assert_eq!(snippets::getter("x", "y"), "  get x() { return y }");
    assert_eq!(snippets::namespace_object("n", "G"), "var n = {\nG\n};\n");
    assert_eq!(snippets::to_esm_call("t", "w", true), "t(w(), 1)");
    assert_eq!(snippets::to_esm_call("t", "w", false), "t(w())");
    assert_eq!(snippets::namespace_init("n", "v"), "var n = v;\n");
    assert_eq!(snippets::re_export_call("r", "n", "v"), "r(n, v);");
    assert_eq!(snippets::chunk_specifier("c.js"), "'./c.js'");
    assert_eq!(snippets::wrap_statement("w"), "w();\n");
    assert_eq!(snippets::wrap_call("w"), "w()");
    assert_eq!(snippets::require_esm("w", "t", "n"), "(w(), t(n))");
}

#[test]
fn module_type_knows_esm() {
    assert!(ModuleType::Esm.is_esm());
    assert!(!ModuleType::Cjs.is_esm());
    assert!(!ModuleType::Unknown.is_esm());
}

#[test]
fn cut_points_are_character_boundaries() {
    assert!(module_render::buffer::is_cut_point("aé", 0));
    assert!(module_render::buffer::is_cut_point("aé", 1));
    assert!(!module_render::buffer::is_cut_point("aé", 2));
    assert!(module_render::buffer::is_cut_point("aé", 3));
    assert!(!module_render::buffer::is_cut_point("aé", 4));
}

#[test]
fn ranges_and_positions_are_held_against_spans() {
    let spans = vec![span(2, 4), span(8, 10)];
    assert!(module_render::buffer::range_misses_spans(&spans, 4, 8));
    assert!(module_render::buffer::range_misses_spans(&spans, 0, 2));
    assert!(!module_render::buffer::range_misses_spans(&spans, 3, 5));
    assert!(!module_render::buffer::range_misses_spans(&spans, 0, 12));
    assert!(module_render::buffer::position_misses_spans(&spans, 2));
    assert!(module_render::buffer::position_misses_spans(&spans, 4));
    assert!(!module_render::buffer::position_misses_spans(&spans, 3));
    assert!(!module_render::buffer::position_misses_spans(&spans, 9));
}

#[test]
fn text_beyond_ascii_is_rendered_around_edits() {
    let (graph, names, chunks) = world(ModuleType::Esm, vec![]);
    let mut ctx = session(&graph, &names, &chunks, "é = foo;");
    ctx.visit_identifier_reference(
        &IdentifierReference { span: span(5, 8), name: "foo".to_string(), reference_id: 0 },
        false,
    );
    assert_eq!(ctx.finish(), "é = foo$1;");
}

#[test]
fn well_formed_inputs_are_recognized() {
    let (graph, names, chunks) = world(ModuleType::Esm, vec![record(0, 5, CJS)]);
    assert!(graph.symbols.is_wf());
    assert!(graph.is_wf());
    assert!(graph.is_normal_wf(importer(&graph)));
    assert!(graph.is_linking_wf(&graph.linking_infos[0]));
    assert!(chunks.is_wf(graph.modules.len()));
    assert!(!chunks.is_wf(5));
    assert!(graph.symbols.contains(sym(RUNTIME, 2)));
    assert!(!graph.symbols.contains(sym(RUNTIME, 3)));
    assert!(!graph.symbols.contains(sym(6, 0)));
    let ctx = RendererContext::try_new(
        &graph,
        &names,
        "x".to_string(),
        &chunks,
        importer(&graph),
        &graph.linking_infos[0],
    );
    assert_eq!(ctx.map(|c| c.finish()), Some("x".to_string()));
}

#[test]
fn ill_formed_inputs_are_refused() {
    let (mut graph, names, mut chunks) = world(ModuleType::Esm, vec![record(0, 5, 6)]);
    assert!(!graph.is_wf());
    assert!(!graph.is_normal_wf(importer(&graph)));
    assert!(graph.symbols.is_wf());
    assert!(RendererContext::try_new(
        &graph,
        &names,
        String::new(),
        &chunks,
        importer(&graph),
        &graph.linking_infos[0],
    )
    .is_none());
    graph.symbols.tables[1][0].link = sym(1, 9);
    assert!(!graph.symbols.is_wf());
    graph.symbols.tables[1][0].link = sym(1, 0);
    graph.symbols.references_table[0][0] = Some(17);
    assert!(!graph.symbols.is_wf());
    let bad = linking(Some(sym(9, 9)));
    assert!(!graph.is_linking_wf(&bad));
    chunks.chunks[1].file_name = None;
    assert!(!chunks.is_wf(6));
    chunks.module_to_chunk[5] = Some(7);
    assert!(!chunks.is_wf(6));
}

#[test]
fn session_tells_what_it_can_still_edit() {
    let (graph, names, chunks) = world(ModuleType::Esm, vec![]);
    let mut ctx = session(&graph, &names, &chunks, "aé23456789");
    assert!(ctx.can_replace(0, 1));
    assert!(!ctx.can_replace(1, 2));
    assert!(!ctx.can_replace(4, 4));
    assert!(!ctx.can_replace(5, 4));
    assert!(!ctx.can_replace(9, 12));
    assert!(ctx.can_insert(11));
    assert!(!ctx.can_insert(12));
    ctx.overwrite(4, 8, "x".to_string());
    assert!(!ctx.can_replace(3, 5));
    assert!(!ctx.can_replace(5, 6));
    assert!(ctx.can_replace(8, 9));
    assert!(ctx.can_replace(3, 4));
    assert!(ctx.can_insert(4));
    assert!(ctx.can_insert(8));
    assert!(!ctx.can_insert(6));
    assert!(!ctx.can_insert(2));
    assert_eq!(ctx.touched, vec![span(4, 8)]);
    assert_eq!(ctx.finish(), "aé2x789");
}

#[test]
fn checked_visits_do_what_the_visits_do() {
    let source = "import x from 'cjs';\nfoo(a);import('./x');require('e');export * from 'p';";
    let (graph, names, chunks) = world(
        ModuleType::Esm,
        vec![
            record(0, 20, CJS),
            record(28, 41, PLAIN_ESM),
            record(42, 54, WRAPPED_ESM),
            record(55, 73, PLAIN_ESM),
        ],
    );
    let mut ctx = session(&graph, &names, &chunks, source);
    assert!(ctx.try_visit_import_declaration(&ImportDeclaration { span: span(0, 20) }));
    assert!(ctx.try_visit_identifier_reference(
        &IdentifierReference { span: span(21, 24), name: "foo".to_string(), reference_id: 0 },
        true,
    ));
    assert!(ctx.try_visit_identifier_reference(
        &IdentifierReference { span: span(25, 26), name: "a".to_string(), reference_id: 1 },
        false,
    ));
    assert!(ctx.try_visit_import_expression(
        &ImportExpression { span: span(28, 41), source: Some(span(35, 40)) },
    ));
    assert!(ctx.try_visit_call_expression(
        &CallExpression { span: span(42, 54), callee: Some("require".to_string()) },
    ));
    assert!(ctx.try_visit_export_all_declaration(&ExportAllDeclaration { span: span(55, 73) }));
    assert!(ctx.are_exports_ready());
    assert_eq!(
        ctx.finish(),
        "var ns = __toESM(wrap(), 1);\n\nfoo$1(ns.a);import('./chunk-A.js');(init_esm(), __toCommonJS(esm_ns));"
    );
}

#[test]
fn checked_visits_refuse_what_cannot_be_rendered() {
    let source = "import x from 'cjs';foo;";
    let (graph, names, chunks) = world(ModuleType::Esm, vec![record(0, 20, CJS)]);
    let mut ctx = session(&graph, &names, &chunks, source);
    assert!(!ctx.try_visit_import_declaration(&ImportDeclaration { span: span(1, 20) }));
    assert!(!ctx.try_visit_export_all_declaration(&ExportAllDeclaration { span: span(0, 21) }));
    assert!(!ctx.try_visit_import_expression(
        &ImportExpression { span: span(0, 5), source: Some(span(1, 2)) },
    ));
    assert!(!ctx.try_visit_call_expression(
        &CallExpression { span: span(3, 9), callee: Some("require".to_string()) },
    ));
    assert!(!ctx.try_visit_binding_identifier(
        &BindingIdentifier { span: span(20, 23), name: "foo".to_string(), symbol_id: 9 },
    ));
    assert!(!ctx.try_visit_identifier_reference(
        &IdentifierReference { span: span(20, 23), name: "foo".to_string(), reference_id: 9 },
        false,
    ));
    assert!(ctx.try_visit_import_declaration(&ImportDeclaration { span: span(0, 20) }));
    assert!(!ctx.try_visit_import_declaration(&ImportDeclaration { span: span(0, 20) }));
    assert!(!ctx.try_visit_binding_identifier(
        &BindingIdentifier { span: span(18, 21), name: "foo".to_string(), symbol_id: 0 },
    ));
    assert!(!ctx.try_visit_binding_identifier(
        &BindingIdentifier { span: span(23, 23), name: "foo".to_string(), symbol_id: 0 },
    ));
    assert!(ctx.try_visit_binding_identifier(
        &BindingIdentifier { span: span(20, 23), name: "foo".to_string(), symbol_id: 0 },
    ));
    assert_eq!(ctx.finish(), "var ns = __toESM(wrap(), 1);\nfoo$1;");
}
