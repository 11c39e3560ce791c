//! The frozen inputs of rendering: symbols, modules, linking results and
//! chunk assignment.

use crate::names::FinalNames;
use crate::names::SymbolRef;
use vstd::prelude::*;

verus! {

/// A byte range of a module's original text.
#[derive(Clone, Copy, Debug, PartialEq, Eq, Structural)]
pub struct Span {
    pub start: u32,
    pub end: u32,
}

/// How a module exposes its exports.
#[derive(Clone, Copy, Debug, PartialEq, Eq, Structural)]
pub enum ExportsKind {
    Esm,
    CommonJs,
    Unknown,
}

/// What a module's own source is written as.
#[derive(Clone, Copy, Debug, PartialEq, Eq, Structural)]
pub enum ModuleType {
    Unknown,
    Cjs,
    Esm,
}

impl ModuleType {
    pub fn is_esm(&self) -> (b: bool)
        ensures
            b == (*self == ModuleType::Esm),
    {
        match self {
            ModuleType::Esm => true,
            _ => false,
        }
    }
}

/// The runtime's interop helpers.
#[derive(Clone, Copy, Debug, PartialEq, Eq, Structural)]
pub enum RuntimeHelper {
    ToEsm,
    ToCommonJs,
    ReExport,
}

/// Marks a binding that is no variable of its own: each use reads
/// `property_name` of the object that `namespace_ref` names.
pub struct NamespaceAlias {
    pub namespace_ref: SymbolRef,
    pub property_name: String,
}

pub struct Symbol {
    /// The canonical symbol that this one resolves to.
    pub link: SymbolRef,
    pub namespace_alias: Option<NamespaceAlias>,
}

/// The program's symbols, by module and index, and for each module the
/// symbol, if any, that each of its references resolves to.
pub struct Symbols {
    pub tables: Vec<Vec<Symbol>>,
    pub references_table: Vec<Vec<Option<u32>>>,
}

impl Symbols {
    pub open spec fn has(&self, s: SymbolRef) -> bool {
        s.owner < self.tables@.len() && s.symbol < self.tables@[s.owner as int]@.len()
    }

    pub open spec fn symbol(&self, s: SymbolRef) -> Symbol {
        self.tables@[s.owner as int]@[s.symbol as int]
    }

    pub open spec fn canonical(&self, s: SymbolRef) -> SymbolRef {
        self.symbol(s).link
    }

    pub open spec fn has_reference(&self, module: u32, reference: u32) -> bool {
        module < self.references_table@.len() && reference
            < self.references_table@[module as int]@.len()
    }

    pub open spec fn reference(&self, module: u32, reference: u32) -> Option<u32> {
        self.references_table@[module as int]@[reference as int]
    }

    /// Canonical symbols, alias targets and resolved references are symbols
    /// of the table.
    pub open spec fn wf(&self) -> bool {
        &&& forall|s: SymbolRef| self.has(s) ==> self.has(#[trigger] self.canonical(s))
        &&& forall|s: SymbolRef|
            self.has(s) ==> match (#[trigger] self.symbol(s)).namespace_alias {
                Some(alias) => self.has(alias.namespace_ref),
                None => true,
            }
        &&& forall|m: u32, r: u32| #[trigger]
            self.has_reference(m, r) ==> match self.reference(m, r) {
                Some(id) => self.has(SymbolRef { owner: m, symbol: id }),
                None => true,
            }
    }

    /// What `wf` asks of the symbol `s`.
    pub open spec fn symbol_wf(&self, s: SymbolRef) -> bool {
        &&& self.has(self.canonical(s))
        &&& match self.symbol(s).namespace_alias {
            Some(alias) => self.has(alias.namespace_ref),
            None => true,
        }
    }

    /// What `wf` asks of the reference `r` of module `m`.
    pub open spec fn reference_wf(&self, m: u32, r: u32) -> bool {
        match self.reference(m, r) {
            Some(id) => self.has(SymbolRef { owner: m, symbol: id }),
            None => true,
        }
    }

    /// Whether `s` is a symbol of the table.
    pub fn contains(&self, s: SymbolRef) -> (ok: bool)
        ensures
            ok == self.has(s),
    {
        (s.owner as usize) < self.tables.len() && (s.symbol as usize) < self.tables[s.owner
            as usize].len()
    }

    /// Whether the table is well formed.
    pub fn is_wf(&self) -> (ok: bool)
        ensures
            ok == self.wf(),
    {
        let mut i: usize = 0;
        while i < self.tables.len() && i <= 0xffff_ffff
            invariant
                i <= self.tables@.len(),
                forall|s: SymbolRef| #[trigger] self.has(s) && s.owner < i ==> self.symbol_wf(s),
            decreases self.tables@.len() - i,
        {
            let mut j: usize = 0;
            while j < self.tables[i].len() && j <= 0xffff_ffff
                invariant
                    i < self.tables@.len(),
                    i <= 0xffff_ffff,
                    j <= self.tables@[i as int]@.len(),
                    forall|s: SymbolRef| #[trigger] self.has(s) && s.owner < i ==> self.symbol_wf(s),
                    forall|s: SymbolRef| #[trigger]
                        self.has(s) && s.owner == i && s.symbol < j ==> self.symbol_wf(s),
                decreases self.tables@[i as int]@.len() - j,
            {
                let ghost s = SymbolRef { owner: i as u32, symbol: j as u32 };
                let symbol = &self.tables[i][j];
                let alias_ok = match &symbol.namespace_alias {
                    Some(alias) => self.contains(alias.namespace_ref),
                    None => true,
                };
                proof {
                    assert(self.has(s));
                    assert(symbol.link == self.canonical(s));
                    assert(*symbol == self.symbol(s));
                }
                if !self.contains(symbol.link) || !alias_ok {
                    return false;
                }
                j += 1;
            }
            i += 1;
        }
        let mut m: usize = 0;
        while m < self.references_table.len() && m <= 0xffff_ffff
            invariant
                m <= self.references_table@.len(),
                forall|s: SymbolRef| #[trigger] self.has(s) ==> self.symbol_wf(s),
                forall|a: u32, r: u32| #[trigger]
                    self.has_reference(a, r) && a < m ==> self.reference_wf(a, r),
            decreases self.references_table@.len() - m,
        {
            let mut r: usize = 0;
            while r < self.references_table[m].len() && r <= 0xffff_ffff
                invariant
                    m < self.references_table@.len(),
                    m <= 0xffff_ffff,
                    r <= self.references_table@[m as int]@.len(),
                    forall|s: SymbolRef| #[trigger] self.has(s) ==> self.symbol_wf(s),
                    forall|a: u32, b: u32| #[trigger]
                        self.has_reference(a, b) && a < m ==> self.reference_wf(a, b),
                    forall|a: u32, b: u32| #[trigger]
                        self.has_reference(a, b) && a == m && b < r ==> self.reference_wf(a, b),
                decreases self.references_table@[m as int]@.len() - r,
            {
                proof {
                    assert(self.has_reference(m as u32, r as u32));
                }
                match self.references_table[m][r] {
                    Some(id) => {
                        if !self.contains(SymbolRef { owner: m as u32, symbol: id }) {
                            return false;
                        }
                    },
                    None => {},
                }
                r += 1;
            }
            m += 1;
        }
        true
    }

    pub fn get(&self, s: SymbolRef) -> (symbol: &Symbol)
        requires
            self.has(s),
        ensures
            *symbol == self.symbol(s),
    {
        &self.tables[s.owner as usize][s.symbol as usize]
    }

    pub fn par_get_canonical_ref(&self, s: SymbolRef) -> (c: SymbolRef)
        requires
            self.has(s),
        ensures
            c == self.canonical(s),
    {
        self.tables[s.owner as usize][s.symbol as usize].link
    }

    pub fn resolve_reference(&self, module: u32, reference: u32) -> (r: Option<u32>)
        requires
            self.has_reference(module, reference),
        ensures
            r == self.reference(module, reference),
    {
        self.references_table[module as usize][reference as usize]
    }
}

/// The final name of the canonical symbol of `symbol`, if it has one.
pub open spec fn final_name_of(symbols: &Symbols, names: &FinalNames, symbol: SymbolRef) -> Option<
    Seq<char>,
> {
    names.name_of(symbols.canonical(symbol))
}

pub fn get_symbol_final_name<'a>(
    symbol: SymbolRef,
    symbols: &Symbols,
    final_names: &'a FinalNames,
) -> (name: Option<&'a String>)
    requires
        symbols.has(symbol),
    ensures
        match name {
            Some(n) => final_name_of(symbols, final_names, symbol) == Some(n@),
            None => final_name_of(symbols, final_names, symbol) is None,
        },
{
    final_names.get(symbols.par_get_canonical_ref(symbol))
}

/// An import site of a module and the module that it imports.
#[derive(Clone, Copy, Debug, PartialEq, Eq, Structural)]
pub struct ImportRecord {
    pub span: Span,
    pub importee: u32,
}

/// The module filed for `span`: that of the last record with this span.
pub open spec fn find_import(records: Seq<ImportRecord>, span: Span) -> Option<u32>
    decreases records.len(),
{
    if records.len() == 0 {
        None
    } else if records.last().span == span {
        Some(records.last().importee)
    } else {
        find_import(records.drop_last(), span)
    }
}

pub struct NormalModule {
    pub id: u32,
    pub exports_kind: ExportsKind,
    pub module_type: ModuleType,
    pub namespace_symbol: SymbolRef,
    pub default_export_symbol: Option<u32>,
    pub imports: Vec<ImportRecord>,
}

impl NormalModule {
    pub open spec fn import_at(&self, span: Span) -> Option<u32> {
        find_import(self.imports@, span)
    }

    /// The module imported at `span`, or `None` where the module has no
    /// import site there.
    pub fn find_import_module_by_span(&self, span: Span) -> (r: Option<u32>)
        ensures
            r == self.import_at(span),
    {
        let mut found: Option<u32> = None;
        let mut i: usize = 0;
        while i < self.imports.len()
            invariant
                i <= self.imports@.len(),
                found == find_import(self.imports@.take(i as int), span),
            decreases self.imports@.len() - i,
        {
            let record = self.imports[i];
            proof {
                assert(self.imports@.take(i + 1).drop_last() == self.imports@.take(i as int));
            }
            if record.span == span {
                found = Some(record.importee);
            }
            i += 1;
        }
        proof {
            assert(self.imports@.take(i as int) == self.imports@);
        }
        found
    }

    pub fn get_import_module_by_span(&self, span: Span) -> (id: u32)
        requires
            self.import_at(span) is Some,
        ensures
            Some(id) == self.import_at(span),
    {
        match self.find_import_module_by_span(span) {
            Some(id) => id,
            None => 0,
        }
    }
}

pub struct ExternalModule {
    pub id: u32,
}

pub enum Module {
    Normal(NormalModule),
    External(ExternalModule),
}

/// One entry of a module's resolved exports.
pub struct ResolvedExport {
    pub exported_name: String,
    pub symbol: SymbolRef,
}

pub struct LinkingInfo {
    /// The zero-argument initializer of a module that runs lazily.
    pub wrap_symbol: Option<SymbolRef>,
    /// The module's exports, in the order in which they are emitted.
    pub resolved_exports: Vec<ResolvedExport>,
}

pub struct Chunk {
    pub file_name: Option<String>,
}

pub struct ChunkGraph {
    pub module_to_chunk: Vec<Option<u32>>,
    pub chunks: Vec<Chunk>,
}

impl ChunkGraph {
    /// Every module has an entry, and every assigned chunk exists and has
    /// its file name.
    pub open spec fn wf(&self, modules: nat) -> bool {
        &&& self.module_to_chunk@.len() == modules
        &&& forall|m: int|
            0 <= m < self.module_to_chunk@.len() ==> match #[trigger] self.module_to_chunk@[m] {
                Some(c) => c < self.chunks@.len() && self.chunks@[c as int].file_name is Some,
                None => true,
            }
    }

    /// Whether the assignment is well formed for a program of `modules`
    /// modules.
    pub fn is_wf(&self, modules: usize) -> (ok: bool)
        ensures
            ok == self.wf(modules as nat),
    {
        if self.module_to_chunk.len() != modules {
            return false;
        }
        let mut m: usize = 0;
        while m < self.module_to_chunk.len()
            invariant
                m <= self.module_to_chunk@.len(),
                forall|k: int|
                    0 <= k < m ==> match #[trigger] self.module_to_chunk@[k] {
                        Some(c) => c < self.chunks@.len() && self.chunks@[c as int].file_name
                            is Some,
                        None => true,
                    },
            decreases self.module_to_chunk@.len() - m,
        {
            match self.module_to_chunk[m] {
                Some(c) => {
                    if (c as usize) >= self.chunks.len() {
                        return false;
                    }
                    if self.chunks[c as usize].file_name.is_none() {
                        return false;
                    }
                },
                None => {},
            }
            m += 1;
        }
        true
    }

    /// The file name of the chunk that `module` was placed in, if any.
    pub open spec fn file_name_of(&self, module: u32) -> Option<Seq<char>> {
        match self.module_to_chunk@[module as int] {
            Some(c) => Some(self.chunks@[c as int].file_name->0@),
            None => None,
        }
    }

    pub fn chunk_file_name(&self, module: u32) -> (name: Option<&String>)
        requires
            module < self.module_to_chunk@.len(),
            self.wf(self.module_to_chunk@.len()),
        ensures
            match name {
                Some(n) => self.file_name_of(module) == Some(n@),
                None => self.file_name_of(module) is None,
            },
    {
        match self.module_to_chunk[module as usize] {
            Some(c) => self.chunks[c as usize].file_name.as_ref(),
            None => None,
        }
    }
}

/// The runtime module: where its helpers are declared.
pub struct Runtime {
    pub id: u32,
    pub to_esm: u32,
    pub to_commonjs: u32,
    pub re_export: u32,
}

impl Runtime {
    pub open spec fn symbol_of(&self, helper: RuntimeHelper) -> SymbolRef {
        SymbolRef {
            owner: self.id,
            symbol: match helper {
                RuntimeHelper::ToEsm => self.to_esm,
                RuntimeHelper::ToCommonJs => self.to_commonjs,
                RuntimeHelper::ReExport => self.re_export,
            },
        }
    }

    pub fn resolve_symbol(&self, helper: RuntimeHelper) -> (s: SymbolRef)
        ensures
            s == self.symbol_of(helper),
    {
        let symbol: u32 = match helper {
            RuntimeHelper::ToEsm => self.to_esm,
            RuntimeHelper::ToCommonJs => self.to_commonjs,
            RuntimeHelper::ReExport => self.re_export,
        };
        SymbolRef { owner: self.id, symbol }
    }
}

pub struct Graph {
    pub symbols: Symbols,
    pub modules: Vec<Module>,
    pub linking_infos: Vec<LinkingInfo>,
    pub runtime: Runtime,
}

impl Graph {
    /// The symbol table is well formed; each module has its linking result;
    /// a module's identity is its index; namespace symbols, wrap symbols,
    /// exported symbols and the runtime's helpers are symbols of the table;
    /// and every import site names a module of the graph.
    pub open spec fn wf(&self) -> bool {
        &&& self.symbols.wf()
        &&& self.modules@.len() == self.linking_infos@.len()
        &&& self.modules@.len() <= u32::MAX
        &&& forall|h: RuntimeHelper| self.symbols.has(#[trigger] self.runtime.symbol_of(h))
        &&& forall|m: int| 0 <= m < self.modules@.len() ==> #[trigger] self.module_wf(m)
    }

    pub open spec fn module_wf(&self, m: int) -> bool {
        &&& match self.modules@[m] {
            Module::Normal(n) => self.normal_wf(n) && n.id == m,
            Module::External(e) => e.id == m,
        }
        &&& self.linking_wf(self.linking_infos@[m])
    }

    /// What holds of a linking result of this graph: its wrap symbol and
    /// the symbols it exports are symbols of the table.
    pub open spec fn linking_wf(&self, info: LinkingInfo) -> bool {
        &&& match info.wrap_symbol {
            Some(w) => self.symbols.has(w),
            None => true,
        }
        &&& forall|i: int|
            0 <= i < info.resolved_exports@.len() ==> self.symbols.has(
                (#[trigger] info.resolved_exports@[i]).symbol,
            )
    }

    /// What holds of a module of this graph, whether filed in it or not.
    pub open spec fn normal_wf(&self, n: NormalModule) -> bool {
        &&& n.id < self.modules@.len()
        &&& self.symbols.has(n.namespace_symbol)
        &&& match n.default_export_symbol {
            Some(d) => self.symbols.has(SymbolRef { owner: n.id, symbol: d }),
            None => true,
        }
        &&& forall|i: int|
            0 <= i < n.imports@.len() ==> (#[trigger] n.imports@[i]).importee < self.modules@.len()
    }

    /// Whether `info` is a linking result of this graph.
    pub fn is_linking_wf(&self, info: &LinkingInfo) -> (ok: bool)
        ensures
            ok == self.linking_wf(*info),
    {
        match info.wrap_symbol {
            Some(w) => {
                if !self.symbols.contains(w) {
                    return false;
                }
            },
            None => {},
        }
        let mut i: usize = 0;
        while i < info.resolved_exports.len()
            invariant
                i <= info.resolved_exports@.len(),
                forall|k: int|
                    0 <= k < i ==> self.symbols.has((#[trigger] info.resolved_exports@[k]).symbol),
            decreases info.resolved_exports@.len() - i,
        {
            if !self.symbols.contains(info.resolved_exports[i].symbol) {
                return false;
            }
            i += 1;
        }
        true
    }

    /// Whether `n` is a module of this graph.
    pub fn is_normal_wf(&self, n: &NormalModule) -> (ok: bool)
        ensures
            ok == self.normal_wf(*n),
    {
        if (n.id as usize) >= self.modules.len() || !self.symbols.contains(n.namespace_symbol) {
            return false;
        }
        match n.default_export_symbol {
            Some(d) => {
                if !self.symbols.contains(SymbolRef { owner: n.id, symbol: d }) {
                    return false;
                }
            },
            None => {},
        }
        let mut i: usize = 0;
        while i < n.imports.len()
            invariant
                i <= n.imports@.len(),
                forall|k: int| 0 <= k < i ==> (#[trigger] n.imports@[k]).importee < self.modules@.len(),
            decreases n.imports@.len() - i,
        {
            if (n.imports[i].importee as usize) >= self.modules.len() {
                return false;
            }
            i += 1;
        }
        true
    }

    /// Whether the graph is well formed.
    pub fn is_wf(&self) -> (ok: bool)
        ensures
            ok == self.wf(),
    {
        if !self.symbols.is_wf() || self.modules.len() != self.linking_infos.len()
            || self.modules.len() > 0xffff_ffff {
            return false;
        }
        if !self.symbols.contains(self.runtime.resolve_symbol(RuntimeHelper::ToEsm))
            || !self.symbols.contains(self.runtime.resolve_symbol(RuntimeHelper::ToCommonJs))
            || !self.symbols.contains(self.runtime.resolve_symbol(RuntimeHelper::ReExport)) {
            return false;
        }
        proof {
            assert forall|h: RuntimeHelper| self.symbols.has(
                #[trigger] self.runtime.symbol_of(h),
            ) by {
                match h {
                    RuntimeHelper::ToEsm => {},
                    RuntimeHelper::ToCommonJs => {},
                    RuntimeHelper::ReExport => {},
                }
            }
        }
        let mut m: usize = 0;
        while m < self.modules.len()
            invariant
                m <= self.modules@.len(),
                self.modules@.len() == self.linking_infos@.len(),
                forall|k: int| 0 <= k < m ==> #[trigger] self.module_wf(k),
            decreases self.modules@.len() - m,
        {
            let module_ok = match &self.modules[m] {
                Module::Normal(n) => self.is_normal_wf(n) && n.id as usize == m,
                Module::External(e) => e.id as usize == m,
            };
            if !module_ok || !self.is_linking_wf(&self.linking_infos[m]) {
                assert(!self.module_wf(m as int));
                return false;
            }
            assert(self.module_wf(m as int));
            m += 1;
        }
        true
    }

    pub open spec fn name_of(&self, names: &FinalNames, symbol: SymbolRef) -> Option<Seq<char>> {
        final_name_of(&self.symbols, names, symbol)
    }
}

/// A module found for a span is one that some record of the list names.
pub proof fn lemma_find_import_is_listed(records: Seq<ImportRecord>, span: Span)
    ensures
        match find_import(records, span) {
            Some(id) => exists|i: int|
                0 <= i < records.len() && (#[trigger] records[i]).span == span && records[i].importee
                    == id,
            None => forall|i: int| 0 <= i < records.len() ==> (#[trigger] records[i]).span != span,
        },
    decreases records.len(),
{
    if records.len() == 0 {
    } else if records.last().span == span {
        assert(records[records.len() - 1].span == span);
    } else {
        lemma_find_import_is_listed(records.drop_last(), span);
        match find_import(records.drop_last(), span) {
            Some(id) => {
                let i = choose|i: int|
                    0 <= i < records.drop_last().len() && (#[trigger] records.drop_last()[i]).span
                        == span && records.drop_last()[i].importee == id;
                assert(records[i].span == span && records[i].importee == id);
            },
            None => {
                assert forall|i: int| 0 <= i < records.len() implies (#[trigger] records[i]).span
                    != span by {
                    if i < records.len() - 1 {
                        assert(records.drop_last()[i].span != span);
                    }
                }
            },
        }
    }
}

} // verus!
