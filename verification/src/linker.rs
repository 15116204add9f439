//! The linker's state for the whole process, and symbol resolution over it.

use vstd::prelude::*;
use crate::elf::{SymbolTableEntry, SymbolVisibility};
use crate::memory::{Image, Memory};
use crate::module::ModuleRuntime;
use crate::registry::{ModuleObjectList, ModuleRuntimeIter};

verus! {

/// A lookup function that the host supplies for the modules it loads by
/// hand. It is asked after the linker's own search has found nothing, and an
/// answer of zero means that it has found nothing either.
///
/// The linker takes the function's answer to depend on nothing but the
/// function itself, the asking module and the name: see
/// [`Linkage::steady`]. This is taken on trust: a function that the host
/// supplies is not verified against it.
pub trait LookupFunction {
    /// The address of `name`, asked for by module `module`; zero where the
    /// function knows none.
    fn lookup(&self, module: usize, name: &[u8]) -> u64;
}

/// The lookup function of a host that loads nothing by hand.
#[derive(Clone, Copy, Debug)]
pub struct NoLookup;

impl LookupFunction for NoLookup {
    fn lookup(&self, module: usize, name: &[u8]) -> (address: u64)
        ensures
            address == 0,
    {
        0
    }
}

/// What `symbol` resolves to, given its match: the match, where there is
/// one; otherwise zero where the symbol's binding is weak, and nothing
/// where it is not.
pub open spec fn resolved(symbol: SymbolTableEntry, matched: Option<u64>) -> Option<u64> {
    match matched {
        Some(address) => Some(address),
        None => if symbol.info.bind_weak() {
            Some(0)
        } else {
            None
        },
    }
}

/// What `symbol` resolves to, given the match that the lookup functions or
/// the symbol's own module have found for it. `None` says that the symbol
/// does not resolve.
pub fn resolution(symbol: &SymbolTableEntry, matched: Option<u64>) -> (address: Option<u64>)
    ensures
        address == resolved(*symbol, matched),
{
    match matched {
        Some(address) => Some(address),
        None => {
            if symbol.info.bind_weak() {
                Some(0)
            } else {
                None
            }
        },
    }
}

/// What the linker reports of a symbol: the handle of the module that holds
/// it, and its index in that module's symbol table.
#[derive(Clone, Copy, Debug, PartialEq, Eq, Structural)]
pub enum Diagnostic {
    /// The module refers to the symbol, and nothing defines it.
    UnresolvedSymbol { module: usize, symbol_index: u64 },
    /// The symbol's name does not decode; a lookup passed the symbol over.
    InvalidSymbol { module: usize, symbol_index: u64 },
}

/// The reports of the symbols `indices` of module `module` as symbols whose
/// names do not decode.
pub open spec fn invalid_symbols(module: usize, indices: Seq<u32>) -> Seq<Diagnostic> {
    Seq::new(
        indices.len(),
        |i: int| Diagnostic::InvalidSymbol { module, symbol_index: indices[i] as u64 },
    )
}

/// Adds to `reports` the symbols `indices` of module `module` as symbols
/// whose names do not decode.
pub fn report_invalid_symbols(module: usize, indices: &Vec<u32>, reports: &mut Vec<Diagnostic>)
    ensures
        final(reports)@ == old(reports)@ + invalid_symbols(module, indices@),
{
    let mut k: usize = 0;
    while k < indices.len()
        invariant
            k <= indices.len(),
            reports@ == old(reports)@ + invalid_symbols(module, indices@.subrange(0, k as int)),
        decreases indices.len() - k,
    {
        reports.push(Diagnostic::InvalidSymbol { module, symbol_index: indices[k] as u64 });
        proof {
            assert(invalid_symbols(module, indices@.subrange(0, k as int)).push(
                Diagnostic::InvalidSymbol { module, symbol_index: indices@[k as int] as u64 },
            ) =~= invalid_symbols(module, indices@.subrange(0, k + 1)));
            assert((old(reports)@ + invalid_symbols(module, indices@.subrange(0, k as int))).push(
                Diagnostic::InvalidSymbol { module, symbol_index: indices@[k as int] as u64 },
            ) =~= old(reports)@ + invalid_symbols(module, indices@.subrange(0, k + 1)));
        }
        k += 1;
    }
    proof {
        assert(indices@.subrange(0, indices.len() as int) =~= indices@);
    }
}

/// A module that the linker has taken up.
pub struct LoadedModule {
    /// The linker state of the module.
    pub runtime: ModuleRuntime,
    /// The module's memory.
    pub image: Memory,
    /// The address at which the module keeps its linker state.
    pub runtime_address: u64,
}

/// The mathematical content of a [`LoadedModule`].
pub struct ModuleView {
    pub runtime: ModuleRuntime,
    pub image: Image,
    pub runtime_address: u64,
}

impl View for LoadedModule {
    type V = ModuleView;

    open spec fn view(&self) -> ModuleView {
        ModuleView { runtime: self.runtime, image: self.image@, runtime_address: self.runtime_address }
    }
}

/// The linker's state for the whole process: the modules, the two lists
/// that order them, the host's lookup function, and what the linker has to
/// report.
pub struct Linker<L: LookupFunction> {
    /// The modules, by handle.
    pub modules: Vec<LoadedModule>,
    /// The list of the modules found in memory.
    pub global_load_list: ModuleObjectList,
    /// The list of the modules that the host loads by hand.
    pub manual_load_list: ModuleObjectList,
    /// The host's lookup function, where it has supplied one.
    pub manual_lookup: Option<L>,
    /// Whether unresolved symbols are reported.
    pub debug_flag: bool,
    /// The address of the entry point that binds a call site on its first
    /// call.
    pub resolver: u64,
    /// What has been reported so far, oldest first.
    pub diagnostics: Vec<Diagnostic>,
}

/// The mathematical content of a [`Linker`].
pub struct Linkage<L> {
    /// The modules, by handle.
    pub modules: Seq<ModuleView>,
    /// The handles in the list of the modules found in memory, in forward
    /// order.
    pub global: Seq<usize>,
    /// The handles in the list of the modules loaded by hand, in forward
    /// order.
    pub manual: Seq<usize>,
    /// The host's lookup function, where it has supplied one.
    pub manual_lookup: Option<L>,
    /// Whether unresolved symbols are reported.
    pub debug_flag: bool,
    /// The address of the entry point that binds a call site on its first
    /// call.
    pub resolver: u64,
    /// What has been reported so far, oldest first.
    pub diagnostics: Seq<Diagnostic>,
}

impl<L: LookupFunction> View for Linker<L> {
    type V = Linkage<L>;

    open spec fn view(&self) -> Linkage<L> {
        Linkage {
            modules: Seq::new(self.modules@.len(), |i: int| self.modules@[i]@),
            global: self.global_load_list@,
            manual: self.manual_load_list@,
            manual_lookup: self.manual_lookup,
            debug_flag: self.debug_flag,
            resolver: self.resolver,
            diagnostics: self.diagnostics@,
        }
    }
}

impl<L: LookupFunction> Linkage<L> {
    /// Whether `address` is an answer of `function` to module `module`
    /// asking for `name`.
    pub open spec fn answers(function: &L, module: usize, name: Seq<u8>, address: u64) -> bool {
        exists|asked: &[u8]|
            asked@ == name && #[trigger] call_ensures(L::lookup, (function, module, asked), address)
    }

    /// The answer of `function` to module `module` asking for `name`.
    pub open spec fn answer(function: &L, module: usize, name: Seq<u8>) -> u64 {
        choose|address: u64| Self::answers(function, module, name, address)
    }

    /// What the linker takes for granted of the host's lookup function: it
    /// may be asked anything, and asked the same it answers the same.
    pub open spec fn steady(function: &L) -> bool {
        &&& forall|module: usize, asked: &[u8]| call_requires(L::lookup, (function, module, asked))
        &&& forall|module: usize, first: &[u8], second: &[u8], one: u64, other: u64|
            first@ == second@ && #[trigger] call_ensures(L::lookup, (function, module, first), one)
                && #[trigger] call_ensures(L::lookup, (function, module, second), other) ==> one
                == other
    }

    /// Every handle in either list names a module, and the host's lookup
    /// function is steady.
    pub open spec fn wf(self) -> bool {
        &&& forall|i: int| 0 <= i < self.global.len() ==> #[trigger] self.global[i] < self.modules.len()
        &&& forall|i: int| 0 <= i < self.manual.len() ==> #[trigger] self.manual[i] < self.modules.len()
        &&& match self.manual_lookup {
            Some(function) => Self::steady(&function),
            None => true,
        }
    }

    /// The state with the memory of module `module` replaced by `image`.
    pub open spec fn with_image(self, module: int, image: Image) -> Self {
        Linkage {
            modules: self.modules.update(module, ModuleView { image, ..self.modules[module] }),
            ..self
        }
    }

    /// The state with the linker state of module `module` replaced by
    /// `runtime`.
    pub open spec fn with_runtime(self, module: int, runtime: ModuleRuntime) -> Self {
        Linkage {
            modules: self.modules.update(module, ModuleView { runtime, ..self.modules[module] }),
            ..self
        }
    }

    /// The state after the linker has met symbol `symbol_index` of module
    /// `module` and found nothing that defines it: the symbol is reported,
    /// where reporting is switched on.
    pub open spec fn warned(self, module: int, symbol_index: u64) -> Self {
        if self.debug_flag {
            Linkage {
                diagnostics: self.diagnostics.push(
                    Diagnostic::UnresolvedSymbol { module: module as usize, symbol_index },
                ),
                ..self
            }
        } else {
            self
        }
    }

    /// The state after `reports` have been added to what the linker has
    /// reported.
    pub open spec fn recorded(self, reports: Seq<Diagnostic>) -> Self {
        Linkage { diagnostics: self.diagnostics + reports, ..self }
    }

    /// The address of `name` in the first of the modules `order` that
    /// shares a definition of it: one with global or weak binding and
    /// default visibility. A definition of any other visibility is passed
    /// over; zero where no module shares one.
    pub open spec fn lookup_in(self, order: Seq<usize>, name: Seq<u8>) -> u64
        decreases order.len(),
    {
        if order.len() == 0 {
            0
        } else {
            let module = self.modules[order[0] as int];
            match module.runtime.shared_symbol_by_name(module.image, name) {
                Some(symbol) => module.runtime.symbol_value(module.image.arch, symbol),
                None => self.lookup_in(order.skip(1), name),
            }
        }
    }

    /// The symbols whose names do not decode that a search for `name` in
    /// the modules `order` passes over, in the order in which it meets
    /// them. The search ends with the first module that shares a definition.
    pub open spec fn lookup_reports_in(self, order: Seq<usize>, name: Seq<u8>) -> Seq<Diagnostic>
        decreases order.len(),
    {
        if order.len() == 0 {
            Seq::empty()
        } else {
            let module = self.modules[order[0] as int];
            let here = invalid_symbols(order[0], module.runtime.skipped_by_name(module.image, name));
            match module.runtime.shared_symbol_by_name(module.image, name) {
                Some(symbol) => here,
                None => here + self.lookup_reports_in(order.skip(1), name),
            }
        }
    }

    /// What the linker's own lookup function gives for `name`: the address
    /// in the first module of the global list that shares a definition of
    /// it, or zero.
    pub open spec fn auto_lookup(self, name: Seq<u8>) -> u64 {
        self.lookup_in(self.global, name)
    }

    /// What the host's lookup function gives for `name` when module
    /// `module` asks; zero where the host has supplied none.
    pub open spec fn manual_lookup_of(self, module: int, name: Seq<u8>) -> u64 {
        match self.manual_lookup {
            Some(function) => Self::answer(&function, module as usize, name),
            None => 0,
        }
    }

    /// What the lookup functions give for `name`, asked in order: the first
    /// answer that is not zero, or zero.
    pub open spec fn external_address(self, module: int, name: Seq<u8>) -> u64 {
        if self.auto_lookup(name) != 0 {
            self.auto_lookup(name)
        } else {
            self.manual_lookup_of(module, name)
        }
    }

    /// The match that resolution finds for `symbol` of module `module`. A
    /// symbol of default visibility is matched by the first lookup function
    /// that gives an address other than zero for its name. A symbol of any
    /// other visibility is matched by the definition of its name in the
    /// module's own symbol table. A symbol without a name has no match.
    pub open spec fn matched(self, module: int, symbol: SymbolTableEntry) -> Option<u64> {
        let own = self.modules[module];
        match own.runtime.symbol_name(own.image, symbol) {
            Some(name) => if symbol.other.visibility() == SymbolVisibility::Default {
                if self.external_address(module, name) != 0 {
                    Some(self.external_address(module, name))
                } else {
                    None
                }
            } else {
                match own.runtime.symbol_by_name(own.image, name) {
                    Some(definition) => Some(
                        own.runtime.symbol_value(own.image.arch, definition),
                    ),
                    None => None,
                }
            },
            None => None,
        }
    }

    /// The address that `symbol` of module `module` resolves to: its match,
    /// or what an unmatched symbol of its binding resolves to. A handle that
    /// names no module resolves nothing.
    pub open spec fn resolve(self, module: int, symbol: SymbolTableEntry) -> Option<u64> {
        if 0 <= module < self.modules.len() {
            resolved(symbol, self.matched(module, symbol))
        } else {
            None
        }
    }

    /// The symbols with names that do not decode that resolving `symbol`
    /// of module `module` passes over: those that the search of the global
    /// list meets, for a symbol of default visibility, and those that the
    /// lookup in the module's own table meets, for any other.
    pub open spec fn resolve_reports(self, module: int, symbol: SymbolTableEntry) -> Seq<
        Diagnostic,
    > {
        if 0 <= module < self.modules.len() {
            let own = self.modules[module];
            match own.runtime.symbol_name(own.image, symbol) {
                Some(name) => if symbol.other.visibility() == SymbolVisibility::Default {
                    self.lookup_reports_in(self.global, name)
                } else {
                    invalid_symbols(module as usize, own.runtime.skipped_by_name(own.image, name))
                },
                None => Seq::empty(),
            }
        } else {
            Seq::empty()
        }
    }
}

impl<L: LookupFunction> Linker<L> {
    /// The lists are rings, and every handle in them names a module.
    pub open spec fn wf(&self) -> bool {
        &&& self.global_load_list.wf()
        &&& self.manual_load_list.wf()
        &&& self@.wf()
    }

    /// A linker without modules. `resolver` is the address of the entry
    /// point that binds a call site on its first call; `debug_flag` switches
    /// the reporting of unresolved symbols on; `manual_lookup` is the host's
    /// lookup function, which the linker takes to be steady.
    pub fn new(resolver: u64, debug_flag: bool, manual_lookup: Option<L>) -> (linker: Self)
        requires
            match manual_lookup {
                Some(function) => Linkage::<L>::steady(&function),
                None => true,
            },
        ensures
            linker.wf(),
            linker@ == (Linkage {
                modules: Seq::<ModuleView>::empty(),
                global: Seq::<usize>::empty(),
                manual: Seq::<usize>::empty(),
                manual_lookup,
                debug_flag,
                resolver,
                diagnostics: Seq::<Diagnostic>::empty(),
            }),
    {
        let linker = Linker {
            modules: Vec::new(),
            global_load_list: ModuleObjectList::new(),
            manual_load_list: ModuleObjectList::new(),
            manual_lookup,
            debug_flag,
            resolver,
            diagnostics: Vec::new(),
        };
        assert(linker@.modules =~= Seq::<ModuleView>::empty());
        linker
    }

    /// The number of modules that the linker has taken up.
    pub fn module_count(&self) -> (count: usize)
        ensures
            count == self@.modules.len(),
    {
        self.modules.len()
    }

    /// Module `module`.
    pub fn module(&self, module: usize) -> (loaded: Option<&LoadedModule>)
        ensures
            match loaded {
                Some(found) => module < self@.modules.len() && found@ == self@.modules[module as int],
                None => module >= self@.modules.len(),
            },
    {
        if module < self.modules.len() {
            Some(&self.modules[module])
        } else {
            None
        }
    }

    /// What the linker has reported so far, oldest first.
    pub fn diagnostics(&self) -> (reported: &Vec<Diagnostic>)
        ensures
            reported@ == self@.diagnostics,
    {
        &self.diagnostics
    }

    /// Replaces the host's lookup function, which the linker takes to be
    /// steady.
    pub fn set_manual_lookup(&mut self, manual_lookup: Option<L>)
        requires
            old(self).wf(),
            match manual_lookup {
                Some(function) => Linkage::<L>::steady(&function),
                None => true,
            },
        ensures
            final(self).wf(),
            final(self)@ == (Linkage { manual_lookup, ..old(self)@ }),
    {
        self.manual_lookup = manual_lookup;
        proof {
            assert(self@.modules =~= old(self)@.modules);
        }
    }

    /// Adds `reports` to what the linker has reported.
    pub fn record(&mut self, reports: Vec<Diagnostic>)
        requires
            old(self).wf(),
        ensures
            final(self).wf(),
            final(self)@ == old(self)@.recorded(reports@),
    {
        let mut reports = reports;
        self.diagnostics.append(&mut reports);
        proof {
            assert(self@.modules =~= old(self)@.modules);
        }
    }

    /// The linker's own lookup function, which also hands back the symbols
    /// that it passed over because their names do not decode.
    pub fn lookup_auto_list_reporting(&self, name: &[u8]) -> (found: (u64, Vec<Diagnostic>))
        requires
            self.wf(),
        ensures
            found.0 == self@.auto_lookup(name@),
            found.1@ == self@.lookup_reports_in(self@.global, name@),
    {
        let mut reports: Vec<Diagnostic> = Vec::new();
        let mut walk = ModuleRuntimeIter::new(&self.global_load_list, false);
        proof {
            assert(walk.remaining(&self.global_load_list) == self@.global);
        }
        loop
            invariant
                self.wf(),
                walk.wf(&self.global_load_list),
                forall|i: int|
                    0 <= i < walk.remaining(&self.global_load_list).len() ==> (
                    #[trigger] walk.remaining(&self.global_load_list)[i]) < self.modules@.len(),
                self@.lookup_in(walk.remaining(&self.global_load_list), name@)
                    == self@.auto_lookup(name@),
                reports@ + self@.lookup_reports_in(walk.remaining(&self.global_load_list), name@)
                    == self@.lookup_reports_in(self@.global, name@),
            decreases walk.remaining(&self.global_load_list).len(),
        {
            let ghost before = reports@;
            let ghost order = walk.remaining(&self.global_load_list);
            match walk.next(&self.global_load_list) {
                Some(handle) => {
                    let module = &self.modules[handle];
                    let (symbol, skipped) = module.runtime.find_shared_symbol_reporting(
                        &module.image,
                        name,
                    );
                    report_invalid_symbols(handle, &skipped, &mut reports);
                    proof {
                        let here = invalid_symbols(handle, skipped@);
                        let rest = self@.lookup_reports_in(order.skip(1), name@);
                        assert((before + here) + rest =~= before + (here + rest));
                        assert(forall|i: int|
                            0 <= i < order.skip(1).len() ==> order.skip(1)[i] == order[i + 1]);
                    }
                    if let Some(symbol) = symbol {
                        return (
                            module.runtime.get_symbol_value(module.image.arch, &symbol),
                            reports,
                        );
                    }
                },
                None => {
                    proof {
                        assert(before + Seq::<Diagnostic>::empty() =~= before);
                    }
                    return (0, reports);
                },
            }
        }
    }

    /// The linker's own lookup function: the address of `name` in the first
    /// module of the global list that shares a definition of it, or zero.
    pub fn default_lookup_auto_list(&self, name: &[u8]) -> (address: u64)
        requires
            self.wf(),
        ensures
            address == self@.auto_lookup(name@),
    {
        self.lookup_auto_list_reporting(name).0
    }

    /// Resolves `symbol` of module `module` to an address, and hands back
    /// the symbols that the lookups passed over because their names do not
    /// decode. `None` says that nothing defines the symbol and that its
    /// binding does not allow that.
    pub fn resolve_symbol_reporting(&self, module: usize, symbol: &SymbolTableEntry) -> (found: (
        Option<u64>,
        Vec<Diagnostic>,
    ))
        requires
            self.wf(),
        ensures
            found.0 == self@.resolve(module as int, *symbol),
            found.1@ == self@.resolve_reports(module as int, *symbol),
    {
        let mut reports: Vec<Diagnostic> = Vec::new();
        if module >= self.modules.len() {
            return (None, reports);
        }
        let own = &self.modules[module];
        let matched = match own.runtime.try_get_symbol_str(&own.image, symbol) {
            Some(name) => {
                if symbol.other.visibility() == SymbolVisibility::Default {
                    let (found, met) = self.lookup_auto_list_reporting(name);
                    reports = met;
                    let found = if found != 0 {
                        found
                    } else {
                        match &self.manual_lookup {
                            Some(function) => {
                                let answer = function.lookup(module, name);
                                assert(Linkage::<L>::answers(function, module, name@, answer));
                                answer
                            },
                            None => 0,
                        }
                    };
                    if found != 0 {
                        Some(found)
                    } else {
                        None
                    }
                } else {
                    let (definition, skipped) = own.runtime.find_symbol_reporting(&own.image, name);
                    report_invalid_symbols(module, &skipped, &mut reports);
                    proof {
                        assert(Seq::<Diagnostic>::empty() + invalid_symbols(module, skipped@)
                            =~= invalid_symbols(module, skipped@));
                    }
                    match definition {
                        Some(definition) => Some(
                            own.runtime.get_symbol_value(own.image.arch, &definition),
                        ),
                        None => None,
                    }
                }
            },
            None => None,
        };
        (resolution(symbol, matched), reports)
    }

    /// Resolves `symbol` of module `module` to an address. `None` says that
    /// nothing defines the symbol and that its binding does not allow that.
    pub fn resolve_symbol(&self, module: usize, symbol: &SymbolTableEntry) -> (address: Option<u64>)
        requires
            self.wf(),
        ensures
            address == self@.resolve(module as int, *symbol),
    {
        self.resolve_symbol_reporting(module, symbol).0
    }
}

impl<L: LookupFunction> Linkage<L> {
    /// A weak symbol without a match resolves to exactly zero, and that is
    /// no failure.
    pub proof fn lemma_unmatched_weak_symbol_is_zero(self, module: int, symbol: SymbolTableEntry)
        requires
            0 <= module < self.modules.len(),
            self.matched(module, symbol) is None,
            symbol.info.bind_weak(),
        ensures
            self.resolve(module, symbol) == Some(0u64),
    {
    }

    /// A symbol without a match whose binding is not weak does not resolve:
    /// no address stands in for it.
    pub proof fn lemma_unmatched_strong_symbol_fails(self, module: int, symbol: SymbolTableEntry)
        requires
            0 <= module < self.modules.len(),
            self.matched(module, symbol) is None,
            !symbol.info.bind_weak(),
        ensures
            self.resolve(module, symbol) is None,
    {
    }

    /// A symbol of other than default visibility is matched in its own
    /// module only: what any list or lookup function holds does not matter.
    pub proof fn lemma_internal_symbol_ignores_lists(
        self,
        other: Self,
        module: int,
        symbol: SymbolTableEntry,
    )
        requires
            0 <= module < self.modules.len(),
            other.modules.len() == self.modules.len(),
            other.modules[module] == self.modules[module],
            symbol.other.visibility() != SymbolVisibility::Default,
        ensures
            other.resolve(module, symbol) == self.resolve(module, symbol),
    {
    }

    /// Whether module `module` shares a definition of `name` with other
    /// modules: one with global or weak binding and default visibility.
    pub open spec fn exports(self, module: usize, name: Seq<u8>) -> bool {
        self.modules[module as int].runtime.shared_symbol_by_name(
            self.modules[module as int].image,
            name,
        ) is Some
    }

    /// A name that none of the modules `order` shares is not found in
    /// them, whatever they define with local binding or with other than
    /// default visibility.
    pub proof fn lemma_unexported_name_is_not_found(self, order: Seq<usize>, name: Seq<u8>)
        requires
            forall|i: int| 0 <= i < order.len() ==> !self.exports(#[trigger] order[i], name),
        ensures
            self.lookup_in(order, name) == 0,
        decreases order.len(),
    {
        if order.len() > 0 {
            assert(!self.exports(order[0], name));
            assert forall|i: int| 0 <= i < order.skip(1).len() implies !self.exports(
                #[trigger] order.skip(1)[i],
                name,
            ) by {
                assert(order.skip(1)[i] == order[i + 1]);
            }
            self.lemma_unexported_name_is_not_found(order.skip(1), name);
        }
    }
}

} // verus!
