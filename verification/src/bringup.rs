//! Bringing modules up: loading, registering, and the two linking passes.

use vstd::prelude::*;
use crate::fatal::Fatal;
use crate::linker::{
    report_invalid_symbols, Diagnostic, Linkage, Linker, LoadedModule, LookupFunction, ModuleView,
};
use crate::memory::{Image, Memory};
use crate::module::{Module, ModuleRuntime};

verus! {

/// The name under which a module sees the list of the modules found in
/// memory.
pub const AUTO_LOAD_LIST_SYMBOL: &'static str = "_ZN2nn2ro6detail15g_pAutoLoadListE";

/// The name under which a module sees the list of the modules loaded by
/// hand.
pub const MANUAL_LOAD_LIST_SYMBOL: &'static str = "_ZN2nn2ro6detail17g_pManualLoadListE";

/// The name under which a module sees the debug flag.
pub const RO_DEBUG_FLAG_SYMBOL: &'static str = "_ZN2nn2ro6detail14g_pRoDebugFlagE";

/// The name under which a module sees the linker's own lookup function.
pub const LOOKUP_GLOBAL_AUTO_SYMBOL: &'static str = "_ZN2nn2ro6detail34g_pLookupGlobalAutoFunctionPointerE";

/// The name under which a module sees the slot of the host's lookup
/// function.
pub const LOOKUP_GLOBAL_MANUAL_SYMBOL: &'static str =
    "_ZN2nn2ro6detail36g_pLookupGlobalManualFunctionPointerE";

/// The addresses of the linker's own objects, which the modules that name
/// them are pointed at.
#[derive(Clone, Copy, Debug, PartialEq, Eq, Structural)]
pub struct HardcodedSymbols {
    /// The list of the modules found in memory.
    pub auto_load_list: u64,
    /// The list of the modules loaded by hand.
    pub manual_load_list: u64,
    /// The debug flag.
    pub ro_debug_flag: u64,
    /// The linker's own lookup function.
    pub lookup_global_auto: u64,
    /// The slot of the host's lookup function.
    pub lookup_global_manual: u64,
}

impl ModuleView {
    /// What loading the module in `image` yields. A module that was found
    /// in memory must carry the module magic, and its zero-initialised range
    /// is cleared before its dynamic table is parsed; the linker's own
    /// module is taken as it is.
    pub open spec fn loaded(image: Image, discovered: bool) -> Result<ModuleView, Fatal> {
        match image.module() {
            None => Err(Fatal::InvalidModule),
            Some(header) => if discovered && !header.is_valid() {
                Err(Fatal::InvalidModule)
            } else if discovered && !header.bss_in(image) {
                Err(Fatal::OutOfImage)
            } else {
                let ready = if discovered {
                    header.cleared(image)
                } else {
                    image
                };
                match ModuleRuntime::parsed(ready, header).1 {
                    Some(fatal) => Err(fatal),
                    None => Ok(
                        ModuleView {
                            runtime: ModuleRuntime::parsed(ready, header).0,
                            image: ready,
                            runtime_address: header.module_runtime(image.arch),
                        },
                    ),
                }
            },
        }
    }
}

impl LoadedModule {
    /// Loads the module in `image`.
    fn load(image: Memory, discovered: bool) -> (result: Result<LoadedModule, Fatal>)
        ensures
            match result {
                Ok(loaded) => ModuleView::loaded(image@, discovered) == Ok::<ModuleView, Fatal>(
                    loaded@,
                ),
                Err(fatal) => ModuleView::loaded(image@, discovered) == Err::<ModuleView, Fatal>(
                    fatal,
                ),
            },
    {
        let mut image = image;
        let header = match Module::get_module_by_module_base(&image) {
            Some(header) => header,
            None => {
                return Err(Fatal::InvalidModule);
            },
        };
        if discovered {
            if !header.is_valid() {
                return Err(Fatal::InvalidModule);
            }
            if !header.clear_bss(&mut image) {
                return Err(Fatal::OutOfImage);
            }
        }
        let mut runtime = ModuleRuntime::default();
        match runtime.initialize(&image, &header) {
            Ok(()) => Ok(
                LoadedModule {
                    runtime,
                    runtime_address: header.get_module_runtime(image.arch),
                    image,
                },
            ),
            Err(fatal) => Err(fatal),
        }
    }

    /// Loads a module that was found in memory: checks its header, clears
    /// its zero-initialised range and parses its dynamic table.
    pub fn discover(image: Memory) -> (result: Result<LoadedModule, Fatal>)
        ensures
            match result {
                Ok(loaded) => ModuleView::loaded(image@, true) == Ok::<ModuleView, Fatal>(loaded@),
                Err(fatal) => ModuleView::loaded(image@, true) == Err::<ModuleView, Fatal>(fatal),
            },
    {
        Self::load(image, true)
    }

    /// Loads the linker's own module: parses its dynamic table.
    pub fn load_self(image: Memory) -> (result: Result<LoadedModule, Fatal>)
        ensures
            match result {
                Ok(loaded) => ModuleView::loaded(image@, false) == Ok::<ModuleView, Fatal>(loaded@),
                Err(fatal) => ModuleView::loaded(image@, false) == Err::<ModuleView, Fatal>(fatal),
            },
    {
        Self::load(image, false)
    }
}

impl<L: LookupFunction> Linkage<L> {
    /// The state after module `module` has been pointed at `value` under
    /// the name `name`: where the module defines `name` with global or weak
    /// binding, the word that the definition stands for holds `value`. The
    /// symbols that the lookup passed over because their names do not
    /// decode are reported.
    pub open spec fn named_bound(self, module: int, name: Seq<u8>, value: u64) -> (
        Self,
        Option<Fatal>,
    ) {
        let own = self.modules[module];
        let noted = self.recorded(
            crate::linker::invalid_symbols(
                module as usize,
                own.runtime.skipped_by_name(own.image, name),
            ),
        );
        match own.runtime.external_symbol_by_name(own.image, name) {
            Some(symbol) => {
                let address = own.runtime.symbol_value(own.image.arch, symbol);
                (
                    noted.with_image(module, own.image.write_word(address as int, value)),
                    if own.image.contains(address as int, own.image.arch.word_bytes()) {
                        None
                    } else {
                        Some(Fatal::OutOfImage)
                    },
                )
            },
            None => (noted, None),
        }
    }

    /// `before`, where it holds a violation; otherwise the state after the
    /// next name has been bound.
    pub open spec fn then_named_bound(
        before: (Self, Option<Fatal>),
        module: int,
        name: Seq<u8>,
        value: u64,
    ) -> (Self, Option<Fatal>) {
        if before.1 is Some {
            before
        } else {
            before.0.named_bound(module, name, value)
        }
    }

    /// The state after module `module` has been pointed at the linker's own
    /// objects under their five names, in the order of the fields of
    /// `targets`.
    #[verifier::opaque]
    pub open spec fn hardcoded_bound(self, module: int, targets: HardcodedSymbols) -> (
        Self,
        Option<Fatal>,
    ) {
        let first = self.named_bound(
            module,
            vstd::utf8::encode_utf8(AUTO_LOAD_LIST_SYMBOL@),
            targets.auto_load_list,
        );
        let second = Self::then_named_bound(
            first,
            module,
            vstd::utf8::encode_utf8(MANUAL_LOAD_LIST_SYMBOL@),
            targets.manual_load_list,
        );
        let third = Self::then_named_bound(
            second,
            module,
            vstd::utf8::encode_utf8(RO_DEBUG_FLAG_SYMBOL@),
            targets.ro_debug_flag,
        );
        let fourth = Self::then_named_bound(
            third,
            module,
            vstd::utf8::encode_utf8(LOOKUP_GLOBAL_AUTO_SYMBOL@),
            targets.lookup_global_auto,
        );
        Self::then_named_bound(
            fourth,
            module,
            vstd::utf8::encode_utf8(LOOKUP_GLOBAL_MANUAL_SYMBOL@),
            targets.lookup_global_manual,
        )
    }

    /// The state after the modules `order` have been pointed at the
    /// linker's own objects, one after the other.
    pub open spec fn hardcoded_bound_in(self, order: Seq<usize>, targets: HardcodedSymbols) -> (
        Self,
        Option<Fatal>,
    )
        decreases order.len(),
    {
        if order.len() == 0 {
            (self, None)
        } else {
            let step = self.hardcoded_bound(order[0] as int, targets);
            if step.1 is Some {
                step
            } else {
                step.0.hardcoded_bound_in(order.skip(1), targets)
            }
        }
    }

    /// The state after module `module` has been linked: relocated, with its
    /// base-relative fixups left out where it lies at `linker_base` and so
    /// is the linker's own module, which applied them when it started; then
    /// its call sites set up.
    pub open spec fn module_linked(self, module: int, linker_base: u64, lazy_init: bool) -> (
        Self,
        Option<Fatal>,
    ) {
        let first = self.relocated(
            module,
            self.modules[module].runtime.module_base == linker_base,
            false,
        );
        if first.1 is Some {
            first
        } else {
            first.0.symbols_resolved(module, lazy_init)
        }
    }

    /// The state after the modules `order` have been linked, one after the
    /// other.
    pub open spec fn linked_in(self, order: Seq<usize>, linker_base: u64, lazy_init: bool) -> (
        Self,
        Option<Fatal>,
    )
        decreases order.len(),
    {
        if order.len() == 0 {
            (self, None)
        } else {
            let step = self.module_linked(order[0] as int, linker_base, lazy_init);
            if step.1 is Some {
                step
            } else {
                step.0.linked_in(order.skip(1), linker_base, lazy_init)
            }
        }
    }

    /// The state after both linking passes over the global list, in forward
    /// order: first every module is pointed at the linker's own objects,
    /// then every module is linked.
    pub open spec fn all_linked(
        self,
        targets: HardcodedSymbols,
        linker_base: u64,
        lazy_init: bool,
    ) -> (Self, Option<Fatal>) {
        let first = self.hardcoded_bound_in(self.global, targets);
        if first.1 is Some {
            first
        } else {
            first.0.linked_in(self.global, linker_base, lazy_init)
        }
    }

    /// The initializers of the modules `order`, in that order.
    pub open spec fn initializers(self, order: Seq<usize>) -> Seq<u64>
        decreases order.len(),
    {
        if order.len() == 0 {
            Seq::empty()
        } else {
            match self.modules[order[0] as int].runtime.dt_init {
                Some(address) => seq![address] + self.initializers(order.skip(1)),
                None => self.initializers(order.skip(1)),
            }
        }
    }

    /// The finalizers of the modules `order`, in that order.
    pub open spec fn finalizers(self, order: Seq<usize>) -> Seq<u64>
        decreases order.len(),
    {
        if order.len() == 0 {
            Seq::empty()
        } else {
            match self.modules[order[0] as int].runtime.dt_fini {
                Some(address) => seq![address] + self.finalizers(order.skip(1)),
                None => self.finalizers(order.skip(1)),
            }
        }
    }

    /// Whether `other` differs from this state at most in the memory
    /// contents of its modules, in the stubs that the linker has noted for
    /// them, and in what has been reported.
    pub open spec fn same_modules(self, other: Self) -> bool {
        &&& other.modules.len() == self.modules.len()
        &&& other.global == self.global
        &&& other.manual == self.manual
        &&& other.manual_lookup == self.manual_lookup
        &&& other.debug_flag == self.debug_flag
        &&& other.resolver == self.resolver
    }
}

impl<L: LookupFunction> Linker<L> {
    /// Takes `loaded` up and returns its handle. The module is in no list
    /// yet.
    pub fn insert(&mut self, loaded: LoadedModule) -> (module: usize)
        requires
            old(self).wf(),
        ensures
            final(self).wf(),
            module == old(self)@.modules.len(),
            final(self)@ == (Linkage {
                modules: old(self)@.modules.push(loaded@),
                ..old(self)@
            }),
    {
        let module = self.modules.len();
        self.modules.push(loaded);
        proof {
            assert(self@.modules =~= old(self)@.modules.push(loaded@));
        }
        module
    }

    /// Empties both lists and enters the linker's own module `self_module`
    /// in the global list. Says whether the handle names a module; where it
    /// does not, both lists are left empty.
    pub fn initialize(&mut self, self_module: usize) -> (entered: bool)
        requires
            old(self).wf(),
        ensures
            final(self).wf(),
            entered == (self_module < old(self)@.modules.len()),
            final(self)@ == (Linkage {
                global: if entered {
                    seq![self_module]
                } else {
                    Seq::empty()
                },
                manual: Seq::empty(),
                ..old(self)@
            }),
    {
        self.manual_load_list.initialize();
        self.global_load_list.initialize();
        let entered = self_module < self.modules.len();
        if entered {
            self.global_load_list.link_reverse(self_module);
        }
        entered
    }

    /// Enters module `module` at the front of the global list. Says whether
    /// the handle names a module; where it does not, nothing changes.
    pub fn link(&mut self, module: usize) -> (entered: bool)
        requires
            old(self).wf(),
        ensures
            final(self).wf(),
            entered == (module < old(self)@.modules.len()),
            final(self)@ == (Linkage {
                global: if entered {
                    seq![module] + old(self)@.global
                } else {
                    old(self)@.global
                },
                ..old(self)@
            }),
    {
        let entered = module < self.modules.len();
        if entered {
            self.global_load_list.link(module);
        }
        entered
    }

    /// Points module `module` at `value` under the name `name`.
    fn bind_name(&mut self, module: usize, name: &str, value: u64) -> (fatal: Option<Fatal>)
        requires
            old(self).wf(),
            module < old(self)@.modules.len(),
        ensures
            final(self).wf(),
            (final(self)@, fatal) == old(self)@.named_bound(
                module as int,
                vstd::utf8::encode_utf8(name@),
                value,
            ),
            old(self)@.same_modules(final(self)@),
    {
        let (found, skipped) = self.modules[module].runtime.find_external_symbol_reporting(
            &self.modules[module].image,
            name.as_bytes(),
        );
        let mut reports: Vec<Diagnostic> = Vec::new();
        report_invalid_symbols(module, &skipped, &mut reports);
        proof {
            assert(Seq::<Diagnostic>::empty() + crate::linker::invalid_symbols(module, skipped@)
                =~= crate::linker::invalid_symbols(module, skipped@));
        }
        self.record(reports);
        match found {
            Some(symbol) => {
                let runtime = self.modules[module].runtime;
                let stored = runtime.set_symbol_value(&mut self.modules[module].image, &symbol, value);
                proof {
                    assert(self@.modules =~= old(self)@.named_bound(
                        module as int,
                        vstd::utf8::encode_utf8(name@),
                        value,
                    ).0.modules);
                }
                if stored {
                    None
                } else {
                    Some(Fatal::OutOfImage)
                }
            },
            None => None,
        }
    }

    /// Points module `module` at the linker's own objects.
    fn bind_hardcoded(&mut self, module: usize, targets: &HardcodedSymbols) -> (fatal: Option<Fatal>)
        requires
            old(self).wf(),
            module < old(self)@.modules.len(),
        ensures
            final(self).wf(),
            (final(self)@, fatal) == old(self)@.hardcoded_bound(module as int, *targets),
            old(self)@.same_modules(final(self)@),
    {
        proof {
            reveal(Linkage::hardcoded_bound);
        }
        if let Some(fatal) = self.bind_name(module, AUTO_LOAD_LIST_SYMBOL, targets.auto_load_list) {
            return Some(fatal);
        }
        if let Some(fatal) = self.bind_name(
            module,
            MANUAL_LOAD_LIST_SYMBOL,
            targets.manual_load_list,
        ) {
            return Some(fatal);
        }
        if let Some(fatal) = self.bind_name(module, RO_DEBUG_FLAG_SYMBOL, targets.ro_debug_flag) {
            return Some(fatal);
        }
        if let Some(fatal) = self.bind_name(
            module,
            LOOKUP_GLOBAL_AUTO_SYMBOL,
            targets.lookup_global_auto,
        ) {
            return Some(fatal);
        }
        self.bind_name(module, LOOKUP_GLOBAL_MANUAL_SYMBOL, targets.lookup_global_manual)
    }

    /// The first linking pass: points every module of the global list at
    /// the linker's own objects, under the names that the vendor's modules
    /// know them by.
    pub fn bind_hardcoded_symbols(&mut self, targets: &HardcodedSymbols) -> (result: Result<
        (),
        Fatal,
    >)
        requires
            old(self).wf(),
        ensures
            final(self).wf(),
            final(self)@ == old(self)@.hardcoded_bound_in(old(self)@.global, *targets).0,
            result == match old(self)@.hardcoded_bound_in(old(self)@.global, *targets).1 {
                Some(fatal) => Err::<(), Fatal>(fatal),
                None => Ok::<(), Fatal>(()),
            },
            old(self)@.same_modules(final(self)@),
    {
        let order = self.global_load_list.modules(false);
        let mut k: usize = 0;
        proof {
            assert(order@.skip(0) =~= order@);
        }
        while k < order.len()
            invariant
                k <= order.len(),
                self.wf(),
                order@ == old(self)@.global,
                old(self)@.same_modules(self@),
                self@.hardcoded_bound_in(order@.skip(k as int), *targets) == old(
                    self,
                )@.hardcoded_bound_in(order@, *targets),
            decreases order.len() - k,
        {
            proof {
                assert(order@.skip(k as int).skip(1) =~= order@.skip(k + 1));
            }
            if let Some(fatal) = self.bind_hardcoded(order[k], targets) {
                return Err(fatal);
            }
            k += 1;
        }
        Ok(())
    }

    /// Links module `module`.
    fn link_module(&mut self, module: usize, linker_base: u64, lazy_init: bool) -> (fatal: Option<
        Fatal,
    >)
        requires
            old(self).wf(),
            module < old(self)@.modules.len(),
        ensures
            final(self).wf(),
            (final(self)@, fatal) == old(self)@.module_linked(
                module as int,
                linker_base,
                lazy_init,
            ),
            old(self)@.same_modules(final(self)@),
    {
        let skip_relative = self.modules[module].runtime.module_base == linker_base;
        if let Err(fatal) = self.relocate(module, skip_relative, false) {
            return Some(fatal);
        }
        match self.resolve_symbols(module, lazy_init) {
            Err(fatal) => Some(fatal),
            Ok(()) => None,
        }
    }

    /// The second linking pass: links every module of the global list, in
    /// forward order. The module at `linker_base` is the linker itself.
    pub fn link_modules(&mut self, linker_base: u64, lazy_init: bool) -> (result: Result<(), Fatal>)
        requires
            old(self).wf(),
        ensures
            final(self).wf(),
            final(self)@ == old(self)@.linked_in(old(self)@.global, linker_base, lazy_init).0,
            result == match old(self)@.linked_in(old(self)@.global, linker_base, lazy_init).1 {
                Some(fatal) => Err::<(), Fatal>(fatal),
                None => Ok::<(), Fatal>(()),
            },
            old(self)@.same_modules(final(self)@),
    {
        let order = self.global_load_list.modules(false);
        let mut k: usize = 0;
        proof {
            assert(order@.skip(0) =~= order@);
        }
        while k < order.len()
            invariant
                k <= order.len(),
                self.wf(),
                order@ == old(self)@.global,
                old(self)@.same_modules(self@),
                self@.linked_in(order@.skip(k as int), linker_base, lazy_init) == old(
                    self,
                )@.linked_in(order@, linker_base, lazy_init),
            decreases order.len() - k,
        {
            proof {
                assert(order@.skip(k as int).skip(1) =~= order@.skip(k + 1));
            }
            if let Some(fatal) = self.link_module(order[k], linker_base, lazy_init) {
                return Err(fatal);
            }
            k += 1;
        }
        Ok(())
    }

    /// Links everything that has been found: the first pass points every
    /// module of the global list at the linker's own objects, the second
    /// relocates it and sets its call sites up.
    pub fn link_all(&mut self, targets: &HardcodedSymbols, linker_base: u64, lazy_init: bool) -> (result:
        Result<(), Fatal>)
        requires
            old(self).wf(),
        ensures
            final(self).wf(),
            final(self)@ == old(self)@.all_linked(*targets, linker_base, lazy_init).0,
            result == match old(self)@.all_linked(*targets, linker_base, lazy_init).1 {
                Some(fatal) => Err::<(), Fatal>(fatal),
                None => Ok::<(), Fatal>(()),
            },
    {
        if let Err(fatal) = self.bind_hardcoded_symbols(targets) {
            return Err(fatal);
        }
        self.link_modules(linker_base, lazy_init)
    }

    /// Takes the linker's own module up and applies its base-relative
    /// fixups, which must be in place before the linker resolves anything.
    /// Returns the module's handle. Where the module cannot be loaded, the
    /// linker is left as it is.
    pub fn relocate_self(&mut self, image: Memory) -> (result: Result<usize, Fatal>)
        requires
            old(self).wf(),
        ensures
            final(self).wf(),
            match ModuleView::loaded(image@, false) {
                Err(fatal) => result == Err::<usize, Fatal>(fatal) && final(self)@ == old(self)@,
                Ok(loaded) => {
                    let taken = Linkage { modules: old(self)@.modules.push(loaded), ..old(self)@ };
                    let module = old(self)@.modules.len();
                    &&& final(self)@ == taken.relocated(module as int, false, true).0
                    &&& result == match taken.relocated(module as int, false, true).1 {
                        Some(fatal) => Err::<usize, Fatal>(fatal),
                        None => Ok::<usize, Fatal>(module as usize),
                    }
                },
            },
    {
        match LoadedModule::load_self(image) {
            Err(fatal) => Err(fatal),
            Ok(loaded) => {
                let module = self.insert(loaded);
                match self.relocate(module, false, true) {
                    Err(fatal) => Err(fatal),
                    Ok(()) => Ok(module),
                }
            },
        }
    }

    /// The initializers to call once everything is linked, in calling
    /// order: those of the modules of the global list, walked backward.
    pub fn call_initializers(&self) -> (calls: Vec<u64>)
        requires
            self.wf(),
        ensures
            calls@ == self@.initializers(self@.global.reverse()),
    {
        let order = self.global_load_list.modules(true);
        let mut calls: Vec<u64> = Vec::new();
        let mut k: usize = 0;
        proof {
            assert(order@.skip(0) =~= order@);
        }
        while k < order.len()
            invariant
                k <= order.len(),
                self.wf(),
                order@ == self@.global.reverse(),
                calls@ + self@.initializers(order@.skip(k as int)) == self@.initializers(order@),
            decreases order.len() - k,
        {
            proof {
                assert(order@.skip(k as int).skip(1) =~= order@.skip(k + 1));
            }
            if let Some(init_function) = self.modules[order[k]].runtime.dt_init {
                calls.push(init_function);
            }
            k += 1;
        }
        calls
    }

    /// The finalizers to call when the program ends, in calling order:
    /// those of the modules of the global list, walked forward.
    pub fn call_finilizers(&self) -> (calls: Vec<u64>)
        requires
            self.wf(),
        ensures
            calls@ == self@.finalizers(self@.global),
    {
        let order = self.global_load_list.modules(false);
        let mut calls: Vec<u64> = Vec::new();
        let mut k: usize = 0;
        proof {
            assert(order@.skip(0) =~= order@);
        }
        while k < order.len()
            invariant
                k <= order.len(),
                self.wf(),
                order@ == self@.global,
                calls@ + self@.finalizers(order@.skip(k as int)) == self@.finalizers(order@),
            decreases order.len() - k,
        {
            proof {
                assert(order@.skip(k as int).skip(1) =~= order@.skip(k + 1));
            }
            if let Some(fini_function) = self.modules[order[k]].runtime.dt_fini {
                calls.push(fini_function);
            }
            k += 1;
        }
        calls
    }
}

} // verus!
