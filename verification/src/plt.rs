//! Call sites: the procedure linkage table, eager and lazy binding.

use vstd::prelude::*;
use crate::arch::{is_arch_jump_slot_relocation_type, Arch};
use crate::fatal::Fatal;
use crate::linker::{Linkage, Linker, LookupFunction};
use crate::module::ModuleRuntime;
use crate::relocation::{Relocation, TableRelocation};

verus! {

/// The index of the call site that was called through, as the binding entry
/// point works it out: the call sites' slots follow the third slot of the
/// global offset table, one word each, so the slot at `slot` is that of the
/// call site `(slot - anchor) / word - 1`, where the third slot lies at
/// `anchor`. The subtraction wraps as the target's does.
pub fn call_site_index(arch: Arch, anchor: u64, slot: u64) -> (index: u64)
    ensures
        index == arch.wrap(slot - anchor - arch.word_bytes()) / (arch.word_bytes() as u64),
{
    let width = arch.word_size();
    let lifted: i128 = slot as i128 - anchor as i128 - width as i128 + 0x1_0000_0000_0000_0000
        + 0x1_0000_0000_0000_0000;
    let distance: u64 = match arch {
        Arch::Arm => (lifted as u128 % 0x1_0000_0000) as u64,
        Arch::Aarch64 => (lifted as u128 % 0x1_0000_0000_0000_0000) as u64,
    };
    distance / width
}

impl<L: LookupFunction> Linkage<L> {
    /// The state after the linker has seen a call site of module `module`
    /// that starts out at the stub `stub`: the first stub seen is kept.
    pub open spec fn with_stub(self, module: int, stub: u64) -> Self {
        let runtime = self.modules[module].runtime;
        if runtime.got_stub_ptr == 0 {
            self.with_runtime(module, ModuleRuntime { got_stub_ptr: stub, ..runtime })
        } else {
            self
        }
    }

    /// The state after the call site of `entry`, which lies at `target` and
    /// starts out at `stub`, has been bound eagerly: the fixup is applied
    /// for the address that its symbol resolves to. Where the symbol does
    /// not resolve, it is reported and the call site is pointed at the stub.
    pub open spec fn call_site_bound(
        self,
        module: int,
        entry: TableRelocation,
        target: u64,
        stub: u64,
    ) -> (Self, Option<Fatal>) {
        let own = self.modules[module];
        let index = own.image.arch.symbol_index_of(entry.info());
        match own.runtime.symbol(own.image, index as int) {
            None => (self, Some(Fatal::OutOfImage)),
            Some(symbol) => {
                let noted = self.recorded(self.resolve_reports(module, symbol));
                match self.resolve(module, symbol) {
                    Some(address) => noted.patched(module, entry, address),
                    None => (
                        noted.warned(module, index).with_image(
                            module,
                            own.image.write_word(target as int, stub),
                        ),
                        None,
                    ),
                }
            },
        }
    }

    /// The state after entry `entry` of the procedure linkage table of
    /// module `module`. Only a call-site entry does anything. The word at
    /// its target, counted from the module's base, is the stub that the call
    /// site starts out at; a module whose call sites start out at different
    /// stubs is corrupt. In lazy mode the call site is pointed at the stub;
    /// otherwise it is bound at once.
    pub open spec fn call_site(self, module: int, entry: TableRelocation, lazy_init: bool) -> (
        Self,
        Option<Fatal>,
    ) {
        let own = self.modules[module];
        let arch = own.image.arch;
        if !arch.is_jump_slot_type(arch.type_of(entry.info())) {
            (self, None)
        } else {
            let target = own.image.target(own.runtime.module_base, entry.offset());
            match own.image.read_word(target as int) {
                None => (self, Some(Fatal::OutOfImage)),
                Some(stored) => {
                    let stub = arch.wrap(own.runtime.module_base + stored);
                    if own.runtime.got_stub_ptr != 0 && own.runtime.got_stub_ptr != stub {
                        (self, Some(Fatal::StubMismatch))
                    } else if lazy_init {
                        (
                            self.with_stub(module, stub).with_image(
                                module,
                                own.image.write_word(target as int, stub),
                            ),
                            None,
                        )
                    } else {
                        self.with_stub(module, stub).call_site_bound(module, entry, target, stub)
                    }
                },
            }
        }
    }

    /// The state after the entries from `index` up to `count` of the
    /// procedure linkage table of module `module`, in table order, and the
    /// violation that stopped the pass, if any.
    pub open spec fn call_sites_from(
        self,
        module: int,
        index: int,
        count: int,
        lazy_init: bool,
    ) -> (Self, Option<Fatal>)
        decreases count - index,
    {
        if index >= count {
            (self, None)
        } else {
            let own = self.modules[module];
            match own.image.relocation(
                own.runtime.procedure_linkage_table,
                own.runtime.is_rela,
                index,
            ) {
                None => (self, Some(Fatal::OutOfImage)),
                Some(entry) => {
                    let step = self.call_site(module, entry, lazy_init);
                    if step.1 is Some {
                        step
                    } else {
                        step.0.call_sites_from(module, index + 1, count, lazy_init)
                    }
                },
            }
        }
    }

    /// The number of entries in the procedure linkage table of module
    /// `module`.
    pub open spec fn call_site_count(self, module: int) -> int {
        let own = self.modules[module];
        own.runtime.procedure_linkage_table_size as int / TableRelocation::entry_bytes(
            own.image.arch,
            own.runtime.is_rela,
        )
    }

    /// The state after the global offset table of module `module` has been
    /// given its two fixed entries: the address of the module's linker state
    /// in the second slot and the address of the binding entry point in the
    /// third. A module without such a table is left alone.
    pub open spec fn got_seeded(self, module: int) -> (Self, Option<Fatal>) {
        let own = self.modules[module];
        let arch = own.image.arch;
        let got = own.runtime.global_offset_table;
        if got == 0 {
            (self, None)
        } else {
            let second = arch.wrap(got + arch.word_bytes());
            let third = arch.wrap(got + 2 * arch.word_bytes());
            (
                self.with_image(
                    module,
                    own.image.write_word(second as int, own.runtime_address).write_word(
                        third as int,
                        self.resolver,
                    ),
                ),
                if own.image.contains(second as int, arch.word_bytes()) && own.image.contains(
                    third as int,
                    arch.word_bytes(),
                ) {
                    None
                } else {
                    Some(Fatal::OutOfImage)
                },
            )
        }
    }

    /// The state after the call sites of module `module` have been set up,
    /// lazily or eagerly, and its global offset table seeded; and the
    /// violation that stopped this, if any.
    pub open spec fn symbols_resolved(self, module: int, lazy_init: bool) -> (Self, Option<Fatal>) {
        if 0 <= module < self.modules.len() {
            let first = self.call_sites_from(module, 0, self.call_site_count(module), lazy_init);
            if first.1 is Some {
                first
            } else {
                first.0.got_seeded(module)
            }
        } else {
            (self, Some(Fatal::UnknownModule))
        }
    }

    /// The state after call site `index` of module `module` has been asked
    /// for on its first call, and the address to patch the call site with:
    /// the word that the call site's fixup stands for, given the address
    /// that its symbol resolves to; or zero, where there is no such call
    /// site, its symbol cannot be read, or the symbol resolves to nothing or
    /// to zero. A symbol that does not resolve is reported.
    pub open spec fn lazily_bound(self, module: int, index: u64) -> (Self, u64) {
        if 0 <= module < self.modules.len() {
            let own = self.modules[module];
            let arch = own.image.arch;
            if index >= self.call_site_count(module) {
                (self, 0)
            } else {
                match own.image.relocation(
                    own.runtime.procedure_linkage_table,
                    own.runtime.is_rela,
                    index as int,
                ) {
                    None => (self, 0),
                    Some(entry) => {
                        let symbol_index = arch.symbol_index_of(entry.info());
                        match own.runtime.symbol(own.image, symbol_index as int) {
                            None => (self, 0),
                            Some(symbol) => {
                                let noted = self.recorded(self.resolve_reports(module, symbol));
                                match self.resolve(module, symbol) {
                                    Some(address) => (
                                        noted,
                                        if address == 0 {
                                            0
                                        } else {
                                            entry.computed(arch, address)
                                        },
                                    ),
                                    None => (noted.warned(module, symbol_index), 0),
                                }
                            },
                        }
                    },
                }
            }
        } else {
            (self, 0)
        }
    }

    /// Whether `other` differs from this state at most in the memory
    /// contents of module `module`, in the stub that the linker has noted
    /// for it, and in what has been reported.
    pub open spec fn same_tables(self, other: Self, module: int) -> bool {
        &&& other.modules.len() == self.modules.len()
        &&& other.global == self.global
        &&& other.manual == self.manual
        &&& other.manual_lookup == self.manual_lookup
        &&& other.debug_flag == self.debug_flag
        &&& other.resolver == self.resolver
        &&& other.modules[module].runtime == (ModuleRuntime {
            got_stub_ptr: other.modules[module].runtime.got_stub_ptr,
            ..self.modules[module].runtime
        })
        &&& other.modules[module].runtime_address == self.modules[module].runtime_address
        &&& other.modules[module].image.arch == self.modules[module].image.arch
        &&& other.modules[module].image.base == self.modules[module].image.base
        &&& other.modules[module].image.bytes.len() == self.modules[module].image.bytes.len()
        &&& forall|k: int|
            0 <= k < self.modules.len() && k != module ==> #[trigger] other.modules[k]
                == self.modules[k]
    }
}

impl<L: LookupFunction> Linker<L> {
    /// Sets up the call site of `entry`.
    fn resolve_plt_entry(&mut self, module: usize, entry: &TableRelocation, lazy_init: bool) -> (fatal:
        Option<Fatal>)
        requires
            old(self).wf(),
            module < old(self)@.modules.len(),
        ensures
            final(self).wf(),
            (final(self)@, fatal) == old(self)@.call_site(module as int, *entry, lazy_init),
            old(self)@.same_tables(final(self)@, module as int),
    {
        let arch = self.modules[module].image.arch;
        let base = self.modules[module].runtime.module_base;
        if !is_arch_jump_slot_relocation_type(arch, entry.get_type(arch)) {
            return None;
        }
        let target = arch.offset(base, entry.get_offset());
        let stored = match self.modules[module].image.read_word(target) {
            Some(stored) => stored,
            None => {
                return Some(Fatal::OutOfImage);
            },
        };
        let target_ptr = arch.offset(base, stored);
        if self.modules[module].runtime.got_stub_ptr == 0 {
            self.modules[module].runtime.got_stub_ptr = target_ptr;
        } else if self.modules[module].runtime.got_stub_ptr != target_ptr {
            return Some(Fatal::StubMismatch);
        }
        proof {
            assert(self@.modules =~= old(self)@.with_stub(module as int, target_ptr).modules);
        }
        let ghost noted = self@;
        if lazy_init {
            self.modules[module].image.write_word(target, target_ptr);
            proof {
                assert(self@.modules =~= noted.with_image(
                    module as int,
                    old(self)@.modules[module as int].image.write_word(target as int, target_ptr),
                ).modules);
            }
            None
        } else {
            let index = entry.get_symbol_index(arch);
            let symbol = self.modules[module].runtime.get_symbol(
                &self.modules[module].image,
                index,
            );
            match symbol {
                None => Some(Fatal::OutOfImage),
                Some(symbol) => match self.resolve_and_record(module, &symbol) {
                    Some(address) => self.patch(module, entry, address),
                    None => {
                        self.warn(module, index);
                        let ghost warned = self@;
                        self.modules[module].image.write_word(target, target_ptr);
                        proof {
                            assert(self@.modules =~= warned.with_image(
                                module as int,
                                old(self)@.modules[module as int].image.write_word(
                                    target as int,
                                    target_ptr,
                                ),
                            ).modules);
                        }
                        None
                    },
                },
            }
        }
    }

    /// Sets up every call site of module `module`.
    fn resolve_plt_entries(&mut self, module: usize, lazy_init: bool) -> (fatal: Option<Fatal>)
        requires
            old(self).wf(),
            module < old(self)@.modules.len(),
        ensures
            final(self).wf(),
            (final(self)@, fatal) == old(self)@.call_sites_from(
                module as int,
                0,
                old(self)@.call_site_count(module as int),
                lazy_init,
            ),
            old(self)@.same_tables(final(self)@, module as int),
    {
        let arch = self.modules[module].image.arch;
        let is_rela = self.modules[module].runtime.is_rela;
        let table = self.modules[module].runtime.procedure_linkage_table;
        let size = self.modules[module].runtime.procedure_linkage_table_size;
        let count = size / TableRelocation::entry_size(arch, is_rela);
        let mut index: u64 = 0;
        while index < count
            invariant
                index <= count,
                self.wf(),
                module < self@.modules.len(),
                old(self)@.same_tables(self@, module as int),
                is_rela == old(self)@.modules[module as int].runtime.is_rela,
                table == old(self)@.modules[module as int].runtime.procedure_linkage_table,
                count == old(self)@.call_site_count(module as int),
                self@.call_sites_from(module as int, index as int, count as int, lazy_init) == old(
                    self,
                )@.call_sites_from(module as int, 0, count as int, lazy_init),
            decreases count - index,
        {
            match TableRelocation::read(&self.modules[module].image, table, is_rela, index) {
                None => {
                    return Some(Fatal::OutOfImage);
                },
                Some(entry) => {
                    if let Some(fatal) = self.resolve_plt_entry(module, &entry, lazy_init) {
                        return Some(fatal);
                    }
                },
            }
            index += 1;
        }
        None
    }

    /// Seeds the global offset table of module `module`.
    fn seed_got(&mut self, module: usize) -> (fatal: Option<Fatal>)
        requires
            old(self).wf(),
            module < old(self)@.modules.len(),
        ensures
            final(self).wf(),
            (final(self)@, fatal) == old(self)@.got_seeded(module as int),
            old(self)@.same_modules(final(self)@),
    {
        let arch = self.modules[module].image.arch;
        let got = self.modules[module].runtime.global_offset_table;
        if got == 0 {
            return None;
        }
        let own_state = self.modules[module].runtime_address;
        let resolver = self.resolver;
        let second = arch.offset(got, arch.word_size());
        let third = arch.offset(got, 2 * arch.word_size());
        let first_stored = self.modules[module].image.write_word(second, own_state);
        let then_stored = self.modules[module].image.write_word(third, resolver);
        proof {
            assert(self@.modules =~= old(self)@.got_seeded(module as int).0.modules);
        }
        if first_stored && then_stored {
            None
        } else {
            Some(Fatal::OutOfImage)
        }
    }

    /// Sets up the call sites of module `module` and seeds its global
    /// offset table. In lazy mode every call site is left at the module's
    /// stub, to be bound on its first call; otherwise every call site is
    /// bound at once, and one whose symbol does not resolve falls back to
    /// the stub.
    pub fn resolve_symbols(&mut self, module: usize, lazy_init: bool) -> (result: Result<(), Fatal>)
        requires
            old(self).wf(),
        ensures
            final(self).wf(),
            final(self)@ == old(self)@.symbols_resolved(module as int, lazy_init).0,
            result == match old(self)@.symbols_resolved(module as int, lazy_init).1 {
                Some(fatal) => Err::<(), Fatal>(fatal),
                None => Ok::<(), Fatal>(()),
            },
            old(self)@.same_modules(final(self)@),
    {
        if module >= self.modules.len() {
            return Err(Fatal::UnknownModule);
        }
        if let Some(fatal) = self.resolve_plt_entries(module, lazy_init) {
            return Err(fatal);
        }
        match self.seed_got(module) {
            Some(fatal) => Err(fatal),
            None => Ok(()),
        }
    }

    /// Resolves call site `index` of module `module`.
    fn lazy_bind_resolve_internal(&mut self, module: usize, index: u64) -> (address: u64)
        requires
            old(self).wf(),
            module < old(self)@.modules.len(),
        ensures
            final(self).wf(),
            (final(self)@, address) == old(self)@.lazily_bound(module as int, index),
    {
        let arch = self.modules[module].image.arch;
        let runtime = self.modules[module].runtime;
        let count = runtime.procedure_linkage_table_size / TableRelocation::entry_size(
            arch,
            runtime.is_rela,
        );
        if index >= count {
            return 0;
        }
        let entry = match TableRelocation::read(
            &self.modules[module].image,
            runtime.procedure_linkage_table,
            runtime.is_rela,
            index,
        ) {
            Some(entry) => entry,
            None => {
                return 0;
            },
        };
        let symbol_index = entry.get_symbol_index(arch);
        let symbol = match runtime.get_symbol(&self.modules[module].image, symbol_index) {
            Some(symbol) => symbol,
            None => {
                return 0;
            },
        };
        match self.resolve_and_record(module, &symbol) {
            Some(target_address) => {
                if target_address == 0 {
                    0
                } else {
                    entry.compute_value(arch, target_address)
                }
            },
            None => {
                self.warn(module, symbol_index);
                0
            },
        }
    }

    /// Answers the first call through call site `index` of module `module`:
    /// the address to patch the call site with and to continue at, or zero
    /// where the call site cannot be bound.
    pub fn lazy_bind_symbol(&mut self, module: usize, index: u64) -> (address: u64)
        requires
            old(self).wf(),
        ensures
            final(self).wf(),
            (final(self)@, address) == old(self)@.lazily_bound(module as int, index),
    {
        if module >= self.modules.len() {
            return 0;
        }
        self.lazy_bind_resolve_internal(module, index)
    }

    /// The module that keeps its linker state at `runtime_address`, which is
    /// what the second slot of its global offset table holds: the one with
    /// the lowest handle, or `None` where no module keeps its state there.
    pub fn module_of_state(&self, runtime_address: u64) -> (module: Option<usize>)
        ensures
            match module {
                Some(found) => {
                    &&& found < self@.modules.len()
                    &&& self@.modules[found as int].runtime_address == runtime_address
                    &&& forall|k: int|
                        0 <= k < found ==> (#[trigger] self@.modules[k]).runtime_address
                            != runtime_address
                },
                None => forall|k: int|
                    0 <= k < self@.modules.len() ==> (#[trigger] self@.modules[k]).runtime_address
                        != runtime_address,
            },
    {
        let mut k: usize = 0;
        while k < self.modules.len()
            invariant
                k <= self.modules.len(),
                forall|j: int|
                    0 <= j < k ==> (#[trigger] self@.modules[j]).runtime_address
                        != runtime_address,
            decreases self.modules.len() - k,
        {
            if self.modules[k].runtime_address == runtime_address {
                return Some(k);
            }
            k += 1;
        }
        None
    }
}

} // verus!
