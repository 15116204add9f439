//! The relocation engine: base-relative and symbol-relative fixups.

use vstd::prelude::*;
use crate::arch::{is_arch_got_relocation_type, is_arch_relative_relocation_type};
use crate::elf::{RelocationTableAddendEntry, SymbolTableEntry};
use crate::fatal::Fatal;
use crate::linker::{Diagnostic, Linkage, Linker, LookupFunction};
use crate::memory::{Image, Memory};
use crate::module::ModuleRuntime;
use crate::relocation::{Relocation, TableRelocation};

verus! {

impl Image {
    /// The image after the base-relative fixups among the entries from
    /// `index` up to `count` of the relocation table at `table`, and the
    /// violation that stopped the pass, if any: an entry or a fixup target
    /// outside the image.
    pub open spec fn rebased_from(
        self,
        module_base: u64,
        table: u64,
        is_rela: bool,
        index: int,
        count: int,
    ) -> (Image, Option<Fatal>)
        decreases count - index,
    {
        if index >= count {
            (self, None)
        } else {
            match self.relocation(table, is_rela, index) {
                None => (self, Some(Fatal::OutOfImage)),
                Some(entry) => if self.arch.is_relative_type(self.arch.type_of(entry.info())) {
                    if self.holds_target(module_base, entry.offset()) {
                        entry.applied(self, module_base, module_base).rebased_from(
                            module_base,
                            table,
                            is_rela,
                            index + 1,
                            count,
                        )
                    } else {
                        (self, Some(Fatal::OutOfImage))
                    }
                } else {
                    self.rebased_from(module_base, table, is_rela, index + 1, count)
                },
            }
        }
    }
}

impl ModuleRuntime {
    /// Applies the base-relative fixups among the first `relocations_count`
    /// entries of the relocation table at `relocations`, in table order, to
    /// the module at `module_base`. Entries of any other type are left alone.
    pub fn relocate_relative_entries(
        image: &mut Memory,
        module_base: u64,
        relocations: u64,
        is_rela: bool,
        relocations_count: u64,
    ) -> (result: Result<(), Fatal>)
        ensures
            final(image)@ == old(image)@.rebased_from(
                module_base,
                relocations,
                is_rela,
                0,
                relocations_count as int,
            ).0,
            result == match old(image)@.rebased_from(
                module_base,
                relocations,
                is_rela,
                0,
                relocations_count as int,
            ).1 {
                Some(fatal) => Err::<(), Fatal>(fatal),
                None => Ok::<(), Fatal>(()),
            },
    {
        let arch = image.arch;
        let mut index: u64 = 0;
        while index < relocations_count
            invariant
                index <= relocations_count,
                image.arch == arch,
                image@.rebased_from(
                    module_base,
                    relocations,
                    is_rela,
                    index as int,
                    relocations_count as int,
                ) == old(image)@.rebased_from(
                    module_base,
                    relocations,
                    is_rela,
                    0,
                    relocations_count as int,
                ),
            decreases relocations_count - index,
        {
            match TableRelocation::read(image, relocations, is_rela, index) {
                None => {
                    return Err(Fatal::OutOfImage);
                },
                Some(relocation) => {
                    let relocation_type = relocation.get_type(arch);
                    if is_arch_relative_relocation_type(arch, relocation_type) {
                        if !relocation.apply(image, module_base, module_base) {
                            return Err(Fatal::OutOfImage);
                        }
                    }
                },
            }
            index += 1;
        }
        Ok(())
    }
}

impl<L: LookupFunction> Linkage<L> {
    /// The state after the fixup `entry` of module `module` has been applied
    /// for the address `value`, and the violation where the fixup target
    /// lies outside the module's memory, in which case nothing changes.
    pub open spec fn patched(self, module: int, entry: TableRelocation, value: u64) -> (
        Self,
        Option<Fatal>,
    ) {
        let own = self.modules[module];
        (
            self.with_image(module, entry.applied(own.image, own.runtime.module_base, value)),
            if own.image.holds_target(own.runtime.module_base, entry.offset()) {
                None
            } else {
                Some(Fatal::OutOfImage)
            },
        )
    }

    /// The state after the symbol-relative fixup `entry` of module
    /// `module`: the symbol that the entry names is resolved, and the fixup
    /// is applied for its address. The symbols that the resolution passed
    /// over because their names do not decode are reported. A symbol that
    /// does not resolve is reported and its target left as it is.
    pub open spec fn bound(self, module: int, entry: TableRelocation) -> (Self, Option<Fatal>) {
        let own = self.modules[module];
        let index = own.image.arch.symbol_index_of(entry.info());
        match own.runtime.symbol(own.image, index as int) {
            None => (self, Some(Fatal::OutOfImage)),
            Some(symbol) => {
                let noted = self.recorded(self.resolve_reports(module, symbol));
                match self.resolve(module, symbol) {
                    Some(address) => noted.patched(module, entry, address),
                    None => (noted.warned(module, index), None),
                }
            },
        }
    }

    /// The state after relocation entry `entry` of module `module`. A
    /// base-relative entry is applied for the module's base address, unless
    /// `skip_relative` holds. A symbol-relative entry is bound, unless
    /// `skip_got` holds. An entry of any other type changes nothing.
    pub open spec fn relocated_entry(
        self,
        module: int,
        entry: TableRelocation,
        skip_relative: bool,
        skip_got: bool,
    ) -> (Self, Option<Fatal>) {
        let own = self.modules[module];
        let arch = own.image.arch;
        let relocation_type = arch.type_of(entry.info());
        let first = if !skip_relative && arch.is_relative_type(relocation_type) {
            self.patched(module, entry, own.runtime.module_base)
        } else {
            (self, None)
        };
        if first.1 is Some {
            first
        } else if !skip_got && arch.is_got_type(relocation_type) {
            first.0.bound(module, entry)
        } else {
            first
        }
    }

    /// The state after the entries from `index` up to `count` of the
    /// relocation table of module `module`, in table order, and the
    /// violation that stopped the pass, if any.
    pub open spec fn relocated_from(
        self,
        module: int,
        is_rela: bool,
        index: int,
        count: int,
        skip_relative: bool,
        skip_got: bool,
    ) -> (Self, Option<Fatal>)
        decreases count - index,
    {
        if index >= count {
            (self, None)
        } else {
            let own = self.modules[module];
            match own.image.relocation(own.runtime.relocations, is_rela, index) {
                None => (self, Some(Fatal::OutOfImage)),
                Some(entry) => {
                    let step = self.relocated_entry(module, entry, skip_relative, skip_got);
                    if step.1 is Some {
                        step
                    } else {
                        step.0.relocated_from(
                            module,
                            is_rela,
                            index + 1,
                            count,
                            skip_relative,
                            skip_got,
                        )
                    }
                },
            }
        }
    }

    /// The state after one pass over the relocation table of module
    /// `module`, read in the encoding that `is_rela` selects. The table
    /// holds `relocations_size` bytes; its first `got_relocation_offset`
    /// entries are the base-relative ones, which the pass does not even
    /// read where `skip_relative` holds.
    pub open spec fn relocated_entries(
        self,
        module: int,
        is_rela: bool,
        got_relocation_offset: u64,
        relocations_size: u64,
        skip_relative: bool,
        skip_got: bool,
    ) -> (Self, Option<Fatal>) {
        let count = relocations_size as int / TableRelocation::entry_bytes(
            self.modules[module].image.arch,
            is_rela,
        );
        if !(0 <= module < self.modules.len()) {
            (self, Some(Fatal::UnknownModule))
        } else if !skip_relative {
            self.relocated_from(module, is_rela, 0, count, skip_relative, skip_got)
        } else if got_relocation_offset > count {
            (self, Some(Fatal::TableOverrun))
        } else {
            self.relocated_from(
                module,
                is_rela,
                got_relocation_offset as int,
                count,
                skip_relative,
                skip_got,
            )
        }
    }

    /// The state after relocating module `module`: a pass over its table in
    /// the encoding with addend, then a pass over its table in the encoding
    /// without addend, and the violation that stopped it, if any. A table is
    /// walked whenever it holds entries; the count of base-relative entries
    /// that the module announces for it is the length of the prefix that is
    /// left out where `skip_relative` holds.
    pub open spec fn relocated(self, module: int, skip_relative: bool, skip_got: bool) -> (
        Self,
        Option<Fatal>,
    ) {
        if 0 <= module < self.modules.len() {
            let runtime = self.modules[module].runtime;
            let first = self.relocated_entries(
                module,
                true,
                runtime.rela_count,
                runtime.rela_dynamic_size,
                skip_relative,
                skip_got,
            );
            if first.1 is Some {
                first
            } else {
                first.0.relocated_entries(
                    module,
                    false,
                    runtime.rel_count,
                    runtime.rel_dynamic_size,
                    skip_relative,
                    skip_got,
                )
            }
        } else {
            (self, Some(Fatal::UnknownModule))
        }
    }

    /// Whether `other` differs from this state at most in the memory
    /// contents of module `module` and in what has been reported.
    pub open spec fn same_frame(self, other: Self, module: int) -> bool {
        &&& other.modules.len() == self.modules.len()
        &&& other.global == self.global
        &&& other.manual == self.manual
        &&& other.manual_lookup == self.manual_lookup
        &&& other.debug_flag == self.debug_flag
        &&& other.resolver == self.resolver
        &&& other.modules[module].runtime == self.modules[module].runtime
        &&& other.modules[module].runtime_address == self.modules[module].runtime_address
        &&& other.modules[module].image.arch == self.modules[module].image.arch
        &&& other.modules[module].image.base == self.modules[module].image.base
        &&& other.modules[module].image.bytes.len() == self.modules[module].image.bytes.len()
        &&& forall|k: int|
            0 <= k < self.modules.len() && k != module ==> #[trigger] other.modules[k]
                == self.modules[k]
    }
}

impl<L: LookupFunction> Linker<L> {
    /// Reports symbol `symbol_index` of module `module` as unresolved, where
    /// reporting is switched on.
    pub(crate) fn warn(&mut self, module: usize, symbol_index: u64)
        requires
            old(self).wf(),
        ensures
            final(self).wf(),
            final(self)@ == old(self)@.warned(module as int, symbol_index),
    {
        if self.debug_flag {
            self.diagnostics.push(Diagnostic::UnresolvedSymbol { module, symbol_index });
        }
    }

    /// Resolves `symbol` of module `module` and records the symbols that
    /// the resolution passed over because their names do not decode.
    pub(crate) fn resolve_and_record(&mut self, module: usize, symbol: &SymbolTableEntry) -> (address:
        Option<u64>)
        requires
            old(self).wf(),
            module < old(self)@.modules.len(),
        ensures
            final(self).wf(),
            address == old(self)@.resolve(module as int, *symbol),
            final(self)@ == old(self)@.recorded(old(self)@.resolve_reports(module as int, *symbol)),
            old(self)@.same_frame(final(self)@, module as int),
    {
        let (address, reports) = self.resolve_symbol_reporting(module, symbol);
        self.record(reports);
        address
    }

    /// Applies the fixup `entry` of module `module` for the address `value`.
    pub(crate) fn patch(&mut self, module: usize, entry: &TableRelocation, value: u64) -> (fatal:
        Option<Fatal>)
        requires
            old(self).wf(),
            module < old(self)@.modules.len(),
        ensures
            final(self).wf(),
            (final(self)@, fatal) == old(self)@.patched(module as int, *entry, value),
            old(self)@.same_frame(final(self)@, module as int),
    {
        let base = self.modules[module].runtime.module_base;
        let patched = entry.apply(&mut self.modules[module].image, base, value);
        proof {
            assert(final(self)@.modules =~= old(self)@.patched(module as int, *entry, value).0.modules);
        }
        if patched {
            None
        } else {
            Some(Fatal::OutOfImage)
        }
    }

    /// Binds the symbol-relative fixup `entry` of module `module`.
    pub(crate) fn bind(&mut self, module: usize, entry: &TableRelocation) -> (fatal: Option<Fatal>)
        requires
            old(self).wf(),
            module < old(self)@.modules.len(),
        ensures
            final(self).wf(),
            (final(self)@, fatal) == old(self)@.bound(module as int, *entry),
            old(self)@.same_frame(final(self)@, module as int),
    {
        let arch = self.modules[module].image.arch;
        let index = entry.get_symbol_index(arch);
        let symbol = self.modules[module].runtime.get_symbol(&self.modules[module].image, index);
        match symbol {
            None => Some(Fatal::OutOfImage),
            Some(symbol) => match self.resolve_and_record(module, &symbol) {
                Some(address) => self.patch(module, entry, address),
                None => {
                    self.warn(module, index);
                    None
                },
            },
        }
    }

    /// Applies relocation entry `entry` of module `module`.
    fn relocate_entry(
        &mut self,
        module: usize,
        entry: &TableRelocation,
        skip_relative: bool,
        skip_got: bool,
    ) -> (fatal: Option<Fatal>)
        requires
            old(self).wf(),
            module < old(self)@.modules.len(),
        ensures
            final(self).wf(),
            (final(self)@, fatal) == old(self)@.relocated_entry(
                module as int,
                *entry,
                skip_relative,
                skip_got,
            ),
            old(self)@.same_frame(final(self)@, module as int),
    {
        let arch = self.modules[module].image.arch;
        let base = self.modules[module].runtime.module_base;
        let relocation_type = entry.get_type(arch);
        if !skip_relative && is_arch_relative_relocation_type(arch, relocation_type) {
            if let Some(fatal) = self.patch(module, entry, base) {
                return Some(fatal);
            }
        }
        if !skip_got && is_arch_got_relocation_type(arch, relocation_type) {
            return self.bind(module, entry);
        }
        None
    }

    /// One pass over the relocation table of module `module`, read in the
    /// encoding that `is_rela` selects. The table holds `relocations_size`
    /// bytes; its first `got_relocation_offset` entries are left out where
    /// `skip_relative` holds. Returns the violation that stopped the pass.
    pub fn relocate_entries(
        &mut self,
        module: usize,
        is_rela: bool,
        got_relocation_offset: u64,
        relocations_size: u64,
        skip_relative: bool,
        skip_got: bool,
    ) -> (fatal: Option<Fatal>)
        requires
            old(self).wf(),
        ensures
            final(self).wf(),
            (final(self)@, fatal) == old(self)@.relocated_entries(
                module as int,
                is_rela,
                got_relocation_offset,
                relocations_size,
                skip_relative,
                skip_got,
            ),
            old(self)@.same_frame(final(self)@, module as int),
    {
        if module >= self.modules.len() {
            return Some(Fatal::UnknownModule);
        }
        let arch = self.modules[module].image.arch;
        let table = self.modules[module].runtime.relocations;
        let count = relocations_size / TableRelocation::entry_size(arch, is_rela);
        let mut index: u64 = 0;
        if skip_relative {
            if got_relocation_offset > count {
                return Some(Fatal::TableOverrun);
            }
            index = got_relocation_offset;
        }
        let ghost start = index;
        while index < count
            invariant
                index <= count,
                self.wf(),
                module < self@.modules.len(),
                old(self)@.same_frame(self@, module as int),
                table == old(self)@.modules[module as int].runtime.relocations,
                old(self)@.relocated_entries(
                    module as int,
                    is_rela,
                    got_relocation_offset,
                    relocations_size,
                    skip_relative,
                    skip_got,
                ) == old(self)@.relocated_from(
                    module as int,
                    is_rela,
                    start as int,
                    count as int,
                    skip_relative,
                    skip_got,
                ),
                self@.relocated_from(
                    module as int,
                    is_rela,
                    index as int,
                    count as int,
                    skip_relative,
                    skip_got,
                ) == old(self)@.relocated_from(
                    module as int,
                    is_rela,
                    start as int,
                    count as int,
                    skip_relative,
                    skip_got,
                ),
            decreases count - index,
        {
            match TableRelocation::read(&self.modules[module].image, table, is_rela, index) {
                None => {
                    return Some(Fatal::OutOfImage);
                },
                Some(entry) => {
                    if let Some(fatal) = self.relocate_entry(
                        module,
                        &entry,
                        skip_relative,
                        skip_got,
                    ) {
                        return Some(fatal);
                    }
                },
            }
            index += 1;
        }
        None
    }

    /// Relocates module `module`. Base-relative fixups add the module's base
    /// address to their target; they are left out where `skip_relative`
    /// holds. Symbol-relative fixups write the address that their symbol
    /// resolves to; they are left out where `skip_got` holds.
    pub fn relocate(&mut self, module: usize, skip_relative: bool, skip_got: bool) -> (result:
        Result<(), Fatal>)
        requires
            old(self).wf(),
        ensures
            final(self).wf(),
            final(self)@ == old(self)@.relocated(module as int, skip_relative, skip_got).0,
            result == match old(self)@.relocated(module as int, skip_relative, skip_got).1 {
                Some(fatal) => Err::<(), Fatal>(fatal),
                None => Ok::<(), Fatal>(()),
            },
            old(self)@.same_modules(final(self)@),
    {
        if module >= self.modules.len() {
            return Err(Fatal::UnknownModule);
        }
        let runtime = self.modules[module].runtime;
        if let Some(fatal) = self.relocate_entries(
            module,
            true,
            runtime.rela_count,
            runtime.rela_dynamic_size,
            skip_relative,
            skip_got,
        ) {
            return Err(fatal);
        }
        if let Some(fatal) = self.relocate_entries(
            module,
            false,
            runtime.rel_count,
            runtime.rel_dynamic_size,
            skip_relative,
            skip_got,
        ) {
            return Err(fatal);
        }
        Ok(())
    }
}

impl<L: LookupFunction> Linkage<L> {
    /// A symbol-relative fixup whose symbol does not resolve is reported
    /// and nothing is written in its place: the memory of every module
    /// stays as it is, and the report of the symbol is the last of what has
    /// been reported.
    pub proof fn lemma_unresolved_symbol_is_reported(self, module: int, entry: TableRelocation)
        requires
            0 <= module < self.modules.len(),
            self.modules[module].runtime.symbol(
                self.modules[module].image,
                self.modules[module].image.arch.symbol_index_of(entry.info()) as int,
            ) is Some,
            self.resolve(
                module,
                self.modules[module].runtime.symbol(
                    self.modules[module].image,
                    self.modules[module].image.arch.symbol_index_of(entry.info()) as int,
                ).unwrap(),
            ) is None,
        ensures
            self.bound(module, entry).1 is None,
            self.bound(module, entry).0.modules == self.modules,
            self.debug_flag ==> self.bound(module, entry).0.diagnostics.len() > 0 && self.bound(
                module,
                entry,
            ).0.diagnostics.last() == (Diagnostic::UnresolvedSymbol {
                module: module as usize,
                symbol_index: self.modules[module].image.arch.symbol_index_of(entry.info()),
            }),
    {
    }

    /// With base-relative fixups left out, a base-relative entry is not
    /// touched: the state stays as it is, whether symbol-relative fixups are
    /// left out or not.
    pub proof fn lemma_skipped_relative_entry_is_untouched(
        self,
        module: int,
        entry: TableRelocation,
        skip_got: bool,
    )
        requires
            self.modules[module].image.arch.is_relative_type(
                self.modules[module].image.arch.type_of(entry.info()),
            ),
        ensures
            self.relocated_entry(module, entry, true, skip_got) == (self, None::<Fatal>),
    {
    }

    /// With both kinds of fixup left out, the entries of a relocation table
    /// are read and nothing else happens.
    pub proof fn lemma_skipped_entries_change_nothing(
        self,
        module: int,
        is_rela: bool,
        index: int,
        count: int,
    )
        ensures
            self.relocated_from(module, is_rela, index, count, true, true).0 == self,
        decreases count - index,
    {
        if index < count {
            let own = self.modules[module];
            match own.image.relocation(own.runtime.relocations, is_rela, index) {
                None => {},
                Some(entry) => {
                    self.lemma_skipped_entries_change_nothing(module, is_rela, index + 1, count);
                },
            }
        }
    }

    /// Relocating a module with both kinds of fixup left out is a no-op: no
    /// word of any module changes and nothing is reported.
    pub proof fn lemma_skipped_relocation_is_noop(self, module: int)
        ensures
            self.relocated(module, true, true).0 == self,
    {
        if 0 <= module < self.modules.len() {
            let runtime = self.modules[module].runtime;
            let arch = self.modules[module].image.arch;
            let rela_count = runtime.rela_dynamic_size as int / TableRelocation::entry_bytes(
                arch,
                true,
            );
            let rel_count = runtime.rel_dynamic_size as int / TableRelocation::entry_bytes(
                arch,
                false,
            );
            self.lemma_skipped_entries_change_nothing(
                module,
                true,
                runtime.rela_count as int,
                rela_count,
            );
            self.lemma_skipped_entries_change_nothing(
                module,
                false,
                runtime.rel_count as int,
                rel_count,
            );
        }
    }

    /// A symbol-relative fixup with addend whose symbol resolves leaves the
    /// resolved address plus the addend at its target, in the module that
    /// refers to the symbol.
    pub proof fn lemma_resolved_symbol_lands_at_target(
        self,
        module: int,
        entry: RelocationTableAddendEntry,
        symbol: SymbolTableEntry,
        address: u64,
    )
        requires
            0 <= module < self.modules.len(),
            self.modules[module].runtime.symbol(
                self.modules[module].image,
                self.modules[module].image.arch.symbol_index_of(entry.info) as int,
            ) == Some(symbol),
            self.resolve(module, symbol) == Some(address),
            self.modules[module].image.holds_target(
                self.modules[module].runtime.module_base,
                entry.offset,
            ),
        ensures
            self.bound(module, TableRelocation::Explicit(entry)).1 is None,
            self.bound(module, TableRelocation::Explicit(entry)).0.modules[module].image.read_word(
                self.modules[module].image.target(
                    self.modules[module].runtime.module_base,
                    entry.offset,
                ) as int,
            ) == Some(self.modules[module].image.arch.wrap(address + entry.addend)),
    {
        let own = self.modules[module];
        entry.lemma_target_holds_sum(own.image, own.runtime.module_base, address);
    }

    /// A pass does not stop at a symbol-relative entry whose symbol does
    /// not resolve: the symbol is reported, no word of any module changes,
    /// and the pass goes on with the entry behind it.
    pub proof fn lemma_pass_goes_on_after_unresolved_symbol(
        self,
        module: int,
        is_rela: bool,
        index: int,
        count: int,
        skip_relative: bool,
        entry: TableRelocation,
        symbol: SymbolTableEntry,
    )
        requires
            0 <= module < self.modules.len(),
            0 <= index < count,
            self.modules[module].image.relocation(
                self.modules[module].runtime.relocations,
                is_rela,
                index,
            ) == Some(entry),
            self.modules[module].image.arch.is_got_type(
                self.modules[module].image.arch.type_of(entry.info()),
            ),
            self.modules[module].runtime.symbol(
                self.modules[module].image,
                self.modules[module].image.arch.symbol_index_of(entry.info()) as int,
            ) == Some(symbol),
            self.resolve(module, symbol) is None,
        ensures
            self.bound(module, entry).1 is None,
            self.bound(module, entry).0.modules == self.modules,
            self.relocated_from(module, is_rela, index, count, skip_relative, false) == self.bound(
                module,
                entry,
            ).0.relocated_from(module, is_rela, index + 1, count, skip_relative, false),
    {
    }
}

} // verus!
