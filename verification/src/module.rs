//! A module's header and the linker state that parsing its dynamic table
//! yields.

use vstd::prelude::*;
use crate::arch::Arch;
use crate::elf::{
    entry_address, DynamicTableEntry, DT_FINI, DT_HASH, DT_INIT, DT_JMPREL, DT_NULL, DT_PLTGOT,
    DT_PLTREL, DT_PLTRELSZ, DT_REL, DT_RELA, DT_RELACOUNT, DT_RELAENT, DT_RELASZ, DT_RELCOUNT,
    DT_RELENT, DT_RELSZ, DT_SONAME, DT_STRSZ, DT_STRTAB, DT_SYMENT, DT_SYMTAB,
};
use crate::fatal::Fatal;
use crate::memory::{Image, Memory};

verus! {

/// The value that the first four bytes of a module header hold.
pub const MODULE_MAGIC: u32 = 0x30444F4D;

/// Bytes of a module header: seven four-byte fields.
pub const MODULE_HEADER_SIZE: u64 = 28;

/// The header of a module. Its offsets count from the header's own address.
#[derive(Clone, Copy, Debug, PartialEq, Eq, Structural)]
pub struct Module {
    /// Where the header lies.
    pub address: u64,
    pub magic: u32,
    pub dynamic_offset: u32,
    pub bss_start_offset: u32,
    pub bss_end_offset: u32,
    pub exception_info_start_offset: u32,
    pub exception_info_end_offset: u32,
    pub module_runtime_offset: u32,
}

/// The linker's state for one loaded module. Every table field is an
/// address; zero stands for a table that the module does not have.
#[derive(Clone, Copy, Debug, PartialEq, Eq, Structural)]
pub struct ModuleRuntime {
    pub procedure_linkage_table: u64,
    pub relocations: u64,
    pub module_base: u64,
    pub dynamic_table: u64,
    pub is_rela: bool,
    pub procedure_linkage_table_size: u64,
    pub dt_init: Option<u64>,
    pub dt_fini: Option<u64>,
    pub hash_bucket: u64,
    pub hash_chain: u64,
    pub dynamic_str: u64,
    pub dynamic_symbols: u64,
    pub dynamic_str_size: u64,
    pub global_offset_table: u64,
    pub rela_dynamic_size: u64,
    pub rel_dynamic_size: u64,
    pub rel_count: u64,
    pub rela_count: u64,
    pub hash_nchain_value: u64,
    pub hash_nbucket_value: u64,
    pub got_stub_ptr: u64,
    pub soname_idx: u64,
    pub nro_size: u64,
    pub cannot_revert_symbols: bool,
}

impl Image {
    /// The module header whose first byte is at `addr`.
    pub open spec fn module_header(self, addr: int) -> Option<Module> {
        if self.contains(addr, MODULE_HEADER_SIZE as int) {
            Some(
                Module {
                    address: addr as u64,
                    magic: self.u32_at(addr) as u32,
                    dynamic_offset: self.u32_at(addr + 4) as u32,
                    bss_start_offset: self.u32_at(addr + 8) as u32,
                    bss_end_offset: self.u32_at(addr + 12) as u32,
                    exception_info_start_offset: self.u32_at(addr + 16) as u32,
                    exception_info_end_offset: self.u32_at(addr + 20) as u32,
                    module_runtime_offset: self.u32_at(addr + 24) as u32,
                },
            )
        } else {
            None
        }
    }

    /// The header of the module that the image holds: the four bytes at
    /// `base + 4` give its distance from `base`.
    pub open spec fn module(self) -> Option<Module> {
        if self.contains(self.base + 4, 4) {
            self.module_header(self.arch.wrap(self.base + self.u32_at(self.base + 4)) as int)
        } else {
            None
        }
    }
}

impl Module {
    /// Whether the header carries the module magic.
    pub open spec fn spec_is_valid(&self) -> bool {
        self.magic == MODULE_MAGIC
    }

    /// The address of the module's dynamic table.
    pub open spec fn dynamic_table(self, arch: Arch) -> u64 {
        arch.wrap(self.address + self.dynamic_offset)
    }

    /// The address at which the module keeps its linker state.
    pub open spec fn module_runtime(self, arch: Arch) -> u64 {
        arch.wrap(self.address + self.module_runtime_offset)
    }

    /// The image with the module's zero-initialised range cleared; unchanged
    /// where the range ends before it starts or leaves the image.
    pub open spec fn cleared(self, image: Image) -> Image {
        image.zeroed(
            image.arch.wrap(self.address + self.bss_start_offset) as int,
            self.bss_end_offset - self.bss_start_offset,
        )
    }

    /// Whether the module's zero-initialised range lies inside `image`.
    pub open spec fn bss_in(self, image: Image) -> bool {
        &&& self.bss_start_offset <= self.bss_end_offset
        &&& image.contains(
            image.arch.wrap(self.address + self.bss_start_offset) as int,
            self.bss_end_offset - self.bss_start_offset,
        )
    }

    /// Reads the header of the module that `image` holds; `None` where the
    /// header does not lie inside the image.
    pub fn get_module_by_module_base(image: &Memory) -> (module: Option<Self>)
        ensures
            module == image@.module(),
    {
        let arch = image.arch;
        if image.locate(image.base, 8).is_none() {
            return None;
        }
        let module_offset = image.read_u32(image.base + 4).unwrap();
        let addr = arch.offset(image.base, module_offset as u64);
        if image.locate(addr, MODULE_HEADER_SIZE).is_none() {
            return None;
        }
        Some(
            Module {
                address: addr,
                magic: image.read_u32(addr).unwrap(),
                dynamic_offset: image.read_u32(addr + 4).unwrap(),
                bss_start_offset: image.read_u32(addr + 8).unwrap(),
                bss_end_offset: image.read_u32(addr + 12).unwrap(),
                exception_info_start_offset: image.read_u32(addr + 16).unwrap(),
                exception_info_end_offset: image.read_u32(addr + 20).unwrap(),
                module_runtime_offset: image.read_u32(addr + 24).unwrap(),
            },
        )
    }

    /// Whether the header carries the module magic.
    #[verifier::when_used_as_spec(spec_is_valid)]
    pub fn is_valid(&self) -> (valid: bool)
        ensures
            valid == self.spec_is_valid(),
    {
        self.magic == MODULE_MAGIC
    }

    /// The address of the module's dynamic table.
    pub fn get_dynamic_table(&self, arch: Arch) -> (address: u64)
        ensures
            address == self.dynamic_table(arch),
    {
        arch.offset(self.address, self.dynamic_offset as u64)
    }

    /// The address at which the module keeps its linker state.
    pub fn get_module_runtime(&self, arch: Arch) -> (address: u64)
        ensures
            address == self.module_runtime(arch),
    {
        arch.offset(self.address, self.module_runtime_offset as u64)
    }

    /// Sets the module's zero-initialised range to zero, and says whether the
    /// range lies inside the image. Where it does not, nothing is written.
    pub fn clear_bss(&self, image: &mut Memory) -> (cleared: bool)
        ensures
            cleared == self.bss_in(old(image)@),
            final(image)@ == self.cleared(old(image)@),
    {
        if self.bss_end_offset < self.bss_start_offset {
            return false;
        }
        let start = image.arch.offset(self.address, self.bss_start_offset as u64);
        image.fill_zero(start, (self.bss_end_offset - self.bss_start_offset) as u64)
    }
}

impl ModuleRuntime {
    /// The state of a module of which nothing is known yet.
    pub open spec fn empty() -> ModuleRuntime {
        ModuleRuntime {
            procedure_linkage_table: 0,
            relocations: 0,
            module_base: 0,
            dynamic_table: 0,
            is_rela: false,
            procedure_linkage_table_size: 0,
            dt_init: None,
            dt_fini: None,
            hash_bucket: 0,
            hash_chain: 0,
            dynamic_str: 0,
            dynamic_symbols: 0,
            dynamic_str_size: 0,
            global_offset_table: 0,
            rela_dynamic_size: 0,
            rel_dynamic_size: 0,
            rel_count: 0,
            rela_count: 0,
            hash_nchain_value: 0,
            hash_nbucket_value: 0,
            got_stub_ptr: 0,
            soname_idx: 0,
            nro_size: 0,
            cannot_revert_symbols: false,
        }
    }

    /// The state from which parsing the dynamic table of `module` starts.
    pub open spec fn fresh(image: Image, module: Module) -> ModuleRuntime {
        ModuleRuntime {
            module_base: image.base,
            dynamic_table: module.dynamic_table(image.arch),
            ..Self::empty()
        }
    }

    /// The address that lies `value` bytes above the module's base.
    pub open spec fn at(self, arch: Arch, value: u64) -> u64 {
        arch.wrap(self.module_base + value)
    }

    /// The state after the dynamic table entry `entry`, and the violation
    /// that the entry reveals, if any. An entry fills exactly one field, a
    /// hash table entry the four that describe the table's geometry; an entry
    /// with a tag that the linker does not act on leaves the state as it is.
    pub open spec fn with_entry(self, image: Image, entry: DynamicTableEntry) -> (
        ModuleRuntime,
        Option<Fatal>,
    ) {
        let arch = image.arch;
        let target = self.at(arch, entry.value);
        if entry.tag == DT_PLTRELSZ {
            (ModuleRuntime { procedure_linkage_table_size: entry.value, ..self }, None)
        } else if entry.tag == DT_PLTGOT {
            (ModuleRuntime { global_offset_table: target, ..self }, None)
        } else if entry.tag == DT_HASH {
            if image.contains(target as int, 8) {
                let nbucket = image.u32_at(target as int) as u32;
                let nchain = image.u32_at(target + 4) as u32;
                (
                    ModuleRuntime {
                        hash_nbucket_value: nbucket as u64,
                        hash_nchain_value: nchain as u64,
                        hash_bucket: arch.wrap(target + 8),
                        hash_chain: arch.wrap(target + 8 + 4 * nbucket),
                        ..self
                    },
                    None,
                )
            } else {
                (self, Some(Fatal::OutOfImage))
            }
        } else if entry.tag == DT_STRTAB {
            (ModuleRuntime { dynamic_str: target, ..self }, None)
        } else if entry.tag == DT_SYMTAB {
            (ModuleRuntime { dynamic_symbols: target, ..self }, None)
        } else if entry.tag == DT_RELA || entry.tag == DT_REL {
            (ModuleRuntime { relocations: target, ..self }, None)
        } else if entry.tag == DT_RELASZ {
            (ModuleRuntime { rela_dynamic_size: entry.value, ..self }, None)
        } else if entry.tag == DT_RELAENT {
            (
                self,
                if entry.value == arch.rela_entry_bytes() {
                    None
                } else {
                    Some(Fatal::EntrySizeMismatch)
                },
            )
        } else if entry.tag == DT_STRSZ {
            (ModuleRuntime { dynamic_str_size: entry.value, ..self }, None)
        } else if entry.tag == DT_SYMENT {
            (
                self,
                if entry.value == arch.symbol_entry_bytes() {
                    None
                } else {
                    Some(Fatal::EntrySizeMismatch)
                },
            )
        } else if entry.tag == DT_INIT {
            (ModuleRuntime { dt_init: Some(target), ..self }, None)
        } else if entry.tag == DT_FINI {
            (ModuleRuntime { dt_fini: Some(target), ..self }, None)
        } else if entry.tag == DT_SONAME {
            (ModuleRuntime { soname_idx: entry.value, ..self }, None)
        } else if entry.tag == DT_RELSZ {
            (ModuleRuntime { rel_dynamic_size: entry.value, ..self }, None)
        } else if entry.tag == DT_RELENT {
            (
                self,
                if entry.value == arch.rel_entry_bytes() {
                    None
                } else {
                    Some(Fatal::EntrySizeMismatch)
                },
            )
        } else if entry.tag == DT_PLTREL {
            (
                ModuleRuntime { is_rela: entry.value == DT_RELA, ..self },
                if entry.value == DT_REL || entry.value == DT_RELA {
                    None
                } else {
                    Some(Fatal::UnknownRelocationEncoding)
                },
            )
        } else if entry.tag == DT_JMPREL {
            (ModuleRuntime { procedure_linkage_table: target, ..self }, None)
        } else if entry.tag == DT_RELACOUNT {
            (ModuleRuntime { rela_count: entry.value, ..self }, None)
        } else if entry.tag == DT_RELCOUNT {
            (ModuleRuntime { rel_count: entry.value, ..self }, None)
        } else {
            (self, None)
        }
    }

    /// The state after the dynamic table entries from the one at `addr` on,
    /// up to the null tag, and the violation that stopped the walk, if any.
    /// The walk stops at the null tag, at the first entry that reveals a
    /// violation, and at an entry that does not lie inside the image, which
    /// is a violation itself.
    pub open spec fn parsed_from(self, image: Image, addr: int) -> (ModuleRuntime, Option<Fatal>)
        decreases image.base + image.bytes.len() - addr,
    {
        match image.dynamic_entry(addr) {
            None => (self, Some(Fatal::OutOfImage)),
            Some(entry) => if entry.tag == DT_NULL {
                (self, None)
            } else {
                let step = self.with_entry(image, entry);
                if step.1 is Some {
                    step
                } else {
                    step.0.parsed_from(image, addr + image.arch.dynamic_entry_bytes())
                }
            },
        }
    }

    /// The result of parsing the dynamic table of `module`: the state it
    /// leaves and the violation that stopped it, if any.
    pub open spec fn parsed(image: Image, module: Module) -> (ModuleRuntime, Option<Fatal>) {
        Self::fresh(image, module).parsed_from(image, module.dynamic_table(image.arch) as int)
    }

    /// Applies one dynamic table entry to the state.
    fn apply_entry(&mut self, image: &Memory, entry: &DynamicTableEntry) -> (fatal: Option<Fatal>)
        ensures
            (*final(self), fatal) == old(self).with_entry(image@, *entry),
    {
        let arch = image.arch;
        let target = arch.offset(self.module_base, entry.value);
        let tag = entry.tag;
        if tag == DT_PLTRELSZ {
            self.procedure_linkage_table_size = entry.value;
        } else if tag == DT_PLTGOT {
            self.global_offset_table = target;
        } else if tag == DT_HASH {
            if image.locate(target, 8).is_none() {
                return Some(Fatal::OutOfImage);
            }
            let nbucket = image.read_u32(target).unwrap();
            let nchain = image.read_u32(target + 4).unwrap();
            let bucket = arch.offset(target, 8);
            self.hash_nbucket_value = nbucket as u64;
            self.hash_nchain_value = nchain as u64;
            self.hash_bucket = bucket;
            self.hash_chain = arch.offset(bucket, 4 * (nbucket as u64));
        } else if tag == DT_STRTAB {
            self.dynamic_str = target;
        } else if tag == DT_SYMTAB {
            self.dynamic_symbols = target;
        } else if tag == DT_RELA || tag == DT_REL {
            self.relocations = target;
        } else if tag == DT_RELASZ {
            self.rela_dynamic_size = entry.value;
        } else if tag == DT_RELAENT {
            if entry.value != arch.rela_entry_size() {
                return Some(Fatal::EntrySizeMismatch);
            }
        } else if tag == DT_STRSZ {
            self.dynamic_str_size = entry.value;
        } else if tag == DT_SYMENT {
            if entry.value != arch.symbol_entry_size() {
                return Some(Fatal::EntrySizeMismatch);
            }
        } else if tag == DT_INIT {
            self.dt_init = Some(target);
        } else if tag == DT_FINI {
            self.dt_fini = Some(target);
        } else if tag == DT_SONAME {
            self.soname_idx = entry.value;
        } else if tag == DT_RELSZ {
            self.rel_dynamic_size = entry.value;
        } else if tag == DT_RELENT {
            if entry.value != arch.rel_entry_size() {
                return Some(Fatal::EntrySizeMismatch);
            }
        } else if tag == DT_PLTREL {
            self.is_rela = entry.value == DT_RELA as u64;
            if entry.value != DT_REL as u64 && entry.value != DT_RELA as u64 {
                return Some(Fatal::UnknownRelocationEncoding);
            }
        } else if tag == DT_JMPREL {
            self.procedure_linkage_table = target;
        } else if tag == DT_RELACOUNT {
            self.rela_count = entry.value;
        } else if tag == DT_RELCOUNT {
            self.rel_count = entry.value;
        }
        None
    }

    /// Resets the state and fills it from the dynamic table of `module`,
    /// which `image` holds. Returns the violation that stopped the walk.
    pub fn initialize(&mut self, image: &Memory, module: &Module) -> (result: Result<(), Fatal>)
        ensures
            *final(self) == Self::parsed(image@, *module).0,
            result == match Self::parsed(image@, *module).1 {
                Some(fatal) => Err::<(), Fatal>(fatal),
                None => Ok::<(), Fatal>(()),
            },
    {
        let arch = image.arch;
        *self = ModuleRuntime::default();
        self.module_base = image.base;
        self.dynamic_table = module.get_dynamic_table(arch);
        let table = self.dynamic_table;
        let size = arch.dynamic_entry_size();
        let mut index: u64 = 0;
        loop
            invariant
                size == arch.dynamic_entry_bytes(),
                arch == image.arch,
                table == module.dynamic_table(arch),
                self.parsed_from(image@, table + index * size) == Self::parsed(image@, *module),
            decreases image.base + image.bytes.len() - (table + index * size),
        {
            let entry = match entry_address(table, index, size) {
                Some(addr) => DynamicTableEntry::read(image, addr),
                None => None,
            };
            match entry {
                None => {
                    return Err(Fatal::OutOfImage);
                },
                Some(entry) => {
                    if entry.tag == DT_NULL {
                        return Ok(());
                    }
                    if let Some(fatal) = self.apply_entry(image, &entry) {
                        return Err(fatal);
                    }
                    assert(index < 0x2000_0000_0000_0000) by (nonlinear_arith)
                        requires
                            table + index * size + size <= 0x1_0000_0000_0000_0000,
                            size >= 8,
                            table >= 0,
                    ;
                    assert((index + 1) * size == index * size + size) by (nonlinear_arith);
                    index = index + 1;
                },
            }
        }
    }
}

impl Default for ModuleRuntime {
    fn default() -> (runtime: Self)
        ensures
            runtime == ModuleRuntime::empty(),
    {
        ModuleRuntime {
            procedure_linkage_table: 0,
            relocations: 0,
            module_base: 0,
            dynamic_table: 0,
            is_rela: false,
            procedure_linkage_table_size: 0,
            dt_init: None,
            dt_fini: None,
            hash_bucket: 0,
            hash_chain: 0,
            dynamic_str: 0,
            dynamic_symbols: 0,
            dynamic_str_size: 0,
            global_offset_table: 0,
            rela_dynamic_size: 0,
            rel_dynamic_size: 0,
            rel_count: 0,
            rela_count: 0,
            hash_nchain_value: 0,
            hash_nbucket_value: 0,
            got_stub_ptr: 0,
            soname_idx: 0,
            nro_size: 0,
            cannot_revert_symbols: false,
        }
    }
}

impl Image {
    /// The address of entry `index` of the dynamic table at `table`.
    pub open spec fn dynamic_entry_address(self, table: int, index: int) -> int {
        table + index * self.arch.dynamic_entry_bytes()
    }

    /// Whether the dynamic table at `table` holds `count` entries with a tag
    /// other than the null tag, followed by an entry with the null tag, all
    /// of them inside the image.
    pub open spec fn terminated_after(self, table: int, count: nat) -> bool {
        &&& forall|i: int|
            0 <= i < count ==> self.dynamic_entry(#[trigger] self.dynamic_entry_address(table, i))
                is Some && self.dynamic_entry(self.dynamic_entry_address(table, i)).unwrap().tag
                != DT_NULL
        &&& self.dynamic_entry(self.dynamic_entry_address(table, count as int)) is Some
        &&& self.dynamic_entry(self.dynamic_entry_address(table, count as int)).unwrap().tag
            == DT_NULL
    }

    /// The first `count` entries of the dynamic table at `table`, in table
    /// order.
    pub open spec fn dynamic_entries(self, table: int, count: nat) -> Seq<DynamicTableEntry> {
        Seq::new(
            count,
            |i: int| self.dynamic_entry(self.dynamic_entry_address(table, i)).unwrap(),
        )
    }
}

impl ModuleRuntime {
    /// The state after the dynamic table entries `entries`, each applied
    /// once, in order, up to the first that reveals a violation.
    pub open spec fn with_entries(self, image: Image, entries: Seq<DynamicTableEntry>) -> (
        ModuleRuntime,
        Option<Fatal>,
    )
        decreases entries.len(),
    {
        if entries.len() == 0 {
            (self, None)
        } else {
            let step = self.with_entry(image, entries[0]);
            if step.1 is Some {
                step
            } else {
                step.0.with_entries(image, entries.skip(1))
            }
        }
    }

    /// Parsing a dynamic table that ends in a null tag applies every entry
    /// before the null tag exactly once, in table order, and nothing that
    /// lies behind the null tag: the result is that of applying the `count`
    /// entries before it, whatever follows them in memory.
    pub proof fn lemma_parse_stops_at_null_tag(self, image: Image, table: int, count: nat)
        requires
            image.terminated_after(table, count),
        ensures
            self.parsed_from(image, table) == self.with_entries(
                image,
                image.dynamic_entries(table, count),
            ),
        decreases count,
    {
        let size = image.arch.dynamic_entry_bytes();
        let entries = image.dynamic_entries(table, count);
        assert(image.dynamic_entry_address(table, 0) == table);
        if count == 0 {
        } else {
            let step = self.with_entry(image, entries[0]);
            assert(entries[0] == image.dynamic_entry(table).unwrap());
            let next = table + size;
            assert forall|i: int| 0 <= i <= count - 1 implies image.dynamic_entry_address(next, i)
                == #[trigger] image.dynamic_entry_address(table, i + 1) by {
                assert((i + 1) * size == i * size + size) by (nonlinear_arith);
            }
            assert(image.terminated_after(next, (count - 1) as nat)) by {
                assert forall|i: int| 0 <= i < count - 1 implies image.dynamic_entry(
                    #[trigger] image.dynamic_entry_address(next, i),
                ) is Some && image.dynamic_entry(
                    image.dynamic_entry_address(next, i),
                ).unwrap().tag != DT_NULL by {
                    assert(image.dynamic_entry_address(next, i) == image.dynamic_entry_address(
                        table,
                        i + 1,
                    ));
                }
                assert(image.dynamic_entry_address(next, count - 1)
                    == image.dynamic_entry_address(table, (count - 1) + 1));
            }
            assert(image.dynamic_entries(next, (count - 1) as nat) =~= entries.skip(1)) by {
                assert forall|i: int| 0 <= i < count - 1 implies image.dynamic_entries(
                    next,
                    (count - 1) as nat,
                )[i] == entries.skip(1)[i] by {
                    assert(image.dynamic_entry_address(next, i) == image.dynamic_entry_address(
                        table,
                        i + 1,
                    ));
                }
            }
            if step.1 is None {
                step.0.lemma_parse_stops_at_null_tag(image, next, (count - 1) as nat);
            }
        }
    }
}

} // verus!
