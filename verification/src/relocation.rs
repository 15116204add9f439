//! What a relocation entry does to a module's memory.

use vstd::prelude::*;
use crate::arch::Arch;
use crate::elf::{entry_address, RelocationTableAddendEntry, RelocationTableEntry};
use crate::memory::{Image, Memory};

verus! {

/// The behaviour that the two encodings of a relocation entry share.
pub trait Relocation: Sized {
    /// The packed type and symbol index.
    fn get_info(&self) -> u64;

    /// The distance of the fixup target from the module's base.
    fn get_offset(&self) -> u64;

    /// The word that the fixup stands for, given the address `value` that it
    /// refers to.
    fn compute_value(&self, arch: Arch, value: u64) -> u64;

    /// Patches the word at the fixup target of the module at `module_base`
    /// for the address `value`, and says whether the target lies inside the
    /// image. Where it does not, nothing is written.
    fn apply(&self, image: &mut Memory, module_base: u64, value: u64) -> bool;

    /// The relocation type.
    fn get_type(&self, arch: Arch) -> u64;

    /// The index of the symbol that the relocation refers to.
    fn get_symbol_index(&self, arch: Arch) -> u64;
}

impl Image {
    /// The address of the fixup target `offset` bytes above `module_base`.
    pub open spec fn target(self, module_base: u64, offset: u64) -> u64 {
        self.arch.wrap(module_base + offset)
    }

    /// Whether the word at that fixup target lies inside the image.
    pub open spec fn holds_target(self, module_base: u64, offset: u64) -> bool {
        self.contains(self.target(module_base, offset) as int, self.arch.word_bytes())
    }
}

impl RelocationTableEntry {
    /// The word the fixup stands for: the address itself.
    pub open spec fn computed(self, arch: Arch, value: u64) -> u64 {
        value
    }

    /// The image after the fixup: `value` is added onto the word stored at
    /// the target.
    pub open spec fn applied(self, image: Image, module_base: u64, value: u64) -> Image {
        let target = image.target(module_base, self.offset);
        image.write_word(target as int, image.arch.wrap(image.word_at(target as int) + value))
    }
}

impl RelocationTableAddendEntry {
    /// The word the fixup stands for: the address plus the addend.
    pub open spec fn computed(self, arch: Arch, value: u64) -> u64 {
        arch.wrap(value + self.addend)
    }

    /// The image after the fixup: the target holds the address plus the
    /// addend.
    pub open spec fn applied(self, image: Image, module_base: u64, value: u64) -> Image {
        let target = image.target(module_base, self.offset);
        image.write_word(target as int, self.computed(image.arch, value))
    }
}

impl Relocation for RelocationTableEntry {
    fn get_info(&self) -> (info: u64)
        ensures
            info == self.info,
    {
        self.info
    }

    fn get_offset(&self) -> (offset: u64)
        ensures
            offset == self.offset,
    {
        self.offset
    }

    fn compute_value(&self, arch: Arch, value: u64) -> (word: u64)
        ensures
            word == self.computed(arch, value),
    {
        value
    }

    fn apply(&self, image: &mut Memory, module_base: u64, value: u64) -> (patched: bool)
        ensures
            patched == old(image)@.holds_target(module_base, self.offset),
            final(image)@ == self.applied(old(image)@, module_base, value),
    {
        let arch = image.arch;
        let target = arch.offset(module_base, self.offset);
        match image.read_word(target) {
            Some(stored) => image.write_word(target, arch.offset(stored, value)),
            None => false,
        }
    }

    fn get_type(&self, arch: Arch) -> (reloc_type: u64)
        ensures
            reloc_type == arch.type_of(self.info),
    {
        arch.relocation_type(self.info)
    }

    fn get_symbol_index(&self, arch: Arch) -> (index: u64)
        ensures
            index == arch.symbol_index_of(self.info),
    {
        arch.relocation_symbol_index(self.info)
    }
}

impl Relocation for RelocationTableAddendEntry {
    fn get_info(&self) -> (info: u64)
        ensures
            info == self.info,
    {
        self.info
    }

    fn get_offset(&self) -> (offset: u64)
        ensures
            offset == self.offset,
    {
        self.offset
    }

    fn compute_value(&self, arch: Arch, value: u64) -> (word: u64)
        ensures
            word == self.computed(arch, value),
    {
        arch.offset_signed(value, self.addend)
    }

    fn apply(&self, image: &mut Memory, module_base: u64, value: u64) -> (patched: bool)
        ensures
            patched == old(image)@.holds_target(module_base, self.offset),
            final(image)@ == self.applied(old(image)@, module_base, value),
    {
        let arch = image.arch;
        let target = arch.offset(module_base, self.offset);
        let word = self.compute_value(arch, value);
        image.write_word(target, word)
    }

    fn get_type(&self, arch: Arch) -> (reloc_type: u64)
        ensures
            reloc_type == arch.type_of(self.info),
    {
        arch.relocation_type(self.info)
    }

    fn get_symbol_index(&self, arch: Arch) -> (index: u64)
        ensures
            index == arch.symbol_index_of(self.info),
    {
        arch.relocation_symbol_index(self.info)
    }
}

/// A relocation entry in either encoding.
#[derive(Clone, Copy, Debug, PartialEq, Eq, Structural)]
pub enum TableRelocation {
    /// Without addend: the stored word is the addend.
    Implicit(RelocationTableEntry),
    /// With an explicit addend.
    Explicit(RelocationTableAddendEntry),
}

impl TableRelocation {
    /// The distance of the fixup target from the module's base.
    pub open spec fn offset(self) -> u64 {
        match self {
            TableRelocation::Implicit(entry) => entry.offset,
            TableRelocation::Explicit(entry) => entry.offset,
        }
    }

    /// The packed type and symbol index.
    pub open spec fn info(self) -> u64 {
        match self {
            TableRelocation::Implicit(entry) => entry.info,
            TableRelocation::Explicit(entry) => entry.info,
        }
    }

    /// The word that the fixup stands for, given the address `value`.
    pub open spec fn computed(self, arch: Arch, value: u64) -> u64 {
        match self {
            TableRelocation::Implicit(entry) => entry.computed(arch, value),
            TableRelocation::Explicit(entry) => entry.computed(arch, value),
        }
    }

    /// The image after the fixup has been applied for the address `value`.
    pub open spec fn applied(self, image: Image, module_base: u64, value: u64) -> Image {
        match self {
            TableRelocation::Implicit(entry) => entry.applied(image, module_base, value),
            TableRelocation::Explicit(entry) => entry.applied(image, module_base, value),
        }
    }

    /// Bytes of one entry of a table in the given encoding.
    pub open spec fn entry_bytes(arch: Arch, is_rela: bool) -> int {
        if is_rela {
            arch.rela_entry_bytes()
        } else {
            arch.rel_entry_bytes()
        }
    }

    /// Reads entry `index` of the relocation table at `table`, which is in
    /// the encoding with addend where `is_rela` holds; `None` where the entry
    /// does not lie inside the image.
    pub fn read(image: &Memory, table: u64, is_rela: bool, index: u64) -> (entry: Option<Self>)
        ensures
            entry == image@.relocation(table, is_rela, index as int),
    {
        let arch = image.arch;
        if is_rela {
            match entry_address(table, index, arch.rela_entry_size()) {
                Some(addr) => match RelocationTableAddendEntry::read(image, addr) {
                    Some(entry) => Some(TableRelocation::Explicit(entry)),
                    None => None,
                },
                None => None,
            }
        } else {
            match entry_address(table, index, arch.rel_entry_size()) {
                Some(addr) => match RelocationTableEntry::read(image, addr) {
                    Some(entry) => Some(TableRelocation::Implicit(entry)),
                    None => None,
                },
                None => None,
            }
        }
    }

    /// Bytes of one entry of a table in the given encoding.
    pub fn entry_size(arch: Arch, is_rela: bool) -> (size: u64)
        ensures
            size == Self::entry_bytes(arch, is_rela),
    {
        if is_rela {
            arch.rela_entry_size()
        } else {
            arch.rel_entry_size()
        }
    }
}

impl Image {
    /// Entry `index` of the relocation table at `table`.
    pub open spec fn relocation(self, table: u64, is_rela: bool, index: int) -> Option<
        TableRelocation,
    > {
        if is_rela {
            match self.rela_entry(table + index * self.arch.rela_entry_bytes()) {
                Some(entry) => Some(TableRelocation::Explicit(entry)),
                None => None,
            }
        } else {
            match self.rel_entry(table + index * self.arch.rel_entry_bytes()) {
                Some(entry) => Some(TableRelocation::Implicit(entry)),
                None => None,
            }
        }
    }
}

impl Relocation for TableRelocation {
    fn get_info(&self) -> (info: u64)
        ensures
            info == self.info(),
    {
        match self {
            TableRelocation::Implicit(entry) => entry.get_info(),
            TableRelocation::Explicit(entry) => entry.get_info(),
        }
    }

    fn get_offset(&self) -> (offset: u64)
        ensures
            offset == self.offset(),
    {
        match self {
            TableRelocation::Implicit(entry) => entry.get_offset(),
            TableRelocation::Explicit(entry) => entry.get_offset(),
        }
    }

    fn compute_value(&self, arch: Arch, value: u64) -> (word: u64)
        ensures
            word == self.computed(arch, value),
    {
        match self {
            TableRelocation::Implicit(entry) => entry.compute_value(arch, value),
            TableRelocation::Explicit(entry) => entry.compute_value(arch, value),
        }
    }

    fn apply(&self, image: &mut Memory, module_base: u64, value: u64) -> (patched: bool)
        ensures
            patched == old(image)@.holds_target(module_base, self.offset()),
            final(image)@ == self.applied(old(image)@, module_base, value),
    {
        match self {
            TableRelocation::Implicit(entry) => entry.apply(image, module_base, value),
            TableRelocation::Explicit(entry) => entry.apply(image, module_base, value),
        }
    }

    fn get_type(&self, arch: Arch) -> (reloc_type: u64)
        ensures
            reloc_type == arch.type_of(self.info()),
    {
        match self {
            TableRelocation::Implicit(entry) => entry.get_type(arch),
            TableRelocation::Explicit(entry) => entry.get_type(arch),
        }
    }

    fn get_symbol_index(&self, arch: Arch) -> (index: u64)
        ensures
            index == arch.symbol_index_of(self.info()),
    {
        match self {
            TableRelocation::Implicit(entry) => entry.get_symbol_index(arch),
            TableRelocation::Explicit(entry) => entry.get_symbol_index(arch),
        }
    }
}

impl RelocationTableAddendEntry {
    /// After a fixup with addend, the target holds the address plus the
    /// addend.
    pub proof fn lemma_target_holds_sum(self, image: Image, module_base: u64, value: u64)
        requires
            image.holds_target(module_base, self.offset),
        ensures
            self.applied(image, module_base, value).read_word(
                image.target(module_base, self.offset) as int,
            ) == Some(image.arch.wrap(value + self.addend)),
    {
        image.lemma_read_after_write(
            image.target(module_base, self.offset) as int,
            self.computed(image.arch, value),
        );
    }
}

impl RelocationTableEntry {
    /// After a fixup without addend, the target holds the address plus the
    /// word that the target held before.
    pub proof fn lemma_target_holds_sum(self, image: Image, module_base: u64, value: u64)
        requires
            image.holds_target(module_base, self.offset),
        ensures
            self.applied(image, module_base, value).read_word(
                image.target(module_base, self.offset) as int,
            ) == Some(
                image.arch.wrap(
                    image.read_word(image.target(module_base, self.offset) as int).unwrap()
                        + value,
                ),
            ),
    {
        let target = image.target(module_base, self.offset) as int;
        image.lemma_read_after_write(
            target,
            image.arch.wrap(image.word_at(target) + value),
        );
    }
}

} // verus!
