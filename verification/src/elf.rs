//! The records of a module's linking metadata and how they lie in memory.

use vstd::prelude::*;
use crate::arch::Arch;
use crate::memory::{Image, Memory};

verus! {

/// Ends the dynamic table.
pub const DT_NULL: i64 = 0;

/// The name of a library that the module needs.
pub const DT_NEEDED: i64 = 1;

/// Bytes of the procedure linkage table.
pub const DT_PLTRELSZ: i64 = 2;

/// Where the global offset table lies.
pub const DT_PLTGOT: i64 = 3;

/// Where the symbol hash table lies.
pub const DT_HASH: i64 = 4;

/// Where the string table lies.
pub const DT_STRTAB: i64 = 5;

/// Where the symbol table lies.
pub const DT_SYMTAB: i64 = 6;

/// Where the relocation table with addends lies.
pub const DT_RELA: i64 = 7;

/// Bytes of the relocation table with addends.
pub const DT_RELASZ: i64 = 8;

/// Bytes of a relocation entry with addend.
pub const DT_RELAENT: i64 = 9;

/// Bytes of the string table.
pub const DT_STRSZ: i64 = 10;

/// Bytes of a symbol table entry.
pub const DT_SYMENT: i64 = 11;

/// Where the initializer lies.
pub const DT_INIT: i64 = 12;

/// Where the finalizer lies.
pub const DT_FINI: i64 = 13;

/// The offset of the module's name in the string table.
pub const DT_SONAME: i64 = 14;

/// The library search path.
pub const DT_RPATH: i64 = 15;

/// Asks for the module's own symbols to be searched first.
pub const DT_SYMBOLIC: i64 = 16;

/// Where the relocation table without addends lies.
pub const DT_REL: i64 = 17;

/// Bytes of the relocation table without addends.
pub const DT_RELSZ: i64 = 18;

/// Bytes of a relocation entry without addend.
pub const DT_RELENT: i64 = 19;

/// The encoding of the procedure linkage table: `DT_REL` or `DT_RELA`.
pub const DT_PLTREL: i64 = 20;

/// Reserved for debuggers.
pub const DT_DEBUG: i64 = 21;

/// Says that relocations may patch code.
pub const DT_TEXTREL: i64 = 22;

/// Where the procedure linkage table lies.
pub const DT_JMPREL: i64 = 23;

/// The number of base-relative entries with addend.
pub const DT_RELACOUNT: i64 = 0x6ffffff9;

/// The number of base-relative entries without addend.
pub const DT_RELCOUNT: i64 = 0x6ffffffa;

/// Section index of a symbol that the module only refers to.
pub const SHN_UNDEF: u16 = 0;

/// Section index of a not yet allocated common block.
pub const SHN_COMMON: u16 = 0xfff2;

impl Arch {
    /// The value of a machine word read as a two's complement number.
    pub open spec fn signed(self, word: u64) -> int {
        if self.wrap(word as int) >= self.modulus() / 2 {
            self.wrap(word as int) - self.modulus()
        } else {
            self.wrap(word as int) as int
        }
    }

    /// Bytes of a dynamic table entry: a tag and a value.
    pub open spec fn dynamic_entry_bytes(self) -> int {
        2 * self.word_bytes()
    }

    /// Bytes of a relocation entry without addend: an offset and an info word.
    pub open spec fn rel_entry_bytes(self) -> int {
        2 * self.word_bytes()
    }

    /// Bytes of a relocation entry with addend.
    pub open spec fn rela_entry_bytes(self) -> int {
        3 * self.word_bytes()
    }

    /// Bytes of a symbol table entry.
    pub open spec fn symbol_entry_bytes(self) -> int {
        match self {
            Arch::Arm => 16,
            Arch::Aarch64 => 24,
        }
    }

    /// Reads a machine word as a two's complement number. On a 32-bit
    /// target only the low half of `word` counts.
    pub fn signed_word(self, word: u64) -> (value: i64)
        ensures
            value == self.signed(word),
    {
        match self {
            Arch::Arm => {
                let low: u64 = word % 0x1_0000_0000;
                if low >= 0x8000_0000 {
                    (low as i64) - 0x1_0000_0000
                } else {
                    low as i64
                }
            },
            Arch::Aarch64 => {
                if word >= 0x8000_0000_0000_0000 {
                    ((word - 0x8000_0000_0000_0000) as i64) + i64::MIN
                } else {
                    word as i64
                }
            },
        }
    }

    /// Bytes of a dynamic table entry.
    pub fn dynamic_entry_size(self) -> (size: u64)
        ensures
            size == self.dynamic_entry_bytes(),
    {
        2 * self.word_size()
    }

    /// Bytes of a relocation entry without addend.
    pub fn rel_entry_size(self) -> (size: u64)
        ensures
            size == self.rel_entry_bytes(),
    {
        2 * self.word_size()
    }

    /// Bytes of a relocation entry with addend.
    pub fn rela_entry_size(self) -> (size: u64)
        ensures
            size == self.rela_entry_bytes(),
    {
        3 * self.word_size()
    }

    /// Bytes of a symbol table entry.
    pub fn symbol_entry_size(self) -> (size: u64)
        ensures
            size == self.symbol_entry_bytes(),
    {
        match self {
            Arch::Arm => 16,
            Arch::Aarch64 => 24,
        }
    }
}

/// One entry of a module's dynamic table.
#[derive(Clone, Copy, Debug, PartialEq, Eq, Structural)]
pub struct DynamicTableEntry {
    pub tag: i64,
    pub value: u64,
}

/// What a symbol names.
#[derive(Clone, Copy, Debug, PartialEq, Eq, Structural)]
pub enum SymbolType {
    NoType,
    Object,
    Function,
    Section,
    File,
    Common,
    ThreadLocalStorage,
}

/// The type and binding byte of a symbol: the type in the low four bits,
/// then one bit each for global binding, weak binding, and the two reserved
/// ranges.
#[derive(Clone, Copy, Debug, PartialEq, Eq, Structural)]
pub struct SymbolInfo {
    pub byte: u8,
}

/// Who may resolve a symbol.
#[derive(Clone, Copy, Debug, PartialEq, Eq, Structural)]
pub enum SymbolVisibility {
    Default,
    Internal,
    Hidden,
    Protected,
}

/// The visibility byte of a symbol: the visibility in the low two bits.
#[derive(Clone, Copy, Debug, PartialEq, Eq, Structural)]
pub struct SymbolOther {
    pub byte: u8,
}

/// One entry of a module's symbol table.
#[derive(Clone, Copy, Debug, PartialEq, Eq, Structural)]
pub struct SymbolTableEntry {
    pub name_offset: u32,
    pub info: SymbolInfo,
    pub other: SymbolOther,
    pub section: u16,
    pub value: u64,
    pub size: u64,
}

/// A relocation whose addend is the word already stored at its target.
#[derive(Clone, Copy, Debug, PartialEq, Eq, Structural)]
pub struct RelocationTableEntry {
    pub offset: u64,
    pub info: u64,
}

/// A relocation that carries its addend.
#[derive(Clone, Copy, Debug, PartialEq, Eq, Structural)]
pub struct RelocationTableAddendEntry {
    pub offset: u64,
    pub info: u64,
    pub addend: i64,
}

impl SymbolInfo {
    /// Whether the bit for global binding is set: bit 4.
    pub open spec fn spec_bind_global(&self) -> bool {
        self.byte / 16 % 2 == 1
    }

    /// Whether the bit for weak binding is set: bit 5.
    pub open spec fn spec_bind_weak(&self) -> bool {
        self.byte / 32 % 2 == 1
    }

    /// Whether the symbol may be exported to other modules: its binding is
    /// global or weak.
    pub open spec fn exported(self) -> bool {
        self.spec_bind_global() || self.spec_bind_weak()
    }

    /// The record that the byte `byte` holds.
    pub fn from_bytes(byte: u8) -> (info: Self)
        ensures
            info.byte == byte,
    {
        SymbolInfo { byte }
    }

    /// The byte that holds the record.
    pub fn into_bytes(self) -> (byte: u8)
        ensures
            byte == self.byte,
    {
        self.byte
    }

    /// The symbol's type; `None` for a bit pattern that names no type.
    pub fn symbol_type(&self) -> (symbol_type: Option<SymbolType>)
        ensures
            symbol_type == match self.byte % 16 {
                0 => Some(SymbolType::NoType),
                1 => Some(SymbolType::Object),
                2 => Some(SymbolType::Function),
                3 => Some(SymbolType::Section),
                4 => Some(SymbolType::File),
                5 => Some(SymbolType::Common),
                6 => Some(SymbolType::ThreadLocalStorage),
                _ => None,
            },
    {
        let code: u8 = self.byte % 16;
        if code == 0 {
            Some(SymbolType::NoType)
        } else if code == 1 {
            Some(SymbolType::Object)
        } else if code == 2 {
            Some(SymbolType::Function)
        } else if code == 3 {
            Some(SymbolType::Section)
        } else if code == 4 {
            Some(SymbolType::File)
        } else if code == 5 {
            Some(SymbolType::Common)
        } else if code == 6 {
            Some(SymbolType::ThreadLocalStorage)
        } else {
            None
        }
    }

    /// Whether the bit for global binding is set.
    #[verifier::when_used_as_spec(spec_bind_global)]
    pub fn bind_global(&self) -> (set: bool)
        ensures
            set == self.spec_bind_global(),
    {
        self.byte / 16 % 2 == 1
    }

    /// Whether the bit for weak binding is set.
    #[verifier::when_used_as_spec(spec_bind_weak)]
    pub fn bind_weak(&self) -> (set: bool)
        ensures
            set == self.spec_bind_weak(),
    {
        self.byte / 32 % 2 == 1
    }

    /// Whether the bit of the range reserved for operating systems is set: bit 6.
    pub fn os_specific(&self) -> (set: bool)
        ensures
            set == (self.byte / 64 % 2 == 1),
    {
        self.byte / 64 % 2 == 1
    }

    /// Whether the bit of the range reserved for processors is set: bit 7.
    pub fn processor_specific(&self) -> (set: bool)
        ensures
            set == (self.byte / 128 == 1),
    {
        self.byte / 128 == 1
    }
}

impl SymbolOther {
    /// The visibility that the low two bits name.
    pub open spec fn spec_visibility(&self) -> SymbolVisibility {
        match self.byte % 4 {
            0 => SymbolVisibility::Default,
            1 => SymbolVisibility::Internal,
            2 => SymbolVisibility::Hidden,
            _ => SymbolVisibility::Protected,
        }
    }

    /// The record that the byte `byte` holds.
    pub fn from_bytes(byte: u8) -> (other: Self)
        ensures
            other.byte == byte,
    {
        SymbolOther { byte }
    }

    /// The byte that holds the record.
    pub fn into_bytes(self) -> (byte: u8)
        ensures
            byte == self.byte,
    {
        self.byte
    }

    /// The visibility that the low two bits name.
    #[verifier::when_used_as_spec(spec_visibility)]
    pub fn visibility(&self) -> (visibility: SymbolVisibility)
        ensures
            visibility == self.spec_visibility(),
    {
        let code: u8 = self.byte % 4;
        if code == 0 {
            SymbolVisibility::Default
        } else if code == 1 {
            SymbolVisibility::Internal
        } else if code == 2 {
            SymbolVisibility::Hidden
        } else {
            SymbolVisibility::Protected
        }
    }

    /// The six bits above the visibility.
    pub fn reserved(&self) -> (bits: u8)
        ensures
            bits == self.byte / 4,
    {
        self.byte / 4
    }
}

impl SymbolTableEntry {
    /// Whether the symbol is defined in a section of its module: its section
    /// index is neither "undefined" nor "common".
    pub open spec fn defined(self) -> bool {
        self.section != SHN_UNDEF && self.section != SHN_COMMON
    }
}

impl Image {
    /// The dynamic table entry whose first byte is at `addr`.
    pub open spec fn dynamic_entry(self, addr: int) -> Option<DynamicTableEntry> {
        if self.contains(addr, self.arch.dynamic_entry_bytes()) {
            Some(
                DynamicTableEntry {
                    tag: self.arch.signed(self.word_at(addr)) as i64,
                    value: self.word_at(addr + self.arch.word_bytes()),
                },
            )
        } else {
            None
        }
    }

    /// The symbol table entry whose first byte is at `addr`.
    pub open spec fn symbol_entry(self, addr: int) -> Option<SymbolTableEntry> {
        if self.contains(addr, self.arch.symbol_entry_bytes()) {
            Some(
                match self.arch {
                    Arch::Arm => SymbolTableEntry {
                        name_offset: self.u32_at(addr) as u32,
                        value: self.u32_at(addr + 4) as u64,
                        size: self.u32_at(addr + 8) as u64,
                        info: SymbolInfo { byte: self.byte(addr + 12) as u8 },
                        other: SymbolOther { byte: self.byte(addr + 13) as u8 },
                        section: self.u16_at(addr + 14) as u16,
                    },
                    Arch::Aarch64 => SymbolTableEntry {
                        name_offset: self.u32_at(addr) as u32,
                        info: SymbolInfo { byte: self.byte(addr + 4) as u8 },
                        other: SymbolOther { byte: self.byte(addr + 5) as u8 },
                        section: self.u16_at(addr + 6) as u16,
                        value: self.u64_at(addr + 8) as u64,
                        size: self.u64_at(addr + 16) as u64,
                    },
                },
            )
        } else {
            None
        }
    }

    /// The relocation entry without addend whose first byte is at `addr`.
    pub open spec fn rel_entry(self, addr: int) -> Option<RelocationTableEntry> {
        if self.contains(addr, self.arch.rel_entry_bytes()) {
            Some(
                RelocationTableEntry {
                    offset: self.word_at(addr),
                    info: self.word_at(addr + self.arch.word_bytes()),
                },
            )
        } else {
            None
        }
    }

    /// The relocation entry with addend whose first byte is at `addr`.
    pub open spec fn rela_entry(self, addr: int) -> Option<RelocationTableAddendEntry> {
        if self.contains(addr, self.arch.rela_entry_bytes()) {
            Some(
                RelocationTableAddendEntry {
                    offset: self.word_at(addr),
                    info: self.word_at(addr + self.arch.word_bytes()),
                    addend: self.arch.signed(self.word_at(addr + 2 * self.arch.word_bytes())) as i64,
                },
            )
        } else {
            None
        }
    }
}

/// The address of entry `index` of a table of `size`-byte entries that starts
/// at `table`; `None` where no address is that large.
pub fn entry_address(table: u64, index: u64, size: u64) -> (address: Option<u64>)
    ensures
        address is Some <==> table + index * size <= u64::MAX,
        address is Some ==> address.unwrap() == table + index * size,
{
    assert(0 <= index * size <= 0xffff_ffff_ffff_ffff * 0xffff_ffff_ffff_ffff) by (nonlinear_arith)
        requires
            0 <= index <= 0xffff_ffff_ffff_ffff,
            0 <= size <= 0xffff_ffff_ffff_ffff,
    ;
    let span: u128 = index as u128 * size as u128;
    if span > u64::MAX as u128 {
        return None;
    }
    let wide: u128 = table as u128 + span;
    if wide > u64::MAX as u128 {
        None
    } else {
        Some(wide as u64)
    }
}

/// Walks a dynamic table entry by entry, up to its null tag.
#[derive(Clone, Copy, Debug)]
pub struct DynamicTableItererator {
    pub table: u64,
    pub index: u64,
}

impl Image {
    /// Entry `index` of the dynamic table that starts at `table`.
    pub open spec fn dynamic_entry_at(self, table: u64, index: int) -> Option<DynamicTableEntry> {
        self.dynamic_entry(table + index * self.arch.dynamic_entry_bytes())
    }
}

impl DynamicTableItererator {
    /// An iterator that stands at the first entry of the table at `table`.
    pub fn new(table: u64) -> (iterator: Self)
        ensures
            iterator.table == table,
            iterator.index == 0,
    {
        DynamicTableItererator { table, index: 0 }
    }

    /// The entry the iterator stands at, after which it moves on by one; or
    /// `None`, without moving, where that entry carries the null tag or does
    /// not lie inside the image.
    pub fn next(&mut self, image: &Memory) -> (entry: Option<DynamicTableEntry>)
        ensures
            final(self).table == old(self).table,
            entry == match image@.dynamic_entry_at(old(self).table, old(self).index as int) {
                Some(found) => if found.tag == DT_NULL {
                    None
                } else {
                    Some(found)
                },
                None => None,
            },
            final(self).index == if entry is Some {
                old(self).index + 1
            } else {
                old(self).index as int
            },
    {
        let size = image.arch.dynamic_entry_size();
        match entry_address(self.table, self.index, size) {
            Some(addr) => match DynamicTableEntry::read(image, addr) {
                Some(found) => {
                    if found.tag == DT_NULL {
                        None
                    } else {
                        assert(self.index < 0x2000_0000_0000_0000) by (nonlinear_arith)
                            requires
                                self.table + self.index * size + size <= 0x1_0000_0000_0000_0000,
                                size >= 8,
                                self.table >= 0,
                        ;
                        self.index = self.index + 1;
                        Some(found)
                    }
                },
                None => None,
            },
            None => None,
        }
    }
}

impl DynamicTableEntry {
    /// Reads the entry whose first byte is at `addr`; `None` where it does
    /// not lie inside the image.
    pub fn read(image: &Memory, addr: u64) -> (entry: Option<Self>)
        ensures
            entry == image@.dynamic_entry(addr as int),
    {
        let arch = image.arch;
        if image.locate(addr, arch.dynamic_entry_size()).is_none() {
            return None;
        }
        let tag = image.read_word(addr).unwrap();
        let value = image.read_word(addr + arch.word_size()).unwrap();
        Some(DynamicTableEntry { tag: arch.signed_word(tag), value })
    }
}

impl SymbolTableEntry {
    /// Reads the entry whose first byte is at `addr`; `None` where it does
    /// not lie inside the image.
    pub fn read(image: &Memory, addr: u64) -> (entry: Option<Self>)
        ensures
            entry == image@.symbol_entry(addr as int),
    {
        let arch = image.arch;
        if image.locate(addr, arch.symbol_entry_size()).is_none() {
            return None;
        }
        let name_offset = image.read_u32(addr).unwrap();
        match arch {
            Arch::Arm => {
                let value = image.read_u32(addr + 4).unwrap();
                let size = image.read_u32(addr + 8).unwrap();
                let info = image.read_u8(addr + 12).unwrap();
                let other = image.read_u8(addr + 13).unwrap();
                let section = image.read_u16(addr + 14).unwrap();
                Some(
                    SymbolTableEntry {
                        name_offset,
                        info: SymbolInfo { byte: info },
                        other: SymbolOther { byte: other },
                        section,
                        value: value as u64,
                        size: size as u64,
                    },
                )
            },
            Arch::Aarch64 => {
                let info = image.read_u8(addr + 4).unwrap();
                let other = image.read_u8(addr + 5).unwrap();
                let section = image.read_u16(addr + 6).unwrap();
                let value = image.read_u64(addr + 8).unwrap();
                let size = image.read_u64(addr + 16).unwrap();
                Some(
                    SymbolTableEntry {
                        name_offset,
                        info: SymbolInfo { byte: info },
                        other: SymbolOther { byte: other },
                        section,
                        value,
                        size,
                    },
                )
            },
        }
    }
}

impl RelocationTableEntry {
    /// Reads the entry whose first byte is at `addr`; `None` where it does
    /// not lie inside the image.
    pub fn read(image: &Memory, addr: u64) -> (entry: Option<Self>)
        ensures
            entry == image@.rel_entry(addr as int),
    {
        let arch = image.arch;
        if image.locate(addr, arch.rel_entry_size()).is_none() {
            return None;
        }
        let offset = image.read_word(addr).unwrap();
        let info = image.read_word(addr + arch.word_size()).unwrap();
        Some(RelocationTableEntry { offset, info })
    }
}

impl RelocationTableAddendEntry {
    /// Reads the entry whose first byte is at `addr`; `None` where it does
    /// not lie inside the image.
    pub fn read(image: &Memory, addr: u64) -> (entry: Option<Self>)
        ensures
            entry == image@.rela_entry(addr as int),
    {
        let arch = image.arch;
        if image.locate(addr, arch.rela_entry_size()).is_none() {
            return None;
        }
        let offset = image.read_word(addr).unwrap();
        let info = image.read_word(addr + arch.word_size()).unwrap();
        let addend = image.read_word(addr + 2 * arch.word_size()).unwrap();
        Some(RelocationTableAddendEntry { offset, info, addend: arch.signed_word(addend) })
    }
}

} // verus!
