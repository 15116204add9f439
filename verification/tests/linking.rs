use oss_rtld::arch::Arch;
use oss_rtld::bringup::{
    HardcodedSymbols, AUTO_LOAD_LIST_SYMBOL, LOOKUP_GLOBAL_AUTO_SYMBOL,
    LOOKUP_GLOBAL_MANUAL_SYMBOL, MANUAL_LOAD_LIST_SYMBOL, RO_DEBUG_FLAG_SYMBOL,
};
use oss_rtld::elf::{
    DynamicTableEntry, DynamicTableItererator, RelocationTableAddendEntry, RelocationTableEntry,
    SymbolInfo, SymbolOther, SymbolTableEntry, SymbolType, SymbolVisibility,
};
use oss_rtld::fatal::Fatal;
use oss_rtld::linker::{
    resolution, Diagnostic, Linker, LoadedModule, LookupFunction, NoLookup,
};
use oss_rtld::memory::Memory;
use oss_rtld::module::{Module, ModuleRuntime, MODULE_MAGIC};
use oss_rtld::plt::call_site_index;
use oss_rtld::relocation::{Relocation, TableRelocation};
use oss_rtld::symbols::HashBucketIter;

const HEADER: u64 = 0x08;
const DYNAMIC: u64 = 0x100;
const HASH: u64 = 0x300;
const STRTAB: u64 = 0x400;
const STRSZ: u64 = 0x200;
const SYMTAB: u64 = 0x600;
const RELA: u64 = 0x800;
const JMPREL: u64 = 0xa00;
const GOT: u64 = 0xc00;
const STATE: u64 = 0xd00;
const BSS: u64 = 0xf00;
const SIZE: usize = 0x1000;
const NBUCKET: u32 = 4;

const RESOLVER: u64 = 0x8000_1234;
const LINKER_BASE: u64 = 0x8000_0000;
const A_BASE: u64 = 0x7100_0000;
const B_BASE: u64 = 0x7200_0000;

const GLOB_DAT: u64 = 0x401;
const JUMP_SLOT: u64 = 0x402;
const RELATIVE: u64 = 0x403;

const GLOBAL_FUNCTION: u8 = 0x12;
const WEAK_FUNCTION: u8 = 0x22;
const LOCAL_FUNCTION: u8 = 0x02;
const DEFAULT: u8 = 0;
const HIDDEN: u8 = 2;

#[derive(Clone)]
struct Sym {
    name: &'static str,
    info: u8,
    other: u8,
    section: u16,
    value: u64,
}

#[derive(Clone)]
struct Rela {
    offset: u64,
    kind: u64,
    symbol: u64,
    addend: i64,
}

#[derive(Clone)]
struct Layout {
    arch: Arch,
    base: u64,
    symbols: Vec<Sym>,
    relocations: Vec<Rela>,
    relative_count: u64,
    call_sites: Vec<Rela>,
    with_addend: bool,
    words: Vec<(u64, u64)>,
    got: bool,
    init: Option<u64>,
    fini: Option<u64>,
    extra: Vec<(i64, u64)>,
}

fn layout(base: u64) -> Layout {
    Layout {
        arch: Arch::Aarch64,
        base,
        symbols: Vec::new(),
        relocations: Vec::new(),
        relative_count: 0,
        call_sites: Vec::new(),
        with_addend: true,
        words: Vec::new(),
        got: false,
        init: None,
        fini: None,
        extra: Vec::new(),
    }
}

fn defined(name: &'static str, info: u8, other: u8, value: u64) -> Sym {
    Sym { name, info, other, section: 1, value }
}

fn undefined(name: &'static str, info: u8) -> Sym {
    Sym { name, info, other: DEFAULT, section: 0, value: 0 }
}

fn rela(offset: u64, kind: u64, symbol: u64, addend: i64) -> Rela {
    Rela { offset, kind, symbol, addend }
}

fn elf_hash(name: &[u8]) -> u32 {
    let mut h: u32 = 0;
    for byte in name {
        h = (h << 4).wrapping_add(*byte as u32);
        let high = h & 0xf000_0000;
        if high != 0 {
            h ^= high >> 24;
        }
        h &= !high;
    }
    h
}

fn put(bytes: &mut [u8], at: u64, value: u64, width: usize) {
    for k in 0..width {
        bytes[at as usize + k] = (value >> (8 * k)) as u8;
    }
}

fn word(arch: Arch) -> u64 {
    match arch {
        Arch::Arm => 4,
        Arch::Aarch64 => 8,
    }
}

fn put_word(bytes: &mut [u8], arch: Arch, at: u64, value: u64) {
    put(bytes, at, value, word(arch) as usize);
}

fn put_relocations(bytes: &mut [u8], arch: Arch, at: u64, with_addend: bool, entries: &[Rela]) {
    let w = word(arch);
    let size = if with_addend { 3 * w } else { 2 * w };
    for (i, entry) in entries.iter().enumerate() {
        let start = at + i as u64 * size;
        let info = match arch {
            Arch::Arm => (entry.symbol << 8) | entry.kind,
            Arch::Aarch64 => (entry.symbol << 32) | entry.kind,
        };
        put_word(bytes, arch, start, entry.offset);
        put_word(bytes, arch, start + w, info);
        if with_addend {
            put_word(bytes, arch, start + 2 * w, entry.addend as u64);
        }
    }
}

fn build(layout: &Layout) -> Memory {
    let arch = layout.arch;
    let w = word(arch);
    let mut bytes = vec![0u8; SIZE];
    put(&mut bytes, 0x04, HEADER, 4);
    put(&mut bytes, HEADER, MODULE_MAGIC as u64, 4);
    put(&mut bytes, HEADER + 4, DYNAMIC - HEADER, 4);
    put(&mut bytes, HEADER + 8, BSS - HEADER, 4);
    put(&mut bytes, HEADER + 12, BSS + 0x10 - HEADER, 4);
    put(&mut bytes, HEADER + 24, STATE - HEADER, 4);
    for k in 0..0x20 {
        bytes[(BSS - 8) as usize + k] = 0xaa;
    }

    let mut names = vec![0u8];
    let mut buckets = vec![0u32; NBUCKET as usize];
    let mut chains = vec![0u32; layout.symbols.len() + 1];
    let symbol_size = match arch {
        Arch::Arm => 16,
        Arch::Aarch64 => 24,
    };
    for (i, symbol) in layout.symbols.iter().enumerate() {
        let index = i as u32 + 1;
        let name_offset = names.len() as u64;
        names.extend_from_slice(symbol.name.as_bytes());
        names.push(0);
        let bucket = (elf_hash(symbol.name.as_bytes()) % NBUCKET) as usize;
        chains[index as usize] = buckets[bucket];
        buckets[bucket] = index;
        let start = SYMTAB + index as u64 * symbol_size;
        put(&mut bytes, start, name_offset, 4);
        match arch {
            Arch::Arm => {
                put(&mut bytes, start + 4, symbol.value, 4);
                put(&mut bytes, start + 12, symbol.info as u64, 1);
                put(&mut bytes, start + 13, symbol.other as u64, 1);
                put(&mut bytes, start + 14, symbol.section as u64, 2);
            }
            Arch::Aarch64 => {
                put(&mut bytes, start + 4, symbol.info as u64, 1);
                put(&mut bytes, start + 5, symbol.other as u64, 1);
                put(&mut bytes, start + 6, symbol.section as u64, 2);
                put(&mut bytes, start + 8, symbol.value, 8);
            }
        }
    }
    bytes[STRTAB as usize..STRTAB as usize + names.len()].copy_from_slice(&names);
    put(&mut bytes, HASH, NBUCKET as u64, 4);
    put(&mut bytes, HASH + 4, chains.len() as u64, 4);
    for (i, head) in buckets.iter().enumerate() {
        put(&mut bytes, HASH + 8 + 4 * i as u64, *head as u64, 4);
    }
    for (i, next) in chains.iter().enumerate() {
        put(&mut bytes, HASH + 8 + 4 * (NBUCKET as u64 + i as u64), *next as u64, 4);
    }

    put_relocations(&mut bytes, arch, RELA, layout.with_addend, &layout.relocations);
    put_relocations(&mut bytes, arch, JMPREL, layout.with_addend, &layout.call_sites);
    for (offset, value) in &layout.words {
        put_word(&mut bytes, arch, *offset, *value);
    }

    let entry_size = if layout.with_addend { 3 * w } else { 2 * w };
    let mut dynamic: Vec<(i64, u64)> = vec![
        (4, HASH),
        (5, STRTAB),
        (10, STRSZ),
        (6, SYMTAB),
        (11, symbol_size),
        (23, JMPREL),
        (2, layout.call_sites.len() as u64 * entry_size),
    ];
    if layout.with_addend {
        dynamic.push((7, RELA));
        dynamic.push((8, layout.relocations.len() as u64 * entry_size));
        dynamic.push((9, entry_size));
        dynamic.push((0x6ffffff9, layout.relative_count));
        dynamic.push((20, 7));
    } else {
        dynamic.push((17, RELA));
        dynamic.push((18, layout.relocations.len() as u64 * entry_size));
        dynamic.push((19, entry_size));
        dynamic.push((0x6ffffffa, layout.relative_count));
        dynamic.push((20, 17));
    }
    if layout.got {
        dynamic.push((3, GOT));
    }
    if let Some(init) = layout.init {
        dynamic.push((12, init));
    }
    if let Some(fini) = layout.fini {
        dynamic.push((13, fini));
    }
    dynamic.extend_from_slice(&layout.extra);
    dynamic.push((0, 0));
    for (i, (tag, value)) in dynamic.iter().enumerate() {
        put_word(&mut bytes, arch, DYNAMIC + 2 * w * i as u64, *tag as u64);
        put_word(&mut bytes, arch, DYNAMIC + 2 * w * i as u64 + w, *value);
    }
    Memory { arch, base: layout.base, bytes }
}

fn parse(image: &Memory) -> (Module, ModuleRuntime, Result<(), Fatal>) {
    let header = Module::get_module_by_module_base(image).unwrap();
    let mut runtime = ModuleRuntime::default();
    let result = runtime.initialize(image, &header);
    (header, runtime, result)
}

fn new_linker() -> Linker<NoLookup> {
    let mut linker = Linker::new(RESOLVER, true, None);
    let own = linker.relocate_self(build(&layout(LINKER_BASE))).unwrap();
    assert_eq!(own, 0);
    assert!(linker.initialize(own));
    linker
}

fn take_up<L: LookupFunction>(linker: &mut Linker<L>, layout: &Layout) -> usize {
    let loaded = LoadedModule::discover(build(layout)).unwrap();
    let handle = linker.insert(loaded);
    assert!(linker.link(handle));
    handle
}

fn targets() -> HardcodedSymbols {
    HardcodedSymbols {
        auto_load_list: 0x8000_0100,
        manual_load_list: 0x8000_0200,
        ro_debug_flag: 0x8000_0300,
        lookup_global_auto: 0x8000_0400,
        lookup_global_manual: 0x8000_0500,
    }
}

fn word_at<L: LookupFunction>(linker: &Linker<L>, module: usize, offset: u64) -> u64 {
    let loaded = linker.module(module).unwrap();
    loaded.image.read_word(loaded.image.base + offset).unwrap()
}

fn exporter() -> Layout {
    let mut a = layout(A_BASE);
    a.symbols = vec![
        defined("foo", GLOBAL_FUNCTION, DEFAULT, 0x100),
        defined("weak_thing", WEAK_FUNCTION, DEFAULT, 0x180),
        defined("private", LOCAL_FUNCTION, DEFAULT, 0x1c0),
    ];
    a
}

struct FixedLookup {
    name: &'static [u8],
    address: u64,
}

impl LookupFunction for FixedLookup {
    fn lookup(&self, module: usize, name: &[u8]) -> u64 {
        if name == self.name {
            self.address + module as u64
        } else {
            0
        }
    }
}

#[test]
fn the_header_is_found_through_the_module_offset() {
    let image = build(&layout(A_BASE));
    let header = Module::get_module_by_module_base(&image).unwrap();
    assert_eq!(header.address, A_BASE + HEADER);
    assert_eq!(header.magic, 0x30444f4d);
    assert!(header.is_valid());
    assert_eq!(header.dynamic_offset as u64, DYNAMIC - HEADER);
    assert_eq!(header.get_dynamic_table(Arch::Aarch64), A_BASE + DYNAMIC);
    assert_eq!(header.get_module_runtime(Arch::Aarch64), A_BASE + STATE);
    assert_eq!(header.bss_start_offset as u64, BSS - HEADER);
    assert_eq!(header.bss_end_offset as u64, BSS + 0x10 - HEADER);
    let short = Memory { arch: Arch::Aarch64, base: A_BASE, bytes: vec![0; 7] };
    assert_eq!(Module::get_module_by_module_base(&short), None);
    let mut far = build(&layout(A_BASE));
    put(&mut far.bytes, 4, SIZE as u64 - 27, 4);
    assert_eq!(Module::get_module_by_module_base(&far), None);
}

#[test]
fn a_header_without_the_magic_is_not_valid() {
    let mut image = build(&layout(A_BASE));
    image.bytes[HEADER as usize] ^= 1;
    let header = Module::get_module_by_module_base(&image).unwrap();
    assert!(!header.is_valid());
    assert_eq!(LoadedModule::discover(image).err(), Some(Fatal::InvalidModule));
    let short = Memory { arch: Arch::Aarch64, base: A_BASE, bytes: vec![0; 7] };
    assert_eq!(LoadedModule::discover(short).err(), Some(Fatal::InvalidModule));
}

#[test]
fn clear_bss_zeroes_the_range_between_its_offsets() {
    let mut image = build(&layout(A_BASE));
    let header = Module::get_module_by_module_base(&image).unwrap();
    assert!(header.clear_bss(&mut image));
    let bss = BSS as usize;
    assert_eq!(&image.bytes[bss - 8..bss], &[0xaa; 8]);
    assert_eq!(&image.bytes[bss..bss + 0x10], &[0; 0x10]);
    assert_eq!(&image.bytes[bss + 0x10..bss + 0x18], &[0xaa; 8]);

    let mut reversed = build(&layout(A_BASE));
    put(&mut reversed.bytes, HEADER + 12, BSS - 1 - HEADER, 4);
    let before = reversed.bytes.clone();
    let header = Module::get_module_by_module_base(&reversed).unwrap();
    assert!(!header.clear_bss(&mut reversed));
    assert_eq!(reversed.bytes, before);

    let mut outside = build(&layout(A_BASE));
    put(&mut outside.bytes, HEADER + 12, SIZE as u64 + 1 - HEADER, 4);
    let before = outside.bytes.clone();
    let header = Module::get_module_by_module_base(&outside).unwrap();
    assert!(!header.clear_bss(&mut outside));
    assert_eq!(outside.bytes, before);
    assert_eq!(LoadedModule::discover(outside).err(), Some(Fatal::OutOfImage));
}

#[test]
fn discovery_clears_bss_and_the_linker_keeps_its_own() {
    let found = LoadedModule::discover(build(&layout(A_BASE))).unwrap();
    assert_eq!(&found.image.bytes[BSS as usize..BSS as usize + 0x10], &[0; 0x10]);
    assert_eq!(found.runtime_address, A_BASE + STATE);
    assert_eq!(found.runtime.module_base, A_BASE);
    let own = LoadedModule::load_self(build(&layout(LINKER_BASE))).unwrap();
    assert_eq!(&own.image.bytes[BSS as usize..BSS as usize + 0x10], &[0xaa; 0x10]);
    let mut unmarked = build(&layout(LINKER_BASE));
    unmarked.bytes[HEADER as usize] = 0;
    assert!(LoadedModule::load_self(unmarked).is_ok());
}

#[test]
fn each_dynamic_entry_fills_its_field() {
    let mut described = layout(A_BASE);
    described.symbols = vec![defined("foo", GLOBAL_FUNCTION, DEFAULT, 0x100)];
    described.relocations = vec![rela(0x40, RELATIVE, 0, 0x10), rela(0x48, GLOB_DAT, 1, 0)];
    described.relative_count = 1;
    described.call_sites = vec![rela(0xc18, JUMP_SLOT, 1, 0)];
    described.got = true;
    described.init = Some(0x500);
    described.fini = Some(0x540);
    described.extra = vec![(14, 0x33), (1, 0x1), (15, 2), (16, 0), (21, 0), (22, 0)];
    let image = build(&described);
    let (_, runtime, result) = parse(&image);
    assert_eq!(result, Ok(()));
    assert_eq!(
        runtime,
        ModuleRuntime {
            procedure_linkage_table: A_BASE + JMPREL,
            relocations: A_BASE + RELA,
            module_base: A_BASE,
            dynamic_table: A_BASE + DYNAMIC,
            is_rela: true,
            procedure_linkage_table_size: 24,
            dt_init: Some(A_BASE + 0x500),
            dt_fini: Some(A_BASE + 0x540),
            hash_bucket: A_BASE + HASH + 8,
            hash_chain: A_BASE + HASH + 8 + 16,
            dynamic_str: A_BASE + STRTAB,
            dynamic_symbols: A_BASE + SYMTAB,
            dynamic_str_size: STRSZ,
            global_offset_table: A_BASE + GOT,
            rela_dynamic_size: 48,
            rel_dynamic_size: 0,
            rel_count: 0,
            rela_count: 1,
            hash_nchain_value: 2,
            hash_nbucket_value: 4,
            got_stub_ptr: 0,
            soname_idx: 0x33,
            nro_size: 0,
            cannot_revert_symbols: false,
        }
    );
}

#[test]
fn a_table_without_addends_fills_the_other_fields() {
    let mut described = layout(A_BASE);
    described.arch = Arch::Arm;
    described.with_addend = false;
    described.relocations = vec![rela(0x40, 23, 0, 0), rela(0x44, 23, 0, 0)];
    described.relative_count = 2;
    let image = build(&described);
    let (_, runtime, result) = parse(&image);
    assert_eq!(result, Ok(()));
    assert!(!runtime.is_rela);
    assert_eq!(runtime.rel_dynamic_size, 16);
    assert_eq!(runtime.rel_count, 2);
    assert_eq!(runtime.rela_dynamic_size, 0);
    assert_eq!(runtime.rela_count, 0);
    assert_eq!(runtime.relocations, A_BASE + RELA);
    assert_eq!(runtime.hash_nbucket_value, 4);
    assert_eq!(runtime.hash_chain, A_BASE + HASH + 8 + 16);
}

#[test]
fn a_later_entry_of_the_same_tag_wins() {
    let mut described = layout(A_BASE);
    described.extra = vec![(10, 0x123), (5, 0x480), (10, 0x77)];
    let (_, runtime, result) = parse(&build(&described));
    assert_eq!(result, Ok(()));
    assert_eq!(runtime.dynamic_str_size, 0x77);
    assert_eq!(runtime.dynamic_str, A_BASE + 0x480);
}

#[test]
fn unknown_tags_are_skipped() {
    let plain = parse(&build(&layout(A_BASE))).1;
    let mut described = layout(A_BASE);
    described.extra = vec![(0x6fff_fffb, 1), (24, 0), (-1, 5), (0x7000_0001, 9), (1, 0x99)];
    let (_, runtime, result) = parse(&build(&described));
    assert_eq!(result, Ok(()));
    assert_eq!(runtime, plain);
}

#[test]
fn parsing_stops_at_the_null_tag() {
    let plain = build(&layout(A_BASE));
    let expected = parse(&plain).1;
    let mut trailing = plain.clone_image();
    let entries = {
        let mut walk = DynamicTableItererator::new(A_BASE + DYNAMIC);
        let mut count = 0u64;
        while walk.next(&plain).is_some() {
            count += 1;
        }
        count
    };
    assert_eq!(entries, 12);
    let after = DYNAMIC + 16 * (entries + 1);
    put(&mut trailing.bytes, after, 10, 8);
    put(&mut trailing.bytes, after + 8, 0xdead, 8);
    put(&mut trailing.bytes, after + 16, 11, 8);
    put(&mut trailing.bytes, after + 24, 1, 8);
    let (_, runtime, result) = parse(&trailing);
    assert_eq!(result, Ok(()));
    assert_eq!(runtime, expected);
}

trait CloneImage {
    fn clone_image(&self) -> Memory;
}

impl CloneImage for Memory {
    fn clone_image(&self) -> Memory {
        Memory { arch: self.arch, base: self.base, bytes: self.bytes.clone() }
    }
}

#[test]
fn the_table_iterator_yields_each_entry_once() {
    let mut described = layout(A_BASE);
    described.extra = vec![(14, 0x33)];
    let image = build(&described);
    let mut walk = DynamicTableItererator::new(A_BASE + DYNAMIC);
    let mut tags = Vec::new();
    while let Some(entry) = walk.next(&image) {
        tags.push(entry.tag);
    }
    assert_eq!(tags, vec![4, 5, 10, 6, 11, 23, 2, 7, 8, 9, 0x6ffffff9, 20, 14]);
    assert_eq!(walk.index, 13);
    assert_eq!(walk.next(&image), None);
    assert_eq!(walk.index, 13);
    assert_eq!(
        DynamicTableEntry::read(&image, A_BASE + DYNAMIC),
        Some(DynamicTableEntry { tag: 4, value: HASH })
    );
    assert_eq!(DynamicTableEntry::read(&image, A_BASE + SIZE as u64 - 15), None);
    let mut outside = DynamicTableItererator::new(A_BASE + SIZE as u64);
    assert_eq!(outside.next(&image), None);
    assert_eq!(outside.index, 0);
}

#[test]
fn a_table_without_null_tag_runs_out_of_the_image() {
    let mut image = build(&layout(A_BASE));
    for at in (DYNAMIC..SIZE as u64).step_by(16) {
        put(&mut image.bytes, at, 1, 8);
    }
    let (_, _, result) = parse(&image);
    assert_eq!(result, Err(Fatal::OutOfImage));
}

#[test]
fn a_foreign_entry_size_is_fatal() {
    for tag in [9i64, 11, 19] {
        let mut described = layout(A_BASE);
        described.extra = vec![(tag, 25), (10, 0x55)];
        let (_, runtime, result) = parse(&build(&described));
        assert_eq!(result, Err(Fatal::EntrySizeMismatch));
        assert_eq!(runtime.dynamic_str_size, STRSZ);
    }
    let mut fitting = layout(A_BASE);
    fitting.extra = vec![(9, 24), (11, 24), (19, 16)];
    assert_eq!(parse(&build(&fitting)).2, Ok(()));
    let mut narrow = layout(A_BASE);
    narrow.arch = Arch::Arm;
    narrow.with_addend = false;
    narrow.extra = vec![(9, 12), (11, 16), (19, 8)];
    assert_eq!(parse(&build(&narrow)).2, Ok(()));
    narrow.extra = vec![(11, 24)];
    assert_eq!(parse(&build(&narrow)).2, Err(Fatal::EntrySizeMismatch));
}

#[test]
fn an_unknown_call_site_encoding_is_fatal() {
    let mut described = layout(A_BASE);
    described.extra = vec![(20, 8)];
    let (_, runtime, result) = parse(&build(&described));
    assert_eq!(result, Err(Fatal::UnknownRelocationEncoding));
    assert!(!runtime.is_rela);
    described.extra = vec![(20, 17)];
    let (_, runtime, result) = parse(&build(&described));
    assert_eq!(result, Ok(()));
    assert!(!runtime.is_rela);
}

#[test]
fn a_hash_table_outside_the_image_is_fatal() {
    let mut described = layout(A_BASE);
    described.extra = vec![(4, SIZE as u64 - 7)];
    assert_eq!(parse(&build(&described)).2, Err(Fatal::OutOfImage));
    described.extra = vec![(4, SIZE as u64 - 8)];
    let (_, runtime, result) = parse(&build(&described));
    assert_eq!(result, Ok(()));
    assert_eq!(runtime.hash_bucket, A_BASE + SIZE as u64);
}

#[test]
fn symbol_entries_decode_by_width() {
    let mut described = layout(A_BASE);
    described.symbols = vec![Sym {
        name: "foo",
        info: 0x12,
        other: 0x03,
        section: 0xfff2,
        value: 0x1122_3344_5566,
    }];
    let image = build(&described);
    let entry = SymbolTableEntry::read(&image, A_BASE + SYMTAB + 24).unwrap();
    assert_eq!(entry.name_offset, 1);
    assert_eq!(entry.info, SymbolInfo::from_bytes(0x12));
    assert_eq!(entry.other, SymbolOther::from_bytes(0x03));
    assert_eq!(entry.section, 0xfff2);
    assert_eq!(entry.value, 0x1122_3344_5566);
    assert_eq!(entry.size, 0);
    assert_eq!(SymbolTableEntry::read(&image, A_BASE + SIZE as u64 - 23), None);

    described.arch = Arch::Arm;
    described.with_addend = false;
    described.symbols[0].value = 0x1122_3344;
    let image = build(&described);
    let entry = SymbolTableEntry::read(&image, A_BASE + SYMTAB + 16).unwrap();
    assert_eq!(entry.name_offset, 1);
    assert_eq!(entry.info.into_bytes(), 0x12);
    assert_eq!(entry.other.into_bytes(), 0x03);
    assert_eq!(entry.section, 0xfff2);
    assert_eq!(entry.value, 0x1122_3344);
    let runtime = parse(&image).1;
    assert_eq!(runtime.get_symbol(&image, 1), Some(entry));
    assert_eq!(runtime.get_symbol(&image, 0x1000), None);
}

#[test]
fn the_info_byte_holds_type_and_binding() {
    let info = SymbolInfo::from_bytes(0x12);
    assert_eq!(info.symbol_type(), Some(SymbolType::Function));
    assert!(info.bind_global());
    assert!(!info.bind_weak());
    assert!(!info.os_specific());
    assert!(!info.processor_specific());
    let weak = SymbolInfo::from_bytes(0x21);
    assert_eq!(weak.symbol_type(), Some(SymbolType::Object));
    assert!(!weak.bind_global());
    assert!(weak.bind_weak());
    let odd = SymbolInfo::from_bytes(0xc7);
    assert_eq!(odd.symbol_type(), None);
    assert!(odd.os_specific());
    assert!(odd.processor_specific());
    assert_eq!(SymbolInfo::from_bytes(0).symbol_type(), Some(SymbolType::NoType));
    assert_eq!(SymbolInfo::from_bytes(6).symbol_type(), Some(SymbolType::ThreadLocalStorage));
    assert_eq!(SymbolInfo::from_bytes(5).symbol_type(), Some(SymbolType::Common));
    assert_eq!(SymbolInfo::from_bytes(4).symbol_type(), Some(SymbolType::File));
    assert_eq!(SymbolInfo::from_bytes(3).symbol_type(), Some(SymbolType::Section));
}

#[test]
fn the_other_byte_holds_the_visibility() {
    assert_eq!(SymbolOther::from_bytes(0).visibility(), SymbolVisibility::Default);
    assert_eq!(SymbolOther::from_bytes(1).visibility(), SymbolVisibility::Internal);
    assert_eq!(SymbolOther::from_bytes(2).visibility(), SymbolVisibility::Hidden);
    assert_eq!(SymbolOther::from_bytes(3).visibility(), SymbolVisibility::Protected);
    assert_eq!(SymbolOther::from_bytes(0xfe).visibility(), SymbolVisibility::Hidden);
    assert_eq!(SymbolOther::from_bytes(0xfe).reserved(), 0x3f);
}

#[test]
fn relocation_entries_decode_in_both_encodings() {
    let mut described = layout(A_BASE);
    described.relocations = vec![rela(0x40, RELATIVE, 0, -8), rela(0x48, GLOB_DAT, 5, 0x10)];
    let image = build(&described);
    let first = RelocationTableAddendEntry::read(&image, A_BASE + RELA).unwrap();
    assert_eq!(first, RelocationTableAddendEntry { offset: 0x40, info: RELATIVE, addend: -8 });
    let second = TableRelocation::read(&image, A_BASE + RELA, true, 1).unwrap();
    assert_eq!(
        second,
        TableRelocation::Explicit(RelocationTableAddendEntry {
            offset: 0x48,
            info: (5 << 32) | GLOB_DAT,
            addend: 0x10
        })
    );
    assert_eq!(second.get_type(Arch::Aarch64), GLOB_DAT);
    assert_eq!(second.get_symbol_index(Arch::Aarch64), 5);
    assert_eq!(second.get_offset(), 0x48);
    assert_eq!(second.get_info(), (5 << 32) | GLOB_DAT);
    assert_eq!(TableRelocation::read(&image, A_BASE + RELA, true, 1 << 40), None);
    assert_eq!(TableRelocation::read(&image, u64::MAX - 8, true, 1), None);
    assert_eq!(TableRelocation::entry_size(Arch::Aarch64, true), 24);
    assert_eq!(TableRelocation::entry_size(Arch::Aarch64, false), 16);
    assert_eq!(TableRelocation::entry_size(Arch::Arm, true), 12);
    assert_eq!(TableRelocation::entry_size(Arch::Arm, false), 8);

    described.arch = Arch::Arm;
    described.with_addend = false;
    described.relocations = vec![rela(0x40, 21, 3, 0)];
    let image = build(&described);
    let entry = RelocationTableEntry::read(&image, A_BASE + RELA).unwrap();
    assert_eq!(entry, RelocationTableEntry { offset: 0x40, info: (3 << 8) | 21 });
    assert_eq!(entry.get_type(Arch::Arm), 21);
    assert_eq!(entry.get_symbol_index(Arch::Arm), 3);
    assert_eq!(
        TableRelocation::read(&image, A_BASE + RELA, false, 0),
        Some(TableRelocation::Implicit(entry))
    );
}

#[test]
fn an_explicit_addend_replaces_and_an_implicit_one_accumulates() {
    let mut image = Memory { arch: Arch::Aarch64, base: 0x1000, bytes: vec![0; 0x40] };
    image.write_word(0x1010, 0x30);
    let explicit = RelocationTableAddendEntry { offset: 0x10, info: 0, addend: -4 };
    assert_eq!(explicit.compute_value(Arch::Aarch64, 0x5000), 0x4ffc);
    assert!(explicit.apply(&mut image, 0x1000, 0x5000));
    assert_eq!(image.read_word(0x1010), Some(0x4ffc));
    let implicit = RelocationTableEntry { offset: 0x10, info: 0 };
    assert_eq!(implicit.compute_value(Arch::Aarch64, 0x5000), 0x5000);
    assert!(implicit.apply(&mut image, 0x1000, 0x5000));
    assert_eq!(image.read_word(0x1010), Some(0x9ffc));
    assert!(implicit.apply(&mut image, 0x1000, 0xffff_ffff_ffff_6004));
    assert_eq!(image.read_word(0x1010), Some(0));

    let before = image.bytes.clone();
    let outside = RelocationTableEntry { offset: 0x39, info: 0 };
    assert!(!outside.apply(&mut image, 0x1000, 1));
    assert!(!TableRelocation::Explicit(RelocationTableAddendEntry {
        offset: 0x40,
        info: 0,
        addend: 0
    })
    .apply(&mut image, 0x1000, 1));
    assert_eq!(image.bytes, before);
}

#[test]
fn lookup_returns_the_first_definition_in_the_chain() {
    let mut described = layout(A_BASE);
    described.symbols = vec![
        defined("foo", LOCAL_FUNCTION, DEFAULT, 0x10),
        undefined("bar", GLOBAL_FUNCTION),
        defined("foo", GLOBAL_FUNCTION, DEFAULT, 0x20),
        undefined("foo", GLOBAL_FUNCTION),
        Sym { name: "foo", info: GLOBAL_FUNCTION, other: DEFAULT, section: 0xfff2, value: 0x30 },
    ];
    let image = build(&described);
    let runtime = parse(&image).1;
    let found = runtime.get_symbol_by_name(&image, "foo").unwrap();
    assert_eq!(found.value, 0x20);
    assert_eq!(runtime.find_symbol(&image, b"foo"), Some(found));
    assert_eq!(runtime.get_external_symbol_by_name(&image, "foo"), Some(found));
    assert_eq!(runtime.get_symbol_by_name(&image, "bar"), None);
    assert_eq!(runtime.get_symbol_by_name(&image, "fo"), None);
    assert_eq!(runtime.get_symbol_by_name(&image, "fooo"), None);
    assert_eq!(runtime.get_symbol_by_name(&image, ""), None);

    let mut walk = HashBucketIter::new(&runtime, &image, b"foo");
    assert_eq!(walk.chain_value, 5);
    assert_eq!(walk.limit, 6);
    let mut values = Vec::new();
    while let Some(symbol) = walk.next(&runtime, &image) {
        values.push((symbol.value, symbol.section));
    }
    assert_eq!(values, vec![(0x30, 0xfff2), (0, 0), (0x20, 1), (0x10, 1)]);
    assert_eq!(walk.chain_value, 0);
}

#[test]
fn lookup_visits_only_the_bucket_of_the_name() {
    let mut described = layout(A_BASE);
    described.symbols = vec![
        defined("foo", GLOBAL_FUNCTION, DEFAULT, 0x10),
        defined("bar", GLOBAL_FUNCTION, DEFAULT, 0x20),
    ];
    let mut image = build(&described);
    let runtime = parse(&image).1;
    assert_eq!(elf_hash(b"foo") % NBUCKET, 3);
    assert_eq!(elf_hash(b"bar") % NBUCKET, 2);
    put(&mut image.bytes, HASH + 8 + 4 * 3, 0, 4);
    assert_eq!(runtime.get_symbol_by_name(&image, "foo"), None);
    assert_eq!(runtime.get_symbol_by_name(&image, "bar").unwrap().value, 0x20);
    put(&mut image.bytes, HASH + 8 + 4 * 3, 2, 4);
    assert_eq!(runtime.get_symbol_by_name(&image, "foo"), None);
    put(&mut image.bytes, HASH + 8 + 4 * 2, 1, 4);
    assert_eq!(runtime.get_symbol_by_name(&image, "bar"), None);
}

#[test]
fn external_lookup_keeps_global_and_weak_symbols() {
    let image = build(&exporter());
    let runtime = parse(&image).1;
    assert_eq!(runtime.get_external_symbol_by_name(&image, "foo").unwrap().value, 0x100);
    assert_eq!(runtime.get_external_symbol_by_name(&image, "weak_thing").unwrap().value, 0x180);
    assert_eq!(runtime.get_symbol_by_name(&image, "private").unwrap().value, 0x1c0);
    assert_eq!(runtime.get_external_symbol_by_name(&image, "private"), None);
    assert_eq!(runtime.find_external_symbol(&image, b"private"), None);
    assert_eq!(runtime.get_external_symbol_by_name(&image, "missing"), None);
}

#[test]
fn a_name_that_does_not_decode_is_skipped() {
    let mut described = layout(A_BASE);
    described.symbols = vec![
        defined("foo", GLOBAL_FUNCTION, DEFAULT, 0x10),
        defined("bar", GLOBAL_FUNCTION, DEFAULT, 0x20),
    ];
    let mut image = build(&described);
    let runtime = parse(&image).1;
    let foo = runtime.get_symbol(&image, 1).unwrap();
    let bar = runtime.get_symbol(&image, 2).unwrap();
    assert_eq!(runtime.try_get_symbol_str(&image, &foo), Some(&b"foo"[..]));
    assert_eq!(runtime.try_get_symbol_str(&image, &bar), Some(&b"bar"[..]));
    image.bytes[STRTAB as usize + 2] = 0xff;
    assert_eq!(runtime.try_get_symbol_str(&image, &foo), None);
    assert_eq!(runtime.find_symbol(&image, &[0x66, 0xff, 0x6f]), None);
    assert_eq!(runtime.get_symbol_by_name(&image, "bar"), Some(bar));

    let mut past = foo;
    past.name_offset = STRSZ as u32 + 1;
    assert_eq!(runtime.try_get_symbol_str(&image, &past), None);
    past.name_offset = STRSZ as u32;
    assert_eq!(runtime.try_get_symbol_str(&image, &past), None);
    let mut unterminated = runtime;
    unterminated.dynamic_str_size = 7;
    assert_eq!(unterminated.try_get_symbol_str(&image, &bar), None);
    unterminated.dynamic_str_size = 8;
    assert_eq!(unterminated.try_get_symbol_str(&image, &bar), None);
    unterminated.dynamic_str_size = 9;
    assert_eq!(unterminated.try_get_symbol_str(&image, &bar), Some(&b"bar"[..]));
    unterminated.dynamic_str_size = SIZE as u64;
    assert_eq!(unterminated.try_get_symbol_str(&image, &bar), None);
}

#[test]
fn a_module_without_hash_table_defines_nothing() {
    let image = build(&exporter());
    let mut runtime = parse(&image).1;
    runtime.hash_nbucket_value = 0;
    assert_eq!(runtime.get_symbol_by_name(&image, "foo"), None);
    assert_eq!(ModuleRuntime::default().get_symbol_by_name(&image, "foo"), None);
}

#[test]
fn a_chain_that_runs_in_a_circle_ends() {
    let mut described = layout(A_BASE);
    described.symbols = vec![defined("foo", GLOBAL_FUNCTION, DEFAULT, 0x10)];
    let mut image = build(&described);
    let runtime = parse(&image).1;
    put(&mut image.bytes, HASH + 8 + 4 * (NBUCKET as u64 + 1), 1, 4);
    assert_eq!(runtime.get_symbol_by_name(&image, "foo").unwrap().value, 0x10);
    image.bytes[STRTAB as usize + 1] = b'g';
    assert_eq!(runtime.get_symbol_by_name(&image, "foo"), None);
}

#[test]
fn a_symbol_stands_for_an_address_above_the_base() {
    let mut image = build(&exporter());
    let runtime = parse(&image).1;
    let foo = runtime.get_symbol_by_name(&image, "foo").unwrap();
    assert_eq!(runtime.get_symbol_value(Arch::Aarch64, &foo), A_BASE + 0x100);
    assert!(runtime.set_symbol_value(&mut image, &foo, 0xfeed));
    assert_eq!(image.read_word(A_BASE + 0x100), Some(0xfeed));
    let mut far = foo;
    far.value = SIZE as u64;
    let before = image.bytes.clone();
    assert!(!runtime.set_symbol_value(&mut image, &far, 1));
    assert_eq!(image.bytes, before);
}

#[test]
fn base_relative_fixups_add_the_base() {
    let mut described = layout(A_BASE);
    described.relocations = vec![
        rela(0x40, RELATIVE, 0, 0x123),
        rela(0x48, GLOB_DAT, 1, 0),
        rela(0x50, RELATIVE, 0, -0x10),
        rela(0x58, 0x999, 0, 0),
    ];
    described.words = vec![(0x48, 0x77), (0x58, 0x88)];
    let mut image = build(&described);
    assert_eq!(
        ModuleRuntime::relocate_relative_entries(&mut image, A_BASE, A_BASE + RELA, true, 4),
        Ok(())
    );
    assert_eq!(image.read_word(A_BASE + 0x40), Some(A_BASE + 0x123));
    assert_eq!(image.read_word(A_BASE + 0x48), Some(0x77));
    assert_eq!(image.read_word(A_BASE + 0x50), Some(A_BASE - 0x10));
    assert_eq!(image.read_word(A_BASE + 0x58), Some(0x88));

    let mut narrow = layout(0x10_0000);
    narrow.arch = Arch::Arm;
    narrow.with_addend = false;
    narrow.relocations = vec![rela(0x40, 23, 0, 0), rela(0x44, 22, 0, 0)];
    narrow.words = vec![(0x40, 0x500), (0x44, 0x600)];
    let mut image = build(&narrow);
    assert_eq!(
        ModuleRuntime::relocate_relative_entries(&mut image, 0x10_0000, 0x10_0000 + RELA, false, 2),
        Ok(())
    );
    assert_eq!(image.read_word(0x10_0040), Some(0x10_0500));
    assert_eq!(image.read_word(0x10_0044), Some(0x600));
}

#[test]
fn a_fixup_outside_the_image_is_fatal() {
    let mut described = layout(A_BASE);
    described.relocations =
        vec![rela(0x40, RELATIVE, 0, 1), rela(SIZE as u64, RELATIVE, 0, 2), rela(0x48, RELATIVE, 0, 3)];
    let mut image = build(&described);
    assert_eq!(
        ModuleRuntime::relocate_relative_entries(&mut image, A_BASE, A_BASE + RELA, true, 3),
        Err(Fatal::OutOfImage)
    );
    assert_eq!(image.read_word(A_BASE + 0x40), Some(A_BASE + 1));
    assert_eq!(image.read_word(A_BASE + 0x48), Some(0));
    let mut image = build(&described);
    assert_eq!(
        ModuleRuntime::relocate_relative_entries(
            &mut image,
            A_BASE,
            A_BASE + SIZE as u64 - 24,
            true,
            2
        ),
        Err(Fatal::OutOfImage)
    );
}

#[test]
fn a_global_symbol_of_another_module_lands_in_the_got() {
    let mut linker = new_linker();
    let mut a = exporter();
    a.relocations = vec![rela(0x48, RELATIVE, 0, 0x20)];
    a.relative_count = 1;
    let a = take_up(&mut linker, &a);
    let mut b = layout(B_BASE);
    b.symbols = vec![undefined("foo", GLOBAL_FUNCTION)];
    b.relocations = vec![rela(0x40, GLOB_DAT, 1, 0)];
    let b = take_up(&mut linker, &b);
    assert_eq!(linker.global_load_list.modules(false), vec![b, a, 0]);
    assert_eq!(word_at(&linker, b, 0x40), 0);

    assert_eq!(linker.link_all(&targets(), LINKER_BASE, true), Ok(()));
    assert_eq!(word_at(&linker, b, 0x40), A_BASE + 0x100);
    assert_eq!(word_at(&linker, a, 0x48), A_BASE + 0x20);
    assert!(linker.diagnostics().is_empty());
}

#[test]
fn relative_and_symbol_fixups_of_one_table_are_both_applied() {
    let mut linker = new_linker();
    take_up(&mut linker, &exporter());
    let mut b = layout(B_BASE);
    b.symbols = vec![undefined("foo", GLOBAL_FUNCTION)];
    b.relocations = vec![rela(0x38, RELATIVE, 0, 0x60), rela(0x40, GLOB_DAT, 1, 0)];
    b.relative_count = 1;
    let b = take_up(&mut linker, &b);
    assert_eq!(linker.link_all(&targets(), LINKER_BASE, true), Ok(()));
    assert_eq!(word_at(&linker, b, 0x40), A_BASE + 0x100);
    assert_eq!(word_at(&linker, b, 0x38), B_BASE + 0x60);
}

#[test]
fn the_addend_is_added_to_the_resolved_address() {
    let mut linker = new_linker();
    take_up(&mut linker, &exporter());
    let mut b = layout(B_BASE);
    b.symbols = vec![undefined("foo", GLOBAL_FUNCTION), undefined("weak_thing", GLOBAL_FUNCTION)];
    b.relocations = vec![
        rela(0x40, 0x101, 1, 0x18),
        rela(0x48, 0x102, 2, -0x80),
        rela(0x50, 0x7, 1, 0),
    ];
    b.relative_count = 3;
    let b = take_up(&mut linker, &b);
    assert_eq!(linker.relocate(b, false, false), Ok(()));
    assert_eq!(word_at(&linker, b, 0x40), A_BASE + 0x118);
    assert_eq!(word_at(&linker, b, 0x48), A_BASE + 0x100);
    assert_eq!(word_at(&linker, b, 0x50), 0);
}

#[test]
fn an_implicit_addend_accumulates_onto_the_stored_word() {
    let mut linker = new_linker();
    let mut a = exporter();
    a.base = 0x10_0000;
    a.arch = Arch::Arm;
    a.with_addend = false;
    take_up(&mut linker, &a);
    let mut b = layout(0x20_0000);
    b.arch = Arch::Arm;
    b.with_addend = false;
    b.symbols = vec![undefined("foo", GLOBAL_FUNCTION)];
    b.relocations = vec![rela(0x40, 23, 0, 0), rela(0x44, 21, 1, 0), rela(0x48, 2, 1, 0)];
    b.words = vec![(0x40, 0x30), (0x44, 0x8), (0x48, 0xffff_fff0)];
    b.relative_count = 1;
    let b = take_up(&mut linker, &b);
    assert_eq!(linker.relocate(b, false, false), Ok(()));
    assert_eq!(word_at(&linker, b, 0x40), 0x20_0030);
    assert_eq!(word_at(&linker, b, 0x44), 0x10_0108);
    assert_eq!(word_at(&linker, b, 0x48), 0x10_00f0);
}

#[test]
fn the_two_switches_select_the_kind_of_fixup() {
    let mut b = layout(B_BASE);
    b.symbols = vec![undefined("foo", GLOBAL_FUNCTION)];
    b.relocations = vec![rela(0x38, RELATIVE, 0, 0x60), rela(0x40, GLOB_DAT, 1, 0)];
    b.relative_count = 1;

    let mut linker = new_linker();
    take_up(&mut linker, &exporter());
    let handle = take_up(&mut linker, &b);
    assert_eq!(linker.relocate(handle, false, true), Ok(()));
    assert_eq!(word_at(&linker, handle, 0x38), B_BASE + 0x60);
    assert_eq!(word_at(&linker, handle, 0x40), 0);
    assert_eq!(linker.relocate(handle, true, false), Ok(()));
    assert_eq!(word_at(&linker, handle, 0x38), B_BASE + 0x60);
    assert_eq!(word_at(&linker, handle, 0x40), A_BASE + 0x100);
}

#[test]
fn skipping_relative_fixups_leaves_them_untouched() {
    let mut b = layout(B_BASE);
    b.with_addend = false;
    b.symbols = vec![undefined("foo", GLOBAL_FUNCTION)];
    b.relocations = vec![rela(0x38, RELATIVE, 0, 0), rela(0x40, RELATIVE, 0, 0)];
    b.words = vec![(0x38, 0x60), (0x40, 0x70)];
    b.relative_count = 1;
    let mut linker = new_linker();
    let handle = take_up(&mut linker, &b);
    let before = linker.module(handle).unwrap().image.bytes.clone();
    assert_eq!(linker.relocate(handle, true, true), Ok(()));
    assert_eq!(linker.module(handle).unwrap().image.bytes, before);
    assert_eq!(linker.relocate(handle, true, false), Ok(()));
    assert_eq!(linker.relocate(handle, true, true), Ok(()));
    assert_eq!(linker.module(handle).unwrap().image.bytes, before);
    assert!(linker.diagnostics().is_empty());
    assert_eq!(linker.relocate(handle, false, true), Ok(()));
    assert_eq!(word_at(&linker, handle, 0x38), B_BASE + 0x60);
    assert_eq!(word_at(&linker, handle, 0x40), B_BASE + 0x70);
}

#[test]
fn a_table_is_walked_whether_or_not_relative_entries_are_announced() {
    for with_addend in [true, false] {
        let mut b = layout(B_BASE);
        b.with_addend = with_addend;
        b.symbols = vec![undefined("foo", GLOBAL_FUNCTION)];
        b.relocations = vec![rela(0x40, GLOB_DAT, 1, 0), rela(0x48, RELATIVE, 0, 0)];
        b.relative_count = 0;
        let mut linker = new_linker();
        let mut a = exporter();
        a.with_addend = with_addend;
        take_up(&mut linker, &a);
        let handle = take_up(&mut linker, &b);
        assert_eq!(linker.relocate(handle, true, false), Ok(()));
        assert_eq!(word_at(&linker, handle, 0x40), A_BASE + 0x100);
        assert_eq!(word_at(&linker, handle, 0x48), 0);
        assert_eq!(linker.relocate(handle, false, true), Ok(()));
        assert_eq!(word_at(&linker, handle, 0x48), B_BASE);
    }
}

#[test]
fn more_relative_entries_than_the_table_holds_is_fatal() {
    let mut b = layout(B_BASE);
    b.relocations = vec![rela(0x38, RELATIVE, 0, 0x60)];
    b.relative_count = 2;
    let mut linker = new_linker();
    let handle = take_up(&mut linker, &b);
    assert_eq!(linker.relocate(handle, true, false), Err(Fatal::TableOverrun));
    assert_eq!(linker.relocate(handle, false, false), Ok(()));
    assert_eq!(word_at(&linker, handle, 0x38), B_BASE + 0x60);
}

#[test]
fn a_handle_that_names_no_module_is_refused() {
    let mut linker = new_linker();
    let symbol = SymbolTableEntry {
        name_offset: 0,
        info: SymbolInfo::from_bytes(WEAK_FUNCTION),
        other: SymbolOther::from_bytes(0),
        section: 0,
        value: 0,
        size: 0,
    };
    assert_eq!(linker.module_count(), 1);
    assert!(linker.module(1).is_none());
    assert_eq!(linker.relocate(1, false, false), Err(Fatal::UnknownModule));
    assert_eq!(linker.resolve_symbols(1, true), Err(Fatal::UnknownModule));
    assert_eq!(linker.resolve_symbol(1, &symbol), None);
    assert_eq!(linker.lazy_bind_symbol(1, 0), 0);
    assert!(!linker.link(1));
    assert_eq!(linker.global_load_list.modules(false), vec![0]);
    assert!(!linker.initialize(5));
    assert!(linker.global_load_list.is_empty());
}

#[test]
fn an_unmatched_weak_symbol_resolves_to_zero() {
    let mut linker = new_linker();
    take_up(&mut linker, &exporter());
    let mut b = layout(B_BASE);
    b.symbols = vec![undefined("missing", WEAK_FUNCTION)];
    b.relocations = vec![rela(0x40, GLOB_DAT, 1, 0)];
    b.relative_count = 1;
    b.words = vec![(0x40, 0x5555)];
    let b = take_up(&mut linker, &b);
    let loaded = linker.module(b).unwrap();
    let symbol = loaded.runtime.get_symbol(&loaded.image, 1).unwrap();
    assert_eq!(linker.resolve_symbol(b, &symbol), Some(0));
    assert_eq!(linker.relocate(b, false, false), Ok(()));
    assert_eq!(word_at(&linker, b, 0x40), 0);
    assert!(linker.diagnostics().is_empty());
}

#[test]
fn an_unmatched_strong_symbol_fails_and_is_reported() {
    let mut linker = new_linker();
    take_up(&mut linker, &exporter());
    let mut b = layout(B_BASE);
    b.symbols = vec![undefined("foo", GLOBAL_FUNCTION), undefined("missing", GLOBAL_FUNCTION)];
    b.relocations = vec![rela(0x40, GLOB_DAT, 2, 0), rela(0x48, GLOB_DAT, 1, 0)];
    b.relative_count = 1;
    b.words = vec![(0x40, 0x5555)];
    let b = take_up(&mut linker, &b);
    let loaded = linker.module(b).unwrap();
    let symbol = loaded.runtime.get_symbol(&loaded.image, 2).unwrap();
    assert_eq!(linker.resolve_symbol(b, &symbol), None);
    assert_eq!(linker.relocate(b, false, false), Ok(()));
    assert_eq!(word_at(&linker, b, 0x40), 0x5555);
    assert_eq!(word_at(&linker, b, 0x48), A_BASE + 0x100);
    assert_eq!(linker.diagnostics(), &vec![Diagnostic::UnresolvedSymbol { module: b, symbol_index: 2 }]);
}

#[test]
fn nothing_is_reported_with_the_debug_flag_off() {
    let mut linker: Linker<NoLookup> = Linker::new(RESOLVER, false, None);
    let mut b = layout(B_BASE);
    b.symbols = vec![undefined("missing", GLOBAL_FUNCTION)];
    b.relocations = vec![rela(0x40, GLOB_DAT, 1, 0)];
    b.relative_count = 1;
    b.words = vec![(0x40, 0x5555)];
    let b = take_up(&mut linker, &b);
    assert_eq!(linker.relocate(b, false, false), Ok(()));
    assert_eq!(word_at(&linker, b, 0x40), 0x5555);
    assert!(linker.diagnostics().is_empty());
}

#[test]
fn the_first_module_of_the_list_that_exports_a_name_wins() {
    let mut linker = new_linker();
    let mut first = exporter();
    first.base = 0x7300_0000;
    let mut second = exporter();
    second.symbols[0].value = 0x200;
    take_up(&mut linker, &first);
    take_up(&mut linker, &second);
    assert_eq!(linker.default_lookup_auto_list(b"foo"), A_BASE + 0x200);
    assert_eq!(linker.default_lookup_auto_list(b"weak_thing"), A_BASE + 0x180);
    assert_eq!(linker.default_lookup_auto_list(b"private"), 0);
    assert_eq!(linker.default_lookup_auto_list(b"missing"), 0);
    let empty: Linker<NoLookup> = Linker::new(RESOLVER, true, None);
    assert_eq!(empty.default_lookup_auto_list(b"foo"), 0);
}

#[test]
fn a_hidden_symbol_resolves_in_its_own_module_only() {
    let mut linker = new_linker();
    let mut c = layout(A_BASE);
    c.symbols = vec![defined("bar", GLOBAL_FUNCTION, HIDDEN, 0x200)];
    c.relocations = vec![rela(0x40, GLOB_DAT, 1, 0)];
    let c = take_up(&mut linker, &c);
    let mut d = layout(B_BASE);
    d.symbols = vec![undefined("bar", GLOBAL_FUNCTION)];
    d.relocations = vec![rela(0x40, GLOB_DAT, 1, 0)];
    d.words = vec![(0x40, 0x5555)];
    let d = take_up(&mut linker, &d);

    assert_eq!(linker.default_lookup_auto_list(b"bar"), 0);
    let own = linker.module(c).unwrap();
    let bar = own.runtime.get_symbol(&own.image, 1).unwrap();
    assert_eq!(bar.other.visibility(), SymbolVisibility::Hidden);
    assert_eq!(linker.resolve_symbol(c, &bar), Some(A_BASE + 0x200));
    let other = linker.module(d).unwrap();
    let wanted = other.runtime.get_symbol(&other.image, 1).unwrap();
    assert_eq!(linker.resolve_symbol(d, &wanted), None);

    assert_eq!(linker.link_all(&targets(), LINKER_BASE, true), Ok(()));
    assert_eq!(word_at(&linker, c, 0x40), A_BASE + 0x200);
    assert_eq!(word_at(&linker, d, 0x40), 0x5555);
    assert_eq!(linker.diagnostics(), &vec![Diagnostic::UnresolvedSymbol { module: d, symbol_index: 1 }]);
}

#[test]
fn only_default_visibility_is_handed_to_other_modules() {
    for (other, shared) in [(DEFAULT, true), (1u8, false), (HIDDEN, false), (3u8, false)] {
        for info in [GLOBAL_FUNCTION, WEAK_FUNCTION, LOCAL_FUNCTION] {
            let mut linker = new_linker();
            let mut c = layout(A_BASE);
            c.symbols = vec![defined("bar", info, other, 0x200)];
            let c = take_up(&mut linker, &c);
            let own = linker.module(c).unwrap();
            let expected = if shared && info != LOCAL_FUNCTION { A_BASE + 0x200 } else { 0 };
            assert_eq!(linker.default_lookup_auto_list(b"bar"), expected);
            assert_eq!(
                own.runtime.find_shared_symbol_reporting(&own.image, b"bar").0.is_some(),
                expected != 0
            );
            assert_eq!(
                own.runtime.get_external_symbol_by_name(&own.image, "bar").is_some(),
                info != LOCAL_FUNCTION
            );
        }
    }
}

#[test]
fn a_hidden_definition_does_not_shadow_a_shared_one_further_on() {
    let mut linker = new_linker();
    let mut shared = layout(0x7300_0000);
    shared.symbols = vec![defined("bar", GLOBAL_FUNCTION, DEFAULT, 0x300)];
    take_up(&mut linker, &shared);
    let mut hidden = layout(A_BASE);
    hidden.symbols = vec![defined("bar", GLOBAL_FUNCTION, HIDDEN, 0x200)];
    take_up(&mut linker, &hidden);
    assert_eq!(linker.default_lookup_auto_list(b"bar"), 0x7300_0300);
}

#[test]
fn a_symbol_whose_name_does_not_decode_is_passed_over_and_reported() {
    let mut a = layout(A_BASE);
    a.symbols = vec![
        defined("foo", GLOBAL_FUNCTION, DEFAULT, 0x100),
        undefined("foo", GLOBAL_FUNCTION),
        defined("foo", GLOBAL_FUNCTION, DEFAULT, 0x180),
        defined("foo", GLOBAL_FUNCTION, DEFAULT, 0x1c0),
    ];
    let mut image = build(&a);
    let runtime = parse(&image).1;
    // the names of symbols 4 and 3 are made invalid UTF-8, that of symbol 2
    // too, but symbol 2 is not defined in a section
    for index in [2u64, 3, 4] {
        let name_offset = image.read_u32(A_BASE + SYMTAB + 24 * index).unwrap() as u64;
        image.bytes[(STRTAB + name_offset) as usize + 1] = 0xff;
    }
    let (found, skipped) = runtime.find_symbol_reporting(&image, b"foo");
    assert_eq!(found.unwrap().value, 0x100);
    assert_eq!(skipped, vec![4, 3]);
    assert_eq!(runtime.get_symbol_by_name(&image, "foo").unwrap().value, 0x100);
    let (found, skipped) = runtime.find_external_symbol_reporting(&image, b"foo");
    assert_eq!(found.unwrap().value, 0x100);
    assert_eq!(skipped, vec![4, 3]);
    let (found, skipped) = runtime.find_symbol_reporting(&image, b"bar");
    assert_eq!(found, None);
    assert_eq!(skipped, Vec::<u32>::new());
    let name_offset = image.read_u32(A_BASE + SYMTAB + 24).unwrap() as u64;
    image.bytes[(STRTAB + name_offset) as usize + 1] = 0xff;
    let (found, skipped) = runtime.find_symbol_reporting(&image, b"foo");
    assert_eq!(found, None);
    assert_eq!(skipped, vec![4, 3, 1]);
}

#[test]
fn the_linker_records_the_symbols_that_its_lookups_passed_over() {
    let mut linker = new_linker();
    let mut a = layout(A_BASE);
    a.symbols = vec![
        defined("foo", GLOBAL_FUNCTION, DEFAULT, 0x100),
        defined("foo", GLOBAL_FUNCTION, DEFAULT, 0x180),
    ];
    let mut image = build(&a);
    let name_offset = image.read_u32(A_BASE + SYMTAB + 48).unwrap() as u64;
    image.bytes[(STRTAB + name_offset) as usize + 2] = 0xc3;
    let a = linker.insert(LoadedModule::discover(image).unwrap());
    assert!(linker.link(a));
    let mut b = layout(B_BASE);
    b.symbols = vec![undefined("foo", GLOBAL_FUNCTION), undefined("bar", GLOBAL_FUNCTION)];
    b.relocations = vec![rela(0x40, GLOB_DAT, 1, 0), rela(0x48, GLOB_DAT, 2, 0)];
    b.call_sites = vec![rela(GOT + 0x18, JUMP_SLOT, 1, 0)];
    let b = take_up(&mut linker, &b);

    let loaded = linker.module(b).unwrap();
    let foo = loaded.runtime.get_symbol(&loaded.image, 1).unwrap();
    let passed_over = Diagnostic::InvalidSymbol { module: a, symbol_index: 2 };
    assert_eq!(linker.resolve_symbol(b, &foo), Some(A_BASE + 0x100));
    assert_eq!(
        linker.resolve_symbol_reporting(b, &foo),
        (Some(A_BASE + 0x100), vec![passed_over])
    );
    assert_eq!(linker.lookup_auto_list_reporting(b"foo"), (A_BASE + 0x100, vec![passed_over]));
    assert!(linker.diagnostics().is_empty());

    assert_eq!(linker.relocate(b, false, false), Ok(()));
    assert_eq!(word_at(&linker, b, 0x40), A_BASE + 0x100);
    assert_eq!(
        linker.diagnostics(),
        &vec![passed_over, Diagnostic::UnresolvedSymbol { module: b, symbol_index: 2 }]
    );
    assert_eq!(linker.lazy_bind_symbol(b, 0), A_BASE + 0x100);
    assert_eq!(linker.diagnostics().len(), 3);
    assert_eq!(linker.diagnostics()[2], passed_over);
    linker.record(vec![Diagnostic::UnresolvedSymbol { module: 9, symbol_index: 9 }]);
    assert_eq!(linker.diagnostics().len(), 4);
}

#[test]
fn a_hidden_reference_ignores_the_other_modules() {
    let mut linker = new_linker();
    take_up(&mut linker, &exporter());
    let mut b = layout(B_BASE);
    b.symbols = vec![
        Sym { name: "foo", info: GLOBAL_FUNCTION, other: HIDDEN, section: 0, value: 0 },
        Sym { name: "weak_thing", info: WEAK_FUNCTION, other: HIDDEN, section: 0, value: 0 },
        Sym { name: "zero", info: LOCAL_FUNCTION, other: 3, section: 1, value: 0 },
    ];
    let b = take_up(&mut linker, &b);
    let loaded = linker.module(b).unwrap();
    let foo = loaded.runtime.get_symbol(&loaded.image, 1).unwrap();
    let weak = loaded.runtime.get_symbol(&loaded.image, 2).unwrap();
    let zero = loaded.runtime.get_symbol(&loaded.image, 3).unwrap();
    assert_eq!(linker.resolve_symbol(b, &foo), None);
    assert_eq!(linker.resolve_symbol(b, &weak), Some(0));
    assert_eq!(linker.resolve_symbol(b, &zero), Some(B_BASE));
}

#[test]
fn the_host_lookup_is_asked_after_the_linker_has_found_nothing() {
    let host = FixedLookup { name: b"missing", address: 0x6000_0000 };
    let shadowed = FixedLookup { name: b"foo", address: 0x6000_0000 };
    for (lookup, expected_foo) in [(host, A_BASE + 0x100), (shadowed, A_BASE + 0x100)] {
        let answers_missing = lookup.name == b"missing";
        let mut linker = Linker::new(RESOLVER, true, Some(lookup));
        take_up(&mut linker, &exporter());
        let mut b = layout(B_BASE);
        b.symbols = vec![undefined("foo", GLOBAL_FUNCTION), undefined("missing", GLOBAL_FUNCTION)];
        let b = take_up(&mut linker, &b);
        let loaded = linker.module(b).unwrap();
        let foo = loaded.runtime.get_symbol(&loaded.image, 1).unwrap();
        let missing = loaded.runtime.get_symbol(&loaded.image, 2).unwrap();
        assert_eq!(linker.resolve_symbol(b, &foo), Some(expected_foo));
        assert_eq!(
            linker.resolve_symbol(b, &missing),
            if answers_missing { Some(0x6000_0000 + b as u64) } else { None }
        );
        linker.set_manual_lookup(None);
        assert_eq!(linker.resolve_symbol(b, &missing), None);
        linker.set_manual_lookup(Some(FixedLookup { name: b"missing", address: 0x10 }));
        assert_eq!(linker.resolve_symbol(b, &missing), Some(0x10 + b as u64));
        assert_eq!(linker.resolve_symbol(b, &foo), Some(expected_foo));
    }
}

#[test]
fn lazy_setup_points_every_call_site_at_the_stub() {
    let mut linker = new_linker();
    take_up(&mut linker, &exporter());
    let mut b = layout(B_BASE);
    b.symbols = vec![undefined("foo", GLOBAL_FUNCTION), undefined("missing", GLOBAL_FUNCTION)];
    b.call_sites = vec![
        rela(GOT + 0x18, JUMP_SLOT, 1, 0),
        rela(GOT + 0x20, JUMP_SLOT, 2, 0),
        rela(GOT + 0x28, RELATIVE, 0, 0),
    ];
    b.words = vec![(GOT + 0x18, 0x900), (GOT + 0x20, 0x900), (GOT + 0x28, 0x77)];
    b.got = true;
    let b = take_up(&mut linker, &b);
    assert_eq!(linker.module(b).unwrap().runtime.got_stub_ptr, 0);
    assert_eq!(linker.resolve_symbols(b, true), Ok(()));
    assert_eq!(linker.module(b).unwrap().runtime.got_stub_ptr, B_BASE + 0x900);
    assert_eq!(word_at(&linker, b, GOT + 0x18), B_BASE + 0x900);
    assert_eq!(word_at(&linker, b, GOT + 0x20), B_BASE + 0x900);
    assert_eq!(word_at(&linker, b, GOT + 0x28), 0x77);
    assert_eq!(word_at(&linker, b, GOT), 0);
    assert_eq!(word_at(&linker, b, GOT + 8), B_BASE + STATE);
    assert_eq!(word_at(&linker, b, GOT + 16), RESOLVER);
    assert!(linker.diagnostics().is_empty());
}

#[test]
fn eager_setup_binds_every_call_site_at_once() {
    let mut linker = new_linker();
    take_up(&mut linker, &exporter());
    let mut b = layout(B_BASE);
    b.symbols = vec![
        undefined("foo", GLOBAL_FUNCTION),
        undefined("missing", GLOBAL_FUNCTION),
        undefined("absent", WEAK_FUNCTION),
    ];
    b.call_sites = vec![
        rela(GOT + 0x18, JUMP_SLOT, 1, 4),
        rela(GOT + 0x20, JUMP_SLOT, 2, 0),
        rela(GOT + 0x28, JUMP_SLOT, 3, 8),
    ];
    b.words = vec![(GOT + 0x18, 0x900), (GOT + 0x20, 0x900), (GOT + 0x28, 0x900)];
    let b = take_up(&mut linker, &b);
    assert_eq!(linker.resolve_symbols(b, false), Ok(()));
    assert_eq!(word_at(&linker, b, GOT + 0x18), A_BASE + 0x104);
    assert_eq!(word_at(&linker, b, GOT + 0x20), B_BASE + 0x900);
    assert_eq!(word_at(&linker, b, GOT + 0x28), 8);
    assert_eq!(word_at(&linker, b, GOT + 8), 0);
    assert_eq!(linker.diagnostics(), &vec![Diagnostic::UnresolvedSymbol { module: b, symbol_index: 2 }]);
}

#[test]
fn call_sites_that_start_at_different_stubs_are_fatal() {
    let mut linker = new_linker();
    let mut b = layout(B_BASE);
    b.call_sites = vec![
        rela(GOT + 0x18, JUMP_SLOT, 0, 0),
        rela(GOT + 0x20, JUMP_SLOT, 0, 0),
        rela(GOT + 0x28, JUMP_SLOT, 0, 0),
    ];
    b.words = vec![(GOT + 0x18, 0x900), (GOT + 0x20, 0x908), (GOT + 0x28, 0x900)];
    b.got = true;
    let b = take_up(&mut linker, &b);
    assert_eq!(linker.resolve_symbols(b, true), Err(Fatal::StubMismatch));
    assert_eq!(word_at(&linker, b, GOT + 0x18), B_BASE + 0x900);
    assert_eq!(word_at(&linker, b, GOT + 0x20), 0x908);
    assert_eq!(word_at(&linker, b, GOT + 0x28), 0x900);
    assert_eq!(word_at(&linker, b, GOT + 8), 0);
}

#[test]
fn a_call_site_or_a_got_outside_the_image_is_fatal() {
    let mut linker = new_linker();
    let mut b = layout(B_BASE);
    b.call_sites = vec![rela(SIZE as u64 - 7, JUMP_SLOT, 0, 0)];
    let handle = take_up(&mut linker, &b);
    assert_eq!(linker.resolve_symbols(handle, true), Err(Fatal::OutOfImage));

    let mut c = layout(A_BASE);
    c.extra = vec![(3, SIZE as u64 - 0x10)];
    let handle = take_up(&mut linker, &c);
    assert_eq!(linker.resolve_symbols(handle, true), Err(Fatal::OutOfImage));
    assert_eq!(word_at(&linker, handle, SIZE as u64 - 8), A_BASE + STATE);
}

#[test]
fn the_first_call_through_a_call_site_binds_it() {
    let mut linker = new_linker();
    take_up(&mut linker, &exporter());
    let mut b = layout(B_BASE);
    b.symbols = vec![
        undefined("foo", GLOBAL_FUNCTION),
        undefined("missing", GLOBAL_FUNCTION),
        undefined("absent", WEAK_FUNCTION),
    ];
    b.call_sites = vec![
        rela(GOT + 0x18, JUMP_SLOT, 1, 4),
        rela(GOT + 0x20, JUMP_SLOT, 2, 0),
        rela(GOT + 0x28, JUMP_SLOT, 3, 8),
        rela(GOT + 0x30, JUMP_SLOT, 0x4000, 0),
    ];
    let b = take_up(&mut linker, &b);
    let before = linker.module(b).unwrap().image.bytes.clone();
    assert_eq!(linker.lazy_bind_symbol(b, 0), A_BASE + 0x104);
    assert!(linker.diagnostics().is_empty());
    assert_eq!(linker.lazy_bind_symbol(b, 1), 0);
    assert_eq!(linker.diagnostics(), &vec![Diagnostic::UnresolvedSymbol { module: b, symbol_index: 2 }]);
    assert_eq!(linker.lazy_bind_symbol(b, 2), 0);
    assert_eq!(linker.lazy_bind_symbol(b, 3), 0);
    assert_eq!(linker.lazy_bind_symbol(b, 4), 0);
    assert_eq!(linker.lazy_bind_symbol(b, u64::MAX), 0);
    assert_eq!(linker.diagnostics().len(), 1);
    assert_eq!(linker.module(b).unwrap().image.bytes, before);
}

#[test]
fn modules_are_pointed_at_the_linkers_own_objects() {
    let mut linker = new_linker();
    let mut sdk = layout(A_BASE);
    sdk.symbols = vec![
        defined(AUTO_LOAD_LIST_SYMBOL, GLOBAL_FUNCTION, DEFAULT, 0x40),
        defined(MANUAL_LOAD_LIST_SYMBOL, GLOBAL_FUNCTION, DEFAULT, 0x48),
        defined(RO_DEBUG_FLAG_SYMBOL, WEAK_FUNCTION, DEFAULT, 0x50),
        defined(LOOKUP_GLOBAL_AUTO_SYMBOL, GLOBAL_FUNCTION, DEFAULT, 0x58),
        defined(LOOKUP_GLOBAL_MANUAL_SYMBOL, LOCAL_FUNCTION, DEFAULT, 0x60),
    ];
    let sdk = take_up(&mut linker, &sdk);
    let mut other = layout(B_BASE);
    other.symbols = vec![defined(RO_DEBUG_FLAG_SYMBOL, GLOBAL_FUNCTION, DEFAULT, 0x70)];
    let other = take_up(&mut linker, &other);
    assert_eq!(linker.bind_hardcoded_symbols(&targets()), Ok(()));
    assert_eq!(word_at(&linker, sdk, 0x40), 0x8000_0100);
    assert_eq!(word_at(&linker, sdk, 0x48), 0x8000_0200);
    assert_eq!(word_at(&linker, sdk, 0x50), 0x8000_0300);
    assert_eq!(word_at(&linker, sdk, 0x58), 0x8000_0400);
    assert_eq!(word_at(&linker, sdk, 0x60), 0);
    assert_eq!(word_at(&linker, other, 0x70), 0x8000_0300);
    assert_eq!(AUTO_LOAD_LIST_SYMBOL, "_ZN2nn2ro6detail15g_pAutoLoadListE");
    assert_eq!(MANUAL_LOAD_LIST_SYMBOL, "_ZN2nn2ro6detail17g_pManualLoadListE");
    assert_eq!(RO_DEBUG_FLAG_SYMBOL, "_ZN2nn2ro6detail14g_pRoDebugFlagE");
    assert_eq!(LOOKUP_GLOBAL_AUTO_SYMBOL, "_ZN2nn2ro6detail34g_pLookupGlobalAutoFunctionPointerE");
    assert_eq!(
        LOOKUP_GLOBAL_MANUAL_SYMBOL,
        "_ZN2nn2ro6detail36g_pLookupGlobalManualFunctionPointerE"
    );
}

#[test]
fn a_hardcoded_symbol_outside_the_image_is_fatal() {
    let mut linker = new_linker();
    let mut sdk = layout(A_BASE);
    sdk.symbols = vec![defined(MANUAL_LOAD_LIST_SYMBOL, GLOBAL_FUNCTION, DEFAULT, SIZE as u64)];
    take_up(&mut linker, &sdk);
    assert_eq!(linker.bind_hardcoded_symbols(&targets()), Err(Fatal::OutOfImage));
    assert_eq!(linker.link_all(&targets(), LINKER_BASE, true), Err(Fatal::OutOfImage));
}

#[test]
fn the_linker_itself_skips_its_relative_fixups_in_the_second_pass() {
    let mut own = layout(LINKER_BASE);
    own.symbols = vec![undefined("foo", GLOBAL_FUNCTION)];
    own.relocations = vec![rela(0x38, RELATIVE, 0, 0x60), rela(0x40, GLOB_DAT, 1, 0)];
    own.relative_count = 1;
    own.call_sites = vec![rela(GOT + 0x18, JUMP_SLOT, 1, 0)];
    own.words = vec![(GOT + 0x18, 0x900)];
    own.got = true;
    let mut linker: Linker<NoLookup> = Linker::new(RESOLVER, true, None);
    let handle = linker.relocate_self(build(&own)).unwrap();
    assert!(linker.initialize(handle));
    assert_eq!(word_at(&linker, handle, 0x38), LINKER_BASE + 0x60);
    assert_eq!(word_at(&linker, handle, 0x40), 0);
    linker.modules[handle].image.write_word(LINKER_BASE + 0x38, 0x1111);
    take_up(&mut linker, &exporter());
    assert_eq!(linker.link_modules(LINKER_BASE, true), Ok(()));
    assert_eq!(word_at(&linker, handle, 0x38), 0x1111);
    assert_eq!(word_at(&linker, handle, 0x40), A_BASE + 0x100);
    assert_eq!(word_at(&linker, handle, GOT + 0x18), LINKER_BASE + 0x900);
    assert_eq!(word_at(&linker, handle, GOT + 8), LINKER_BASE + STATE);
    assert_eq!(word_at(&linker, handle, GOT + 16), RESOLVER);
}

#[test]
fn a_linker_that_cannot_load_itself_stays_as_it_is() {
    let mut linker: Linker<NoLookup> = Linker::new(RESOLVER, true, None);
    let empty = Memory { arch: Arch::Aarch64, base: LINKER_BASE, bytes: Vec::new() };
    assert_eq!(linker.relocate_self(empty), Err(Fatal::InvalidModule));
    assert_eq!(linker.module_count(), 0);
    let mut broken = layout(LINKER_BASE);
    broken.extra = vec![(11, 1)];
    assert_eq!(linker.relocate_self(build(&broken)), Err(Fatal::EntrySizeMismatch));
    assert_eq!(linker.module_count(), 0);
}

#[test]
fn initializers_run_backward_and_finalizers_forward() {
    let mut own = layout(LINKER_BASE);
    own.init = Some(0x10);
    own.fini = Some(0x18);
    let mut linker: Linker<NoLookup> = Linker::new(RESOLVER, true, None);
    let handle = linker.relocate_self(build(&own)).unwrap();
    assert!(linker.initialize(handle));
    let mut a = layout(A_BASE);
    a.init = Some(0x20);
    let mut b = layout(B_BASE);
    b.fini = Some(0x38);
    let mut c = layout(0x7300_0000);
    c.init = Some(0x40);
    c.fini = Some(0x48);
    take_up(&mut linker, &a);
    take_up(&mut linker, &b);
    take_up(&mut linker, &c);
    assert_eq!(linker.global_load_list.modules(false), vec![3, 2, 1, 0]);
    assert_eq!(
        linker.call_initializers(),
        vec![LINKER_BASE + 0x10, A_BASE + 0x20, 0x7300_0040]
    );
    assert_eq!(linker.call_finilizers(), vec![0x7300_0048, B_BASE + 0x38, LINKER_BASE + 0x18]);
    let empty: Linker<NoLookup> = Linker::new(RESOLVER, true, None);
    assert_eq!(empty.call_initializers(), Vec::<u64>::new());
    assert_eq!(empty.call_finilizers(), Vec::<u64>::new());
}

#[test]
fn a_match_wins_and_only_a_weak_symbol_may_go_without() {
    let symbol = |info: u8| SymbolTableEntry {
        name_offset: 0,
        info: SymbolInfo::from_bytes(info),
        other: SymbolOther::from_bytes(0),
        section: 0,
        value: 0,
        size: 0,
    };
    assert_eq!(resolution(&symbol(WEAK_FUNCTION), None), Some(0));
    assert_eq!(resolution(&symbol(GLOBAL_FUNCTION), None), None);
    assert_eq!(resolution(&symbol(LOCAL_FUNCTION), None), None);
    assert_eq!(resolution(&symbol(0x32), None), Some(0));
    assert_eq!(resolution(&symbol(WEAK_FUNCTION), Some(0x40)), Some(0x40));
    assert_eq!(resolution(&symbol(GLOBAL_FUNCTION), Some(0x40)), Some(0x40));
    assert_eq!(resolution(&symbol(GLOBAL_FUNCTION), Some(0)), Some(0));
    assert_eq!(NoLookup.lookup(3, b"foo"), 0);
}

#[test]
fn the_binding_entry_point_finds_module_and_call_site() {
    assert_eq!(call_site_index(Arch::Aarch64, 0x1010, 0x1018), 0);
    assert_eq!(call_site_index(Arch::Aarch64, 0x1010, 0x1028), 2);
    assert_eq!(call_site_index(Arch::Aarch64, 0x1010, 0x102f), 2);
    assert_eq!(call_site_index(Arch::Aarch64, 0x1010, 0x1010), 0x1fff_ffff_ffff_ffff);
    assert_eq!(call_site_index(Arch::Aarch64, u64::MAX, 7), 0);
    assert_eq!(call_site_index(Arch::Arm, 0x1008, 0x100c), 0);
    assert_eq!(call_site_index(Arch::Arm, 0x1008, 0x1014), 2);
    assert_eq!(call_site_index(Arch::Arm, 0x1008, 0x1008), 0x3fff_ffff);

    let mut linker = new_linker();
    let a = take_up(&mut linker, &exporter());
    let mut b = layout(B_BASE);
    b.symbols = vec![undefined("foo", GLOBAL_FUNCTION)];
    b.call_sites = vec![rela(GOT + 0x18, JUMP_SLOT, 1, 0)];
    b.words = vec![(GOT + 0x18, 0x900)];
    b.got = true;
    let b = take_up(&mut linker, &b);
    assert_eq!(linker.resolve_symbols(b, true), Ok(()));
    let state = word_at(&linker, b, GOT + 8);
    assert_eq!(linker.module_of_state(state), Some(b));
    assert_eq!(linker.module_of_state(A_BASE + STATE), Some(a));
    assert_eq!(linker.module_of_state(LINKER_BASE + STATE), Some(0));
    assert_eq!(linker.module_of_state(0x1234), None);
    let index = call_site_index(Arch::Aarch64, B_BASE + GOT + 0x10, B_BASE + GOT + 0x18);
    assert_eq!(linker.lazy_bind_symbol(b, index), A_BASE + 0x100);
}
