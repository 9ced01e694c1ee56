use generic_linkme::disasm::ScanError;
use generic_linkme::distributed_fn_slice::DistributedFnSlice;
use generic_linkme::distributed_fn_slice::Published;
use generic_linkme::distributed_fn_slice::DUPCHECK_WORD;
use generic_linkme::link::link;
use generic_linkme::link::AnyFn;
use generic_linkme::link::Oracle;
use generic_linkme::link::Scratch;
use generic_linkme::linker::linux;
use generic_linkme::linker::ordered_section;
use generic_linkme::linker::windows;

fn four() -> u32 {
    4
}

fn nine() -> u32 {
    9
}

fn jmp_to(at: u64, target: u64) -> Vec<u8> {
    let rel = target.wrapping_sub(at.wrapping_add(5)) as i64;
    let rel = i32::try_from(rel).unwrap();
    let mut code = vec![0xe9];
    code.extend_from_slice(&rel.to_le_bytes());
    code
}

fn region(base: u64, targets: &[u64]) -> Vec<u8> {
    let mut code = Vec::new();
    for target in targets {
        let at = base + code.len() as u64;
        code.extend(jmp_to(at, *target));
    }
    code
}

fn registry(name: &str, base: u64, code: &[u8]) -> DistributedFnSlice {
    DistributedFnSlice::private_new(name, base, base + code.len() as u64, 0x9000, 0x9008)
}

fn call(entry: u64, table: &[(u64, fn() -> u32)]) -> u32 {
    for (address, function) in table {
        if *address == entry {
            return function();
        }
    }
    panic!("entry {:#x} is no contribution", entry);
}

#[test]
fn two_ordered_contributions() {
    let table: [(u64, fn() -> u32); 2] =
        [(four as usize as u64, four), (nine as usize as u64, nine)];
    // Registered out of order; the ordinal decides.
    let mut contributions = vec![
        (ordered_section(&linux::section("NUMS"), Some(1)), table[1].0),
        (ordered_section(&linux::section("NUMS"), Some(0)), table[0].0),
    ];
    contributions.sort_by(|a, b| a.0.cmp(&b.0));
    assert_eq!(contributions[0].0, "generic_linkme_NUMS0000");
    assert_eq!(contributions[1].0, "generic_linkme_NUMS0001");
    let placed: Vec<u64> = contributions.iter().map(|(_, target)| *target).collect();
    let base = table[0].0;
    let code = region(base, &placed);
    let nums = registry("NUMS", base, &code);
    assert!(nums.has_single_declaration());
    let entries = nums.static_slice(&code).unwrap();
    assert_eq!(entries.len(), 2);
    assert_eq!(call(entries[0], &table), 4);
    assert_eq!(call(entries[1], &table), 9);
}

#[test]
fn ordinal_one_precedes_ordinal_two() {
    let base = 0x40_0000u64;
    let mut contributions = vec![
        (ordered_section(&windows::section("NUMS"), Some(2)), 0x40_2000u64),
        (ordered_section(&windows::section("NUMS"), Some(10)), 0x40_a000),
        (ordered_section(&windows::section("NUMS"), Some(1)), 0x40_1000),
    ];
    contributions.sort_by(|a, b| a.0.cmp(&b.0));
    let placed: Vec<u64> = contributions.iter().map(|(_, target)| *target).collect();
    let code = region(base, &placed);
    let slice = registry("NUMS", base, &code);
    assert_eq!(slice.static_slice(&code), Ok(vec![0x40_1000, 0x40_2000, 0x40_a000]));
}

struct Retained;

impl AnyFn<()> for Retained {
    fn dry_run(&self, _scratch: &Scratch) {
        panic!("the guard of a seeded oracle opened");
    }
}

#[test]
fn test_slices() {
    let foo = four as usize as u64;
    let baz = nine as usize as u64;
    let slice1_code = region(foo, &[foo]);
    let slice3_code = region(baz, &[baz]);
    let slice1 = registry("SLICE1", foo, &slice1_code);
    let slice3 = registry("SLICE3", baz, &slice3_code);
    assert!(!slice1.static_slice(&slice1_code).unwrap().is_empty());
    assert!(!slice3.static_slice(&slice3_code).unwrap().is_empty());
    let oracle = Oracle::seed();
    assert!(!link(&oracle, Retained));
    assert!(!link(&oracle, Retained));
    assert!(!link(&oracle, Retained));
}

#[test]
fn clone_keeps_name_and_boundaries() {
    let slice = DistributedFnSlice::private_new("NUMS", 0x1000, 0x1010, 0x2000, 0x2008);
    let copy = slice.clone();
    assert_eq!(copy.name(), "NUMS");
    assert_eq!(copy.section_start(), 0x1000);
    assert_eq!(copy.code_len(), Some(0x10));
    assert!(copy.has_single_declaration());
    let doubled = DistributedFnSlice::private_new("ECHO", 0x3000, 0x3005, 0x2000, 0x2010).clone();
    assert_eq!(doubled.name(), "ECHO");
    assert_eq!(doubled.section_start(), 0x3000);
    assert_eq!(doubled.code_len(), Some(5));
    assert!(!doubled.has_single_declaration());
    assert_eq!(doubled.duplicate_message(), "duplicate #[distributed_slice] with name \"ECHO\"");
}

#[test]
fn code_between_trampolines_adds_no_entry() {
    let base = 0x40_0000u64;
    let targets = [0x50_0000u64, 0x50_0010, 0x50_0020];
    let mut code = Vec::new();
    for target in targets {
        code.extend([0x55, 0x48, 0x89, 0xe5, 0x90]);
        let at = base + code.len() as u64;
        code.extend(jmp_to(at, target));
        code.extend([0x5d, 0xc3]);
    }
    let slice = registry("PADDED", base, &code);
    assert_eq!(slice.static_slice(&code), Ok(targets.to_vec()));
}

#[test]
fn round_trip_counts_contributions() {
    for k in 0..20u64 {
        let base = 0x40_0000u64;
        let targets: Vec<u64> = (0..k).map(|i| 0x50_0000 + 16 * i).collect();
        let code = region(base, &targets);
        let slice = registry("MANY", base, &code);
        assert_eq!(slice.static_slice(&code), Ok(targets));
    }
}

#[test]
fn private_new_keeps_its_arguments() {
    let slice = DistributedFnSlice::private_new("NUMS", 0x1000, 0x1010, 0x2000, 0x2008);
    assert_eq!(slice.name(), "NUMS");
    assert_eq!(slice.section_start(), 0x1000);
    assert_eq!(slice.code_len(), Some(0x10));
    assert!(slice.has_single_declaration());
}

#[test]
fn code_len_of_boundaries() {
    assert_eq!(DistributedFnSlice::private_new("A", 0x1000, 0x1000, 0, 8).code_len(), Some(0));
    assert_eq!(DistributedFnSlice::private_new("A", 0, u64::MAX, 0, 8).code_len(), Some(u64::MAX));
    assert_eq!(DistributedFnSlice::private_new("A", 0x1001, 0x1000, 0, 8).code_len(), None);
}

#[test]
fn duplicate_check_wants_exactly_one_word() {
    assert_eq!(DUPCHECK_WORD, 8);
    let words = |start: u64, stop: u64| {
        DistributedFnSlice::private_new("NUMS", 0, 0, start, stop).has_single_declaration()
    };
    assert!(words(0x2000, 0x2008));
    assert!(!words(0x2000, 0x2010));
    assert!(!words(0x2000, 0x2018));
    assert!(!words(0x2000, 0x2000));
    assert!(!words(0x2000, 0x2004));
    assert!(!words(0x2008, 0x2000));
    assert!(words(u64::MAX - 8, u64::MAX));
}

#[test]
fn duplicate_message_names_the_registry() {
    let slice = DistributedFnSlice::private_new("NUMS", 0, 0, 0x2000, 0x2010);
    assert!(!slice.has_single_declaration());
    assert_eq!(slice.duplicate_message(), "duplicate #[distributed_slice] with name \"NUMS\"");
}

#[test]
fn materialization_is_idempotent() {
    let base = 0x40_0000u64;
    let code = region(base, &[0x40_1000, 0x40_2000, 0x40_3000]);
    let slice = registry("ECHO", base, &code);
    let first = slice.static_slice(&code);
    let second = slice.static_slice(&code);
    let third = slice.clone().static_slice(&code);
    assert_eq!(first, Ok(vec![0x40_1000, 0x40_2000, 0x40_3000]));
    assert_eq!(second, first);
    assert_eq!(third, first);
}

#[test]
fn first_access_publishes() {
    let base = 0x40_0000u64;
    let code = region(base, &[0x40_1000]);
    let other = region(base, &[0x40_2000]);
    let slice = registry("ECHO", base, &code);
    assert!(format!("{:?}", slice).contains("Uninit"));
    assert_eq!(slice.static_slice(&code), Ok(vec![0x40_1000]));
    let published = format!("{:?}", slice);
    assert!(!published.contains("Uninit"));
    assert!(published.contains(&format!("{}", 0x40_1000)));
    // A later access never replaces what was published.
    assert_eq!(slice.static_slice(&other), Ok(vec![0x40_2000]));
    assert_eq!(format!("{:?}", slice), published);
}

#[test]
fn published_registry_is_bound_to_its_region() {
    let base = 0x40_0000u64;
    let code = region(base, &[0x40_1000, 0x40_2000]);
    let other = region(base, &[0x40_3000, 0x40_4000]);
    let slice = registry("ECHO", base, &code);
    assert_eq!(slice.static_slice(&code), Ok(vec![0x40_1000, 0x40_2000]));
    assert_eq!(slice.static_slice(&other), Ok(vec![0x40_3000, 0x40_4000]));
    assert_eq!(slice.static_slice(&code), Ok(vec![0x40_1000, 0x40_2000]));
}

#[test]
fn published_scan() {
    let base = 0x1000u64;
    let code = region(base, &[0x2000, 0x3000]);
    let published = Published::scan(&code, base).unwrap();
    assert_eq!(published.to_vec(), vec![0x2000, 0x3000]);
    assert!(published.is_for(&code, base));
    assert!(!published.is_for(&code, base + 1));
    assert!(!published.is_for(&code[..5], base));
    let copy = published.clone();
    assert_eq!(copy.to_vec(), published.to_vec());
    assert!(copy.is_for(&code, base));
}

#[test]
fn private_typecheck_accepts_any_entry() {
    let slice = DistributedFnSlice::private_new("NUMS", 0, 0, 0, 8);
    slice.private_typecheck(four as usize as u64);
    slice.private_typecheck(0);
}

#[test]
fn scan_failures_are_told_apart() {
    assert_ne!(ScanError::Engine, ScanError::Disassemble);
    assert_ne!(ScanError::Disassemble, ScanError::Detail);
}
