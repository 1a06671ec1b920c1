use plt_rs::android_view;
use plt_rs::elf64;
use plt_rs::patch::{PROT_READ, PROT_READ_WRITE, PROT_WRITE};
use plt_rs::{
    page_of, ElfClass, ElfPhdr, FunctionHook, LoadedLibrary, Machine, MutableLinkMap, Patch,
    PatchAction, PatchError, PatchEvent, PatchStage, PltError, ProcessMemory, SectionType, Segment,
    Target,
};

const BASE: u64 = 0x7f00_0040_0000;
const DYNAMIC: u64 = 0x100;
const STRTAB: u64 = 0x300;
const SYMTAB: u64 = 0x400;
const JMPREL: u64 = 0x700;
const GOT: u64 = 0x1ff0;
const STRINGS: &[u8] = b"\0getpid\0";

/// The page of a slot, as the system keeps it.
struct Page {
    protection: i32,
    word: u64,
    refuse: Vec<i32>,
    calls: Vec<PatchAction>,
}

impl Page {
    fn new(word: u64, refuse: &[i32]) -> Page {
        Page { protection: PROT_READ, word, refuse: refuse.to_vec(), calls: Vec::new() }
    }

    /// Carries a patch out, refusing the changes of protection whose numbers
    /// are listed.
    fn carry_out(&mut self, mut patch: Patch) -> Result<u64, PatchError> {
        let mut changes = 0;
        loop {
            let action = patch.action();
            self.calls.push(action);
            match action {
                PatchAction::Protect { flags, .. } => {
                    changes += 1;
                    if self.refuse.contains(&changes) {
                        patch = patch.step(PatchEvent::Protected { result: -1, os_errno: 13 });
                    } else {
                        self.protection = flags;
                        patch = patch.step(PatchEvent::Protected { result: 0, os_errno: 0 });
                    }
                }
                PatchAction::Swap { value, .. } => {
                    assert_eq!(self.protection & PROT_WRITE, PROT_WRITE);
                    let previous = self.word;
                    self.word = value;
                    patch = patch.step(PatchEvent::Swapped { previous });
                }
                PatchAction::Done(outcome) => {
                    assert!(patch.is_done());
                    assert_eq!(patch.outcome(), Some(outcome));
                    return outcome;
                }
            }
        }
    }
}

#[test]
fn the_page_of_an_address_is_the_multiple_of_the_page_size_below_it() {
    assert_eq!(page_of(0x7f00_0040_1ff0, 4096), 0x7f00_0040_1000);
    assert_eq!(page_of(0x7f00_0040_1000, 4096), 0x7f00_0040_1000);
    assert_eq!(page_of(0x7f00_0040_0fff, 4096), 0x7f00_0040_0000);
    assert_eq!(page_of(0xfff, 4096), 0);
    assert_eq!(page_of(u64::MAX, 4096), 0xffff_ffff_ffff_f000);
    assert_eq!(page_of(0x1_2345, 0x1_0000), 0x1_0000);
    assert_eq!(page_of(100, 7), 98);
    assert_eq!(page_of(100, 1), 100);
    assert_eq!(PROT_READ_WRITE, PROT_READ | PROT_WRITE);
}

#[test]
fn a_patch_unlocks_swaps_and_locks() {
    let mut page = Page::new(0x7f00_1234_5678, &[]);
    let patch = Patch::begin(0x5555_0000_3fe8, 0x4000_1000, 4096);
    assert!(!patch.is_done());
    assert_eq!(patch.outcome(), None);
    assert_eq!(page.carry_out(patch), Ok(0x7f00_1234_5678));
    assert_eq!(page.word, 0x4000_1000);
    assert_eq!(page.protection, PROT_READ);
    assert_eq!(
        page.calls,
        vec![
            PatchAction::Protect { page: 0x5555_0000_3000, len: 4096, flags: PROT_READ_WRITE },
            PatchAction::Swap { slot: 0x5555_0000_3fe8, value: 0x4000_1000 },
            PatchAction::Protect { page: 0x5555_0000_3000, len: 4096, flags: PROT_READ },
            PatchAction::Done(Ok(0x7f00_1234_5678)),
        ]
    );
}

#[test]
fn a_refused_unlock_ends_the_patch_before_the_swap() {
    let mut page = Page::new(0x7f00_1234_5678, &[1]);
    let outcome = page.carry_out(Patch::begin(0x5555_0000_3fe8, 0x4000_1000, 4096));
    assert_eq!(
        outcome,
        Err(PatchError {
            addr: 0x5555_0000_3fe8,
            page: 0x5555_0000_3000,
            page_size: 4096,
            flags: PROT_READ | PROT_WRITE,
            os_errno: 13,
        })
    );
    assert_eq!(page.word, 0x7f00_1234_5678);
    assert_eq!(page.protection, PROT_READ);
    assert_eq!(page.calls.len(), 2);
}

#[test]
fn a_refused_lock_leaves_the_new_word_and_names_the_page() {
    let mut page = Page::new(0x7f00_1234_5678, &[2]);
    let outcome = page.carry_out(Patch::begin(0x5555_0000_3fe8, 0x4000_1000, 4096));
    assert_eq!(
        outcome,
        Err(PatchError {
            addr: 0x5555_0000_3fe8,
            page: 0x5555_0000_3000,
            page_size: 4096,
            flags: PROT_READ,
            os_errno: 13,
        })
    );
    assert_eq!(page.word, 0x4000_1000);
    assert_eq!(page.protection, PROT_READ_WRITE);
    assert_eq!(page.calls.len(), 4);
}

#[test]
fn an_event_that_answers_nothing_changes_nothing() {
    let start = Patch::begin(0x2008, 7, 0x1000);
    assert_eq!(start.step(PatchEvent::Swapped { previous: 1 }), start);
    let swapping = start.step(PatchEvent::Protected { result: 0, os_errno: 0 });
    assert_eq!(swapping.stage, PatchStage::Swapping);
    assert_eq!(swapping.step(PatchEvent::Protected { result: 0, os_errno: 0 }), swapping);
    let locking = swapping.step(PatchEvent::Swapped { previous: 55 });
    assert_eq!(locking.stage, PatchStage::Locking { previous: 55 });
    assert_eq!(locking.step(PatchEvent::Swapped { previous: 66 }), locking);
    let done = locking.step(PatchEvent::Protected { result: 0, os_errno: 0 });
    assert_eq!(done.stage, PatchStage::Finished(Ok(55)));
    assert_eq!(done.step(PatchEvent::Swapped { previous: 1 }), done);
    assert_eq!(done.step(PatchEvent::Protected { result: -1, os_errno: 1 }), done);
    assert_eq!(done.action(), PatchAction::Done(Ok(55)));
    let refused = start.step(PatchEvent::Protected { result: 22, os_errno: 12 });
    assert_eq!(refused.outcome().map(|o| o.map_err(|e| (e.flags, e.os_errno))), Some(Err((3, 12))));
}

fn put(bytes: &mut [u8], at: u64, value: u64, width: usize) {
    for i in 0..width {
        bytes[at as usize + i] = (value >> (8 * i)) as u8;
    }
}

fn memory(symtab: bool) -> ProcessMemory {
    let mut bytes = vec![0u8; 0x2000];
    let mut entries = vec![(5u64, STRTAB), (10, STRINGS.len() as u64), (23, JMPREL), (2, 24), (20, 7), (0, 0)];
    if symtab {
        entries.insert(0, (6, SYMTAB));
        entries.insert(1, (11, 24));
    }
    for (i, (tag, value)) in entries.iter().enumerate() {
        put(&mut bytes, DYNAMIC + 16 * i as u64, *tag, 8);
        put(&mut bytes, DYNAMIC + 16 * i as u64 + 8, *value, 8);
    }
    bytes[STRTAB as usize..STRTAB as usize + STRINGS.len()].copy_from_slice(STRINGS);
    put(&mut bytes, SYMTAB + 24, 1, 4);
    put(&mut bytes, JMPREL, GOT, 8);
    put(&mut bytes, JMPREL + 8, (1 << 32) | 1026, 8);
    put(&mut bytes, GOT, 0x7f00_1234_5678, 8);
    ProcessMemory {
        target: Target { class: ElfClass::Elf64, machine: Machine::AArch64 },
        segments: vec![Segment { start: BASE, bytes }],
    }
}

fn modules() -> Vec<LoadedLibrary> {
    let header = |p_type: u32, p_vaddr: u64, p_memsz: u64| {
        ElfPhdr::Elf64(elf64::ProgramHeader {
            p_type,
            p_flags: 6,
            p_offset: p_vaddr,
            p_vaddr,
            p_paddr: p_vaddr,
            p_filesz: p_memsz,
            p_memsz,
            p_align: 0x1000,
        })
    };
    vec![LoadedLibrary {
        addr: BASE,
        name: String::from("libpayload.so"),
        program_headers: vec![header(1, 0, 0x2000), header(2, DYNAMIC, 0x100)],
    }]
}

#[test]
fn a_token_keeps_the_name_and_the_function() {
    let token = FunctionHook::new(String::from("getpid"), 808u64);
    assert_eq!(token.symbol_name(), "getpid");
    assert_eq!(*token.cached_function(), 808);
    let other: FunctionHook<(u8, bool)> = FunctionHook::new(String::new(), (3, true));
    assert_eq!(*other.cached_function(), (3, true));
    assert_eq!(other.symbol_name(), "");
}

#[test]
fn a_hook_and_its_restore_leave_the_slot_as_it_was() {
    let memory = memory(true);
    let view = android_view::LinkMapView::from_address(&memory, &modules(), BASE + 8).expect("object");
    let map = MutableLinkMap::from_view(view);
    assert_eq!(map.view().raw.l_addr, BASE);
    let mut page = Page::new(0x7f00_1234_5678, &[]);

    let patch = map.hook("getpid", 808, 0x1000).expect("tables").expect("getpid");
    assert_eq!(patch, Patch { slot: BASE + GOT, value: 808, page_size: 0x1000, stage: PatchStage::Unlocking });
    let token = MutableLinkMap::<android_view::LinkMapView>::finish_hook("getpid", page.carry_out(patch))
        .expect("hooked");
    assert_eq!(page.word, 808);
    assert_eq!(token.symbol_name(), "getpid");
    assert_eq!(*token.cached_function(), 0x7f00_1234_5678);

    let back = map.restore(token, 0x1000).expect("tables").expect("getpid");
    assert_eq!(back.slot, BASE + GOT);
    assert_eq!(back.value, 0x7f00_1234_5678);
    let hooked = MutableLinkMap::<android_view::LinkMapView>::finish_restore(page.carry_out(back));
    assert_eq!(hooked, Ok(808));
    assert_eq!(page.word, 0x7f00_1234_5678);
    assert_eq!(page.protection, PROT_READ);
}

#[test]
fn a_second_restore_gives_what_the_slot_holds() {
    let memory = memory(true);
    let view = android_view::LinkMapView::from_address(&memory, &modules(), BASE + 8).expect("object");
    let map = MutableLinkMap::from_view(view);
    let mut page = Page::new(0x1111, &[]);
    let first = map.restore(FunctionHook::new(String::from("getpid"), 0x1111), 0x1000).expect("tables").expect("getpid");
    assert_eq!(page.carry_out(first), Ok(0x1111));
    let second = map.restore(FunctionHook::new(String::from("getpid"), 0x1111), 0x1000).expect("tables").expect("getpid");
    assert_eq!(page.carry_out(second), Ok(0x1111));
    assert_eq!(page.word, 0x1111);
}

#[test]
fn a_symbol_that_is_not_imported_is_not_hooked() {
    let memory = memory(true);
    let view = android_view::LinkMapView::from_address(&memory, &modules(), BASE + 8).expect("object");
    let map = MutableLinkMap::from_view(view);
    assert_eq!(map.hook("puts", 808, 0x1000), Ok(None));
    assert_eq!(map.restore(FunctionHook::new(String::from("puts"), 1), 0x1000), Ok(None));
    let bare = memory_without_symbols();
    let view = android_view::LinkMapView::from_address(&bare, &modules(), BASE + 8).expect("object");
    let map = MutableLinkMap::from_view(view);
    assert_eq!(map.hook("getpid", 808, 0x1000), Err(PltError::Section(SectionType::DT_SYMTAB)));
    assert_eq!(
        map.restore(FunctionHook::new(String::from("getpid"), 1), 0x1000),
        Err(PltError::Section(SectionType::DT_SYMTAB))
    );
}

fn memory_without_symbols() -> ProcessMemory {
    memory(false)
}

#[test]
fn a_refusal_of_the_system_comes_out_of_the_hook() {
    let refusal = PatchError { addr: 0x2008, page: 0x2000, page_size: 0x1000, flags: PROT_READ, os_errno: 12 };
    let hooked = MutableLinkMap::<android_view::LinkMapView>::finish_hook("getpid", Err(refusal));
    assert_eq!(hooked.err(), Some(PltError::Protection(refusal)));
    assert_eq!(
        MutableLinkMap::<android_view::LinkMapView>::finish_restore(Err(refusal)),
        Err(PltError::Protection(refusal))
    );
    assert_eq!(MutableLinkMap::<android_view::LinkMapView>::finish_restore(Ok(5)), Ok(5));
}
