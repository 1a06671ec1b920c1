//! Finding the object that holds an address by going through the program
//! headers of every loaded object, and the link-map node made up for it.

use crate::library::LoadedLibrary;
use crate::link_map::LinkMapBacked;
use crate::memory::ProcessMemory;
use crate::unixy::{ElfAddr, ElfPhdr, LinkMap, PT_DYNAMIC, PT_LOAD};
use vstd::prelude::*;

verus! {

/// Whether the header is a loadable segment that, in an object loaded at
/// `base`, holds `address`.
pub open spec fn segment_holds(header: ElfPhdr, base: u64, address: u64) -> bool {
    &&& header.spec_p_type() == PT_LOAD
    &&& base + header.spec_p_vaddr() <= address
    &&& address < base + header.spec_p_vaddr() + header.spec_p_memsz()
}

/// Whether a loadable segment of the object holds the address.
pub open spec fn spec_contains_address(dl_info: &LoadedLibrary, target_address: u64) -> bool {
    exists|i: int|
        0 <= i < dl_info.program_headers@.len() && segment_holds(
            #[trigger] dl_info.program_headers@[i],
            dl_info.addr,
            target_address,
        )
}

/// The first program header of type `PT_DYNAMIC` at or after `from`.
pub open spec fn dynamic_header_from(headers: Seq<ElfPhdr>, from: int) -> Option<ElfPhdr>
    decreases headers.len() - from,
{
    if from < 0 || from >= headers.len() {
        None
    } else if headers[from].spec_p_type() == PT_DYNAMIC {
        Some(headers[from])
    } else {
        dynamic_header_from(headers, from + 1)
    }
}

/// Where the dynamic section of the object lies: the address of the first
/// program header of type `PT_DYNAMIC`, moved by the load bias.
pub open spec fn spec_dynamic_address(dl_info: &LoadedLibrary) -> Option<u64> {
    match dynamic_header_from(dl_info.program_headers@, 0) {
        Some(h) => Some(h.spec_class().spec_sum(dl_info.addr, h.spec_p_vaddr())),
        None => None,
    }
}

/// Tells whether a loadable segment of the object holds the address.
pub fn does_contain_address(dl_info: &LoadedLibrary, target_address: u64) -> (r: bool)
    ensures
        r == spec_contains_address(dl_info, target_address),
{
    let mut idx: usize = 0;
    while idx < dl_info.program_headers.len()
        invariant
            idx <= dl_info.program_headers@.len(),
            forall|i: int|
                0 <= i < idx ==> !segment_holds(
                    #[trigger] dl_info.program_headers@[i],
                    dl_info.addr,
                    target_address,
                ),
        decreases dl_info.program_headers@.len() - idx,
    {
        let phdr = &dl_info.program_headers[idx];
        if phdr.p_type() == PT_LOAD {
            let base: u128 = dl_info.addr as u128 + phdr.p_vaddr() as u128;
            if base <= target_address as u128 && (target_address as u128) < base
                + phdr.p_memsz() as u128 {
                return true;
            }
        }
        idx = idx + 1;
    }
    false
}

/// Looks for the dynamic section of the object.
pub fn find_dynamic_section(dl_info: &LoadedLibrary) -> (r: Option<u64>)
    ensures
        r == spec_dynamic_address(dl_info),
{
    let mut idx: usize = 0;
    while idx < dl_info.program_headers.len()
        invariant
            idx <= dl_info.program_headers@.len(),
            dynamic_header_from(dl_info.program_headers@, 0) == dynamic_header_from(
                dl_info.program_headers@,
                idx as int,
            ),
        decreases dl_info.program_headers@.len() - idx,
    {
        let phdr = &dl_info.program_headers[idx];
        if phdr.p_type() == PT_DYNAMIC {
            return Some(phdr.class().sum(dl_info.addr, phdr.p_vaddr()));
        }
        idx = idx + 1;
    }
    None
}

/// Whether the object is one that `from_address` takes: a loadable segment
/// of it holds the address, and it has a dynamic section.
pub open spec fn is_home_of(module: &LoadedLibrary, address: u64) -> bool {
    spec_contains_address(module, address) && spec_dynamic_address(module) is Some
}

/// The first object at or after `from` that `from_address` takes.
pub open spec fn home_from(modules: Seq<LoadedLibrary>, address: u64, from: int) -> Option<int>
    decreases modules.len() - from,
{
    if from < 0 || from >= modules.len() {
        None
    } else if is_home_of(&modules[from], address) {
        Some(from)
    } else {
        home_from(modules, address, from + 1)
    }
}

/// The node that is made up for the object that holds `address`: its load
/// bias and the address of its dynamic section, and nothing else.
pub open spec fn spec_from_address(modules: Seq<LoadedLibrary>, address: u64) -> Option<LinkMap> {
    match home_from(modules, address, 0) {
        Some(i) => Some(
            LinkMap {
                l_addr: modules[i].addr,
                l_name: 0,
                l_ld: spec_dynamic_address(&modules[i]).unwrap(),
                l_next: 0,
                l_prev: 0,
            },
        ),
        None => None,
    }
}

/// A node that stands for an object found by its program headers. It is a
/// list of one: it has no neighbours and no name.
#[derive(Clone, Copy)]
pub struct LinkMapView<'a> {
    pub raw: LinkMap,
    pub memory: &'a ProcessMemory,
}

impl<'a> LinkMapView<'a> {
    /// Makes up the node of an object loaded at `l_addr` whose dynamic
    /// section lies at `l_ld`.
    pub fn new(memory: &'a ProcessMemory, l_addr: ElfAddr, l_ld: u64) -> (r: LinkMapView<'a>)
        ensures
            r.memory == memory,
            r.raw == (LinkMap { l_addr, l_name: 0, l_ld, l_next: 0, l_prev: 0 }),
    {
        LinkMapView { raw: LinkMap { l_addr, l_name: 0, l_ld, l_next: 0, l_prev: 0 }, memory }
    }

    /// Looks for the object that holds `address` among the loaded objects, in
    /// their order, and makes up its node. An object that holds the address
    /// and has no dynamic section is passed over.
    pub fn from_address(
        memory: &'a ProcessMemory,
        modules: &Vec<LoadedLibrary>,
        address: u64,
    ) -> (r: Option<LinkMapView<'a>>)
        ensures
            match r {
                Some(v) => v.memory == memory && spec_from_address(modules@, address) == Some(
                    v.raw,
                ),
                None => spec_from_address(modules@, address) is None,
            },
    {
        let mut idx: usize = 0;
        while idx < modules.len()
            invariant
                idx <= modules@.len(),
                home_from(modules@, address, 0) == home_from(modules@, address, idx as int),
            decreases modules@.len() - idx,
        {
            let dl_info = &modules[idx];
            if does_contain_address(dl_info, address) {
                match find_dynamic_section(dl_info) {
                    Some(elf_dyn) => {
                        return Some(LinkMapView::new(memory, dl_info.addr, elf_dyn));
                    },
                    None => {},
                }
            }
            idx = idx + 1;
        }
        None
    }
}

impl<'a> LinkMapBacked for LinkMapView<'a> {
    open spec fn spec_inner(&self) -> LinkMap {
        self.raw
    }

    /// The pointers of the dynamic section are offsets from the load bias.
    open spec fn spec_dynamic_load_address(&self) -> ElfAddr {
        self.raw.l_addr
    }

    open spec fn spec_memory(&self) -> &ProcessMemory {
        self.memory
    }

    fn inner(&self) -> (r: &LinkMap) {
        &self.raw
    }

    fn dynamic_load_address(&self) -> (r: ElfAddr) {
        self.raw.l_addr
    }

    fn memory(&self) -> (r: &ProcessMemory) {
        self.memory
    }
}

} // verus!
