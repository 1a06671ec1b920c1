//! Read and write access to the procedure linkage table and global offset
//! table of ELF objects, worked out over a snapshot of a process's memory.
//!
//! The library holds the logic: the record layouts, the walk over the dynamic
//! section, the table views, symbol resolution, and the decisions of the
//! patching protocol. The caller supplies the bytes of the mapped segments and
//! carries out the system calls that the library asks for.

pub mod bytes;
pub mod dynamic;
pub mod elf64;
pub mod elf32;
pub mod unixy;
pub mod memory;
pub mod tables;
pub mod android_view;
pub mod library;
pub mod patch;
pub mod link_map;
pub mod unix_view;
pub mod hook;

pub use crate::android_view::{does_contain_address, find_dynamic_section};
pub use crate::dynamic::{
    DynamicDigest, DynamicError, DynamicSection, DynamicSectionType, PltDigest, RelocationDigest,
    SymbolDigest,
};
pub use crate::elf64::DynTypeError;
pub use crate::hook::{FunctionHook, MutableLinkMap};
pub use crate::library::{DynamicLibrary, DynamicTables, LoadedLibrary, MemoryRange};
pub use crate::link_map::{executable_address, LinkMapBacked, MapRange};
pub use crate::memory::{ProcessMemory, Segment};
pub use crate::patch::{
    page_of, Patch, PatchAction, PatchError, PatchEvent, PatchStage, PltError, PltResult,
};
pub use crate::tables::{
    DynamicAddendRelocations, DynamicRelocations, DynamicSymbols, RelocationRef, RelocationTable,
    StringTableView,
};
pub use crate::unix_view::{LibraryLookup, LinkMapView, LookupAction, LookupEvent};
pub use crate::unixy::{
    ElfClass, ElfDyn, ElfPhdr, ElfRel, ElfRela, ElfSym, LinkMap, Machine, SectionType, Target,
};
