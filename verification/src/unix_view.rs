//! The loader's own list of objects: a node of it, its neighbours and its
//! name, and what to make of the loader's answers when it is asked for the
//! node of an address or of a library.

use crate::link_map::LinkMapBacked;
use crate::memory::ProcessMemory;
use crate::unixy::{ElfAddr, LinkMap};
use vstd::prelude::*;

verus! {

/// Resolve symbols as they are needed.
pub const RTLD_LAZY: i32 = 1;

/// Do not load the library: succeed only if it is loaded already.
pub const RTLD_NOLOAD: i32 = 4;

/// The flags with which a library is opened to find its node.
pub const RTLD_LAZY_NOLOAD: i32 = RTLD_LAZY | RTLD_NOLOAD;

/// The request for the node of a handle, or of an address.
pub const RTLD_DI_LINKMAP: i32 = 2;

/// The node that lies at `address`: none where the address is 0 or the node
/// cannot be read.
pub open spec fn node_at(memory: &ProcessMemory, address: u64) -> Option<LinkMap> {
    let class = memory.target.class;
    if address != 0 && memory.readable(address as int, LinkMap::spec_size(class) as int) {
        Some(
            LinkMap::spec_decode(
                class,
                memory.bytes_at(address as int, LinkMap::spec_size(class) as int),
                0,
            ),
        )
    } else {
        None
    }
}

/// What the caller has to ask of the loader next, to find the node of a
/// library by its name.
#[derive(Debug, Clone, Copy, PartialEq, Eq)]
pub enum LookupAction {
    /// Open the library with `flags`.
    Open { flags: i32 },
    /// Ask for what `request` names of the library behind `handle`.
    Info { handle: u64, request: i32 },
    /// Close `handle`.
    Close { handle: u64 },
    /// Nothing: the lookup has ended, with the address of the node or
    /// without one.
    Done(Option<u64>),
}

/// What the loader answered.
#[derive(Debug, Clone, Copy, PartialEq, Eq, Structural)]
pub enum LookupEvent {
    /// The library was opened; `handle` is 0 where the loader refused.
    Opened { handle: u64 },
    /// The loader was asked; `result` is -1 where it refused, and `link_map`
    /// is what it wrote.
    Informed { result: i32, link_map: u64 },
    /// The handle was closed.
    Closed { result: i32 },
}

/// How far the lookup of a library's node has come.
#[derive(Debug, Clone, Copy, PartialEq, Eq)]
pub enum LibraryLookup {
    Opening,
    Informing { handle: u64 },
    Closing { handle: u64, node: Option<u64> },
    Finished(Option<u64>),
}

impl LibraryLookup {
    /// The action that the stage asks for. The library is opened with
    /// `RTLD_NOLOAD`, so that no object is ever loaded.
    pub open spec fn spec_action(&self) -> LookupAction {
        match *self {
            LibraryLookup::Opening => LookupAction::Open { flags: RTLD_LAZY_NOLOAD },
            LibraryLookup::Informing { handle } => LookupAction::Info {
                handle,
                request: RTLD_DI_LINKMAP,
            },
            LibraryLookup::Closing { handle, node } => LookupAction::Close { handle },
            LibraryLookup::Finished(node) => LookupAction::Done(node),
        }
    }

    /// The stage that follows once `event` has come. A library that is not
    /// loaded ends the lookup without a node. A handle is closed whatever the
    /// loader said of it, and what closing gives changes nothing. The node is
    /// kept where the loader did not refuse and wrote an address other than 0.
    /// An event that does not answer the action of the stage changes nothing.
    pub open spec fn spec_step(&self, event: LookupEvent) -> LibraryLookup {
        match (*self, event) {
            (LibraryLookup::Opening, LookupEvent::Opened { handle }) => if handle == 0 {
                LibraryLookup::Finished(None)
            } else {
                LibraryLookup::Informing { handle }
            },
            (
                LibraryLookup::Informing { handle },
                LookupEvent::Informed { result, link_map },
            ) => LibraryLookup::Closing {
                handle,
                node: if result == -1 || link_map == 0 {
                    None
                } else {
                    Some(link_map)
                },
            },
            (LibraryLookup::Closing { handle, node }, LookupEvent::Closed { .. }) => {
                LibraryLookup::Finished(node)
            },
            (stage, _) => stage,
        }
    }

    /// The node that the lookup has found: none until it has ended, none
    /// where it ended without an address, and else the node at the address.
    pub open spec fn spec_node(&self, memory: &ProcessMemory) -> Option<LinkMap> {
        match *self {
            LibraryLookup::Finished(Some(address)) => node_at(memory, address),
            _ => None,
        }
    }

    /// Starts a lookup.
    pub fn begin() -> (r: LibraryLookup)
        ensures
            r == LibraryLookup::Opening,
    {
        LibraryLookup::Opening
    }

    /// Tells what the caller has to ask of the loader next.
    #[verifier::when_used_as_spec(spec_action)]
    pub fn action(&self) -> (r: LookupAction)
        ensures
            r == self.spec_action(),
    {
        match *self {
            LibraryLookup::Opening => LookupAction::Open { flags: RTLD_LAZY_NOLOAD },
            LibraryLookup::Informing { handle } => LookupAction::Info {
                handle,
                request: RTLD_DI_LINKMAP,
            },
            LibraryLookup::Closing { handle, node } => LookupAction::Close { handle },
            LibraryLookup::Finished(node) => LookupAction::Done(node),
        }
    }

    /// Takes in what the loader answered.
    #[verifier::when_used_as_spec(spec_step)]
    pub fn step(&self, event: LookupEvent) -> (r: LibraryLookup)
        ensures
            r == self.spec_step(event),
    {
        match (*self, event) {
            (LibraryLookup::Opening, LookupEvent::Opened { handle }) => {
                if handle == 0 {
                    LibraryLookup::Finished(None)
                } else {
                    LibraryLookup::Informing { handle }
                }
            },
            (LibraryLookup::Informing { handle }, LookupEvent::Informed { result, link_map }) => {
                let node = if result == -1 || link_map == 0 {
                    None
                } else {
                    Some(link_map)
                };
                LibraryLookup::Closing { handle, node }
            },
            (LibraryLookup::Closing { handle, node }, LookupEvent::Closed { .. }) => {
                LibraryLookup::Finished(node)
            },
            (stage, _) => stage,
        }
    }
}

/// A node of the loader's list of objects, read out of the memory that it
/// lies in.
#[derive(Clone, Copy)]
pub struct LinkMapView<'a> {
    pub raw: LinkMap,
    pub memory: &'a ProcessMemory,
}

impl<'a> LinkMapView<'a> {
    /// Reads the node that lies at `address`.
    pub fn from_node(memory: &'a ProcessMemory, address: u64) -> (r: Option<LinkMapView<'a>>)
        ensures
            match r {
                Some(v) => v.memory == memory && node_at(memory, address) == Some(v.raw),
                None => node_at(memory, address) is None,
            },
    {
        if address == 0 {
            return None;
        }
        let class = memory.class();
        let size: usize = LinkMap::size(class);
        match memory.read(address, size as u64) {
            None => None,
            Some(s) => {
                proof {
                    memory.lemma_bytes_len(address as int, size as int);
                }
                Some(LinkMapView { raw: LinkMap::decode(class, s, 0), memory })
            },
        }
    }

    /// The node that follows in the list.
    pub fn next(&self) -> (r: Option<LinkMapView<'a>>)
        ensures
            match r {
                Some(v) => v.memory == self.memory && node_at(self.memory, self.raw.l_next)
                    == Some(v.raw),
                None => node_at(self.memory, self.raw.l_next) is None,
            },
    {
        LinkMapView::from_node(self.memory, self.raw.l_next)
    }

    /// The node that comes before in the list.
    pub fn previous(&self) -> (r: Option<LinkMapView<'a>>)
        ensures
            match r {
                Some(v) => v.memory == self.memory && node_at(self.memory, self.raw.l_prev)
                    == Some(v.raw),
                None => node_at(self.memory, self.raw.l_prev) is None,
            },
    {
        LinkMapView::from_node(self.memory, self.raw.l_prev)
    }

    /// The name of the object: the string that `l_name` points to, none
    /// where it points to nothing or the string cannot be read.
    pub open spec fn spec_name(&self) -> Option<Seq<u8>> {
        if self.raw.l_name == 0 {
            None
        } else {
            self.memory.c_string_at(self.raw.l_name as int)
        }
    }

    /// Reads the name of the object.
    pub fn name(&self) -> (r: Option<&'a [u8]>)
        ensures
            match r {
                Some(s) => self.spec_name() == Some(s@),
                None => self.spec_name() is None,
            },
    {
        if self.raw.l_name == 0 {
            None
        } else {
            self.memory.read_c_string(self.raw.l_name)
        }
    }

    /// The node of a library, from the lookup that asked the loader for it:
    /// none until the lookup has ended, none where it ended without a node,
    /// and else the node at the address that the loader gave.
    pub fn from_shared_library(memory: &'a ProcessMemory, lookup: &LibraryLookup) -> (r: Option<
        LinkMapView<'a>,
    >)
        ensures
            match r {
                Some(v) => v.memory == memory && lookup.spec_node(memory) == Some(v.raw),
                None => lookup.spec_node(memory) is None,
            },
    {
        match *lookup {
            LibraryLookup::Finished(Some(address)) => LinkMapView::from_node(memory, address),
            _ => None,
        }
    }

    /// The node of the object that holds an address, from what the loader
    /// answered when it was asked: none where `addr_result` is 0, which is
    /// the loader's refusal, and else the node at `link_map`.
    pub fn from_address(memory: &'a ProcessMemory, addr_result: i32, link_map: u64) -> (r: Option<
        LinkMapView<'a>,
    >)
        ensures
            match r {
                Some(v) => addr_result != 0 && v.memory == memory && node_at(memory, link_map)
                    == Some(v.raw),
                None => addr_result == 0 || node_at(memory, link_map) is None,
            },
    {
        if addr_result == 0 {
            return None;
        }
        LinkMapView::from_node(memory, link_map)
    }
}

impl<'a> LinkMapBacked for LinkMapView<'a> {
    open spec fn spec_inner(&self) -> LinkMap {
        self.raw
    }

    /// The loader has moved the pointers of the dynamic section already.
    open spec fn spec_dynamic_load_address(&self) -> ElfAddr {
        0
    }

    open spec fn spec_memory(&self) -> &ProcessMemory {
        self.memory
    }

    fn inner(&self) -> (r: &LinkMap) {
        &self.raw
    }

    fn dynamic_load_address(&self) -> (r: ElfAddr) {
        0
    }

    fn memory(&self) -> (r: &ProcessMemory) {
        self.memory
    }
}

} // verus!
