//! Overwriting one slot of the global offset table: the decisions of the
//! protocol, step by step. The caller performs each action that the protocol
//! asks for and reports what came of it.

use crate::dynamic::{DynamicError, DynamicSectionType};
use crate::unixy::SectionType;
use vstd::prelude::*;

verus! {

/// The protection flag of a page that may be read.
pub const PROT_READ: i32 = 1;

/// The protection flag of a page that may be written.
pub const PROT_WRITE: i32 = 2;

/// The protection flags of a page that may be read and written.
pub const PROT_READ_WRITE: i32 = PROT_READ | PROT_WRITE;

/// A change of a page's protection that the system refused.
#[derive(Debug, Clone, Copy, PartialEq, Eq, Structural)]
pub struct PatchError {
    /// The address of the slot.
    pub addr: u64,
    /// The start of the page that holds the slot.
    pub page: u64,
    pub page_size: u64,
    /// The protection that was asked for.
    pub flags: i32,
    /// The error number that the system gave.
    pub os_errno: i32,
}

/// Why a symbol could not be hooked.
#[derive(Debug, Clone, Copy, PartialEq, Eq, Structural)]
pub enum PltError {
    /// The system refused to change the protection of a page.
    Protection(PatchError),
    /// The dynamic section lacks an entry that is needed.
    Section(SectionType),
    /// The dynamic section breaks another rule, or a table that it points to
    /// cannot be read.
    Dynamic(DynamicError),
}

impl PltError {
    /// The error that stands for a defect of the dynamic section: a missing
    /// `DT_STRTAB` or `DT_STRSZ` is a missing section, and every other defect
    /// is handed on as it is.
    pub open spec fn spec_of_dynamic(e: DynamicError) -> PltError {
        match e {
            DynamicError::MissingRequiredSection(DynamicSectionType::DT_STRTAB) => PltError::Section(
                SectionType::DT_STRTAB,
            ),
            DynamicError::MissingRequiredSection(DynamicSectionType::DT_STRSZ) => PltError::Section(
                SectionType::DT_STRSZ,
            ),
            _ => PltError::Dynamic(e),
        }
    }

    /// Turns a defect of the dynamic section into the error of a hook.
    #[verifier::when_used_as_spec(spec_of_dynamic)]
    pub fn of_dynamic(e: DynamicError) -> (r: PltError)
        ensures
            r == Self::spec_of_dynamic(e),
    {
        match e {
            DynamicError::MissingRequiredSection(DynamicSectionType::DT_STRTAB) => PltError::Section(
                SectionType::DT_STRTAB,
            ),
            DynamicError::MissingRequiredSection(DynamicSectionType::DT_STRSZ) => PltError::Section(
                SectionType::DT_STRSZ,
            ),
            _ => PltError::Dynamic(e),
        }
    }
}

pub type PltResult<T> = Result<T, PltError>;

/// The start of the page that holds `address`.
pub open spec fn spec_page_of(address: u64, page_size: u64) -> u64 {
    ((address / page_size) * page_size) as u64
}

/// The start of a page is a multiple of the page size, and the address lies
/// less than one page above it.
pub proof fn lemma_page_of(address: u64, page_size: u64)
    requires
        page_size > 0,
    ensures
        spec_page_of(address, page_size) as int % page_size as int == 0,
        spec_page_of(address, page_size) <= address < spec_page_of(address, page_size) + page_size,
{
    let q = address as int / page_size as int;
    assert(q * page_size <= address && address < q * page_size + page_size && (q * page_size)
        % (page_size as int) == 0 && 0 <= q * page_size) by (nonlinear_arith)
        requires
            q == address as int / page_size as int,
            page_size > 0,
            address >= 0,
    ;
}

/// Computes the start of the page that holds `address`.
#[verifier::when_used_as_spec(spec_page_of)]
pub fn page_of(address: u64, page_size: u64) -> (r: u64)
    requires
        page_size > 0,
    ensures
        r == spec_page_of(address, page_size),
{
    proof {
        lemma_page_of(address, page_size);
    }
    let q: u64 = address / page_size;
    assert(q * page_size <= address) by (nonlinear_arith)
        requires
            q == address / page_size,
            page_size > 0,
    ;
    q * page_size
}

/// What the caller has to do next.
#[derive(Debug, Clone, Copy, PartialEq, Eq)]
pub enum PatchAction {
    /// Set the protection of the `len` bytes from `page` on to `flags`.
    Protect { page: u64, len: u64, flags: i32 },
    /// Put `value` into the word at `slot`, and report the word that was there.
    Swap { slot: u64, value: u64 },
    /// Nothing: the patch has ended, with the word that the slot held before
    /// or with the refusal that stopped it.
    Done(Result<u64, PatchError>),
}

/// What came of an action.
#[derive(Debug, Clone, Copy, PartialEq, Eq, Structural)]
pub enum PatchEvent {
    /// The protection was asked for: `result` is 0 where it was set, and
    /// `os_errno` says why where it was not.
    Protected { result: i32, os_errno: i32 },
    /// The word was swapped, and `previous` is what the slot held.
    Swapped { previous: u64 },
}

/// How far a patch has come.
#[derive(Debug, Clone, Copy, PartialEq, Eq)]
pub enum PatchStage {
    /// The page is to be made writable.
    Unlocking,
    /// The word is to be swapped.
    Swapping,
    /// The page is to be made read-only again; the slot held `previous`.
    Locking { previous: u64 },
    /// The patch has ended.
    Finished(Result<u64, PatchError>),
}

/// One overwrite of one slot, under way.
#[derive(Debug, Clone, Copy, PartialEq, Eq)]
pub struct Patch {
    pub slot: u64,
    pub value: u64,
    pub page_size: u64,
    pub stage: PatchStage,
}

impl Patch {
    /// The refusal of a change of protection to `flags`.
    pub open spec fn refusal(&self, flags: i32, os_errno: i32) -> PatchError {
        PatchError {
            addr: self.slot,
            page: spec_page_of(self.slot, self.page_size),
            page_size: self.page_size,
            flags,
            os_errno,
        }
    }

    /// The action that the stage asks for.
    pub open spec fn spec_action(&self) -> PatchAction {
        match self.stage {
            PatchStage::Unlocking => PatchAction::Protect {
                page: spec_page_of(self.slot, self.page_size),
                len: self.page_size,
                flags: PROT_READ_WRITE,
            },
            PatchStage::Swapping => PatchAction::Swap { slot: self.slot, value: self.value },
            PatchStage::Locking { previous } => PatchAction::Protect {
                page: spec_page_of(self.slot, self.page_size),
                len: self.page_size,
                flags: PROT_READ,
            },
            PatchStage::Finished(outcome) => PatchAction::Done(outcome),
        }
    }

    /// The stage that follows once `event` has come. An event that does not
    /// answer the action of the stage changes nothing.
    pub open spec fn next_stage(&self, event: PatchEvent) -> PatchStage {
        match (self.stage, event) {
            (PatchStage::Unlocking, PatchEvent::Protected { result, os_errno }) => if result != 0 {
                PatchStage::Finished(Err(self.refusal(PROT_READ_WRITE, os_errno)))
            } else {
                PatchStage::Swapping
            },
            (PatchStage::Swapping, PatchEvent::Swapped { previous }) => PatchStage::Locking {
                previous,
            },
            (PatchStage::Locking { previous }, PatchEvent::Protected { result, os_errno }) => if result
                != 0 {
                PatchStage::Finished(Err(self.refusal(PROT_READ, os_errno)))
            } else {
                PatchStage::Finished(Ok(previous))
            },
            (stage, _) => stage,
        }
    }

    /// The patch once `event` has come.
    pub open spec fn spec_step(&self, event: PatchEvent) -> Patch {
        Patch {
            slot: self.slot,
            value: self.value,
            page_size: self.page_size,
            stage: self.next_stage(event),
        }
    }

    /// Whether the patch has ended.
    pub open spec fn spec_is_done(&self) -> bool {
        self.stage is Finished
    }

    /// Starts the overwrite of the word at `slot` with `value`, on a machine
    /// whose pages are `page_size` bytes large.
    pub fn begin(slot: u64, value: u64, page_size: u64) -> (r: Patch)
        requires
            page_size > 0,
        ensures
            r == (Patch { slot, value, page_size, stage: PatchStage::Unlocking }),
    {
        Patch { slot, value, page_size, stage: PatchStage::Unlocking }
    }

    /// Tells what the caller has to do next.
    #[verifier::when_used_as_spec(spec_action)]
    pub fn action(&self) -> (r: PatchAction)
        requires
            self.page_size > 0,
        ensures
            r == self.spec_action(),
    {
        match self.stage {
            PatchStage::Unlocking => PatchAction::Protect {
                page: page_of(self.slot, self.page_size),
                len: self.page_size,
                flags: PROT_READ_WRITE,
            },
            PatchStage::Swapping => PatchAction::Swap { slot: self.slot, value: self.value },
            PatchStage::Locking { previous } => PatchAction::Protect {
                page: page_of(self.slot, self.page_size),
                len: self.page_size,
                flags: PROT_READ,
            },
            PatchStage::Finished(outcome) => PatchAction::Done(outcome),
        }
    }

    /// Takes in what came of the last action.
    #[verifier::when_used_as_spec(spec_step)]
    pub fn step(&self, event: PatchEvent) -> (r: Patch)
        requires
            self.page_size > 0,
        ensures
            r == self.spec_step(event),
    {
        let stage = match (self.stage, event) {
            (PatchStage::Unlocking, PatchEvent::Protected { result, os_errno }) => {
                if result != 0 {
                    PatchStage::Finished(Err(self.refuse(PROT_READ_WRITE, os_errno)))
                } else {
                    PatchStage::Swapping
                }
            },
            (PatchStage::Swapping, PatchEvent::Swapped { previous }) => PatchStage::Locking {
                previous,
            },
            (PatchStage::Locking { previous }, PatchEvent::Protected { result, os_errno }) => {
                if result != 0 {
                    PatchStage::Finished(Err(self.refuse(PROT_READ, os_errno)))
                } else {
                    PatchStage::Finished(Ok(previous))
                }
            },
            (stage, _) => stage,
        };
        Patch { slot: self.slot, value: self.value, page_size: self.page_size, stage }
    }

    /// Tells whether the patch has ended.
    #[verifier::when_used_as_spec(spec_is_done)]
    pub fn is_done(&self) -> (r: bool)
        ensures
            r == self.spec_is_done(),
    {
        match self.stage {
            PatchStage::Finished(_) => true,
            _ => false,
        }
    }

    /// How the patch ended, once it has.
    pub fn outcome(&self) -> (r: Option<Result<u64, PatchError>>)
        ensures
            r == match self.stage {
                PatchStage::Finished(outcome) => Some(outcome),
                _ => None,
            },
    {
        match self.stage {
            PatchStage::Finished(outcome) => Some(outcome),
            _ => None,
        }
    }

    fn refuse(&self, flags: i32, os_errno: i32) -> (r: PatchError)
        requires
            self.page_size > 0,
        ensures
            r == self.refusal(flags, os_errno),
    {
        PatchError {
            addr: self.slot,
            page: page_of(self.slot, self.page_size),
            page_size: self.page_size,
            flags,
            os_errno,
        }
    }
}

/// The page that holds a slot, as far as a patch touches it: its protection
/// and the word in the slot.
pub struct PageState {
    pub protection: i32,
    pub word: u64,
}

/// Whether `event` is what the system can answer to `action` on a page in
/// the given state: a change of protection is answered by its result, and a
/// swap by the word that the slot held.
pub open spec fn answers(state: PageState, action: PatchAction, event: PatchEvent) -> bool {
    match (action, event) {
        (PatchAction::Protect { .. }, PatchEvent::Protected { .. }) => true,
        (PatchAction::Swap { .. }, PatchEvent::Swapped { previous }) => previous == state.word,
        _ => false,
    }
}

/// The page once the action has been carried out with the given result: a
/// protection that the system set holds, one that it refused changes
/// nothing, and a swap leaves the new word in the slot.
pub open spec fn carried_out(state: PageState, action: PatchAction, event: PatchEvent) -> PageState {
    match (action, event) {
        (PatchAction::Protect { flags, .. }, PatchEvent::Protected { result, .. }) => if result
            == 0 {
            PageState { protection: flags, word: state.word }
        } else {
            state
        },
        (PatchAction::Swap { value, .. }, PatchEvent::Swapped { .. }) => PageState {
            protection: state.protection,
            word: value,
        },
        _ => state,
    }
}

/// A patch ends well only by locking the page: whatever events come, the
/// step that ends a patch with a word is the granted change of the page's
/// protection to read-only, and the word is the one that the swap reported.
/// And a swap is asked for only once the page has been unlocked.
pub proof fn lemma_patch_ends_locked(patch: Patch, event: PatchEvent)
    requires
        patch.page_size > 0,
        !patch.spec_is_done(),
    ensures
        patch.spec_step(event).stage matches PatchStage::Finished(Ok(word)) ==> {
            &&& patch.stage == PatchStage::Locking { previous: word }
            &&& patch.spec_action() == PatchAction::Protect {
                page: spec_page_of(patch.slot, patch.page_size),
                len: patch.page_size,
                flags: PROT_READ,
            }
            &&& event matches PatchEvent::Protected { result, .. } && result == 0
        },
        patch.spec_step(event).stage is Swapping && !(patch.stage is Swapping) ==> {
            &&& patch.stage is Unlocking
            &&& event matches PatchEvent::Protected { result, .. } && result == 0
        },
{
}

/// A patch whose first change of protection is refused ends there: the
/// error names the slot, its page and the protection that was asked for, and
/// the page is as it was.
pub proof fn lemma_patch_refused_at_once(
    slot: u64,
    value: u64,
    page_size: u64,
    before: PageState,
    unlocked: PatchEvent,
)
    requires
        page_size > 0,
        unlocked matches PatchEvent::Protected { result, .. } && result != 0,
    ensures
        ({
            let begun = Patch { slot, value, page_size, stage: PatchStage::Unlocking };
            let unlocked_patch = begun.spec_step(unlocked);
            &&& begun.spec_action() == PatchAction::Protect {
                page: spec_page_of(slot, page_size),
                len: page_size,
                flags: PROT_READ_WRITE,
            }
            &&& unlocked_patch.spec_action() == PatchAction::Done(
                Err(begun.refusal(PROT_READ_WRITE, unlocked->os_errno)),
            )
            &&& carried_out(before, begun.spec_action(), unlocked) == before
        }),
{
}

/// A patch whose first change of protection is granted swaps the word and
/// then asks for the page to be read-only again. Where that is granted, the
/// patch ends with the word that the slot held before, the slot holds the new
/// word, and the page is read-only. Where it is refused, the slot holds the
/// new word all the same, the page is still writable, and the error names the
/// page.
pub proof fn lemma_patch_protection(
    slot: u64,
    value: u64,
    page_size: u64,
    before: PageState,
    unlocked: PatchEvent,
    swapped: PatchEvent,
    locked: PatchEvent,
)
    requires
        page_size > 0,
        unlocked matches PatchEvent::Protected { result, .. } && result == 0,
        swapped == (PatchEvent::Swapped { previous: before.word }),
        locked is Protected,
    ensures
        ({
            let begun = Patch { slot, value, page_size, stage: PatchStage::Unlocking };
            let after_unlock = carried_out(before, begun.spec_action(), unlocked);
            let unlocked_patch = begun.spec_step(unlocked);
            let after_swap = carried_out(after_unlock, unlocked_patch.spec_action(), swapped);
            let swapped_patch = unlocked_patch.spec_step(swapped);
            let after_lock = carried_out(after_swap, swapped_patch.spec_action(), locked);
            let ended = swapped_patch.spec_step(locked);
            &&& answers(before, begun.spec_action(), unlocked)
            &&& unlocked_patch.spec_action() == PatchAction::Swap { slot, value }
            &&& answers(after_unlock, unlocked_patch.spec_action(), swapped)
            &&& swapped_patch.spec_action() == PatchAction::Protect {
                page: spec_page_of(slot, page_size),
                len: page_size,
                flags: PROT_READ,
            }
            &&& answers(after_swap, swapped_patch.spec_action(), locked)
            &&& after_lock.word == value
            &&& locked->result == 0 ==> ended.spec_action() == PatchAction::Done(Ok(before.word))
                && after_lock.protection == PROT_READ
            &&& locked->result != 0 ==> ended.spec_action() == PatchAction::Done(
                Err(begun.refusal(PROT_READ, locked->os_errno)),
            ) && after_lock.protection == PROT_READ_WRITE && begun.refusal(PROT_READ, locked->os_errno).page
                <= slot < begun.refusal(PROT_READ, locked->os_errno).page + page_size
        }),
{
    lemma_page_of(slot, page_size);
}

} // verus!
