//! Hooking an imported function: resolving its slot, planning the patch that
//! puts another function in, and the token by which the first one is put
//! back.

use crate::link_map::{link_map_symbol, LinkMapBacked};
use crate::patch::{
    carried_out, PageState, Patch, PatchError, PatchEvent, PatchStage, PltError, PltResult,
    PROT_READ,
};
use vstd::prelude::*;
use vstd::string::StringSliceAdditionalSpecFns;
use vstd::utf8::encode_utf8;

verus! {

/// What a hook leaves behind: the name of the symbol and the function that
/// its slot held before.
#[derive(Debug)]
pub struct FunctionHook<T> {
    symbol_name: String,
    cached_function: T,
}

impl<T> FunctionHook<T> {
    /// The name of the symbol that was hooked.
    pub closed spec fn spec_symbol_name(&self) -> Seq<char> {
        self.symbol_name@
    }

    /// The function that the slot held before the hook.
    pub closed spec fn spec_cached_function(&self) -> T {
        self.cached_function
    }

    /// A token for the symbol `symbol_name`, whose slot held `cached_function`.
    pub fn new(symbol_name: String, cached_function: T) -> (r: Self)
        ensures
            r.spec_symbol_name() == symbol_name@,
            r.spec_cached_function() == cached_function,
    {
        FunctionHook { symbol_name, cached_function }
    }

    /// The function that the slot held before the hook.
    pub fn cached_function(&self) -> (r: &T)
        ensures
            *r == self.spec_cached_function(),
    {
        &self.cached_function
    }

    /// The name of the symbol that was hooked.
    pub fn symbol_name(&self) -> (r: &str)
        ensures
            r@ == self.spec_symbol_name(),
    {
        self.symbol_name.as_str()
    }
}

/// A loaded object whose imports can be hooked.
pub struct MutableLinkMap<V: LinkMapBacked> {
    view: V,
}

impl<V: LinkMapBacked> MutableLinkMap<V> {
    /// The object.
    pub closed spec fn spec_view(&self) -> V {
        self.view
    }

    /// The patch that puts `value` into the slot of the symbol called
    /// `name`: none where no relocation names the symbol, an error where the
    /// object lacks a table that the search needs.
    pub open spec fn spec_plan(&self, name: Seq<u8>, value: u64, page_size: u64) -> PltResult<
        Option<Patch>,
    > {
        match link_map_symbol(self.spec_view().spec_memory(), self.spec_view().spec_inner(), name) {
            Err(e) => Err(e),
            Ok(None) => Ok(None),
            Ok(Some(slot)) => Ok(
                Some(Patch { slot, value, page_size, stage: PatchStage::Unlocking }),
            ),
        }
    }

    pub fn from_view(view: V) -> (r: Self)
        ensures
            r.spec_view() == view,
    {
        MutableLinkMap { view }
    }

    /// The object.
    pub fn view(&self) -> (r: &V)
        ensures
            *r == self.spec_view(),
    {
        &self.view
    }

    fn plan(&self, symbol_name: &str, value: u64, page_size: u64) -> (r: PltResult<Option<Patch>>)
        requires
            page_size > 0,
        ensures
            r == self.spec_plan(symbol_name.spec_bytes(), value, page_size),
    {
        match self.view.find_symbol(symbol_name) {
            Err(e) => Err(e),
            Ok(None) => Ok(None),
            Ok(Some(symbol)) => Ok(Some(Patch::begin(symbol, value, page_size))),
        }
    }

    /// Plans the hook of `symbol_name`: resolves its slot and starts the
    /// patch that puts `desired_function` there. The caller carries the patch
    /// out and hands its outcome to `finish_hook`.
    pub fn hook(&self, symbol_name: &str, desired_function: u64, page_size: u64) -> (r: PltResult<
        Option<Patch>,
    >)
        requires
            page_size > 0,
        ensures
            r == self.spec_plan(symbol_name.spec_bytes(), desired_function, page_size),
    {
        self.plan(symbol_name, desired_function, page_size)
    }

    /// Ends a hook: where the patch went through, the token that holds the
    /// name and the word that the slot held before; where the system refused,
    /// its refusal.
    pub fn finish_hook(symbol_name: &str, outcome: Result<u64, PatchError>) -> (r: PltResult<
        FunctionHook<u64>,
    >)
        ensures
            match outcome {
                Ok(previous) => r matches Ok(hook) && hook.spec_symbol_name() == symbol_name@
                    && hook.spec_cached_function() == previous,
                Err(e) => r matches Err(f) && f == PltError::Protection(e),
            },
    {
        match outcome {
            Ok(previous) => Ok(FunctionHook::new(symbol_name.to_owned(), previous)),
            Err(e) => Err(PltError::Protection(e)),
        }
    }

    /// Plans the undoing of a hook: resolves the slot of the token's symbol
    /// anew and starts the patch that puts the function of the token back. The
    /// caller carries the patch out and hands its outcome to `finish_restore`.
    pub fn restore(&self, function_hook: FunctionHook<u64>, page_size: u64) -> (r: PltResult<
        Option<Patch>,
    >)
        requires
            page_size > 0,
        ensures
            r == self.spec_plan(
                encode_utf8(function_hook.spec_symbol_name()),
                function_hook.spec_cached_function(),
                page_size,
            ),
    {
        self.plan(function_hook.symbol_name(), *function_hook.cached_function(), page_size)
    }

    /// Ends the undoing of a hook: where the patch went through, the word
    /// that the slot held just before; where the system refused, its refusal.
    pub fn finish_restore(outcome: Result<u64, PatchError>) -> (r: PltResult<u64>)
        ensures
            r == match outcome {
                Ok(hooked) => Ok::<u64, PltError>(hooked),
                Err(e) => Err::<u64, PltError>(PltError::Protection(e)),
            },
    {
        match outcome {
            Ok(hooked) => Ok(hooked),
            Err(e) => Err(PltError::Protection(e)),
        }
    }
}

/// The page and the patch once the patch has been carried out on a system
/// that grants both changes of protection.
pub open spec fn granted(state: PageState, patch: Patch) -> (PageState, Patch) {
    let unlocked = PatchEvent::Protected { result: 0, os_errno: 0 };
    let after_unlock = carried_out(state, patch.spec_action(), unlocked);
    let unlocked_patch = patch.spec_step(unlocked);
    let swapped = PatchEvent::Swapped { previous: after_unlock.word };
    let after_swap = carried_out(after_unlock, unlocked_patch.spec_action(), swapped);
    let swapped_patch = unlocked_patch.spec_step(swapped);
    let locked = PatchEvent::Protected { result: 0, os_errno: 0 };
    (carried_out(after_swap, swapped_patch.spec_action(), locked), swapped_patch.spec_step(locked))
}

/// A hook and the restore that follows it leave the slot as it was: where
/// the symbol is found and the system grants every change of protection, the
/// hook ends with the word that the slot held, the restore is planned for the
/// same slot with that word, and once it has been carried out the slot holds
/// the word again and its page is read-only.
pub proof fn lemma_hook_restore_round_trip<V: LinkMapBacked>(
    map: MutableLinkMap<V>,
    name: Seq<char>,
    new_function: u64,
    page_size: u64,
    before: PageState,
)
    requires
        page_size > 0,
        map.spec_plan(encode_utf8(name), new_function, page_size) matches Ok(Some(_)),
    ensures
        ({
            let hook = map.spec_plan(encode_utf8(name), new_function, page_size)->Ok_0->Some_0;
            let hooked = granted(before, hook);
            let restore = map.spec_plan(encode_utf8(name), before.word, page_size);
            &&& hooked.1.stage == PatchStage::Finished(Ok(before.word))
            &&& hooked.0.word == new_function
            &&& restore matches Ok(Some(back)) && back.slot == hook.slot && ({
                let restored = granted(hooked.0, back);
                &&& restored.1.stage == PatchStage::Finished(Ok(new_function))
                &&& restored.0.word == before.word
                &&& restored.0.protection == PROT_READ
            })
        }),
{
}

} // verus!
