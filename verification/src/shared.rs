//! Shared ownership of engine resources, by explicit share counts.
//!
//! A [`Ledger`] owns one blob for each engine resource that is alive and
//! counts the shared values that refer to it. The blob leaves the ledger when
//! the last of them is released, and only then; what is done with it then,
//! the one release call, is the caller's next step.
use std::collections::HashMap;
use vstd::prelude::*;
use vstd::std_specs::hash::*;
use crate::base::{EngineReply, Error};

verus! {

/// A value that stands for one engine resource and can name its handle.
pub trait GetHandle {
    /// The handle of the resource.
    spec fn spec_handle(&self) -> usize;

    /// The handle of the resource, to be passed into further engine calls.
    /// This lends the handle and gives up no ownership.
    fn handle(&self) -> (handle: usize)
        ensures
            handle == self.spec_handle(),
    ;
}

/// The share counts after a fresh handle has been taken in.
pub open spec fn adopted(counts: Map<usize, nat>, handle: usize) -> Map<usize, nat> {
    counts.insert(handle, 1)
}

/// The share counts after one more value refers to `handle`.
pub open spec fn shared(counts: Map<usize, nat>, handle: usize) -> Map<usize, nat> {
    counts.insert(handle, counts[handle] + 1)
}

/// The share counts after one value that referred to `handle` is gone: the
/// last one takes the handle out of the ledger.
pub open spec fn released(counts: Map<usize, nat>, handle: usize) -> Map<usize, nat> {
    if counts[handle] == 1 {
        counts.remove(handle)
    } else {
        counts.insert(handle, (counts[handle] - 1) as nat)
    }
}

/// Whether releasing one reference to `handle` ends the life of its resource.
pub open spec fn is_last(counts: Map<usize, nat>, handle: usize) -> bool {
    counts.contains_key(handle) && counts[handle] == 1
}

/// What the reply to the release call of `handle` means: a release that
/// failed is its own, fatal kind of error.
pub open spec fn spec_released(handle: usize, reply: EngineReply) -> Result<(), Error> {
    if reply.status != 0 {
        Err(Error::ReleaseFailed { handle, message: reply.last_error })
    } else {
        Ok(())
    }
}

/// Reads the reply to the release call of `handle`.
pub fn released_reply(handle: usize, reply: EngineReply) -> (outcome: Result<(), Error>)
    ensures
        outcome == spec_released(handle, reply),
{
    if reply.status != 0 {
        Err(Error::ReleaseFailed { handle, message: reply.last_error })
    } else {
        Ok(())
    }
}

struct Slot<B> {
    blob: B,
    holders: usize,
}

/// The blobs that are alive, each with the number of shared values that
/// refer to it.
pub struct Ledger<B: GetHandle> {
    slots: HashMap<usize, Slot<B>>,
}

impl<B: GetHandle> View for Ledger<B> {
    type V = Map<usize, nat>;

    /// The share count of every tracked handle.
    closed spec fn view(&self) -> Map<usize, nat> {
        Map::new(
            |h: usize| self.slots@.contains_key(h),
            |h: usize| self.slots@[h].holders as nat,
        )
    }
}

impl<B: GetHandle> Ledger<B> {
    /// Every tracked blob sits under its own handle and has a holder.
    pub closed spec fn wf(&self) -> bool {
        forall|h: usize| #[trigger]
            self.slots@.contains_key(h) ==> self.slots@[h].blob.spec_handle() == h
                && self.slots@[h].holders >= 1
    }

    /// Every handle that a well-formed ledger tracks has at least one
    /// holder, and its blob is the blob of that handle.
    pub proof fn lemma_wf(&self)
        requires
            self.wf(),
        ensures
            forall|h: usize| #[trigger] self@.contains_key(h) ==> self@[h] >= 1,
            forall|h: usize| #[trigger] self@.contains_key(h) ==> self.blob(h).spec_handle() == h,
    {
    }

    /// The blob that owns the tracked handle `handle`.
    pub closed spec fn blob(&self, handle: usize) -> B {
        self.slots@[handle].blob
    }

    /// A ledger that tracks nothing.
    pub fn new() -> (ledger: Ledger<B>)
        ensures
            ledger.wf(),
            ledger@ == Map::<usize, nat>::empty(),
    {
        broadcast use group_hash_axioms;

        let ledger = Ledger { slots: HashMap::new() };
        assert(ledger@ =~= Map::<usize, nat>::empty());
        ledger
    }

    /// The number of shared values that refer to `handle`; zero when the
    /// handle is not tracked.
    pub fn holders(&self, handle: usize) -> (count: usize)
        requires
            self.wf(),
        ensures
            self@.contains_key(handle) ==> count == self@[handle] && count >= 1,
            !self@.contains_key(handle) ==> count == 0,
    {
        broadcast use group_hash_axioms;

        match self.slots.get(&handle) {
            Some(slot) => slot.holders,
            None => 0,
        }
    }

    /// Takes in a blob whose handle the engine has just handed out, with one
    /// holder. A handle that is already tracked is refused, and nothing
    /// changes.
    pub fn adopt(&mut self, blob: B) -> (outcome: Result<(), Error>)
        requires
            old(self).wf(),
        ensures
            final(self).wf(),
            old(self)@.contains_key(blob.spec_handle()) ==> outcome == Err::<(), Error>(
                Error::HandleInUse { handle: blob.spec_handle() },
            ) && final(self)@ == old(self)@,
            !old(self)@.contains_key(blob.spec_handle()) ==> outcome == Ok::<(), Error>(())
                && final(self)@ == adopted(old(self)@, blob.spec_handle())
                && final(self).blob(blob.spec_handle()) == blob,
            forall|h: usize|
                old(self)@.contains_key(h) ==> #[trigger] final(self).blob(h) == old(self).blob(h),
    {
        broadcast use group_hash_axioms;

        let handle = blob.handle();
        if self.slots.contains_key(&handle) {
            return Err(Error::HandleInUse { handle });
        }
        self.slots.insert(handle, Slot { blob, holders: 1 });
        assert(self@ =~= adopted(old(self)@, handle));
        Ok(())
    }

    /// Counts one more shared value that refers to `handle`.
    pub fn share(&mut self, handle: usize) -> (outcome: Result<(), Error>)
        requires
            old(self).wf(),
        ensures
            final(self).wf(),
            !old(self)@.contains_key(handle) ==> outcome == Err::<(), Error>(
                Error::StaleHandle { handle },
            ) && final(self)@ == old(self)@,
            old(self)@.contains_key(handle) && old(self)@[handle] >= usize::MAX ==> outcome
                == Err::<(), Error>(Error::ShareLimit { handle }) && final(self)@ == old(self)@,
            old(self)@.contains_key(handle) && old(self)@[handle] < usize::MAX ==> outcome
                == Ok::<(), Error>(()) && final(self)@ == shared(old(self)@, handle),
            forall|h: usize|
                old(self)@.contains_key(h) ==> #[trigger] final(self).blob(h) == old(self).blob(h),
    {
        broadcast use group_hash_axioms;

        match self.slots.remove(&handle) {
            None => {
                assert(self.slots@ =~= old(self).slots@);
                Err(Error::StaleHandle { handle })
            },
            Some(slot) => {
                if slot.holders == usize::MAX {
                    self.slots.insert(handle, slot);
                    assert(self.slots@ =~= old(self).slots@);
                    Err(Error::ShareLimit { handle })
                } else {
                    let holders: usize = slot.holders + 1;
                    self.slots.insert(handle, Slot { blob: slot.blob, holders });
                    assert(self@ =~= shared(old(self)@, handle));
                    Ok(())
                }
            },
        }
    }

    /// Takes one shared value that referred to `handle` off the count. When
    /// it was the last one, the blob leaves the ledger and is handed out, so
    /// that its resource can be released; otherwise nothing is handed out.
    pub fn release(&mut self, handle: usize) -> (outcome: Result<Option<B>, Error>)
        requires
            old(self).wf(),
        ensures
            final(self).wf(),
            !old(self)@.contains_key(handle) ==> outcome == Err::<Option<B>, Error>(
                Error::StaleHandle { handle },
            ) && final(self)@ == old(self)@,
            old(self)@.contains_key(handle) ==> final(self)@ == released(old(self)@, handle),
            is_last(old(self)@, handle) ==> outcome == Ok::<Option<B>, Error>(
                Some(old(self).blob(handle)),
            ) && old(self).blob(handle).spec_handle() == handle,
            old(self)@.contains_key(handle) && !is_last(old(self)@, handle) ==> outcome
                == Ok::<Option<B>, Error>(None),
            forall|h: usize|
                old(self)@.contains_key(h) && final(self)@.contains_key(h)
                    ==> #[trigger] final(self).blob(h) == old(self).blob(h),
    {
        broadcast use group_hash_axioms;

        match self.slots.remove(&handle) {
            None => {
                assert(self.slots@ =~= old(self).slots@);
                Err(Error::StaleHandle { handle })
            },
            Some(slot) => {
                if slot.holders == 1 {
                    assert(self@ =~= released(old(self)@, handle));
                    Ok(Some(slot.blob))
                } else {
                    let holders: usize = slot.holders - 1;
                    self.slots.insert(handle, Slot { blob: slot.blob, holders });
                    assert(self@ =~= released(old(self)@, handle));
                    Ok(None)
                }
            },
        }
    }
}

/// What happens to the shared values of one handle, one step at a time.
pub enum Step {
    /// One more shared value refers to the handle.
    Share,
    /// One shared value that referred to the handle is gone.
    Release,
}

/// The share counts after a run of steps on `handle`, and the number of
/// times the blob of `handle` was handed out for release on the way. A step
/// on a handle that is no longer tracked is refused and changes nothing.
pub open spec fn run(counts: Map<usize, nat>, handle: usize, steps: Seq<Step>) -> (
    Map<usize, nat>,
    nat,
)
    decreases steps.len(),
{
    if steps.len() == 0 || !counts.contains_key(handle) {
        (counts, 0)
    } else {
        let next = match steps[0] {
            Step::Share => shared(counts, handle),
            Step::Release => released(counts, handle),
        };
        let handed_out: nat = if steps[0] is Release && is_last(counts, handle) {
            1
        } else {
            0
        };
        let rest = run(next, handle, steps.drop_first());
        (rest.0, rest.1 + handed_out)
    }
}

/// Exactly-once release: over any run of shares and releases of a tracked
/// handle, its blob is handed out for release once if the run ends with the
/// handle gone from the ledger, and not at all if the handle is still
/// tracked. It is never handed out twice.
pub proof fn lemma_released_exactly_once(counts: Map<usize, nat>, handle: usize, steps: Seq<Step>)
    requires
        counts.contains_key(handle),
        counts[handle] >= 1,
    ensures
        run(counts, handle, steps).0.contains_key(handle) ==> run(counts, handle, steps).1 == 0,
        !run(counts, handle, steps).0.contains_key(handle) ==> run(counts, handle, steps).1 == 1,
    decreases steps.len(),
{
    if steps.len() > 0 {
        let next = match steps[0] {
            Step::Share => shared(counts, handle),
            Step::Release => released(counts, handle),
        };
        if next.contains_key(handle) {
            lemma_released_exactly_once(next, handle, steps.drop_first());
        } else {
            assert(steps[0] is Release && is_last(counts, handle));
            assert(run(next, handle, steps.drop_first()) == (next, 0nat));
        }
    }
}

} // verus!
