use vstd::prelude::*;

verus! {

/// The largest number of shared holders at one time.
pub const MAX_READERS: u64 = 0xffff_ffff_ffff_fffe;

/// Shared (read) or exclusive (write) access.
#[derive(Debug, Clone, Copy, PartialEq, Eq, Structural)]
pub enum LockMode {
    Shared,
    Exclusive,
}

/// What the caller of an acquisition does next.
#[derive(Debug, Clone, Copy, PartialEq, Eq, Structural)]
pub enum Step {
    /// Block until a holder releases, then ask again.
    Wait,
    /// Report that the lock is not available now (non-blocking attempts).
    Unavailable,
    /// Report poisoning; no OS-level lock is requested.
    Poisoned,
    /// The in-process lock is held in this mode: take the OS-level lock.
    LockOs(LockMode),
}

/// The result of a full acquisition of both lock layers.
pub enum Acquired<G, E> {
    /// Both layers are held.
    Locked(G),
    /// The in-process layer is poisoned; the OS-level lock was not requested.
    Poisoned,
    /// A non-blocking attempt found the in-process layer held.
    Unavailable,
    /// The in-process layer is held, the OS-level lock call failed.
    OsLockFailed(G, E),
}

/// The in-process layer: its holders and whether it is poisoned.
pub struct LockView {
    pub readers: nat,
    pub writer: bool,
    pub poisoned: bool,
}

/// Bookkeeping of the in-process reader-writer layer.
pub struct LockState {
    readers: u64,
    writer: bool,
    poisoned: bool,
}

impl View for LockState {
    type V = LockView;

    closed spec fn view(&self) -> LockView {
        LockView { readers: self.readers as nat, writer: self.writer, poisoned: self.poisoned }
    }
}

/// Never shared and exclusive holders at once; at most one exclusive holder.
pub open spec fn wf(v: LockView) -> bool {
    &&& v.writer ==> v.readers == 0
    &&& v.readers <= MAX_READERS
}

/// `mode` can be granted at once in `v`.
pub open spec fn available(v: LockView, mode: LockMode) -> bool {
    &&& !v.writer
    &&& mode == LockMode::Exclusive ==> v.readers == 0
    &&& mode == LockMode::Shared ==> v.readers < MAX_READERS
}

/// `v` with one more holder of `mode`.
pub open spec fn with_holder(v: LockView, mode: LockMode) -> LockView {
    match mode {
        LockMode::Shared => LockView { readers: v.readers + 1, ..v },
        LockMode::Exclusive => LockView { writer: true, ..v },
    }
}

/// The step that an acquisition of `mode` takes in `v`: the lock's
/// availability is asked first, then poisoning.
pub open spec fn acquire_step(v: LockView, mode: LockMode, blocking: bool) -> Step {
    if !available(v, mode) {
        if blocking {
            Step::Wait
        } else {
            Step::Unavailable
        }
    } else if v.poisoned {
        Step::Poisoned
    } else {
        Step::LockOs(mode)
    }
}

/// The state after an acquisition of `mode` in `v`.
pub open spec fn acquire_next(v: LockView, mode: LockMode, blocking: bool) -> LockView {
    if acquire_step(v, mode, blocking) is LockOs {
        with_holder(v, mode)
    } else {
        v
    }
}

/// A holder of `mode` exists in `v`.
pub open spec fn holds(v: LockView, mode: LockMode) -> bool {
    match mode {
        LockMode::Shared => v.readers > 0,
        LockMode::Exclusive => v.writer,
    }
}

/// The state after a holder of `mode` lets go; an exclusive holder that
/// lets go while panicking poisons the lock for good.
pub open spec fn release_next(v: LockView, mode: LockMode, panicking: bool) -> LockView {
    match mode {
        LockMode::Shared => LockView { readers: (v.readers - 1) as nat, ..v },
        LockMode::Exclusive => LockView {
            writer: false,
            poisoned: v.poisoned || panicking,
            ..v
        },
    }
}

impl LockState {
    /// A lock that nobody holds and that is not poisoned.
    pub fn new() -> (s: LockState)
        ensures
            s@ == (LockView { readers: 0, writer: false, poisoned: false }),
            wf(s@),
    {
        LockState { readers: 0, writer: false, poisoned: false }
    }

    /// Asks for the in-process lock in `mode`. Where the returned step is
    /// `LockOs`, the caller holds the lock and must take the OS-level lock.
    pub fn acquire(&mut self, mode: LockMode, blocking: bool) -> (r: Step)
        requires
            wf(old(self)@),
        ensures
            r == acquire_step(old(self)@, mode, blocking),
            final(self)@ == acquire_next(old(self)@, mode, blocking),
            wf(final(self)@),
    {
        let free = !self.writer && match mode {
            LockMode::Shared => self.readers < MAX_READERS,
            LockMode::Exclusive => self.readers == 0,
        };
        if !free {
            if blocking {
                Step::Wait
            } else {
                Step::Unavailable
            }
        } else if self.poisoned {
            Step::Poisoned
        } else {
            match mode {
                LockMode::Shared => {
                    self.readers = self.readers + 1;
                },
                LockMode::Exclusive => {
                    self.writer = true;
                },
            }
            Step::LockOs(mode)
        }
    }

    /// A holder of `mode` lets go, `panicking` when its thread unwinds.
    pub fn release(&mut self, mode: LockMode, panicking: bool)
        requires
            wf(old(self)@),
            holds(old(self)@, mode),
        ensures
            final(self)@ == release_next(old(self)@, mode, panicking),
            wf(final(self)@),
    {
        match mode {
            LockMode::Shared => {
                self.readers = self.readers - 1;
            },
            LockMode::Exclusive => {
                self.writer = false;
                self.poisoned = self.poisoned || panicking;
            },
        }
    }

    pub fn is_poisoned(&self) -> (r: bool)
        ensures
            r == self@.poisoned,
    {
        self.poisoned
    }
}

/// Combines the held in-process guard with the outcome of the OS-level
/// lock call: on failure the guard is handed back with the error.
pub fn finish<G, E>(guard: G, os: Result<(), E>) -> (r: Acquired<G, E>)
    ensures
        match os {
            Ok(()) => r == Acquired::<G, E>::Locked(guard),
            Err(e) => r == Acquired::<G, E>::OsLockFailed(guard, e),
        },
{
    match os {
        Ok(()) => Acquired::Locked(guard),
        Err(e) => Acquired::OsLockFailed(guard, e),
    }
}

/// The result of an acquisition that ended in the in-process layer.
pub fn refused<G, E>(step: Step) -> (r: Acquired<G, E>)
    requires
        step == Step::Poisoned || step == Step::Unavailable,
    ensures
        step == Step::Poisoned ==> r is Poisoned,
        step == Step::Unavailable ==> r is Unavailable,
{
    match step {
        Step::Poisoned => Acquired::Poisoned,
        _ => Acquired::Unavailable,
    }
}

/// While nobody writes, every shared acquisition is granted without waiting
/// and leads to the OS-level shared lock, and taking or letting go of shared
/// access keeps the lock free of writers and of poisoning.
pub proof fn lemma_readers_proceed(v: LockView, blocking: bool, panicking: bool)
    requires
        wf(v),
        !v.writer,
        !v.poisoned,
    ensures
        v.readers < MAX_READERS ==> acquire_step(v, LockMode::Shared, blocking) == Step::LockOs(
            LockMode::Shared,
        ),
        !acquire_next(v, LockMode::Shared, blocking).writer,
        !acquire_next(v, LockMode::Shared, blocking).poisoned,
        v.readers > 0 ==> !release_next(v, LockMode::Shared, panicking).writer,
        v.readers > 0 ==> !release_next(v, LockMode::Shared, panicking).poisoned,
{
}

/// While an exclusive holder exists, no acquisition of either mode is
/// granted: a blocking one waits and a non-blocking one reports that the
/// lock is unavailable, and neither changes the state.
pub proof fn lemma_writer_excludes(v: LockView, mode: LockMode, blocking: bool)
    requires
        wf(v),
        v.writer,
    ensures
        acquire_step(v, mode, blocking) == (if blocking {
            Step::Wait
        } else {
            Step::Unavailable
        }),
        acquire_next(v, mode, blocking) == v,
{
}

/// A non-blocking exclusive attempt on a lock held exclusively reports at
/// once that it is unavailable: it never asks the caller to wait.
pub proof fn lemma_try_write_unavailable(v: LockView)
    requires
        wf(v),
        v.writer,
    ensures
        acquire_step(v, LockMode::Exclusive, false) == Step::Unavailable,
{
}

/// An exclusive holder that lets go while panicking poisons the lock; a
/// poisoned lock stays poisoned through every acquisition and release, and
/// no acquisition on it ever leads to an OS-level lock call.
pub proof fn lemma_poisoning(
    v: LockView,
    mode: LockMode,
    blocking: bool,
    panicking: bool,
)
    requires
        wf(v),
    ensures
        v.writer ==> release_next(v, LockMode::Exclusive, true).poisoned,
        v.poisoned ==> acquire_next(v, mode, blocking).poisoned,
        v.poisoned && holds(v, mode) ==> release_next(v, mode, panicking).poisoned,
        v.poisoned ==> !(acquire_step(v, mode, blocking) is LockOs),
        v.poisoned && available(v, mode) ==> acquire_step(v, mode, blocking) == Step::Poisoned,
{
}

/// Once the exclusive holder of a lock that is not poisoned lets go
/// normally, the next exclusive acquisition is granted.
pub proof fn lemma_release_frees(v: LockView)
    requires
        wf(v),
        v.writer,
        !v.poisoned,
    ensures
        acquire_step(release_next(v, LockMode::Exclusive, false), LockMode::Exclusive, true)
            == Step::LockOs(LockMode::Exclusive),
        wf(release_next(v, LockMode::Exclusive, false)),
{
}

} // verus!
