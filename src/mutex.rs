use vstd::prelude::*;
use crate::wake::Wake;

verus! {

/// The three values of a mutex's state word.
#[derive(Debug, Clone, Copy, PartialEq, Eq, Structural)]
pub enum LockState {
    Unlocked,
    LockedNoWaiters,
    LockedWithWaiters,
}

/// The machine word that stands for each lock state.
pub open spec fn spec_word(s: LockState) -> u32 {
    match s {
        LockState::Unlocked => 0,
        LockState::LockedNoWaiters => 1,
        LockState::LockedWithWaiters => 2,
    }
}

impl LockState {
    /// The machine word that backs this state.
    pub fn word(self) -> (r: u32)
        ensures
            r == spec_word(self),
    {
        match self {
            LockState::Unlocked => 0,
            LockState::LockedNoWaiters => 1,
            LockState::LockedWithWaiters => 2,
        }
    }

    /// The state a word stands for, if it stands for one.
    pub fn from_word(w: u32) -> (r: Option<LockState>)
        ensures
            r matches Some(s) ==> spec_word(s) == w,
            r is None <==> w > 2,
    {
        if w == 0 {
            Some(LockState::Unlocked)
        } else if w == 1 {
            Some(LockState::LockedNoWaiters)
        } else if w == 2 {
            Some(LockState::LockedWithWaiters)
        } else {
            None
        }
    }
}

/// Proof that a thread holds a [`Mutex`]; only the lock steps hand one out.
#[derive(Debug)]
pub struct MutexGuard {
    thread: u64,
}

impl MutexGuard {
    pub closed spec fn holder(&self) -> u64 {
        self.thread
    }

    /// The thread that holds the lock.
    pub fn thread(&self) -> (r: u64)
        ensures
            r == self.holder(),
    {
        self.thread
    }
}

/// The outcome of one pass of the contended lock loop.
#[derive(Debug)]
pub enum LockAttempt {
    /// The lock was free: the caller now holds it.
    Acquired(MutexGuard),
    /// The lock is held: park on the state word while it still reads `expected`, then retry.
    Park { expected: u32 },
}

/// The fast path of `lock` by `thread`: from `before` to `after`, answering `r`.
pub open spec fn try_lock_step<T>(before: Mutex<T>, thread: u64, after: Mutex<T>, r: Option<MutexGuard>) -> bool {
    if before.state() == LockState::Unlocked {
        r matches Some(g) && g.holder() == thread && after.holder() == Some(thread)
            && after.state() == LockState::LockedNoWaiters && after.value() == before.value()
    } else {
        r is None && after == before
    }
}

/// One pass of the slow path of `lock` by `thread`: the state word is swapped
/// to "locked with waiters" and its old value decides.
pub open spec fn contended_step<T>(before: Mutex<T>, thread: u64, after: Mutex<T>, r: LockAttempt) -> bool {
    &&& after.state() == LockState::LockedWithWaiters
    &&& after.value() == before.value()
    &&& if before.state() == LockState::Unlocked {
        r matches LockAttempt::Acquired(g) && g.holder() == thread && after.holder() == Some(thread)
    } else {
        r == LockAttempt::Park { expected: spec_word(LockState::LockedWithWaiters) }
            && after.holder() == before.holder()
    }
}

/// Releasing the lock: the state word is swapped to "unlocked" and a wake is
/// asked for only when it recorded waiters.
pub open spec fn unlock_step<T>(before: Mutex<T>, after: Mutex<T>, r: Wake) -> bool {
    &&& after.state() == LockState::Unlocked
    &&& after.holder() is None
    &&& after.value() == before.value()
    &&& r == if before.state() == LockState::LockedWithWaiters {
        Wake::One
    } else {
        Wake::Nothing
    }
}

/// A mutual-exclusion lock around one value of type `T`.
pub struct Mutex<T> {
    state: LockState,
    holder: Option<u64>,
    value: T,
}

impl<T> Mutex<T> {
    pub closed spec fn state(&self) -> LockState {
        self.state
    }

    /// The thread that holds the lock, if any.
    pub closed spec fn holder(&self) -> Option<u64> {
        self.holder
    }

    pub closed spec fn value(&self) -> T {
        self.value
    }

    /// The lock is held exactly when the state word says so.
    pub open spec fn wf(&self) -> bool {
        (self.state() == LockState::Unlocked) <==> (self.holder() is None)
    }

    /// `guard` is the one that the current holder was given.
    pub open spec fn held_by(&self, guard: &MutexGuard) -> bool {
        self.holder() == Some(guard.holder())
    }

    pub fn new(value: T) -> (r: Self)
        ensures
            r.wf(),
            r.state() == LockState::Unlocked,
            r.holder() is None,
            r.value() == value,
    {
        Mutex { state: LockState::Unlocked, holder: None, value }
    }

    /// The state word as a machine word.
    pub fn state_word(&self) -> (r: u32)
        ensures
            r == spec_word(self.state()),
    {
        self.state.word()
    }

    /// The fast path: takes a free lock for `thread` without touching any waiter.
    pub fn try_lock(&mut self, thread: u64) -> (r: Option<MutexGuard>)
        requires
            old(self).wf(),
        ensures
            final(self).wf(),
            try_lock_step(*old(self), thread, *final(self), r),
    {
        if self.state == LockState::Unlocked {
            self.state = LockState::LockedNoWaiters;
            self.holder = Some(thread);
            Some(MutexGuard { thread })
        } else {
            None
        }
    }

    /// One pass of the slow path: marks the lock as contended and takes it if
    /// it was free; otherwise tells `thread` to park.
    pub fn lock_contended(&mut self, thread: u64) -> (r: LockAttempt)
        requires
            old(self).wf(),
        ensures
            final(self).wf(),
            contended_step(*old(self), thread, *final(self), r),
    {
        let prev = self.state;
        self.state = LockState::LockedWithWaiters;
        if prev == LockState::Unlocked {
            self.holder = Some(thread);
            LockAttempt::Acquired(MutexGuard { thread })
        } else {
            LockAttempt::Park { expected: LockState::LockedWithWaiters.word() }
        }
    }

    /// Releases the lock held through `guard`; wakes one parked thread only
    /// when the state word recorded waiters.
    pub fn unlock(&mut self, guard: MutexGuard) -> (r: Wake)
        requires
            old(self).wf(),
            old(self).held_by(&guard),
        ensures
            final(self).wf(),
            unlock_step(*old(self), *final(self), r),
    {
        let prev = self.state;
        self.state = LockState::Unlocked;
        self.holder = None;
        if prev == LockState::LockedWithWaiters {
            Wake::One
        } else {
            Wake::Nothing
        }
    }

    /// Shared access to the value for the holder of the lock.
    pub fn get(&self, guard: &MutexGuard) -> (r: &T)
        requires
            self.held_by(guard),
        ensures
            *r == self.value(),
    {
        &self.value
    }

    /// Overwrites the value through the holder's guard.
    pub fn set(&mut self, guard: &MutexGuard, value: T)
        requires
            old(self).held_by(guard),
        ensures
            final(self).value() == value,
            final(self).state() == old(self).state(),
            final(self).holder() == old(self).holder(),
    {
        self.value = value;
    }
}

/// Mutual exclusion: while one thread holds the lock, neither path of `lock`
/// lets another thread in, and the holder stays the same.
pub proof fn lemma_mutual_exclusion<T>(
    m: Mutex<T>,
    other: u64,
    fast: Mutex<T>,
    r_fast: Option<MutexGuard>,
    slow: Mutex<T>,
    r_slow: LockAttempt,
)
    requires
        m.wf(),
        m.holder() is Some,
        try_lock_step(m, other, fast, r_fast),
        contended_step(m, other, slow, r_slow),
    ensures
        r_fast is None,
        fast.holder() == m.holder(),
        r_slow is Park,
        slow.holder() == m.holder(),
{
}

/// No missed wakeup: a thread told to park has left the state word at the
/// value it parks on, so the holder's unlock either changes that word first
/// (the park returns at once) or asks for a wake.
pub proof fn lemma_parked_thread_is_woken<T>(
    m0: Mutex<T>,
    thread: u64,
    m1: Mutex<T>,
    r: LockAttempt,
    m2: Mutex<T>,
    w: Wake,
)
    requires
        m0.wf(),
        contended_step(m0, thread, m1, r),
        r is Park,
        unlock_step(m1, m2, w),
    ensures
        r matches LockAttempt::Park { expected } && expected == spec_word(m1.state())
            && expected != spec_word(m2.state()),
        w == Wake::One,
{
}

/// What the holder leaves in the value before it unlocks is what the next
/// holder finds, by either path of `lock`.
pub proof fn lemma_value_handed_over<T>(
    m0: Mutex<T>,
    m1: Mutex<T>,
    w: Wake,
    next: u64,
    fast: Mutex<T>,
    r_fast: Option<MutexGuard>,
    slow: Mutex<T>,
    r_slow: LockAttempt,
)
    requires
        unlock_step(m0, m1, w),
        try_lock_step(m1, next, fast, r_fast),
        contended_step(m1, next, slow, r_slow),
    ensures
        r_fast matches Some(g) && g.holder() == next && fast.value() == m0.value(),
        r_slow matches LockAttempt::Acquired(g) && g.holder() == next && slow.value() == m0.value(),
{
}

} // verus!
