use vstd::prelude::*;
use crate::mutex::{Mutex, MutexGuard};
use crate::wake::Wake;

verus! {

/// The generation after one notification; the counter wraps around.
pub open spec fn next_generation(g: u32) -> u32 {
    if g == u32::MAX {
        0
    } else {
        (g + 1) as u32
    }
}

/// The generation after a notify: it moves only when some thread is waiting.
pub open spec fn notified_generation(generation: u32, waiters: usize) -> u32 {
    if waiters > 0 {
        next_generation(generation)
    } else {
        generation
    }
}

/// What a waiting thread carries between releasing the mutex and parking:
/// the generation it saw before it let the mutex go.
#[derive(Debug)]
pub struct WaitTicket {
    expected: u32,
}

impl WaitTicket {
    pub closed spec fn spec_expected(&self) -> u32 {
        self.expected
    }

    /// The value to park on the generation word with.
    pub fn expected(&self) -> (r: u32)
        ensures
            r == self.spec_expected(),
    {
        self.expected
    }
}

/// A condition variable used together with a [`Mutex`].
pub struct CondVar {
    generation: u32,
    waiters: usize,
}

impl CondVar {
    pub closed spec fn generation(&self) -> u32 {
        self.generation
    }

    /// The number of threads inside `wait`.
    pub closed spec fn waiters(&self) -> usize {
        self.waiters
    }

    pub fn new() -> (r: Self)
        ensures
            r.generation() == 0,
            r.waiters() == 0,
    {
        CondVar { generation: 0, waiters: 0 }
    }

    /// The generation word, on which waiting threads park.
    pub fn generation_word(&self) -> (r: u32)
        ensures
            r == self.generation(),
    {
        self.generation
    }

    fn advance(&mut self)
        ensures
            final(self).generation() == next_generation(old(self).generation()),
            final(self).waiters() == old(self).waiters(),
    {
        if self.generation == u32::MAX {
            self.generation = 0;
        } else {
            self.generation = self.generation + 1;
        }
    }

    /// Wakes one waiting thread; touches nothing when no thread waits.
    pub fn notify_one(&mut self) -> (r: Wake)
        ensures
            final(self).generation() == notified_generation(old(self).generation(), old(self).waiters()),
            final(self).waiters() == old(self).waiters(),
            r == (if old(self).waiters() > 0 { Wake::One } else { Wake::Nothing }),
    {
        if self.waiters > 0 {
            self.advance();
            Wake::One
        } else {
            Wake::Nothing
        }
    }

    /// Wakes every waiting thread; touches nothing when no thread waits.
    pub fn notify_all(&mut self) -> (r: Wake)
        ensures
            final(self).generation() == notified_generation(old(self).generation(), old(self).waiters()),
            final(self).waiters() == old(self).waiters(),
            r == (if old(self).waiters() > 0 { Wake::All } else { Wake::Nothing }),
    {
        if self.waiters > 0 {
            self.advance();
            Wake::All
        } else {
            Wake::Nothing
        }
    }

    /// The first half of `wait`: counts the caller as a waiter, takes the
    /// generation, then releases the mutex. The caller issues the returned
    /// wake on the mutex word and parks on the generation word while it still
    /// reads the ticket's value.
    pub fn wait<T>(&mut self, mutex: &mut Mutex<T>, guard: MutexGuard) -> (r: (WaitTicket, Wake))
        requires
            old(self).waiters() < usize::MAX,
            old(mutex).wf(),
            old(mutex).held_by(&guard),
        ensures
            final(self).waiters() == old(self).waiters() + 1,
            final(self).generation() == old(self).generation(),
            r.0.spec_expected() == old(self).generation(),
            final(mutex).wf(),
            final(mutex).holder() is None,
            final(mutex).value() == old(mutex).value(),
            r.1 == (if old(mutex).state() == crate::mutex::LockState::LockedWithWaiters {
                Wake::One
            } else {
                Wake::Nothing
            }),
    {
        self.waiters = self.waiters + 1;
        let ticket = WaitTicket { expected: self.generation };
        let wake = mutex.unlock(guard);
        (ticket, wake)
    }

    /// Whether a thread holding `ticket` still parks: the futex check that the
    /// generation word has not moved since the ticket was taken.
    pub fn should_park(&self, ticket: &WaitTicket) -> (r: bool)
        ensures
            r == (self.generation() == ticket.spec_expected()),
    {
        self.generation == ticket.expected
    }

    /// The second half of `wait`, once the thread is awake: it stops counting
    /// as a waiter. The caller then takes the mutex again.
    pub fn finish_wait(&mut self, ticket: WaitTicket)
        requires
            old(self).waiters() > 0,
        ensures
            final(self).waiters() == old(self).waiters() - 1,
            final(self).generation() == old(self).generation(),
    {
        self.waiters = self.waiters - 1;
    }
}

/// No missed wakeup: once a thread has taken its ticket inside `wait`, any
/// notification moves the generation off the ticket's value, so the thread's
/// park returns at once instead of sleeping through the notification.
pub proof fn lemma_notify_reaches_waiter(cv: CondVar, ticket: WaitTicket)
    requires
        cv.waiters() > 0,
        ticket.spec_expected() == cv.generation(),
    ensures
        notified_generation(cv.generation(), cv.waiters()) != ticket.spec_expected(),
{
}

} // verus!
