use vstd::prelude::*;
use crate::wake::Wake;

verus! {

/// The state word's value while a writer holds the lock.
pub const WRITE_LOCKED: u32 = 0xffff_ffff;

/// The largest number of readers at once; it stays below [`WRITE_LOCKED`].
pub const MAX_READERS: u32 = 0xffff_fffe;

/// The number of readers that a state word records.
pub open spec fn readers_of(s: u32) -> nat {
    if s == WRITE_LOCKED {
        0
    } else {
        s as nat
    }
}

pub open spec fn write_locked(s: u32) -> bool {
    s == WRITE_LOCKED
}

/// A reader gets in exactly when no writer holds the lock and there is room for one more.
pub open spec fn read_acquires(s: u32) -> bool {
    s < MAX_READERS
}

/// A writer gets in exactly when the lock is fully free.
pub open spec fn write_acquires(s: u32) -> bool {
    s == 0
}

/// The writer-wake counter after a bump; it wraps around.
pub open spec fn bumped(c: u32) -> u32 {
    if c == u32::MAX {
        0
    } else {
        (c + 1) as u32
    }
}

/// Shared access held by one reader of a [`RwLock`].
#[derive(Debug)]
pub struct ReadGuard {
    token: (),
}

/// Exclusive access held by the writer of a [`RwLock`].
#[derive(Debug)]
pub struct WriteGuard {
    token: (),
}

/// The outcome of one pass of the read loop.
#[derive(Debug)]
pub enum ReadAttempt {
    Acquired(ReadGuard),
    /// A writer holds the lock: park on the state word while it reads `expected`.
    Park { expected: u32 },
    /// The reader count is at its bound: try again.
    Retry,
}

/// The outcome of one pass of the write loop.
#[derive(Debug)]
pub enum WriteAttempt {
    Acquired(WriteGuard),
    /// The lock is held: park on the writer-wake counter while it reads `expected`.
    Park { expected: u32 },
}

/// A reader-writer lock around one value of type `T`, with a separate
/// counter on which writers park.
pub struct RwLock<T> {
    state: u32,
    writer_wake: u32,
    value: T,
}

impl<T> RwLock<T> {
    /// The state word: the reader count, or [`WRITE_LOCKED`].
    pub closed spec fn state(&self) -> u32 {
        self.state
    }

    pub closed spec fn writer_wake(&self) -> u32 {
        self.writer_wake
    }

    pub closed spec fn value(&self) -> T {
        self.value
    }

    pub open spec fn readers(&self) -> nat {
        readers_of(self.state())
    }

    pub open spec fn is_write_locked(&self) -> bool {
        write_locked(self.state())
    }

    pub fn new(value: T) -> (r: Self)
        ensures
            r.state() == 0,
            r.writer_wake() == 0,
            r.value() == value,
    {
        RwLock { state: 0, writer_wake: 0, value }
    }

    /// The state word as a machine word.
    pub fn state_word(&self) -> (r: u32)
        ensures
            r == self.state(),
    {
        self.state
    }

    /// The writer-wake counter as a machine word.
    pub fn writer_wake_word(&self) -> (r: u32)
        ensures
            r == self.writer_wake(),
    {
        self.writer_wake
    }

    /// One pass of the read loop: joins the readers when no writer holds the lock.
    pub fn try_read(&mut self) -> (r: ReadAttempt)
        ensures
            final(self).value() == old(self).value(),
            final(self).writer_wake() == old(self).writer_wake(),
            r is Acquired <==> read_acquires(old(self).state()),
            r is Acquired ==> final(self).state() == old(self).state() + 1,
            !(r is Acquired) ==> final(self).state() == old(self).state(),
            r is Park <==> write_locked(old(self).state()),
            r matches ReadAttempt::Park { expected } ==> expected == WRITE_LOCKED,
    {
        let s = self.state;
        if s < MAX_READERS {
            self.state = s + 1;
            ReadAttempt::Acquired(ReadGuard { token: () })
        } else if s == WRITE_LOCKED {
            ReadAttempt::Park { expected: WRITE_LOCKED }
        } else {
            ReadAttempt::Retry
        }
    }

    /// Releases one reader. The last reader out bumps the writer-wake counter
    /// and asks for one writer to be woken on it.
    pub fn read_unlock(&mut self, guard: ReadGuard) -> (r: Wake)
        requires
            old(self).readers() > 0,
        ensures
            final(self).value() == old(self).value(),
            final(self).state() == old(self).state() - 1,
            old(self).state() == 1 ==> final(self).writer_wake() == bumped(old(self).writer_wake())
                && r == Wake::One,
            old(self).state() != 1 ==> final(self).writer_wake() == old(self).writer_wake()
                && r == Wake::Nothing,
    {
        self.state = self.state - 1;
        if self.state == 0 {
            self.bump();
            Wake::One
        } else {
            Wake::Nothing
        }
    }

    fn bump(&mut self)
        ensures
            final(self).writer_wake() == bumped(old(self).writer_wake()),
            final(self).state() == old(self).state(),
            final(self).value() == old(self).value(),
    {
        if self.writer_wake == u32::MAX {
            self.writer_wake = 0;
        } else {
            self.writer_wake = self.writer_wake + 1;
        }
    }

    /// One pass of the write loop: takes a fully free lock, or parks on the
    /// writer-wake counter as it read before the attempt.
    pub fn try_write(&mut self) -> (r: WriteAttempt)
        ensures
            final(self).value() == old(self).value(),
            final(self).writer_wake() == old(self).writer_wake(),
            r is Acquired <==> write_acquires(old(self).state()),
            r is Acquired ==> final(self).state() == WRITE_LOCKED,
            r matches WriteAttempt::Park { expected } ==> expected == old(self).writer_wake()
                && *final(self) == *old(self),
    {
        if self.state == 0 {
            self.state = WRITE_LOCKED;
            WriteAttempt::Acquired(WriteGuard { token: () })
        } else {
            WriteAttempt::Park { expected: self.writer_wake }
        }
    }

    /// Releases the writer. Returns the wake for the writer-wake counter and
    /// the wake for the state word, in that order: one writer and all readers.
    pub fn write_unlock(&mut self, guard: WriteGuard) -> (r: (Wake, Wake))
        requires
            old(self).is_write_locked(),
        ensures
            final(self).value() == old(self).value(),
            final(self).state() == 0,
            final(self).writer_wake() == bumped(old(self).writer_wake()),
            r == (Wake::One, Wake::All),
    {
        self.state = 0;
        self.bump();
        (Wake::One, Wake::All)
    }

    /// Shared access to the value for a reader.
    pub fn read_value(&self, guard: &ReadGuard) -> (r: &T)
        requires
            self.readers() > 0,
        ensures
            *r == self.value(),
    {
        &self.value
    }

    /// Access to the value for the writer.
    pub fn write_value(&self, guard: &WriteGuard) -> (r: &T)
        requires
            self.is_write_locked(),
        ensures
            *r == self.value(),
    {
        &self.value
    }

    /// Overwrites the value through the writer's guard.
    pub fn set(&mut self, guard: &WriteGuard, value: T)
        requires
            old(self).is_write_locked(),
        ensures
            final(self).value() == value,
            final(self).state() == old(self).state(),
            final(self).writer_wake() == old(self).writer_wake(),
    {
        self.value = value;
    }
}

/// Mutual exclusion: a writer gets in only when no reader and no writer holds
/// the lock, and while a writer holds it neither a reader nor a second writer
/// gets in.
pub proof fn lemma_writer_excludes_all(s: u32)
    ensures
        write_acquires(s) ==> readers_of(s) == 0 && !write_locked(s),
        write_locked(s) ==> !read_acquires(s) && !write_acquires(s),
        write_locked(WRITE_LOCKED),
{
}

/// Readers do not exclude each other: while no writer holds the lock and the
/// bound is not reached, one more reader gets in, the count grows by one
/// without reaching the write-locked value, and no writer gets in while any
/// reader remains.
pub proof fn lemma_readers_coexist(s: u32)
    requires
        !write_locked(s),
        s < MAX_READERS,
    ensures
        read_acquires(s),
        readers_of((s + 1) as u32) == readers_of(s) + 1,
        !write_locked((s + 1) as u32),
        !write_acquires((s + 1) as u32),
{
}

/// No stranded writer: a writer parks on the writer-wake counter as it read
/// it, and every release that can let it in (the last reader leaving, a
/// writer leaving) moves that counter, so its park cannot sleep through it.
pub proof fn lemma_writer_wake_moves(c: u32)
    ensures
        bumped(c) != c,
{
}

} // verus!
