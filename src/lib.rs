//! Blocking synchronization primitives described as verified state machines.
//!
//! Each primitive is one shared object whose methods are the atomic steps
//! that threads take on it. A step that would block returns the word and the
//! value to park on; a step that releases returns the wake call to issue.
//! The thread that runs the steps performs those parking and waking actions.

mod wake;
pub mod channel;
pub mod mutex;
pub mod cond_var;
pub mod rwlock;

pub use wake::Wake;
pub use channel::{Channel, ChannelState, ProtocolViolation, Receiver, Sender};
pub use mutex::{LockAttempt, LockState, Mutex, MutexGuard};
pub use cond_var::{CondVar, WaitTicket};
pub use rwlock::{ReadAttempt, ReadGuard, RwLock, WriteAttempt, WriteGuard};
