//! Synchronization primitives for cooperatively scheduled tasks: a counting
//! semaphore and a condition variable, both built on a queue of suspended
//! tasks' resumption handles.
//!
//! Every operation is a step of a state machine on exclusively borrowed state:
//! it takes the state by `&mut`, decides, and says in its contract exactly what
//! the state is afterwards and which handles were stored or taken out. A wake
//! step invokes nothing: it hands the handles back, and the caller resumes
//! them once it has released the lock by which it shares the state. Sharing
//! the state between tasks and suspending a task until its handle is invoked
//! are left to the caller.

pub mod condvar;
pub mod handle;
pub mod semaphore;
pub mod waiter_queue;

pub use condvar::Condvar;
pub use semaphore::{Semaphore, SemaphorePermit};
