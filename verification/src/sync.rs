//! Primitives by which tasks that share the one hardware thread wait for
//! each other.
pub mod arc;
pub mod mutex;
pub mod queue;
pub mod semaphore;

pub use self::mutex::Mutex;
pub use self::queue::Queue;
pub use self::semaphore::Semaphore;
