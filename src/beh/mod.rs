//! Backend adapters: each one gives a concrete mutex the lock capability.
//! The standard library's blocking mutex is the default backend.
pub mod pl;
pub mod std_mutex;
pub mod tokio_mutex;
