//! Width-polymorphic atomic cells with futex-style wait/notify, built on
//! loom's model-checked atomics, mutex and thread parking.

mod loom_specs;

pub mod api;
pub mod cell;
pub mod order;
pub mod queue;

pub use api::{
    loom_atomic_compare_and_exchange, loom_atomic_destroy, loom_atomic_fetch_add,
    loom_atomic_fetch_and, loom_atomic_fetch_max, loom_atomic_fetch_min, loom_atomic_fetch_nand,
    loom_atomic_fetch_or, loom_atomic_fetch_sub, loom_atomic_fetch_xor, loom_atomic_init,
    loom_atomic_load, loom_atomic_notify_all, loom_atomic_notify_bounded, loom_atomic_notify_one,
    loom_atomic_store, loom_atomic_swap, loom_atomic_wait, loom_fence, loom_spin_loop_hint,
    loom_yield_now, settle_exchange,
};
pub use cell::{AtomicCell, RmwOp, WaitOutcome};
pub use order::{MemoryOrder, SizeType};
pub use queue::WaitQueue;
