//! One atomic cell of a fixed width, with the queue of threads waiting on it.

use vstd::prelude::*;

use crate::loom_specs::{guarded, lock};
use crate::order::{fits, MemoryOrder, SizeType};
use crate::queue::WaitQueue;
use loom::sync::Mutex;
use loom::thread::Thread;
use std::sync::atomic::Ordering;

verus! {

/// The read-modify-write operations a cell offers.
#[derive(Clone, Copy, Debug, PartialEq, Eq, Structural)]
pub enum RmwOp {
    Add,
    Sub,
    And,
    Nand,
    Or,
    Xor,
    Max,
    Min,
}

/// The storage of a cell: one loom atomic of the cell's width.
pub enum SizedAtomic {
    U8(loom::sync::atomic::AtomicU8),
    U16(loom::sync::atomic::AtomicU16),
    U32(loom::sync::atomic::AtomicU32),
    U64(loom::sync::atomic::AtomicU64),
}

/// What a wait ended with.
#[derive(Clone, Copy, Debug, PartialEq, Eq, Structural)]
pub enum WaitOutcome {
    /// The cell no longer held the expected value; it held this one.
    Changed(u64),
    /// The thread was queued, parked, and has been woken.
    Woken,
}

/// An atomic cell of 8, 16, 32 or 64 bits, with its own wait queue guarded
/// by its own lock.
pub struct AtomicCell {
    value: SizedAtomic,
    waiters: Mutex<WaitQueue<Thread>>,
}

impl AtomicCell {
    /// The width of this cell.
    pub closed spec fn width(&self) -> SizeType {
        match self.value {
            SizedAtomic::U8(_) => SizeType::AtomicU8,
            SizedAtomic::U16(_) => SizeType::AtomicU16,
            SizedAtomic::U32(_) => SizeType::AtomicU32,
            SizedAtomic::U64(_) => SizeType::AtomicU64,
        }
    }

    /// A cell of width `ty` holding `val`, with no waiters.
    pub fn new(val: u64, ty: SizeType) -> (c: AtomicCell)
        requires
            fits(ty, val),
        ensures
            c.width() == ty,
    {
        let value = match ty {
            SizeType::AtomicU8 => SizedAtomic::U8(loom::sync::atomic::AtomicU8::new(val as u8)),
            SizeType::AtomicU16 => SizedAtomic::U16(loom::sync::atomic::AtomicU16::new(val as u16)),
            SizeType::AtomicU32 => SizedAtomic::U32(loom::sync::atomic::AtomicU32::new(val as u32)),
            SizeType::AtomicU64 => SizedAtomic::U64(loom::sync::atomic::AtomicU64::new(val)),
        };
        AtomicCell { value, waiters: Mutex::new(WaitQueue::new()) }
    }

    /// The width of this cell.
    pub fn size_type(&self) -> (r: SizeType)
        ensures
            r == self.width(),
    {
        match &self.value {
            SizedAtomic::U8(a) => SizeType::AtomicU8,
            SizedAtomic::U16(a) => SizeType::AtomicU16,
            SizedAtomic::U32(a) => SizeType::AtomicU32,
            SizedAtomic::U64(a) => SizeType::AtomicU64,
        }
    }

    /// Reads the cell.
    pub fn load(&self, ord: MemoryOrder) -> (r: u64)
        ensures
            fits(self.width(), r),
    {
        let o: Ordering = ord.into();
        match &self.value {
            SizedAtomic::U8(a) => a.load(o) as u64,
            SizedAtomic::U16(a) => a.load(o) as u64,
            SizedAtomic::U32(a) => a.load(o) as u64,
            SizedAtomic::U64(a) => a.load(o),
        }
    }

    /// Writes `val` to the cell.
    pub fn store(&self, val: u64, ord: MemoryOrder)
        requires
            fits(self.width(), val),
    {
        let o: Ordering = ord.into();
        match &self.value {
            SizedAtomic::U8(a) => a.store(val as u8, o),
            SizedAtomic::U16(a) => a.store(val as u16, o),
            SizedAtomic::U32(a) => a.store(val as u32, o),
            SizedAtomic::U64(a) => a.store(val as u64, o),
        }
    }

    /// Writes `val` to the cell and returns the value it replaced.
    pub fn swap(&self, val: u64, ord: MemoryOrder) -> (r: u64)
        requires
            fits(self.width(), val),
        ensures
            fits(self.width(), r),
    {
        let o: Ordering = ord.into();
        match &self.value {
            SizedAtomic::U8(a) => a.swap(val as u8, o) as u64,
            SizedAtomic::U16(a) => a.swap(val as u16, o) as u64,
            SizedAtomic::U32(a) => a.swap(val as u32, o) as u64,
            SizedAtomic::U64(a) => a.swap(val as u64, o) as u64,
        }
    }

    /// Applies `op` with operand `val` in one indivisible step and returns the
    /// value the cell held before.
    pub fn fetch_op(&self, op: RmwOp, val: u64, ord: MemoryOrder) -> (r: u64)
        requires
            fits(self.width(), val),
        ensures
            fits(self.width(), r),
    {
        let o: Ordering = ord.into();
        match &self.value {
            SizedAtomic::U8(a) => {
                let v = val as u8;
                match op {
                    RmwOp::Add => a.fetch_add(v, o) as u64,
                    RmwOp::Sub => a.fetch_sub(v, o) as u64,
                    RmwOp::And => a.fetch_and(v, o) as u64,
                    RmwOp::Nand => a.fetch_nand(v, o) as u64,
                    RmwOp::Or => a.fetch_or(v, o) as u64,
                    RmwOp::Xor => a.fetch_xor(v, o) as u64,
                    RmwOp::Max => a.fetch_max(v, o) as u64,
                    RmwOp::Min => a.fetch_min(v, o) as u64,
                }
            },
            SizedAtomic::U16(a) => {
                let v = val as u16;
                match op {
                    RmwOp::Add => a.fetch_add(v, o) as u64,
                    RmwOp::Sub => a.fetch_sub(v, o) as u64,
                    RmwOp::And => a.fetch_and(v, o) as u64,
                    RmwOp::Nand => a.fetch_nand(v, o) as u64,
                    RmwOp::Or => a.fetch_or(v, o) as u64,
                    RmwOp::Xor => a.fetch_xor(v, o) as u64,
                    RmwOp::Max => a.fetch_max(v, o) as u64,
                    RmwOp::Min => a.fetch_min(v, o) as u64,
                }
            },
            SizedAtomic::U32(a) => {
                let v = val as u32;
                match op {
                    RmwOp::Add => a.fetch_add(v, o) as u64,
                    RmwOp::Sub => a.fetch_sub(v, o) as u64,
                    RmwOp::And => a.fetch_and(v, o) as u64,
                    RmwOp::Nand => a.fetch_nand(v, o) as u64,
                    RmwOp::Or => a.fetch_or(v, o) as u64,
                    RmwOp::Xor => a.fetch_xor(v, o) as u64,
                    RmwOp::Max => a.fetch_max(v, o) as u64,
                    RmwOp::Min => a.fetch_min(v, o) as u64,
                }
            },
            SizedAtomic::U64(a) => {
                let v = val as u64;
                match op {
                    RmwOp::Add => a.fetch_add(v, o) as u64,
                    RmwOp::Sub => a.fetch_sub(v, o) as u64,
                    RmwOp::And => a.fetch_and(v, o) as u64,
                    RmwOp::Nand => a.fetch_nand(v, o) as u64,
                    RmwOp::Or => a.fetch_or(v, o) as u64,
                    RmwOp::Xor => a.fetch_xor(v, o) as u64,
                    RmwOp::Max => a.fetch_max(v, o) as u64,
                    RmwOp::Min => a.fetch_min(v, o) as u64,
                }
            },
        }
    }

    /// Single-attempt compare-and-exchange: writes `new` when the cell holds
    /// `current` and returns `Ok(current)`; otherwise leaves the cell alone
    /// and returns `Err` with the different value it found.
    pub fn compare_exchange(
        &self,
        current: u64,
        new: u64,
        success: MemoryOrder,
        failure: MemoryOrder,
    ) -> (r: Result<u64, u64>)
        requires
            fits(self.width(), current),
            fits(self.width(), new),
        ensures
            match r {
                Ok(v) => v == current,
                Err(v) => v != current && fits(self.width(), v),
            },
    {
        let s: Ordering = success.into();
        let f: Ordering = failure.into();
        match &self.value {
            SizedAtomic::U8(a) => widen_u8(a.compare_exchange(current as u8, new as u8, s, f)),
            SizedAtomic::U16(a) => widen_u16(a.compare_exchange(current as u16, new as u16, s, f)),
            SizedAtomic::U32(a) => widen_u32(a.compare_exchange(current as u32, new as u32, s, f)),
            SizedAtomic::U64(a) => widen_u64(a.compare_exchange(current as u64, new as u64, s, f)),
        }
    }

    /// Futex wait. Under the queue's lock, reads the cell; when it no longer
    /// holds `expected`, returns at once with what it holds. Otherwise queues
    /// the running thread before the lock is released, so that no notify can
    /// slip in between the check and the enqueue, then parks until woken.
    pub fn wait(&self, expected: u64) -> (r: WaitOutcome)
        ensures
            r matches WaitOutcome::Changed(v) ==> v != expected && fits(self.width(), v),
    {
        {
            let mut guard = lock(&self.waiters);
            let observed = self.load(MemoryOrder::SeqCst);
            let me = loom::thread::current();
            if !guarded(&mut guard).register_if_unchanged(observed, expected, me) {
                return WaitOutcome::Changed(observed);
            }
        }
        loom::thread::park();
        WaitOutcome::Woken
    }

    /// Wakes up to `limit` queued waiters, oldest first, and returns how many
    /// it woke. Each is taken off the queue, under the lock, before it is woken.
    pub fn notify(&self, limit: usize) -> (r: usize)
        ensures
            r <= limit,
    {
        let woken = {
            let mut guard = lock(&self.waiters);
            guarded(&mut guard).take_front(limit)
        };
        wake_all(&woken);
        woken.len()
    }

    /// Wakes the oldest queued waiter, if any, and reports whether there was one.
    pub fn notify_one(&self) -> (r: bool) {
        self.notify(1) == 1
    }

    /// Wakes every queued waiter and returns how many there were.
    pub fn notify_all(&self) -> (r: usize) {
        let woken = {
            let mut guard = lock(&self.waiters);
            guarded(&mut guard).take_all()
        };
        wake_all(&woken);
        woken.len()
    }
}

/// Unparks each of `threads` once.
fn wake_all(threads: &Vec<Thread>) {
    let mut i: usize = 0;
    while i < threads.len()
        invariant
            i <= threads.len(),
        decreases threads.len() - i,
    {
        threads[i].unpark();
        i = i + 1;
    }
}

/// Widens the outcome of a 8-bit compare-and-exchange.
fn widen_u8(r: Result<u8, u8>) -> (w: Result<u64, u64>)
    ensures
        match r {
            Ok(v) => w == Ok::<u64, u64>(v as u64),
            Err(v) => w == Err::<u64, u64>(v as u64),
        },
{
    match r {
        Ok(v) => Ok(v as u64),
        Err(v) => Err(v as u64),
    }
}

/// Widens the outcome of a 16-bit compare-and-exchange.
fn widen_u16(r: Result<u16, u16>) -> (w: Result<u64, u64>)
    ensures
        match r {
            Ok(v) => w == Ok::<u64, u64>(v as u64),
            Err(v) => w == Err::<u64, u64>(v as u64),
        },
{
    match r {
        Ok(v) => Ok(v as u64),
        Err(v) => Err(v as u64),
    }
}

/// Widens the outcome of a 32-bit compare-and-exchange.
fn widen_u32(r: Result<u32, u32>) -> (w: Result<u64, u64>)
    ensures
        match r {
            Ok(v) => w == Ok::<u64, u64>(v as u64),
            Err(v) => w == Err::<u64, u64>(v as u64),
        },
{
    match r {
        Ok(v) => Ok(v as u64),
        Err(v) => Err(v as u64),
    }
}

/// Widens the outcome of a 64-bit compare-and-exchange.
fn widen_u64(r: Result<u64, u64>) -> (w: Result<u64, u64>)
    ensures
        match r {
            Ok(v) => w == Ok::<u64, u64>(v as u64),
            Err(v) => w == Err::<u64, u64>(v as u64),
        },
{
    match r {
        Ok(v) => Ok(v as u64),
        Err(v) => Err(v as u64),
    }
}

} // verus!
