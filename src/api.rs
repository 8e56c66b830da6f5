//! The operations of the call boundary. Each takes the cell, the width tag
//! the caller believes it has (which must match), and ordering tags.

#![allow(unused_variables)]

use vstd::prelude::*;

use crate::cell::{AtomicCell, RmwOp, WaitOutcome};
use crate::order::{fits, MemoryOrder, SizeType};
use std::sync::atomic::Ordering;

verus! {

/// A new cell of width `ty` holding `val`, with an empty wait queue.
pub fn loom_atomic_init(val: u64, ty: SizeType) -> (c: AtomicCell)
    requires
        fits(ty, val),
    ensures
        c.width() == ty,
{
    AtomicCell::new(val, ty)
}

/// Ends the life of a cell. Its wait queue should be empty: waiters still
/// queued would never be woken.
pub fn loom_atomic_destroy(cell: AtomicCell, ty: SizeType)
    requires
        cell.width() == ty,
{
}

/// Reads the cell.
pub fn loom_atomic_load(cell: &AtomicCell, ty: SizeType, ord: MemoryOrder) -> (r: u64)
    requires
        cell.width() == ty,
    ensures
        fits(ty, r),
{
    cell.load(ord)
}

/// Writes `val` to the cell.
pub fn loom_atomic_store(cell: &AtomicCell, val: u64, ty: SizeType, ord: MemoryOrder)
    requires
        cell.width() == ty,
        fits(ty, val),
{
    cell.store(val, ord)
}

/// Atomically adds `val`, wrapping at the width; returns the previous value.
pub fn loom_atomic_fetch_add(cell: &AtomicCell, val: u64, ty: SizeType, ord: MemoryOrder) -> (r: u64)
    requires
        cell.width() == ty,
        fits(ty, val),
    ensures
        fits(ty, r),
{
    cell.fetch_op(RmwOp::Add, val, ord)
}

/// Atomically subtracts `val`, wrapping at the width; returns the previous value.
pub fn loom_atomic_fetch_sub(cell: &AtomicCell, val: u64, ty: SizeType, ord: MemoryOrder) -> (r: u64)
    requires
        cell.width() == ty,
        fits(ty, val),
    ensures
        fits(ty, r),
{
    cell.fetch_op(RmwOp::Sub, val, ord)
}

/// Atomically stores the bitwise and with `val`; returns the previous value.
pub fn loom_atomic_fetch_and(cell: &AtomicCell, val: u64, ty: SizeType, ord: MemoryOrder) -> (r: u64)
    requires
        cell.width() == ty,
        fits(ty, val),
    ensures
        fits(ty, r),
{
    cell.fetch_op(RmwOp::And, val, ord)
}

/// Atomically stores the bitwise nand with `val`; returns the previous value.
pub fn loom_atomic_fetch_nand(cell: &AtomicCell, val: u64, ty: SizeType, ord: MemoryOrder) -> (r: u64)
    requires
        cell.width() == ty,
        fits(ty, val),
    ensures
        fits(ty, r),
{
    cell.fetch_op(RmwOp::Nand, val, ord)
}

/// Atomically stores the bitwise or with `val`; returns the previous value.
pub fn loom_atomic_fetch_or(cell: &AtomicCell, val: u64, ty: SizeType, ord: MemoryOrder) -> (r: u64)
    requires
        cell.width() == ty,
        fits(ty, val),
    ensures
        fits(ty, r),
{
    cell.fetch_op(RmwOp::Or, val, ord)
}

/// Atomically stores the bitwise xor with `val`; returns the previous value.
pub fn loom_atomic_fetch_xor(cell: &AtomicCell, val: u64, ty: SizeType, ord: MemoryOrder) -> (r: u64)
    requires
        cell.width() == ty,
        fits(ty, val),
    ensures
        fits(ty, r),
{
    cell.fetch_op(RmwOp::Xor, val, ord)
}

/// Atomically stores the larger of the value and `val`, unsigned; returns the previous value.
pub fn loom_atomic_fetch_max(cell: &AtomicCell, val: u64, ty: SizeType, ord: MemoryOrder) -> (r: u64)
    requires
        cell.width() == ty,
        fits(ty, val),
    ensures
        fits(ty, r),
{
    cell.fetch_op(RmwOp::Max, val, ord)
}

/// Atomically stores the smaller of the value and `val`, unsigned; returns the previous value.
pub fn loom_atomic_fetch_min(cell: &AtomicCell, val: u64, ty: SizeType, ord: MemoryOrder) -> (r: u64)
    requires
        cell.width() == ty,
        fits(ty, val),
    ensures
        fits(ty, r),
{
    cell.fetch_op(RmwOp::Min, val, ord)
}

/// Atomically writes `*val` to the cell and puts the value it replaced in `*val`.
pub fn loom_atomic_swap(cell: &AtomicCell, val: &mut u64, ty: SizeType, ord: MemoryOrder)
    requires
        cell.width() == ty,
        fits(ty, *old(val)),
    ensures
        fits(ty, *final(val)),
{
    *val = cell.swap(*val, ord);
}

/// Reports the outcome of one compare-and-exchange attempt to the caller's
/// `expected` slot: success leaves it alone; failure writes back the value
/// that was found in the cell.
pub fn settle_exchange(outcome: Result<u64, u64>, expected: &mut u64) -> (r: bool)
    ensures
        r == outcome is Ok,
        match outcome {
            Ok(_) => *final(expected) == *old(expected),
            Err(found) => *final(expected) == found,
        },
{
    match outcome {
        Ok(_) => true,
        Err(found) => {
            *expected = found;
            false
        },
    }
}

/// One attempt to replace `*expected` by `desired`. On success returns true
/// and leaves `*expected` unchanged; on failure returns false, leaves the
/// cell unchanged and puts the different value found in `*expected`.
pub fn loom_atomic_compare_and_exchange(
    cell: &AtomicCell,
    expected: &mut u64,
    desired: u64,
    ty: SizeType,
    success: MemoryOrder,
    failure: MemoryOrder,
) -> (r: bool)
    requires
        cell.width() == ty,
        fits(ty, *old(expected)),
        fits(ty, desired),
    ensures
        r ==> *final(expected) == *old(expected),
        !r ==> *final(expected) != *old(expected) && fits(ty, *final(expected)),
{
    let outcome = cell.compare_exchange(*expected, desired, success, failure);
    settle_exchange(outcome, expected)
}

/// A memory barrier of the given ordering, tied to no cell.
pub fn loom_fence(ord: MemoryOrder)
    requires
        ord != MemoryOrder::Relaxed,
{
    let o: Ordering = ord.into();
    loom::sync::atomic::fence(o);
}

/// Lets the scheduler run another thread.
pub fn loom_yield_now() {
    loom::thread::yield_now();
}

/// Marks one turn of a busy-wait loop; the scheduler may run another thread.
pub fn loom_spin_loop_hint() {
    loom::sync::atomic::spin_loop_hint();
}

/// Blocks while the cell holds `val`: returns at once with what it holds if
/// that differs, and otherwise parks until a notify wakes the thread.
pub fn loom_atomic_wait(cell: &AtomicCell, val: u64, ty: SizeType) -> (r: WaitOutcome)
    requires
        cell.width() == ty,
    ensures
        r matches WaitOutcome::Changed(v) ==> v != val && fits(ty, v),
{
    cell.wait(val)
}

/// Wakes one waiter of the cell, if any; reports whether one was woken.
pub fn loom_atomic_notify_one(cell: &AtomicCell, ty: SizeType) -> (r: bool)
    requires
        cell.width() == ty,
{
    cell.notify_one()
}

/// Wakes every waiter of the cell; returns how many were woken.
pub fn loom_atomic_notify_all(cell: &AtomicCell, ty: SizeType) -> (r: usize)
    requires
        cell.width() == ty,
{
    cell.notify_all()
}

/// Wakes up to `limit` waiters of the cell; returns how many were woken.
pub fn loom_atomic_notify_bounded(cell: &AtomicCell, ty: SizeType, limit: usize) -> (r: usize)
    requires
        cell.width() == ty,
    ensures
        r <= limit,
{
    cell.notify(limit)
}

} // verus!
