//! What this library assumes of loom: its atomic integer types, its mutex,
//! and its thread handles, parking and fences. loom panics when any of these
//! is used outside a running `loom::model`, so callers must run inside one.

use vstd::prelude::*;

use loom::sync::{Mutex, MutexGuard};
use loom::thread::Thread;
use std::sync::atomic::Ordering;

verus! {

/// loom::sync::atomic::AtomicU8, held opaque.
#[verifier::external_type_specification]
#[verifier::external_body]
pub struct ExAtomicU8(loom::sync::atomic::AtomicU8);

/// loom::sync::atomic::AtomicU16, held opaque.
#[verifier::external_type_specification]
#[verifier::external_body]
pub struct ExAtomicU16(loom::sync::atomic::AtomicU16);

/// loom::sync::atomic::AtomicU32, held opaque.
#[verifier::external_type_specification]
#[verifier::external_body]
pub struct ExAtomicU32(loom::sync::atomic::AtomicU32);

/// loom::sync::atomic::AtomicU64, held opaque.
#[verifier::external_type_specification]
#[verifier::external_body]
pub struct ExAtomicU64(loom::sync::atomic::AtomicU64);

/// loom::thread::Thread, a handle to a model thread, held opaque.
#[verifier::external_type_specification]
#[verifier::external_body]
pub struct ExThread(Thread);

/// loom::sync::Mutex, held opaque.
#[verifier::external_type_specification]
#[verifier::external_body]
#[verifier::reject_recursive_types(T)]
pub struct ExMutex<T: ?Sized>(Mutex<T>);

/// loom::sync::MutexGuard, held opaque.
#[verifier::external_type_specification]
#[verifier::external_body]
#[verifier::reject_recursive_types(T)]
pub struct ExMutexGuard<'a, T: ?Sized>(MutexGuard<'a, T>);

/// loom's `AtomicU8::new` registers a cell holding `v` with the model.
pub assume_specification[ loom::sync::atomic::AtomicU8::new ](v: u8) -> loom::sync::atomic::AtomicU8;

/// loom's `AtomicU8::load` reads the cell; which store it reads is the
/// model's choice, so nothing is promised of the value.
pub assume_specification[ loom::sync::atomic::AtomicU8::load ](a: &loom::sync::atomic::AtomicU8, order: Ordering) -> u8;

/// loom's `AtomicU8::store` writes `val` to the cell; it accepts every ordering.
pub assume_specification[ loom::sync::atomic::AtomicU8::store ](a: &loom::sync::atomic::AtomicU8, val: u8, order: Ordering);

/// loom's `AtomicU8::swap` writes `val` and returns the value it replaced.
pub assume_specification[ loom::sync::atomic::AtomicU8::swap ](a: &loom::sync::atomic::AtomicU8, val: u8, order: Ordering) -> u8;

/// loom's `AtomicU8::compare_exchange` reads the cell once; it writes `new`
/// and returns `Ok` with the value read when that equals `current`, and returns
/// `Err` with the value read otherwise.
pub assume_specification[ loom::sync::atomic::AtomicU8::compare_exchange ](
    a: &loom::sync::atomic::AtomicU8,
    current: u8,
    new: u8,
    success: Ordering,
    failure: Ordering,
) -> (r: Result<u8, u8>)
    ensures
        match r {
            Ok(v) => v == current,
            Err(v) => v != current,
        },
;

/// loom's `AtomicU8::fetch_add` adds `val`, wrapping in one step and returns the previous value.
pub assume_specification[ loom::sync::atomic::AtomicU8::fetch_add ](a: &loom::sync::atomic::AtomicU8, val: u8, order: Ordering) -> u8;

/// loom's `AtomicU8::fetch_sub` subtracts `val`, wrapping in one step and returns the previous value.
pub assume_specification[ loom::sync::atomic::AtomicU8::fetch_sub ](a: &loom::sync::atomic::AtomicU8, val: u8, order: Ordering) -> u8;

/// loom's `AtomicU8::fetch_and` stores the bitwise and with `val` in one step and returns the previous value.
pub assume_specification[ loom::sync::atomic::AtomicU8::fetch_and ](a: &loom::sync::atomic::AtomicU8, val: u8, order: Ordering) -> u8;

/// loom's `AtomicU8::fetch_nand` stores the bitwise nand with `val` in one step and returns the previous value.
pub assume_specification[ loom::sync::atomic::AtomicU8::fetch_nand ](a: &loom::sync::atomic::AtomicU8, val: u8, order: Ordering) -> u8;

/// loom's `AtomicU8::fetch_or` stores the bitwise or with `val` in one step and returns the previous value.
pub assume_specification[ loom::sync::atomic::AtomicU8::fetch_or ](a: &loom::sync::atomic::AtomicU8, val: u8, order: Ordering) -> u8;

/// loom's `AtomicU8::fetch_xor` stores the bitwise xor with `val` in one step and returns the previous value.
pub assume_specification[ loom::sync::atomic::AtomicU8::fetch_xor ](a: &loom::sync::atomic::AtomicU8, val: u8, order: Ordering) -> u8;

/// loom's `AtomicU8::fetch_max` stores the larger of the value and `val` in one step and returns the previous value.
pub assume_specification[ loom::sync::atomic::AtomicU8::fetch_max ](a: &loom::sync::atomic::AtomicU8, val: u8, order: Ordering) -> u8;

/// loom's `AtomicU8::fetch_min` stores the smaller of the value and `val` in one step and returns the previous value.
pub assume_specification[ loom::sync::atomic::AtomicU8::fetch_min ](a: &loom::sync::atomic::AtomicU8, val: u8, order: Ordering) -> u8;

/// loom's `AtomicU16::new` registers a cell holding `v` with the model.
pub assume_specification[ loom::sync::atomic::AtomicU16::new ](v: u16) -> loom::sync::atomic::AtomicU16;

/// loom's `AtomicU16::load` reads the cell; which store it reads is the
/// model's choice, so nothing is promised of the value.
pub assume_specification[ loom::sync::atomic::AtomicU16::load ](a: &loom::sync::atomic::AtomicU16, order: Ordering) -> u16;

/// loom's `AtomicU16::store` writes `val` to the cell; it accepts every ordering.
pub assume_specification[ loom::sync::atomic::AtomicU16::store ](a: &loom::sync::atomic::AtomicU16, val: u16, order: Ordering);

/// loom's `AtomicU16::swap` writes `val` and returns the value it replaced.
pub assume_specification[ loom::sync::atomic::AtomicU16::swap ](a: &loom::sync::atomic::AtomicU16, val: u16, order: Ordering) -> u16;

/// loom's `AtomicU16::compare_exchange` reads the cell once; it writes `new`
/// and returns `Ok` with the value read when that equals `current`, and returns
/// `Err` with the value read otherwise.
pub assume_specification[ loom::sync::atomic::AtomicU16::compare_exchange ](
    a: &loom::sync::atomic::AtomicU16,
    current: u16,
    new: u16,
    success: Ordering,
    failure: Ordering,
) -> (r: Result<u16, u16>)
    ensures
        match r {
            Ok(v) => v == current,
            Err(v) => v != current,
        },
;

/// loom's `AtomicU16::fetch_add` adds `val`, wrapping in one step and returns the previous value.
pub assume_specification[ loom::sync::atomic::AtomicU16::fetch_add ](a: &loom::sync::atomic::AtomicU16, val: u16, order: Ordering) -> u16;

/// loom's `AtomicU16::fetch_sub` subtracts `val`, wrapping in one step and returns the previous value.
pub assume_specification[ loom::sync::atomic::AtomicU16::fetch_sub ](a: &loom::sync::atomic::AtomicU16, val: u16, order: Ordering) -> u16;

/// loom's `AtomicU16::fetch_and` stores the bitwise and with `val` in one step and returns the previous value.
pub assume_specification[ loom::sync::atomic::AtomicU16::fetch_and ](a: &loom::sync::atomic::AtomicU16, val: u16, order: Ordering) -> u16;

/// loom's `AtomicU16::fetch_nand` stores the bitwise nand with `val` in one step and returns the previous value.
pub assume_specification[ loom::sync::atomic::AtomicU16::fetch_nand ](a: &loom::sync::atomic::AtomicU16, val: u16, order: Ordering) -> u16;

/// loom's `AtomicU16::fetch_or` stores the bitwise or with `val` in one step and returns the previous value.
pub assume_specification[ loom::sync::atomic::AtomicU16::fetch_or ](a: &loom::sync::atomic::AtomicU16, val: u16, order: Ordering) -> u16;

/// loom's `AtomicU16::fetch_xor` stores the bitwise xor with `val` in one step and returns the previous value.
pub assume_specification[ loom::sync::atomic::AtomicU16::fetch_xor ](a: &loom::sync::atomic::AtomicU16, val: u16, order: Ordering) -> u16;

/// loom's `AtomicU16::fetch_max` stores the larger of the value and `val` in one step and returns the previous value.
pub assume_specification[ loom::sync::atomic::AtomicU16::fetch_max ](a: &loom::sync::atomic::AtomicU16, val: u16, order: Ordering) -> u16;

/// loom's `AtomicU16::fetch_min` stores the smaller of the value and `val` in one step and returns the previous value.
pub assume_specification[ loom::sync::atomic::AtomicU16::fetch_min ](a: &loom::sync::atomic::AtomicU16, val: u16, order: Ordering) -> u16;

/// loom's `AtomicU32::new` registers a cell holding `v` with the model.
pub assume_specification[ loom::sync::atomic::AtomicU32::new ](v: u32) -> loom::sync::atomic::AtomicU32;

/// loom's `AtomicU32::load` reads the cell; which store it reads is the
/// model's choice, so nothing is promised of the value.
pub assume_specification[ loom::sync::atomic::AtomicU32::load ](a: &loom::sync::atomic::AtomicU32, order: Ordering) -> u32;

/// loom's `AtomicU32::store` writes `val` to the cell; it accepts every ordering.
pub assume_specification[ loom::sync::atomic::AtomicU32::store ](a: &loom::sync::atomic::AtomicU32, val: u32, order: Ordering);

/// loom's `AtomicU32::swap` writes `val` and returns the value it replaced.
pub assume_specification[ loom::sync::atomic::AtomicU32::swap ](a: &loom::sync::atomic::AtomicU32, val: u32, order: Ordering) -> u32;

/// loom's `AtomicU32::compare_exchange` reads the cell once; it writes `new`
/// and returns `Ok` with the value read when that equals `current`, and returns
/// `Err` with the value read otherwise.
pub assume_specification[ loom::sync::atomic::AtomicU32::compare_exchange ](
    a: &loom::sync::atomic::AtomicU32,
    current: u32,
    new: u32,
    success: Ordering,
    failure: Ordering,
) -> (r: Result<u32, u32>)
    ensures
        match r {
            Ok(v) => v == current,
            Err(v) => v != current,
        },
;

/// loom's `AtomicU32::fetch_add` adds `val`, wrapping in one step and returns the previous value.
pub assume_specification[ loom::sync::atomic::AtomicU32::fetch_add ](a: &loom::sync::atomic::AtomicU32, val: u32, order: Ordering) -> u32;

/// loom's `AtomicU32::fetch_sub` subtracts `val`, wrapping in one step and returns the previous value.
pub assume_specification[ loom::sync::atomic::AtomicU32::fetch_sub ](a: &loom::sync::atomic::AtomicU32, val: u32, order: Ordering) -> u32;

/// loom's `AtomicU32::fetch_and` stores the bitwise and with `val` in one step and returns the previous value.
pub assume_specification[ loom::sync::atomic::AtomicU32::fetch_and ](a: &loom::sync::atomic::AtomicU32, val: u32, order: Ordering) -> u32;

/// loom's `AtomicU32::fetch_nand` stores the bitwise nand with `val` in one step and returns the previous value.
pub assume_specification[ loom::sync::atomic::AtomicU32::fetch_nand ](a: &loom::sync::atomic::AtomicU32, val: u32, order: Ordering) -> u32;

/// loom's `AtomicU32::fetch_or` stores the bitwise or with `val` in one step and returns the previous value.
pub assume_specification[ loom::sync::atomic::AtomicU32::fetch_or ](a: &loom::sync::atomic::AtomicU32, val: u32, order: Ordering) -> u32;

/// loom's `AtomicU32::fetch_xor` stores the bitwise xor with `val` in one step and returns the previous value.
pub assume_specification[ loom::sync::atomic::AtomicU32::fetch_xor ](a: &loom::sync::atomic::AtomicU32, val: u32, order: Ordering) -> u32;

/// loom's `AtomicU32::fetch_max` stores the larger of the value and `val` in one step and returns the previous value.
pub assume_specification[ loom::sync::atomic::AtomicU32::fetch_max ](a: &loom::sync::atomic::AtomicU32, val: u32, order: Ordering) -> u32;

/// loom's `AtomicU32::fetch_min` stores the smaller of the value and `val` in one step and returns the previous value.
pub assume_specification[ loom::sync::atomic::AtomicU32::fetch_min ](a: &loom::sync::atomic::AtomicU32, val: u32, order: Ordering) -> u32;

/// loom's `AtomicU64::new` registers a cell holding `v` with the model.
pub assume_specification[ loom::sync::atomic::AtomicU64::new ](v: u64) -> loom::sync::atomic::AtomicU64;

/// loom's `AtomicU64::load` reads the cell; which store it reads is the
/// model's choice, so nothing is promised of the value.
pub assume_specification[ loom::sync::atomic::AtomicU64::load ](a: &loom::sync::atomic::AtomicU64, order: Ordering) -> u64;

/// loom's `AtomicU64::store` writes `val` to the cell; it accepts every ordering.
pub assume_specification[ loom::sync::atomic::AtomicU64::store ](a: &loom::sync::atomic::AtomicU64, val: u64, order: Ordering);

/// loom's `AtomicU64::swap` writes `val` and returns the value it replaced.
pub assume_specification[ loom::sync::atomic::AtomicU64::swap ](a: &loom::sync::atomic::AtomicU64, val: u64, order: Ordering) -> u64;

/// loom's `AtomicU64::compare_exchange` reads the cell once; it writes `new`
/// and returns `Ok` with the value read when that equals `current`, and returns
/// `Err` with the value read otherwise.
pub assume_specification[ loom::sync::atomic::AtomicU64::compare_exchange ](
    a: &loom::sync::atomic::AtomicU64,
    current: u64,
    new: u64,
    success: Ordering,
    failure: Ordering,
) -> (r: Result<u64, u64>)
    ensures
        match r {
            Ok(v) => v == current,
            Err(v) => v != current,
        },
;

/// loom's `AtomicU64::fetch_add` adds `val`, wrapping in one step and returns the previous value.
pub assume_specification[ loom::sync::atomic::AtomicU64::fetch_add ](a: &loom::sync::atomic::AtomicU64, val: u64, order: Ordering) -> u64;

/// loom's `AtomicU64::fetch_sub` subtracts `val`, wrapping in one step and returns the previous value.
pub assume_specification[ loom::sync::atomic::AtomicU64::fetch_sub ](a: &loom::sync::atomic::AtomicU64, val: u64, order: Ordering) -> u64;

/// loom's `AtomicU64::fetch_and` stores the bitwise and with `val` in one step and returns the previous value.
pub assume_specification[ loom::sync::atomic::AtomicU64::fetch_and ](a: &loom::sync::atomic::AtomicU64, val: u64, order: Ordering) -> u64;

/// loom's `AtomicU64::fetch_nand` stores the bitwise nand with `val` in one step and returns the previous value.
pub assume_specification[ loom::sync::atomic::AtomicU64::fetch_nand ](a: &loom::sync::atomic::AtomicU64, val: u64, order: Ordering) -> u64;

/// loom's `AtomicU64::fetch_or` stores the bitwise or with `val` in one step and returns the previous value.
pub assume_specification[ loom::sync::atomic::AtomicU64::fetch_or ](a: &loom::sync::atomic::AtomicU64, val: u64, order: Ordering) -> u64;

/// loom's `AtomicU64::fetch_xor` stores the bitwise xor with `val` in one step and returns the previous value.
pub assume_specification[ loom::sync::atomic::AtomicU64::fetch_xor ](a: &loom::sync::atomic::AtomicU64, val: u64, order: Ordering) -> u64;

/// loom's `AtomicU64::fetch_max` stores the larger of the value and `val` in one step and returns the previous value.
pub assume_specification[ loom::sync::atomic::AtomicU64::fetch_max ](a: &loom::sync::atomic::AtomicU64, val: u64, order: Ordering) -> u64;

/// loom's `AtomicU64::fetch_min` stores the smaller of the value and `val` in one step and returns the previous value.
pub assume_specification[ loom::sync::atomic::AtomicU64::fetch_min ](a: &loom::sync::atomic::AtomicU64, val: u64, order: Ordering) -> u64;

/// loom's `thread::current`: a handle to the running model thread.
pub assume_specification[ loom::thread::current ]() -> Thread;

/// loom's `thread::park`: blocks the running model thread until its token is
/// made available by an `unpark`.
pub assume_specification[ loom::thread::park ]();

/// loom's `Thread::unpark`: makes the thread's token available.
pub assume_specification[ loom::thread::Thread::unpark ](t: &Thread);

/// loom's `thread::yield_now`: lets the model schedule another thread.
pub assume_specification[ loom::thread::yield_now ]();

/// loom's `atomic::spin_loop_hint`: a yield to the model's scheduler.
pub assume_specification[ loom::sync::atomic::spin_loop_hint ]();

/// loom's `atomic::fence`: a memory barrier; loom panics on a relaxed one.
pub assume_specification[ loom::sync::atomic::fence ](order: Ordering)
    requires
        order != Ordering::Relaxed,
;

/// loom's `Mutex::new` builds an unlocked mutex around `data`.
pub assume_specification<T>[ Mutex::<T>::new ](data: T) -> Mutex<T>;

/// Relies on loom's `Mutex::lock`, which blocks the model thread until the
/// lock is free and never reports poisoning (it always returns `Ok`).
#[verifier::external_body]
pub(crate) fn lock<T>(m: &Mutex<T>) -> MutexGuard<'_, T> {
    m.lock().unwrap()
}

/// Relies on loom's `DerefMut` for `MutexGuard`: the data the held lock guards.
#[verifier::external_body]
pub(crate) fn guarded<'a, 'b, T>(g: &'a mut MutexGuard<'b, T>) -> &'a mut T {
    &mut *g
}

} // verus!
