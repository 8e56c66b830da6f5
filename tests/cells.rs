use loom::sync::Arc;
use loom_ffi::{
    loom_atomic_compare_and_exchange, loom_atomic_destroy, loom_atomic_fetch_add,
    loom_atomic_fetch_and, loom_atomic_fetch_max, loom_atomic_fetch_min, loom_atomic_fetch_nand,
    loom_atomic_fetch_or, loom_atomic_fetch_sub, loom_atomic_fetch_xor, loom_atomic_init,
    loom_atomic_load, loom_atomic_notify_all, loom_atomic_notify_bounded, loom_atomic_notify_one,
    loom_atomic_store, loom_atomic_swap, loom_atomic_wait, loom_fence, loom_spin_loop_hint,
    loom_yield_now, AtomicCell, MemoryOrder, SizeType, WaitOutcome,
};

const SC: MemoryOrder = MemoryOrder::SeqCst;

fn widths() -> [SizeType; 4] {
    [SizeType::AtomicU8, SizeType::AtomicU16, SizeType::AtomicU32, SizeType::AtomicU64]
}

#[test]
fn init_then_load_returns_initial_value() {
    loom::model(|| {
        for ty in widths() {
            for v in [0u64, 1, 0x7f, ty.max_value()] {
                let cell = loom_atomic_init(v, ty);
                assert_eq!(cell.size_type(), ty);
                assert_eq!(loom_atomic_load(&cell, ty, SC), v);
                loom_atomic_destroy(cell, ty);
            }
        }
    });
}

#[test]
fn store_then_load() {
    loom::model(|| {
        for ty in widths() {
            let cell = loom_atomic_init(0, ty);
            loom_atomic_store(&cell, ty.max_value(), ty, MemoryOrder::Release);
            assert_eq!(loom_atomic_load(&cell, ty, MemoryOrder::Acquire), ty.max_value());
        }
    });
}

#[test]
fn fetch_add_and_sub_wrap_at_the_width() {
    loom::model(|| {
        let ty = SizeType::AtomicU8;
        let cell = loom_atomic_init(250, ty);
        assert_eq!(loom_atomic_fetch_add(&cell, 10, ty, SC), 250);
        assert_eq!(loom_atomic_load(&cell, ty, SC), 4);
        assert_eq!(loom_atomic_fetch_sub(&cell, 5, ty, SC), 4);
        assert_eq!(loom_atomic_load(&cell, ty, SC), 255);

        let ty = SizeType::AtomicU16;
        let cell = loom_atomic_init(0xffff, ty);
        assert_eq!(loom_atomic_fetch_add(&cell, 1, ty, MemoryOrder::Relaxed), 0xffff);
        assert_eq!(loom_atomic_load(&cell, ty, SC), 0);

        let ty = SizeType::AtomicU32;
        let cell = loom_atomic_init(0, ty);
        assert_eq!(loom_atomic_fetch_sub(&cell, 1, ty, MemoryOrder::AcqRel), 0);
        assert_eq!(loom_atomic_load(&cell, ty, SC), 0xffff_ffff);

        let ty = SizeType::AtomicU64;
        let cell = loom_atomic_init(u64::MAX, ty);
        assert_eq!(loom_atomic_fetch_add(&cell, 2, ty, SC), u64::MAX);
        assert_eq!(loom_atomic_load(&cell, ty, SC), 1);
    });
}

#[test]
fn bitwise_fetch_operations() {
    loom::model(|| {
        let ty = SizeType::AtomicU8;
        let cell = loom_atomic_init(0b1100_1010, ty);
        assert_eq!(loom_atomic_fetch_and(&cell, 0b1010_0110, ty, SC), 0b1100_1010);
        assert_eq!(loom_atomic_load(&cell, ty, SC), 0b1000_0010);
        assert_eq!(loom_atomic_fetch_or(&cell, 0b0001_0001, ty, SC), 0b1000_0010);
        assert_eq!(loom_atomic_load(&cell, ty, SC), 0b1001_0011);
        assert_eq!(loom_atomic_fetch_xor(&cell, 0b1111_0000, ty, SC), 0b1001_0011);
        assert_eq!(loom_atomic_load(&cell, ty, SC), 0b0110_0011);
        assert_eq!(loom_atomic_fetch_nand(&cell, 0b0010_0001, ty, SC), 0b0110_0011);
        assert_eq!(loom_atomic_load(&cell, ty, SC), 0b1101_1110);

        let ty = SizeType::AtomicU32;
        let cell = loom_atomic_init(0xffff_0000, ty);
        assert_eq!(loom_atomic_fetch_nand(&cell, 0xffff_ffff, ty, SC), 0xffff_0000);
        assert_eq!(loom_atomic_load(&cell, ty, SC), 0x0000_ffff);
    });
}

#[test]
fn max_and_min_use_unsigned_order() {
    loom::model(|| {
        let ty = SizeType::AtomicU16;
        let cell = loom_atomic_init(100, ty);
        assert_eq!(loom_atomic_fetch_max(&cell, 0x8000, ty, SC), 100);
        assert_eq!(loom_atomic_load(&cell, ty, SC), 0x8000);
        assert_eq!(loom_atomic_fetch_max(&cell, 5, ty, SC), 0x8000);
        assert_eq!(loom_atomic_load(&cell, ty, SC), 0x8000);
        assert_eq!(loom_atomic_fetch_min(&cell, 7, ty, SC), 0x8000);
        assert_eq!(loom_atomic_load(&cell, ty, SC), 7);
        assert_eq!(loom_atomic_fetch_min(&cell, 0xffff, ty, SC), 7);
        assert_eq!(loom_atomic_load(&cell, ty, SC), 7);

        let ty = SizeType::AtomicU64;
        let cell = loom_atomic_init(1, ty);
        assert_eq!(loom_atomic_fetch_max(&cell, u64::MAX, ty, SC), 1);
        assert_eq!(loom_atomic_load(&cell, ty, SC), u64::MAX);
    });
}

#[test]
fn swap_returns_previous_through_slot() {
    loom::model(|| {
        for ty in widths() {
            let cell = loom_atomic_init(3, ty);
            let mut slot = 9u64;
            loom_atomic_swap(&cell, &mut slot, ty, SC);
            assert_eq!(slot, 3);
            assert_eq!(loom_atomic_load(&cell, ty, SC), 9);
        }
    });
}

#[test]
fn compare_and_exchange_success() {
    loom::model(|| {
        for ty in widths() {
            let cell = loom_atomic_init(5, ty);
            let mut expected = 5u64;
            assert!(loom_atomic_compare_and_exchange(
                &cell,
                &mut expected,
                6,
                ty,
                MemoryOrder::AcqRel,
                MemoryOrder::Acquire
            ));
            assert_eq!(expected, 5);
            assert_eq!(loom_atomic_load(&cell, ty, SC), 6);
        }
    });
}

#[test]
fn compare_and_exchange_failure_reports_actual() {
    loom::model(|| {
        for ty in widths() {
            let cell = loom_atomic_init(5, ty);
            let mut expected = 4u64;
            assert!(!loom_atomic_compare_and_exchange(
                &cell,
                &mut expected,
                6,
                ty,
                SC,
                MemoryOrder::Relaxed
            ));
            assert_eq!(expected, 5);
            assert_eq!(loom_atomic_load(&cell, ty, SC), 5);
        }
    });
}

#[test]
fn concurrent_compare_and_exchange_has_one_winner() {
    loom::model(|| {
        let ty = SizeType::AtomicU32;
        let cell = Arc::new(loom_atomic_init(0, ty));
        let other = cell.clone();
        let h = loom::thread::spawn(move || {
            let mut expected = 0u64;
            let won = loom_atomic_compare_and_exchange(&other, &mut expected, 1, ty, SC, SC);
            (won, expected)
        });
        let mut expected = 0u64;
        let won = loom_atomic_compare_and_exchange(&cell, &mut expected, 2, ty, SC, SC);
        let (other_won, other_expected) = h.join().unwrap();
        assert!(won != other_won);
        let last = loom_atomic_load(&cell, ty, SC);
        if won {
            assert_eq!(last, 2);
            assert_eq!(other_expected, 2);
        } else {
            assert_eq!(last, 1);
            assert_eq!(expected, 1);
        }
    });
}

#[test]
fn concurrent_fetch_add_is_linearizable() {
    loom::model(|| {
        let ty = SizeType::AtomicU16;
        let cell = Arc::new(loom_atomic_init(0, ty));
        let handles: Vec<_> = (0..2)
            .map(|_| {
                let c = cell.clone();
                loom::thread::spawn(move || loom_atomic_fetch_add(&c, 1, ty, MemoryOrder::Relaxed))
            })
            .collect();
        let mine = loom_atomic_fetch_add(&cell, 1, ty, MemoryOrder::Relaxed);
        let mut seen = vec![mine];
        for h in handles {
            seen.push(h.join().unwrap());
        }
        seen.sort();
        assert_eq!(seen, vec![0, 1, 2]);
        assert_eq!(loom_atomic_load(&cell, ty, SC), 3);
    });
}

#[test]
fn wait_returns_at_once_when_value_differs() {
    loom::model(|| {
        let ty = SizeType::AtomicU32;
        let cell = loom_atomic_init(5, ty);
        assert_eq!(loom_atomic_wait(&cell, 0, ty), WaitOutcome::Changed(5));
        assert_eq!(loom_atomic_notify_all(&cell, ty), 0);
    });
}

#[test]
fn notify_without_waiters_is_a_no_op() {
    loom::model(|| {
        for ty in widths() {
            let cell = loom_atomic_init(0, ty);
            assert!(!loom_atomic_notify_one(&cell, ty));
            assert_eq!(loom_atomic_notify_all(&cell, ty), 0);
            assert_eq!(loom_atomic_notify_bounded(&cell, ty, 4), 0);
        }
    });
}

#[test]
fn waiter_is_never_missed() {
    loom::model(|| {
        let ty = SizeType::AtomicU8;
        let cell = Arc::new(loom_atomic_init(0, ty));
        let waiter = cell.clone();
        let a = loom::thread::spawn(move || loom_atomic_wait(&waiter, 0, ty));
        loom_atomic_store(&cell, 1, ty, SC);
        loom_atomic_notify_one(&cell, ty);
        let outcome = a.join().unwrap();
        assert!(outcome == WaitOutcome::Woken || outcome == WaitOutcome::Changed(1));
    });
}

#[test]
fn bounded_notify_wakes_at_most_limit() {
    loom::model(|| {
        let ty = SizeType::AtomicU64;
        let cell = Arc::new(loom_atomic_init(0, ty));
        let handles: Vec<_> = (0..2)
            .map(|_| {
                let c = cell.clone();
                loom::thread::spawn(move || loom_atomic_wait(&c, 0, ty))
            })
            .collect();
        loom_atomic_store(&cell, 1, ty, SC);
        let first = loom_atomic_notify_bounded(&cell, ty, 1);
        assert!(first <= 1);
        let rest = loom_atomic_notify_all(&cell, ty);
        let mut woken = 0;
        for h in handles {
            if h.join().unwrap() == WaitOutcome::Woken {
                woken += 1;
            }
        }
        assert_eq!(first + rest, woken);
    });
}

#[test]
fn release_acquire_message_passing() {
    loom::model(|| {
        let ty = SizeType::AtomicU32;
        let data = Arc::new(loom_atomic_init(0, ty));
        let flag = Arc::new(loom_atomic_init(0, ty));
        let (d, f) = (data.clone(), flag.clone());
        let reader = loom::thread::spawn(move || {
            while loom_atomic_load(&f, ty, MemoryOrder::Acquire) != 1 {
                loom_yield_now();
            }
            loom_atomic_load(&d, ty, MemoryOrder::Relaxed)
        });
        loom_atomic_store(&data, 1, ty, MemoryOrder::Relaxed);
        loom_atomic_store(&flag, 1, ty, MemoryOrder::Release);
        assert_eq!(reader.join().unwrap(), 1);
    });
}

#[test]
fn fences_order_relaxed_accesses() {
    loom::model(|| {
        let ty = SizeType::AtomicU16;
        let data = Arc::new(loom_atomic_init(0, ty));
        let flag = Arc::new(loom_atomic_init(0, ty));
        let (d, f) = (data.clone(), flag.clone());
        let reader = loom::thread::spawn(move || {
            while loom_atomic_load(&f, ty, MemoryOrder::Relaxed) != 1 {
                loom_spin_loop_hint();
            }
            loom_fence(MemoryOrder::Acquire);
            loom_atomic_load(&d, ty, MemoryOrder::Relaxed)
        });
        loom_atomic_store(&data, 7, ty, MemoryOrder::Relaxed);
        loom_fence(MemoryOrder::Release);
        loom_atomic_store(&flag, 1, ty, MemoryOrder::Relaxed);
        assert_eq!(reader.join().unwrap(), 7);
    });
}

#[test]
fn cell_handle_reports_its_width() {
    loom::model(|| {
        let cell = AtomicCell::new(1, SizeType::AtomicU16);
        assert_eq!(cell.size_type(), SizeType::AtomicU16);
    });
}
