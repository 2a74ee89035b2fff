use syncprims::mutex::Mutex;
use syncprims::rwlock::read_pair;
use syncprims::rwlock::RwLock;
use syncprims::spin::SpinLock;

#[test]
fn spin_lock_guards_value() {
    let lock = SpinLock::new(1u64);
    let mut g = lock.lock();
    assert_eq!(*g.get(), 1);
    g.set(2);
    assert_eq!(*g.get(), 2);
    g.unlock();
    let g2 = lock.lock();
    assert_eq!(*g2.get(), 2);
    g2.unlock();
}

#[test]
fn mutex_guards_value() {
    let lock = Mutex::new(String::from("a"));
    let mut g = lock.lock();
    assert_eq!(g.get(), "a");
    g.set(String::from("ab"));
    g.unlock();
    let g2 = lock.lock();
    assert_eq!(g2.get(), "ab");
    g2.unlock();
}

#[test]
fn mutex_counter_sequential() {
    let lock = Mutex::new(0u64);
    for _ in 0..100_000 {
        let mut g = lock.lock();
        let v = *g.get();
        g.set(v + 1);
        g.unlock();
    }
    let g = lock.lock();
    assert_eq!(*g.get(), 100_000);
    g.unlock();
}

#[test]
fn rwlock_two_readers_coexist_and_agree() {
    let lock = RwLock::new(7u32);
    let (r0, r1) = read_pair(&lock);
    // Both read guards are alive here at the same time.
    assert_eq!(*r0.get(), 7);
    assert_eq!(*r1.get(), 7);
    r0.unlock();
    r1.unlock();
}

#[test]
fn rwlock_writer_updates_then_readers_see_it() {
    let lock = RwLock::new(7u32);
    let mut w = lock.write();
    assert_eq!(*w.get(), 7);
    w.set(9);
    w.unlock();
    let r = lock.read();
    assert_eq!(*r.get(), 9);
    r.unlock();
}
