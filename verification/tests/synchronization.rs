use my_os::synchronization::interface::Mutex;
use my_os::synchronization::SpinLock;

#[test]
fn the_lock_hands_its_value_to_the_closure_and_keeps_what_it_leaves() {
    let mut lock = SpinLock::new(5u64);
    let seen = lock.lock(|value| {
        let seen = *value;
        *value += 1;
        seen
    });
    assert_eq!(seen, 5);
    assert_eq!(lock.lock(|value| *value), 6);
    assert_eq!(lock.into_inner(), 6);
}

#[test]
fn the_lock_returns_what_the_closure_returns() {
    let mut lock = SpinLock::new(vec![1u8, 2, 3]);
    let len = lock.lock(|items| {
        items.push(4);
        items.len()
    });
    assert_eq!(len, 4);
    assert_eq!(lock.into_inner(), vec![1, 2, 3, 4]);
}
