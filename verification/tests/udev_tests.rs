use udev::AsRaw;
use udev::Context;
use udev::FromRaw;
use udev::RefCount;
use udev::Udev;

#[test]
fn clone_drop() {
    // Exercise clone and drop a thousand times over, against the model of
    // the native reference count: the count stays balanced, no step frees
    // the object, and every handle reads the same address.
    let mut udev = Udev::from_raw(0x1000);
    let mut count = RefCount { count: 1 };

    for _ in 0..1000 {
        let clone = udev.clone();
        count.acquire();

        assert_eq!(udev.as_raw(), clone.as_raw());

        // Dropping what is in `udev` releases its reference and transfers
        // ownership from `clone` to `udev`.
        let freed = count.release();
        assert!(!freed);
        udev = clone;
    }
    assert_eq!(count.count, 1);
    assert_eq!(udev.as_raw(), 0x1000);
}

#[test]
fn udev_round_trip_to_raw_pointers() {
    // Make sure this can be made into a raw address, then back to a handle,
    // and still works.
    let udev = Udev::from_raw(0x2000);
    let mut count = RefCount { count: 1 };

    // Converting into the raw address takes one extra reference, because
    // the consumed handle's own teardown still releases one.
    count.acquire();
    let ptr = udev.into_raw();
    let freed = count.release();
    assert!(!freed);

    let udev = Udev::from_raw(ptr);
    assert_eq!(ptr, udev.as_raw());

    // The rebuilt handle's eventual drop is the one that frees.
    let freed = count.release();
    assert!(freed);
}

#[test]
fn context_handles_behave_like_udev_handles() {
    let c = Context::from_raw(0x3000);
    let d = c.clone();
    assert_eq!(c.as_raw(), d.as_raw());
    let ptr = d.into_raw();
    let d = Context::from_raw(ptr);
    assert_eq!(d.as_raw(), c.as_raw());
}

#[test]
fn release_frees_exactly_at_zero() {
    let mut count = RefCount { count: 2 };
    assert!(!count.release());
    assert!(count.release());
    assert_eq!(count.count, 0);
}
