use retry_notify::duration::Duration;
use retry_notify::notify::{notify_seq, AsyncNotify, Deferred, Notify, NotifyFn, SyncNotify};
use retry_notify::record::{AsyncRecorder, Recorder, Step};

type TestNotifier = NotifyFn<Recorder<u32>, AsyncRecorder<u32>>;

#[test]
fn sync_mode_invokes_callable_once_per_call() {
    let mut n: TestNotifier = NotifyFn::from_sync(Recorder::new());
    n.notify(&10, Duration::from_secs(1));
    n.notify(&20, Duration::from_secs(2));
    match n {
        NotifyFn::Sync(rec) => {
            assert_eq!(rec.count(), 2);
            assert_eq!(rec.duration_at(0), Duration::from_secs(1));
            assert_eq!(rec.duration_at(1), Duration::from_secs(2));
        }
        NotifyFn::Async(_) => panic!("a notifier built from a synchronous callable"),
    }
}

#[test]
fn async_mode_invokes_callable_once_per_call() {
    let mut n: TestNotifier = NotifyFn::from_async(AsyncRecorder::new());
    n.notify(&10, Duration::from_millis(250));
    n.notify(&20, Duration::from_millis(750));
    match n {
        NotifyFn::Async(rec) => {
            assert_eq!(rec.count(), 2);
            assert_eq!(rec.duration_at(0), Duration::from_millis(250));
            assert_eq!(rec.duration_at(1), Duration::from_millis(750));
        }
        NotifyFn::Sync(_) => panic!("a notifier built from an asynchronous callable"),
    }
}

#[test]
fn constructors_pick_the_mode() {
    let s: TestNotifier = NotifyFn::from_sync(Recorder::new());
    assert!(matches!(s, NotifyFn::Sync(_)));
    let a: TestNotifier = NotifyFn::from_async(AsyncRecorder::new());
    assert!(matches!(a, NotifyFn::Async(_)));
}

#[test]
fn three_sequential_calls_count_and_keep_order() {
    // A synchronous counter-incrementing callable, three sequential calls
    // with distinct errors and durations 1s, 2s, 4s.
    let mut n: TestNotifier = NotifyFn::from_sync(Recorder::new());
    n.notify(&1, Duration::from_secs(1));
    n.notify(&2, Duration::from_secs(2));
    n.notify(&3, Duration::from_secs(4));
    match n {
        NotifyFn::Sync(rec) => {
            assert_eq!(rec.count(), 3);
            assert_eq!(rec.duration_at(0).secs, 1);
            assert_eq!(rec.duration_at(1).secs, 2);
            assert_eq!(rec.duration_at(2).secs, 4);
        }
        NotifyFn::Async(_) => panic!("a notifier built from a synchronous callable"),
    }
}

#[test]
fn modes_observe_identical_effects() {
    let errs: [u32; 3] = [7, 8, 9];
    let durs = [
        Duration::from_millis(100),
        Duration::from_millis(200),
        Duration::from_millis(400),
    ];

    let mut s: TestNotifier = NotifyFn::from_sync(Recorder::new());
    let mut a: TestNotifier = NotifyFn::from_async(AsyncRecorder::new());
    for i in 0..3 {
        s.notify(&errs[i], durs[i]);
        a.notify(&errs[i], durs[i]);
    }

    let sync_rec = match s {
        NotifyFn::Sync(rec) => rec,
        NotifyFn::Async(_) => panic!("a notifier built from a synchronous callable"),
    };
    let async_rec = match a {
        NotifyFn::Async(rec) => rec,
        NotifyFn::Sync(_) => panic!("a notifier built from an asynchronous callable"),
    };
    assert_eq!(sync_rec.count(), async_rec.count());
    for i in 0..3 {
        assert_eq!(sync_rec.duration_at(i), async_rec.duration_at(i));
    }
}

#[test]
fn sequential_driver_counts_every_call() {
    let errs: Vec<u32> = vec![1, 2, 3, 4, 5];
    let durs: Vec<Duration> = vec![
        Duration::from_millis(10),
        Duration::from_millis(20),
        Duration::from_millis(40),
        Duration::from_millis(80),
        Duration::from_millis(160),
    ];
    let mut n: TestNotifier = NotifyFn::from_sync(Recorder::new());
    notify_seq(&mut n, &errs, &durs);
    match n {
        NotifyFn::Sync(rec) => {
            assert_eq!(rec.count(), 5);
            for i in 0..5 {
                assert_eq!(rec.duration_at(i), durs[i]);
            }
        }
        NotifyFn::Async(_) => panic!("a notifier built from a synchronous callable"),
    }
}

#[test]
fn callable_called_directly_records_the_same() {
    let mut rec: Recorder<u32> = Recorder::new();
    rec.call(&5, Duration::from_secs(3));
    assert_eq!(rec.count(), 1);
    assert_eq!(rec.duration_at(0), Duration::from_secs(3));
}

#[test]
fn deferred_step_completes_only_when_driven() {
    let mut rec: AsyncRecorder<u32> = AsyncRecorder::new();
    let mut fut: Step = rec.call(&5, Duration::from_secs(3));
    // The callable has been invoked, but the deferred work is still pending.
    assert_eq!(rec.count(), 1);
    assert!(!fut.is_done());
    fut.run();
    assert!(fut.is_done());
}

#[test]
fn empty_driver_issues_no_notification() {
    let errs: Vec<u32> = vec![];
    let durs: Vec<Duration> = vec![];
    let mut n: TestNotifier = NotifyFn::from_sync(Recorder::new());
    notify_seq(&mut n, &errs, &durs);
    match n {
        NotifyFn::Sync(rec) => assert_eq!(rec.count(), 0),
        NotifyFn::Async(_) => panic!("a notifier built from a synchronous callable"),
    }
}
