use std::sync::atomic::{AtomicUsize, Ordering};
use std::sync::Arc;
use std::task::Waker;

use futures::task::{noop_waker, waker, ArcWake};
use turbo_tasks_bytes::{Producer, ReadStep, Stream, StreamError, StreamRead, StreamState};

struct CountingWake(AtomicUsize);

impl ArcWake for CountingWake {
    fn wake_by_ref(arc_self: &Arc<Self>) {
        arc_self.0.fetch_add(1, Ordering::SeqCst);
    }
}

fn counting_waker() -> (Arc<CountingWake>, Waker) {
    let counter = Arc::new(CountingWake(AtomicUsize::new(0)));
    let w = waker(counter.clone());
    (counter, w)
}

fn poll<T: Clone>(reader: &mut StreamRead<T>) -> ReadStep<T> {
    reader.poll_next(&noop_waker()).ok().expect("lock is not poisoned")
}

fn drain<T: Clone>(reader: &mut StreamRead<T>) -> Vec<T> {
    let mut out = Vec::new();
    loop {
        match poll(reader) {
            ReadStep::Ready(v) => out.push(v),
            ReadStep::Done => return out,
            ReadStep::Pending => panic!("a frozen store never suspends"),
            ReadStep::Failed(e) => panic!("unexpected failure {}", e),
        }
    }
}

/// Yields its values in order, counting every pull.
struct ListProducer {
    items: Vec<String>,
    next: usize,
    pulls: Arc<AtomicUsize>,
    pending_first: bool,
    fail_first: bool,
}

impl Producer<String> for ListProducer {
    fn pull(&mut self, waker: &Waker) -> ReadStep<String> {
        self.pulls.fetch_add(1, Ordering::SeqCst);
        if self.fail_first {
            self.fail_first = false;
            return ReadStep::Failed("source broke".to_string());
        }
        if self.pending_first {
            self.pending_first = false;
            waker.wake_by_ref();
            return ReadStep::Pending;
        }
        if self.next < self.items.len() {
            self.next += 1;
            ReadStep::Ready(self.items[self.next - 1].clone())
        } else {
            ReadStep::Done
        }
    }
}

fn lazy_stream(items: &[&str], pending_first: bool) -> (Stream<String>, Arc<AtomicUsize>) {
    lazy_stream_with(items, pending_first, false)
}

fn lazy_stream_with(
    items: &[&str],
    pending_first: bool,
    fail_first: bool,
) -> (Stream<String>, Arc<AtomicUsize>) {
    let pulls = Arc::new(AtomicUsize::new(0));
    let producer = ListProducer {
        items: items.iter().map(|s| s.to_string()).collect(),
        next: 0,
        pulls: pulls.clone(),
        pending_first,
        fail_first,
    };
    (Stream::from_stream(Box::new(producer)), pulls)
}

#[test]
fn replay_after_freeze_gives_every_value_once() {
    let stream = Stream::new_open(vec![]);
    let mut early = stream.read();
    let writer = stream.write();
    for v in [1u32, 2, 3, 4] {
        assert_eq!(writer.push(v), Ok(()));
    }
    assert_eq!(writer.close(None), Ok(()));
    let mut late = stream.read();
    assert_eq!(drain(&mut early), vec![1, 2, 3, 4]);
    assert_eq!(drain(&mut late), vec![1, 2, 3, 4]);
}

#[test]
fn reader_part_way_before_freeze_continues_after() {
    let stream = Stream::new_open(vec![7u8]);
    let mut reader = stream.read();
    assert_eq!(poll(&mut reader), ReadStep::Ready(7));
    assert_eq!(poll(&mut reader), ReadStep::Pending);
    let writer = stream.write();
    writer.push(8).unwrap();
    writer.close(Some(9)).unwrap();
    assert_eq!(drain(&mut reader), vec![8, 9]);
}

#[test]
fn interleaved_readers_see_one_order() {
    let stream = Stream::new_open(vec![]);
    let writer = stream.write();
    let mut a = stream.read();
    let mut b = stream.read();
    let mut seen_a = Vec::new();
    let mut seen_b = Vec::new();
    for v in 0..5u64 {
        writer.push(v * 10).unwrap();
        if let ReadStep::Ready(x) = poll(&mut a) {
            seen_a.push(x);
        }
        if v % 2 == 1 {
            while let ReadStep::Ready(x) = poll(&mut b) {
                seen_b.push(x);
            }
        }
    }
    writer.close(None).unwrap();
    seen_a.extend(drain(&mut a));
    seen_b.extend(drain(&mut b));
    assert_eq!(seen_a, vec![0, 10, 20, 30, 40]);
    assert_eq!(seen_b, vec![0, 10, 20, 30, 40]);
}

#[test]
fn end_of_sequence_is_sticky() {
    let stream = Stream::new_closed(vec![5i32]);
    let mut reader = stream.read();
    assert_eq!(poll(&mut reader), ReadStep::Ready(5));
    assert_eq!(poll(&mut reader), ReadStep::Done);
    assert_eq!(poll(&mut reader), ReadStep::Done);
    assert_eq!(poll(&mut reader), ReadStep::Done);
    assert_eq!(reader.index(), 1);
}

#[test]
fn empty_closed_store_ends_at_once() {
    let stream: Stream<u8> = Stream::new_closed(vec![]);
    let mut reader = stream.read();
    assert_eq!(poll(&mut reader), ReadStep::Done);
    assert_eq!(reader.index(), 0);
}

#[test]
fn close_with_final_equals_push_then_close() {
    let at_once = Stream::new_open(vec![1u16, 2]);
    at_once.write().close(Some(3)).unwrap();
    let stepwise = Stream::new_open(vec![1u16, 2]);
    stepwise.write().push(3).unwrap();
    stepwise.write().close(None).unwrap();
    assert_eq!(at_once.equals(&stepwise), Ok(true));
    assert_eq!(drain(&mut at_once.read()), vec![1, 2, 3]);
}

#[test]
fn closed_round_trip_through_persisted_form() {
    let original = Stream::new_closed(vec![1i64, 2, 3]);
    let data = {
        let writer = original.write();
        let guard = writer.lock().ok().expect("lock");
        guard.persisted().cloned()
    };
    assert_eq!(data, Some(vec![1, 2, 3]));
    let decoded = Stream::new_closed(data.unwrap());
    assert_eq!(original.equals(&decoded), Ok(true));
}

#[test]
fn open_store_has_no_persisted_form() {
    let open: Stream<i64> = Stream::new_open(vec![1]);
    assert!(open.write().lock().ok().expect("lock").persisted().is_none());
    let (lazy, _) = lazy_stream(&["a"], false);
    assert!(lazy.write().lock().ok().expect("lock").persisted().is_none());
}

#[test]
fn lazy_producer_delivers_each_value_once() {
    let (stream, pulls) = lazy_stream(&["x", "y"], false);
    let mut first = stream.read();
    assert_eq!(poll(&mut first), ReadStep::Ready("x".to_string()));
    assert_eq!(poll(&mut first), ReadStep::Ready("y".to_string()));
    assert_eq!(poll(&mut first), ReadStep::Done);
    assert_eq!(pulls.load(Ordering::SeqCst), 3);
    let mut second = stream.read();
    assert_eq!(drain(&mut second), vec!["x".to_string(), "y".to_string()]);
    assert_eq!(pulls.load(Ordering::SeqCst), 3);
    assert!(stream.write().lock().ok().expect("lock").persisted().is_some());
}

#[test]
fn lazy_producer_not_ready_caches_nothing() {
    let (stream, pulls) = lazy_stream(&["z"], true);
    let (woken, w) = counting_waker();
    let mut reader = stream.read();
    assert_eq!(reader.poll_next(&w), Ok(ReadStep::Pending));
    assert_eq!(woken.0.load(Ordering::SeqCst), 1);
    assert_eq!(reader.index(), 0);
    assert_eq!(reader.poll_next(&w), Ok(ReadStep::Ready("z".to_string())));
    assert_eq!(reader.poll_next(&w), Ok(ReadStep::Done));
    assert_eq!(pulls.load(Ordering::SeqCst), 3);
}

#[test]
fn suspended_reader_is_woken_by_append() {
    let stream = Stream::new_open(vec![]);
    let (woken, w) = counting_waker();
    let mut reader = stream.read();
    assert_eq!(reader.poll_next(&w), Ok(ReadStep::Pending));
    assert_eq!(woken.0.load(Ordering::SeqCst), 0);
    stream.write().push(10u32).unwrap();
    assert_eq!(woken.0.load(Ordering::SeqCst), 1);
    assert_eq!(reader.poll_next(&w), Ok(ReadStep::Ready(10)));
    assert_eq!(reader.index(), 1);
}

#[test]
fn suspended_readers_are_woken_by_freeze() {
    let stream: Stream<u32> = Stream::new_open(vec![]);
    let (woken, w) = counting_waker();
    let mut a = stream.read();
    let mut b = stream.read();
    assert_eq!(a.poll_next(&w), Ok(ReadStep::Pending));
    assert_eq!(b.poll_next(&w), Ok(ReadStep::Pending));
    stream.write().close(None).unwrap();
    assert_eq!(woken.0.load(Ordering::SeqCst), 2);
    assert_eq!(a.poll_next(&w), Ok(ReadStep::Done));
}

#[test]
fn writing_a_frozen_store_is_refused() {
    let stream = Stream::new_closed(vec![1u8]);
    assert_eq!(stream.write().push(2), Err(StreamError::NotWritable));
    assert_eq!(stream.write().close(Some(2)), Err(StreamError::NotWritable));
    assert_eq!(drain(&mut stream.read()), vec![1]);
}

#[test]
fn writing_a_lazy_store_is_refused() {
    let (stream, _) = lazy_stream(&[], false);
    assert_eq!(stream.write().push("q".to_string()), Err(StreamError::NotWritable));
}

#[test]
fn equality_by_identity_or_frozen_values() {
    let open = Stream::new_open(vec![1u8]);
    let same = open.clone();
    assert_eq!(open.equals(&same), Ok(true));
    let other_open = Stream::new_open(vec![1u8]);
    assert_eq!(open.equals(&other_open), Ok(false));
    let a = Stream::new_closed(vec![1u8, 2]);
    let b = Stream::new_closed(vec![1u8, 2]);
    let c = Stream::new_closed(vec![1u8, 3]);
    let d = Stream::new_closed(vec![1u8]);
    assert_eq!(a.equals(&b), Ok(true));
    assert_eq!(a.equals(&c), Ok(false));
    assert_eq!(a.equals(&d), Ok(false));
    assert_eq!(a.equals(&open), Ok(false));
}

#[test]
fn state_machine_direct_use() {
    let mut state: StreamState<u8> = StreamState::default();
    assert_eq!(state.try_push(4), Ok(()));
    let w = noop_waker();
    assert_eq!(state.read_at(0, &w), ReadStep::Ready(4));
    assert_eq!(state.read_at(1, &w), ReadStep::Pending);
    state.push(5);
    assert_eq!(state.try_close(Some(6)), Ok(()));
    assert_eq!(state.try_close(None), Err(StreamError::NotWritable));
    assert_eq!(state.persisted(), Some(&vec![4, 5, 6]));
    assert_eq!(state.read_at(3, &w), ReadStep::Done);
    let other = StreamState::Closed { data: vec![4u8, 5, 6] };
    assert!(state.content_eq(&other));
    assert!(!StreamState::<u8>::default().content_eq(&StreamState::default()));
}

#[test]
fn poll_locked_moves_cursor_only_on_delivery() {
    let stream = Stream::new_open(vec![3u8]);
    let mut reader = stream.read();
    let mut state = StreamState::Closed { data: vec![3u8] };
    let w = noop_waker();
    assert_eq!(reader.poll_locked(&mut state, &w), ReadStep::Ready(3));
    assert_eq!(reader.index(), 1);
    assert_eq!(reader.poll_locked(&mut state, &w), ReadStep::Done);
    assert_eq!(reader.index(), 1);
}

#[test]
fn producer_failure_reaches_the_reader_and_keeps_the_store_open() {
    let (stream, pulls) = lazy_stream_with(&["a", "b"], false, true);
    let mut reader = stream.read();
    assert_eq!(poll(&mut reader), ReadStep::Failed("source broke".to_string()));
    assert_eq!(reader.index(), 0);
    assert!(stream.write().lock().ok().expect("lock").persisted().is_none());
    assert_eq!(drain(&mut reader), vec!["a".to_string(), "b".to_string()]);
    assert_eq!(pulls.load(Ordering::SeqCst), 4);
}

#[test]
fn after_pull_handles_each_result() {
    let w = noop_waker();
    let producer = ListProducer {
        items: vec![],
        next: 0,
        pulls: Arc::new(AtomicUsize::new(0)),
        pending_first: false,
        fail_first: false,
    };
    let mut state = StreamState::OpenStream { source: Box::new(producer), data: vec!["a".to_string()] };
    assert_eq!(state.after_pull(1, ReadStep::Ready("b".to_string()), &w), ReadStep::Ready("b".to_string()));
    assert_eq!(state.after_pull(2, ReadStep::Pending, &w), ReadStep::Pending);
    assert_eq!(state.after_pull(2, ReadStep::Failed("e".to_string()), &w), ReadStep::Failed("e".to_string()));
    assert!(state.persisted().is_none());
    let (woken, cw) = counting_waker();
    assert_eq!(state.after_pull(3, ReadStep::Ready("c".to_string()), &cw), ReadStep::Pending);
    assert_eq!(woken.0.load(Ordering::SeqCst), 1);
    assert_eq!(state.after_pull(4, ReadStep::Done, &w), ReadStep::Done);
    let all: Vec<String> = ["a", "b", "c"].iter().map(|s| s.to_string()).collect();
    assert_eq!(state.persisted(), Some(&all));
}

#[test]
fn default_stream_is_open_and_empty() {
    let stream: Stream<u8> = Stream::default();
    let mut reader = stream.read();
    assert_eq!(poll(&mut reader), ReadStep::Pending);
    stream.write().close(Some(1)).unwrap();
    assert_eq!(drain(&mut reader), vec![1]);
}

#[test]
fn equality_is_symmetric_between_frozen_stores() {
    let a = Stream::new_closed(vec![9u8]);
    let b = Stream::new_closed(vec![9u8]);
    assert_eq!(a.equals(&b), Ok(true));
    assert_eq!(b.equals(&a), Ok(true));
    assert_eq!(a.equals(&a), Ok(true));
}

#[test]
fn earlier_waiters_stay_registered() {
    let stream: Stream<u32> = Stream::new_open(vec![]);
    let (first, w1) = counting_waker();
    let (second, w2) = counting_waker();
    let mut a = stream.read();
    let mut b = stream.read();
    assert_eq!(a.poll_next(&w1), Ok(ReadStep::Pending));
    assert_eq!(b.poll_next(&w2), Ok(ReadStep::Pending));
    stream.write().push(3).unwrap();
    assert_eq!(first.0.load(Ordering::SeqCst), 1);
    assert_eq!(second.0.load(Ordering::SeqCst), 1);
    assert_eq!(a.poll_next(&w1), Ok(ReadStep::Ready(3)));
    assert_eq!(b.poll_next(&w2), Ok(ReadStep::Ready(3)));
}
