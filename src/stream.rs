//! Handles to a shared store: the stream itself, its readers and writers.
use crate::state::{Producer, ReadStep, StreamState};
use crate::sync::{guarded, lock_mutex, new_mutex, store_address};
use std::sync::{Arc, Mutex, MutexGuard, PoisonError};
use std::task::Waker;
use vstd::prelude::*;

verus! {

/// Why an operation on a shared store did not happen.
#[derive(Debug, Clone, Copy, PartialEq, Eq, Structural)]
pub enum StreamError {
    /// An earlier holder of the store's lock panicked while holding it.
    Poisoned,
    /// The store does not take appends: it is frozen or filled by a producer.
    NotWritable,
}

/// A stream of values from one source to any number of readers.
///
/// Clones share one store: what is written through one handle is seen
/// through all of them.
///
/// Every operation that locks the store blocks until the lock is free. None
/// may run on a thread that already holds this store's lock: not while a
/// guard from [`StreamWrite::lock`] lives, and not from a producer's pull or
/// a waker's wake that runs inside the store's critical section. Std's mutex
/// may deadlock or panic there.
#[verifier::reject_recursive_types(T)]
pub struct Stream<T> {
    inner: Arc<Mutex<StreamState<T>>>,
    created: Ghost<StreamState<T>>,
    address: usize,
}

impl<T> Stream<T> {
    /// Whether `self` and `other` are handles to the same store.
    pub closed spec fn shares(&self, other: &Self) -> bool {
        self.inner == other.inner && self.address == other.address
    }

    /// The state the store was created in. Later operations, through any
    /// handle, move it on from there.
    pub closed spec fn created(&self) -> StreamState<T> {
        self.created@
    }

    fn from_state(state: StreamState<T>) -> (r: Self)
        ensures
            r.created() == state,
    {
        let ghost initial = state;
        let inner = Arc::new(new_mutex(state));
        let address = store_address(&inner);
        Stream { inner, created: Ghost(initial), address }
    }

    /// A stream that is already frozen and holds exactly `data`.
    pub fn new_closed(data: Vec<T>) -> (r: Self)
        ensures
            r.created() is Closed,
            r.created().values() == data@,
    {
        Self::from_state(StreamState::Closed { data })
    }

    /// A stream that holds `data` and stays open for more values.
    pub fn new_open(data: Vec<T>) -> (r: Self)
        ensures
            r.created() is OpenWritable,
            r.created().values() == data@,
            r.created().pending() == 0,
    {
        Self::from_state(StreamState::OpenWritable { data, wakers: Vec::new() })
    }

    /// A stream filled lazily from `source` as readers ask for values;
    /// nothing is pulled yet.
    pub fn from_stream(source: Box<dyn Producer<T>>) -> (r: Self)
        ensures
            r.created() is OpenStream,
            r.created() == (StreamState::OpenStream { source, data: r.created()->OpenStream_data }),
            r.created().values() == Seq::<T>::empty(),
    {
        Self::from_state(StreamState::OpenStream { source, data: Vec::new() })
    }

    /// Another handle to the same store.
    pub fn share(&self) -> (r: Self)
        ensures
            r.shares(self),
            r.created() == self.created(),
    {
        Stream { inner: self.inner.clone(), created: self.created, address: self.address }
    }

    /// A reader that starts at the first value.
    pub fn read(&self) -> (r: StreamRead<T>)
        ensures
            r.cursor() == 0,
            r.source().shares(self),
    {
        StreamRead { index: 0, source: self.share() }
    }

    /// A handle that appends to and freezes the store.
    pub fn write(&self) -> (r: StreamWrite<T>)
        ensures
            r.source().shares(self),
    {
        StreamWrite { source: self.share() }
    }
}

impl<T> Clone for Stream<T> {
    /// Another handle to the same store.
    fn clone(&self) -> (r: Self)
        ensures
            r.shares(self),
            r.created() == self.created(),
    {
        self.share()
    }
}

impl<T> Default for Stream<T> {
    /// A new empty stream, open for appends.
    fn default() -> (r: Self)
        ensures
            r.created() is OpenWritable,
            r.created().values() == Seq::<T>::empty(),
            r.created().pending() == 0,
    {
        Self::from_state(StreamState::default())
    }
}

impl<T> Clone for StreamWrite<T> {
    /// Another writing handle to the same store.
    fn clone(&self) -> (r: Self)
        ensures
            r.source().shares(&self.source()),
    {
        StreamWrite { source: self.source.share() }
    }
}

impl<T: PartialEq> Stream<T> {
    /// Whether two handles denote equal streams: the same store, decided
    /// without locking, or two frozen stores with equal values. Two stores are
    /// always locked in the order of their addresses, so that two comparisons
    /// of the same pair running at once cannot wait on each other.
    pub fn equals(&self, other: &Self) -> (r: Result<bool, StreamError>)
        ensures
            r is Err ==> r matches Err(StreamError::Poisoned),
            self.shares(other) ==> r == Ok::<bool, StreamError>(true),
    {
        let here = self.address;
        let there = other.address;
        if here == there {
            return Ok(true);
        }
        let (first, second) = if here < there {
            (&self.inner, &other.inner)
        } else {
            (&other.inner, &self.inner)
        };
        let mut g1 = match lock_mutex(&**first) {
            Ok(g) => g,
            Err(_) => return Err(StreamError::Poisoned),
        };
        let mut g2 = match lock_mutex(&**second) {
            Ok(g) => g,
            Err(_) => return Err(StreamError::Poisoned),
        };
        let s1 = guarded(&mut g1);
        let s2 = guarded(&mut g2);
        if here < there {
            Ok(s1.content_eq(s2))
        } else {
            Ok(s2.content_eq(s1))
        }
    }
}

/// One poll by a reader at `cursor` against the store `pre`: it receives
/// `step`, the store becomes `post`, and the reader's cursor becomes `next`.
pub open spec fn reader_step<T: Clone>(
    pre: StreamState<T>,
    cursor: nat,
    step: ReadStep<T>,
    post: StreamState<T>,
    next: nat,
) -> bool {
    &&& pre.read_spec(cursor as int, step, post)
    &&& next == if step is Ready {
        cursor + 1
    } else {
        cursor
    }
}

/// A reader of a stream: a position in the shared store.
#[verifier::reject_recursive_types(T)]
pub struct StreamRead<T> {
    index: usize,
    source: Stream<T>,
}

impl<T> StreamRead<T> {
    /// The position of the next value this reader delivers.
    pub closed spec fn cursor(&self) -> nat {
        self.index as nat
    }

    /// The stream this reader reads.
    pub closed spec fn source(&self) -> Stream<T> {
        self.source
    }

    /// The position of the next value this reader delivers.
    pub fn index(&self) -> (r: usize)
        ensures
            r == self.cursor(),
    {
        self.index
    }
}

impl<T: Clone> StreamRead<T> {
    /// One read against `state`, the locked store: the value at the cursor,
    /// which then moves one on, or "not yet", or "no more".
    pub fn poll_locked(&mut self, state: &mut StreamState<T>, waker: &Waker) -> (r: ReadStep<T>)
        ensures
            reader_step(*old(state), old(self).cursor(), r, *final(state), final(self).cursor()),
            final(self).source() == old(self).source(),
    {
        let r = state.read_at(self.index, waker);
        if let ReadStep::Ready(_) = r {
            self.index = self.index + 1;
        }
        r
    }

    /// Locks the store and reads the next value; `waker` is woken when a
    /// read that found no value may succeed.
    pub fn poll_next(&mut self, waker: &Waker) -> (r: Result<ReadStep<T>, StreamError>)
        ensures
            final(self).source() == old(self).source(),
            final(self).cursor() == if r matches Ok(ReadStep::Ready(_)) {
                old(self).cursor() + 1
            } else {
                old(self).cursor()
            },
            r is Err ==> r matches Err(StreamError::Poisoned),
    {
        let inner = self.source.inner.clone();
        let mut guard = match lock_mutex(&*inner) {
            Ok(g) => g,
            Err(_) => return Err(StreamError::Poisoned),
        };
        let state = guarded(&mut guard);
        Ok(self.poll_locked(state, waker))
    }
}

/// The writing side of a stream.
#[verifier::reject_recursive_types(T)]
pub struct StreamWrite<T> {
    source: Stream<T>,
}

impl<T> StreamWrite<T> {
    /// The stream this handle writes.
    pub closed spec fn source(&self) -> Stream<T> {
        self.source
    }

    /// Takes the store's lock for one critical section, for callers that
    /// need several operations on the raw state at once. While the guard
    /// lives, this thread must not use any other locking operation on the
    /// same store.
    pub fn lock(&self) -> Result<MutexGuard<'_, StreamState<T>>, PoisonError<MutexGuard<'_, StreamState<T>>>> {
        lock_mutex(&*self.source.inner)
    }

    /// Appends `value`, waking every waiting reader.
    pub fn push(&self, value: T) -> (r: Result<(), StreamError>) {
        let mut guard = match lock_mutex(&*self.source.inner) {
            Ok(g) => g,
            Err(_) => return Err(StreamError::Poisoned),
        };
        guarded(&mut guard).try_push(value)
    }

    /// Freezes the stream, appending `value` first if there is one.
    pub fn close(&self, value: Option<T>) -> (r: Result<(), StreamError>) {
        let mut guard = match lock_mutex(&*self.source.inner) {
            Ok(g) => g,
            Err(_) => return Err(StreamError::Poisoned),
        };
        guarded(&mut guard).try_close(value)
    }
}

} // verus!
