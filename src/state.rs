//! The shared state machine of a stream: the buffered values, the readers
//! waiting for more, and the three phases a store goes through.
use crate::stream::StreamError;
use crate::sync::wake_all;
use std::task::Waker;
use vstd::pervasive::cloned;
use vstd::prelude::*;
use vstd::std_specs::cmp::PartialEqSpec;

verus! {

/// The answer to a request for the next value: one value, "not yet", "there
/// are no more", or the failure a producer reported.
#[derive(Debug, PartialEq, Eq)]
pub enum ReadStep<T> {
    Ready(T),
    Pending,
    Done,
    Failed(String),
}

/// A single-pass source of values for a lazily filled store.
///
/// Each pull yields the next value, reports that none is available yet (and
/// arranges for `waker` to be woken once one is), reports exhaustion, after
/// which it is never pulled again, or reports a failure; after a failure it
/// may be pulled again.
pub trait Producer<T>: Send + Sync {
    fn pull(&mut self, waker: &Waker) -> ReadStep<T>;
}

/// The data of a stream and the readers waiting on it.
#[verifier::reject_recursive_types(T)]
pub enum StreamState<T> {
    /// Open for appends; readers past the end wait in `wakers`.
    OpenWritable { data: Vec<T>, wakers: Vec<Waker> },
    /// Filled on demand from `source`; `data` caches what it has yielded.
    OpenStream { source: Box<dyn Producer<T>>, data: Vec<T> },
    /// Frozen: `data` never changes again.
    Closed { data: Vec<T> },
}

/// The sequence of `v`'s value, empty for `None`.
pub open spec fn opt_seq<T>(v: Option<T>) -> Seq<T> {
    match v {
        Some(x) => seq![x],
        None => Seq::empty(),
    }
}

impl<T> StreamState<T> {
    /// The values buffered so far, in order.
    pub open spec fn values(&self) -> Seq<T> {
        match self {
            StreamState::OpenWritable { data, .. } => data@,
            StreamState::OpenStream { data, .. } => data@,
            StreamState::Closed { data } => data@,
        }
    }

    /// How many readers wait for a value to be appended.
    pub open spec fn pending(&self) -> nat {
        self.waiters().len()
    }

    /// The wakers of the readers that wait for a value to be appended, in
    /// the order they arrived.
    pub open spec fn waiters(&self) -> Seq<Waker> {
        match self {
            StreamState::OpenWritable { wakers, .. } => wakers@,
            _ => Seq::empty(),
        }
    }

    /// The store after appending `value` to the open store `self`: every
    /// waiting reader has been woken.
    pub open spec fn push_spec(self, value: T, post: Self) -> bool {
        &&& post is OpenWritable
        &&& post.values() == self.values().push(value)
        &&& post.pending() == 0
    }

    /// The store after freezing the open store `self`, with `value` appended
    /// first if there is one.
    pub open spec fn close_spec(self, value: Option<T>, post: Self) -> bool {
        &&& post is Closed
        &&& post.values() == self.values() + opt_seq(value)
    }
}

impl<T: Clone> StreamState<T> {
    /// One read at position `index`: `step` is what the reader receives and
    /// `post` the store afterwards.
    ///
    /// A value is delivered only for `index` and only as a clone of the value
    /// stored there; the buffered values only ever grow at their end.
    pub open spec fn read_spec(self, index: int, step: ReadStep<T>, post: Self) -> bool {
        let n = self.values().len();
        &&& self.values().is_prefix_of(post.values())
        &&& post.values().len() <= n + 1
        &&& match step {
            ReadStep::Ready(v) => index < post.values().len() && cloned(post.values()[index], v),
            ReadStep::Pending => !(post is Closed),
            ReadStep::Done => post is Closed && index >= post.values().len(),
            ReadStep::Failed(_) => {
                &&& self is OpenStream
                &&& post is OpenStream
                &&& post.values() == self.values()
                &&& index >= n
            },
        }
        &&& (index < n ==> step is Ready && post == self)
        &&& match self {
            StreamState::Closed { .. } => post == self && (index >= n ==> step is Done),
            StreamState::OpenWritable { .. } => index >= n ==> {
                &&& step is Pending
                &&& post is OpenWritable
                &&& post.values() == self.values()
                &&& post.pending() == self.pending() + 1
                &&& post.waiters().drop_last() == self.waiters()
            },
            StreamState::OpenStream { .. } => index >= n ==> {
                &&& (step is Done ==> post.values() == self.values())
                &&& (!(step is Done) ==> post is OpenStream)
                &&& (step is Ready ==> index == n)
            },
        }
    }
}

impl<T: Clone> StreamState<T> {
    /// What a lazy store with nothing cached at `index` does with the result
    /// `pulled` of one pull: `step` is what the reader receives and `post` the
    /// store afterwards.
    pub open spec fn pull_spec(self, index: int, pulled: ReadStep<T>, step: ReadStep<T>, post: Self) -> bool {
        let n = self.values().len() as int;
        match pulled {
            ReadStep::Ready(v) => {
                &&& post is OpenStream
                &&& post.values() == self.values().push(v)
                &&& index == n ==> step is Ready && cloned(v, step->Ready_0)
                &&& index != n ==> step is Pending
            },
            ReadStep::Pending => post == self && step is Pending,
            ReadStep::Done => post is Closed && post.values() == self.values() && step is Done,
            ReadStep::Failed(e) => post == self && step == ReadStep::<T>::Failed(e),
        }
    }
}

impl<T> Default for StreamState<T> {
    /// An empty store, open for appends.
    fn default() -> (r: Self)
        ensures
            r is OpenWritable,
            r.values() == Seq::<T>::empty(),
            r.pending() == 0,
    {
        StreamState::OpenWritable { data: Vec::new(), wakers: Vec::new() }
    }
}

impl<T> StreamState<T> {
    /// Appends `value` to an open store and wakes every waiting reader.
    pub fn push(&mut self, value: T)
        requires
            *old(self) is OpenWritable,
        ensures
            old(self).push_spec(value, *final(self)),
    {
        let mut taken = StreamState::Closed { data: Vec::new() };
        std::mem::swap(self, &mut taken);
        match taken {
            StreamState::OpenWritable { mut data, wakers } => {
                data.push(value);
                *self = StreamState::OpenWritable { data, wakers: Vec::new() };
                wake_all(wakers);
            },
            other => {
                *self = other;
            },
        }
    }

    /// Freezes an open store, appending `value` first if there is one, and
    /// wakes every waiting reader.
    pub fn close(&mut self, value: Option<T>)
        requires
            *old(self) is OpenWritable,
        ensures
            old(self).close_spec(value, *final(self)),
    {
        let mut taken = StreamState::Closed { data: Vec::new() };
        std::mem::swap(self, &mut taken);
        match taken {
            StreamState::OpenWritable { mut data, wakers } => {
                let ghost before = data@;
                match value {
                    Some(v) => data.push(v),
                    None => {},
                }
                assert(data@ =~= before + opt_seq(value));
                *self = StreamState::Closed { data };
                wake_all(wakers);
            },
            other => {
                *self = other;
            },
        }
    }

    /// Appends `value` if the store is open for appends.
    pub fn try_push(&mut self, value: T) -> (r: Result<(), StreamError>)
        ensures
            r is Ok <==> *old(self) is OpenWritable,
            r is Ok ==> old(self).push_spec(value, *final(self)),
            r is Err ==> (r matches Err(StreamError::NotWritable)) && *final(self) == *old(self),
    {
        if let StreamState::OpenWritable { .. } = self {
            self.push(value);
            Ok(())
        } else {
            Err(StreamError::NotWritable)
        }
    }

    /// Freezes the store if it is open for appends, appending `value` first
    /// if there is one.
    pub fn try_close(&mut self, value: Option<T>) -> (r: Result<(), StreamError>)
        ensures
            r is Ok <==> *old(self) is OpenWritable,
            r is Ok ==> old(self).close_spec(value, *final(self)),
            r is Err ==> (r matches Err(StreamError::NotWritable)) && *final(self) == *old(self),
    {
        if let StreamState::OpenWritable { .. } = self {
            self.close(value);
            Ok(())
        } else {
            Err(StreamError::NotWritable)
        }
    }

    /// The frozen values, which is what a store persists as; a store that is
    /// still open has no persistent form.
    pub fn persisted(&self) -> (r: Option<&Vec<T>>)
        ensures
            r is Some <==> *self is Closed,
            r matches Some(d) ==> d@ == self.values(),
    {
        match self {
            StreamState::Closed { data } => Some(data),
            _ => None,
        }
    }
}

/// Element-wise equality of two sequences, by the elements' `==`.
pub open spec fn same_values<T: PartialEq>(a: Seq<T>, b: Seq<T>) -> bool {
    &&& a.len() == b.len()
    &&& forall|i: int| 0 <= i < a.len() ==> (#[trigger] a[i]).eq_spec(&b[i])
}

impl<T: PartialEq> StreamState<T> {
    /// Whether both stores are frozen with equal values: a store that is
    /// still open equals no other store.
    pub fn content_eq(&self, other: &Self) -> (r: bool)
        ensures
            r ==> *self is Closed && *other is Closed,
            T::obeys_eq_spec() ==> (r <==> (*self is Closed && *other is Closed && same_values(
                self.values(),
                other.values(),
            ))),
    {
        match (self, other) {
            (StreamState::Closed { data: a }, StreamState::Closed { data: b }) => {
                if a.len() != b.len() {
                    return false;
                }
                let mut i: usize = 0;
                while i < a.len()
                    invariant
                        i <= a.len(),
                        a.len() == b.len(),
                        *self is Closed && self.values() == a@,
                        *other is Closed && other.values() == b@,
                        T::obeys_eq_spec() ==> forall|j: int| 0 <= j < i ==> (#[trigger] a@[j]).eq_spec(&b@[j]),
                    decreases a.len() - i,
                {
                    if !(a[i] == b[i]) {
                        assert(T::obeys_eq_spec() ==> !a@[i as int].eq_spec(&b@[i as int]));
                        return false;
                    }
                    i = i + 1;
                }
                true
            },
            _ => false,
        }
    }
}

impl<T: Clone> StreamState<T> {
    /// Applies the result `pulled` of one pull to a lazy store with nothing
    /// cached at `index`: a value is cached and, when it lands at `index`,
    /// delivered (else the reader is woken to poll again); "not yet" and a
    /// failure leave the store as it is; exhaustion freezes what was cached.
    pub fn after_pull(&mut self, index: usize, pulled: ReadStep<T>, waker: &Waker) -> (r: ReadStep<T>)
        requires
            *old(self) is OpenStream,
            index >= old(self).values().len(),
        ensures
            old(self).pull_spec(index as int, pulled, r, *final(self)),
            old(self).read_spec(index as int, r, *final(self)),
            final(self).values().len() <= usize::MAX,
    {
        match pulled {
            ReadStep::Ready(v) => {
                match self {
                    StreamState::OpenStream { data, .. } => {
                        data.push(v);
                        if index == data.len() - 1 {
                            ReadStep::Ready(data[index].clone())
                        } else {
                            waker.clone().wake();
                            ReadStep::Pending
                        }
                    },
                    _ => ReadStep::Pending,
                }
            },
            ReadStep::Pending => ReadStep::Pending,
            ReadStep::Failed(e) => ReadStep::Failed(e),
            ReadStep::Done => {
                let mut cached = Vec::new();
                match self {
                    StreamState::OpenStream { data, .. } => {
                        std::mem::swap(data, &mut cached);
                    },
                    _ => {},
                }
                *self = StreamState::Closed { data: cached };
                ReadStep::Done
            },
        }
    }

    /// Reads the value at `index`, pulling from the producer of a lazy store
    /// when it has not been cached yet. A reader that finds no value in an
    /// open store is recorded in `wakers` (or left to the producer, which
    /// holds its waker) to be woken later.
    pub fn read_at(&mut self, index: usize, waker: &Waker) -> (r: ReadStep<T>)
        ensures
            old(self).read_spec(index as int, r, *final(self)),
            final(self).values().len() <= usize::MAX,
    {
        match self {
            StreamState::Closed { data } => {
                if index < data.len() {
                    ReadStep::Ready(data[index].clone())
                } else {
                    ReadStep::Done
                }
            },
            StreamState::OpenWritable { data, wakers } => {
                if index < data.len() {
                    ReadStep::Ready(data[index].clone())
                } else {
                    let ghost before = wakers@;
                    wakers.push(waker.clone());
                    assert(wakers@.drop_last() =~= before);
                    ReadStep::Pending
                }
            },
            StreamState::OpenStream { source, data } => {
                if index < data.len() {
                    return ReadStep::Ready(data[index].clone());
                }
                let pulled = source.pull(waker);
                self.after_pull(index, pulled, waker)
            },
        }
    }
}

} // verus!
