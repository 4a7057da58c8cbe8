//! Adaptive buffer: a `Vec<T>` wrapper that tracks usage over a window and
//! periodically shrinks its capacity, so a rare large allocation does not
//! bloat memory for good.
//!
//! The buffer records the largest size seen across a window of uses. Every
//! `shrink_check_interval` calls to [`AdaptiveBuffer::finish`], if the
//! capacity exceeds `shrink_factor` times the largest seen size, it shrinks
//! to about one and a half times that size, never below `min_capacity`.

use core::marker::PhantomData;
use vstd::prelude::*;

verus! {

/// Shrinking parameters of an [`AdaptiveBuffer`]; implement on a marker type
/// to customize.
pub trait BufferParams {
    /// Minimum capacity and initial allocation size.
    spec fn spec_min_capacity() -> usize;

    /// Shrink when capacity exceeds the largest seen size this many times
    /// over.
    spec fn spec_shrink_factor() -> usize;

    /// How many finished uses pass between shrink checks.
    spec fn spec_shrink_check_interval() -> usize;

    /// Minimum capacity and initial allocation size.
    fn min_capacity() -> (r: usize)
        ensures
            r == Self::spec_min_capacity(),
    ;

    /// Shrink when capacity exceeds the largest seen size this many times
    /// over.
    fn shrink_factor() -> (r: usize)
        ensures
            r == Self::spec_shrink_factor(),
    ;

    /// How many finished uses pass between shrink checks.
    fn shrink_check_interval() -> (r: usize)
        ensures
            r == Self::spec_shrink_check_interval(),
    ;
}

/// Default buffer parameters: 256 bytes minimum, shrink beyond three times
/// the seen size, checked every 64 uses.
#[derive(Debug, Clone, Copy)]
pub struct DefaultBufferParams;

impl BufferParams for DefaultBufferParams {
    open spec fn spec_min_capacity() -> usize {
        256
    }

    open spec fn spec_shrink_factor() -> usize {
        3
    }

    open spec fn spec_shrink_check_interval() -> usize {
        64
    }

    fn min_capacity() -> usize {
        256
    }

    fn shrink_factor() -> usize {
        3
    }

    fn shrink_check_interval() -> usize {
        64
    }
}

/// Relies on std's Vec::capacity: the number of elements the vector can
/// hold without reallocating, never below its length.
#[verifier::external_body]
fn vec_capacity<T>(v: &Vec<T>) -> (r: usize)
    ensures
        r >= v@.len(),
{
    v.capacity()
}

/// Relies on std's Vec::shrink_to: drops excess capacity down to a lower
/// bound, keeping the elements untouched.
#[verifier::external_body]
fn vec_shrink_to<T>(v: &mut Vec<T>, min_capacity: usize)
    ensures
        final(v)@ == old(v)@,
{
    v.shrink_to(min_capacity)
}

/// A `Vec<T>` wrapper that adaptively shrinks its capacity. Write through
/// [`Self::as_mut_vec`], then call [`Self::finish`] after each use to clear
/// the buffer and let it shrink when oversized.
///
/// How much a vector actually has allocated is the allocator's choice, which
/// the verifier does not model; the contracts here fix the contents and the
/// window bookkeeping, while the shrink step leans on std's documented
/// guarantees — clearing keeps the allocation, shrinking never grows it and
/// never drops below the length.
#[derive(Debug)]
pub struct AdaptiveBuffer<T, P: BufferParams = DefaultBufferParams> {
    pub inner: Vec<T>,
    pub max_seen: usize,
    pub uses: usize,
    pub params: PhantomData<P>,
}

impl<T, P: BufferParams> AdaptiveBuffer<T, P> {
    /// The use counter stays inside the current window.
    pub open spec fn wf(&self) -> bool {
        self.uses < P::spec_shrink_check_interval() || self.uses == 0
    }

    /// Creates a buffer with the minimum capacity preallocated.
    pub fn new() -> (r: AdaptiveBuffer<T, P>)
        ensures
            r.wf(),
            r.inner@.len() == 0,
            r.max_seen == P::spec_min_capacity(),
            r.uses == 0,
    {
        AdaptiveBuffer {
            inner: Vec::with_capacity(P::min_capacity()),
            max_seen: P::min_capacity(),
            uses: 0,
            params: PhantomData,
        }
    }

    /// The inner vector, writable.
    pub fn as_mut_vec(&mut self) -> (r: &mut Vec<T>)
        ensures
            *r == old(self).inner,
            final(self).inner == *final(r),
            final(self).max_seen == old(self).max_seen,
            final(self).uses == old(self).uses,
    {
        &mut self.inner
    }

    /// The inner vector, read-only.
    pub fn as_vec(&self) -> (r: &Vec<T>)
        ensures
            r == &self.inner,
    {
        &self.inner
    }

    /// The current length of the buffer.
    pub fn len(&self) -> (r: usize)
        ensures
            r == self.inner@.len(),
    {
        self.inner.len()
    }

    /// Whether the buffer is empty.
    pub fn is_empty(&self) -> (r: bool)
        ensures
            r == (self.inner@.len() == 0),
    {
        self.inner.is_empty()
    }

    /// The current capacity of the buffer; at least its length.
    pub fn capacity(&self) -> (r: usize)
        ensures
            r >= self.inner@.len(),
    {
        vec_capacity(&self.inner)
    }

    /// Ends one use of the buffer: records the size this use reached, clears
    /// the contents, and, at the end of each window, shrinks the capacity if
    /// it exceeds `shrink_factor` times the largest seen size, then resets
    /// the tracking for the next window.
    pub fn finish(&mut self)
        requires
            old(self).wf(),
        ensures
            final(self).wf(),
            final(self).inner@.len() == 0,
            ({
                let seen = if old(self).inner@.len() > old(self).max_seen {
                    old(self).inner@.len() as usize
                } else {
                    old(self).max_seen
                };
                if old(self).uses + 1 >= P::spec_shrink_check_interval() {
                    final(self).uses == 0 && final(self).max_seen == P::spec_min_capacity()
                } else {
                    final(self).uses == old(self).uses + 1 && final(self).max_seen == seen
                }
            }),
    {
        let len = self.inner.len();
        if len > self.max_seen {
            self.max_seen = len;
        }
        self.inner.clear();
        let interval = P::shrink_check_interval();
        if interval == 0 || self.uses >= interval - 1 {
            let factor = P::shrink_factor();
            let threshold = match self.max_seen.checked_mul(factor) {
                Some(t) => t,
                None => usize::MAX,
            };
            if vec_capacity(&self.inner) > threshold {
                let half = self.max_seen / 2;
                let target = if self.max_seen > usize::MAX - half {
                    usize::MAX
                } else if self.max_seen + half > P::min_capacity() {
                    self.max_seen + half
                } else {
                    P::min_capacity()
                };
                vec_shrink_to(&mut self.inner, target);
            }
            self.max_seen = P::min_capacity();
            self.uses = 0;
        } else {
            self.uses = self.uses + 1;
        }
    }

    /// Clears the buffer without a shrink check.
    pub fn clear(&mut self)
        ensures
            final(self).inner@.len() == 0,
            final(self).max_seen == old(self).max_seen,
            final(self).uses == old(self).uses,
    {
        self.inner.clear();
    }
}

} // verus!
