//! A byte budget for readers, against requests that would exhaust memory.
use vstd::prelude::*;

use crate::text::{decimal, push_decimal, push_text};

verus! {

/// Default budget for a whole request: 1 MiB.
pub const DEFAULT_MAX_REQUEST_SIZE: usize = 1048576;

/// Default budget for HTTP headers: 8 KiB.
pub const DEFAULT_MAX_HEADER_SIZE: usize = 8192;

/// A reader that lets at most `limit` bytes through.
///
/// The budget itself is kept here; the adapter that performs the reads asks
/// [`LimitedReader::read_allowance`] before each read and reports what came
/// back with [`LimitedReader::record_read`].
pub struct LimitedReader<R> {
    inner: R,
    remaining: usize,
    limit: usize,
}

impl<R> LimitedReader<R> {
    /// The remaining budget never exceeds the budget: every constructor
    /// establishes this and every method keeps it.
    pub closed spec fn wf(&self) -> bool {
        self.remaining <= self.limit
    }

    /// Bytes that may still be read.
    pub closed spec fn remaining_bytes(&self) -> nat {
        self.remaining as nat
    }

    /// The budget the reader was given.
    pub closed spec fn limit_bytes(&self) -> nat {
        self.limit as nat
    }

    /// The wrapped reader.
    pub closed spec fn inner_reader(&self) -> R {
        self.inner
    }

    /// Wraps `inner` with a budget of `limit` bytes.
    pub fn new(inner: R, limit: usize) -> (r: Self)
        ensures
            r.limit_bytes() == limit,
            r.remaining_bytes() == limit,
            r.inner_reader() == inner,
            r.wf(),
    {
        LimitedReader { inner, remaining: limit, limit }
    }

    /// Wraps `inner` with the default request budget.
    pub fn with_default_limit(inner: R) -> (r: Self)
        ensures
            r.limit_bytes() == DEFAULT_MAX_REQUEST_SIZE,
            r.remaining_bytes() == DEFAULT_MAX_REQUEST_SIZE,
            r.inner_reader() == inner,
            r.wf(),
    {
        Self::new(inner, DEFAULT_MAX_REQUEST_SIZE)
    }

    /// Wraps `inner` with the default header budget.
    pub fn with_header_limit(inner: R) -> (r: Self)
        ensures
            r.limit_bytes() == DEFAULT_MAX_HEADER_SIZE,
            r.remaining_bytes() == DEFAULT_MAX_HEADER_SIZE,
            r.inner_reader() == inner,
            r.wf(),
    {
        Self::new(inner, DEFAULT_MAX_HEADER_SIZE)
    }

    /// Bytes that may still be read.
    pub fn remaining(&self) -> (n: usize)
        ensures
            n == self.remaining_bytes(),
    {
        self.remaining
    }

    /// The budget.
    pub fn limit(&self) -> (n: usize)
        ensures
            n == self.limit_bytes(),
    {
        self.limit
    }

    /// Bytes read so far.
    pub fn read_count(&self) -> (n: usize)
        ensures
            self.wf() ==> n == self.limit_bytes() - self.remaining_bytes(),
    {
        if self.remaining <= self.limit {
            self.limit - self.remaining
        } else {
            0
        }
    }

    /// The wrapped reader.
    pub fn get_ref(&self) -> (r: &R)
        ensures
            *r == self.inner_reader(),
    {
        &self.inner
    }

    /// The wrapped reader, for use in place.
    pub fn get_mut(&mut self) -> (r: &mut R)
        ensures
            *r == old(self).inner_reader(),
            final(self).inner_reader() == *final(r),
            final(self).limit_bytes() == old(self).limit_bytes(),
            final(self).remaining_bytes() == old(self).remaining_bytes(),
            final(self).wf() == old(self).wf(),
    {
        &mut self.inner
    }

    /// Gives the wrapped reader back.
    pub fn into_inner(self) -> (r: R)
        ensures
            r == self.inner_reader(),
    {
        self.inner
    }

    /// Starts a fresh budget of `new_limit` bytes.
    pub fn reset_limit(&mut self, new_limit: usize)
        ensures
            final(self).limit_bytes() == new_limit,
            final(self).remaining_bytes() == new_limit,
            final(self).inner_reader() == old(self).inner_reader(),
            final(self).wf(),
    {
        self.limit = new_limit;
        self.remaining = new_limit;
    }

    /// How many bytes the next read may take into a buffer with `space`
    /// free bytes: `None` once the budget is spent (the read fails),
    /// otherwise the smaller of the budget left and the space.
    pub fn read_allowance(&self, space: usize) -> (a: Option<usize>)
        ensures
            self.remaining_bytes() == 0 ==> a is None,
            self.remaining_bytes() > 0 ==> a == Some(
                if self.remaining_bytes() < space { self.remaining_bytes() as usize } else { space },
            ),
    {
        if self.remaining == 0 {
            None
        } else if self.remaining < space {
            Some(self.remaining)
        } else {
            Some(space)
        }
    }

    /// Charges `n` bytes that a read delivered against the budget.
    pub fn record_read(&mut self, n: usize)
        ensures
            final(self).remaining_bytes() == (if n <= old(self).remaining_bytes() {
                old(self).remaining_bytes() - n
            } else {
                0
            }),
            final(self).limit_bytes() == old(self).limit_bytes(),
            final(self).inner_reader() == old(self).inner_reader(),
            old(self).wf() ==> final(self).wf(),
    {
        if n <= self.remaining {
            self.remaining = self.remaining - n;
        } else {
            self.remaining = 0;
        }
    }

    /// The message of the error that a read fails with once the budget is
    /// spent.
    pub fn limit_exceeded_message(&self) -> (msg: String)
        ensures
            msg@ == "Request size limit exceeded: "@ + decimal(self.limit_bytes()) + " bytes (limit: "@
                + decimal(self.limit_bytes()) + " bytes)"@,
    {
        let mut msg = String::new();
        push_text(&mut msg, "Request size limit exceeded: ");
        push_decimal(&mut msg, self.limit as u128);
        push_text(&mut msg, " bytes (limit: ");
        push_decimal(&mut msg, self.limit as u128);
        push_text(&mut msg, " bytes)");
        msg
    }
}

} // verus!
