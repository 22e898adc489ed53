//! The bus transport capability the driver writes through.
//!
//! The driver needs exactly one operation from the outside world: a blocking
//! "write these bytes to the device at this address" that either succeeds or
//! reports a transport-level failure. [`Transport`] captures that operation
//! together with a ghost history of every write call — its address, its
//! bytes, and the outcome it reported — so the driver's contracts can state,
//! byte for byte, what reaches the transport and how the driver's result
//! follows from the transport's. Which calls succeed is the implementation's
//! own affair: the trait promises only that the history mirrors the calls.
//!
//! [`MockTransport`] is a verified implementation that records every
//! transaction and can be scripted to fail on a chosen call; it is what the
//! test suite runs the driver against.

use vstd::prelude::*;

verus! {

/// The failure a write reported, if any: `None` for success, `Some(e)` for
/// a failure with error value `e`.
pub open spec fn failure_of<E>(r: Result<(), E>) -> Option<E> {
    match r {
        Ok(_) => None,
        Err(e) => Some(e),
    }
}

/// A blocking byte-write capability to an addressed bus device.
pub trait Transport {
    /// The implementation's own error value for a failed write.
    type TransportError;

    /// The history of write calls this transport has received, oldest
    /// first: the device address and bytes of each write, paired with the
    /// failure that call reported, if any.
    spec fn history(&self) -> Seq<((u8, Seq<u8>), Option<Self::TransportError>)>;

    /// Performs one blocking write of `bytes` to the device at `address`.
    /// Every call, successful or failed, appends exactly one entry to the
    /// history: its request and its own outcome.
    fn write(&mut self, address: u8, bytes: &[u8]) -> (r: Result<(), Self::TransportError>)
        ensures
            final(self).history() == old(self).history().push(((address, bytes@), failure_of(r))),
    ;
}

/// An in-memory transport that records every transaction and optionally
/// fails on one scripted call.
///
/// The write whose zero-based index equals the scripted failure index
/// reports failure with the scripted error code; every other write
/// succeeds. Every call is recorded, failed ones included, so a test can
/// compare what the driver wrote against the bytes the protocol demands.
pub struct MockTransport {
    writes: Vec<((u8, Vec<u8>), Option<u8>)>,
    fail_on: Option<usize>,
    error_code: u8,
}

impl MockTransport {
    /// The zero-based index of the write call scripted to fail, if any.
    pub closed spec fn spec_fail_on(&self) -> Option<usize> {
        self.fail_on
    }

    /// The error value the scripted failing write reports.
    pub closed spec fn spec_error_code(&self) -> u8 {
        self.error_code
    }

    /// A transport on which every write succeeds.
    pub fn new() -> (r: MockTransport)
        ensures
            r.history() == Seq::<((u8, Seq<u8>), Option<u8>)>::empty(),
            r.spec_fail_on() == Option::<usize>::None,
    {
        let r = MockTransport { writes: Vec::new(), fail_on: None, error_code: 0 };
        proof {
            assert(r.history() =~= Seq::<((u8, Seq<u8>), Option<u8>)>::empty());
        }
        r
    }

    /// A transport whose write number `nth` (zero-based) fails with
    /// `error_code`; every other write succeeds.
    pub fn failing_on(nth: usize, error_code: u8) -> (r: MockTransport)
        ensures
            r.history() == Seq::<((u8, Seq<u8>), Option<u8>)>::empty(),
            r.spec_fail_on() == Some(nth),
            r.spec_error_code() == error_code,
    {
        let r = MockTransport { writes: Vec::new(), fail_on: Some(nth), error_code };
        proof {
            assert(r.history() =~= Seq::<((u8, Seq<u8>), Option<u8>)>::empty());
        }
        r
    }

    /// How many write calls this transport has received.
    pub fn write_count(&self) -> (n: usize)
        ensures
            n == self.history().len(),
    {
        self.writes.len()
    }

    /// The device address of write call `i`.
    pub fn write_address(&self, i: usize) -> (a: u8)
        requires
            i < self.history().len(),
        ensures
            a == self.history()[i as int].0.0,
    {
        self.writes[i].0.0
    }

    /// A copy of the bytes of write call `i`.
    pub fn write_bytes(&self, i: usize) -> (b: Vec<u8>)
        requires
            i < self.history().len(),
        ensures
            b@ == self.history()[i as int].0.1,
    {
        let stored: &Vec<u8> = &self.writes[i].0.1;
        let mut b: Vec<u8> = Vec::new();
        let mut j: usize = 0;
        while j < stored.len()
            invariant
                j <= stored.len(),
                b@ == stored@.take(j as int),
            decreases stored.len() - j,
        {
            b.push(stored[j]);
            j += 1;
        }
        proof {
            assert(b@ =~= stored@);
        }
        b
    }

    /// Whether write call `i` reported success.
    pub fn write_succeeded(&self, i: usize) -> (b: bool)
        requires
            i < self.history().len(),
        ensures
            b == (self.history()[i as int].1 is None),
    {
        match self.writes[i].1 {
            None => true,
            Some(_) => false,
        }
    }
}

impl Transport for MockTransport {
    type TransportError = u8;

    closed spec fn history(&self) -> Seq<((u8, Seq<u8>), Option<u8>)> {
        self.writes@.map_values(|w: ((u8, Vec<u8>), Option<u8>)| ((w.0.0, w.0.1@), w.1))
    }

    fn write(&mut self, address: u8, bytes: &[u8]) -> (r: Result<(), u8>)
        ensures
            final(self).spec_fail_on() == old(self).spec_fail_on(),
            final(self).spec_error_code() == old(self).spec_error_code(),
            r == (match old(self).spec_fail_on() {
                Some(n) => if n == old(self).history().len() {
                    Err::<(), u8>(old(self).spec_error_code())
                } else {
                    Ok::<(), u8>(())
                },
                None => Ok::<(), u8>(()),
            }),
    {
        let mut copy: Vec<u8> = Vec::new();
        let mut j: usize = 0;
        while j < bytes.len()
            invariant
                j <= bytes@.len(),
                copy@ == bytes@.take(j as int),
            decreases bytes@.len() - j,
        {
            copy.push(bytes[j]);
            j += 1;
        }
        proof {
            assert(copy@ =~= bytes@);
        }
        let index = self.writes.len();
        let fails = match self.fail_on {
            Some(n) => n == index,
            None => false,
        };
        let failure: Option<u8> = if fails {
            Some(self.error_code)
        } else {
            None
        };
        self.writes.push(((address, copy), failure));
        proof {
            assert(self.history() =~= old(self).history().push(((address, bytes@), failure)));
        }
        match failure {
            Some(code) => Err(code),
            None => Ok(()),
        }
    }
}

} // verus!
