//! Access to the "poll" system call.

use vstd::prelude::*;
use core::marker::PhantomData;
use crate::io::fd::{spec_int_result, File};
use crate::io::result::Error;
use crate::sys::call::{Op, Syscall};
use crate::sys::layout::{
    as_signed16, bits16, bits32, le_u16, lemma_u16_le, lemma_u32_le, push_u16, push_u32, read_u16,
    signed16, spec_bits16, spec_bits32, u16_le, u32_le,
};
use crate::sys::result::{prepare_standard_result, EINVAL};
use crate::sys::types::{POLLERR, POLLIN, POLLNVAL, POLLOUT, POLLPRI};

verus! {

/// A request for events related to a particular file descriptor in a call
/// to `poll`.
#[derive(Clone, Copy, Debug)]
pub struct PollRequest<'a> {
    fd: i32,
    events: i16,
    /// The kernel writes in here.
    revents: i16,
    _phantom: PhantomData<&'a File<()>>,
}

impl<'a> PollRequest<'a> {
    /// The descriptor that the request is about.
    pub closed spec fn spec_fd(&self) -> i32 {
        self.fd
    }

    /// The bitmask of events requested.
    pub closed spec fn spec_events(&self) -> i16 {
        self.events
    }

    /// The bitmask of events that the kernel last reported.
    pub closed spec fn spec_revents(&self) -> i16 {
        self.revents
    }

    /// Begins a request that describes events to ask for on the given
    /// file: none yet, and none reported.
    pub fn new<'f: 'a>(file: &'f File<()>) -> (req: Self)
        ensures
            req.spec_fd() == file.spec_fd(),
            req.spec_events() == 0,
            req.spec_revents() == 0,
    {
        PollRequest { fd: file.fd(), events: 0, revents: 0, _phantom: PhantomData }
    }

    /// Sets the events bitmask for this request.
    pub fn events_raw(self, bitmask: i16) -> (req: Self)
        ensures
            req.spec_fd() == self.spec_fd(),
            req.spec_events() == bitmask,
            req.spec_revents() == self.spec_revents(),
    {
        PollRequest { fd: self.fd, events: bitmask, revents: self.revents, _phantom: PhantomData }
    }

    /// Merges the given events bitmask with the event bits already in the
    /// request.
    pub fn or_events_raw(self, bitmask: i16) -> (req: Self)
        ensures
            req.spec_fd() == self.spec_fd(),
            req.spec_events() == self.spec_events() | bitmask,
            req.spec_revents() == self.spec_revents(),
    {
        PollRequest {
            fd: self.fd,
            events: self.events | bitmask,
            revents: self.revents,
            _phantom: PhantomData,
        }
    }

    /// The result written by the latest `poll` that included this request.
    /// Before any, the response says that no events have occurred.
    pub fn response(&self) -> (resp: PollResponse)
        ensures
            resp.spec_raw_result() == self.spec_revents(),
    {
        PollResponse::new(self.revents)
    }

    /// Takes down what the kernel reported for this request.
    pub fn report(&mut self, revents: i16)
        ensures
            final(self).spec_fd() == old(self).spec_fd(),
            final(self).spec_events() == old(self).spec_events(),
            final(self).spec_revents() == revents,
    {
        self.revents = revents;
    }
}

/// The bitmask of event flags produced for a [`PollRequest`].
#[derive(Clone, Copy, Debug, PartialEq, Eq, Structural)]
pub struct PollResponse {
    revents: i16,
}

impl PollResponse {
    /// The raw bitmask of the events that the kernel reported.
    pub closed spec fn spec_raw_result(&self) -> i16 {
        self.revents
    }

    pub fn new(raw: i16) -> (resp: Self)
        ensures
            resp.spec_raw_result() == raw,
    {
        PollResponse { revents: raw }
    }

    #[verifier::when_used_as_spec(spec_raw_result)]
    pub fn raw_result(&self) -> (raw: i16)
        ensures
            raw == self.spec_raw_result(),
    {
        self.revents
    }

    /// Whether there is data to read.
    pub fn readable(&self) -> (b: bool)
        ensures
            b == ((self.spec_raw_result() & POLLIN) != 0),
    {
        (self.revents & POLLIN) != 0
    }

    /// Whether the file is writable. This only says that some amount of
    /// writing is possible.
    pub fn writable(&self) -> (b: bool)
        ensures
            b == ((self.spec_raw_result() & POLLOUT) != 0),
    {
        (self.revents & POLLOUT) != 0
    }

    /// Whether there is an error condition on the file descriptor.
    pub fn error(&self) -> (b: bool)
        ensures
            b == ((self.spec_raw_result() & POLLERR) != 0),
    {
        (self.revents & POLLERR) != 0
    }

    /// Whether the other end of a channel has been closed. This reads the
    /// error bit, as [`Self::error`] does.
    pub fn hung_up(&self) -> (b: bool)
        ensures
            b == ((self.spec_raw_result() & POLLERR) != 0),
    {
        (self.revents & POLLERR) != 0
    }

    /// Whether there is an exceptional condition on the file descriptor.
    pub fn exception(&self) -> (b: bool)
        ensures
            b == ((self.spec_raw_result() & POLLPRI) != 0),
    {
        (self.revents & POLLPRI) != 0
    }

    /// Whether the kernel deemed the corresponding request to be invalid.
    pub fn invalid(&self) -> (b: bool)
        ensures
            b == ((self.spec_raw_result() & POLLNVAL) != 0),
    {
        (self.revents & POLLNVAL) != 0
    }
}

/// The whole seconds of a timeout in milliseconds, rounded toward zero.
pub open spec fn spec_timeout_sec(timeout: i32) -> int {
    if timeout >= 0 {
        timeout / 1000
    } else {
        -((-timeout) / 1000)
    }
}

/// The nanoseconds beyond the whole seconds of a timeout in milliseconds;
/// negative for a negative timeout.
pub open spec fn spec_timeout_nsec(timeout: i32) -> int {
    if timeout >= 0 {
        (timeout % 1000) * 1_000_000
    } else {
        -((-timeout) % 1000) * 1_000_000
    }
}

/// Splits a timeout in milliseconds into seconds and nanoseconds.
pub fn split_timeout(timeout: i32) -> (t: (i64, i64))
    ensures
        t.0 == spec_timeout_sec(timeout),
        t.1 == spec_timeout_nsec(timeout),
        t.0 * 1000 + t.1 / 1_000_000 == timeout,
{
    let wide: i64 = timeout as i64;
    if wide >= 0 {
        (wide / 1000, (wide % 1000) * 1_000_000)
    } else {
        let positive: i64 = -wide;
        (-(positive / 1000), -(positive % 1000) * 1_000_000)
    }
}

/// The eight bytes of the kernel's record for a request: the descriptor,
/// the events asked for and the events reported, each least significant
/// byte first.
pub open spec fn spec_pollfd(req: PollRequest<'_>) -> Seq<u8> {
    u32_le(spec_bits32(req.spec_fd())) + u16_le(spec_bits16(req.spec_events())) + u16_le(
        spec_bits16(req.spec_revents()),
    )
}

/// The records of a sequence of requests, one after the other.
pub open spec fn spec_pollfds(reqs: Seq<PollRequest<'_>>) -> Seq<u8>
    decreases reqs.len(),
{
    if reqs.len() == 0 {
        Seq::empty()
    } else {
        spec_pollfds(reqs.drop_last()) + spec_pollfd(reqs.last())
    }
}

/// The records of `n` requests take `8 * n` bytes.
pub proof fn lemma_pollfds_len(reqs: Seq<PollRequest<'_>>)
    ensures
        spec_pollfds(reqs).len() == 8 * reqs.len(),
    decreases reqs.len(),
{
    if reqs.len() > 0 {
        lemma_pollfds_len(reqs.drop_last());
        lemma_u32_le(spec_bits32(reqs.last().spec_fd()));
        lemma_u16_le(spec_bits16(reqs.last().spec_events()));
        lemma_u16_le(spec_bits16(reqs.last().spec_revents()));
    }
}

/// The `ppoll` call that passes all of the given requests to the kernel,
/// with a timeout in milliseconds. More requests than the kernel can count
/// are refused with "invalid argument" and no call is made.
pub fn poll_call(reqs: &[PollRequest<'_>], timeout: i32) -> (r: Result<Syscall, Error>)
    ensures
        reqs@.len() > u32::MAX ==> r == Err::<Syscall, Error>(Error(EINVAL)),
        reqs@.len() <= u32::MAX ==> r is Ok && r->Ok_0.op == (Op::Ppoll {
            nfds: reqs@.len() as u32,
            timeout_sec: spec_timeout_sec(timeout) as i64,
            timeout_nsec: spec_timeout_nsec(timeout) as i64,
        }) && r->Ok_0.data@ == spec_pollfds(reqs@),
{
    if reqs.len() > 0xffff_ffff {
        return Err(Error::new(EINVAL));
    }
    let reqs_count: u32 = reqs.len() as u32;
    let (sec, nsec) = split_timeout(timeout);
    let mut data: Vec<u8> = Vec::new();
    let mut i: usize = 0;
    while i < reqs.len()
        invariant
            i <= reqs.len(),
            data@ == spec_pollfds(reqs@.subrange(0, i as int)),
        decreases reqs.len() - i,
    {
        let req = reqs[i];
        let ghost before = data@;
        push_u32(&mut data, bits32(req.fd));
        push_u16(&mut data, bits16(req.events));
        push_u16(&mut data, bits16(req.revents));
        proof {
            let next = reqs@.subrange(0, i + 1);
            assert(next.drop_last() =~= reqs@.subrange(0, i as int));
            assert(next.last() == req);
            assert(data@ =~= before + spec_pollfd(req));
        }
        i += 1;
    }
    assert(reqs@.subrange(0, i as int) =~= reqs@);
    Ok(
        Syscall::with_data(
            Op::Ppoll { nfds: reqs_count, timeout_sec: sec, timeout_nsec: nsec },
            data,
        ),
    )
}

/// What the kernel's answer to the call of [`poll_call`] means, with the
/// records as the kernel left them in `data`. On success each request
/// takes the events that the kernel reported in its record, and the result
/// is the number of requests that now have at least one response flag set;
/// on failure the requests stay as they were.
pub fn poll(reqs: &mut [PollRequest<'_>], raw: u64, data: &[u8]) -> (r: Result<i32, Error>)
    ensures
        r == spec_int_result(raw),
        final(reqs)@.len() == old(reqs)@.len(),
        r is Err ==> final(reqs)@ == old(reqs)@,
        r is Ok ==> forall|i: int|
            0 <= i < old(reqs)@.len() ==> {
                &&& (#[trigger] final(reqs)@[i]).spec_fd() == old(reqs)@[i].spec_fd()
                &&& final(reqs)@[i].spec_events() == old(reqs)@[i].spec_events()
                &&& final(reqs)@[i].spec_revents() == as_signed16(le_u16(data@, 8 * i + 6))
            },
{
    match prepare_standard_result::<i32>(raw) {
        Ok(count) => {
            let mut i: usize = 0;
            let data_len: usize = data.len();
            while i < reqs.len()
                invariant
                    i <= reqs@.len(),
                    data_len == data@.len(),
                    reqs@.len() == old(reqs)@.len(),
                    forall|j: int|
                        0 <= j < i ==> {
                            &&& (#[trigger] reqs@[j]).spec_fd() == old(reqs)@[j].spec_fd()
                            &&& reqs@[j].spec_events() == old(reqs)@[j].spec_events()
                            &&& reqs@[j].spec_revents() == as_signed16(le_u16(data@, 8 * j + 6))
                        },
                    forall|j: int| i <= j < reqs@.len() ==> reqs@[j] == old(reqs)@[j],
                decreases reqs@.len() - i,
            {
                let revents: i16 = if i <= (usize::MAX - 6) / 8 {
                    signed16(read_u16(data, 8 * i + 6))
                } else {
                    0
                };
                let mut req = reqs[i];
                req.report(revents);
                reqs[i] = req;
                i += 1;
            }
            Ok(count)
        },
        Err(e) => Err(Error(e.0)),
    }
}

} // verus!
