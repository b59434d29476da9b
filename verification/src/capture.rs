//! The steady-state loop: what to do with each event that the device
//! delivers.
//!
//! Waiting for the device and talking to the transport happen outside
//! this library. The loop is told each event and answers with the action
//! to take. A frame that fails to convert ends the run: the request is
//! not queued again and nothing is transmitted.

use std::ops::{Deref, DerefMut};
use vstd::prelude::*;
use crate::buffer::{zeroed, DoubleBuffer, Regions};
use crate::converter::{convert, outcome, written};
use crate::error::{CaptureError, ConversionError};
use crate::format::{FrameInfo, StreamConfiguration};
use crate::request::{advanced, RequestCycle, RequestState};

verus! {

/// How long the caller is to wait for a request to complete before it
/// reports a timeout, in seconds.
pub const COMPLETION_TIMEOUT_SECS: u64 = 10;

/// What the device side reports to the loop.
pub enum CaptureEvent<'a> {
    /// Request `request` has completed; `data` holds the bytes that the
    /// hardware wrote for the frame or, for the compressed encoding, the
    /// pixels that the decoder made of them.
    Completed { request: usize, data: &'a [u8] },
    /// Request `request` has completed with a compressed payload that
    /// could not be decoded.
    Undecodable { request: usize },
    /// No request completed within the timeout window.
    TimedOut,
}

/// What the loop asks of its caller.
#[derive(Clone, Copy, Debug, PartialEq, Eq, Structural)]
pub enum CaptureAction {
    /// Hand request `request` back to the device, then send the first
    /// `info.bytes_used` bytes of the current buffer, described by `info`.
    Transmit { request: usize, info: FrameInfo },
    /// Stop the run and report the error.
    Abort(CaptureError),
}

/// What a capture loop holds.
pub struct LoopState {
    pub cfg: StreamConfiguration,
    pub regions: Regions,
    pub requests: Seq<RequestState>,
}

/// The state of the steady-state loop: the negotiated configuration, the
/// double buffer for converted frames, and the capture requests.
pub struct CaptureLoop {
    cfg: StreamConfiguration,
    buffer: DoubleBuffer,
    requests: RequestCycle,
}

impl View for CaptureLoop {
    type V = LoopState;

    closed spec fn view(&self) -> LoopState {
        LoopState { cfg: self.cfg, regions: self.buffer@, requests: self.requests@ }
    }
}

/// Whether `request` names a request that is with the device.
pub open spec fn in_flight(requests: Seq<RequestState>, request: usize) -> bool {
    request < requests.len() && requests[request as int] == RequestState::Queued
}

/// The claim of a step that ends the run: it reports `error`, leaves the
/// buffers alone and leaves the requests as `requests`.
pub open spec fn aborted(
    before: LoopState,
    after: LoopState,
    action: CaptureAction,
    error: CaptureError,
    requests: Seq<RequestState>,
) -> bool {
    &&& action == CaptureAction::Abort(error)
    &&& after.regions == before.regions
    &&& after.requests == requests
}

/// The claim of a step for a completed request whose frame is `data`.
pub open spec fn frame_handled(
    before: LoopState,
    after: LoopState,
    action: CaptureAction,
    request: usize,
    data: Seq<u8>,
) -> bool {
    if !in_flight(before.requests, request) {
        aborted(before, after, action, CaptureError::UnexpectedRequest, before.requests)
    } else {
        match outcome(before.cfg, data, before.regions.next().len()) {
            Err(e) => aborted(
                before,
                after,
                action,
                CaptureError::Conversion(e),
                advanced(before.requests, request as int, RequestState::Queued),
            ),
            Ok(info) => {
                &&& action == CaptureAction::Transmit { request, info }
                &&& after.requests == before.requests
                &&& after.regions.a_is_current == !before.regions.a_is_current
                &&& after.regions.next() == before.regions.current()
                &&& written(before.cfg, data, before.regions.next(), after.regions.current())
                &&& info.bytes_used <= after.regions.current().len()
            },
        }
    }
}

impl CaptureLoop {
    /// A loop for `cfg` with `requests` capture requests, none of them
    /// queued yet, and two zeroed buffers of the canonical frame length.
    /// `None` where that length exceeds what the machine can address.
    pub fn new(cfg: StreamConfiguration, requests: usize) -> (made: Option<CaptureLoop>)
        ensures
            made is Some <==> cfg.size.canonical_len() <= usize::MAX,
            made matches Some(capture) ==> {
                &&& capture@.cfg == cfg
                &&& capture@.regions.a_is_current
                &&& capture@.regions.a == zeroed(cfg.size.canonical_len() as nat)
                &&& capture@.regions.b == zeroed(cfg.size.canonical_len() as nat)
                &&& capture@.requests.len() == requests
                &&& forall|i: int|
                    0 <= i < requests ==> capture@.requests[i] == RequestState::Recycled
            },
    {
        proof {
            crate::geometry::canonical_len_is_four_per_pixel(cfg.size);
        }
        match cfg.size.checked_len(4) {
            Some(_) => Some(
                CaptureLoop {
                    cfg,
                    buffer: DoubleBuffer::new(cfg.size),
                    requests: RequestCycle::new(requests),
                },
            ),
            None => None,
        }
    }

    /// The configuration that the loop converts under.
    pub fn configuration(&self) -> (cfg: StreamConfiguration)
        ensures
            cfg == self@.cfg,
    {
        self.cfg
    }

    /// Records that every request has been submitted to the device.
    pub fn start(&mut self)
        ensures
            final(self)@.cfg == old(self)@.cfg,
            final(self)@.regions == old(self)@.regions,
            final(self)@.requests.len() == old(self)@.requests.len(),
            forall|i: int|
                0 <= i < old(self)@.requests.len() ==> final(self)@.requests[i] == if old(
                    self,
                )@.requests[i] == RequestState::Recycled {
                    RequestState::Queued
                } else {
                    old(self)@.requests[i]
                },
    {
        self.requests.queue_all();
    }

    /// The state of request `request`, or `None` where there is none.
    pub fn request_state(&self, request: usize) -> (state: Option<RequestState>)
        ensures
            state == if request < self@.requests.len() {
                Some(self@.requests[request as int])
            } else {
                None
            },
    {
        self.requests.state(request)
    }

    /// The frame that was converted last, in full.
    pub fn frame(&self) -> (bytes: &[u8])
        ensures
            bytes@ == self@.regions.current(),
    {
        self.buffer.deref()
    }

    /// The number of bytes of the current buffer that `info` covers:
    /// `info.bytes_used`, or the size of the buffer where that is less.
    pub open spec fn covered(current: Seq<u8>, info: FrameInfo) -> int {
        if info.bytes_used <= current.len() {
            info.bytes_used as int
        } else {
            current.len() as int
        }
    }

    /// The part of the current buffer that `info` covers, for reading.
    pub fn payload(&self, info: &FrameInfo) -> (bytes: &[u8])
        ensures
            bytes@ == self@.regions.current().subrange(
                0,
                CaptureLoop::covered(self@.regions.current(), *info),
            ),
    {
        let current = self.buffer.deref();
        let len: usize = if info.bytes_used <= current.len() {
            info.bytes_used
        } else {
            current.len()
        };
        &current[0..len]
    }

    /// The part of the current buffer that `info` covers, for a transport
    /// that asks for exclusive access. Nothing but that part is within
    /// reach of the borrow.
    pub fn payload_mut(&mut self, info: &FrameInfo) -> (bytes: &mut [u8])
        ensures
            bytes@ == old(self)@.regions.current().subrange(
                0,
                CaptureLoop::covered(old(self)@.regions.current(), *info),
            ),
            final(self)@.cfg == old(self)@.cfg,
            final(self)@.requests == old(self)@.requests,
            final(self)@.regions == old(self)@.regions.with_current(
                final(bytes)@ + old(self)@.regions.current().subrange(
                    CaptureLoop::covered(old(self)@.regions.current(), *info),
                    old(self)@.regions.current().len() as int,
                ),
            ),
    {
        let current = self.buffer.current_mut();
        let len: usize = if info.bytes_used <= current.len() {
            info.bytes_used
        } else {
            current.len()
        };
        let (head, _tail) = current.split_at_mut(len);
        head
    }

    /// Ends the run over request `request` with `error`.
    fn fail(&mut self, request: usize, error: ConversionError) -> (action: CaptureAction)
        requires
            in_flight(old(self)@.requests, request),
        ensures
            final(self)@.cfg == old(self)@.cfg,
            aborted(
                old(self)@,
                final(self)@,
                action,
                CaptureError::Conversion(error),
                advanced(old(self)@.requests, request as int, RequestState::Queued),
            ),
    {
        self.requests.complete(request);
        CaptureAction::Abort(CaptureError::Conversion(error))
    }

    /// Takes in one event and names the action that follows.
    ///
    /// A timeout ends the run with `CaptureTimeout`. So does, with
    /// `UnexpectedRequest`, the completion of a request that is not with
    /// the device. A completed frame is converted into the next buffer. If
    /// that fails, the run ends with the conversion error: the request
    /// stays completed and the buffers keep their roles. If it succeeds,
    /// the buffers are swapped, so that the new frame is the current one,
    /// and the request is recycled and queued again.
    pub fn step(&mut self, event: CaptureEvent<'_>) -> (action: CaptureAction)
        ensures
            final(self)@.cfg == old(self)@.cfg,
            final(self)@.requests.len() == old(self)@.requests.len(),
            match event {
                CaptureEvent::TimedOut => aborted(
                    old(self)@,
                    final(self)@,
                    action,
                    CaptureError::CaptureTimeout,
                    old(self)@.requests,
                ),
                CaptureEvent::Undecodable { request } => if in_flight(old(self)@.requests, request) {
                    aborted(
                        old(self)@,
                        final(self)@,
                        action,
                        CaptureError::Conversion(ConversionError::Corrupt),
                        advanced(old(self)@.requests, request as int, RequestState::Queued),
                    )
                } else {
                    aborted(
                        old(self)@,
                        final(self)@,
                        action,
                        CaptureError::UnexpectedRequest,
                        old(self)@.requests,
                    )
                },
                CaptureEvent::Completed { request, data } => frame_handled(
                    old(self)@,
                    final(self)@,
                    action,
                    request,
                    data@,
                ),
            },
    {
        match event {
            CaptureEvent::TimedOut => CaptureAction::Abort(CaptureError::CaptureTimeout),
            CaptureEvent::Undecodable { request } => {
                if self.requests.state(request) != Some(RequestState::Queued) {
                    return CaptureAction::Abort(CaptureError::UnexpectedRequest);
                }
                self.fail(request, ConversionError::Corrupt)
            },
            CaptureEvent::Completed { request, data } => {
                if self.requests.state(request) != Some(RequestState::Queued) {
                    return CaptureAction::Abort(CaptureError::UnexpectedRequest);
                }
                let converted = convert(&self.cfg, data, self.buffer.deref_mut());
                match converted {
                    Err(e) => self.fail(request, e),
                    Ok(info) => {
                        proof {
                            crate::converter::conversion_keeps_len(
                                self.cfg,
                                data@,
                                old(self)@.regions.next(),
                                self@.regions.next(),
                            );
                            crate::request::full_cycle_restores(old(self)@.requests, request as int);
                        }
                        self.buffer.swap();
                        self.requests.complete(request);
                        self.requests.recycle(request);
                        self.requests.queue(request);
                        CaptureAction::Transmit { request, info }
                    },
                }
            },
        }
    }
}

/// A step keeps the two regions of the buffer at one size.
pub proof fn step_keeps_regions_balanced(
    before: LoopState,
    after: LoopState,
    action: CaptureAction,
    request: usize,
    data: Seq<u8>,
)
    requires
        before.regions.balanced(),
        frame_handled(before, after, action, request, data),
    ensures
        after.regions.balanced(),
{
    if in_flight(before.requests, request) {
        match outcome(before.cfg, data, before.regions.next().len()) {
            Ok(_) => {
                crate::converter::conversion_keeps_len(
                    before.cfg,
                    data,
                    before.regions.next(),
                    after.regions.current(),
                );
            },
            Err(_) => {},
        }
    }
}

/// A conversion failure ends the run without a transmission: the action
/// is an abort that carries the failure, the request is left completed
/// and is not with the device, and both buffers are as they were.
pub proof fn failed_frame_is_not_requeued(
    before: LoopState,
    after: LoopState,
    action: CaptureAction,
    request: usize,
    data: Seq<u8>,
)
    requires
        in_flight(before.requests, request),
        outcome(before.cfg, data, before.regions.next().len()) is Err,
        frame_handled(before, after, action, request, data),
    ensures
        action == CaptureAction::Abort(
            CaptureError::Conversion(
                outcome(before.cfg, data, before.regions.next().len())->Err_0,
            ),
        ),
        after.requests[request as int] == RequestState::Completed,
        !in_flight(after.requests, request),
        after.regions == before.regions,
{
}

/// A frame that converts is transmitted from the buffer that was next,
/// and its request is with the device again.
pub proof fn converted_frame_is_requeued(
    before: LoopState,
    after: LoopState,
    action: CaptureAction,
    request: usize,
    data: Seq<u8>,
)
    requires
        in_flight(before.requests, request),
        outcome(before.cfg, data, before.regions.next().len()) is Ok,
        frame_handled(before, after, action, request, data),
    ensures
        action is Transmit,
        in_flight(after.requests, request),
        after.regions.a_is_current != before.regions.a_is_current,
{
}

} // verus!
