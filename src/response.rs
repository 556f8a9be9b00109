//! The response side of a transfer: the state that the engine's events fill
//! and the caller's reads drain.
//!
//! The embedding program owns the engine and runs two loops over one
//! `ResponseData`. While a request is executed it performs one pump step (a
//! bounded wait, then the engine's work), feeds each header line and body
//! chunk the engine delivered into `on_header_line` and `on_body`, and hands
//! the step's outcome to `execute_step`, until that says the response is
//! ready or failed. Each later read asks `read_step` what to do: pump once
//! more, copy the bytes it hands out, or stop.
//!
//! Headers count as received (`headers_done`) when the first body bytes
//! arrive or when the transfer completes, whichever comes first; a header
//! line alone does not end the wait, since the engine delivers the header
//! blocks of every redirect it follows before the final one, and a line does
//! not tell which block it ends. A connection that closes with no headers at
//! all is reported by the engine as a failure and yields no response.
use crate::error::{maps_code, Error, Kind, ENGINE_OK};
use crate::header::{lookup, parse_header_line, parse_line, parse_lines, HeaderMap};
use crate::number::{parse_u64, parse_unsigned};
use std::collections::VecDeque;
use vstd::prelude::*;
use vstd::utf8::{decode_utf8, valid_utf8};

verus! {

/// What one pump step (a bounded wait, then the engine's work) observed.
#[derive(Debug, Clone, Copy, PartialEq, Eq)]
pub enum Pump {
    /// The transfer is still running.
    Pending,
    /// The transfer ended with this result code.
    Finished(u32),
    /// The engine failed to drive the transfer, with this code.
    Faulted(u32),
}

/// What the request's execution does next.
pub enum ExecuteStep {
    /// Pump once more: the response headers have not arrived.
    Pump,
    /// The response headers have arrived: hand out the response.
    Ready,
    /// The transfer failed: no response is produced.
    Failed(Error),
}

/// What a read does next.
pub enum ReadStep {
    /// Pump once more: no bytes are queued and more may come.
    Pump,
    /// Copy these bytes out, in order.
    Bytes(Vec<u8>),
    /// The read is over: the room asked for is filled or nothing more will
    /// ever arrive.
    Done,
}

/// The stages a response goes through.
#[derive(Debug, Clone, Copy, PartialEq, Eq, Structural)]
pub enum Phase {
    AwaitingHeaders,
    StreamingBody,
    Completed,
    Failed,
}

/// The state of a response, as the contracts see it.
pub struct ResponseView {
    /// The latched status code; zero while it is not yet known.
    pub status: u16,
    pub headers: Seq<(Seq<u8>, Seq<u8>)>,
    /// Body bytes received and not yet read.
    pub queue: Seq<u8>,
    pub headers_done: bool,
    /// No more bytes will ever arrive.
    pub completed: bool,
    pub failed: bool,
    /// Every body byte the engine delivered, in delivery order.
    pub received: Seq<u8>,
    /// Every body byte handed out to reads, in order.
    pub drained: Seq<u8>,
}

/// What holds of every response state.
pub open spec fn response_invariant(v: ResponseView) -> bool {
    &&& v.received == v.drained + v.queue
    &&& v.failed ==> v.completed
    &&& (v.completed && !v.failed) ==> v.headers_done
    &&& v.status != 0 ==> v.headers_done && 100 <= v.status <= 999
}

pub open spec fn spec_phase(v: ResponseView) -> Phase {
    if v.failed {
        Phase::Failed
    } else if !v.headers_done || v.status == 0 {
        Phase::AwaitingHeaders
    } else if v.completed && v.queue.len() == 0 {
        Phase::Completed
    } else {
        Phase::StreamingBody
    }
}

/// The state after the engine delivered a body chunk: it is queued and
/// headers count as received, unless the stream is already completed, when
/// the chunk is dropped.
pub open spec fn after_body(v: ResponseView, chunk: Seq<u8>) -> ResponseView {
    if v.completed {
        v
    } else {
        ResponseView {
            headers_done: true,
            queue: v.queue + chunk,
            received: v.received + chunk,
            ..v
        }
    }
}

/// The state after a header line: until headers count as received, each
/// line that parses adds its entry; others, and all later lines, are dropped.
pub open spec fn after_header_line(v: ResponseView, line: Seq<u8>) -> ResponseView {
    if !v.headers_done && parse_line(line) is Some {
        ResponseView { headers: v.headers.push(parse_line(line)->0), ..v }
    } else {
        v
    }
}

/// Whether a pump outcome ends the transfer with an error.
pub open spec fn pump_fails(p: Pump) -> bool {
    match p {
        Pump::Pending => false,
        Pump::Finished(c) => c != ENGINE_OK,
        Pump::Faulted(_) => true,
    }
}

pub open spec fn pump_code(p: Pump) -> u32 {
    match p {
        Pump::Pending => ENGINE_OK,
        Pump::Finished(c) => c,
        Pump::Faulted(c) => c,
    }
}

/// The state after a pump step: a successful end completes the stream (and
/// so ends the wait for headers), a failure completes it as failed, and once
/// completed the stream takes no more outcomes.
pub open spec fn after_pump(v: ResponseView, p: Pump) -> ResponseView {
    if v.completed || p == Pump::Pending {
        v
    } else if pump_fails(p) {
        ResponseView { completed: true, failed: true, ..v }
    } else {
        ResponseView { completed: true, headers_done: true, ..v }
    }
}

/// The error a pump step surfaces, if any.
pub open spec fn pump_result_ok(v: ResponseView, p: Pump, r: Result<(), Error>) -> bool {
    if !v.completed && pump_fails(p) {
        r matches Err(e) && maps_code(e.kind, pump_code(p)) && e.url is None
    } else {
        r is Ok
    }
}

/// The state after `n` bytes are read from the front of the queue.
pub open spec fn after_take(v: ResponseView, n: int) -> ResponseView {
    ResponseView {
        queue: v.queue.subrange(n, v.queue.len() as int),
        drained: v.drained + v.queue.subrange(0, n),
        ..v
    }
}

pub open spec fn min(a: int, b: int) -> int {
    if a <= b {
        a
    } else {
        b
    }
}

/// The `Content-Length` that a header list reports: its first value, read
/// as an unsigned decimal number.
pub open spec fn spec_content_length(headers: Seq<(Seq<u8>, Seq<u8>)>) -> Option<u64> {
    let found = lookup(headers, content_length_key());
    if found.len() > 0 {
        parse_unsigned(found[0])
    } else {
        None
    }
}

/// The bytes of `content-length`.
pub open spec fn content_length_key() -> Seq<u8> {
    seq![99u8, 111, 110, 116, 101, 110, 116, 45, 108, 101, 110, 103, 116, 104]
}

/// The error for a reported status code that is no HTTP status.
pub open spec fn invalid_status_error(e: Error, reported: i64) -> bool {
    &&& e.kind matches Kind::Other(code, m) && code == reported && m@ == "invalid status code"@
    &&& e.url is None
}

/// Relies on http::StatusCode::from_u16, which accepts exactly the codes
/// from 100 to 999, and on StatusCode::as_u16, which gives the code back.
#[verifier::external_body]
fn status_from_code(n: u16) -> (r: Option<u16>)
    ensures
        r == (if 100 <= n <= 999 {
            Some(n)
        } else {
            None
        }),
{
    http::StatusCode::from_u16(n).ok().map(|s| s.as_u16())
}

/// Relies on String::from_utf8, which accepts exactly the valid UTF-8 byte
/// sequences and keeps the characters they encode.
#[verifier::external_body]
fn utf8_string(b: Vec<u8>) -> (r: Option<String>)
    ensures
        r is Some <==> valid_utf8(b@),
        r matches Some(s) ==> s@ == decode_utf8(b@),
{
    String::from_utf8(b).ok()
}

/// Decodes a whole body as UTF-8; invalid UTF-8 fails with `NotUtf8`, and
/// no part of the text is returned then.
pub fn text_from_bytes(b: Vec<u8>) -> (r: Result<String, Error>)
    ensures
        match r {
            Ok(s) => valid_utf8(b@) && s@ == decode_utf8(b@),
            Err(e) => !valid_utf8(b@) && e.kind == Kind::NotUtf8 && e.url is None,
        },
{
    match utf8_string(b) {
        Some(s) => Ok(s),
        None => Err(Error::new(Kind::NotUtf8, None)),
    }
}

/// The state after a run of header lines, taken one at a time.
pub open spec fn after_header_lines(v: ResponseView, lines: Seq<Seq<u8>>) -> ResponseView
    decreases lines.len(),
{
    if lines.len() == 0 {
        v
    } else {
        after_header_line(after_header_lines(v, lines.drop_last()), lines.last())
    }
}

/// Until headers count as received, the header sink collects exactly what
/// parsing the lines yields, after what was already there, in arrival order.
pub proof fn lemma_header_sink_collects_lines(v: ResponseView, lines: Seq<Seq<u8>>)
    requires
        !v.headers_done,
    ensures
        after_header_lines(v, lines) == (ResponseView {
            headers: v.headers + parse_lines(lines),
            ..v
        }),
    decreases lines.len(),
{
    if lines.len() == 0 {
        assert(v.headers + parse_lines(lines) =~= v.headers);
    } else {
        lemma_header_sink_collects_lines(v, lines.drop_last());
        if parse_line(lines.last()) is Some {
            assert(v.headers + parse_lines(lines) =~= (v.headers + parse_lines(
                lines.drop_last(),
            )).push(parse_line(lines.last())->0));
        }
    }
}

/// Reads hand out the body in delivery order: what they gave so far is a
/// prefix of what the engine delivered, and once the queue is empty it is
/// all of it.
pub proof fn lemma_reads_follow_delivery(v: ResponseView)
    requires
        response_invariant(v),
    ensures
        v.drained.is_prefix_of(v.received),
        v.queue.len() == 0 ==> v.drained == v.received,
{
    assert(v.received.subrange(0, v.drained.len() as int) =~= v.drained);
    if v.queue.len() == 0 {
        assert(v.received =~= v.drained);
    }
}

/// How the engine cuts the body into chunks does not show: two chunks in a
/// row leave the state that their concatenation leaves.
pub proof fn lemma_chunking_is_invisible(v: ResponseView, a: Seq<u8>, b: Seq<u8>)
    ensures
        after_body(after_body(v, a), b) == after_body(v, a + b),
{
    if !v.completed {
        assert(v.queue + a + b =~= v.queue + (a + b));
        assert(v.received + a + b =~= v.received + (a + b));
    }
}

/// How reads cut the queue does not show either: taking `n` bytes, then
/// `m`, leaves the state that taking `n + m` at once leaves.
pub proof fn lemma_read_sizes_are_invisible(v: ResponseView, n: int, m: int)
    requires
        0 <= n,
        0 <= m,
        n + m <= v.queue.len(),
    ensures
        after_take(after_take(v, n), m) == after_take(v, n + m),
{
    let q = v.queue;
    assert(q.subrange(n, q.len() as int).subrange(m, q.len() - n) =~= q.subrange(
        n + m,
        q.len() as int,
    ));
    assert(v.drained + q.subrange(0, n) + q.subrange(n, q.len() as int).subrange(0, m)
        =~= v.drained + q.subrange(0, n + m));
}

/// A response is only streamed once its headers are received and its status
/// is latched.
pub proof fn lemma_streaming_needs_headers(v: ResponseView)
    requires
        response_invariant(v),
        spec_phase(v) == Phase::StreamingBody || spec_phase(v) == Phase::Completed,
    ensures
        v.headers_done,
        100 <= v.status <= 999,
{
}

/// The state of one response: status, headers, the queue of unread body
/// bytes, and whether headers are received and the stream is completed.
pub struct ResponseData {
    queue: VecDeque<u8>,
    headers_done: bool,
    completed: bool,
    failed: bool,
    headers: HeaderMap,
    status_code: u16,
    received: Ghost<Seq<u8>>,
    drained: Ghost<Seq<u8>>,
}

impl View for ResponseData {
    type V = ResponseView;

    closed spec fn view(&self) -> ResponseView {
        ResponseView {
            status: self.status_code,
            headers: self.headers@,
            queue: self.queue@,
            headers_done: self.headers_done,
            completed: self.completed,
            failed: self.failed,
            received: self.received@,
            drained: self.drained@,
        }
    }
}

impl ResponseData {
    pub open spec fn wf(&self) -> bool {
        response_invariant(self@)
    }

    pub fn new() -> (r: ResponseData)
        ensures
            r.wf(),
            r@.status == 0,
            r@.headers == Seq::<(Seq<u8>, Seq<u8>)>::empty(),
            r@.queue == Seq::<u8>::empty(),
            !r@.headers_done,
            !r@.completed,
            !r@.failed,
            r@.received == Seq::<u8>::empty(),
            r@.drained == Seq::<u8>::empty(),
    {
        let r = ResponseData {
            queue: VecDeque::new(),
            headers_done: false,
            completed: false,
            failed: false,
            headers: HeaderMap::new(),
            status_code: 0,
            received: Ghost(Seq::empty()),
            drained: Ghost(Seq::empty()),
        };
        assert(r@.received == r@.drained + r@.queue);
        r
    }

    /// Takes one raw header line from the engine; returns whether it added
    /// an entry.
    pub fn on_header_line(&mut self, line: &[u8]) -> (stored: bool)
        requires
            old(self).wf(),
        ensures
            final(self).wf(),
            final(self)@ == after_header_line(old(self)@, line@),
            stored == (final(self)@.headers.len() > old(self)@.headers.len()),
    {
        if self.headers_done {
            return false;
        }
        match parse_header_line(line) {
            Some((name, value)) => {
                self.headers.append(name, value);
                true
            },
            None => false,
        }
    }

    /// Takes one body chunk from the engine.
    pub fn on_body(&mut self, chunk: &[u8])
        requires
            old(self).wf(),
        ensures
            final(self).wf(),
            final(self)@ == after_body(old(self)@, chunk@),
    {
        if self.completed {
            return;
        }
        self.headers_done = true;
        let mut i: usize = 0;
        while i < chunk.len()
            invariant
                i <= chunk@.len(),
                !self.completed,
                self.headers_done,
                self.failed == old(self).failed,
                self.status_code == old(self).status_code,
                self.headers@ == old(self).headers@,
                self.drained@ == old(self).drained@,
                self.queue@ == old(self).queue@ + chunk@.subrange(0, i as int),
                self.received@ == old(self).received@ + chunk@.subrange(0, i as int),
            decreases chunk@.len() - i,
        {
            self.queue.push_back(chunk[i]);
            proof {
                self.received@ = self.received@.push(chunk@[i as int]);
            }
            assert(chunk@.subrange(0, i + 1) =~= chunk@.subrange(0, i as int).push(chunk@[i as int]));
            assert(self.queue@ =~= old(self).queue@ + chunk@.subrange(0, i + 1));
            i = i + 1;
        }
        assert(chunk@.subrange(0, chunk@.len() as int) =~= chunk@);
        assert(self@.received =~= self@.drained + self@.queue);
        assert(self@ =~= after_body(old(self)@, chunk@));
    }

    /// Takes the outcome of one pump step.
    pub fn on_pump(&mut self, p: Pump) -> (r: Result<(), Error>)
        requires
            old(self).wf(),
        ensures
            final(self).wf(),
            final(self)@ == after_pump(old(self)@, p),
            pump_result_ok(old(self)@, p, r),
    {
        if self.completed {
            return Ok(());
        }
        match p {
            Pump::Pending => Ok(()),
            Pump::Finished(c) => {
                if c == ENGINE_OK {
                    self.completed = true;
                    self.headers_done = true;
                    Ok(())
                } else {
                    self.completed = true;
                    self.failed = true;
                    Err(Error::new(crate::error::kind_from_code(c), None))
                }
            },
            Pump::Faulted(c) => {
                self.completed = true;
                self.failed = true;
                Err(Error::new(crate::error::kind_from_code(c), None))
            },
        }
    }

    /// Decides what executing the request does after a pump step: pump
    /// again, hand out the response once headers are received, or fail.
    pub fn execute_step(&mut self, p: Pump) -> (r: ExecuteStep)
        requires
            old(self).wf(),
            !old(self)@.completed,
        ensures
            final(self).wf(),
            final(self)@ == after_pump(old(self)@, p),
            match r {
                ExecuteStep::Ready => final(self)@.headers_done && !final(self)@.failed,
                ExecuteStep::Pump => !final(self)@.headers_done && !final(self)@.completed,
                ExecuteStep::Failed(e) => final(self)@.failed && maps_code(e.kind, pump_code(p))
                    && e.url is None,
            },
            pump_fails(p) <==> r is Failed,
    {
        match self.on_pump(p) {
            Err(e) => ExecuteStep::Failed(e),
            Ok(()) => {
                if self.headers_done {
                    ExecuteStep::Ready
                } else {
                    ExecuteStep::Pump
                }
            },
        }
    }

    /// Latches the status code the engine reports once headers are
    /// received; a code outside 100 to 999 fails the response.
    pub fn latch_status(&mut self, reported: i64) -> (r: Result<(), Error>)
        requires
            old(self).wf(),
            old(self)@.headers_done,
            !old(self)@.failed,
        ensures
            final(self).wf(),
            match r {
                Ok(()) => 100 <= reported <= 999 && final(self)@ == (ResponseView {
                    status: reported as u16,
                    ..old(self)@
                }),
                Err(e) => !(100 <= reported <= 999) && final(self)@ == old(self)@
                    && invalid_status_error(e, reported),
            },
    {
        let code = if 0 <= reported && reported <= 65535 {
            status_from_code(reported as u16)
        } else {
            None
        };
        match code {
            Some(c) => {
                self.status_code = c;
                Ok(())
            },
            None => Err(
                Error::new(Kind::Other(reported, String::from_str("invalid status code")), None),
            ),
        }
    }

    /// Decides what a read with `room` bytes of space left does next: copy
    /// out what is queued (at most `room` bytes), pump once more when the
    /// queue is empty and more may come, or stop.
    pub fn read_step(&mut self, room: usize) -> (r: ReadStep)
        requires
            old(self).wf(),
        ensures
            final(self).wf(),
            match r {
                ReadStep::Bytes(b) => room > 0 && old(self)@.queue.len() > 0 && b@.len() == min(
                    room as int,
                    old(self)@.queue.len() as int,
                ) && b@ == old(self)@.queue.subrange(0, b@.len() as int) && final(self)@
                    == after_take(old(self)@, b@.len() as int),
                ReadStep::Pump => room > 0 && old(self)@.queue.len() == 0 && !old(self)@.completed
                    && final(self)@ == old(self)@,
                ReadStep::Done => (room == 0 || (old(self)@.queue.len() == 0
                    && old(self)@.completed)) && final(self)@ == old(self)@,
            },
            (old(self)@.completed && old(self)@.queue.len() == 0) ==> r is Done && final(self)@
                == old(self)@,
    {
        if room == 0 {
            return ReadStep::Done;
        }
        if self.queue.len() == 0 {
            if self.completed {
                return ReadStep::Done;
            } else {
                return ReadStep::Pump;
            }
        }
        ReadStep::Bytes(self.take(room))
    }

    fn take(&mut self, max: usize) -> (b: Vec<u8>)
        requires
            old(self).wf(),
        ensures
            final(self).wf(),
            b@.len() == min(max as int, old(self)@.queue.len() as int),
            b@ == old(self)@.queue.subrange(0, b@.len() as int),
            final(self)@ == after_take(old(self)@, b@.len() as int),
    {
        let n: usize = if max < self.queue.len() {
            max
        } else {
            self.queue.len()
        };
        let mut out: Vec<u8> = Vec::new();
        let mut i: usize = 0;
        while i < n
            invariant
                i <= n,
                n == min(max as int, old(self)@.queue.len() as int),
                out@ == old(self)@.queue.subrange(0, i as int),
                self.queue@ == old(self)@.queue.subrange(i as int, old(self)@.queue.len() as int),
                self.drained@ == old(self)@.drained + out@,
                self.received@ == old(self).received@,
                self.headers_done == old(self).headers_done,
                self.completed == old(self).completed,
                self.failed == old(self).failed,
                self.status_code == old(self).status_code,
                self.headers@ == old(self).headers@,
            decreases n - i,
        {
            let b = self.queue.pop_front();
            match b {
                Some(x) => {
                    out.push(x);
                    proof {
                        self.drained@ = self.drained@.push(x);
                    }
                },
                None => {},
            }
            assert(out@ =~= old(self)@.queue.subrange(0, i + 1));
            assert(self.queue@ =~= old(self)@.queue.subrange(i + 1, old(self)@.queue.len() as int));
            i = i + 1;
        }
        assert(self@.received =~= self@.drained + self@.queue);
        assert(self@ =~= after_take(old(self)@, n as int));
        out
    }

    /// The latched status code; zero until it is known.
    pub fn status(&self) -> (s: u16)
        ensures
            s == self@.status,
    {
        self.status_code
    }

    /// The received headers, in arrival order.
    pub fn headers(&self) -> (h: &HeaderMap)
        ensures
            h@ == self@.headers,
    {
        &self.headers
    }

    /// The first value of the header `name`, compared without regard to case.
    pub fn header(&self, name: &[u8]) -> (r: Option<Vec<u8>>)
        ensures
            match r {
                Some(v) => lookup(self@.headers, name@).len() > 0 && v@ == lookup(
                    self@.headers,
                    name@,
                )[0],
                None => lookup(self@.headers, name@).len() == 0,
            },
    {
        self.headers.get(name)
    }

    /// The length of the body as the server reported it in `Content-Length`,
    /// when that header is present and holds a number.
    ///
    /// This is the server's claim: the body may turn out shorter or longer,
    /// so it is no bound to size buffers by.
    pub fn content_length(&self) -> (r: Option<u64>)
        ensures
            r == spec_content_length(self@.headers),
    {
        let name: Vec<u8> = vec![99u8, 111, 110, 116, 101, 110, 116, 45, 108, 101, 110, 103, 116, 104];
        match self.headers.get(name.as_slice()) {
            Some(v) => parse_u64(v.as_slice()),
            None => None,
        }
    }

    pub fn headers_done(&self) -> (b: bool)
        ensures
            b == self@.headers_done,
    {
        self.headers_done
    }

    pub fn completed(&self) -> (b: bool)
        ensures
            b == self@.completed,
    {
        self.completed
    }

    pub fn failed(&self) -> (b: bool)
        ensures
            b == self@.failed,
    {
        self.failed
    }

    /// The number of body bytes received and not yet read.
    pub fn queued(&self) -> (n: usize)
        ensures
            n == self@.queue.len(),
    {
        self.queue.len()
    }

    pub fn phase(&self) -> (p: Phase)
        ensures
            p == spec_phase(self@),
    {
        if self.failed {
            Phase::Failed
        } else if !self.headers_done || self.status_code == 0 {
            Phase::AwaitingHeaders
        } else if self.completed && self.queue.len() == 0 {
            Phase::Completed
        } else {
            Phase::StreamingBody
        }
    }
}

} // verus!
