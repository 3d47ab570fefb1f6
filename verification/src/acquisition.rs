//! One scan pass as a state machine: started, reading, and then completed,
//! cancelled or failed.
//!
//! The caller talks to the backend. It asks [`Acquisition::next_request`] how
//! many bytes to ask for, reads, and hands the status and the bytes it got to
//! [`Acquisition::on_read`], until the pass has ended.

use crate::assemble::{assemble, assembly_error, Image};
use crate::handle::Handle;
use crate::parameters::Parameters;
use crate::status::{Error, SANE_STATUS_EOF, SANE_STATUS_GOOD};
use vstd::prelude::*;

verus! {

/// Where a scan pass stands.
#[derive(Clone, Copy, Debug, PartialEq, Eq, Structural)]
pub enum Phase {
    /// Begun, nothing read yet.
    Started,
    /// At least one read was answered, and more are needed.
    Reading,
    /// Every expected byte has arrived.
    Completed,
    /// Given up by the caller before it ended.
    Cancelled,
    /// Ended by a backend error or a breach of the protocol.
    Failed,
}

impl Phase {
    /// Whether reads are still to be made.
    pub open spec fn active(self) -> bool {
        self == Phase::Started || self == Phase::Reading
    }

    /// Whether reads are still to be made.
    pub fn is_active(self) -> (active: bool)
        ensures
            active == self.active(),
    {
        match self {
            Phase::Started => true,
            Phase::Reading => true,
            _ => false,
        }
    }
}

/// What a scan pass is, as plain values.
pub struct AcquisitionState {
    /// The device that the pass runs on.
    pub handle: Handle,
    pub parameters: Parameters,
    pub expected: nat,
    pub data: Seq<u8>,
    pub phase: Phase,
}

impl AcquisitionState {
    /// The state of a pass that has just begun.
    pub open spec fn initial(
        handle: Handle,
        parameters: Parameters,
        expected: nat,
    ) -> AcquisitionState {
        AcquisitionState { handle, parameters, expected, data: Seq::empty(), phase: Phase::Started }
    }

    /// The expected size is the one that the parameters give, no more bytes
    /// have arrived than that, and a completed pass has them all.
    pub open spec fn wf(self) -> bool {
        &&& self.parameters.size_outcome() is Ok
        &&& self.parameters.size_outcome().unwrap() == self.expected
        &&& self.data.len() <= self.expected
        &&& self.phase == Phase::Completed ==> self.data.len() == self.expected
    }

    /// The bytes that are still to come.
    pub open spec fn remaining(self) -> nat {
        (self.expected - self.data.len()) as nat
    }

    /// The error that a read's answer raises, if it raises one: a read on a
    /// pass that has ended, more bytes than are still to come, the end of the
    /// data before all bytes came, or any status but success and end of data.
    pub open spec fn read_error(self, status: u32, chunk: Seq<u8>) -> Option<Error> {
        if !self.phase.active() {
            Some(Error::Protocol)
        } else if chunk.len() > self.remaining() {
            Some(Error::Protocol)
        } else if status == SANE_STATUS_GOOD {
            None
        } else if status == SANE_STATUS_EOF {
            if self.data.len() + chunk.len() == self.expected {
                None
            } else {
                Some(Error::Protocol)
            }
        } else {
            Some(Error::Status(status))
        }
    }

    /// The state after a read was answered with `status` and `chunk`.
    ///
    /// A pass that has ended stays as it is. Bytes that fit are kept whatever
    /// the status says. The pass is completed as soon as every expected byte
    /// is there, goes on after a successful read that leaves bytes to come,
    /// even an empty one, and has failed in every other case.
    pub open spec fn after_read(self, status: u32, chunk: Seq<u8>) -> AcquisitionState {
        if !self.phase.active() {
            self
        } else if chunk.len() > self.remaining() {
            AcquisitionState { phase: Phase::Failed, ..self }
        } else {
            let data = self.data + chunk;
            let phase = if status == SANE_STATUS_GOOD || status == SANE_STATUS_EOF {
                if data.len() == self.expected {
                    Phase::Completed
                } else if status == SANE_STATUS_GOOD {
                    Phase::Reading
                } else {
                    Phase::Failed
                }
            } else {
                Phase::Failed
            };
            AcquisitionState { data, phase, ..self }
        }
    }

    /// The state after the answers of a run of reads, taken in order up to the
    /// first that raises an error or ends the pass, and that error.
    pub open spec fn after_reads(self, replies: Seq<(u32, Seq<u8>)>) -> (AcquisitionState, Option<
        Error,
    >)
        decreases replies.len(),
    {
        if replies.len() == 0 || !self.phase.active() {
            (self, None)
        } else {
            let (status, chunk) = replies[0];
            let next = self.after_read(status, chunk);
            let error = self.read_error(status, chunk);
            if error is Some {
                (next, error)
            } else {
                next.after_reads(replies.drop_first())
            }
        }
    }

    /// The state in which a run of reads leaves the pass when no more answers
    /// will come: a pass that is still waiting for bytes has failed.
    pub open spec fn closed(self) -> AcquisitionState {
        if self.phase.active() {
            AcquisitionState { phase: Phase::Failed, ..self }
        } else {
            self
        }
    }

    /// The result of a run of reads that left this state and raised `error`.
    pub open spec fn verdict(self, error: Option<Error>) -> Result<(), Error> {
        match error {
            Some(e) => Err(e),
            None => if self.phase == Phase::Completed {
                Ok(())
            } else {
                Err(Error::Protocol)
            },
        }
    }
}

/// The answer to one read: the status, and the bytes that were transferred.
#[derive(Debug)]
pub struct ReadReply {
    pub status: u32,
    pub data: Vec<u8>,
}

impl View for ReadReply {
    type V = (u32, Seq<u8>);

    open spec fn view(&self) -> (u32, Seq<u8>) {
        (self.status, self.data@)
    }
}

/// A scan pass on one device handle. It borrows the handle, so it cannot
/// outlive it.
#[derive(Debug)]
pub struct Acquisition<'a> {
    handle: &'a Handle,
    parameters: Parameters,
    expected: usize,
    data: Vec<u8>,
    phase: Phase,
}

impl<'a> View for Acquisition<'a> {
    type V = AcquisitionState;

    closed spec fn view(&self) -> AcquisitionState {
        AcquisitionState {
            handle: *self.handle,
            parameters: self.parameters,
            expected: self.expected as nat,
            data: self.data@,
            phase: self.phase,
        }
    }
}

impl<'a> Acquisition<'a> {
    /// A pass that has just begun on `handle`, for an image of the given
    /// parameters.
    ///
    /// Fails where the parameters give no byte count: with
    /// `Error::Unsupported` for a format that is neither gray nor RGB, with
    /// `Error::BadLength` for a number that is negative or a count that does
    /// not fit in memory.
    pub fn new(handle: &'a Handle, parameters: Parameters) -> (r: Result<Acquisition<'a>, Error>)
        ensures
            match parameters.size_outcome() {
                Ok(n) => r matches Ok(a) && a@ == AcquisitionState::initial(
                    *handle,
                    parameters,
                    n as nat,
                ) && a@.wf(),
                Err(e) => r matches Err(f) && f == e,
            },
    {
        match parameters.expected_size() {
            Ok(expected) => Ok(
                Acquisition {
                    handle,
                    parameters,
                    expected,
                    data: Vec::new(),
                    phase: Phase::Started,
                },
            ),
            Err(e) => Err(e),
        }
    }

    /// The device that the pass runs on.
    pub fn handle(&self) -> (handle: &'a Handle)
        ensures
            *handle == self@.handle,
    {
        self.handle
    }

    pub fn phase(&self) -> (phase: Phase)
        ensures
            phase == self@.phase,
    {
        self.phase
    }

    pub fn parameters(&self) -> (parameters: Parameters)
        ensures
            parameters == self@.parameters,
    {
        self.parameters
    }

    /// The number of bytes that the whole pass delivers.
    pub fn expected(&self) -> (expected: usize)
        ensures
            expected == self@.expected,
    {
        self.expected
    }

    /// The number of bytes that have arrived.
    pub fn received(&self) -> (received: usize)
        ensures
            received == self@.data.len(),
    {
        self.data.len()
    }

    /// How many bytes the next read may ask for, or `None` once the pass has
    /// ended.
    pub fn next_request(&self) -> (request: Option<usize>)
        requires
            self@.wf(),
        ensures
            request == if self@.phase.active() {
                Some(self@.remaining() as usize)
            } else {
                None
            },
    {
        if self.phase.is_active() {
            Some(self.expected - self.data.len())
        } else {
            None
        }
    }

    /// Takes the answer to one read: the backend's status, and the bytes that
    /// it transferred.
    ///
    /// Returns the phase that the pass is in afterwards, or the error that the
    /// answer raised; the pass has then failed, unless it had ended before.
    pub fn on_read(&mut self, status: u32, chunk: &[u8]) -> (r: Result<Phase, Error>)
        requires
            old(self)@.wf(),
        ensures
            final(self)@ == old(self)@.after_read(status, chunk@),
            r == match old(self)@.read_error(status, chunk@) {
                Some(e) => Err::<Phase, Error>(e),
                None => Ok(final(self)@.phase),
            },
            final(self)@.wf(),
    {
        if !self.phase.is_active() {
            return Err(Error::Protocol);
        }
        if chunk.len() > self.expected - self.data.len() {
            self.phase = Phase::Failed;
            return Err(Error::Protocol);
        }
        self.data.extend_from_slice(chunk);
        assert(self.data@ =~= old(self).data@ + chunk@);
        let full = self.data.len() == self.expected;
        if status == SANE_STATUS_GOOD {
            self.phase = if full {
                Phase::Completed
            } else {
                Phase::Reading
            };
            Ok(self.phase)
        } else if status == SANE_STATUS_EOF {
            if full {
                self.phase = Phase::Completed;
                Ok(Phase::Completed)
            } else {
                self.phase = Phase::Failed;
                Err(Error::Protocol)
            }
        } else {
            self.phase = Phase::Failed;
            Err(Error::Status(status))
        }
    }

    /// Takes the answers to a run of reads, in order, and ends the pass.
    ///
    /// The answers are taken up to the first that raises an error or ends the
    /// pass; later ones are not looked at. The result is `Ok` when the pass is
    /// then completed. Where the answers run out while bytes are still to
    /// come, the pass has failed with `Error::Protocol`.
    pub fn read_image(&mut self, replies: &Vec<ReadReply>) -> (r: Result<(), Error>)
        requires
            old(self)@.wf(),
        ensures
            ({
                let (end, error) = old(self)@.after_reads(replies@.map_values(|r: ReadReply| r@));
                &&& final(self)@ == end.closed()
                &&& r == end.verdict(error)
            }),
            final(self)@.wf(),
            r is Ok <==> final(self)@.phase == Phase::Completed,
    {
        let ghost all = replies@.map_values(|r: ReadReply| r@);
        let mut i: usize = 0;
        let mut error: Option<Error> = None;
        assert(all.skip(0) =~= all);
        while i < replies.len() && self.phase.is_active() && error.is_none()
            invariant
                i <= replies.len(),
                all == replies@.map_values(|r: ReadReply| r@),
                self@.wf(),
                error is Some ==> self@.phase == Phase::Failed,
                error is None ==> old(self)@.after_reads(all) == self@.after_reads(
                    all.skip(i as int),
                ),
                error is Some ==> old(self)@.after_reads(all) == (self@, error),
            decreases replies.len() - i, (if error is None { 1int } else { 0int }),
        {
            let ghost rest = all.skip(i as int);
            let reply = &replies[i];
            assert(rest[0] == reply@);
            assert(rest.drop_first() =~= all.skip(i + 1));
            match self.on_read(reply.status, reply.data.as_slice()) {
                Ok(_) => {
                    i = i + 1;
                },
                Err(e) => {
                    error = Some(e);
                },
            }
        }
        proof {
            if error is None {
                assert(self@.after_reads(all.skip(i as int)) == (self@, None::<Error>));
            }
        }
        match error {
            Some(e) => Err(e),
            None => {
                if self.phase.is_active() {
                    self.phase = Phase::Failed;
                    Err(Error::Protocol)
                } else {
                    match self.phase {
                        Phase::Completed => Ok(()),
                        _ => Err(Error::Protocol),
                    }
                }
            },
        }
    }

    /// Gives the pass up. A pass that was still reading is cancelled; one that
    /// had ended keeps the phase in which it ended. Either way the caller
    /// tells the backend to cancel.
    pub fn cancel(self) -> (phase: Phase)
        ensures
            phase == if self@.phase.active() {
                Phase::Cancelled
            } else {
                self@.phase
            },
    {
        if self.phase.is_active() {
            Phase::Cancelled
        } else {
            self.phase
        }
    }

    /// Takes the status with which the backend answered a new start on the
    /// same handle. On success the pass begins again, with nothing read; on
    /// any other status it stays as it was and the status is the error.
    pub fn restart(&mut self, status: u32) -> (r: Result<(), Error>)
        requires
            old(self)@.wf(),
        ensures
            r == crate::status::result_of(status),
            final(self)@ == if status == SANE_STATUS_GOOD {
                AcquisitionState::initial(
                    old(self)@.handle,
                    old(self)@.parameters,
                    old(self)@.expected,
                )
            } else {
                old(self)@
            },
            final(self)@.wf(),
    {
        if status != SANE_STATUS_GOOD {
            return Err(Error::Status(status));
        }
        self.data = Vec::new();
        self.phase = Phase::Started;
        Ok(())
    }

    /// The image that a completed pass has read.
    ///
    /// A pass that is not completed gives `Error::Protocol`. The bytes of a
    /// completed one are assembled by [`assemble`], with its errors.
    pub fn get_image(self) -> (r: Result<Image, Error>)
        ensures
            r matches Err(e) ==> Some(e) == image_error(self@),
            r matches Ok(image) ==> {
                &&& image_error(self@) is None
                &&& image.size() == (
                    self@.parameters.pixels_per_line as u32,
                    self@.parameters.lines as u32,
                )
                &&& image.samples() == self@.data
                &&& (image is Gray8 <==> self@.parameters.format
                    == crate::parameters::SANE_FRAME_GRAY)
            },
    {
        match self.phase {
            Phase::Completed => assemble(
                self.parameters.format,
                self.parameters.depth,
                self.parameters.pixels_per_line,
                self.parameters.lines,
                self.data,
            ),
            _ => Err(Error::Protocol),
        }
    }
}

/// Why a pass gives no image, or nothing where it gives one.
pub open spec fn image_error(s: AcquisitionState) -> Option<Error> {
    if s.phase != Phase::Completed {
        Some(Error::Protocol)
    } else {
        assembly_error(
            s.parameters.format,
            s.parameters.depth,
            s.parameters.pixels_per_line,
            s.parameters.lines,
            s.data,
        )
    }
}

/// A read leaves a well-formed pass well-formed, whatever the backend
/// answered.
pub proof fn lemma_read_keeps_wf(s: AcquisitionState, status: u32, chunk: Seq<u8>)
    requires
        s.wf(),
    ensures
        s.after_read(status, chunk).wf(),
{
}

/// A completed pass holds exactly as many bytes as its parameters give: bytes
/// per line, times lines, times whole bytes per sample, times samples per
/// pixel.
pub proof fn lemma_completed_is_full(s: AcquisitionState)
    requires
        s.wf(),
        s.phase == Phase::Completed,
    ensures
        s.data.len() == s.parameters.byte_count(),
{
}

/// The end of the data before every expected byte has come is a breach of the
/// protocol, and the pass has failed.
pub proof fn lemma_early_end_fails(s: AcquisitionState, chunk: Seq<u8>)
    requires
        s.wf(),
        s.phase.active(),
        s.data.len() + chunk.len() < s.expected,
    ensures
        s.read_error(SANE_STATUS_EOF, chunk) == Some(Error::Protocol),
        s.after_read(SANE_STATUS_EOF, chunk).phase == Phase::Failed,
{
}

/// More bytes than are still to come are a breach of the protocol, and the
/// pass has failed, whatever the status.
pub proof fn lemma_overrun_fails(s: AcquisitionState, status: u32, chunk: Seq<u8>)
    requires
        s.wf(),
        s.phase.active(),
        s.data.len() + chunk.len() > s.expected,
    ensures
        s.read_error(status, chunk) == Some(Error::Protocol),
        s.after_read(status, chunk).phase == Phase::Failed,
{
}

/// A successful read that transfers nothing is no error and no end: the pass
/// goes on reading while bytes are still to come.
pub proof fn lemma_empty_read_goes_on(s: AcquisitionState)
    requires
        s.wf(),
        s.phase.active(),
        s.data.len() < s.expected,
    ensures
        s.read_error(SANE_STATUS_GOOD, Seq::empty()) is None,
        s.after_read(SANE_STATUS_GOOD, Seq::empty()).phase == Phase::Reading,
        s.after_read(SANE_STATUS_GOOD, Seq::empty()).data == s.data,
{
    assert(s.data + Seq::<u8>::empty() =~= s.data);
}

/// Any status but success and end of data ends the pass with that status as
/// the error.
pub proof fn lemma_other_status_fails(s: AcquisitionState, status: u32, chunk: Seq<u8>)
    requires
        s.wf(),
        s.phase.active(),
        chunk.len() <= s.remaining(),
        status != SANE_STATUS_GOOD,
        status != SANE_STATUS_EOF,
    ensures
        s.read_error(status, chunk) == Some(Error::Status(status)),
        s.after_read(status, chunk).phase == Phase::Failed,
{
}

/// A run of reads leaves a well-formed pass well-formed. It succeeds only
/// with every expected byte collected, and it reports an error exactly when
/// it leaves the pass not completed.
pub proof fn lemma_reads_end_full_or_fail(s: AcquisitionState, replies: Seq<(u32, Seq<u8>)>)
    requires
        s.wf(),
    ensures
        ({
            let (end, error) = s.after_reads(replies);
            &&& end.wf()
            &&& end.closed().wf()
            &&& error is Some ==> end.phase == Phase::Failed || !s.phase.active()
            &&& end.verdict(error) is Ok <==> end.closed().phase == Phase::Completed
            &&& end.verdict(error) is Ok ==> end.data.len() == s.parameters.byte_count()
        }),
    decreases replies.len(),
{
    if replies.len() == 0 || !s.phase.active() {
    } else {
        let (status, chunk) = replies[0];
        let next = s.after_read(status, chunk);
        if s.read_error(status, chunk) is None {
            lemma_reads_end_full_or_fail(next, replies.drop_first());
        }
    }
}

/// The bytes of a run of answers, one chunk after the other.
pub open spec fn joined(replies: Seq<(u32, Seq<u8>)>) -> Seq<u8>
    decreases replies.len(),
{
    if replies.len() == 0 {
        Seq::empty()
    } else {
        replies[0].1 + joined(replies.drop_first())
    }
}

/// How many answers of a run are taken without an error: those up to the end
/// of the pass or to the first that raises one.
pub open spec fn taken(s: AcquisitionState, replies: Seq<(u32, Seq<u8>)>) -> nat
    decreases replies.len(),
{
    if replies.len() == 0 || !s.phase.active() {
        0
    } else if s.read_error(replies[0].0, replies[0].1) is Some {
        0
    } else {
        1 + taken(s.after_read(replies[0].0, replies[0].1), replies.drop_first())
    }
}

/// A run without an error holds what was there before and, after it, the
/// chunks of the answers that were taken, in the order in which they came.
pub proof fn lemma_reads_keep_order(s: AcquisitionState, replies: Seq<(u32, Seq<u8>)>)
    requires
        s.wf(),
        s.after_reads(replies).1 is None,
    ensures
        taken(s, replies) <= replies.len(),
        s.after_reads(replies).0.data == s.data + joined(
            replies.take(taken(s, replies) as int),
        ),
    decreases replies.len(),
{
    if replies.len() == 0 || !s.phase.active() {
        assert(replies.take(0) =~= Seq::empty());
        assert(s.data + Seq::<u8>::empty() =~= s.data);
    } else {
        let (status, chunk) = replies[0];
        let next = s.after_read(status, chunk);
        let rest = replies.drop_first();
        lemma_reads_keep_order(next, rest);
        let k = taken(next, rest);
        let head = replies.take((k + 1) as int);
        assert(head[0] == replies[0]);
        assert(head.drop_first() =~= rest.take(k as int));
        assert(s.data + (chunk + joined(rest.take(k as int))) =~= (s.data + chunk) + joined(
            rest.take(k as int),
        ));
    }
}

/// Whether a pass is started or reading makes no difference to what a run of
/// answers does to it, but for the phase in which an empty run leaves it.
proof fn lemma_reads_from_either_start(
    s: AcquisitionState,
    t: AcquisitionState,
    replies: Seq<(u32, Seq<u8>)>,
)
    requires
        s.phase.active(),
        t == (AcquisitionState { phase: Phase::Reading, ..s }),
    ensures
        s.after_reads(replies).1 == t.after_reads(replies).1,
        replies.len() > 0 ==> s.after_reads(replies).0 == t.after_reads(replies).0,
        replies.len() == 0 ==> s.after_reads(replies).0 == s && t.after_reads(replies).0 == t,
{
    if replies.len() > 0 {
        let (status, chunk) = replies[0];
        assert(s.after_read(status, chunk) == t.after_read(status, chunk));
        assert(s.read_error(status, chunk) == t.read_error(status, chunk));
    }
}

/// A successful read that transfers nothing, put anywhere into a run of
/// answers, changes neither the bytes that the run collects nor the error
/// that it raises. The pass ends in the same phase, except that one which
/// would have stayed started is now reading.
pub proof fn lemma_empty_read_changes_nothing(
    s: AcquisitionState,
    replies: Seq<(u32, Seq<u8>)>,
    at: int,
)
    requires
        s.wf(),
        s.phase.active(),
        s.data.len() < s.expected,
        0 <= at <= replies.len(),
    ensures
        ({
            let (with, raised) = s.after_reads(
                replies.insert(at, (SANE_STATUS_GOOD, Seq::<u8>::empty())),
            );
            let (without, error) = s.after_reads(replies);
            &&& raised == error
            &&& with.data == without.data
            &&& with.expected == without.expected
            &&& with.parameters == without.parameters
            &&& with.phase == without.phase || (without.phase == Phase::Started && with.phase
                == Phase::Reading)
        }),
    decreases replies.len(),
{
    let empty = (SANE_STATUS_GOOD, Seq::<u8>::empty());
    let longer = replies.insert(at, empty);
    if at == 0 {
        let t = s.after_read(SANE_STATUS_GOOD, Seq::<u8>::empty());
        assert(s.data + Seq::<u8>::empty() =~= s.data);
        assert(t == (AcquisitionState { phase: Phase::Reading, ..s }));
        assert(longer[0] == empty);
        assert(longer.drop_first() =~= replies);
        assert(s.after_reads(longer) == t.after_reads(replies));
        lemma_reads_from_either_start(s, t, replies);
    } else {
        let (status, chunk) = replies[0];
        let next = s.after_read(status, chunk);
        assert(longer[0] == replies[0]);
        assert(longer.drop_first() =~= replies.drop_first().insert(at - 1, empty));
        if s.read_error(status, chunk) is None && next.phase.active() {
            lemma_empty_read_changes_nothing(next, replies.drop_first(), at - 1);
        } else if s.read_error(status, chunk) is None {
            assert(next.after_reads(longer.drop_first()) == (next, None::<Error>));
            assert(next.after_reads(replies.drop_first()) == (next, None::<Error>));
        }
    }
}

} // verus!
