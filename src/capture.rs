//! The capture run: the worker's per-event decisions, the shared packet
//! buffer, and the controller that starts and stops runs.
use vstd::prelude::*;
use crate::archive::{archived, packet_views, Session, SessionArchive};
use crate::decoder::{decode_frame, decoded, outcome_view, ETHERNET_HEADER_LEN};
use crate::parsed_packet::{PacketView, ParsedPacket};

verus! {

/// The packets of a buffer after one decode outcome: a decoded packet is
/// appended, a skipped frame leaves the buffer as it was.
pub open spec fn recorded(buf: Seq<PacketView>, outcome: Option<PacketView>) -> Seq<PacketView> {
    match outcome {
        Some(p) => buf.push(p),
        None => buf,
    }
}

/// The decoded packets among some outcomes, in their order.
pub open spec fn captured(outcomes: Seq<Option<PacketView>>) -> Seq<PacketView>
    decreases outcomes.len(),
{
    if outcomes.len() == 0 {
        Seq::empty()
    } else {
        match outcomes.last() {
            Some(p) => captured(outcomes.drop_last()).push(p),
            None => captured(outcomes.drop_last()),
        }
    }
}

/// The buffer after one event of the worker loop.
pub open spec fn event_step(buf: Seq<PacketView>, event: CaptureEvent) -> Seq<PacketView> {
    match event {
        CaptureEvent::Frame(f) => recorded(buf, decoded(f@)),
        _ => buf,
    }
}

/// What the worker does after an event: it goes on after a frame or a
/// timeout, and stops on a fatal error or a stop request.
pub open spec fn event_action(event: CaptureEvent) -> WorkerAction {
    match event {
        CaptureEvent::Frame(_) | CaptureEvent::Timeout => WorkerAction::Continue,
        _ => WorkerAction::Stop,
    }
}

/// The buffer after a run of events, one after the other.
pub open spec fn fed(buf: Seq<PacketView>, events: Seq<CaptureEvent>) -> Seq<PacketView>
    decreases events.len(),
{
    if events.len() == 0 {
        buf
    } else {
        event_step(fed(buf, events.drop_last()), events.last())
    }
}

/// The decode outcomes of the frames among some events, in their order.
pub open spec fn frame_outcomes(events: Seq<CaptureEvent>) -> Seq<Option<PacketView>>
    decreases events.len(),
{
    if events.len() == 0 {
        Seq::empty()
    } else {
        match events.last() {
            CaptureEvent::Frame(f) => frame_outcomes(events.drop_last()).push(decoded(f@)),
            _ => frame_outcomes(events.drop_last()),
        }
    }
}

/// Feeding events to a buffer keeps the order of the frames: after any run
/// of events the buffer holds what it held before, followed by exactly the
/// packets of the frames that decoded, in the order the frames were
/// supplied. Timeouts, stop requests and fatal errors add nothing.
pub proof fn lemma_capture_order(buf: Seq<PacketView>, events: Seq<CaptureEvent>)
    ensures
        fed(buf, events) == buf + captured(frame_outcomes(events)),
    decreases events.len(),
{
    if events.len() > 0 {
        let prev = events.drop_last();
        lemma_capture_order(buf, prev);
        match events.last() {
            CaptureEvent::Frame(f) => {
                let outs = frame_outcomes(prev).push(decoded(f@));
                assert(outs.drop_last() =~= frame_outcomes(prev));
                assert(outs.last() == decoded(f@));
            },
            _ => {},
        }
        assert(fed(buf, events) =~= buf + captured(frame_outcomes(events)));
    }
}

proof fn lemma_captured_all(outcomes: Seq<Option<PacketView>>)
    requires
        forall|i: int| 0 <= i < outcomes.len() ==> #[trigger] outcomes[i] is Some,
    ensures
        captured(outcomes).len() == outcomes.len(),
    decreases outcomes.len(),
{
    if outcomes.len() > 0 {
        let rest = outcomes.drop_last();
        assert forall|i: int| 0 <= i < rest.len() implies #[trigger] rest[i] is Some by {
            assert(rest[i] == outcomes[i]);
        }
        lemma_captured_all(rest);
        assert(outcomes[outcomes.len() - 1] is Some);
    }
}

proof fn lemma_captured_none(outcomes: Seq<Option<PacketView>>)
    requires
        forall|i: int| 0 <= i < outcomes.len() ==> #[trigger] outcomes[i] is None,
    ensures
        captured(outcomes).len() == 0,
    decreases outcomes.len(),
{
    if outcomes.len() > 0 {
        let rest = outcomes.drop_last();
        assert forall|i: int| 0 <= i < rest.len() implies #[trigger] rest[i] is None by {
            assert(rest[i] == outcomes[i]);
        }
        lemma_captured_none(rest);
        assert(outcomes[outcomes.len() - 1] is None);
    }
}

/// Starting from a fresh buffer, a run whose `k` frames all decode (with any
/// timeouts among them) leaves exactly `k` packets; stopping then adds
/// exactly one session of length `k` to the archive, and none when `k` is 0.
pub proof fn lemma_session_per_run(archive: Seq<Seq<PacketView>>, events: Seq<CaptureEvent>)
    requires
        forall|i: int| 0 <= i < frame_outcomes(events).len() ==> #[trigger] frame_outcomes(events)[i] is Some,
    ensures
        fed(Seq::empty(), events).len() == frame_outcomes(events).len(),
        frame_outcomes(events).len() > 0 ==> {
            &&& archived(archive, fed(Seq::empty(), events)).len() == archive.len() + 1
            &&& archived(archive, fed(Seq::empty(), events)).last().len() == frame_outcomes(events).len()
            &&& archived(archive, fed(Seq::empty(), events)).take(archive.len() as int) == archive
        },
        frame_outcomes(events).len() == 0 ==> archived(archive, fed(Seq::empty(), events)) == archive,
{
    lemma_capture_order(Seq::empty(), events);
    lemma_captured_all(frame_outcomes(events));
    let run = fed(Seq::empty(), events);
    assert(run =~= captured(frame_outcomes(events)));
    assert(archived(archive, run).take(archive.len() as int) =~= archive);
}

/// A run in which no frame decodes leaves the buffer empty, and stopping it
/// adds no session to the archive.
pub proof fn lemma_no_session_without_packets(archive: Seq<Seq<PacketView>>, events: Seq<CaptureEvent>)
    requires
        forall|i: int| 0 <= i < frame_outcomes(events).len() ==> #[trigger] frame_outcomes(events)[i] is None,
    ensures
        fed(Seq::empty(), events) == Seq::<PacketView>::empty(),
        archived(archive, fed(Seq::empty(), events)) == archive,
{
    lemma_capture_order(Seq::empty(), events);
    lemma_captured_none(frame_outcomes(events));
    assert(fed(Seq::empty(), events) =~= Seq::<PacketView>::empty());
}

/// What the capture source handed the worker in one step of its loop.
pub enum CaptureEvent {
    /// A captured frame.
    Frame(Vec<u8>),
    /// The bounded wait for a frame elapsed.
    Timeout,
    /// The capture source failed for good.
    Fatal,
    /// A stop was requested.
    StopRequested,
}

/// What the worker does after a step.
#[derive(PartialEq, Eq, Structural, Clone, Copy, Debug)]
pub enum WorkerAction {
    Continue,
    Stop,
}

/// The packet buffer that a capture worker fills during one run.
pub struct CaptureBuffer {
    packets: Vec<ParsedPacket>,
}

impl View for CaptureBuffer {
    type V = Seq<PacketView>;

    closed spec fn view(&self) -> Seq<PacketView> {
        packet_views(self.packets@)
    }
}

impl CaptureBuffer {
    /// A fresh, empty buffer.
    pub fn new() -> (r: Self)
        ensures
            r@ == Seq::<PacketView>::empty(),
    {
        let r = CaptureBuffer { packets: Vec::new() };
        assert(r@ =~= Seq::<PacketView>::empty());
        r
    }

    pub fn len(&self) -> (r: usize)
        ensures
            r == self@.len(),
    {
        self.packets.len()
    }

    /// The packet at `index`, in capture order.
    pub fn get(&self, index: usize) -> (r: &ParsedPacket)
        requires
            index < self@.len(),
        ensures
            r@ == self@[index as int],
    {
        &self.packets[index]
    }

    /// Records the outcome of decoding one frame.
    pub fn record(&mut self, decoded: Option<ParsedPacket>)
        ensures
            final(self)@ == recorded(old(self)@, outcome_view(decoded)),
    {
        match decoded {
            Some(p) => {
                self.packets.push(p);
                assert(self@ =~= old(self)@.push(p@));
            },
            None => {},
        }
    }

    /// One step of the worker loop: a frame is decoded and, unless skipped,
    /// appended; a timeout changes nothing; a fatal capture error or a stop
    /// request ends the run and keeps what was captured.
    pub fn on_event(&mut self, event: CaptureEvent) -> (r: WorkerAction)
        ensures
            final(self)@ == event_step(old(self)@, event),
            r == event_action(event),
            event matches CaptureEvent::Frame(f) && f@.len() < ETHERNET_HEADER_LEN ==> final(self)@
                == old(self)@,
    {
        match event {
            CaptureEvent::Frame(f) => {
                let decoded = decode_frame(f.as_slice());
                self.record(decoded);
                WorkerAction::Continue
            },
            CaptureEvent::Timeout => WorkerAction::Continue,
            _ => WorkerAction::Stop,
        }
    }

    /// The finished run as a session, packets in capture order.
    pub fn into_session(self) -> (r: Session)
        ensures
            r@ == self@,
    {
        Session::new(self.packets)
    }
}

/// Whether a capture run is in progress.
#[derive(PartialEq, Eq, Structural, Clone, Copy, Debug)]
pub enum Phase {
    Idle,
    Capturing,
}

/// Owns the capture lifecycle and the archive: `start` hands out a fresh
/// buffer for the worker, `stop` turns the filled buffer into a session.
pub struct Controller {
    phase: Phase,
    archive: SessionArchive,
}

impl Controller {
    pub closed spec fn phase(&self) -> Phase {
        self.phase
    }

    pub closed spec fn sessions(&self) -> Seq<Seq<PacketView>> {
        self.archive@
    }

    pub closed spec fn wf(&self) -> bool {
        self.archive.wf()
    }

    pub fn new() -> (r: Self)
        ensures
            r.wf(),
            r.phase() == Phase::Idle,
            r.sessions() == Seq::<Seq<PacketView>>::empty(),
    {
        Controller { phase: Phase::Idle, archive: SessionArchive::new() }
    }

    pub fn is_capturing(&self) -> (r: bool)
        ensures
            r == (self.phase() == Phase::Capturing),
    {
        self.phase == Phase::Capturing
    }

    /// Starts a run: a fresh, empty buffer for the single capture worker.
    pub fn start(&mut self) -> (r: CaptureBuffer)
        requires
            old(self).wf(),
            old(self).phase() == Phase::Idle,
        ensures
            final(self).wf(),
            final(self).phase() == Phase::Capturing,
            final(self).sessions() == old(self).sessions(),
            r@ == Seq::<PacketView>::empty(),
    {
        self.phase = Phase::Capturing;
        CaptureBuffer::new()
    }

    /// Ends the run: its packets, in capture order, become a new session at
    /// the end of the archive, unless there are none.
    pub fn stop(&mut self, buffer: CaptureBuffer)
        requires
            old(self).wf(),
            old(self).phase() == Phase::Capturing,
        ensures
            final(self).wf(),
            final(self).phase() == Phase::Idle,
            final(self).sessions() == archived(old(self).sessions(), buffer@),
    {
        let session = buffer.into_session();
        self.archive.append(session);
        self.phase = Phase::Idle;
    }

    /// The finished sessions.
    pub fn archive(&self) -> (r: &SessionArchive)
        ensures
            r@ == self.sessions(),
            self.wf() ==> r.wf(),
    {
        &self.archive
    }
}

} // verus!
