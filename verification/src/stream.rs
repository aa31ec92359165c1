//! The schedule of the sensor stream: which packet to emit next, when it is due,
//! and when the stream stops. The caller does the waiting and the sending.

use vstd::prelude::*;

verus! {

/// How many packets a stream emits.
pub const PACKET_COUNT: usize = 3000;

/// Milliseconds between two packets.
pub const TICK_MS: u64 = 5;

/// Why a stream stopped.
#[derive(Debug, Clone, Copy, PartialEq, Eq, Structural)]
pub enum StopReason {
    /// Every packet was emitted.
    Completed,
    /// A send failed: nobody receives the packets any more.
    ReceiverDropped,
}

/// A packet to generate and send, numbered from 1, and the time, counted in
/// milliseconds from the start of the stream, until which the stream then waits.
#[derive(Debug, Clone, Copy, PartialEq, Eq, Structural)]
pub struct ScheduledPacket {
    pub packet_id: usize,
    pub due_ms: u64,
}

/// What the caller does next.
#[derive(Debug, Clone, Copy, PartialEq, Eq, Structural)]
pub enum StreamAction {
    Emit(ScheduledPacket),
    Stop(StopReason),
}

/// The state of a stream: the number of the next packet, and why it stopped, if it
/// has.
pub struct StreamModel {
    pub next_id: nat,
    pub stopped: Option<StopReason>,
}

/// The state of a stream before its first packet.
pub open spec fn initial_model() -> StreamModel {
    StreamModel { next_id: 1, stopped: None }
}

/// The packet numbered `id` and its due time.
pub open spec fn scheduled(id: nat) -> ScheduledPacket {
    ScheduledPacket { packet_id: id as usize, due_ms: (id * TICK_MS) as u64 }
}

/// One step of the stream: a stopped stream stays stopped; a running one emits its
/// next packet while there is one and otherwise completes.
pub open spec fn model_step(m: StreamModel) -> (StreamModel, StreamAction) {
    match m.stopped {
        Some(r) => (m, StreamAction::Stop(r)),
        None => if m.next_id <= PACKET_COUNT {
            (StreamModel { next_id: m.next_id + 1, stopped: None }, StreamAction::Emit(scheduled(m.next_id)))
        } else {
            (StreamModel { next_id: m.next_id, stopped: Some(StopReason::Completed) }, StreamAction::Stop(StopReason::Completed))
        },
    }
}

/// The state after a send failed.
pub open spec fn model_send_failed(m: StreamModel) -> StreamModel {
    match m.stopped {
        Some(_) => m,
        None => StreamModel { next_id: m.next_id, stopped: Some(StopReason::ReceiverDropped) },
    }
}

/// The state after `k` steps with no failed send.
pub open spec fn model_run(k: nat) -> StreamModel
    decreases k,
{
    if k == 0 {
        initial_model()
    } else {
        model_step(model_run((k - 1) as nat)).0
    }
}

/// The schedule of one stream of sensor packets.
pub struct SensorStream {
    next_id: usize,
    stopped: Option<StopReason>,
}

impl View for SensorStream {
    type V = StreamModel;

    closed spec fn view(&self) -> StreamModel {
        StreamModel { next_id: self.next_id as nat, stopped: self.stopped }
    }
}

impl SensorStream {
    /// The numbering stays between 1 and one past the last packet.
    pub closed spec fn wf(&self) -> bool {
        1 <= self.next_id <= PACKET_COUNT + 1
    }

    /// A stream that has emitted nothing yet.
    pub fn new() -> (s: Self)
        ensures
            s@ == initial_model(),
            s.wf(),
    {
        SensorStream { next_id: 1, stopped: None }
    }

    /// Decides what comes next, and moves the stream on.
    pub fn next_action(&mut self) -> (a: StreamAction)
        requires
            old(self).wf(),
        ensures
            final(self).wf(),
            (final(self)@, a) == model_step(old(self)@),
    {
        match self.stopped {
            Some(r) => StreamAction::Stop(r),
            None => {
                if self.next_id <= PACKET_COUNT {
                    let id = self.next_id;
                    self.next_id = id + 1;
                    StreamAction::Emit(ScheduledPacket { packet_id: id, due_ms: (id as u64) * TICK_MS })
                } else {
                    self.stopped = Some(StopReason::Completed);
                    StreamAction::Stop(StopReason::Completed)
                }
            },
        }
    }

    /// Records that sending the last packet failed; the stream then stops.
    pub fn send_failed(&mut self)
        requires
            old(self).wf(),
        ensures
            final(self).wf(),
            final(self)@ == model_send_failed(old(self)@),
            final(self)@.next_id == old(self)@.next_id,
            old(self)@.stopped is None ==> final(self)@.stopped == Some(StopReason::ReceiverDropped),
            old(self)@.stopped is Some ==> final(self)@ == old(self)@,
    {
        if self.stopped.is_none() {
            self.stopped = Some(StopReason::ReceiverDropped);
        }
    }
}

/// A stream that no send fails emits the packets 1, 2, ... in order, the packet
/// `k` due `k * TICK_MS` milliseconds after the start, then completes.
pub proof fn lemma_emits_in_order(k: nat)
    ensures
        k <= PACKET_COUNT ==> model_run(k) == (StreamModel { next_id: k + 1, stopped: None }),
        k < PACKET_COUNT ==> model_step(model_run(k)).1 == StreamAction::Emit(
            ScheduledPacket { packet_id: (k + 1) as usize, due_ms: ((k + 1) * TICK_MS) as u64 },
        ),
        k == PACKET_COUNT ==> model_step(model_run(k)).1 == StreamAction::Stop(StopReason::Completed),
    decreases k,
{
    if k > 0 {
        lemma_emits_in_order((k - 1) as nat);
    }
}

/// Consecutive packets are due `TICK_MS` milliseconds apart.
pub proof fn lemma_due_times_spaced(id: nat)
    requires
        1 <= id < PACKET_COUNT,
    ensures
        scheduled(id + 1).due_ms == scheduled(id).due_ms + TICK_MS,
        scheduled(id).packet_id == id,
{
}

/// A stopped stream stays stopped, for the same reason, whatever happens next.
pub proof fn lemma_stop_is_final(m: StreamModel)
    requires
        (m.stopped is Some),
    ensures
        model_step(m).0 == m,
        model_step(m).1 == StreamAction::Stop(m.stopped->0),
        model_send_failed(m) == m,
{
}

/// A failed send stops a running stream at once, whichever packet failed: the next
/// action is to stop because the receiver is gone, and the stream stays stopped. A
/// stream that had already stopped keeps its reason.
pub proof fn lemma_failed_send_stops(m: StreamModel)
    ensures
        model_send_failed(m).next_id == m.next_id,
        m.stopped is None ==> model_send_failed(m).stopped == Some(StopReason::ReceiverDropped),
        m.stopped is None ==> model_step(model_send_failed(m)).1 == StreamAction::Stop(StopReason::ReceiverDropped),
        m.stopped is None ==> model_step(model_step(model_send_failed(m)).0).1 == StreamAction::Stop(
            StopReason::ReceiverDropped,
        ),
        (m.stopped matches Some(r) ==> model_step(model_send_failed(m)).1 == StreamAction::Stop(r)),
{
}

/// However many packets were emitted, a send that fails right after stops the stream.
pub proof fn lemma_failure_after_any_packet(k: nat)
    requires
        1 <= k <= PACKET_COUNT,
    ensures
        model_step(model_send_failed(model_run(k))).1 == StreamAction::Stop(StopReason::ReceiverDropped),
{
    lemma_emits_in_order(k);
}

} // verus!
