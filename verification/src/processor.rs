//! Anomaly detection and the sliding windows that smooth clean packets.

use vstd::prelude::*;

use crate::reading::{exceeds, greater};
use crate::types::{AnomalyReport, AnomalyType, SensorPacket, SensorProcessor};

verus! {

/// How many recent readings a channel's window keeps.
pub const WINDOW: usize = 5;

/// A force above 15.0 is a spike (the pattern of 15.0).
pub const FORCE_LIMIT: u32 = 0x4170_0000;

/// A temperature above 30.0 is a spike (the pattern of 30.0).
pub const TEMP_LIMIT: u32 = 0x41f0_0000;

/// A position above 2.0 is a positional error (the pattern of 2.0).
pub const POSITION_LIMIT: u32 = 0x4000_0000;

/// What a packet becomes after processing.
#[derive(Debug, Clone, Copy)]
pub enum Smoothed {
    /// The packet showed an anomaly and goes on as it came.
    Raw(SensorPacket),
    /// The packet was clean: it goes on with this timestamp and, for each channel,
    /// the mean of that channel's window after the call.
    WindowMeans(std::time::SystemTime),
}

/// A window after `value` arrives: a full window drops its oldest reading first.
pub open spec fn slide(window: Seq<u32>, value: u32) -> Seq<u32> {
    if window.len() == WINDOW {
        window.drop_first().push(value)
    } else {
        window.push(value)
    }
}

/// A window after the readings `values` arrive in order.
pub open spec fn slide_all(window: Seq<u32>, values: Seq<u32>) -> Seq<u32>
    decreases values.len(),
{
    if values.len() == 0 {
        window
    } else {
        slide(slide_all(window, values.drop_last()), values.last())
    }
}

/// The last `WINDOW` readings of `values`, or all of them where there are fewer.
pub open spec fn latest(values: Seq<u32>) -> Seq<u32> {
    if values.len() <= WINDOW {
        values
    } else {
        values.subrange(values.len() - WINDOW, values.len() as int)
    }
}

/// The anomalies of a packet, in the order force, temperature, position.
pub open spec fn anomaly_kinds(p: SensorPacket) -> Seq<AnomalyType> {
    (if greater(p.force, FORCE_LIMIT) { seq![AnomalyType::ForceSpike] } else { seq![] })
        + (if greater(p.temperature, TEMP_LIMIT) { seq![AnomalyType::TempSpike] } else { seq![] })
        + (if greater(p.position, POSITION_LIMIT) { seq![AnomalyType::PositionalError] } else { seq![] })
}

/// The reports that a packet raises: one per anomaly, each carrying the packet.
pub open spec fn reports_for(p: SensorPacket) -> Seq<AnomalyReport> {
    anomaly_kinds(p).map_values(|k: AnomalyType| AnomalyReport { anomaly: k, packet: p })
}

/// What a packet becomes: unchanged where it shows an anomaly, else smoothed.
pub open spec fn smoothed_for(p: SensorPacket) -> Smoothed {
    if anomaly_kinds(p).len() > 0 {
        Smoothed::Raw(p)
    } else {
        Smoothed::WindowMeans(p.timestamp)
    }
}

impl SensorProcessor {
    /// Every window holds at most `WINDOW` readings.
    pub open spec fn wf(&self) -> bool {
        &&& self.force_buffer@.len() <= WINDOW
        &&& self.temp_buffer@.len() <= WINDOW
        &&& self.pos_buffer@.len() <= WINDOW
    }

    /// A processor whose windows are empty.
    pub fn new() -> (s: Self)
        ensures
            s.force_buffer@ == Seq::<u32>::empty(),
            s.temp_buffer@ == Seq::<u32>::empty(),
            s.pos_buffer@ == Seq::<u32>::empty(),
            s.wf(),
    {
        SensorProcessor {
            force_buffer: std::collections::VecDeque::with_capacity(WINDOW),
            temp_buffer: std::collections::VecDeque::with_capacity(WINDOW),
            pos_buffer: std::collections::VecDeque::with_capacity(WINDOW),
        }
    }

    /// Adds `value` to the back of `buffer`, dropping the front reading first where
    /// the window is full.
    pub fn advance_window(buffer: &mut std::collections::VecDeque<u32>, value: u32)
        ensures
            final(buffer)@ == slide(old(buffer)@, value),
    {
        if buffer.len() == WINDOW {
            let _ = buffer.pop_front();
        }
        buffer.push_back(value);
        assert(final(buffer)@ =~= slide(old(buffer)@, value));
    }

    /// Checks `packet` against the limits, adds its readings to the windows and says
    /// what the packet becomes.
    pub fn process(&mut self, packet: &SensorPacket) -> (out: (Smoothed, Vec<AnomalyReport>))
        ensures
            out.1@ == reports_for(*packet),
            out.0 == smoothed_for(*packet),
            final(self).force_buffer@ == slide(old(self).force_buffer@, packet.force),
            final(self).temp_buffer@ == slide(old(self).temp_buffer@, packet.temperature),
            final(self).pos_buffer@ == slide(old(self).pos_buffer@, packet.position),
            old(self).wf() ==> final(self).wf(),
            (out.0 is Raw) <==> (greater(packet.force, FORCE_LIMIT) || greater(packet.temperature, TEMP_LIMIT)
                || greater(packet.position, POSITION_LIMIT)),
            (out.0 is Raw) <==> out.1@.len() > 0,
            (out.0 matches Smoothed::Raw(q) ==> q == *packet),
            (out.0 matches Smoothed::WindowMeans(t) ==> t == packet.timestamp),
    {
        let mut anomalies: Vec<AnomalyReport> = Vec::new();
        let force_spike = exceeds(packet.force, FORCE_LIMIT);
        let temp_spike = exceeds(packet.temperature, TEMP_LIMIT);
        let position_error = exceeds(packet.position, POSITION_LIMIT);

        if force_spike {
            anomalies.push(AnomalyReport { anomaly: AnomalyType::ForceSpike, packet: *packet });
        }
        if temp_spike {
            anomalies.push(AnomalyReport { anomaly: AnomalyType::TempSpike, packet: *packet });
        }
        if position_error {
            anomalies.push(
                AnomalyReport { anomaly: AnomalyType::PositionalError, packet: *packet },
            );
        }
        assert(anomalies@ =~= reports_for(*packet));

        Self::advance_window(&mut self.force_buffer, packet.force);
        Self::advance_window(&mut self.temp_buffer, packet.temperature);
        Self::advance_window(&mut self.pos_buffer, packet.position);

        proof {
            if old(self).wf() {
                lemma_slide_bounded(old(self).force_buffer@, packet.force);
                lemma_slide_bounded(old(self).temp_buffer@, packet.temperature);
                lemma_slide_bounded(old(self).pos_buffer@, packet.position);
            }
        }
        let has_anomaly = anomalies.len() > 0;
        let smoothed = if has_anomaly {
            Smoothed::Raw(*packet)
        } else {
            Smoothed::WindowMeans(packet.timestamp)
        };
        proof {
            lemma_smoothing(*packet);
        }
        (smoothed, anomalies)
    }
}

/// A window that holds at most `WINDOW` readings still does after one more arrives;
/// it grows by one until it is full, and its newest reading is the one that arrived.
pub proof fn lemma_slide_bounded(window: Seq<u32>, value: u32)
    requires
        window.len() <= WINDOW,
    ensures
        slide(window, value).len() <= WINDOW,
        slide(window, value).len() == if window.len() < WINDOW { window.len() + 1 } else { WINDOW as nat },
        slide(window, value).last() == value,
{
}

/// Starting from an empty window, the window holds exactly the latest `WINDOW`
/// readings that arrived, oldest first.
pub proof fn lemma_window_holds_latest(values: Seq<u32>)
    ensures
        slide_all(Seq::empty(), values) == latest(values),
    decreases values.len(),
{
    if values.len() > 0 {
        let prefix = values.drop_last();
        lemma_window_holds_latest(prefix);
        if values.len() <= WINDOW {
            assert(latest(prefix).push(values.last()) =~= values);
        } else {
            assert(latest(prefix).drop_first().push(values.last()) =~= latest(values));
        }
    } else {
        assert(latest(values) =~= Seq::<u32>::empty());
    }
}

/// A packet raises each kind of anomaly at most once, so at most three; it raises
/// one exactly when one of its readings is above that reading's limit, and every
/// report carries the packet itself.
pub proof fn lemma_anomaly_kinds(p: SensorPacket)
    ensures
        anomaly_kinds(p).len() <= 3,
        forall|i: int, j: int|
            0 <= i < j < anomaly_kinds(p).len() ==> anomaly_kinds(p)[i] != anomaly_kinds(p)[j],
        anomaly_kinds(p).contains(AnomalyType::ForceSpike) <==> greater(p.force, FORCE_LIMIT),
        anomaly_kinds(p).contains(AnomalyType::TempSpike) <==> greater(p.temperature, TEMP_LIMIT),
        anomaly_kinds(p).contains(AnomalyType::PositionalError) <==> greater(p.position, POSITION_LIMIT),
        anomaly_kinds(p).len() > 0 <==> (greater(p.force, FORCE_LIMIT) || greater(p.temperature, TEMP_LIMIT)
            || greater(p.position, POSITION_LIMIT)),
        reports_for(p).len() == anomaly_kinds(p).len(),
        forall|i: int|
            0 <= i < reports_for(p).len() ==> (#[trigger] reports_for(p)[i]).packet == p
                && reports_for(p)[i].anomaly == anomaly_kinds(p)[i],
{
    let k = anomaly_kinds(p);
    let fs = greater(p.force, FORCE_LIMIT);
    let ts = greater(p.temperature, TEMP_LIMIT);
    let ps = greater(p.position, POSITION_LIMIT);
    let force = AnomalyType::ForceSpike;
    let temp = AnomalyType::TempSpike;
    let pos = AnomalyType::PositionalError;
    if fs {
        if ts {
            if ps {
                assert(k =~= seq![force, temp, pos]);
                assert(k[0] == force && k[1] == temp && k[2] == pos);
            } else {
                assert(k =~= seq![force, temp]);
                assert(k[0] == force && k[1] == temp);
            }
        } else {
            if ps {
                assert(k =~= seq![force, pos]);
                assert(k[0] == force && k[1] == pos);
            } else {
                assert(k =~= seq![force]);
                assert(k[0] == force);
            }
        }
    } else {
        if ts {
            if ps {
                assert(k =~= seq![temp, pos]);
                assert(k[0] == temp && k[1] == pos);
            } else {
                assert(k =~= seq![temp]);
                assert(k[0] == temp);
            }
        } else {
            if ps {
                assert(k =~= seq![pos]);
                assert(k[0] == pos);
            } else {
                assert(k =~= Seq::<AnomalyType>::empty());
            }
        }
    }
}

/// Where an anomaly kind stands in a report list: force, then temperature, then
/// position.
pub open spec fn kind_rank(k: AnomalyType) -> int {
    match k {
        AnomalyType::ForceSpike => 0,
        AnomalyType::TempSpike => 1,
        AnomalyType::PositionalError => 2,
    }
}

/// Reports come in the order force, temperature, position.
pub proof fn lemma_anomaly_order(p: SensorPacket)
    ensures
        forall|i: int, j: int|
            0 <= i < j < anomaly_kinds(p).len() ==> kind_rank(#[trigger] anomaly_kinds(p)[i]) < kind_rank(
                #[trigger] anomaly_kinds(p)[j],
            ),
{
    let k = anomaly_kinds(p);
    let force = AnomalyType::ForceSpike;
    let temp = AnomalyType::TempSpike;
    let pos = AnomalyType::PositionalError;
    if greater(p.force, FORCE_LIMIT) {
        if greater(p.temperature, TEMP_LIMIT) {
            if greater(p.position, POSITION_LIMIT) {
                assert(k =~= seq![force, temp, pos]);
            } else {
                assert(k =~= seq![force, temp]);
            }
        } else {
            if greater(p.position, POSITION_LIMIT) {
                assert(k =~= seq![force, pos]);
            } else {
                assert(k =~= seq![force]);
            }
        }
    } else {
        if greater(p.temperature, TEMP_LIMIT) {
            if greater(p.position, POSITION_LIMIT) {
                assert(k =~= seq![temp, pos]);
            } else {
                assert(k =~= seq![temp]);
            }
        } else {
            if greater(p.position, POSITION_LIMIT) {
                assert(k =~= seq![pos]);
            } else {
                assert(k =~= Seq::<AnomalyType>::empty());
            }
        }
    }
}

/// A packet passes through raw exactly when one of its readings is above its limit,
/// and then exactly as it came; otherwise it is smoothed under its own timestamp.
pub proof fn lemma_smoothing(p: SensorPacket)
    ensures
        (smoothed_for(p) is Raw) <==> (greater(p.force, FORCE_LIMIT) || greater(p.temperature, TEMP_LIMIT)
            || greater(p.position, POSITION_LIMIT)),
        (smoothed_for(p) is Raw) <==> reports_for(p).len() > 0,
        (smoothed_for(p) matches Smoothed::Raw(q) ==> q == p),
        (smoothed_for(p) matches Smoothed::WindowMeans(t) ==> t == p.timestamp),
{
    lemma_anomaly_kinds(p);
}

} // verus!
