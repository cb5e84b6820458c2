//! The tasks' decisions, one scheduler iteration at a time.
//!
//! The acquisition task owns the smoothing buffer for the calibration
//! channel; each cycle it holds the peripheral handle across the two
//! serialized reads, smooths the calibration sample, publishes the
//! buffer's average, and publishes the die-temperature sample raw —
//! consumers reconvert it, so the wire always carries raw samples.  A
//! failed read is simply not published that cycle, and the loop goes on.
//!
//! The reads themselves are the hardware's work: the surrounding loop
//! performs them and hands each outcome in as a plain `Result`, so every
//! function here is verified for every outcome the converter can
//! produce.  Consumers likewise decide one observation at a time; the
//! scheduling — sleeping between cycles, retrying an empty observation —
//! stays outside.

use vstd::prelude::*;

use crate::broadcast::{spec_cursor_after, spec_receive, BroadcastChannel, Receiver};
use crate::metrics::{calibration_scaled_milli, spec_calibration_scaled_milli, ADC_MAX};
use crate::peripheral::{PeripheralHandle, ReadError};
use crate::ring::{mean, ring_write, SmoothingBuffer};

verus! {

/// Reader slots of the calibration channel, as wired at startup: the
/// calibration consumer, the display, and one spare for an actuator.
pub const ADC0_CONSUMERS: usize = 3;

/// Reader slots of the die-temperature channel: the temperature consumer
/// and the display.
pub const ADCTEMP_CONSUMERS: usize = 2;

/// The sample the smoothing buffer is seeded with at startup, near the
/// converter's full scale, standing in for the calibration reference
/// until real samples arrive.
pub const CALIBRATION_SEED: u16 = 4094;

/// A send happened: the slot now holds `value`, the version moved up by
/// one, and the reader bookkeeping is untouched.
pub open spec fn published(before: BroadcastChannel, after: BroadcastChannel, value: int) -> bool {
    &&& after.version() == before.version() + 1
    &&& after.latest() == value
    &&& after.subscribed() == before.subscribed()
    &&& after.max_readers() == before.max_readers()
}

/// No send happened: slot, version and reader bookkeeping are all as
/// they were — no stale or duplicate value reaches any reader.
pub open spec fn not_published(before: BroadcastChannel, after: BroadcastChannel) -> bool {
    &&& after.version() == before.version()
    &&& after.latest() == before.latest()
    &&& after.subscribed() == before.subscribed()
    &&& after.max_readers() == before.max_readers()
}

/// The acquisition task's own state: the smoothing buffer of the
/// calibration channel, which no other task touches.
pub struct AcquisitionTask {
    smoother: SmoothingBuffer,
}

impl AcquisitionTask {
    /// The smoothing window's current contents, oldest first.
    pub closed spec fn window(&self) -> Seq<u16> {
        self.smoother@
    }

    /// The smoothing buffer is seeded and in range.
    pub closed spec fn wf(&self) -> bool {
        self.smoother.wf()
    }

    /// A fresh task with the given seed already in its smoothing buffer.
    pub fn new(seed: u16) -> (t: AcquisitionTask)
        requires
            seed <= ADC_MAX,
        ensures
            t.wf(),
            t.window() == seq![seed],
    {
        AcquisitionTask { smoother: SmoothingBuffer::new(seed) }
    }

    /// One steady-state iteration: hold the peripheral handle across the
    /// two serialized reads, then for each successful read publish — the
    /// calibration sample smoothed into the buffer and its average sent,
    /// the die-temperature sample sent raw.  A failed read leaves its
    /// channel exactly as it was; the handle is free again on return, so
    /// it is never held across the cycle's sleep.
    pub fn cycle(
        &mut self,
        handle: &mut PeripheralHandle,
        cal_read: Result<u16, ReadError>,
        temp_read: Result<u16, ReadError>,
        cal_ch: &mut BroadcastChannel,
        temp_ch: &mut BroadcastChannel,
    )
        requires
            old(self).wf(),
            !old(handle).is_held(),
            cal_read matches Ok(v) ==> v <= ADC_MAX,
            temp_read matches Ok(v) ==> v <= ADC_MAX,
            old(cal_ch).version() < u64::MAX,
            old(temp_ch).version() < u64::MAX,
        ensures
            final(self).wf(),
            !final(handle).is_held(),
            cal_read matches Ok(v) ==> final(self).window() == ring_write(
                old(self).window(),
                v,
            ) && published(*old(cal_ch), *final(cal_ch), mean(final(self).window())),
            cal_read is Err ==> final(self).window() == old(self).window() && not_published(
                *old(cal_ch),
                *final(cal_ch),
            ),
            temp_read matches Ok(v) ==> published(*old(temp_ch), *final(temp_ch), v as int),
            temp_read is Err ==> not_published(*old(temp_ch), *final(temp_ch)),
    {
        handle.acquire();
        match cal_read {
            Ok(sample) => {
                self.smoother.write(sample);
                let avg = self.smoother.average();
                cal_ch.send(avg);
            },
            Err(_) => {},
        }
        match temp_read {
            Ok(raw) => {
                temp_ch.send(raw);
            },
            Err(_) => {},
        }
        handle.release();
    }
}

/// One iteration of the calibration consumer: observe the latest
/// published average, if one is newer than this reader has seen, and
/// rescale it to thousandths.  A pure observer: the channel is untouched.
pub fn process_adc_channel_0(ch: &BroadcastChannel, rx: &mut Receiver) -> (r: Option<u32>)
    ensures
        r is Some <==> spec_receive(ch.version(), ch.latest(), old(rx).last_seen()) is Some,
        r matches Some(scaled) ==> scaled == spec_calibration_scaled_milli(ch.latest() as int),
        final(rx).last_seen() == spec_cursor_after(ch.version(), old(rx).last_seen()),
{
    match ch.receive(rx) {
        Some(raw) => Some(calibration_scaled_milli(raw)),
        None => None,
    }
}

/// One iteration of the die-temperature consumer: observe the latest raw
/// die-sensor sample, if one is newer than this reader has seen.  The
/// Celsius conversion is each consumer's own business (see the metrics
/// module); this one reports the raw value.
pub fn process_adc_channel_temp(ch: &BroadcastChannel, rx: &mut Receiver) -> (r: Option<u16>)
    ensures
        r == spec_receive(ch.version(), ch.latest(), old(rx).last_seen()),
        final(rx).last_seen() == spec_cursor_after(ch.version(), old(rx).last_seen()),
{
    ch.receive(rx)
}

/// The whole core, assembled once at startup and owned by the top-level
/// routine: the peripheral handle, the acquisition task and the two
/// broadcast channels are explicit objects here, not ambient globals,
/// and tasks reach them by reference.
pub struct Pipeline {
    /// Serialization point for the one converter.
    pub handle: PeripheralHandle,
    /// The acquisition task's state.
    pub acquisition: AcquisitionTask,
    /// Carries the smoothed calibration average.
    pub calibration_channel: BroadcastChannel,
    /// Carries the raw die-temperature sample.
    pub temperature_channel: BroadcastChannel,
}

impl Pipeline {
    /// The handle is free between cycles and the smoothing buffer is
    /// seeded and in range.
    pub open spec fn wf(&self) -> bool {
        &&& self.acquisition.wf()
        &&& !self.handle.is_held()
    }

    /// The core as wired at startup: a free handle, the seeded smoothing
    /// buffer, and the two channels with their fixed reader allocations,
    /// nothing sent on either yet.
    pub fn new() -> (p: Pipeline)
        ensures
            p.wf(),
            p.acquisition.window() == seq![CALIBRATION_SEED],
            p.calibration_channel.version() == 0,
            p.calibration_channel.subscribed() == 0,
            p.calibration_channel.max_readers() == ADC0_CONSUMERS,
            p.temperature_channel.version() == 0,
            p.temperature_channel.subscribed() == 0,
            p.temperature_channel.max_readers() == ADCTEMP_CONSUMERS,
    {
        Pipeline {
            handle: PeripheralHandle::new(),
            acquisition: AcquisitionTask::new(CALIBRATION_SEED),
            calibration_channel: BroadcastChannel::new(ADC0_CONSUMERS),
            temperature_channel: BroadcastChannel::new(ADCTEMP_CONSUMERS),
        }
    }

    /// A reader slot on the calibration channel, for one consumer, fixed
    /// for that consumer's lifetime; fails once all slots are taken.
    pub fn get_receiver_adc0(&mut self) -> (r: Option<Receiver>)
        ensures
            r is Some <==> old(self).calibration_channel.subscribed() < old(
                self,
            ).calibration_channel.max_readers(),
            r matches Some(rx) ==> rx.last_seen() == 0,
            r is Some ==> final(self).calibration_channel.subscribed() == old(
                self,
            ).calibration_channel.subscribed() + 1,
            r is None ==> final(self).calibration_channel.subscribed() == old(
                self,
            ).calibration_channel.subscribed(),
            final(self).calibration_channel.version() == old(self).calibration_channel.version(),
            final(self).calibration_channel.latest() == old(self).calibration_channel.latest(),
            final(self).calibration_channel.max_readers() == old(
                self,
            ).calibration_channel.max_readers(),
            final(self).temperature_channel == old(self).temperature_channel,
            final(self).acquisition == old(self).acquisition,
            final(self).handle == old(self).handle,
    {
        self.calibration_channel.subscribe()
    }

    /// A reader slot on the die-temperature channel; fails once all
    /// slots are taken.
    pub fn get_receiver_adctemp(&mut self) -> (r: Option<Receiver>)
        ensures
            r is Some <==> old(self).temperature_channel.subscribed() < old(
                self,
            ).temperature_channel.max_readers(),
            r matches Some(rx) ==> rx.last_seen() == 0,
            r is Some ==> final(self).temperature_channel.subscribed() == old(
                self,
            ).temperature_channel.subscribed() + 1,
            r is None ==> final(self).temperature_channel.subscribed() == old(
                self,
            ).temperature_channel.subscribed(),
            final(self).temperature_channel.version() == old(self).temperature_channel.version(),
            final(self).temperature_channel.latest() == old(self).temperature_channel.latest(),
            final(self).temperature_channel.max_readers() == old(
                self,
            ).temperature_channel.max_readers(),
            final(self).calibration_channel == old(self).calibration_channel,
            final(self).acquisition == old(self).acquisition,
            final(self).handle == old(self).handle,
    {
        self.temperature_channel.subscribe()
    }

    /// One acquisition cycle over the assembled core: see
    /// [`AcquisitionTask::cycle`].
    pub fn cycle(&mut self, cal_read: Result<u16, ReadError>, temp_read: Result<u16, ReadError>)
        requires
            old(self).wf(),
            cal_read matches Ok(v) ==> v <= ADC_MAX,
            temp_read matches Ok(v) ==> v <= ADC_MAX,
            old(self).calibration_channel.version() < u64::MAX,
            old(self).temperature_channel.version() < u64::MAX,
        ensures
            final(self).wf(),
            cal_read matches Ok(v) ==> final(self).acquisition.window() == ring_write(
                old(self).acquisition.window(),
                v,
            ) && published(
                old(self).calibration_channel,
                final(self).calibration_channel,
                mean(final(self).acquisition.window()),
            ),
            cal_read is Err ==> final(self).acquisition.window() == old(self).acquisition.window()
                && not_published(old(self).calibration_channel, final(self).calibration_channel),
            temp_read matches Ok(v) ==> published(
                old(self).temperature_channel,
                final(self).temperature_channel,
                v as int,
            ),
            temp_read is Err ==> not_published(
                old(self).temperature_channel,
                final(self).temperature_channel,
            ),
    {
        self.acquisition.cycle(
            &mut self.handle,
            cal_read,
            temp_read,
            &mut self.calibration_channel,
            &mut self.temperature_channel,
        );
    }
}

} // verus!
