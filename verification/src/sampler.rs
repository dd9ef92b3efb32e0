//! Collecting a fixed number of samples at a fixed interval.
//!
//! The sampler does not measure and does not wait. It tells its caller what
//! to do next, takes the reading that the caller obtained, and keeps the
//! series. The caller refreshes the CPU counters, blocks for the interval,
//! reads the utilisation and hands it over, until the sampler is finished.

use crate::binary32::is_percentage;
use crate::sample::Sample;
use vstd::prelude::*;

verus! {

/// The number of samples of one run.
pub const SAMPLE_COUNT: u32 = 15;

/// The nominal time between two samples, in milliseconds.
pub const SAMPLE_INTERVAL_MS: u64 = 500;

/// What the caller of a sampler does next.
#[derive(Clone, Copy, Debug, PartialEq, Eq, Structural)]
pub enum SamplerStep {
    /// Refresh the CPU counters, block for `wait_ms` milliseconds, read the
    /// utilisation and record it: it becomes the sample at `index`.
    Measure { index: u32, wait_ms: u64 },
    /// The series is complete.
    Finished,
}

/// The state of a sampling run.
#[derive(Debug)]
pub struct Sampler {
    count: u32,
    interval_ms: u64,
    samples: Vec<Sample>,
}

/// What a [`Sampler`] stands for: the length of the series it is to collect,
/// the interval, and the samples taken so far.
pub struct SamplerModel {
    pub count: nat,
    pub interval_ms: nat,
    pub samples: Seq<Sample>,
}

/// The series that comes of the given readings: the i-th reading, counted
/// from 0, at index i + 1.
pub open spec fn collected(readings: Seq<u32>) -> Seq<Sample> {
    Seq::new(
        readings.len(),
        |i: int| Sample { index: (i + 1) as u32, value_bits: readings[i] },
    )
}

/// A sampler that has not taken a sample yet.
pub open spec fn spec_initial(count: nat, interval_ms: nat) -> SamplerModel {
    SamplerModel { count, interval_ms, samples: Seq::<Sample>::empty() }
}

/// The series is complete.
pub open spec fn spec_finished(model: SamplerModel) -> bool {
    model.samples.len() >= model.count
}

/// What the caller does next.
pub open spec fn spec_next_step(model: SamplerModel) -> SamplerStep {
    if spec_finished(model) {
        SamplerStep::Finished
    } else {
        SamplerStep::Measure {
            index: (model.samples.len() + 1) as u32,
            wait_ms: model.interval_ms as u64,
        }
    }
}

/// The sampler after a reading: the reading is appended under the next
/// index. A finished sampler asks for no reading and takes none.
pub open spec fn spec_record(model: SamplerModel, reading: u32) -> SamplerModel {
    if spec_finished(model) {
        model
    } else {
        SamplerModel {
            samples: model.samples.push(
                Sample { index: (model.samples.len() + 1) as u32, value_bits: reading },
            ),
            ..model
        }
    }
}

/// The sampler after the given readings, one after the other.
pub open spec fn spec_run(model: SamplerModel, readings: Seq<u32>) -> SamplerModel
    decreases readings.len(),
{
    if readings.len() == 0 {
        model
    } else {
        spec_record(spec_run(model, readings.drop_last()), readings.last())
    }
}

/// The time for which the caller has been told to block so far, in
/// milliseconds: one interval for each sample taken. The run has lasted at
/// least that long.
pub open spec fn spec_minimum_duration_ms(model: SamplerModel) -> nat {
    model.samples.len() * model.interval_ms
}

impl View for Sampler {
    type V = SamplerModel;

    closed spec fn view(&self) -> SamplerModel {
        SamplerModel {
            count: self.count as nat,
            interval_ms: self.interval_ms as nat,
            samples: self.samples@,
        }
    }
}

impl Sampler {
    /// The sampler holds no more samples than it is to collect, and they
    /// stand at the indices 1, 2, 3 and so on.
    pub open spec fn wf(&self) -> bool {
        &&& self@.count <= u32::MAX
        &&& self@.interval_ms <= u64::MAX
        &&& self@.samples.len() <= self@.count
        &&& forall|i: int| 0 <= i < self@.samples.len() ==> (#[trigger] self@.samples[i]).index == i + 1
    }

    /// A sampler for `count` samples at `interval_ms` milliseconds.
    pub fn new(count: u32, interval_ms: u64) -> (sampler: Sampler)
        ensures
            sampler.wf(),
            sampler@ == spec_initial(count as nat, interval_ms as nat),
    {
        Sampler { count, interval_ms, samples: Vec::new() }
    }

    /// The sampler of a run: 15 samples, 500 milliseconds apart.
    pub fn standard() -> (sampler: Sampler)
        ensures
            sampler.wf(),
            sampler@ == spec_initial(15, 500),
    {
        Sampler::new(SAMPLE_COUNT, SAMPLE_INTERVAL_MS)
    }

    /// Says whether the series is complete.
    pub fn is_finished(&self) -> (finished: bool)
        ensures
            finished == spec_finished(self@),
    {
        self.samples.len() >= self.count as usize
    }

    /// What the caller does next: take one more measurement, or stop.
    pub fn next_step(&self) -> (step: SamplerStep)
        ensures
            step == spec_next_step(self@),
    {
        let taken = self.samples.len();
        if taken >= self.count as usize {
            SamplerStep::Finished
        } else {
            SamplerStep::Measure { index: taken as u32 + 1, wait_ms: self.interval_ms }
        }
    }

    /// Takes the reading that the last [`SamplerStep::Measure`] asked for and
    /// says what comes next. No reading is dropped or taken twice; a finished
    /// sampler stays as it is.
    pub fn record(&mut self, reading: u32) -> (step: SamplerStep)
        requires
            old(self).wf(),
        ensures
            final(self).wf(),
            final(self)@ == spec_record(old(self)@, reading),
            step == spec_next_step(final(self)@),
    {
        let taken = self.samples.len();
        if taken < self.count as usize {
            self.samples.push(Sample { index: taken as u32 + 1, value_bits: reading });
        }
        self.next_step()
    }

    /// The samples taken so far.
    pub fn samples(&self) -> (samples: &Vec<Sample>)
        ensures
            samples@ == self@.samples,
    {
        &self.samples
    }

    /// Ends the run and hands out the series.
    pub fn into_samples(self) -> (samples: Vec<Sample>)
        ensures
            samples@ == self@.samples,
    {
        self.samples
    }

    /// The least time that the run has lasted so far, in milliseconds: one
    /// interval for each sample taken. Refreshing and reading take time on
    /// top of it.
    pub fn minimum_duration_ms(&self) -> (millis: u128)
        ensures
            millis == spec_minimum_duration_ms(self@),
    {
        let taken = self.samples.len() as u128;
        let interval = self.interval_ms as u128;
        assert(taken * interval <= 0xffff_ffff_ffff_ffff * 0xffff_ffff_ffff_ffff)
            by (nonlinear_arith)
            requires
                0 <= taken <= 0xffff_ffff_ffff_ffff,
                0 <= interval <= 0xffff_ffff_ffff_ffff,
        ;
        taken * interval
    }
}

/// Recording readings one after the other gives the series of those
/// readings, in their order and under the indices 1, 2, 3 and so on, as long
/// as the series is not complete.
pub proof fn lemma_run_collects(count: nat, interval_ms: nat, readings: Seq<u32>)
    requires
        readings.len() <= count <= u32::MAX,
    ensures
        spec_run(spec_initial(count, interval_ms), readings).samples == collected(readings),
        spec_run(spec_initial(count, interval_ms), readings).count == count,
        spec_run(spec_initial(count, interval_ms), readings).interval_ms == interval_ms,
    decreases readings.len(),
{
    if readings.len() > 0 {
        lemma_run_collects(count, interval_ms, readings.drop_last());
        let before = spec_run(spec_initial(count, interval_ms), readings.drop_last());
        assert(!spec_finished(before));
        assert(spec_record(before, readings.last()).samples =~= collected(readings));
    } else {
        assert(spec_initial(count, interval_ms).samples =~= collected(readings));
    }
}

/// A run is complete after exactly as many readings as it was made for, and
/// not before.
pub proof fn lemma_finished_after_count(count: nat, interval_ms: nat, readings: Seq<u32>)
    requires
        readings.len() <= count <= u32::MAX,
    ensures
        spec_finished(spec_run(spec_initial(count, interval_ms), readings)) <==> readings.len()
            == count,
{
    lemma_run_collects(count, interval_ms, readings);
}

/// A complete run of the standard sampler holds exactly 15 samples, at the
/// indices 1 to 15 in this order, each with the reading that was taken for
/// it; where every reading is a percentage, every sample is valid.
pub proof fn lemma_standard_series(readings: Seq<u32>)
    requires
        readings.len() == 15,
    ensures
        ({
            let series = spec_run(spec_initial(15, 500), readings).samples;
            &&& spec_finished(spec_run(spec_initial(15, 500), readings))
            &&& series.len() == 15
            &&& forall|i: int| 0 <= i < 15 ==> (#[trigger] series[i]).index == i + 1
            &&& forall|i: int| 0 <= i < 15 ==> (#[trigger] series[i]).value_bits == readings[i]
            &&& (forall|i: int|
                0 <= i < 15 ==> is_percentage(#[trigger] readings[i]))
                ==> forall|i: int| 0 <= i < 15 ==> (#[trigger] series[i]).is_valid(15)
        }),
{
    lemma_run_collects(15, 500, readings);
    let series = spec_run(spec_initial(15, 500), readings).samples;
    assert(series == collected(readings));
    if forall|i: int| 0 <= i < 15 ==> is_percentage(#[trigger] readings[i]) {
        assert forall|i: int| 0 <= i < 15 implies (#[trigger] series[i]).is_valid(15) by {
            assert(is_percentage(readings[i]));
        }
    }
}

/// A complete run has blocked for the interval once for each sample: it has
/// lasted at least `count` times the interval, the standard run at least
/// 15 times 500 milliseconds.
pub proof fn lemma_minimum_duration(count: nat, interval_ms: nat, readings: Seq<u32>)
    requires
        readings.len() == count <= u32::MAX,
    ensures
        spec_minimum_duration_ms(spec_run(spec_initial(count, interval_ms), readings)) == count
            * interval_ms,
        count == 15 && interval_ms == 500 ==> spec_minimum_duration_ms(
            spec_run(spec_initial(count, interval_ms), readings),
        ) == 7500,
{
    lemma_run_collects(count, interval_ms, readings);
}

} // verus!
