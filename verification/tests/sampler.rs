use cpu_chart::sample::Sample;
use cpu_chart::sampler::{Sampler, SamplerStep, SAMPLE_COUNT, SAMPLE_INTERVAL_MS};

fn run(mut sampler: Sampler, readings: &[u32]) -> (Vec<SamplerStep>, Sampler) {
    let mut steps = vec![sampler.next_step()];
    for reading in readings {
        steps.push(sampler.record(*reading));
    }
    (steps, sampler)
}

#[test]
fn standard_run_takes_fifteen_samples_in_order() {
    let readings: Vec<u32> = (0..15).map(|i| (i as f32 * 6.5).to_bits()).collect();
    let (steps, sampler) = run(Sampler::standard(), &readings);
    assert!(sampler.is_finished());
    let samples = sampler.into_samples();
    assert_eq!(samples.len(), 15);
    for (i, sample) in samples.iter().enumerate() {
        assert_eq!(sample.index, i as u32 + 1);
        assert_eq!(sample.value_bits, readings[i]);
        assert!(sample.check(15));
        let value = f32::from_bits(sample.value_bits);
        assert!(0.0 <= value && value <= 100.0);
    }
    assert_eq!(steps.len(), 16);
    for (i, step) in steps.iter().enumerate() {
        if i < 15 {
            assert_eq!(*step, SamplerStep::Measure { index: i as u32 + 1, wait_ms: 500 });
        } else {
            assert_eq!(*step, SamplerStep::Finished);
        }
    }
}

#[test]
fn standard_run_is_fifteen_times_five_hundred_milliseconds() {
    assert_eq!(SAMPLE_COUNT, 15);
    assert_eq!(SAMPLE_INTERVAL_MS, 500);
    let (_, sampler) = run(Sampler::standard(), &[0; 15]);
    assert_eq!(sampler.minimum_duration_ms(), 7500);
}

#[test]
fn minimum_duration_grows_by_one_interval_per_sample() {
    let mut sampler = Sampler::new(3, 250);
    assert_eq!(sampler.minimum_duration_ms(), 0);
    sampler.record(1);
    assert_eq!(sampler.minimum_duration_ms(), 250);
    sampler.record(2);
    assert_eq!(sampler.minimum_duration_ms(), 500);
    sampler.record(3);
    assert_eq!(sampler.minimum_duration_ms(), 750);
    sampler.record(4);
    assert_eq!(sampler.minimum_duration_ms(), 750);
}

#[test]
fn minimum_duration_does_not_overflow() {
    let mut sampler = Sampler::new(2, u64::MAX);
    sampler.record(1);
    sampler.record(2);
    assert_eq!(sampler.minimum_duration_ms(), 2 * (u64::MAX as u128));
}

#[test]
fn sampler_is_not_finished_before_the_last_reading() {
    let mut sampler = Sampler::standard();
    for taken in 0..15u32 {
        assert!(!sampler.is_finished());
        assert_eq!(sampler.samples().len(), taken as usize);
        sampler.record(taken);
    }
    assert!(sampler.is_finished());
}

#[test]
fn finished_sampler_takes_no_reading() {
    let mut sampler = Sampler::new(2, 500);
    assert_eq!(sampler.record(10), SamplerStep::Measure { index: 2, wait_ms: 500 });
    assert_eq!(sampler.record(20), SamplerStep::Finished);
    assert_eq!(sampler.record(30), SamplerStep::Finished);
    assert_eq!(
        sampler.into_samples(),
        vec![Sample { index: 1, value_bits: 10 }, Sample { index: 2, value_bits: 20 }]
    );
}

#[test]
fn sampler_for_no_samples_is_finished_at_once() {
    let mut sampler = Sampler::new(0, 500);
    assert!(sampler.is_finished());
    assert_eq!(sampler.next_step(), SamplerStep::Finished);
    assert_eq!(sampler.record(5), SamplerStep::Finished);
    assert!(sampler.into_samples().is_empty());
}

#[test]
fn sample_check_tells_index_and_value() {
    let good = Sample { index: 15, value_bits: 100.0f32.to_bits() };
    assert!(good.check(15));
    assert!(!good.check(14));
    assert!(!Sample { index: 0, value_bits: 1.0f32.to_bits() }.check(15));
    assert!(!Sample { index: 1, value_bits: 100.5f32.to_bits() }.check(15));
    assert!(!Sample { index: 1, value_bits: (-3.0f32).to_bits() }.check(15));
}
