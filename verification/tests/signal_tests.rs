use sine_engine::pipeline::write_data_i16;
use sine_engine::signal::Wavetable;

#[test]
fn build_rejects_out_of_range_inputs() {
    assert!(Wavetable::build(vec![], 440, 44100).is_none());
    assert!(Wavetable::build(vec![1, 2, 3], 0, 44100).is_none());
    assert!(Wavetable::build(vec![1, 2, 3], 44100, 44100).is_none());
    assert!(Wavetable::build(vec![1, 2, 3], 44101, 44100).is_none());
    assert!(Wavetable::build(vec![0; 0x100001], 440, 44100).is_none());
    assert!(Wavetable::build(vec![1, 2, 3], 440, 44100).is_some());
}

#[test]
fn oscillator_sweeps_the_table_in_order() {
    // Four entries, one cycle per four frames: the step is exactly one entry.
    let mut osc = Wavetable::build(vec![10, 20, 30, 40], 1, 4).unwrap();
    let frames = osc.render(6);
    let lefts: Vec<i64> = frames.iter().map(|f| f.0).collect();
    assert_eq!(lefts, vec![10, 20, 30, 40, 10, 20]);
    for (l, r) in frames {
        assert_eq!(l, r);
    }
}

#[test]
fn rendering_continues_across_calls() {
    let mut osc = Wavetable::build(vec![1, 2, 3, 4], 1, 4).unwrap();
    let a = osc.render(3);
    let b = osc.render(3);
    let got: Vec<i64> = a.iter().chain(b.iter()).map(|f| f.0).collect();
    assert_eq!(got, vec![1, 2, 3, 4, 1, 2]);
}

#[test]
fn end_to_end_sine_440_at_44100() {
    // One cycle of a 440 Hz sine rendered through the whole pipeline at a
    // 44100 Hz sample rate: capture ten stereo buffers covering one second
    // and count rising zero crossings on the left channel.
    let table: Vec<i64> = (0..1024)
        .map(|i| {
            let phase = i as f64 / 1024.0 * std::f64::consts::TAU;
            (phase.sin() * 30000.0) as i64
        })
        .collect();
    let mut osc = Wavetable::build(table, 440, 44100).unwrap();
    let mut left: Vec<i16> = Vec::new();
    for _ in 0..10 {
        let mut buf = vec![0i16; 8820];
        write_data_i16(&mut buf, 2, &mut osc);
        for f in 0..4410 {
            // Interleaved stereo: even index left, odd index right — and for
            // this source both channels carry the same sample.
            assert_eq!(buf[2 * f], buf[2 * f + 1]);
            left.push(buf[2 * f]);
        }
    }
    assert_eq!(left.len(), 44100);
    let mut crossings = 0;
    for i in 1..left.len() {
        if left[i - 1] < 0 && left[i] >= 0 {
            crossings += 1;
        }
    }
    assert!(
        (430..=450).contains(&crossings),
        "rising zero crossings in one second: {crossings}"
    );
    // The wave must actually swing close to the table's amplitude.
    let peak = left.iter().map(|s| s.abs() as i64).max().unwrap();
    assert!(peak > 29_000);
}
