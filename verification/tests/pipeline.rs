use telop::models::ass_subtitle::StyleType;
use telop::pipeline::{MixRequest, TimelineAccumulator};

#[test]
fn test_accumulator_timeline() {
    // Three lines with synthesized durations of 2 s, 3 s and 1.5 s and a
    // pause of 1 s give cues [0,2], [3,6], [7,8.5] and a final clock of
    // 9.5 s.
    let mut acc = TimelineAccumulator::new(1_000);
    assert_eq!(acc.clock_millis, 0);
    assert_eq!(acc.cues.len(), 0);

    let r0 = acc.step("L0", Some(2_000));
    let r1 = acc.step("L1", Some(3_000));
    let r2 = acc.step("L2", Some(1_500));

    assert_eq!(r0, Some(MixRequest { offset_millis: 0, weight: 1 }));
    assert_eq!(r1, Some(MixRequest { offset_millis: 3_000, weight: 2 }));
    assert_eq!(r2, Some(MixRequest { offset_millis: 7_000, weight: 3 }));

    assert_eq!(acc.cues.len(), 3);
    assert_eq!(
        (acc.cues[0].id, acc.cues[0].start_time, acc.cues[0].end_time),
        (0, 0, 2_000)
    );
    assert_eq!(
        (acc.cues[1].id, acc.cues[1].start_time, acc.cues[1].end_time),
        (1, 3_000, 6_000)
    );
    assert_eq!(
        (acc.cues[2].id, acc.cues[2].start_time, acc.cues[2].end_time),
        (2, 7_000, 8_500)
    );
    assert_eq!(acc.cues[0].text, "L0");
    assert_eq!(acc.cues[1].text, "L1");
    assert_eq!(acc.cues[2].text, "L2");
    assert_eq!(acc.cues[0].style_name, Some(StyleType::Default));
    assert_eq!(acc.cues[1].style_name, Some(StyleType::Red));
    assert_eq!(acc.cues[2].style_name, Some(StyleType::Green));
    assert_eq!(acc.clock_millis, 9_500);
}

#[test]
fn test_accumulator_skips_failed_line() {
    // A failed synthesis consumes its index but neither advances the clock
    // nor appends a cue: no gap filling, no renumbering.
    let mut acc = TimelineAccumulator::new(1_000);
    let r0 = acc.step("L0", Some(2_000));
    let r1 = acc.step("L1", None);
    let r2 = acc.step("L2", Some(1_500));

    assert!(r0.is_some());
    assert_eq!(r1, None);
    assert_eq!(r2, Some(MixRequest { offset_millis: 3_000, weight: 3 }));

    assert_eq!(acc.cues.len(), 2);
    assert_eq!(
        (acc.cues[0].id, acc.cues[0].start_time, acc.cues[0].end_time),
        (0, 0, 2_000)
    );
    assert_eq!(
        (acc.cues[1].id, acc.cues[1].start_time, acc.cues[1].end_time),
        (2, 3_000, 4_500)
    );
    assert_eq!(acc.cues[1].style_name, Some(StyleType::Green));
    assert_eq!(acc.clock_millis, 5_500);
}

#[test]
fn test_accumulator_cues_do_not_overlap() {
    let mut acc = TimelineAccumulator::new(250);
    let durations = [400, 0, 1_200, 33];
    for (i, d) in durations.iter().enumerate() {
        acc.step(&format!("line {}", i), Some(*d));
    }
    for w in acc.cues.windows(2) {
        assert!(w[0].end_time <= w[1].start_time);
        assert!(w[0].id < w[1].id);
    }
    for cue in &acc.cues {
        assert!(cue.start_time <= cue.end_time);
        assert!(cue.end_time <= acc.clock_millis);
    }
}
