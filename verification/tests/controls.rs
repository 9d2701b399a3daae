use delay_vst::controls::{ControlEvent, Controls, TEMPO_COUNT};

fn all_events() -> Vec<ControlEvent> {
    vec![
        ControlEvent::ToggleStudioMode,
        ControlEvent::ToggleAutoGain,
        ControlEvent::ToggleBrightness,
        ControlEvent::ToggleColor,
        ControlEvent::ToggleSparkle,
        ControlEvent::TempoShorter,
        ControlEvent::TempoLonger,
    ]
}

#[test]
fn default_panel() {
    let c = Controls::default();
    assert_eq!(c.tempo_index, 2);
    assert!(c.studio_mode);
    assert!(c.auto_gain);
    assert!(!c.brightness_active);
    assert!(!c.color_active);
    assert!(!c.sparkle_active);
    assert_eq!(c.tempo_label(), "1/8");
}

#[test]
fn each_toggle_flips_only_its_switch() {
    let base = Controls::default();
    let mut c = base;
    c.toggle_studio_mode();
    assert_eq!(c, Controls { studio_mode: false, ..base });
    let mut c = base;
    c.toggle_auto_gain();
    assert_eq!(c, Controls { auto_gain: false, ..base });
    let mut c = base;
    c.toggle_brightness();
    assert_eq!(c, Controls { brightness_active: true, ..base });
    let mut c = base;
    c.toggle_color();
    assert_eq!(c, Controls { color_active: true, ..base });
    let mut c = base;
    c.toggle_sparkle();
    assert_eq!(c, Controls { sparkle_active: true, ..base });
}

#[test]
fn toggle_twice_restores() {
    let base = Controls { brightness_active: true, ..Controls::default() };
    for e in all_events().into_iter().take(5) {
        let mut c = base;
        c.apply(e);
        assert_ne!(c, base);
        c.apply(e);
        assert_eq!(c, base);
    }
}

#[test]
fn tempo_steps_and_stops_at_the_ends() {
    let mut c = Controls::default();
    c.tempo_shorter();
    assert_eq!(c.tempo_index, 1);
    c.tempo_shorter();
    assert_eq!(c.tempo_index, 0);
    c.tempo_shorter();
    assert_eq!(c.tempo_index, 0);
    assert_eq!(c.tempo_label(), "1/32");
    for _ in 0..10 {
        c.tempo_longer();
    }
    assert_eq!(c.tempo_index, TEMPO_COUNT - 1);
    assert_eq!(c.tempo_label(), "1/1");
}

#[test]
fn tempo_steps_leave_out_of_range_index_alone_upwards() {
    let mut c = Controls { tempo_index: 9, ..Controls::default() };
    c.tempo_longer();
    assert_eq!(c.tempo_index, 9);
    c.tempo_shorter();
    assert_eq!(c.tempo_index, 8);
}

#[test]
fn longer_and_shorter_undo_each_other() {
    for i in 1..TEMPO_COUNT {
        let mut c = Controls { tempo_index: i, ..Controls::default() };
        c.tempo_shorter();
        c.tempo_longer();
        assert_eq!(c.tempo_index, i);
    }
    for i in 0..TEMPO_COUNT - 1 {
        let mut c = Controls { tempo_index: i, ..Controls::default() };
        c.tempo_longer();
        c.tempo_shorter();
        assert_eq!(c.tempo_index, i);
    }
}

#[test]
fn tempo_labels_in_order() {
    let expected = ["1/32", "1/16", "1/8", "1/4", "1/2", "1/1"];
    for (i, label) in expected.iter().enumerate() {
        let c = Controls { tempo_index: i, ..Controls::default() };
        assert_eq!(c.tempo_label(), *label);
        assert_eq!(c.tempo_progress_sixths(), i + 1);
    }
}

#[test]
fn toggles_commute_with_every_event() {
    let base = Controls { tempo_index: 5, ..Controls::default() };
    for t in all_events().into_iter().take(5) {
        for e in all_events() {
            let mut a = base;
            a.apply(t);
            a.apply(e);
            let mut b = base;
            b.apply(e);
            b.apply(t);
            assert_eq!(a, b);
        }
    }
}

#[test]
fn apply_all_runs_in_order() {
    let mut c = Controls::default();
    c.apply_all(&vec![
        ControlEvent::ToggleStudioMode,
        ControlEvent::TempoLonger,
        ControlEvent::TempoLonger,
        ControlEvent::ToggleSparkle,
        ControlEvent::TempoShorter,
        ControlEvent::ToggleStudioMode,
        ControlEvent::ToggleColor,
    ]);
    assert_eq!(
        c,
        Controls {
            tempo_index: 3,
            studio_mode: true,
            auto_gain: true,
            brightness_active: false,
            color_active: true,
            sparkle_active: true,
        }
    );
}

#[test]
fn apply_all_of_concatenation_is_apply_all_in_turn() {
    let a = vec![ControlEvent::TempoShorter, ControlEvent::ToggleAutoGain];
    let b = vec![ControlEvent::TempoShorter, ControlEvent::TempoShorter, ControlEvent::TempoLonger];
    let mut whole = Controls::default();
    let mut joined = a.clone();
    joined.extend(b.iter().copied());
    whole.apply_all(&joined);
    let mut parts = Controls::default();
    parts.apply_all(&a);
    parts.apply_all(&b);
    assert_eq!(whole, parts);
    assert_eq!(whole.tempo_index, 1);
}

#[test]
fn apply_all_of_nothing_changes_nothing() {
    let mut c = Controls::default();
    c.apply_all(&Vec::new());
    assert_eq!(c, Controls::default());
}
