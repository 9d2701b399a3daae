use delay_vst::meter::{meter, segment, segment_rgb, Segment, METER_SEGMENTS};
use delay_vst::palette::Rgb;

fn lit(m: &[Segment]) -> usize {
    m.iter().filter(|s| **s != Segment::Off).count()
}

#[test]
fn empty_meter_is_dark() {
    let m = meter(0);
    assert_eq!(m.len(), METER_SEGMENTS);
    assert!(m.iter().all(|s| *s == Segment::Off));
}

#[test]
fn full_meter_colours() {
    let m = meter(24);
    assert_eq!(lit(&m), 24);
    for (i, s) in m.iter().enumerate() {
        let want = if i < 16 {
            Segment::Green
        } else if i < 19 {
            Segment::Cyan
        } else if i < 22 {
            Segment::Orange
        } else {
            Segment::Red
        };
        assert_eq!(*s, want);
    }
}

#[test]
fn lit_count_is_capped_at_segment_count() {
    for n in [0usize, 1, 7, 16, 19, 23, 24, 25, 1000, usize::MAX] {
        assert_eq!(lit(&meter(n)), n.min(24));
    }
}

#[test]
fn lit_segments_form_a_column_from_the_bottom() {
    for n in 0..30 {
        let m = meter(n);
        for j in 0..METER_SEGMENTS {
            if m[j] != Segment::Off {
                for i in 0..j {
                    assert_ne!(m[i], Segment::Off);
                }
            }
        }
    }
}

#[test]
fn higher_level_never_darkens() {
    for low in 0..26 {
        for high in low..26 {
            let a = meter(low);
            let b = meter(high);
            for i in 0..METER_SEGMENTS {
                if a[i] != Segment::Off {
                    assert_eq!(a[i], b[i]);
                }
            }
        }
    }
}

#[test]
fn single_segments() {
    assert_eq!(segment(15, 16), Segment::Green);
    assert_eq!(segment(16, 17), Segment::Cyan);
    assert_eq!(segment(18, 24), Segment::Cyan);
    assert_eq!(segment(19, 24), Segment::Orange);
    assert_eq!(segment(21, 22), Segment::Orange);
    assert_eq!(segment(22, 23), Segment::Red);
    assert_eq!(segment(16, 16), Segment::Off);
    assert_eq!(segment(100, 200), Segment::Red);
}

#[test]
fn segment_paint() {
    assert_eq!(segment_rgb(Segment::Off), Rgb { r: 203, g: 213, b: 220 });
    assert_eq!(segment_rgb(Segment::Green), Rgb { r: 82, g: 236, b: 135 });
    assert_eq!(segment_rgb(Segment::Cyan), Rgb { r: 76, g: 223, b: 242 });
    assert_eq!(segment_rgb(Segment::Orange), Rgb { r: 252, g: 163, b: 61 });
    assert_eq!(segment_rgb(Segment::Red), Rgb { r: 255, g: 94, b: 94 });
}
