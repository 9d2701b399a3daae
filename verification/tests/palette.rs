use delay_vst::palette::{
    auto_gain_lamp, filter_border, filter_fill, filter_ink, mode_label_colors,
    mode_switch_background, mode_switch_handle_offset, shadow_alpha, Rgb, SHADOW_RINGS,
};

const SELECTED: Rgb = Rgb { r: 46, g: 53, b: 64 };
const UNSELECTED: Rgb = Rgb { r: 138, g: 148, b: 166 };
const ACCENT: Rgb = Rgb { r: 44, g: 229, b: 196 };

#[test]
fn mode_labels() {
    assert_eq!(mode_label_colors(true), (SELECTED, UNSELECTED));
    assert_eq!(mode_label_colors(false), (UNSELECTED, SELECTED));
}

#[test]
fn flipping_mode_swaps_label_colours() {
    for m in [true, false] {
        let (a, b) = mode_label_colors(m);
        assert_ne!(a, b);
        assert_eq!(mode_label_colors(!m), (b, a));
    }
}

#[test]
fn mode_switch() {
    assert_eq!(mode_switch_background(true), Rgb { r: 142, g: 153, b: 252 });
    assert_eq!(mode_switch_background(false), Rgb { r: 203, g: 213, b: 224 });
    assert_eq!(mode_switch_handle_offset(true), 2);
    assert_eq!(mode_switch_handle_offset(false), 17);
}

#[test]
fn auto_gain_lamp_colours() {
    assert_eq!(auto_gain_lamp(true), Rgb { r: 89, g: 243, b: 140 });
    assert_eq!(auto_gain_lamp(false), Rgb { r: 160, g: 174, b: 192 });
}

#[test]
fn filter_button_styles() {
    assert_eq!(filter_ink(true), ACCENT);
    assert_eq!(filter_ink(false), Rgb { r: 113, g: 128, b: 150 });
    assert_eq!(filter_fill(true), Some(Rgb { r: 235, g: 253, b: 250 }));
    assert_eq!(filter_fill(false), None);
    assert_eq!(filter_border(true), Some(ACCENT));
    assert_eq!(filter_border(false), None);
}

#[test]
fn shadow_alphas() {
    let alphas: Vec<u8> = (1..=SHADOW_RINGS).map(shadow_alpha).collect();
    assert_eq!(alphas, vec![30, 15, 10, 7, 6, 5]);
    assert!(alphas.windows(2).all(|w| w[1] <= w[0]));
    assert_eq!(shadow_alpha(31), 0);
}
