use macropad::config::Orientation;
use macropad::consts::{MAX_DELAY, MAX_KEY_PRESSES_8890};
use macropad::keyboard::LedColor;
use macropad::mapping::{default_layers_count, Button, Device, Knob, Layer, Macropad, Mapping};
use macropad::validate::{ButtonPos, KeyError, KnobPart, ValidateError};

const SINGLE_LAYER_PID: u16 = 0x8890;
const MULTI_LAYER_PID: u16 = 0x8840;

fn button(mapping: &str, delay: u16) -> Button {
    Button { delay, mapping: mapping.to_string() }
}

/// A macropad holding one layer with a single grid button and no knobs.
fn one_button_pad(mapping: &str, delay: u16) -> Macropad {
    Macropad {
        device: Device { orientation: Orientation::Normal, rows: 1, cols: 1, knobs: 0, layers: 1 },
        layers: vec![Layer { buttons: vec![vec![button(mapping, delay)]], knobs: vec![] }],
        led_settings: None,
    }
}

/// A macropad holding one layer with no grid buttons and a single knob.
fn one_knob_pad(ccw: &str, press: &str, cw: &str) -> Macropad {
    Macropad {
        device: Device { orientation: Orientation::Normal, rows: 0, cols: 0, knobs: 1, layers: 1 },
        layers: vec![Layer {
            buttons: vec![],
            knobs: vec![Knob { ccw: button(ccw, 0), press: button(press, 0), cw: button(cw, 0) }],
        }],
        led_settings: None,
    }
}

/// The factory default with every button and knob motion given a valid
/// mapping, so structural mismatches planted later are what validation
/// reports.
fn filled_pad() -> Macropad {
    let mut pad = Macropad::new(2, 3, 1);
    for layer in &mut pad.layers {
        for row in &mut layer.buttons {
            for b in row {
                b.mapping = "a".to_string();
            }
        }
        for knob in &mut layer.knobs {
            knob.ccw.mapping = "wheelup".to_string();
            knob.press.mapping = "click".to_string();
            knob.cw.mapping = "wheeldown".to_string();
        }
    }
    pad
}

#[test]
fn factory_default_shape() {
    let pad = Macropad::new(2, 3, 1);
    assert_eq!(pad.device.rows, 2);
    assert_eq!(pad.device.cols, 3);
    assert_eq!(pad.device.knobs, 1);
    assert_eq!(pad.device.layers, 3);
    assert_eq!(pad.device.orientation, Orientation::Normal);
    assert_eq!(pad.layers.len(), 3);
    for layer in &pad.layers {
        assert_eq!(layer.buttons.len(), 2);
        for row in &layer.buttons {
            assert_eq!(row.len(), 3);
            for b in row {
                assert_eq!(b.delay, 0);
                assert_eq!(b.mapping, "");
            }
        }
        assert_eq!(layer.knobs.len(), 1);
        assert_eq!(layer.knobs[0].press, Button::new());
    }
    let led = pad.led_settings.expect("factory default carries LED settings");
    assert_eq!(led.mode, 1);
    assert_eq!(led.layer, 1);
    assert_eq!(led.color, LedColor::Cyan);
    assert_eq!(default_layers_count(), 3);
}

#[test]
fn rejects_zero_layers() {
    let mut pad = one_button_pad("a", 0);
    pad.layers.clear();
    assert_eq!(
        Mapping::validate(&pad, None),
        Err(ValidateError::LayerCount { count: 0 })
    );
}

#[test]
fn rejects_four_layers() {
    let mut pad = filled_pad();
    pad.layers.push(Layer::new(2, 3, 1));
    pad.device.layers = 4;
    assert_eq!(
        Mapping::validate(&pad, None),
        Err(ValidateError::LayerCount { count: 4 })
    );
}

#[test]
fn rejects_layers_disagreeing_with_declared_count() {
    let mut pad = filled_pad();
    pad.layers.pop();
    assert_eq!(
        Mapping::validate(&pad, None),
        Err(ValidateError::DeclaredLayers { declared: 3, count: 2 })
    );
}

#[test]
fn rejects_row_count_mismatch() {
    let mut pad = filled_pad();
    pad.layers[1] = Layer::new(3, 3, 1);
    assert_eq!(
        Mapping::validate(&pad, None),
        Err(ValidateError::RowsMismatch { layer: 1 })
    );
}

#[test]
fn rejects_column_count_mismatch() {
    let mut pad = filled_pad();
    pad.layers[0].buttons[1].pop();
    assert_eq!(
        Mapping::validate(&pad, None),
        Err(ValidateError::ColsMismatch { layer: 0, row: 1 })
    );
}

#[test]
fn rejects_knob_count_mismatch() {
    let mut pad = filled_pad();
    pad.layers[2].knobs.clear();
    assert_eq!(
        Mapping::validate(&pad, None),
        Err(ValidateError::KnobsMismatch { layer: 2 })
    );
}

#[test]
fn rejects_unknown_product_id() {
    let pad = one_button_pad("a", 0);
    assert_eq!(
        Mapping::validate(&pad, Some(0x1234)),
        Err(ValidateError::UnknownProductId { pid: 0x1234 })
    );
}

#[test]
fn accepts_known_tokens_of_every_category() {
    let pad = one_button_pad("ctrl-c,shift-alt-f5,play,wheelup,space", 0);
    assert_eq!(Mapping::validate(&pad, None), Ok(()));
    assert_eq!(Mapping::validate(&pad, Some(MULTI_LAYER_PID)), Ok(()));
}

#[test]
fn rejects_unknown_token_naming_it() {
    let pad = one_button_pad("foobar", 0);
    assert_eq!(
        Mapping::validate(&pad, None),
        Err(ValidateError::BadButton {
            layer: 0,
            pos: ButtonPos::Grid { row: 0, col: 0 },
            error: KeyError::UnknownKey { token: "foobar".to_string() },
        })
    );
}

#[test]
fn rejects_empty_mapping_as_unknown_token() {
    let pad = one_button_pad("", 0);
    assert_eq!(
        Mapping::validate(&pad, None),
        Err(ValidateError::BadButton {
            layer: 0,
            pos: ButtonPos::Grid { row: 0, col: 0 },
            error: KeyError::UnknownKey { token: String::new() },
        })
    );
}

#[test]
fn locates_error_in_knob_part() {
    let pad = one_knob_pad("wheelup", "nosuch", "wheeldown");
    assert_eq!(
        Mapping::validate(&pad, None),
        Err(ValidateError::BadButton {
            layer: 0,
            pos: ButtonPos::Knob { index: 0, part: KnobPart::Press },
            error: KeyError::UnknownKey { token: "nosuch".to_string() },
        })
    );
}

#[test]
fn single_layer_family_accepts_delay_as_warning_only() {
    let pad = one_button_pad("a", 50);
    assert_eq!(Mapping::validate(&pad, Some(SINGLE_LAYER_PID)), Ok(()));
    let pad = one_button_pad("a", MAX_DELAY + 1);
    assert_eq!(Mapping::validate(&pad, Some(SINGLE_LAYER_PID)), Ok(()));
}

#[test]
fn single_layer_family_rejects_modifier_on_later_key() {
    let pad = one_button_pad("a,ctrl-b", 0);
    assert_eq!(
        Mapping::validate(&pad, Some(SINGLE_LAYER_PID)),
        Err(ValidateError::BadButton {
            layer: 0,
            pos: ButtonPos::Grid { row: 0, col: 0 },
            error: KeyError::ModifierAfterFirst { index: 1 },
        })
    );
    // The same mapping is fine where modifier chains are unrestricted.
    assert_eq!(Mapping::validate(&pad, Some(MULTI_LAYER_PID)), Ok(()));
    // A modifier chain on the first key alone is fine everywhere.
    let pad = one_button_pad("ctrl-b,a", 0);
    assert_eq!(Mapping::validate(&pad, Some(SINGLE_LAYER_PID)), Ok(()));
}

#[test]
fn single_layer_family_restricts_media_keys() {
    let pad = one_button_pad("brightnessup", 0);
    assert_eq!(
        Mapping::validate(&pad, Some(SINGLE_LAYER_PID)),
        Err(ValidateError::BadButton {
            layer: 0,
            pos: ButtonPos::Grid { row: 0, col: 0 },
            error: KeyError::MediaNotSupported { name: "Brightnessup".to_string() },
        })
    );
    for allowed in ["play", "previous", "next", "mute", "volumeup", "volumedown"] {
        let pad = one_button_pad(allowed, 0);
        assert_eq!(Mapping::validate(&pad, Some(SINGLE_LAYER_PID)), Ok(()));
    }
    // The whitelist holds exact canonical spellings: the short alias is a
    // recognized media key but not a whitelisted one.
    let pad = one_button_pad("prev", 0);
    assert_eq!(
        Mapping::validate(&pad, Some(SINGLE_LAYER_PID)),
        Err(ValidateError::BadButton {
            layer: 0,
            pos: ButtonPos::Grid { row: 0, col: 0 },
            error: KeyError::MediaNotSupported { name: "Prev".to_string() },
        })
    );
    let pad = one_button_pad("prev", 0);
    assert_eq!(Mapping::validate(&pad, Some(MULTI_LAYER_PID)), Ok(()));
}

#[test]
fn multi_layer_family_rejects_high_delay_and_allows_full_media() {
    let pad = one_button_pad("brightnessup", MAX_DELAY + 1);
    assert_eq!(
        Mapping::validate(&pad, Some(MULTI_LAYER_PID)),
        Err(ValidateError::BadButton {
            layer: 0,
            pos: ButtonPos::Grid { row: 0, col: 0 },
            error: KeyError::DelayTooHigh { delay: MAX_DELAY + 1 },
        })
    );
    let pad = one_button_pad("brightnessup", MAX_DELAY);
    assert_eq!(Mapping::validate(&pad, Some(MULTI_LAYER_PID)), Ok(()));
    // An unnamed family enforces the same delay ceiling.
    let pad = one_button_pad("a", MAX_DELAY + 1);
    assert_eq!(
        Mapping::validate(&pad, None),
        Err(ValidateError::BadButton {
            layer: 0,
            pos: ButtonPos::Grid { row: 0, col: 0 },
            error: KeyError::DelayTooHigh { delay: MAX_DELAY + 1 },
        })
    );
}

#[test]
fn rejects_too_many_chained_keys() {
    let pad = one_button_pad("a,b,c,d,e,f", 0);
    assert_eq!(
        Mapping::validate(&pad, Some(SINGLE_LAYER_PID)),
        Err(ValidateError::BadButton {
            layer: 0,
            pos: ButtonPos::Grid { row: 0, col: 0 },
            error: KeyError::TooManyKeys { count: 6, max: MAX_KEY_PRESSES_8890 },
        })
    );
    // The multi-layer family's capacity is larger.
    assert_eq!(Mapping::validate(&pad, Some(MULTI_LAYER_PID)), Ok(()));
    // A mapping exactly at the capacity is accepted.
    let pad = one_button_pad("a,b,c,d,e", 0);
    assert_eq!(Mapping::validate(&pad, Some(SINGLE_LAYER_PID)), Ok(()));
}

#[test]
fn validation_is_idempotent_and_leaves_the_macropad_unchanged() {
    for (mapping, pid) in [
        ("ctrl-c,ctrl-v", None),
        ("foobar", None),
        ("brightnessup", Some(SINGLE_LAYER_PID)),
        ("a", Some(0xffff)),
    ] {
        let pad = one_button_pad(mapping, 10);
        let copy = pad.clone();
        let first = Mapping::validate(&pad, pid);
        let second = Mapping::validate(&pad, pid);
        assert_eq!(first, second);
        assert_eq!(pad, copy);
    }
}

#[test]
fn apply_layout_preserves_overlapping_cells() {
    let mut pad = Macropad::new(2, 3, 1);
    for (r, row) in pad.layers[0].buttons.iter_mut().enumerate() {
        for (c, b) in row.iter_mut().enumerate() {
            b.mapping = format!("f{}", r * 3 + c + 1);
        }
    }
    pad.layers[0].knobs[0].press.mapping = "click".to_string();
    let led = pad.led_settings;
    pad.apply_layout(Orientation::Clockwise, 3, 2, 2, 2);
    assert_eq!(pad.device.orientation, Orientation::Clockwise);
    assert_eq!(pad.device.rows, 3);
    assert_eq!(pad.device.cols, 2);
    assert_eq!(pad.device.knobs, 2);
    assert_eq!(pad.device.layers, 2);
    assert_eq!(pad.layers.len(), 2);
    let layer = &pad.layers[0];
    assert_eq!(layer.buttons.len(), 3);
    for row in &layer.buttons {
        assert_eq!(row.len(), 2);
    }
    // Cells inside the old 2×3 grid keep their mappings; the new row is
    // factory-fresh.
    assert_eq!(layer.buttons[0][0].mapping, "f1");
    assert_eq!(layer.buttons[0][1].mapping, "f2");
    assert_eq!(layer.buttons[1][0].mapping, "f4");
    assert_eq!(layer.buttons[1][1].mapping, "f5");
    assert_eq!(layer.buttons[2][0], Button::new());
    assert_eq!(layer.buttons[2][1], Button::new());
    // The existing knob is kept, the added one is factory-fresh.
    assert_eq!(layer.knobs.len(), 2);
    assert_eq!(layer.knobs[0].press.mapping, "click");
    assert_eq!(layer.knobs[1].press, Button::new());
    assert_eq!(pad.led_settings, led);
    // The regenerated pad passes structural validation once its buttons hold
    // valid mappings.
    assert_eq!(
        Mapping::validate(&pad, None),
        Err(ValidateError::BadButton {
            layer: 0,
            pos: ButtonPos::Grid { row: 2, col: 0 },
            error: KeyError::UnknownKey { token: String::new() },
        })
    );
}

#[test]
fn apply_layout_grows_the_layer_list_with_blank_layers() {
    let mut pad = one_button_pad("a", 0);
    pad.apply_layout(Orientation::Normal, 1, 1, 0, 3);
    assert_eq!(pad.layers.len(), 3);
    assert_eq!(pad.layers[0].buttons[0][0].mapping, "a");
    assert_eq!(pad.layers[1].buttons[0][0], Button::new());
    assert_eq!(pad.layers[2].buttons[0][0], Button::new());
}

#[test]
fn family_caps_follow_the_capability_table() {
    let single = Mapping::family_caps(Some(SINGLE_LAYER_PID)).unwrap();
    assert_eq!(single.max_keys, MAX_KEY_PRESSES_8890);
    assert!(!single.enforce_delay);
    assert!(single.mods_first_only);
    assert!(single.restrict_media);
    let multi = Mapping::family_caps(Some(0x8842)).unwrap();
    assert!(multi.enforce_delay);
    assert!(!multi.mods_first_only);
    assert!(!multi.restrict_media);
    let unknown = Mapping::family_caps(None).unwrap();
    assert_eq!(unknown.max_keys, 0xff);
    assert!(unknown.enforce_delay);
    assert!(Mapping::family_caps(Some(0xbeef)).is_err());
    // The delay-is-ignored warning applies exactly on the family that does
    // not enforce delays.
    assert!(Mapping::delay_ignored(&button("a", 50), &single));
    assert!(!Mapping::delay_ignored(&button("a", 0), &single));
    assert!(!Mapping::delay_ignored(&button("a", 50), &multi));
}
