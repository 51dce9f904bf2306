//! The configuration data model: a device's geometry plus, per layer, one
//! button mapping per key and per knob motion.

use vstd::prelude::*;
use crate::config::Orientation;
use crate::keyboard::{
    classify_canonical, classify_name, is_media_name, is_modifier_name, is_mouse_name,
    is_regular_name, token_is_media, token_is_modifier, token_is_mouse, token_is_regular,
    KeyCategory, LedColor,
};
use crate::text::{split_spec, split_str, upper_first, uppercase_first_str};

verus! {

/// Mapping for a button: a delay in milliseconds and an action string holding
/// zero or more comma-separated compound actions.
#[derive(Debug, Clone, PartialEq)]
pub struct Button {
    pub delay: u16,
    pub mapping: String,
}

/// Ghost image of a `Button`.
pub struct ButtonV {
    pub delay: u16,
    pub mapping: Seq<char>,
}

impl View for Button {
    type V = ButtonV;

    open spec fn view(&self) -> ButtonV {
        ButtonV { delay: self.delay, mapping: self.mapping@ }
    }
}

impl DeepView for Button {
    type V = ButtonV;

    open spec fn deep_view(&self) -> ButtonV {
        self.view()
    }
}

/// Mapping for a knob: counter-clockwise rotation, press, clockwise rotation.
#[derive(Debug, Clone, PartialEq)]
pub struct Knob {
    pub ccw: Button,
    pub press: Button,
    pub cw: Button,
}

/// Ghost image of a `Knob`.
pub struct KnobV {
    pub ccw: ButtonV,
    pub press: ButtonV,
    pub cw: ButtonV,
}

impl View for Knob {
    type V = KnobV;

    open spec fn view(&self) -> KnobV {
        KnobV { ccw: self.ccw@, press: self.press@, cw: self.cw@ }
    }
}

impl DeepView for Knob {
    type V = KnobV;

    open spec fn deep_view(&self) -> KnobV {
        self.view()
    }
}

/// One complete, independently switchable keymap: a rows×cols grid of buttons
/// and one entry per knob.
#[derive(Debug, Clone, PartialEq)]
pub struct Layer {
    pub buttons: Vec<Vec<Button>>,
    pub knobs: Vec<Knob>,
}

/// Ghost image of a `Layer`.
pub struct LayerV {
    pub buttons: Seq<Seq<ButtonV>>,
    pub knobs: Seq<KnobV>,
}

impl View for Layer {
    type V = LayerV;

    open spec fn view(&self) -> LayerV {
        LayerV { buttons: self.buttons.deep_view(), knobs: self.knobs.deep_view() }
    }
}

impl DeepView for Layer {
    type V = LayerV;

    open spec fn deep_view(&self) -> LayerV {
        self.view()
    }
}

/// Fixed physical geometry of a device; changing it requires regenerating all
/// layers.
#[derive(Debug, Clone, Copy, PartialEq, Eq, Structural)]
pub struct Device {
    pub orientation: Orientation,
    pub rows: u8,
    pub cols: u8,
    pub knobs: u8,
    pub layers: u8,
}

/// LED configuration: a device-family-specific mode id, the layer the mode
/// applies to, and a color from the fixed palette.
#[derive(Debug, Clone, Copy, PartialEq, Eq, Structural)]
pub struct LedSettings {
    pub mode: u8,
    pub layer: u8,
    pub color: LedColor,
}

/// The complete configuration unit: device geometry, all layers, and optional
/// LED settings.
#[derive(Debug, Clone, PartialEq)]
pub struct Macropad {
    pub device: Device,
    pub layers: Vec<Layer>,
    pub led_settings: Option<LedSettings>,
}

/// Ghost image of a `Macropad`.
pub struct MacropadV {
    pub device: Device,
    pub layers: Seq<LayerV>,
    pub led_settings: Option<LedSettings>,
}

impl View for Macropad {
    type V = MacropadV;

    open spec fn view(&self) -> MacropadV {
        MacropadV {
            device: self.device,
            layers: self.layers.deep_view(),
            led_settings: self.led_settings,
        }
    }
}

/// The button every factory-fresh cell starts as: no delay, empty mapping.
pub open spec fn default_button() -> ButtonV {
    ButtonV { delay: 0, mapping: Seq::<char>::empty() }
}

/// A knob whose three motions are all factory-fresh buttons.
pub open spec fn default_knob() -> KnobV {
    KnobV { ccw: default_button(), press: default_button(), cw: default_button() }
}

/// One factory-fresh row of `cols` default buttons.
pub open spec fn blank_row(cols: u8) -> Seq<ButtonV> {
    Seq::new(cols as nat, |j: int| default_button())
}

/// A factory-fresh layer for the given geometry: a rows×cols grid of default
/// buttons and one default knob entry per knob.
pub open spec fn blank_layer(rows: u8, cols: u8, knobs: u8) -> LayerV {
    LayerV {
        buttons: Seq::new(rows as nat, |i: int| blank_row(cols)),
        knobs: Seq::new(knobs as nat, |i: int| default_knob()),
    }
}

impl Button {
    /// A factory-fresh button: zero delay, empty mapping.
    pub fn new() -> (b: Button)
        ensures
            b@ == default_button(),
    {
        let b = Button { delay: 0, mapping: String::new() };
        proof {
            assert(b@.mapping =~= default_button().mapping);
        }
        b
    }
}

impl Layer {
    /// A factory-fresh layer for the given geometry.
    pub fn new(rows: u8, cols: u8, num_knobs: u8) -> (l: Layer)
        ensures
            l@ == blank_layer(rows, cols, num_knobs),
    {
        let mut buttons: Vec<Vec<Button>> = Vec::new();
        let mut i: usize = 0;
        while i < rows as usize
            invariant
                i <= rows as usize,
                buttons.deep_view().len() == i,
                forall|r: int| 0 <= r < i ==> buttons.deep_view()[r] =~= blank_row(cols),
            decreases rows as usize - i,
        {
            let mut row: Vec<Button> = Vec::new();
            let mut j: usize = 0;
            while j < cols as usize
                invariant
                    j <= cols as usize,
                    row.deep_view().len() == j,
                    forall|k: int| 0 <= k < j ==> row.deep_view()[k] == default_button(),
                decreases cols as usize - j,
            {
                let ghost row_pre = row.deep_view();
                row.push(Button::new());
                proof {
                    assert(row.deep_view() =~~= row_pre.push(default_button()));
                }
                j = j + 1;
            }
            proof {
                assert(row.deep_view() =~= blank_row(cols));
            }
            let ghost pre = buttons.deep_view();
            let ghost row_view = row.deep_view();
            buttons.push(row);
            proof {
                assert(buttons.deep_view() =~~= pre.push(row_view));
                assert forall|r: int| 0 <= r < i + 1 implies buttons.deep_view()[r] =~= blank_row(
                    cols,
                ) by {
                    if r < i {
                        assert(buttons.deep_view()[r] == pre[r]);
                    } else {
                        assert(buttons.deep_view()[r] == row_view);
                    }
                }
            }
            i = i + 1;
        }
        let mut knobs: Vec<Knob> = Vec::new();
        let mut k: usize = 0;
        while k < num_knobs as usize
            invariant
                k <= num_knobs as usize,
                knobs.deep_view().len() == k,
                forall|q: int| 0 <= q < k ==> knobs.deep_view()[q] == default_knob(),
            decreases num_knobs as usize - k,
        {
            let ghost knobs_pre = knobs.deep_view();
            knobs.push(Knob { ccw: Button::new(), press: Button::new(), cw: Button::new() });
            proof {
                assert(knobs.deep_view() =~~= knobs_pre.push(default_knob()));
            }
            k = k + 1;
        }
        let l = Layer { buttons, knobs };
        proof {
            assert(l@.buttons =~= blank_layer(rows, cols, num_knobs).buttons);
            assert(l@.knobs =~= blank_layer(rows, cols, num_knobs).knobs);
        }
        l
    }
}

/// The layer count assumed for persisted configurations that predate the
/// layer-count field.
pub fn default_layers_count() -> (r: u8)
    ensures
        r == 3,
{
    3
}

impl Macropad {
    /// The factory default for a given rows/cols/knobs triple: three blank
    /// layers, normal orientation, LED mode 1 on layer 1 in cyan.
    pub fn new(rows: u8, cols: u8, knobs: u8) -> (m: Macropad)
        ensures
            m@.device == (Device {
                orientation: Orientation::Normal,
                rows,
                cols,
                knobs,
                layers: 3,
            }),
            m@.layers.len() == 3,
            forall|i: int| 0 <= i < 3 ==> m@.layers[i] =~= blank_layer(rows, cols, knobs),
            m@.led_settings == Some(LedSettings { mode: 1, layer: 1, color: LedColor::Cyan }),
    {
        let mut layers: Vec<Layer> = Vec::new();
        layers.push(Layer::new(rows, cols, knobs));
        layers.push(Layer::new(rows, cols, knobs));
        layers.push(Layer::new(rows, cols, knobs));
        Macropad {
            device: Device { orientation: Orientation::Normal, rows, cols, knobs, layers: 3 },
            layers,
            led_settings: Some(LedSettings { mode: 1, layer: 1, color: LedColor::Cyan }),
        }
    }
}

/// One row regenerated for a new column count: overlapping cells are kept,
/// the rest are factory-fresh.
pub open spec fn regen_row(old_row: Seq<ButtonV>, cols: u8) -> Seq<ButtonV> {
    Seq::new(
        cols as nat,
        |c: int| if c < old_row.len() {
            old_row[c]
        } else {
            default_button()
        },
    )
}

/// One layer regenerated for a new geometry: every cell and knob that exists
/// in both the old and the new geometry is kept, the rest are factory-fresh.
pub open spec fn regen_layer(l: LayerV, rows: u8, cols: u8, knobs: u8) -> LayerV {
    LayerV {
        buttons: Seq::new(
            rows as nat,
            |r: int| if r < l.buttons.len() {
                regen_row(l.buttons[r], cols)
            } else {
                blank_row(cols)
            },
        ),
        knobs: Seq::new(
            knobs as nat,
            |k: int| if k < l.knobs.len() {
                l.knobs[k]
            } else {
                default_knob()
            },
        ),
    }
}

/// A field-for-field copy of a button.
fn copy_button(b: &Button) -> (r: Button)
    ensures
        r@ == b@,
{
    Button { delay: b.delay, mapping: b.mapping.clone() }
}

/// A field-for-field copy of a knob.
fn copy_knob(k: &Knob) -> (r: Knob)
    ensures
        r@ == k@,
{
    Knob { ccw: copy_button(&k.ccw), press: copy_button(&k.press), cw: copy_button(&k.cw) }
}

/// Builds the regeneration of one layer for a new geometry, as `regen_layer`
/// describes.
fn regen_layer_exec(l: &Layer, rows: u8, cols: u8, knobs: u8) -> (r: Layer)
    ensures
        r@ == regen_layer(l@, rows, cols, knobs),
{
    let ghost goal = regen_layer(l@, rows, cols, knobs);
    let mut buttons: Vec<Vec<Button>> = Vec::new();
    let mut i: usize = 0;
    while i < rows as usize
        invariant
            goal == regen_layer(l@, rows, cols, knobs),
            i <= rows as usize,
            buttons.deep_view().len() == i,
            forall|r: int| 0 <= r < i ==> buttons.deep_view()[r] =~= goal.buttons[r],
        decreases rows as usize - i,
    {
        let mut row: Vec<Button> = Vec::new();
        let mut j: usize = 0;
        while j < cols as usize
            invariant
                goal == regen_layer(l@, rows, cols, knobs),
                i < rows as usize,
                j <= cols as usize,
                row.deep_view().len() == j,
                forall|k: int| 0 <= k < j ==> row.deep_view()[k] == goal.buttons[i as int][k],
            decreases cols as usize - j,
        {
            let ghost row_pre = row.deep_view();
            if i < l.buttons.len() && j < l.buttons[i].len() {
                row.push(copy_button(&l.buttons[i][j]));
            } else {
                row.push(Button::new());
            }
            proof {
                assert(row.deep_view() =~~= row_pre.push(goal.buttons[i as int][j as int]));
            }
            j = j + 1;
        }
        proof {
            assert(row.deep_view() =~= goal.buttons[i as int]);
        }
        let ghost pre = buttons.deep_view();
        let ghost row_view = row.deep_view();
        buttons.push(row);
        proof {
            assert(buttons.deep_view() =~~= pre.push(row_view));
            assert forall|r: int| 0 <= r < i + 1 implies buttons.deep_view()[r] =~= goal.buttons[r] by {
                if r < i {
                    assert(buttons.deep_view()[r] == pre[r]);
                } else {
                    assert(buttons.deep_view()[r] == row_view);
                }
            }
        }
        i = i + 1;
    }
    let mut new_knobs: Vec<Knob> = Vec::new();
    let mut k: usize = 0;
    while k < knobs as usize
        invariant
            goal == regen_layer(l@, rows, cols, knobs),
            k <= knobs as usize,
            new_knobs.deep_view().len() == k,
            forall|q: int| 0 <= q < k ==> new_knobs.deep_view()[q] == goal.knobs[q],
        decreases knobs as usize - k,
    {
        let ghost knobs_pre = new_knobs.deep_view();
        if k < l.knobs.len() {
            new_knobs.push(copy_knob(&l.knobs[k]));
        } else {
            new_knobs.push(Knob { ccw: Button::new(), press: Button::new(), cw: Button::new() });
        }
        proof {
            assert(new_knobs.deep_view() =~~= knobs_pre.push(goal.knobs[k as int]));
        }
        k = k + 1;
    }
    let r = Layer { buttons, knobs: new_knobs };
    proof {
        assert(r@.buttons =~= goal.buttons);
        assert(r@.knobs =~= goal.knobs);
    }
    r
}

impl Macropad {
    /// Applies a new geometry: the device is updated and the layer list is
    /// regenerated for it, keeping every cell and knob that exists in both
    /// the old and the new geometry; LED settings are untouched.
    pub fn apply_layout(
        &mut self,
        orientation: Orientation,
        rows: u8,
        cols: u8,
        knobs: u8,
        layers: u8,
    )
        ensures
            final(self)@.device == (Device { orientation, rows, cols, knobs, layers }),
            final(self)@.layers.len() == layers as int,
            forall|i: int|
                0 <= i < layers as int ==> final(self)@.layers[i] == (if i < old(
                    self,
                )@.layers.len() {
                    regen_layer(old(self)@.layers[i], rows, cols, knobs)
                } else {
                    blank_layer(rows, cols, knobs)
                }),
            final(self)@.led_settings == old(self)@.led_settings,
    {
        self.device = Device { orientation, rows, cols, knobs, layers };
        let mut new_layers: Vec<Layer> = Vec::new();
        let mut i: usize = 0;
        while i < layers as usize
            invariant
                self.layers.deep_view() == old(self)@.layers,
                self.led_settings == old(self)@.led_settings,
                i <= layers as usize,
                new_layers.deep_view().len() == i,
                forall|q: int|
                    0 <= q < i ==> new_layers.deep_view()[q] == (if q < old(self)@.layers.len() {
                        regen_layer(old(self)@.layers[q], rows, cols, knobs)
                    } else {
                        blank_layer(rows, cols, knobs)
                    }),
            decreases layers as usize - i,
        {
            let ghost pre = new_layers.deep_view();
            if i < self.layers.len() {
                new_layers.push(regen_layer_exec(&self.layers[i], rows, cols, knobs));
            } else {
                new_layers.push(Layer::new(rows, cols, knobs));
            }
            proof {
                assert(new_layers.deep_view() =~~= pre.push(new_layers.deep_view()[i as int]));
            }
            i = i + 1;
        }
        self.layers = new_layers;
    }
}

/// A mapping string parsed by the grammar: the comma-separated compound
/// actions, each split into its dash-separated tokens.
pub open spec fn parsed_mapping(s: Seq<char>) -> Seq<Seq<Seq<char>>> {
    Seq::new(split_spec(s, ',').len(), |i: int| split_spec(split_spec(s, ',')[i], '-'))
}

/// Namespace for the action grammar and the validation entry points.
pub struct Mapping {}

impl Mapping {
    /// The single canonicalization the grammar applies to a token before
    /// classification: its first character upper-cased, the rest unchanged.
    pub fn uppercase_first(data: &str) -> (r: String)
        ensures
            r@ == upper_first(data@),
    {
        uppercase_first_str(data)
    }

    /// Whether a canonical token names a modifier key.
    pub fn is_modifier_key(keystr: &str) -> (r: bool)
        ensures
            r == is_modifier_name(keystr@),
    {
        token_is_modifier(keystr)
    }

    /// Whether a canonical token names a media key.
    pub fn is_media_key(keystr: &str) -> (r: bool)
        ensures
            r == is_media_name(keystr@),
    {
        token_is_media(keystr)
    }

    /// Whether a canonical token names a well-known key.
    pub fn is_regular_key(keystr: &str) -> (r: bool)
        ensures
            r == is_regular_name(keystr@),
    {
        token_is_regular(keystr)
    }

    /// Whether a canonical token names a mouse action.
    pub fn is_mouse_action(keystr: &str) -> (r: bool)
        ensures
            r == is_mouse_name(keystr@),
    {
        token_is_mouse(keystr)
    }

    /// Parses a full mapping string into its ordered compound actions, each
    /// an ordered sequence of raw tokens: the string splits on commas, every
    /// comma-separated segment on dashes.
    pub fn parse_mapping(data: &str) -> (r: Vec<Vec<String>>)
        ensures
            r.deep_view() == parsed_mapping(data@),
            r.len() >= 1,
    {
        let compounds = split_str(data, ',');
        let mut r: Vec<Vec<String>> = Vec::new();
        let mut i: usize = 0;
        while i < compounds.len()
            invariant
                compounds.deep_view() == split_spec(data@, ','),
                compounds.deep_view().len() == compounds@.len(),
                i <= compounds@.len(),
                r.deep_view().len() == i,
                forall|q: int|
                    0 <= q < i ==> r.deep_view()[q] == split_spec(
                        split_spec(data@, ',')[q],
                        '-',
                    ),
            decreases compounds@.len() - i,
        {
            let ghost pre = r.deep_view();
            let toks = split_str(compounds[i].as_str(), '-');
            r.push(toks);
            proof {
                assert(r.deep_view() =~~= pre.push(r.deep_view()[i as int]));
            }
            i = i + 1;
        }
        proof {
            assert(r.deep_view() =~~= parsed_mapping(data@));
        }
        r
    }

    /// Canonicalizes a raw token and classifies it, first match winning, into
    /// one of the four disjoint key categories; an unrecognized token yields
    /// `None`.
    pub fn classify_key(token: &str) -> (r: Option<KeyCategory>)
        ensures
            r == classify_name(upper_first(token@)),
    {
        let canon = Self::uppercase_first(token);
        classify_canonical(canon.as_str())
    }
}

} // verus!
