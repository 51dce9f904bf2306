//! The validation engine: checks a whole configuration against the structural
//! invariants of its device geometry and the capability limits of a target
//! device family, failing fast with a precisely located error.

use vstd::prelude::*;
use crate::consts::{MAX_DELAY, MAX_KEY_PRESSES_884X, MAX_KEY_PRESSES_8890, MAX_KEY_PRESSES_UNKNOWN};
use crate::keyboard::{
    classify_canonical, classify_name, is_whitelisted_media_name, token_is_whitelisted_media,
    KeyCategory,
};
use crate::mapping::{Button, ButtonV, Device, Knob, KnobV, Layer, LayerV, Macropad, MacropadV, Mapping};
use crate::text::{split_str, split_spec, upper_first, uppercase_first_str};

verus! {

/// Capability limits of one device family, expressed as data so the
/// validation logic itself stays family-agnostic.
#[derive(Debug, Clone, Copy, PartialEq, Eq, Structural)]
pub struct FamilyCaps {
    /// Most comma-chained compound actions one button mapping may hold.
    pub max_keys: usize,
    /// Whether a delay above `MAX_DELAY` is rejected; a family that does not
    /// enforce delays ignores them (a positive delay is only worth a warning).
    pub enforce_delay: bool,
    /// Whether only the first compound action of a mapping may carry a
    /// modifier chain.
    pub mods_first_only: bool,
    /// Whether media keys are restricted to the small whitelist.
    pub restrict_media: bool,
}

/// The capabilities of the multi-layer family (product ids 0x8840, 0x8842).
pub open spec fn multi_layer_caps() -> FamilyCaps {
    FamilyCaps {
        max_keys: MAX_KEY_PRESSES_884X,
        enforce_delay: true,
        mods_first_only: false,
        restrict_media: false,
    }
}

/// The capabilities of the single-layer family (product id 0x8890).
pub open spec fn single_layer_caps() -> FamilyCaps {
    FamilyCaps {
        max_keys: MAX_KEY_PRESSES_8890,
        enforce_delay: false,
        mods_first_only: true,
        restrict_media: true,
    }
}

/// The capabilities assumed when no device family was named: structural
/// checks run, but no family-specific capacity is enforced.
pub open spec fn unknown_family_caps() -> FamilyCaps {
    FamilyCaps {
        max_keys: MAX_KEY_PRESSES_UNKNOWN,
        enforce_delay: true,
        mods_first_only: false,
        restrict_media: false,
    }
}

/// Which knob motion a button belongs to.
#[derive(Debug, Clone, Copy, PartialEq, Eq, Structural)]
pub enum KnobPart {
    Ccw,
    Press,
    Cw,
}

/// Where in a layer an offending button sits.
#[derive(Debug, Clone, Copy, PartialEq, Eq, Structural)]
pub enum ButtonPos {
    Grid { row: usize, col: usize },
    Knob { index: usize, part: KnobPart },
}

/// Ghost image of a `ButtonPos`.
pub enum PosV {
    Grid { row: int, col: int },
    Knob { index: int, part: KnobPart },
}

impl View for ButtonPos {
    type V = PosV;

    open spec fn view(&self) -> PosV {
        match self {
            ButtonPos::Grid { row, col } => PosV::Grid { row: *row as int, col: *col as int },
            ButtonPos::Knob { index, part } => PosV::Knob { index: *index as int, part: *part },
        }
    }
}

/// Why a single button mapping was rejected.
#[derive(Debug, Clone, PartialEq)]
pub enum KeyError {
    /// More comma-chained compound actions than the family's capacity.
    TooManyKeys { count: usize, max: usize },
    /// A delay above the fixed ceiling, on a family that enforces delays.
    DelayTooHigh { delay: u16 },
    /// On the single-layer family, a compound action after the first carries
    /// a modifier chain.
    ModifierAfterFirst { index: usize },
    /// On the single-layer family, a media key outside the whitelist; holds
    /// the canonical spelling.
    MediaNotSupported { name: String },
    /// A token that matches none of the four grammar categories; holds the
    /// token as written.
    UnknownKey { token: String },
}

/// Ghost image of a `KeyError`.
pub enum KeyErrorV {
    TooManyKeys { count: int, max: int },
    DelayTooHigh { delay: u16 },
    ModifierAfterFirst { index: int },
    MediaNotSupported { name: Seq<char> },
    UnknownKey { token: Seq<char> },
}

impl View for KeyError {
    type V = KeyErrorV;

    open spec fn view(&self) -> KeyErrorV {
        match self {
            KeyError::TooManyKeys { count, max } => KeyErrorV::TooManyKeys {
                count: *count as int,
                max: *max as int,
            },
            KeyError::DelayTooHigh { delay } => KeyErrorV::DelayTooHigh { delay: *delay },
            KeyError::ModifierAfterFirst { index } => KeyErrorV::ModifierAfterFirst {
                index: *index as int,
            },
            KeyError::MediaNotSupported { name } => KeyErrorV::MediaNotSupported { name: name@ },
            KeyError::UnknownKey { token } => KeyErrorV::UnknownKey { token: token@ },
        }
    }
}

/// Why a whole configuration was rejected.
#[derive(Debug, Clone, PartialEq)]
pub enum ValidateError {
    /// The named device family is not recognized.
    UnknownProductId { pid: u16 },
    /// The layer count is zero or above three.
    LayerCount { count: usize },
    /// The layers actually present disagree with the count the device
    /// declares.
    DeclaredLayers { declared: u8, count: usize },
    /// A layer's button-grid row count disagrees with the device geometry.
    RowsMismatch { layer: usize },
    /// A row's column count disagrees with the device geometry.
    ColsMismatch { layer: usize, row: usize },
    /// A layer's knob count disagrees with the device geometry.
    KnobsMismatch { layer: usize },
    /// One button's mapping was rejected, at the given position.
    BadButton { layer: usize, pos: ButtonPos, error: KeyError },
}

/// Ghost image of a `ValidateError`.
pub enum ValidateErrorV {
    UnknownProductId { pid: u16 },
    LayerCount { count: int },
    DeclaredLayers { declared: u8, count: int },
    RowsMismatch { layer: int },
    ColsMismatch { layer: int, row: int },
    KnobsMismatch { layer: int },
    BadButton { layer: int, pos: PosV, error: KeyErrorV },
}

impl View for ValidateError {
    type V = ValidateErrorV;

    open spec fn view(&self) -> ValidateErrorV {
        match self {
            ValidateError::UnknownProductId { pid } => ValidateErrorV::UnknownProductId {
                pid: *pid,
            },
            ValidateError::LayerCount { count } => ValidateErrorV::LayerCount {
                count: *count as int,
            },
            ValidateError::DeclaredLayers { declared, count } => ValidateErrorV::DeclaredLayers {
                declared: *declared,
                count: *count as int,
            },
            ValidateError::RowsMismatch { layer } => ValidateErrorV::RowsMismatch {
                layer: *layer as int,
            },
            ValidateError::ColsMismatch { layer, row } => ValidateErrorV::ColsMismatch {
                layer: *layer as int,
                row: *row as int,
            },
            ValidateError::KnobsMismatch { layer } => ValidateErrorV::KnobsMismatch {
                layer: *layer as int,
            },
            ValidateError::BadButton { layer, pos, error } => ValidateErrorV::BadButton {
                layer: *layer as int,
                pos: pos@,
                error: error@,
            },
        }
    }
}

/// An executable verdict agrees with a ghost one when success matches success
/// and an error matches exactly, through the error's view.
pub open spec fn verdict_matches<E: View>(r: Result<(), E>, s: Result<(), <E as View>::V>) -> bool {
    match r {
        Ok(_) => s is Ok,
        Err(e) => s == Err::<(), <E as View>::V>(e@),
    }
}

/// The family capability lookup: two recognized families, a permissive
/// default when none was named, and a rejection of any other identifier.
pub open spec fn spec_family_caps(pid: Option<u16>) -> Result<FamilyCaps, ValidateErrorV> {
    match pid {
        None => Ok(unknown_family_caps()),
        Some(p) => if p == 0x8840 || p == 0x8842 {
            Ok(multi_layer_caps())
        } else if p == 0x8890 {
            Ok(single_layer_caps())
        } else {
            Err(ValidateErrorV::UnknownProductId { pid: p })
        },
    }
}

/// The verdict on one token of a compound action: canonicalize, classify
/// first-match-wins, and apply the family's media whitelist; an unrecognized
/// token is reported as written.
pub open spec fn check_token(t: Seq<char>, caps: FamilyCaps) -> Result<(), KeyErrorV> {
    let c = upper_first(t);
    match classify_name(c) {
        Some(KeyCategory::Media) => if caps.restrict_media && !is_whitelisted_media_name(c) {
            Err(KeyErrorV::MediaNotSupported { name: c })
        } else {
            Ok(())
        },
        Some(_) => Ok(()),
        None => Err(KeyErrorV::UnknownKey { token: t }),
    }
}

/// The first error among the tokens from position `i` on, if any.
pub open spec fn check_tokens_from(toks: Seq<Seq<char>>, i: int, caps: FamilyCaps) -> Result<
    (),
    KeyErrorV,
>
    decreases toks.len() - i,
{
    if i >= toks.len() {
        Ok(())
    } else {
        match check_token(toks[i], caps) {
            Err(e) => Err(e),
            Ok(_) => check_tokens_from(toks, i + 1, caps),
        }
    }
}

/// The verdict on the compound action at position `index` of a mapping: on a
/// family restricted to leading modifier chains, a later compound with more
/// than one token is rejected; otherwise every dash-separated token is
/// checked in order.
pub open spec fn check_compound(k: Seq<char>, index: int, caps: FamilyCaps) -> Result<
    (),
    KeyErrorV,
> {
    let toks = split_spec(k, '-');
    if caps.mods_first_only && index > 0 && toks.len() > 1 {
        Err(KeyErrorV::ModifierAfterFirst { index })
    } else {
        check_tokens_from(toks, 0, caps)
    }
}

/// The first error among the compound actions from position `i` on, if any.
pub open spec fn check_compounds_from(keys: Seq<Seq<char>>, i: int, caps: FamilyCaps) -> Result<
    (),
    KeyErrorV,
>
    decreases keys.len() - i,
{
    if i >= keys.len() {
        Ok(())
    } else {
        match check_compound(keys[i], i, caps) {
            Err(e) => Err(e),
            Ok(_) => check_compounds_from(keys, i + 1, caps),
        }
    }
}

/// The verdict on one button: capacity first, then the delay rule, then each
/// compound action in order.
pub open spec fn check_button(b: ButtonV, caps: FamilyCaps) -> Result<(), KeyErrorV> {
    let keys = split_spec(b.mapping, ',');
    if keys.len() > caps.max_keys {
        Err(KeyErrorV::TooManyKeys { count: keys.len() as int, max: caps.max_keys as int })
    } else if caps.enforce_delay && b.delay > MAX_DELAY {
        Err(KeyErrorV::DelayTooHigh { delay: b.delay })
    } else {
        check_compounds_from(keys, 0, caps)
    }
}

/// The first error among the buttons of one row from column `c` on, if any,
/// located at its grid position.
pub open spec fn check_row_from(
    row: Seq<ButtonV>,
    li: int,
    r: int,
    c: int,
    caps: FamilyCaps,
) -> Result<(), ValidateErrorV>
    decreases row.len() - c,
{
    if c >= row.len() {
        Ok(())
    } else {
        match check_button(row[c], caps) {
            Err(e) => Err(ValidateErrorV::BadButton {
                layer: li,
                pos: PosV::Grid { row: r, col: c },
                error: e,
            }),
            Ok(_) => check_row_from(row, li, r, c + 1, caps),
        }
    }
}

/// The first error among the grid rows from row `r` on: a column-count
/// mismatch is reported before the row's buttons are checked.
pub open spec fn check_rows_from(
    l: LayerV,
    li: int,
    r: int,
    dev: Device,
    caps: FamilyCaps,
) -> Result<(), ValidateErrorV>
    decreases l.buttons.len() - r,
{
    if r >= l.buttons.len() {
        Ok(())
    } else if l.buttons[r].len() != dev.cols as int {
        Err(ValidateErrorV::ColsMismatch { layer: li, row: r })
    } else {
        match check_row_from(l.buttons[r], li, r, 0, caps) {
            Err(e) => Err(e),
            Ok(_) => check_rows_from(l, li, r + 1, dev, caps),
        }
    }
}

/// The verdict on one knob: its counter-clockwise, press and clockwise
/// buttons in that order.
pub open spec fn check_knob(k: KnobV, li: int, ki: int, caps: FamilyCaps) -> Result<
    (),
    ValidateErrorV,
> {
    match check_button(k.ccw, caps) {
        Err(e) => Err(ValidateErrorV::BadButton {
            layer: li,
            pos: PosV::Knob { index: ki, part: KnobPart::Ccw },
            error: e,
        }),
        Ok(_) => match check_button(k.press, caps) {
            Err(e) => Err(ValidateErrorV::BadButton {
                layer: li,
                pos: PosV::Knob { index: ki, part: KnobPart::Press },
                error: e,
            }),
            Ok(_) => match check_button(k.cw, caps) {
                Err(e) => Err(ValidateErrorV::BadButton {
                    layer: li,
                    pos: PosV::Knob { index: ki, part: KnobPart::Cw },
                    error: e,
                }),
                Ok(_) => Ok(()),
            },
        },
    }
}

/// The first error among the knobs from index `ki` on, if any.
pub open spec fn check_knobs_from(l: LayerV, li: int, ki: int, caps: FamilyCaps) -> Result<
    (),
    ValidateErrorV,
>
    decreases l.knobs.len() - ki,
{
    if ki >= l.knobs.len() {
        Ok(())
    } else {
        match check_knob(l.knobs[ki], li, ki, caps) {
            Err(e) => Err(e),
            Ok(_) => check_knobs_from(l, li, ki + 1, caps),
        }
    }
}

/// The verdict on one layer: row count, then every row (column count and
/// buttons), then knob count, then every knob.
pub open spec fn check_layer(l: LayerV, li: int, dev: Device, caps: FamilyCaps) -> Result<
    (),
    ValidateErrorV,
> {
    if l.buttons.len() != dev.rows as int {
        Err(ValidateErrorV::RowsMismatch { layer: li })
    } else {
        match check_rows_from(l, li, 0, dev, caps) {
            Err(e) => Err(e),
            Ok(_) => if l.knobs.len() != dev.knobs as int {
                Err(ValidateErrorV::KnobsMismatch { layer: li })
            } else {
                check_knobs_from(l, li, 0, caps)
            },
        }
    }
}

/// The first error among the layers from index `i` on, if any.
pub open spec fn check_layers_from(m: MacropadV, i: int, caps: FamilyCaps) -> Result<
    (),
    ValidateErrorV,
>
    decreases m.layers.len() - i,
{
    if i >= m.layers.len() {
        Ok(())
    } else {
        match check_layer(m.layers[i], i, m.device, caps) {
            Err(e) => Err(e),
            Ok(_) => check_layers_from(m, i + 1, caps),
        }
    }
}

/// The validation verdict for a whole configuration.
pub open spec fn spec_validate(m: MacropadV, pid: Option<u16>) -> Result<(), ValidateErrorV> {
    match spec_family_caps(pid) {
        Err(e) => Err(e),
        Ok(caps) => if m.layers.len() == 0 || m.layers.len() > 3 {
            Err(ValidateErrorV::LayerCount { count: m.layers.len() as int })
        } else if m.layers.len() != m.device.layers as int {
            Err(ValidateErrorV::DeclaredLayers {
                declared: m.device.layers,
                count: m.layers.len() as int,
            })
        } else {
            check_layers_from(m, 0, caps)
        },
    }
}

impl Mapping {
    /// Looks up the capability limits of the device family named by a product
    /// id; an unrecognized id is itself a configuration error.
    pub fn family_caps(pid: Option<u16>) -> (r: Result<FamilyCaps, ValidateError>)
        ensures
            r matches Ok(c) ==> spec_family_caps(pid) == Ok::<FamilyCaps, ValidateErrorV>(c),
            r matches Err(e) ==> spec_family_caps(pid) == Err::<FamilyCaps, ValidateErrorV>(e@),
    {
        match pid {
            None => Ok(FamilyCaps {
                max_keys: MAX_KEY_PRESSES_UNKNOWN,
                enforce_delay: true,
                mods_first_only: false,
                restrict_media: false,
            }),
            Some(p) => if p == 0x8840 || p == 0x8842 {
                Ok(FamilyCaps {
                    max_keys: MAX_KEY_PRESSES_884X,
                    enforce_delay: true,
                    mods_first_only: false,
                    restrict_media: false,
                })
            } else if p == 0x8890 {
                Ok(FamilyCaps {
                    max_keys: MAX_KEY_PRESSES_8890,
                    enforce_delay: false,
                    mods_first_only: true,
                    restrict_media: true,
                })
            } else {
                Err(ValidateError::UnknownProductId { pid: p })
            },
        }
    }

    /// Whether a button's delay is merely ignored rather than enforced: on
    /// such a family a positive delay is reported informationally and never
    /// rejected.
    pub fn delay_ignored(btn: &Button, caps: &FamilyCaps) -> (r: bool)
        ensures
            r == (!caps.enforce_delay && btn@.delay > 0),
    {
        !caps.enforce_delay && btn.delay > 0
    }

    /// Checks one button mapping against a family's capability limits,
    /// returning exactly the verdict `check_button` describes.
    pub fn validate_key_mapping(btn: &Button, caps: &FamilyCaps) -> (r: Result<(), KeyError>)
        ensures
            verdict_matches(r, check_button(btn@, *caps)),
    {
        let keys = split_str(btn.mapping.as_str(), ',');
        if keys.len() > caps.max_keys {
            return Err(KeyError::TooManyKeys { count: keys.len(), max: caps.max_keys });
        }
        if caps.enforce_delay && btn.delay > MAX_DELAY {
            return Err(KeyError::DelayTooHigh { delay: btn.delay });
        }
        let mut i: usize = 0;
        while i < keys.len()
            invariant
                keys.deep_view() == split_spec(btn@.mapping, ','),
                keys.deep_view().len() == keys@.len(),
                i <= keys@.len(),
                keys@.len() <= caps.max_keys,
                !(caps.enforce_delay && btn@.delay > MAX_DELAY),
                check_compounds_from(keys.deep_view(), 0, *caps) == check_compounds_from(
                    keys.deep_view(),
                    i as int,
                    *caps,
                ),
            decreases keys@.len() - i,
        {
            let toks = split_str(keys[i].as_str(), '-');
            if caps.mods_first_only && i > 0 && toks.len() > 1 {
                proof {
                    assert(check_compound(keys.deep_view()[i as int], i as int, *caps)
                        == Err::<(), KeyErrorV>(KeyErrorV::ModifierAfterFirst { index: i as int }));
                }
                return Err(KeyError::ModifierAfterFirst { index: i });
            }
            let mut j: usize = 0;
            while j < toks.len()
                invariant
                    keys.deep_view() == split_spec(btn@.mapping, ','),
                    keys.deep_view().len() == keys@.len(),
                    i < keys@.len(),
                    keys@.len() <= caps.max_keys,
                    !(caps.enforce_delay && btn@.delay > MAX_DELAY),
                    check_compounds_from(keys.deep_view(), 0, *caps) == check_compounds_from(
                        keys.deep_view(),
                        i as int,
                        *caps,
                    ),
                    toks.deep_view() == split_spec(keys.deep_view()[i as int], '-'),
                    toks.deep_view().len() == toks@.len(),
                    !(caps.mods_first_only && i > 0 && toks.deep_view().len() > 1),
                    j <= toks@.len(),
                    check_tokens_from(toks.deep_view(), 0, *caps) == check_tokens_from(
                        toks.deep_view(),
                        j as int,
                        *caps,
                    ),
                decreases toks@.len() - j,
            {
                let canon = uppercase_first_str(toks[j].as_str());
                match classify_canonical(canon.as_str()) {
                    Some(cat) => {
                        if caps.restrict_media && matches!(cat, KeyCategory::Media)
                            && !token_is_whitelisted_media(canon.as_str()) {
                            proof {
                                let t = toks.deep_view()[j as int];
                                assert(check_token(t, *caps) == Err::<(), KeyErrorV>(
                                    KeyErrorV::MediaNotSupported { name: upper_first(t) },
                                ));
                                assert(check_compound(keys.deep_view()[i as int], i as int, *caps)
                                    == check_tokens_from(toks.deep_view(), j as int, *caps));
                            }
                            return Err(KeyError::MediaNotSupported { name: canon });
                        }
                    },
                    None => {
                        proof {
                            let t = toks.deep_view()[j as int];
                            assert(check_token(t, *caps) == Err::<(), KeyErrorV>(
                                KeyErrorV::UnknownKey { token: t },
                            ));
                            assert(check_compound(keys.deep_view()[i as int], i as int, *caps)
                                == check_tokens_from(toks.deep_view(), j as int, *caps));
                        }
                        return Err(KeyError::UnknownKey { token: toks[j].clone() });
                    },
                }
                proof {
                    assert(check_token(toks.deep_view()[j as int], *caps) is Ok);
                    assert(check_tokens_from(toks.deep_view(), j as int, *caps)
                        == check_tokens_from(toks.deep_view(), j + 1, *caps));
                }
                j = j + 1;
            }
            proof {
                assert(check_tokens_from(toks.deep_view(), toks@.len() as int, *caps) is Ok);
                assert(check_compound(keys.deep_view()[i as int], i as int, *caps) is Ok);
                assert(check_compounds_from(keys.deep_view(), i as int, *caps)
                    == check_compounds_from(keys.deep_view(), i + 1, *caps));
            }
            i = i + 1;
        }
        proof {
            assert(check_compounds_from(keys.deep_view(), keys@.len() as int, *caps) is Ok);
        }
        Ok(())
    }
}

/// Checks every button of one grid row, locating an error at its grid
/// position.
fn validate_row(row: &Vec<Button>, li: usize, ri: usize, caps: &FamilyCaps) -> (r: Result<
    (),
    ValidateError,
>)
    ensures
        verdict_matches(r, check_row_from(row.deep_view(), li as int, ri as int, 0, *caps)),
{
    let mut c: usize = 0;
    while c < row.len()
        invariant
            c <= row@.len(),
            row.deep_view().len() == row@.len(),
            check_row_from(row.deep_view(), li as int, ri as int, 0, *caps) == check_row_from(
                row.deep_view(),
                li as int,
                ri as int,
                c as int,
                *caps,
            ),
        decreases row@.len() - c,
    {
        match Mapping::validate_key_mapping(&row[c], caps) {
            Ok(_) => {
                proof {
                    assert(row.deep_view()[c as int] == row@[c as int]@);
                    assert(check_row_from(row.deep_view(), li as int, ri as int, c as int, *caps)
                        == check_row_from(row.deep_view(), li as int, ri as int, c + 1, *caps));
                }
            },
            Err(e) => {
                proof {
                    assert(row.deep_view()[c as int] == row@[c as int]@);
                }
                return Err(ValidateError::BadButton {
                    layer: li,
                    pos: ButtonPos::Grid { row: ri, col: c },
                    error: e,
                });
            },
        }
        c = c + 1;
    }
    Ok(())
}

/// Checks the three buttons of one knob in their fixed order.
fn validate_knob(knob: &Knob, li: usize, ki: usize, caps: &FamilyCaps) -> (r: Result<
    (),
    ValidateError,
>)
    ensures
        verdict_matches(r, check_knob(knob@, li as int, ki as int, *caps)),
{
    if let Err(e) = Mapping::validate_key_mapping(&knob.ccw, caps) {
        return Err(ValidateError::BadButton {
            layer: li,
            pos: ButtonPos::Knob { index: ki, part: KnobPart::Ccw },
            error: e,
        });
    }
    if let Err(e) = Mapping::validate_key_mapping(&knob.press, caps) {
        return Err(ValidateError::BadButton {
            layer: li,
            pos: ButtonPos::Knob { index: ki, part: KnobPart::Press },
            error: e,
        });
    }
    if let Err(e) = Mapping::validate_key_mapping(&knob.cw, caps) {
        return Err(ValidateError::BadButton {
            layer: li,
            pos: ButtonPos::Knob { index: ki, part: KnobPart::Cw },
            error: e,
        });
    }
    Ok(())
}

/// Checks one layer: row count, every row, knob count, every knob.
fn validate_layer(layer: &Layer, li: usize, dev: &Device, caps: &FamilyCaps) -> (r: Result<
    (),
    ValidateError,
>)
    ensures
        verdict_matches(r, check_layer(layer@, li as int, *dev, *caps)),
{
    if layer.buttons.len() != dev.rows as usize {
        return Err(ValidateError::RowsMismatch { layer: li });
    }
    let mut ri: usize = 0;
    while ri < layer.buttons.len()
        invariant
            layer@.buttons.len() == dev.rows as int,
            layer@.buttons.len() == layer.buttons@.len(),
            ri <= layer.buttons@.len(),
            check_rows_from(layer@, li as int, 0, *dev, *caps) == check_rows_from(
                layer@,
                li as int,
                ri as int,
                *dev,
                *caps,
            ),
        decreases layer.buttons@.len() - ri,
    {
        let row = &layer.buttons[ri];
        proof {
            assert(layer@.buttons[ri as int] == row.deep_view());
        }
        if row.len() != dev.cols as usize {
            return Err(ValidateError::ColsMismatch { layer: li, row: ri });
        }
        match validate_row(row, li, ri, caps) {
            Ok(_) => {
                proof {
                    assert(check_rows_from(layer@, li as int, ri as int, *dev, *caps)
                        == check_rows_from(layer@, li as int, ri + 1, *dev, *caps));
                }
            },
            Err(e) => {
                return Err(e);
            },
        }
        ri = ri + 1;
    }
    proof {
        assert(check_rows_from(layer@, li as int, layer@.buttons.len() as int, *dev, *caps)
            is Ok);
    }
    if layer.knobs.len() != dev.knobs as usize {
        return Err(ValidateError::KnobsMismatch { layer: li });
    }
    let mut ki: usize = 0;
    while ki < layer.knobs.len()
        invariant
            layer@.buttons.len() == dev.rows as int,
            check_rows_from(layer@, li as int, 0, *dev, *caps) is Ok,
            layer@.knobs.len() == dev.knobs as int,
            layer@.knobs.len() == layer.knobs@.len(),
            ki <= layer.knobs@.len(),
            check_knobs_from(layer@, li as int, 0, *caps) == check_knobs_from(
                layer@,
                li as int,
                ki as int,
                *caps,
            ),
        decreases layer.knobs@.len() - ki,
    {
        let knob = &layer.knobs[ki];
        proof {
            assert(layer@.knobs[ki as int] == knob@);
        }
        match validate_knob(knob, li, ki, caps) {
            Ok(_) => {
                proof {
                    assert(check_knobs_from(layer@, li as int, ki as int, *caps)
                        == check_knobs_from(layer@, li as int, ki + 1, *caps));
                }
            },
            Err(e) => {
                return Err(e);
            },
        }
        ki = ki + 1;
    }
    proof {
        assert(check_knobs_from(layer@, li as int, layer@.knobs.len() as int, *caps) is Ok);
    }
    Ok(())
}

impl Mapping {
    /// Validates a whole configuration against an optional target device
    /// family: the verdict is exactly what `spec_validate` describes, and the
    /// configuration itself is never touched.
    pub fn validate(config: &Macropad, pid: Option<u16>) -> (r: Result<(), ValidateError>)
        ensures
            verdict_matches(r, spec_validate(config@, pid)),
    {
        let caps = match Self::family_caps(pid) {
            Ok(c) => c,
            Err(e) => {
                return Err(e);
            },
        };
        let n = config.layers.len();
        if n == 0 || n > 3 {
            return Err(ValidateError::LayerCount { count: n });
        }
        if n != config.device.layers as usize {
            return Err(ValidateError::DeclaredLayers { declared: config.device.layers, count: n });
        }
        let mut i: usize = 0;
        while i < config.layers.len()
            invariant
                spec_family_caps(pid) == Ok::<FamilyCaps, ValidateErrorV>(caps),
                1 <= config@.layers.len() <= 3,
                config@.layers.len() == config@.device.layers as int,
                config@.layers.len() == config.layers@.len(),
                i <= config.layers@.len(),
                check_layers_from(config@, 0, caps) == check_layers_from(config@, i as int, caps),
            decreases config.layers@.len() - i,
        {
            let layer = &config.layers[i];
            proof {
                assert(config@.layers[i as int] == layer@);
            }
            match validate_layer(layer, i, &config.device, &caps) {
                Ok(_) => {
                    proof {
                        assert(check_layers_from(config@, i as int, caps) == check_layers_from(
                            config@,
                            i + 1,
                            caps,
                        ));
                    }
                },
                Err(e) => {
                    return Err(e);
                },
            }
            i = i + 1;
        }
        proof {
            assert(check_layers_from(config@, config@.layers.len() as int, caps) is Ok);
        }
        Ok(())
    }
}

/// Law: validation is idempotent. The verdict is a pure function of the
/// configuration and the target family, so two runs on the same macropad
/// yield the same verdict — and `Mapping::validate` reads its input through a
/// shared reference, so the macropad itself is never changed.
pub proof fn lemma_validate_idempotent(
    m: MacropadV,
    pid: Option<u16>,
    r1: Result<(), ValidateErrorV>,
    r2: Result<(), ValidateErrorV>,
)
    requires
        r1 == spec_validate(m, pid),
        r2 == spec_validate(m, pid),
    ensures
        r1 == r2,
{
}

/// Law: a macropad with no layers, or with more than three, is rejected
/// whatever the target family.
pub proof fn lemma_rejects_bad_layer_count(m: MacropadV, pid: Option<u16>)
    requires
        m.layers.len() == 0 || m.layers.len() > 3,
    ensures
        spec_validate(m, pid) is Err,
{
}

/// Law: on a family that does not enforce delays, the delay never affects a
/// button's verdict — two buttons with the same mapping get the same verdict
/// whatever their delays, so a positive delay is at most a warning.
pub proof fn lemma_delay_ignored_never_rejects(b1: ButtonV, b2: ButtonV, caps: FamilyCaps)
    requires
        !caps.enforce_delay,
        b1.mapping == b2.mapping,
    ensures
        check_button(b1, caps) == check_button(b2, caps),
{
}

/// Law: on a family that enforces delays, a delay above the fixed ceiling is
/// rejected for any mapping within the family's chained-key capacity.
pub proof fn lemma_high_delay_rejected(b: ButtonV, caps: FamilyCaps)
    requires
        caps.enforce_delay,
        b.delay > MAX_DELAY,
        split_spec(b.mapping, ',').len() <= caps.max_keys,
    ensures
        check_button(b, caps) == Err::<(), KeyErrorV>(KeyErrorV::DelayTooHigh { delay: b.delay }),
{
}

proof fn lemma_rows_ok_cols(l: LayerV, li: int, r: int, dev: Device, caps: FamilyCaps)
    requires
        0 <= r,
        check_rows_from(l, li, r, dev, caps) is Ok,
    ensures
        forall|rr: int| r <= rr < l.buttons.len() ==> #[trigger] l.buttons[rr].len()
            == dev.cols as int,
    decreases l.buttons.len() - r,
{
    if r < l.buttons.len() {
        lemma_rows_ok_cols(l, li, r + 1, dev, caps);
    }
}

proof fn lemma_layers_ok_geometry(m: MacropadV, i: int, caps: FamilyCaps)
    requires
        0 <= i,
        check_layers_from(m, i, caps) is Ok,
    ensures
        forall|j: int| i <= j < m.layers.len() ==> #[trigger] m.layers[j].buttons.len()
            == m.device.rows as int,
        forall|j: int, r: int|
            i <= j < m.layers.len() && 0 <= r < m.layers[j].buttons.len()
                ==> #[trigger] m.layers[j].buttons[r].len() == m.device.cols as int,
        forall|j: int| i <= j < m.layers.len() ==> #[trigger] m.layers[j].knobs.len()
            == m.device.knobs as int,
    decreases m.layers.len() - i,
{
    if i < m.layers.len() {
        lemma_rows_ok_cols(m.layers[i], i, 0, m.device, caps);
        lemma_layers_ok_geometry(m, i + 1, caps);
    }
}

/// Law: an approved configuration satisfies every structural invariant of
/// its declared geometry — between one and three layers, as many as the
/// device declares, and per layer a rows×cols button grid and the declared
/// knob count.
pub proof fn lemma_validate_ok_geometry(m: MacropadV, pid: Option<u16>)
    requires
        spec_validate(m, pid) is Ok,
    ensures
        1 <= m.layers.len() <= 3,
        m.layers.len() == m.device.layers as int,
        forall|j: int| 0 <= j < m.layers.len() ==> #[trigger] m.layers[j].buttons.len()
            == m.device.rows as int,
        forall|j: int, r: int|
            0 <= j < m.layers.len() && 0 <= r < m.layers[j].buttons.len()
                ==> #[trigger] m.layers[j].buttons[r].len() == m.device.cols as int,
        forall|j: int| 0 <= j < m.layers.len() ==> #[trigger] m.layers[j].knobs.len()
            == m.device.knobs as int,
{
    let caps = spec_family_caps(pid)->Ok_0;
    lemma_layers_ok_geometry(m, 0, caps);
}

/// Law: a layer whose button grid has a row count different from the
/// device's declared row count makes the whole configuration invalid.
pub proof fn lemma_rejects_rows_mismatch(m: MacropadV, pid: Option<u16>, i: int)
    requires
        0 <= i < m.layers.len(),
        m.layers[i].buttons.len() != m.device.rows as int,
    ensures
        spec_validate(m, pid) is Err,
{
    if spec_validate(m, pid) is Ok {
        lemma_validate_ok_geometry(m, pid);
        assert(false);
    }
}

} // verus!
