//! `Resources/Graphic.xml`: the swatches of a document.
//!
//! A spot colour is seen through its CMYK alternate, and a tint thins the
//! channels of the colour it is made from. A named tint is written as a `Tint`
//! element that names its base colour; a `TintValue` on a `Color` is read too.
use crate::ParseError;
use crate::idmap::IdMap;
use crate::number::{less, one, product, quotient, zero, Num};
use crate::text::{numbers, parse_numbers, same_text};
use crate::util::{copy_numbers, copy_text, either, first_of, push_item};
use crate::xml::{read_events, xml_events, EventView, Tag, TagView, XmlEvent};
use vstd::prelude::*;
use vstd::utf8::encode_utf8;

verus! {

/// The space that channel values belong to.
#[derive(Clone, Copy, Debug, PartialEq, Eq, Structural)]
pub enum ColorSpace {
    Cmyk,
    Rgb,
    Gray,
    Lab,
    Unknown,
}

impl DeepView for ColorSpace {
    type V = ColorSpace;

    open spec fn deep_view(&self) -> ColorSpace {
        *self
    }
}

impl ColorSpace {
    /// What the value `s` names; `Unknown` where it is none of those known.
    pub open spec fn named(s: Seq<char>) -> ColorSpace {
        if s == "CMYK"@ {
            ColorSpace::Cmyk
        } else if s == "RGB"@ {
            ColorSpace::Rgb
        } else if s == "Gray"@ {
            ColorSpace::Gray
        } else if s == "LAB"@ {
            ColorSpace::Lab
        } else {
            ColorSpace::Unknown
        }
    }

    /// Reads the value `s`.
    pub fn from_attr(s: &str) -> (r: ColorSpace)
        ensures
            r == ColorSpace::named(s@),
    {
        if same_text(s, "CMYK") {
            ColorSpace::Cmyk
        } else if same_text(s, "RGB") {
            ColorSpace::Rgb
        } else if same_text(s, "Gray") {
            ColorSpace::Gray
        } else if same_text(s, "LAB") {
            ColorSpace::Lab
        } else {
            ColorSpace::Unknown
        }
    }
}

/// Whether a colour is mixed from process inks or is an ink of its own.
#[derive(Clone, Copy, Debug, PartialEq, Eq, Structural)]
pub enum ColorModel {
    Process,
    Spot,
}

impl DeepView for ColorModel {
    type V = ColorModel;

    open spec fn deep_view(&self) -> ColorModel {
        *self
    }
}

impl ColorModel {
    /// What the value `s` names; `Process` where it is none of those known.
    pub open spec fn named(s: Seq<char>) -> ColorModel {
        if s == "Process"@ {
            ColorModel::Process
        } else if s == "Spot"@ {
            ColorModel::Spot
        } else {
            ColorModel::Process
        }
    }

    /// Reads the value `s`.
    pub fn from_attr(s: &str) -> (r: ColorModel)
        ensures
            r == ColorModel::named(s@),
    {
        if same_text(s, "Process") {
            ColorModel::Process
        } else if same_text(s, "Spot") {
            ColorModel::Spot
        } else {
            ColorModel::Process
        }
    }
}

/// The shape of a gradient.
#[derive(Clone, Copy, Debug, PartialEq, Eq, Structural)]
pub enum GradientKind {
    Linear,
    Radial,
    Unknown,
}

impl DeepView for GradientKind {
    type V = GradientKind;

    open spec fn deep_view(&self) -> GradientKind {
        *self
    }
}

impl GradientKind {
    /// What the value `s` names; `Unknown` where it is none of those known.
    pub open spec fn named(s: Seq<char>) -> GradientKind {
        if s == "Linear"@ {
            GradientKind::Linear
        } else if s == "Radial"@ {
            GradientKind::Radial
        } else {
            GradientKind::Unknown
        }
    }

    /// Reads the value `s`.
    pub fn from_attr(s: &str) -> (r: GradientKind)
        ensures
            r == GradientKind::named(s@),
    {
        if same_text(s, "Linear") {
            GradientKind::Linear
        } else if same_text(s, "Radial") {
            GradientKind::Radial
        } else {
            GradientKind::Unknown
        }
    }
}

/// A colour swatch.
#[derive(Debug, PartialEq)]
pub struct ColorEntry {
    pub self_id: String,
    pub name: Option<String>,
    pub space: ColorSpace,
    pub value: Vec<Num>,
    pub model: ColorModel,
    pub alternate_space: Option<ColorSpace>,
    pub alternate_value: Vec<Num>,
    /// A tint from 0 to 100 that belongs to the swatch itself.
    pub tint: Option<Num>,
    /// An opacity from 0 to 1.
    pub alpha: Option<Num>,
}

/// What a [`ColorEntry`] holds.
#[verifier::ext_equal]
pub struct ColorEntryView {
    pub self_id: Seq<char>,
    pub name: Option<Seq<char>>,
    pub space: ColorSpace,
    pub value: Seq<Num>,
    pub model: ColorModel,
    pub alternate_space: Option<ColorSpace>,
    pub alternate_value: Seq<Num>,
    pub tint: Option<Num>,
    pub alpha: Option<Num>,
}

impl DeepView for ColorEntry {
    type V = ColorEntryView;

    open spec fn deep_view(&self) -> ColorEntryView {
        ColorEntryView {
            self_id: self.self_id@,
            name: self.name.deep_view(),
            space: self.space,
            value: self.value@,
            model: self.model,
            alternate_space: self.alternate_space,
            alternate_value: self.alternate_value@,
            tint: self.tint,
            alpha: self.alpha,
        }
    }
}

/// A swatch that stands for another.
#[derive(Debug, PartialEq)]
pub struct SwatchEntry {
    pub self_id: String,
    pub name: Option<String>,
    pub color_ref: Option<String>,
}

/// What a [`SwatchEntry`] holds.
#[verifier::ext_equal]
pub struct SwatchEntryView {
    pub self_id: Seq<char>,
    pub name: Option<Seq<char>>,
    pub color_ref: Option<Seq<char>>,
}

impl DeepView for SwatchEntry {
    type V = SwatchEntryView;

    open spec fn deep_view(&self) -> SwatchEntryView {
        SwatchEntryView {
            self_id: self.self_id@,
            name: self.name.deep_view(),
            color_ref: self.color_ref.deep_view(),
        }
    }
}

/// A stop of a gradient.
#[derive(Debug, PartialEq)]
pub struct GradientStopRef {
    pub stop_color: String,
    pub location_pct: Num,
    pub midpoint_pct: Option<Num>,
}

/// What a [`GradientStopRef`] holds.
#[verifier::ext_equal]
pub struct GradientStopRefView {
    pub stop_color: Seq<char>,
    pub location_pct: Num,
    pub midpoint_pct: Option<Num>,
}

impl DeepView for GradientStopRef {
    type V = GradientStopRefView;

    open spec fn deep_view(&self) -> GradientStopRefView {
        GradientStopRefView {
            stop_color: self.stop_color@,
            location_pct: self.location_pct,
            midpoint_pct: self.midpoint_pct,
        }
    }
}

/// A gradient swatch.
#[derive(Debug, PartialEq)]
pub struct GradientEntry {
    pub self_id: String,
    pub name: Option<String>,
    pub kind: GradientKind,
    pub stops: Vec<GradientStopRef>,
}

/// What a [`GradientEntry`] holds.
#[verifier::ext_equal]
pub struct GradientEntryView {
    pub self_id: Seq<char>,
    pub name: Option<Seq<char>>,
    pub kind: GradientKind,
    pub stops: Seq<GradientStopRefView>,
}

impl DeepView for GradientEntry {
    type V = GradientEntryView;

    open spec fn deep_view(&self) -> GradientEntryView {
        GradientEntryView {
            self_id: self.self_id@,
            name: self.name.deep_view(),
            kind: self.kind,
            stops: self.stops.deep_view(),
        }
    }
}

/// A group of swatches.
#[derive(Debug, PartialEq)]
pub struct ColorGroupEntry {
    pub self_id: String,
    pub name: Option<String>,
    pub members: Vec<String>,
}

/// What a [`ColorGroupEntry`] holds.
#[verifier::ext_equal]
pub struct ColorGroupEntryView {
    pub self_id: Seq<char>,
    pub name: Option<Seq<char>>,
    pub members: Seq<Seq<char>>,
}

impl DeepView for ColorGroupEntry {
    type V = ColorGroupEntryView;

    open spec fn deep_view(&self) -> ColorGroupEntryView {
        ColorGroupEntryView {
            self_id: self.self_id@,
            name: self.name.deep_view(),
            members: self.members.deep_view(),
        }
    }
}

/// A tint that a `Tint` tag states: its base is named, not yet known.
#[derive(Debug, PartialEq)]
pub struct TintEntry {
    pub self_id: String,
    pub name: Option<String>,
    pub base: Option<String>,
    pub tint: Option<Num>,
}

/// What a [`TintEntry`] holds.
#[verifier::ext_equal]
pub struct TintEntryView {
    pub self_id: Seq<char>,
    pub name: Option<Seq<char>>,
    pub base: Option<Seq<char>>,
    pub tint: Option<Num>,
}

impl DeepView for TintEntry {
    type V = TintEntryView;

    open spec fn deep_view(&self) -> TintEntryView {
        TintEntryView {
            self_id: self.self_id@,
            name: self.name.deep_view(),
            base: self.base.deep_view(),
            tint: self.tint,
        }
    }
}

/// The swatches of a document.
#[derive(Debug)]
pub struct Graphic {
    pub colors: IdMap<ColorEntry>,
    pub swatches: IdMap<SwatchEntry>,
    pub gradients: IdMap<GradientEntry>,
    pub color_groups: IdMap<ColorGroupEntry>,
}

/// What a [`Graphic`] holds.
#[verifier::ext_equal]
pub struct GraphicView {
    pub colors: Map<Seq<char>, ColorEntryView>,
    pub swatches: Map<Seq<char>, SwatchEntryView>,
    pub gradients: Map<Seq<char>, GradientEntryView>,
    pub color_groups: Map<Seq<char>, ColorGroupEntryView>,
}

impl DeepView for Graphic {
    type V = GraphicView;

    open spec fn deep_view(&self) -> GraphicView {
        GraphicView {
            colors: self.colors.deep_view(),
            swatches: self.swatches.deep_view(),
            gradients: self.gradients.deep_view(),
            color_groups: self.color_groups.deep_view(),
        }
    }
}

/// No swatches.
pub open spec fn no_swatches() -> GraphicView {
    GraphicView {
        colors: Map::empty(),
        swatches: Map::empty(),
        gradients: Map::empty(),
        color_groups: Map::empty(),
    }
}

impl Default for Graphic {
    fn default() -> (r: Graphic)
        ensures
            r.deep_view() == no_swatches(),
    {
        Graphic {
            colors: IdMap::new(),
            swatches: IdMap::new(),
            gradients: IdMap::new(),
            color_groups: IdMap::new(),
        }
    }
}

/// The numbers that the attribute `key` lists; none where it is missing.
pub open spec fn channels_of(tag: TagView, key: Seq<char>) -> Seq<Num> {
    match tag.text(key) {
        None => Seq::empty(),
        Some(s) => numbers(s, false),
    }
}

fn read_channels(tag: &Tag, key: &str) -> (r: Vec<Num>)
    ensures
        r@ == channels_of(tag@, key@),
{
    match tag.text(key) {
        None => Vec::new(),
        Some(s) => parse_numbers(s.as_str(), false),
    }
}

/// The space that the attribute `key` names.
pub open spec fn space_of(tag: TagView, key: Seq<char>) -> Option<ColorSpace> {
    match tag.text(key) {
        None => None,
        Some(s) => Some(ColorSpace::named(s)),
    }
}

fn read_space(tag: &Tag, key: &str) -> (r: Option<ColorSpace>)
    ensures
        r == space_of(tag@, key@),
{
    match tag.text(key) {
        None => None,
        Some(s) => Some(ColorSpace::from_attr(s.as_str())),
    }
}

/// The model of a `Color` tag: process inks where none is stated.
pub open spec fn model_of(tag: TagView) -> ColorModel {
    match tag.text("Model"@) {
        None => ColorModel::Process,
        Some(s) => ColorModel::named(s),
    }
}

fn read_model(tag: &Tag) -> (r: ColorModel)
    ensures
        r == model_of(tag@),
{
    match tag.text("Model") {
        None => ColorModel::Process,
        Some(s) => ColorModel::from_attr(s.as_str()),
    }
}

/// `v` held between zero and one.
pub open spec fn unit_clamped(v: Num) -> Num {
    if less(v, zero()) {
        zero()
    } else if less(one(), v) {
        one()
    } else {
        v
    }
}

/// The opacity that `v` stands for: above one it counts in hundredths.
pub open spec fn alpha_from(v: Num) -> Num {
    if less(one(), v) {
        unit_clamped(quotient(v, 100))
    } else {
        unit_clamped(v)
    }
}

/// The opacity of a `Color` tag, under either of its two names.
pub open spec fn alpha_of(tag: TagView) -> Option<Num> {
    match either(tag.text("AlphaPercentage"@), tag.text("Alpha"@)) {
        None => None,
        Some(s) => match crate::decimal::written_number(s) {
            None => None,
            Some(v) => Some(alpha_from(v)),
        },
    }
}

fn clamp_unit(v: Num) -> (r: Num)
    ensures
        r == unit_clamped(v),
{
    if v.less(Num::zero()) {
        Num::zero()
    } else if Num::one().less(v) {
        Num::one()
    } else {
        v
    }
}

fn read_alpha(tag: &Tag) -> (r: Option<Num>)
    ensures
        r == alpha_of(tag@),
{
    match first_of(tag.text("AlphaPercentage"), tag.text("Alpha")) {
        None => None,
        Some(s) => match crate::decimal::parse_number(s.as_str()) {
            None => None,
            Some(v) => if Num::one().less(v) {
                Some(clamp_unit(v.divided_by(100)))
            } else {
                Some(clamp_unit(v))
            },
        },
    }
}

/// The colour that a `Color` tag states.
pub open spec fn color_of(tag: TagView) -> Option<ColorEntryView> {
    match tag.text("Self"@) {
        None => None,
        Some(self_id) => Some(ColorEntryView {
            self_id: self_id,
            name: tag.text("Name"@),
            space: space_of(tag, "Space"@).unwrap_or(ColorSpace::Unknown),
            value: channels_of(tag, "ColorValue"@),
            model: model_of(tag),
            alternate_space: space_of(tag, "AlternateSpace"@),
            alternate_value: channels_of(tag, "AlternateColorValue"@),
            tint: tag.tint("TintValue"@),
            alpha: alpha_of(tag),
        }),
    }
}

/// Reads it from a tag.
pub fn read_color(tag: &Tag) -> (r: Option<ColorEntry>)
    ensures
        r.deep_view() == color_of(tag@),
{
    match tag.text("Self") {
        None => None,
        Some(self_id) => Some(ColorEntry {
            self_id: self_id,
            name: tag.text("Name"),
            space: read_space(tag, "Space").unwrap_or(ColorSpace::Unknown),
            value: read_channels(tag, "ColorValue"),
            model: read_model(tag),
            alternate_space: read_space(tag, "AlternateSpace"),
            alternate_value: read_channels(tag, "AlternateColorValue"),
            tint: tag.tint("TintValue"),
            alpha: read_alpha(tag),
        }),
    }
}

/// The tint that a `Tint` tag states.
pub open spec fn tint_of(tag: TagView) -> Option<TintEntryView> {
    match tag.text("Self"@) {
        None => None,
        Some(self_id) => Some(TintEntryView {
            self_id: self_id,
            name: tag.text("Name"@),
            base: tag.text("BaseColor"@),
            tint: tag.tint("TintValue"@),
        }),
    }
}

/// Reads it from a tag.
pub fn read_tint(tag: &Tag) -> (r: Option<TintEntry>)
    ensures
        r.deep_view() == tint_of(tag@),
{
    match tag.text("Self") {
        None => None,
        Some(self_id) => Some(TintEntry {
            self_id: self_id,
            name: tag.text("Name"),
            base: tag.text("BaseColor"),
            tint: tag.tint("TintValue"),
        }),
    }
}

/// The swatch that a `Swatch` tag states.
pub open spec fn swatch_of(tag: TagView) -> Option<SwatchEntryView> {
    match tag.text("Self"@) {
        None => None,
        Some(self_id) => Some(SwatchEntryView {
            self_id: self_id,
            name: tag.text("Name"@),
            color_ref: either(tag.text("ColorEditorHotGraphic"@), tag.text("Color"@)),
        }),
    }
}

/// Reads it from a tag.
pub fn read_swatch(tag: &Tag) -> (r: Option<SwatchEntry>)
    ensures
        r.deep_view() == swatch_of(tag@),
{
    match tag.text("Self") {
        None => None,
        Some(self_id) => Some(SwatchEntry {
            self_id: self_id,
            name: tag.text("Name"),
            color_ref: first_of(tag.text("ColorEditorHotGraphic"), tag.text("Color")),
        }),
    }
}

/// The kind of a `Gradient` tag: linear where none is stated.
pub open spec fn gradient_kind_of(tag: TagView) -> GradientKind {
    match tag.text("Type"@) {
        None => GradientKind::Linear,
        Some(s) => GradientKind::named(s),
    }
}

fn read_gradient_kind(tag: &Tag) -> (r: GradientKind)
    ensures
        r == gradient_kind_of(tag@),
{
    match tag.text("Type") {
        None => GradientKind::Linear,
        Some(s) => GradientKind::from_attr(s.as_str()),
    }
}

/// The gradient that a `Gradient` tag states, its stops still missing.
pub open spec fn gradient_of(tag: TagView) -> Option<GradientEntryView> {
    match tag.text("Self"@) {
        None => None,
        Some(self_id) => Some(GradientEntryView {
            self_id: self_id,
            name: tag.text("Name"@),
            kind: gradient_kind_of(tag),
            stops: Seq::empty(),
        }),
    }
}

/// Reads it from a tag.
pub fn read_gradient(tag: &Tag) -> (r: Option<GradientEntry>)
    ensures
        r.deep_view() == gradient_of(tag@),
{
    match tag.text("Self") {
        None => None,
        Some(self_id) => Some(GradientEntry {
            self_id: self_id,
            name: tag.text("Name"),
            kind: read_gradient_kind(tag),
            stops: Vec::new(),
        }),
    }
}

/// The stop that a `GradientStop` tag states.
pub open spec fn gradient_stop_of(tag: TagView) -> Option<GradientStopRefView> {
    match tag.text("StopColor"@) {
        None => None,
        Some(stop_color) => Some(GradientStopRefView {
            stop_color: stop_color,
            location_pct: tag.num("Location"@).unwrap_or(zero()),
            midpoint_pct: tag.num("Midpoint"@),
        }),
    }
}

/// Reads it from a tag.
pub fn read_gradient_stop(tag: &Tag) -> (r: Option<GradientStopRef>)
    ensures
        r.deep_view() == gradient_stop_of(tag@),
{
    match tag.text("StopColor") {
        None => None,
        Some(stop_color) => Some(GradientStopRef {
            stop_color: stop_color,
            location_pct: tag.num("Location").unwrap_or(Num::zero()),
            midpoint_pct: tag.num("Midpoint"),
        }),
    }
}

/// The group that a `ColorGroup` tag states.
pub open spec fn color_group_of(tag: TagView) -> Option<ColorGroupEntryView> {
    match tag.text("Self"@) {
        None => None,
        Some(self_id) => Some(ColorGroupEntryView {
            self_id: self_id,
            name: tag.text("Name"@),
            members: tag.list("ColorGroupSwatches"@),
        }),
    }
}

/// Reads it from a tag.
pub fn read_color_group(tag: &Tag) -> (r: Option<ColorGroupEntry>)
    ensures
        r.deep_view() == color_group_of(tag@),
{
    match tag.text("Self") {
        None => None,
        Some(self_id) => Some(ColorGroupEntry {
            self_id: self_id,
            name: tag.text("Name"),
            members: tag.list("ColorGroupSwatches"),
        }),
    }
}

/// The colour that a tint stands for: that of its base, which keeps its model
/// and its channels, under the tint's own name and value. Where the base is not
/// among `colors`, the channels are unknown.
pub open spec fn tinted(
    colors: Map<Seq<char>, ColorEntryView>,
    tint: TintEntryView,
) -> ColorEntryView {
    if tint.base is Some && colors.dom().contains(tint.base->Some_0) {
        ColorEntryView {
            self_id: tint.self_id,
            name: tint.name,
            tint: tint.tint,
            ..colors[tint.base->Some_0]
        }
    } else {
        ColorEntryView {
            self_id: tint.self_id,
            name: tint.name,
            space: ColorSpace::Unknown,
            value: Seq::empty(),
            model: ColorModel::Process,
            alternate_space: None,
            alternate_value: Seq::empty(),
            tint: tint.tint,
            alpha: None,
        }
    }
}

fn resolve_tint(colors: &IdMap<ColorEntry>, tint: &TintEntry) -> (r: ColorEntry)
    ensures
        r.deep_view() == tinted(colors.deep_view(), tint.deep_view()),
{
    let base: Option<&ColorEntry> = match &tint.base {
        None => None,
        Some(id) => colors.get(id.as_str()),
    };
    match base {
        Some(c) => ColorEntry {
            self_id: tint.self_id.clone(),
            name: copy_text(&tint.name),
            space: c.space,
            value: copy_numbers(&c.value),
            model: c.model,
            alternate_space: c.alternate_space,
            alternate_value: copy_numbers(&c.alternate_value),
            tint: tint.tint,
            alpha: c.alpha,
        },
        None => ColorEntry {
            self_id: tint.self_id.clone(),
            name: copy_text(&tint.name),
            space: ColorSpace::Unknown,
            value: Vec::new(),
            model: ColorModel::Process,
            alternate_space: None,
            alternate_value: Vec::new(),
            tint: tint.tint,
            alpha: None,
        },
    }
}

/// `colors` with the first `n` tints added, in order.
pub open spec fn with_tints(
    colors: Map<Seq<char>, ColorEntryView>,
    tints: Seq<TintEntryView>,
    n: nat,
) -> Map<Seq<char>, ColorEntryView>
    decreases n,
{
    if n == 0 {
        colors
    } else {
        let before = with_tints(colors, tints, (n - 1) as nat);
        before.insert(tints[n - 1].self_id, tinted(before, tints[n - 1]))
    }
}

/// The swatches in the making.
pub struct Progress {
    pub out: Graphic,
    /// The gradient that is open.
    pub gradient: Option<GradientEntry>,
    /// The tints read so far.
    pub tints: Vec<TintEntry>,
}

/// What a [`Progress`] holds.
#[verifier::ext_equal]
pub struct ProgressView {
    pub out: GraphicView,
    pub gradient: Option<GradientEntryView>,
    pub tints: Seq<TintEntryView>,
}

impl View for Progress {
    type V = ProgressView;

    open spec fn view(&self) -> ProgressView {
        ProgressView {
            out: self.out.deep_view(),
            gradient: self.gradient.deep_view(),
            tints: self.tints.deep_view(),
        }
    }
}

/// `st` after an opening tag.
pub open spec fn after_open(st: ProgressView, tag: TagView) -> ProgressView {
    if tag.is("Color"@) {
        match color_of(tag) {
            None => st,
            Some(x) => ProgressView {
                out: GraphicView { colors: st.out.colors.insert(x.self_id, x), ..st.out },
                ..st
            },
        }
    } else if tag.is("Tint"@) {
        match tint_of(tag) {
            None => st,
            Some(x) => ProgressView { tints: st.tints.push(x), ..st },
        }
    } else if tag.is("Swatch"@) {
        match swatch_of(tag) {
            None => st,
            Some(x) => ProgressView {
                out: GraphicView { swatches: st.out.swatches.insert(x.self_id, x), ..st.out },
                ..st
            },
        }
    } else if tag.is("Gradient"@) {
        match gradient_of(tag) {
            None => st,
            Some(x) => ProgressView { gradient: Some(x), ..st },
        }
    } else if tag.is("GradientStop"@) {
        match (st.gradient, gradient_stop_of(tag)) {
            (Some(g), Some(stop)) => ProgressView {
                gradient: Some(GradientEntryView { stops: g.stops.push(stop), ..g }),
                ..st
            },
            _ => st,
        }
    } else if tag.is("ColorGroup"@) {
        match color_group_of(tag) {
            None => st,
            Some(x) => ProgressView {
                out: GraphicView {
                    color_groups: st.out.color_groups.insert(x.self_id, x),
                    ..st.out
                },
                ..st
            },
        }
    } else {
        st
    }
}

fn on_open(st: &mut Progress, tag: &Tag)
    ensures
        final(st)@ == after_open(old(st)@, tag@),
{
    if tag.is("Color") {
        if let Some(x) = read_color(tag) {
            st.out.colors.insert(x.self_id.clone(), x);
        }
    } else if tag.is("Tint") {
        if let Some(x) = read_tint(tag) {
            push_item(&mut st.tints, x);
        }
    } else if tag.is("Swatch") {
        if let Some(x) = read_swatch(tag) {
            st.out.swatches.insert(x.self_id.clone(), x);
        }
    } else if tag.is("Gradient") {
        if let Some(x) = read_gradient(tag) {
            st.gradient = Some(x);
        }
    } else if tag.is("GradientStop") {
        if let Some(stop) = read_gradient_stop(tag) {
            if let Some(g) = st.gradient.take() {
                let mut g: GradientEntry = g;
                push_item(&mut g.stops, stop);
                st.gradient = Some(g);
            }
        }
    } else if tag.is("ColorGroup") {
        if let Some(x) = read_color_group(tag) {
            st.out.color_groups.insert(x.self_id.clone(), x);
        }
    }
}

/// `st` after one event.
pub open spec fn after_event(st: ProgressView, event: EventView) -> ProgressView {
    match event {
        EventView::Open(tag) => after_open(st, tag),
        EventView::End(name) => if name == encode_utf8("Gradient"@) {
            match st.gradient {
                None => st,
                Some(g) => ProgressView {
                    out: GraphicView { gradients: st.out.gradients.insert(g.self_id, g), ..st.out },
                    gradient: None,
                    ..st
                },
            }
        } else {
            st
        },
        _ => st,
    }
}

/// Nothing read yet.
pub open spec fn at_start() -> ProgressView {
    ProgressView { out: no_swatches(), gradient: None, tints: Seq::empty() }
}

/// What stands after the first `n` events.
pub open spec fn after_events(events: Seq<EventView>, n: nat) -> ProgressView
    decreases n,
{
    if n == 0 {
        at_start()
    } else {
        after_event(after_events(events, (n - 1) as nat), events[n - 1])
    }
}

/// The swatches that the events of a document state; tints come last, so that
/// the base of one may stand anywhere.
pub open spec fn graphic_of(events: Seq<EventView>) -> GraphicView {
    let st = after_events(events, events.len());
    GraphicView { colors: with_tints(st.out.colors, st.tints, st.tints.len()), ..st.out }
}

/// Builds the swatches from the events of `Graphic.xml`.
pub fn graphic_from_events(events: &Vec<XmlEvent>) -> (r: Graphic)
    ensures
        r.deep_view() == graphic_of(events.deep_view()),
{
    let mut st = Progress { out: Graphic::default(), gradient: None, tints: Vec::new() };
    assert(st@ =~= at_start());
    let mut i: usize = 0;
    while i < events.len()
        invariant
            i <= events@.len(),
            st@ == after_events(events.deep_view(), i as nat),
        decreases events@.len() - i,
    {
        match &events[i] {
            XmlEvent::Open(tag) => on_open(&mut st, tag),
            XmlEvent::End(name) => {
                if crate::xml::name_is(name, "Gradient") {
                    if let Some(g) = st.gradient.take() {
                        st.out.gradients.insert(g.self_id.clone(), g);
                    }
                }
            },
            _ => {},
        }
        i = i + 1;
    }
    let ghost done = st@;
    let mut out: Graphic = st.out;
    let tints: Vec<TintEntry> = st.tints;
    let mut k: usize = 0;
    while k < tints.len()
        invariant
            k <= tints@.len(),
            tints.deep_view() == done.tints,
            out.deep_view() == (GraphicView {
                colors: with_tints(done.out.colors, done.tints, k as nat),
                ..done.out
            }),
        decreases tints@.len() - k,
    {
        let color: ColorEntry = resolve_tint(&out.colors, &tints[k]);
        assert(done.tints[k as int] == tints@[k as int].deep_view());
        out.colors.insert(tints[k].self_id.clone(), color);
        k = k + 1;
    }
    out
}

/// Parses `Resources/Graphic.xml`.
pub fn parse_graphic(xml: &[u8]) -> (r: Result<Graphic, ParseError>)
    ensures
        match r {
            Ok(graphic) => xml_events(xml@, true) matches Some(events) && graphic.deep_view()
                == graphic_of(events),
            Err(e) => e is Xml && xml_events(xml@, true) is None,
        },
{
    match read_events(xml, true) {
        Err(e) => Err(e),
        Ok(events) => Ok(graphic_from_events(&events)),
    }
}

/// The CMYK channels that a colour is printed with before its tint: those of
/// the alternate for a spot colour that has one, else its own.
pub open spec fn plain_cmyk(c: ColorEntryView) -> Option<Seq<Num>> {
    if c.model == ColorModel::Spot && c.alternate_space == Some(ColorSpace::Cmyk)
        && c.alternate_value.len() == 4 {
        Some(c.alternate_value)
    } else if c.space == ColorSpace::Cmyk && c.value.len() == 4 {
        Some(c.value)
    } else {
        None
    }
}

/// The CMYK channels that a colour is printed with, each thinned by the tint.
pub open spec fn cmyk_of(c: ColorEntryView) -> Option<Seq<Num>> {
    match (plain_cmyk(c), c.tint) {
        (Some(v), Some(t)) => Some(
            Seq::new(v.len(), |i: int| product(v[i], quotient(t, 100))),
        ),
        (plain, _) => plain,
    }
}

impl ColorEntry {
    /// The CMYK channels that the colour is printed with.
    pub fn effective_cmyk(&self) -> (r: Option<Vec<Num>>)
        ensures
            r is None <==> cmyk_of(self.deep_view()) is None,
            r matches Some(v) ==> Some(v@) == cmyk_of(self.deep_view()),
    {
        let spot: bool = match (self.model, self.alternate_space) {
            (ColorModel::Spot, Some(ColorSpace::Cmyk)) => true,
            _ => false,
        };
        let plain: &Vec<Num> = if spot && self.alternate_value.len() == 4 {
            &self.alternate_value
        } else if self.space == ColorSpace::Cmyk && self.value.len() == 4 {
            &self.value
        } else {
            return None;
        };
        match self.tint {
            None => Some(copy_numbers(plain)),
            Some(t) => {
                let share: Num = t.divided_by(100);
                let mut r: Vec<Num> = Vec::new();
                let mut i: usize = 0;
                while i < plain.len()
                    invariant
                        i <= plain@.len(),
                        r@.len() == i,
                        share == quotient(t, 100),
                        forall|j: int| 0 <= j < i ==> r@[j] == product(plain@[j], share),
                    decreases plain@.len() - i,
                {
                    r.push(plain[i].times(share));
                    i = i + 1;
                }
                assert(r@ =~= cmyk_of(self.deep_view())->Some_0);
                Some(r)
            },
        }
    }
}

impl Graphic {
    /// The colour swatch `id`.
    pub fn resolve(&self, id: &str) -> (r: Option<&ColorEntry>)
        ensures
            match r {
                Some(c) => self.colors.deep_view().dom().contains(id@) && c.deep_view()
                    == self.colors.deep_view()[id@],
                None => !self.colors.deep_view().dom().contains(id@),
            },
    {
        self.colors.get(id)
    }

    /// The opacity of the colour swatch `id`.
    pub fn resolve_alpha(&self, id: &str) -> (r: Option<Num>)
        ensures
            r == (if self.colors.deep_view().dom().contains(id@) {
                self.colors.deep_view()[id@].alpha
            } else {
                None
            }),
    {
        match self.colors.get(id) {
            None => None,
            Some(c) => c.alpha,
        }
    }
}

} // verus!
