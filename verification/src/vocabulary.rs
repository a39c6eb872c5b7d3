//! The words that attributes of page items choose from.
use crate::text::same_text;
use vstd::prelude::*;

verus! {

/// How a corner is drawn.
#[derive(Clone, Copy, Debug, PartialEq, Eq, Structural)]
pub enum CornerOption {
    Plain,
    Rounded,
    InverseRounded,
    Inset,
    Bevel,
    Fancy,
}

impl DeepView for CornerOption {
    type V = CornerOption;

    open spec fn deep_view(&self) -> CornerOption {
        *self
    }
}

impl CornerOption {
    /// What the value `s` names, where it is one of those known.
    pub open spec fn named(s: Seq<char>) -> Option<CornerOption> {
        if s == "None"@ {
            Some(CornerOption::Plain)
        } else if s == "RoundedCorner"@ {
            Some(CornerOption::Rounded)
        } else if s == "InverseRoundedCorner"@ {
            Some(CornerOption::InverseRounded)
        } else if s == "InsetCorner"@ {
            Some(CornerOption::Inset)
        } else if s == "BevelCorner"@ {
            Some(CornerOption::Bevel)
        } else if s == "FancyCorner"@ {
            Some(CornerOption::Fancy)
        } else {
            None
        }
    }

    /// Reads the value `s`.
    pub fn from_idml(s: &str) -> (r: Option<CornerOption>)
        ensures
            r == CornerOption::named(s@),
    {
        if same_text(s, "None") {
            Some(CornerOption::Plain)
        } else if same_text(s, "RoundedCorner") {
            Some(CornerOption::Rounded)
        } else if same_text(s, "InverseRoundedCorner") {
            Some(CornerOption::InverseRounded)
        } else if same_text(s, "InsetCorner") {
            Some(CornerOption::Inset)
        } else if same_text(s, "BevelCorner") {
            Some(CornerOption::Bevel)
        } else if same_text(s, "FancyCorner") {
            Some(CornerOption::Fancy)
        } else {
            None
        }
    }
}

impl CornerOption {
    /// Whether the corner is rounded outwards.
    pub fn rounds(&self) -> (r: bool)
        ensures
            r == (*self == CornerOption::Rounded),
    {
        *self == CornerOption::Rounded
    }
}

/// How text stands in the height of its frame.
#[derive(Clone, Copy, Debug, PartialEq, Eq, Structural)]
pub enum VerticalJustification {
    Top,
    Center,
    Bottom,
    Justify,
}

impl DeepView for VerticalJustification {
    type V = VerticalJustification;

    open spec fn deep_view(&self) -> VerticalJustification {
        *self
    }
}

impl VerticalJustification {
    /// What the value `s` names, where it is one of those known.
    pub open spec fn named(s: Seq<char>) -> Option<VerticalJustification> {
        if s == "TopAlign"@ {
            Some(VerticalJustification::Top)
        } else if s == "CenterAlign"@ {
            Some(VerticalJustification::Center)
        } else if s == "BottomAlign"@ {
            Some(VerticalJustification::Bottom)
        } else if s == "JustifyAlign"@ {
            Some(VerticalJustification::Justify)
        } else {
            None
        }
    }

    /// Reads the value `s`.
    pub fn from_idml(s: &str) -> (r: Option<VerticalJustification>)
        ensures
            r == VerticalJustification::named(s@),
    {
        if same_text(s, "TopAlign") {
            Some(VerticalJustification::Top)
        } else if same_text(s, "CenterAlign") {
            Some(VerticalJustification::Center)
        } else if same_text(s, "BottomAlign") {
            Some(VerticalJustification::Bottom)
        } else if same_text(s, "JustifyAlign") {
            Some(VerticalJustification::Justify)
        } else {
            None
        }
    }
}

/// What the first baseline of a frame is measured by.
#[derive(Clone, Copy, Debug, PartialEq, Eq, Structural)]
pub enum FirstBaselineOffset {
    Ascent,
    CapHeight,
    Leading,
    EmBox,
    XHeight,
    Fixed,
}

impl DeepView for FirstBaselineOffset {
    type V = FirstBaselineOffset;

    open spec fn deep_view(&self) -> FirstBaselineOffset {
        *self
    }
}

impl FirstBaselineOffset {
    /// What the value `s` names, where it is one of those known.
    pub open spec fn named(s: Seq<char>) -> Option<FirstBaselineOffset> {
        if s == "AscentOffset"@ {
            Some(FirstBaselineOffset::Ascent)
        } else if s == "CapHeight"@ {
            Some(FirstBaselineOffset::CapHeight)
        } else if s == "LeadingOffset"@ {
            Some(FirstBaselineOffset::Leading)
        } else if s == "EmboxHeight"@ {
            Some(FirstBaselineOffset::EmBox)
        } else if s == "XHeight"@ {
            Some(FirstBaselineOffset::XHeight)
        } else if s == "FixedHeight"@ {
            Some(FirstBaselineOffset::Fixed)
        } else {
            None
        }
    }

    /// Reads the value `s`.
    pub fn from_idml(s: &str) -> (r: Option<FirstBaselineOffset>)
        ensures
            r == FirstBaselineOffset::named(s@),
    {
        if same_text(s, "AscentOffset") {
            Some(FirstBaselineOffset::Ascent)
        } else if same_text(s, "CapHeight") {
            Some(FirstBaselineOffset::CapHeight)
        } else if same_text(s, "LeadingOffset") {
            Some(FirstBaselineOffset::Leading)
        } else if same_text(s, "EmboxHeight") {
            Some(FirstBaselineOffset::EmBox)
        } else if same_text(s, "XHeight") {
            Some(FirstBaselineOffset::XHeight)
        } else if same_text(s, "FixedHeight") {
            Some(FirstBaselineOffset::Fixed)
        } else {
            None
        }
    }
}

/// Which sides of a text frame follow its text.
#[derive(Clone, Copy, Debug, PartialEq, Eq, Structural)]
pub enum AutoSizingType {
    Off,
    HeightOnly,
    WidthOnly,
    HeightAndWidth,
    HeightAndWidthProportionally,
}

impl DeepView for AutoSizingType {
    type V = AutoSizingType;

    open spec fn deep_view(&self) -> AutoSizingType {
        *self
    }
}

impl AutoSizingType {
    /// What the value `s` names, where it is one of those known.
    pub open spec fn named(s: Seq<char>) -> Option<AutoSizingType> {
        if s == "Off"@ {
            Some(AutoSizingType::Off)
        } else if s == "HeightOnly"@ {
            Some(AutoSizingType::HeightOnly)
        } else if s == "WidthOnly"@ {
            Some(AutoSizingType::WidthOnly)
        } else if s == "HeightAndWidth"@ {
            Some(AutoSizingType::HeightAndWidth)
        } else if s == "HeightAndWidthProportionally"@ {
            Some(AutoSizingType::HeightAndWidthProportionally)
        } else {
            None
        }
    }

    /// Reads the value `s`.
    pub fn from_idml(s: &str) -> (r: Option<AutoSizingType>)
        ensures
            r == AutoSizingType::named(s@),
    {
        if same_text(s, "Off") {
            Some(AutoSizingType::Off)
        } else if same_text(s, "HeightOnly") {
            Some(AutoSizingType::HeightOnly)
        } else if same_text(s, "WidthOnly") {
            Some(AutoSizingType::WidthOnly)
        } else if same_text(s, "HeightAndWidth") {
            Some(AutoSizingType::HeightAndWidth)
        } else if same_text(s, "HeightAndWidthProportionally") {
            Some(AutoSizingType::HeightAndWidthProportionally)
        } else {
            None
        }
    }
}

impl AutoSizingType {
    /// Whether the width follows the text.
    pub fn grows_width(&self) -> (r: bool)
        ensures
            r == (*self is WidthOnly || *self is HeightAndWidth || *self is HeightAndWidthProportionally),
    {
        match self {
            AutoSizingType::Off | AutoSizingType::HeightOnly => false,
            _ => true,
        }
    }

    /// Whether the height follows the text.
    pub fn grows_height(&self) -> (r: bool)
        ensures
            r == (*self is HeightOnly || *self is HeightAndWidth || *self is HeightAndWidthProportionally),
    {
        match self {
            AutoSizingType::Off | AutoSizingType::WidthOnly => false,
            _ => true,
        }
    }
}

/// The point of a frame that stays while it follows its text.
#[derive(Clone, Copy, Debug, PartialEq, Eq, Structural)]
pub enum AutoSizingReferencePoint {
    CenterPoint,
    TopCenterPoint,
    BottomCenterPoint,
    LeftCenterPoint,
    RightCenterPoint,
    TopLeftPoint,
    TopRightPoint,
    BottomLeftPoint,
    BottomRightPoint,
}

impl DeepView for AutoSizingReferencePoint {
    type V = AutoSizingReferencePoint;

    open spec fn deep_view(&self) -> AutoSizingReferencePoint {
        *self
    }
}

impl AutoSizingReferencePoint {
    /// What the value `s` names, where it is one of those known.
    pub open spec fn named(s: Seq<char>) -> Option<AutoSizingReferencePoint> {
        if s == "CenterPoint"@ {
            Some(AutoSizingReferencePoint::CenterPoint)
        } else if s == "TopCenterPoint"@ {
            Some(AutoSizingReferencePoint::TopCenterPoint)
        } else if s == "BottomCenterPoint"@ {
            Some(AutoSizingReferencePoint::BottomCenterPoint)
        } else if s == "LeftCenterPoint"@ {
            Some(AutoSizingReferencePoint::LeftCenterPoint)
        } else if s == "RightCenterPoint"@ {
            Some(AutoSizingReferencePoint::RightCenterPoint)
        } else if s == "TopLeftPoint"@ {
            Some(AutoSizingReferencePoint::TopLeftPoint)
        } else if s == "TopRightPoint"@ {
            Some(AutoSizingReferencePoint::TopRightPoint)
        } else if s == "BottomLeftPoint"@ {
            Some(AutoSizingReferencePoint::BottomLeftPoint)
        } else if s == "BottomRightPoint"@ {
            Some(AutoSizingReferencePoint::BottomRightPoint)
        } else {
            None
        }
    }

    /// Reads the value `s`.
    pub fn from_idml(s: &str) -> (r: Option<AutoSizingReferencePoint>)
        ensures
            r == AutoSizingReferencePoint::named(s@),
    {
        if same_text(s, "CenterPoint") {
            Some(AutoSizingReferencePoint::CenterPoint)
        } else if same_text(s, "TopCenterPoint") {
            Some(AutoSizingReferencePoint::TopCenterPoint)
        } else if same_text(s, "BottomCenterPoint") {
            Some(AutoSizingReferencePoint::BottomCenterPoint)
        } else if same_text(s, "LeftCenterPoint") {
            Some(AutoSizingReferencePoint::LeftCenterPoint)
        } else if same_text(s, "RightCenterPoint") {
            Some(AutoSizingReferencePoint::RightCenterPoint)
        } else if same_text(s, "TopLeftPoint") {
            Some(AutoSizingReferencePoint::TopLeftPoint)
        } else if same_text(s, "TopRightPoint") {
            Some(AutoSizingReferencePoint::TopRightPoint)
        } else if same_text(s, "BottomLeftPoint") {
            Some(AutoSizingReferencePoint::BottomLeftPoint)
        } else if same_text(s, "BottomRightPoint") {
            Some(AutoSizingReferencePoint::BottomRightPoint)
        } else {
            None
        }
    }
}

/// Where the clipping path of an image comes from.
#[derive(Clone, Copy, Debug, PartialEq, Eq, Structural)]
pub enum ClippingType {
    NoClip,
    DetectEdges,
    AlphaChannel,
    PhotoshopPath,
    UserModifiedPath,
}

impl DeepView for ClippingType {
    type V = ClippingType;

    open spec fn deep_view(&self) -> ClippingType {
        *self
    }
}

impl ClippingType {
    /// What the value `s` names; `NoClip` where it is none of those known.
    pub open spec fn named(s: Seq<char>) -> ClippingType {
        if s == "None"@ {
            ClippingType::NoClip
        } else if s == "DetectEdges"@ {
            ClippingType::DetectEdges
        } else if s == "AlphaChannel"@ {
            ClippingType::AlphaChannel
        } else if s == "PhotoshopPath"@ {
            ClippingType::PhotoshopPath
        } else if s == "UserModifiedPath"@ {
            ClippingType::UserModifiedPath
        } else {
            ClippingType::NoClip
        }
    }

    /// Reads the value `s`.
    pub fn from_idml(s: &str) -> (r: ClippingType)
        ensures
            r == ClippingType::named(s@),
    {
        if same_text(s, "None") {
            ClippingType::NoClip
        } else if same_text(s, "DetectEdges") {
            ClippingType::DetectEdges
        } else if same_text(s, "AlphaChannel") {
            ClippingType::AlphaChannel
        } else if same_text(s, "PhotoshopPath") {
            ClippingType::PhotoshopPath
        } else if same_text(s, "UserModifiedPath") {
            ClippingType::UserModifiedPath
        } else {
            ClippingType::NoClip
        }
    }
}

/// How text runs round an item.
#[derive(Clone, Copy, Debug, PartialEq, Eq, Structural)]
pub enum TextWrapMode {
    NoWrap,
    JumpObjectTextWrap,
    NextColumnTextWrap,
    BoundingBoxTextWrap,
    ContourTextWrap,
}

impl DeepView for TextWrapMode {
    type V = TextWrapMode;

    open spec fn deep_view(&self) -> TextWrapMode {
        *self
    }
}

impl TextWrapMode {
    /// What the value `s` names; `NoWrap` where it is none of those known.
    pub open spec fn named(s: Seq<char>) -> TextWrapMode {
        if s == "None"@ {
            TextWrapMode::NoWrap
        } else if s == "JumpObjectTextWrap"@ {
            TextWrapMode::JumpObjectTextWrap
        } else if s == "NextColumnTextWrap"@ {
            TextWrapMode::NextColumnTextWrap
        } else if s == "BoundingBoxTextWrap"@ {
            TextWrapMode::BoundingBoxTextWrap
        } else if s == "ContourTextWrap"@ {
            TextWrapMode::ContourTextWrap
        } else if s == "Contour"@ {
            TextWrapMode::ContourTextWrap
        } else {
            TextWrapMode::NoWrap
        }
    }

    /// Reads the value `s`.
    pub fn from_idml(s: &str) -> (r: TextWrapMode)
        ensures
            r == TextWrapMode::named(s@),
    {
        if same_text(s, "None") {
            TextWrapMode::NoWrap
        } else if same_text(s, "JumpObjectTextWrap") {
            TextWrapMode::JumpObjectTextWrap
        } else if same_text(s, "NextColumnTextWrap") {
            TextWrapMode::NextColumnTextWrap
        } else if same_text(s, "BoundingBoxTextWrap") {
            TextWrapMode::BoundingBoxTextWrap
        } else if same_text(s, "ContourTextWrap") {
            TextWrapMode::ContourTextWrap
        } else if same_text(s, "Contour") {
            TextWrapMode::ContourTextWrap
        } else {
            TextWrapMode::NoWrap
        }
    }
}

/// What text follows that runs round a contour.
#[derive(Clone, Copy, Debug, PartialEq, Eq, Structural)]
pub enum ContourOptionType {
    SameAsClipping,
    BoundingBox,
    PhotoshopPath,
    DetectEdges,
    AlphaChannel,
    GraphicFrame,
}

impl DeepView for ContourOptionType {
    type V = ContourOptionType;

    open spec fn deep_view(&self) -> ContourOptionType {
        *self
    }
}

impl ContourOptionType {
    /// What the value `s` names; `SameAsClipping` where it is none of those known.
    pub open spec fn named(s: Seq<char>) -> ContourOptionType {
        if s == "SameAsClipping"@ {
            ContourOptionType::SameAsClipping
        } else if s == "BoundingBox"@ {
            ContourOptionType::BoundingBox
        } else if s == "PhotoshopPath"@ {
            ContourOptionType::PhotoshopPath
        } else if s == "DetectEdges"@ {
            ContourOptionType::DetectEdges
        } else if s == "AlphaChannel"@ {
            ContourOptionType::AlphaChannel
        } else if s == "GraphicFrame"@ {
            ContourOptionType::GraphicFrame
        } else {
            ContourOptionType::SameAsClipping
        }
    }

    /// Reads the value `s`.
    pub fn from_idml(s: &str) -> (r: ContourOptionType)
        ensures
            r == ContourOptionType::named(s@),
    {
        if same_text(s, "SameAsClipping") {
            ContourOptionType::SameAsClipping
        } else if same_text(s, "BoundingBox") {
            ContourOptionType::BoundingBox
        } else if same_text(s, "PhotoshopPath") {
            ContourOptionType::PhotoshopPath
        } else if same_text(s, "DetectEdges") {
            ContourOptionType::DetectEdges
        } else if same_text(s, "AlphaChannel") {
            ContourOptionType::AlphaChannel
        } else if same_text(s, "GraphicFrame") {
            ContourOptionType::GraphicFrame
        } else {
            ContourOptionType::SameAsClipping
        }
    }
}

/// The end of a line.
#[derive(Clone, Copy, Debug, PartialEq, Eq, Structural)]
pub enum ArrowheadType {
    NoHead,
    Simple,
    SimpleWide,
    Triangle,
    TriangleWide,
    Barbed,
    Curved,
    Circle,
    CircleSolid,
    Square,
    SquareSolid,
    Bar,
    Other,
}

impl DeepView for ArrowheadType {
    type V = ArrowheadType;

    open spec fn deep_view(&self) -> ArrowheadType {
        *self
    }
}

impl ArrowheadType {
    /// What the value `s` names; `Other` where it is none of those known.
    pub open spec fn named(s: Seq<char>) -> ArrowheadType {
        if s == "None"@ {
            ArrowheadType::NoHead
        } else if s == "SimpleArrowHead"@ {
            ArrowheadType::Simple
        } else if s == "SimpleWideArrowHead"@ {
            ArrowheadType::SimpleWide
        } else if s == "TriangleArrowHead"@ {
            ArrowheadType::Triangle
        } else if s == "TriangleWideArrowHead"@ {
            ArrowheadType::TriangleWide
        } else if s == "BarbedArrowHead"@ {
            ArrowheadType::Barbed
        } else if s == "CurvedArrowHead"@ {
            ArrowheadType::Curved
        } else if s == "CircleArrowHead"@ {
            ArrowheadType::Circle
        } else if s == "CircleSolidArrowHead"@ {
            ArrowheadType::CircleSolid
        } else if s == "SquareArrowHead"@ {
            ArrowheadType::Square
        } else if s == "SquareSolidArrowHead"@ {
            ArrowheadType::SquareSolid
        } else if s == "BarArrowHead"@ {
            ArrowheadType::Bar
        } else {
            ArrowheadType::Other
        }
    }

    /// Reads the value `s`.
    pub fn from_idml(s: &str) -> (r: ArrowheadType)
        ensures
            r == ArrowheadType::named(s@),
    {
        if same_text(s, "None") {
            ArrowheadType::NoHead
        } else if same_text(s, "SimpleArrowHead") {
            ArrowheadType::Simple
        } else if same_text(s, "SimpleWideArrowHead") {
            ArrowheadType::SimpleWide
        } else if same_text(s, "TriangleArrowHead") {
            ArrowheadType::Triangle
        } else if same_text(s, "TriangleWideArrowHead") {
            ArrowheadType::TriangleWide
        } else if same_text(s, "BarbedArrowHead") {
            ArrowheadType::Barbed
        } else if same_text(s, "CurvedArrowHead") {
            ArrowheadType::Curved
        } else if same_text(s, "CircleArrowHead") {
            ArrowheadType::Circle
        } else if same_text(s, "CircleSolidArrowHead") {
            ArrowheadType::CircleSolid
        } else if same_text(s, "SquareArrowHead") {
            ArrowheadType::Square
        } else if same_text(s, "SquareSolidArrowHead") {
            ArrowheadType::SquareSolid
        } else if same_text(s, "BarArrowHead") {
            ArrowheadType::Bar
        } else {
            ArrowheadType::Other
        }
    }
}

impl ArrowheadType {
    /// The word that names it; none for `Other`.
    pub open spec fn word(self) -> Seq<char> {
        match self {
            ArrowheadType::NoHead => "None"@,
            ArrowheadType::Simple => "SimpleArrowHead"@,
            ArrowheadType::SimpleWide => "SimpleWideArrowHead"@,
            ArrowheadType::Triangle => "TriangleArrowHead"@,
            ArrowheadType::TriangleWide => "TriangleWideArrowHead"@,
            ArrowheadType::Barbed => "BarbedArrowHead"@,
            ArrowheadType::Curved => "CurvedArrowHead"@,
            ArrowheadType::Circle => "CircleArrowHead"@,
            ArrowheadType::CircleSolid => "CircleSolidArrowHead"@,
            ArrowheadType::Square => "SquareArrowHead"@,
            ArrowheadType::SquareSolid => "SquareSolidArrowHead"@,
            ArrowheadType::Bar => "BarArrowHead"@,
            ArrowheadType::Other => ""@,
        }
    }

    /// The word that names it.
    pub fn as_idml(&self) -> (r: &'static str)
        ensures
            r@ == self.word(),
    {
        match self {
            ArrowheadType::NoHead => "None",
            ArrowheadType::Simple => "SimpleArrowHead",
            ArrowheadType::SimpleWide => "SimpleWideArrowHead",
            ArrowheadType::Triangle => "TriangleArrowHead",
            ArrowheadType::TriangleWide => "TriangleWideArrowHead",
            ArrowheadType::Barbed => "BarbedArrowHead",
            ArrowheadType::Curved => "CurvedArrowHead",
            ArrowheadType::Circle => "CircleArrowHead",
            ArrowheadType::CircleSolid => "CircleSolidArrowHead",
            ArrowheadType::Square => "SquareArrowHead",
            ArrowheadType::SquareSolid => "SquareSolidArrowHead",
            ArrowheadType::Bar => "BarArrowHead",
            ArrowheadType::Other => "",
        }
    }
}

/// A line end that has a word is read back from it.
pub proof fn law_arrowhead_round_trip(a: ArrowheadType)
    requires
        a != ArrowheadType::Other,
    ensures
        ArrowheadType::named(a.word()) == a,
{
    reveal_strlit("None");
    reveal_strlit("SimpleArrowHead");
    reveal_strlit("SimpleWideArrowHead");
    reveal_strlit("TriangleArrowHead");
    reveal_strlit("TriangleWideArrowHead");
    reveal_strlit("BarbedArrowHead");
    reveal_strlit("CurvedArrowHead");
    reveal_strlit("CircleArrowHead");
    reveal_strlit("CircleSolidArrowHead");
    reveal_strlit("SquareArrowHead");
    reveal_strlit("SquareSolidArrowHead");
    reveal_strlit("BarArrowHead");
    assert("None"@.len() == 4 && "None"@[0] == 'N' && "None"@[1] == 'o');
    assert("SimpleArrowHead"@.len() == 15 && "SimpleArrowHead"@[0] == 'S' && "SimpleArrowHead"@[1] == 'i');
    assert("SimpleWideArrowHead"@.len() == 19 && "SimpleWideArrowHead"@[0] == 'S' && "SimpleWideArrowHead"@[1] == 'i');
    assert("TriangleArrowHead"@.len() == 17 && "TriangleArrowHead"@[0] == 'T' && "TriangleArrowHead"@[1] == 'r');
    assert("TriangleWideArrowHead"@.len() == 21 && "TriangleWideArrowHead"@[0] == 'T' && "TriangleWideArrowHead"@[1] == 'r');
    assert("BarbedArrowHead"@.len() == 15 && "BarbedArrowHead"@[0] == 'B' && "BarbedArrowHead"@[1] == 'a');
    assert("CurvedArrowHead"@.len() == 15 && "CurvedArrowHead"@[0] == 'C' && "CurvedArrowHead"@[1] == 'u');
    assert("CircleArrowHead"@.len() == 15 && "CircleArrowHead"@[0] == 'C' && "CircleArrowHead"@[1] == 'i');
    assert("CircleSolidArrowHead"@.len() == 20 && "CircleSolidArrowHead"@[0] == 'C' && "CircleSolidArrowHead"@[1] == 'i');
    assert("SquareArrowHead"@.len() == 15 && "SquareArrowHead"@[0] == 'S' && "SquareArrowHead"@[1] == 'q');
    assert("SquareSolidArrowHead"@.len() == 20 && "SquareSolidArrowHead"@[0] == 'S' && "SquareSolidArrowHead"@[1] == 'q');
    assert("BarArrowHead"@.len() == 12 && "BarArrowHead"@[0] == 'B' && "BarArrowHead"@[1] == 'a');
}

/// Which way a ruler guide runs.
#[derive(Clone, Copy, Debug, PartialEq, Eq, Structural)]
pub enum GuideOrientation {
    Vertical,
    Horizontal,
}

impl DeepView for GuideOrientation {
    type V = GuideOrientation;

    open spec fn deep_view(&self) -> GuideOrientation {
        *self
    }
}

impl GuideOrientation {
    /// The orientation that `s` names, where it is one of those known.
    pub open spec fn named(s: Seq<char>) -> Option<GuideOrientation> {
        if s == "Vertical"@ {
            Some(GuideOrientation::Vertical)
        } else if s == "Horizontal"@ {
            Some(GuideOrientation::Horizontal)
        } else {
            None
        }
    }

    /// Reads an orientation.
    pub fn from_idml(s: &str) -> (r: Option<GuideOrientation>)
        ensures
            r == GuideOrientation::named(s@),
    {
        if same_text(s, "Vertical") {
            Some(GuideOrientation::Vertical)
        } else if same_text(s, "Horizontal") {
            Some(GuideOrientation::Horizontal)
        } else {
            None
        }
    }
}

} // verus!
