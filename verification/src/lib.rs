//! Publications as typed data.
//!
//! The library opens an IDML package, a ZIP archive of XML parts, and reads its
//! parts into typed values: the manifest ([`designmap`]), the palette
//! ([`graphic`]), the styles ([`styles`]), the spreads with the items on them
//! ([`spread`]) and the stories ([`story`]). It also makes a document of a page
//! description that was read elsewhere ([`ir`], [`assembly`]), and wraps one into a
//! package of its own ([`ocf`]).
//!
//! What the functions return is stated over mathematical views of these values,
//! and proved. A part is first read into its XML events ([`xml`]); what the events
//! mean is stated event by event. Numbers are single-precision numbers held by
//! their bit pattern ([`number`]), with the decimal notation they are written in
//! ([`decimal`]).

pub mod alike_laws;
pub mod archive;
pub mod assembly;
pub mod assembly_laws;
pub mod bignat;
pub mod decimal;
pub mod designmap;
pub mod edit_laws;
pub mod edits;
pub mod encoding;
pub mod error;
pub mod flow_laws;
pub mod geometry;
pub mod graphic;
pub mod idmap;
pub mod import;
pub mod ir;
pub mod listing_laws;
pub mod manifest_laws;
pub mod number;
pub mod number_laws;
pub mod ocf;
pub mod outline_laws;
pub mod package_laws;
pub mod page_items;
pub mod palette_laws;
pub mod piece_laws;
pub mod place_laws;
pub mod reading_laws;
pub mod resource_laws;
pub mod shapes;
pub mod sheet_laws;
pub mod spread;
pub mod spread_laws;
pub mod story;
pub mod story_laws;
pub mod story_model;
pub mod style_laws;
pub mod styles;
pub mod text;
pub mod text_attrs;
pub mod text_laws;
pub mod transform_laws;
pub mod util;
pub mod vocabulary;
pub mod xml;

pub use archive::{open_source_archive, SourceArchive};
pub use assembly::{build_document, BuildError};
pub use designmap::{
    parse_designmap, ColorSettings, DesignMap, DocumentPreference, Hyperlink, HyperlinkDestination,
    HyperlinkDestinationKind, Layer, NumberingStyle, Section, SpreadRef, StoryRef, TextVariable,
};
pub use error::{OpenError, ParseError};
pub use geometry::{Bounds, Insets, Matrix, PathAnchor};
pub use graphic::{
    parse_graphic, ColorEntry, ColorModel, ColorSpace, GradientEntry, GradientKind,
    GradientStopRef, Graphic, SwatchEntry,
};
pub use import::{
    assemble, import_idml, import_idml_archive, import_idml_doc, Document, ParsedMasterSpread,
    ParsedSpread, ParsedStory, Parts,
};
pub use number::Num;
pub use ocf::wrap_document;
pub use page_items::{
    BevelEmbossParams, ClippingPathSettings, CornerSpec, Corners, DirectionalFeatherParams,
    DropShadowSetting, FeatherParams, FrameEffects, FrameFittingOption, FrameRef,
    GradientFeatherParams, GradientFeatherStop, GraphicLine, Group, GroupTransparency,
    ImageMetadata, InnerGlowParams, InnerShadowParams, MarginPreference, OuterGlowParams, Oval,
    Page, Polygon, Rectangle, RulerGuide, SatinParams, Spread, TextFrame, TextPath, TextWrap,
};
pub use spread::parse_spread;
pub use story::parse_story;
pub use story_model::{
    AnchoredFrame, AnchoredFrameKind, AnchoredObjectSetting, CellDiagonal, CharacterRun, Footnote,
    IndexMarker, Paragraph, Story, StoryDirection, Table, TableBorder, TableCell, TableColumn,
    TableLineStrokes, TableRow, AUTO_PAGE_NUMBER_MARKER, NEXT_PAGE_NUMBER_MARKER,
};
pub use styles::{
    parse_stylesheet, CellStyleDef, CharacterStyleDef, ConditionDef, NestedDelimiter, NestedStyle,
    ObjectStyleDef, ParagraphBorder, ParagraphShading, ParagraphStyleDef, StripeDef,
    StrokeStyleDef, StrokeStyleKind, StyleSheet, TOCStyleDef, TOCStyleEntryDef, TableStyleDef,
};
pub use text_attrs::{Justification, OtfFeatures, ParagraphRule, TabStop};
pub use vocabulary::{
    ArrowheadType, AutoSizingReferencePoint, AutoSizingType, ClippingType, ContourOptionType,
    CornerOption, FirstBaselineOffset, GuideOrientation, TextWrapMode, VerticalJustification,
};
