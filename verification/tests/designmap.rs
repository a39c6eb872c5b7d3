//! The manifest of a package.
use idml_import::designmap::{
    parse_designmap, DocumentPreference, GridPreference, HyperlinkDestinationKind, NumberingStyle,
};
use idml_import::Num;

/// A value of the library as an ordinary one.
trait Shown {
    type Plain;

    fn shown(&self) -> Self::Plain;
}

impl Shown for Num {
    type Plain = f32;

    fn shown(&self) -> f32 {
        f32::from_bits(self.bits)
    }
}

impl<T: Shown> Shown for Option<T> {
    type Plain = Option<T::Plain>;

    fn shown(&self) -> Option<T::Plain> {
        self.as_ref().map(|x| x.shown())
    }
}


const SAMPLE: &[u8] = br#"<?xml version="1.0" encoding="UTF-8"?>
<Document xmlns:idPkg="http://ns.adobe.com/AdobeInDesign/idml/1.0/packaging">
  <idPkg:MasterSpread src="MasterSpreads/MasterSpread_ua.xml"/>
  <idPkg:Spread src="Spreads/Spread_u1.xml"/>
  <idPkg:Spread src="Spreads/Spread_u2.xml"/>
  <idPkg:Story src="Stories/Story_u10.xml"/>
</Document>"#;

#[test]
fn parses_spread_and_story_manifest() {
    let dm = parse_designmap(SAMPLE).unwrap();
    assert_eq!(dm.spreads.len(), 2);
    assert_eq!(dm.stories.len(), 1);
    assert_eq!(dm.master_spreads.len(), 1);
    assert_eq!(dm.spreads[0].src, "Spreads/Spread_u1.xml");
    assert_eq!(dm.stories[0].src, "Stories/Story_u10.xml");
}

const LAYERS_SAMPLE: &[u8] = br#"<?xml version="1.0" encoding="UTF-8"?>
<Document xmlns:idPkg="http://ns.adobe.com/AdobeInDesign/idml/1.0/packaging">
  <Layer Self="ua" Name="Layer 1" Visible="true" Locked="false" Printable="true"/>
  <Layer Self="ub" Name="Guides" Visible="true" Locked="true" Printable="false"/>
  <Layer Self="uc" Name="Hidden" Visible="false" Printable="true"/>
  <Layer Self="ud" Name="Defaults"/>
</Document>"#;

#[test]
fn q17_layer_printable_attribute_round_trips() {
    let dm = parse_designmap(LAYERS_SAMPLE).unwrap();
    assert_eq!(dm.layers.len(), 4);
    let printable: Vec<bool> = dm.layers.iter().map(|l| l.printable).collect();
    assert_eq!(printable, vec![true, false, true, true]);
    let visible: Vec<bool> = dm.layers.iter().map(|l| l.visible).collect();
    assert_eq!(visible, vec![true, true, false, true]);
}

#[test]
fn flat_layers_have_no_parent() {
    let dm = parse_designmap(LAYERS_SAMPLE).unwrap();
    assert!(dm.layers.iter().all(|l| l.parent_id.is_none()));
}

#[test]
fn nested_layers_capture_parent() {
    let xml = br#"<?xml version="1.0" encoding="UTF-8"?>
<Document xmlns:idPkg="http://ns.adobe.com/AdobeInDesign/idml/1.0/packaging">
  <Layer Self="grp" Name="Group">
    <Layer Self="child1" Name="Child 1"/>
    <Layer Self="child2" Name="Child 2"/>
  </Layer>
  <Layer Self="peer" Name="Peer"/>
</Document>"#;
    let dm = parse_designmap(xml).unwrap();
    assert_eq!(dm.layers.len(), 4);
    let by_id = |id: &str| dm.layers.iter().find(|l| l.self_id == id).unwrap();
    assert_eq!(by_id("grp").parent_id, None);
    assert_eq!(by_id("child1").parent_id.as_deref(), Some("grp"));
    assert_eq!(by_id("child2").parent_id.as_deref(), Some("grp"));
    assert_eq!(by_id("peer").parent_id, None);
}

#[test]
fn parses_section_definitions() {
    let xml = br#"<?xml version="1.0" encoding="UTF-8"?>
<Document xmlns:idPkg="http://ns.adobe.com/AdobeInDesign/idml/1.0/packaging">
  <Section Self="sec1" PageStart="page1" PageNumberStyle="LowerRoman"
           PageNumberStart="1" ContinueNumbering="false"/>
  <Section Self="sec2" PageStart="page3" PageNumberStyle="Arabic"
           SectionPrefix="A-" IncludeSectionPrefix="true" PageNumberStart="1"/>
</Document>"#;
    let dm = parse_designmap(xml).unwrap();
    assert_eq!(dm.sections.len(), 2);
    assert_eq!(dm.sections[0].page_start.as_deref(), Some("page1"));
    assert_eq!(dm.sections[0].numbering_style, NumberingStyle::LowerRoman);
    assert_eq!(dm.sections[0].start_at, Some(1));
    assert_eq!(dm.sections[1].numbering_style, NumberingStyle::Arabic);
    assert_eq!(dm.sections[1].section_prefix.as_deref(), Some("A-"));
    assert!(dm.sections[1].include_prefix);
}

#[test]
fn reads_dom_version_when_present() {
    let xml = br#"<?xml version="1.0" encoding="UTF-8"?>
<Document xmlns:idPkg="http://ns.adobe.com/AdobeInDesign/idml/1.0/packaging" DOMVersion="18.5">
  <idPkg:Spread src="Spreads/Spread_u1.xml"/>
</Document>"#;
    let dm = parse_designmap(xml).unwrap();
    assert_eq!(dm.dom_version.as_deref(), Some("18.5"));
}

#[test]
fn dom_version_absent_is_none() {
    let dm = parse_designmap(SAMPLE).unwrap();
    assert_eq!(dm.dom_version, None);
}

#[test]
fn parses_hyperlink_resources_and_destinations() {
    let xml = br#"<?xml version="1.0" encoding="UTF-8"?>
<Document xmlns:idPkg="http://ns.adobe.com/AdobeInDesign/idml/1.0/packaging" Name="brochure.indd">
  <HyperlinkURLDestination Self="d1" DestinationURL="https://paged.media"/>
  <HyperlinkPageDestination Self="d2" DestinationPage="Page/p3"/>
  <HyperlinkTextDestination Self="d3" DestinationText="Story/s9"/>
  <Hyperlink Self="h1" Name="web" Source="HyperlinkTextSource/src1" Destination="d1"/>
  <Hyperlink Self="h2" Name="jump" Source="HyperlinkTextSource/src2" Destination="d2"/>
</Document>"#;
    let dm = parse_designmap(xml).unwrap();
    assert_eq!(dm.document_name.as_deref(), Some("brochure.indd"));
    assert_eq!(dm.hyperlinks.len(), 2);
    assert_eq!(
        dm.hyperlinks[0].source.as_deref(),
        Some("HyperlinkTextSource/src1")
    );
    assert_eq!(dm.hyperlinks[0].destination.as_deref(), Some("d1"));
    assert_eq!(dm.hyperlink_destinations.len(), 3);
    assert!(matches!(
        &dm.hyperlink_destinations[0].kind,
        HyperlinkDestinationKind::Url(u) if u == "https://paged.media"
    ));
    assert!(matches!(
        &dm.hyperlink_destinations[1].kind,
        HyperlinkDestinationKind::Page(p) if p == "Page/p3"
    ));
    assert!(matches!(
        &dm.hyperlink_destinations[2].kind,
        HyperlinkDestinationKind::TextAnchor(t) if t == "Story/s9"
    ));
}

#[test]
fn parses_text_variable_with_preference_contents() {
    let xml = br#"<?xml version="1.0" encoding="UTF-8"?>
<Document xmlns:idPkg="http://ns.adobe.com/AdobeInDesign/idml/1.0/packaging">
  <TextVariable Self="TextVariable/v1" Name="Season" VariableType="CustomTextType">
    <TextVariablePreference Contents="Spring 2026"/>
  </TextVariable>
  <TextVariable Self="TextVariable/v2" Name="Pages" VariableType="PageCountType"/>
</Document>"#;
    let dm = parse_designmap(xml).unwrap();
    assert_eq!(dm.text_variables.len(), 2);
    let custom = &dm.text_variables[0];
    assert_eq!(custom.variable_type.as_deref(), Some("CustomTextType"));
    assert_eq!(custom.contents.as_deref(), Some("Spring 2026"));
    let pc = &dm.text_variables[1];
    assert_eq!(pc.variable_type.as_deref(), Some("PageCountType"));
    assert_eq!(pc.contents, None);
}

#[test]
fn parses_bleed_and_slug_offsets() {
    let xml = br#"<?xml version="1.0" encoding="UTF-8"?>
<Document DOMVersion="18.5">
  <DocumentPreference PageWidth="595.2755905511812" PageHeight="841.8897637795276"
    DocumentBleedTopOffset="8.503937007874017"
    DocumentBleedBottomOffset="8.503937007874017"
    DocumentBleedInsideOrLeftOffset="8.503937007874017"
    DocumentBleedOutsideOrRightOffset="8.503937007874017"
    SlugTopOffset="14.173228346456694"
    SlugBottomOffset="0"
    SlugInsideOrLeftOffset="0"
    SlugRightOrOutsideOffset="0"/>
</Document>"#;
    let dm = parse_designmap(xml).expect("parse");
    let p = dm.document_preference;
    assert!((p.bleed_top.shown() - 8.5039).abs() < 1e-3);
    assert!((p.bleed_outside_or_right.shown() - 8.5039).abs() < 1e-3);
    assert!((p.slug_top.shown() - 14.1732).abs() < 1e-3);
    assert_eq!(p.slug_bottom.shown(), 0.0);
}

#[test]
fn absent_element_defaults_to_zero() {
    let xml = br#"<?xml version="1.0"?><Document DOMVersion="18.5"/>"#;
    let dm = parse_designmap(xml).expect("parse");
    assert_eq!(dm.document_preference, DocumentPreference::default());
}

#[test]
fn parses_footnote_option_rule_and_spacing() {
    let xml = br#"<?xml version="1.0" encoding="UTF-8"?>
<Document DOMVersion="20.0">
  <RootFootnoteStory>
    <FootnoteOption RuleOn="true" RuleColor="Color/FootRule" RuleTint="100"
      RuleLineWeight="1.5" RuleWidth="120" RuleLeftIndent="6" RuleOffset="4"
      SeparatorText="^t" Spacer="9" SpaceBetween="3"/>
  </RootFootnoteStory>
</Document>"#;
    let dm = parse_designmap(xml).expect("parse");
    let fo = &dm.footnote_options;
    assert!(fo.present);
    assert!(!fo.is_default());
    assert_eq!(fo.rule_on, Some(true));
    assert!(fo.rule_on_effective());
    assert_eq!(fo.rule_color.as_deref(), Some("Color/FootRule"));
    assert_eq!(fo.rule_tint.shown(), Some(100.0));
    assert_eq!(fo.rule_line_weight.shown(), Some(1.5));
    assert_eq!(fo.rule_width.shown(), Some(120.0));
    assert_eq!(fo.rule_left_indent.shown(), Some(6.0));
    assert_eq!(fo.rule_offset.shown(), Some(4.0));
    assert_eq!(fo.separator_text.as_deref(), Some("^t"));
    assert_eq!(fo.spacer.shown(), Some(9.0));
    assert_eq!(fo.space_between.shown(), Some(3.0));
}

#[test]
fn footnote_option_rule_off_is_distinct_from_absent() {
    let off = br#"<?xml version="1.0"?><Document><FootnoteOption RuleOn="false"/></Document>"#;
    let dm = parse_designmap(off).expect("parse");
    assert!(dm.footnote_options.present);
    assert_eq!(dm.footnote_options.rule_on, Some(false));
    assert!(!dm.footnote_options.rule_on_effective());

    let absent = br#"<?xml version="1.0"?><Document/>"#;
    let dm = parse_designmap(absent).expect("parse");
    assert!(dm.footnote_options.is_default());
    assert_eq!(dm.footnote_options.rule_on, None);
    assert!(dm.footnote_options.rule_on_effective());
}

#[test]
fn parses_grid_preference_baseline_grid() {
    let xml = br#"<?xml version="1.0" encoding="UTF-8"?>
<Document DOMVersion="20.0">
  <GridPreference BaselineStart="48" BaselineDivision="12"
    BaselineGridShown="true" BaselineGridRelativeOption="TopMargin"
    BaselineColor="Color/Grid"
    HorizontalGridlineDivision="72" VerticalGridlineDivision="72"/>
</Document>"#;
    let dm = parse_designmap(xml).expect("parse");
    let gp = &dm.grid_preference;
    assert!(gp.present);
    assert_eq!(gp.baseline_start.shown(), Some(48.0));
    assert_eq!(gp.baseline_division.shown(), Some(12.0));
    assert_eq!(gp.baseline_grid_shown, Some(true));
    assert_eq!(
        gp.baseline_grid_relative_option.as_deref(),
        Some("TopMargin")
    );
    assert_eq!(gp.baseline_color.as_deref(), Some("Color/Grid"));
    assert_eq!(gp.horizontal_gridline_division.shown(), Some(72.0));
    assert_eq!(gp.vertical_gridline_division.shown(), Some(72.0));
}

#[test]
fn grid_preference_absent_is_default() {
    let absent = br#"<?xml version="1.0"?><Document/>"#;
    let dm = parse_designmap(absent).expect("parse");
    assert!(!dm.grid_preference.present);
    assert_eq!(dm.grid_preference, GridPreference::default());
    assert_eq!(dm.grid_preference.baseline_division, None);
}
