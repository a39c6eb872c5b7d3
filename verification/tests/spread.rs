//! Spreads and the items on them.
use idml_import::{
    parse_spread, ArrowheadType, AutoSizingReferencePoint, AutoSizingType, ClippingType,
    ContourOptionType, CornerOption, FirstBaselineOffset, FrameRef, GuideOrientation, Insets,
    Matrix, Num, TextWrapMode, VerticalJustification,
};

/// A value of the library as an ordinary one.
trait Shown {
    type Plain;

    fn shown(&self) -> Self::Plain;
}

impl Shown for Num {
    type Plain = f32;

    fn shown(&self) -> f32 {
        f32::from_bits(self.bits)
    }
}

impl<T: Shown> Shown for Option<T> {
    type Plain = Option<T::Plain>;

    fn shown(&self) -> Option<T::Plain> {
        self.as_ref().map(|x| x.shown())
    }
}

impl Shown for Matrix {
    type Plain = [f32; 6];

    fn shown(&self) -> [f32; 6] {
        [self.a, self.b, self.c, self.d, self.tx, self.ty].map(|x| x.shown())
    }
}

impl Shown for Insets {
    type Plain = [f32; 4];

    fn shown(&self) -> [f32; 4] {
        [self.top, self.left, self.bottom, self.right].map(|x| x.shown())
    }
}

impl Shown for (Num, Num) {
    type Plain = (f32, f32);

    fn shown(&self) -> (f32, f32) {
        (self.0.shown(), self.1.shown())
    }
}

const TWO_PAGE_SPREAD: &[u8] = br#"<?xml version="1.0" encoding="UTF-8"?>
<idPkg:Spread xmlns:idPkg="http://ns.adobe.com/AdobeInDesign/idml/1.0/packaging">
  <Spread Self="spread1">
    <Page Self="p1" GeometricBounds="0 0 792 612"/>
    <Page Self="p2" GeometricBounds="0 612 792 1224"/>
    <TextFrame Self="frame1" ParentStory="u10"
               GeometricBounds="72 72 720 540"
               ItemTransform="1 0 0 1 0 0"/>
    <TextFrame Self="frame2" ParentStory="u20"
               GeometricBounds="100 700 300 1100"/>
  </Spread>
</idPkg:Spread>"#;

#[test]
fn parses_graphic_line_line_ends() {
    let xml = r#"<?xml version="1.0" encoding="UTF-8"?>
<idPkg:Spread xmlns:idPkg="http://ns.adobe.com/AdobeInDesign/idml/1.0/packaging">
  <Spread Self="spread1">
    <Page Self="p1" GeometricBounds="0 0 792 612"/>
    <GraphicLine Self="gl1" GeometricBounds="10 10 110 210" StrokeWeight="2"
                 LeftLineEnd="CircleSolidArrowHead" RightLineEnd="TriangleArrowHead"
                 LeftArrowHeadScale="150" RightArrowHeadScale="75"/>
    <GraphicLine Self="gl2" GeometricBounds="10 220 110 420"
                 RightLineEnd="NotARealHead"/>
    <GraphicLine Self="gl3" GeometricBounds="10 430 110 630"/>
  </Spread>
</idPkg:Spread>"#;
    let s = parse_spread(xml.as_bytes()).unwrap();
    assert_eq!(s.graphic_lines.len(), 3);
    let gl1 = &s.graphic_lines[0];
    assert_eq!(gl1.start_arrow, ArrowheadType::CircleSolid);
    assert_eq!(gl1.end_arrow, ArrowheadType::Triangle);
    assert!((gl1.start_arrow_scale.shown() - 150.0).abs() < 1e-3);
    assert!((gl1.end_arrow_scale.shown() - 75.0).abs() < 1e-3);
    assert_eq!(gl1.end_arrow.as_idml(), "TriangleArrowHead");
    assert_eq!(
        ArrowheadType::from_idml(gl1.start_arrow.as_idml()),
        gl1.start_arrow
    );
    let gl2 = &s.graphic_lines[1];
    assert_eq!(gl2.start_arrow, ArrowheadType::NoHead);
    assert_eq!(gl2.end_arrow, ArrowheadType::Other);
    let gl3 = &s.graphic_lines[2];
    assert_eq!(gl3.start_arrow, ArrowheadType::NoHead);
    assert_eq!(gl3.end_arrow, ArrowheadType::NoHead);
}

#[test]
fn arrowhead_vocabulary_round_trips() {
    for t in [
        ArrowheadType::NoHead,
        ArrowheadType::Simple,
        ArrowheadType::SimpleWide,
        ArrowheadType::Triangle,
        ArrowheadType::TriangleWide,
        ArrowheadType::Barbed,
        ArrowheadType::Curved,
        ArrowheadType::Circle,
        ArrowheadType::CircleSolid,
        ArrowheadType::Square,
        ArrowheadType::SquareSolid,
        ArrowheadType::Bar,
    ] {
        assert_eq!(ArrowheadType::from_idml(t.as_idml()), t, "{t:?}");
    }
    assert_eq!(ArrowheadType::Other.as_idml(), "");
}

#[test]
fn parses_ruler_guides() {
    let xml = r#"<?xml version="1.0" encoding="UTF-8" standalone="yes"?>
<idPkg:Spread xmlns:idPkg="http://ns.adobe.com/AdobeInDesign/idml/1.0/packaging">
  <Spread Self="spread1">
    <Page Self="p1" GeometricBounds="0 0 792 612"/>
    <Guide Self="g1" Orientation="Vertical" Location="120.5" PageIndex="0"/>
    <Guide Self="g2" Orientation="Horizontal" Location="240" PageIndex="1"/>
    <Guide Self="g3" Orientation="Bogus" Location="50"/>
  </Spread>
</idPkg:Spread>"#;
    let s = parse_spread(xml.as_bytes()).unwrap();
    assert_eq!(s.guides.len(), 2, "bogus orientation should be dropped");
    assert!(matches!(
        s.guides[0].orientation,
        GuideOrientation::Vertical
    ));
    assert!((s.guides[0].location.shown() - 120.5).abs() < 1e-3);
    assert_eq!(s.guides[0].page_index, 0);
    assert!(matches!(
        s.guides[1].orientation,
        GuideOrientation::Horizontal
    ));
    assert!((s.guides[1].location.shown() - 240.0).abs() < 1e-3);
    assert_eq!(s.guides[1].page_index, 1);
}

#[test]
fn parses_labels_into_the_side_map() {
    let xml = r#"<?xml version="1.0" encoding="UTF-8"?>
<idPkg:Spread xmlns:idPkg="http://ns.adobe.com/AdobeInDesign/idml/1.0/packaging">
  <Spread Self="spread1">
    <Page Self="p1" GeometricBounds="0 0 792 612"/>
    <Rectangle Self="u100" GeometricBounds="10 10 110 210" ItemTransform="1 0 0 1 0 0">
      <Properties>
        <Label>
          <KeyValuePair Key="x-paged:web" Value="{&quot;v&quot;:1,&quot;data&quot;:{}}"/>
          <KeyValuePair Key="vendor" Value="acme"/>
          <KeyValuePair Key="vendor" Value="acme2"/>
        </Label>
      </Properties>
    </Rectangle>
    <Rectangle Self="u200" GeometricBounds="10 220 110 420" ItemTransform="1 0 0 1 0 0"/>
  </Spread>
</idPkg:Spread>"#;
    let s = parse_spread(xml.as_bytes()).unwrap();
    let labels = s.labels.get("u100").expect("u100 labelled");
    assert_eq!(
        labels,
        &vec![
            (
                "x-paged:web".to_string(),
                "{\"v\":1,\"data\":{}}".to_string()
            ),
            ("vendor".to_string(), "acme2".to_string()),
        ]
    );
    assert!(!s.labels.contains_key("u200"));
}

#[test]
fn parses_pages_and_frames() {
    let s = parse_spread(TWO_PAGE_SPREAD).unwrap();
    assert_eq!(s.self_id.as_deref(), Some("spread1"));
    assert_eq!(s.pages.len(), 2);
    assert_eq!(s.pages[0].self_id.as_deref(), Some("p1"));
    assert_eq!(s.pages[0].bounds.width().shown(), 612.0);
    assert_eq!(s.pages[0].bounds.height().shown(), 792.0);

    assert_eq!(s.text_frames.len(), 2);
    assert_eq!(s.text_frames[0].self_id.as_deref(), Some("frame1"));
    assert_eq!(s.text_frames[0].parent_story.as_deref(), Some("u10"));
    assert_eq!(s.text_frames[0].bounds.width().shown(), 468.0);
    assert_eq!(s.text_frames[0].bounds.height().shown(), 648.0);
    assert_eq!(
        s.text_frames[0].item_transform.shown(),
        Some([1.0, 0.0, 0.0, 1.0, 0.0, 0.0])
    );
    assert_eq!(s.text_frames[1].item_transform, None);
}

#[test]
fn parses_show_master_items_flag() {
    let xml =
        br#"<idPkg:Spread xmlns:idPkg="http://ns.adobe.com/AdobeInDesign/idml/1.0/packaging">
          <Spread Self="s">
            <Page Self="p1" GeometricBounds="0 0 792 612" ShowMasterItems="false"/>
            <Page Self="p2" GeometricBounds="0 0 792 612" ShowMasterItems="true"/>
            <Page Self="p3" GeometricBounds="0 0 792 612"/>
          </Spread>
        </idPkg:Spread>"#;
    let s = parse_spread(xml).unwrap();
    assert_eq!(s.pages.len(), 3);
    assert_eq!(s.pages[0].show_master_items, Some(false));
    assert_eq!(s.pages[1].show_master_items, Some(true));
    assert_eq!(
        s.pages[2].show_master_items, None,
        "absent ⇒ stamp as usual"
    );
}

#[test]
fn lifts_frames_out_of_groups_with_composed_transform() {
    let xml =
        br#"<idPkg:Spread xmlns:idPkg="http://ns.adobe.com/AdobeInDesign/idml/1.0/packaging">
          <Spread Self="s">
            <TextFrame Self="top" ParentStory="u1" GeometricBounds="0 0 100 200"/>
            <Group ItemTransform="1 0 0 1 10 20">
              <Group ItemTransform="1 0 0 1 3 4">
                <TextFrame Self="inner" ParentStory="u2"
                           GeometricBounds="0 0 50 50"
                           ItemTransform="1 0 0 1 100 200"/>
              </Group>
            </Group>
            <TextFrame Self="after" ParentStory="u3" GeometricBounds="0 0 100 200"/>
          </Spread>
        </idPkg:Spread>"#;
    let s = parse_spread(xml).unwrap();
    assert_eq!(s.text_frames.len(), 3, "all frames lifted out of groups");
    assert_eq!(s.skipped_nested_frames, 0);
    assert_eq!(s.text_frames[0].self_id.as_deref(), Some("top"));
    assert_eq!(s.text_frames[1].self_id.as_deref(), Some("inner"));
    assert_eq!(s.text_frames[2].self_id.as_deref(), Some("after"));
    let m = s.text_frames[1].item_transform.expect("composed").shown();
    assert!((m[0] - 1.0).abs() < 1e-4 && (m[3] - 1.0).abs() < 1e-4);
    assert!(m[1].abs() < 1e-4 && m[2].abs() < 1e-4);
    assert!((m[4] - 113.0).abs() < 1e-4, "tx = {}", m[4]);
    assert!((m[5] - 224.0).abs() < 1e-4, "ty = {}", m[5]);
}

#[test]
fn parses_text_frame_preference_inset_and_first_baseline() {
    let xml =
        br#"<idPkg:Spread xmlns:idPkg="http://ns.adobe.com/AdobeInDesign/idml/1.0/packaging">
          <Spread Self="s">
            <TextFrame Self="frameA" ParentStory="u1" GeometricBounds="0 0 200 300">
              <Properties/>
              <TextFramePreference VerticalJustification="CenterAlign"
                                   FirstBaselineOffset="CapHeight"
                                   MinimumFirstBaselineOffset="14"
                                   InsetSpacing="6 8 10 12"/>
            </TextFrame>
          </Spread>
        </idPkg:Spread>"#;
    let s = parse_spread(xml).unwrap();
    let f = &s.text_frames[0];
    assert_eq!(
        f.vertical_justification,
        Some(VerticalJustification::Center)
    );
    assert_eq!(
        f.first_baseline_offset,
        Some(FirstBaselineOffset::CapHeight)
    );
    assert_eq!(f.minimum_first_baseline_offset.shown(), Some(14.0));
    assert_eq!(f.inset_spacing.shown(), Some([6.0, 8.0, 10.0, 12.0]));
}

#[test]
fn w03_parses_text_frame_columns() {
    let xml =
        br#"<idPkg:Spread xmlns:idPkg="http://ns.adobe.com/AdobeInDesign/idml/1.0/packaging">
          <Spread Self="s">
            <TextFrame Self="frameA" ParentStory="u1" GeometricBounds="0 0 200 300">
              <TextFramePreference TextColumnCount="3" TextColumnGutter="14"
                                   VerticalBalanceColumns="true"/>
            </TextFrame>
          </Spread>
        </idPkg:Spread>"#;
    let s = parse_spread(xml).unwrap();
    let f = &s.text_frames[0];
    assert_eq!(f.column_count, Some(3));
    assert_eq!(f.column_gutter.shown(), Some(14.0));
    assert_eq!(f.column_balance, Some(true));
}

#[test]
fn w03_parses_stroke_gap_wrap_invert_and_fitting() {
    let xml =
        br#"<idPkg:Spread xmlns:idPkg="http://ns.adobe.com/AdobeInDesign/idml/1.0/packaging">
          <Spread Self="s">
            <Rectangle Self="r" GeometricBounds="0 0 100 200"
                       StrokeType="StrokeStyle/$ID/Dashed"
                       GapColor="Color/Cyan" GapTint="60"
                       OverprintFill="true" OverprintStroke="true">
              <TextWrapPreference TextWrapMode="ContourTextWrap" Inverse="true">
                <TextWrapOffset Top="1" Left="2" Bottom="3" Right="4"/>
              </TextWrapPreference>
              <FrameFittingOption LeftCrop="-5" FittingOnEmptyFrame="FillProportionally"
                                  FittingAlignment="CenterPoint" AutoFit="true"/>
            </Rectangle>
          </Spread>
        </idPkg:Spread>"#;
    let s = parse_spread(xml).unwrap();
    let r = &s.rectangles[0];
    assert_eq!(r.stroke_gap_color.as_deref(), Some("Color/Cyan"));
    assert_eq!(r.stroke_gap_tint.shown(), Some(60.0));
    assert!(r.overprint_fill);
    assert!(r.overprint_stroke);
    let tw = r.text_wrap.expect("text wrap parsed");
    assert_eq!(tw.invert, Some(true));
    assert_eq!(tw.offsets.shown(), [1.0, 2.0, 3.0, 4.0]);
    let ff = r.frame_fitting.as_ref().expect("frame fitting parsed");
    assert_eq!(ff.reference_point.as_deref(), Some("CenterPoint"));
    assert_eq!(ff.auto_fit, Some(true));
}

#[test]
fn q16_parses_per_corner_options() {
    let xml =
        br#"<idPkg:Spread xmlns:idPkg="http://ns.adobe.com/AdobeInDesign/idml/1.0/packaging">
          <Spread Self="s">
            <Rectangle Self="r" GeometricBounds="0 0 100 200"
                       CornerOption="RoundedCorner" CornerRadius="0"
                       TopLeftCornerOption="None" TopLeftCornerRadius="0"
                       TopRightCornerOption="None" TopRightCornerRadius="0"
                       BottomRightCornerOption="None" BottomRightCornerRadius="0"
                       BottomLeftCornerOption="RoundedCorner" BottomLeftCornerRadius="19.84"/>
          </Spread>
        </idPkg:Spread>"#;
    let s = parse_spread(xml).unwrap();
    let r = &s.rectangles[0];
    assert_eq!(r.corners.top_left.option, Some(CornerOption::Plain));
    assert_eq!(r.corners.top_right.option, Some(CornerOption::Plain));
    assert_eq!(r.corners.bottom_right.option, Some(CornerOption::Plain));
    assert_eq!(r.corners.bottom_left.option, Some(CornerOption::Rounded));
    assert_eq!(r.corners.bottom_left.radius.shown(), Some(19.84));
    assert!(r.corners.bottom_left.option.unwrap().rounds());
}

#[test]
fn q03_parses_inline_image_contents_base64() {
    let xml =
        br#"<idPkg:Spread xmlns:idPkg="http://ns.adobe.com/AdobeInDesign/idml/1.0/packaging">
          <Spread Self="s">
            <Rectangle Self="r1" GeometricBounds="0 0 50 50">
              <Image>
                <Properties>
                  <Contents><![CDATA[SGVsbG8sIElETUwh]]></Contents>
                </Properties>
              </Image>
            </Rectangle>
            <Rectangle Self="r2" GeometricBounds="0 0 50 50">
              <Image LinkResourceURI="file:///link.jpg"/>
            </Rectangle>
          </Spread>
        </idPkg:Spread>"#;
    let s = parse_spread(xml).unwrap();
    assert_eq!(s.rectangles.len(), 2);
    let r1 = &s.rectangles[0];
    assert_eq!(
        r1.image_bytes.as_deref(),
        Some(b"Hello, IDML!" as &[u8]),
        "inline CDATA should base64-decode and stash on the rect");
    assert!(
        r1.has_image_element,
        "rect should still flag has_image_element"
    );
    let r2 = &s.rectangles[1];
    assert!(
        r2.image_bytes.is_none(),
        "link-only rect carries no inline bytes"
    );
    assert_eq!(r2.image_link.as_deref(), Some("file:///link.jpg"));
}

#[test]
fn q03_decodes_whitespace_padded_base64() {
    let xml =
        br#"<idPkg:Spread xmlns:idPkg="http://ns.adobe.com/AdobeInDesign/idml/1.0/packaging">
          <Spread Self="s">
            <Rectangle Self="r" GeometricBounds="0 0 1 1">
              <Image><Properties><Contents><![CDATA[
                SGVsbG8s
                IElETUwh
              ]]></Contents></Properties></Image>
            </Rectangle>
          </Spread>
        </idPkg:Spread>"#;
    let s = parse_spread(xml).unwrap();
    assert_eq!(
        s.rectangles[0].image_bytes.as_deref(),
        Some(b"Hello, IDML!" as &[u8]));
}

#[test]
fn q02_parses_text_frame_preference_auto_sizing() {
    let xml =
        br#"<idPkg:Spread xmlns:idPkg="http://ns.adobe.com/AdobeInDesign/idml/1.0/packaging">
          <Spread Self="s">
            <TextFrame Self="frameA" ParentStory="u1" GeometricBounds="0 0 50 30">
              <Properties/>
              <TextFramePreference AutoSizingType="WidthOnly"
                                   AutoSizingReferencePoint="TopLeftPoint"
                                   MinimumWidthForAutoSizing="40"
                                   MinimumHeightForAutoSizing="20"
                                   UseMinimumHeightForAutoSizing="true"/>
            </TextFrame>
            <TextFrame Self="frameB" ParentStory="u2" GeometricBounds="0 0 100 100">
              <Properties/>
              <TextFramePreference AutoSizingType="HeightAndWidth"/>
            </TextFrame>
            <TextFrame Self="frameC" ParentStory="u3" GeometricBounds="0 0 100 100">
              <Properties/>
              <TextFramePreference VerticalJustification="TopAlign"/>
            </TextFrame>
          </Spread>
        </idPkg:Spread>"#;
    let s = parse_spread(xml).unwrap();
    let a = &s.text_frames[0];
    assert_eq!(a.auto_sizing, Some(AutoSizingType::WidthOnly));
    assert!(a.auto_sizing.unwrap().grows_width());
    assert!(!a.auto_sizing.unwrap().grows_height());
    assert_eq!(
        a.auto_sizing_reference_point,
        Some(AutoSizingReferencePoint::TopLeftPoint)
    );
    assert_eq!(a.minimum_width_for_auto_sizing.shown(), Some(40.0));
    assert_eq!(a.minimum_height_for_auto_sizing.shown(), Some(20.0));
    assert_eq!(a.use_minimum_height_for_auto_sizing, Some(true));

    let b = &s.text_frames[1];
    assert_eq!(b.auto_sizing, Some(AutoSizingType::HeightAndWidth));
    assert!(b.auto_sizing.unwrap().grows_width());
    assert!(b.auto_sizing.unwrap().grows_height());

    let c = &s.text_frames[2];
    assert!(c.auto_sizing.is_none(), "frameC has no AutoSizingType");
}

#[test]
fn parses_applied_toc_style_on_text_frame() {
    let xml =
        br#"<idPkg:Spread xmlns:idPkg="http://ns.adobe.com/AdobeInDesign/idml/1.0/packaging">
          <Spread Self="s">
            <TextFrame Self="frameA" ParentStory="u1" GeometricBounds="0 0 100 200"
                       AppliedTOCStyle="TOCStyle/Main"/>
          </Spread>
        </idPkg:Spread>"#;
    let s = parse_spread(xml).unwrap();
    assert_eq!(
        s.text_frames[0].applied_toc_style.as_deref(),
        Some("TOCStyle/Main")
    );
}

#[test]
fn parses_next_text_frame_link() {
    let xml =
        br#"<idPkg:Spread xmlns:idPkg="http://ns.adobe.com/AdobeInDesign/idml/1.0/packaging">
          <Spread Self="s">
            <TextFrame Self="frameA" ParentStory="u1"
                       GeometricBounds="0 0 100 100"
                       NextTextFrame="frameB"/>
            <TextFrame Self="frameB" ParentStory="u1"
                       GeometricBounds="120 0 220 100"/>
          </Spread>
        </idPkg:Spread>"#;
    let s = parse_spread(xml).unwrap();
    assert_eq!(s.text_frames.len(), 2);
    assert_eq!(s.text_frames[0].next_text_frame.as_deref(), Some("frameB"));
    assert!(s.text_frames[1].next_text_frame.is_none());
}

#[test]
fn group_without_item_transform_passes_child_through() {
    let xml =
        br#"<idPkg:Spread xmlns:idPkg="http://ns.adobe.com/AdobeInDesign/idml/1.0/packaging">
          <Spread Self="s">
            <Group>
              <TextFrame Self="inner" ParentStory="u1" GeometricBounds="0 0 50 50"/>
            </Group>
          </Spread>
        </idPkg:Spread>"#;
    let s = parse_spread(xml).unwrap();
    assert_eq!(s.text_frames.len(), 1);
    assert!(
        s.text_frames[0].item_transform.is_none(),
        "no group transform + no own transform → None"
    );
}

#[test]
fn parses_rectangles_alongside_text_frames() {
    let xml =
        br#"<idPkg:Spread xmlns:idPkg="http://ns.adobe.com/AdobeInDesign/idml/1.0/packaging">
          <Spread Self="s">
            <TextFrame Self="t1" ParentStory="u1" GeometricBounds="0 0 100 200"/>
            <Rectangle Self="r1" GeometricBounds="10 10 90 190"
                       FillColor="Color/Blue" StrokeColor="Color/Black"
                       StrokeWeight="1.5"/>
            <Rectangle Self="r2" GeometricBounds="200 200 300 300"/>
          </Spread>
        </idPkg:Spread>"#;
    let s = parse_spread(xml).unwrap();
    assert_eq!(s.text_frames.len(), 1);
    assert_eq!(s.rectangles.len(), 2);
    assert_eq!(s.rectangles[0].self_id.as_deref(), Some("r1"));
    assert_eq!(s.rectangles[0].fill_color.as_deref(), Some("Color/Blue"));
    assert_eq!(s.rectangles[0].stroke_weight.shown(), Some(1.5));
    assert_eq!(s.rectangles[1].fill_color, None);
}

#[test]
fn parses_gradient_fill_and_stroke_angle_length() {
    let xml =
        br#"<idPkg:Spread xmlns:idPkg="http://ns.adobe.com/AdobeInDesign/idml/1.0/packaging">
          <Spread Self="s">
            <Rectangle Self="r1" GeometricBounds="0 0 100 200"
                       FillColor="Gradient/Sky" StrokeColor="Gradient/Sun"
                       GradientFillAngle="45" GradientFillLength="120"
                       GradientStrokeAngle="-30" GradientStrokeLength="80"/>
          </Spread>
        </idPkg:Spread>"#;
    let s = parse_spread(xml).unwrap();
    let r = &s.rectangles[0];
    assert_eq!(r.gradient_fill_angle.shown(), Some(45.0));
    assert_eq!(r.gradient_fill_length.shown(), Some(120.0));
    assert_eq!(r.gradient_stroke_angle.shown(), Some(-30.0));
    assert_eq!(r.gradient_stroke_length.shown(), Some(80.0));
}

#[test]
fn parses_drop_shadow_inside_text_frame_properties() {
    let xml =
        br#"<idPkg:Spread xmlns:idPkg="http://ns.adobe.com/AdobeInDesign/idml/1.0/packaging">
          <Spread Self="s">
            <TextFrame Self="frame1" ParentStory="u1" GeometricBounds="0 0 100 200">
              <Properties>
                <TransparencySetting>
                  <DropShadowSetting Mode="Drop" XOffset="3" YOffset="3" Size="6"
                                     Opacity="50" EffectColor="Color/Black"/>
                </TransparencySetting>
              </Properties>
            </TextFrame>
            <Rectangle Self="rect1" GeometricBounds="0 0 50 50"/>
          </Spread>
        </idPkg:Spread>"#;
    let s = parse_spread(xml).unwrap();
    assert_eq!(s.text_frames.len(), 1);
    let shadow = s.text_frames[0]
        .drop_shadow
        .as_ref()
        .expect("drop shadow parsed");
    assert_eq!(shadow.mode, "Drop");
    assert_eq!(shadow.x_offset.shown(), 3.0);
    assert_eq!(shadow.y_offset.shown(), 3.0);
    assert_eq!(shadow.size.shown(), 6.0);
    assert_eq!(shadow.opacity_pct.shown(), 50.0);
    assert_eq!(shadow.effect_color.as_deref(), Some("Color/Black"));
    assert_eq!(s.rectangles.len(), 1);
    assert!(s.rectangles[0].drop_shadow.is_none());
}

#[test]
fn drop_shadow_under_stroke_transparency_lands_in_stroke_field() {
    let xml =
        br#"<idPkg:Spread xmlns:idPkg="http://ns.adobe.com/AdobeInDesign/idml/1.0/packaging">
          <Spread Self="s">
            <TextFrame Self="frame1" ParentStory="u1" GeometricBounds="0 0 100 200">
              <Properties>
                <StrokeTransparencySetting>
                  <DropShadowSetting Mode="Drop" XOffset="3" YOffset="3" Size="6"
                                     Opacity="50" EffectColor="Color/Black"/>
                </StrokeTransparencySetting>
              </Properties>
            </TextFrame>
          </Spread>
        </idPkg:Spread>"#;
    let s = parse_spread(xml).unwrap();
    assert!(s.text_frames[0].drop_shadow.is_none());
    let shadow = s.text_frames[0]
        .stroke_drop_shadow
        .as_ref()
        .expect("stroke drop shadow parsed");
    assert_eq!(shadow.mode, "Drop");
    assert_eq!(shadow.x_offset.shown(), 3.0);
}

#[test]
fn drop_shadow_under_content_transparency_is_skipped() {
    let xml =
        br#"<idPkg:Spread xmlns:idPkg="http://ns.adobe.com/AdobeInDesign/idml/1.0/packaging">
          <Spread Self="s">
            <TextFrame Self="frame1" ParentStory="u1" GeometricBounds="0 0 100 200">
              <Properties>
                <ContentTransparencySetting>
                  <DropShadowSetting Mode="Drop" XOffset="3" YOffset="3" Size="6"
                                     Opacity="50" EffectColor="Color/Black"/>
                </ContentTransparencySetting>
              </Properties>
            </TextFrame>
          </Spread>
        </idPkg:Spread>"#;
    let s = parse_spread(xml).unwrap();
    assert!(s.text_frames[0].drop_shadow.is_none());
    assert!(s.text_frames[0].stroke_drop_shadow.is_none());
}

#[test]
fn drop_shadow_with_mode_none_is_skipped() {
    let xml =
        br#"<idPkg:Spread xmlns:idPkg="http://ns.adobe.com/AdobeInDesign/idml/1.0/packaging">
          <Spread Self="s">
            <TextFrame Self="f1" ParentStory="u1" GeometricBounds="0 0 100 200">
              <Properties>
                <TransparencySetting>
                  <DropShadowSetting Mode="None" XOffset="3" YOffset="3" Size="6"
                                     Opacity="50"/>
                </TransparencySetting>
              </Properties>
            </TextFrame>
          </Spread>
        </idPkg:Spread>"#;
    let s = parse_spread(xml).unwrap();
    assert!(s.text_frames[0].drop_shadow.is_none());
}

#[test]
fn ignores_malformed_bounds() {
    let xml =
        br#"<idPkg:Spread xmlns:idPkg="http://ns.adobe.com/AdobeInDesign/idml/1.0/packaging">
          <Spread Self="s">
            <Page Self="bad" GeometricBounds="0 0 bogus"/>
            <Page Self="good" GeometricBounds="0 0 100 200"/>
          </Spread>
        </idPkg:Spread>"#;
    let s = parse_spread(xml).unwrap();
    assert_eq!(s.pages.len(), 1);
    assert_eq!(s.pages[0].self_id.as_deref(), Some("good"));
}

#[test]
fn text_frame_bounds_come_from_path_geometry_when_attribute_absent() {
    let xml =
        br#"<idPkg:Spread xmlns:idPkg="http://ns.adobe.com/AdobeInDesign/idml/1.0/packaging">
          <Spread Self="s">
            <TextFrame Self="frameA" ParentStory="u1"
                       ItemTransform="1 0 0 1 0 0">
              <Properties>
                <PathGeometry>
                  <GeometryPathType PathOpen="false">
                    <PathPointArray>
                      <PathPointType Anchor="-100 -50"
                                     LeftDirection="-100 -50"
                                     RightDirection="-100 -50"/>
                      <PathPointType Anchor="-100  150"
                                     LeftDirection="-100  150"
                                     RightDirection="-100  150"/>
                      <PathPointType Anchor=" 200  150"
                                     LeftDirection=" 200  150"
                                     RightDirection=" 200  150"/>
                      <PathPointType Anchor=" 200 -50"
                                     LeftDirection=" 200 -50"
                                     RightDirection=" 200 -50"/>
                    </PathPointArray>
                  </GeometryPathType>
                </PathGeometry>
              </Properties>
            </TextFrame>
          </Spread>
        </idPkg:Spread>"#;
    let s = parse_spread(xml).unwrap();
    assert_eq!(s.text_frames.len(), 1, "frame must survive without GB");
    let f = &s.text_frames[0];
    assert_eq!(f.bounds.top.shown(), -50.0);
    assert_eq!(f.bounds.left.shown(), -100.0);
    assert_eq!(f.bounds.bottom.shown(), 150.0);
    assert_eq!(f.bounds.right.shown(), 200.0);
    assert_eq!(f.bounds.width().shown(), 300.0);
    assert_eq!(f.bounds.height().shown(), 200.0);
}

#[test]
fn rectangle_oval_and_graphic_line_also_derive_bounds_from_path() {
    let xml =
        br#"<idPkg:Spread xmlns:idPkg="http://ns.adobe.com/AdobeInDesign/idml/1.0/packaging">
          <Spread Self="s">
            <Rectangle Self="r1">
              <Properties>
                <PathGeometry><GeometryPathType><PathPointArray>
                  <PathPointType Anchor="0 0"/>
                  <PathPointType Anchor="40 60"/>
                </PathPointArray></GeometryPathType></PathGeometry>
              </Properties>
            </Rectangle>
            <Oval Self="o1">
              <Properties>
                <PathGeometry><GeometryPathType><PathPointArray>
                  <PathPointType Anchor="-5 -5"/>
                  <PathPointType Anchor="15 25"/>
                </PathPointArray></GeometryPathType></PathGeometry>
              </Properties>
            </Oval>
            <GraphicLine Self="l1">
              <Properties>
                <PathGeometry><GeometryPathType><PathPointArray>
                  <PathPointType Anchor="0 100"/>
                  <PathPointType Anchor="200 100"/>
                </PathPointArray></GeometryPathType></PathGeometry>
              </Properties>
            </GraphicLine>
          </Spread>
        </idPkg:Spread>"#;
    let s = parse_spread(xml).unwrap();
    assert_eq!(s.rectangles.len(), 1);
    assert_eq!(s.rectangles[0].bounds.width().shown(), 40.0);
    assert_eq!(s.rectangles[0].bounds.height().shown(), 60.0);
    assert_eq!(s.ovals.len(), 1);
    assert_eq!(s.ovals[0].bounds.width().shown(), 20.0);
    assert_eq!(s.ovals[0].bounds.height().shown(), 30.0);
    assert_eq!(s.graphic_lines.len(), 1);
    assert_eq!(s.graphic_lines[0].bounds.width().shown(), 200.0);
    assert_eq!(s.graphic_lines[0].bounds.height().shown(), 0.0);
}

#[test]
fn frame_with_neither_bounds_attribute_nor_path_is_dropped() {
    let xml =
        br#"<idPkg:Spread xmlns:idPkg="http://ns.adobe.com/AdobeInDesign/idml/1.0/packaging">
          <Spread Self="s">
            <TextFrame Self="lost" ParentStory="u1">
              <Properties/>
            </TextFrame>
            <TextFrame Self="kept" ParentStory="u2" GeometricBounds="0 0 50 50"/>
          </Spread>
        </idPkg:Spread>"#;
    let s = parse_spread(xml).unwrap();
    assert_eq!(s.text_frames.len(), 1);
    assert_eq!(s.text_frames[0].self_id.as_deref(), Some("kept"));
}

#[test]
fn page_carries_item_transform_for_multi_page_spreads() {
    let xml =
        br#"<idPkg:Spread xmlns:idPkg="http://ns.adobe.com/AdobeInDesign/idml/1.0/packaging">
          <Spread Self="s">
            <Page Self="left"
                  GeometricBounds="0 0 792 612"
                  ItemTransform="1 0 0 1 -612 -396"/>
            <Page Self="right"
                  GeometricBounds="0 0 792 612"
                  ItemTransform="1 0 0 1 0 -396"/>
            <Page Self="legacy" GeometricBounds="0 0 792 612"/>
          </Spread>
        </idPkg:Spread>"#;
    let s = parse_spread(xml).unwrap();
    assert_eq!(s.pages.len(), 3);
    assert_eq!(
        s.pages[0].item_transform.shown(),
        Some([1.0, 0.0, 0.0, 1.0, -612.0, -396.0]),
        "left page's ItemTransform translates by (-612, -396)");
    assert_eq!(
        s.pages[1].item_transform.shown(),
        Some([1.0, 0.0, 0.0, 1.0, 0.0, -396.0]),
        "right page's ItemTransform translates by (0, -396)");
    assert_eq!(
        s.pages[2].item_transform, None,
        "legacy page without the attribute reads as identity");
}

#[test]
fn geometric_bounds_attribute_wins_over_path_geometry_when_both_present() {
    let xml =
        br#"<idPkg:Spread xmlns:idPkg="http://ns.adobe.com/AdobeInDesign/idml/1.0/packaging">
          <Spread Self="s">
            <TextFrame Self="frame" ParentStory="u1"
                       GeometricBounds="0 0 100 200">
              <Properties>
                <PathGeometry><GeometryPathType><PathPointArray>
                  <PathPointType Anchor="999 999"/>
                </PathPointArray></GeometryPathType></PathGeometry>
              </Properties>
            </TextFrame>
          </Spread>
        </idPkg:Spread>"#;
    let s = parse_spread(xml).unwrap();
    assert_eq!(s.text_frames[0].bounds.right.shown(), 200.0);
    assert_eq!(s.text_frames[0].bounds.bottom.shown(), 100.0);
}

#[test]
fn polygon_text_path_attaches_to_parent_polygon() {
    let xml =
        br#"<idPkg:Spread xmlns:idPkg="http://ns.adobe.com/AdobeInDesign/idml/1.0/packaging">
          <Spread Self="s">
            <Polygon Self="poly1">
              <Properties>
                <PathGeometry><GeometryPathType><PathPointArray>
                  <PathPointType Anchor="0 0"/>
                  <PathPointType Anchor="100 0"/>
                </PathPointArray></GeometryPathType></PathGeometry>
              </Properties>
              <TextPath Self="tp1" ParentStory="story_u1"
                        PathAlignment="CenterPathAlignment"
                        PathTypeAlignment="CenterPathType"
                        PathEffect="RainbowPathEffect"
                        FlipPathEffect="NotFlipped"
                        StartBracket="0" EndBracket="100"/>
            </Polygon>
          </Spread>
        </idPkg:Spread>"#;
    let s = parse_spread(xml).unwrap();
    assert_eq!(s.polygons.len(), 1);
    assert_eq!(s.polygons[0].text_paths.len(), 1);
    let tp = &s.polygons[0].text_paths[0];
    assert_eq!(tp.parent_story, "story_u1");
    assert_eq!(tp.self_id.as_deref(), Some("tp1"));
    assert_eq!(tp.path_alignment.as_deref(), Some("CenterPathAlignment"));
    assert_eq!(tp.path_type_alignment.as_deref(), Some("CenterPathType"));
    assert_eq!(tp.path_effect.as_deref(), Some("RainbowPathEffect"));
    assert_eq!(tp.start_bracket.shown(), Some(0.0));
    assert_eq!(tp.end_bracket.shown(), Some(100.0));
}

#[test]
fn polygon_hosts_image_link_and_item_transform() {
    let xml =
        br#"<idPkg:Spread xmlns:idPkg="http://ns.adobe.com/AdobeInDesign/idml/1.0/packaging">
          <Spread Self="s">
            <Polygon Self="poly1" GeometricBounds="0 0 100 100">
              <Properties/>
              <Image Self="img1" ItemTransform="0.5 0 0 0.5 10 20">
                <Link Self="link1" LinkResourceURI="file:///tmp/photo.jpg"/>
              </Image>
            </Polygon>
            <Polygon Self="poly2" GeometricBounds="0 0 50 50"/>
          </Spread>
        </idPkg:Spread>"#;
    let s = parse_spread(xml).unwrap();
    assert_eq!(s.polygons.len(), 2);
    let p = &s.polygons[0];
    assert_eq!(p.image_link.as_deref(), Some("file:///tmp/photo.jpg"));
    assert_eq!(
        p.image_item_transform.shown(),
        Some([0.5, 0.0, 0.0, 0.5, 10.0, 20.0])
    );
    assert!(s.polygons[1].image_link.is_none());
    assert!(s.polygons[1].image_item_transform.is_none());
    assert_eq!(s.rectangles.len(), 0);
}

#[test]
fn group_records_members_and_transparency_block() {
    let xml =
        br#"<idPkg:Spread xmlns:idPkg="http://ns.adobe.com/AdobeInDesign/idml/1.0/packaging">
          <Spread Self="s">
            <Group Self="grp1" ItemTransform="1 0 0 1 5 7">
              <Properties>
                <TransparencySetting>
                  <BlendingSetting Opacity="60" BlendMode="Multiply"/>
                  <DropShadowSetting Mode="Drop" XOffset="2" YOffset="3" Size="5"
                                     Opacity="80" EffectColor="Color/Black"/>
                </TransparencySetting>
              </Properties>
              <Rectangle Self="r1" GeometricBounds="0 0 50 50"/>
              <Rectangle Self="r2" GeometricBounds="0 60 50 110"/>
            </Group>
            <Rectangle Self="r3" GeometricBounds="100 0 150 50"/>
          </Spread>
        </idPkg:Spread>"#;
    let s = parse_spread(xml).unwrap();
    assert_eq!(s.rectangles.len(), 3);
    assert_eq!(s.groups.len(), 1);
    let g = &s.groups[0];
    assert_eq!(g.self_id.as_deref(), Some("grp1"));
    assert_eq!(g.item_transform.shown(), Some([1.0, 0.0, 0.0, 1.0, 5.0, 7.0]));
    assert_eq!(g.transparency.blend_mode.as_deref(), Some("Multiply"));
    assert_eq!(g.transparency.opacity.shown(), Some(60.0));
    let shadow = g
        .transparency
        .drop_shadow
        .as_ref()
        .expect("drop shadow on group");
    assert_eq!(shadow.mode, "Drop");
    assert_eq!(shadow.x_offset.shown(), 2.0);
    assert_eq!(shadow.opacity_pct.shown(), 80.0);
    assert_eq!(
        g.members,
        vec![FrameRef::Rectangle(0), FrameRef::Rectangle(1)]
    );
    assert_eq!(
        s.frames_in_order,
        vec![FrameRef::Group(0), FrameRef::Rectangle(2)]
    );
}

#[test]
fn nested_groups_register_subgroup_members() {
    let xml =
        br#"<idPkg:Spread xmlns:idPkg="http://ns.adobe.com/AdobeInDesign/idml/1.0/packaging">
          <Spread Self="s">
            <Group Self="outer">
              <TextFrame Self="t1" ParentStory="u1" GeometricBounds="0 0 10 10"/>
              <Group Self="inner">
                <Polygon Self="p1" GeometricBounds="0 0 5 5"/>
                <Polygon Self="p2" GeometricBounds="0 0 6 6"/>
              </Group>
            </Group>
          </Spread>
        </idPkg:Spread>"#;
    let s = parse_spread(xml).unwrap();
    assert_eq!(s.groups.len(), 2);
    let inner = &s.groups[0];
    assert_eq!(inner.self_id.as_deref(), Some("inner"));
    assert_eq!(
        inner.members,
        vec![FrameRef::Polygon(0), FrameRef::Polygon(1)]
    );
    let outer = &s.groups[1];
    assert_eq!(outer.self_id.as_deref(), Some("outer"));
    assert_eq!(
        outer.members,
        vec![FrameRef::TextFrame(0), FrameRef::Group(0)]
    );
    assert!(outer.transparency.blend_mode.is_none());
    assert!(outer.transparency.opacity.is_none());
    assert!(outer.transparency.drop_shadow.is_none());
    assert_eq!(s.frames_in_order, vec![FrameRef::Group(1)]);
}

#[test]
fn group_blending_setting_does_not_leak_into_inner_frame() {
    let xml =
        br#"<idPkg:Spread xmlns:idPkg="http://ns.adobe.com/AdobeInDesign/idml/1.0/packaging">
          <Spread Self="s">
            <Group Self="grp">
              <Properties>
                <TransparencySetting>
                  <BlendingSetting Opacity="40" BlendMode="Screen"/>
                </TransparencySetting>
              </Properties>
              <Rectangle Self="r1" GeometricBounds="0 0 50 50"/>
            </Group>
          </Spread>
        </idPkg:Spread>"#;
    let s = parse_spread(xml).unwrap();
    assert!(s.rectangles[0].opacity.is_none());
    assert!(s.rectangles[0].blend_mode.is_none());
    assert_eq!(s.groups.len(), 1);
    assert_eq!(s.groups[0].transparency.opacity.shown(), Some(40.0));
    assert_eq!(
        s.groups[0].transparency.blend_mode.as_deref(),
        Some("Screen")
    );
}

#[test]
fn polygon_image_link_falls_through_to_outer_image_attribute() {
    let xml =
        br#"<idPkg:Spread xmlns:idPkg="http://ns.adobe.com/AdobeInDesign/idml/1.0/packaging">
          <Spread Self="s">
            <Polygon Self="poly1" GeometricBounds="0 0 100 100">
              <Image Self="img1" LinkResourceURI="file:///tmp/cat.png"
                     ItemTransform="1 0 0 1 0 0"/>
            </Polygon>
          </Spread>
        </idPkg:Spread>"#;
    let s = parse_spread(xml).unwrap();
    assert_eq!(
        s.polygons[0].image_link.as_deref(),
        Some("file:///tmp/cat.png")
    );
    assert_eq!(
        s.polygons[0].image_item_transform.shown(),
        Some([1.0, 0.0, 0.0, 1.0, 0.0, 0.0])
    );
}

#[test]
fn parses_directional_feather_setting() {
    let xml =
        br#"<idPkg:Spread xmlns:idPkg="http://ns.adobe.com/AdobeInDesign/idml/1.0/packaging">
          <Spread Self="s">
            <Rectangle Self="r1" GeometricBounds="0 0 100 100">
              <Properties>
                <TransparencySetting>
                  <DirectionalFeatherSetting Applied="true"
                    LeftWidth="2" RightWidth="3" TopWidth="4" BottomWidth="5"
                    Angle="90" NoiseAmount="10" ChokeAmount="20"
                    CornerType="Rounded"/>
                </TransparencySetting>
              </Properties>
            </Rectangle>
          </Spread>
        </idPkg:Spread>"#;
    let s = parse_spread(xml).unwrap();
    let bag = s.rectangles[0].effects.as_ref().expect("effects bag");
    let dir = bag
        .directional_feather
        .as_ref()
        .expect("directional feather parsed");
    assert_eq!(dir.left_width.shown(), Some(2.0));
    assert_eq!(dir.right_width.shown(), Some(3.0));
    assert_eq!(dir.top_width.shown(), Some(4.0));
    assert_eq!(dir.bottom_width.shown(), Some(5.0));
    assert_eq!(dir.angle_deg.shown(), Some(90.0));
    assert_eq!(dir.noise_pct.shown(), Some(10.0));
    assert_eq!(dir.choke_pct.shown(), Some(20.0));
    assert_eq!(dir.corner_type.as_deref(), Some("Rounded"));
}

#[test]
fn directional_feather_disabled_when_applied_false() {
    let xml =
        br#"<idPkg:Spread xmlns:idPkg="http://ns.adobe.com/AdobeInDesign/idml/1.0/packaging">
          <Spread Self="s">
            <Rectangle Self="r1" GeometricBounds="0 0 100 100">
              <Properties>
                <TransparencySetting>
                  <DirectionalFeatherSetting Applied="false"
                    LeftWidth="2" RightWidth="3" TopWidth="4" BottomWidth="5"/>
                </TransparencySetting>
              </Properties>
            </Rectangle>
          </Spread>
        </idPkg:Spread>"#;
    let s = parse_spread(xml).unwrap();
    let dir_present = s.rectangles[0]
        .effects
        .as_ref()
        .and_then(|e| e.directional_feather.as_ref())
        .is_some();
    assert!(
        !dir_present,
        "Applied=false should leave directional_feather=None"
    );
}

#[test]
fn parses_gradient_feather_setting_with_stops() {
    let xml =
        br#"<idPkg:Spread xmlns:idPkg="http://ns.adobe.com/AdobeInDesign/idml/1.0/packaging">
          <Spread Self="s">
            <Rectangle Self="r1" GeometricBounds="0 0 100 100">
              <Properties>
                <TransparencySetting>
                  <GradientFeatherSetting Applied="true" Type="Linear"
                                          GradientAngle="45">
                    <GradientStop StopColor="Color/Black" Location="0"
                                  Alpha="100" GradientStopMidpoint="50"/>
                    <GradientStop StopColor="Color/Black" Location="100"
                                  Alpha="0" GradientStopMidpoint="50"/>
                  </GradientFeatherSetting>
                </TransparencySetting>
              </Properties>
            </Rectangle>
          </Spread>
        </idPkg:Spread>"#;
    let s = parse_spread(xml).unwrap();
    let bag = s.rectangles[0].effects.as_ref().expect("effects bag");
    let gf = bag
        .gradient_feather
        .as_ref()
        .expect("gradient feather parsed");
    assert_eq!(gf.gradient_type.as_deref(), Some("Linear"));
    assert_eq!(gf.angle_deg.shown(), Some(45.0));
    assert_eq!(gf.stops.len(), 2);
    assert_eq!(gf.stops[0].location_pct.shown(), 0.0);
    assert_eq!(gf.stops[0].alpha_pct.shown(), 100.0);
    assert_eq!(gf.stops[0].stop_color.as_deref(), Some("Color/Black"));
    assert_eq!(gf.stops[1].location_pct.shown(), 100.0);
    assert_eq!(gf.stops[1].alpha_pct.shown(), 0.0);
}

#[test]
fn polygon_compound_path_records_subpath_starts() {
    let xml =
        br#"<idPkg:Spread xmlns:idPkg="http://ns.adobe.com/AdobeInDesign/idml/1.0/packaging">
              <Spread Self="s">
                <Polygon Self="p1" FillColor="Color/Black">
                  <Properties>
                    <PathGeometry>
                      <GeometryPathType PathOpen="false">
                        <PathPointArray>
                          <PathPointType Anchor="0 0"/>
                          <PathPointType Anchor="200 0"/>
                          <PathPointType Anchor="200 200"/>
                          <PathPointType Anchor="0 200"/>
                        </PathPointArray>
                      </GeometryPathType>
                      <GeometryPathType PathOpen="false">
                        <PathPointArray>
                          <PathPointType Anchor="60 60"/>
                          <PathPointType Anchor="60 140"/>
                          <PathPointType Anchor="140 140"/>
                          <PathPointType Anchor="140 60"/>
                        </PathPointArray>
                      </GeometryPathType>
                    </PathGeometry>
                  </Properties>
                </Polygon>
              </Spread>
            </idPkg:Spread>"#;
    let s = parse_spread(xml).unwrap();
    assert_eq!(s.polygons.len(), 1);
    let p = &s.polygons[0];
    assert_eq!(p.anchors.len(), 8, "both contours' anchors are stored");
    assert_eq!(
        p.subpath_starts,
        vec![0, 4],
        "compound path → two contour starts at indices 0 and 4"
    );
}

#[test]
fn polygon_path_open_lifts_to_subpath_open_flag() {
    let xml =
        br#"<idPkg:Spread xmlns:idPkg="http://ns.adobe.com/AdobeInDesign/idml/1.0/packaging">
              <Spread Self="s">
                <Polygon Self="p1" FillColor="Color/Black">
                  <Properties>
                    <PathGeometry>
                      <GeometryPathType PathOpen="true">
                        <PathPointArray>
                          <PathPointType Anchor="0 0"/>
                          <PathPointType Anchor="100 0"/>
                          <PathPointType Anchor="50 50"/>
                        </PathPointArray>
                      </GeometryPathType>
                    </PathGeometry>
                  </Properties>
                </Polygon>
              </Spread>
            </idPkg:Spread>"#;
    let s = parse_spread(xml).unwrap();
    assert_eq!(s.polygons.len(), 1);
    assert_eq!(s.polygons[0].subpath_open, vec![true]);
}

#[test]
fn polygon_compound_path_open_records_per_contour_flags() {
    let xml =
        br#"<idPkg:Spread xmlns:idPkg="http://ns.adobe.com/AdobeInDesign/idml/1.0/packaging">
              <Spread Self="s">
                <Polygon Self="p1" FillColor="Color/Black">
                  <Properties>
                    <PathGeometry>
                      <GeometryPathType PathOpen="true">
                        <PathPointArray>
                          <PathPointType Anchor="0 0"/>
                          <PathPointType Anchor="40 40"/>
                        </PathPointArray>
                      </GeometryPathType>
                      <GeometryPathType PathOpen="false">
                        <PathPointArray>
                          <PathPointType Anchor="100 0"/>
                          <PathPointType Anchor="200 0"/>
                          <PathPointType Anchor="200 100"/>
                        </PathPointArray>
                      </GeometryPathType>
                    </PathGeometry>
                  </Properties>
                </Polygon>
              </Spread>
            </idPkg:Spread>"#;
    let s = parse_spread(xml).unwrap();
    assert_eq!(s.polygons.len(), 1);
    assert_eq!(s.polygons[0].subpath_starts, vec![0, 2]);
    assert_eq!(s.polygons[0].subpath_open, vec![true, false]);
}

#[test]
fn polygon_single_contour_leaves_subpath_starts_empty() {
    let xml =
        br#"<idPkg:Spread xmlns:idPkg="http://ns.adobe.com/AdobeInDesign/idml/1.0/packaging">
              <Spread Self="s">
                <Polygon Self="p1" FillColor="Color/Black">
                  <Properties>
                    <PathGeometry>
                      <GeometryPathType PathOpen="false">
                        <PathPointArray>
                          <PathPointType Anchor="0 0"/>
                          <PathPointType Anchor="100 0"/>
                          <PathPointType Anchor="100 100"/>
                          <PathPointType Anchor="0 100"/>
                        </PathPointArray>
                      </GeometryPathType>
                    </PathGeometry>
                  </Properties>
                </Polygon>
              </Spread>
            </idPkg:Spread>"#;
    let s = parse_spread(xml).unwrap();
    assert_eq!(s.polygons.len(), 1);
    assert!(
        s.polygons[0].subpath_starts.is_empty(),
        "single contour → no markers (legacy path stays hot)"
    );
}

#[test]
fn overprint_attributes_round_trip_through_every_shape() {
    let xml = br#"<?xml version="1.0" encoding="UTF-8" standalone="yes"?>
            <idPkg:Spread xmlns:idPkg="http://ns.adobe.com/AdobeInDesign/idml/1.0/packaging">
              <Spread Self="s1">
                <Rectangle Self="r1"
                           GeometricBounds="0 0 10 10"
                           FillColor="Color/Black"
                           StrokeColor="Color/None"
                           OverprintFill="true"
                           OverprintStroke="true"/>
                <Rectangle Self="r2"
                           GeometricBounds="0 0 10 10"
                           FillColor="Color/Cyan"/>
                <Oval Self="o1"
                      GeometricBounds="0 0 10 10"
                      FillColor="Color/Black"
                      OverprintFill="true"/>
                <TextFrame Self="t1"
                           ParentStory="u10"
                           GeometricBounds="0 0 10 10"
                           OverprintFill="true"/>
                <Polygon Self="p1"
                         GeometricBounds="0 0 10 10"
                         FillColor="Color/Black"
                         OverprintFill="true"
                         OverprintStroke="false">
                  <Properties>
                    <PathGeometry>
                      <GeometryPathType>
                        <PathPointArray>
                          <PathPointType Anchor="0 0"/>
                          <PathPointType Anchor="10 0"/>
                          <PathPointType Anchor="10 10"/>
                          <PathPointType Anchor="0 10"/>
                        </PathPointArray>
                      </GeometryPathType>
                    </PathGeometry>
                  </Properties>
                </Polygon>
                <GraphicLine Self="l1"
                             GeometricBounds="0 0 10 10"
                             StrokeColor="Color/Black"
                             OverprintStroke="true"/>
              </Spread>
            </idPkg:Spread>"#;
    let s = parse_spread(xml).unwrap();
    assert!(s.rectangles[0].overprint_fill);
    assert!(s.rectangles[0].overprint_stroke);
    assert!(!s.rectangles[1].overprint_fill);
    assert!(!s.rectangles[1].overprint_stroke);
    assert!(s.ovals[0].overprint_fill);
    assert!(!s.ovals[0].overprint_stroke);
    assert!(s.text_frames[0].overprint_fill);
    assert!(s.polygons[0].overprint_fill);
    assert!(!s.polygons[0].overprint_stroke);
    assert!(s.graphic_lines[0].overprint_stroke);
}

#[test]
fn parses_placed_image_colorspace_and_ppi() {
    let xml =
        br#"<idPkg:Spread xmlns:idPkg="http://ns.adobe.com/AdobeInDesign/idml/1.0/packaging">
          <Spread Self="s">
            <Rectangle Self="r1" GeometricBounds="0 0 100 100">
              <Image Self="img1" Space="$ID/CMYK"
                     ActualPpi="(300 300)" EffectivePpi="(225 225)"
                     LinkResourceURI="file:///photo.tif"/>
            </Rectangle>
            <Rectangle Self="r2" GeometricBounds="0 0 50 50" FillColor="Color/Red"/>
          </Spread>
        </idPkg:Spread>"#;
    let s = parse_spread(xml).unwrap();
    let meta = s.image_metadata.get("r1").expect("metadata for r1");
    assert_eq!(meta.space.as_deref(), Some("CMYK"), "$ID/ prefix stripped");
    assert!((meta.actual_ppi.unwrap().shown() - 300.0).abs() < 1e-3);
    assert!((meta.effective_ppi.unwrap().shown() - 225.0).abs() < 1e-3);
    assert!(!s.image_metadata.contains_key("r2"));
}

#[test]
fn parses_page_margins_and_columns() {
    let xml =
        br#"<idPkg:Spread xmlns:idPkg="http://ns.adobe.com/AdobeInDesign/idml/1.0/packaging">
          <Spread Self="s">
            <Page Self="p1" GeometricBounds="0 0 792 612">
              <MarginPreference Top="36" Bottom="48" Left="54" Right="54"
                                ColumnCount="3" ColumnGutter="12"/>
            </Page>
            <Page Self="p2" GeometricBounds="0 0 792 612"/>
          </Spread>
        </idPkg:Spread>"#;
    let s = parse_spread(xml).unwrap();
    let m = s.page_margins.get("p1").expect("margins for p1");
    assert!((m.top.shown() - 36.0).abs() < 1e-3);
    assert!((m.bottom.shown() - 48.0).abs() < 1e-3);
    assert!((m.left.shown() - 54.0).abs() < 1e-3);
    assert!((m.right.shown() - 54.0).abs() < 1e-3);
    assert_eq!(m.column_count, 3);
    assert!((m.column_gutter.shown() - 12.0).abs() < 1e-3);
    assert!(!s.page_margins.contains_key("p2"));
}


#[test]
fn parses_user_modified_clipping_path_geometry() {
    let xml =
        br#"<idPkg:Spread xmlns:idPkg="http://ns.adobe.com/AdobeInDesign/idml/1.0/packaging">
          <Spread Self="s">
            <Rectangle Self="r1" GeometricBounds="0 0 100 100">
              <Image Self="img1" ItemTransform="1 0 0 1 0 0" LinkResourceURI="file:p.png">
                <Properties>
                  <PathGeometry><GeometryPathType PathOpen="false"><PathPointArray>
                    <PathPointType Anchor="0 0"/>
                    <PathPointType Anchor="100 0"/>
                    <PathPointType Anchor="100 100"/>
                    <PathPointType Anchor="0 100"/>
                  </PathPointArray></GeometryPathType></PathGeometry>
                </Properties>
                <ClippingPathSettings ClippingType="UserModifiedPath" InvertPath="false"
                                      IncludeInsideEdges="false">
                  <PathGeometry><GeometryPathType PathOpen="false"><PathPointArray>
                    <PathPointType Anchor="10 10"/>
                    <PathPointType Anchor="90 10"/>
                    <PathPointType Anchor="50 90"/>
                  </PathPointArray></GeometryPathType></PathGeometry>
                </ClippingPathSettings>
                <Link LinkResourceURI="file:p.png"/>
              </Image>
            </Rectangle>
          </Spread>
        </idPkg:Spread>"#;
    let s = parse_spread(xml).unwrap();
    let clip = s.rectangles[0]
        .image_clip
        .as_ref()
        .expect("clipping path settings parsed");
    assert_eq!(clip.clipping_type, Some(ClippingType::UserModifiedPath));
    assert!(!clip.invert_path);
    assert!(!clip.include_inside_edges);
    assert_eq!(clip.clip_anchors.len(), 3);
    assert_eq!(clip.clip_anchors[0].anchor.shown(), (10.0, 10.0));
    assert_eq!(clip.clip_anchors[2].anchor.shown(), (50.0, 90.0));
    assert!(clip.has_renderable_geometry());
    assert!(!clip.is_deferred_clip());
    assert!(
        s.rectangles[0].anchors.is_empty(),
        "image PathGeometry must not pollute the frame outline"
    );
}

#[test]
fn parses_compound_clipping_path_subpath_starts() {
    let xml =
        br#"<idPkg:Spread xmlns:idPkg="http://ns.adobe.com/AdobeInDesign/idml/1.0/packaging">
          <Spread Self="s">
            <Rectangle Self="r1" GeometricBounds="0 0 100 100">
              <Image Self="img1" ItemTransform="1 0 0 1 0 0" LinkResourceURI="file:p.png">
                <ClippingPathSettings ClippingType="UserModifiedPath" InvertPath="false"
                                      IncludeInsideEdges="true">
                  <PathGeometry>
                    <GeometryPathType PathOpen="false"><PathPointArray>
                      <PathPointType Anchor="0 0"/>
                      <PathPointType Anchor="100 0"/>
                      <PathPointType Anchor="100 100"/>
                      <PathPointType Anchor="0 100"/>
                    </PathPointArray></GeometryPathType>
                    <GeometryPathType PathOpen="false"><PathPointArray>
                      <PathPointType Anchor="40 40"/>
                      <PathPointType Anchor="60 40"/>
                      <PathPointType Anchor="60 60"/>
                      <PathPointType Anchor="40 60"/>
                    </PathPointArray></GeometryPathType>
                  </PathGeometry>
                </ClippingPathSettings>
                <Link LinkResourceURI="file:p.png"/>
              </Image>
            </Rectangle>
          </Spread>
        </idPkg:Spread>"#;
    let s = parse_spread(xml).unwrap();
    let clip = s.rectangles[0].image_clip.as_ref().expect("clip parsed");
    assert!(clip.include_inside_edges);
    assert_eq!(clip.clip_anchors.len(), 8);
    assert_eq!(clip.clip_subpath_starts, vec![0, 4]);
    assert_eq!(clip.clip_subpath_open, vec![false, false]);
    assert!(clip.has_renderable_geometry());
}

#[test]
fn parses_invert_clipping_path_flag() {
    let xml =
        br#"<idPkg:Spread xmlns:idPkg="http://ns.adobe.com/AdobeInDesign/idml/1.0/packaging">
          <Spread Self="s">
            <Rectangle Self="r1" GeometricBounds="0 0 100 100">
              <Image Self="img1" ItemTransform="1 0 0 1 0 0" LinkResourceURI="file:p.png">
                <ClippingPathSettings ClippingType="UserModifiedPath" InvertPath="true"
                                      IncludeInsideEdges="false">
                  <PathGeometry><GeometryPathType PathOpen="false"><PathPointArray>
                    <PathPointType Anchor="20 20"/>
                    <PathPointType Anchor="80 20"/>
                    <PathPointType Anchor="80 80"/>
                    <PathPointType Anchor="20 80"/>
                  </PathPointArray></GeometryPathType></PathGeometry>
                </ClippingPathSettings>
              </Image>
            </Rectangle>
          </Spread>
        </idPkg:Spread>"#;
    let s = parse_spread(xml).unwrap();
    let clip = s.rectangles[0].image_clip.as_ref().expect("clip parsed");
    assert!(clip.invert_path);
    assert!(clip.has_renderable_geometry());
}

#[test]
fn parses_photoshop_clipping_path_as_deferred() {
    let xml =
        br#"<idPkg:Spread xmlns:idPkg="http://ns.adobe.com/AdobeInDesign/idml/1.0/packaging">
          <Spread Self="s">
            <Rectangle Self="r1" GeometricBounds="0 0 100 100">
              <Image Self="img1" ItemTransform="1 0 0 1 0 0" LinkResourceURI="file:p.png">
                <ClippingPathSettings ClippingType="PhotoshopPath" InvertPath="false"
                                      IncludeInsideEdges="false" AppliedPathName="Path 1"
                                      Threshold="25" Tolerance="2"/>
                <Link LinkResourceURI="file:p.png"/>
              </Image>
            </Rectangle>
          </Spread>
        </idPkg:Spread>"#;
    let s = parse_spread(xml).unwrap();
    let clip = s.rectangles[0].image_clip.as_ref().expect("clip parsed");
    assert_eq!(clip.clipping_type, Some(ClippingType::PhotoshopPath));
    assert!(clip.clip_anchors.is_empty());
    assert!(clip.is_deferred_clip());
    assert!(!clip.has_renderable_geometry());
    assert_eq!(clip.applied_path_name.as_deref(), Some("Path 1"));
    assert_eq!(clip.threshold.shown(), Some(25.0));
    assert_eq!(clip.tolerance.shown(), Some(2.0));
}

#[test]
fn clipping_type_none_is_not_deferred() {
    let xml =
        br#"<idPkg:Spread xmlns:idPkg="http://ns.adobe.com/AdobeInDesign/idml/1.0/packaging">
          <Spread Self="s">
            <Rectangle Self="r1" GeometricBounds="0 0 100 100">
              <Image Self="img1" ItemTransform="1 0 0 1 0 0" LinkResourceURI="file:p.png">
                <ClippingPathSettings ClippingType="None" InvertPath="false"
                                      IncludeInsideEdges="false"/>
                <Link LinkResourceURI="file:p.png"/>
              </Image>
            </Rectangle>
          </Spread>
        </idPkg:Spread>"#;
    let s = parse_spread(xml).unwrap();
    let clip = s.rectangles[0].image_clip.as_ref().expect("clip parsed");
    assert_eq!(clip.clipping_type, Some(ClippingType::NoClip));
    assert!(!clip.is_deferred_clip());
    assert!(!clip.has_renderable_geometry());
}

#[test]
fn image_path_geometry_does_not_pollute_polygon_outline() {
    let xml =
        br#"<idPkg:Spread xmlns:idPkg="http://ns.adobe.com/AdobeInDesign/idml/1.0/packaging">
          <Spread Self="s">
            <Polygon Self="poly1">
              <Properties>
                <PathGeometry><GeometryPathType PathOpen="false"><PathPointArray>
                  <PathPointType Anchor="0 0"/>
                  <PathPointType Anchor="50 0"/>
                  <PathPointType Anchor="25 50"/>
                </PathPointArray></GeometryPathType></PathGeometry>
              </Properties>
              <Image Self="img1" ItemTransform="1 0 0 1 0 0" LinkResourceURI="file:p.png">
                <Properties>
                  <PathGeometry><GeometryPathType PathOpen="false"><PathPointArray>
                    <PathPointType Anchor="0 0"/>
                    <PathPointType Anchor="100 0"/>
                    <PathPointType Anchor="100 100"/>
                    <PathPointType Anchor="0 100"/>
                  </PathPointArray></GeometryPathType></PathGeometry>
                </Properties>
                <Link LinkResourceURI="file:p.png"/>
              </Image>
            </Polygon>
          </Spread>
        </idPkg:Spread>"#;
    let s = parse_spread(xml).unwrap();
    assert_eq!(
        s.polygons[0].anchors.len(),
        3,
        "image box must not be absorbed into the polygon outline"
    );
}

#[test]
fn parses_text_wrap_contour_option() {
    let xml =
        br#"<idPkg:Spread xmlns:idPkg="http://ns.adobe.com/AdobeInDesign/idml/1.0/packaging">
          <Spread Self="s">
            <Rectangle Self="rect1" GeometricBounds="0 0 100 200">
              <TextWrapPreference TextWrapMode="ContourTextWrap" Inverse="false">
                <ContourOption ContourType="DetectEdges" IncludeInsideEdges="true"/>
              </TextWrapPreference>
            </Rectangle>
          </Spread>
        </idPkg:Spread>"#;
    let s = parse_spread(xml).unwrap();
    let tw = s.rectangles[0].text_wrap.expect("text_wrap parsed");
    assert_eq!(tw.mode, TextWrapMode::ContourTextWrap);
    assert_eq!(tw.contour_type, Some(ContourOptionType::DetectEdges));
    assert_eq!(tw.include_inside_edges, Some(true));
}

#[test]
fn parses_element_visible_locked() {
    let xml =
        br#"<idPkg:Spread xmlns:idPkg="http://ns.adobe.com/AdobeInDesign/idml/1.0/packaging">
          <Spread Self="s">
            <Rectangle Self="hidden" Visible="false" Locked="true"/>
            <Rectangle Self="default"/>
          </Spread>
        </idPkg:Spread>"#;
    let s = parse_spread(xml).unwrap();
    let hidden = s
        .rectangles
        .iter()
        .find(|r| r.self_id.as_deref() == Some("hidden"))
        .unwrap();
    assert!(!hidden.visible);
    assert!(hidden.locked);
    let default = s
        .rectangles
        .iter()
        .find(|r| r.self_id.as_deref() == Some("default"))
        .unwrap();
    assert!(default.visible, "absent Visible ⇒ visible");
    assert!(!default.locked, "absent Locked ⇒ unlocked");
}
