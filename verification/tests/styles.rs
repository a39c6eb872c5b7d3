//! The styles of a package.
use idml_import::{parse_stylesheet, Num, StripeDef, StrokeStyleKind};

/// A value of the library as an ordinary one.
trait Shown {
    type Plain;

    fn shown(&self) -> Self::Plain;
}

impl Shown for Num {
    type Plain = f32;

    fn shown(&self) -> f32 {
        f32::from_bits(self.bits)
    }
}

impl<T: Shown> Shown for Option<T> {
    type Plain = Option<T::Plain>;

    fn shown(&self) -> Option<T::Plain> {
        self.as_ref().map(|x| x.shown())
    }
}

impl<T: Shown> Shown for Vec<T> {
    type Plain = Vec<T::Plain>;

    fn shown(&self) -> Vec<T::Plain> {
        self.iter().map(|x| x.shown()).collect()
    }
}

fn num(x: f32) -> Num {
    Num { bits: x.to_bits() }
}

const SAMPLE: &[u8] = br#"<?xml version="1.0" encoding="UTF-8"?>
<idPkg:Styles xmlns:idPkg="http://ns.adobe.com/AdobeInDesign/idml/1.0/packaging">
  <RootCharacterStyleGroup>
    <CharacterStyle Self="CharacterStyle/Base"
                    Name="Base"
                    AppliedFont="Body Font"
                    PointSize="11"
                    FillColor="Color/Black"/>
    <CharacterStyle Self="CharacterStyle/Bold"
                    Name="Bold"
                    BasedOn="CharacterStyle/Base"
                    FontStyle="Bold"/>
  </RootCharacterStyleGroup>
  <RootParagraphStyleGroup>
    <ParagraphStyle Self="ParagraphStyle/Body"
                    Name="Body"
                    AppliedFont="Body Font"
                    PointSize="11"
                    Justification="LeftAlign"
                    SpaceAfter="6"/>
    <ParagraphStyle Self="ParagraphStyle/Heading"
                    Name="Heading"
                    BasedOn="ParagraphStyle/Body"
                    PointSize="22"
                    FontStyle="Bold"/>
  </RootParagraphStyleGroup>
</idPkg:Styles>"#;

#[test]
fn parses_styles_table() {
    let s = parse_stylesheet(SAMPLE).unwrap();
    assert_eq!(s.character_styles.len(), 2);
    assert_eq!(s.paragraph_styles.len(), 2);
    let bold = s.character_styles.get("CharacterStyle/Bold").unwrap();
    assert_eq!(bold.based_on.as_deref(), Some("CharacterStyle/Base"));
    assert_eq!(bold.font_style.as_deref(), Some("Bold"));
}

#[test]
fn q09_parses_paragraph_shading_attrs() {
    let xml =
        br#"<idPkg:Styles xmlns:idPkg="http://ns.adobe.com/AdobeInDesign/idml/1.0/packaging">
          <RootParagraphStyleGroup>
            <ParagraphStyle Self="ParagraphStyle/Banner"
                            ParagraphShadingOn="true"
                            ParagraphShadingColor="Color/Brand"
                            ParagraphShadingTint="20"
                            ParagraphShadingWidth="ColumnWidth"
                            ParagraphShadingTopOffset="2"
                            ParagraphShadingBottomOffset="2"
                            ParagraphShadingLeftOffset="6"
                            ParagraphShadingRightOffset="6"
                            ParagraphShadingTopOrigin="AscentTopOrigin"
                            ParagraphShadingClipToFrame="false"/>
          </RootParagraphStyleGroup>
        </idPkg:Styles>"#;
    let s = parse_stylesheet(xml).unwrap();
    let p = s.paragraph_styles.get("ParagraphStyle/Banner").unwrap();
    let sh = &p.shading;
    assert_eq!(sh.on, Some(true));
    assert_eq!(sh.color.as_deref(), Some("Color/Brand"));
    assert_eq!(sh.tint.shown(), Some(20.0));
    assert_eq!(sh.width.as_deref(), Some("ColumnWidth"));
    assert_eq!(sh.offset_top.shown(), Some(2.0));
    assert_eq!(sh.offset_bottom.shown(), Some(2.0));
    assert_eq!(sh.offset_left.shown(), Some(6.0));
    assert_eq!(sh.offset_right.shown(), Some(6.0));
    assert_eq!(sh.top_origin.as_deref(), Some("AscentTopOrigin"));
    assert_eq!(sh.clip_to_frame, Some(false));
}

#[test]
fn q09_parses_paragraph_border_attrs() {
    let xml =
        br#"<idPkg:Styles xmlns:idPkg="http://ns.adobe.com/AdobeInDesign/idml/1.0/packaging">
          <RootParagraphStyleGroup>
            <ParagraphStyle Self="ParagraphStyle/Boxed"
                            ParagraphBorderOn="true"
                            ParagraphBorderColor="Color/Brand"
                            ParagraphBorderTint="40"
                            ParagraphBorderWeight="1"
                            ParagraphBorderTopOffset="2"
                            ParagraphBorderBottomOffset="3"
                            ParagraphBorderLeftOffset="4"
                            ParagraphBorderRightOffset="5"
                            ParagraphBorderWidth="ColumnWidth"/>
          </RootParagraphStyleGroup>
        </idPkg:Styles>"#;
    let s = parse_stylesheet(xml).unwrap();
    let p = s.paragraph_styles.get("ParagraphStyle/Boxed").unwrap();
    let b = &p.border;
    assert_eq!(b.on, Some(true));
    assert_eq!(b.color.as_deref(), Some("Color/Brand"));
    assert_eq!(b.tint.shown(), Some(40.0));
    assert_eq!(b.weight.shown(), Some(1.0));
    assert_eq!(b.offset_top.shown(), Some(2.0));
    assert_eq!(b.offset_bottom.shown(), Some(3.0));
    assert_eq!(b.offset_left.shown(), Some(4.0));
    assert_eq!(b.offset_right.shown(), Some(5.0));
    assert_eq!(b.width.as_deref(), Some("ColumnWidth"));
}

#[test]
fn q09_paragraph_border_per_corner_attrs_round_trip() {
    let xml =
        br#"<idPkg:Styles xmlns:idPkg="http://ns.adobe.com/AdobeInDesign/idml/1.0/packaging">
          <RootParagraphStyleGroup>
            <ParagraphStyle Self="ParagraphStyle/Boxed"
                            ParagraphBorderOn="true"
                            ParagraphBorderTopLeftCornerOption="RoundedCorner"
                            ParagraphBorderTopLeftCornerRadius="6"
                            ParagraphBorderTopRightCornerOption="RoundedCorner"
                            ParagraphBorderTopRightCornerRadius="7"
                            ParagraphBorderBottomRightCornerOption="None"
                            ParagraphBorderBottomRightCornerRadius="0"
                            ParagraphBorderBottomLeftCornerOption="RoundedCorner"
                            ParagraphBorderBottomLeftCornerRadius="9"/>
          </RootParagraphStyleGroup>
        </idPkg:Styles>"#;
    let s = parse_stylesheet(xml).unwrap();
    let p = s.paragraph_styles.get("ParagraphStyle/Boxed").unwrap();
    let c = &p.border.corners;
    assert_eq!(c.top_left.radius.shown(), Some(6.0));
    assert_eq!(c.top_left.option, Some(idml_import::CornerOption::Rounded));
    assert_eq!(c.top_right.radius.shown(), Some(7.0));
    assert_eq!(c.bottom_right.radius.shown(), Some(0.0));
    assert_eq!(c.bottom_right.option, Some(idml_import::CornerOption::Plain));
    assert_eq!(c.bottom_left.radius.shown(), Some(9.0));
    assert_eq!(c.bottom_left.option, Some(idml_import::CornerOption::Rounded));
}

#[test]
fn q20_parses_letter_glyph_spacing_attrs() {
    let xml =
        br#"<idPkg:Styles xmlns:idPkg="http://ns.adobe.com/AdobeInDesign/idml/1.0/packaging">
          <RootParagraphStyleGroup>
            <ParagraphStyle Self="ParagraphStyle/Tight"
                            MinimumLetterSpacing="-5"
                            DesiredLetterSpacing="0"
                            MaximumLetterSpacing="10"
                            MinimumGlyphScaling="95"
                            DesiredGlyphScaling="100"
                            MaximumGlyphScaling="105"/>
          </RootParagraphStyleGroup>
        </idPkg:Styles>"#;
    let s = parse_stylesheet(xml).unwrap();
    let p = s.paragraph_styles.get("ParagraphStyle/Tight").unwrap();
    assert_eq!(p.minimum_letter_spacing.shown(), Some(-5.0));
    assert_eq!(p.desired_letter_spacing.shown(), Some(0.0));
    assert_eq!(p.maximum_letter_spacing.shown(), Some(10.0));
    assert_eq!(p.minimum_glyph_scaling.shown(), Some(95.0));
    assert_eq!(p.desired_glyph_scaling.shown(), Some(100.0));
    assert_eq!(p.maximum_glyph_scaling.shown(), Some(105.0));
}

#[test]
fn parses_bullets_on_paragraph_style() {
    let xml =
        br#"<idPkg:Styles xmlns:idPkg="http://ns.adobe.com/AdobeInDesign/idml/1.0/packaging">
          <RootParagraphStyleGroup>
            <ParagraphStyle Self="ParagraphStyle/Bulleted"
                            BulletsAndNumberingListType="BulletList"
                            BulletsTextAfter=" ">
              <Properties>
                <BulletChar BulletCharacterValue="8226"/>
              </Properties>
            </ParagraphStyle>
          </RootParagraphStyleGroup>
        </idPkg:Styles>"#;
    let s = parse_stylesheet(xml).unwrap();
    let p = s.paragraph_styles.get("ParagraphStyle/Bulleted").unwrap();
    assert_eq!(p.bullets_list_type.as_deref(), Some("BulletList"));
    assert_eq!(p.bullet_character, Some(8226));
    assert_eq!(p.bullets_text_after.as_deref(), Some(" "));
}

#[test]
fn parses_bullets_character_style_attrs() {
    let xml =
        br#"<idPkg:Styles xmlns:idPkg="http://ns.adobe.com/AdobeInDesign/idml/1.0/packaging">
          <RootParagraphStyleGroup>
            <ParagraphStyle Self="ParagraphStyle/Bulleted"
                            BulletsAndNumberingListType="BulletList"
                            BulletsCharacterStyle="CharacterStyle/RedDot"/>
            <ParagraphStyle Self="ParagraphStyle/Numbered"
                            BulletsAndNumberingListType="NumberedList"
                            BulletsAndNumberingDigitsCharacterStyle="CharacterStyle/BlueDigit"/>
          </RootParagraphStyleGroup>
        </idPkg:Styles>"#;
    let s = parse_stylesheet(xml).unwrap();
    let b = s.paragraph_styles.get("ParagraphStyle/Bulleted").unwrap();
    assert_eq!(
        b.bullets_character_style.as_deref(),
        Some("CharacterStyle/RedDot")
    );
    assert!(b.bullets_and_numbering_digits_character_style.is_none());
    let n = s.paragraph_styles.get("ParagraphStyle/Numbered").unwrap();
    assert_eq!(
        n.bullets_and_numbering_digits_character_style.as_deref(),
        Some("CharacterStyle/BlueDigit")
    );
    assert!(n.bullets_character_style.is_none());
}

#[test]
fn parses_numbering_expression_start_at_and_continue_attrs() {
    let xml =
        br#"<idPkg:Styles xmlns:idPkg="http://ns.adobe.com/AdobeInDesign/idml/1.0/packaging">
          <RootParagraphStyleGroup>
            <ParagraphStyle Self="ParagraphStyle/Numbered"
                            BulletsAndNumberingListType="NumberedList"
                            NumberingExpression="Step ^# of 5^t"
                            NumberingStartAt="5"
                            NumberingContinue="false"/>
          </RootParagraphStyleGroup>
        </idPkg:Styles>"#;
    let s = parse_stylesheet(xml).unwrap();
    let p = s.paragraph_styles.get("ParagraphStyle/Numbered").unwrap();
    assert_eq!(p.numbering_expression.as_deref(), Some("Step ^# of 5^t"));
    assert_eq!(p.numbering_start_at, Some(5));
    assert_eq!(p.numbering_continue, Some(false));
}

#[test]
fn parses_numbering_expression_as_property_element() {
    let xml =
        br#"<idPkg:Styles xmlns:idPkg="http://ns.adobe.com/AdobeInDesign/idml/1.0/packaging">
          <RootParagraphStyleGroup>
            <ParagraphStyle Self="ParagraphStyle/Numbered"
                            BulletsAndNumberingListType="NumberedList">
              <Properties>
                <NumberingExpression type="string">^#)^t</NumberingExpression>
              </Properties>
            </ParagraphStyle>
          </RootParagraphStyleGroup>
        </idPkg:Styles>"#;
    let s = parse_stylesheet(xml).unwrap();
    let p = s.paragraph_styles.get("ParagraphStyle/Numbered").unwrap();
    assert_eq!(p.numbering_expression.as_deref(), Some("^#)^t"));
}

#[test]
fn parses_applied_font_and_based_on_as_property_elements() {
    let xml =
        br#"<idPkg:Styles xmlns:idPkg="http://ns.adobe.com/AdobeInDesign/idml/1.0/packaging">
          <RootParagraphStyleGroup>
            <ParagraphStyle Self="ParagraphStyle/Body" Name="Body"
                            FontStyle="Italic" PointSize="8"
                            FillColor="Color/Red">
              <Properties>
                <BasedOn type="string">$ID/[No paragraph style]</BasedOn>
                <Leading type="unit">12</Leading>
                <AppliedFont type="string">Open Sans</AppliedFont>
              </Properties>
            </ParagraphStyle>
          </RootParagraphStyleGroup>
          <RootCharacterStyleGroup>
            <CharacterStyle Self="CharacterStyle/Emph" Name="Emph">
              <Properties>
                <BasedOn type="string">CharacterStyle/Base</BasedOn>
                <AppliedFont type="string">Minion Pro</AppliedFont>
              </Properties>
            </CharacterStyle>
          </RootCharacterStyleGroup>
        </idPkg:Styles>"#;
    let s = parse_stylesheet(xml).unwrap();
    let p = s.paragraph_styles.get("ParagraphStyle/Body").unwrap();
    assert_eq!(p.font.as_deref(), Some("Open Sans"));
    assert_eq!(p.based_on.as_deref(), Some("$ID/[No paragraph style]"));
    let c = s.character_styles.get("CharacterStyle/Emph").unwrap();
    assert_eq!(c.font.as_deref(), Some("Minion Pro"));
    assert_eq!(c.based_on.as_deref(), Some("CharacterStyle/Base"));
}

#[test]
fn parses_toc_style_with_entries() {
    let xml =
        br#"<idPkg:Styles xmlns:idPkg="http://ns.adobe.com/AdobeInDesign/idml/1.0/packaging">
          <RootParagraphStyleGroup>
            <ParagraphStyle Self="ParagraphStyle/TocTitle" Name="TocTitle"/>
            <ParagraphStyle Self="ParagraphStyle/Heading1" Name="Heading1"/>
            <ParagraphStyle Self="ParagraphStyle/Heading2" Name="Heading2"/>
            <ParagraphStyle Self="ParagraphStyle/TocFormat1" Name="TocFormat1"/>
            <ParagraphStyle Self="ParagraphStyle/TocFormat2" Name="TocFormat2"/>
          </RootParagraphStyleGroup>
          <TOCStyle Self="TOCStyle/Main" Name="Main" Title="Contents"
                    TitleStyle="ParagraphStyle/TocTitle"
                    IncludeBookDocuments="false"
                    IncludeHidden="false"
                    RunIn="false">
            <TOCStyleEntry Name="Heading1"
                           IncludeStyle="ParagraphStyle/Heading1"
                           FormatStyle="ParagraphStyle/TocFormat1"
                           Level="1"
                           PageNumber="On"
                           Separator="^t"/>
            <TOCStyleEntry Name="Heading2"
                           IncludeStyle="ParagraphStyle/Heading2"
                           FormatStyle="ParagraphStyle/TocFormat2"
                           Level="2"
                           PageNumber="On"
                           Separator=" -- "/>
          </TOCStyle>
        </idPkg:Styles>"#;
    let s = parse_stylesheet(xml).unwrap();
    let toc = s.toc_styles.get("TOCStyle/Main").unwrap();
    assert_eq!(toc.title.as_deref(), Some("Contents"));
    assert_eq!(toc.title_style.as_deref(), Some("ParagraphStyle/TocTitle"));
    assert_eq!(toc.include_book_documents, Some(false));
    assert_eq!(toc.include_hidden, Some(false));
    assert_eq!(toc.run_in, Some(false));
    assert_eq!(toc.entries.len(), 2);
    let e1 = &toc.entries[0];
    assert_eq!(e1.include_style.as_deref(), Some("ParagraphStyle/Heading1"));
    assert_eq!(
        e1.format_style.as_deref(),
        Some("ParagraphStyle/TocFormat1")
    );
    assert_eq!(e1.level, Some(1));
    assert_eq!(e1.page_number.as_deref(), Some("On"));
    assert_eq!(e1.separator.as_deref(), Some("^t"));
    let e2 = &toc.entries[1];
    assert_eq!(e2.level, Some(2));
    assert_eq!(e2.separator.as_deref(), Some(" -- "));
}

#[test]
fn parses_self_closing_empty_toc_style() {
    let xml =
        br#"<idPkg:Styles xmlns:idPkg="http://ns.adobe.com/AdobeInDesign/idml/1.0/packaging">
          <TOCStyle Self="TOCStyle/$ID/DefaultTOCStyleName"
                    Name="$ID/DefaultTOCStyleName"
                    Title="Contents"
                    TitleStyle="ParagraphStyle/$ID/[No paragraph style]"
                    RunIn="false"
                    IncludeHidden="false"
                    IncludeBookDocuments="false"/>
        </idPkg:Styles>"#;
    let s = parse_stylesheet(xml).unwrap();
    let toc = s
        .toc_styles
        .get("TOCStyle/$ID/DefaultTOCStyleName")
        .unwrap();
    assert_eq!(toc.title.as_deref(), Some("Contents"));
    assert!(toc.entries.is_empty());
}


#[test]
fn paragraph_style_captures_kinsoku_and_mojikumi_attributes() {
    let xml =
        br#"<idPkg:Styles xmlns:idPkg="http://ns.adobe.com/AdobeInDesign/idml/1.0/packaging">
          <RootParagraphStyleGroup>
            <ParagraphStyle Self="ParagraphStyle/Japanese"
                            KinsokuSet="KinsokuTable/$ID/PhotoshopKinsokuHard"
                            KinsokuType="PushOut"
                            MojikumiTable="MojikumiTable/$ID/PhotoshopMojikumiSet4"
                            MojikumiSet="MojikumiSet/$ID/OldSet"/>
          </RootParagraphStyleGroup>
        </idPkg:Styles>"#;
    let s = parse_stylesheet(xml).unwrap();
    let p = s.paragraph_styles.get("ParagraphStyle/Japanese").unwrap();
    assert_eq!(
        p.kinsoku_set.as_deref(),
        Some("KinsokuTable/$ID/PhotoshopKinsokuHard")
    );
    assert_eq!(p.kinsoku_type.as_deref(), Some("PushOut"));
    assert_eq!(
        p.mojikumi_table.as_deref(),
        Some("MojikumiTable/$ID/PhotoshopMojikumiSet4")
    );
    assert_eq!(p.mojikumi_set.as_deref(), Some("MojikumiSet/$ID/OldSet"));
}

#[test]
fn character_style_captures_ruby_and_kenten_attributes() {
    let xml =
        br#"<idPkg:Styles xmlns:idPkg="http://ns.adobe.com/AdobeInDesign/idml/1.0/packaging">
          <RootCharacterStyleGroup>
            <CharacterStyle Self="CharacterStyle/RubyBase"
                            RubyFlag="true"
                            RubyType="GroupRuby"
                            RubyString="furigana"
                            KentenKind="BlackCircle"
                            KentenFontSize="50"/>
          </RootCharacterStyleGroup>
        </idPkg:Styles>"#;
    let s = parse_stylesheet(xml).unwrap();
    let c = s.character_styles.get("CharacterStyle/RubyBase").unwrap();
    assert_eq!(c.ruby_flag, Some(true));
    assert_eq!(c.ruby_type.as_deref(), Some("GroupRuby"));
    assert_eq!(c.ruby_string.as_deref(), Some("furigana"));
    assert_eq!(c.kenten_kind.as_deref(), Some("BlackCircle"));
    assert_eq!(c.kenten_font_size.shown(), Some(50.0));
}

#[test]
fn dashed_stroke_style_parses_pattern_into_floats() {
    let xml =
        br#"<idPkg:Styles xmlns:idPkg="http://ns.adobe.com/AdobeInDesign/idml/1.0/packaging">
            <DashedStrokeStyle Self="StrokeStyle/u163" Name="Diag"
                               StartCap="ButtEndCap" CornerAdjustment="None"
                               GapColor="Swatch/None" GapTint="100"
                               Pattern="3.5 2 1 4"/>
            <DottedStrokeStyle Self="StrokeStyle/u164" Name="Tight"
                               GapColor="Swatch/None" GapTint="100"/>
          </idPkg:Styles>"#;
    let s = parse_stylesheet(xml).unwrap();
    let dash = s.stroke_styles.get("StrokeStyle/u163").unwrap();
    assert_eq!(dash.kind, StrokeStyleKind::Dashed);
    assert_eq!(dash.name.as_deref(), Some("Diag"));
    assert_eq!(dash.pattern.shown(), vec![3.5, 2.0, 1.0, 4.0]);
    assert_eq!(dash.gap_color, None);
    let dot = s.stroke_styles.get("StrokeStyle/u164").unwrap();
    assert_eq!(dot.kind, StrokeStyleKind::Dotted);
    assert!(dot.pattern.is_empty());
}

#[test]
fn table_style_parses_alternating_row_and_column_fills() {
    let xml =
        br#"<idPkg:Styles xmlns:idPkg="http://ns.adobe.com/AdobeInDesign/idml/1.0/packaging">
            <RootTableStyleGroup>
              <TableStyle Self="TableStyle/Alt" Name="Alt"
                          AlternatingFills="AlternatingRows"
                          StartRowFillColor="Color/Cyan" StartRowFillCount="2"
                          StartRowFillTint="40"
                          EndRowFillColor="Color/Gray" EndRowFillCount="1"
                          EndRowFillTint="100"
                          SkipFirstAlternatingFillRows="1"
                          SkipLastAlternatingFillRows="2"
                          StartColumnFillColor="Color/Blue" StartColumnFillCount="3"
                          StartColumnFillTint="55"
                          EndColumnFillColor="Color/None" EndColumnFillCount="1"
                          SkipFirstAlternatingFillColumns="0"
                          SkipLastAlternatingFillColumns="1"/>
            </RootTableStyleGroup>
          </idPkg:Styles>"#;
    let s = parse_stylesheet(xml).unwrap();
    let t = s.table_styles.get("TableStyle/Alt").unwrap();
    assert_eq!(t.alternating_fills.as_deref(), Some("AlternatingRows"));
    assert_eq!(t.start_row_fill_color.as_deref(), Some("Color/Cyan"));
    assert_eq!(t.start_row_fill_count, Some(2));
    assert_eq!(t.start_row_fill_tint.shown(), Some(40.0));
    assert_eq!(t.end_row_fill_color.as_deref(), Some("Color/Gray"));
    assert_eq!(t.end_row_fill_count, Some(1));
    assert_eq!(t.end_row_fill_tint.shown(), Some(100.0));
    assert_eq!(t.skip_first_alternating_fill_rows, Some(1));
    assert_eq!(t.skip_last_alternating_fill_rows, Some(2));
    assert_eq!(t.start_column_fill_color.as_deref(), Some("Color/Blue"));
    assert_eq!(t.start_column_fill_count, Some(3));
    assert_eq!(t.start_column_fill_tint.shown(), Some(55.0));
    assert_eq!(t.end_column_fill_count, Some(1));
    assert_eq!(t.skip_last_alternating_fill_columns, Some(1));
}

#[test]
fn dashed_stroke_style_keeps_real_gap_color() {
    let xml =
        br#"<idPkg:Styles xmlns:idPkg="http://ns.adobe.com/AdobeInDesign/idml/1.0/packaging">
            <DashedStrokeStyle Self="StrokeStyle/u165" Name="GapDash"
                               GapColor="Color/Cyan" GapTint="60"
                               Pattern="6 4"/>
          </idPkg:Styles>"#;
    let s = parse_stylesheet(xml).unwrap();
    let dash = s.stroke_styles.get("StrokeStyle/u165").unwrap();
    assert_eq!(dash.gap_color.as_deref(), Some("Color/Cyan"));
    assert_eq!(dash.gap_tint.shown(), Some(60.0));
}


#[test]
fn striped_stroke_style_parses_stripe_children() {
    let xml =
        br#"<idPkg:Styles xmlns:idPkg="http://ns.adobe.com/AdobeInDesign/idml/1.0/packaging">
            <StripedStrokeStyle Self="StrokeStyle/u200" Name="ThickThin">
              <Stripe Left="0" Width="0.6"/>
              <Stripe Left="0.8" Width="0.2"/>
            </StripedStrokeStyle>
          </idPkg:Styles>"#;
    let s = parse_stylesheet(xml).unwrap();
    let striped = s.stroke_styles.get("StrokeStyle/u200").unwrap();
    assert_eq!(striped.kind, StrokeStyleKind::Striped);
    assert_eq!(striped.name.as_deref(), Some("ThickThin"));
    assert_eq!(striped.stripes.len(), 2);
    assert_eq!(
        striped.stripes[0],
        StripeDef {
            left: num(0.0),
            width: num(0.6)
        }
    );
    assert_eq!(
        striped.stripes[1],
        StripeDef {
            left: num(0.8),
            width: num(0.2)
        }
    );
}

#[test]
fn wavy_stroke_style_parses_width_and_wavelength() {
    let xml =
        br#"<idPkg:Styles xmlns:idPkg="http://ns.adobe.com/AdobeInDesign/idml/1.0/packaging">
            <WavyStrokeStyle Self="StrokeStyle/u201" Name="Wave"
                             Width="0.5" Wavelength="1.5"/>
          </idPkg:Styles>"#;
    let s = parse_stylesheet(xml).unwrap();
    let wavy = s.stroke_styles.get("StrokeStyle/u201").unwrap();
    assert_eq!(wavy.kind, StrokeStyleKind::Wavy);
    assert_eq!(wavy.wave_width.shown(), Some(0.5));
    assert_eq!(wavy.wave_length.shown(), Some(1.5));
    assert!(wavy.stripes.is_empty());
}


#[test]
fn parses_numbering_list_resources() {
    let xml = br#"<?xml version="1.0" encoding="UTF-8"?>
<idPkg:Styles xmlns:idPkg="http://ns.adobe.com/AdobeInDesign/idml/1.0/packaging">
  <RootNumberingListGroup>
    <NumberingList Self="NumberingList/Steps"
                   Name="Steps"
                   ContinueNumbersAcrossStories="true"
                   ContinueNumbersAcrossDocuments="false"/>
  </RootNumberingListGroup>
  <NumberingList Self="NumberingList/Local"
                 Name="Local"
                 ContinueNumbersAcrossStories="false"/>
</idPkg:Styles>"#;
    let s = parse_stylesheet(xml).unwrap();
    assert_eq!(s.numbering_lists.len(), 2);
    let steps = s.numbering_lists.get("NumberingList/Steps").unwrap();
    assert_eq!(steps.name.as_deref(), Some("Steps"));
    assert_eq!(steps.continue_across_stories, Some(true));
    assert_eq!(steps.continue_across_documents, Some(false));
    let local = s.numbering_lists.get("NumberingList/Local").unwrap();
    assert_eq!(local.continue_across_stories, Some(false));
}

#[test]
fn parses_applied_numbering_list_and_next_style_on_paragraph_style() {
    let xml = br#"<?xml version="1.0" encoding="UTF-8"?>
<idPkg:Styles xmlns:idPkg="http://ns.adobe.com/AdobeInDesign/idml/1.0/packaging">
  <RootParagraphStyleGroup>
    <ParagraphStyle Self="ParagraphStyle/Step"
                    Name="Step"
                    AppliedNumberingList="NumberingList/Steps"
                    NextStyle="ParagraphStyle/Body"/>
    <ParagraphStyle Self="ParagraphStyle/NoneList"
                    Name="NoneList"
                    AppliedNumberingList="NumberingList/$ID/[No numbering list]"/>
    <ParagraphStyle Self="ParagraphStyle/Body" Name="Body"/>
  </RootParagraphStyleGroup>
</idPkg:Styles>"#;
    let s = parse_stylesheet(xml).unwrap();
    let step = s.paragraph_styles.get("ParagraphStyle/Step").unwrap();
    assert_eq!(
        step.applied_numbering_list.as_deref(),
        Some("NumberingList/Steps")
    );
    assert_eq!(step.next_style.as_deref(), Some("ParagraphStyle/Body"));
    let none = s.paragraph_styles.get("ParagraphStyle/NoneList").unwrap();
    assert_eq!(none.applied_numbering_list, None);
}

