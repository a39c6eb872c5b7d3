//! Stories.
use idml_import::{
    parse_story, AnchoredFrameKind, Justification, Matrix, Num, OtfFeatures, StoryDirection,
    TableCell,
};

/// A value of the library as an ordinary one.
trait Shown {
    type Plain;

    fn shown(&self) -> Self::Plain;
}

impl Shown for Num {
    type Plain = f32;

    fn shown(&self) -> f32 {
        f32::from_bits(self.bits)
    }
}

impl<T: Shown> Shown for Option<T> {
    type Plain = Option<T::Plain>;

    fn shown(&self) -> Option<T::Plain> {
        self.as_ref().map(|x| x.shown())
    }
}

impl Shown for Matrix {
    type Plain = [f32; 6];

    fn shown(&self) -> [f32; 6] {
        [self.a, self.b, self.c, self.d, self.tx, self.ty].map(|x| x.shown())
    }
}

const SAMPLE: &[u8] = br#"<?xml version="1.0" encoding="UTF-8"?>
<idPkg:Story xmlns:idPkg="http://ns.adobe.com/AdobeInDesign/idml/1.0/packaging">
  <Story Self="u10">
    <ParagraphStyleRange AppliedParagraphStyle="ParagraphStyle/Body">
      <CharacterStyleRange AppliedCharacterStyle="CharacterStyle/$ID/[No character style]"
                           AppliedFont="Minion Pro" PointSize="11">
        <Content>Hello, </Content>
      </CharacterStyleRange>
      <CharacterStyleRange FontStyle="Bold" AppliedFont="Minion Pro" PointSize="11">
        <Content>world</Content>
      </CharacterStyleRange>
      <CharacterStyleRange AppliedFont="Minion Pro" PointSize="11">
        <Content>.</Content>
      </CharacterStyleRange>
    </ParagraphStyleRange>
    <ParagraphStyleRange AppliedParagraphStyle="ParagraphStyle/Body">
      <CharacterStyleRange AppliedFont="Minion Pro" PointSize="11">
        <Content>Second paragraph.</Content>
      </CharacterStyleRange>
    </ParagraphStyleRange>
  </Story>
</idPkg:Story>"#;

#[test]
fn extracts_paragraphs_and_runs() {
    let s = parse_story(SAMPLE).unwrap();
    assert_eq!(s.paragraphs.len(), 2);

    let p1 = &s.paragraphs[0];
    assert_eq!(p1.paragraph_style.as_deref(), Some("ParagraphStyle/Body"));
    assert_eq!(p1.runs.len(), 3);
    assert_eq!(p1.runs[0].text, "Hello, ");
    assert_eq!(p1.runs[1].text, "world");
    assert_eq!(p1.runs[1].font_style.as_deref(), Some("Bold"));
    assert_eq!(p1.runs[1].point_size.shown(), Some(11.0));
    assert_eq!(p1.runs[2].text, ".");

    let p2 = &s.paragraphs[1];
    assert_eq!(p2.runs.len(), 1);
    assert_eq!(p2.runs[0].text, "Second paragraph.");
}

#[test]
fn hyperlink_text_source_tags_enclosed_runs() {
    let xml = br#"<Story>
          <ParagraphStyleRange>
            <CharacterStyleRange><Content>Visit </Content></CharacterStyleRange>
            <HyperlinkTextSource Self="HyperlinkTextSource/src1" Name="web">
              <CharacterStyleRange><Content>paged.media</Content></CharacterStyleRange>
            </HyperlinkTextSource>
            <CharacterStyleRange><Content> now.</Content></CharacterStyleRange>
          </ParagraphStyleRange>
        </Story>"#;
    let s = parse_story(xml).unwrap();
    let runs = &s.paragraphs[0].runs;
    assert_eq!(runs.len(), 3);
    assert_eq!(runs[0].hyperlink_source, None);
    assert_eq!(
        runs[1].hyperlink_source.as_deref(),
        Some("HyperlinkTextSource/src1")
    );
    assert_eq!(runs[1].text, "paged.media");
    assert_eq!(runs[2].hyperlink_source, None);
}

#[test]
fn text_variable_instance_becomes_tagged_run() {
    let xml = br#"<Story>
          <ParagraphStyleRange>
            <CharacterStyleRange>
              <Content>Season: </Content>
              <TextVariableInstance ResultText="Spring 2026" AssociatedTextVariable="TextVariable/v1"/>
              <Content>.</Content>
            </CharacterStyleRange>
          </ParagraphStyleRange>
        </Story>"#;
    let s = parse_story(xml).unwrap();
    let runs = &s.paragraphs[0].runs;
    assert_eq!(runs.len(), 3);
    assert_eq!(runs[0].text, "Season: ");
    assert_eq!(runs[0].text_variable, None);
    assert_eq!(runs[1].text, "Spring 2026");
    assert_eq!(runs[1].text_variable.as_deref(), Some("TextVariable/v1"));
    assert_eq!(runs[2].text, ".");
    assert_eq!(runs[2].text_variable, None);
}

#[test]
fn track5c_hidden_text_block_drops_content() {
    let xml = br#"<Story>
          <ParagraphStyleRange>
            <CharacterStyleRange>
              <HiddenText><Content>secret</Content></HiddenText>
              <Content>visible</Content>
            </CharacterStyleRange>
          </ParagraphStyleRange>
        </Story>"#;
    let s = parse_story(xml).unwrap();
    assert_eq!(s.paragraphs[0].runs.len(), 1);
    assert_eq!(s.paragraphs[0].runs[0].text, "visible");
}

#[test]
fn track5c_note_skipped() {
    let xml = br#"<Story>
          <ParagraphStyleRange>
            <CharacterStyleRange>
              <Note><Content>annotation</Content></Note>
              <Content>visible</Content>
            </CharacterStyleRange>
          </ParagraphStyleRange>
        </Story>"#;
    let s = parse_story(xml).unwrap();
    assert_eq!(s.paragraphs[0].runs.len(), 1);
    assert_eq!(s.paragraphs[0].runs[0].text, "visible");
}

#[test]
fn br_becomes_newline_in_run_text() {
    let xml = br#"<Story>
          <ParagraphStyleRange>
            <CharacterStyleRange>
              <Content>line one</Content>
              <Br/>
              <Content>line two</Content>
            </CharacterStyleRange>
          </ParagraphStyleRange>
        </Story>"#;
    let s = parse_story(xml).unwrap();
    assert_eq!(s.paragraphs[0].runs[0].text, "line one\nline two");
}

#[test]
fn tab_element_becomes_tab_character() {
    let xml = br#"<Story>
          <ParagraphStyleRange>
            <CharacterStyleRange>
              <Content>name</Content>
              <Tab/>
              <Content>value</Content>
            </CharacterStyleRange>
          </ParagraphStyleRange>
        </Story>"#;
    let s = parse_story(xml).unwrap();
    assert_eq!(s.paragraphs[0].runs[0].text, "name\tvalue");
}

#[test]
fn tab_list_attaches_to_paragraph() {
    let xml = br#"<Story>
          <ParagraphStyleRange>
            <Properties>
              <TabList>
                <ListItem><TabStop Position="36" Alignment="LeftAlign"/></ListItem>
                <ListItem><TabStop Position="144" Alignment="RightAlign" Leader="."/></ListItem>
              </TabList>
            </Properties>
            <CharacterStyleRange>
              <Content>x</Content>
            </CharacterStyleRange>
          </ParagraphStyleRange>
        </Story>"#;
    let s = parse_story(xml).unwrap();
    let stops = &s.paragraphs[0].tab_list;
    assert_eq!(stops.len(), 2);
    assert_eq!(stops[0].position.shown(), 36.0);
    assert_eq!(stops[0].alignment.as_deref(), Some("LeftAlign"));
    assert_eq!(stops[1].position.shown(), 144.0);
    assert_eq!(stops[1].leader.as_deref(), Some("."));
}

#[test]
fn tab_stop_leader_preserves_multichar_and_whitespace() {
    let xml = r#"<Story>
          <ParagraphStyleRange>
            <Properties>
              <TabList>
                <ListItem><TabStop Position="72" Alignment="RightAlign" Leader=". "/></ListItem>
                <ListItem><TabStop Position="144" Alignment="RightAlign" Leader="-"/></ListItem>
                <ListItem><TabStop Position="216" Alignment="RightAlign" Leader="…"/></ListItem>
              </TabList>
            </Properties>
            <CharacterStyleRange>
              <Content>x</Content>
            </CharacterStyleRange>
          </ParagraphStyleRange>
        </Story>"#;
    let s = parse_story(xml.as_bytes()).unwrap();
    let stops = &s.paragraphs[0].tab_list;
    assert_eq!(stops[0].leader.as_deref(), Some(". "));
    assert_eq!(stops[1].leader.as_deref(), Some("-"));
    assert_eq!(stops[2].leader.as_deref(), Some("…"));
}

#[test]
fn parses_table_with_rows_columns_and_cells() {
    let xml =
        br#"<idPkg:Story xmlns:idPkg="http://ns.adobe.com/AdobeInDesign/idml/1.0/packaging">
          <Story Self="s1">
            <ParagraphStyleRange>
              <CharacterStyleRange>
                <Table Self="t1" HeaderRowCount="1" BodyRowCount="2" ColumnCount="2"
                       AppliedTableStyle="TableStyle/Demo">
                  <Row Self="r0" Name="0" SingleRowHeight="20"/>
                  <Row Self="r1" Name="1" SingleRowHeight="18"/>
                  <Column Self="c0" Name="0" SingleColumnWidth="100"/>
                  <Column Self="c1" Name="1" SingleColumnWidth="60"/>
                  <Cell Self="cell00" Name="0:0" RowSpan="1" ColumnSpan="1"
                        TextTopInset="2" TextLeftInset="3"
                        TextBottomInset="2" TextRightInset="3">
                    <ParagraphStyleRange>
                      <CharacterStyleRange>
                        <Content>Header A</Content>
                      </CharacterStyleRange>
                    </ParagraphStyleRange>
                  </Cell>
                  <Cell Self="cell10" Name="1:0">
                    <ParagraphStyleRange>
                      <CharacterStyleRange>
                        <Content>Header B</Content>
                      </CharacterStyleRange>
                    </ParagraphStyleRange>
                  </Cell>
                  <Cell Self="cell01" Name="0:1">
                    <ParagraphStyleRange>
                      <CharacterStyleRange>
                        <Content>Body A1</Content>
                      </CharacterStyleRange>
                    </ParagraphStyleRange>
                  </Cell>
                  <Cell Self="cell11" Name="1:1">
                    <ParagraphStyleRange>
                      <CharacterStyleRange>
                        <Content>Body B1</Content>
                      </CharacterStyleRange>
                    </ParagraphStyleRange>
                  </Cell>
                </Table>
              </CharacterStyleRange>
            </ParagraphStyleRange>
          </Story>
        </idPkg:Story>"#;
    let s = parse_story(xml).unwrap();
    assert_eq!(s.paragraphs.len(), 1, "table-host paragraph kept");
    let table = s.paragraphs[0]
        .table
        .as_ref()
        .expect("paragraph hosts a table");
    assert_eq!(table.column_count, 2);
    assert_eq!(table.body_row_count, 2);
    assert_eq!(table.header_row_count, 1);
    assert_eq!(
        table.applied_table_style.as_deref(),
        Some("TableStyle/Demo")
    );
    assert_eq!(table.rows.len(), 2);
    assert_eq!(table.rows[0].single_row_height.shown(), Some(20.0));
    assert_eq!(table.columns.len(), 2);
    assert_eq!(table.columns[0].single_column_width.shown(), Some(100.0));
    assert_eq!(table.cells.len(), 4);
    assert_eq!(table.cells[0].coords(), Some((0, 0)));
    assert_eq!(table.cells[3].coords(), Some((1, 1)));
    let header_a = &table.cells[0].paragraphs[0].runs[0].text;
    assert_eq!(header_a, "Header A");
    let body_b1 = &table.cells[3].paragraphs[0].runs[0].text;
    assert_eq!(body_b1, "Body B1");
    assert_eq!(table.cells[0].text_top_inset.shown(), 2.0);
    assert_eq!(table.cells[0].text_left_inset.shown(), 3.0);
}

#[test]
fn parses_cell_vertical_justification() {
    let xml =
        br#"<idPkg:Story xmlns:idPkg="http://ns.adobe.com/AdobeInDesign/idml/1.0/packaging">
          <Story Self="s1">
            <ParagraphStyleRange><CharacterStyleRange>
              <Table Self="t1" BodyRowCount="1" ColumnCount="2">
                <Row Self="r0" Name="0"/>
                <Column Self="c0" Name="0"/>
                <Column Self="c1" Name="1"/>
                <Cell Self="cell00" Name="0:0" VerticalJustification="CenterAlign">
                  <ParagraphStyleRange><CharacterStyleRange><Content>X</Content></CharacterStyleRange></ParagraphStyleRange>
                </Cell>
                <Cell Self="cell10" Name="1:0">
                  <ParagraphStyleRange><CharacterStyleRange><Content>Y</Content></CharacterStyleRange></ParagraphStyleRange>
                </Cell>
              </Table>
            </CharacterStyleRange></ParagraphStyleRange>
          </Story>
        </idPkg:Story>"#;
    let s = parse_story(xml).unwrap();
    let table = s.paragraphs[0].table.as_ref().unwrap();
    let cell00 = table
        .cells
        .iter()
        .find(|c| c.coords() == Some((0, 0)))
        .unwrap();
    assert_eq!(
        cell00.vertical_justification.as_deref(),
        Some("CenterAlign")
    );
    let cell10 = table
        .cells
        .iter()
        .find(|c| c.coords() == Some((1, 0)))
        .unwrap();
    assert_eq!(cell10.vertical_justification, None);
}

#[test]
fn parses_table_with_header_body_footer_and_corner_cells() {
    let xml =
        br#"<idPkg:Story xmlns:idPkg="http://ns.adobe.com/AdobeInDesign/idml/1.0/packaging">
          <Story Self="s1">
            <ParagraphStyleRange>
              <CharacterStyleRange>
                <Table Self="t1" HeaderRowCount="1" BodyRowCount="1" FooterRowCount="1"
                       ColumnCount="3">
                  <Row Self="r0" Name="0" SingleRowHeight="24"/>
                  <Row Self="r1" Name="1" SingleRowHeight="36"/>
                  <Row Self="r2" Name="2" SingleRowHeight="20"/>
                  <Column Self="c0" Name="0" SingleColumnWidth="80"/>
                  <Column Self="c1" Name="1" SingleColumnWidth="100"/>
                  <Column Self="c2" Name="2" SingleColumnWidth="60"/>
                  <Cell Self="c00" Name="0:0">
                    <ParagraphStyleRange><CharacterStyleRange>
                      <Content>TL</Content>
                    </CharacterStyleRange></ParagraphStyleRange>
                  </Cell>
                  <Cell Self="c01" Name="0:1">
                    <ParagraphStyleRange><CharacterStyleRange>
                      <Content>ml</Content>
                    </CharacterStyleRange></ParagraphStyleRange>
                  </Cell>
                  <Cell Self="c02" Name="0:2">
                    <ParagraphStyleRange><CharacterStyleRange>
                      <Content>BL</Content>
                    </CharacterStyleRange></ParagraphStyleRange>
                  </Cell>
                  <Cell Self="c10" Name="1:0">
                    <ParagraphStyleRange><CharacterStyleRange>
                      <Content>tm</Content>
                    </CharacterStyleRange></ParagraphStyleRange>
                  </Cell>
                  <Cell Self="c11" Name="1:1">
                    <ParagraphStyleRange><CharacterStyleRange>
                      <Content>mm</Content>
                    </CharacterStyleRange></ParagraphStyleRange>
                  </Cell>
                  <Cell Self="c12" Name="1:2">
                    <ParagraphStyleRange><CharacterStyleRange>
                      <Content>bm</Content>
                    </CharacterStyleRange></ParagraphStyleRange>
                  </Cell>
                  <Cell Self="c20" Name="2:0">
                    <ParagraphStyleRange><CharacterStyleRange>
                      <Content>TR</Content>
                    </CharacterStyleRange></ParagraphStyleRange>
                  </Cell>
                  <Cell Self="c21" Name="2:1">
                    <ParagraphStyleRange><CharacterStyleRange>
                      <Content>mr</Content>
                    </CharacterStyleRange></ParagraphStyleRange>
                  </Cell>
                  <Cell Self="c22" Name="2:2">
                    <ParagraphStyleRange><CharacterStyleRange>
                      <Content>BR</Content>
                    </CharacterStyleRange></ParagraphStyleRange>
                  </Cell>
                </Table>
              </CharacterStyleRange>
            </ParagraphStyleRange>
          </Story>
        </idPkg:Story>"#;
    let s = parse_story(xml).unwrap();
    let table = s.paragraphs[0]
        .table
        .as_ref()
        .expect("paragraph hosts a table");
    assert_eq!(table.header_row_count, 1);
    assert_eq!(table.body_row_count, 1);
    assert_eq!(table.footer_row_count, 1);
    assert_eq!(table.column_count, 3);

    assert_eq!(table.rows.len(), 3);
    assert_eq!(table.rows[0].single_row_height.shown(), Some(24.0));
    assert_eq!(table.rows[1].single_row_height.shown(), Some(36.0));
    assert_eq!(table.rows[2].single_row_height.shown(), Some(20.0));
    assert_eq!(table.columns.len(), 3);
    assert_eq!(table.columns[0].single_column_width.shown(), Some(80.0));
    assert_eq!(table.columns[1].single_column_width.shown(), Some(100.0));
    assert_eq!(table.columns[2].single_column_width.shown(), Some(60.0));

    assert_eq!(table.cells.len(), 9);

    let cell_at = |col: u32, row: u32| -> &TableCell {
        table
            .cells
            .iter()
            .find(|c| c.coords() == Some((col, row)))
            .unwrap_or_else(|| panic!("missing cell at ({col}, {row})"))
    };

    assert_eq!(cell_at(0, 0).paragraphs[0].runs[0].text, "TL");
    assert_eq!(cell_at(2, 0).paragraphs[0].runs[0].text, "TR");
    assert_eq!(cell_at(0, 2).paragraphs[0].runs[0].text, "BL");
    assert_eq!(cell_at(2, 2).paragraphs[0].runs[0].text, "BR");
    assert_eq!(cell_at(1, 1).paragraphs[0].runs[0].text, "mm");
}

#[test]
fn parses_multi_paragraph_cell_content() {
    let xml =
        br#"<idPkg:Story xmlns:idPkg="http://ns.adobe.com/AdobeInDesign/idml/1.0/packaging">
          <Story Self="s1">
            <ParagraphStyleRange>
              <CharacterStyleRange>
                <Table Self="t1" HeaderRowCount="0" BodyRowCount="1" ColumnCount="1">
                  <Row Self="r0" Name="0" SingleRowHeight="60"/>
                  <Column Self="c0" Name="0" SingleColumnWidth="200"/>
                  <Cell Self="c00" Name="0:0">
                    <ParagraphStyleRange AppliedParagraphStyle="ParagraphStyle/Heading">
                      <CharacterStyleRange><Content>Title</Content></CharacterStyleRange>
                    </ParagraphStyleRange>
                    <ParagraphStyleRange AppliedParagraphStyle="ParagraphStyle/Body">
                      <CharacterStyleRange><Content>First body paragraph.</Content></CharacterStyleRange>
                    </ParagraphStyleRange>
                    <ParagraphStyleRange AppliedParagraphStyle="ParagraphStyle/Body">
                      <CharacterStyleRange><Content>Second body paragraph.</Content></CharacterStyleRange>
                    </ParagraphStyleRange>
                  </Cell>
                </Table>
              </CharacterStyleRange>
            </ParagraphStyleRange>
          </Story>
        </idPkg:Story>"#;
    let s = parse_story(xml).unwrap();
    assert_eq!(s.paragraphs.len(), 1);
    let cell = &s.paragraphs[0].table.as_ref().unwrap().cells[0];
    assert_eq!(
        cell.paragraphs.len(),
        3,
        "all three cell paragraphs retained"
    );
    assert_eq!(
        cell.paragraphs[0].paragraph_style.as_deref(),
        Some("ParagraphStyle/Heading")
    );
    assert_eq!(cell.paragraphs[0].runs[0].text, "Title");
    assert_eq!(
        cell.paragraphs[1].paragraph_style.as_deref(),
        Some("ParagraphStyle/Body")
    );
    assert_eq!(cell.paragraphs[1].runs[0].text, "First body paragraph.");
    assert_eq!(cell.paragraphs[2].runs[0].text, "Second body paragraph.");
}

#[test]
fn parses_table_repeating_header_footer_and_row_max_min_height() {
    let xml =
        br#"<idPkg:Story xmlns:idPkg="http://ns.adobe.com/AdobeInDesign/idml/1.0/packaging">
          <Story Self="s1">
            <ParagraphStyleRange>
              <CharacterStyleRange>
                <Table Self="t1" HeaderRowCount="1" BodyRowCount="1" FooterRowCount="1"
                       ColumnCount="1" RepeatingHeader="false" RepeatingFooter="true">
                  <Row Self="r0" Name="0" SingleRowHeight="20" MinimumHeight="18" MaximumHeight="200"/>
                  <Row Self="r1" Name="1" SingleRowHeight="30"/>
                  <Row Self="r2" Name="2" SingleRowHeight="20"/>
                  <Column Self="c0" Name="0" SingleColumnWidth="100"/>
                  <Cell Self="c00" Name="0:0"><ParagraphStyleRange><CharacterStyleRange>
                    <Content>H</Content>
                  </CharacterStyleRange></ParagraphStyleRange></Cell>
                  <Cell Self="c01" Name="0:1"><ParagraphStyleRange><CharacterStyleRange>
                    <Content>B</Content>
                  </CharacterStyleRange></ParagraphStyleRange></Cell>
                  <Cell Self="c02" Name="0:2"><ParagraphStyleRange><CharacterStyleRange>
                    <Content>F</Content>
                  </CharacterStyleRange></ParagraphStyleRange></Cell>
                </Table>
              </CharacterStyleRange>
            </ParagraphStyleRange>
          </Story>
        </idPkg:Story>"#;
    let s = parse_story(xml).unwrap();
    let table = s.paragraphs[0].table.as_ref().unwrap();
    assert_eq!(table.repeating_header, Some(false));
    assert_eq!(table.repeating_footer, Some(true));
    assert_eq!(table.rows[0].minimum_height.shown(), Some(18.0));
    assert_eq!(table.rows[0].maximum_height.shown(), Some(200.0));
    assert_eq!(table.rows[1].maximum_height, None);
    assert_eq!(table.rows[2].minimum_height, None);
}

#[test]
fn parses_drop_cap_attributes_on_paragraph_style_range() {
    let xml = br#"<Story>
          <ParagraphStyleRange DropCapCharacters="1" DropCapLines="3" DropCapDetail="0">
            <CharacterStyleRange><Content>The quick brown fox</Content></CharacterStyleRange>
          </ParagraphStyleRange>
          <ParagraphStyleRange>
            <CharacterStyleRange><Content>No drop cap here.</Content></CharacterStyleRange>
          </ParagraphStyleRange>
        </Story>"#;
    let s = parse_story(xml).unwrap();
    assert_eq!(s.paragraphs.len(), 2);
    assert_eq!(s.paragraphs[0].drop_cap_characters, 1);
    assert_eq!(s.paragraphs[0].drop_cap_lines, 3);
    assert_eq!(s.paragraphs[0].drop_cap_detail, 0);
    assert_eq!(s.paragraphs[1].drop_cap_characters, 0);
    assert_eq!(s.paragraphs[1].drop_cap_lines, 0);
}

#[test]
fn anchored_text_frame_captures_full_attribute_set() {
    let xml = br#"<Story>
          <ParagraphStyleRange>
            <CharacterStyleRange>
              <Content>before</Content>
              <TextFrame Self="anchor1" ParentStory="u99"
                         GeometricBounds="0 0 36 60"
                         ItemTransform="1 0 0 1 0 0"
                         FillColor="Color/Paper"
                         StrokeColor="Color/Black"
                         StrokeWeight="0.5"
                         FillTint="50"
                         GradientFillAngle="45"
                         AppliedObjectStyle="ObjectStyle/$ID/[None]">
                <AnchoredObjectSetting AnchoredPosition="InlinePosition"/>
              </TextFrame>
              <Content>after</Content>
            </CharacterStyleRange>
          </ParagraphStyleRange>
        </Story>"#;
    let s = parse_story(xml).unwrap();
    let af = &s.paragraphs[0].anchored_frames[0];
    assert_eq!(af.fill_color.as_deref(), Some("Color/Paper"));
    assert_eq!(af.stroke_color.as_deref(), Some("Color/Black"));
    assert_eq!(af.stroke_weight.shown(), Some(0.5));
    assert_eq!(af.fill_tint.shown(), Some(50.0));
    assert_eq!(af.gradient_fill_angle.shown(), Some(45.0));
    assert_eq!(
        af.applied_object_style.as_deref(),
        Some("ObjectStyle/$ID/[None]")
    );
    assert!(af.image_link.is_none());
    assert!(af.children.is_empty());
}

#[test]
fn anchored_text_frame_derives_bounds_from_path_point_array() {
    let xml = br#"<Story>
          <ParagraphStyleRange>
            <CharacterStyleRange>
              <TextFrame Self="anchor1" ParentStory="u99"
                         FillColor="Color/Paper"
                         StrokeColor="Color/Black"
                         StrokeWeight="0.5">
                <Properties>
                  <PathGeometry>
                    <GeometryPathType PathOpen="false">
                      <PathPointArray>
                        <PathPointType Anchor="0 0"
                                       LeftDirection="0 0"
                                       RightDirection="0 0"/>
                        <PathPointType Anchor="0 36"
                                       LeftDirection="0 36"
                                       RightDirection="0 36"/>
                        <PathPointType Anchor="60 36"
                                       LeftDirection="60 36"
                                       RightDirection="60 36"/>
                        <PathPointType Anchor="60 0"
                                       LeftDirection="60 0"
                                       RightDirection="60 0"/>
                      </PathPointArray>
                    </GeometryPathType>
                  </PathGeometry>
                </Properties>
                <AnchoredObjectSetting AnchoredPosition="InlinePosition"/>
              </TextFrame>
              <Content>x</Content>
            </CharacterStyleRange>
          </ParagraphStyleRange>
        </Story>"#;
    let s = parse_story(xml).unwrap();
    let af = &s.paragraphs[0].anchored_frames[0];
    let b = af.bounds.expect("bounds derived from path");
    assert_eq!(b.left.shown(), 0.0);
    assert_eq!(b.top.shown(), 0.0);
    assert_eq!(b.right.shown(), 60.0);
    assert_eq!(b.bottom.shown(), 36.0);
    assert_eq!(af.fill_color.as_deref(), Some("Color/Paper"));
}

#[test]
fn anchored_geometric_bounds_attribute_wins_over_path_points() {
    let xml = br#"<Story>
          <ParagraphStyleRange>
            <CharacterStyleRange>
              <TextFrame Self="a1" GeometricBounds="0 0 50 80">
                <Properties>
                  <PathGeometry>
                    <GeometryPathType>
                      <PathPointArray>
                        <PathPointType Anchor="-100 -100"/>
                        <PathPointType Anchor="999 999"/>
                      </PathPointArray>
                    </GeometryPathType>
                  </PathGeometry>
                </Properties>
              </TextFrame>
              <Content>x</Content>
            </CharacterStyleRange>
          </ParagraphStyleRange>
        </Story>"#;
    let s = parse_story(xml).unwrap();
    let b = s.paragraphs[0].anchored_frames[0]
        .bounds
        .expect("GeometricBounds attribute");
    assert_eq!(b.right.shown(), 80.0, "GeometricBounds wins, not path -100..999");
    assert_eq!(b.bottom.shown(), 50.0);
}

#[test]
fn anchored_rectangle_captures_image_link_and_item_transform() {
    let xml = br#"<Story>
          <ParagraphStyleRange>
            <CharacterStyleRange>
              <Rectangle Self="r1" GeometricBounds="0 0 50 80"
                         FillColor="Swatch/None">
                <Image Self="img1" ItemTransform="0.5 0 0 0.5 10 20">
                  <Link Self="link1" LinkResourceURI="file:///tmp/photo.jpg"/>
                </Image>
                <AnchoredObjectSetting AnchoredPosition="InlinePosition"/>
              </Rectangle>
              <Content>x</Content>
            </CharacterStyleRange>
          </ParagraphStyleRange>
        </Story>"#;
    let s = parse_story(xml).unwrap();
    let af = &s.paragraphs[0].anchored_frames[0];
    assert_eq!(af.frame_kind, AnchoredFrameKind::Rectangle);
    assert_eq!(af.image_link.as_deref(), Some("file:///tmp/photo.jpg"));
    assert_eq!(
        af.image_item_transform.shown(),
        Some([0.5, 0.0, 0.0, 0.5, 10.0, 20.0])
    );
    assert_eq!(af.fill_color.as_deref(), Some("Swatch/None"));
}

#[test]
fn anchored_group_recurses_into_children() {
    let xml = br#"<Story>
          <ParagraphStyleRange>
            <CharacterStyleRange>
              <Group Self="g1" GeometricBounds="0 0 80 100"
                     ItemTransform="1 0 0 1 5 7">
                <Rectangle Self="rA" GeometricBounds="0 0 30 40"
                           FillColor="Color/Red" StrokeWeight="1"/>
                <TextFrame Self="tB" ParentStory="uABC"
                           GeometricBounds="0 0 20 60"
                           FillColor="Color/Paper"/>
                <AnchoredObjectSetting AnchoredPosition="InlinePosition"/>
              </Group>
              <Content>x</Content>
            </CharacterStyleRange>
          </ParagraphStyleRange>
        </Story>"#;
    let s = parse_story(xml).unwrap();
    let g = &s.paragraphs[0].anchored_frames[0];
    assert_eq!(g.frame_kind, AnchoredFrameKind::Group);
    assert_eq!(g.children.len(), 2, "group exposes its child frames");
    assert_eq!(g.children[0].frame_kind, AnchoredFrameKind::Rectangle);
    assert_eq!(g.children[0].fill_color.as_deref(), Some("Color/Red"));
    assert_eq!(g.children[0].stroke_weight.shown(), Some(1.0));
    assert_eq!(g.children[1].frame_kind, AnchoredFrameKind::TextFrame);
    assert_eq!(g.children[1].parent_story.as_deref(), Some("uABC"));
    assert_eq!(g.children[1].fill_color.as_deref(), Some("Color/Paper"));
    assert!(g.setting.is_some());
}

#[test]
fn anchored_text_frame_inside_character_style_range_is_captured() {
    let xml = br#"<Story Self="u1">
          <ParagraphStyleRange>
            <CharacterStyleRange>
              <Content>Before the marker</Content>
              <TextFrame Self="anchor1" ParentStory="u99"
                         GeometricBounds="0 0 50 80"
                         ItemTransform="1 0 0 1 5 7">
                <Properties/>
                <AnchoredObjectSetting AnchoredPosition="InlinePosition"
                                       SpineRelative="false"
                                       AnchorXoffset="0"
                                       AnchorYoffset="-2"
                                       AnchorPoint="TopLeftAnchor"
                                       LockPosition="false"/>
              </TextFrame>
              <Content>After the marker</Content>
            </CharacterStyleRange>
          </ParagraphStyleRange>
        </Story>"#;
    let s = parse_story(xml).unwrap();
    assert_eq!(s.paragraphs.len(), 1);
    let p = &s.paragraphs[0];
    assert_eq!(p.runs.len(), 1, "the two Content blocks merged");
    assert_eq!(p.runs[0].text, "Before the markerAfter the marker");
    assert_eq!(p.anchored_frames.len(), 1);
    let af = &p.anchored_frames[0];
    assert_eq!(af.frame_kind, AnchoredFrameKind::TextFrame);
    assert_eq!(af.self_id.as_deref(), Some("anchor1"));
    assert_eq!(af.parent_story.as_deref(), Some("u99"));
    let bounds = af.bounds.expect("bounds parsed");
    assert_eq!(bounds.top.shown(), 0.0);
    assert_eq!(bounds.right.shown(), 80.0);
    assert_eq!(af.item_transform.shown(), Some([1.0, 0.0, 0.0, 1.0, 5.0, 7.0]));
    let setting = af.setting.as_ref().expect("anchored object setting");
    assert_eq!(setting.anchored_position.as_deref(), Some("InlinePosition"));
    assert_eq!(setting.anchor_y_offset.shown(), -2.0);
    assert_eq!(setting.anchor_point.as_deref(), Some("TopLeftAnchor"));
    assert!(!setting.lock_position);
}

#[test]
fn anchored_rectangle_inside_csr_records_kind_rectangle() {
    let xml = br#"<Story>
          <ParagraphStyleRange>
            <CharacterStyleRange>
              <Rectangle Self="r1" GeometricBounds="0 0 30 30"/>
              <Content>x</Content>
            </CharacterStyleRange>
          </ParagraphStyleRange>
        </Story>"#;
    let s = parse_story(xml).unwrap();
    let p = &s.paragraphs[0];
    assert_eq!(p.anchored_frames.len(), 1);
    assert_eq!(
        p.anchored_frames[0].frame_kind,
        AnchoredFrameKind::Rectangle
    );
    assert!(p.anchored_frames[0].parent_story.is_none());
}

#[test]
fn parses_story_preference_optical_margin() {
    let xml =
        br#"<idPkg:Story xmlns:idPkg="http://ns.adobe.com/AdobeInDesign/idml/1.0/packaging">
          <Story Self="u1">
            <StoryPreference OpticalMarginAlignment="true" OpticalMarginSize="12"/>
            <ParagraphStyleRange>
              <CharacterStyleRange><Content>Hello</Content></CharacterStyleRange>
            </ParagraphStyleRange>
          </Story>
        </idPkg:Story>"#;
    let s = parse_story(xml).unwrap();
    assert!(s.optical_margin_alignment);
    assert_eq!(s.optical_margin_size.shown(), 12.0);
    assert_eq!(s.paragraphs.len(), 1);
}

#[test]
fn story_preference_absent_keeps_defaults() {
    let xml = br#"<Story>
          <ParagraphStyleRange>
            <CharacterStyleRange><Content>Hi</Content></CharacterStyleRange>
          </ParagraphStyleRange>
        </Story>"#;
    let s = parse_story(xml).unwrap();
    assert!(!s.optical_margin_alignment);
    assert_eq!(s.optical_margin_size.shown(), 0.0);
}

#[test]
fn story_preference_with_children_still_reads_attributes() {
    let xml = br#"<Story>
          <StoryPreference OpticalMarginAlignment="true" OpticalMarginSize="9">
            <Properties/>
          </StoryPreference>
          <ParagraphStyleRange>
            <CharacterStyleRange><Content>X</Content></CharacterStyleRange>
          </ParagraphStyleRange>
        </Story>"#;
    let s = parse_story(xml).unwrap();
    assert!(s.optical_margin_alignment);
    assert_eq!(s.optical_margin_size.shown(), 9.0);
}

#[test]
fn justification_from_idml_covers_every_variant_and_unknowns() {
    for (raw, expected) in [
        ("LeftAlign", Justification::LeftAlign),
        ("CenterAlign", Justification::CenterAlign),
        ("RightAlign", Justification::RightAlign),
        ("LeftJustified", Justification::LeftJustified),
        ("CenterJustified", Justification::CenterJustified),
        ("RightJustified", Justification::RightJustified),
        ("FullyJustified", Justification::FullyJustified),
        ("ToBindingSide", Justification::ToBindingSide),
        ("AwayFromBindingSide", Justification::AwayFromBindingSide),
    ] {
        assert_eq!(Justification::from_idml(raw), Some(expected));
        assert_eq!(Justification::from_idml(expected.as_idml()), Some(expected));
    }
    assert_eq!(Justification::from_idml("leftalign"), None);
    assert_eq!(Justification::from_idml(""), None);
    assert_eq!(Justification::from_idml("Unknown"), None);
}

#[test]
fn paragraph_style_range_parses_justification_into_enum() {
    let xml = br#"<Story>
          <ParagraphStyleRange Justification="CenterAlign">
            <CharacterStyleRange><Content>X</Content></CharacterStyleRange>
          </ParagraphStyleRange>
          <ParagraphStyleRange Justification="NotARealValue">
            <CharacterStyleRange><Content>Y</Content></CharacterStyleRange>
          </ParagraphStyleRange>
        </Story>"#;
    let s = parse_story(xml).unwrap();
    assert_eq!(
        s.paragraphs[0].justification,
        Some(Justification::CenterAlign)
    );
    assert_eq!(s.paragraphs[1].justification, None);
}


#[test]
fn parses_story_direction_vertical() {
    let xml = br#"<Story Self="u1" StoryDirection="VerticalWritingDirection">
          <ParagraphStyleRange>
            <CharacterStyleRange><Content>CJK body</Content></CharacterStyleRange>
          </ParagraphStyleRange>
        </Story>"#;
    let s = parse_story(xml).unwrap();
    assert_eq!(
        s.story_direction,
        Some(StoryDirection::VerticalWritingDirection)
    );
}

#[test]
fn parses_story_direction_horizontal_explicit() {
    let xml = br#"<Story Self="u1" StoryDirection="HorizontalWritingDirection">
          <ParagraphStyleRange>
            <CharacterStyleRange><Content>x</Content></CharacterStyleRange>
          </ParagraphStyleRange>
        </Story>"#;
    let s = parse_story(xml).unwrap();
    assert_eq!(
        s.story_direction,
        Some(StoryDirection::HorizontalWritingDirection)
    );
}

#[test]
fn story_direction_absent_defaults_to_none() {
    let xml = br#"<Story Self="u1">
          <ParagraphStyleRange>
            <CharacterStyleRange><Content>x</Content></CharacterStyleRange>
          </ParagraphStyleRange>
        </Story>"#;
    let s = parse_story(xml).unwrap();
    assert_eq!(s.story_direction, None);
}

#[test]
fn paragraph_style_range_parses_kinsoku_and_mojikumi() {
    let xml = br#"<Story Self="u1">
          <ParagraphStyleRange
              KinsokuSet="KinsokuTable/$ID/PhotoshopKinsokuHard"
              KinsokuType="PushIn"
              MojikumiTable="MojikumiTable/$ID/PhotoshopMojikumiSet4"
              MojikumiSet="MojikumiSet/$ID/SomeOldSet">
            <CharacterStyleRange><Content>body</Content></CharacterStyleRange>
          </ParagraphStyleRange>
        </Story>"#;
    let s = parse_story(xml).unwrap();
    let p = &s.paragraphs[0];
    assert_eq!(
        p.kinsoku_set.as_deref(),
        Some("KinsokuTable/$ID/PhotoshopKinsokuHard")
    );
    assert_eq!(p.kinsoku_type.as_deref(), Some("PushIn"));
    assert_eq!(
        p.mojikumi_table.as_deref(),
        Some("MojikumiTable/$ID/PhotoshopMojikumiSet4")
    );
    assert_eq!(
        p.mojikumi_set.as_deref(),
        Some("MojikumiSet/$ID/SomeOldSet")
    );
}

#[test]
fn kinsoku_and_mojikumi_default_to_none_when_absent() {
    let xml = br#"<Story Self="u1">
          <ParagraphStyleRange>
            <CharacterStyleRange><Content>x</Content></CharacterStyleRange>
          </ParagraphStyleRange>
        </Story>"#;
    let s = parse_story(xml).unwrap();
    let p = &s.paragraphs[0];
    assert!(p.kinsoku_set.is_none());
    assert!(p.kinsoku_type.is_none());
    assert!(p.mojikumi_table.is_none());
    assert!(p.mojikumi_set.is_none());
}

#[test]
fn paragraph_style_range_parses_w02_paragraph_attrs() {
    let xml = br#"<Story Self="u1">
          <ParagraphStyleRange
              LeftIndent="18"
              RightIndent="9"
              Hyphenation="false"
              KeepLinesTogether="true"
              KeepWithNext="2"
              NumberingFormat="^#.^t"
              RuleAbove="true"
              RuleAboveLineWeight="1.5"
              RuleAboveColor="Color/Black"
              RuleAboveOffset="3">
            <CharacterStyleRange><Content>body</Content></CharacterStyleRange>
          </ParagraphStyleRange>
        </Story>"#;
    let s = parse_story(xml).unwrap();
    let p = &s.paragraphs[0];
    assert_eq!(p.left_indent.shown(), Some(18.0));
    assert_eq!(p.right_indent.shown(), Some(9.0));
    assert_eq!(p.hyphenation, Some(false));
    assert_eq!(p.keep_lines_together, Some(true));
    assert_eq!(p.keep_with_next, Some(2));
    assert_eq!(p.numbering_format.as_deref(), Some("^#.^t"));
    assert_eq!(p.rule_above.on, Some(true));
    assert_eq!(p.rule_above.weight.shown(), Some(1.5));
    assert_eq!(p.rule_above.color.as_deref(), Some("Color/Black"));
    assert_eq!(p.rule_above.offset.shown(), Some(3.0));
    assert_eq!(p.rule_below.on, None);
}

#[test]
fn w02_paragraph_attrs_default_to_none_when_absent() {
    let xml = br#"<Story Self="u1">
          <ParagraphStyleRange>
            <CharacterStyleRange><Content>x</Content></CharacterStyleRange>
          </ParagraphStyleRange>
        </Story>"#;
    let s = parse_story(xml).unwrap();
    let p = &s.paragraphs[0];
    assert!(p.left_indent.is_none());
    assert!(p.right_indent.is_none());
    assert!(p.hyphenation.is_none());
    assert!(p.keep_lines_together.is_none());
    assert!(p.keep_with_next.is_none());
    assert!(p.numbering_format.is_none());
    assert_eq!(p.rule_above.on, None);
    assert_eq!(p.rule_below.on, None);
}

#[test]
fn character_style_range_parses_ruby_and_kenten() {
    let xml = br#"<Story Self="u1">
          <ParagraphStyleRange>
            <CharacterStyleRange
                RubyFlag="true"
                RubyType="PerCharacter"
                RubyString="furigana"
                KentenKind="SesameDot"
                KentenCharacter=""
                KentenFontSize="50">
              <Content>base</Content>
            </CharacterStyleRange>
          </ParagraphStyleRange>
        </Story>"#;
    let s = parse_story(xml).unwrap();
    let r = &s.paragraphs[0].runs[0];
    assert_eq!(r.ruby_flag, Some(true));
    assert_eq!(r.ruby_type.as_deref(), Some("PerCharacter"));
    assert_eq!(r.ruby_string.as_deref(), Some("furigana"));
    assert_eq!(r.kenten_kind.as_deref(), Some("SesameDot"));
    assert_eq!(r.kenten_font_size.shown(), Some(50.0));
}

#[test]
fn ruby_and_kenten_default_to_none_when_absent() {
    let xml = br#"<Story Self="u1">
          <ParagraphStyleRange>
            <CharacterStyleRange><Content>plain</Content></CharacterStyleRange>
          </ParagraphStyleRange>
        </Story>"#;
    let s = parse_story(xml).unwrap();
    let r = &s.paragraphs[0].runs[0];
    assert!(r.ruby_flag.is_none());
    assert!(r.ruby_type.is_none());
    assert!(r.ruby_string.is_none());
    assert!(r.kenten_kind.is_none());
    assert!(r.kenten_character.is_none());
    assert!(r.kenten_font_size.is_none());
}

#[test]
fn nested_table_inside_cell_paragraph_round_trips() {
    let xml = br#"<Story Self="story1">
          <ParagraphStyleRange>
            <CharacterStyleRange>
              <Table Self="t1" HeaderRowCount="0" FooterRowCount="0"
                     BodyRowCount="1" ColumnCount="1">
                <Row Self="t1r0" Name="0" SingleRowHeight="40"/>
                <Column Self="t1c0" Name="0" SingleColumnWidth="100"/>
                <Cell Self="t1.0.0" Name="0:0" RowSpan="1" ColumnSpan="1">
                  <ParagraphStyleRange>
                    <CharacterStyleRange>
                      <Table Self="t2" HeaderRowCount="0" FooterRowCount="0"
                             BodyRowCount="2" ColumnCount="2">
                        <Row Self="t2r0" Name="0" SingleRowHeight="20"/>
                        <Row Self="t2r1" Name="1" SingleRowHeight="20"/>
                        <Column Self="t2c0" Name="0" SingleColumnWidth="50"/>
                        <Column Self="t2c1" Name="1" SingleColumnWidth="50"/>
                        <Cell Self="t2.0.0" Name="0:0">
                          <ParagraphStyleRange>
                            <CharacterStyleRange>
                              <Content>inner-cell-text</Content>
                            </CharacterStyleRange>
                          </ParagraphStyleRange>
                        </Cell>
                      </Table>
                    </CharacterStyleRange>
                  </ParagraphStyleRange>
                </Cell>
              </Table>
            </CharacterStyleRange>
          </ParagraphStyleRange>
        </Story>"#;
    let s = parse_story(xml).unwrap();
    let outer = s.paragraphs[0]
        .table
        .as_ref()
        .expect("outer table attached");
    assert_eq!(outer.self_id.as_deref(), Some("t1"));
    assert_eq!(outer.cells.len(), 1);
    assert_eq!(outer.rows.len(), 1);
    assert_eq!(outer.columns.len(), 1);

    let outer_cell = &outer.cells[0];
    let host_para = outer_cell
        .paragraphs
        .iter()
        .find(|p| p.table.is_some())
        .expect("inner table should be attached to a cell paragraph");
    let inner = host_para.table.as_ref().unwrap();
    assert_eq!(inner.self_id.as_deref(), Some("t2"));
    assert_eq!(inner.rows.len(), 2, "inner rows preserved");
    assert_eq!(inner.columns.len(), 2, "inner columns preserved");
    assert_eq!(inner.cells.len(), 1);

    let inner_cell = &inner.cells[0];
    assert_eq!(inner_cell.paragraphs[0].runs[0].text, "inner-cell-text");
}

#[test]
fn index_markers_are_captured_on_host_paragraph() {
    let xml = br#"<Story>
          <ParagraphStyleRange>
            <CharacterStyleRange>
              <Content>The apple is a fruit</Content>
              <PageReference Self="PR1" TopicName="Apple" SortOrder="apple"/>
              <Content>. The banana also.</Content>
              <IndexEntry Self="IE1" AppliedTopic="Topic/u42"/>
            </CharacterStyleRange>
          </ParagraphStyleRange>
        </Story>"#;
    let s = parse_story(xml).unwrap();
    let para = &s.paragraphs[0];
    assert_eq!(para.index_markers.len(), 2);
    assert_eq!(para.index_markers[0].topic_name, "Apple");
    assert_eq!(para.index_markers[0].sort_order.as_deref(), Some("apple"));
    assert_eq!(para.index_markers[1].topic_name, "Topic/u42");
    assert_eq!(
        para.index_markers[1].applied_topic.as_deref(),
        Some("Topic/u42")
    );
}

#[test]
fn footnote_body_is_captured_on_host_paragraph() {
    let xml = br#"<Story>
          <ParagraphStyleRange>
            <CharacterStyleRange>
              <Content>before</Content>
              <Footnote Self="Footnote/u1">
                <ParagraphStyleRange>
                  <CharacterStyleRange>
                    <Content>This is the footnote body.</Content>
                  </CharacterStyleRange>
                </ParagraphStyleRange>
              </Footnote>
              <Content>after</Content>
            </CharacterStyleRange>
          </ParagraphStyleRange>
        </Story>"#;
    let s = parse_story(xml).unwrap();
    let host = &s.paragraphs[0];

    let host_text: String = host.runs.iter().map(|r| r.text.as_str()).collect();
    assert!(host_text.contains("before"));
    assert!(host_text.contains("after"));
    assert!(
        !host_text.contains("footnote body"),
        "footnote body leaked into host story: {host_text:?}"
    );

    assert_eq!(host.footnotes.len(), 1);
    let fn0 = &host.footnotes[0];
    assert_eq!(fn0.self_id.as_deref(), Some("Footnote/u1"));
    assert_eq!(fn0.paragraphs.len(), 1);
    assert_eq!(fn0.paragraphs[0].runs[0].text, "This is the footnote body.");
}

#[test]
fn overprint_round_trips_on_paragraph_and_run() {
    let xml = br#"<Story>
          <ParagraphStyleRange OverprintFill="true" OverprintStroke="false">
            <CharacterStyleRange OverprintFill="true">
              <Content>Hello</Content>
            </CharacterStyleRange>
            <CharacterStyleRange>
              <Content>World</Content>
            </CharacterStyleRange>
          </ParagraphStyleRange>
        </Story>"#;
    let s = parse_story(xml).unwrap();
    assert_eq!(s.paragraphs[0].overprint_fill, Some(true));
    assert_eq!(s.paragraphs[0].overprint_stroke, Some(false));
    assert_eq!(s.paragraphs[0].runs[0].overprint_fill, Some(true));
    assert_eq!(s.paragraphs[0].runs[1].overprint_fill, None);
}

#[test]
fn parses_cell_diagonal_strokes_with_tint_and_in_front() {
    let xml =
        br#"<idPkg:Story xmlns:idPkg="http://ns.adobe.com/AdobeInDesign/idml/1.0/packaging">
          <Story Self="s1">
            <ParagraphStyleRange>
              <CharacterStyleRange>
                <Table Self="t1" BodyRowCount="1" ColumnCount="2">
                  <Row Self="r0" Name="0" SingleRowHeight="20"/>
                  <Column Self="c0" Name="0" SingleColumnWidth="100"/>
                  <Column Self="c1" Name="1" SingleColumnWidth="100"/>
                  <Cell Self="cell00" Name="0:0"
                        LeftLineDrawn="true" LeftLineStrokeColor="Color/Red"
                        LeftLineStrokeWeight="1.5" LeftLineStrokeTint="60">
                    <ParagraphStyleRange><CharacterStyleRange>
                      <Content>A</Content>
                    </CharacterStyleRange></ParagraphStyleRange>
                  </Cell>
                  <Cell Self="cell10" Name="1:0"
                        RightLineDrawn="true" RightLineStrokeColor="Color/Blue"
                        RightLineStrokeWeight="2" RightLineStrokeTint="100"
                        DiagonalLineInFront="true">
                    <ParagraphStyleRange><CharacterStyleRange>
                      <Content>B</Content>
                    </CharacterStyleRange></ParagraphStyleRange>
                  </Cell>
                </Table>
              </CharacterStyleRange>
            </ParagraphStyleRange>
          </Story>
        </idPkg:Story>"#;
    let s = parse_story(xml).unwrap();
    let table = s.paragraphs[0].table.as_ref().unwrap();
    let c00 = &table.cells[0].diagonal;
    assert_eq!(c00.left_line_drawn, Some(true));
    assert_eq!(c00.left_line_color.as_deref(), Some("Color/Red"));
    assert_eq!(c00.left_line_weight.shown(), Some(1.5));
    assert_eq!(c00.left_line_tint.shown(), Some(60.0));
    assert_eq!(c00.right_line_drawn, None);
    assert_eq!(c00.diagonal_in_front, None);
    let c10 = &table.cells[1].diagonal;
    assert_eq!(c10.right_line_drawn, Some(true));
    assert_eq!(c10.right_line_color.as_deref(), Some("Color/Blue"));
    assert_eq!(c10.right_line_weight.shown(), Some(2.0));
    assert_eq!(c10.right_line_tint.shown(), Some(100.0));
    assert_eq!(c10.diagonal_in_front, Some(true));
    assert_eq!(c10.left_line_drawn, None);
}

#[test]
fn parses_discrete_otf_feature_attributes_on_runs() {
    let xml = br#"<Story Self="u1">
          <ParagraphStyleRange AppliedParagraphStyle="ParagraphStyle/Body">
            <CharacterStyleRange AppliedFont="F" PointSize="10"
                                 OTFFraction="true" OTFOrdinal="true"
                                 OTFSwash="true" OTFDiscretionaryLigature="true"
                                 OTFFigureStyle="ProportionalOldstyle"
                                 OTFStylisticSets="5">
              <Content>1/2 1st</Content>
            </CharacterStyleRange>
            <CharacterStyleRange AppliedFont="F" PointSize="10">
              <Content>plain</Content>
            </CharacterStyleRange>
          </ParagraphStyleRange>
        </Story>"#;
    let s = parse_story(xml).unwrap();
    let otf = &s.paragraphs[0].runs[0].otf;
    assert_eq!(otf.fraction, Some(true));
    assert_eq!(otf.ordinal, Some(true));
    assert_eq!(otf.swash, Some(true));
    assert_eq!(otf.discretionary_ligatures, Some(true));
    assert_eq!(otf.figure_style.as_deref(), Some("ProportionalOldstyle"));
    assert_eq!(otf.stylistic_sets, Some(5));
    assert_eq!(s.paragraphs[0].runs[1].otf, OtfFeatures::default());
}

#[test]
fn otf_features_merge_below_fills_only_unset_fields() {
    let mut top = OtfFeatures {
        fraction: Some(true),
        ..OtfFeatures::default()
    };
    let below = OtfFeatures {
        fraction: Some(false), // already set on top — must NOT override
        ordinal: Some(true),
        figure_style: Some("Lining".to_string()),
        stylistic_sets: Some(2),
        ..OtfFeatures::default()
    };
    top.merge_below(&below);
    assert_eq!(top.fraction, Some(true), "set field wins");
    assert_eq!(top.ordinal, Some(true), "unset field inherits");
    assert_eq!(top.figure_style.as_deref(), Some("Lining"));
    assert_eq!(top.stylistic_sets, Some(2));
}
