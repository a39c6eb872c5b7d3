//! How parts are read: what counts, what does not, and which of two wins.
use idml_import::{
    parse_designmap, parse_graphic, parse_spread, parse_story, parse_stylesheet, ArrowheadType,
    ColorSpace, FrameRef, Justification, Num, ParseError, AUTO_PAGE_NUMBER_MARKER,
    NEXT_PAGE_NUMBER_MARKER,
};

fn num(x: f32) -> Num {
    Num { bits: x.to_bits() }
}

fn story(inner: &str) -> idml_import::Story {
    let xml = format!(
        "<Story><ParagraphStyleRange><CharacterStyleRange>{inner}</CharacterStyleRange>\
</ParagraphStyleRange></Story>"
    );
    parse_story(xml.as_bytes()).unwrap()
}

fn first_text(inner: &str) -> String {
    story(inner).paragraphs[0].runs[0].text.clone()
}

#[test]
fn malformed_parts_are_refused() {
    let bad = b"<a><b></a>";
    assert!(matches!(parse_story(bad), Err(ParseError::Xml(_))));
    assert!(matches!(parse_spread(bad), Err(ParseError::Xml(_))));
    assert!(matches!(parse_graphic(bad), Err(ParseError::Xml(_))));
    assert!(matches!(parse_stylesheet(bad), Err(ParseError::Xml(_))));
    assert!(matches!(parse_designmap(bad), Err(ParseError::Xml(_))));
    assert!(parse_story(bad).unwrap_err().message().starts_with("xml: "));
}

#[test]
fn references_are_resolved_in_text() {
    assert_eq!(
        first_text("<Content>a&apos;b &amp; &lt;c&gt; &#65;&#x42;</Content>"),
        "a'b & <c> AB"
    );
    assert_eq!(first_text("<Content>a&unknown;b</Content>"), "ab");
}

#[test]
fn separators_become_line_feeds() {
    assert_eq!(
        first_text("<Content>a\u{2028}b\u{2029}c&#x2028;d</Content>"),
        "a\nb\nc\nd"
    );
    assert_eq!(first_text("<Content>a\r\nb\rc</Content>"), "a\nb\nc");
}

#[test]
fn page_number_marks_stand_in_the_text() {
    let text = first_text("<Content>p. <?ACE 18?> of <?ACE 19?><?ACE 7?></Content>");
    assert_eq!(
        text,
        format!("p. {AUTO_PAGE_NUMBER_MARKER} of {NEXT_PAGE_NUMBER_MARKER}")
    );
}

#[test]
fn silent_content_leaves_no_trace() {
    for tag in ["HiddenText", "Note", "Index", "IndexEntry"] {
        let s = story(&format!(
            "<Content>a</Content><{tag} Self=\"x\"><ParagraphStyleRange><CharacterStyleRange>\
<Content>hidden &amp; <?ACE 18?></Content><Br/><TextFrame Self=\"f\"/></CharacterStyleRange>\
</ParagraphStyleRange></{tag}><Content>b</Content>"
        ));
        assert_eq!(s.paragraphs.len(), 1, "{tag}");
        assert_eq!(s.paragraphs[0].runs.len(), 1, "{tag}");
        assert_eq!(s.paragraphs[0].runs[0].text, "ab", "{tag}");
        assert!(s.paragraphs[0].anchored_frames.is_empty(), "{tag}");
    }
}

#[test]
fn paragraphs_without_text_are_dropped() {
    let s = parse_story(
        b"<Story><ParagraphStyleRange><CharacterStyleRange><Content></Content>\
</CharacterStyleRange></ParagraphStyleRange><ParagraphStyleRange><CharacterStyleRange>\
<Content>x</Content></CharacterStyleRange></ParagraphStyleRange></Story>",
    )
    .unwrap();
    assert_eq!(s.paragraphs.len(), 1);
    assert_eq!(s.paragraphs[0].runs[0].text, "x");
}

#[test]
fn run_properties_are_trimmed_and_read() {
    let s = story(
        "<Properties><AppliedFont type=\"string\"> Minion &amp; Co </AppliedFont>\
<FontStyle></FontStyle><Leading type=\"unit\">14.5</Leading></Properties><Content>x</Content>",
    );
    let run = &s.paragraphs[0].runs[0];
    assert_eq!(run.font.as_deref(), Some("Minion & Co"));
    assert_eq!(run.font_style, None);
    assert_eq!(run.leading, Some(num(14.5)));
}

#[test]
fn text_goes_on_behind_a_footnote_and_a_table() {
    let s = story(
        "<Content>a</Content><Footnote Self=\"f\"><ParagraphStyleRange><CharacterStyleRange>\
<Content>note</Content></CharacterStyleRange></ParagraphStyleRange></Footnote>\
<Content>b</Content><Table Self=\"t\"><Cell Name=\"0:0\"><ParagraphStyleRange>\
<CharacterStyleRange><Content>cell</Content></CharacterStyleRange></ParagraphStyleRange>\
</Cell></Table><Content>c</Content>",
    );
    let p = &s.paragraphs[0];
    assert_eq!(s.paragraphs.len(), 1);
    assert_eq!(p.runs.len(), 1);
    assert_eq!(p.runs[0].text, "abc");
    assert_eq!(p.footnotes[0].paragraphs[0].runs[0].text, "note");
    let table = p.table.as_ref().unwrap();
    assert_eq!(table.cells[0].paragraphs[0].runs[0].text, "cell");
    assert_eq!(table.cells[0].coords(), Some((0, 0)));
}

#[test]
fn cells_without_a_plain_name_have_no_place() {
    let s = story(
        "<Table><Cell Name=\"3\"/><Cell Name=\"a:1\"></Cell><Cell Name=\"2:7\"></Cell>\
<Cell></Cell></Table><Content>x</Content>",
    );
    let cells = &s.paragraphs[0].table.as_ref().unwrap().cells;
    assert_eq!(cells.len(), 3);
    assert_eq!(cells[0].coords(), None);
    assert_eq!(cells[1].coords(), Some((2, 7)));
    assert_eq!(cells[2].coords(), None);
}

#[test]
fn justifications_have_a_token_each() {
    assert_eq!(
        Justification::from_idml(Justification::CenterAlign.as_idml()),
        Some(Justification::CenterAlign)
    );
}

fn spread(inner: &str) -> idml_import::Spread {
    parse_spread(format!("<Spread Self=\"s\">{inner}</Spread>").as_bytes()).unwrap()
}

#[test]
fn items_without_geometry_leave_no_trace() {
    let s = spread(
        "<Rectangle Self=\"a\"></Rectangle><Oval Self=\"b\"></Oval><Polygon Self=\"c\"></Polygon>\
<Group><TextFrame Self=\"d\"></TextFrame></Group><GraphicLine Self=\"e\"></GraphicLine>",
    );
    assert!(s.rectangles.is_empty() && s.ovals.is_empty() && s.polygons.is_empty());
    assert!(s.text_frames.is_empty() && s.graphic_lines.is_empty());
    assert_eq!(s.frames_in_order, vec![FrameRef::Group(0)]);
    assert!(s.groups[0].members.is_empty());
}

#[test]
fn stated_box_beats_the_path() {
    let point = |x: i32, y: i32| format!("<PathPointType Anchor=\"{x} {y}\"/>");
    let path = format!(
        "<GeometryPathType PathOpen=\"false\">{}{}</GeometryPathType>",
        point(-5, -6),
        point(70, 80)
    );
    let s = spread(&format!(
        "<Polygon Self=\"a\" GeometricBounds=\"1 2 3 4\">{path}</Polygon>\
<Polygon Self=\"b\">{path}</Polygon>"
    ));
    assert_eq!(s.polygons[0].bounds.top, num(1.0));
    assert_eq!(s.polygons[0].bounds.right, num(4.0));
    assert_eq!(s.polygons[1].bounds.left, num(-5.0));
    assert_eq!(s.polygons[1].bounds.bottom, num(80.0));
}

#[test]
fn first_link_of_an_image_stands() {
    let s = spread(
        "<Rectangle Self=\"a\" GeometricBounds=\"0 0 1 1\"><Image LinkResourceURI=\"file:one\">\
<Link LinkResourceURI=\"file:two\"/></Image></Rectangle>",
    );
    assert_eq!(s.rectangles[0].image_link.as_deref(), Some("file:one"));
    assert!(s.rectangles[0].has_image_element);
}

#[test]
fn image_contents_are_decoded() {
    let s = spread(
        "<Rectangle Self=\"a\" GeometricBounds=\"0 0 1 1\"><Image><Properties><Contents>\
<![CDATA[aGVs\n  bG8=]]></Contents></Properties></Image></Rectangle>\
<Rectangle Self=\"b\" GeometricBounds=\"0 0 1 1\"><Image><Properties><Contents>%%%</Contents>\
</Properties></Image></Rectangle>",
    );
    assert_eq!(s.rectangles[0].image_bytes.as_deref(), Some(&b"hello"[..]));
    assert_eq!(s.rectangles[1].image_bytes, None);
}

#[test]
fn tints_out_of_range_are_not_read() {
    let s = spread(
        "<Rectangle GeometricBounds=\"0 0 1 1\" FillTint=\"-1\"/>\
<Rectangle GeometricBounds=\"0 0 1 1\" FillTint=\"100.5\"/>\
<Rectangle GeometricBounds=\"0 0 1 1\" FillTint=\"0\"/>\
<Rectangle GeometricBounds=\"0 0 1 1\" FillTint=\"100\"/>\
<Rectangle GeometricBounds=\"0 0 1 1\" FillTint=\"nan\"/>",
    );
    let tints: Vec<Option<Num>> = s.rectangles.iter().map(|r| r.fill_tint).collect();
    assert_eq!(
        tints,
        vec![None, None, Some(num(0.0)), Some(num(100.0)), None]
    );
}

#[test]
fn turned_feather_is_projected() {
    let s = spread(
        "<Rectangle GeometricBounds=\"0 0 9 9\"><TransparencySetting>\
<GradientFeatherSetting Applied=\"true\" GradientStart=\"1 2\" Length=\"10\" GradientAngle=\"90\"/>\
</TransparencySetting></Rectangle>\
<Rectangle GeometricBounds=\"0 0 9 9\"><TransparencySetting>\
<GradientFeatherSetting Applied=\"true\" GradientStart=\"1 2\" Length=\"10\"/>\
</TransparencySetting></Rectangle>",
    );
    let mut s = s;
    let turned = s.rectangles[0]
        .effects
        .as_mut()
        .unwrap()
        .gradient_feather
        .as_mut()
        .unwrap();
    assert_eq!(turned.end_point, None);
    turned.project_end(num(1.0), num(0.0));
    assert_eq!(turned.end_point, Some((num(1.0), num(-8.0))));
    turned.project_end(num(0.0), num(1.0));
    assert_eq!(turned.end_point, Some((num(1.0), num(-8.0))), "kept once known");
    let level = s.rectangles[1]
        .effects
        .as_ref()
        .unwrap()
        .gradient_feather
        .as_ref()
        .unwrap();
    assert_eq!(level.end_point, Some((num(11.0), num(2.0))));
}

#[test]
fn heads_of_lines_are_read() {
    let s = spread("<GraphicLine GeometricBounds=\"0 0 1 1\" LeftLineEnd=\"BarArrowHead\"/>");
    assert_eq!(s.graphic_lines[0].start_arrow, ArrowheadType::Bar);
    assert_eq!(s.graphic_lines[0].end_arrow.as_idml(), ArrowheadType::NoHead.as_idml());
}

#[test]
fn swatches_stand_under_their_identifiers() {
    let g = parse_graphic(
        b"<G><Color Self=\"a\" Space=\"CMYK\" ColorValue=\"1 2 3 4\"/>\
<Color Self=\"a\" Space=\"RGB\" ColorValue=\"5 6 7\"/><Tint Self=\"t\" BaseColor=\"late\" TintValue=\"50\"/>\
<Color Self=\"late\" Space=\"CMYK\" ColorValue=\"100 0 0 0\"/><Swatch Self=\"s\"/>\
<Tint Self=\"lost\" BaseColor=\"nowhere\" TintValue=\"10\"/></G>",
    )
    .unwrap();
    let a = g.colors.get("a").unwrap();
    assert_eq!(a.self_id, "a");
    assert_eq!(a.space, ColorSpace::Rgb, "the later one stands");
    let t = g.colors.get("t").unwrap();
    assert_eq!(t.self_id, "t");
    assert_eq!(
        t.effective_cmyk(),
        Some(vec![num(50.0), num(0.0), num(0.0), num(0.0)])
    );
    assert_eq!(g.colors.get("lost").unwrap().effective_cmyk(), None);
    assert_eq!(g.swatches.get("s").unwrap().self_id, "s");
}

#[test]
fn palette_is_kept_by_the_identifiers_that_are_stated() {
    let g = parse_graphic(
        b"<G><Color Self=\"a\"/><Color Name=\"none\"/><Tint Self=\"t\" BaseColor=\"a\"/>\
<Swatch Self=\"s\"></Swatch><Swatch/><ColorGroup Self=\"c\"/><Gradient Self=\"g\"></Gradient></G>",
    )
    .unwrap();
    let mut colors = g.colors.keys();
    colors.sort();
    assert_eq!(colors, vec!["a", "t"]);
    assert_eq!(g.swatches.keys(), vec!["s"]);
    assert_eq!(g.color_groups.keys(), vec!["c"]);
    assert_eq!(g.gradients.keys(), vec!["g"]);
}

#[test]
fn attribute_of_a_style_beats_its_element() {
    let s = parse_stylesheet(
        b"<S><ParagraphStyle Self=\"p\" AppliedFont=\"One\"><Properties><AppliedFont>Two\
</AppliedFont><BasedOn>q</BasedOn></Properties></ParagraphStyle>\
<ParagraphStyle Self=\"p2\"><Properties><AppliedFont>Two</AppliedFont></Properties>\
</ParagraphStyle></S>",
    )
    .unwrap();
    let p = s.paragraph_styles.get("p").unwrap();
    assert_eq!(p.font.as_deref(), Some("One"));
    assert_eq!(p.based_on.as_deref(), Some("q"));
    assert_eq!(s.paragraph_styles.get("p2").unwrap().font.as_deref(), Some("Two"));
}

#[test]
fn labels_hold_their_last_value() {
    let pair = |k: &str, v: &str| format!("<KeyValuePair Key=\"{k}\" Value=\"{v}\"/>");
    let s = spread(&format!(
        "<Oval Self=\"o\" GeometricBounds=\"0 0 1 1\"><Properties><Label>{}{}{}</Label>\
</Properties></Oval>",
        pair("a", "1 &amp; 2"),
        pair("b", "x"),
        pair("a", "3")
    ));
    let labels = s.labels.get("o").unwrap();
    assert_eq!(
        labels,
        &vec![
            ("a".to_string(), "3".to_string()),
            ("b".to_string(), "x".to_string())
        ]
    );
}

#[test]
fn every_item_stands_on_one_list() {
    let boxed = "GeometricBounds=\"0 0 1 1\"";
    let s = spread(&format!(
        "<Rectangle {boxed}/><Group><Oval {boxed}></Oval><Group><TextFrame {boxed}/>\
<Polygon></Polygon></Group><GraphicLine {boxed}/></Group><Oval></Oval><Oval {boxed}/>"
    ));
    let mut listed = s.frames_in_order.clone();
    for group in &s.groups {
        listed.extend(group.members.iter().copied());
    }
    let expected = [
        FrameRef::Rectangle(0),
        FrameRef::Group(1),
        FrameRef::Oval(1),
        FrameRef::TextFrame(0),
        FrameRef::Oval(0),
        FrameRef::Group(0),
        FrameRef::GraphicLine(0),
    ];
    assert_eq!(listed, expected);
    assert_eq!((s.ovals.len(), s.polygons.len(), s.groups.len()), (2, 0, 2));
}

#[test]
fn group_inside_an_item_without_geometry_stays_listed_alone() {
    let s = spread("<Rectangle><Group></Group></Rectangle>");
    assert!(s.rectangles.is_empty());
    assert_eq!(s.frames_in_order, vec![FrameRef::Group(0)]);
}

#[test]
fn item_that_another_of_its_kind_came_inside_is_kept() {
    let s = spread("<Oval Self=\"a\"><Oval Self=\"b\" GeometricBounds=\"0 0 1 1\"/></Oval>");
    let ids: Vec<Option<&str>> = s.ovals.iter().map(|o| o.self_id.as_deref()).collect();
    assert_eq!(ids, vec![Some("a"), Some("b")]);
    assert_eq!(s.frames_in_order, vec![FrameRef::Oval(0), FrameRef::Oval(1)]);
}

#[test]
fn item_that_closes_itself_takes_nothing_from_a_group_behind_it() {
    let s = spread(
        "<Rectangle Self=\"r0\" GeometricBounds=\"0 0 5 5\"/><Group Self=\"g\"><Properties>\
<TransparencySetting><BlendingSetting Opacity=\"40\" BlendMode=\"Screen\"/></TransparencySetting>\
</Properties><Rectangle Self=\"r1\" GeometricBounds=\"0 0 50 50\"/></Group>",
    );
    assert_eq!(s.groups[0].transparency.opacity, Some(num(40.0)));
    assert_eq!(s.groups[0].transparency.blend_mode.as_deref(), Some("Screen"));
    for r in &s.rectangles {
        assert_eq!((r.opacity, r.blend_mode.as_deref()), (None, None));
    }
    assert_eq!(s.groups[0].members, vec![FrameRef::Rectangle(1)]);
    assert_eq!(s.frames_in_order, vec![FrameRef::Rectangle(0), FrameRef::Group(0)]);
}

#[test]
fn item_that_closes_itself_leaves_the_item_round_it_open() {
    let s = spread(
        "<Polygon Self=\"a\"><Oval Self=\"b\" GeometricBounds=\"0 0 1 1\"/><GeometryPathType \
PathOpen=\"true\"><PathPointType Anchor=\"1 2\"/><PathPointType Anchor=\"3 4\"/>\
</GeometryPathType></Polygon>",
    );
    assert_eq!(s.polygons[0].anchors.len(), 2);
    assert_eq!(s.polygons[0].bounds.right, num(3.0));
    assert_eq!(s.polygons[0].subpath_open, vec![true]);
}

#[test]
fn group_that_closes_itself_stays_open() {
    let s = spread("<Oval GeometricBounds=\"0 0 1 1\"/><Group/><Rectangle GeometricBounds=\"0 0 1 1\"/>");
    assert_eq!(s.frames_in_order, vec![FrameRef::Oval(0)]);
    assert!(s.groups.is_empty());
    assert_eq!(s.rectangles.len(), 1);
}

#[test]
fn transparency_that_closes_itself_stays_open() {
    let shadows = |tag: &str| {
        let s = spread(&format!(
            "<Rectangle GeometricBounds=\"0 0 1 1\"><{tag}/><TransparencySetting>\
<DropShadowSetting Mode=\"Drop\" XOffset=\"3\"/></TransparencySetting></Rectangle>"
        ));
        let r = &s.rectangles[0];
        (r.drop_shadow.is_some(), r.stroke_drop_shadow.is_some())
    };
    assert_eq!(shadows("StrokeTransparencySetting"), (false, true));
    assert_eq!(shadows("ContentTransparencySetting"), (false, false));
    assert_eq!(shadows("OtherSetting"), (true, false));
}

#[test]
fn feather_and_wrap_that_close_themselves_stay_open() {
    let s = spread(
        "<Rectangle GeometricBounds=\"0 0 1 1\"><GradientFeatherSetting Applied=\"true\"/>\
<OpacityGradientStop Opacity=\"50\" Location=\"10\"/><TextWrapPreference/>\
<TextWrapOffset Top=\"3\"/></Rectangle>",
    );
    let r = &s.rectangles[0];
    let feather = r.effects.as_ref().unwrap().gradient_feather.as_ref().unwrap();
    assert_eq!(feather.stops.len(), 1);
    assert_eq!(r.text_wrap.unwrap().offsets.top, num(3.0));
}

#[test]
fn nested_items_are_named_once_each() {
    let boxed = "GeometricBounds=\"0 0 1 1\"";
    let s = spread(&format!(
        "<Rectangle><Group Self=\"g\"><Oval {boxed}/><Polygon></Polygon></Group><TextFrame {boxed}>\
<GraphicLine></GraphicLine></TextFrame></Rectangle><Group><Group></Group><Rectangle {boxed}/></Group>"
    ));
    let mut named = s.frames_in_order.clone();
    for group in &s.groups {
        named.extend(group.members.iter().copied());
    }
    let mut expected = vec![];
    expected.extend((0..s.text_frames.len()).map(FrameRef::TextFrame));
    expected.extend((0..s.rectangles.len()).map(FrameRef::Rectangle));
    expected.extend((0..s.ovals.len()).map(FrameRef::Oval));
    expected.extend((0..s.graphic_lines.len()).map(FrameRef::GraphicLine));
    expected.extend((0..s.polygons.len()).map(FrameRef::Polygon));
    expected.extend((0..s.groups.len()).map(FrameRef::Group));
    assert_eq!(named.len(), expected.len());
    for item in expected {
        assert_eq!(named.iter().filter(|r| **r == item).count(), 1, "{item:?}");
    }
}

#[test]
fn contours_come_in_one_form() {
    let contour = |open: bool, n: usize| {
        format!(
            "<GeometryPathType PathOpen=\"{open}\">{}</GeometryPathType>",
            "<PathPointType Anchor=\"1 2\"/>".repeat(n)
        )
    };
    let item = |tag: &str, contours: &[(bool, usize)]| {
        let path: String = contours.iter().map(|(open, n)| contour(*open, *n)).collect();
        format!("<{tag} GeometricBounds=\"0 0 1 1\">{path}</{tag}>")
    };
    let s = spread(&format!(
        "{}{}{}{}{}",
        item("Polygon", &[(true, 3), (false, 0)]),
        item("TextFrame", &[(false, 3)]),
        item("GraphicLine", &[(false, 2), (false, 0), (true, 4)]),
        item("Rectangle", &[(true, 4)]),
        item("Rectangle", &[(true, 2), (false, 3)]),
    ));
    assert_eq!(s.polygons[0].subpath_starts, vec![]);
    assert_eq!(s.polygons[0].subpath_open, vec![true]);
    assert_eq!(s.text_frames[0].subpath_starts, vec![]);
    assert_eq!(s.text_frames[0].subpath_open, vec![]);
    assert_eq!(s.graphic_lines[0].subpath_starts, vec![0, 2, 2]);
    assert_eq!(s.graphic_lines[0].subpath_open, vec![false, false, true]);
    assert!(s.rectangles[0].anchors.is_empty() && s.rectangles[0].subpath_open.is_empty());
    assert_eq!(s.rectangles[1].anchors.len(), 5);
    assert_eq!(s.rectangles[1].subpath_starts, vec![0, 2]);
    assert_eq!(s.rectangles[1].subpath_open, vec![true, false]);
}

#[test]
fn empty_paragraphs_are_dropped_at_every_depth() {
    let range = |inner: &str| {
        format!(
            "<ParagraphStyleRange><CharacterStyleRange>{inner}</CharacterStyleRange>\
</ParagraphStyleRange>"
        )
    };
    let empty = range("<Content></Content>");
    let note = format!("<Footnote>{empty}{}</Footnote>", range("<Content>n</Content>"));
    let inner = format!(
        "<Table><Cell Name=\"0:0\">{empty}{}</Cell></Table>",
        range("<Content>deep</Content>")
    );
    let outer = format!(
        "<Table><Cell Name=\"0:0\">{empty}{}{}</Cell></Table>",
        range(&inner),
        range("<Content>c</Content>")
    );
    let s = story(&format!("<Content>a</Content>{note}{outer}"));
    let p = &s.paragraphs[0];
    assert_eq!(p.footnotes[0].paragraphs.len(), 1);
    assert_eq!(p.footnotes[0].paragraphs[0].runs[0].text, "n");
    let cell = &p.table.as_ref().unwrap().cells[0];
    assert_eq!(cell.paragraphs.len(), 2);
    assert!(cell.paragraphs[0].runs.is_empty());
    let deep = &cell.paragraphs[0].table.as_ref().unwrap().cells[0];
    assert_eq!(deep.paragraphs.len(), 1);
    assert_eq!(deep.paragraphs[0].runs[0].text, "deep");
    assert_eq!(cell.paragraphs[1].runs[0].text, "c");
}

#[test]
fn styles_are_kept_by_the_identifiers_that_are_stated() {
    let s = parse_stylesheet(
        b"<S><ParagraphStyle Self=\"p1\"/><ParagraphStyle Self=\"p2\"><Properties>\
<BasedOn>p1</BasedOn></Properties></ParagraphStyle><ParagraphStyle Name=\"none\"/>\
<CharacterStyle Self=\"c\"/><ObjectStyle Self=\"o\"></ObjectStyle><CellStyle Self=\"ce\"/>\
<TableStyle Self=\"t\"/><TOCStyle Self=\"toc\"/><DashedStrokeStyle Self=\"d\"/>\
<DottedStrokeStyle Self=\"dd\"/><StripedStrokeStyle Self=\"s\"><Stripe/></StripedStrokeStyle>\
<WavyStrokeStyle Self=\"w\"/><Condition Self=\"co\"/><ConditionSet Self=\"cs\"/>\
<NumberingList Self=\"n\"></NumberingList></S>",
    )
    .unwrap();
    let sorted = |mut keys: Vec<String>| {
        keys.sort();
        keys
    };
    assert_eq!(sorted(s.paragraph_styles.keys()), vec!["p1", "p2"]);
    assert_eq!(s.character_styles.keys(), vec!["c"]);
    assert_eq!(s.object_styles.keys(), vec!["o"]);
    assert_eq!(s.cell_styles.keys(), vec!["ce"]);
    assert_eq!(s.table_styles.keys(), vec!["t"]);
    assert_eq!(s.toc_styles.keys(), vec!["toc"]);
    assert_eq!(sorted(s.stroke_styles.keys()), vec!["d", "dd", "s", "w"]);
    assert_eq!(s.conditions.keys(), vec!["co"]);
    assert_eq!(s.condition_sets.keys(), vec!["cs"]);
    assert_eq!(s.numbering_lists.keys(), vec!["n"]);
}

#[test]
fn variable_stands_between_the_texts_round_it() {
    let s = story(
        "<Content>a</Content><TextVariableInstance ResultText=\"v\"/><Content>b</Content>\
<TextVariableInstance/>",
    );
    let texts: Vec<&str> = s.paragraphs[0].runs.iter().map(|r| r.text.as_str()).collect();
    assert_eq!(texts, vec!["a", "v", "b"]);
}

#[test]
fn run_belongs_to_the_innermost_source() {
    let s = parse_story(
        b"<Story><ParagraphStyleRange><HyperlinkTextSource Self=\"outer\"><CrossReferenceSource \
Self=\"inner\"><CharacterStyleRange><Content>a</Content></CharacterStyleRange>\
</CrossReferenceSource><CharacterStyleRange><Content>b</Content></CharacterStyleRange>\
</HyperlinkTextSource></ParagraphStyleRange></Story>",
    )
    .unwrap();
    let runs = &s.paragraphs[0].runs;
    assert_eq!(runs[0].hyperlink_source.as_deref(), Some("inner"));
    assert_eq!(runs[1].hyperlink_source.as_deref(), Some("outer"));
}

#[test]
fn first_placing_and_source_of_an_image_stand() {
    let s = spread(
        "<Oval Self=\"o\" GeometricBounds=\"0 0 1 1\"><Image Space=\"$ID/RGB\" \
ItemTransform=\"1 0 0 1 5 6\"/><Image Space=\"CMYK\" ItemTransform=\"1 0 0 1 7 8\"/></Oval>",
    );
    let placed = s.ovals[0].image_item_transform.unwrap();
    assert_eq!((placed.tx, placed.ty), (num(5.0), num(6.0)));
    let meta = s.image_metadata.get("o").unwrap();
    assert_eq!(meta.space.as_deref(), Some("RGB"));
}

#[test]
fn first_image_of_an_anchored_item_stands() {
    let s = story(
        "<Content>x</Content><Rectangle Self=\"r\"><Image LinkResourceURI=\"one\" \
ItemTransform=\"1 0 0 1 5 6\"><Link LinkResourceURI=\"two\"/></Image><Image \
ItemTransform=\"1 0 0 1 7 8\"/></Rectangle>",
    );
    let frame = &s.paragraphs[0].anchored_frames[0];
    assert_eq!(frame.image_link.as_deref(), Some("one"));
    assert_eq!(frame.image_item_transform.unwrap().tx, num(5.0));
}

#[test]
fn wrap_keeps_what_was_stated_before_it() {
    let s = spread(
        "<Rectangle GeometricBounds=\"0 0 1 1\"><TextWrapPreference><TextWrapOffset Top=\"3\"/>\
<ContourOption ContourType=\"SameAsClipping\" IncludeInsideEdges=\"true\"/>\
<TextWrapPreference TextWrapMode=\"ContourTextWrap\"/></TextWrapPreference></Rectangle>",
    );
    let wrap = s.rectangles[0].text_wrap.unwrap();
    assert_eq!(wrap.offsets.top, num(3.0));
    assert_eq!(wrap.include_inside_edges, Some(true));
    assert!(wrap.contour_type.is_some());
}

#[test]
fn layers_come_behind_the_groups_they_stand_in() {
    let d = parse_designmap(
        b"<Document><Layer Self=\"a\"><Layer Self=\"b\"><Layer Self=\"c\"/></Layer>\
<Layer Self=\"d\"/></Layer><Layer Self=\"e\"/></Document>",
    )
    .unwrap();
    let layers: Vec<(&str, Option<&str>)> = d
        .layers
        .iter()
        .map(|l| (l.self_id.as_str(), l.parent_id.as_deref()))
        .collect();
    assert_eq!(
        layers,
        vec![
            ("a", None),
            ("b", Some("a")),
            ("c", Some("b")),
            ("d", Some("a")),
            ("e", None)
        ]
    );
}
