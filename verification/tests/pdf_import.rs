//! Documents made of the reading of a page description.
use idml_import::assembly::{count_ids, font_style, to_u8};
use idml_import::ir::{
    default_font_size, DocumentIr, FrameIr, ImageFrameIr, PageIr, ParagraphIr, PointIr, RectIr,
    Rgb, RunIr, SubpathIr, TextFrameIr, VectorIr,
};
use idml_import::ocf::{
    backing, container, designmap, empty_pkg, graphic, list_entries, master_spread, spread, styles,
    write_package, xml, Entry, DOCUMENT_PGM_PATH,
};
use idml_import::{
    build_document, open_source_archive, parse_designmap, parse_graphic, parse_spread,
    parse_stylesheet, wrap_document, BuildError, FrameRef, Num,
};
use serde_json::Value;
use std::io::Read;

// A real 1×1 PNG (any base64 works: it is only decoded and stored).
const PNG_1X1_B64: &str =
    "iVBORw0KGgoAAAANSUhEUgAAAAEAAAABCAQAAAC1HAwCAAAAC0lEQVR42mNk+M9QDwADhgGAWjR9awAAAABJRU5ErkJggg==";

fn sample_ir_json() -> String {
    format!(
        r#"{{
      "pages": [
        {{
          "width_pt": 612.0, "height_pt": 792.0,
          "frames": [
            {{ "kind": "text", "x_pt": 72.0, "y_pt": 72.0, "width_pt": 468.0, "height_pt": 200.0,
               "paragraphs": [
                 {{ "runs": [
                    {{ "text": "Hello ", "font_size_pt": 18.0, "font_family": "Helvetica", "bold": true }},
                    {{ "text": "world",  "font_size_pt": 18.0, "font_family": "Helvetica", "italic": true }}
                 ] }},
                 {{ "runs": [ {{ "text": "Second paragraph.", "font_size_pt": 12.0 }} ] }}
               ] }}
          ]
        }},
        {{
          "width_pt": 612.0, "height_pt": 792.0,
          "background_png_b64": "{png}",
          "frames": [
            {{ "kind": "image", "x_pt": 100.0, "y_pt": 100.0, "width_pt": 200.0, "height_pt": 150.0,
               "png_b64": "{png}" }}
          ]
        }}
      ]
    }}"#,
        png = PNG_1X1_B64
    )
}

fn num(x: f32) -> Num {
    Num { bits: x.to_bits() }
}

fn number(v: &Value) -> Num {
    num(v.as_f64().unwrap() as f32)
}

fn list(v: &Value) -> Vec<&Value> {
    v.as_array().map(|a| a.iter().collect()).unwrap_or_default()
}

fn rect(v: &Value) -> RectIr {
    RectIr {
        x_pt: number(&v["x_pt"]),
        y_pt: number(&v["y_pt"]),
        width_pt: number(&v["width_pt"]),
        height_pt: number(&v["height_pt"]),
    }
}

fn rgb(v: &Value) -> Option<Rgb> {
    v.as_array().map(|c| Rgb {
        red: number(&c[0]),
        green: number(&c[1]),
        blue: number(&c[2]),
    })
}

fn run(v: &Value) -> RunIr {
    RunIr {
        text: v["text"].as_str().unwrap().to_string(),
        font_size_pt: match &v["font_size_pt"] {
            Value::Null => default_font_size(),
            size => number(size),
        },
        font_family: v["font_family"].as_str().map(|s| s.to_string()),
        bold: v["bold"].as_bool().unwrap_or(false),
        italic: v["italic"].as_bool().unwrap_or(false),
        color_rgb: rgb(&v["color_rgb"]),
    }
}

fn subpath(v: &Value) -> SubpathIr {
    SubpathIr {
        points: list(&v["points"])
            .into_iter()
            .map(|p| PointIr {
                x_pt: number(&p["x_pt"]),
                y_pt: number(&p["y_pt"]),
            })
            .collect(),
        closed: v["closed"].as_bool().unwrap(),
    }
}

fn frame(v: &Value) -> FrameIr {
    match v["kind"].as_str().unwrap() {
        "text" => FrameIr::Text(TextFrameIr {
            rect: rect(v),
            paragraphs: list(&v["paragraphs"])
                .into_iter()
                .map(|p| ParagraphIr {
                    runs: list(&p["runs"]).into_iter().map(run).collect(),
                })
                .collect(),
        }),
        "image" => FrameIr::Image(ImageFrameIr {
            rect: rect(v),
            png_b64: v["png_b64"].as_str().unwrap().to_string(),
        }),
        _ => FrameIr::Vector(VectorIr {
            subpaths: list(&v["subpaths"]).into_iter().map(subpath).collect(),
            fill_rgb: rgb(&v["fill_rgb"]),
            stroke_rgb: rgb(&v["stroke_rgb"]),
            stroke_width_pt: v["stroke_width_pt"].as_f64().map(|w| num(w as f32)),
        }),
    }
}

fn document(json: &str) -> DocumentIr {
    let v: Value = serde_json::from_str(json).expect("parse IR");
    DocumentIr {
        pages: list(&v["pages"])
            .into_iter()
            .map(|p| PageIr {
                width_pt: number(&p["width_pt"]),
                height_pt: number(&p["height_pt"]),
                background_png_b64: p["background_png_b64"].as_str().map(|s| s.to_string()),
                frames: list(&p["frames"]).into_iter().map(frame).collect(),
            })
            .collect(),
    }
}

/// Read one ZIP entry's bytes.
fn zip_entry(bytes: &[u8], name: &str) -> Option<Vec<u8>> {
    let mut zip = zip::ZipArchive::new(std::io::Cursor::new(bytes)).ok()?;
    let mut f = zip.by_name(name).ok()?;
    let mut out = Vec::new();
    f.read_to_end(&mut out).ok()?;
    Some(out)
}

#[test]
fn ir_maps_to_paged_ocf_with_editable_text_and_images() {
    let ir = document(&sample_ir_json());
    assert!(count_ids(&ir).is_some());
    let doc = build_document(&ir).expect("build");
    let (w, h) = ir.first_page_size();
    let pgm = b"the model".to_vec();
    let ocf = wrap_document(
        pgm.clone(),
        &f32::from_bits(w.bits).to_string(),
        &f32::from_bits(h.bits).to_string(),
    )
    .expect("map IR → .paged");

    let mut zip = zip::ZipArchive::new(std::io::Cursor::new(&ocf)).unwrap();
    {
        let first = zip.by_index(0).unwrap();
        assert_eq!(first.name(), "mimetype", "mimetype must be first");
        assert_eq!(
            first.compression(),
            zip::CompressionMethod::Stored,
            "mimetype must be STORED"
        );
    }
    let mimetype = zip_entry(&ocf, "mimetype").unwrap();
    assert_eq!(mimetype, b"application/vnd.adobe.indesign-idml-package");
    assert!(
        zip_entry(&ocf, "designmap.xml").is_some(),
        "sniff needs designmap.xml"
    );
    assert_eq!(zip_entry(&ocf, DOCUMENT_PGM_PATH), Some(pgm));

    assert_eq!(doc.spreads.len(), 2);
    assert_eq!(doc.spreads[0].spread.pages.len(), 1);
    assert_eq!(doc.spreads[1].spread.pages.len(), 1);

    let s0 = &doc.spreads[0].spread;
    assert_eq!(s0.text_frames.len(), 1);
    assert!(s0.rectangles.is_empty(), "page 1 has no image");
    let frame = &s0.text_frames[0];
    let story_id = frame.parent_story.clone().expect("frame links a story");

    let story = doc
        .stories
        .iter()
        .find(|s| s.self_id == story_id)
        .expect("story present");
    assert_eq!(story.story.paragraphs.len(), 2);
    let p0 = &story.story.paragraphs[0];
    assert_eq!(p0.runs.len(), 2);
    assert_eq!(p0.runs[0].text, "Hello ");
    assert_eq!(p0.runs[0].font_style.as_deref(), Some("Bold"));
    assert_eq!(p0.runs[0].point_size, Some(num(18.0)));
    assert_eq!(p0.runs[1].text, "world");
    assert_eq!(p0.runs[1].font_style.as_deref(), Some("Italic"));
    assert_eq!(
        doc.stories[0].story.paragraphs[1].runs[0].text,
        "Second paragraph."
    );

    let s1 = &doc.spreads[1].spread;
    assert_eq!(s1.text_frames.len(), 0);
    assert_eq!(s1.rectangles.len(), 2, "background + placed image");
    for r in &s1.rectangles {
        assert!(r.image_bytes.is_some(), "inline image bytes present");
        assert!(r.has_image_element, "flagged as an image frame");
    }
    assert_eq!(s1.frames_in_order.len(), 2);
}

#[test]
fn vector_maps_to_polygon_with_swatch() {
    let json = r#"{
      "pages": [{
        "width_pt": 612.0, "height_pt": 792.0,
        "frames": [
          { "kind": "vector",
            "subpaths": [{ "points": [
              {"x_pt":10.0,"y_pt":10.0},{"x_pt":100.0,"y_pt":10.0},
              {"x_pt":100.0,"y_pt":50.0},{"x_pt":10.0,"y_pt":50.0}], "closed": true }],
            "fill_rgb": [1.0, 0.0, 0.0] },
          { "kind": "vector",
            "subpaths": [{ "points": [{"x_pt":10.0,"y_pt":70.0},{"x_pt":200.0,"y_pt":70.0}], "closed": false }],
            "stroke_rgb": [0.0, 0.0, 1.0], "stroke_width_pt": 2.0 }
        ]
      }]
    }"#;
    let doc = build_document(&document(json)).expect("build");
    let s = &doc.spreads[0].spread;
    assert_eq!(s.polygons.len(), 2, "two vector shapes → two polygons");

    let rect = &s.polygons[0];
    assert_eq!(rect.fill_color.as_deref(), Some("Color/pdf_255_0_0"));
    assert!(rect.stroke_color.is_none());
    assert_eq!(rect.anchors.len(), 4);
    assert!(rect.subpath_starts.is_empty());
    assert!(rect.subpath_open.is_empty(), "single closed contour");

    let line = &s.polygons[1];
    assert_eq!(line.stroke_color.as_deref(), Some("Color/pdf_0_0_255"));
    assert_eq!(line.stroke_weight, Some(num(2.0)));
    assert_eq!(line.subpath_open, vec![true]);

    let red = doc
        .palette
        .colors
        .get("Color/pdf_255_0_0")
        .expect("red swatch");
    assert_eq!(red.value, vec![num(255.0), num(0.0), num(0.0)]);
    assert!(doc.palette.colors.contains_key("Color/pdf_0_0_255"));
}

#[test]
fn identifiers_are_counted_through_the_document() {
    let doc = build_document(&document(&sample_ir_json())).expect("build");
    let s0 = &doc.spreads[0].spread;
    let s1 = &doc.spreads[1].spread;
    assert_eq!(doc.spreads[0].src, "Spreads/Spread_1.xml");
    assert_eq!(s0.self_id.as_deref(), Some("spread1"));
    assert_eq!(s0.pages[0].self_id.as_deref(), Some("page2"));
    assert_eq!(s0.text_frames[0].parent_story.as_deref(), Some("story3"));
    assert_eq!(s0.text_frames[0].self_id.as_deref(), Some("frame4"));
    assert_eq!(s1.self_id.as_deref(), Some("spread5"));
    assert_eq!(s1.pages[0].name.as_deref(), Some("2"));
    assert_eq!(s1.rectangles[0].self_id.as_deref(), Some("img7"));
    assert_eq!(s1.rectangles[1].self_id.as_deref(), Some("img8"));
    assert_eq!(doc.stories[0].src, "Stories/Story_story3.xml");
    assert_eq!(doc.stories[0].self_id, "story3");
    assert_eq!(count_ids(&document(&sample_ir_json())), Some(8));
}

#[test]
fn manifest_of_a_made_document_lists_its_parts() {
    let doc = build_document(&document(&sample_ir_json())).expect("build");
    assert_eq!(doc.designmap.spreads.len(), 2);
    assert_eq!(doc.designmap.spreads[1].src, "Spreads/Spread_2.xml");
    assert_eq!(doc.designmap.stories.len(), 1);
    assert_eq!(doc.designmap.stories[0].src, doc.stories[0].src);
    assert_eq!(doc.designmap.document_name.as_deref(), Some("Imported PDF"));
    assert!(doc.master_spreads.is_empty());
}

#[test]
fn background_is_drawn_first() {
    let doc = build_document(&document(&sample_ir_json())).expect("build");
    let s1 = &doc.spreads[1].spread;
    assert_eq!(
        s1.frames_in_order,
        vec![FrameRef::Rectangle(0), FrameRef::Rectangle(1)]
    );
    assert_eq!(s1.rectangles[0].bounds.right, num(612.0));
    assert_eq!(s1.rectangles[0].bounds.bottom, num(792.0));
    assert_eq!(s1.rectangles[1].bounds.left, num(100.0));
    assert_eq!(s1.rectangles[1].bounds.bottom, num(250.0));
    assert_eq!(
        s1.rectangles[0].image_bytes.as_ref().unwrap()[..4],
        [0x89, b'P', b'N', b'G']
    );
}

#[test]
fn image_that_is_not_base64_is_refused() {
    let json = r#"{ "pages": [{ "width_pt": 10.0, "height_pt": 10.0,
        "frames": [{ "kind": "image", "x_pt": 0.0, "y_pt": 0.0, "width_pt": 1.0,
                     "height_pt": 1.0, "png_b64": "%%%" }] }] }"#;
    assert!(matches!(
        build_document(&document(json)),
        Err(BuildError::Base64(_))
    ));
}

#[test]
fn text_without_words_leaves_no_trace() {
    let json = r#"{ "pages": [{ "width_pt": 10.0, "height_pt": 10.0,
        "frames": [{ "kind": "text", "x_pt": 0.0, "y_pt": 0.0, "width_pt": 1.0,
                     "height_pt": 1.0, "paragraphs": [{ "runs": [
                       { "text": "", "color_rgb": [0.5, 0.5, 0.5] }] }, { "runs": [] }] }] }] }"#;
    let doc = build_document(&document(json)).expect("build");
    assert!(doc.spreads[0].spread.text_frames.is_empty());
    assert!(doc.spreads[0].spread.frames_in_order.is_empty());
    assert!(doc.stories.is_empty());
    assert!(doc.palette.colors.is_empty());
}

#[test]
fn shapes_with_two_outlines_say_where_each_starts() {
    let json = r#"{ "pages": [{ "width_pt": 10.0, "height_pt": 10.0,
        "frames": [{ "kind": "vector", "subpaths": [
          { "points": [{"x_pt":1.0,"y_pt":5.0},{"x_pt":2.0,"y_pt":-3.0}], "closed": true },
          { "points": [{"x_pt":9.0,"y_pt":9.0}], "closed": true },
          { "points": [{"x_pt":4.0,"y_pt":8.0},{"x_pt":0.5,"y_pt":6.0}], "closed": false }],
          "fill_rgb": [0.2, 0.4, 0.6], "stroke_rgb": [0.2, 0.4, 0.6] },
          { "kind": "vector", "subpaths": [
          { "points": [{"x_pt":1.0,"y_pt":5.0}], "closed": true }] }] }] }"#;
    let doc = build_document(&document(json)).expect("build");
    let s = &doc.spreads[0].spread;
    assert_eq!(s.polygons.len(), 1);
    let p = &s.polygons[0];
    assert_eq!(p.subpath_starts, vec![0, 2]);
    assert_eq!(p.subpath_open, vec![false, true]);
    assert_eq!(p.bounds.left, num(0.5));
    assert_eq!(p.bounds.top, num(-3.0));
    assert_eq!(p.bounds.right, num(4.0));
    assert_eq!(p.bounds.bottom, num(8.0));
    assert_eq!(p.fill_color.as_deref(), Some("Color/pdf_51_102_153"));
    assert_eq!(p.fill_color, p.stroke_color);
    assert_eq!(doc.palette.colors.len(), 1);
}

#[test]
fn channels_are_clamped_and_rounded() {
    for (x, want) in [
        (0.0, 0),
        (1.0, 255),
        (-0.5, 0),
        (7.0, 255),
        (0.5, 128),
        (0.2, 51),
        (0.001, 0),
        (0.00196, 0),
        (0.00197, 1),
        (0.999, 255),
        (f32::NAN, 0),
        (f32::INFINITY, 255),
        (f32::NEG_INFINITY, 0),
    ] {
        assert_eq!(to_u8(num(x)), want, "{x}");
        assert_eq!(to_u8(num(x)), (x.clamp(0.0, 1.0) * 255.0).round() as u8);
    }
}

#[test]
fn font_styles_are_named() {
    assert_eq!(font_style(true, true).as_deref(), Some("Bold Italic"));
    assert_eq!(font_style(true, false).as_deref(), Some("Bold"));
    assert_eq!(font_style(false, true).as_deref(), Some("Italic"));
    assert_eq!(font_style(false, false), None);
}

#[test]
fn size_of_the_first_page_or_of_a_letter() {
    let ir = document(r#"{ "pages": [{ "width_pt": 10.5, "height_pt": 20.25 }] }"#);
    assert_eq!(ir.first_page_size(), (num(10.5), num(20.25)));
    let none = DocumentIr { pages: vec![] };
    assert_eq!(none.first_page_size(), (num(612.0), num(792.0)));
    assert_eq!(default_font_size(), num(12.0));
}

#[test]
fn wrapped_document_opens_again() {
    let pgm = vec![1, 2, 3, 4, 5];
    let bytes = wrap_document(pgm.clone(), "612", "792").unwrap();
    let archive = open_source_archive(&bytes).expect("a package");
    assert_eq!(
        archive.mimetype,
        "application/vnd.adobe.indesign-idml-package"
    );
    assert_eq!(archive.entry(DOCUMENT_PGM_PATH).unwrap().to_vec(), pgm);
    assert_eq!(archive.designmap_raw.to_vec(), designmap().into_bytes());
    assert_eq!(archive.entries.len(), 11);
    for e in list_entries(pgm, "0 0 792 612") {
        assert_eq!(archive.entry(e.name).unwrap().to_vec(), e.data, "{}", e.name);
    }
}

#[test]
fn package_has_its_parts_in_order() {
    let bytes = wrap_document(vec![7; 300], "612", "792").unwrap();
    let mut zip = zip::ZipArchive::new(std::io::Cursor::new(&bytes)).unwrap();
    let mut found = Vec::new();
    for i in 0..zip.len() {
        let file = zip.by_index(i).unwrap();
        let stored = file.compression() == zip::CompressionMethod::Stored;
        found.push((file.name().to_string(), stored));
    }
    let names = [
        "mimetype",
        "designmap.xml",
        "META-INF/container.xml",
        "Resources/Graphic.xml",
        "Resources/Fonts.xml",
        "Resources/Styles.xml",
        "Resources/Preferences.xml",
        "MasterSpreads/MasterSpread_um.xml",
        "Spreads/Spread_us.xml",
        "XML/BackingStory.xml",
        "paged/core/model/document.pgm",
    ];
    let expected: Vec<(String, bool)> = names
        .iter()
        .map(|name| (name.to_string(), *name == "mimetype"))
        .collect();
    assert_eq!(found, expected);

    let map = String::from_utf8(zip_entry(&bytes, "designmap.xml").unwrap()).unwrap();
    let paths: Vec<&str> = map
        .split("src=\"")
        .skip(1)
        .map(|rest| rest.split('"').next().unwrap())
        .collect();
    assert_eq!(paths, &names[3..10]);

    for name in ["Spreads/Spread_us.xml", "MasterSpreads/MasterSpread_um.xml"] {
        let part = String::from_utf8(zip_entry(&bytes, name).unwrap()).unwrap();
        assert!(part.contains("GeometricBounds=\"0 0 792 612\""), "{name}");
    }
}

#[test]
fn package_parts_are_valid() {
    assert_eq!(
        xml("<a/>"),
        "<?xml version=\"1.0\" encoding=\"UTF-8\" standalone=\"yes\"?>\n<a/>"
    );
    assert_eq!(
        empty_pkg("Fonts"),
        "<?xml version=\"1.0\" encoding=\"UTF-8\" standalone=\"yes\"?>\n<idPkg:Fonts \
xmlns:idPkg=\"http://ns.adobe.com/AdobeInDesign/idml/1.0/packaging\" DOMVersion=\"20.0\"/>"
    );
    assert!(container().contains("full-path=\"designmap.xml\""));
    assert!(backing().contains("<XmlStory Self=\"backing\"/>"));

    let map = parse_designmap(designmap().as_bytes()).unwrap();
    assert_eq!(map.document_name.as_deref(), Some("Imported.pdf"));
    assert_eq!(map.spreads[0].src, "Spreads/Spread_us.xml");
    assert_eq!(map.master_spreads, vec!["MasterSpreads/MasterSpread_um.xml"]);

    let palette = parse_graphic(graphic().as_bytes()).unwrap();
    assert!(palette.colors.contains_key("Color/Black"));
    assert!(palette.swatches.contains_key("Swatch/None"));

    let sheet = parse_stylesheet(styles().as_bytes()).unwrap();
    assert!(sheet
        .paragraph_styles
        .contains_key("ParagraphStyle/$ID/[No paragraph style]"));
    assert!(sheet
        .character_styles
        .contains_key("CharacterStyle/$ID/[No character style]"));

    let page = parse_spread(spread("0 0 792 612").as_bytes()).unwrap();
    assert_eq!(page.pages[0].bounds.width(), num(612.0));
    assert_eq!(page.pages[0].applied_master.as_deref(), Some("um"));
    let master = parse_spread(master_spread("0 0 792 612").as_bytes()).unwrap();
    assert_eq!(master.self_id.as_deref(), Some("um"));
    assert_eq!(master.pages[0].bounds.height(), num(792.0));
}

#[test]
fn entries_with_the_same_name_are_refused() {
    let entries = vec![
        Entry {
            name: "a",
            data: vec![1],
            stored: true,
        },
        Entry {
            name: "a",
            data: vec![2],
            stored: false,
        },
    ];
    assert!(matches!(
        write_package(&entries),
        Err(BuildError::Container(_))
    ));
}
