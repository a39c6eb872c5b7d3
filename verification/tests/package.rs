//! Packages as a whole: what they hold, and what is refused.
use idml_import::archive::recognise;
use idml_import::idmap::IdMap;
use idml_import::ocf::{write_package, Entry};
use idml_import::{
    assemble, import_idml, import_idml_archive, import_idml_doc, open_source_archive, OpenError,
    ParseError,
};

const MIME: &str = "application/vnd.adobe.indesign-idml-package";

fn package(entries: &[(&'static str, &str)]) -> Vec<u8> {
    let entries: Vec<Entry> = entries
        .iter()
        .map(|(name, data)| Entry {
            name,
            data: data.as_bytes().to_vec(),
            stored: false,
        })
        .collect();
    write_package(&entries).unwrap()
}

const DESIGNMAP: &str = r#"<Document>
  <idPkg:MasterSpread src="MasterSpreads/MasterSpread_ua.xml"/>
  <idPkg:Spread src="Spreads/Spread_u1.xml"/>
  <idPkg:Story src="Stories/Story_u10.xml"/>
</Document>"#;

const SPREAD: &str = r#"<Spread Self="u1"><Page Self="p" GeometricBounds="0 0 2 3"/></Spread>"#;

const STORY: &str = r#"<Story><ParagraphStyleRange><CharacterStyleRange><Content>hi</Content>
</CharacterStyleRange></ParagraphStyleRange></Story>"#;

#[test]
fn reads_all_that_the_manifest_lists() {
    let bytes = package(&[
        ("mimetype", MIME),
        ("designmap.xml", DESIGNMAP),
        ("MasterSpreads/MasterSpread_ua.xml", SPREAD),
        ("Spreads/Spread_u1.xml", SPREAD),
        ("Stories/Story_u10.xml", STORY),
        ("Resources/Graphic.xml", r#"<G><Color Self="c"/></G>"#),
        ("Resources/Styles.xml", r#"<S><ParagraphStyle Self="s"/></S>"#),
    ]);
    let (parts, archive) = import_idml(&bytes).expect("a package");
    assert_eq!(archive.entries.len(), 7);
    assert!(parts.palette.colors.contains_key("c"));
    assert!(parts.styles.paragraph_styles.contains_key("s"));
    assert_eq!(parts.master_spreads.len(), 1);
    assert_eq!(parts.spreads.len(), 1);
    assert_eq!(parts.spreads[0].src, "Spreads/Spread_u1.xml");
    assert_eq!(parts.spreads[0].spread.self_id.as_deref(), Some("u1"));
    assert_eq!(parts.stories.len(), 1);
    assert_eq!(parts.stories[0].story.paragraphs[0].runs[0].text, "hi");

    let document = assemble(parts, &vec!["ua".to_string()], &vec!["u10".to_string()]);
    assert_eq!(document.stories[0].self_id, "u10");
    assert_eq!(document.stories[0].src, "Stories/Story_u10.xml");
    let master = document.master_spreads.get("ua").expect("by its identifier");
    assert_eq!(master.src, "MasterSpreads/MasterSpread_ua.xml");
    assert_eq!(master.self_id, "ua");
}

#[test]
fn later_master_spread_stands() {
    let map = r#"<D><idPkg:MasterSpread src="a.xml"/><idPkg:MasterSpread src="b.xml"/></D>"#;
    let bytes = package(&[
        ("mimetype", MIME),
        ("designmap.xml", map),
        ("a.xml", SPREAD),
        ("b.xml", SPREAD),
    ]);
    let parts = import_idml_doc(&bytes).expect("a package");
    let ids = vec!["m".to_string(), "m".to_string()];
    let document = assemble(parts, &ids, &vec![]);
    assert_eq!(document.master_spreads.len(), 1);
    assert_eq!(document.master_spreads.get("m").unwrap().src, "b.xml");
}

#[test]
fn missing_resources_are_empty() {
    let bytes = package(&[("mimetype", MIME), ("designmap.xml", "<Document/>")]);
    let parts = import_idml_doc(&bytes).expect("a package");
    assert!(parts.palette.colors.is_empty());
    assert!(parts.styles.paragraph_styles.is_empty());
    assert!(parts.spreads.is_empty());
}

#[test]
fn missing_part_is_named() {
    let bytes = package(&[
        ("mimetype", MIME),
        ("designmap.xml", DESIGNMAP),
        ("MasterSpreads/MasterSpread_ua.xml", SPREAD),
        ("Spreads/Spread_u1.xml", SPREAD),
    ]);
    let err = import_idml_doc(&bytes).unwrap_err();
    assert!(matches!(&err, OpenError::MissingEntry(n) if n == "Stories/Story_u10.xml"));
    assert_eq!(
        err.message(),
        "manifest lists Stories/Story_u10.xml but archive has no such entry"
    );
    let archive = open_source_archive(&bytes).unwrap();
    assert!(matches!(
        import_idml_archive(&archive),
        Err(OpenError::MissingEntry(_))
    ));
}

#[test]
fn malformed_part_is_refused() {
    let bytes = package(&[("mimetype", MIME), ("designmap.xml", "<Document></Other>")]);
    let err = import_idml_doc(&bytes).unwrap_err();
    assert!(matches!(err, OpenError::Parse(ParseError::Xml(_))));
    assert!(err.message().starts_with("parse: xml: "), "{}", err.message());
}

#[test]
fn bytes_that_are_no_archive_are_refused() {
    let err = open_source_archive(b"not a package").unwrap_err();
    assert!(matches!(err, ParseError::Zip(_)));
    assert!(err.message().starts_with("zip: "));
    assert!(matches!(
        import_idml(b"not a package"),
        Err(OpenError::Parse(ParseError::Zip(_)))
    ));
}

#[test]
fn damaged_entry_is_refused() {
    let text = "x".repeat(40);
    let bytes = write_package(&vec![
        Entry {
            name: "mimetype",
            data: MIME.as_bytes().to_vec(),
            stored: true,
        },
        Entry {
            name: "designmap.xml",
            data: text.as_bytes().to_vec(),
            stored: true,
        },
    ])
    .unwrap();
    let at = bytes
        .windows(text.len())
        .position(|w| w == text.as_bytes())
        .unwrap();
    let mut damaged = bytes.clone();
    damaged[at] = b'y';
    let err = open_source_archive(&damaged).unwrap_err();
    assert!(matches!(err, ParseError::Io(_)));
    assert!(err.message().starts_with("i/o: "));
}

#[test]
fn missing_mimetype_is_named() {
    let bytes = package(&[("designmap.xml", "<Document/>")]);
    let err = open_source_archive(&bytes).unwrap_err();
    assert!(matches!(err, ParseError::MissingEntry("mimetype")));
    assert_eq!(err.message(), "missing required entry mimetype");
    assert!(matches!(
        recognise(IdMap::new()),
        Err(ParseError::MissingEntry("mimetype"))
    ));
}

#[test]
fn mimetype_is_quoted_and_trimmed() {
    let bytes = package(&[("mimetype", " text/\"x\" ")]);
    let err = open_source_archive(&bytes).unwrap_err();
    assert_eq!(
        err.message(),
        "not an IDML container: unexpected mimetype \"text/\\\"x\\\"\""
    );
    let padded = format!("\n {MIME}\t");
    let entries = vec![
        Entry {
            name: "mimetype",
            data: padded.into_bytes(),
            stored: true,
        },
        Entry {
            name: "designmap.xml",
            data: b"<Document/>".to_vec(),
            stored: true,
        },
    ];
    let archive = open_source_archive(&write_package(&entries).unwrap()).expect("padded");
    assert_eq!(archive.mimetype, MIME);
}

#[test]
fn mimetype_that_is_no_text_is_refused() {
    let entries = vec![Entry {
        name: "mimetype",
        data: vec![b'a', 0xff],
        stored: true,
    }];
    let err = open_source_archive(&write_package(&entries).unwrap()).unwrap_err();
    assert_eq!(
        err.message(),
        "not an IDML container: mimetype not utf-8: invalid utf-8 sequence of 1 bytes from index 1"
    );
}

#[test]
fn folders_are_left_out() {
    let bytes = package(&[
        ("mimetype", MIME),
        ("Stories/", ""),
        ("designmap.xml", "<Document/>"),
    ]);
    let archive = open_source_archive(&bytes).expect("a package");
    assert_eq!(archive.entries.len(), 2);
    assert!(archive.entry("Stories/").is_none());
    let mut keys = archive.entries.keys();
    keys.sort();
    assert_eq!(keys, vec!["designmap.xml", "mimetype"]);
}
