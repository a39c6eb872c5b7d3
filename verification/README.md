# idml_import

Reads publications in IDML, the ZIP-and-XML package format, into typed data, and
makes documents of pages that were read elsewhere. Written in Rust and verified
with Verus: what a function of the library returns is stated in its contract and
proved, up to what the libraries that it calls are trusted to do.

## Layout

- `src/` is the library.
  - Foundations: `bignat`, `number` (single-precision numbers by their bit
    pattern), `decimal` (the notation they are written in), `text`, `util`,
    `idmap`, `encoding`.
  - XML: `xml` turns a part into events and reads the attributes of tags.
  - Parts: `designmap`, `graphic`, `styles` (with `text_attrs`), `spread` (with
    `vocabulary`, `geometry`, `page_items`, `shapes`, `edits`), `story` (with
    `story_model`). For each there is a function from events to the value, and
    one from bytes.
  - Packages: `archive` opens one, `import` reads all that its manifest lists,
    `error` says what went wrong.
  - Documents that are made: `ir` is what was read, `assembly` makes a document
    of it, `ocf` wraps a document into a package.
  - Laws: `story_laws`, `spread_laws`, `listing_laws`, `outline_laws`,
    `style_laws`, `resource_laws`, `transform_laws` and `assembly_laws` prove what
    holds of every value that is read or made. Other laws stand in the modules
    that they are about.
- `tests/` runs the library, with the libraries it rests on.
- `app/` is the program around it: errors that print, the JSON form of what was
  read, and what takes floating point.

## What is trusted

XML, ZIP, base64 and shared bytes come from `quick_xml`, `zip`, `base64` and
`bytes`. Each call into them stands in a small function whose contract is not
proved; its comment says what it claims. The texts of their errors, which
`ParseError::message` and `OpenError::message` end in, are left open.
