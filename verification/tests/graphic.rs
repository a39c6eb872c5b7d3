//! The palette of a package.
use idml_import::graphic::{parse_graphic, ColorModel, ColorSpace, GradientKind};
use idml_import::Num;

/// A value of the library as an ordinary one.
trait Shown {
    type Plain;

    fn shown(&self) -> Self::Plain;
}

impl Shown for Num {
    type Plain = f32;

    fn shown(&self) -> f32 {
        f32::from_bits(self.bits)
    }
}

impl<T: Shown> Shown for Option<T> {
    type Plain = Option<T::Plain>;

    fn shown(&self) -> Option<T::Plain> {
        self.as_ref().map(|x| x.shown())
    }
}

impl<T: Shown> Shown for Vec<T> {
    type Plain = Vec<T::Plain>;

    fn shown(&self) -> Vec<T::Plain> {
        self.iter().map(|x| x.shown()).collect()
    }
}

const SAMPLE: &[u8] = br#"<?xml version="1.0" encoding="UTF-8"?>
<idPkg:Graphic xmlns:idPkg="http://ns.adobe.com/AdobeInDesign/idml/1.0/packaging">
  <Graphic>
    <Color Self="Color/Red" Name="Red" Model="Process" Space="CMYK" ColorValue="0 100 100 0"/>
    <Color Self="Color/Paper" Name="Paper" Space="RGB" ColorValue="255 255 255"/>
    <Color Self="Color/DarkGray" Name="DarkGray" Space="Gray" ColorValue="60"/>
  </Graphic>
</idPkg:Graphic>"#;

#[test]
fn parses_color_entries() {
    let g = parse_graphic(SAMPLE).unwrap();
    assert_eq!(g.colors.len(), 3);
    let red = g.resolve("Color/Red").unwrap();
    assert_eq!(red.name.as_deref(), Some("Red"));
    assert_eq!(red.space, ColorSpace::Cmyk);
    assert_eq!(red.value.shown(), vec![0.0, 100.0, 100.0, 0.0]);
}

#[test]
fn unknown_color_id_resolves_to_none() {
    let g = parse_graphic(SAMPLE).unwrap();
    assert!(g.resolve("Color/NotThere").is_none());
}

const GRADIENT_SAMPLE: &[u8] = br#"<?xml version="1.0" encoding="UTF-8"?>
<idPkg:Graphic xmlns:idPkg="http://ns.adobe.com/AdobeInDesign/idml/1.0/packaging">
  <Graphic>
    <Color Self="Color/Sky"   Name="Sky"   Space="RGB" ColorValue="120 180 255"/>
    <Color Self="Color/Sun"   Name="Sun"   Space="RGB" ColorValue="255 220 100"/>
    <Gradient Self="Gradient/Sky" Name="Sky" Type="Linear">
      <GradientStop StopColor="Color/Sun" Location="0"/>
      <GradientStop StopColor="Color/Sky" Location="100"/>
    </Gradient>
  </Graphic>
</idPkg:Graphic>"#;

#[test]
fn parses_linear_gradient_with_two_stops() {
    let g = parse_graphic(GRADIENT_SAMPLE).unwrap();
    let grad = g.gradients.get("Gradient/Sky").expect("gradient parsed");
    assert_eq!(grad.kind, GradientKind::Linear);
    assert_eq!(grad.stops.len(), 2);
    assert_eq!(grad.stops[0].stop_color, "Color/Sun");
    assert_eq!(grad.stops[0].location_pct.shown(), 0.0);
    assert_eq!(grad.stops[1].stop_color, "Color/Sky");
    assert_eq!(grad.stops[1].location_pct.shown(), 100.0);
}

const ALPHA_SAMPLE: &[u8] = br#"<?xml version="1.0" encoding="UTF-8"?>
<idPkg:Graphic xmlns:idPkg="http://ns.adobe.com/AdobeInDesign/idml/1.0/packaging">
  <Graphic>
    <Color Self="Color/Translucent" Name="T" Space="RGB" ColorValue="120 180 255" AlphaPercentage="40"/>
    <Color Self="Color/HalfAlpha" Name="H" Space="RGB" ColorValue="0 0 0" Alpha="0.5"/>
    <Color Self="Color/Opaque" Name="O" Space="RGB" ColorValue="0 0 0"/>
  </Graphic>
</idPkg:Graphic>"#;

#[test]
fn resolve_alpha_reads_alpha_percentage() {
    let g = parse_graphic(ALPHA_SAMPLE).unwrap();
    let alpha = g.resolve_alpha("Color/Translucent").expect("alpha set");
    assert!((alpha.shown() - 0.40).abs() < 1e-4, "got {:?}", alpha);
}

#[test]
fn resolve_alpha_accepts_unit_float_form() {
    let g = parse_graphic(ALPHA_SAMPLE).unwrap();
    let alpha = g.resolve_alpha("Color/HalfAlpha").expect("alpha set");
    assert!((alpha.shown() - 0.5).abs() < 1e-4, "got {:?}", alpha);
}

#[test]
fn resolve_alpha_returns_none_for_swatch_without_alpha() {
    let g = parse_graphic(ALPHA_SAMPLE).unwrap();
    assert!(g.resolve_alpha("Color/Opaque").is_none());
}

#[test]
fn resolve_alpha_unknown_id_returns_none() {
    let g = parse_graphic(ALPHA_SAMPLE).unwrap();
    assert!(g.resolve_alpha("Color/NotThere").is_none());
}

const SPOT_SAMPLE: &[u8] = br#"<?xml version="1.0" encoding="UTF-8"?>
<idPkg:Graphic xmlns:idPkg="http://ns.adobe.com/AdobeInDesign/idml/1.0/packaging">
  <Graphic>
    <Color Self="Color/Pantone286" Name="PANTONE 286 C" Model="Spot"
           Space="LAB" ColorValue="20 25 -70"
           AlternateSpace="CMYK" AlternateColorValue="100 75 0 0"/>
    <Color Self="Color/Pantone286Half" Name="PANTONE 286 C 50%" Model="Spot"
           Space="LAB" ColorValue="20 25 -70"
           AlternateSpace="CMYK" AlternateColorValue="100 75 0 0"
           TintValue="50"/>
    <Color Self="Color/PantonePlain" Name="PANTONE plain" Model="Spot"
           Space="LAB" ColorValue="20 25 -70"/>
    <Color Self="Color/ProcessPureM" Name="Magenta" Model="Process"
           Space="CMYK" ColorValue="0 100 0 0"/>
  </Graphic>
</idPkg:Graphic>"#;

#[test]
fn parses_spot_color_with_alternate_cmyk() {
    let g = parse_graphic(SPOT_SAMPLE).unwrap();
    let spot = g.resolve("Color/Pantone286").unwrap();
    assert_eq!(spot.model, ColorModel::Spot);
    assert_eq!(spot.alternate_space, Some(ColorSpace::Cmyk));
    assert_eq!(spot.alternate_value.shown(), vec![100.0, 75.0, 0.0, 0.0]);
    assert!(spot.tint.is_none(), "no swatch-level tint here");
}

#[test]
fn parses_swatch_level_tint_value() {
    let g = parse_graphic(SPOT_SAMPLE).unwrap();
    let spot = g.resolve("Color/Pantone286Half").unwrap();
    assert_eq!(spot.tint.shown(), Some(50.0));
}

#[test]
fn effective_cmyk_for_process_returns_value_unchanged() {
    let g = parse_graphic(SPOT_SAMPLE).unwrap();
    let m = g.resolve("Color/ProcessPureM").unwrap();
    assert_eq!(m.effective_cmyk().shown(), Some(vec![0.0, 100.0, 0.0, 0.0]));
}

#[test]
fn effective_cmyk_for_spot_uses_alternate() {
    let g = parse_graphic(SPOT_SAMPLE).unwrap();
    let spot = g.resolve("Color/Pantone286").unwrap();
    assert_eq!(spot.effective_cmyk().shown(), Some(vec![100.0, 75.0, 0.0, 0.0]));
}

#[test]
fn effective_cmyk_for_spot_with_tint_scales_each_channel() {
    let g = parse_graphic(SPOT_SAMPLE).unwrap();
    let spot = g.resolve("Color/Pantone286Half").unwrap();
    assert_eq!(spot.effective_cmyk().shown(), Some(vec![50.0, 37.5, 0.0, 0.0]));
}

#[test]
fn effective_cmyk_for_spot_without_cmyk_alternate_returns_none() {
    let g = parse_graphic(SPOT_SAMPLE).unwrap();
    let spot = g.resolve("Color/PantonePlain").unwrap();
    assert!(spot.effective_cmyk().is_none());
}

#[test]
fn tint_value_minus_one_is_treated_as_absent() {
    const NEG: &[u8] = br#"<?xml version="1.0" encoding="UTF-8"?>
<idPkg:Graphic xmlns:idPkg="http://ns.adobe.com/AdobeInDesign/idml/1.0/packaging">
  <Graphic>
    <Color Self="Color/X" Name="X" Model="Spot" Space="LAB" ColorValue="20 25 -70"
           AlternateSpace="CMYK" AlternateColorValue="100 0 0 0" TintValue="-1"/>
  </Graphic>
</idPkg:Graphic>"#;
    let g = parse_graphic(NEG).unwrap();
    let c = g.resolve("Color/X").unwrap();
    assert!(c.tint.is_none());
    assert_eq!(c.effective_cmyk().shown(), Some(vec![100.0, 0.0, 0.0, 0.0]));
}

const GRAPHIC: &[u8] = br#"<?xml version="1.0" encoding="UTF-8" standalone="yes"?>
<idPkg:Graphic xmlns:idPkg="http://ns.adobe.com/AdobeInDesign/idml/1.0/packaging" DOMVersion="20.0">
  <Color Self="Color/Vermilion" Model="Spot" Space="CMYK" ColorValue="0 85 90 5"
         Name="Vermilion" AlternateSpace="CMYK" AlternateColorValue="0 85 90 5"/>
  <Tint Self="Color/Vermilion20" Name="Vermilion 20%" BaseColor="Color/Vermilion"
        TintValue="20"/>
</idPkg:Graphic>"#;

#[test]
fn a_tint_element_is_read_and_resolves_through_its_base() {
    let g = parse_graphic(GRAPHIC).expect("parse Graphic.xml");

    let tint = g
        .colors
        .get("Color/Vermilion20")
        .expect("the <Tint> element must land in the swatch table — a file \
                 using named tints must not lose them on the way in");
    assert_eq!(tint.tint.shown(), Some(20.0), "the tint value is read");

    let cmyk = tint
        .effective_cmyk()
        .expect("a spot tint resolves through its CMYK alternate")
        .shown();
    let expect = [0.0, 85.0 * 0.2, 90.0 * 0.2, 5.0 * 0.2];
    for (got, want) in cmyk.iter().zip(expect.iter()) {
        assert!(
            (got - want).abs() < 0.001,
            "20% of the base ink, channel-wise: got {cmyk:?}, want {expect:?}"
        );
    }
}

#[test]
fn the_legacy_color_tintvalue_spelling_still_reads() {
    const LEGACY: &[u8] = br#"<?xml version="1.0" encoding="UTF-8" standalone="yes"?>
<idPkg:Graphic xmlns:idPkg="http://ns.adobe.com/AdobeInDesign/idml/1.0/packaging" DOMVersion="20.0">
  <Color Self="Color/V20" Model="Process" Space="CMYK" ColorValue="0 85 90 5"
         Name="Vermilion 20%" TintValue="20"/>
</idPkg:Graphic>"#;
    let g = parse_graphic(LEGACY).expect("parse legacy Graphic.xml");
    let c = g.colors.get("Color/V20").expect("legacy swatch still read");
    assert_eq!(c.tint.shown(), Some(20.0));
    let cmyk = c.effective_cmyk().expect("process CMYK resolves").shown();
    assert!((cmyk[1] - 17.0).abs() < 0.001, "still 20% of 85: {cmyk:?}");
}
