use apaint::characteristics::{Finish, Fluorescence, Metallicness, Permanence, Transparency};
use apaint::colour::Rgb16;
use apaint::legacy::{
    extract_header_value, extract_legacy_paint_series_spec, extract_paint_spec, paint_line_parts,
    split_lines,
};
use apaint::Error;

const TEST_TEXT: &str = r###"Standard: Federal Standard 595C: Artificial Flat (<http://www.colorserver.net/>)
Sponsor: U.S. Government
PaintSpec(name="FS30032", rgb=RGB16(red=0x2821, green=0x0221, blue=0x012D), finish="F", transparency="O", fluorescence="NF", metallic="NM", notes="")
PaintSpec(name="FS30040", rgb=RGB16(red=0x4200, green=0x3F00, blue=0x3800), finish="F", transparency="O", fluorescence="NF", metallic="NM", notes="")
PaintSpec(name="FS30045", rgb=RGB16(red=0x4DEA, green=0x3CEA, blue=0x35EA), finish="F", transparency="O", fluorescence="NF", metallic="NM", notes="")
PaintSpec(name="FS30049", rgb=RGB16(red=0x37E5, green=0x04E5, blue=0x03E5), finish="F", transparency="O", fluorescence="NF", metallic="NM", notes="")
PaintSpec(name="FS30051", rgb=RGB16(red=0x50D8, green=0x42D8, blue=0x39D8), finish="F", transparency="O", fluorescence="NF", metallic="NM", notes="Leather Brown")
PaintSpec(name="FS30055", rgb=RGB16(red=0x5900, green=0x2D00, blue=0x1000), finish="F", transparency="O", fluorescence="NF", metallic="NM", notes="")
PaintSpec(name="FS30059", rgb=RGB16(red=0x4700, green=0x3300, blue=0x2800), finish="F", transparency="O", fluorescence="NF", metallic="NM", notes="")
"###;

/// Reads `RGB16(red=0x...., green=0x...., blue=0x....)`.
fn parse_rgb16(text: &str) -> Option<Rgb16> {
    let inner = text.strip_prefix("RGB16(")?.strip_suffix(')')?;
    let mut values = [0u16; 3];
    for (i, (item, key)) in inner.split(", ").zip(["red", "green", "blue"]).enumerate() {
        let hex = item.strip_prefix(key)?.strip_prefix("=0x")?;
        values[i] = u16::from_str_radix(hex, 16).ok()?;
    }
    Some(Rgb16::new(values[0], values[1], values[2]))
}

#[test]
fn read_legacy_files() {
    let mut lines = TEST_TEXT.lines();
    let line = lines.next().unwrap();
    println!("line: {:?}", line);
    let cap = extract_header_value(Some(line));
    println!("cap: {:?}", cap);
    let cap = cap.unwrap();
    assert_eq!(
        &cap,
        r###"Federal Standard 595C: Artificial Flat (<http://www.colorserver.net/>)"###
    );
    let line = lines.next().unwrap();
    println!("line: {:?}", line);
    let cap = extract_header_value(Some(line));
    println!("cap: {:?}", cap);
    let cap = cap.unwrap();
    assert_eq!(&cap, r###"U.S. Government"###);
    for line in lines {
        println!("line: {:?}", line);
        let cap = paint_line_parts(line);
        assert!(cap.is_some());
    }
}

#[test]
fn extract_legacy_series() {
    assert!(extract_legacy_paint_series_spec(&TEST_TEXT, &parse_rgb16).is_ok());
}

#[test]
fn legacy_series_contents() {
    let spec = extract_legacy_paint_series_spec(&TEST_TEXT, &parse_rgb16).unwrap();
    assert_eq!(
        spec.series_id().series_name(),
        "Federal Standard 595C: Artificial Flat (<http://www.colorserver.net/>)"
    );
    assert_eq!(spec.series_id().proprietor(), "U.S. Government");
    let paints = spec.paints();
    assert_eq!(paints.len(), 7);
    assert_eq!(paints[0].id, "FS30032");
    assert_eq!(paints[0].rgb, Rgb16::new(0x2821, 0x0221, 0x012D));
    assert_eq!(paints[4].id, "FS30051");
    assert_eq!(paints[4].notes, "Leather Brown");
    assert_eq!(paints[4].finish, Finish::Flat);
    assert_eq!(paints[4].transparency, Transparency::Opaque);
    assert_eq!(paints[4].fluorescence, Fluorescence::NonFluorescent);
    assert_eq!(paints[4].metallicness, Metallicness::NonMetallic);
    assert_eq!(paints[6].id, "FS30059");
}

#[test]
fn legacy_series_missing_header() {
    let text = "Standard: Some Standard\n";
    assert!(matches!(
        extract_legacy_paint_series_spec(text, &parse_rgb16),
        Err(Error::NotAValidLegacySpec)
    ));
    assert!(matches!(
        extract_legacy_paint_series_spec("", &parse_rgb16),
        Err(Error::NotAValidLegacySpec)
    ));
}

#[test]
fn legacy_series_bad_paint_line() {
    let text = "Standard: S\nSponsor: P\nnot a paint line\n";
    assert!(matches!(
        extract_legacy_paint_series_spec(text, &parse_rgb16),
        Err(Error::NotAValidLegacySpec)
    ));
}

#[test]
fn legacy_series_unreadable_colour() {
    let text = "Standard: S\nSponsor: P\nPaintSpec(name=\"X\", rgb=RGB16(red=0xZZ, green=0x0, blue=0x0), finish=\"F\", notes=\"\")\n";
    assert!(matches!(
        extract_legacy_paint_series_spec(text, &parse_rgb16),
        Err(Error::NotAValidLegacySpec)
    ));
}

#[test]
fn header_values() {
    assert_eq!(extract_header_value(Some("Sponsor: Acme")).unwrap(), "Acme");
    assert_eq!(extract_header_value(Some("Sponsor:Acme")).unwrap(), "Acme");
    assert!(matches!(extract_header_value(Some("no colon here")), Err(Error::NotAValidLegacySpec)));
    assert!(matches!(extract_header_value(Some(": value")), Err(Error::NotAValidLegacySpec)));
    assert!(matches!(extract_header_value(None), Err(Error::NotAValidLegacySpec)));
}

#[test]
fn paint_line_parts_of_a_line() {
    let line = "PaintSpec(name=\"FS30051\", rgb=RGB16(red=0x50D8, green=0x42D8, blue=0x39D8), finish=\"F\", transparency=\"O\", fluorescence=\"NF\", metallic=\"NM\", notes=\"Leather Brown\")";
    let parts = paint_line_parts(line).unwrap();
    assert_eq!(parts.name, "FS30051");
    assert_eq!(parts.rgb, "RGB16(red=0x50D8, green=0x42D8, blue=0x39D8)");
    assert_eq!(parts.notes.as_deref(), Some("Leather Brown"));
    assert!(paint_line_parts("PaintSpec(name=\"x\")").is_none());
}

#[test]
fn paint_spec_of_a_line() {
    let line = "PaintSpec(name=\"P1\", rgb=RGB16(red=0x0001, green=0x0002, blue=0x0003), finish=\"SG\", transparency=\"T\", permanence=\"MD\", fluorescence=\"F\", metallic=\"M\", notes=\"n\")";
    let paint = extract_paint_spec(line, &parse_rgb16).unwrap();
    assert_eq!(paint.id, "P1");
    assert_eq!(paint.name, "P1");
    assert_eq!(paint.notes, "n");
    assert_eq!(paint.rgb, Rgb16::new(1, 2, 3));
    assert_eq!(paint.finish, Finish::SemiGloss);
    assert_eq!(paint.transparency, Transparency::Transparent);
    assert_eq!(paint.permanence, Permanence::ModeratelyDurable);
    assert_eq!(paint.fluorescence, Fluorescence::Fluorescent);
    assert_eq!(paint.metallicness, Metallicness::Metal);
}

#[test]
fn lines_as_str_lines_gives_them() {
    let text = "a\r\nb\n\nc";
    let lines = split_lines(text);
    let expected: Vec<&str> = text.lines().collect();
    assert_eq!(lines, expected);
    assert!(split_lines("").is_empty());
    assert_eq!(split_lines("x\n"), vec!["x".to_string()]);
}

#[test]
fn header_words_are_unicode_word_characters() {
    // A combining mark belongs to a word; a superscript digit does not.
    assert_eq!(extract_header_value(Some("Standarde\u{301}: V")).unwrap(), "V");
    assert!(matches!(extract_header_value(Some("Sponsor\u{b2}: V")), Err(Error::NotAValidLegacySpec)));
    assert_eq!(extract_header_value(Some("Sponsor:\u{3000}V")).unwrap(), "V");
}
