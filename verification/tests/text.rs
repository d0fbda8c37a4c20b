use apaint::colour::Rgb16;
use apaint::digest::text_digest;
use apaint::text::{abbreviate, acronym, compare_strs, IdOrder};

#[test]
fn acronyms() {
    assert_eq!(acronym("SemiGloss"), "SG");
    assert_eq!(acronym("NonFluorescent"), "NF");
    assert_eq!(acronym("lower"), "");
    assert_eq!(acronym(""), "");
}

#[test]
fn abbreviations() {
    assert_eq!(abbreviate("Transparency", 2), "Tr.");
    assert_eq!(abbreviate("Fi", 5), "Fi.");
    assert_eq!(abbreviate("", 2), ".");
}

#[test]
fn string_order() {
    assert_eq!(compare_strs("a", "b"), IdOrder::Less);
    assert_eq!(compare_strs("b", "a"), IdOrder::Greater);
    assert_eq!(compare_strs("ab", "ab"), IdOrder::Equal);
    assert_eq!(compare_strs("a", "ab"), IdOrder::Less);
}

#[test]
fn digests() {
    let digest = text_digest("abc");
    assert_eq!(digest.len(), 32);
    let hex: String = digest.iter().map(|b| format!("{:02x}", b)).collect();
    assert_eq!(hex, "ba7816bf8f01cfea414140de5dae2223b00361a396177a9cb410ff61f20015ad");
    assert_ne!(text_digest("abd"), digest);
}

#[test]
fn pango_strings() {
    assert_eq!(Rgb16::new(0xFFFF, 0x8000, 0x00FF).pango_string(), "#FF8000");
    assert_eq!(Rgb16::new(0, 0, 0).pango_string(), "#000000");
}
