use std::str::FromStr;

use apaint::properties::{
    Finish, Fluorescence, Metallicness, Permanence, Property, PropertyIfce, PropertyMixer,
    PropertyType, Transparency, WatercolourProperty, WatercolourPropertyType,
};

#[test]
fn properties_paint_finish() {
    assert_eq!(Finish::NAME, "Finish");
    assert_eq!(Finish::PROMPT, "Finish:");
    assert_eq!(Finish::Gloss.abbrev(), "G");
    assert_eq!(Finish::SemiGloss.abbrev(), "SG");
    assert_eq!(Finish::SemiFlat.abbrev(), "SF");
    assert_eq!(Finish::Flat.abbrev(), "F");
    assert_eq!(Finish::Gloss.full(), "gloss");
    assert_eq!(Finish::SemiGloss.full(), "semi-gloss");
    assert_eq!(Finish::SemiFlat.full(), "semi-flat");
    assert_eq!(Finish::Flat.full(), "flat");
    for a in ["G", "SG", "SF", "F"].iter() {
        assert_eq!(Finish::from_str(a).unwrap().abbrev(), *a);
    }
    for a in ["gloss", "semi-gloss", "semi-flat", "flat"].iter() {
        assert_eq!(Finish::from_str(a).unwrap().full(), *a);
    }
}

#[test]
fn properties_defaults() {
    assert_eq!(Finish::default(), Finish::Gloss);
    assert_eq!(Transparency::default(), Transparency::Transparent);
    assert_eq!(Permanence::default(), Permanence::Permanent);
    assert_eq!(Fluorescence::default(), Fluorescence::NonFluorescent);
    assert_eq!(Metallicness::default(), Metallicness::NonMetallic);
}

#[test]
fn properties_mixture() {
    let mut mixer = PropertyMixer::<Finish>::new();
    assert_eq!(mixer.property(), None);
    mixer.add(Finish::Gloss, 1);
    mixer.add(Finish::Flat, 10);
    assert_eq!(mixer.property(), Some(Finish::Flat));
    mixer.add(Finish::Gloss, 6);
    assert_eq!(mixer.property(), Some(Finish::SemiFlat));
}

#[test]
fn property_aggregates() {
    let p = Property::Finish(Finish::Flat);
    assert_eq!(p.name(), "Finish");
    assert_eq!(p.abbrev(), "F");
    assert_eq!(p.full(), "flat");
    assert_eq!(PropertyType::Finish.display_string(), "Finish");
    assert_eq!(PropertyType::Opacity.display_string(), " Opacity");
    assert_eq!(PropertyType::Opacity.name(), "Opacity");
    let w = WatercolourProperty::Transparency(Transparency::Clear);
    assert_eq!(w.name(), "Transparency");
    assert_eq!(w.full(), "clear");
    let _ = WatercolourPropertyType::Transparency;
}

#[test]
fn property_parse_refusal() {
    assert_eq!(
        Finish::from_str("matt").unwrap_err(),
        "\"matt\": Malformed 'Finish' value string"
    );
}
