use std::str::FromStr;

use apaint::characteristics::{
    parse_characteristic, Characteristic, CharacteristicIfce, CharacteristicMixer,
    CharacteristicType, Finish, Fluorescence, Metallicness, Permanence, Transparency,
};

#[test]
fn characteristics_paint_finish() {
    assert_eq!(Finish::NAME, "Finish");
    assert_eq!(Finish::PROMPT, "Finish:");
    assert_eq!(Finish::Gloss.abbrev(), "G");
    assert_eq!(Finish::SemiGloss.abbrev(), "SG");
    assert_eq!(Finish::SemiFlat.abbrev(), "SF");
    assert_eq!(Finish::Flat.abbrev(), "F");
    assert_eq!(Finish::Gloss.full(), "gloss");
    assert_eq!(Finish::SemiGloss.full(), "semi-gloss");
    assert_eq!(Finish::SemiFlat.full(), "semi-flat");
    assert_eq!(Finish::Flat.full(), "flat");
    for a in ["G", "SG", "SF", "F"].iter() {
        assert_eq!(Finish::from_str(a).unwrap().abbrev(), *a);
    }
    for a in ["gloss", "semi-gloss", "semi-flat", "flat"].iter() {
        assert_eq!(Finish::from_str(a).unwrap().full(), *a);
    }
}

#[test]
fn characteristics_defaults() {
    assert_eq!(Finish::default(), Finish::Gloss);
    assert_eq!(Transparency::default(), Transparency::Opaque);
    assert_eq!(Permanence::default(), Permanence::Permanent);
    assert_eq!(Fluorescence::default(), Fluorescence::NonFluorescent);
    assert_eq!(Metallicness::default(), Metallicness::NonMetallic);
}

#[test]
fn characteristics_mixture() {
    let mut mixer = CharacteristicMixer::<Finish>::new();
    assert_eq!(mixer.characteristic(), None);
    mixer.add(Finish::Gloss, 1);
    mixer.add(Finish::Flat, 10);
    assert_eq!(mixer.characteristic(), Some(Finish::Flat));
    mixer.add(Finish::Gloss, 6);
    assert_eq!(mixer.characteristic(), Some(Finish::SemiFlat));
}

#[test]
fn characteristic_parse_refusal() {
    let err = Finish::from_str("shiny").unwrap_err();
    assert_eq!(err, "\"shiny\": Malformed 'Finish' value string");
    assert!(parse_characteristic::<Transparency>("").is_err());
    // "M" is the abbreviation of both Metal and Metallic: the first wins.
    assert_eq!(Metallicness::from_str("M"), Ok(Metallicness::Metal));
    assert_eq!(Metallicness::from_str("metallic"), Ok(Metallicness::Metallic));
}

#[test]
fn characteristic_levels_round_trip() {
    for level in 1..=4u64 {
        assert_eq!(Finish::from_level(level).level(), level);
    }
    assert_eq!(Finish::Gloss.level(), 1);
    assert_eq!(Finish::Flat.level(), 4);
    assert_eq!(Transparency::from_level(5), Transparency::Clear);
}

#[test]
fn characteristic_mixing_one_value() {
    let mut mixer = CharacteristicMixer::<Permanence>::new();
    mixer.add(Permanence::ModeratelyDurable, 7);
    assert_eq!(mixer.characteristic(), Some(Permanence::ModeratelyDurable));
    mixer.reset();
    assert_eq!(mixer.characteristic(), None);
}

#[test]
fn characteristic_halves_round_up() {
    // Levels 1 and 2 in equal parts: the mean 1.5 rounds up to 2.
    let mut mixer = CharacteristicMixer::<Finish>::new();
    mixer.add(Finish::Gloss, 1);
    mixer.add(Finish::SemiGloss, 1);
    assert_eq!(mixer.characteristic(), Some(Finish::SemiGloss));
}

#[test]
fn characteristic_aggregates() {
    let c = Characteristic::Transparency(Transparency::SemiOpaque);
    assert_eq!(c.name(), "Transparency");
    assert_eq!(c.prompt(), "Transparency:");
    assert_eq!(c.list_header_name(), "Tr.");
    assert_eq!(c.abbrev(), "SO");
    assert_eq!(c.full(), "semi-opaque");
    assert_eq!(
        c.str_values(),
        vec!["opaque", "semi-opaque", "semi-transparent", "transparent", "clear"]
    );
    let t = CharacteristicType::Metallicness;
    assert_eq!(t.name(), "Metallicness");
    assert_eq!(t.prompt(), "Metallicness:");
    assert_eq!(t.str_values().len(), 4);
    assert_eq!(t.display_string(), " Metallicness");
    assert_eq!(CharacteristicType::Finish.display_string(), "Finish");
    assert_eq!(Finish::str_values(), vec!["gloss", "semi-gloss", "semi-flat", "flat"]);
}

#[test]
fn characteristic_mixture_within_levels() {
    // Levels 2 (6 parts) and 4 (1 part): the mean 16 / 7 rounds to 2.
    let mut mixer = CharacteristicMixer::<Finish>::default();
    mixer.add(Finish::SemiGloss, 6);
    mixer.add(Finish::Flat, 1);
    mixer.add(Finish::Gloss, 0);
    assert_eq!(mixer.characteristic(), Some(Finish::SemiGloss));
    let mut empty = CharacteristicMixer::<Finish>::new();
    empty.add(Finish::Flat, 0);
    assert_eq!(empty.characteristic(), None);
}
