use std::rc::Rc;

use apaint::colour::Rgb16;
use apaint::series::{
    BasicPaintSpec, SeriesId, SeriesPaintFinder, SeriesPaintSeries, SeriesPaintSeriesSpec,
};
use apaint::spec::BasicPaintSeriesSpec;
use apaint::{Error, LabelText, TooltipText};

fn red() -> Rgb16 {
    Rgb16::new(0xFFFF, 0, 0)
}

fn yellow() -> Rgb16 {
    Rgb16::new(0xFFFF, 0xFFFF, 0)
}

#[test]
fn series_spec_keeps_paints_sorted() {
    let mut series_spec = SeriesPaintSeriesSpec::default();
    series_spec.set_proprietor("owner");
    series_spec.set_series_name("series name");
    assert!(series_spec.paints().is_empty());
    assert!(series_spec.add(&BasicPaintSpec::new(yellow(), "yellow")).is_none());
    assert!(series_spec.add(&BasicPaintSpec::new(red(), "red")).is_none());
    let ids: Vec<&str> = series_spec.paints().iter().map(|p| p.id.as_str()).collect();
    assert_eq!(ids, vec!["red", "yellow"]);
    assert_eq!(series_spec.series_id().proprietor(), "owner");
    assert_eq!(series_spec.series_id().series_name(), "series name");
    assert!(series_spec.is_sorted_unique());
}

#[test]
fn series_spec_add_replaces_same_id() {
    let mut series_spec = SeriesPaintSeriesSpec::default();
    series_spec.add(&BasicPaintSpec::new(red(), "red"));
    let mut darker = BasicPaintSpec::new(Rgb16::new(0x8000, 0, 0), "red");
    darker.notes = "darker".to_string();
    let old = series_spec.add(&darker).unwrap();
    assert_eq!(old.rgb, red());
    assert_eq!(series_spec.paints().len(), 1);
    assert_eq!(series_spec.find("red").unwrap().notes, "darker");
}

#[test]
fn series_spec_remove() {
    let mut series_spec = SeriesPaintSeriesSpec::default();
    series_spec.add(&BasicPaintSpec::new(red(), "red"));
    series_spec.add(&BasicPaintSpec::new(yellow(), "yellow"));
    let removed = series_spec.remove("red").unwrap();
    assert_eq!(removed.id, "red");
    assert!(series_spec.find("red").is_none());
    match series_spec.remove("red") {
        Err(Error::NotFound(id)) => assert_eq!(id, "red"),
        _ => panic!("expected NotFound"),
    }
    series_spec.remove_all();
    assert!(series_spec.paints().is_empty());
}

#[test]
fn series_paints_and_labels() {
    let mut series_spec = SeriesPaintSeriesSpec::default();
    series_spec.set_proprietor("owner");
    series_spec.set_series_name("series name");
    let mut spec = BasicPaintSpec::new(red(), "red");
    spec.notes = "a note".to_string();
    series_spec.add(&spec);
    series_spec.add(&BasicPaintSpec::new(yellow(), "yellow"));
    let series = SeriesPaintSeries::from_spec(&series_spec);
    assert_eq!(series.paints().len(), 2);
    let paint = series.find("red").unwrap();
    assert_eq!(paint.id(), "red");
    assert_eq!(paint.name(), None);
    assert_eq!(paint.notes(), Some("a note"));
    assert_eq!(paint.label_text(), "red: a note");
    assert_eq!(paint.tooltip_text(), "red: a note\na note\nseries name\nowner");
    let yellow_paint = series.find("yellow").unwrap();
    assert_eq!(yellow_paint.label_text(), "yellow: #FFFF00");
    assert!(series.find("green").is_none());
    assert_eq!(series.series_id().series_name(), "series name");
}

#[test]
fn series_finds_its_paints() {
    let mut series_spec = SeriesPaintSeriesSpec::default();
    series_spec.add(&BasicPaintSpec::new(red(), "red"));
    let series = Rc::new(SeriesPaintSeries::from_spec(&series_spec));
    let found = series.get_series_paint("red", None).unwrap();
    assert_eq!(found.rgb(), red());
    match series.get_series_paint("green", None) {
        Err(Error::NotFound(id)) => assert_eq!(id, "green"),
        _ => panic!("expected NotFound"),
    }
}

#[test]
fn series_id_display_and_order() {
    let a = SeriesId::new("Artist Oils", "Acme");
    assert_eq!(a.display_string(), "Artist Oils:(Acme)");
    assert_eq!(a.series_name(), "Artist Oils");
    assert_eq!(a.proprietor(), "Acme");
    let b = SeriesId::new("Basic Oils", "Acme");
    assert!(a == a.clone());
    assert!(a != b);
}

#[test]
fn error_messages() {
    assert_eq!(Error::NotFound("red".to_string()).message(), "red: Not found.");
    assert_eq!(
        Error::UnknownSeries(SeriesId::new("S", "P")).message(),
        "S:(P): unknown paint series"
    );
    assert_eq!(
        Error::UnknownSeriesPaint(SeriesId::new("S", "P"), "x".to_string()).message(),
        "x:(S:(P)): unknown paint"
    );
    assert_eq!(Error::NotAValidLegacySpec.message(), "Not a valid specification.");
    assert_eq!(Error::NotImplemented.message(), "Feature not yet implemented.");
}

#[test]
fn basic_paint_series_spec() {
    let mut spec = BasicPaintSeriesSpec::default();
    spec.set_series_name("n");
    spec.set_proprietor("p");
    spec.add(&BasicPaintSpec::new(red(), "b"));
    spec.add(&BasicPaintSpec::new(red(), "a"));
    assert_eq!(spec.paints()[0].id, "a");
    assert!(spec.find("b").is_some());
    assert!(spec.remove("c").is_err());
}
