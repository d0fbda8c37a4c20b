use std::rc::Rc;

use apaint::colour::Rgb16;
use apaint::mixtures::{
    MixingSession, MixtureBuilder, Paint, SaveableMixingSession, SaveableMixture, SaveablePaint,
};
use apaint::series::{BasicPaintSpec, SeriesPaintSeries, SeriesPaintSeriesSpec};
use apaint::text::IdOrder;
use apaint::{Error, LabelText, TooltipText};

fn test_series() -> Rc<SeriesPaintSeries> {
    let mut series_spec = SeriesPaintSeriesSpec::default();
    series_spec.set_proprietor("owner");
    series_spec.set_series_name("series name");
    assert!(series_spec.paints().is_empty());
    series_spec.add(&BasicPaintSpec::new(Rgb16::new(0xFFFF, 0, 0), "red"));
    series_spec.add(&BasicPaintSpec::new(Rgb16::new(0xFFFF, 0xFFFF, 0), "yellow"));
    series_spec.add(&BasicPaintSpec::new(Rgb16::new(0, 0, 0xFFFF), "blue"));
    Rc::new(SeriesPaintSeries::from_spec(&series_spec))
}

#[test]
fn mixing_session_round_trip() {
    let series = test_series();
    let mut session = MixingSession::new();
    session.set_notes("a test mixing session");
    let red = series.find("red").unwrap();
    let yellow = series.find("yellow").unwrap();
    let mix = vec![(Rc::clone(red), 1), (Rc::clone(yellow), 1)];
    let mixture = MixtureBuilder::new("#001")
        .series_paint_components(mix)
        .name("orange")
        .build();
    session.add_mixture(&mixture);
    let second = MixtureBuilder::new("#002")
        .series_paint_component((Rc::clone(red), 3))
        .mixed_paint_component((Rc::clone(&mixture), 6))
        .notes("redder")
        .build();
    session.add_mixture(&second);
    let saved = SaveableMixingSession::from_session(&session);
    assert!(saved.is_restorable());
    let read_session = saved.mixing_session(&series).unwrap();
    assert_eq!(session.notes(), read_session.notes());
    assert_eq!(session.mixtures().len(), read_session.mixtures().len());
    for (mix1, mix2) in session.mixtures().iter().zip(read_session.mixtures().iter()) {
        assert_eq!(mix1, mix2);
        assert_eq!(mix1.colour(), mix2.colour());
        assert_eq!(mix1.components().len(), mix2.components().len());
        for ((p1, n1), (p2, n2)) in mix1.components().iter().zip(mix2.components().iter()) {
            assert_eq!(p1.id(), p2.id());
            assert_eq!(n1, n2);
        }
    }
    // Saving the restored session gives the same saved form.
    let resaved = SaveableMixingSession::from_session(&read_session);
    assert_eq!(saved.notes(), resaved.notes());
    for (a, b) in saved.mixtures().iter().zip(resaved.mixtures().iter()) {
        assert_eq!(a.id(), b.id());
        assert_eq!(a.name(), b.name());
        assert_eq!(a.notes(), b.notes());
        assert_eq!(a.components().len(), b.components().len());
        for ((pa, na), (pb, nb)) in a.components().iter().zip(b.components().iter()) {
            assert_eq!(na, nb);
            match (pa, pb) {
                (SaveablePaint::Series(sa, ia), SaveablePaint::Series(sb, ib)) => {
                    assert!(sa == sb);
                    assert_eq!(ia, ib);
                }
                (SaveablePaint::Mixed(ia), SaveablePaint::Mixed(ib)) => assert_eq!(ia, ib),
                _ => panic!("kinds differ"),
            }
        }
    }
}

#[test]
fn build_reduces_parts_and_mixes_colour() {
    let series = test_series();
    let red = series.find("red").unwrap();
    let blue = series.find("blue").unwrap();
    let mixture = MixtureBuilder::new("#003")
        .series_paint_component((Rc::clone(red), 2))
        .series_paint_component((Rc::clone(blue), 4))
        .build();
    let parts: Vec<u64> = mixture.components().iter().map(|(_, n)| *n).collect();
    assert_eq!(parts, vec![1, 2]);
    // Each channel is the weighted sum divided by the total (3) twice.
    assert_eq!(65535u32 / 3 / 3, 7281);
    assert_eq!(131070u32 / 3 / 3, 14563);
    assert_eq!(mixture.colour(), Rgb16::new(7281, 0, 14563));
    assert_eq!(mixture.id(), "#003");
    assert_eq!(mixture.targeted_colour(), None);
}

#[test]
fn mixture_of_one_paint_has_its_colour() {
    let series = test_series();
    let yellow = series.find("yellow").unwrap();
    let mixture = MixtureBuilder::new("#004")
        .series_paint_component((Rc::clone(yellow), 5))
        .build();
    assert_eq!(mixture.colour(), Rgb16::new(0xFFFF, 0xFFFF, 0));
    assert_eq!(mixture.components()[0].1, 1);
}

#[test]
fn mixture_labels() {
    let series = test_series();
    let red = series.find("red").unwrap();
    let target = Rgb16::new(1, 2, 3);
    let named = MixtureBuilder::new("#001")
        .series_paint_component((Rc::clone(red), 1))
        .name("orange")
        .targeted_colour(&target)
        .build();
    // A mixture answers its name and notes only where they are empty.
    assert_eq!(named.name(), None);
    assert_eq!(named.notes(), Some(""));
    assert_eq!(named.label_text(), "Mix #001: ");
    assert_eq!(named.tooltip_text(), "Mix #001: \n");
    assert_eq!(named.targeted_rgb_id(), "TARGET(#001)");
    assert_eq!(named.targeted_colour(), Some(target));
    let described = MixtureBuilder::new("#002")
        .series_paint_component((Rc::clone(red), 1))
        .name("n")
        .notes("some notes")
        .build();
    assert_eq!(described.name(), None);
    assert_eq!(described.notes(), None);
    assert_eq!(described.label_text(), "Mix #002: #FF0000");
    assert_eq!(described.tooltip_text(), "Mix #002: #FF0000");
    let bare = MixtureBuilder::new("#003")
        .series_paint_component((Rc::clone(red), 1))
        .build();
    assert_eq!(bare.name(), Some(""));
    assert_eq!(bare.label_text(), "Mix #003: ");
    let paint = Paint::Mixed(Rc::clone(&described));
    assert_eq!(paint.id(), "#002");
    assert_eq!(paint.rgb(), described.colour());
    assert_eq!(paint.name(), None);
    let series_paint = Paint::Series(Rc::clone(red));
    assert_eq!(series_paint.name(), None);
    assert_eq!(series_paint.rgb(), Rgb16::new(0xFFFF, 0, 0));
}

#[test]
fn session_series_paints_and_lookup() {
    let series = test_series();
    let red = series.find("red").unwrap();
    let yellow = series.find("yellow").unwrap();
    let blue = series.find("blue").unwrap();
    let mut session = MixingSession::default();
    let m1 = MixtureBuilder::new("#002")
        .series_paint_component((Rc::clone(yellow), 1))
        .series_paint_component((Rc::clone(red), 1))
        .build();
    let m2 = MixtureBuilder::new("#001")
        .series_paint_component((Rc::clone(red), 2))
        .series_paint_component((Rc::clone(blue), 1))
        .mixed_paint_component((Rc::clone(&m1), 1))
        .build();
    assert!(session.add_mixture(&m1).is_none());
    assert!(session.add_mixture(&m2).is_none());
    let ids: Vec<&str> = session.mixtures().iter().map(|m| m.id()).collect();
    assert_eq!(ids, vec!["#001", "#002"]);
    let paints = session.series_paints();
    let paint_ids: Vec<&str> = paints.iter().map(|p| p.id()).collect();
    assert_eq!(paint_ids, vec!["blue", "red", "yellow"]);
    assert_eq!(session.mixture("#002").unwrap().id(), "#002");
    assert_eq!(m1.compare(&m2), IdOrder::Greater);
    assert_eq!(m2.compare(&m1), IdOrder::Less);
    assert_eq!(m1.compare(&m1), IdOrder::Equal);
    assert!(session.mixture("#003").is_none());
    let replacement = MixtureBuilder::new("#002")
        .series_paint_component((Rc::clone(blue), 1))
        .build();
    let old = session.add_mixture(&replacement).unwrap();
    assert_eq!(old.colour(), m1.colour());
    assert_eq!(session.mixtures().len(), 2);
    assert_eq!(session.mixture("#002").unwrap().colour(), Rgb16::new(0, 0, 0xFFFF));
    assert!(session.is_sorted_unique());
}

#[test]
fn restoring_names_a_missing_mixture() {
    let series = test_series();
    let saved_mixture = SaveableMixture::new(
        None,
        "#001",
        "",
        "",
        vec![(SaveablePaint::Mixed("#999".to_string()), 1)],
    );
    let saved = SaveableMixingSession::new("notes", vec![saved_mixture]);
    assert!(saved.is_restorable());
    match saved.mixing_session(&series) {
        Err(Error::NotFound(id)) => assert_eq!(id, "#999"),
        _ => panic!("expected NotFound"),
    }
}

#[test]
fn restoring_a_missing_series_paint() {
    let series = test_series();
    let red = series.find("red").unwrap();
    let mut saved_red = SaveablePaint::from_series_paint(red);
    if let SaveablePaint::Series(_, id) = &mut saved_red {
        *id = "green".to_string();
    }
    let saved_mixture = SaveableMixture::new(None, "#001", "", "", vec![(saved_red, 1)]);
    let saved = SaveableMixingSession::new("", vec![saved_mixture]);
    match saved.mixing_session(&series) {
        Err(Error::NotFound(id)) => assert_eq!(id, "green"),
        _ => panic!("expected NotFound"),
    }
}

#[test]
fn restoring_an_empty_session() {
    let series = test_series();
    let saved = SaveableMixingSession::new("only notes", vec![]);
    let session = saved.mixing_session(&series).unwrap();
    assert_eq!(session.notes(), "only notes");
    assert!(session.mixtures().is_empty());
}

#[test]
fn restoring_puts_series_paints_first() {
    let series = test_series();
    let red = series.find("red").unwrap();
    let first = SaveableMixture::new(
        None,
        "#001",
        "",
        "",
        vec![(SaveablePaint::from_series_paint(red), 2)],
    );
    let second = SaveableMixture::new(
        None,
        "#002",
        "",
        "",
        vec![
            (SaveablePaint::Mixed("#001".to_string()), 2),
            (SaveablePaint::from_series_paint(red), 4),
        ],
    );
    let saved = SaveableMixingSession::new("", vec![first, second]);
    let session = saved.mixing_session(&series).unwrap();
    let restored = session.mixture("#002").unwrap();
    let components = restored.components();
    assert!(matches!(components[0].0, Paint::Series(_)));
    assert_eq!(components[0].1, 2);
    assert!(matches!(components[1].0, Paint::Mixed(_)));
    assert_eq!(components[1].1, 1);
    assert_eq!(session.mixture("#001").unwrap().components()[0].1, 1);
}

#[test]
fn restorable_checks() {
    let zero = SaveableMixture::new(None, "#001", "", "", vec![(SaveablePaint::Mixed("x".to_string()), 0)]);
    assert!(!SaveableMixingSession::new("", vec![zero]).is_restorable());
    let empty = SaveableMixture::new(None, "#001", "", "", vec![]);
    assert!(!SaveableMixingSession::new("", vec![empty]).is_restorable());
    let a = SaveableMixture::new(None, "#002", "", "", vec![(SaveablePaint::Mixed("x".to_string()), 1)]);
    let b = SaveableMixture::new(None, "#001", "", "", vec![(SaveablePaint::Mixed("x".to_string()), 1)]);
    assert!(!SaveableMixingSession::new("", vec![a, b]).is_restorable());
}

#[test]
fn saveable_forms() {
    let series = test_series();
    let red = series.find("red").unwrap();
    match SaveablePaint::from_paint(&Paint::Series(Rc::clone(red))) {
        SaveablePaint::Series(series_id, id) => {
            assert_eq!(id, "red");
            assert_eq!(series_id.proprietor(), "owner");
            assert_eq!(series_id.series_name(), "series name");
        }
        _ => panic!("expected a series paint"),
    }
    let mixture = MixtureBuilder::new("#007")
        .series_paint_component((Rc::clone(red), 1))
        .build();
    match SaveablePaint::from_mixture(&mixture) {
        SaveablePaint::Mixed(id) => assert_eq!(id, "#007"),
        _ => panic!("expected a mixture"),
    }
    let saved = SaveableMixture::from_mixture(&mixture);
    assert_eq!(saved.id(), "#007");
    assert_eq!(saved.components().len(), 1);
    assert_eq!(saved.targeted_colour(), None);
}
