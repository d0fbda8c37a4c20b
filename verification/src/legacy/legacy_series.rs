//! The first saved form of a paint series, and its conversion to the
//! current one.

use vstd::prelude::*;

use crate::characteristics::{Finish, Fluorescence, Metallicness, Permanence, Transparency};
use crate::colour::Rgb16;
use crate::series::{copy_string, BasicPaintSpec, SeriesId, SeriesPaintSeriesSpec};
use crate::sorted::{is_sorted_unique_by_key, sorted_unique, Keyed};

verus! {

/// A paint as the first saved form of a series describes it.
#[derive(Debug)]
pub struct BasicPaintSpec00 {
    pub rgb: Rgb16,
    pub id: String,
    pub name: String,
    pub notes: String,
    pub finish: Finish,
    pub transparency: Transparency,
    pub permanence: Permanence,
    pub fluorescence: Fluorescence,
    pub metallicness: Metallicness,
}

impl Keyed for BasicPaintSpec00 {
    open spec fn spec_key(&self) -> Seq<char> {
        self.id@
    }

    fn key(&self) -> (r: &str) {
        self.id.as_str()
    }
}

/// Whether `current` describes the same paint as `old`.
pub open spec fn same_paint(old: BasicPaintSpec00, current: BasicPaintSpec) -> bool {
    &&& current.rgb == old.rgb
    &&& current.id@ == old.id@
    &&& current.name@ == old.name@
    &&& current.notes@ == old.notes@
    &&& current.finish == old.finish
    &&& current.transparency == old.transparency
    &&& current.permanence == old.permanence
    &&& current.fluorescence == old.fluorescence
    &&& current.metallicness == old.metallicness
}

impl BasicPaintSpec00 {
    /// The paint in the current form.
    pub fn to_current(&self) -> (r: BasicPaintSpec)
        ensures
            same_paint(*self, r),
    {
        BasicPaintSpec {
            rgb: self.rgb,
            id: copy_string(self.id.as_str()),
            name: copy_string(self.name.as_str()),
            notes: copy_string(self.notes.as_str()),
            finish: self.finish,
            transparency: self.transparency,
            permanence: self.permanence,
            fluorescence: self.fluorescence,
            metallicness: self.metallicness,
        }
    }
}

/// A paint series in its first saved form.
#[derive(Debug)]
pub struct SeriesPaintSeriesSpec00 {
    series_id: SeriesId,
    paint_list: Vec<BasicPaintSpec00>,
}

impl SeriesPaintSeriesSpec00 {
    #[verifier::type_invariant]
    spec fn well_formed(self) -> bool {
        sorted_unique(self.paint_list@)
    }

    pub closed spec fn spec_series_id(&self) -> SeriesId {
        self.series_id
    }

    pub closed spec fn spec_paints(&self) -> Seq<BasicPaintSpec00> {
        self.paint_list@
    }

    /// A series with the given id and paints, where the paints are sorted
    /// by id with no id twice; `None` otherwise.
    pub fn from_parts(series_id: SeriesId, paint_list: Vec<BasicPaintSpec00>) -> (r: Option<
        SeriesPaintSeriesSpec00,
    >)
        ensures
            match r {
                Some(spec) => sorted_unique(paint_list@) && spec.spec_series_id() == series_id
                    && spec.spec_paints() == paint_list@,
                None => !sorted_unique(paint_list@),
            },
    {
        if is_sorted_unique_by_key(&paint_list) {
            Some(SeriesPaintSeriesSpec00 { series_id, paint_list })
        } else {
            None
        }
    }

    pub fn series_id(&self) -> (r: &SeriesId)
        ensures
            *r == self.spec_series_id(),
    {
        &self.series_id
    }

    /// The series in the current form: the same id, and the same paints in
    /// the same order.
    pub fn into_current(self) -> (r: SeriesPaintSeriesSpec)
        ensures
            r.spec_series_id() == self.spec_series_id(),
            r.spec_paints().len() == self.spec_paints().len(),
            forall|i: int|
                0 <= i < r.spec_paints().len() ==> same_paint(
                    self.spec_paints()[i],
                    #[trigger] r.spec_paints()[i],
                ),
    {
        proof {
            use_type_invariant(&self);
        }
        let mut paint_list: Vec<BasicPaintSpec> = Vec::new();
        let n = self.paint_list.len();
        let mut i: usize = 0;
        while i < n
            invariant
                n == self.paint_list.len(),
                0 <= i <= n,
                paint_list.len() == i,
                forall|j: int|
                    0 <= j < i ==> same_paint(self.paint_list@[j], #[trigger] paint_list@[j]),
            decreases n - i,
        {
            paint_list.push(self.paint_list[i].to_current());
            i = i + 1;
        }
        let ghost old_list = self.paint_list@;
        proof {
            assert forall|a: int, b: int| 0 <= a < b < paint_list@.len() implies crate::text::lex_lt(
                #[trigger] paint_list@[a].spec_key(),
                #[trigger] paint_list@[b].spec_key(),
            ) by {
                assert(old_list[a].spec_key() == paint_list@[a].spec_key());
                assert(old_list[b].spec_key() == paint_list@[b].spec_key());
            }
        }
        match SeriesPaintSeriesSpec::from_parts(self.series_id, paint_list) {
            Some(spec) => spec,
            None => {
                proof {
                    assert(false);
                }
                SeriesPaintSeriesSpec::default()
            },
        }
    }
}

} // verus!
