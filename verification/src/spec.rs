//! The earlier description of a paint series: a series id and its paints,
//! sorted by id.

use vstd::prelude::*;

use crate::series::{copy_string, SeriesId};
use crate::sorted::{
    add_by_key, added, find_by_key, find_key, is_sorted_unique_by_key, remove_by_key, removed,
    sorted_unique, spec_add,
};

pub use crate::series::BasicPaintSpec;

verus! {

/// The description of a paint series: its id and its paints, sorted by id.
#[derive(Debug)]
pub struct BasicPaintSeriesSpec {
    series_id: SeriesId,
    paint_list: Vec<BasicPaintSpec>,
}

impl BasicPaintSeriesSpec {
    #[verifier::type_invariant]
    spec fn well_formed(self) -> bool {
        sorted_unique(self.paint_list@)
    }

    pub closed spec fn spec_series_id(&self) -> SeriesId {
        self.series_id
    }

    /// The paints, sorted by id with no id twice.
    pub closed spec fn spec_paints(&self) -> Seq<BasicPaintSpec> {
        self.paint_list@
    }

    /// A series with the given id and paints, where the paints are sorted
    /// by id with no id twice; `None` otherwise.
    pub fn from_parts(series_id: SeriesId, paint_list: Vec<BasicPaintSpec>) -> (r: Option<
        BasicPaintSeriesSpec,
    >)
        ensures
            match r {
                Some(spec) => sorted_unique(paint_list@) && spec.spec_series_id() == series_id
                    && spec.spec_paints() == paint_list@,
                None => !sorted_unique(paint_list@),
            },
    {
        if is_sorted_unique_by_key(&paint_list) {
            Some(BasicPaintSeriesSpec { series_id, paint_list })
        } else {
            None
        }
    }

    pub fn series_id(&self) -> (r: &SeriesId)
        ensures
            *r == self.spec_series_id(),
    {
        &self.series_id
    }

    pub fn set_proprietor(&mut self, proprietor: &str)
        ensures
            final(self).spec_series_id().spec_proprietor() == proprietor@,
            final(self).spec_series_id().spec_series_name() == old(
                self,
            ).spec_series_id().spec_series_name(),
            final(self).spec_paints() == old(self).spec_paints(),
    {
        proof {
            use_type_invariant(&*self);
        }
        let mut series_id = self.series_id.clone();
        series_id.set_proprietor(proprietor);
        self.series_id = series_id;
    }

    pub fn set_series_name(&mut self, series_name: &str)
        ensures
            final(self).spec_series_id().spec_series_name() == series_name@,
            final(self).spec_series_id().spec_proprietor() == old(
                self,
            ).spec_series_id().spec_proprietor(),
            final(self).spec_paints() == old(self).spec_paints(),
    {
        proof {
            use_type_invariant(&*self);
        }
        let mut series_id = self.series_id.clone();
        series_id.set_series_name(series_name);
        self.series_id = series_id;
    }

    /// The paints, sorted by id.
    pub fn paints(&self) -> (r: &Vec<BasicPaintSpec>)
        ensures
            r@ == self.spec_paints(),
            sorted_unique(r@),
    {
        proof {
            use_type_invariant(self);
        }
        &self.paint_list
    }

    /// Adds a copy of `paint`, in the place of the paint with the same id
    /// if there is one, which it returns.
    pub fn add(&mut self, paint: &BasicPaintSpec) -> (r: Option<BasicPaintSpec>)
        ensures
            added(old(self).spec_paints(), *paint, final(self).spec_paints(), r),
            final(self).spec_paints() == spec_add(old(self).spec_paints(), *paint),
            final(self).spec_series_id() == old(self).spec_series_id(),
    {
        proof {
            use_type_invariant(&*self);
        }
        let mut list: Vec<BasicPaintSpec> = Vec::new();
        std::mem::swap(&mut list, &mut self.paint_list);
        let r = add_by_key(&mut list, paint.clone());
        self.paint_list = list;
        r
    }

    /// Removes the paint with the given id, which it returns; where there
    /// is none, `NotFound` with the id, and nothing changes.
    pub fn remove(&mut self, id: &str) -> (r: crate::Result<BasicPaintSpec>)
        ensures
            final(self).spec_series_id() == old(self).spec_series_id(),
            match r {
                Ok(paint) => removed(
                    old(self).spec_paints(),
                    id@,
                    final(self).spec_paints(),
                    Some(paint),
                ),
                Err(crate::Error::NotFound(missing)) => missing@ == id@ && removed(
                    old(self).spec_paints(),
                    id@,
                    final(self).spec_paints(),
                    None,
                ),
                Err(_) => false,
            },
    {
        proof {
            use_type_invariant(&*self);
        }
        let mut list: Vec<BasicPaintSpec> = Vec::new();
        std::mem::swap(&mut list, &mut self.paint_list);
        let r = remove_by_key(&mut list, id);
        self.paint_list = list;
        match r {
            Some(paint) => Ok(paint),
            None => Err(crate::Error::NotFound(copy_string(id))),
        }
    }

    /// Removes every paint.
    pub fn remove_all(&mut self)
        ensures
            final(self).spec_paints() == Seq::<BasicPaintSpec>::empty(),
            final(self).spec_series_id() == old(self).spec_series_id(),
    {
        let mut list: Vec<BasicPaintSpec> = Vec::new();
        std::mem::swap(&mut list, &mut self.paint_list);
        list.clear();
        self.paint_list = list;
    }

    /// The paint with the given id, if there is one.
    pub fn find(&self, id: &str) -> (r: Option<&BasicPaintSpec>)
        ensures
            match r {
                Some(paint) => find_key(self.spec_paints(), id@) == Some(*paint),
                None => find_key(self.spec_paints(), id@) is None,
            },
    {
        proof {
            use_type_invariant(self);
        }
        find_by_key(&self.paint_list, id)
    }

    /// Whether the paints are sorted by id with no id twice.
    pub fn is_sorted_unique(&self) -> (r: bool)
        ensures
            r == sorted_unique(self.spec_paints()),
    {
        is_sorted_unique_by_key(&self.paint_list)
    }
}

impl Default for BasicPaintSeriesSpec {
    fn default() -> (r: BasicPaintSeriesSpec)
        ensures
            r.spec_series_id().spec_proprietor() == Seq::<char>::empty(),
            r.spec_series_id().spec_series_name() == Seq::<char>::empty(),
            r.spec_paints() == Seq::<BasicPaintSpec>::empty(),
    {
        BasicPaintSeriesSpec { series_id: SeriesId::default(), paint_list: Vec::new() }
    }
}

} // verus!
