//! Watercolour paint series: the paints of one proprietor's series, kept
//! sorted by id.

use vstd::prelude::*;

use std::rc::Rc;

use crate::properties::{
    Finish, Fluorescence, Granulation, LightFastness, Metallicness, Opacity, Permanence, Staining,
    Transparency,
};
use crate::colour::Rgb16;
use crate::sorted::{
    add_by_key, added, spec_add, find_by_key, find_key, is_sorted_unique_by_key, remove_by_key, removed,
    sorted_unique, Keyed,
};
use crate::text::{
    compare_strs, lemma_lex_lt_asymmetric, lemma_lex_lt_irreflexive, lex_lt, lex_order, IdOrder,
};
use crate::series::{clone_rc, copy_string, make_paint_label, non_empty, non_empty_str, paint_label};
use crate::{BasicPaintIfce, LabelText, TooltipText};

verus! {

/// The proprietor of a paint series and the series' name.
#[derive(Debug, Eq)]
pub struct SeriesId {
    pub(crate) proprietor: String,
    pub(crate) series_name: String,
}

impl SeriesId {
    pub closed spec fn spec_proprietor(&self) -> Seq<char> {
        self.proprietor@
    }

    pub closed spec fn spec_series_name(&self) -> Seq<char> {
        self.series_name@
    }

    /// The id as it is displayed: the series name, then the proprietor in
    /// brackets.
    pub open spec fn spec_display(&self) -> Seq<char> {
        self.spec_series_name() + ":("@ + self.spec_proprietor() + ")"@
    }

    /// The order of ids: by proprietor, then by series name.
    pub open spec fn spec_order(&self, other: &SeriesId) -> IdOrder {
        if self.spec_proprietor() == other.spec_proprietor() {
            lex_order(self.spec_series_name(), other.spec_series_name())
        } else {
            lex_order(self.spec_proprietor(), other.spec_proprietor())
        }
    }

    pub fn new(series_name: &str, proprietor: &str) -> (r: SeriesId)
        ensures
            r.spec_series_name() == series_name@,
            r.spec_proprietor() == proprietor@,
    {
        SeriesId { proprietor: copy_string(proprietor), series_name: copy_string(series_name) }
    }

    pub fn proprietor(&self) -> (r: &str)
        ensures
            r@ == self.spec_proprietor(),
    {
        self.proprietor.as_str()
    }

    pub fn series_name(&self) -> (r: &str)
        ensures
            r@ == self.spec_series_name(),
    {
        self.series_name.as_str()
    }

    pub(crate) fn set_proprietor(&mut self, proprietor: &str)
        ensures
            final(self).spec_proprietor() == proprietor@,
            final(self).spec_series_name() == old(self).spec_series_name(),
    {
        self.proprietor = copy_string(proprietor);
    }

    pub(crate) fn set_series_name(&mut self, series_name: &str)
        ensures
            final(self).spec_series_name() == series_name@,
            final(self).spec_proprietor() == old(self).spec_proprietor(),
    {
        self.series_name = copy_string(series_name);
    }

    /// The id as it is displayed, such as `Artist Oils:(Acme)`.
    pub fn display_string(&self) -> (r: String)
        ensures
            r@ == self.spec_display(),
    {
        let mut r = String::new();
        r.append(self.series_name.as_str());
        r.append(":(");
        r.append(self.proprietor.as_str());
        r.append(")");
        assert(r@ =~= self.spec_display());
        r
    }

    /// Compares two ids by proprietor, then by series name.
    pub fn compare(&self, other: &SeriesId) -> (r: IdOrder)
        ensures
            r == self.spec_order(other),
    {
        match compare_strs(self.proprietor.as_str(), other.proprietor.as_str()) {
            IdOrder::Equal => compare_strs(self.series_name.as_str(), other.series_name.as_str()),
            order => order,
        }
    }
}

impl Default for SeriesId {
    fn default() -> (r: SeriesId)
        ensures
            r.spec_proprietor() == Seq::<char>::empty(),
            r.spec_series_name() == Seq::<char>::empty(),
    {
        SeriesId { proprietor: String::new(), series_name: String::new() }
    }
}

impl Clone for SeriesId {
    fn clone(&self) -> (r: SeriesId)
        ensures
            r == *self,
    {
        SeriesId { proprietor: self.proprietor.clone(), series_name: self.series_name.clone() }
    }
}

impl PartialEq for SeriesId {
    fn eq(&self, other: &SeriesId) -> (r: bool) {
        self.proprietor == other.proprietor && self.series_name == other.series_name
    }
}

impl vstd::std_specs::cmp::PartialEqSpecImpl for SeriesId {
    open spec fn obeys_eq_spec() -> bool {
        true
    }

    open spec fn eq_spec(&self, other: &SeriesId) -> bool {
        self.spec_proprietor() == other.spec_proprietor() && self.spec_series_name()
            == other.spec_series_name()
    }
}

/// The description of a watercolour paint in a series: its colour, id,
/// name, notes and properties.
#[derive(Debug)]
pub struct WatercolourSpec {
    pub colour: Rgb16,
    pub id: String,
    pub name: String,
    pub notes: String,
    pub transparency: Transparency,
    pub light_fastness: LightFastness,
    pub granulation: Granulation,
    pub staining: Staining,
    pub fluorescence: Fluorescence,
}

impl WatercolourSpec {
    /// A paint of the given colour and id, with no name or notes and the
    /// default properties.
    pub fn new(colour: Rgb16, id: &str) -> (r: WatercolourSpec)
        ensures
            r.colour == colour,
            r.id@ == id@,
            r.name@ == Seq::<char>::empty(),
            r.notes@ == Seq::<char>::empty(),
            r.transparency == Transparency::Transparent,
            r.light_fastness == LightFastness::VeryGood,
            r.staining == Staining::ModerateStaining,
            r.granulation == Granulation::NonGranulating,
            r.fluorescence == Fluorescence::NonFluorescent,
    {
        WatercolourSpec {
            colour,
            id: copy_string(id),
            name: String::new(),
            notes: String::new(),
            transparency: Transparency::default(),
            light_fastness: LightFastness::default(),
            staining: Staining::default(),
            granulation: Granulation::default(),
            fluorescence: Fluorescence::default(),
        }
    }

    pub fn colour(&self) -> (r: Rgb16)
        ensures
            r == self.colour,
    {
        self.colour
    }
}

impl BasicPaintIfce for WatercolourSpec {
    open spec fn spec_id(&self) -> Seq<char> {
        self.id@
    }

    open spec fn spec_name(&self) -> Option<Seq<char>> {
        non_empty(self.name@)
    }

    open spec fn spec_notes(&self) -> Option<Seq<char>> {
        non_empty(self.notes@)
    }

    open spec fn spec_finish(&self) -> Finish {
        Finish::Gloss
    }

    open spec fn spec_transparency(&self) -> Transparency {
        self.transparency
    }

    open spec fn spec_opacity(&self) -> Opacity {
        Opacity::Opaque
    }

    open spec fn spec_fluorescence(&self) -> Fluorescence {
        self.fluorescence
    }

    open spec fn spec_permanence(&self) -> Permanence {
        Permanence::Permanent
    }

    open spec fn spec_metallicness(&self) -> Metallicness {
        Metallicness::NonMetallic
    }

    open spec fn spec_light_fastness(&self) -> LightFastness {
        self.light_fastness
    }

    open spec fn spec_staining(&self) -> Staining {
        self.staining
    }

    open spec fn spec_granulation(&self) -> Granulation {
        self.granulation
    }

    fn id(&self) -> (r: &str) {
        self.id.as_str()
    }

    fn name(&self) -> (r: Option<&str>) {
        non_empty_str(&self.name)
    }

    fn notes(&self) -> (r: Option<&str>) {
        non_empty_str(&self.notes)
    }

    fn finish(&self) -> (r: Finish) {
        Finish::default()
    }

    fn transparency(&self) -> (r: Transparency) {
        self.transparency
    }

    fn opacity(&self) -> (r: Opacity) {
        Opacity::default()
    }

    fn fluorescence(&self) -> (r: Fluorescence) {
        self.fluorescence
    }

    fn permanence(&self) -> (r: Permanence) {
        Permanence::default()
    }

    fn metallicness(&self) -> (r: Metallicness) {
        Metallicness::default()
    }

    fn light_fastness(&self) -> (r: LightFastness) {
        self.light_fastness
    }

    fn staining(&self) -> (r: Staining) {
        self.staining
    }

    fn granulation(&self) -> (r: Granulation) {
        self.granulation
    }
}

impl Keyed for WatercolourSpec {
    open spec fn spec_key(&self) -> Seq<char> {
        self.id@
    }

    fn key(&self) -> (r: &str) {
        self.id.as_str()
    }
}

impl Clone for WatercolourSpec {
    fn clone(&self) -> (r: WatercolourSpec)
        ensures
            r == *self,
    {
        WatercolourSpec {
            colour: self.colour,
            id: self.id.clone(),
            name: self.name.clone(),
            notes: self.notes.clone(),
            transparency: self.transparency,
            light_fastness: self.light_fastness,
            granulation: self.granulation,
            staining: self.staining,
            fluorescence: self.fluorescence,
        }
    }
}

impl PartialEq for WatercolourSpec {
    fn eq(&self, other: &WatercolourSpec) -> (r: bool) {
        self.colour == other.colour && self.id == other.id && self.name == other.name
            && self.notes == other.notes && self.transparency == other.transparency
            && self.light_fastness == other.light_fastness && self.granulation
            == other.granulation && self.staining == other.staining && self.fluorescence
            == other.fluorescence
    }
}

impl vstd::std_specs::cmp::PartialEqSpecImpl for WatercolourSpec {
    open spec fn obeys_eq_spec() -> bool {
        true
    }

    open spec fn eq_spec(&self, other: &WatercolourSpec) -> bool {
        &&& self.colour == other.colour
        &&& self.id@ == other.id@
        &&& self.name@ == other.name@
        &&& self.notes@ == other.notes@
        &&& self.transparency == other.transparency
        &&& self.light_fastness == other.light_fastness
        &&& self.granulation == other.granulation
        &&& self.staining == other.staining
        &&& self.fluorescence == other.fluorescence
    }
}

/// A watercolour paint of a series, sharing the series' id.
#[derive(Debug)]
pub struct WatercolourPaint {
    colour: Rgb16,
    id: String,
    name: String,
    notes: String,
    transparency: Transparency,
    light_fastness: LightFastness,
    staining: Staining,
    granulation: Granulation,
    fluorescence: Fluorescence,
    series_id: Rc<SeriesId>,
}

impl WatercolourPaint {
    /// The paint described by `spec` in the series `series_id`.
    pub fn from_spec(spec: &WatercolourSpec, series_id: &Rc<SeriesId>) -> (r: WatercolourPaint)
        ensures
            r.spec_series_id() == **series_id,
            r.spec_colour() == spec.colour,
            r.spec_id() == spec.id@,
            r.spec_name() == non_empty(spec.name@),
            r.spec_notes() == non_empty(spec.notes@),
            r.spec_transparency() == spec.transparency,
            r.spec_light_fastness() == spec.light_fastness,
            r.spec_staining() == spec.staining,
            r.spec_granulation() == spec.granulation,
            r.spec_fluorescence() == spec.fluorescence,
    {
        WatercolourPaint {
            colour: spec.colour,
            id: copy_string(spec.id.as_str()),
            name: copy_string(spec.name.as_str()),
            notes: copy_string(spec.notes.as_str()),
            transparency: spec.transparency,
            light_fastness: spec.light_fastness,
            staining: spec.staining,
            granulation: spec.granulation,
            fluorescence: spec.fluorescence,
            series_id: clone_rc(series_id),
        }
    }

    pub closed spec fn spec_colour(&self) -> Rgb16 {
        self.colour
    }

    pub closed spec fn spec_series_id(&self) -> SeriesId {
        *self.series_id
    }

    pub fn series_id(&self) -> (r: &Rc<SeriesId>)
        ensures
            **r == self.spec_series_id(),
    {
        &self.series_id
    }

    pub fn colour(&self) -> (r: Rgb16)
        ensures
            r == self.spec_colour(),
    {
        self.colour
    }

    /// The order of paints: by id, then by series id.
    pub open spec fn spec_order(&self, other: &WatercolourPaint) -> IdOrder {
        if self.spec_id() == other.spec_id() {
            self.spec_series_id().spec_order(&other.spec_series_id())
        } else {
            lex_order(self.spec_id(), other.spec_id())
        }
    }

    /// Compares two paints by id, then by series id.
    pub fn compare(&self, other: &WatercolourPaint) -> (r: IdOrder)
        ensures
            r == self.spec_order(other),
    {
        match compare_strs(self.id.as_str(), other.id.as_str()) {
            IdOrder::Equal => self.series_id.compare(&other.series_id),
            order => order,
        }
    }

    /// The paint's label: see `paint_label`.
    pub open spec fn spec_label(&self) -> Seq<char> {
        paint_label(
            self.spec_id(),
            self.spec_name().unwrap_or(Seq::empty()),
            self.spec_notes().unwrap_or(Seq::empty()),
            self.spec_colour(),
        )
    }

    /// The paint's tooltip: its label, its notes where there are any, its
    /// series' name and its proprietor, one to a line.
    pub open spec fn spec_tooltip(&self) -> Seq<char> {
        let notes = match self.spec_notes() {
            Some(notes) => seq!['\n'] + notes,
            None => Seq::empty(),
        };
        self.spec_label() + notes + seq!['\n'] + self.spec_series_id().spec_series_name() + seq![
            '\n',
        ] + self.spec_series_id().spec_proprietor()
    }
}

impl BasicPaintIfce for WatercolourPaint {
    closed spec fn spec_id(&self) -> Seq<char> {
        self.id@
    }

    closed spec fn spec_name(&self) -> Option<Seq<char>> {
        non_empty(self.name@)
    }

    closed spec fn spec_notes(&self) -> Option<Seq<char>> {
        non_empty(self.notes@)
    }

    open spec fn spec_finish(&self) -> Finish {
        Finish::Gloss
    }

    closed spec fn spec_transparency(&self) -> Transparency {
        self.transparency
    }

    open spec fn spec_opacity(&self) -> Opacity {
        Opacity::Opaque
    }

    closed spec fn spec_fluorescence(&self) -> Fluorescence {
        self.fluorescence
    }

    open spec fn spec_permanence(&self) -> Permanence {
        Permanence::Permanent
    }

    open spec fn spec_metallicness(&self) -> Metallicness {
        Metallicness::NonMetallic
    }

    closed spec fn spec_light_fastness(&self) -> LightFastness {
        self.light_fastness
    }

    closed spec fn spec_staining(&self) -> Staining {
        self.staining
    }

    closed spec fn spec_granulation(&self) -> Granulation {
        self.granulation
    }

    fn id(&self) -> (r: &str) {
        self.id.as_str()
    }

    fn name(&self) -> (r: Option<&str>) {
        non_empty_str(&self.name)
    }

    fn notes(&self) -> (r: Option<&str>) {
        non_empty_str(&self.notes)
    }

    fn finish(&self) -> (r: Finish) {
        Finish::default()
    }

    fn transparency(&self) -> (r: Transparency) {
        self.transparency
    }

    fn opacity(&self) -> (r: Opacity) {
        Opacity::default()
    }

    fn fluorescence(&self) -> (r: Fluorescence) {
        self.fluorescence
    }

    fn permanence(&self) -> (r: Permanence) {
        Permanence::default()
    }

    fn metallicness(&self) -> (r: Metallicness) {
        Metallicness::default()
    }

    fn light_fastness(&self) -> (r: LightFastness) {
        self.light_fastness
    }

    fn staining(&self) -> (r: Staining) {
        self.staining
    }

    fn granulation(&self) -> (r: Granulation) {
        self.granulation
    }
}

impl Keyed for WatercolourPaint {
    open spec fn spec_key(&self) -> Seq<char> {
        self.spec_id()
    }

    fn key(&self) -> (r: &str) {
        self.id.as_str()
    }
}

impl PartialEq for WatercolourPaint {
    fn eq(&self, other: &WatercolourPaint) -> (r: bool) {
        if self.id == other.id {
            *self.series_id == *other.series_id
        } else {
            false
        }
    }
}

impl vstd::std_specs::cmp::PartialEqSpecImpl for WatercolourPaint {
    open spec fn obeys_eq_spec() -> bool {
        true
    }

    open spec fn eq_spec(&self, other: &WatercolourPaint) -> bool {
        self.spec_id() == other.spec_id() && self.spec_series_id().spec_proprietor()
            == other.spec_series_id().spec_proprietor()
            && self.spec_series_id().spec_series_name()
            == other.spec_series_id().spec_series_name()
    }
}

impl LabelText for WatercolourPaint {
    fn label_text(&self) -> (r: String)
        ensures
            r@ == self.spec_label(),
    {
        make_paint_label(self.id.as_str(), self.name.as_str(), self.notes.as_str(), &self.colour)
    }
}

impl TooltipText for WatercolourPaint {
    fn tooltip_text(&self) -> (r: String)
        ensures
            r@ == self.spec_tooltip(),
    {
        let mut string = self.label_text();
        if !self.notes.as_str().is_empty() {
            string.append("\n");
            string.append(self.notes.as_str());
        }
        string.append("\n");
        string.append(self.series_id.series_name());
        string.append("\n");
        string.append(self.series_id.proprietor());
        proof {
            reveal_strlit("\n");
        }
        assert(string@ =~= self.spec_tooltip());
        string
    }
}

/// The paints of a series, sorted by id.
#[derive(Debug)]
pub struct SeriesPaintSeries {
    series_id: Rc<SeriesId>,
    paint_list: Vec<Rc<WatercolourPaint>>,
}

impl SeriesPaintSeries {
    #[verifier::type_invariant]
    spec fn well_formed(self) -> bool {
        sorted_unique(self.paint_list@)
    }

    pub closed spec fn spec_series_id(&self) -> SeriesId {
        *self.series_id
    }

    /// The paints, sorted by id with no id twice.
    pub closed spec fn spec_paints(&self) -> Seq<Rc<WatercolourPaint>> {
        self.paint_list@
    }

    /// The paints of the series that `spec` describes, in the same order.
    pub fn from_spec(spec: &SeriesPaintSeriesSpec) -> (r: SeriesPaintSeries)
        ensures
            r.spec_series_id() == spec.spec_series_id(),
            r.spec_paints().len() == spec.spec_paints().len(),
            forall|i: int|
                0 <= i < r.spec_paints().len() ==> {
                    let p = #[trigger] r.spec_paints()[i];
                    let s = spec.spec_paints()[i];
                    &&& p.spec_series_id() == spec.spec_series_id()
                    &&& p.spec_colour() == s.colour
                    &&& p.spec_id() == s.id@
                    &&& p.spec_name() == non_empty(s.name@)
                    &&& p.spec_notes() == non_empty(s.notes@)
                    &&& p.spec_transparency() == s.transparency
                    &&& p.spec_light_fastness() == s.light_fastness
                    &&& p.spec_staining() == s.staining
                    &&& p.spec_granulation() == s.granulation
                    &&& p.spec_fluorescence() == s.fluorescence
                },
    {
        proof {
            use_type_invariant(spec);
        }
        let series_id = Rc::new(spec.series_id.clone());
        let mut paint_list: Vec<Rc<WatercolourPaint>> = Vec::new();
        let n = spec.paint_list.len();
        let mut i: usize = 0;
        while i < n
            invariant
                n == spec.paint_list.len(),
                sorted_unique(spec.paint_list@),
                *series_id == spec.spec_series_id(),
                0 <= i <= n,
                paint_list.len() == i,
                forall|j: int|
                    0 <= j < i ==> {
                        let p = #[trigger] paint_list@[j];
                        let s = spec.paint_list@[j];
                        &&& p.spec_series_id() == spec.spec_series_id()
                        &&& p.spec_colour() == s.colour
                        &&& p.spec_id() == s.id@
                        &&& p.spec_name() == non_empty(s.name@)
                        &&& p.spec_notes() == non_empty(s.notes@)
                        &&& p.spec_transparency() == s.transparency
                        &&& p.spec_light_fastness() == s.light_fastness
                        &&& p.spec_staining() == s.staining
                        &&& p.spec_granulation() == s.granulation
                        &&& p.spec_fluorescence() == s.fluorescence
                    },
            decreases n - i,
        {
            let paint = WatercolourPaint::from_spec(&spec.paint_list[i], &series_id);
            paint_list.push(Rc::new(paint));
            i = i + 1;
        }
        assert(sorted_unique(paint_list@)) by {
            assert forall|a: int, b: int| 0 <= a < b < paint_list@.len() implies crate::text::lex_lt(
                #[trigger] paint_list@[a].spec_key(),
                #[trigger] paint_list@[b].spec_key(),
            ) by {
                assert(spec.paint_list@[a].spec_key() == paint_list@[a].spec_key());
                assert(spec.paint_list@[b].spec_key() == paint_list@[b].spec_key());
            }
        }
        SeriesPaintSeries { series_id, paint_list }
    }

    pub fn series_id(&self) -> (r: &Rc<SeriesId>)
        ensures
            **r == self.spec_series_id(),
    {
        &self.series_id
    }

    /// The paint with the given id, if there is one.
    pub fn find(&self, id: &str) -> (r: Option<&Rc<WatercolourPaint>>)
        ensures
            match r {
                Some(paint) => find_key(self.spec_paints(), id@) == Some(*paint),
                None => find_key(self.spec_paints(), id@) is None,
            },
    {
        proof {
            use_type_invariant(self);
        }
        find_by_key(&self.paint_list, id)
    }

    /// The paints, sorted by id.
    pub fn paints(&self) -> (r: &Vec<Rc<WatercolourPaint>>)
        ensures
            r@ == self.spec_paints(),
            sorted_unique(r@),
    {
        proof {
            use_type_invariant(self);
        }
        &self.paint_list
    }

    fn is_sorted_unique(&self) -> (r: bool)
        ensures
            r == sorted_unique(self.spec_paints()),
    {
        is_sorted_unique_by_key(&self.paint_list)
    }
}

/// Finds the paints of series by id.
pub trait SeriesPaintFinder {
    fn get_series_paint(&self, paint_id: &str, series_id: Option<&SeriesId>) -> crate::Result<
        Rc<WatercolourPaint>,
    >;
}

/// A series finds its own paints by id, whatever series is asked for.
impl SeriesPaintFinder for SeriesPaintSeries {
    fn get_series_paint(&self, paint_id: &str, series_id: Option<&SeriesId>) -> (r:
        crate::Result<Rc<WatercolourPaint>>)
        ensures
            match r {
                Ok(paint) => find_key(self.spec_paints(), paint_id@) == Some(paint),
                Err(crate::Error::NotFound(id)) => id@ == paint_id@ && find_key(
                    self.spec_paints(),
                    paint_id@,
                ) is None,
                Err(_) => false,
            },
    {
        match self.find(paint_id) {
            Some(paint) => Ok(clone_rc(paint)),
            None => {
                let missing = copy_string(paint_id);
                let r: crate::Result<Rc<WatercolourPaint>> = Err(crate::Error::NotFound(missing));
                assert(r->Err_0->NotFound_0@ == paint_id@);
                r
            },
        }
    }
}

/// The description of a paint series: its id and its paints, sorted by id.
#[derive(Debug)]
pub struct SeriesPaintSeriesSpec {
    series_id: SeriesId,
    paint_list: Vec<WatercolourSpec>,
}

impl SeriesPaintSeriesSpec {
    #[verifier::type_invariant]
    spec fn well_formed(self) -> bool {
        sorted_unique(self.paint_list@)
    }

    pub closed spec fn spec_series_id(&self) -> SeriesId {
        self.series_id
    }

    /// The paints, sorted by id with no id twice.
    pub closed spec fn spec_paints(&self) -> Seq<WatercolourSpec> {
        self.paint_list@
    }

    /// A series with the given id and paints, where the paints are sorted
    /// by id with no id twice; `None` otherwise.
    pub fn from_parts(series_id: SeriesId, paint_list: Vec<WatercolourSpec>) -> (r: Option<
        SeriesPaintSeriesSpec,
    >)
        ensures
            match r {
                Some(spec) => sorted_unique(paint_list@) && spec.spec_series_id() == series_id
                    && spec.spec_paints() == paint_list@,
                None => !sorted_unique(paint_list@),
            },
    {
        if is_sorted_unique_by_key(&paint_list) {
            Some(SeriesPaintSeriesSpec { series_id, paint_list })
        } else {
            None
        }
    }

    pub fn series_id(&self) -> (r: &SeriesId)
        ensures
            *r == self.spec_series_id(),
    {
        &self.series_id
    }

    pub fn set_proprietor(&mut self, proprietor: &str)
        ensures
            final(self).spec_series_id().spec_proprietor() == proprietor@,
            final(self).spec_series_id().spec_series_name() == old(
                self,
            ).spec_series_id().spec_series_name(),
            final(self).spec_paints() == old(self).spec_paints(),
    {
        proof {
            use_type_invariant(&*self);
        }
        let mut series_id = self.series_id.clone();
        series_id.set_proprietor(proprietor);
        self.series_id = series_id;
    }

    pub fn set_series_name(&mut self, series_name: &str)
        ensures
            final(self).spec_series_id().spec_series_name() == series_name@,
            final(self).spec_series_id().spec_proprietor() == old(
                self,
            ).spec_series_id().spec_proprietor(),
            final(self).spec_paints() == old(self).spec_paints(),
    {
        proof {
            use_type_invariant(&*self);
        }
        let mut series_id = self.series_id.clone();
        series_id.set_series_name(series_name);
        self.series_id = series_id;
    }

    /// The paints, sorted by id.
    pub fn paints(&self) -> (r: &Vec<WatercolourSpec>)
        ensures
            r@ == self.spec_paints(),
            sorted_unique(r@),
    {
        proof {
            use_type_invariant(self);
        }
        &self.paint_list
    }

    /// Adds a copy of `paint`, in the place of the paint with the same id
    /// if there is one, which it returns.
    pub fn add(&mut self, paint: &WatercolourSpec) -> (r: Option<WatercolourSpec>)
        ensures
            added(old(self).spec_paints(), *paint, final(self).spec_paints(), r),
            final(self).spec_paints() == spec_add(old(self).spec_paints(), *paint),
            final(self).spec_series_id() == old(self).spec_series_id(),
    {
        proof {
            use_type_invariant(&*self);
        }
        let mut list: Vec<WatercolourSpec> = Vec::new();
        std::mem::swap(&mut list, &mut self.paint_list);
        let r = add_by_key(&mut list, paint.clone());
        self.paint_list = list;
        r
    }

    /// Removes the paint with the given id, which it returns; where there
    /// is none, `NotFound` with the id, and nothing changes.
    pub fn remove(&mut self, id: &str) -> (r: crate::Result<WatercolourSpec>)
        ensures
            final(self).spec_series_id() == old(self).spec_series_id(),
            match r {
                Ok(paint) => removed(
                    old(self).spec_paints(),
                    id@,
                    final(self).spec_paints(),
                    Some(paint),
                ),
                Err(crate::Error::NotFound(missing)) => missing@ == id@ && removed(
                    old(self).spec_paints(),
                    id@,
                    final(self).spec_paints(),
                    None,
                ),
                Err(_) => false,
            },
    {
        proof {
            use_type_invariant(&*self);
        }
        let mut list: Vec<WatercolourSpec> = Vec::new();
        std::mem::swap(&mut list, &mut self.paint_list);
        let r = remove_by_key(&mut list, id);
        self.paint_list = list;
        match r {
            Some(paint) => Ok(paint),
            None => Err(crate::Error::NotFound(copy_string(id))),
        }
    }

    /// Removes every paint.
    pub fn remove_all(&mut self)
        ensures
            final(self).spec_paints() == Seq::<WatercolourSpec>::empty(),
            final(self).spec_series_id() == old(self).spec_series_id(),
    {
        let mut list: Vec<WatercolourSpec> = Vec::new();
        std::mem::swap(&mut list, &mut self.paint_list);
        list.clear();
        self.paint_list = list;
    }

    /// The paint with the given id, if there is one.
    pub fn find(&self, id: &str) -> (r: Option<&WatercolourSpec>)
        ensures
            match r {
                Some(paint) => find_key(self.spec_paints(), id@) == Some(*paint),
                None => find_key(self.spec_paints(), id@) is None,
            },
    {
        proof {
            use_type_invariant(self);
        }
        find_by_key(&self.paint_list, id)
    }

    /// Whether the paints are sorted by id with no id twice.
    pub fn is_sorted_unique(&self) -> (r: bool)
        ensures
            r == sorted_unique(self.spec_paints()),
    {
        is_sorted_unique_by_key(&self.paint_list)
    }
}

impl Default for SeriesPaintSeriesSpec {
    fn default() -> (r: SeriesPaintSeriesSpec)
        ensures
            r.spec_series_id().spec_proprietor() == Seq::<char>::empty(),
            r.spec_series_id().spec_series_name() == Seq::<char>::empty(),
            r.spec_paints() == Seq::<WatercolourSpec>::empty(),
    {
        SeriesPaintSeriesSpec { series_id: SeriesId::default(), paint_list: Vec::new() }
    }
}


/// Series ids are ordered by proprietor first: an id whose proprietor comes
/// first comes first; only where the proprietors are the same does the
/// series name decide.
pub proof fn law_series_id_order(a: SeriesId, b: SeriesId)
    ensures
        lex_lt(a.spec_proprietor(), b.spec_proprietor()) ==> a.spec_order(&b) == IdOrder::Less,
        lex_lt(b.spec_proprietor(), a.spec_proprietor()) ==> a.spec_order(&b) == IdOrder::Greater,
        a.spec_proprietor() == b.spec_proprietor() ==> a.spec_order(&b) == lex_order(
            a.spec_series_name(),
            b.spec_series_name(),
        ),
{
    lemma_lex_lt_irreflexive(a.spec_proprietor());
    lemma_lex_lt_asymmetric(a.spec_proprietor(), b.spec_proprietor());
}

/// Paints are ordered by id first: a paint whose id comes first comes
/// first; only where the ids are the same does the series id decide.
pub proof fn law_paint_order(a: WatercolourPaint, b: WatercolourPaint)
    ensures
        lex_lt(a.spec_id(), b.spec_id()) ==> a.spec_order(&b) == IdOrder::Less,
        lex_lt(b.spec_id(), a.spec_id()) ==> a.spec_order(&b) == IdOrder::Greater,
        a.spec_id() == b.spec_id() ==> a.spec_order(&b) == a.spec_series_id().spec_order(
            &b.spec_series_id(),
        ),
{
    lemma_lex_lt_irreflexive(a.spec_id());
    lemma_lex_lt_asymmetric(a.spec_id(), b.spec_id());
}

} // verus!
