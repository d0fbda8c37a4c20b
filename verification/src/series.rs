//! Paint series: the paints of one proprietor's series, kept sorted by id.

use vstd::prelude::*;

use std::rc::Rc;

use crate::characteristics::{Finish, Fluorescence, Metallicness, Permanence, Transparency};
use crate::colour::Rgb16;
use crate::sorted::{
    add_by_key, added, spec_add, find_by_key, find_key, is_sorted_unique_by_key, remove_by_key, removed,
    sorted_unique, Keyed,
};
use crate::text::{
    compare_strs, lemma_lex_lt_asymmetric, lemma_lex_lt_irreflexive, lex_lt, lex_order, IdOrder,
};
use crate::{LabelText, TooltipText};

verus! {

/// A copy of a shared series id.
#[verifier::external_body]
pub(crate) fn clone_rc<T>(rc: &Rc<T>) -> (r: Rc<T>)
    ensures
        r == *rc,
{
    Rc::clone(rc)
}

/// `Some` of a string's characters, or `None` where it is empty.
pub open spec fn non_empty(s: Seq<char>) -> Option<Seq<char>> {
    if s.len() == 0 {
        None
    } else {
        Some(s)
    }
}

/// `Some(s)`, or `None` where `s` is empty.
pub fn non_empty_str(s: &String) -> (r: Option<&str>)
    ensures
        match r {
            Some(t) => non_empty(s@) == Some(t@),
            None => non_empty(s@) is None,
        },
{
    let t = s.as_str();
    if t.is_empty() {
        None
    } else {
        Some(t)
    }
}

/// Copies a string.
pub fn copy_string(s: &str) -> (r: String)
    ensures
        r@ == s@,
{
    let mut r = String::new();
    r.append(s);
    assert(r@ =~= s@);
    r
}

/// The proprietor of a paint series and the series' name.
#[derive(Debug, Eq)]
pub struct SeriesId {
    proprietor: String,
    series_name: String,
}

impl SeriesId {
    pub closed spec fn spec_proprietor(&self) -> Seq<char> {
        self.proprietor@
    }

    pub closed spec fn spec_series_name(&self) -> Seq<char> {
        self.series_name@
    }

    /// The id as it is displayed: the series name, then the proprietor in
    /// brackets.
    pub open spec fn spec_display(&self) -> Seq<char> {
        self.spec_series_name() + ":("@ + self.spec_proprietor() + ")"@
    }

    /// The order of ids: by proprietor, then by series name.
    pub open spec fn spec_order(&self, other: &SeriesId) -> IdOrder {
        if self.spec_proprietor() == other.spec_proprietor() {
            lex_order(self.spec_series_name(), other.spec_series_name())
        } else {
            lex_order(self.spec_proprietor(), other.spec_proprietor())
        }
    }

    pub fn new(series_name: &str, proprietor: &str) -> (r: SeriesId)
        ensures
            r.spec_series_name() == series_name@,
            r.spec_proprietor() == proprietor@,
    {
        SeriesId { proprietor: copy_string(proprietor), series_name: copy_string(series_name) }
    }

    pub fn proprietor(&self) -> (r: &str)
        ensures
            r@ == self.spec_proprietor(),
    {
        self.proprietor.as_str()
    }

    pub fn series_name(&self) -> (r: &str)
        ensures
            r@ == self.spec_series_name(),
    {
        self.series_name.as_str()
    }

    pub(crate) fn set_proprietor(&mut self, proprietor: &str)
        ensures
            final(self).spec_proprietor() == proprietor@,
            final(self).spec_series_name() == old(self).spec_series_name(),
    {
        self.proprietor = copy_string(proprietor);
    }

    pub(crate) fn set_series_name(&mut self, series_name: &str)
        ensures
            final(self).spec_series_name() == series_name@,
            final(self).spec_proprietor() == old(self).spec_proprietor(),
    {
        self.series_name = copy_string(series_name);
    }

    /// The id as it is displayed, such as `Artist Oils:(Acme)`.
    pub fn display_string(&self) -> (r: String)
        ensures
            r@ == self.spec_display(),
    {
        let mut r = String::new();
        r.append(self.series_name.as_str());
        r.append(":(");
        r.append(self.proprietor.as_str());
        r.append(")");
        assert(r@ =~= self.spec_display());
        r
    }

    /// Compares two ids by proprietor, then by series name.
    pub fn compare(&self, other: &SeriesId) -> (r: IdOrder)
        ensures
            r == self.spec_order(other),
    {
        match compare_strs(self.proprietor.as_str(), other.proprietor.as_str()) {
            IdOrder::Equal => compare_strs(self.series_name.as_str(), other.series_name.as_str()),
            order => order,
        }
    }
}

impl Default for SeriesId {
    fn default() -> (r: SeriesId)
        ensures
            r.spec_proprietor() == Seq::<char>::empty(),
            r.spec_series_name() == Seq::<char>::empty(),
    {
        SeriesId { proprietor: String::new(), series_name: String::new() }
    }
}

impl Clone for SeriesId {
    fn clone(&self) -> (r: SeriesId)
        ensures
            r == *self,
    {
        SeriesId { proprietor: self.proprietor.clone(), series_name: self.series_name.clone() }
    }
}

impl PartialEq for SeriesId {
    fn eq(&self, other: &SeriesId) -> (r: bool) {
        self.proprietor == other.proprietor && self.series_name == other.series_name
    }
}

impl vstd::std_specs::cmp::PartialEqSpecImpl for SeriesId {
    open spec fn obeys_eq_spec() -> bool {
        true
    }

    open spec fn eq_spec(&self, other: &SeriesId) -> bool {
        self.spec_proprietor() == other.spec_proprietor() && self.spec_series_name()
            == other.spec_series_name()
    }
}

/// The description of a paint in a series: its colour, id, name, notes and
/// characteristics.
#[derive(Debug)]
pub struct BasicPaintSpec {
    pub rgb: Rgb16,
    pub id: String,
    pub name: String,
    pub notes: String,
    pub finish: Finish,
    pub transparency: Transparency,
    pub permanence: Permanence,
    pub fluorescence: Fluorescence,
    pub metallicness: Metallicness,
}

impl BasicPaintSpec {
    /// A paint of the given colour and id, with no name or notes and the
    /// default characteristics.
    pub fn new(rgb: Rgb16, id: &str) -> (r: BasicPaintSpec)
        ensures
            r.rgb == rgb,
            r.id@ == id@,
            r.name@ == Seq::<char>::empty(),
            r.notes@ == Seq::<char>::empty(),
            r.finish == Finish::Gloss,
            r.transparency == Transparency::Opaque,
            r.permanence == Permanence::Permanent,
            r.fluorescence == Fluorescence::NonFluorescent,
            r.metallicness == Metallicness::NonMetallic,
    {
        BasicPaintSpec {
            rgb,
            id: copy_string(id),
            name: String::new(),
            notes: String::new(),
            finish: Finish::default(),
            transparency: Transparency::default(),
            permanence: Permanence::default(),
            fluorescence: Fluorescence::default(),
            metallicness: Metallicness::default(),
        }
    }

    pub fn rgb(&self) -> (r: Rgb16)
        ensures
            r == self.rgb,
    {
        self.rgb
    }

    pub fn id(&self) -> (r: &str)
        ensures
            r@ == self.id@,
    {
        self.id.as_str()
    }

    /// The name, where it is not empty.
    pub fn name(&self) -> (r: Option<&str>)
        ensures
            match r {
                Some(name) => non_empty(self.name@) == Some(name@),
                None => non_empty(self.name@) is None,
            },
    {
        non_empty_str(&self.name)
    }

    /// The notes, where they are not empty.
    pub fn notes(&self) -> (r: Option<&str>)
        ensures
            match r {
                Some(notes) => non_empty(self.notes@) == Some(notes@),
                None => non_empty(self.notes@) is None,
            },
    {
        non_empty_str(&self.notes)
    }

    pub fn finish(&self) -> (r: Finish)
        ensures
            r == self.finish,
    {
        self.finish
    }

    pub fn transparency(&self) -> (r: Transparency)
        ensures
            r == self.transparency,
    {
        self.transparency
    }

    pub fn permanence(&self) -> (r: Permanence)
        ensures
            r == self.permanence,
    {
        self.permanence
    }

    pub fn fluorescence(&self) -> (r: Fluorescence)
        ensures
            r == self.fluorescence,
    {
        self.fluorescence
    }

    pub fn metallicness(&self) -> (r: Metallicness)
        ensures
            r == self.metallicness,
    {
        self.metallicness
    }
}

impl Keyed for BasicPaintSpec {
    open spec fn spec_key(&self) -> Seq<char> {
        self.id@
    }

    fn key(&self) -> (r: &str) {
        self.id.as_str()
    }
}

impl Clone for BasicPaintSpec {
    fn clone(&self) -> (r: BasicPaintSpec)
        ensures
            r == *self,
    {
        BasicPaintSpec {
            rgb: self.rgb,
            id: self.id.clone(),
            name: self.name.clone(),
            notes: self.notes.clone(),
            finish: self.finish,
            transparency: self.transparency,
            permanence: self.permanence,
            fluorescence: self.fluorescence,
            metallicness: self.metallicness,
        }
    }
}

impl PartialEq for BasicPaintSpec {
    fn eq(&self, other: &BasicPaintSpec) -> (r: bool) {
        self.rgb == other.rgb && self.id == other.id && self.name == other.name && self.notes
            == other.notes && self.finish == other.finish && self.transparency
            == other.transparency && self.permanence == other.permanence && self.fluorescence
            == other.fluorescence && self.metallicness == other.metallicness
    }
}

impl vstd::std_specs::cmp::PartialEqSpecImpl for BasicPaintSpec {
    open spec fn obeys_eq_spec() -> bool {
        true
    }

    open spec fn eq_spec(&self, other: &BasicPaintSpec) -> bool {
        &&& self.rgb == other.rgb
        &&& self.id@ == other.id@
        &&& self.name@ == other.name@
        &&& self.notes@ == other.notes@
        &&& self.finish == other.finish
        &&& self.transparency == other.transparency
        &&& self.permanence == other.permanence
        &&& self.fluorescence == other.fluorescence
        &&& self.metallicness == other.metallicness
    }
}

/// A paint of a series, sharing the series' id.
#[derive(Debug)]
pub struct SeriesPaint {
    rgb: Rgb16,
    id: String,
    name: String,
    notes: String,
    finish: Finish,
    transparency: Transparency,
    permanence: Permanence,
    fluorescence: Fluorescence,
    metallicness: Metallicness,
    series_id: Rc<SeriesId>,
}

/// The label of a paint: its id followed by its name, or else by its notes,
/// or else by its colour.
pub open spec fn paint_label(id: Seq<char>, name: Seq<char>, notes: Seq<char>, rgb: Rgb16) -> Seq<
    char,
> {
    if name.len() > 0 {
        id + ": "@ + name
    } else if notes.len() > 0 {
        id + ": "@ + notes
    } else {
        id + ": "@ + rgb.spec_pango_string()
    }
}

pub(crate) fn make_paint_label(id: &str, name: &str, notes: &str, rgb: &Rgb16) -> (r: String)
    ensures
        r@ == paint_label(id@, name@, notes@, *rgb),
{
    let mut r = String::new();
    r.append(id);
    r.append(": ");
    if !name.is_empty() {
        r.append(name);
    } else if !notes.is_empty() {
        r.append(notes);
    } else {
        let colour = rgb.pango_string();
        r.append(colour.as_str());
    }
    assert(r@ =~= paint_label(id@, name@, notes@, *rgb));
    r
}

impl SeriesPaint {
    /// The paint described by `spec` in the series `series_id`.
    pub fn from_spec(spec: &BasicPaintSpec, series_id: &Rc<SeriesId>) -> (r: SeriesPaint)
        ensures
            r.spec_series_id() == **series_id,
            r.spec_rgb() == spec.rgb,
            r.spec_id() == spec.id@,
            r.spec_name() == spec.name@,
            r.spec_notes() == spec.notes@,
            r.spec_finish() == spec.finish,
            r.spec_transparency() == spec.transparency,
            r.spec_permanence() == spec.permanence,
            r.spec_fluorescence() == spec.fluorescence,
            r.spec_metallicness() == spec.metallicness,
    {
        SeriesPaint {
            rgb: spec.rgb,
            id: copy_string(spec.id.as_str()),
            name: copy_string(spec.name.as_str()),
            notes: copy_string(spec.notes.as_str()),
            finish: spec.finish,
            transparency: spec.transparency,
            permanence: spec.permanence,
            fluorescence: spec.fluorescence,
            metallicness: spec.metallicness,
            series_id: clone_rc(series_id),
        }
    }

    pub closed spec fn spec_rgb(&self) -> Rgb16 {
        self.rgb
    }

    pub closed spec fn spec_id(&self) -> Seq<char> {
        self.id@
    }

    pub closed spec fn spec_name(&self) -> Seq<char> {
        self.name@
    }

    pub closed spec fn spec_notes(&self) -> Seq<char> {
        self.notes@
    }

    pub closed spec fn spec_finish(&self) -> Finish {
        self.finish
    }

    pub closed spec fn spec_transparency(&self) -> Transparency {
        self.transparency
    }

    pub closed spec fn spec_permanence(&self) -> Permanence {
        self.permanence
    }

    pub closed spec fn spec_fluorescence(&self) -> Fluorescence {
        self.fluorescence
    }

    pub closed spec fn spec_metallicness(&self) -> Metallicness {
        self.metallicness
    }

    pub closed spec fn spec_series_id(&self) -> SeriesId {
        *self.series_id
    }

    pub fn series_id(&self) -> (r: &Rc<SeriesId>)
        ensures
            **r == self.spec_series_id(),
    {
        &self.series_id
    }

    pub fn rgb(&self) -> (r: Rgb16)
        ensures
            r == self.spec_rgb(),
    {
        self.rgb
    }

    pub fn id(&self) -> (r: &str)
        ensures
            r@ == self.spec_id(),
    {
        self.id.as_str()
    }

    pub fn name(&self) -> (r: Option<&str>)
        ensures
            match r {
                Some(name) => non_empty(self.spec_name()) == Some(name@),
                None => non_empty(self.spec_name()) is None,
            },
    {
        non_empty_str(&self.name)
    }

    pub fn notes(&self) -> (r: Option<&str>)
        ensures
            match r {
                Some(notes) => non_empty(self.spec_notes()) == Some(notes@),
                None => non_empty(self.spec_notes()) is None,
            },
    {
        non_empty_str(&self.notes)
    }

    pub fn finish(&self) -> (r: Finish)
        ensures
            r == self.spec_finish(),
    {
        self.finish
    }

    pub fn transparency(&self) -> (r: Transparency)
        ensures
            r == self.spec_transparency(),
    {
        self.transparency
    }

    pub fn permanence(&self) -> (r: Permanence)
        ensures
            r == self.spec_permanence(),
    {
        self.permanence
    }

    pub fn fluorescence(&self) -> (r: Fluorescence)
        ensures
            r == self.spec_fluorescence(),
    {
        self.fluorescence
    }

    pub fn metallicness(&self) -> (r: Metallicness)
        ensures
            r == self.spec_metallicness(),
    {
        self.metallicness
    }

    /// The order of paints: by id, then by series id.
    pub open spec fn spec_order(&self, other: &SeriesPaint) -> IdOrder {
        if self.spec_id() == other.spec_id() {
            self.spec_series_id().spec_order(&other.spec_series_id())
        } else {
            lex_order(self.spec_id(), other.spec_id())
        }
    }

    /// Compares two paints by id, then by series id.
    pub fn compare(&self, other: &SeriesPaint) -> (r: IdOrder)
        ensures
            r == self.spec_order(other),
    {
        match compare_strs(self.id.as_str(), other.id.as_str()) {
            IdOrder::Equal => self.series_id.compare(&other.series_id),
            order => order,
        }
    }

    /// The paint's label: see `paint_label`.
    pub open spec fn spec_label(&self) -> Seq<char> {
        paint_label(self.spec_id(), self.spec_name(), self.spec_notes(), self.spec_rgb())
    }

    /// The paint's tooltip: its label, its notes where there are any, its
    /// series' name and its proprietor, one to a line.
    pub open spec fn spec_tooltip(&self) -> Seq<char> {
        let notes = if self.spec_notes().len() > 0 {
            seq!['\n'] + self.spec_notes()
        } else {
            Seq::empty()
        };
        self.spec_label() + notes + seq!['\n'] + self.spec_series_id().spec_series_name() + seq![
            '\n',
        ] + self.spec_series_id().spec_proprietor()
    }
}

impl Keyed for SeriesPaint {
    open spec fn spec_key(&self) -> Seq<char> {
        self.spec_id()
    }

    fn key(&self) -> (r: &str) {
        self.id.as_str()
    }
}

impl PartialEq for SeriesPaint {
    fn eq(&self, other: &SeriesPaint) -> (r: bool) {
        if self.id == other.id {
            *self.series_id == *other.series_id
        } else {
            false
        }
    }
}

impl vstd::std_specs::cmp::PartialEqSpecImpl for SeriesPaint {
    open spec fn obeys_eq_spec() -> bool {
        true
    }

    open spec fn eq_spec(&self, other: &SeriesPaint) -> bool {
        self.spec_id() == other.spec_id() && self.spec_series_id().spec_proprietor()
            == other.spec_series_id().spec_proprietor()
            && self.spec_series_id().spec_series_name()
            == other.spec_series_id().spec_series_name()
    }
}

impl LabelText for SeriesPaint {
    fn label_text(&self) -> (r: String)
        ensures
            r@ == self.spec_label(),
    {
        make_paint_label(self.id.as_str(), self.name.as_str(), self.notes.as_str(), &self.rgb)
    }
}

impl TooltipText for SeriesPaint {
    fn tooltip_text(&self) -> (r: String)
        ensures
            r@ == self.spec_tooltip(),
    {
        let mut string = self.label_text();
        if !self.notes.as_str().is_empty() {
            string.append("\n");
            string.append(self.notes.as_str());
        }
        string.append("\n");
        string.append(self.series_id.series_name());
        string.append("\n");
        string.append(self.series_id.proprietor());
        proof {
            reveal_strlit("\n");
        }
        assert(string@ =~= self.spec_tooltip());
        string
    }
}

/// The paints of a series, sorted by id.
#[derive(Debug)]
pub struct SeriesPaintSeries {
    series_id: Rc<SeriesId>,
    paint_list: Vec<Rc<SeriesPaint>>,
}

impl SeriesPaintSeries {
    #[verifier::type_invariant]
    spec fn well_formed(self) -> bool {
        sorted_unique(self.paint_list@)
    }

    pub closed spec fn spec_series_id(&self) -> SeriesId {
        *self.series_id
    }

    /// The paints, sorted by id with no id twice.
    pub closed spec fn spec_paints(&self) -> Seq<Rc<SeriesPaint>> {
        self.paint_list@
    }

    /// The paints of the series that `spec` describes, in the same order.
    pub fn from_spec(spec: &SeriesPaintSeriesSpec) -> (r: SeriesPaintSeries)
        ensures
            r.spec_series_id() == spec.spec_series_id(),
            r.spec_paints().len() == spec.spec_paints().len(),
            forall|i: int|
                0 <= i < r.spec_paints().len() ==> {
                    let p = #[trigger] r.spec_paints()[i];
                    let s = spec.spec_paints()[i];
                    &&& p.spec_series_id() == spec.spec_series_id()
                    &&& p.spec_rgb() == s.rgb
                    &&& p.spec_id() == s.id@
                    &&& p.spec_name() == s.name@
                    &&& p.spec_notes() == s.notes@
                    &&& p.spec_finish() == s.finish
                    &&& p.spec_transparency() == s.transparency
                    &&& p.spec_permanence() == s.permanence
                    &&& p.spec_fluorescence() == s.fluorescence
                    &&& p.spec_metallicness() == s.metallicness
                },
    {
        proof {
            use_type_invariant(spec);
        }
        let series_id = Rc::new(spec.series_id.clone());
        let mut paint_list: Vec<Rc<SeriesPaint>> = Vec::new();
        let n = spec.paint_list.len();
        let mut i: usize = 0;
        while i < n
            invariant
                n == spec.paint_list.len(),
                sorted_unique(spec.paint_list@),
                *series_id == spec.spec_series_id(),
                0 <= i <= n,
                paint_list.len() == i,
                forall|j: int|
                    0 <= j < i ==> {
                        let p = #[trigger] paint_list@[j];
                        let s = spec.paint_list@[j];
                        &&& p.spec_series_id() == spec.spec_series_id()
                        &&& p.spec_rgb() == s.rgb
                        &&& p.spec_id() == s.id@
                        &&& p.spec_name() == s.name@
                        &&& p.spec_notes() == s.notes@
                        &&& p.spec_finish() == s.finish
                        &&& p.spec_transparency() == s.transparency
                        &&& p.spec_permanence() == s.permanence
                        &&& p.spec_fluorescence() == s.fluorescence
                        &&& p.spec_metallicness() == s.metallicness
                    },
            decreases n - i,
        {
            let paint = SeriesPaint::from_spec(&spec.paint_list[i], &series_id);
            paint_list.push(Rc::new(paint));
            i = i + 1;
        }
        assert(sorted_unique(paint_list@)) by {
            assert forall|a: int, b: int| 0 <= a < b < paint_list@.len() implies crate::text::lex_lt(
                #[trigger] paint_list@[a].spec_key(),
                #[trigger] paint_list@[b].spec_key(),
            ) by {
                assert(spec.paint_list@[a].spec_key() == paint_list@[a].spec_key());
                assert(spec.paint_list@[b].spec_key() == paint_list@[b].spec_key());
            }
        }
        SeriesPaintSeries { series_id, paint_list }
    }

    pub fn series_id(&self) -> (r: &Rc<SeriesId>)
        ensures
            **r == self.spec_series_id(),
    {
        &self.series_id
    }

    /// The paint with the given id, if there is one.
    pub fn find(&self, id: &str) -> (r: Option<&Rc<SeriesPaint>>)
        ensures
            match r {
                Some(paint) => find_key(self.spec_paints(), id@) == Some(*paint),
                None => find_key(self.spec_paints(), id@) is None,
            },
    {
        proof {
            use_type_invariant(self);
        }
        find_by_key(&self.paint_list, id)
    }

    /// The paints, sorted by id.
    pub fn paints(&self) -> (r: &Vec<Rc<SeriesPaint>>)
        ensures
            r@ == self.spec_paints(),
            sorted_unique(r@),
    {
        proof {
            use_type_invariant(self);
        }
        &self.paint_list
    }

    fn is_sorted_unique(&self) -> (r: bool)
        ensures
            r == sorted_unique(self.spec_paints()),
    {
        is_sorted_unique_by_key(&self.paint_list)
    }
}

/// Finds the paints of series by id.
pub trait SeriesPaintFinder {
    /// Whether `answer` is what the finder may give when asked for the
    /// paint `paint_id` of the series `series_id`.
    spec fn spec_answers(
        &self,
        paint_id: Seq<char>,
        series_id: Option<SeriesId>,
        answer: crate::Result<Rc<SeriesPaint>>,
    ) -> bool;

    fn get_series_paint(&self, paint_id: &str, series_id: Option<&SeriesId>) -> (r: crate::Result<
        Rc<SeriesPaint>,
    >)
        ensures
            self.spec_answers(
                paint_id@,
                match series_id {
                    Some(id) => Some(*id),
                    None => None,
                },
                r,
            ),
    ;
}

/// A series finds its own paints by id, whatever series is asked for.
impl SeriesPaintFinder for SeriesPaintSeries {
    /// The paint with that id, or `NotFound` with the id where the series
    /// has none.
    open spec fn spec_answers(
        &self,
        paint_id: Seq<char>,
        series_id: Option<SeriesId>,
        answer: crate::Result<Rc<SeriesPaint>>,
    ) -> bool {
        match answer {
            Ok(paint) => find_key(self.spec_paints(), paint_id) == Some(paint),
            Err(crate::Error::NotFound(id)) => id@ == paint_id && find_key(
                self.spec_paints(),
                paint_id,
            ) is None,
            Err(_) => false,
        }
    }

    fn get_series_paint(&self, paint_id: &str, series_id: Option<&SeriesId>) -> (r:
        crate::Result<Rc<SeriesPaint>>)
    {
        match self.find(paint_id) {
            Some(paint) => Ok(clone_rc(paint)),
            None => {
                let missing = copy_string(paint_id);
                let r: crate::Result<Rc<SeriesPaint>> = Err(crate::Error::NotFound(missing));
                assert(r->Err_0->NotFound_0@ == paint_id@);
                r
            },
        }
    }
}

/// The description of a paint series: its id and its paints, sorted by id.
#[derive(Debug)]
pub struct SeriesPaintSeriesSpec {
    series_id: SeriesId,
    paint_list: Vec<BasicPaintSpec>,
}

impl SeriesPaintSeriesSpec {
    #[verifier::type_invariant]
    spec fn well_formed(self) -> bool {
        sorted_unique(self.paint_list@)
    }

    pub closed spec fn spec_series_id(&self) -> SeriesId {
        self.series_id
    }

    /// The paints, sorted by id with no id twice.
    pub closed spec fn spec_paints(&self) -> Seq<BasicPaintSpec> {
        self.paint_list@
    }

    /// A series with the given id and paints, where the paints are sorted
    /// by id with no id twice; `None` otherwise.
    pub fn from_parts(series_id: SeriesId, paint_list: Vec<BasicPaintSpec>) -> (r: Option<
        SeriesPaintSeriesSpec,
    >)
        ensures
            match r {
                Some(spec) => sorted_unique(paint_list@) && spec.spec_series_id() == series_id
                    && spec.spec_paints() == paint_list@,
                None => !sorted_unique(paint_list@),
            },
    {
        if is_sorted_unique_by_key(&paint_list) {
            Some(SeriesPaintSeriesSpec { series_id, paint_list })
        } else {
            None
        }
    }

    pub fn series_id(&self) -> (r: &SeriesId)
        ensures
            *r == self.spec_series_id(),
    {
        &self.series_id
    }

    pub fn set_proprietor(&mut self, proprietor: &str)
        ensures
            final(self).spec_series_id().spec_proprietor() == proprietor@,
            final(self).spec_series_id().spec_series_name() == old(
                self,
            ).spec_series_id().spec_series_name(),
            final(self).spec_paints() == old(self).spec_paints(),
    {
        proof {
            use_type_invariant(&*self);
        }
        let mut series_id = self.series_id.clone();
        series_id.set_proprietor(proprietor);
        self.series_id = series_id;
    }

    pub fn set_series_name(&mut self, series_name: &str)
        ensures
            final(self).spec_series_id().spec_series_name() == series_name@,
            final(self).spec_series_id().spec_proprietor() == old(
                self,
            ).spec_series_id().spec_proprietor(),
            final(self).spec_paints() == old(self).spec_paints(),
    {
        proof {
            use_type_invariant(&*self);
        }
        let mut series_id = self.series_id.clone();
        series_id.set_series_name(series_name);
        self.series_id = series_id;
    }

    /// The paints, sorted by id.
    pub fn paints(&self) -> (r: &Vec<BasicPaintSpec>)
        ensures
            r@ == self.spec_paints(),
            sorted_unique(r@),
    {
        proof {
            use_type_invariant(self);
        }
        &self.paint_list
    }

    /// Adds a copy of `paint`, in the place of the paint with the same id
    /// if there is one, which it returns.
    pub fn add(&mut self, paint: &BasicPaintSpec) -> (r: Option<BasicPaintSpec>)
        ensures
            added(old(self).spec_paints(), *paint, final(self).spec_paints(), r),
            final(self).spec_paints() == spec_add(old(self).spec_paints(), *paint),
            final(self).spec_series_id() == old(self).spec_series_id(),
    {
        proof {
            use_type_invariant(&*self);
        }
        let mut list: Vec<BasicPaintSpec> = Vec::new();
        std::mem::swap(&mut list, &mut self.paint_list);
        let r = add_by_key(&mut list, paint.clone());
        self.paint_list = list;
        r
    }

    /// Removes the paint with the given id, which it returns; where there
    /// is none, `NotFound` with the id, and nothing changes.
    pub fn remove(&mut self, id: &str) -> (r: crate::Result<BasicPaintSpec>)
        ensures
            final(self).spec_series_id() == old(self).spec_series_id(),
            match r {
                Ok(paint) => removed(
                    old(self).spec_paints(),
                    id@,
                    final(self).spec_paints(),
                    Some(paint),
                ),
                Err(crate::Error::NotFound(missing)) => missing@ == id@ && removed(
                    old(self).spec_paints(),
                    id@,
                    final(self).spec_paints(),
                    None,
                ),
                Err(_) => false,
            },
    {
        proof {
            use_type_invariant(&*self);
        }
        let mut list: Vec<BasicPaintSpec> = Vec::new();
        std::mem::swap(&mut list, &mut self.paint_list);
        let r = remove_by_key(&mut list, id);
        self.paint_list = list;
        match r {
            Some(paint) => Ok(paint),
            None => Err(crate::Error::NotFound(copy_string(id))),
        }
    }

    /// Removes every paint.
    pub fn remove_all(&mut self)
        ensures
            final(self).spec_paints() == Seq::<BasicPaintSpec>::empty(),
            final(self).spec_series_id() == old(self).spec_series_id(),
    {
        let mut list: Vec<BasicPaintSpec> = Vec::new();
        std::mem::swap(&mut list, &mut self.paint_list);
        list.clear();
        self.paint_list = list;
    }

    /// The paint with the given id, if there is one.
    pub fn find(&self, id: &str) -> (r: Option<&BasicPaintSpec>)
        ensures
            match r {
                Some(paint) => find_key(self.spec_paints(), id@) == Some(*paint),
                None => find_key(self.spec_paints(), id@) is None,
            },
    {
        proof {
            use_type_invariant(self);
        }
        find_by_key(&self.paint_list, id)
    }

    /// Whether the paints are sorted by id with no id twice.
    pub fn is_sorted_unique(&self) -> (r: bool)
        ensures
            r == sorted_unique(self.spec_paints()),
    {
        is_sorted_unique_by_key(&self.paint_list)
    }
}

impl Default for SeriesPaintSeriesSpec {
    fn default() -> (r: SeriesPaintSeriesSpec)
        ensures
            r.spec_series_id().spec_proprietor() == Seq::<char>::empty(),
            r.spec_series_id().spec_series_name() == Seq::<char>::empty(),
            r.spec_paints() == Seq::<BasicPaintSpec>::empty(),
    {
        SeriesPaintSeriesSpec { series_id: SeriesId::default(), paint_list: Vec::new() }
    }
}


/// Series ids are ordered by proprietor first: an id whose proprietor comes
/// first comes first; only where the proprietors are the same does the
/// series name decide.
pub proof fn law_series_id_order(a: SeriesId, b: SeriesId)
    ensures
        lex_lt(a.spec_proprietor(), b.spec_proprietor()) ==> a.spec_order(&b) == IdOrder::Less,
        lex_lt(b.spec_proprietor(), a.spec_proprietor()) ==> a.spec_order(&b) == IdOrder::Greater,
        a.spec_proprietor() == b.spec_proprietor() ==> a.spec_order(&b) == lex_order(
            a.spec_series_name(),
            b.spec_series_name(),
        ),
{
    lemma_lex_lt_irreflexive(a.spec_proprietor());
    lemma_lex_lt_asymmetric(a.spec_proprietor(), b.spec_proprietor());
}

/// Paints are ordered by id first: a paint whose id comes first comes
/// first; only where the ids are the same does the series id decide.
pub proof fn law_paint_order(a: SeriesPaint, b: SeriesPaint)
    ensures
        lex_lt(a.spec_id(), b.spec_id()) ==> a.spec_order(&b) == IdOrder::Less,
        lex_lt(b.spec_id(), a.spec_id()) ==> a.spec_order(&b) == IdOrder::Greater,
        a.spec_id() == b.spec_id() ==> a.spec_order(&b) == a.spec_series_id().spec_order(
            &b.spec_series_id(),
        ),
{
    lemma_lex_lt_irreflexive(a.spec_id());
    lemma_lex_lt_asymmetric(a.spec_id(), b.spec_id());
}

} // verus!
