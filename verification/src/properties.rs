//! Paint properties that cannot be derived from colour.

use vstd::prelude::*;

use crate::text::{malformed_message, malformed_value_message, str_eq};

verus! {


/// A paint property that cannot be derived from colour: an enumeration of
/// values with a name, a prompt, a list header, and for each value an
/// abbreviation, a full name and a level (its 1-based position).
pub trait PropertyIfce: Sized {
    const NAME: &'static str;
    const PROMPT: &'static str;
    const LIST_HEADER_NAME: &'static str;

    /// The text of `NAME`.
    spec fn spec_name_text() -> Seq<char>;

    /// The text of `PROMPT`.
    spec fn spec_prompt_text() -> Seq<char>;

    /// The text of `LIST_HEADER_NAME`.
    spec fn spec_list_header_text() -> Seq<char>;

    /// `NAME`, `PROMPT` and `LIST_HEADER_NAME` hold those texts.
    proof fn lemma_constant_texts()
        ensures
            Self::NAME@ == Self::spec_name_text(),
            Self::PROMPT@ == Self::spec_prompt_text(),
            Self::LIST_HEADER_NAME@ == Self::spec_list_header_text(),
    ;

    /// The number of values.
    spec fn spec_count() -> nat;

    /// The position of a value in declaration order, counting from 1.
    spec fn spec_level(&self) -> nat;

    /// The value at a position, counting from 1.
    spec fn spec_from_level(level: nat) -> Self;

    spec fn spec_abbrev(&self) -> Seq<char>;

    spec fn spec_full(&self) -> Seq<char>;

    /// Levels number the values one to one.
    proof fn lemma_levels()
        ensures
            1 <= Self::spec_count() <= 16,
            forall|v: Self| 1 <= #[trigger] v.spec_level() <= Self::spec_count(),
            forall|v: Self| Self::spec_from_level(#[trigger] v.spec_level()) == v,
            forall|l: nat|
                1 <= l <= Self::spec_count() ==> #[trigger] Self::spec_from_level(l).spec_level()
                    == l,
    ;

    /// Full names are distinct, and no abbreviation is a full name.
    proof fn lemma_names_distinct()
        ensures
            forall|a: Self, b: Self|
                a != b ==> #[trigger] a.spec_full() != #[trigger] b.spec_full(),
            forall|a: Self, b: Self| #[trigger] a.spec_abbrev() != #[trigger] b.spec_full(),
    ;

    /// The full names of all values, in declaration order.
    fn str_values() -> (r: Vec<&'static str>)
        ensures
            r@.len() == Self::spec_count(),
            forall|i: int|
                0 <= i < r@.len() ==> #[trigger] r@[i]@ == Self::spec_from_level(
                    (i + 1) as nat,
                ).spec_full(),
    ;

    fn abbrev(&self) -> (r: &'static str)
        ensures
            r@ == self.spec_abbrev(),
    ;

    fn full(&self) -> (r: &'static str)
        ensures
            r@ == self.spec_full(),
    ;

    /// The position of the value, counting from 1.
    fn level(&self) -> (r: u64)
        ensures
            r == self.spec_level(),
    ;

    /// The value at a position, counting from 1.
    fn from_level(level: u64) -> (r: Self)
        requires
            1 <= level <= Self::spec_count(),
        ensures
            r == Self::spec_from_level(level as nat),
    ;
}


/// The full names of the values of `C`, in order.
pub open spec fn spec_value_names<C: PropertyIfce>() -> Seq<Seq<char>> {
    Seq::new(C::spec_count(), |i: int| C::spec_from_level((i + 1) as nat).spec_full())
}

/// The first value, at or after `level` in declaration order, whose
/// abbreviation or full name is `s`.
pub open spec fn spec_parse_from<C: PropertyIfce>(s: Seq<char>, level: int) -> Option<C>
    decreases C::spec_count() + 1 - level,
{
    if level < 1 || level > C::spec_count() {
        None
    } else if s == C::spec_from_level(level as nat).spec_abbrev() || s
        == C::spec_from_level(level as nat).spec_full() {
        Some(C::spec_from_level(level as nat))
    } else {
        spec_parse_from::<C>(s, level + 1)
    }
}

/// The value that `s` names: the first, in declaration order, whose
/// abbreviation or full name is `s`.
pub open spec fn spec_parse<C: PropertyIfce>(s: Seq<char>) -> Option<C> {
    spec_parse_from::<C>(s, 1)
}

/// What parsing `s` gives: the value it names, or the message that refuses it.
pub open spec fn parse_outcome<C: PropertyIfce>(s: Seq<char>, r: Result<C, String>) -> bool {
    match r {
        Ok(v) => spec_parse::<C>(s) == Some(v),
        Err(msg) => spec_parse::<C>(s) is None && msg@ == malformed_message(s, C::spec_name_text()),
    }
}

/// Parses a value of `C` from its abbreviation or its full name.
pub fn parse_property<C: PropertyIfce>(string: &str) -> (r: Result<C, String>)
    ensures
        parse_outcome::<C>(string@, r),
{
    proof {
        C::lemma_levels();
    }
    let count: u64 = C::str_values().len() as u64;
    let mut level: u64 = 1;
    while level <= count
        invariant
            count == C::spec_count(),
            count <= 16,
            1 <= level <= count + 1,
            spec_parse::<C>(string@) == spec_parse_from::<C>(string@, level as int),
        decreases count + 1 - level,
    {
        let v = C::from_level(level);
        if str_eq(string, v.abbrev()) || str_eq(string, v.full()) {
            return Ok(v);
        }
        level = level + 1;
    }
    proof {
        C::lemma_constant_texts();
    }
    Err(malformed_value_message(string, C::NAME))
}

proof fn lemma_parse_skips<C: PropertyIfce>(s: Seq<char>, from: int, to: int)
    requires
        1 <= from <= to <= C::spec_count() + 1,
        forall|l: int|
            from <= l < to ==> s != #[trigger] C::spec_from_level(l as nat).spec_abbrev() && s
                != C::spec_from_level(l as nat).spec_full(),
    ensures
        spec_parse_from::<C>(s, from) == spec_parse_from::<C>(s, to),
    decreases to - from,
{
    if from < to {
        lemma_parse_skips::<C>(s, from + 1, to);
    }
}

proof fn lemma_parse_abbrev_from<C: PropertyIfce>(v: C, from: int)
    requires
        1 <= from <= v.spec_level(),
    ensures
        spec_parse_from::<C>(v.spec_abbrev(), from) matches Some(w) && w.spec_abbrev()
            == v.spec_abbrev(),
    decreases v.spec_level() - from,
{
    C::lemma_levels();
    C::lemma_names_distinct();
    let w = C::spec_from_level(from as nat);
    assert(v.spec_abbrev() != w.spec_full());
    if v.spec_abbrev() != w.spec_abbrev() {
        if from == v.spec_level() {
            assert(w == v);
        }
        lemma_parse_abbrev_from::<C>(v, from + 1);
    }
}

/// Every value is named by its full name: parsing the full name gives the
/// value back.
pub proof fn law_full_name_parses<C: PropertyIfce>(v: C)
    ensures
        spec_parse::<C>(v.spec_full()) == Some(v),
{
    C::lemma_levels();
    C::lemma_names_distinct();
    let lv = v.spec_level() as int;
    assert forall|l: int| 1 <= l < lv implies v.spec_full() != #[trigger] C::spec_from_level(
        l as nat,
    ).spec_abbrev() && v.spec_full() != C::spec_from_level(l as nat).spec_full() by {
        let w = C::spec_from_level(l as nat);
        assert(w.spec_level() == l);
        assert(w != v);
    }
    lemma_parse_skips::<C>(v.spec_full(), 1, lv);
}

/// Parsing the abbreviation of a value gives a value with that same
/// abbreviation (the first such value in declaration order).
pub proof fn law_abbreviation_parses<C: PropertyIfce>(v: C)
    ensures
        spec_parse::<C>(v.spec_abbrev()) matches Some(w) && w.spec_abbrev() == v.spec_abbrev(),
{
    C::lemma_levels();
    lemma_parse_abbrev_from::<C>(v, 1);
}

/// Only names parse: a string that parses is the abbreviation or the full
/// name of the value it gives.
pub proof fn law_only_names_parse<C: PropertyIfce>(s: Seq<char>)
    ensures
        spec_parse::<C>(s) matches Some(v) ==> (s == v.spec_abbrev() || s == v.spec_full()),
{
    lemma_parse_result_named::<C>(s, 1);
}

proof fn lemma_parse_result_named<C: PropertyIfce>(s: Seq<char>, from: int)
    ensures
        spec_parse_from::<C>(s, from) matches Some(v) ==> (s == v.spec_abbrev() || s
            == v.spec_full()),
    decreases C::spec_count() + 1 - from,
{
    if 1 <= from <= C::spec_count() {
        lemma_parse_result_named::<C>(s, from + 1);
    }
}

/// Every value has a level between 1 and the number of values, and the
/// level gives the value back.
pub proof fn law_level_round_trip<C: PropertyIfce>(v: C)
    ensures
        1 <= v.spec_level() <= C::spec_count(),
        C::spec_from_level(v.spec_level()) == v,
{
    C::lemma_levels();
}

/// The finish of a paint.
#[derive(PartialEq, Eq, Structural, PartialOrd, Ord, Clone, Copy, Debug, Hash)]
pub enum Finish {
    Gloss,
    SemiGloss,
    SemiFlat,
    Flat,
}

impl PropertyIfce for Finish {
    const NAME: &'static str = "Finish";
    const PROMPT: &'static str = "Finish:";
    const LIST_HEADER_NAME: &'static str = "Fi.";

    open spec fn spec_name_text() -> Seq<char> {
        "Finish"@
    }

    open spec fn spec_prompt_text() -> Seq<char> {
        "Finish:"@
    }

    open spec fn spec_list_header_text() -> Seq<char> {
        "Fi."@
    }

    proof fn lemma_constant_texts() {
    }

    open spec fn spec_count() -> nat {
        4
    }

    open spec fn spec_level(&self) -> nat {
        match self {
            Finish::Gloss => 1,
            Finish::SemiGloss => 2,
            Finish::SemiFlat => 3,
            Finish::Flat => 4,
        }
    }

    open spec fn spec_from_level(level: nat) -> Self {
        if level == 1 {
            Finish::Gloss
        } else if level == 2 {
            Finish::SemiGloss
        } else if level == 3 {
            Finish::SemiFlat
        } else {
            Finish::Flat
        }
    }

    open spec fn spec_abbrev(&self) -> Seq<char> {
        match self {
            Finish::Gloss => "G"@,
            Finish::SemiGloss => "SG"@,
            Finish::SemiFlat => "SF"@,
            Finish::Flat => "F"@,
        }
    }

    open spec fn spec_full(&self) -> Seq<char> {
        match self {
            Finish::Gloss => "gloss"@,
            Finish::SemiGloss => "semi-gloss"@,
            Finish::SemiFlat => "semi-flat"@,
            Finish::Flat => "flat"@,
        }
    }

    proof fn lemma_levels() {
    }

    proof fn lemma_names_distinct() {
        reveal_strlit("F");
        reveal_strlit("G");
        reveal_strlit("SF");
        reveal_strlit("SG");
        reveal_strlit("flat");
        reveal_strlit("gloss");
        reveal_strlit("semi-flat");
        reveal_strlit("semi-gloss");
        assert("F"@[0] != "G"@[0]);
        assert("F"@.len() != "SF"@.len());
        assert("F"@.len() != "SG"@.len());
        assert("F"@.len() != "flat"@.len());
        assert("F"@.len() != "gloss"@.len());
        assert("F"@.len() != "semi-flat"@.len());
        assert("F"@.len() != "semi-gloss"@.len());
        assert("G"@.len() != "SF"@.len());
        assert("G"@.len() != "SG"@.len());
        assert("G"@.len() != "flat"@.len());
        assert("G"@.len() != "gloss"@.len());
        assert("G"@.len() != "semi-flat"@.len());
        assert("G"@.len() != "semi-gloss"@.len());
        assert("SF"@[1] != "SG"@[1]);
        assert("SF"@.len() != "flat"@.len());
        assert("SF"@.len() != "gloss"@.len());
        assert("SF"@.len() != "semi-flat"@.len());
        assert("SF"@.len() != "semi-gloss"@.len());
        assert("SG"@.len() != "flat"@.len());
        assert("SG"@.len() != "gloss"@.len());
        assert("SG"@.len() != "semi-flat"@.len());
        assert("SG"@.len() != "semi-gloss"@.len());
        assert("flat"@.len() != "gloss"@.len());
        assert("flat"@.len() != "semi-flat"@.len());
        assert("flat"@.len() != "semi-gloss"@.len());
        assert("gloss"@.len() != "semi-flat"@.len());
        assert("gloss"@.len() != "semi-gloss"@.len());
        assert("semi-flat"@.len() != "semi-gloss"@.len());
    }

    fn str_values() -> (r: Vec<&'static str>) {
        let r = vec!["gloss", "semi-gloss", "semi-flat", "flat"];
        r
    }

    fn abbrev(&self) -> (r: &'static str) {
        match self {
            Finish::Gloss => "G",
            Finish::SemiGloss => "SG",
            Finish::SemiFlat => "SF",
            Finish::Flat => "F",
        }
    }

    fn full(&self) -> (r: &'static str) {
        match self {
            Finish::Gloss => "gloss",
            Finish::SemiGloss => "semi-gloss",
            Finish::SemiFlat => "semi-flat",
            Finish::Flat => "flat",
        }
    }

    fn level(&self) -> (r: u64) {
        match self {
            Finish::Gloss => 1,
            Finish::SemiGloss => 2,
            Finish::SemiFlat => 3,
            Finish::Flat => 4,
        }
    }

    fn from_level(level: u64) -> (r: Self) {
        if level == 1 {
            Finish::Gloss
        } else if level == 2 {
            Finish::SemiGloss
        } else if level == 3 {
            Finish::SemiFlat
        } else {
            Finish::Flat
        }
    }
}

impl Default for Finish {
    fn default() -> (r: Self)
        ensures
            r == Finish::Gloss,
    {
        Finish::Gloss
    }
}

impl std::str::FromStr for Finish {
    type Err = String;

    fn from_str(string: &str) -> (r: Result<Finish, String>)
        ensures
            parse_outcome::<Finish>(string@, r),
    {
        parse_property::<Finish>(string)
    }
}

/// The opacity of a paint.
#[derive(PartialEq, Eq, Structural, PartialOrd, Ord, Clone, Copy, Debug, Hash)]
pub enum Opacity {
    Opaque,
    SemiOpaque,
    SemiTransparent,
    Transparent,
    Clear,
}

impl PropertyIfce for Opacity {
    const NAME: &'static str = "Opacity";
    const PROMPT: &'static str = "Opacity:";
    const LIST_HEADER_NAME: &'static str = "Op.";

    open spec fn spec_name_text() -> Seq<char> {
        "Opacity"@
    }

    open spec fn spec_prompt_text() -> Seq<char> {
        "Opacity:"@
    }

    open spec fn spec_list_header_text() -> Seq<char> {
        "Op."@
    }

    proof fn lemma_constant_texts() {
    }

    open spec fn spec_count() -> nat {
        5
    }

    open spec fn spec_level(&self) -> nat {
        match self {
            Opacity::Opaque => 1,
            Opacity::SemiOpaque => 2,
            Opacity::SemiTransparent => 3,
            Opacity::Transparent => 4,
            Opacity::Clear => 5,
        }
    }

    open spec fn spec_from_level(level: nat) -> Self {
        if level == 1 {
            Opacity::Opaque
        } else if level == 2 {
            Opacity::SemiOpaque
        } else if level == 3 {
            Opacity::SemiTransparent
        } else if level == 4 {
            Opacity::Transparent
        } else {
            Opacity::Clear
        }
    }

    open spec fn spec_abbrev(&self) -> Seq<char> {
        match self {
            Opacity::Opaque => "O"@,
            Opacity::SemiOpaque => "SO"@,
            Opacity::SemiTransparent => "ST"@,
            Opacity::Transparent => "T"@,
            Opacity::Clear => "C"@,
        }
    }

    open spec fn spec_full(&self) -> Seq<char> {
        match self {
            Opacity::Opaque => "opaque"@,
            Opacity::SemiOpaque => "semi-opaque"@,
            Opacity::SemiTransparent => "semi-transparent"@,
            Opacity::Transparent => "transparent"@,
            Opacity::Clear => "clear"@,
        }
    }

    proof fn lemma_levels() {
    }

    proof fn lemma_names_distinct() {
        reveal_strlit("C");
        reveal_strlit("O");
        reveal_strlit("SO");
        reveal_strlit("ST");
        reveal_strlit("T");
        reveal_strlit("clear");
        reveal_strlit("opaque");
        reveal_strlit("semi-opaque");
        reveal_strlit("semi-transparent");
        reveal_strlit("transparent");
        assert("C"@[0] != "O"@[0]);
        assert("C"@.len() != "SO"@.len());
        assert("C"@.len() != "ST"@.len());
        assert("C"@[0] != "T"@[0]);
        assert("C"@.len() != "clear"@.len());
        assert("C"@.len() != "opaque"@.len());
        assert("C"@.len() != "semi-opaque"@.len());
        assert("C"@.len() != "semi-transparent"@.len());
        assert("C"@.len() != "transparent"@.len());
        assert("O"@.len() != "SO"@.len());
        assert("O"@.len() != "ST"@.len());
        assert("O"@[0] != "T"@[0]);
        assert("O"@.len() != "clear"@.len());
        assert("O"@.len() != "opaque"@.len());
        assert("O"@.len() != "semi-opaque"@.len());
        assert("O"@.len() != "semi-transparent"@.len());
        assert("O"@.len() != "transparent"@.len());
        assert("SO"@[1] != "ST"@[1]);
        assert("SO"@.len() != "T"@.len());
        assert("SO"@.len() != "clear"@.len());
        assert("SO"@.len() != "opaque"@.len());
        assert("SO"@.len() != "semi-opaque"@.len());
        assert("SO"@.len() != "semi-transparent"@.len());
        assert("SO"@.len() != "transparent"@.len());
        assert("ST"@.len() != "T"@.len());
        assert("ST"@.len() != "clear"@.len());
        assert("ST"@.len() != "opaque"@.len());
        assert("ST"@.len() != "semi-opaque"@.len());
        assert("ST"@.len() != "semi-transparent"@.len());
        assert("ST"@.len() != "transparent"@.len());
        assert("T"@.len() != "clear"@.len());
        assert("T"@.len() != "opaque"@.len());
        assert("T"@.len() != "semi-opaque"@.len());
        assert("T"@.len() != "semi-transparent"@.len());
        assert("T"@.len() != "transparent"@.len());
        assert("clear"@.len() != "opaque"@.len());
        assert("clear"@.len() != "semi-opaque"@.len());
        assert("clear"@.len() != "semi-transparent"@.len());
        assert("clear"@.len() != "transparent"@.len());
        assert("opaque"@.len() != "semi-opaque"@.len());
        assert("opaque"@.len() != "semi-transparent"@.len());
        assert("opaque"@.len() != "transparent"@.len());
        assert("semi-opaque"@.len() != "semi-transparent"@.len());
        assert("semi-opaque"@[0] != "transparent"@[0]);
        assert("semi-transparent"@.len() != "transparent"@.len());
    }

    fn str_values() -> (r: Vec<&'static str>) {
        let r = vec!["opaque", "semi-opaque", "semi-transparent", "transparent", "clear"];
        r
    }

    fn abbrev(&self) -> (r: &'static str) {
        match self {
            Opacity::Opaque => "O",
            Opacity::SemiOpaque => "SO",
            Opacity::SemiTransparent => "ST",
            Opacity::Transparent => "T",
            Opacity::Clear => "C",
        }
    }

    fn full(&self) -> (r: &'static str) {
        match self {
            Opacity::Opaque => "opaque",
            Opacity::SemiOpaque => "semi-opaque",
            Opacity::SemiTransparent => "semi-transparent",
            Opacity::Transparent => "transparent",
            Opacity::Clear => "clear",
        }
    }

    fn level(&self) -> (r: u64) {
        match self {
            Opacity::Opaque => 1,
            Opacity::SemiOpaque => 2,
            Opacity::SemiTransparent => 3,
            Opacity::Transparent => 4,
            Opacity::Clear => 5,
        }
    }

    fn from_level(level: u64) -> (r: Self) {
        if level == 1 {
            Opacity::Opaque
        } else if level == 2 {
            Opacity::SemiOpaque
        } else if level == 3 {
            Opacity::SemiTransparent
        } else if level == 4 {
            Opacity::Transparent
        } else {
            Opacity::Clear
        }
    }
}

impl Default for Opacity {
    fn default() -> (r: Self)
        ensures
            r == Opacity::Opaque,
    {
        Opacity::Opaque
    }
}

impl std::str::FromStr for Opacity {
    type Err = String;

    fn from_str(string: &str) -> (r: Result<Opacity, String>)
        ensures
            parse_outcome::<Opacity>(string@, r),
    {
        parse_property::<Opacity>(string)
    }
}

/// The transparency of a paint.
#[derive(PartialEq, Eq, Structural, PartialOrd, Ord, Clone, Copy, Debug, Hash)]
pub enum Transparency {
    Opaque,
    SemiOpaque,
    SemiTransparent,
    Transparent,
    Clear,
}

impl PropertyIfce for Transparency {
    const NAME: &'static str = "Transparency";
    const PROMPT: &'static str = "Transparency:";
    const LIST_HEADER_NAME: &'static str = "Tr.";

    open spec fn spec_name_text() -> Seq<char> {
        "Transparency"@
    }

    open spec fn spec_prompt_text() -> Seq<char> {
        "Transparency:"@
    }

    open spec fn spec_list_header_text() -> Seq<char> {
        "Tr."@
    }

    proof fn lemma_constant_texts() {
    }

    open spec fn spec_count() -> nat {
        5
    }

    open spec fn spec_level(&self) -> nat {
        match self {
            Transparency::Opaque => 1,
            Transparency::SemiOpaque => 2,
            Transparency::SemiTransparent => 3,
            Transparency::Transparent => 4,
            Transparency::Clear => 5,
        }
    }

    open spec fn spec_from_level(level: nat) -> Self {
        if level == 1 {
            Transparency::Opaque
        } else if level == 2 {
            Transparency::SemiOpaque
        } else if level == 3 {
            Transparency::SemiTransparent
        } else if level == 4 {
            Transparency::Transparent
        } else {
            Transparency::Clear
        }
    }

    open spec fn spec_abbrev(&self) -> Seq<char> {
        match self {
            Transparency::Opaque => "O"@,
            Transparency::SemiOpaque => "SO"@,
            Transparency::SemiTransparent => "ST"@,
            Transparency::Transparent => "T"@,
            Transparency::Clear => "C"@,
        }
    }

    open spec fn spec_full(&self) -> Seq<char> {
        match self {
            Transparency::Opaque => "opaque"@,
            Transparency::SemiOpaque => "semi-opaque"@,
            Transparency::SemiTransparent => "semi-transparent"@,
            Transparency::Transparent => "transparent"@,
            Transparency::Clear => "clear"@,
        }
    }

    proof fn lemma_levels() {
    }

    proof fn lemma_names_distinct() {
        reveal_strlit("C");
        reveal_strlit("O");
        reveal_strlit("SO");
        reveal_strlit("ST");
        reveal_strlit("T");
        reveal_strlit("clear");
        reveal_strlit("opaque");
        reveal_strlit("semi-opaque");
        reveal_strlit("semi-transparent");
        reveal_strlit("transparent");
        assert("C"@[0] != "O"@[0]);
        assert("C"@.len() != "SO"@.len());
        assert("C"@.len() != "ST"@.len());
        assert("C"@[0] != "T"@[0]);
        assert("C"@.len() != "clear"@.len());
        assert("C"@.len() != "opaque"@.len());
        assert("C"@.len() != "semi-opaque"@.len());
        assert("C"@.len() != "semi-transparent"@.len());
        assert("C"@.len() != "transparent"@.len());
        assert("O"@.len() != "SO"@.len());
        assert("O"@.len() != "ST"@.len());
        assert("O"@[0] != "T"@[0]);
        assert("O"@.len() != "clear"@.len());
        assert("O"@.len() != "opaque"@.len());
        assert("O"@.len() != "semi-opaque"@.len());
        assert("O"@.len() != "semi-transparent"@.len());
        assert("O"@.len() != "transparent"@.len());
        assert("SO"@[1] != "ST"@[1]);
        assert("SO"@.len() != "T"@.len());
        assert("SO"@.len() != "clear"@.len());
        assert("SO"@.len() != "opaque"@.len());
        assert("SO"@.len() != "semi-opaque"@.len());
        assert("SO"@.len() != "semi-transparent"@.len());
        assert("SO"@.len() != "transparent"@.len());
        assert("ST"@.len() != "T"@.len());
        assert("ST"@.len() != "clear"@.len());
        assert("ST"@.len() != "opaque"@.len());
        assert("ST"@.len() != "semi-opaque"@.len());
        assert("ST"@.len() != "semi-transparent"@.len());
        assert("ST"@.len() != "transparent"@.len());
        assert("T"@.len() != "clear"@.len());
        assert("T"@.len() != "opaque"@.len());
        assert("T"@.len() != "semi-opaque"@.len());
        assert("T"@.len() != "semi-transparent"@.len());
        assert("T"@.len() != "transparent"@.len());
        assert("clear"@.len() != "opaque"@.len());
        assert("clear"@.len() != "semi-opaque"@.len());
        assert("clear"@.len() != "semi-transparent"@.len());
        assert("clear"@.len() != "transparent"@.len());
        assert("opaque"@.len() != "semi-opaque"@.len());
        assert("opaque"@.len() != "semi-transparent"@.len());
        assert("opaque"@.len() != "transparent"@.len());
        assert("semi-opaque"@.len() != "semi-transparent"@.len());
        assert("semi-opaque"@[0] != "transparent"@[0]);
        assert("semi-transparent"@.len() != "transparent"@.len());
    }

    fn str_values() -> (r: Vec<&'static str>) {
        let r = vec!["opaque", "semi-opaque", "semi-transparent", "transparent", "clear"];
        r
    }

    fn abbrev(&self) -> (r: &'static str) {
        match self {
            Transparency::Opaque => "O",
            Transparency::SemiOpaque => "SO",
            Transparency::SemiTransparent => "ST",
            Transparency::Transparent => "T",
            Transparency::Clear => "C",
        }
    }

    fn full(&self) -> (r: &'static str) {
        match self {
            Transparency::Opaque => "opaque",
            Transparency::SemiOpaque => "semi-opaque",
            Transparency::SemiTransparent => "semi-transparent",
            Transparency::Transparent => "transparent",
            Transparency::Clear => "clear",
        }
    }

    fn level(&self) -> (r: u64) {
        match self {
            Transparency::Opaque => 1,
            Transparency::SemiOpaque => 2,
            Transparency::SemiTransparent => 3,
            Transparency::Transparent => 4,
            Transparency::Clear => 5,
        }
    }

    fn from_level(level: u64) -> (r: Self) {
        if level == 1 {
            Transparency::Opaque
        } else if level == 2 {
            Transparency::SemiOpaque
        } else if level == 3 {
            Transparency::SemiTransparent
        } else if level == 4 {
            Transparency::Transparent
        } else {
            Transparency::Clear
        }
    }
}

impl Default for Transparency {
    fn default() -> (r: Self)
        ensures
            r == Transparency::Transparent,
    {
        Transparency::Transparent
    }
}

impl std::str::FromStr for Transparency {
    type Err = String;

    fn from_str(string: &str) -> (r: Result<Transparency, String>)
        ensures
            parse_outcome::<Transparency>(string@, r),
    {
        parse_property::<Transparency>(string)
    }
}

/// The permanence of a paint.
#[derive(PartialEq, Eq, Structural, PartialOrd, Ord, Clone, Copy, Debug, Hash)]
pub enum Permanence {
    ExtremelyPermanent,
    Permanent,
    ModeratelyDurable,
    Fugitive,
}

impl PropertyIfce for Permanence {
    const NAME: &'static str = "Permanence";
    const PROMPT: &'static str = "Permanence:";
    const LIST_HEADER_NAME: &'static str = "Pe.";

    open spec fn spec_name_text() -> Seq<char> {
        "Permanence"@
    }

    open spec fn spec_prompt_text() -> Seq<char> {
        "Permanence:"@
    }

    open spec fn spec_list_header_text() -> Seq<char> {
        "Pe."@
    }

    proof fn lemma_constant_texts() {
    }

    open spec fn spec_count() -> nat {
        4
    }

    open spec fn spec_level(&self) -> nat {
        match self {
            Permanence::ExtremelyPermanent => 1,
            Permanence::Permanent => 2,
            Permanence::ModeratelyDurable => 3,
            Permanence::Fugitive => 4,
        }
    }

    open spec fn spec_from_level(level: nat) -> Self {
        if level == 1 {
            Permanence::ExtremelyPermanent
        } else if level == 2 {
            Permanence::Permanent
        } else if level == 3 {
            Permanence::ModeratelyDurable
        } else {
            Permanence::Fugitive
        }
    }

    open spec fn spec_abbrev(&self) -> Seq<char> {
        match self {
            Permanence::ExtremelyPermanent => "EP"@,
            Permanence::Permanent => "P"@,
            Permanence::ModeratelyDurable => "MD"@,
            Permanence::Fugitive => "F"@,
        }
    }

    open spec fn spec_full(&self) -> Seq<char> {
        match self {
            Permanence::ExtremelyPermanent => "extremely-permanent"@,
            Permanence::Permanent => "permanent"@,
            Permanence::ModeratelyDurable => "moderately-durable"@,
            Permanence::Fugitive => "fugitive"@,
        }
    }

    proof fn lemma_levels() {
    }

    proof fn lemma_names_distinct() {
        reveal_strlit("EP");
        reveal_strlit("F");
        reveal_strlit("MD");
        reveal_strlit("P");
        reveal_strlit("extremely-permanent");
        reveal_strlit("fugitive");
        reveal_strlit("moderately-durable");
        reveal_strlit("permanent");
        assert("EP"@.len() != "F"@.len());
        assert("EP"@[0] != "MD"@[0]);
        assert("EP"@.len() != "P"@.len());
        assert("EP"@.len() != "extremely-permanent"@.len());
        assert("EP"@.len() != "fugitive"@.len());
        assert("EP"@.len() != "moderately-durable"@.len());
        assert("EP"@.len() != "permanent"@.len());
        assert("F"@.len() != "MD"@.len());
        assert("F"@[0] != "P"@[0]);
        assert("F"@.len() != "extremely-permanent"@.len());
        assert("F"@.len() != "fugitive"@.len());
        assert("F"@.len() != "moderately-durable"@.len());
        assert("F"@.len() != "permanent"@.len());
        assert("MD"@.len() != "P"@.len());
        assert("MD"@.len() != "extremely-permanent"@.len());
        assert("MD"@.len() != "fugitive"@.len());
        assert("MD"@.len() != "moderately-durable"@.len());
        assert("MD"@.len() != "permanent"@.len());
        assert("P"@.len() != "extremely-permanent"@.len());
        assert("P"@.len() != "fugitive"@.len());
        assert("P"@.len() != "moderately-durable"@.len());
        assert("P"@.len() != "permanent"@.len());
        assert("extremely-permanent"@.len() != "fugitive"@.len());
        assert("extremely-permanent"@.len() != "moderately-durable"@.len());
        assert("extremely-permanent"@.len() != "permanent"@.len());
        assert("fugitive"@.len() != "moderately-durable"@.len());
        assert("fugitive"@.len() != "permanent"@.len());
        assert("moderately-durable"@.len() != "permanent"@.len());
    }

    fn str_values() -> (r: Vec<&'static str>) {
        let r = vec!["extremely-permanent", "permanent", "moderately-durable", "fugitive"];
        r
    }

    fn abbrev(&self) -> (r: &'static str) {
        match self {
            Permanence::ExtremelyPermanent => "EP",
            Permanence::Permanent => "P",
            Permanence::ModeratelyDurable => "MD",
            Permanence::Fugitive => "F",
        }
    }

    fn full(&self) -> (r: &'static str) {
        match self {
            Permanence::ExtremelyPermanent => "extremely-permanent",
            Permanence::Permanent => "permanent",
            Permanence::ModeratelyDurable => "moderately-durable",
            Permanence::Fugitive => "fugitive",
        }
    }

    fn level(&self) -> (r: u64) {
        match self {
            Permanence::ExtremelyPermanent => 1,
            Permanence::Permanent => 2,
            Permanence::ModeratelyDurable => 3,
            Permanence::Fugitive => 4,
        }
    }

    fn from_level(level: u64) -> (r: Self) {
        if level == 1 {
            Permanence::ExtremelyPermanent
        } else if level == 2 {
            Permanence::Permanent
        } else if level == 3 {
            Permanence::ModeratelyDurable
        } else {
            Permanence::Fugitive
        }
    }
}

impl Default for Permanence {
    fn default() -> (r: Self)
        ensures
            r == Permanence::Permanent,
    {
        Permanence::Permanent
    }
}

impl std::str::FromStr for Permanence {
    type Err = String;

    fn from_str(string: &str) -> (r: Result<Permanence, String>)
        ensures
            parse_outcome::<Permanence>(string@, r),
    {
        parse_property::<Permanence>(string)
    }
}

/// The fluorescence of a paint.
#[derive(PartialEq, Eq, Structural, PartialOrd, Ord, Clone, Copy, Debug, Hash)]
pub enum Fluorescence {
    Fluorescent,
    SemiFluorescent,
    SemiNonFluorescent,
    NonFluorescent,
}

impl PropertyIfce for Fluorescence {
    const NAME: &'static str = "Fluorescence";
    const PROMPT: &'static str = "Fluorescence:";
    const LIST_HEADER_NAME: &'static str = "Fl.";

    open spec fn spec_name_text() -> Seq<char> {
        "Fluorescence"@
    }

    open spec fn spec_prompt_text() -> Seq<char> {
        "Fluorescence:"@
    }

    open spec fn spec_list_header_text() -> Seq<char> {
        "Fl."@
    }

    proof fn lemma_constant_texts() {
    }

    open spec fn spec_count() -> nat {
        4
    }

    open spec fn spec_level(&self) -> nat {
        match self {
            Fluorescence::Fluorescent => 1,
            Fluorescence::SemiFluorescent => 2,
            Fluorescence::SemiNonFluorescent => 3,
            Fluorescence::NonFluorescent => 4,
        }
    }

    open spec fn spec_from_level(level: nat) -> Self {
        if level == 1 {
            Fluorescence::Fluorescent
        } else if level == 2 {
            Fluorescence::SemiFluorescent
        } else if level == 3 {
            Fluorescence::SemiNonFluorescent
        } else {
            Fluorescence::NonFluorescent
        }
    }

    open spec fn spec_abbrev(&self) -> Seq<char> {
        match self {
            Fluorescence::Fluorescent => "F"@,
            Fluorescence::SemiFluorescent => "SF"@,
            Fluorescence::SemiNonFluorescent => "SNF"@,
            Fluorescence::NonFluorescent => "NF"@,
        }
    }

    open spec fn spec_full(&self) -> Seq<char> {
        match self {
            Fluorescence::Fluorescent => "fluorescent"@,
            Fluorescence::SemiFluorescent => "semi-fluorescent"@,
            Fluorescence::SemiNonFluorescent => "semi-non-fluorescent"@,
            Fluorescence::NonFluorescent => "non-fluorescent"@,
        }
    }

    proof fn lemma_levels() {
    }

    proof fn lemma_names_distinct() {
        reveal_strlit("F");
        reveal_strlit("NF");
        reveal_strlit("SF");
        reveal_strlit("SNF");
        reveal_strlit("fluorescent");
        reveal_strlit("non-fluorescent");
        reveal_strlit("semi-fluorescent");
        reveal_strlit("semi-non-fluorescent");
        assert("F"@.len() != "NF"@.len());
        assert("F"@.len() != "SF"@.len());
        assert("F"@.len() != "SNF"@.len());
        assert("F"@.len() != "fluorescent"@.len());
        assert("F"@.len() != "non-fluorescent"@.len());
        assert("F"@.len() != "semi-fluorescent"@.len());
        assert("F"@.len() != "semi-non-fluorescent"@.len());
        assert("NF"@[0] != "SF"@[0]);
        assert("NF"@.len() != "SNF"@.len());
        assert("NF"@.len() != "fluorescent"@.len());
        assert("NF"@.len() != "non-fluorescent"@.len());
        assert("NF"@.len() != "semi-fluorescent"@.len());
        assert("NF"@.len() != "semi-non-fluorescent"@.len());
        assert("SF"@.len() != "SNF"@.len());
        assert("SF"@.len() != "fluorescent"@.len());
        assert("SF"@.len() != "non-fluorescent"@.len());
        assert("SF"@.len() != "semi-fluorescent"@.len());
        assert("SF"@.len() != "semi-non-fluorescent"@.len());
        assert("SNF"@.len() != "fluorescent"@.len());
        assert("SNF"@.len() != "non-fluorescent"@.len());
        assert("SNF"@.len() != "semi-fluorescent"@.len());
        assert("SNF"@.len() != "semi-non-fluorescent"@.len());
        assert("fluorescent"@.len() != "non-fluorescent"@.len());
        assert("fluorescent"@.len() != "semi-fluorescent"@.len());
        assert("fluorescent"@.len() != "semi-non-fluorescent"@.len());
        assert("non-fluorescent"@.len() != "semi-fluorescent"@.len());
        assert("non-fluorescent"@.len() != "semi-non-fluorescent"@.len());
        assert("semi-fluorescent"@.len() != "semi-non-fluorescent"@.len());
    }

    fn str_values() -> (r: Vec<&'static str>) {
        let r = vec!["fluorescent", "semi-fluorescent", "semi-non-fluorescent", "non-fluorescent"];
        r
    }

    fn abbrev(&self) -> (r: &'static str) {
        match self {
            Fluorescence::Fluorescent => "F",
            Fluorescence::SemiFluorescent => "SF",
            Fluorescence::SemiNonFluorescent => "SNF",
            Fluorescence::NonFluorescent => "NF",
        }
    }

    fn full(&self) -> (r: &'static str) {
        match self {
            Fluorescence::Fluorescent => "fluorescent",
            Fluorescence::SemiFluorescent => "semi-fluorescent",
            Fluorescence::SemiNonFluorescent => "semi-non-fluorescent",
            Fluorescence::NonFluorescent => "non-fluorescent",
        }
    }

    fn level(&self) -> (r: u64) {
        match self {
            Fluorescence::Fluorescent => 1,
            Fluorescence::SemiFluorescent => 2,
            Fluorescence::SemiNonFluorescent => 3,
            Fluorescence::NonFluorescent => 4,
        }
    }

    fn from_level(level: u64) -> (r: Self) {
        if level == 1 {
            Fluorescence::Fluorescent
        } else if level == 2 {
            Fluorescence::SemiFluorescent
        } else if level == 3 {
            Fluorescence::SemiNonFluorescent
        } else {
            Fluorescence::NonFluorescent
        }
    }
}

impl Default for Fluorescence {
    fn default() -> (r: Self)
        ensures
            r == Fluorescence::NonFluorescent,
    {
        Fluorescence::NonFluorescent
    }
}

impl std::str::FromStr for Fluorescence {
    type Err = String;

    fn from_str(string: &str) -> (r: Result<Fluorescence, String>)
        ensures
            parse_outcome::<Fluorescence>(string@, r),
    {
        parse_property::<Fluorescence>(string)
    }
}

/// The metallicness of a paint.
#[derive(PartialEq, Eq, Structural, PartialOrd, Ord, Clone, Copy, Debug, Hash)]
pub enum Metallicness {
    Metal,
    Metallic,
    SemiMetallic,
    NonMetallic,
}

impl PropertyIfce for Metallicness {
    const NAME: &'static str = "Metallicness";
    const PROMPT: &'static str = "Metallicness:";
    const LIST_HEADER_NAME: &'static str = "Me.";

    open spec fn spec_name_text() -> Seq<char> {
        "Metallicness"@
    }

    open spec fn spec_prompt_text() -> Seq<char> {
        "Metallicness:"@
    }

    open spec fn spec_list_header_text() -> Seq<char> {
        "Me."@
    }

    proof fn lemma_constant_texts() {
    }

    open spec fn spec_count() -> nat {
        4
    }

    open spec fn spec_level(&self) -> nat {
        match self {
            Metallicness::Metal => 1,
            Metallicness::Metallic => 2,
            Metallicness::SemiMetallic => 3,
            Metallicness::NonMetallic => 4,
        }
    }

    open spec fn spec_from_level(level: nat) -> Self {
        if level == 1 {
            Metallicness::Metal
        } else if level == 2 {
            Metallicness::Metallic
        } else if level == 3 {
            Metallicness::SemiMetallic
        } else {
            Metallicness::NonMetallic
        }
    }

    open spec fn spec_abbrev(&self) -> Seq<char> {
        match self {
            Metallicness::Metal => "M"@,
            Metallicness::Metallic => "M"@,
            Metallicness::SemiMetallic => "SM"@,
            Metallicness::NonMetallic => "NM"@,
        }
    }

    open spec fn spec_full(&self) -> Seq<char> {
        match self {
            Metallicness::Metal => "metal"@,
            Metallicness::Metallic => "metallic"@,
            Metallicness::SemiMetallic => "semi-metallic"@,
            Metallicness::NonMetallic => "non-metallic"@,
        }
    }

    proof fn lemma_levels() {
    }

    proof fn lemma_names_distinct() {
        reveal_strlit("M");
        reveal_strlit("NM");
        reveal_strlit("SM");
        reveal_strlit("metal");
        reveal_strlit("metallic");
        reveal_strlit("non-metallic");
        reveal_strlit("semi-metallic");
        assert("M"@.len() != "NM"@.len());
        assert("M"@.len() != "SM"@.len());
        assert("M"@.len() != "metal"@.len());
        assert("M"@.len() != "metallic"@.len());
        assert("M"@.len() != "non-metallic"@.len());
        assert("M"@.len() != "semi-metallic"@.len());
        assert("NM"@[0] != "SM"@[0]);
        assert("NM"@.len() != "metal"@.len());
        assert("NM"@.len() != "metallic"@.len());
        assert("NM"@.len() != "non-metallic"@.len());
        assert("NM"@.len() != "semi-metallic"@.len());
        assert("SM"@.len() != "metal"@.len());
        assert("SM"@.len() != "metallic"@.len());
        assert("SM"@.len() != "non-metallic"@.len());
        assert("SM"@.len() != "semi-metallic"@.len());
        assert("metal"@.len() != "metallic"@.len());
        assert("metal"@.len() != "non-metallic"@.len());
        assert("metal"@.len() != "semi-metallic"@.len());
        assert("metallic"@.len() != "non-metallic"@.len());
        assert("metallic"@.len() != "semi-metallic"@.len());
        assert("non-metallic"@.len() != "semi-metallic"@.len());
    }

    fn str_values() -> (r: Vec<&'static str>) {
        let r = vec!["metal", "metallic", "semi-metallic", "non-metallic"];
        r
    }

    fn abbrev(&self) -> (r: &'static str) {
        match self {
            Metallicness::Metal => "M",
            Metallicness::Metallic => "M",
            Metallicness::SemiMetallic => "SM",
            Metallicness::NonMetallic => "NM",
        }
    }

    fn full(&self) -> (r: &'static str) {
        match self {
            Metallicness::Metal => "metal",
            Metallicness::Metallic => "metallic",
            Metallicness::SemiMetallic => "semi-metallic",
            Metallicness::NonMetallic => "non-metallic",
        }
    }

    fn level(&self) -> (r: u64) {
        match self {
            Metallicness::Metal => 1,
            Metallicness::Metallic => 2,
            Metallicness::SemiMetallic => 3,
            Metallicness::NonMetallic => 4,
        }
    }

    fn from_level(level: u64) -> (r: Self) {
        if level == 1 {
            Metallicness::Metal
        } else if level == 2 {
            Metallicness::Metallic
        } else if level == 3 {
            Metallicness::SemiMetallic
        } else {
            Metallicness::NonMetallic
        }
    }
}

impl Default for Metallicness {
    fn default() -> (r: Self)
        ensures
            r == Metallicness::NonMetallic,
    {
        Metallicness::NonMetallic
    }
}

impl std::str::FromStr for Metallicness {
    type Err = String;

    fn from_str(string: &str) -> (r: Result<Metallicness, String>)
        ensures
            parse_outcome::<Metallicness>(string@, r),
    {
        parse_property::<Metallicness>(string)
    }
}

/// The light fastness of a paint.
#[derive(PartialEq, Eq, Structural, PartialOrd, Ord, Clone, Copy, Debug, Hash)]
pub enum LightFastness {
    Excellent,
    VeryGood,
    Fair,
    Fugitive,
}

impl PropertyIfce for LightFastness {
    const NAME: &'static str = "LightFastness";
    const PROMPT: &'static str = "LightFastness:";
    const LIST_HEADER_NAME: &'static str = "Li.";

    open spec fn spec_name_text() -> Seq<char> {
        "LightFastness"@
    }

    open spec fn spec_prompt_text() -> Seq<char> {
        "LightFastness:"@
    }

    open spec fn spec_list_header_text() -> Seq<char> {
        "Li."@
    }

    proof fn lemma_constant_texts() {
    }

    open spec fn spec_count() -> nat {
        4
    }

    open spec fn spec_level(&self) -> nat {
        match self {
            LightFastness::Excellent => 1,
            LightFastness::VeryGood => 2,
            LightFastness::Fair => 3,
            LightFastness::Fugitive => 4,
        }
    }

    open spec fn spec_from_level(level: nat) -> Self {
        if level == 1 {
            LightFastness::Excellent
        } else if level == 2 {
            LightFastness::VeryGood
        } else if level == 3 {
            LightFastness::Fair
        } else {
            LightFastness::Fugitive
        }
    }

    open spec fn spec_abbrev(&self) -> Seq<char> {
        match self {
            LightFastness::Excellent => "E"@,
            LightFastness::VeryGood => "VG"@,
            LightFastness::Fair => "F"@,
            LightFastness::Fugitive => "F"@,
        }
    }

    open spec fn spec_full(&self) -> Seq<char> {
        match self {
            LightFastness::Excellent => "excellent"@,
            LightFastness::VeryGood => "very-good"@,
            LightFastness::Fair => "fair"@,
            LightFastness::Fugitive => "fugitive"@,
        }
    }

    proof fn lemma_levels() {
    }

    proof fn lemma_names_distinct() {
        reveal_strlit("E");
        reveal_strlit("F");
        reveal_strlit("VG");
        reveal_strlit("excellent");
        reveal_strlit("fair");
        reveal_strlit("fugitive");
        reveal_strlit("very-good");
        assert("E"@[0] != "F"@[0]);
        assert("E"@.len() != "VG"@.len());
        assert("E"@.len() != "excellent"@.len());
        assert("E"@.len() != "fair"@.len());
        assert("E"@.len() != "fugitive"@.len());
        assert("E"@.len() != "very-good"@.len());
        assert("F"@.len() != "VG"@.len());
        assert("F"@.len() != "excellent"@.len());
        assert("F"@.len() != "fair"@.len());
        assert("F"@.len() != "fugitive"@.len());
        assert("F"@.len() != "very-good"@.len());
        assert("VG"@.len() != "excellent"@.len());
        assert("VG"@.len() != "fair"@.len());
        assert("VG"@.len() != "fugitive"@.len());
        assert("VG"@.len() != "very-good"@.len());
        assert("excellent"@.len() != "fair"@.len());
        assert("excellent"@.len() != "fugitive"@.len());
        assert("excellent"@[0] != "very-good"@[0]);
        assert("fair"@.len() != "fugitive"@.len());
        assert("fair"@.len() != "very-good"@.len());
        assert("fugitive"@.len() != "very-good"@.len());
    }

    fn str_values() -> (r: Vec<&'static str>) {
        let r = vec!["excellent", "very-good", "fair", "fugitive"];
        r
    }

    fn abbrev(&self) -> (r: &'static str) {
        match self {
            LightFastness::Excellent => "E",
            LightFastness::VeryGood => "VG",
            LightFastness::Fair => "F",
            LightFastness::Fugitive => "F",
        }
    }

    fn full(&self) -> (r: &'static str) {
        match self {
            LightFastness::Excellent => "excellent",
            LightFastness::VeryGood => "very-good",
            LightFastness::Fair => "fair",
            LightFastness::Fugitive => "fugitive",
        }
    }

    fn level(&self) -> (r: u64) {
        match self {
            LightFastness::Excellent => 1,
            LightFastness::VeryGood => 2,
            LightFastness::Fair => 3,
            LightFastness::Fugitive => 4,
        }
    }

    fn from_level(level: u64) -> (r: Self) {
        if level == 1 {
            LightFastness::Excellent
        } else if level == 2 {
            LightFastness::VeryGood
        } else if level == 3 {
            LightFastness::Fair
        } else {
            LightFastness::Fugitive
        }
    }
}

impl Default for LightFastness {
    fn default() -> (r: Self)
        ensures
            r == LightFastness::VeryGood,
    {
        LightFastness::VeryGood
    }
}

impl std::str::FromStr for LightFastness {
    type Err = String;

    fn from_str(string: &str) -> (r: Result<LightFastness, String>)
        ensures
            parse_outcome::<LightFastness>(string@, r),
    {
        parse_property::<LightFastness>(string)
    }
}

/// The staining of a paint.
#[derive(PartialEq, Eq, Structural, PartialOrd, Ord, Clone, Copy, Debug, Hash)]
pub enum Staining {
    HighStaining,
    ModerateStaining,
    LowStaining,
    NonStaining,
}

impl PropertyIfce for Staining {
    const NAME: &'static str = "Staining";
    const PROMPT: &'static str = "Staining:";
    const LIST_HEADER_NAME: &'static str = "St.";

    open spec fn spec_name_text() -> Seq<char> {
        "Staining"@
    }

    open spec fn spec_prompt_text() -> Seq<char> {
        "Staining:"@
    }

    open spec fn spec_list_header_text() -> Seq<char> {
        "St."@
    }

    proof fn lemma_constant_texts() {
    }

    open spec fn spec_count() -> nat {
        4
    }

    open spec fn spec_level(&self) -> nat {
        match self {
            Staining::HighStaining => 1,
            Staining::ModerateStaining => 2,
            Staining::LowStaining => 3,
            Staining::NonStaining => 4,
        }
    }

    open spec fn spec_from_level(level: nat) -> Self {
        if level == 1 {
            Staining::HighStaining
        } else if level == 2 {
            Staining::ModerateStaining
        } else if level == 3 {
            Staining::LowStaining
        } else {
            Staining::NonStaining
        }
    }

    open spec fn spec_abbrev(&self) -> Seq<char> {
        match self {
            Staining::HighStaining => "HS"@,
            Staining::ModerateStaining => "MS"@,
            Staining::LowStaining => "LS"@,
            Staining::NonStaining => "NS"@,
        }
    }

    open spec fn spec_full(&self) -> Seq<char> {
        match self {
            Staining::HighStaining => "high-staining"@,
            Staining::ModerateStaining => "moderate-staining"@,
            Staining::LowStaining => "low-staining"@,
            Staining::NonStaining => "non-staining"@,
        }
    }

    proof fn lemma_levels() {
    }

    proof fn lemma_names_distinct() {
        reveal_strlit("HS");
        reveal_strlit("LS");
        reveal_strlit("MS");
        reveal_strlit("NS");
        reveal_strlit("high-staining");
        reveal_strlit("low-staining");
        reveal_strlit("moderate-staining");
        reveal_strlit("non-staining");
        assert("HS"@[0] != "LS"@[0]);
        assert("HS"@[0] != "MS"@[0]);
        assert("HS"@[0] != "NS"@[0]);
        assert("HS"@.len() != "high-staining"@.len());
        assert("HS"@.len() != "low-staining"@.len());
        assert("HS"@.len() != "moderate-staining"@.len());
        assert("HS"@.len() != "non-staining"@.len());
        assert("LS"@[0] != "MS"@[0]);
        assert("LS"@[0] != "NS"@[0]);
        assert("LS"@.len() != "high-staining"@.len());
        assert("LS"@.len() != "low-staining"@.len());
        assert("LS"@.len() != "moderate-staining"@.len());
        assert("LS"@.len() != "non-staining"@.len());
        assert("MS"@[0] != "NS"@[0]);
        assert("MS"@.len() != "high-staining"@.len());
        assert("MS"@.len() != "low-staining"@.len());
        assert("MS"@.len() != "moderate-staining"@.len());
        assert("MS"@.len() != "non-staining"@.len());
        assert("NS"@.len() != "high-staining"@.len());
        assert("NS"@.len() != "low-staining"@.len());
        assert("NS"@.len() != "moderate-staining"@.len());
        assert("NS"@.len() != "non-staining"@.len());
        assert("high-staining"@.len() != "low-staining"@.len());
        assert("high-staining"@.len() != "moderate-staining"@.len());
        assert("high-staining"@.len() != "non-staining"@.len());
        assert("low-staining"@.len() != "moderate-staining"@.len());
        assert("low-staining"@[0] != "non-staining"@[0]);
        assert("moderate-staining"@.len() != "non-staining"@.len());
    }

    fn str_values() -> (r: Vec<&'static str>) {
        let r = vec!["high-staining", "moderate-staining", "low-staining", "non-staining"];
        r
    }

    fn abbrev(&self) -> (r: &'static str) {
        match self {
            Staining::HighStaining => "HS",
            Staining::ModerateStaining => "MS",
            Staining::LowStaining => "LS",
            Staining::NonStaining => "NS",
        }
    }

    fn full(&self) -> (r: &'static str) {
        match self {
            Staining::HighStaining => "high-staining",
            Staining::ModerateStaining => "moderate-staining",
            Staining::LowStaining => "low-staining",
            Staining::NonStaining => "non-staining",
        }
    }

    fn level(&self) -> (r: u64) {
        match self {
            Staining::HighStaining => 1,
            Staining::ModerateStaining => 2,
            Staining::LowStaining => 3,
            Staining::NonStaining => 4,
        }
    }

    fn from_level(level: u64) -> (r: Self) {
        if level == 1 {
            Staining::HighStaining
        } else if level == 2 {
            Staining::ModerateStaining
        } else if level == 3 {
            Staining::LowStaining
        } else {
            Staining::NonStaining
        }
    }
}

impl Default for Staining {
    fn default() -> (r: Self)
        ensures
            r == Staining::ModerateStaining,
    {
        Staining::ModerateStaining
    }
}

impl std::str::FromStr for Staining {
    type Err = String;

    fn from_str(string: &str) -> (r: Result<Staining, String>)
        ensures
            parse_outcome::<Staining>(string@, r),
    {
        parse_property::<Staining>(string)
    }
}

/// The granulation of a paint.
#[derive(PartialEq, Eq, Structural, PartialOrd, Ord, Clone, Copy, Debug, Hash)]
pub enum Granulation {
    Granulating,
    SomeGranulation,
    NonGranulating,
}

impl PropertyIfce for Granulation {
    const NAME: &'static str = "Granulation";
    const PROMPT: &'static str = "Granulation:";
    const LIST_HEADER_NAME: &'static str = "Gr.";

    open spec fn spec_name_text() -> Seq<char> {
        "Granulation"@
    }

    open spec fn spec_prompt_text() -> Seq<char> {
        "Granulation:"@
    }

    open spec fn spec_list_header_text() -> Seq<char> {
        "Gr."@
    }

    proof fn lemma_constant_texts() {
    }

    open spec fn spec_count() -> nat {
        3
    }

    open spec fn spec_level(&self) -> nat {
        match self {
            Granulation::Granulating => 1,
            Granulation::SomeGranulation => 2,
            Granulation::NonGranulating => 3,
        }
    }

    open spec fn spec_from_level(level: nat) -> Self {
        if level == 1 {
            Granulation::Granulating
        } else if level == 2 {
            Granulation::SomeGranulation
        } else {
            Granulation::NonGranulating
        }
    }

    open spec fn spec_abbrev(&self) -> Seq<char> {
        match self {
            Granulation::Granulating => "G"@,
            Granulation::SomeGranulation => "SG"@,
            Granulation::NonGranulating => "NG"@,
        }
    }

    open spec fn spec_full(&self) -> Seq<char> {
        match self {
            Granulation::Granulating => "granulating"@,
            Granulation::SomeGranulation => "some-granulation"@,
            Granulation::NonGranulating => "non-granulating"@,
        }
    }

    proof fn lemma_levels() {
    }

    proof fn lemma_names_distinct() {
        reveal_strlit("G");
        reveal_strlit("NG");
        reveal_strlit("SG");
        reveal_strlit("granulating");
        reveal_strlit("non-granulating");
        reveal_strlit("some-granulation");
        assert("G"@.len() != "NG"@.len());
        assert("G"@.len() != "SG"@.len());
        assert("G"@.len() != "granulating"@.len());
        assert("G"@.len() != "non-granulating"@.len());
        assert("G"@.len() != "some-granulation"@.len());
        assert("NG"@[0] != "SG"@[0]);
        assert("NG"@.len() != "granulating"@.len());
        assert("NG"@.len() != "non-granulating"@.len());
        assert("NG"@.len() != "some-granulation"@.len());
        assert("SG"@.len() != "granulating"@.len());
        assert("SG"@.len() != "non-granulating"@.len());
        assert("SG"@.len() != "some-granulation"@.len());
        assert("granulating"@.len() != "non-granulating"@.len());
        assert("granulating"@.len() != "some-granulation"@.len());
        assert("non-granulating"@.len() != "some-granulation"@.len());
    }

    fn str_values() -> (r: Vec<&'static str>) {
        let r = vec!["granulating", "some-granulation", "non-granulating"];
        r
    }

    fn abbrev(&self) -> (r: &'static str) {
        match self {
            Granulation::Granulating => "G",
            Granulation::SomeGranulation => "SG",
            Granulation::NonGranulating => "NG",
        }
    }

    fn full(&self) -> (r: &'static str) {
        match self {
            Granulation::Granulating => "granulating",
            Granulation::SomeGranulation => "some-granulation",
            Granulation::NonGranulating => "non-granulating",
        }
    }

    fn level(&self) -> (r: u64) {
        match self {
            Granulation::Granulating => 1,
            Granulation::SomeGranulation => 2,
            Granulation::NonGranulating => 3,
        }
    }

    fn from_level(level: u64) -> (r: Self) {
        if level == 1 {
            Granulation::Granulating
        } else if level == 2 {
            Granulation::SomeGranulation
        } else {
            Granulation::NonGranulating
        }
    }
}

impl Default for Granulation {
    fn default() -> (r: Self)
        ensures
            r == Granulation::NonGranulating,
    {
        Granulation::NonGranulating
    }
}

impl std::str::FromStr for Granulation {
    type Err = String;

    fn from_str(string: &str) -> (r: Result<Granulation, String>)
        ensures
            parse_outcome::<Granulation>(string@, r),
    {
        parse_property::<Granulation>(string)
    }
}

/// A property of a paint, with its value.
#[derive(PartialEq, Eq, Structural, PartialOrd, Ord, Clone, Copy, Debug, Hash)]
pub enum Property {
    Finish(Finish),
    Transparency(Transparency),
    Permanence(Permanence),
    Fluorescence(Fluorescence),
    Metallicness(Metallicness),
    LightFastness(LightFastness),
    Opacity(Opacity),
    Staining(Staining),
    Granulation(Granulation),
}

impl Property {
    pub open spec fn spec_name(self) -> Seq<char> {
        match self {
            Property::Finish(_) => Finish::spec_name_text(),
            Property::Transparency(_) => Transparency::spec_name_text(),
            Property::Permanence(_) => Permanence::spec_name_text(),
            Property::Fluorescence(_) => Fluorescence::spec_name_text(),
            Property::Metallicness(_) => Metallicness::spec_name_text(),
            Property::LightFastness(_) => LightFastness::spec_name_text(),
            Property::Opacity(_) => Opacity::spec_name_text(),
            Property::Staining(_) => Staining::spec_name_text(),
            Property::Granulation(_) => Granulation::spec_name_text(),
        }
    }

    pub open spec fn spec_prompt(self) -> Seq<char> {
        match self {
            Property::Finish(_) => Finish::spec_prompt_text(),
            Property::Transparency(_) => Transparency::spec_prompt_text(),
            Property::Permanence(_) => Permanence::spec_prompt_text(),
            Property::Fluorescence(_) => Fluorescence::spec_prompt_text(),
            Property::Metallicness(_) => Metallicness::spec_prompt_text(),
            Property::LightFastness(_) => LightFastness::spec_prompt_text(),
            Property::Opacity(_) => Opacity::spec_prompt_text(),
            Property::Staining(_) => Staining::spec_prompt_text(),
            Property::Granulation(_) => Granulation::spec_prompt_text(),
        }
    }

    pub open spec fn spec_list_header_name(self) -> Seq<char> {
        match self {
            Property::Finish(_) => Finish::spec_list_header_text(),
            Property::Transparency(_) => Transparency::spec_list_header_text(),
            Property::Permanence(_) => Permanence::spec_list_header_text(),
            Property::Fluorescence(_) => Fluorescence::spec_list_header_text(),
            Property::Metallicness(_) => Metallicness::spec_list_header_text(),
            Property::LightFastness(_) => LightFastness::spec_list_header_text(),
            Property::Opacity(_) => Opacity::spec_list_header_text(),
            Property::Staining(_) => Staining::spec_list_header_text(),
            Property::Granulation(_) => Granulation::spec_list_header_text(),
        }
    }

    pub open spec fn spec_str_values(self) -> Seq<Seq<char>> {
        match self {
            Property::Finish(_) => spec_value_names::<Finish>(),
            Property::Transparency(_) => spec_value_names::<Transparency>(),
            Property::Permanence(_) => spec_value_names::<Permanence>(),
            Property::Fluorescence(_) => spec_value_names::<Fluorescence>(),
            Property::Metallicness(_) => spec_value_names::<Metallicness>(),
            Property::LightFastness(_) => spec_value_names::<LightFastness>(),
            Property::Opacity(_) => spec_value_names::<Opacity>(),
            Property::Staining(_) => spec_value_names::<Staining>(),
            Property::Granulation(_) => spec_value_names::<Granulation>(),
        }
    }

    pub open spec fn spec_abbrev(self) -> Seq<char> {
        match self {
            Property::Finish(value) => value.spec_abbrev(),
            Property::Transparency(value) => value.spec_abbrev(),
            Property::Permanence(value) => value.spec_abbrev(),
            Property::Fluorescence(value) => value.spec_abbrev(),
            Property::Metallicness(value) => value.spec_abbrev(),
            Property::LightFastness(value) => value.spec_abbrev(),
            Property::Opacity(value) => value.spec_abbrev(),
            Property::Staining(value) => value.spec_abbrev(),
            Property::Granulation(value) => value.spec_abbrev(),
        }
    }

    pub open spec fn spec_full(self) -> Seq<char> {
        match self {
            Property::Finish(value) => value.spec_full(),
            Property::Transparency(value) => value.spec_full(),
            Property::Permanence(value) => value.spec_full(),
            Property::Fluorescence(value) => value.spec_full(),
            Property::Metallicness(value) => value.spec_full(),
            Property::LightFastness(value) => value.spec_full(),
            Property::Opacity(value) => value.spec_full(),
            Property::Staining(value) => value.spec_full(),
            Property::Granulation(value) => value.spec_full(),
        }
    }

    pub fn name(self) -> (r: &'static str)
        ensures
            r@ == self.spec_name(),
    {
        match self {
            Property::Finish(_) => Finish::NAME,
            Property::Transparency(_) => Transparency::NAME,
            Property::Permanence(_) => Permanence::NAME,
            Property::Fluorescence(_) => Fluorescence::NAME,
            Property::Metallicness(_) => Metallicness::NAME,
            Property::LightFastness(_) => LightFastness::NAME,
            Property::Opacity(_) => Opacity::NAME,
            Property::Staining(_) => Staining::NAME,
            Property::Granulation(_) => Granulation::NAME,
        }
    }

    pub fn prompt(self) -> (r: &'static str)
        ensures
            r@ == self.spec_prompt(),
    {
        match self {
            Property::Finish(_) => Finish::PROMPT,
            Property::Transparency(_) => Transparency::PROMPT,
            Property::Permanence(_) => Permanence::PROMPT,
            Property::Fluorescence(_) => Fluorescence::PROMPT,
            Property::Metallicness(_) => Metallicness::PROMPT,
            Property::LightFastness(_) => LightFastness::PROMPT,
            Property::Opacity(_) => Opacity::PROMPT,
            Property::Staining(_) => Staining::PROMPT,
            Property::Granulation(_) => Granulation::PROMPT,
        }
    }

    pub fn list_header_name(self) -> (r: &'static str)
        ensures
            r@ == self.spec_list_header_name(),
    {
        match self {
            Property::Finish(_) => Finish::LIST_HEADER_NAME,
            Property::Transparency(_) => Transparency::LIST_HEADER_NAME,
            Property::Permanence(_) => Permanence::LIST_HEADER_NAME,
            Property::Fluorescence(_) => Fluorescence::LIST_HEADER_NAME,
            Property::Metallicness(_) => Metallicness::LIST_HEADER_NAME,
            Property::LightFastness(_) => LightFastness::LIST_HEADER_NAME,
            Property::Opacity(_) => Opacity::LIST_HEADER_NAME,
            Property::Staining(_) => Staining::LIST_HEADER_NAME,
            Property::Granulation(_) => Granulation::LIST_HEADER_NAME,
        }
    }

    pub fn str_values(self) -> (r: Vec<&'static str>)
        ensures
            r@.map_values(|s: &'static str| s@) == self.spec_str_values(),
    {
        match self {
            Property::Finish(_) => {
                let r = Finish::str_values();
                assert(r@.map_values(|s: &'static str| s@) =~= spec_value_names::<Finish>());
                r
            },
            Property::Transparency(_) => {
                let r = Transparency::str_values();
                assert(r@.map_values(|s: &'static str| s@) =~= spec_value_names::<Transparency>());
                r
            },
            Property::Permanence(_) => {
                let r = Permanence::str_values();
                assert(r@.map_values(|s: &'static str| s@) =~= spec_value_names::<Permanence>());
                r
            },
            Property::Fluorescence(_) => {
                let r = Fluorescence::str_values();
                assert(r@.map_values(|s: &'static str| s@) =~= spec_value_names::<Fluorescence>());
                r
            },
            Property::Metallicness(_) => {
                let r = Metallicness::str_values();
                assert(r@.map_values(|s: &'static str| s@) =~= spec_value_names::<Metallicness>());
                r
            },
            Property::LightFastness(_) => {
                let r = LightFastness::str_values();
                assert(r@.map_values(|s: &'static str| s@) =~= spec_value_names::<LightFastness>());
                r
            },
            Property::Opacity(_) => {
                let r = Opacity::str_values();
                assert(r@.map_values(|s: &'static str| s@) =~= spec_value_names::<Opacity>());
                r
            },
            Property::Staining(_) => {
                let r = Staining::str_values();
                assert(r@.map_values(|s: &'static str| s@) =~= spec_value_names::<Staining>());
                r
            },
            Property::Granulation(_) => {
                let r = Granulation::str_values();
                assert(r@.map_values(|s: &'static str| s@) =~= spec_value_names::<Granulation>());
                r
            },
        }
    }

    pub fn abbrev(self) -> (r: &'static str)
        ensures
            r@ == self.spec_abbrev(),
    {
        match self {
            Property::Finish(value) => value.abbrev(),
            Property::Transparency(value) => value.abbrev(),
            Property::Permanence(value) => value.abbrev(),
            Property::Fluorescence(value) => value.abbrev(),
            Property::Metallicness(value) => value.abbrev(),
            Property::LightFastness(value) => value.abbrev(),
            Property::Opacity(value) => value.abbrev(),
            Property::Staining(value) => value.abbrev(),
            Property::Granulation(value) => value.abbrev(),
        }
    }

    pub fn full(self) -> (r: &'static str)
        ensures
            r@ == self.spec_full(),
    {
        match self {
            Property::Finish(value) => value.full(),
            Property::Transparency(value) => value.full(),
            Property::Permanence(value) => value.full(),
            Property::Fluorescence(value) => value.full(),
            Property::Metallicness(value) => value.full(),
            Property::LightFastness(value) => value.full(),
            Property::Opacity(value) => value.full(),
            Property::Staining(value) => value.full(),
            Property::Granulation(value) => value.full(),
        }
    }
}

/// A kind of paint property.
#[derive(PartialEq, Eq, Structural, PartialOrd, Ord, Clone, Copy, Debug, Hash)]
pub enum PropertyType {
    Finish,
    Transparency,
    Permanence,
    Fluorescence,
    Metallicness,
    LightFastness,
    Opacity,
    Staining,
    Granulation,
}

impl PropertyType {
    pub open spec fn spec_name(self) -> Seq<char> {
        match self {
            PropertyType::Finish => Finish::spec_name_text(),
            PropertyType::Transparency => Transparency::spec_name_text(),
            PropertyType::Permanence => Permanence::spec_name_text(),
            PropertyType::Fluorescence => Fluorescence::spec_name_text(),
            PropertyType::Metallicness => Metallicness::spec_name_text(),
            PropertyType::LightFastness => LightFastness::spec_name_text(),
            PropertyType::Opacity => Opacity::spec_name_text(),
            PropertyType::Staining => Staining::spec_name_text(),
            PropertyType::Granulation => Granulation::spec_name_text(),
        }
    }

    pub open spec fn spec_prompt(self) -> Seq<char> {
        match self {
            PropertyType::Finish => Finish::spec_prompt_text(),
            PropertyType::Transparency => Transparency::spec_prompt_text(),
            PropertyType::Permanence => Permanence::spec_prompt_text(),
            PropertyType::Fluorescence => Fluorescence::spec_prompt_text(),
            PropertyType::Metallicness => Metallicness::spec_prompt_text(),
            PropertyType::LightFastness => LightFastness::spec_prompt_text(),
            PropertyType::Opacity => Opacity::spec_prompt_text(),
            PropertyType::Staining => Staining::spec_prompt_text(),
            PropertyType::Granulation => Granulation::spec_prompt_text(),
        }
    }

    pub open spec fn spec_list_header_name(self) -> Seq<char> {
        match self {
            PropertyType::Finish => Finish::spec_list_header_text(),
            PropertyType::Transparency => Transparency::spec_list_header_text(),
            PropertyType::Permanence => Permanence::spec_list_header_text(),
            PropertyType::Fluorescence => Fluorescence::spec_list_header_text(),
            PropertyType::Metallicness => Metallicness::spec_list_header_text(),
            PropertyType::LightFastness => LightFastness::spec_list_header_text(),
            PropertyType::Opacity => Opacity::spec_list_header_text(),
            PropertyType::Staining => Staining::spec_list_header_text(),
            PropertyType::Granulation => Granulation::spec_list_header_text(),
        }
    }

    pub open spec fn spec_str_values(self) -> Seq<Seq<char>> {
        match self {
            PropertyType::Finish => spec_value_names::<Finish>(),
            PropertyType::Transparency => spec_value_names::<Transparency>(),
            PropertyType::Permanence => spec_value_names::<Permanence>(),
            PropertyType::Fluorescence => spec_value_names::<Fluorescence>(),
            PropertyType::Metallicness => spec_value_names::<Metallicness>(),
            PropertyType::LightFastness => spec_value_names::<LightFastness>(),
            PropertyType::Opacity => spec_value_names::<Opacity>(),
            PropertyType::Staining => spec_value_names::<Staining>(),
            PropertyType::Granulation => spec_value_names::<Granulation>(),
        }
    }

    pub fn name(self) -> (r: &'static str)
        ensures
            r@ == self.spec_name(),
    {
        match self {
            PropertyType::Finish => Finish::NAME,
            PropertyType::Transparency => Transparency::NAME,
            PropertyType::Permanence => Permanence::NAME,
            PropertyType::Fluorescence => Fluorescence::NAME,
            PropertyType::Metallicness => Metallicness::NAME,
            PropertyType::LightFastness => LightFastness::NAME,
            PropertyType::Opacity => Opacity::NAME,
            PropertyType::Staining => Staining::NAME,
            PropertyType::Granulation => Granulation::NAME,
        }
    }

    pub fn prompt(self) -> (r: &'static str)
        ensures
            r@ == self.spec_prompt(),
    {
        match self {
            PropertyType::Finish => Finish::PROMPT,
            PropertyType::Transparency => Transparency::PROMPT,
            PropertyType::Permanence => Permanence::PROMPT,
            PropertyType::Fluorescence => Fluorescence::PROMPT,
            PropertyType::Metallicness => Metallicness::PROMPT,
            PropertyType::LightFastness => LightFastness::PROMPT,
            PropertyType::Opacity => Opacity::PROMPT,
            PropertyType::Staining => Staining::PROMPT,
            PropertyType::Granulation => Granulation::PROMPT,
        }
    }

    pub fn list_header_name(self) -> (r: &'static str)
        ensures
            r@ == self.spec_list_header_name(),
    {
        match self {
            PropertyType::Finish => Finish::LIST_HEADER_NAME,
            PropertyType::Transparency => Transparency::LIST_HEADER_NAME,
            PropertyType::Permanence => Permanence::LIST_HEADER_NAME,
            PropertyType::Fluorescence => Fluorescence::LIST_HEADER_NAME,
            PropertyType::Metallicness => Metallicness::LIST_HEADER_NAME,
            PropertyType::LightFastness => LightFastness::LIST_HEADER_NAME,
            PropertyType::Opacity => Opacity::LIST_HEADER_NAME,
            PropertyType::Staining => Staining::LIST_HEADER_NAME,
            PropertyType::Granulation => Granulation::LIST_HEADER_NAME,
        }
    }

    pub fn str_values(self) -> (r: Vec<&'static str>)
        ensures
            r@.map_values(|s: &'static str| s@) == self.spec_str_values(),
    {
        match self {
            PropertyType::Finish => {
                let r = Finish::str_values();
                assert(r@.map_values(|s: &'static str| s@) =~= spec_value_names::<Finish>());
                r
            },
            PropertyType::Transparency => {
                let r = Transparency::str_values();
                assert(r@.map_values(|s: &'static str| s@) =~= spec_value_names::<Transparency>());
                r
            },
            PropertyType::Permanence => {
                let r = Permanence::str_values();
                assert(r@.map_values(|s: &'static str| s@) =~= spec_value_names::<Permanence>());
                r
            },
            PropertyType::Fluorescence => {
                let r = Fluorescence::str_values();
                assert(r@.map_values(|s: &'static str| s@) =~= spec_value_names::<Fluorescence>());
                r
            },
            PropertyType::Metallicness => {
                let r = Metallicness::str_values();
                assert(r@.map_values(|s: &'static str| s@) =~= spec_value_names::<Metallicness>());
                r
            },
            PropertyType::LightFastness => {
                let r = LightFastness::str_values();
                assert(r@.map_values(|s: &'static str| s@) =~= spec_value_names::<LightFastness>());
                r
            },
            PropertyType::Opacity => {
                let r = Opacity::str_values();
                assert(r@.map_values(|s: &'static str| s@) =~= spec_value_names::<Opacity>());
                r
            },
            PropertyType::Staining => {
                let r = Staining::str_values();
                assert(r@.map_values(|s: &'static str| s@) =~= spec_value_names::<Staining>());
                r
            },
            PropertyType::Granulation => {
                let r = Granulation::str_values();
                assert(r@.map_values(|s: &'static str| s@) =~= spec_value_names::<Granulation>());
                r
            },
        }
    }

    /// The text with which the type is displayed.
    pub open spec fn spec_display(self) -> Seq<char> {
        match self {
            PropertyType::Finish => "Finish"@,
            PropertyType::Transparency => "Transparency"@,
            PropertyType::Permanence => "Permanence"@,
            PropertyType::Fluorescence => "Fluorescence"@,
            PropertyType::Metallicness => " Metallicness"@,
            PropertyType::LightFastness => " LightFastness"@,
            PropertyType::Opacity => " Opacity"@,
            PropertyType::Staining => " Staining"@,
            PropertyType::Granulation => " Granulation"@,
        }
    }

    /// The text with which the type is displayed.
    pub fn display_string(self) -> (r: String)
        ensures
            r@ == self.spec_display(),
    {
        let text = match self {
            PropertyType::Finish => "Finish",
            PropertyType::Transparency => "Transparency",
            PropertyType::Permanence => "Permanence",
            PropertyType::Fluorescence => "Fluorescence",
            PropertyType::Metallicness => " Metallicness",
            PropertyType::LightFastness => " LightFastness",
            PropertyType::Opacity => " Opacity",
            PropertyType::Staining => " Staining",
            PropertyType::Granulation => " Granulation",
        };
        let mut r = String::new();
        r.append(text);
        assert(r@ =~= self.spec_display());
        r
    }
}

/// A property of a watercolour paint, with its value.
#[derive(PartialEq, Eq, Structural, PartialOrd, Ord, Clone, Copy, Debug, Hash)]
pub enum WatercolourProperty {
    LightFastness(LightFastness),
    Transparency(Transparency),
    Staining(Staining),
    Granulation(Granulation),
    Fluorescence(Fluorescence),
}

impl WatercolourProperty {
    pub open spec fn spec_name(self) -> Seq<char> {
        match self {
            WatercolourProperty::LightFastness(_) => LightFastness::spec_name_text(),
            WatercolourProperty::Transparency(_) => Transparency::spec_name_text(),
            WatercolourProperty::Staining(_) => Staining::spec_name_text(),
            WatercolourProperty::Granulation(_) => Granulation::spec_name_text(),
            WatercolourProperty::Fluorescence(_) => Fluorescence::spec_name_text(),
        }
    }

    pub open spec fn spec_prompt(self) -> Seq<char> {
        match self {
            WatercolourProperty::LightFastness(_) => LightFastness::spec_prompt_text(),
            WatercolourProperty::Transparency(_) => Transparency::spec_prompt_text(),
            WatercolourProperty::Staining(_) => Staining::spec_prompt_text(),
            WatercolourProperty::Granulation(_) => Granulation::spec_prompt_text(),
            WatercolourProperty::Fluorescence(_) => Fluorescence::spec_prompt_text(),
        }
    }

    pub open spec fn spec_list_header_name(self) -> Seq<char> {
        match self {
            WatercolourProperty::LightFastness(_) => LightFastness::spec_list_header_text(),
            WatercolourProperty::Transparency(_) => Transparency::spec_list_header_text(),
            WatercolourProperty::Staining(_) => Staining::spec_list_header_text(),
            WatercolourProperty::Granulation(_) => Granulation::spec_list_header_text(),
            WatercolourProperty::Fluorescence(_) => Fluorescence::spec_list_header_text(),
        }
    }

    pub open spec fn spec_str_values(self) -> Seq<Seq<char>> {
        match self {
            WatercolourProperty::LightFastness(_) => spec_value_names::<LightFastness>(),
            WatercolourProperty::Transparency(_) => spec_value_names::<Transparency>(),
            WatercolourProperty::Staining(_) => spec_value_names::<Staining>(),
            WatercolourProperty::Granulation(_) => spec_value_names::<Granulation>(),
            WatercolourProperty::Fluorescence(_) => spec_value_names::<Fluorescence>(),
        }
    }

    pub open spec fn spec_abbrev(self) -> Seq<char> {
        match self {
            WatercolourProperty::LightFastness(value) => value.spec_abbrev(),
            WatercolourProperty::Transparency(value) => value.spec_abbrev(),
            WatercolourProperty::Staining(value) => value.spec_abbrev(),
            WatercolourProperty::Granulation(value) => value.spec_abbrev(),
            WatercolourProperty::Fluorescence(value) => value.spec_abbrev(),
        }
    }

    pub open spec fn spec_full(self) -> Seq<char> {
        match self {
            WatercolourProperty::LightFastness(value) => value.spec_full(),
            WatercolourProperty::Transparency(value) => value.spec_full(),
            WatercolourProperty::Staining(value) => value.spec_full(),
            WatercolourProperty::Granulation(value) => value.spec_full(),
            WatercolourProperty::Fluorescence(value) => value.spec_full(),
        }
    }

    pub fn name(self) -> (r: &'static str)
        ensures
            r@ == self.spec_name(),
    {
        match self {
            WatercolourProperty::LightFastness(_) => LightFastness::NAME,
            WatercolourProperty::Transparency(_) => Transparency::NAME,
            WatercolourProperty::Staining(_) => Staining::NAME,
            WatercolourProperty::Granulation(_) => Granulation::NAME,
            WatercolourProperty::Fluorescence(_) => Fluorescence::NAME,
        }
    }

    pub fn prompt(self) -> (r: &'static str)
        ensures
            r@ == self.spec_prompt(),
    {
        match self {
            WatercolourProperty::LightFastness(_) => LightFastness::PROMPT,
            WatercolourProperty::Transparency(_) => Transparency::PROMPT,
            WatercolourProperty::Staining(_) => Staining::PROMPT,
            WatercolourProperty::Granulation(_) => Granulation::PROMPT,
            WatercolourProperty::Fluorescence(_) => Fluorescence::PROMPT,
        }
    }

    pub fn list_header_name(self) -> (r: &'static str)
        ensures
            r@ == self.spec_list_header_name(),
    {
        match self {
            WatercolourProperty::LightFastness(_) => LightFastness::LIST_HEADER_NAME,
            WatercolourProperty::Transparency(_) => Transparency::LIST_HEADER_NAME,
            WatercolourProperty::Staining(_) => Staining::LIST_HEADER_NAME,
            WatercolourProperty::Granulation(_) => Granulation::LIST_HEADER_NAME,
            WatercolourProperty::Fluorescence(_) => Fluorescence::LIST_HEADER_NAME,
        }
    }

    pub fn str_values(self) -> (r: Vec<&'static str>)
        ensures
            r@.map_values(|s: &'static str| s@) == self.spec_str_values(),
    {
        match self {
            WatercolourProperty::LightFastness(_) => {
                let r = LightFastness::str_values();
                assert(r@.map_values(|s: &'static str| s@) =~= spec_value_names::<LightFastness>());
                r
            },
            WatercolourProperty::Transparency(_) => {
                let r = Transparency::str_values();
                assert(r@.map_values(|s: &'static str| s@) =~= spec_value_names::<Transparency>());
                r
            },
            WatercolourProperty::Staining(_) => {
                let r = Staining::str_values();
                assert(r@.map_values(|s: &'static str| s@) =~= spec_value_names::<Staining>());
                r
            },
            WatercolourProperty::Granulation(_) => {
                let r = Granulation::str_values();
                assert(r@.map_values(|s: &'static str| s@) =~= spec_value_names::<Granulation>());
                r
            },
            WatercolourProperty::Fluorescence(_) => {
                let r = Fluorescence::str_values();
                assert(r@.map_values(|s: &'static str| s@) =~= spec_value_names::<Fluorescence>());
                r
            },
        }
    }

    pub fn abbrev(self) -> (r: &'static str)
        ensures
            r@ == self.spec_abbrev(),
    {
        match self {
            WatercolourProperty::LightFastness(value) => value.abbrev(),
            WatercolourProperty::Transparency(value) => value.abbrev(),
            WatercolourProperty::Staining(value) => value.abbrev(),
            WatercolourProperty::Granulation(value) => value.abbrev(),
            WatercolourProperty::Fluorescence(value) => value.abbrev(),
        }
    }

    pub fn full(self) -> (r: &'static str)
        ensures
            r@ == self.spec_full(),
    {
        match self {
            WatercolourProperty::LightFastness(value) => value.full(),
            WatercolourProperty::Transparency(value) => value.full(),
            WatercolourProperty::Staining(value) => value.full(),
            WatercolourProperty::Granulation(value) => value.full(),
            WatercolourProperty::Fluorescence(value) => value.full(),
        }
    }
}

/// A kind of watercolour paint property.
#[derive(PartialEq, Eq, Structural, PartialOrd, Ord, Clone, Copy, Debug, Hash)]
pub enum WatercolourPropertyType {
    LightFastness,
    Transparency,
    Staining,
    Granulation,
    Fluorescence,
}

/// The level nearest to the mean `sum / parts`, halves rounding up.
pub open spec fn rounded_mean(sum: nat, parts: nat) -> nat
    recommends
        parts > 0,
{
    (2 * sum + parts) / (2 * parts)
}

proof fn lemma_rounded_mean_in_range(sum: nat, parts: nat, count: nat)
    requires
        parts > 0,
        parts <= sum <= parts * count,
    ensures
        1 <= rounded_mean(sum, parts) <= count,
{
    let d = 2 * parts;
    assert(d * 1 <= 2 * sum + parts) by (nonlinear_arith)
        requires
            parts <= sum,
            d == 2 * parts,
    ;
    vstd::arithmetic::div_mod::lemma_div_is_ordered(d as int, (2 * sum + parts) as int, d as int);
    vstd::arithmetic::div_mod::lemma_div_by_self(d as int);
    assert(2 * sum + parts < d * (count + 1)) by (nonlinear_arith)
        requires
            sum <= parts * count,
            d == 2 * parts,
            parts > 0,
    ;
    vstd::arithmetic::div_mod::lemma_multiply_divide_lt((2 * sum + parts) as int, d as int, (count + 1) as int);
}

/// A mean of a single level is that level.
proof fn lemma_rounded_mean_of_one(level: nat, parts: nat)
    requires
        parts > 0,
    ensures
        rounded_mean(level * parts, parts) == level,
{
    assert(2 * (level * parts) + parts == level * (2 * parts) + parts) by (nonlinear_arith);
    vstd::arithmetic::div_mod::lemma_fundamental_div_mod_converse(
        (2 * (level * parts) + parts) as int,
        (2 * parts) as int,
        level as int,
        parts as int,
    );
}

/// The sum of the levels of `adds`, each times its parts.
pub open spec fn added_sum<C: PropertyIfce>(adds: Seq<(C, nat)>) -> nat
    decreases adds.len(),
{
    if adds.len() == 0 {
        0
    } else {
        added_sum(adds.drop_last()) + adds.last().0.spec_level() * adds.last().1
    }
}

/// The parts of `adds`, all together.
pub open spec fn added_parts<C: PropertyIfce>(adds: Seq<(C, nat)>) -> nat
    decreases adds.len(),
{
    if adds.len() == 0 {
        0
    } else {
        added_parts(adds.drop_last()) + adds.last().1
    }
}

/// The value of a mixture of `adds`: `None` where there are no parts;
/// otherwise the value at the mean of the levels weighted by parts,
/// rounded to the nearest level.
pub open spec fn mixed_value<C: PropertyIfce>(adds: Seq<(C, nat)>) -> Option<C> {
    if added_parts(adds) == 0 {
        None
    } else {
        Some(C::spec_from_level(rounded_mean(added_sum(adds), added_parts(adds))))
    }
}

/// The weighted sum of levels lies between the parts times the lowest and
/// times the highest level of the values that have parts.
proof fn lemma_added_sum_bounds<C: PropertyIfce>(adds: Seq<(C, nat)>, low: nat, high: nat)
    requires
        forall|i: int|
            0 <= i < adds.len() && adds[i].1 > 0 ==> low <= (#[trigger] adds[i]).0.spec_level()
                <= high,
    ensures
        added_parts(adds) * low <= added_sum(adds) <= added_parts(adds) * high,
    decreases adds.len(),
{
    if adds.len() > 0 {
        let init = adds.drop_last();
        assert forall|i: int|
            0 <= i < init.len() && init[i].1 > 0 implies low <= (#[trigger] init[i]).0.spec_level()
            <= high by {
            assert(init[i] == adds[i]);
        }
        lemma_added_sum_bounds(init, low, high);
        let p = adds.last().1;
        let l = adds.last().0.spec_level();
        assert(adds[adds.len() - 1] == adds.last());
        assert(added_sum(adds) == added_sum(init) + l * p);
        assert(added_parts(adds) == added_parts(init) + p);
        if p > 0 {
            assert(p * low <= l * p <= p * high) by (nonlinear_arith)
                requires
                    low <= l <= high,
            ;
        } else {
            assert(l * p == 0 && p * low == 0 && p * high == 0) by (nonlinear_arith)
                requires
                    p == 0,
            ;
        }
        assert(added_parts(adds) * low == added_parts(init) * low + p * low) by (nonlinear_arith)
            requires
                added_parts(adds) == added_parts(init) + p,
        ;
        assert(added_parts(adds) * high == added_parts(init) * high + p * high) by (nonlinear_arith)
            requires
                added_parts(adds) == added_parts(init) + p,
        ;
    } else {
        assert(added_parts(adds) * low == 0 && added_parts(adds) * high == 0) by (nonlinear_arith)
            requires
                added_parts(adds) == 0,
        ;
    }
}

/// Mixes property values in parts. The mixture's value is the mean of the
/// levels, weighted by parts, rounded to the nearest level.
pub struct PropertyMixer<C: PropertyIfce> {
    sum: u128,
    total_parts: u64,
    adds: Ghost<Seq<(C, nat)>>,
}

impl<C: PropertyIfce> View for PropertyMixer<C> {
    /// The values added since the mixer was made or last emptied, with
    /// their parts, in order.
    type V = Seq<(C, nat)>;

    closed spec fn view(&self) -> Seq<(C, nat)> {
        self.adds@
    }
}

impl<C: PropertyIfce> PropertyMixer<C> {
    #[verifier::type_invariant]
    spec fn well_formed(self) -> bool {
        &&& C::spec_count() <= 16
        &&& self.sum == added_sum(self.adds@)
        &&& self.total_parts == added_parts(self.adds@)
        &&& self.total_parts <= self.sum <= self.total_parts * C::spec_count()
    }

    /// An empty mixer.
    pub fn new() -> (r: Self)
        ensures
            r@ == Seq::<(C, nat)>::empty(),
    {
        proof {
            C::lemma_levels();
        }
        PropertyMixer { sum: 0, total_parts: 0, adds: Ghost(Seq::empty()) }
    }

    /// Empties the mixer.
    pub fn reset(&mut self)
        ensures
            final(self)@ == Seq::<(C, nat)>::empty(),
    {
        proof {
            C::lemma_levels();
        }
        *self = PropertyMixer { sum: 0, total_parts: 0, adds: Ghost(Seq::empty()) };
    }

    /// The value of the mixture, or `None` while it has no parts.
    pub fn property(&self) -> (r: Option<C>)
        ensures
            r == mixed_value::<C>(self@),
    {
        proof {
            use_type_invariant(self);
        }
        if self.total_parts > 0 {
            let parts = self.total_parts as u128;
            proof {
                lemma_rounded_mean_in_range(self.sum as nat, parts as nat, C::spec_count());
                assert(parts * C::spec_count() <= parts * 16) by (nonlinear_arith)
                    requires
                        C::spec_count() <= 16,
                ;
            }
            let mixture = (2 * self.sum + parts) / (2 * parts);
            Some(C::from_level(mixture as u64))
        } else {
            None
        }
    }

    /// Adds `parts` parts of `value` to the mixture.
    pub fn add(&mut self, value: C, parts: u64)
        requires
            added_parts(old(self)@) + parts <= u64::MAX,
        ensures
            final(self)@ == old(self)@.push((value, parts as nat)),
    {
        proof {
            use_type_invariant(&*self);
            C::lemma_levels();
        }
        let level = value.level();
        let total_parts = self.total_parts + parts;
        proof {
            assert(level * parts <= 16 * parts) by (nonlinear_arith)
                requires
                    level <= 16,
            ;
            assert(self.total_parts * C::spec_count() <= self.total_parts * 16) by (nonlinear_arith)
                requires
                    C::spec_count() <= 16,
            ;
            assert(parts <= level * parts <= parts * C::spec_count()) by (nonlinear_arith)
                requires
                    1 <= level <= C::spec_count(),
            ;
            assert(total_parts * C::spec_count() == self.total_parts * C::spec_count() + parts
                * C::spec_count()) by (nonlinear_arith)
                requires
                    total_parts == self.total_parts + parts,
            ;
        }
        let sum = self.sum + (level as u128) * (parts as u128);
        let ghost adds = self.adds@.push((value, parts as nat));
        proof {
            assert(adds.drop_last() =~= self.adds@);
        }
        *self = PropertyMixer { sum, total_parts, adds: Ghost(adds) };
    }
}

impl<C: PropertyIfce> Default for PropertyMixer<C> {
    fn default() -> (r: Self)
        ensures
            r@ == Seq::<(C, nat)>::empty(),
    {
        Self::new()
    }
}

/// Mixing a single value, in any number of parts, gives that value back.
pub proof fn law_mixing_one_value<C: PropertyIfce>(value: C, parts: nat)
    requires
        parts > 0,
    ensures
        mixed_value(seq![(value, parts)]) == Some(value),
{
    C::lemma_levels();
    let adds = seq![(value, parts)];
    assert(adds.drop_last() =~= Seq::<(C, nat)>::empty());
    assert(adds.last() == (value, parts));
    assert(added_sum(adds.drop_last()) == 0);
    assert(added_parts(adds.drop_last()) == 0);
    assert(added_sum(adds) == value.spec_level() * parts);
    assert(added_parts(adds) == parts);
    lemma_rounded_mean_of_one(value.spec_level(), parts);
}

/// A mixer answers, for the values added since it was made or emptied,
/// nothing while they have no parts, and otherwise a value whose level lies
/// between the lowest and the highest level of the added values that have
/// parts: `low` and `high` are any such bounds.
pub proof fn law_mixture_within_range<C: PropertyIfce>(adds: Seq<(C, nat)>, low: nat, high: nat)
    requires
        forall|i: int|
            0 <= i < adds.len() && adds[i].1 > 0 ==> low <= (#[trigger] adds[i]).0.spec_level()
                <= high,
    ensures
        mixed_value(adds) is None <==> added_parts(adds) == 0,
        mixed_value(adds) matches Some(v) ==> low <= v.spec_level() <= high,
{
    C::lemma_levels();
    if added_parts(adds) > 0 {
        let parts = added_parts(adds);
        let sum = added_sum(adds);
        lemma_added_sum_bounds(adds, 1, C::spec_count());
        lemma_added_sum_bounds(adds, low, high);
        lemma_rounded_mean_in_range(sum, parts, C::spec_count());
        let m = rounded_mean(sum, parts);
        assert(C::spec_from_level(m).spec_level() == m);
        let d = 2 * parts;
        assert(d * low <= 2 * sum + parts) by (nonlinear_arith)
            requires
                parts * low <= sum,
                d == 2 * parts,
        ;
        vstd::arithmetic::div_mod::lemma_div_is_ordered((d * low) as int, (2 * sum + parts) as int, d as int);
        vstd::arithmetic::div_mod::lemma_div_multiples_vanish(low as int, d as int);
        assert(2 * sum + parts < d * (high + 1)) by (nonlinear_arith)
            requires
                sum <= parts * high,
                d == 2 * parts,
                parts > 0,
        ;
        vstd::arithmetic::div_mod::lemma_multiply_divide_lt((2 * sum + parts) as int, d as int, (high + 1) as int);
    }
}


/// The value of a mixture with parts is at the level nearest to the mean
/// of the levels weighted by parts, a half going up: twice the weighted sum
/// lies between twice the level times the parts, less the parts, and that
/// plus the parts (the upper end left out).
pub proof fn law_mixed_level_nearest<C: PropertyIfce>(adds: Seq<(C, nat)>)
    requires
        added_parts(adds) > 0,
    ensures
        mixed_value(adds) matches Some(v) && 2 * v.spec_level() * added_parts(adds) <= 2
            * added_sum(adds) + added_parts(adds) && 2 * added_sum(adds) + added_parts(adds) < 2
            * v.spec_level() * added_parts(adds) + 2 * added_parts(adds),
{
    C::lemma_levels();
    let parts = added_parts(adds);
    let sum = added_sum(adds);
    lemma_added_sum_bounds(adds, 1, C::spec_count());
    assert(parts * 1 == parts);
    lemma_rounded_mean_in_range(sum, parts, C::spec_count());
    let m = rounded_mean(sum, parts);
    assert(C::spec_from_level(m).spec_level() == m);
    let d = 2 * parts;
    let x = 2 * sum + parts;
    vstd::arithmetic::div_mod::lemma_fundamental_div_mod(x as int, d as int);
    let r = x % d;
    assert(0 <= r < d);
    assert(x == d * m + r);
    assert(2 * m * parts == d * m) by (nonlinear_arith)
        requires
            d == 2 * parts,
    ;
}

/// The levels of the values of `Finish` count them in declaration order,
/// from 1: a mixture lands between the values it is mixed from.
pub proof fn law_finish_levels_in_declaration_order()
    ensures
        Finish::Gloss.spec_level() == 1,
        Finish::SemiGloss.spec_level() == 2,
        Finish::SemiFlat.spec_level() == 3,
        Finish::Flat.spec_level() == 4,
{
}

/// The levels of the values of `Opacity` count them in declaration order,
/// from 1: a mixture lands between the values it is mixed from.
pub proof fn law_opacity_levels_in_declaration_order()
    ensures
        Opacity::Opaque.spec_level() == 1,
        Opacity::SemiOpaque.spec_level() == 2,
        Opacity::SemiTransparent.spec_level() == 3,
        Opacity::Transparent.spec_level() == 4,
        Opacity::Clear.spec_level() == 5,
{
}

/// The levels of the values of `Transparency` count them in declaration order,
/// from 1: a mixture lands between the values it is mixed from.
pub proof fn law_transparency_levels_in_declaration_order()
    ensures
        Transparency::Opaque.spec_level() == 1,
        Transparency::SemiOpaque.spec_level() == 2,
        Transparency::SemiTransparent.spec_level() == 3,
        Transparency::Transparent.spec_level() == 4,
        Transparency::Clear.spec_level() == 5,
{
}

/// The levels of the values of `Permanence` count them in declaration order,
/// from 1: a mixture lands between the values it is mixed from.
pub proof fn law_permanence_levels_in_declaration_order()
    ensures
        Permanence::ExtremelyPermanent.spec_level() == 1,
        Permanence::Permanent.spec_level() == 2,
        Permanence::ModeratelyDurable.spec_level() == 3,
        Permanence::Fugitive.spec_level() == 4,
{
}

/// The levels of the values of `Fluorescence` count them in declaration order,
/// from 1: a mixture lands between the values it is mixed from.
pub proof fn law_fluorescence_levels_in_declaration_order()
    ensures
        Fluorescence::Fluorescent.spec_level() == 1,
        Fluorescence::SemiFluorescent.spec_level() == 2,
        Fluorescence::SemiNonFluorescent.spec_level() == 3,
        Fluorescence::NonFluorescent.spec_level() == 4,
{
}

/// The levels of the values of `Metallicness` count them in declaration order,
/// from 1: a mixture lands between the values it is mixed from.
pub proof fn law_metallicness_levels_in_declaration_order()
    ensures
        Metallicness::Metal.spec_level() == 1,
        Metallicness::Metallic.spec_level() == 2,
        Metallicness::SemiMetallic.spec_level() == 3,
        Metallicness::NonMetallic.spec_level() == 4,
{
}

/// The levels of the values of `LightFastness` count them in declaration order,
/// from 1: a mixture lands between the values it is mixed from.
pub proof fn law_light_fastness_levels_in_declaration_order()
    ensures
        LightFastness::Excellent.spec_level() == 1,
        LightFastness::VeryGood.spec_level() == 2,
        LightFastness::Fair.spec_level() == 3,
        LightFastness::Fugitive.spec_level() == 4,
{
}

/// The levels of the values of `Staining` count them in declaration order,
/// from 1: a mixture lands between the values it is mixed from.
pub proof fn law_staining_levels_in_declaration_order()
    ensures
        Staining::HighStaining.spec_level() == 1,
        Staining::ModerateStaining.spec_level() == 2,
        Staining::LowStaining.spec_level() == 3,
        Staining::NonStaining.spec_level() == 4,
{
}

/// The levels of the values of `Granulation` count them in declaration order,
/// from 1: a mixture lands between the values it is mixed from.
pub proof fn law_granulation_levels_in_declaration_order()
    ensures
        Granulation::Granulating.spec_level() == 1,
        Granulation::SomeGranulation.spec_level() == 2,
        Granulation::NonGranulating.spec_level() == 3,
{
}

} // verus!

