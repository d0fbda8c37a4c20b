//! The legacy text format of paint series: a header line with the series'
//! name, one with its proprietor, then one line per paint such as
//! `PaintSpec(name="FS30032", rgb=RGB16(red=0x2821, green=0x0221, blue=0x012D), finish="F", notes="")`.

use vstd::prelude::*;

pub mod legacy_series;

use crate::characteristics::{
    parse_characteristic, spec_parse, Finish, Fluorescence, Metallicness, Permanence, Transparency,
};
use crate::colour::Rgb16;
use crate::series::{copy_string, BasicPaintSpec, SeriesId, SeriesPaintSeriesSpec};
use crate::sorted::{spec_add, spec_add_all};
use crate::text::{chars_of, push_char, str_eq};

verus! {

// ---------------------------------------------------------------------------
// Characters

/// Whether a character is a Unicode word character, the class `\w` of
/// the line grammar: `Alphabetic` or `Join_Control`, or in the general
/// category `Decimal_Number`, `Mark` or `Connector_Punctuation`.
pub uninterp spec fn word_property(c: char) -> bool;

/// Whether a character has the Unicode `White_Space` property, the class
/// `\s` of the line grammar.
pub open spec fn whitespace_property(c: char) -> bool {
    let n = c as u32;
    ||| 0x09 <= n <= 0x0D
    ||| n == 0x20
    ||| n == 0x85
    ||| n == 0xA0
    ||| n == 0x1680
    ||| 0x2000 <= n <= 0x200A
    ||| n == 0x2028
    ||| n == 0x2029
    ||| n == 0x202F
    ||| n == 0x205F
    ||| n == 0x3000
}

/// `regex_syntax::is_word_character`: whether `c` is a Unicode word
/// character, as the class `\w` of a regular expression takes it. It
/// cannot panic, the crate's `unicode-perl` feature being on by default.
/// Its result is named, not spelled out.
#[verifier::external_body]
fn char_is_word(c: char) -> (r: bool)
    ensures
        r == word_property(c),
{
    regex_syntax::is_word_character(c)
}

/// `char::is_whitespace`: whether `c` has the Unicode `White_Space`
/// property, which holds of the characters listed in `whitespace_property`.
#[verifier::external_body]
fn char_is_whitespace(c: char) -> (r: bool)
    ensures
        r == whitespace_property(c),
{
    c.is_whitespace()
}

/// A character of a word: one of the class `\w`.
pub open spec fn is_word_char(c: char) -> bool {
    word_property(c)
}

fn word_char(c: char) -> (r: bool)
    ensures
        r == is_word_char(c),
{
    char_is_word(c)
}

// ---------------------------------------------------------------------------
// Scanning a line, by position

/// The end of the run of word characters that starts at `i`.
pub open spec fn word_end(s: Seq<char>, i: int) -> int
    decreases s.len() - i,
{
    if 0 <= i < s.len() && is_word_char(s[i]) {
        word_end(s, i + 1)
    } else {
        i
    }
}

/// The end of the run of white space that starts at `i`.
pub open spec fn space_end(s: Seq<char>, i: int) -> int
    decreases s.len() - i,
{
    if 0 <= i < s.len() && whitespace_property(s[i]) {
        space_end(s, i + 1)
    } else {
        i
    }
}

/// The first position at or after `i` that holds `c`, or the length.
pub open spec fn first_from(s: Seq<char>, i: int, c: char) -> int
    decreases s.len() - i,
{
    if 0 <= i < s.len() && s[i] != c {
        first_from(s, i + 1, c)
    } else {
        i
    }
}

/// Whether `lit` stands in `s` at position `i`.
pub open spec fn starts_with_at(s: Seq<char>, i: int, lit: Seq<char>) -> bool {
    0 <= i && i + lit.len() <= s.len() && s.subrange(i, i + lit.len()) == lit
}

/// Whether no line break stands between `from` and `to`.
pub open spec fn no_newline(s: Seq<char>, from: int, to: int) -> bool {
    forall|j: int| from <= j < to ==> s[j] != '\n'
}

proof fn lemma_word_end_bounds(s: Seq<char>, i: int)
    requires
        0 <= i <= s.len(),
    ensures
        i <= word_end(s, i) <= s.len(),
        forall|j: int| i <= j < word_end(s, i) ==> is_word_char(#[trigger] s[j]),
        word_end(s, i) < s.len() ==> !is_word_char(s[word_end(s, i)]),
    decreases s.len() - i,
{
    if i < s.len() && is_word_char(s[i]) {
        lemma_word_end_bounds(s, i + 1);
    }
}

proof fn lemma_space_end_bounds(s: Seq<char>, i: int)
    requires
        0 <= i <= s.len(),
    ensures
        i <= space_end(s, i) <= s.len(),
    decreases s.len() - i,
{
    if i < s.len() && whitespace_property(s[i]) {
        lemma_space_end_bounds(s, i + 1);
    }
}

proof fn lemma_first_from_bounds(s: Seq<char>, i: int, c: char)
    requires
        0 <= i <= s.len(),
    ensures
        i <= first_from(s, i, c) <= s.len(),
        forall|j: int| i <= j < first_from(s, i, c) ==> #[trigger] s[j] != c,
        first_from(s, i, c) < s.len() ==> s[first_from(s, i, c)] == c,
    decreases s.len() - i,
{
    if i < s.len() && s[i] != c {
        lemma_first_from_bounds(s, i + 1, c);
    }
}

fn scan_word(v: &Vec<char>, i: usize) -> (r: usize)
    requires
        i <= v.len(),
    ensures
        r == word_end(v@, i as int),
        i <= r <= v.len(),
{
    proof {
        lemma_word_end_bounds(v@, i as int);
    }
    let mut j = i;
    while j < v.len() && word_char(v[j])
        invariant
            i <= j <= v.len(),
            word_end(v@, i as int) == word_end(v@, j as int),
        decreases v.len() - j,
    {
        j = j + 1;
    }
    j
}

fn scan_space(v: &Vec<char>, i: usize) -> (r: usize)
    requires
        i <= v.len(),
    ensures
        r == space_end(v@, i as int),
        i <= r <= v.len(),
{
    proof {
        lemma_space_end_bounds(v@, i as int);
    }
    let mut j = i;
    while j < v.len() && char_is_whitespace(v[j])
        invariant
            i <= j <= v.len(),
            space_end(v@, i as int) == space_end(v@, j as int),
        decreases v.len() - j,
    {
        j = j + 1;
    }
    j
}

fn scan_to(v: &Vec<char>, i: usize, c: char) -> (r: usize)
    requires
        i <= v.len(),
    ensures
        r == first_from(v@, i as int, c),
        i <= r <= v.len(),
{
    proof {
        lemma_first_from_bounds(v@, i as int, c);
    }
    let mut j = i;
    while j < v.len() && v[j] != c
        invariant
            i <= j <= v.len(),
            first_from(v@, i as int, c) == first_from(v@, j as int, c),
        decreases v.len() - j,
    {
        j = j + 1;
    }
    j
}

fn literal_at(v: &Vec<char>, i: usize, lit: &str) -> (r: bool)
    ensures
        r == starts_with_at(v@, i as int, lit@),
{
    let l = chars_of(lit);
    if i > v.len() || l.len() > v.len() - i {
        return false;
    }
    let mut k: usize = 0;
    while k < l.len()
        invariant
            l@ == lit@,
            i + l.len() <= v.len(),
            0 <= k <= l.len(),
            forall|j: int| 0 <= j < k ==> v@[i + j] == l@[j],
        decreases l.len() - k,
    {
        if v[i + k] != l[k] {
            assert(v@.subrange(i as int, i + l.len())[k as int] != lit@[k as int]);
            return false;
        }
        k = k + 1;
    }
    assert(v@.subrange(i as int, i + l.len()) =~= lit@);
    true
}

fn newline_free(v: &Vec<char>, from: usize, to: usize) -> (r: bool)
    requires
        from <= to <= v.len(),
    ensures
        r == no_newline(v@, from as int, to as int),
{
    let mut j = from;
    while j < to
        invariant
            from <= j <= to <= v.len(),
            no_newline(v@, from as int, j as int),
        decreases to - j,
    {
        if v[j] == '\n' {
            return false;
        }
        j = j + 1;
    }
    true
}

/// The characters of `v` between `from` and `to`, as a string.
fn substring(v: &Vec<char>, from: usize, to: usize) -> (r: String)
    requires
        from <= to <= v.len(),
    ensures
        r@ == v@.subrange(from as int, to as int),
{
    let mut r = String::new();
    let mut j = from;
    while j < to
        invariant
            from <= j <= to <= v.len(),
            r@ == v@.subrange(from as int, j as int),
        decreases to - j,
    {
        push_char(&mut r, v[j]);
        assert(v@.subrange(from as int, j + 1) =~= v@.subrange(from as int, j as int).push(
            v@[j as int],
        ));
        j = j + 1;
    }
    r
}

// ---------------------------------------------------------------------------
// Lines

/// The end of the line that starts at `i`: the next line break, or the end.
pub open spec fn line_end(s: Seq<char>, i: int) -> int {
    first_from(s, i, '\n')
}

/// The line that runs from `i` to `e`; a carriage return before a line
/// break is not part of it.
pub open spec fn line_text(s: Seq<char>, i: int, e: int) -> Seq<char> {
    if e < s.len() && e > i && s[e - 1] == '\r' {
        s.subrange(i, e - 1)
    } else {
        s.subrange(i, e)
    }
}

/// The lines of `s` from position `i` on, as `str::lines` splits them: at
/// each line break, with a carriage return before a break dropped and no
/// empty line after a final break.
pub open spec fn lines_from(s: Seq<char>, i: int) -> Seq<Seq<char>>
    decreases s.len() - i,
{
    if i < 0 || i >= s.len() {
        Seq::empty()
    } else {
        let e = line_end(s, i);
        if e >= s.len() {
            seq![line_text(s, i, e)]
        } else {
            if e + 1 > i {
                seq![line_text(s, i, e)] + lines_from(s, e + 1)
            } else {
                Seq::empty()
            }
        }
    }
}

/// The lines of `s`.
pub open spec fn spec_lines(s: Seq<char>) -> Seq<Seq<char>> {
    lines_from(s, 0)
}

/// Splits a text into lines as `str::lines` does.
pub fn split_lines(text: &str) -> (r: Vec<String>)
    ensures
        r@.map_values(|l: String| l@) == spec_lines(text@),
{
    let v = chars_of(text);
    let mut lines: Vec<String> = Vec::new();
    let mut i: usize = 0;
    while i < v.len()
        invariant
            v@ == text@,
            0 <= i <= v.len(),
            lines@.map_values(|l: String| l@) + lines_from(v@, i as int) == spec_lines(v@),
        decreases v.len() - i,
    {
        let e = scan_to(&v, i, '\n');
        let end = if e < v.len() && e > i && v[e - 1] == '\r' {
            e - 1
        } else {
            e
        };
        let line = substring(&v, i, end);
        let ghost before = lines@.map_values(|l: String| l@);
        lines.push(line);
        proof {
            assert(lines@.map_values(|l: String| l@) =~= before.push(line_text(v@, i as int, e as int)));
            if e >= v.len() {
                assert(lines_from(v@, e as int) =~= Seq::<Seq<char>>::empty());
                assert(lines_from(v@, i as int) =~= seq![line_text(v@, i as int, e as int)]);
            } else {
                assert(lines_from(v@, i as int) =~= seq![line_text(v@, i as int, e as int)]
                    + lines_from(v@, e + 1));
            }
            assert(before + lines_from(v@, i as int) =~= before.push(
                line_text(v@, i as int, e as int),
            ) + lines_from(v@, if e >= v.len() { e as int } else { e + 1 }));
        }
        if e >= v.len() {
            i = e;
        } else {
            i = e + 1;
        }
    }
    assert(lines_from(v@, i as int) =~= Seq::<Seq<char>>::empty());
    assert(lines@.map_values(|l: String| l@) =~= spec_lines(text@));
    lines
}

// ---------------------------------------------------------------------------
// Header lines: a word, a colon, white space, then the value

/// The value of a header line such as `Sponsor: U.S. Government`: what
/// follows the leading word, its colon and the white space after it.
pub open spec fn spec_header_value(line: Seq<char>) -> Option<Seq<char>> {
    let w = word_end(line, 0);
    if w == 0 || w >= line.len() || line[w] != ':' {
        None
    } else {
        let v = space_end(line, w + 1);
        if no_newline(line, v, line.len() as int) {
            Some(line.subrange(v, line.len() as int))
        } else {
            None
        }
    }
}

/// The value of a header line; `NotAValidLegacySpec` where there is no
/// line or it is no header.
pub fn extract_header_value(line: Option<&str>) -> (r: Result<String, crate::Error>)
    ensures
        match r {
            Ok(value) => line matches Some(l) && spec_header_value(l@) == Some(value@),
            Err(e) => e is NotAValidLegacySpec && (line matches Some(l) ==> spec_header_value(
                l@,
            ) is None),
        },
{
    if let Some(line) = line {
        let v = chars_of(line);
        let w = scan_word(&v, 0);
        if w > 0 && w < v.len() && v[w] == ':' {
            let s = scan_space(&v, w + 1);
            if newline_free(&v, s, v.len()) {
                return Ok(substring(&v, s, v.len()));
            }
        }
    }
    Err(crate::Error::NotAValidLegacySpec)
}

// ---------------------------------------------------------------------------
// Paint lines

/// The end of a colour such as `RGB16(red=0x2821, green=0x0221, blue=0x012D)`
/// that starts at `i`: `RGB`, optionally `16`, then a bracket, at least one
/// character other than a closing bracket, and the closing bracket.
pub open spec fn rgb_end(s: Seq<char>, i: int) -> Option<int> {
    if !starts_with_at(s, i, "RGB"@) {
        None
    } else {
        let j = if starts_with_at(s, i + 3, "16"@) {
            i + 5
        } else {
            i + 3
        };
        if !(j < s.len() && s[j] == '(') {
            None
        } else {
            let c = first_from(s, j + 1, ')');
            if c == j + 1 || c >= s.len() {
                None
            } else {
                Some(c + 1)
            }
        }
    }
}

/// The end of a characteristic such as `, finish="F"` that starts at `i`:
/// a comma and a space, a character other than `n`, the rest of a word, an
/// equals sign, and a word in double quotes.
pub open spec fn item_end(s: Seq<char>, i: int) -> Option<int> {
    if !(starts_with_at(s, i, ", "@) && i + 2 < s.len() && s[i + 2] != 'n') {
        None
    } else {
        let a = word_end(s, i + 3);
        if a == i + 3 || !starts_with_at(s, a, "=\""@) {
            None
        } else {
            let b = word_end(s, a + 2);
            if b == a + 2 || !(b < s.len() && s[b] == '"') {
                None
            } else {
                Some(b + 1)
            }
        }
    }
}

/// The end of the run of characteristics that starts at `i`.
pub open spec fn items_end(s: Seq<char>, i: int) -> int
    decreases s.len() - i,
{
    match item_end(s, i) {
        Some(e) => if i < e <= s.len() {
            items_end(s, e)
        } else {
            i
        },
        None => i,
    }
}

/// What closes a paint line from `m` on: a bracket alone (`Some(None)`),
/// or `, notes="…")` with the notes' bounds (`Some(Some(..))`).
pub open spec fn notes_part(s: Seq<char>, m: int) -> Option<Option<(int, int)>> {
    if m + 1 == s.len() && s[m] == ')' {
        Some(None)
    } else if starts_with_at(s, m, ", notes=\""@) && m + 11 <= s.len() && s[s.len() - 2] == '"'
        && s[s.len() - 1] == ')' && no_newline(s, m + 9, s.len() - 2) {
        Some(Some((m + 9, s.len() - 2)))
    } else {
        None
    }
}

/// The positions of what follows a paint's name from `k` on, where it has
/// the form `", rgb=` colour, characteristics, closing: the end of the
/// colour, the end of the characteristics, and the notes.
pub open spec fn tail_parts(s: Seq<char>, k: int) -> Option<(int, int, Option<(int, int)>)> {
    if !starts_with_at(s, k, "\", rgb="@) {
        None
    } else {
        match rgb_end(s, k + 7) {
            None => None,
            Some(r) => {
                let m = items_end(s, r);
                match notes_part(s, m) {
                    None => None,
                    Some(n) => Some((r, m, n)),
                }
            },
        }
    }
}

/// Where a paint's name starts: after a word, a bracket, an optional
/// `name=` and a double quote.
pub open spec fn name_start(s: Seq<char>) -> Option<int> {
    let p = word_end(s, 0);
    if p == 0 || p >= s.len() || s[p] != '(' {
        None
    } else {
        let q = if starts_with_at(s, p + 1, "name="@) {
            p + 6
        } else {
            p + 1
        };
        if q < s.len() && s[q] == '"' {
            Some(q + 1)
        } else {
            None
        }
    }
}

/// The end of the longest name, from `start` to at most `k`, after which
/// the rest of the line has its form.
pub open spec fn best_split(s: Seq<char>, start: int, k: int) -> Option<int>
    decreases k - start,
{
    if k <= start {
        None
    } else if tail_parts(s, k) is Some {
        Some(k)
    } else {
        best_split(s, start, k - 1)
    }
}

/// The parts of a paint line, by position: the name's start and end, the
/// colour's end, the characteristics' end, and the notes' bounds. The name
/// is the longest, within the line's first line break, after which the rest
/// of the line has its form.
pub open spec fn spec_paint_line(s: Seq<char>) -> Option<(int, int, int, int, Option<(int, int)>)> {
    match name_start(s) {
        None => None,
        Some(start) => match best_split(s, start, first_from(s, start, '\n')) {
            None => None,
            Some(k) => match tail_parts(s, k) {
                Some((r, m, n)) => Some((start, k, r, m, n)),
                None => None,
            },
        },
    }
}

/// The text of a paint line's parts.
pub struct PaintLineParts {
    pub name: String,
    pub rgb: String,
    pub characteristics: String,
    pub notes: Option<String>,
}

/// Whether `parts` holds the text of the parts that `spec_paint_line` finds.
pub open spec fn parts_of_line(s: Seq<char>, parts: PaintLineParts) -> bool {
    match spec_paint_line(s) {
        Some((start, k, r, m, n)) => {
            &&& parts.name@ == s.subrange(start, k)
            &&& parts.rgb@ == s.subrange(k + 7, r)
            &&& parts.characteristics@ == s.subrange(r, m)
            &&& match n {
                Some((a, b)) => parts.notes matches Some(notes) && notes@ == s.subrange(a, b),
                None => parts.notes is None,
            }
        },
        None => false,
    }
}

proof fn lemma_word_end_ge(s: Seq<char>, i: int)
    ensures
        word_end(s, i) >= i,
    decreases s.len() - i,
{
    if 0 <= i < s.len() && is_word_char(s[i]) {
        lemma_word_end_ge(s, i + 1);
    }
}

fn scan_rgb(v: &Vec<char>, i: usize) -> (r: Option<usize>)
    requires
        i <= v.len(),
    ensures
        match r {
            Some(e) => rgb_end(v@, i as int) == Some(e as int) && i < e <= v.len(),
            None => rgb_end(v@, i as int) is None,
        },
{
    if !literal_at(v, i, "RGB") {
        return None;
    }
    proof {
        reveal_strlit("RGB");
        reveal_strlit("16");
    }
    let j = if literal_at(v, i + 3, "16") {
        i + 5
    } else {
        i + 3
    };
    if !(j < v.len() && v[j] == '(') {
        return None;
    }
    let c = scan_to(v, j + 1, ')');
    if c == j + 1 || c >= v.len() {
        None
    } else {
        Some(c + 1)
    }
}

fn scan_item(v: &Vec<char>, i: usize) -> (r: Option<usize>)
    requires
        i <= v.len(),
    ensures
        match r {
            Some(e) => item_end(v@, i as int) == Some(e as int) && i < e <= v.len(),
            None => item_end(v@, i as int) is None,
        },
{
    proof {
        reveal_strlit(", ");
        reveal_strlit("=\"");
    }
    if !(literal_at(v, i, ", ") && i + 2 < v.len() && v[i + 2] != 'n') {
        return None;
    }
    let a = scan_word(v, i + 3);
    if a == i + 3 || !literal_at(v, a, "=\"") {
        return None;
    }
    let b = scan_word(v, a + 2);
    if b == a + 2 || !(b < v.len() && v[b] == '"') {
        return None;
    }
    Some(b + 1)
}

fn scan_items(v: &Vec<char>, i: usize) -> (r: usize)
    requires
        i <= v.len(),
    ensures
        r == items_end(v@, i as int),
        i <= r <= v.len(),
{
    let mut j = i;
    loop
        invariant
            i <= j <= v.len(),
            items_end(v@, i as int) == items_end(v@, j as int),
        decreases v.len() - j,
    {
        match scan_item(v, j) {
            Some(e) => {
                j = e;
            },
            None => {
                return j;
            },
        }
    }
}

fn scan_notes(v: &Vec<char>, m: usize) -> (r: Option<Option<(usize, usize)>>)
    requires
        m <= v.len(),
    ensures
        match r {
            Some(Some((a, b))) => notes_part(v@, m as int) == Some(Some((a as int, b as int)))
                && a <= b <= v.len(),
            Some(None) => notes_part(v@, m as int) == Some(None::<(int, int)>),
            None => notes_part(v@, m as int) is None,
        },
{
    proof {
        reveal_strlit(", notes=\"");
    }
    let len = v.len();
    if m < len && m + 1 == len && v[m] == ')' {
        Some(None)
    } else if literal_at(v, m, ", notes=\"") && len >= 11 && m <= len - 11 && v[len - 2] == '"'
        && v[len - 1]
        == ')' && newline_free(v, m + 9, len - 2) {
        Some(Some((m + 9, len - 2)))
    } else {
        None
    }
}

fn scan_tail(v: &Vec<char>, k: usize) -> (r: Option<(usize, usize, Option<(usize, usize)>)>)
    requires
        k <= v.len(),
    ensures
        match r {
            Some((rr, m, n)) => {
                &&& tail_parts(v@, k as int) matches Some((sr, sm, sn))
                &&& sr == rr && sm == m
                &&& k + 7 < rr <= m <= v.len()
                &&& match n {
                    Some((a, b)) => sn == Some((a as int, b as int)) && a <= b <= v.len(),
                    None => sn is None,
                }
            },
            None => tail_parts(v@, k as int) is None,
        },
{
    proof {
        reveal_strlit("\", rgb=");
    }
    if !literal_at(v, k, "\", rgb=") {
        return None;
    }
    match scan_rgb(v, k + 7) {
        None => None,
        Some(rr) => {
            let m = scan_items(v, rr);
            match scan_notes(v, m) {
                None => None,
                Some(n) => Some((rr, m, n)),
            }
        },
    }
}

fn scan_name_start(v: &Vec<char>) -> (r: Option<usize>)
    ensures
        match r {
            Some(q) => name_start(v@) == Some(q as int) && q <= v.len(),
            None => name_start(v@) is None,
        },
{
    proof {
        reveal_strlit("name=");
    }
    let p = scan_word(v, 0);
    if p == 0 || p >= v.len() || v[p] != '(' {
        return None;
    }
    let q = if literal_at(v, p + 1, "name=") {
        p + 6
    } else {
        p + 1
    };
    if q < v.len() && v[q] == '"' {
        Some(q + 1)
    } else {
        None
    }
}

fn scan_split(v: &Vec<char>, start: usize, lim: usize) -> (r: Option<usize>)
    requires
        start <= lim <= v.len(),
    ensures
        match r {
            Some(k) => best_split(v@, start as int, lim as int) == Some(k as int) && start < k
                <= lim,
            None => best_split(v@, start as int, lim as int) is None,
        },
{
    let mut k = lim;
    while k > start
        invariant
            start <= k <= lim <= v.len(),
            best_split(v@, start as int, lim as int) == best_split(v@, start as int, k as int),
        decreases k - start,
    {
        if scan_tail(v, k).is_some() {
            return Some(k);
        }
        k = k - 1;
    }
    None
}

/// The parts of a paint line, by position.
fn scan_paint_line(v: &Vec<char>) -> (r: Option<(usize, usize, usize, usize, Option<(usize, usize)>)>)
    ensures
        match r {
            Some((start, k, rr, m, n)) => {
                &&& spec_paint_line(v@) matches Some((s0, k0, r0, m0, n0))
                &&& s0 == start && k0 == k && r0 == rr && m0 == m
                &&& start < k && k + 7 < rr <= m <= v.len()
                &&& match n {
                    Some((a, b)) => n0 == Some((a as int, b as int)) && a <= b <= v.len(),
                    None => n0 is None,
                }
            },
            None => spec_paint_line(v@) is None,
        },
{
    match scan_name_start(v) {
        None => None,
        Some(start) => {
            let lim = scan_to(v, start, '\n');
            match scan_split(v, start, lim) {
                None => None,
                Some(k) => match scan_tail(v, k) {
                    Some((rr, m, n)) => Some((start, k, rr, m, n)),
                    None => None,
                },
            }
        },
    }
}

/// The parts of a paint line: its name, colour, characteristics and
/// notes; `None` where the line does not have the form of one.
pub fn paint_line_parts(line: &str) -> (r: Option<PaintLineParts>)
    ensures
        match r {
            Some(parts) => parts_of_line(line@, parts),
            None => spec_paint_line(line@) is None,
        },
{
    let v = chars_of(line);
    match scan_paint_line(&v) {
        None => None,
        Some((start, k, rr, m, n)) => {
            let notes = match n {
                Some((a, b)) => Some(substring(&v, a, b)),
                None => None,
            };
            Some(
                PaintLineParts {
                    name: substring(&v, start, k),
                    rgb: substring(&v, k + 7, rr),
                    characteristics: substring(&v, rr, m),
                    notes,
                },
            )
        },
    }
}

// ---------------------------------------------------------------------------
// Characteristics of a paint line

/// The characteristics that a legacy paint line can set.
#[derive(PartialEq, Eq, Structural, Clone, Copy, Debug)]
pub struct LegacyCharacteristics {
    pub finish: Finish,
    pub transparency: Transparency,
    pub permanence: Permanence,
    pub fluorescence: Fluorescence,
    pub metallicness: Metallicness,
}

/// The characteristics of a paint that sets none.
pub open spec fn default_characteristics() -> LegacyCharacteristics {
    LegacyCharacteristics {
        finish: Finish::Gloss,
        transparency: Transparency::Opaque,
        permanence: Permanence::Permanent,
        fluorescence: Fluorescence::NonFluorescent,
        metallicness: Metallicness::NonMetallic,
    }
}

/// The name of the characteristic at `i`: its word, including the
/// character after the space where that is a word character.
pub open spec fn item_key(s: Seq<char>, i: int) -> Seq<char> {
    let a = word_end(s, i + 3);
    if is_word_char(s[i + 2]) {
        s.subrange(i + 2, a)
    } else {
        s.subrange(i + 3, a)
    }
}

/// The value of the characteristic at `i`: the word in double quotes.
pub open spec fn item_value(s: Seq<char>, i: int) -> Seq<char> {
    let a = word_end(s, i + 3);
    s.subrange(a + 2, word_end(s, a + 2))
}

/// Sets the characteristic `key` to the value that `value` names; `None`
/// where the key is unknown or the value names nothing.
pub open spec fn apply_characteristic(
    c: LegacyCharacteristics,
    key: Seq<char>,
    value: Seq<char>,
) -> Option<LegacyCharacteristics> {
    if key == "finish"@ {
        match spec_parse::<Finish>(value) {
            Some(v) => Some(LegacyCharacteristics { finish: v, ..c }),
            None => None,
        }
    } else if key == "fluorescence"@ {
        match spec_parse::<Fluorescence>(value) {
            Some(v) => Some(LegacyCharacteristics { fluorescence: v, ..c }),
            None => None,
        }
    } else if key == "permanence"@ {
        match spec_parse::<Permanence>(value) {
            Some(v) => Some(LegacyCharacteristics { permanence: v, ..c }),
            None => None,
        }
    } else if key == "metallicness"@ || key == "metallic"@ {
        match spec_parse::<Metallicness>(value) {
            Some(v) => Some(LegacyCharacteristics { metallicness: v, ..c }),
            None => None,
        }
    } else if key == "transparency"@ {
        match spec_parse::<Transparency>(value) {
            Some(v) => Some(LegacyCharacteristics { transparency: v, ..c }),
            None => None,
        }
    } else {
        None
    }
}

/// The characteristics set, in turn, by those from `i` to `m`.
pub open spec fn apply_items(s: Seq<char>, i: int, m: int, c: LegacyCharacteristics) -> Option<
    LegacyCharacteristics,
>
    decreases s.len() - i,
{
    if i >= m {
        Some(c)
    } else {
        match item_end(s, i) {
            Some(e) => if i < e <= s.len() {
                match apply_characteristic(c, item_key(s, i), item_value(s, i)) {
                    Some(c2) => apply_items(s, e, m, c2),
                    None => None,
                }
            } else {
                Some(c)
            },
            None => Some(c),
        }
    }
}

fn set_characteristic(c: LegacyCharacteristics, key: &str, value: &str) -> (r: Option<
    LegacyCharacteristics,
>)
    ensures
        r == apply_characteristic(c, key@, value@),
{
    if str_eq(key, "finish") {
        match parse_characteristic::<Finish>(value) {
            Ok(v) => Some(LegacyCharacteristics { finish: v, ..c }),
            Err(_) => None,
        }
    } else if str_eq(key, "fluorescence") {
        match parse_characteristic::<Fluorescence>(value) {
            Ok(v) => Some(LegacyCharacteristics { fluorescence: v, ..c }),
            Err(_) => None,
        }
    } else if str_eq(key, "permanence") {
        match parse_characteristic::<Permanence>(value) {
            Ok(v) => Some(LegacyCharacteristics { permanence: v, ..c }),
            Err(_) => None,
        }
    } else if str_eq(key, "metallicness") || str_eq(key, "metallic") {
        match parse_characteristic::<Metallicness>(value) {
            Ok(v) => Some(LegacyCharacteristics { metallicness: v, ..c }),
            Err(_) => None,
        }
    } else if str_eq(key, "transparency") {
        match parse_characteristic::<Transparency>(value) {
            Ok(v) => Some(LegacyCharacteristics { transparency: v, ..c }),
            Err(_) => None,
        }
    } else {
        None
    }
}

fn scan_characteristics(v: &Vec<char>, r: usize, m: usize) -> (res: Option<LegacyCharacteristics>)
    requires
        r <= m <= v.len(),
    ensures
        res == apply_items(v@, r as int, m as int, default_characteristics()),
{
    let mut c = LegacyCharacteristics {
        finish: Finish::default(),
        transparency: Transparency::default(),
        permanence: Permanence::default(),
        fluorescence: Fluorescence::default(),
        metallicness: Metallicness::default(),
    };
    let mut j = r;
    while j < m
        invariant
            r <= j <= v.len(),
            m <= v.len(),
            apply_items(v@, r as int, m as int, default_characteristics()) == apply_items(
                v@,
                j as int,
                m as int,
                c,
            ),
        decreases v.len() - j,
    {
        match scan_item(v, j) {
            None => {
                return Some(c);
            },
            Some(e) => {
                let a = scan_word(v, j + 3);
                let key = if word_char(v[j + 2]) {
                    substring(v, j + 2, a)
                } else {
                    substring(v, j + 3, a)
                };
                let b = scan_word(v, a + 2);
                let value = substring(v, a + 2, b);
                match set_characteristic(c, key.as_str(), value.as_str()) {
                    None => {
                        return None;
                    },
                    Some(c2) => {
                        c = c2;
                    },
                }
                j = e;
            },
        }
    }
    Some(c)
}

// ---------------------------------------------------------------------------
// Paints

/// The name, colour text, notes and characteristics of a paint line; `None`
/// where it has not the form of one, has no notes, or a characteristic is
/// unknown or has a value that names nothing.
pub open spec fn legacy_paint(s: Seq<char>) -> Option<
    (Seq<char>, Seq<char>, Seq<char>, LegacyCharacteristics),
> {
    match spec_paint_line(s) {
        Some((start, k, r, m, Some((a, b)))) => match apply_items(
            s,
            r,
            m,
            default_characteristics(),
        ) {
            Some(c) => Some((s.subrange(start, k), s.subrange(k + 7, r), s.subrange(a, b), c)),
            None => None,
        },
        _ => None,
    }
}

/// Whether `parse_rgb`, given the colour text `text`, can answer `result`.
pub open spec fn gives_colour<F: Fn(&str) -> Option<Rgb16>>(
    parse_rgb: F,
    text: Seq<char>,
    result: Option<Rgb16>,
) -> bool {
    exists|t: &str| t@ == text && #[trigger] parse_rgb.ensures((t,), result)
}

/// Whether `p` is the paint that the line `s` describes, its colour being
/// what `parse_rgb` answered for the line's colour text. The paint's id and
/// name are both the line's name.
pub open spec fn describes<F: Fn(&str) -> Option<Rgb16>>(
    s: Seq<char>,
    p: BasicPaintSpec,
    parse_rgb: F,
) -> bool {
    match legacy_paint(s) {
        Some((name, rgb_text, notes, c)) => {
            &&& gives_colour(parse_rgb, rgb_text, Some(p.rgb))
            &&& p.id@ == name
            &&& p.name@ == name
            &&& p.notes@ == notes
            &&& p.finish == c.finish
            &&& p.transparency == c.transparency
            &&& p.permanence == c.permanence
            &&& p.fluorescence == c.fluorescence
            &&& p.metallicness == c.metallicness
        },
        None => false,
    }
}

/// Whether the line `s` describes no paint: it is no paint line, or
/// `parse_rgb` can read no colour from its colour text.
pub open spec fn line_refused<F: Fn(&str) -> Option<Rgb16>>(s: Seq<char>, parse_rgb: F) -> bool {
    match legacy_paint(s) {
        Some((_, rgb_text, _, _)) => gives_colour(parse_rgb, rgb_text, None),
        None => true,
    }
}

/// The paint that a legacy paint line describes. The colour text is read by
/// `parse_rgb`; `NotAValidLegacySpec` where the line is no paint line or
/// `parse_rgb` reads no colour.
pub fn extract_paint_spec<F: Fn(&str) -> Option<Rgb16>>(line: &str, parse_rgb: &F) -> (r: Result<
    BasicPaintSpec,
    crate::Error,
>)
    requires
        forall|t: &str| parse_rgb.requires((t,)),
    ensures
        match r {
            Ok(p) => describes(line@, p, *parse_rgb),
            Err(e) => e is NotAValidLegacySpec && line_refused(line@, *parse_rgb),
        },
{
    let v = chars_of(line);
    let (start, k, rr, m, n) = match scan_paint_line(&v) {
        Some(found) => found,
        None => {
            return Err(crate::Error::NotAValidLegacySpec);
        },
    };
    let (a, b) = match n {
        Some(bounds) => bounds,
        None => {
            return Err(crate::Error::NotAValidLegacySpec);
        },
    };
    let c = match scan_characteristics(&v, rr, m) {
        Some(c) => c,
        None => {
            return Err(crate::Error::NotAValidLegacySpec);
        },
    };
    let name = substring(&v, start, k);
    let rgb_text = substring(&v, k + 7, rr);
    let notes = substring(&v, a, b);
    let t = rgb_text.as_str();
    let parsed = parse_rgb(t);
    match parsed {
        None => Err(crate::Error::NotAValidLegacySpec),
        Some(rgb) => {
            let mut paint = BasicPaintSpec::new(rgb, name.as_str());
            paint.name = name;
            paint.notes = notes;
            paint.finish = c.finish;
            paint.transparency = c.transparency;
            paint.permanence = c.permanence;
            paint.fluorescence = c.fluorescence;
            paint.metallicness = c.metallicness;
            Ok(paint)
        },
    }
}

// ---------------------------------------------------------------------------
// Series

/// Whether `ps` are the paints that the lines from the third on describe.
pub open spec fn describes_all<F: Fn(&str) -> Option<Rgb16>>(
    lines: Seq<Seq<char>>,
    ps: Seq<BasicPaintSpec>,
    parse_rgb: F,
) -> bool {
    &&& ps.len() + 2 == lines.len()
    &&& forall|i: int| 0 <= i < ps.len() ==> describes(lines[i + 2], #[trigger] ps[i], parse_rgb)
}

/// Whether some line from the third on describes no paint.
pub open spec fn some_line_fails<F: Fn(&str) -> Option<Rgb16>>(
    lines: Seq<Seq<char>>,
    parse_rgb: F,
) -> bool {
    exists|i: int|
        2 <= i < lines.len() && line_refused(#[trigger] lines[i], parse_rgb)
}

/// The paint series that a legacy text describes: the first line's header
/// value is its name, the second's its proprietor, and each further line
/// describes a paint, added in turn. The colour texts are read by
/// `parse_rgb`. `NotAValidLegacySpec` where a header or a paint line fails.
pub fn extract_legacy_paint_series_spec<F: Fn(&str) -> Option<Rgb16>>(
    string: &str,
    parse_rgb: &F,
) -> (r: Result<SeriesPaintSeriesSpec, crate::Error>)
    requires
        forall|t: &str| parse_rgb.requires((t,)),
    ensures
        match r {
            Ok(spec) => {
                let ls = spec_lines(string@);
                &&& ls.len() >= 2
                &&& spec_header_value(ls[0]) == Some(spec.spec_series_id().spec_series_name())
                &&& spec_header_value(ls[1]) == Some(spec.spec_series_id().spec_proprietor())
                &&& exists|ps: Seq<BasicPaintSpec>|
                    describes_all(ls, ps, *parse_rgb) && spec.spec_paints() == spec_add_all(
                        Seq::empty(),
                        ps,
                    )
            },
            Err(e) => {
                let ls = spec_lines(string@);
                &&& e is NotAValidLegacySpec
                &&& ls.len() < 2 || spec_header_value(ls[0]) is None || spec_header_value(ls[1])
                    is None || some_line_fails(ls, *parse_rgb)
            },
        },
{
    let lines = split_lines(string);
    let ghost ls = spec_lines(string@);
    assert(lines@.map_values(|l: String| l@) == ls);
    assert(forall|i: int| 0 <= i < lines.len() ==> #[trigger] lines@[i]@ == ls[i]);
    let mut spec = SeriesPaintSeriesSpec::default();
    let first = if lines.len() > 0 {
        Some(lines[0].as_str())
    } else {
        None
    };
    let series_name = extract_header_value(first)?;
    spec.set_series_name(series_name.as_str());
    let second = if lines.len() > 1 {
        Some(lines[1].as_str())
    } else {
        None
    };
    let proprietor = extract_header_value(second)?;
    spec.set_proprietor(proprietor.as_str());
    let ghost mut ps: Seq<BasicPaintSpec> = Seq::empty();
    let mut i: usize = 2;
    while i < lines.len()
        invariant
            forall|t: &str| parse_rgb.requires((t,)),
            ls == spec_lines(string@),
            lines@.map_values(|l: String| l@) == ls,
            forall|j: int| 0 <= j < lines.len() ==> #[trigger] lines@[j]@ == ls[j],
            2 <= i <= lines.len(),
            ps.len() + 2 == i,
            forall|j: int| 0 <= j < ps.len() ==> describes(ls[j + 2], #[trigger] ps[j], *parse_rgb),
            spec.spec_paints() == spec_add_all(Seq::empty(), ps),
            spec_header_value(ls[0]) == Some(spec.spec_series_id().spec_series_name()),
            spec_header_value(ls[1]) == Some(spec.spec_series_id().spec_proprietor()),
        decreases lines.len() - i,
    {
        let paint = match extract_paint_spec(lines[i].as_str(), parse_rgb) {
            Ok(paint) => paint,
            Err(e) => {
                assert(some_line_fails(ls, *parse_rgb)) by {
                    assert(2 <= i < ls.len());
                    assert(line_refused(ls[i as int], *parse_rgb));
                }
                return Err(e);
            },
        };
        spec.add(&paint);
        proof {
            let ps0 = ps;
            ps = ps.push(paint);
            assert(ps.drop_last() == ps0);
            assert forall|j: int| 0 <= j < ps.len() implies describes(
                ls[j + 2],
                #[trigger] ps[j],
                *parse_rgb,
            ) by {
                if j < ps0.len() {
                    assert(ps[j] == ps0[j]);
                }
            }
        }
        i = i + 1;
    }
    assert(describes_all(ls, ps, *parse_rgb));
    Ok(spec)
}


/// Each characteristic key of a paint line sets its own characteristic, and
/// only that, to the value its value text names, and fails where the text
/// names none: `finish`, `fluorescence`, `permanence`, `transparency`, and
/// both `metallicness` and `metallic` for the metallicness. Any other key
/// fails.
pub proof fn law_characteristic_keys(c: LegacyCharacteristics, key: Seq<char>, value: Seq<char>)
    ensures
        spec_parse::<Finish>(value) matches Some(v) ==> apply_characteristic(c, "finish"@, value)
            == Some(LegacyCharacteristics { finish: v, ..c }),
        spec_parse::<Finish>(value) is None ==> apply_characteristic(c, "finish"@, value) is None,
        spec_parse::<Fluorescence>(value) matches Some(v) ==> apply_characteristic(c, "fluorescence"@, value)
            == Some(LegacyCharacteristics { fluorescence: v, ..c }),
        spec_parse::<Fluorescence>(value) is None ==> apply_characteristic(c, "fluorescence"@, value) is None,
        spec_parse::<Permanence>(value) matches Some(v) ==> apply_characteristic(c, "permanence"@, value)
            == Some(LegacyCharacteristics { permanence: v, ..c }),
        spec_parse::<Permanence>(value) is None ==> apply_characteristic(c, "permanence"@, value) is None,
        spec_parse::<Metallicness>(value) matches Some(v) ==> apply_characteristic(c, "metallicness"@, value)
            == Some(LegacyCharacteristics { metallicness: v, ..c }),
        spec_parse::<Metallicness>(value) is None ==> apply_characteristic(c, "metallicness"@, value) is None,
        spec_parse::<Metallicness>(value) matches Some(v) ==> apply_characteristic(c, "metallic"@, value)
            == Some(LegacyCharacteristics { metallicness: v, ..c }),
        spec_parse::<Metallicness>(value) is None ==> apply_characteristic(c, "metallic"@, value) is None,
        spec_parse::<Transparency>(value) matches Some(v) ==> apply_characteristic(c, "transparency"@, value)
            == Some(LegacyCharacteristics { transparency: v, ..c }),
        spec_parse::<Transparency>(value) is None ==> apply_characteristic(c, "transparency"@, value) is None,
        (key != "finish"@ && key != "fluorescence"@ && key != "permanence"@ && key != "metallicness"@ && key != "metallic"@ && key != "transparency"@) ==> apply_characteristic(c, key, value) is None,
{
    reveal_strlit("finish");
    reveal_strlit("fluorescence");
    reveal_strlit("permanence");
    reveal_strlit("metallicness");
    reveal_strlit("metallic");
    reveal_strlit("transparency");
    assert("finish"@.len() == 6);
    assert("fluorescence"@.len() == 12);
    assert("permanence"@.len() == 10);
    assert("metallicness"@.len() == 12);
    assert("metallic"@.len() == 8);
    assert("transparency"@.len() == 12);
    assert("fluorescence"@[0] != "metallicness"@[0]);
    assert("fluorescence"@[0] != "transparency"@[0]);
    assert("metallicness"@[0] != "transparency"@[0]);
}

} // verus!
