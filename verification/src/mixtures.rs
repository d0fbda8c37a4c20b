//! Mixtures of paints, and mixing sessions that hold them sorted by id.

use vstd::prelude::*;

use std::rc::Rc;

use gcd::Gcd;

use crate::colour::Rgb16;
use crate::series::{
    clone_rc, copy_string, non_empty, SeriesId, SeriesPaint, SeriesPaintFinder,
};
use crate::sorted::{
    add_by_key, added, find_by_key, find_key, has_key, insert_new_by_key, key_index, lemma_same_keys,
    is_sorted_unique_by_key, sorted_unique, spec_add, spec_insert_all_new, Keyed,
};
use crate::text::{compare_strs, lex_order, push_char, IdOrder};
use crate::{LabelText, TooltipText};

verus! {

// ---------------------------------------------------------------------------
// Greatest common divisors

/// The greatest common divisor of `a` and `b`, by Euclid's recursion;
/// `gcd(a, 0) == a`.
pub open spec fn spec_gcd(a: nat, b: nat) -> nat
    decreases b,
{
    if b == 0 {
        a
    } else {
        spec_gcd(b, a % b)
    }
}

/// The greatest common divisor of all of `parts` (0 for none).
pub open spec fn gcd_all(parts: Seq<u64>) -> nat
    decreases parts.len(),
{
    if parts.len() == 0 {
        0
    } else {
        spec_gcd(gcd_all(parts.drop_last()), parts.last() as nat)
    }
}

/// `Gcd::gcd` of the `gcd` crate on `u128`: the greatest common divisor of
/// `a` and `b`, with `gcd(a, 0) == a` and `gcd(0, b) == b`.
#[verifier::external_body]
fn gcd_u128(a: u128, b: u128) -> (r: u128)
    ensures
        r == spec_gcd(a as nat, b as nat),
{
    a.gcd(b)
}

proof fn lemma_gcd_positive(a: nat, b: nat)
    requires
        a > 0 || b > 0,
    ensures
        spec_gcd(a, b) > 0,
    decreases b,
{
    if b > 0 {
        if a % b > 0 {
            lemma_gcd_positive(b, a % b);
        } else {
            lemma_gcd_positive(b, 0);
        }
    }
}

proof fn lemma_gcd_le(a: nat, b: nat)
    requires
        b > 0,
    ensures
        spec_gcd(a, b) <= b,
    decreases b,
{
    if a % b == 0 {
        assert(spec_gcd(b, 0) == b);
    } else {
        lemma_gcd_le(b, a % b);
    }
}

proof fn lemma_gcd_le_left(a: nat, b: nat)
    requires
        a > 0,
    ensures
        spec_gcd(a, b) <= a,
{
    if b == 0 {
    } else if a < b {
        assert(a % b == a) by {
            vstd::arithmetic::div_mod::lemma_small_mod(a, b);
        }
        lemma_gcd_le(b, a);
    } else {
        lemma_gcd_le(a, b);
    }
}

proof fn lemma_gcd_all_le(parts: Seq<u64>, j: int)
    requires
        forall|i: int| 0 <= i < parts.len() ==> parts[i] > 0,
        0 <= j < parts.len(),
    ensures
        gcd_all(parts) <= parts[j],
    decreases parts.len(),
{
    let init = parts.drop_last();
    if j == parts.len() - 1 {
        lemma_gcd_le(gcd_all(init), parts.last() as nat);
    } else {
        lemma_gcd_all_le(init, j);
        if gcd_all(init) > 0 {
            lemma_gcd_le_left(gcd_all(init), parts.last() as nat);
        } else {
            lemma_gcd_le(gcd_all(init), parts.last() as nat);
            assert(init.len() > 0);
            lemma_gcd_all_positive(init);
        }
    }
}

proof fn lemma_gcd_all_positive(parts: Seq<u64>)
    requires
        parts.len() > 0,
        forall|i: int| 0 <= i < parts.len() ==> parts[i] > 0,
    ensures
        1 <= gcd_all(parts) <= u64::MAX,
    decreases parts.len(),
{
    lemma_gcd_positive(gcd_all(parts.drop_last()), parts.last() as nat);
    lemma_gcd_le(gcd_all(parts.drop_last()), parts.last() as nat);
}

/// Multiples of `d` stay multiples of `d` when scaled, added and
/// subtracted.
proof fn lemma_multiple_combination(d: int, x: int, y: int, k: int)
    requires
        d > 0,
        x % d == 0,
        y % d == 0,
    ensures
        (x * k + y) % d == 0,
        (x * k - y) % d == 0,
{
    let qx = x / d;
    let qy = y / d;
    vstd::arithmetic::div_mod::lemma_fundamental_div_mod(x, d);
    vstd::arithmetic::div_mod::lemma_fundamental_div_mod(y, d);
    assert(x * k + y == (qx * k + qy) * d) by (nonlinear_arith)
        requires
            x == d * qx,
            y == d * qy,
    ;
    assert(x * k - y == (qx * k - qy) * d) by (nonlinear_arith)
        requires
            x == d * qx,
            y == d * qy,
    ;
    vstd::arithmetic::div_mod::lemma_mod_multiples_basic(qx * k + qy, d);
    vstd::arithmetic::div_mod::lemma_mod_multiples_basic(qx * k - qy, d);
}

/// A multiple of a multiple of `d` is a multiple of `d`.
proof fn lemma_multiple_transitive(a: int, b: int, c: int)
    requires
        b > 0,
        c > 0,
        a % b == 0,
        b % c == 0,
    ensures
        a % c == 0,
{
    lemma_multiple_combination(c, b, 0, a / b);
    vstd::arithmetic::div_mod::lemma_fundamental_div_mod(a, b);
    assert(b * (a / b) == a);
    vstd::arithmetic::mul::lemma_mul_is_commutative(b, a / b);
}

/// The greatest common divisor divides both numbers.
proof fn lemma_gcd_divides(a: nat, b: nat)
    requires
        a > 0 || b > 0,
    ensures
        spec_gcd(a, b) > 0,
        a % spec_gcd(a, b) == 0,
        b % spec_gcd(a, b) == 0,
    decreases b,
{
    lemma_gcd_positive(a, b);
    if b == 0 {
        vstd::arithmetic::div_mod::lemma_mod_multiples_basic(1, a as int);
        vstd::arithmetic::div_mod::lemma_small_mod(0, a);
    } else {
        lemma_gcd_divides(b, a % b);
        let g = spec_gcd(a, b);
        vstd::arithmetic::div_mod::lemma_fundamental_div_mod(a as int, b as int);
        lemma_multiple_combination(g as int, b as int, (a % b) as int, (a / b) as int);
        vstd::arithmetic::mul::lemma_mul_is_commutative(b as int, (a / b) as int);
    }
}

/// Whatever divides both numbers divides their greatest common divisor.
proof fn lemma_divisor_divides_gcd(a: nat, b: nat, d: nat)
    requires
        d > 0,
        a % d == 0,
        b % d == 0,
    ensures
        spec_gcd(a, b) % d == 0,
    decreases b,
{
    if b > 0 {
        vstd::arithmetic::div_mod::lemma_fundamental_div_mod(a as int, b as int);
        lemma_multiple_combination(d as int, b as int, 0, (a / b) as int);
        lemma_multiple_combination(d as int, a as int, (b * (a / b)) as int, 1);
        assert((a % b) as int == a * 1 - b * (a / b));
        lemma_divisor_divides_gcd(b, a % b, d);
    }
}

/// The greatest common divisor of positive parts divides each of them.
proof fn lemma_gcd_all_divides(parts: Seq<u64>, j: int)
    requires
        forall|i: int| 0 <= i < parts.len() ==> parts[i] > 0,
        0 <= j < parts.len(),
    ensures
        gcd_all(parts) > 0,
        (parts[j] as nat) % gcd_all(parts) == 0,
    decreases parts.len(),
{
    let init = parts.drop_last();
    let big_g = gcd_all(init);
    let g = gcd_all(parts);
    lemma_gcd_divides(big_g, parts.last() as nat);
    if j < parts.len() - 1 {
        lemma_gcd_all_divides(init, j);
        assert(init[j] == parts[j]);
        lemma_multiple_transitive(parts[j] as int, big_g as int, g as int);
    }
}

/// Whatever divides every part divides their greatest common divisor.
proof fn lemma_divisor_divides_gcd_all(parts: Seq<u64>, d: nat)
    requires
        d > 0,
        forall|i: int| 0 <= i < parts.len() ==> (parts[i] as nat) % d == 0,
    ensures
        gcd_all(parts) % d == 0,
    decreases parts.len(),
{
    if parts.len() == 0 {
        vstd::arithmetic::div_mod::lemma_small_mod(0, d);
    } else {
        let init = parts.drop_last();
        assert forall|i: int| 0 <= i < init.len() implies (init[i] as nat) % d == 0 by {
            assert(init[i] == parts[i]);
        }
        lemma_divisor_divides_gcd_all(init, d);
        lemma_divisor_divides_gcd(gcd_all(init), parts.last() as nat, d);
    }
}

/// Positive parts divided by their greatest common divisor have no common
/// divisor but 1.
proof fn lemma_reduced_gcd_one(parts: Seq<u64>)
    requires
        parts.len() > 0,
        forall|i: int| 0 <= i < parts.len() ==> parts[i] > 0,
    ensures
        forall|i: int|
            0 <= i < parts.len() ==> #[trigger] adjusted_parts(parts, gcd_all(parts))[i] > 0,
        gcd_all(adjusted_parts(parts, gcd_all(parts))) == 1,
{
    let g = gcd_all(parts);
    let q = adjusted_parts(parts, g);
    lemma_gcd_all_divides(parts, 0);
    assert forall|i: int| 0 <= i < parts.len() implies q[i] > 0 && parts[i] == g * q[i] by {
        lemma_gcd_all_divides(parts, i);
        vstd::arithmetic::div_mod::lemma_fundamental_div_mod(parts[i] as int, g as int);
        vstd::arithmetic::div_mod::lemma_div_is_ordered_by_denominator(parts[i] as int, 1, g as int);
        vstd::arithmetic::div_mod::lemma_div_basics(parts[i] as int);
        if parts[i] as nat / g == 0 {
            assert(parts[i] == g * 0);
        }
    }
    lemma_gcd_all_positive(q);
    let h = gcd_all(q);
    assert forall|i: int| 0 <= i < parts.len() implies (parts[i] as nat) % (h * g) == 0 by {
        lemma_gcd_all_divides(q, i);
        let r = q[i] as int / h as int;
        vstd::arithmetic::div_mod::lemma_fundamental_div_mod(q[i] as int, h as int);
        assert(parts[i] == (r * (h * g))) by (nonlinear_arith)
            requires
                parts[i] == g * q[i],
                q[i] == h * r,
        ;
        vstd::arithmetic::div_mod::lemma_mod_multiples_basic(r, (h * g) as int);
    }
    assert(h * g > 0) by (nonlinear_arith)
        requires
            h > 0,
            g > 0,
    ;
    lemma_divisor_divides_gcd_all(parts, h * g);
    let s = g as int / (h * g) as int;
    vstd::arithmetic::div_mod::lemma_fundamental_div_mod(g as int, (h * g) as int);
    assert(h == 1) by (nonlinear_arith)
        requires
            g == (h * g) * s,
            g > 0,
            h > 0,
    ;
}

// ---------------------------------------------------------------------------
// Sums

/// The sum of `parts`, each divided by `g`.
pub open spec fn adjusted_total(parts: Seq<u64>, g: nat) -> nat
    decreases parts.len(),
{
    if parts.len() == 0 {
        0
    } else {
        adjusted_total(parts.drop_last(), g) + (parts.last() as nat) / g
    }
}

/// The sum of `values`, each weighted by the matching part divided by `g`.
pub open spec fn weighted_sum(values: Seq<u16>, parts: Seq<u64>, g: nat) -> nat
    decreases parts.len(),
{
    if parts.len() == 0 || values.len() == 0 {
        0
    } else {
        weighted_sum(values.drop_last(), parts.drop_last(), g) + (values.last() as nat) * ((
        parts.last() as nat) / g)
    }
}

proof fn lemma_total_prefix(parts: Seq<u64>, g: nat, i: int)
    requires
        0 <= i <= parts.len(),
        g >= 1,
    ensures
        adjusted_total(parts.take(i), g) <= adjusted_total(parts, g),
    decreases parts.len() - i,
{
    if i < parts.len() {
        assert(parts.take(i + 1).drop_last() =~= parts.take(i));
        assert(adjusted_total(parts.take(i + 1), g) == adjusted_total(parts.take(i), g) + (
        parts[i] as nat) / g);
        lemma_total_prefix(parts, g, i + 1);
    } else {
        assert(parts.take(i) =~= parts);
    }
}

proof fn lemma_weighted_prefix(values: Seq<u16>, parts: Seq<u64>, g: nat, i: int)
    requires
        0 <= i <= parts.len(),
        values.len() == parts.len(),
        g >= 1,
    ensures
        weighted_sum(values.take(i), parts.take(i), g) <= weighted_sum(values, parts, g),
    decreases parts.len() - i,
{
    if i < parts.len() {
        assert(parts.take(i + 1).drop_last() =~= parts.take(i));
        assert(values.take(i + 1).drop_last() =~= values.take(i));
        lemma_weighted_prefix(values, parts, g, i + 1);
    } else {
        assert(parts.take(i) =~= parts);
        assert(values.take(i) =~= values);
    }
}

/// With `g` at least 1, no reduced part exceeds `u64::MAX`.
proof fn lemma_total_bound(parts: Seq<u64>, g: nat)
    requires
        g >= 1,
    ensures
        adjusted_total(parts, g) <= parts.len() * (u64::MAX as int),
    decreases parts.len(),
{
    if parts.len() > 0 {
        lemma_total_bound(parts.drop_last(), g);
        vstd::arithmetic::div_mod::lemma_div_is_ordered_by_denominator(parts.last() as int, 1, g as int);
        vstd::arithmetic::div_mod::lemma_div_basics(parts.last() as int);
        vstd::arithmetic::mul::lemma_mul_is_distributive_add_other_way(
            u64::MAX as int,
            parts.len() - 1,
            1,
        );
    }
}

/// A weighted sum of 16-bit values is at most `u16::MAX` times the total
/// of the weights.
proof fn lemma_weighted_bound(values: Seq<u16>, parts: Seq<u64>, g: nat)
    requires
        values.len() == parts.len(),
        g >= 1,
    ensures
        weighted_sum(values, parts, g) <= (u16::MAX as int) * adjusted_total(parts, g),
    decreases parts.len(),
{
    if parts.len() > 0 {
        lemma_weighted_bound(values.drop_last(), parts.drop_last(), g);
        let q = (parts.last() as nat) / g;
        vstd::arithmetic::mul::lemma_mul_inequality(values.last() as int, u16::MAX as int, q as int);
        vstd::arithmetic::mul::lemma_mul_is_distributive_add(
            u16::MAX as int,
            adjusted_total(parts.drop_last(), g) as int,
            q as int,
        );
    }
}

/// A quotient of a number at most `m * t` by `t`, taken twice, is at most
/// `m`.
proof fn lemma_twice_divided_bound(x: nat, m: nat, t: nat)
    requires
        t >= 1,
        x <= m * t,
    ensures
        x / t / t <= m,
{
    vstd::arithmetic::div_mod::lemma_div_is_ordered(x as int, (m * t) as int, t as int);
    vstd::arithmetic::mul::lemma_mul_is_commutative(m as int, t as int);
    vstd::arithmetic::div_mod::lemma_div_multiples_vanish(m as int, t as int);
    vstd::arithmetic::div_mod::lemma_div_is_ordered_by_denominator((x / t) as int, 1, t as int);
    vstd::arithmetic::div_mod::lemma_div_basics((x / t) as int);
}

/// The parts divided by `g`.
pub open spec fn adjusted_parts(parts: Seq<u64>, g: nat) -> Seq<u64> {
    parts.map_values(|p: u64| (p as nat / g) as u64)
}

// ---------------------------------------------------------------------------
// Paints and mixtures

/// A paint in a mixture: a paint of a series, or an earlier mixture.
#[derive(Debug)]
pub enum Paint {
    Series(Rc<SeriesPaint>),
    Mixed(Rc<TargetedMixture>),
}

/// A mixture of paints, mixed to match a target colour.
#[derive(Debug)]
pub struct TargetedMixture {
    colour: Rgb16,
    targeted_colour: Option<Rgb16>,
    id: String,
    name: String,
    notes: String,
    components: Vec<(Paint, u64)>,
}

impl Paint {
    /// The paint's id.
    pub open spec fn spec_id(&self) -> Seq<char> {
        match self {
            Paint::Series(paint) => paint.spec_id(),
            Paint::Mixed(mixture) => mixture.spec_id(),
        }
    }

    /// The paint's colour.
    pub open spec fn spec_rgb(&self) -> Rgb16 {
        match self {
            Paint::Series(paint) => paint.spec_rgb(),
            Paint::Mixed(mixture) => mixture.spec_colour(),
        }
    }

    pub fn id(&self) -> (r: &str)
        ensures
            r@ == self.spec_id(),
    {
        match self {
            Paint::Series(paint) => paint.id(),
            Paint::Mixed(mixture) => mixture.id(),
        }
    }

    pub fn rgb(&self) -> (r: Rgb16)
        ensures
            r == self.spec_rgb(),
    {
        match self {
            Paint::Series(paint) => paint.rgb(),
            Paint::Mixed(mixture) => mixture.colour(),
        }
    }

    /// The name as the paint answers it: that of a series paint where it
    /// is not empty; that of a mixture where it is empty.
    pub open spec fn spec_name(&self) -> Option<Seq<char>> {
        match self {
            Paint::Series(paint) => non_empty(paint.spec_name()),
            Paint::Mixed(mixture) => if mixture.spec_name().len() == 0 {
                Some(mixture.spec_name())
            } else {
                None
            },
        }
    }

    /// The notes as the paint answers them: those of a series paint where
    /// they are not empty; those of a mixture where they are empty.
    pub open spec fn spec_notes(&self) -> Option<Seq<char>> {
        match self {
            Paint::Series(paint) => non_empty(paint.spec_notes()),
            Paint::Mixed(mixture) => if mixture.spec_notes().len() == 0 {
                Some(mixture.spec_notes())
            } else {
                None
            },
        }
    }

    /// The name of the paint, as the paint itself answers it.
    pub fn name(&self) -> (r: Option<&str>)
        ensures
            match r {
                Some(name) => self.spec_name() == Some(name@),
                None => self.spec_name() is None,
            },
    {
        match self {
            Paint::Series(paint) => paint.name(),
            Paint::Mixed(mixture) => mixture.name(),
        }
    }

    /// The notes of the paint, as the paint itself answers them.
    pub fn notes(&self) -> (r: Option<&str>)
        ensures
            match r {
                Some(notes) => self.spec_notes() == Some(notes@),
                None => self.spec_notes() is None,
            },
    {
        match self {
            Paint::Series(paint) => paint.notes(),
            Paint::Mixed(mixture) => mixture.notes(),
        }
    }

    /// Another handle on the same paint.
    pub fn share(&self) -> (r: Paint)
        ensures
            r == *self,
    {
        match self {
            Paint::Series(paint) => Paint::Series(clone_rc(paint)),
            Paint::Mixed(mixture) => Paint::Mixed(clone_rc(mixture)),
        }
    }
}

impl PartialEq for Paint {
    fn eq(&self, other: &Paint) -> (r: bool) {
        match (self, other) {
            (Paint::Series(a), Paint::Series(b)) => **a == **b,
            (Paint::Mixed(a), Paint::Mixed(b)) => **a == **b,
            _ => false,
        }
    }
}

impl vstd::std_specs::cmp::PartialEqSpecImpl for Paint {
    open spec fn obeys_eq_spec() -> bool {
        true
    }

    open spec fn eq_spec(&self, other: &Paint) -> bool {
        match (self, other) {
            (Paint::Series(a), Paint::Series(b)) => a.spec_id() == b.spec_id()
                && a.spec_series_id().spec_proprietor() == b.spec_series_id().spec_proprietor()
                && a.spec_series_id().spec_series_name() == b.spec_series_id().spec_series_name(),
            (Paint::Mixed(a), Paint::Mixed(b)) => a.spec_id() == b.spec_id(),
            _ => false,
        }
    }
}

/// The label of a mixture: `Mix`, its id, a colon, and then its name where
/// that is empty, or else its notes where they are empty, or else its
/// colour.
pub open spec fn mixture_label(id: Seq<char>, name: Seq<char>, notes: Seq<char>, colour: Rgb16) -> Seq<
    char,
> {
    if name.len() == 0 {
        "Mix "@ + id + ": "@ + name
    } else if notes.len() == 0 {
        "Mix "@ + id + ": "@ + notes
    } else {
        "Mix "@ + id + ": "@ + colour.spec_pango_string()
    }
}

impl TargetedMixture {
    /// Whether the mixture is as building makes it: it has components,
    /// each with parts, the parts have no common divisor but 1, and the
    /// series paints come before the mixtures.
    pub open spec fn is_reduced(&self) -> bool {
        let parts = parts_of(self.spec_components());
        &&& parts.len() > 0
        &&& forall|i: int| 0 <= i < parts.len() ==> #[trigger] parts[i] > 0
        &&& gcd_all(parts) == 1
        &&& series_first(self.spec_components())
    }

    #[verifier::type_invariant]
    spec fn well_formed(self) -> bool {
        self.is_reduced()
    }

    pub closed spec fn spec_colour(&self) -> Rgb16 {
        self.colour
    }

    pub closed spec fn spec_targeted_colour(&self) -> Option<Rgb16> {
        self.targeted_colour
    }

    pub closed spec fn spec_id(&self) -> Seq<char> {
        self.id@
    }

    pub closed spec fn spec_name(&self) -> Seq<char> {
        self.name@
    }

    pub closed spec fn spec_notes(&self) -> Seq<char> {
        self.notes@
    }

    /// The paints of the mixture, with their parts.
    pub closed spec fn spec_components(&self) -> Seq<(Paint, u64)> {
        self.components@
    }

    /// The colour of the mixture.
    pub fn colour(&self) -> (r: Rgb16)
        ensures
            r == self.spec_colour(),
    {
        self.colour
    }

    /// The colour that the mixture was mixed to match.
    pub fn targeted_colour(&self) -> (r: Option<Rgb16>)
        ensures
            r == self.spec_targeted_colour(),
    {
        self.targeted_colour
    }

    /// The id under which the target colour is shown: `TARGET(` id `)`.
    pub fn targeted_rgb_id(&self) -> (r: String)
        ensures
            r@ == "TARGET("@ + self.spec_id() + ")"@,
    {
        let mut r = String::new();
        r.append("TARGET(");
        r.append(self.id.as_str());
        r.append(")");
        assert(r@ =~= "TARGET("@ + self.spec_id() + ")"@);
        r
    }

    /// The paints of the mixture, with their parts.
    pub fn components(&self) -> (r: &Vec<(Paint, u64)>)
        ensures
            r@ == self.spec_components(),
    {
        &self.components
    }

    pub fn id(&self) -> (r: &str)
        ensures
            r@ == self.spec_id(),
    {
        self.id.as_str()
    }

    /// The name as a mixture answers it: `Some` of the name where the name
    /// is empty, `None` where it is not.
    pub fn name(&self) -> (r: Option<&str>)
        ensures
            match r {
                Some(name) => self.spec_name().len() == 0 && name@ == self.spec_name(),
                None => self.spec_name().len() > 0,
            },
    {
        if self.name.as_str().is_empty() {
            Some(self.name.as_str())
        } else {
            None
        }
    }

    /// The notes as a mixture answers them: `Some` of the notes where they
    /// are empty, `None` where they are not.
    pub fn notes(&self) -> (r: Option<&str>)
        ensures
            match r {
                Some(notes) => self.spec_notes().len() == 0 && notes@ == self.spec_notes(),
                None => self.spec_notes().len() > 0,
            },
    {
        if self.notes.as_str().is_empty() {
            Some(self.notes.as_str())
        } else {
            None
        }
    }

    /// Compares two mixtures by id.
    pub fn compare(&self, other: &TargetedMixture) -> (r: IdOrder)
        ensures
            r == lex_order(self.spec_id(), other.spec_id()),
    {
        compare_strs(self.id.as_str(), other.id.as_str())
    }

    pub open spec fn spec_label(&self) -> Seq<char> {
        mixture_label(self.spec_id(), self.spec_name(), self.spec_notes(), self.spec_colour())
    }

    /// The tooltip of a mixture: its label, and a line break followed by its
    /// notes where `notes` answers them (that is, where they are empty).
    pub open spec fn spec_tooltip(&self) -> Seq<char> {
        if self.spec_notes().len() == 0 {
            self.spec_label() + seq!['\n'] + self.spec_notes()
        } else {
            self.spec_label()
        }
    }
}

impl Keyed for TargetedMixture {
    open spec fn spec_key(&self) -> Seq<char> {
        self.spec_id()
    }

    fn key(&self) -> (r: &str) {
        self.id.as_str()
    }
}

impl PartialEq for TargetedMixture {
    fn eq(&self, other: &TargetedMixture) -> (r: bool) {
        self.id == other.id
    }
}

impl vstd::std_specs::cmp::PartialEqSpecImpl for TargetedMixture {
    open spec fn obeys_eq_spec() -> bool {
        true
    }

    open spec fn eq_spec(&self, other: &TargetedMixture) -> bool {
        self.spec_id() == other.spec_id()
    }
}

impl LabelText for TargetedMixture {
    fn label_text(&self) -> (r: String)
        ensures
            r@ == self.spec_label(),
    {
        let mut r = String::new();
        r.append("Mix ");
        r.append(self.id.as_str());
        r.append(": ");
        if let Some(name) = self.name() {
            r.append(name);
        } else if let Some(notes) = self.notes() {
            r.append(notes);
        } else {
            let colour = self.colour.pango_string();
            r.append(colour.as_str());
        }
        assert(r@ =~= self.spec_label());
        r
    }
}

impl TooltipText for TargetedMixture {
    fn tooltip_text(&self) -> (r: String)
        ensures
            r@ == self.spec_tooltip(),
    {
        let mut string = self.label_text();
        if let Some(notes) = self.notes() {
            push_char(&mut string, '\n');
            string.append(notes);
        }
        assert(string@ =~= self.spec_tooltip());
        string
    }
}

/// The parts of mixture components, in order.
pub open spec fn parts_of(components: Seq<(Paint, u64)>) -> Seq<u64> {
    components.map_values(|c: (Paint, u64)| c.1)
}

/// The red (0), green (1) or blue (2) components of the colours of mixture
/// components, in order.
pub open spec fn channel_of(components: Seq<(Paint, u64)>, channel: int) -> Seq<u16> {
    components.map_values(
        |c: (Paint, u64)|
            if channel == 0 {
                c.0.spec_rgb().red
            } else if channel == 1 {
                c.0.spec_rgb().green
            } else {
                c.0.spec_rgb().blue
            },
    )
}

/// A channel of the colour mixed from `components`: the channel of the
/// paints' colours, weighted by their parts divided by the parts' greatest
/// common divisor, divided by the total of those reduced parts, and then
/// divided by that total once more.
pub open spec fn mixed_channel(components: Seq<(Paint, u64)>, channel: int) -> nat {
    let parts = parts_of(components);
    let g = gcd_all(parts);
    let total = adjusted_total(parts, g);
    weighted_sum(channel_of(components, channel), parts, g) / total / total
}

/// Whether no series paint comes after a mixture among the components.
pub open spec fn series_first(components: Seq<(Paint, u64)>) -> bool {
    forall|i: int, j: int|
        0 <= i < j < components.len() && (#[trigger] components[i]).0 is Mixed ==> (
        #[trigger] components[j]).0 is Mixed
}

/// Whether `mixture` is what building from the id, name, notes, target and
/// components gives: those, its colour mixed from the components, and the
/// components with their parts divided by the parts' greatest common
/// divisor.
pub open spec fn is_built(
    mixture: TargetedMixture,
    id: Seq<char>,
    name: Seq<char>,
    notes: Seq<char>,
    targeted_colour: Option<Rgb16>,
    components: Seq<(Paint, u64)>,
) -> bool {
    let g = gcd_all(parts_of(components));
    &&& mixture.spec_id() == id
    &&& mixture.spec_name() == name
    &&& mixture.spec_notes() == notes
    &&& mixture.spec_targeted_colour() == targeted_colour
    &&& mixture.spec_colour().red == mixed_channel(components, 0)
    &&& mixture.spec_colour().green == mixed_channel(components, 1)
    &&& mixture.spec_colour().blue == mixed_channel(components, 2)
    &&& mixture.spec_components().len() == components.len()
    &&& forall|i: int|
        0 <= i < components.len() ==> (#[trigger] mixture.spec_components()[i]).0
            == components[i].0 && mixture.spec_components()[i].1 == (components[i].1 as nat
            / g) as u64
}

/// A mixture of one paint has that paint's colour, and its one component
/// is left with a single part.
pub proof fn law_mixing_one_paint(paint: Paint, parts: u64)
    requires
        parts > 0,
    ensures
        mixed_channel(seq![(paint, parts)], 0) == paint.spec_rgb().red,
        mixed_channel(seq![(paint, parts)], 1) == paint.spec_rgb().green,
        mixed_channel(seq![(paint, parts)], 2) == paint.spec_rgb().blue,
        gcd_all(parts_of(seq![(paint, parts)])) == parts,
        (parts as nat) / gcd_all(parts_of(seq![(paint, parts)])) == 1,
{
    let comps = seq![(paint, parts)];
    let ps = parts_of(comps);
    assert(ps.drop_last() =~= Seq::<u64>::empty());
    assert(ps.last() == parts);
    vstd::arithmetic::div_mod::lemma_small_mod(0, parts as nat);
    assert(spec_gcd(parts as nat, 0) == parts);
    assert(gcd_all(ps.drop_last()) == 0);
    assert(spec_gcd(0, parts as nat) == spec_gcd(parts as nat, 0nat));
    assert(gcd_all(ps) == parts);
    vstd::arithmetic::div_mod::lemma_div_by_self(parts as int);
    assert(adjusted_total(ps.drop_last(), parts as nat) == 0);
    assert(adjusted_total(ps, parts as nat) == 1);
    assert forall|c: int| 0 <= c < 3 implies #[trigger] mixed_channel(comps, c) == channel_of(comps, c)[0] by {
        let values = channel_of(comps, c);
        assert(values.drop_last() =~= Seq::<u16>::empty());
        assert(values.last() == values[0]);
        assert(weighted_sum(values.drop_last(), ps.drop_last(), parts as nat) == 0);
        assert(weighted_sum(values, ps, parts as nat) == values[0] * 1);
        vstd::arithmetic::div_mod::lemma_div_basics(values[0] as int);
    }
    assert(mixed_channel(comps, 0) == channel_of(comps, 0)[0]);
    assert(mixed_channel(comps, 1) == channel_of(comps, 1)[0]);
    assert(mixed_channel(comps, 2) == channel_of(comps, 2)[0]);
}

// ---------------------------------------------------------------------------
// Building mixtures

/// Collects what a mixture is made of, and builds it.
#[derive(Debug)]
pub struct MixtureBuilder {
    id: String,
    name: String,
    notes: String,
    series_components: Vec<(Rc<SeriesPaint>, u64)>,
    mixture_components: Vec<(Rc<TargetedMixture>, u64)>,
    targeted_colour: Option<Rgb16>,
}

impl MixtureBuilder {
    pub closed spec fn spec_id(&self) -> Seq<char> {
        self.id@
    }

    pub closed spec fn spec_name(&self) -> Seq<char> {
        self.name@
    }

    pub closed spec fn spec_notes(&self) -> Seq<char> {
        self.notes@
    }

    pub closed spec fn spec_targeted_colour(&self) -> Option<Rgb16> {
        self.targeted_colour
    }

    pub closed spec fn spec_series_components(&self) -> Seq<(Rc<SeriesPaint>, u64)> {
        self.series_components@
    }

    pub closed spec fn spec_mixture_components(&self) -> Seq<(Rc<TargetedMixture>, u64)> {
        self.mixture_components@
    }

    /// The components in the order in which they are mixed: the series
    /// paints, then the mixtures.
    pub open spec fn spec_components(&self) -> Seq<(Paint, u64)> {
        self.spec_series_components().map_values(
            |c: (Rc<SeriesPaint>, u64)| (Paint::Series(c.0), c.1),
        ) + self.spec_mixture_components().map_values(
            |c: (Rc<TargetedMixture>, u64)| (Paint::Mixed(c.0), c.1),
        )
    }

    /// The parts of the components, in order.
    pub open spec fn spec_parts(&self) -> Seq<u64> {
        parts_of(self.spec_components())
    }

    /// The greatest common divisor of the parts.
    pub open spec fn spec_gcd(&self) -> nat {
        gcd_all(self.spec_parts())
    }

    /// The red, green or blue components of the paints' colours.
    pub open spec fn spec_channel(&self, channel: int) -> Seq<u16> {
        channel_of(self.spec_components(), channel)
    }

    /// A builder for a mixture with the given id and nothing else.
    pub fn new(id: &str) -> (r: MixtureBuilder)
        ensures
            r.spec_id() == id@,
            r.spec_name() == Seq::<char>::empty(),
            r.spec_notes() == Seq::<char>::empty(),
            r.spec_targeted_colour() is None,
            r.spec_series_components() == Seq::<(Rc<SeriesPaint>, u64)>::empty(),
            r.spec_mixture_components() == Seq::<(Rc<TargetedMixture>, u64)>::empty(),
    {
        MixtureBuilder {
            id: copy_string(id),
            name: String::new(),
            notes: String::new(),
            series_components: Vec::new(),
            mixture_components: Vec::new(),
            targeted_colour: None,
        }
    }

    pub fn name(&mut self, name: &str) -> (r: &mut MixtureBuilder)
        ensures
            r.spec_name() == name@,
            r.spec_id() == old(self).spec_id(),
            r.spec_notes() == old(self).spec_notes(),
            r.spec_targeted_colour() == old(self).spec_targeted_colour(),
            r.spec_series_components() == old(self).spec_series_components(),
            r.spec_mixture_components() == old(self).spec_mixture_components(),
            *final(self) == *final(r),
    {
        self.name = copy_string(name);
        self
    }

    pub fn notes(&mut self, notes: &str) -> (r: &mut MixtureBuilder)
        ensures
            r.spec_notes() == notes@,
            r.spec_id() == old(self).spec_id(),
            r.spec_name() == old(self).spec_name(),
            r.spec_targeted_colour() == old(self).spec_targeted_colour(),
            r.spec_series_components() == old(self).spec_series_components(),
            r.spec_mixture_components() == old(self).spec_mixture_components(),
            *final(self) == *final(r),
    {
        self.notes = copy_string(notes);
        self
    }

    /// Sets the colour that the mixture is to match.
    pub fn targeted_colour(&mut self, colour: &Rgb16) -> (r: &mut MixtureBuilder)
        ensures
            r.spec_targeted_colour() == Some(*colour),
            r.spec_id() == old(self).spec_id(),
            r.spec_name() == old(self).spec_name(),
            r.spec_notes() == old(self).spec_notes(),
            r.spec_series_components() == old(self).spec_series_components(),
            r.spec_mixture_components() == old(self).spec_mixture_components(),
            *final(self) == *final(r),
    {
        self.targeted_colour = Some(*colour);
        self
    }

    /// Sets the series paints of the mixture, with their parts.
    pub fn series_paint_components(&mut self, components: Vec<(Rc<SeriesPaint>, u64)>) -> (r:
        &mut MixtureBuilder)
        ensures
            r.spec_series_components() == components@,
            r.spec_id() == old(self).spec_id(),
            r.spec_name() == old(self).spec_name(),
            r.spec_notes() == old(self).spec_notes(),
            r.spec_targeted_colour() == old(self).spec_targeted_colour(),
            r.spec_mixture_components() == old(self).spec_mixture_components(),
            *final(self) == *final(r),
    {
        self.series_components = components;
        self
    }

    /// Adds a series paint to the mixture, with its parts.
    pub fn series_paint_component(&mut self, component: (Rc<SeriesPaint>, u64)) -> (r:
        &mut MixtureBuilder)
        ensures
            r.spec_series_components() == old(self).spec_series_components().push(component),
            r.spec_id() == old(self).spec_id(),
            r.spec_name() == old(self).spec_name(),
            r.spec_notes() == old(self).spec_notes(),
            r.spec_targeted_colour() == old(self).spec_targeted_colour(),
            r.spec_mixture_components() == old(self).spec_mixture_components(),
            *final(self) == *final(r),
    {
        self.series_components.push(component);
        self
    }

    /// Sets the mixtures that go into the mixture, with their parts.
    pub fn mixed_paint_components(&mut self, components: Vec<(Rc<TargetedMixture>, u64)>) -> (r:
        &mut MixtureBuilder)
        ensures
            r.spec_mixture_components() == components@,
            r.spec_id() == old(self).spec_id(),
            r.spec_name() == old(self).spec_name(),
            r.spec_notes() == old(self).spec_notes(),
            r.spec_targeted_colour() == old(self).spec_targeted_colour(),
            r.spec_series_components() == old(self).spec_series_components(),
            *final(self) == *final(r),
    {
        self.mixture_components = components;
        self
    }

    /// Adds a mixture to the mixture, with its parts.
    pub fn mixed_paint_component(&mut self, component: (Rc<TargetedMixture>, u64)) -> (r:
        &mut MixtureBuilder)
        ensures
            r.spec_mixture_components() == old(self).spec_mixture_components().push(component),
            r.spec_id() == old(self).spec_id(),
            r.spec_name() == old(self).spec_name(),
            r.spec_notes() == old(self).spec_notes(),
            r.spec_targeted_colour() == old(self).spec_targeted_colour(),
            r.spec_series_components() == old(self).spec_series_components(),
            *final(self) == *final(r),
    {
        self.mixture_components.push(component);
        self
    }

    /// The components, in the order in which they are mixed.
    fn entries(&self) -> (r: Vec<(Paint, u64)>)
        ensures
            r@ == self.spec_components(),
    {
        let mut entries: Vec<(Paint, u64)> = Vec::new();
        let ns = self.series_components.len();
        let mut i: usize = 0;
        while i < ns
            invariant
                ns == self.series_components.len(),
                0 <= i <= ns,
                entries@ == self.spec_series_components().take(i as int).map_values(
                    |c: (Rc<SeriesPaint>, u64)| (Paint::Series(c.0), c.1),
                ),
            decreases ns - i,
        {
            let (paint, parts) = &self.series_components[i];
            entries.push((Paint::Series(clone_rc(paint)), *parts));
            assert(self.spec_series_components().take(i + 1) =~= self.spec_series_components().take(
                i as int,
            ).push(self.spec_series_components()[i as int]));
            i = i + 1;
        }
        assert(self.spec_series_components().take(ns as int) =~= self.spec_series_components());
        let ghost first = entries@;
        let nm = self.mixture_components.len();
        let mut j: usize = 0;
        while j < nm
            invariant
                nm == self.mixture_components.len(),
                0 <= j <= nm,
                entries@ == first + self.spec_mixture_components().take(j as int).map_values(
                    |c: (Rc<TargetedMixture>, u64)| (Paint::Mixed(c.0), c.1),
                ),
            decreases nm - j,
        {
            let (paint, parts) = &self.mixture_components[j];
            entries.push((Paint::Mixed(clone_rc(paint)), *parts));
            assert(self.spec_mixture_components().take(j + 1) =~= self.spec_mixture_components().take(
                j as int,
            ).push(self.spec_mixture_components()[j as int]));
            j = j + 1;
        }
        assert(self.spec_mixture_components().take(nm as int) =~= self.spec_mixture_components());
        assert(entries@ =~= self.spec_components());
        entries
    }

    /// The mixture: its components with their parts divided by the parts'
    /// greatest common divisor, and its colour mixed from theirs.
    pub fn build(&self) -> (r: Rc<TargetedMixture>)
        requires
            self.spec_components().len() > 0,
            forall|i: int|
                0 <= i < self.spec_components().len() ==> #[trigger] self.spec_components()[i].1
                    > 0,
            self.spec_components().len() <= 0xFFFF_FFFF_FFFF,
        ensures
            is_built(
                *r,
                self.spec_id(),
                self.spec_name(),
                self.spec_notes(),
                self.spec_targeted_colour(),
                self.spec_components(),
            ),
            r.is_reduced(),
    {
        let entries = self.entries();
        let ghost parts = self.spec_parts();
        let n = entries.len();
        assert(parts.len() == n);
        assert forall|i: int| 0 <= i < parts.len() implies parts[i] > 0 by {
            assert(parts[i] == self.spec_components()[i].1);
        }
        let mut g: u128 = 0;
        let mut i: usize = 0;
        while i < n
            invariant
                n == entries.len(),
                entries@ == self.spec_components(),
                parts == self.spec_parts(),
                parts.len() == n,
                0 <= i <= n,
                g == gcd_all(parts.take(i as int)),
            decreases n - i,
        {
            assert(parts.take(i + 1).drop_last() =~= parts.take(i as int));
            assert(parts[i as int] == entries@[i as int].1);
            g = gcd_u128(g, entries[i].1 as u128);
            i = i + 1;
        }
        assert(parts.take(n as int) =~= parts);
        proof {
            lemma_gcd_all_positive(parts);
            lemma_gcd_all_le(parts, n - 1);
        }
        let ghost gg = g as nat;
        let ghost reds = self.spec_channel(0);
        let ghost greens = self.spec_channel(1);
        let ghost blues = self.spec_channel(2);
        proof {
            lemma_total_bound(parts, gg);
            lemma_weighted_bound(reds, parts, gg);
            lemma_weighted_bound(greens, parts, gg);
            lemma_weighted_bound(blues, parts, gg);
            vstd::arithmetic::mul::lemma_mul_upper_bound(
                n as int,
                0xFFFF_FFFF_FFFFint,
                u64::MAX as int,
                u64::MAX as int,
            );
            vstd::arithmetic::mul::lemma_mul_upper_bound(
                u16::MAX as int,
                u16::MAX as int,
                adjusted_total(parts, gg) as int,
                (0xFFFF_FFFF_FFFFint) * (u64::MAX as int),
            );
            assert((u16::MAX as int) * ((0xFFFF_FFFF_FFFFint) * (u64::MAX as int)) <= u128::MAX)
                by (nonlinear_arith);
        }
        let mut total: u128 = 0;
        let mut red_sum: u128 = 0;
        let mut green_sum: u128 = 0;
        let mut blue_sum: u128 = 0;
        let mut components: Vec<(Paint, u64)> = Vec::new();
        let mut k: usize = 0;
        while k < n
            invariant
                n == entries.len(),
                entries@ == self.spec_components(),
                parts == self.spec_parts(),
                parts.len() == n,
                reds == self.spec_channel(0),
                greens == self.spec_channel(1),
                blues == self.spec_channel(2),
                gg == g,
                gg == self.spec_gcd(),
                1 <= gg,
                adjusted_total(parts, gg) <= u128::MAX,
                weighted_sum(reds, parts, gg) <= u128::MAX,
                weighted_sum(greens, parts, gg) <= u128::MAX,
                weighted_sum(blues, parts, gg) <= u128::MAX,
                0 <= k <= n,
                total == adjusted_total(parts.take(k as int), gg),
                red_sum == weighted_sum(reds.take(k as int), parts.take(k as int), gg),
                green_sum == weighted_sum(greens.take(k as int), parts.take(k as int), gg),
                blue_sum == weighted_sum(blues.take(k as int), parts.take(k as int), gg),
                components.len() == k,
                forall|j: int|
                    0 <= j < k ==> (#[trigger] components@[j]).0 == self.spec_components()[j].0
                        && components@[j].1 == (self.spec_components()[j].1 as nat / gg) as u64,
            decreases n - k,
        {
            let (paint, parts_k) = &entries[k];
            let adjusted = (*parts_k as u128) / g;
            let rgb = paint.rgb();
            proof {
                assert(parts.take(k + 1).drop_last() =~= parts.take(k as int));
                assert(reds.take(k + 1).drop_last() =~= reds.take(k as int));
                assert(greens.take(k + 1).drop_last() =~= greens.take(k as int));
                assert(blues.take(k + 1).drop_last() =~= blues.take(k as int));
                assert(parts[k as int] == *parts_k);
                assert(reds[k as int] == rgb.red);
                assert(greens[k as int] == rgb.green);
                assert(blues[k as int] == rgb.blue);
                lemma_total_prefix(parts, gg, k + 1);
                lemma_weighted_prefix(reds, parts, gg, k + 1);
                lemma_weighted_prefix(greens, parts, gg, k + 1);
                lemma_weighted_prefix(blues, parts, gg, k + 1);
            }
            total = total + adjusted;
            red_sum = red_sum + (rgb.red as u128) * adjusted;
            green_sum = green_sum + (rgb.green as u128) * adjusted;
            blue_sum = blue_sum + (rgb.blue as u128) * adjusted;
            components.push((paint.share(), adjusted as u64));
            k = k + 1;
        }
        assert(parts.take(n as int) =~= parts);
        assert(reds.take(n as int) =~= reds);
        assert(greens.take(n as int) =~= greens);
        assert(blues.take(n as int) =~= blues);
        proof {
            assert(parts.last() >= gg);
            vstd::arithmetic::div_mod::lemma_div_by_self(gg as int);
            vstd::arithmetic::div_mod::lemma_div_is_ordered(gg as int, parts.last() as int, gg as int);
            assert(adjusted_total(parts, gg) == adjusted_total(parts.drop_last(), gg) + (
            parts.last() as nat) / gg);
            assert(total >= 1);
            lemma_twice_divided_bound(red_sum as nat, u16::MAX as nat, total as nat);
            lemma_twice_divided_bound(green_sum as nat, u16::MAX as nat, total as nat);
            lemma_twice_divided_bound(blue_sum as nat, u16::MAX as nat, total as nat);
        }
        let colour = Rgb16 {
            red: (red_sum / total / total) as u16,
            green: (green_sum / total / total) as u16,
            blue: (blue_sum / total / total) as u16,
        };
        proof {
            lemma_reduced_gcd_one(parts);
            assert(parts_of(components@) =~= adjusted_parts(parts, gg));
            let sc = self.spec_components();
            let ns = self.spec_series_components().len() as int;
            assert forall|a: int, b: int|
                0 <= a < b < components@.len() && (#[trigger] components@[a]).0 is Mixed implies (
            #[trigger] components@[b]).0 is Mixed by {
                if b < ns {
                    assert(sc[a].0 is Series);
                }
            }
        }
        let mixture = TargetedMixture {
            colour,
            targeted_colour: self.targeted_colour,
            id: copy_string(self.id.as_str()),
            name: copy_string(self.name.as_str()),
            notes: copy_string(self.notes.as_str()),
            components,
        };
        Rc::new(mixture)
    }
}


// ---------------------------------------------------------------------------
// Mixing sessions

/// The series paints among mixture components, in order.
pub open spec fn component_series_paints(components: Seq<(Paint, u64)>) -> Seq<Rc<SeriesPaint>>
    decreases components.len(),
{
    if components.len() == 0 {
        Seq::empty()
    } else {
        let init = component_series_paints(components.drop_last());
        match components.last().0 {
            Paint::Series(paint) => init.push(paint),
            Paint::Mixed(_) => init,
        }
    }
}

/// The series paints among the components of `mixtures`, mixture by
/// mixture, in order.
pub open spec fn session_series_paints(mixtures: Seq<Rc<TargetedMixture>>) -> Seq<
    Rc<SeriesPaint>,
>
    decreases mixtures.len(),
{
    if mixtures.len() == 0 {
        Seq::empty()
    } else {
        session_series_paints(mixtures.drop_last()) + component_series_paints(
            mixtures.last().spec_components(),
        )
    }
}

/// A session of mixing: notes, and the mixtures made, sorted by id.
#[derive(Debug)]
pub struct MixingSession {
    notes: String,
    mixtures: Vec<Rc<TargetedMixture>>,
}

impl MixingSession {
    #[verifier::type_invariant]
    spec fn well_formed(self) -> bool {
        &&& sorted_unique(self.mixtures@)
        &&& forall|i: int| 0 <= i < self.mixtures@.len() ==> (#[trigger] self.mixtures@[i]).is_reduced()
    }

    pub closed spec fn spec_notes(&self) -> Seq<char> {
        self.notes@
    }

    /// The mixtures, sorted by id with no id twice.
    pub closed spec fn spec_mixtures(&self) -> Seq<Rc<TargetedMixture>> {
        self.mixtures@
    }

    /// A session with no notes and no mixtures.
    pub fn new() -> (r: MixingSession)
        ensures
            r.spec_notes() == Seq::<char>::empty(),
            r.spec_mixtures() == Seq::<Rc<TargetedMixture>>::empty(),
    {
        MixingSession { notes: String::new(), mixtures: Vec::new() }
    }

    pub fn notes(&self) -> (r: &str)
        ensures
            r@ == self.spec_notes(),
    {
        self.notes.as_str()
    }

    pub fn set_notes(&mut self, notes: &str)
        ensures
            final(self).spec_notes() == notes@,
            final(self).spec_mixtures() == old(self).spec_mixtures(),
    {
        proof {
            use_type_invariant(&*self);
        }
        self.notes = copy_string(notes);
    }

    /// The mixtures, sorted by id.
    pub fn mixtures(&self) -> (r: &Vec<Rc<TargetedMixture>>)
        ensures
            r@ == self.spec_mixtures(),
            sorted_unique(r@),
            forall|i: int| 0 <= i < r@.len() ==> (#[trigger] r@[i]).is_reduced(),
    {
        proof {
            use_type_invariant(self);
        }
        &self.mixtures
    }

    /// The series paints that the mixtures use, each once, sorted by id:
    /// each is kept where it first comes, mixture by mixture.
    pub fn series_paints(&self) -> (r: Vec<Rc<SeriesPaint>>)
        ensures
            r@ == spec_insert_all_new(
                Seq::<Rc<SeriesPaint>>::empty(),
                session_series_paints(self.spec_mixtures()),
            ),
    {
        let mut v: Vec<Rc<SeriesPaint>> = Vec::new();
        let ghost mut seen: Seq<Rc<SeriesPaint>> = Seq::empty();
        let n = self.mixtures.len();
        let mut i: usize = 0;
        while i < n
            invariant
                n == self.mixtures.len(),
                0 <= i <= n,
                seen == session_series_paints(self.mixtures@.take(i as int)),
                v@ == spec_insert_all_new(Seq::<Rc<SeriesPaint>>::empty(), seen),
                sorted_unique(v@),
            decreases n - i,
        {
            let components = self.mixtures[i].components();
            let ghost comps = components@;
            let ghost before = seen;
            let m = components.len();
            let mut j: usize = 0;
            while j < m
                invariant
                    m == components.len(),
                    comps == components@,
                    0 <= j <= m,
                    seen == before + component_series_paints(comps.take(j as int)),
                    v@ == spec_insert_all_new(Seq::<Rc<SeriesPaint>>::empty(), seen),
                    sorted_unique(v@),
                decreases m - j,
            {
                assert(comps.take(j + 1).drop_last() =~= comps.take(j as int));
                assert(comps.take(j + 1).last() == comps[j as int]);
                match &components[j].0 {
                    Paint::Series(series_paint) => {
                        proof {
                            assert(seen.push(*series_paint).drop_last() =~= seen);
                            assert(before + component_series_paints(comps.take(j as int)).push(
                                *series_paint,
                            ) =~= seen.push(*series_paint));
                            seen = seen.push(*series_paint);
                        }
                        insert_new_by_key(&mut v, clone_rc(series_paint));
                    },
                    Paint::Mixed(_) => {},
                }
                j = j + 1;
            }
            proof {
                assert(comps.take(m as int) =~= comps);
                assert(self.mixtures@.take(i + 1).drop_last() =~= self.mixtures@.take(i as int));
                assert(self.mixtures@.take(i + 1).last() == self.mixtures@[i as int]);
            }
            i = i + 1;
        }
        assert(self.mixtures@.take(n as int) =~= self.mixtures@);
        v
    }

    /// Adds a mixture, in the place of the mixture with the same id if
    /// there is one, which it returns.
    pub fn add_mixture(&mut self, mixture: &Rc<TargetedMixture>) -> (r: Option<
        Rc<TargetedMixture>,
    >)
        ensures
            added(old(self).spec_mixtures(), *mixture, final(self).spec_mixtures(), r),
            final(self).spec_mixtures() == spec_add(old(self).spec_mixtures(), *mixture),
            final(self).spec_notes() == old(self).spec_notes(),
    {
        proof {
            use_type_invariant(&*self);
            use_type_invariant(&**mixture);
        }
        let mut list: Vec<Rc<TargetedMixture>> = Vec::new();
        std::mem::swap(&mut list, &mut self.mixtures);
        let ghost before = list@;
        let r = add_by_key(&mut list, clone_rc(mixture));
        proof {
            assert forall|i: int| 0 <= i < list@.len() implies (#[trigger] list@[i]).is_reduced() by {
                if list@[i] != *mixture {
                    assert(before.contains(list@[i]));
                }
            }
        }
        self.mixtures = list;
        r
    }

    /// The mixture with the given id, if there is one.
    pub fn mixture(&self, id: &str) -> (r: Option<&Rc<TargetedMixture>>)
        ensures
            match r {
                Some(mixture) => find_key(self.spec_mixtures(), id@) == Some(*mixture),
                None => find_key(self.spec_mixtures(), id@) is None,
            },
    {
        proof {
            use_type_invariant(self);
        }
        find_by_key(&self.mixtures, id)
    }

    /// Whether the mixtures are sorted by id with no id twice.
    pub fn is_sorted_unique(&self) -> (r: bool)
        ensures
            r == sorted_unique(self.spec_mixtures()),
    {
        is_sorted_unique_by_key(&self.mixtures)
    }
}

impl Default for MixingSession {
    fn default() -> (r: MixingSession)
        ensures
            r.spec_notes() == Seq::<char>::empty(),
            r.spec_mixtures() == Seq::<Rc<TargetedMixture>>::empty(),
    {
        MixingSession::new()
    }
}


// ---------------------------------------------------------------------------
// Saving and restoring sessions

/// How a paint in a mixture is saved: a series paint by its series' id and
/// its own id, a mixture by its id.
#[derive(Debug)]
pub enum SaveablePaint {
    Series(SeriesId, String),
    Mixed(String),
}

/// Whether `saved` is how `paint` is saved.
pub open spec fn saves_paint(saved: SaveablePaint, paint: Paint) -> bool {
    match (saved, paint) {
        (SaveablePaint::Series(series_id, id), Paint::Series(p)) => series_id == p.spec_series_id()
            && id@ == p.spec_id(),
        (SaveablePaint::Mixed(id), Paint::Mixed(m)) => id@ == m.spec_id(),
        _ => false,
    }
}

impl SaveablePaint {
    /// How a series paint is saved.
    pub fn from_series_paint(paint: &Rc<SeriesPaint>) -> (r: SaveablePaint)
        ensures
            saves_paint(r, Paint::Series(*paint)),
    {
        let series_id: &SeriesId = paint.series_id();
        SaveablePaint::Series(series_id.clone(), copy_string(paint.id()))
    }

    /// How a mixture is saved.
    pub fn from_mixture(mixture: &Rc<TargetedMixture>) -> (r: SaveablePaint)
        ensures
            saves_paint(r, Paint::Mixed(*mixture)),
    {
        SaveablePaint::Mixed(copy_string(mixture.id()))
    }

    /// How a paint is saved.
    pub fn from_paint(paint: &Paint) -> (r: SaveablePaint)
        ensures
            saves_paint(r, *paint),
    {
        match paint {
            Paint::Series(p) => SaveablePaint::from_series_paint(p),
            Paint::Mixed(m) => SaveablePaint::from_mixture(m),
        }
    }
}

/// How a mixture is saved: its target, id, name, notes, and its
/// components as saved paints with their parts.
#[derive(Debug)]
pub struct SaveableMixture {
    targeted_colour: Option<Rgb16>,
    id: String,
    name: String,
    notes: String,
    components: Vec<(SaveablePaint, u64)>,
}

/// Whether `saved` is how `mixture` is saved.
pub open spec fn saves_mixture(saved: SaveableMixture, mixture: TargetedMixture) -> bool {
    &&& saved.spec_targeted_colour() == mixture.spec_targeted_colour()
    &&& saved.spec_id() == mixture.spec_id()
    &&& saved.spec_name() == mixture.spec_name()
    &&& saved.spec_notes() == mixture.spec_notes()
    &&& saved.spec_components().len() == mixture.spec_components().len()
    &&& forall|i: int|
        0 <= i < saved.spec_components().len() ==> saves_paint(
            (#[trigger] saved.spec_components()[i]).0,
            mixture.spec_components()[i].0,
        ) && saved.spec_components()[i].1 == mixture.spec_components()[i].1
}

/// The saved components that name series paints, in order.
pub open spec fn saved_series(components: Seq<(SaveablePaint, u64)>) -> Seq<(SaveablePaint, u64)>
    decreases components.len(),
{
    if components.len() == 0 {
        Seq::empty()
    } else {
        let init = saved_series(components.drop_last());
        if components.last().0 is Series {
            init.push(components.last())
        } else {
            init
        }
    }
}

/// The saved components that name mixtures, in order.
pub open spec fn saved_mixed(components: Seq<(SaveablePaint, u64)>) -> Seq<(SaveablePaint, u64)>
    decreases components.len(),
{
    if components.len() == 0 {
        Seq::empty()
    } else {
        let init = saved_mixed(components.drop_last());
        if components.last().0 is Mixed {
            init.push(components.last())
        } else {
            init
        }
    }
}

/// Whether each saved component that names a mixture names one of
/// `earlier`.
pub open spec fn all_resolved(
    components: Seq<(SaveablePaint, u64)>,
    earlier: Seq<Rc<TargetedMixture>>,
) -> bool {
    forall|j: int|
        0 <= j < components.len() ==> match (#[trigger] components[j]).0 {
            SaveablePaint::Mixed(id) => has_key(earlier, id@),
            SaveablePaint::Series(_, _) => true,
        }
}

/// Whether the component at `j` names a mixture that `earlier` lacks,
/// `id`, and every component before it names a series paint or one of
/// `earlier`.
pub open spec fn first_unresolved(
    components: Seq<(SaveablePaint, u64)>,
    earlier: Seq<Rc<TargetedMixture>>,
    j: int,
    id: Seq<char>,
) -> bool {
    &&& 0 <= j < components.len()
    &&& components[j].0 matches SaveablePaint::Mixed(missing) && missing@ == id
    &&& !has_key(earlier, id)
    &&& all_resolved(components.take(j), earlier)
}

/// Whether `mixture` is restored from `saved`: its components are the
/// saved series paints, in order, and then the saved mixtures, in order,
/// each found among `earlier`; and it is built from them with their saved
/// parts, and from the saved id, name, notes and target.
pub open spec fn is_restored(
    mixture: TargetedMixture,
    saved: SaveableMixture,
    earlier: Seq<Rc<TargetedMixture>>,
) -> bool {
    let order = saved_series(saved.spec_components()) + saved_mixed(saved.spec_components());
    let components = mixture.spec_components();
    &&& components.len() == order.len()
    &&& forall|k: int|
        0 <= k < order.len() ==> match (#[trigger] order[k]).0 {
            SaveablePaint::Series(_, _) => components[k].0 is Series,
            SaveablePaint::Mixed(id) => has_key(earlier, id@) && components[k].0 == Paint::Mixed(
                find_key(earlier, id@).unwrap(),
            ),
        }
    &&& is_built(
        mixture,
        saved.spec_id(),
        saved.spec_name(),
        saved.spec_notes(),
        saved.spec_targeted_colour(),
        Seq::new(order.len(), |k: int| (components[k].0, order[k].1)),
    )
}

/// The saved series paints and the saved mixtures together are as many
/// as the components; the one are all series paints, the other all
/// mixtures.
proof fn lemma_saved_split(components: Seq<(SaveablePaint, u64)>)
    ensures
        saved_series(components).len() + saved_mixed(components).len() == components.len(),
        forall|k: int|
            0 <= k < saved_series(components).len() ==> (#[trigger] saved_series(
                components,
            )[k]).0 is Series,
        forall|k: int|
            0 <= k < saved_mixed(components).len() ==> (#[trigger] saved_mixed(
                components,
            )[k]).0 is Mixed,
    decreases components.len(),
{
    if components.len() > 0 {
        lemma_saved_split(components.drop_last());
    }
}

/// A prefix has no more saved series paints than the whole.
proof fn lemma_saved_series_prefix(components: Seq<(SaveablePaint, u64)>, j: int)
    requires
        0 <= j <= components.len(),
    ensures
        saved_series(components.take(j)).len() <= saved_series(components).len(),
    decreases components.len() - j,
{
    if j < components.len() {
        assert(components.take(j + 1).drop_last() =~= components.take(j));
        lemma_saved_series_prefix(components, j + 1);
    } else {
        assert(components.take(j) =~= components);
    }
}

/// Where no saved series paint comes after a saved mixture, the saved
/// series paints followed by the saved mixtures are the components as
/// they stand.
proof fn lemma_series_first_order(components: Seq<(SaveablePaint, u64)>)
    requires
        forall|i: int, j: int|
            0 <= i < j < components.len() && (#[trigger] components[i]).0 is Mixed ==> (
            #[trigger] components[j]).0 is Mixed,
    ensures
        saved_series(components) + saved_mixed(components) == components,
    decreases components.len(),
{
    if components.len() > 0 {
        let init = components.drop_last();
        let last = components.last();
        assert forall|i: int, j: int|
            0 <= i < j < init.len() && (#[trigger] init[i]).0 is Mixed implies (
            #[trigger] init[j]).0 is Mixed by {
            assert(init[i] == components[i] && init[j] == components[j]);
        }
        lemma_series_first_order(init);
        lemma_saved_split(init);
        let series = saved_series(init);
        let mixed = saved_mixed(init);
        if last.0 is Mixed {
            assert((series + mixed).push(last) =~= series + mixed.push(last));
        } else {
            if mixed.len() > 0 {
                assert((series + mixed)[series.len() as int] == init[series.len() as int]);
                assert(init[series.len() as int] == components[series.len() as int]);
                assert(components[components.len() - 1] == last);
            }
            assert(mixed =~= Seq::<(SaveablePaint, u64)>::empty());
            assert(series.push(last) + mixed =~= (series + mixed).push(last));
        }
    }
}

/// Saving a restored mixture gives what was saved: where a mixture as
/// building makes it was saved, and restored from what was saved with
/// series paints that have the saved series ids and ids, the restored
/// mixture is saved just as the first was.
pub proof fn law_restore_then_save(
    original: TargetedMixture,
    saved: SaveableMixture,
    restored: TargetedMixture,
    earlier: Seq<Rc<TargetedMixture>>,
)
    requires
        original.is_reduced(),
        saves_mixture(saved, original),
        is_restored(restored, saved, earlier),
        forall|k: int|
            0 <= k < saved.spec_components().len() && (#[trigger] saved.spec_components()[k]).0 is Series
                ==> saves_paint(saved.spec_components()[k].0, restored.spec_components()[k].0),
    ensures
        saves_mixture(saved, restored),
{
    let comps = saved.spec_components();
    let oc = original.spec_components();
    let rc = restored.spec_components();
    assert forall|i: int, j: int|
        0 <= i < j < comps.len() && (#[trigger] comps[i]).0 is Mixed implies (
        #[trigger] comps[j]).0 is Mixed by {
        assert(saves_paint(comps[i].0, oc[i].0));
        assert(saves_paint(comps[j].0, oc[j].0));
        assert(oc[i].0 is Mixed);
    }
    lemma_series_first_order(comps);
    let order = saved_series(comps) + saved_mixed(comps);
    assert(order == comps);
    let built = Seq::new(order.len(), |k: int| (rc[k].0, order[k].1));
    assert(parts_of(built) =~= parts_of(oc)) by {
        assert forall|k: int| 0 <= k < built.len() implies parts_of(built)[k] == parts_of(oc)[k] by {
            assert(comps[k].1 == oc[k].1);
        }
    }
    assert forall|k: int| 0 <= k < comps.len() implies saves_paint(
        (#[trigger] comps[k]).0,
        rc[k].0,
    ) && comps[k].1 == rc[k].1 by {
        assert(order[k] == comps[k]);
        vstd::arithmetic::div_mod::lemma_div_basics(comps[k].1 as int);
        assert(rc[k].1 == (built[k].1 as nat / 1) as u64);
        match comps[k].0 {
            SaveablePaint::Series(_, _) => {},
            SaveablePaint::Mixed(id) => {
                let i = key_index(earlier, id@);
                assert(earlier[i].spec_key() == id@);
            },
        }
    }
}

impl SaveableMixture {
    pub closed spec fn spec_targeted_colour(&self) -> Option<Rgb16> {
        self.targeted_colour
    }

    pub closed spec fn spec_id(&self) -> Seq<char> {
        self.id@
    }

    pub closed spec fn spec_name(&self) -> Seq<char> {
        self.name@
    }

    pub closed spec fn spec_notes(&self) -> Seq<char> {
        self.notes@
    }

    pub closed spec fn spec_components(&self) -> Seq<(SaveablePaint, u64)> {
        self.components@
    }

    /// Whether a mixture can be built from the components: there is one at
    /// least, none has no parts, and there are fewer than 2^48 (so that
    /// the sums of building fit in 128 bits).
    pub open spec fn buildable(&self) -> bool {
        &&& 0 < self.spec_components().len() <= 0xFFFF_FFFF_FFFF
        &&& forall|j: int|
            0 <= j < self.spec_components().len() ==> (#[trigger] self.spec_components()[j]).1
                > 0
    }

    /// A saved mixture with the given parts.
    pub fn new(
        targeted_colour: Option<Rgb16>,
        id: &str,
        name: &str,
        notes: &str,
        components: Vec<(SaveablePaint, u64)>,
    ) -> (r: SaveableMixture)
        ensures
            r.spec_targeted_colour() == targeted_colour,
            r.spec_id() == id@,
            r.spec_name() == name@,
            r.spec_notes() == notes@,
            r.spec_components() == components@,
    {
        SaveableMixture {
            targeted_colour,
            id: copy_string(id),
            name: copy_string(name),
            notes: copy_string(notes),
            components,
        }
    }

    pub fn targeted_colour(&self) -> (r: Option<Rgb16>)
        ensures
            r == self.spec_targeted_colour(),
    {
        self.targeted_colour
    }

    pub fn id(&self) -> (r: &str)
        ensures
            r@ == self.spec_id(),
    {
        self.id.as_str()
    }

    pub fn name(&self) -> (r: &str)
        ensures
            r@ == self.spec_name(),
    {
        self.name.as_str()
    }

    pub fn notes(&self) -> (r: &str)
        ensures
            r@ == self.spec_notes(),
    {
        self.notes.as_str()
    }

    pub fn components(&self) -> (r: &Vec<(SaveablePaint, u64)>)
        ensures
            r@ == self.spec_components(),
    {
        &self.components
    }

    /// The mixture restored from this one, with `series_paints` for its
    /// saved series paints, in order, and `earlier` for the mixtures it
    /// names; where it names one that `earlier` lacks, `NotFound` with the
    /// first such id.
    #[verifier::spinoff_prover]
    pub fn restore(
        &self,
        series_paints: &Vec<Rc<SeriesPaint>>,
        earlier: &Vec<Rc<TargetedMixture>>,
    ) -> (r: crate::Result<Rc<TargetedMixture>>)
        requires
            self.buildable(),
            sorted_unique(earlier@),
            series_paints.len() == saved_series(self.spec_components()).len(),
        ensures
            r is Ok <==> all_resolved(self.spec_components(), earlier@),
            match r {
                Ok(mixture) => {
                    &&& is_restored(*mixture, *self, earlier@)
                    &&& mixture.is_reduced()
                    &&& forall|k: int|
                        0 <= k < series_paints.len() ==> (#[trigger] mixture.spec_components()[k]).0
                            == Paint::Series(series_paints@[k])
                },
                Err(crate::Error::NotFound(id)) => exists|j: int|
                    first_unresolved(self.spec_components(), earlier@, j, id@),
                Err(_) => false,
            },
    {
        let ghost comps = self.components@;
        let mut builder = MixtureBuilder::new(self.id.as_str());
        builder.name(self.name.as_str());
        builder.notes(self.notes.as_str());
        if let Some(colour) = &self.targeted_colour {
            builder.targeted_colour(colour);
        }
        let n = self.components.len();
        let mut s: usize = 0;
        let mut j: usize = 0;
        while j < n
            invariant
                n == self.components.len(),
                comps == self.components@,
                self.buildable(),
                sorted_unique(earlier@),
                series_paints.len() == saved_series(comps).len(),
                0 <= j <= n,
                builder.spec_id() == self.spec_id(),
                builder.spec_name() == self.spec_name(),
                builder.spec_notes() == self.spec_notes(),
                builder.spec_targeted_colour() == self.spec_targeted_colour(),
                s == saved_series(comps.take(j as int)).len(),
                s <= series_paints.len(),
                builder.spec_series_components().len() == s,
                forall|k: int|
                    0 <= k < s ==> (#[trigger] builder.spec_series_components()[k]).1 > 0,
                forall|k: int|
                    0 <= k < builder.spec_mixture_components().len() ==> (
                    #[trigger] builder.spec_mixture_components()[k]).1 > 0,
                forall|k: int|
                    0 <= k < s ==> #[trigger] builder.spec_series_components()[k] == (
                        series_paints@[k],
                        saved_series(comps.take(j as int))[k].1,
                    ),
                builder.spec_mixture_components().len() == saved_mixed(comps.take(j as int)).len(),
                forall|k: int|
                    0 <= k < builder.spec_mixture_components().len() ==> {
                        let c = #[trigger] builder.spec_mixture_components()[k];
                        let saved = saved_mixed(comps.take(j as int))[k];
                        &&& c.1 == saved.1
                        &&& match saved.0 {
                            SaveablePaint::Mixed(id) => has_key(earlier@, id@) && c.0
                                == find_key(earlier@, id@).unwrap(),
                            SaveablePaint::Series(_, _) => false,
                        }
                    },
                all_resolved(comps.take(j as int), earlier@),
            decreases n - j,
        {
            let ghost before = comps.take(j as int);
            let ghost after = comps.take(j + 1);
            proof {
                assert(after.drop_last() =~= before);
                assert(after.last() == comps[j as int]);
                lemma_saved_series_prefix(comps, j + 1);
            }
            let (paint, parts) = &self.components[j];
            match paint {
                SaveablePaint::Series(_, _) => {
                    builder.series_paint_component((clone_rc(&series_paints[s]), *parts));
                    s = s + 1;
                    proof {
                        assert(saved_mixed(after) == saved_mixed(before));
                        assert(saved_series(after) == saved_series(before).push(comps[j as int]));
                        assert forall|k: int| 0 <= k < j + 1 implies match (#[trigger] after[k]).0 {
                            SaveablePaint::Mixed(id) => has_key(earlier@, id@),
                            SaveablePaint::Series(_, _) => true,
                        } by {
                            if k < j {
                                assert(after[k] == before[k]);
                            }
                        }
                    }
                },
                SaveablePaint::Mixed(id) => {
                    match find_by_key(earlier, id.as_str()) {
                        Some(mixture) => {
                            builder.mixed_paint_component((clone_rc(mixture), *parts));
                            proof {
                                assert(saved_series(after) == saved_series(before));
                                assert(saved_mixed(after) == saved_mixed(before).push(
                                    comps[j as int],
                                ));
                                assert forall|k: int| 0 <= k < j + 1 implies match (
                                #[trigger] after[k]).0 {
                                    SaveablePaint::Mixed(id) => has_key(earlier@, id@),
                                    SaveablePaint::Series(_, _) => true,
                                } by {
                                    if k < j {
                                        assert(after[k] == before[k]);
                                    }
                                }
                            }
                        },
                        None => {
                            assert(first_unresolved(comps, earlier@, j as int, id@));
                            assert(!all_resolved(comps, earlier@)) by {
                                assert(comps[j as int].0 == SaveablePaint::Mixed(*id));
                            }
                            let missing = copy_string(id.as_str());
                            assert(first_unresolved(
                                self.spec_components(),
                                earlier@,
                                j as int,
                                missing@,
                            ));
                            let r: crate::Result<Rc<TargetedMixture>> = Err(
                                crate::Error::NotFound(missing),
                            );
                            assert(r->Err_0->NotFound_0@ == missing@);
                            return r;
                        },
                    }
                },
            }
            j = j + 1;
        }
        let ghost order = saved_series(comps) + saved_mixed(comps);
        let ghost ns = saved_series(comps).len() as int;
        let ghost bc = builder.spec_components();
        proof {
            assert(comps.take(n as int) =~= comps);
            lemma_saved_split(comps);
            assert(bc.len() == order.len());
            assert forall|k: int| 0 <= k < bc.len() implies (#[trigger] bc[k]).1 == order[k].1
                && bc[k].1 > 0 && (k < ns ==> bc[k].0 == Paint::Series(series_paints@[k]))
                && (k >= ns ==> match order[k].0 {
                SaveablePaint::Mixed(id) => has_key(earlier@, id@) && bc[k].0 == Paint::Mixed(
                    find_key(earlier@, id@).unwrap(),
                ),
                SaveablePaint::Series(_, _) => false,
            }) by {
                if k < ns {
                    assert(builder.spec_series_components()[k] == (
                        series_paints@[k],
                        saved_series(comps)[k].1,
                    ));
                } else {
                    let c = builder.spec_mixture_components()[k - ns];
                    assert(bc[k] == (Paint::Mixed(c.0), c.1));
                }
            }
        }
        let mixture = builder.build();
        proof {
            let components = mixture.spec_components();
            assert(Seq::new(order.len(), |k: int| (components[k].0, order[k].1)) =~= bc);
            assert forall|k: int| 0 <= k < order.len() implies match (#[trigger] order[k]).0 {
                SaveablePaint::Series(_, _) => components[k].0 is Series,
                SaveablePaint::Mixed(id) => has_key(earlier@, id@) && components[k].0
                    == Paint::Mixed(find_key(earlier@, id@).unwrap()),
            } by {
                assert(components[k].0 == bc[k].0);
                if k < ns {
                    assert(order[k] == saved_series(comps)[k]);
                } else {
                    assert(order[k] == saved_mixed(comps)[k - ns]);
                }
            }
            assert forall|k: int| 0 <= k < series_paints.len() implies (
            #[trigger] components[k]).0 == Paint::Series(series_paints@[k]) by {
                assert(components[k].0 == bc[k].0);
            }
        }
        Ok(mixture)
    }

    /// How a mixture is saved.
    pub fn from_mixture(mixture: &Rc<TargetedMixture>) -> (r: SaveableMixture)
        ensures
            saves_mixture(r, **mixture),
    {
        let source = mixture.components();
        let n = source.len();
        let mut components: Vec<(SaveablePaint, u64)> = Vec::new();
        let mut i: usize = 0;
        while i < n
            invariant
                n == source.len(),
                source@ == mixture.spec_components(),
                0 <= i <= n,
                components.len() == i,
                forall|j: int|
                    0 <= j < i ==> saves_paint((#[trigger] components@[j]).0, source@[j].0)
                        && components@[j].1 == source@[j].1,
            decreases n - i,
        {
            let (paint, parts) = &source[i];
            components.push((SaveablePaint::from_paint(paint), *parts));
            i = i + 1;
        }
        SaveableMixture {
            targeted_colour: mixture.targeted_colour(),
            id: copy_string(mixture.id()),
            name: copy_string(mixture.name.as_str()),
            notes: copy_string(mixture.notes.as_str()),
            components,
        }
    }
}

impl Keyed for SaveableMixture {
    open spec fn spec_key(&self) -> Seq<char> {
        self.spec_id()
    }

    fn key(&self) -> (r: &str) {
        self.id.as_str()
    }
}

/// Whether `finder` may answer the saved series paint `saved` with
/// `answer`, asked for the saved id in the saved series.
pub open spec fn answers_saved<F: SeriesPaintFinder>(
    finder: F,
    saved: SaveablePaint,
    answer: crate::Result<Rc<SeriesPaint>>,
) -> bool {
    match saved {
        SaveablePaint::Series(series_id, id) => finder.spec_answers(id@, Some(series_id), answer),
        SaveablePaint::Mixed(_) => false,
    }
}

/// Whether a saved component passes when it is restored: a series paint
/// that `finder` may answer with a paint, or a mixture that `earlier`
/// has.
pub open spec fn passes<F: SeriesPaintFinder>(
    finder: F,
    saved: SaveablePaint,
    earlier: Seq<SaveableMixture>,
) -> bool {
    match saved {
        SaveablePaint::Series(_, _) => exists|paint: Rc<SeriesPaint>|
            #[trigger] answers_saved(finder, saved, Ok(paint)),
        SaveablePaint::Mixed(id) => has_key(earlier, id@),
    }
}

/// Whether restoring `mixtures` first fails at component `j` of mixture
/// `i`, with `e`: every component before it, in saved order, passes; where
/// it names a series paint, `finder` answers with the error `e`; where it
/// names a mixture, none of the mixtures before has it, and `e` is
/// `NotFound` with its id.
pub open spec fn first_failure<F: SeriesPaintFinder>(
    finder: F,
    mixtures: Seq<SaveableMixture>,
    i: int,
    j: int,
    e: crate::Error,
) -> bool {
    &&& 0 <= i < mixtures.len()
    &&& 0 <= j < mixtures[i].spec_components().len()
    &&& forall|k: int, l: int|
        0 <= k < i && 0 <= l < mixtures[k].spec_components().len() ==> passes(
            finder,
            (#[trigger] mixtures[k].spec_components()[l]).0,
            mixtures.take(k),
        )
    &&& forall|l: int|
        0 <= l < j ==> passes(
            finder,
            (#[trigger] mixtures[i].spec_components()[l]).0,
            mixtures.take(i),
        )
    &&& match mixtures[i].spec_components()[j].0 {
        SaveablePaint::Series(_, _) => answers_saved(
            finder,
            mixtures[i].spec_components()[j].0,
            Err(e),
        ),
        SaveablePaint::Mixed(id) => !has_key(mixtures.take(i), id@) && match e {
            crate::Error::NotFound(missing) => missing@ == id@,
            _ => false,
        },
    }
}

/// Whether the series paints among the components of `mixture` are what
/// `finder` answered for the saved series paints of `saved`, in order.
pub open spec fn series_answered<F: SeriesPaintFinder>(
    finder: F,
    mixture: TargetedMixture,
    saved: SaveableMixture,
) -> bool {
    let series = saved_series(saved.spec_components());
    forall|k: int|
        0 <= k < series.len() ==> match mixture.spec_components()[k].0 {
            Paint::Series(paint) => answers_saved(finder, (#[trigger] series[k]).0, Ok(paint)),
            Paint::Mixed(_) => false,
        }
}

/// How a mixing session is saved: its notes and its mixtures, in order.
#[derive(Debug)]
pub struct SaveableMixingSession {
    notes: String,
    mixtures: Vec<SaveableMixture>,
}

impl SaveableMixingSession {
    pub closed spec fn spec_notes(&self) -> Seq<char> {
        self.notes@
    }

    pub closed spec fn spec_mixtures(&self) -> Seq<SaveableMixture> {
        self.mixtures@
    }

    /// Whether a session can be restored: the mixtures are sorted by id
    /// with no id twice, and a mixture can be built from the components of
    /// each.
    pub open spec fn restorable(&self) -> bool {
        &&& sorted_unique(self.spec_mixtures())
        &&& forall|i: int|
            0 <= i < self.spec_mixtures().len() ==> (#[trigger] self.spec_mixtures()[i]).buildable()
    }

    /// A saved session with the given notes and mixtures.
    pub fn new(notes: &str, mixtures: Vec<SaveableMixture>) -> (r: SaveableMixingSession)
        ensures
            r.spec_notes() == notes@,
            r.spec_mixtures() == mixtures@,
    {
        SaveableMixingSession { notes: copy_string(notes), mixtures }
    }

    pub fn notes(&self) -> (r: &str)
        ensures
            r@ == self.spec_notes(),
    {
        self.notes.as_str()
    }

    pub fn mixtures(&self) -> (r: &Vec<SaveableMixture>)
        ensures
            r@ == self.spec_mixtures(),
    {
        &self.mixtures
    }

    /// How a session is saved.
    pub fn from_session(session: &MixingSession) -> (r: SaveableMixingSession)
        ensures
            r.spec_notes() == session.spec_notes(),
            r.spec_mixtures().len() == session.spec_mixtures().len(),
            forall|i: int|
                0 <= i < r.spec_mixtures().len() ==> saves_mixture(
                    #[trigger] r.spec_mixtures()[i],
                    *session.spec_mixtures()[i],
                ),
    {
        let source = session.mixtures();
        let n = source.len();
        let mut mixtures: Vec<SaveableMixture> = Vec::new();
        let mut i: usize = 0;
        while i < n
            invariant
                n == source.len(),
                source@ == session.spec_mixtures(),
                0 <= i <= n,
                mixtures.len() == i,
                forall|j: int|
                    0 <= j < i ==> saves_mixture(#[trigger] mixtures@[j], *source@[j]),
            decreases n - i,
        {
            mixtures.push(SaveableMixture::from_mixture(&source[i]));
            i = i + 1;
        }
        SaveableMixingSession { notes: copy_string(session.notes()), mixtures }
    }

    /// Whether the session can be restored.
    pub fn is_restorable(&self) -> (r: bool)
        ensures
            r == self.restorable(),
    {
        if !is_sorted_unique_by_key(&self.mixtures) {
            return false;
        }
        let n = self.mixtures.len();
        let mut i: usize = 0;
        while i < n
            invariant
                n == self.mixtures.len(),
                0 <= i <= n,
                forall|j: int| 0 <= j < i ==> (#[trigger] self.mixtures@[j]).buildable(),
            decreases n - i,
        {
            let components = &self.mixtures[i].components;
            let m = components.len();
            if m == 0 || m as u64 > 0xFFFF_FFFF_FFFF {
                assert(!self.mixtures@[i as int].buildable());
                return false;
            }
            let mut j: usize = 0;
            while j < m
                invariant
                    n == self.mixtures.len(),
                    0 <= i < n,
                    m == components.len(),
                    components@ == self.mixtures@[i as int].spec_components(),
                    0 <= j <= m,
                    forall|k: int| 0 <= k < j ==> (#[trigger] components@[k]).1 > 0,
                decreases m - j,
            {
                if components[j].1 == 0 {
                    assert(!self.mixtures@[i as int].buildable()) by {
                        assert(self.mixtures@[i as int].spec_components()[j as int].1 == 0);
                    }
                    return false;
                }
                j = j + 1;
            }
            i = i + 1;
        }
        true
    }

    /// The session restored from this one: each mixture in turn is restored
    /// with the series paints that `series_paint_finder` finds for its
    /// saved series paints, in order, and the mixtures restored before it.
    /// The first error of the finder, or `NotFound` with the id of a
    /// mixture that none of those before has, ends the restoring.
    pub fn mixing_session<F: SeriesPaintFinder>(&self, series_paint_finder: &Rc<F>) -> (r:
        crate::Result<MixingSession>)
        requires
            self.restorable(),
        ensures
            self.spec_mixtures().len() == 0 ==> r is Ok,
            match r {
                Ok(session) => {
                    &&& session.spec_notes() == self.spec_notes()
                    &&& session.spec_mixtures().len() == self.spec_mixtures().len()
                    &&& forall|i: int|
                        0 <= i < self.spec_mixtures().len() ==> is_restored(
                            *(#[trigger] session.spec_mixtures()[i]),
                            self.spec_mixtures()[i],
                            session.spec_mixtures().take(i),
                        ) && series_answered(
                            **series_paint_finder,
                            *session.spec_mixtures()[i],
                            self.spec_mixtures()[i],
                        )
                    &&& forall|i: int, l: int|
                        0 <= i < self.spec_mixtures().len() && 0 <= l
                            < self.spec_mixtures()[i].spec_components().len() ==> passes(
                            **series_paint_finder,
                            (#[trigger] self.spec_mixtures()[i].spec_components()[l]).0,
                            self.spec_mixtures().take(i),
                        )
                },
                Err(e) => exists|i: int, j: int|
                    first_failure(**series_paint_finder, self.spec_mixtures(), i, j, e),
            },
    {
        let ghost saved_list = self.mixtures@;
        let n = self.mixtures.len();
        let mut mixtures: Vec<Rc<TargetedMixture>> = Vec::new();
        let mut i: usize = 0;
        while i < n
            invariant
                n == self.mixtures.len(),
                saved_list == self.mixtures@,
                self.restorable(),
                0 <= i <= n,
                mixtures.len() == i,
                sorted_unique(mixtures@),
                forall|k: int| 0 <= k < i ==> (#[trigger] mixtures@[k]).is_reduced(),
                forall|k: int|
                    0 <= k < i ==> (#[trigger] mixtures@[k]).spec_id()
                        == self.mixtures@[k].spec_id(),
                forall|k: int|
                    0 <= k < i ==> is_restored(
                        *(#[trigger] mixtures@[k]),
                        self.mixtures@[k],
                        mixtures@.take(k),
                    ) && series_answered(**series_paint_finder, *mixtures@[k], self.mixtures@[k]),
                forall|k: int, l: int|
                    0 <= k < i && 0 <= l < saved_list[k].spec_components().len() ==> passes(
                        **series_paint_finder,
                        (#[trigger] saved_list[k].spec_components()[l]).0,
                        saved_list.take(k),
                    ),
            decreases n - i,
        {
            let saved = &self.mixtures[i];
            assert(saved.buildable());
            let components = &saved.components;
            let ghost comps = components@;
            let m = components.len();
            proof {
                assert forall|x: int| 0 <= x < mixtures@.len() implies #[trigger] mixtures@[x].spec_key()
                    == saved_list.take(i as int)[x].spec_key() by {}
            }
            let mut series_paints: Vec<Rc<SeriesPaint>> = Vec::new();
            let mut j: usize = 0;
            while j < m
                invariant
                    n == self.mixtures.len(),
                    saved_list == self.mixtures@,
                        0 <= i < n,
                    mixtures.len() == i,
                    sorted_unique(mixtures@),
                    forall|x: int|
                        0 <= x < mixtures@.len() ==> #[trigger] mixtures@[x].spec_key()
                            == saved_list.take(i as int)[x].spec_key(),
                    m == components.len(),
                    comps == components@,
                    comps == saved_list[i as int].spec_components(),
                    0 <= j <= m,
                    series_paints.len() == saved_series(comps.take(j as int)).len(),
                    forall|k: int|
                        0 <= k < series_paints.len() ==> answers_saved(
                            **series_paint_finder,
                            (#[trigger] saved_series(comps.take(j as int))[k]).0,
                            Ok(series_paints@[k]),
                        ),
                    forall|l: int|
                        0 <= l < j ==> passes(
                            **series_paint_finder,
                            (#[trigger] comps[l]).0,
                            saved_list.take(i as int),
                        ),
                    forall|k: int, l: int|
                        0 <= k < i && 0 <= l < saved_list[k].spec_components().len() ==> passes(
                            **series_paint_finder,
                            (#[trigger] saved_list[k].spec_components()[l]).0,
                            saved_list.take(k),
                        ),
                decreases m - j,
            {
                let ghost before = comps.take(j as int);
                let ghost after = comps.take(j + 1);
                proof {
                    assert(after.drop_last() =~= before);
                    assert(after.last() == comps[j as int]);
                }
                match &components[j].0 {
                    SaveablePaint::Series(series_id, id) => {
                        let answer = series_paint_finder.get_series_paint(
                            id.as_str(),
                            Some(series_id),
                        );
                        assert(answers_saved(**series_paint_finder, comps[j as int].0, answer));
                        match answer {
                            Ok(paint) => {
                                proof {
                                    assert(saved_series(after) == saved_series(before).push(
                                        comps[j as int],
                                    ));
                                    assert(passes(**series_paint_finder, comps[j as int].0, saved_list.take(i as int)));
                                }
                                series_paints.push(paint);
                            },
                            Err(e) => {
                                assert(first_failure(**series_paint_finder, saved_list, i as int, j as int, e));
                                assert(first_failure(
                                    **series_paint_finder,
                                    self.spec_mixtures(),
                                    i as int,
                                    j as int,
                                    e,
                                ));
                                return Err(e);
                            },
                        }
                    },
                    SaveablePaint::Mixed(id) => {
                        proof {
                            lemma_same_keys(mixtures@, saved_list.take(i as int), id@);
                            assert(saved_series(after) == saved_series(before));
                        }
                        if find_by_key(&mixtures, id.as_str()).is_none() {
                            let missing = copy_string(id.as_str());
                            let r: crate::Result<MixingSession> = Err(
                                crate::Error::NotFound(missing),
                            );
                            assert(r->Err_0->NotFound_0@ == id@);
                            assert(first_failure(**series_paint_finder, saved_list, i as int, j as int, r->Err_0));
                            assert(first_failure(
                                **series_paint_finder,
                                self.spec_mixtures(),
                                i as int,
                                j as int,
                                r->Err_0,
                            ));
                            return r;
                        }
                    },
                }
                j = j + 1;
            }
            assert(comps.take(m as int) =~= comps);
            proof {
                assert forall|x: int| 0 <= x < comps.len() implies match (#[trigger] comps[x]).0 {
                    SaveablePaint::Mixed(id) => has_key(mixtures@, id@),
                    SaveablePaint::Series(_, _) => true,
                } by {
                    if let SaveablePaint::Mixed(id) = comps[x].0 {
                        assert(passes(**series_paint_finder, comps[x].0, saved_list.take(i as int)));
                        lemma_same_keys(mixtures@, saved_list.take(i as int), id@);
                    }
                }
                assert(all_resolved(comps, mixtures@));
            }
            match saved.restore(&series_paints, &mixtures) {
                Ok(mixture) => {
                    proof {
                        let old_list = mixtures@;
                        let new_list = old_list.push(mixture);
                        assert(mixture.spec_id() == self.mixtures@[i as int].spec_id());
                        assert forall|k: int| 0 <= k <= i implies #[trigger] new_list[k].spec_key()
                            == self.mixtures@[k].spec_key() by {
                            if k < i {
                                assert(new_list[k] == old_list[k]);
                            }
                        }
                        assert forall|a: int, b: int|
                            0 <= a < b < new_list.len() implies crate::text::lex_lt(
                            #[trigger] new_list[a].spec_key(),
                            #[trigger] new_list[b].spec_key(),
                        ) by {
                            assert(new_list[a].spec_key() == self.mixtures@[a].spec_key());
                            assert(new_list[b].spec_key() == self.mixtures@[b].spec_key());
                            assert(crate::text::lex_lt(
                                self.mixtures@[a].spec_key(),
                                self.mixtures@[b].spec_key(),
                            ));
                        }
                        assert(new_list.take(i as int) =~= old_list);
                        assert forall|k: int| 0 <= k < i implies new_list.take(k) =~= old_list.take(
                            k,
                        ) by {}
                        assert(series_answered(**series_paint_finder, *mixture, *saved));
                    }
                    mixtures.push(mixture);
                },
                Err(e) => {
                    return Err(e);
                },
            }
            i = i + 1;
        }
        Ok(MixingSession { notes: copy_string(self.notes.as_str()), mixtures })
    }
}

} // verus!
