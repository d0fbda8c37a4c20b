//! Character-level helpers: string equality and ordering, acronyms and
//! abbreviations of identifiers.

use vstd::prelude::*;

verus! {

/// The result of comparing two identifiers.
#[derive(PartialEq, Eq, Structural, Clone, Copy, Debug)]
pub enum IdOrder {
    Less,
    Equal,
    Greater,
}

/// Lexicographic "strictly less than" on character sequences: the order of
/// `str`, since UTF-8 preserves the order of code points.
pub open spec fn lex_lt(a: Seq<char>, b: Seq<char>) -> bool
    decreases a.len(),
{
    if a.len() == 0 {
        b.len() > 0
    } else if b.len() == 0 {
        false
    } else if (a[0] as int) < (b[0] as int) {
        true
    } else if a[0] == b[0] {
        lex_lt(a.drop_first(), b.drop_first())
    } else {
        false
    }
}

/// The order of two identifiers, as `str::cmp` would give it.
pub open spec fn lex_order(a: Seq<char>, b: Seq<char>) -> IdOrder {
    if a == b {
        IdOrder::Equal
    } else if lex_lt(a, b) {
        IdOrder::Less
    } else {
        IdOrder::Greater
    }
}

pub proof fn lemma_lex_lt_irreflexive(a: Seq<char>)
    ensures
        !lex_lt(a, a),
    decreases a.len(),
{
    if a.len() > 0 {
        lemma_lex_lt_irreflexive(a.drop_first());
    }
}

pub proof fn lemma_lex_lt_asymmetric(a: Seq<char>, b: Seq<char>)
    ensures
        lex_lt(a, b) ==> !lex_lt(b, a),
    decreases a.len(),
{
    if a.len() > 0 && b.len() > 0 && a[0] == b[0] {
        lemma_lex_lt_asymmetric(a.drop_first(), b.drop_first());
    }
}

pub proof fn lemma_lex_lt_transitive(a: Seq<char>, b: Seq<char>, c: Seq<char>)
    requires
        lex_lt(a, b),
        lex_lt(b, c),
    ensures
        lex_lt(a, c),
    decreases a.len(),
{
    if a.len() > 0 && b.len() > 0 && c.len() > 0 {
        if a[0] == b[0] && b[0] == c[0] {
            lemma_lex_lt_transitive(a.drop_first(), b.drop_first(), c.drop_first());
        }
    }
}

pub proof fn lemma_lex_lt_total(a: Seq<char>, b: Seq<char>)
    ensures
        a == b || lex_lt(a, b) || lex_lt(b, a),
    decreases a.len(),
{
    if a.len() > 0 && b.len() > 0 {
        if a[0] == b[0] {
            lemma_lex_lt_total(a.drop_first(), b.drop_first());
            if a.drop_first() == b.drop_first() {
                assert(a =~= seq![a[0]] + a.drop_first());
                assert(b =~= seq![b[0]] + b.drop_first());
            }
        } else {
            assert((a[0] as int) != (b[0] as int));
        }
    } else if a.len() == 0 && b.len() == 0 {
        assert(a =~= b);
    }
}

/// The characters of a string, in order.
pub fn chars_of(s: &str) -> (r: Vec<char>)
    ensures
        r@ == s@,
{
    let mut v: Vec<char> = Vec::new();
    for c in it: s.chars()
        invariant
            v@ == it.seq().take(it.index() as int),
            it.seq() == s@,
    {
        v.push(c);
    }
    v
}

/// Whether two strings hold the same characters.
pub fn str_eq(a: &str, b: &str) -> (r: bool)
    ensures
        r == (a@ == b@),
{
    let va = chars_of(a);
    let vb = chars_of(b);
    if va.len() != vb.len() {
        return false;
    }
    let mut i: usize = 0;
    while i < va.len()
        invariant
            va@ == a@,
            vb@ == b@,
            va.len() == vb.len(),
            i <= va.len(),
            forall|j: int| 0 <= j < i ==> va@[j] == vb@[j],
        decreases va.len() - i,
    {
        if va[i] != vb[i] {
            return false;
        }
        i = i + 1;
    }
    assert(va@ =~= vb@);
    true
}

fn compare_chars_from(a: &Vec<char>, b: &Vec<char>, start: usize) -> (r: IdOrder)
    requires
        start <= a.len(),
        start <= b.len(),
    ensures
        r == lex_order(a@.skip(start as int), b@.skip(start as int)),
    decreases a.len() - start,
{
    let ghost sa = a@.skip(start as int);
    let ghost sb = b@.skip(start as int);
    if start == a.len() {
        if start == b.len() {
            assert(sa =~= sb);
            IdOrder::Equal
        } else {
            IdOrder::Less
        }
    } else if start == b.len() {
        assert(sa != sb) by {
            assert(sa.len() != sb.len());
        }
        IdOrder::Greater
    } else {
        let ca = a[start];
        let cb = b[start];
        assert(sa[0] == ca && sb[0] == cb);
        assert(sa.drop_first() =~= a@.skip(start + 1));
        assert(sb.drop_first() =~= b@.skip(start + 1));
        if ca < cb {
            assert(sa != sb);
            IdOrder::Less
        } else if ca == cb {
            let rest = compare_chars_from(a, b, start + 1);
            proof {
                if sa.drop_first() == sb.drop_first() {
                    assert(sa =~= seq![sa[0]] + sa.drop_first());
                    assert(sb =~= seq![sb[0]] + sb.drop_first());
                } else {
                    assert(sa != sb) by {
                        if sa == sb {
                            assert(sa.drop_first() == sb.drop_first());
                        }
                    }
                }
            }
            rest
        } else {
            assert(sa != sb);
            IdOrder::Greater
        }
    }
}

/// Compares two strings as `str::cmp` does.
pub fn compare_strs(a: &str, b: &str) -> (r: IdOrder)
    ensures
        r == lex_order(a@, b@),
{
    let va = chars_of(a);
    let vb = chars_of(b);
    let r = compare_chars_from(&va, &vb, 0);
    assert(va@.skip(0) =~= a@);
    assert(vb@.skip(0) =~= b@);
    r
}

/// Appends one character to a string.
#[verifier::external_body]
pub(crate) fn push_char(s: &mut String, c: char)
    ensures
        final(s)@ == old(s)@.push(c),
{
    s.push(c);
}

/// Whether a character has the Unicode `Uppercase` property.
pub uninterp spec fn uppercase_property(c: char) -> bool;

/// `char::is_uppercase`: whether `c` has the Unicode `Uppercase` property.
/// Its result is named, not spelled out.
#[verifier::external_body]
fn char_is_uppercase(c: char) -> (r: bool)
    ensures
        r == uppercase_property(c),
{
    c.is_uppercase()
}

/// The characters of `input` that are upper case, in order.
pub open spec fn spec_acronym(input: Seq<char>) -> Seq<char> {
    input.filter(|c: char| uppercase_property(c))
}

/// The acronym of an identifier: its upper case characters, in order.
pub fn acronym(input: &str) -> (r: String)
    ensures
        r@ == spec_acronym(input@),
{
    let ghost pred = |c: char| uppercase_property(c);
    let mut output = String::new();
    for c in it: input.chars()
        invariant
            it.seq() == input@,
            pred == (|c: char| uppercase_property(c)),
            output@ == it.seq().take(it.index() as int).filter(pred),
    {
        let ghost k = it.index() as int;
        proof {
            assert(it.seq().take(k + 1) =~= it.seq().take(k).push(c));
            it.seq().take(k).lemma_filter_push(c, pred);
        }
        let up = char_is_uppercase(c);
        assert(pred(c) == up);
        if up {
            push_char(&mut output, c);
        }
        assert(output@ == it.seq().take(k + 1).filter(pred));
    }
    assert(input@.take(input@.len() as int) =~= input@);
    output
}

/// The first `n` characters of `input` (all of them if it is shorter),
/// followed by a full stop.
pub open spec fn spec_abbreviate(input: Seq<char>, n: nat) -> Seq<char> {
    if n < input.len() {
        input.take(n as int).push('.')
    } else {
        input.push('.')
    }
}

/// Abbreviates `input` to its first `n` characters and a full stop.
pub fn abbreviate(input: &str, n: usize) -> (r: String)
    ensures
        r@ == spec_abbreviate(input@, n as nat),
{
    let chars = chars_of(input);
    let mut output = String::new();
    let mut i: usize = 0;
    while i < chars.len() && i < n
        invariant
            chars@ == input@,
            i <= chars.len(),
            i <= n,
            output@ == input@.take(i as int),
        decreases chars.len() - i,
    {
        assert(input@.take(i + 1) =~= input@.take(i as int).push(chars@[i as int]));
        push_char(&mut output, chars[i]);
        i = i + 1;
    }
    push_char(&mut output, '.');
    assert(input@.take(input@.len() as int) =~= input@);
    output
}

/// The message with which a string that names no value of the
/// attribute `name` is refused.
pub open spec fn malformed_message(s: Seq<char>, name: Seq<char>) -> Seq<char> {
    "\""@ + s + "\": Malformed '"@ + name + "' value string"@
}

/// Builds the message with which `s` is refused as a value of `name`.
pub fn malformed_value_message(s: &str, name: &str) -> (r: String)
    ensures
        r@ == malformed_message(s@, name@),
{
    let mut m = String::new();
    m.append("\"");
    m.append(s);
    m.append("\": Malformed '");
    m.append(name);
    m.append("' value string");
    assert(m@ =~= malformed_message(s@, name@));
    m
}

} // verus!
