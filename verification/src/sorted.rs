//! Lists kept sorted by a string key, with no key twice: the shape of every
//! paint list, series list and mixing session of the library.

use vstd::prelude::*;

use std::rc::Rc;

use crate::text::{compare_strs, lex_lt, lemma_lex_lt_irreflexive, lemma_lex_lt_total,
    lemma_lex_lt_transitive, IdOrder};

verus! {

/// An item that is found again by a string key (a paint's or a mixture's id).
pub trait Keyed {
    spec fn spec_key(&self) -> Seq<char>;

    fn key(&self) -> (r: &str)
        ensures
            r@ == self.spec_key(),
    ;
}

impl<T: Keyed> Keyed for Rc<T> {
    open spec fn spec_key(&self) -> Seq<char> {
        (**self).spec_key()
    }

    fn key(&self) -> (r: &str) {
        (**self).key()
    }
}

/// The keys increase strictly along the sequence: it is sorted and no key
/// occurs twice.
pub open spec fn sorted_unique<T: Keyed>(s: Seq<T>) -> bool {
    forall|i: int, j: int|
        0 <= i < j < s.len() ==> lex_lt(#[trigger] s[i].spec_key(), #[trigger] s[j].spec_key())
}

/// Whether some item has key `k`.
pub open spec fn has_key<T: Keyed>(s: Seq<T>, k: Seq<char>) -> bool {
    exists|i: int| 0 <= i < s.len() && #[trigger] s[i].spec_key() == k
}

/// A position that holds key `k`, where there is one.
pub open spec fn key_index<T: Keyed>(s: Seq<T>, k: Seq<char>) -> int {
    choose|i: int| 0 <= i < s.len() && #[trigger] s[i].spec_key() == k
}

/// The item with key `k`, if there is one.
pub open spec fn find_key<T: Keyed>(s: Seq<T>, k: Seq<char>) -> Option<T> {
    if has_key(s, k) {
        Some(s[key_index(s, k)])
    } else {
        None
    }
}

/// The number of items whose key comes before `k`.
pub open spec fn count_before<T: Keyed>(s: Seq<T>, k: Seq<char>) -> nat
    decreases s.len(),
{
    if s.len() == 0 {
        0
    } else {
        count_before(s.drop_last(), k) + if lex_lt(s.last().spec_key(), k) {
            1nat
        } else {
            0nat
        }
    }
}

/// The list with `item` added: in the place of the item with its key, or
/// inserted after the items whose keys come before its own.
pub open spec fn spec_add<T: Keyed>(s: Seq<T>, item: T) -> Seq<T> {
    let p = count_before(s, item.spec_key()) as int;
    if has_key(s, item.spec_key()) {
        s.update(p, item)
    } else {
        s.insert(p, item)
    }
}

/// The list with each of `items` added in turn.
pub open spec fn spec_add_all<T: Keyed>(s: Seq<T>, items: Seq<T>) -> Seq<T>
    decreases items.len(),
{
    if items.len() == 0 {
        s
    } else {
        spec_add(spec_add_all(s, items.drop_last()), items.last())
    }
}

proof fn lemma_count_before<T: Keyed>(s: Seq<T>, k: Seq<char>, i: int)
    requires
        0 <= i <= s.len(),
        forall|j: int| 0 <= j < i ==> lex_lt(#[trigger] s[j].spec_key(), k),
        forall|j: int| i <= j < s.len() ==> !lex_lt(#[trigger] s[j].spec_key(), k),
    ensures
        count_before(s, k) == i,
    decreases s.len(),
{
    if s.len() > 0 {
        let t = s.drop_last();
        if i == s.len() {
            assert forall|j: int| 0 <= j < t.len() implies lex_lt(#[trigger] t[j].spec_key(), k) by {
                assert(t[j] == s[j]);
            }
            lemma_count_before(t, k, i - 1);
            assert(lex_lt(s[s.len() - 1].spec_key(), k));
        } else {
            assert forall|j: int| 0 <= j < i implies lex_lt(#[trigger] t[j].spec_key(), k) by {
                assert(t[j] == s[j]);
            }
            assert forall|j: int| i <= j < t.len() implies !lex_lt(#[trigger] t[j].spec_key(), k) by {
                assert(t[j] == s[j]);
            }
            lemma_count_before(t, k, i);
            assert(!lex_lt(s[s.len() - 1].spec_key(), k));
        }
    }
}

/// In a sorted list an item's key determines its position.
pub proof fn lemma_key_determines_index<T: Keyed>(s: Seq<T>, i: int, j: int)
    requires
        sorted_unique(s),
        0 <= i < s.len(),
        0 <= j < s.len(),
        s[i].spec_key() == s[j].spec_key(),
    ensures
        i == j,
{
    if i < j {
        assert(lex_lt(s[i].spec_key(), s[j].spec_key()));
        lemma_lex_lt_irreflexive(s[i].spec_key());
    } else if j < i {
        assert(lex_lt(s[j].spec_key(), s[i].spec_key()));
        lemma_lex_lt_irreflexive(s[i].spec_key());
    }
}

/// In a sorted list, the item found by a key is the one at the position
/// that holds the key.
pub proof fn lemma_find_at<T: Keyed>(s: Seq<T>, i: int)
    requires
        sorted_unique(s),
        0 <= i < s.len(),
    ensures
        find_key(s, s[i].spec_key()) == Some(s[i]),
{
    let k = s[i].spec_key();
    assert(has_key(s, k));
    let c = key_index(s, k);
    lemma_key_determines_index(s, i, c);
}

/// Where a key stands, or would stand, in a sorted list.
pub fn search_key<T: Keyed>(v: &Vec<T>, key: &str) -> (r: Result<usize, usize>)
    requires
        sorted_unique(v@),
    ensures
        match r {
            Ok(i) => i < v.len() && v@[i as int].spec_key() == key@,
            Err(i) => {
                &&& i <= v.len()
                &&& forall|j: int| 0 <= j < i ==> lex_lt(#[trigger] v@[j].spec_key(), key@)
                &&& forall|j: int| i <= j < v.len() ==> lex_lt(key@, #[trigger] v@[j].spec_key())
            },
        },
{
    let mut lo: usize = 0;
    let mut hi: usize = v.len();
    while lo < hi
        invariant
            sorted_unique(v@),
            0 <= lo <= hi <= v.len(),
            forall|j: int| 0 <= j < lo ==> lex_lt(#[trigger] v@[j].spec_key(), key@),
            forall|j: int| hi <= j < v.len() ==> lex_lt(key@, #[trigger] v@[j].spec_key()),
        decreases hi - lo,
    {
        let mid = lo + (hi - lo) / 2;
        let mid_key = v[mid].key();
        match compare_strs(mid_key, key) {
            IdOrder::Less => {
                assert forall|j: int| 0 <= j < mid + 1 implies lex_lt(
                    #[trigger] v@[j].spec_key(),
                    key@,
                ) by {
                    if j < mid {
                        lemma_lex_lt_transitive(v@[j].spec_key(), v@[mid as int].spec_key(), key@);
                    }
                }
                lo = mid + 1;
            },
            IdOrder::Equal => {
                return Ok(mid);
            },
            IdOrder::Greater => {
                proof {
                    lemma_lex_lt_total(v@[mid as int].spec_key(), key@);
                }
                assert forall|j: int| mid <= j < v.len() implies lex_lt(
                    key@,
                    #[trigger] v@[j].spec_key(),
                ) by {
                    if j > mid {
                        lemma_lex_lt_transitive(key@, v@[mid as int].spec_key(), v@[j].spec_key());
                    }
                }
                hi = mid;
            },
        }
    }
    Err(lo)
}

/// A key that is not in a sorted list: what `search_key` reports as absent.
proof fn lemma_absent<T: Keyed>(s: Seq<T>, i: int, k: Seq<char>)
    requires
        0 <= i <= s.len(),
        forall|j: int| 0 <= j < i ==> lex_lt(#[trigger] s[j].spec_key(), k),
        forall|j: int| i <= j < s.len() ==> lex_lt(k, #[trigger] s[j].spec_key()),
    ensures
        !has_key(s, k),
{
    lemma_lex_lt_irreflexive(k);
}

/// The item with key `key`, if there is one.
pub fn find_by_key<'a, T: Keyed>(v: &'a Vec<T>, key: &str) -> (r: Option<&'a T>)
    requires
        sorted_unique(v@),
    ensures
        match r {
            Some(item) => find_key(v@, key@) == Some(*item),
            None => find_key(v@, key@) is None,
        },
{
    match search_key(v, key) {
        Ok(i) => {
            proof {
                lemma_find_at(v@, i as int);
            }
            Some(&v[i])
        },
        Err(i) => {
            proof {
                lemma_absent(v@, i as int, key@);
            }
            None
        },
    }
}

/// What adding `item` to `before` gives: the list `after`, sorted, in which
/// `item` takes the place of the item with its key (returned in `r`), or is
/// inserted where no item has its key (and `r` is `None`).
pub open spec fn added<T: Keyed>(before: Seq<T>, item: T, after: Seq<T>, r: Option<T>) -> bool {
    &&& sorted_unique(after)
    &&& match r {
        Some(replaced) => exists|i: int|
            0 <= i < before.len() && before[i].spec_key() == item.spec_key() && replaced
                == before[i] && after == before.update(i, item),
        None => !has_key(before, item.spec_key()) && exists|i: int|
            0 <= i <= before.len() && after == before.insert(i, item),
    }
}

/// What removing the item with key `k` from `before` gives: the list
/// `after`, in which that item (returned in `r`) is gone; where there is no
/// such item, `r` is `None` and nothing changes.
pub open spec fn removed<T: Keyed>(before: Seq<T>, k: Seq<char>, after: Seq<T>, r: Option<T>) -> bool {
    &&& sorted_unique(after)
    &&& match r {
        Some(item) => exists|i: int|
            0 <= i < before.len() && before[i].spec_key() == k && item == before[i] && after
                == before.remove(i),
        None => !has_key(before, k) && after == before,
    }
}

/// Adds `item`, or puts it in the place of the item with the same key,
/// which it returns.
pub fn add_by_key<T: Keyed>(v: &mut Vec<T>, item: T) -> (r: Option<T>)
    requires
        sorted_unique(old(v)@),
    ensures
        added(old(v)@, item, final(v)@, r),
        final(v)@ == spec_add(old(v)@, item),
{
    let ghost k = item.spec_key();
    let ghost s0 = v@;
    let found = search_key(v, item.key());
    match found {
        Ok(index) => {
            proof {
                assert forall|j: int| 0 <= j < index implies lex_lt(#[trigger] s0[j].spec_key(), k) by {
                }
                assert forall|j: int| index <= j < s0.len() implies !lex_lt(
                    #[trigger] s0[j].spec_key(),
                    k,
                ) by {
                    if j == index {
                        lemma_lex_lt_irreflexive(k);
                    } else {
                        crate::text::lemma_lex_lt_asymmetric(k, s0[j].spec_key());
                    }
                }
                lemma_count_before(s0, k, index as int);
                assert(has_key(s0, k));
            }
            v.push(item);
            let old_item = v.swap_remove(index);
            proof {
                assert(v@ =~= s0.update(index as int, item));
                assert forall|i: int, j: int| 0 <= i < j < v@.len() implies lex_lt(
                    #[trigger] v@[i].spec_key(),
                    #[trigger] v@[j].spec_key(),
                ) by {
                    assert(s0[i].spec_key() == v@[i].spec_key());
                    assert(s0[j].spec_key() == v@[j].spec_key());
                }
            }
            Some(old_item)
        },
        Err(index) => {
            proof {
                lemma_absent(s0, index as int, k);
                assert forall|j: int| index <= j < s0.len() implies !lex_lt(
                    #[trigger] s0[j].spec_key(),
                    k,
                ) by {
                    crate::text::lemma_lex_lt_asymmetric(k, s0[j].spec_key());
                }
                lemma_count_before(s0, k, index as int);
            }
            v.insert(index, item);
            proof {
                assert forall|i: int, j: int| 0 <= i < j < v@.len() implies lex_lt(
                    #[trigger] v@[i].spec_key(),
                    #[trigger] v@[j].spec_key(),
                ) by {
                    let ii = index as int;
                    if j < ii {
                        assert(v@[i] == s0[i] && v@[j] == s0[j]);
                    } else if j == ii {
                        assert(v@[i] == s0[i]);
                    } else if i == ii {
                        assert(v@[j] == s0[j - 1]);
                    } else if i < ii {
                        assert(v@[i] == s0[i] && v@[j] == s0[j - 1]);
                        lemma_lex_lt_transitive(s0[i].spec_key(), k, s0[j - 1].spec_key());
                    } else {
                        assert(v@[i] == s0[i - 1] && v@[j] == s0[j - 1]);
                    }
                }
            }
            None
        },
    }
}

/// Removes the item with key `key`, which it returns; `None` where there is
/// none, and then nothing changes.
pub fn remove_by_key<T: Keyed>(v: &mut Vec<T>, key: &str) -> (r: Option<T>)
    requires
        sorted_unique(old(v)@),
    ensures
        removed(old(v)@, key@, final(v)@, r),
{
    let ghost s0 = v@;
    match search_key(v, key) {
        Ok(index) => {
            let removed = v.remove(index);
            proof {
                assert forall|i: int, j: int| 0 <= i < j < v@.len() implies lex_lt(
                    #[trigger] v@[i].spec_key(),
                    #[trigger] v@[j].spec_key(),
                ) by {
                    let ii = index as int;
                    if j < ii {
                        assert(v@[i] == s0[i] && v@[j] == s0[j]);
                    } else if i < ii {
                        assert(v@[i] == s0[i] && v@[j] == s0[j + 1]);
                    } else {
                        assert(v@[i] == s0[i + 1] && v@[j] == s0[j + 1]);
                    }
                }
            }
            Some(removed)
        },
        Err(index) => {
            proof {
                lemma_absent(s0, index as int, key@);
            }
            None
        },
    }
}

/// Whether the keys increase strictly along the list.
pub fn is_sorted_unique_by_key<T: Keyed>(v: &Vec<T>) -> (r: bool)
    ensures
        r == sorted_unique(v@),
{
    let mut i: usize = 1;
    if v.len() == 0 {
        return true;
    }
    while i < v.len()
        invariant
            1 <= i <= v.len(),
            forall|a: int, b: int|
                0 <= a < b < i ==> lex_lt(#[trigger] v@[a].spec_key(), #[trigger] v@[b].spec_key()),
        decreases v.len() - i,
    {
        match compare_strs(v[i].key(), v[i - 1].key()) {
            IdOrder::Greater => {
                proof {
                    lemma_lex_lt_total(v@[i as int].spec_key(), v@[i - 1].spec_key());
                }
                assert forall|a: int, b: int| 0 <= a < b < i + 1 implies lex_lt(
                    #[trigger] v@[a].spec_key(),
                    #[trigger] v@[b].spec_key(),
                ) by {
                    if b == i && a < i - 1 {
                        lemma_lex_lt_transitive(
                            v@[a].spec_key(),
                            v@[i - 1].spec_key(),
                            v@[i as int].spec_key(),
                        );
                    }
                }
            },
            _ => {
                proof {
                    let a = (i - 1) as int;
                    let b = i as int;
                    if v@[b].spec_key() == v@[a].spec_key() {
                        lemma_lex_lt_irreflexive(v@[a].spec_key());
                    } else {
                        text_lemma_asym(v@[b].spec_key(), v@[a].spec_key());
                    }
                    assert(!lex_lt(v@[a].spec_key(), v@[b].spec_key()));
                }
                return false;
            },
        }
        i = i + 1;
    }
    true
}

/// The list with `item` inserted where no item has its key; unchanged
/// where one has.
pub open spec fn spec_insert_new<T: Keyed>(s: Seq<T>, item: T) -> Seq<T> {
    if has_key(s, item.spec_key()) {
        s
    } else {
        s.insert(count_before(s, item.spec_key()) as int, item)
    }
}

/// The list with each of `items` inserted in turn where its key is new.
pub open spec fn spec_insert_all_new<T: Keyed>(s: Seq<T>, items: Seq<T>) -> Seq<T>
    decreases items.len(),
{
    if items.len() == 0 {
        s
    } else {
        spec_insert_new(spec_insert_all_new(s, items.drop_last()), items.last())
    }
}

/// In a sorted list, the items before the count of keys below `k` have
/// keys below `k`, and those from there on do not.
proof fn lemma_count_before_splits<T: Keyed>(s: Seq<T>, k: Seq<char>)
    requires
        sorted_unique(s),
    ensures
        count_before(s, k) <= s.len(),
        forall|j: int| 0 <= j < count_before(s, k) ==> lex_lt(#[trigger] s[j].spec_key(), k),
        forall|j: int| count_before(s, k) <= j < s.len() ==> !lex_lt(#[trigger] s[j].spec_key(), k),
    decreases s.len(),
{
    if s.len() > 0 {
        let t = s.drop_last();
        assert(sorted_unique(t)) by {
            assert forall|i: int, j: int| 0 <= i < j < t.len() implies lex_lt(
                #[trigger] t[i].spec_key(),
                #[trigger] t[j].spec_key(),
            ) by {
                assert(t[i] == s[i] && t[j] == s[j]);
            }
        }
        lemma_count_before_splits(t, k);
        let last = s.len() - 1;
        if lex_lt(s[last].spec_key(), k) {
            assert forall|j: int| 0 <= j < t.len() implies lex_lt(#[trigger] t[j].spec_key(), k) by {
                assert(t[j] == s[j]);
                lemma_lex_lt_transitive(s[j].spec_key(), s[last].spec_key(), k);
            }
            assert(count_before(t, k) == t.len()) by {
                if count_before(t, k) < t.len() {
                    let j = count_before(t, k) as int;
                    assert(lex_lt(t[j].spec_key(), k));
                }
            }
        }
        assert forall|j: int| 0 <= j < count_before(s, k) implies lex_lt(
            #[trigger] s[j].spec_key(),
            k,
        ) by {
            if j < t.len() {
                assert(t[j] == s[j]);
            }
        }
        assert forall|j: int| count_before(s, k) <= j < s.len() implies !lex_lt(
            #[trigger] s[j].spec_key(),
            k,
        ) by {
            if j < t.len() {
                assert(t[j] == s[j]);
            }
        }
    }
}

/// Inserting an item whose key is new keeps a list sorted.
pub proof fn lemma_insert_new_sorted<T: Keyed>(s: Seq<T>, item: T)
    requires
        sorted_unique(s),
    ensures
        sorted_unique(spec_insert_new(s, item)),
{
    let k = item.spec_key();
    if !has_key(s, k) {
        lemma_count_before_splits(s, k);
        let p = count_before(s, k) as int;
        let r = s.insert(p, item);
        assert forall|j: int| p <= j < s.len() implies lex_lt(k, #[trigger] s[j].spec_key()) by {
            lemma_lex_lt_total(k, s[j].spec_key());
            if s[j].spec_key() == k {
                assert(has_key(s, k));
            }
        }
        assert forall|a: int, b: int| 0 <= a < b < r.len() implies lex_lt(
            #[trigger] r[a].spec_key(),
            #[trigger] r[b].spec_key(),
        ) by {
            if b < p {
                assert(r[a] == s[a] && r[b] == s[b]);
            } else if b == p {
                assert(r[a] == s[a]);
            } else if a < p {
                assert(r[a] == s[a] && r[b] == s[b - 1]);
                lemma_lex_lt_transitive(s[a].spec_key(), k, s[b - 1].spec_key());
            } else if a == p {
                assert(r[b] == s[b - 1]);
            } else {
                assert(r[a] == s[a - 1] && r[b] == s[b - 1]);
            }
        }
    }
}

/// Inserting each of `items` where its key is new gives a sorted list with
/// no key twice, whose keys are those of the list and of the items, and
/// whose items all come from the one or the other.
pub proof fn law_insert_all_new<T: Keyed>(s: Seq<T>, items: Seq<T>)
    requires
        sorted_unique(s),
    ensures
        sorted_unique(spec_insert_all_new(s, items)),
        forall|k: Seq<char>|
            #[trigger] has_key(spec_insert_all_new(s, items), k) <==> (has_key(s, k) || has_key(
                items,
                k,
            )),
        forall|x: T| #[trigger]
            spec_insert_all_new(s, items).contains(x) ==> s.contains(x) || items.contains(x),
    decreases items.len(),
{
    if items.len() > 0 {
        let init = items.drop_last();
        let last = items.last();
        let mid = spec_insert_all_new(s, init);
        law_insert_all_new(s, init);
        lemma_insert_new_sorted(mid, last);
        lemma_count_before_splits(mid, last.spec_key());
        let r = spec_insert_new(mid, last);
        assert forall|k: Seq<char>| #[trigger] has_key(r, k) <==> (has_key(s, k) || has_key(
            items,
            k,
        )) by {
            if has_key(items, k) {
                let i = choose|i: int| 0 <= i < items.len() && #[trigger] items[i].spec_key() == k;
                if i < init.len() {
                    assert(init[i] == items[i]);
                    assert(has_key(init, k));
                }
            }
            if has_key(init, k) {
                let i = choose|i: int| 0 <= i < init.len() && #[trigger] init[i].spec_key() == k;
                assert(items[i] == init[i]);
            }
            if k == last.spec_key() {
                assert(items[items.len() - 1] == last);
            }
            if !has_key(mid, last.spec_key()) {
                let p = count_before(mid, last.spec_key()) as int;
                if has_key(r, k) {
                    let i = choose|i: int| 0 <= i < r.len() && #[trigger] r[i].spec_key() == k;
                    if i < p {
                        assert(r[i] == mid[i]);
                    } else if i > p {
                        assert(r[i] == mid[i - 1]);
                    }
                }
                if has_key(mid, k) {
                    let i = choose|i: int| 0 <= i < mid.len() && #[trigger] mid[i].spec_key() == k;
                    if i < p {
                        assert(r[i] == mid[i]);
                    } else {
                        assert(r[i + 1] == mid[i]);
                    }
                }
                if k == last.spec_key() {
                    assert(r[p] == last);
                }
            }
        }
        assert forall|x: T| #[trigger] r.contains(x) implies s.contains(x) || items.contains(x) by {
            if mid.contains(x) {
                if init.contains(x) {
                    let i = choose|i: int| 0 <= i < init.len() && init[i] == x;
                    assert(items[i] == x);
                }
            } else {
                let p = count_before(mid, last.spec_key()) as int;
                let i = choose|i: int| 0 <= i < r.len() && r[i] == x;
                if i < p {
                    assert(r[i] == mid[i]);
                } else if i > p {
                    assert(r[i] == mid[i - 1]);
                }
                assert(items[items.len() - 1] == last);
            }
        }
    }
}

/// Inserts `item` where no item has its key; where one has, nothing
/// changes. Returns whether it was inserted.
pub fn insert_new_by_key<T: Keyed>(v: &mut Vec<T>, item: T) -> (r: bool)
    requires
        sorted_unique(old(v)@),
    ensures
        final(v)@ == spec_insert_new(old(v)@, item),
        sorted_unique(final(v)@),
        r == !has_key(old(v)@, item.spec_key()),
{
    let ghost s0 = v@;
    proof {
        lemma_insert_new_sorted(s0, item);
    }
    match search_key(v, item.key()) {
        Ok(i) => {
            assert(has_key(s0, item.spec_key())) by {
                assert(s0[i as int].spec_key() == item.spec_key());
            }
            false
        },
        Err(i) => {
            proof {
                lemma_absent(s0, i as int, item.spec_key());
            }
            let _ = add_by_key(v, item);
            true
        },
    }
}

/// Two lists whose keys agree position by position have the same keys.
pub proof fn lemma_same_keys<A: Keyed, B: Keyed>(a: Seq<A>, b: Seq<B>, k: Seq<char>)
    requires
        a.len() == b.len(),
        forall|i: int| 0 <= i < a.len() ==> #[trigger] a[i].spec_key() == b[i].spec_key(),
    ensures
        has_key(a, k) == has_key(b, k),
{
    if has_key(a, k) {
        let i = choose|i: int| 0 <= i < a.len() && #[trigger] a[i].spec_key() == k;
        assert(b[i].spec_key() == k);
    }
    if has_key(b, k) {
        let i = choose|i: int| 0 <= i < b.len() && #[trigger] b[i].spec_key() == k;
        assert(a[i].spec_key() == k);
    }
}

/// Adding an item and then looking up its key finds that item; every other
/// key finds what it found before; and what `add` returns is what the key
/// found before.
pub proof fn law_add_then_find<T: Keyed>(before: Seq<T>, item: T, after: Seq<T>, r: Option<T>)
    requires
        sorted_unique(before),
        added(before, item, after, r),
    ensures
        find_key(after, item.spec_key()) == Some(item),
        r == find_key(before, item.spec_key()),
        forall|k: Seq<char>|
            k != item.spec_key() ==> #[trigger] find_key(after, k) == find_key(before, k),
{
    let ik = item.spec_key();
    match r {
        Some(replaced) => {
            let i = choose|i: int|
                0 <= i < before.len() && before[i].spec_key() == ik && replaced == before[i]
                    && after == before.update(i, item);
            assert(after[i] == item);
            lemma_find_at(after, i);
            lemma_find_at(before, i);
            assert forall|k: Seq<char>| k != ik implies #[trigger] find_key(after, k) == find_key(
                before,
                k,
            ) by {
                if has_key(before, k) {
                    let j = key_index(before, k);
                    assert(after[j] == before[j]);
                    lemma_find_at(after, j);
                    lemma_find_at(before, j);
                } else if has_key(after, k) {
                    let j = key_index(after, k);
                    assert(after[j] == before[j]);
                }
            }
        },
        None => {
            let i = choose|i: int| 0 <= i <= before.len() && after == before.insert(i, item);
            assert(after[i] == item);
            lemma_find_at(after, i);
            assert forall|k: Seq<char>| k != ik implies #[trigger] find_key(after, k) == find_key(
                before,
                k,
            ) by {
                if has_key(before, k) {
                    let j = key_index(before, k);
                    let aj = if j < i { j } else { j + 1 };
                    assert(after[aj] == before[j]);
                    lemma_find_at(after, aj);
                    lemma_find_at(before, j);
                } else if has_key(after, k) {
                    let j = key_index(after, k);
                    if j < i {
                        assert(after[j] == before[j]);
                    } else if j > i {
                        assert(after[j] == before[j - 1]);
                    }
                }
            }
        },
    }
}

/// Removing a key and then looking it up finds nothing; every other key
/// finds what it found before; and what `remove` returns is what the key
/// found before.
pub proof fn law_remove_then_find<T: Keyed>(
    before: Seq<T>,
    k: Seq<char>,
    after: Seq<T>,
    r: Option<T>,
)
    requires
        sorted_unique(before),
        removed(before, k, after, r),
    ensures
        find_key(after, k) is None,
        r == find_key(before, k),
        forall|other: Seq<char>|
            other != k ==> #[trigger] find_key(after, other) == find_key(before, other),
{
    match r {
        Some(item) => {
            let i = choose|i: int|
                0 <= i < before.len() && before[i].spec_key() == k && item == before[i] && after
                    == before.remove(i);
            lemma_find_at(before, i);
            if has_key(after, k) {
                let j = key_index(after, k);
                let bj = if j < i { j } else { j + 1 };
                assert(after[j] == before[bj]);
                lemma_key_determines_index(before, i, bj);
            }
            assert forall|other: Seq<char>| other != k implies #[trigger] find_key(
                after,
                other,
            ) == find_key(before, other) by {
                if has_key(before, other) {
                    let j = key_index(before, other);
                    assert(j != i);
                    let aj = if j < i { j } else { j - 1 };
                    assert(after[aj] == before[j]);
                    lemma_find_at(after, aj);
                    lemma_find_at(before, j);
                } else if has_key(after, other) {
                    let j = key_index(after, other);
                    let bj = if j < i { j } else { j + 1 };
                    assert(after[j] == before[bj]);
                }
            }
        },
        None => {
        },
    }
}

/// Adding an item whose key is new and then removing that key gives back
/// the list as it was.
pub proof fn law_add_new_then_remove<T: Keyed>(
    before: Seq<T>,
    item: T,
    middle: Seq<T>,
    after: Seq<T>,
    r: Option<T>,
)
    requires
        sorted_unique(before),
        !has_key(before, item.spec_key()),
        added(before, item, middle, None),
        removed(middle, item.spec_key(), after, r),
    ensures
        after == before,
        r == Some(item),
{
    let i = choose|i: int| 0 <= i <= before.len() && middle == before.insert(i, item);
    assert(middle[i] == item);
    match r {
        Some(x) => {
            let j = choose|j: int|
                0 <= j < middle.len() && middle[j].spec_key() == item.spec_key() && x == middle[j]
                    && after == middle.remove(j);
            lemma_key_determines_index(middle, i, j);
            assert(after =~= before);
        },
        None => {
            assert(has_key(middle, item.spec_key()));
        },
    }
}

proof fn text_lemma_asym(a: Seq<char>, b: Seq<char>)
    requires
        lex_lt(a, b),
    ensures
        !lex_lt(b, a),
{
    crate::text::lemma_lex_lt_asymmetric(a, b);
}

} // verus!
