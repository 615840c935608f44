//! Ordering of text keys, stable sorting, and merging of record lists whose
//! items are identified by a key.
use vstd::prelude::*;

use crate::text::chars_of;

verus! {

/// Lexicographic order on character sequences by code point, which is the
/// order of `String`'s comparison (UTF-8 preserves code-point order).
pub open spec fn text_le(a: Seq<char>, b: Seq<char>) -> bool
    decreases a.len(),
{
    if a.len() == 0 {
        true
    } else if b.len() == 0 {
        false
    } else if a[0] < b[0] {
        true
    } else if a[0] > b[0] {
        false
    } else {
        text_le(a.drop_first(), b.drop_first())
    }
}

pub open spec fn text_lt(a: Seq<char>, b: Seq<char>) -> bool {
    text_le(a, b) && a != b
}

pub proof fn lemma_text_le_total(a: Seq<char>, b: Seq<char>)
    ensures
        text_le(a, b) || text_le(b, a),
    decreases a.len(),
{
    if a.len() > 0 && b.len() > 0 && a[0] == b[0] {
        lemma_text_le_total(a.drop_first(), b.drop_first());
    }
}

pub proof fn lemma_text_le_trans(a: Seq<char>, b: Seq<char>, c: Seq<char>)
    requires
        text_le(a, b),
        text_le(b, c),
    ensures
        text_le(a, c),
    decreases a.len(),
{
    if a.len() > 0 && b.len() > 0 && c.len() > 0 && a[0] == b[0] && b[0] == c[0] {
        lemma_text_le_trans(a.drop_first(), b.drop_first(), c.drop_first());
    }
}

pub proof fn lemma_text_le_antisym(a: Seq<char>, b: Seq<char>)
    requires
        text_le(a, b),
        text_le(b, a),
    ensures
        a == b,
    decreases a.len(),
{
    if a.len() > 0 && b.len() > 0 {
        lemma_text_le_antisym(a.drop_first(), b.drop_first());
        assert(a =~= seq![a[0]] + a.drop_first());
        assert(b =~= seq![b[0]] + b.drop_first());
    } else if a.len() == 0 && b.len() == 0 {
        assert(a =~= b);
    }
}

pub proof fn lemma_text_le_refl(a: Seq<char>)
    ensures
        text_le(a, a),
    decreases a.len(),
{
    if a.len() > 0 {
        lemma_text_le_refl(a.drop_first());
    }
}

/// Three-way comparison of two texts: negative, zero or positive as `a` comes
/// before, equals or comes after `b`.
pub fn compare_text(a: &String, b: &String) -> (r: i8)
    ensures
        (r == 0) == (a@ == b@),
        (r < 0) == text_lt(a@, b@),
        (r > 0) == text_lt(b@, a@),
        (r <= 0) == text_le(a@, b@),
{
    proof {
        lemma_text_le_refl(a@);
    }
    let x = chars_of(a.as_str());
    let y = chars_of(b.as_str());
    let mut i: usize = 0;
    while i < x.len() && i < y.len() && x[i] == y[i]
        invariant
            x@ == a@,
            y@ == b@,
            i <= x@.len(),
            i <= y@.len(),
            x@.take(i as int) == y@.take(i as int),
        decreases x@.len() - i,
    {
        assert(x@.take(i + 1) =~= x@.take(i as int).push(x@[i as int]));
        assert(y@.take(i + 1) =~= y@.take(i as int).push(y@[i as int]));
        i = i + 1;
    }
    proof {
        lemma_text_le_suffix(a@, b@, i as int);
        lemma_text_le_suffix(b@, a@, i as int);
    }
    let ghost sa = a@.skip(i as int);
    let ghost sb = b@.skip(i as int);
    if i == x.len() && i == y.len() {
        assert(a@ =~= x@.take(i as int));
        assert(b@ =~= y@.take(i as int));
        0
    } else if i == x.len() {
        assert(a@ != b@) by {
            assert(a@.len() != b@.len());
        }
        assert(sa.len() == 0 && sb.len() > 0);
        assert(text_le(sa, sb));
        assert(!text_le(sb, sa));
        -1
    } else if i == y.len() {
        assert(a@ != b@) by {
            assert(a@.len() != b@.len());
        }
        assert(sb.len() == 0 && sa.len() > 0);
        assert(text_le(sb, sa));
        assert(!text_le(sa, sb));
        1
    } else {
        let cx = x[i];
        let cy = y[i];
        assert(sa[0] == cx && sb[0] == cy);
        assert(cx != cy);
        assert(a@ != b@) by {
            assert(a@[i as int] != b@[i as int]);
        }
        if cx < cy {
            assert(text_le(sa, sb));
            assert(!text_le(sb, sa));
            -1
        } else {
            assert(text_le(sb, sa));
            assert(!text_le(sa, sb));
            1
        }
    }
}

/// Comparing two texts that agree on their first `i` characters comes down
/// to comparing what follows.
proof fn lemma_text_le_suffix(a: Seq<char>, b: Seq<char>, i: int)
    requires
        0 <= i <= a.len(),
        i <= b.len(),
        a.take(i) == b.take(i),
    ensures
        text_le(a, b) == text_le(a.skip(i), b.skip(i)),
    decreases i,
{
    if i > 0 {
        assert(a[0] == a.take(i)[0]);
        assert(b[0] == b.take(i)[0]);
        assert(a.drop_first().take(i - 1) =~= a.take(i).drop_first());
        assert(b.drop_first().take(i - 1) =~= b.take(i).drop_first());
        lemma_text_le_suffix(a.drop_first(), b.drop_first(), i - 1);
        assert(a.drop_first().skip(i - 1) =~= a.skip(i));
        assert(b.drop_first().skip(i - 1) =~= b.skip(i));
    } else {
        assert(a.skip(0) =~= a);
        assert(b.skip(0) =~= b);
    }
}

/// A total preorder on the views of `T`, with an executable test.
pub trait RecordOrder<T: View> {
    spec fn le(a: T::V, b: T::V) -> bool;

    proof fn lemma_total(a: T::V, b: T::V)
        ensures
            Self::le(a, b) || Self::le(b, a),
    ;

    proof fn lemma_trans(a: T::V, b: T::V, c: T::V)
        requires
            Self::le(a, b),
            Self::le(b, c),
        ensures
            Self::le(a, c),
    ;

    fn le_exec(a: &T, b: &T) -> (r: bool)
        ensures
            r == Self::le(a@, b@),
    ;
}

/// The identity of a record: two records with the same key stand for the
/// same thing.
pub trait RecordKey: View + Sized {
    spec fn same_key(a: Self::V, b: Self::V) -> bool;

    proof fn lemma_same_key_refl(a: Self::V)
        ensures
            Self::same_key(a, a),
    ;

    proof fn lemma_same_key_sym(a: Self::V, b: Self::V)
        requires
            Self::same_key(a, b),
        ensures
            Self::same_key(b, a),
    ;

    fn same_key_exec(&self, other: &Self) -> (r: bool)
        ensures
            r == Self::same_key(self@, other@),
    ;
}

pub open spec fn views_of<T: View>(s: Seq<T>) -> Seq<T::V> {
    s.map_values(|x: T| x@)
}

/// Inserts `x` into `s` after the last element that is not greater than it.
pub open spec fn sorted_insert<T: View, O: RecordOrder<T>>(s: Seq<T::V>, x: T::V) -> Seq<T::V>
    decreases s.len(),
{
    if s.len() == 0 {
        seq![x]
    } else if O::le(s.last(), x) {
        s.push(x)
    } else {
        sorted_insert::<T, O>(s.drop_last(), x).push(s.last())
    }
}

/// Stable sort: `s` sorted by `O`, with equal elements in their original order.
pub open spec fn stable_sort<T: View, O: RecordOrder<T>>(s: Seq<T::V>) -> Seq<T::V>
    decreases s.len(),
{
    if s.len() == 0 {
        seq![]
    } else {
        sorted_insert::<T, O>(stable_sort::<T, O>(s.drop_last()), s.last())
    }
}

pub open spec fn is_sorted<T: View, O: RecordOrder<T>>(s: Seq<T::V>) -> bool {
    forall|i: int, j: int| 0 <= i < j < s.len() ==> O::le(s[i], s[j])
}

pub open spec fn has_key<T: RecordKey>(s: Seq<T::V>, x: T::V) -> bool {
    exists|i: int| 0 <= i < s.len() && T::same_key(s[i], x)
}

/// Adds the incoming records, in order, whose key is not present yet.
pub open spec fn absorb<T: RecordKey>(acc: Seq<T::V>, incoming: Seq<T::V>) -> Seq<T::V>
    decreases incoming.len(),
{
    if incoming.len() == 0 {
        acc
    } else {
        let next = if has_key::<T>(acc, incoming[0]) {
            acc
        } else {
            acc.push(incoming[0])
        };
        absorb::<T>(next, incoming.drop_first())
    }
}

/// The merge of two record lists: the primary records, then each secondary
/// record whose key is new, all stably sorted.
pub open spec fn merge_records<T: RecordKey, O: RecordOrder<T>>(
    primary: Seq<T::V>,
    secondary: Seq<T::V>,
) -> Seq<T::V> {
    stable_sort::<T, O>(absorb::<T>(primary, secondary))
}

/// Inserting at position `j` is `sorted_insert` when everything from `j` on
/// is greater than `x` and the element before `j` is not.
proof fn lemma_insert_at<T: View, O: RecordOrder<T>>(s: Seq<T::V>, x: T::V, j: int)
    requires
        0 <= j <= s.len(),
        forall|k: int| j <= k < s.len() ==> !O::le(#[trigger] s[k], x),
        j > 0 ==> O::le(s[j - 1], x),
    ensures
        sorted_insert::<T, O>(s, x) == s.insert(j, x),
    decreases s.len(),
{
    if s.len() == 0 {
        assert(s.insert(j, x) =~= seq![x]);
    } else if j == s.len() {
        assert(s.insert(j, x) =~= s.push(x));
    } else {
        let t = s.drop_last();
        assert(!O::le(s[s.len() - 1], x));
        assert forall|k: int| j <= k < t.len() implies !O::le(#[trigger] t[k], x) by {
            assert(t[k] == s[k]);
        }
        if j > 0 {
            assert(t[j - 1] == s[j - 1]);
        }
        lemma_insert_at::<T, O>(t, x, j);
        assert(t.insert(j, x).push(s.last()) =~= s.insert(j, x));
    }
}

/// Sorts `v` stably by `O`.
pub fn sort_records<T: View, O: RecordOrder<T>>(v: Vec<T>) -> (r: Vec<T>)
    ensures
        views_of(r@) == stable_sort::<T, O>(views_of(v@)),
{
    let mut input = v;
    let ghost original = views_of(input@);
    let total = input.len();
    assert(original.len() == total);
    let mut out: Vec<T> = Vec::new();
    let mut done: usize = 0;
    while input.len() > 0
        invariant
            done + input@.len() == original.len(),
            original.len() <= usize::MAX,
            views_of(input@) == original.skip(done as int),
            views_of(out@) == stable_sort::<T, O>(original.take(done as int)),
        decreases input@.len(),
    {
        let ghost input_before = input@;
        let x = input.remove(0);
        let ghost xv = x@;
        assert(xv == original[done as int]) by {
            assert(views_of(input_before)[0] == input_before[0]@);
            assert(original.skip(done as int)[0] == original[done as int]);
        }
        let mut j = out.len();
        while j > 0 && !O::le_exec(&out[j - 1], &x)
            invariant
                j <= out@.len(),
                x@ == xv,
                forall|k: int| j <= k < out@.len() ==> !O::le(#[trigger] views_of(out@)[k], xv),
            decreases j,
        {
            j = j - 1;
        }
        proof {
            lemma_insert_at::<T, O>(views_of(out@), xv, j as int);
            assert(original.take(done + 1).drop_last() =~= original.take(done as int));
            assert(original.take(done + 1).last() == xv);
        }
        let ghost out_before = out@;
        out.insert(j, x);
        assert(views_of(out@) =~= views_of(out_before).insert(j as int, xv));
        done = done + 1;
        assert(views_of(input@) =~= views_of(input_before).drop_first());
        assert(views_of(input@) =~= original.skip(done as int));
        assert(views_of(out@) == stable_sort::<T, O>(original.take(done as int)));
    }
    assert(original.take(done as int) =~= original);
    out
}

pub open spec fn keys_unique<T: RecordKey>(s: Seq<T::V>) -> bool {
    forall|i: int, j: int| 0 <= i < j < s.len() ==> !T::same_key(s[i], s[j])
}

/// Whether some record of `acc` has the key of `x`.
pub fn contains_key<T: RecordKey>(acc: &Vec<T>, x: &T) -> (r: bool)
    ensures
        r == has_key::<T>(views_of(acc@), x@),
{
    let mut i: usize = 0;
    while i < acc.len()
        invariant
            i <= acc@.len(),
            forall|k: int| 0 <= k < i ==> !T::same_key(#[trigger] views_of(acc@)[k], x@),
        decreases acc@.len() - i,
    {
        if acc[i].same_key_exec(x) {
            assert(views_of(acc@)[i as int] == acc@[i as int]@);
            return true;
        }
        i = i + 1;
    }
    false
}

/// Merges two record lists: keeps every primary record, adds each secondary
/// record whose key is not present yet, then sorts stably by `O`.
pub fn merge_record_lists<T: RecordKey, O: RecordOrder<T>>(primary: Vec<T>, secondary: Vec<T>) -> (r:
    Vec<T>)
    ensures
        views_of(r@) == merge_records::<T, O>(views_of(primary@), views_of(secondary@)),
{
    let ghost p = views_of(primary@);
    let ghost q = views_of(secondary@);
    let mut acc = primary;
    let mut incoming = secondary;
    while incoming.len() > 0
        invariant
            absorb::<T>(views_of(acc@), views_of(incoming@)) == absorb::<T>(p, q),
        decreases incoming@.len(),
    {
        let ghost before_in = incoming@;
        let ghost before_acc = views_of(acc@);
        let x = incoming.remove(0);
        assert(views_of(before_in)[0] == x@);
        assert(views_of(incoming@) =~= views_of(before_in).drop_first());
        if !contains_key(&acc, &x) {
            acc.push(x);
            assert(views_of(acc@) =~= before_acc.push(views_of(before_in)[0]));
        }
    }
    assert(absorb::<T>(views_of(acc@), views_of(incoming@)) == views_of(acc@));
    sort_records::<T, O>(acc)
}

/// Where `sorted_insert` places `x`.
pub proof fn lemma_sorted_insert_pos<T: View, O: RecordOrder<T>>(s: Seq<T::V>, x: T::V) -> (j: int)
    ensures
        0 <= j <= s.len(),
        sorted_insert::<T, O>(s, x) == s.insert(j, x),
    decreases s.len(),
{
    if s.len() == 0 {
        assert(s.insert(0, x) =~= seq![x]);
        0
    } else if O::le(s.last(), x) {
        assert(s.insert(s.len() as int, x) =~= s.push(x));
        s.len() as int
    } else {
        let t = s.drop_last();
        let j = lemma_sorted_insert_pos::<T, O>(t, x);
        assert(t.insert(j, x).push(s.last()) =~= s.insert(j, x));
        j
    }
}

proof fn lemma_sorted_insert_sorted<T: View, O: RecordOrder<T>>(s: Seq<T::V>, x: T::V)
    requires
        is_sorted::<T, O>(s),
    ensures
        is_sorted::<T, O>(sorted_insert::<T, O>(s, x)),
    decreases s.len(),
{
    if s.len() == 0 {
    } else if O::le(s.last(), x) {
        let r = s.push(x);
        assert forall|i: int, j: int| 0 <= i < j < r.len() implies O::le(r[i], r[j]) by {
            if j == s.len() {
                if i < s.len() - 1 {
                    O::lemma_trans(s[i], s.last(), x);
                }
            }
        }
    } else {
        let t = s.drop_last();
        let last = s.last();
        assert(is_sorted::<T, O>(t));
        lemma_sorted_insert_sorted::<T, O>(t, x);
        let inner = sorted_insert::<T, O>(t, x);
        let j = lemma_sorted_insert_pos::<T, O>(t, x);
        O::lemma_total(last, x);
        let r = inner.push(last);
        assert forall|i: int, k: int| 0 <= i < k < r.len() implies O::le(r[i], r[k]) by {
            if k == inner.len() {
                if i < j {
                    assert(r[i] == t[i]);
                } else if i > j {
                    assert(r[i] == t[i - 1]);
                }
            }
        }
    }
}

/// A stable sort gives a sorted list.
pub proof fn lemma_stable_sort_sorted<T: View, O: RecordOrder<T>>(s: Seq<T::V>)
    ensures
        is_sorted::<T, O>(stable_sort::<T, O>(s)),
    decreases s.len(),
{
    if s.len() > 0 {
        lemma_stable_sort_sorted::<T, O>(s.drop_last());
        lemma_sorted_insert_sorted::<T, O>(stable_sort::<T, O>(s.drop_last()), s.last());
    }
}

/// A stable sort neither loses nor adds records.
pub proof fn lemma_stable_sort_permutes<T: View, O: RecordOrder<T>>(s: Seq<T::V>)
    ensures
        stable_sort::<T, O>(s).to_multiset() == s.to_multiset(),
    decreases s.len(),
{
    broadcast use vstd::seq_lib::group_to_multiset_ensures;

    if s.len() > 0 {
        let t = s.drop_last();
        lemma_stable_sort_permutes::<T, O>(t);
        let st = stable_sort::<T, O>(t);
        let j = lemma_sorted_insert_pos::<T, O>(st, s.last());
        vstd::seq_lib::to_multiset_insert(st, j, s.last());
        assert(s =~= t.push(s.last()));
        assert(s.to_multiset() =~= t.to_multiset().insert(s.last()));
    }
}

/// Sorting a list that is already sorted leaves it as it is.
pub proof fn lemma_stable_sort_sorted_fixed<T: View, O: RecordOrder<T>>(s: Seq<T::V>)
    requires
        is_sorted::<T, O>(s),
    ensures
        stable_sort::<T, O>(s) == s,
    decreases s.len(),
{
    if s.len() > 0 {
        let t = s.drop_last();
        assert(is_sorted::<T, O>(t));
        lemma_stable_sort_sorted_fixed::<T, O>(t);
        if t.len() > 0 {
            assert(O::le(t.last(), s.last()));
        }
        assert(t.push(s.last()) =~= s);
    }
}

/// Absorbing keeps what was there, in place.
pub proof fn lemma_absorb_prefix<T: RecordKey>(acc: Seq<T::V>, incoming: Seq<T::V>)
    ensures
        absorb::<T>(acc, incoming).len() >= acc.len(),
        absorb::<T>(acc, incoming).take(acc.len() as int) == acc,
    decreases incoming.len(),
{
    if incoming.len() > 0 {
        let next = if has_key::<T>(acc, incoming[0]) {
            acc
        } else {
            acc.push(incoming[0])
        };
        lemma_absorb_prefix::<T>(next, incoming.drop_first());
        assert(next.take(acc.len() as int) =~= acc);
        assert(absorb::<T>(acc, incoming).take(acc.len() as int) =~= absorb::<T>(
            next,
            incoming.drop_first(),
        ).take(next.len() as int).take(acc.len() as int));
    } else {
        assert(acc.take(acc.len() as int) =~= acc);
    }
}

/// After absorbing, every incoming record's key is present.
pub proof fn lemma_absorb_covers<T: RecordKey>(acc: Seq<T::V>, incoming: Seq<T::V>, i: int)
    requires
        0 <= i < incoming.len(),
    ensures
        has_key::<T>(absorb::<T>(acc, incoming), incoming[i]),
    decreases incoming.len(),
{
    let next = if has_key::<T>(acc, incoming[0]) {
        acc
    } else {
        acc.push(incoming[0])
    };
    if i == 0 {
        let w = if has_key::<T>(acc, incoming[0]) {
            choose|k: int| 0 <= k < acc.len() && T::same_key(acc[k], incoming[0])
        } else {
            T::lemma_same_key_refl(incoming[0]);
            acc.len() as int
        };
        assert(T::same_key(next[w], incoming[0]));
        lemma_absorb_prefix::<T>(next, incoming.drop_first());
        let r = absorb::<T>(next, incoming.drop_first());
        assert(r[w] == r.take(next.len() as int)[w]);
        assert(T::same_key(r[w], incoming[0]));
    } else {
        lemma_absorb_covers::<T>(next, incoming.drop_first(), i - 1);
    }
}

/// Every absorbed record comes from what was there or from what came in.
pub proof fn lemma_absorb_from<T: RecordKey>(acc: Seq<T::V>, incoming: Seq<T::V>, k: int)
    requires
        0 <= k < absorb::<T>(acc, incoming).len(),
    ensures
        acc.contains(absorb::<T>(acc, incoming)[k]) || incoming.contains(
            absorb::<T>(acc, incoming)[k],
        ),
    decreases incoming.len(),
{
    if incoming.len() > 0 {
        let next = if has_key::<T>(acc, incoming[0]) {
            acc
        } else {
            acc.push(incoming[0])
        };
        lemma_absorb_from::<T>(next, incoming.drop_first(), k);
        let x = absorb::<T>(acc, incoming)[k];
        if next.contains(x) {
            let w = choose|w: int| 0 <= w < next.len() && next[w] == x;
            if w < acc.len() {
                assert(acc[w] == x);
            } else {
                assert(incoming[0] == x);
            }
        } else {
            let w = choose|w: int| 0 <= w < incoming.drop_first().len() && incoming.drop_first()[w]
                == x;
            assert(incoming[w + 1] == x);
        }
    }
}

/// Absorbing records whose keys are all present already changes nothing.
pub proof fn lemma_absorb_known<T: RecordKey>(acc: Seq<T::V>, incoming: Seq<T::V>)
    requires
        forall|i: int| 0 <= i < incoming.len() ==> has_key::<T>(acc, #[trigger] incoming[i]),
    ensures
        absorb::<T>(acc, incoming) == acc,
    decreases incoming.len(),
{
    if incoming.len() > 0 {
        assert(has_key::<T>(acc, incoming[0]));
        assert forall|i: int| 0 <= i < incoming.drop_first().len() implies has_key::<T>(
            acc,
            #[trigger] incoming.drop_first()[i],
        ) by {
            assert(incoming.drop_first()[i] == incoming[i + 1]);
        }
        lemma_absorb_known::<T>(acc, incoming.drop_first());
    }
}

/// Absorbing keeps keys unique.
pub proof fn lemma_absorb_unique<T: RecordKey>(acc: Seq<T::V>, incoming: Seq<T::V>)
    requires
        keys_unique::<T>(acc),
    ensures
        keys_unique::<T>(absorb::<T>(acc, incoming)),
    decreases incoming.len(),
{
    if incoming.len() > 0 {
        let next = if has_key::<T>(acc, incoming[0]) {
            acc
        } else {
            acc.push(incoming[0])
        };
        if !has_key::<T>(acc, incoming[0]) {
            assert forall|i: int, j: int| 0 <= i < j < next.len() implies !T::same_key(
                next[i],
                next[j],
            ) by {
                if j == acc.len() {
                    assert(!T::same_key(acc[i], incoming[0]));
                }
            }
        }
        lemma_absorb_unique::<T>(next, incoming.drop_first());
    }
}

/// Merging a sorted list with itself gives it back unchanged.
pub proof fn lemma_merge_records_self<T: RecordKey, O: RecordOrder<T>>(s: Seq<T::V>)
    requires
        is_sorted::<T, O>(s),
    ensures
        merge_records::<T, O>(s, s) == s,
{
    assert forall|i: int| 0 <= i < s.len() implies has_key::<T>(s, #[trigger] s[i]) by {
        T::lemma_same_key_refl(s[i]);
    }
    lemma_absorb_known::<T>(s, s);
    lemma_stable_sort_sorted_fixed::<T, O>(s);
}

/// Merging the same secondary list into a merge result again changes nothing.
pub proof fn lemma_merge_records_again<T: RecordKey, O: RecordOrder<T>>(
    primary: Seq<T::V>,
    secondary: Seq<T::V>,
)
    ensures
        merge_records::<T, O>(merge_records::<T, O>(primary, secondary), secondary)
            == merge_records::<T, O>(primary, secondary),
{
    let m = merge_records::<T, O>(primary, secondary);
    lemma_merge_records_laws::<T, O>(primary, secondary);
    lemma_absorb_known::<T>(m, secondary);
    lemma_stable_sort_sorted_fixed::<T, O>(m);
}

/// What a stable sort returns holds exactly the records it was given.
pub proof fn lemma_stable_sort_contains<T: View, O: RecordOrder<T>>(s: Seq<T::V>, y: T::V)
    ensures
        stable_sort::<T, O>(s).contains(y) == s.contains(y),
{
    lemma_stable_sort_permutes::<T, O>(s);
    vstd::seq_lib::to_multiset_contains(s, y);
    vstd::seq_lib::to_multiset_contains(stable_sort::<T, O>(s), y);
}

/// A stable sort keeps keys unique.
pub proof fn lemma_stable_sort_unique<T: RecordKey, O: RecordOrder<T>>(s: Seq<T::V>)
    requires
        keys_unique::<T>(s),
    ensures
        keys_unique::<T>(stable_sort::<T, O>(s)),
    decreases s.len(),
{
    if s.len() > 0 {
        let t = s.drop_last();
        let x = s.last();
        assert(keys_unique::<T>(t));
        lemma_stable_sort_unique::<T, O>(t);
        let st = stable_sort::<T, O>(t);
        let j = lemma_sorted_insert_pos::<T, O>(st, x);
        assert forall|k: int| 0 <= k < st.len() implies !T::same_key(#[trigger] st[k], x)
            && !T::same_key(x, st[k]) by {
            lemma_stable_sort_contains::<T, O>(t, st[k]);
            assert(st.contains(st[k]));
            let w = choose|w: int| 0 <= w < t.len() && t[w] == st[k];
            assert(!T::same_key(s[w], s[s.len() - 1]));
            if T::same_key(x, st[k]) {
                T::lemma_same_key_sym(x, st[k]);
            }
        }
        let r = st.insert(j, x);
        assert forall|a: int, b: int| 0 <= a < b < r.len() implies !T::same_key(r[a], r[b]) by {
            if a < j && b < j {
                assert(r[a] == st[a] && r[b] == st[b]);
            } else if a < j && b == j {
                assert(r[a] == st[a]);
            } else if a < j {
                assert(r[a] == st[a] && r[b] == st[b - 1]);
            } else if a == j {
                assert(r[b] == st[b - 1]);
            } else {
                assert(r[a] == st[a - 1] && r[b] == st[b - 1]);
            }
        }
    }
}

/// What every merge of record lists guarantees: the result is sorted, holds
/// every primary record, holds a record with the key of every secondary
/// record, holds nothing but primary and secondary records, and has unique
/// keys when the primary list has.
pub proof fn lemma_merge_records_laws<T: RecordKey, O: RecordOrder<T>>(
    primary: Seq<T::V>,
    secondary: Seq<T::V>,
)
    ensures
        is_sorted::<T, O>(merge_records::<T, O>(primary, secondary)),
        forall|i: int|
            0 <= i < primary.len() ==> merge_records::<T, O>(primary, secondary).contains(
                #[trigger] primary[i],
            ),
        forall|i: int|
            0 <= i < secondary.len() ==> has_key::<T>(
                merge_records::<T, O>(primary, secondary),
                #[trigger] secondary[i],
            ),
        forall|k: int|
            0 <= k < merge_records::<T, O>(primary, secondary).len() ==> primary.contains(
                #[trigger] merge_records::<T, O>(primary, secondary)[k],
            ) || secondary.contains(merge_records::<T, O>(primary, secondary)[k]),
        keys_unique::<T>(primary) ==> keys_unique::<T>(merge_records::<T, O>(primary, secondary)),
{
    let a = absorb::<T>(primary, secondary);
    let m = merge_records::<T, O>(primary, secondary);
    lemma_stable_sort_sorted::<T, O>(a);
    lemma_absorb_prefix::<T>(primary, secondary);
    assert forall|i: int| 0 <= i < primary.len() implies m.contains(#[trigger] primary[i]) by {
        assert(a[i] == a.take(primary.len() as int)[i]);
        assert(a.contains(primary[i]));
        lemma_stable_sort_contains::<T, O>(a, primary[i]);
    }
    assert forall|i: int| 0 <= i < secondary.len() implies has_key::<T>(
        m,
        #[trigger] secondary[i],
    ) by {
        lemma_absorb_covers::<T>(primary, secondary, i);
        let w = choose|w: int| 0 <= w < a.len() && T::same_key(a[w], secondary[i]);
        assert(a.contains(a[w]));
        lemma_stable_sort_contains::<T, O>(a, a[w]);
        let v = choose|v: int| 0 <= v < m.len() && m[v] == a[w];
        assert(T::same_key(m[v], secondary[i]));
    }
    assert forall|k: int| 0 <= k < m.len() implies primary.contains(#[trigger] m[k])
        || secondary.contains(m[k]) by {
        assert(m.contains(m[k]));
        lemma_stable_sort_contains::<T, O>(a, m[k]);
        let w = choose|w: int| 0 <= w < a.len() && a[w] == m[k];
        lemma_absorb_from::<T>(primary, secondary, w);
    }
    if keys_unique::<T>(primary) {
        lemma_absorb_unique::<T>(primary, secondary);
        lemma_stable_sort_unique::<T, O>(a);
    }
}

/// What a merge of record lists owes: the result is sorted, holds every
/// primary record, holds a record with the key of every secondary record,
/// and holds nothing else.
pub open spec fn merge_respects<T: RecordKey, O: RecordOrder<T>>(
    primary: Seq<T::V>,
    secondary: Seq<T::V>,
    merged: Seq<T::V>,
) -> bool {
    &&& is_sorted::<T, O>(merged)
    &&& forall|i: int| 0 <= i < primary.len() ==> merged.contains(#[trigger] primary[i])
    &&& forall|i: int| 0 <= i < secondary.len() ==> has_key::<T>(merged, #[trigger] secondary[i])
    &&& forall|k: int|
        0 <= k < merged.len() ==> primary.contains(#[trigger] merged[k]) || secondary.contains(
            merged[k],
        )
    &&& keys_unique::<T>(primary) ==> keys_unique::<T>(merged)
}

pub proof fn lemma_merge_respects<T: RecordKey, O: RecordOrder<T>>(
    primary: Seq<T::V>,
    secondary: Seq<T::V>,
)
    ensures
        merge_respects::<T, O>(primary, secondary, merge_records::<T, O>(primary, secondary)),
{
    lemma_merge_records_laws::<T, O>(primary, secondary);
}

/// `sorted` is `original` put in the order `O`, nothing lost or added.
pub open spec fn sorted_permutation<T: View, O: RecordOrder<T>>(
    original: Seq<T::V>,
    sorted: Seq<T::V>,
) -> bool {
    is_sorted::<T, O>(sorted) && sorted.to_multiset() == original.to_multiset()
}

pub proof fn lemma_stable_sort_is_sorted_permutation<T: View, O: RecordOrder<T>>(s: Seq<T::V>)
    ensures
        sorted_permutation::<T, O>(s, stable_sort::<T, O>(s)),
{
    lemma_stable_sort_sorted::<T, O>(s);
    lemma_stable_sort_permutes::<T, O>(s);
}

} // verus!
