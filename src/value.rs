use vstd::prelude::*;

verus! {

/// A value that can stand as a query argument.
#[derive(Debug)]
pub enum Value {
    Null,
    Bool(bool),
    Int(i64),
    String(String),
    List(Vec<Value>),
    /// Ordered key/value entries.
    Object(Vec<(String, Value)>),
}

/// The position of the first entry whose key is `k`, or -1 when there is none.
pub open spec fn find_key(entries: Seq<(String, Value)>, k: Seq<char>) -> int
    decreases entries.len(),
{
    if entries.len() == 0 {
        -1
    } else {
        let r = find_key(entries.drop_last(), k);
        if r >= 0 {
            r
        } else if entries.last().0@ == k {
            entries.len() - 1
        } else {
            -1
        }
    }
}

/// Inserts `(k, v)` into `entries`: an entry with key `k` keeps its position
/// and takes the new value; otherwise the pair is appended.
pub open spec fn insert_entry(entries: Seq<(String, Value)>, k: String, v: Value) -> Seq<(String, Value)> {
    let i = find_key(entries, k@);
    if i >= 0 {
        entries.update(i, (entries[i].0, v))
    } else {
        entries.push((k, v))
    }
}

/// The entries of the object that merges `pairs` from left to right.
pub open spec fn merge_entries(pairs: Seq<(String, Value)>) -> Seq<(String, Value)>
    decreases pairs.len(),
{
    if pairs.len() == 0 {
        Seq::empty()
    } else {
        insert_entry(merge_entries(pairs.drop_last()), pairs.last().0, pairs.last().1)
    }
}

/// Keys of `entries` are pairwise distinct.
pub open spec fn keys_unique(entries: Seq<(String, Value)>) -> bool {
    forall|i: int, j: int|
        0 <= i < j < entries.len() ==> entries[i].0@ != entries[j].0@
}

pub proof fn lemma_find_key(entries: Seq<(String, Value)>, k: Seq<char>)
    ensures
        -1 <= find_key(entries, k) < entries.len(),
        find_key(entries, k) >= 0 ==> entries[find_key(entries, k)].0@ == k,
        find_key(entries, k) >= 0 ==> forall|j: int|
            0 <= j < find_key(entries, k) ==> entries[j].0@ != k,
        find_key(entries, k) < 0 ==> forall|j: int| 0 <= j < entries.len() ==> entries[j].0@ != k,
    decreases entries.len(),
{
    if entries.len() > 0 {
        let prefix = entries.drop_last();
        lemma_find_key(prefix, k);
        assert forall|j: int| 0 <= j < prefix.len() implies prefix[j] == entries[j] by {}
    }
}

/// The position of the last pair whose key is `k`, or -1 when there is none.
pub open spec fn last_key(pairs: Seq<(String, Value)>, k: Seq<char>) -> int
    decreases pairs.len(),
{
    if pairs.len() == 0 {
        -1
    } else if pairs.last().0@ == k {
        pairs.len() - 1
    } else {
        last_key(pairs.drop_last(), k)
    }
}

pub proof fn lemma_last_key(pairs: Seq<(String, Value)>, k: Seq<char>)
    ensures
        -1 <= last_key(pairs, k) < pairs.len(),
        last_key(pairs, k) >= 0 <==> find_key(pairs, k) >= 0,
        last_key(pairs, k) >= 0 ==> pairs[last_key(pairs, k)].0@ == k,
    decreases pairs.len(),
{
    lemma_find_key(pairs, k);
    if pairs.len() > 0 {
        lemma_last_key(pairs.drop_last(), k);
        lemma_find_key(pairs.drop_last(), k);
    }
}

/// Merging pairs into an object gives one entry per distinct key, in the
/// order in which the keys first occur among the pairs, and each entry holds
/// the value of the last pair with its key.
pub proof fn lemma_merge_entries(pairs: Seq<(String, Value)>)
    ensures
        keys_unique(merge_entries(pairs)),
        forall|i: int|
            0 <= i < pairs.len() ==> find_key(merge_entries(pairs), #[trigger] pairs[i].0@) >= 0,
        forall|j: int|
            0 <= j < merge_entries(pairs).len() ==> {
                &&& find_key(pairs, #[trigger] merge_entries(pairs)[j].0@) >= 0
                &&& merge_entries(pairs)[j].1 == pairs[last_key(pairs, merge_entries(pairs)[j].0@)].1
            },
        forall|j1: int, j2: int|
            0 <= j1 < j2 < merge_entries(pairs).len() ==> find_key(
                pairs,
                #[trigger] merge_entries(pairs)[j1].0@,
            ) < find_key(pairs, #[trigger] merge_entries(pairs)[j2].0@),
    decreases pairs.len(),
{
    if pairs.len() > 0 {
        let pre = pairs.drop_last();
        let prev = merge_entries(pre);
        let p = pairs.last();
        let k = p.0@;
        let m = merge_entries(pairs);
        lemma_merge_entries(pre);
        lemma_find_key(prev, k);
        lemma_find_key(pre, k);
        assert forall|i: int| 0 <= i < pre.len() implies #[trigger] pre[i] == pairs[i] by {}
        assert forall|x: Seq<char>| #![auto]
            find_key(pre, x) >= 0 ==> find_key(pairs, x) == find_key(pre, x) by {}
        assert forall|x: Seq<char>| #![auto]
            x != k ==> last_key(pairs, x) == last_key(pre, x) by {}
        assert forall|x: Seq<char>| #![auto]
            last_key(pre, x) >= 0 ==> pre[last_key(pre, x)] == pairs[last_key(pre, x)] by {
            lemma_last_key(pre, x);
        }
        let fi = find_key(prev, k);
        if fi >= 0 {
            assert(m == prev.update(fi, (prev[fi].0, p.1)));
            assert forall|j: int| 0 <= j < m.len() implies #[trigger] m[j].0@ == prev[j].0@ by {}
            assert forall|i: int| 0 <= i < pairs.len() implies find_key(
                m,
                #[trigger] pairs[i].0@,
            ) >= 0 by {
                let x = pairs[i].0@;
                if i < pre.len() {
                    assert(pre[i].0@ == x);
                    lemma_find_key(prev, x);
                    let jj = find_key(prev, x);
                    assert(m[jj].0@ == x);
                } else {
                    assert(m[fi].0@ == x);
                }
                lemma_find_key(m, x);
            }
            assert forall|j: int| 0 <= j < m.len() implies {
                &&& find_key(pairs, #[trigger] m[j].0@) >= 0
                &&& m[j].1 == pairs[last_key(pairs, m[j].0@)].1
            } by {
                let x = m[j].0@;
                assert(prev[j].0@ == x);
                assert(find_key(pre, x) >= 0);
                lemma_last_key(pre, x);
                if j == fi {
                    assert(x == k);
                } else {
                    assert(x != k);
                }
            }
            assert forall|j1: int, j2: int| 0 <= j1 < j2 < m.len() implies find_key(
                pairs,
                #[trigger] m[j1].0@,
            ) < find_key(pairs, #[trigger] m[j2].0@) by {
                assert(prev[j1].0@ == m[j1].0@);
                assert(prev[j2].0@ == m[j2].0@);
            }
        } else {
            assert(m == prev.push(p));
            assert(find_key(pre, k) < 0) by {
                if find_key(pre, k) >= 0 {
                    let ii = find_key(pre, k);
                    assert(pre[ii].0@ == k);
                    assert(find_key(prev, pre[ii].0@) >= 0);
                }
            }
            assert(find_key(pairs, k) == pairs.len() - 1);
            assert forall|i: int| 0 <= i < pairs.len() implies find_key(
                m,
                #[trigger] pairs[i].0@,
            ) >= 0 by {
                let x = pairs[i].0@;
                if i < pre.len() {
                    assert(pre[i].0@ == x);
                    lemma_find_key(prev, x);
                    let jj = find_key(prev, x);
                    assert(m[jj].0@ == x);
                } else {
                    assert(m[m.len() - 1].0@ == x);
                }
                lemma_find_key(m, x);
            }
            assert forall|j: int| 0 <= j < m.len() implies {
                &&& find_key(pairs, #[trigger] m[j].0@) >= 0
                &&& m[j].1 == pairs[last_key(pairs, m[j].0@)].1
            } by {
                let x = m[j].0@;
                if j < prev.len() {
                    assert(m[j] == prev[j]);
                    assert(x != k);
                    assert(find_key(pre, x) >= 0);
                    lemma_last_key(pre, x);
                } else {
                    assert(x == k);
                }
            }
            assert forall|j1: int, j2: int| 0 <= j1 < j2 < m.len() implies find_key(
                pairs,
                #[trigger] m[j1].0@,
            ) < find_key(pairs, #[trigger] m[j2].0@) by {
                assert(m[j1] == prev[j1]);
                lemma_find_key(pre, m[j1].0@);
                if j2 < prev.len() {
                    assert(m[j2] == prev[j2]);
                }
            }
        }
    }
}

/// Moves the elements of `v` into a vector in the opposite order.
pub(crate) fn reversed<T>(v: Vec<T>) -> (r: Vec<T>)
    ensures
        r@.len() == v@.len(),
        forall|i: int| 0 <= i < v@.len() ==> r@[i] == v@[v@.len() - 1 - i],
{
    let mut v = v;
    let ghost orig = v@;
    let mut r: Vec<T> = Vec::new();
    while v.len() > 0
        invariant
            v@ == orig.subrange(0, v@.len() as int),
            r@.len() + v@.len() == orig.len(),
            forall|i: int| 0 <= i < r@.len() ==> r@[i] == orig[orig.len() - 1 - i],
        decreases v@.len(),
    {
        let x = v.pop().unwrap();
        r.push(x);
    }
    r
}

/// The position of the first entry of `entries` whose key is `k`.
fn position_of(entries: &Vec<(String, Value)>, k: &String) -> (r: Option<usize>)
    ensures
        match r {
            Some(i) => find_key(entries@, k@) == i as int && i < entries@.len(),
            None => find_key(entries@, k@) == -1,
        },
{
    proof {
        lemma_find_key(entries@, k@);
    }
    let mut j: usize = 0;
    while j < entries.len()
        invariant
            j <= entries@.len(),
            forall|jj: int| 0 <= jj < j ==> entries@[jj].0@ != k@,
            -1 <= find_key(entries@, k@) < entries@.len(),
            find_key(entries@, k@) >= 0 ==> entries@[find_key(entries@, k@)].0@ == k@,
            find_key(entries@, k@) >= 0 ==> forall|jj: int|
                0 <= jj < find_key(entries@, k@) ==> entries@[jj].0@ != k@,
            find_key(entries@, k@) < 0 ==> forall|jj: int|
                0 <= jj < entries@.len() ==> entries@[jj].0@ != k@,
        decreases entries@.len() - j,
    {
        if entries[j].0 == *k {
            assert(entries@[j as int].0@ == k@);
            return Some(j);
        }
        j = j + 1;
    }
    None
}

/// Merges key/value pairs into one object, from left to right: a repeated
/// key keeps the position of its first occurrence and takes the last value.
pub fn merged_object(pairs: Vec<(String, Value)>) -> (r: Value)
    ensures
        r is Object,
        r->Object_0@ == merge_entries(pairs@),
{
    let ghost orig = pairs@;
    let mut rest = reversed(pairs);
    let mut entries: Vec<(String, Value)> = Vec::new();
    let ghost mut done: int = 0;
    while rest.len() > 0
        invariant
            done + rest@.len() == orig.len(),
            0 <= done <= orig.len(),
            forall|i: int| 0 <= i < rest@.len() ==> rest@[i] == orig[orig.len() - 1 - i],
            entries@ == merge_entries(orig.subrange(0, done)),
        decreases rest@.len(),
    {
        let (k, v) = rest.pop().unwrap();
        proof {
            assert(orig.subrange(0, done + 1).drop_last() == orig.subrange(0, done));
        }
        match position_of(&entries, &k) {
            Some(i) => {
                let (old_k, _) = entries.remove(i);
                entries.insert(i, (old_k, v));
            },
            None => {
                entries.push((k, v));
            },
        }
        proof {
            done = done + 1;
        }
    }
    proof {
        assert(orig.subrange(0, done) == orig);
    }
    Value::Object(entries)
}

} // verus!
