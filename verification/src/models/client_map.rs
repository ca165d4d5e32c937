//! The ordered map of a workspace's clients, kept in an `indexmap::IndexMap`,
//! and the order by which its entries are sorted.
use vstd::prelude::*;
use indexmap::IndexMap;
use std::cmp::Ordering;
use crate::geometry::Window;
use crate::models::windowwrapper::WindowWrapper;

verus! {

#[verifier::external_type_specification]
#[verifier::external_body]
#[verifier::reject_recursive_types(K)]
#[verifier::reject_recursive_types(V)]
#[verifier::reject_recursive_types(S)]
pub struct ExIndexMap<K, V, S>(IndexMap<K, V, S>);

/// One client of a workspace: the window it is filed under and its wrapper.
pub type Entry = (Window, WindowWrapper);

/// The entries of a client map in the map's order.
pub uninterp spec fn client_entries(m: IndexMap<Window, WindowWrapper>) -> Seq<(Window, WindowWrapper)>;

/// No window is filed twice.
pub open spec fn keys_unique(s: Seq<Entry>) -> bool {
    forall|i: int, j: int| 0 <= i < s.len() && 0 <= j < s.len() && i != j ==> s[i].0 != s[j].0
}

/// Some entry is filed under `w`.
pub open spec fn has_key(s: Seq<Entry>, w: Window) -> bool {
    exists|i: int| 0 <= i < s.len() && s[i].0 == w
}

/// The index of the entry filed under `w`.
pub open spec fn index_of(s: Seq<Entry>, w: Window) -> int {
    choose|i: int| 0 <= i < s.len() && s[i].0 == w
}

/// Entries are ordered by the time they were taken into management.
pub open spec fn sorted_by_toc(s: Seq<Entry>) -> bool {
    forall|i: int, j: int| 0 <= i <= j < s.len() ==> s[i].1.toc <= s[j].1.toc
}

/// Inserts `e` behind every entry whose `toc` is not larger.
pub open spec fn insert_by_toc(s: Seq<Entry>, e: Entry) -> Seq<Entry>
    decreases s.len(),
{
    if s.len() == 0 || s.last().1.toc <= e.1.toc {
        s.push(e)
    } else {
        insert_by_toc(s.drop_last(), e).push(s.last())
    }
}

/// The stable sort of `s` by `toc`: entries with equal `toc` keep their
/// relative order.
pub open spec fn sort_by_toc(s: Seq<Entry>) -> Seq<Entry>
    decreases s.len(),
{
    if s.len() == 0 {
        s
    } else {
        insert_by_toc(sort_by_toc(s.drop_last()), s.last())
    }
}

/// What `IndexMap::insert` makes of the entries: the value of an existing
/// key is replaced in its place, a new key goes last.
pub open spec fn insert_entry(s: Seq<Entry>, w: Window, ww: WindowWrapper) -> Seq<Entry> {
    if has_key(s, w) {
        s.update(index_of(s, w), (w, ww))
    } else {
        s.push((w, ww))
    }
}

/// The clients `s` after the wrapper of `win` was replaced by `nw` and the
/// clients sorted by `toc` again; unchanged when `win` is not filed.
pub open spec fn swapped(s: Seq<Entry>, win: Window, nw: WindowWrapper) -> Seq<Entry> {
    if has_key(s, win) {
        sort_by_toc(insert_entry(s.remove(index_of(s, win)), win, nw))
    } else {
        s
    }
}

/// The wrappers of the clients.
pub open spec fn wrappers(s: Seq<Entry>) -> Seq<WindowWrapper> {
    s.map_values(|e: Entry| e.1)
}

/// An empty client map.
///
/// Calls `IndexMap::new`; claims that the map has no entries.
#[verifier::external_body]
pub(crate) fn clients_new() -> (m: IndexMap<Window, WindowWrapper>)
    ensures
        client_entries(m) == Seq::<Entry>::empty(),
{
    IndexMap::new()
}

/// The number of entries.
///
/// Calls `IndexMap::len`; claims it counts the entries.
#[verifier::external_body]
pub(crate) fn clients_len(m: &IndexMap<Window, WindowWrapper>) -> (n: usize)
    ensures
        n == client_entries(*m).len(),
{
    m.len()
}

/// The entry at position `i`, copied.
///
/// Calls `IndexMap::get_index`; claims it gives the entry at that position,
/// and none past the end.
#[verifier::external_body]
pub(crate) fn clients_get_index(m: &IndexMap<Window, WindowWrapper>, i: usize) -> (r: Option<Entry>)
    ensures
        i < client_entries(*m).len() ==> r == Some(client_entries(*m)[i as int]),
        i >= client_entries(*m).len() ==> r is None,
{
    m.get_index(i).map(|(k, v)| (*k, *v))
}

/// The position of the entry filed under `w`.
///
/// Calls `IndexMap::get_index_of`; claims it gives a position whose entry is
/// filed under `w`, and none when no entry is.
#[verifier::external_body]
pub(crate) fn clients_index_of(m: &IndexMap<Window, WindowWrapper>, w: Window) -> (r: Option<usize>)
    ensures
        match r {
            Some(i) => i < client_entries(*m).len() && client_entries(*m)[i as int].0 == w,
            None => !has_key(client_entries(*m), w),
        },
{
    m.get_index_of(&w)
}

/// Files `ww` under `w`.
///
/// Calls `IndexMap::insert`; claims, as its documentation says, that an
/// existing key keeps its place and takes the new value (the old one is
/// returned), and that a new key goes last.
#[verifier::external_body]
pub(crate) fn clients_insert(m: &mut IndexMap<Window, WindowWrapper>, w: Window, ww: WindowWrapper) -> (r: Option<WindowWrapper>)
    requires
        keys_unique(client_entries(*old(m))),
    ensures
        client_entries(*final(m)) == insert_entry(client_entries(*old(m)), w, ww),
        r == (if has_key(client_entries(*old(m)), w) {
            Some(client_entries(*old(m))[index_of(client_entries(*old(m)), w)].1)
        } else {
            None
        }),
{
    m.insert(w, ww)
}

/// Removes the entry filed under `w`, shifting the later entries down.
///
/// Calls `IndexMap::shift_remove`; claims that the entry is removed as from
/// a `Vec`, keeping the order of the others, and its value returned; the map
/// is left untouched when no entry is filed under `w`.
#[verifier::external_body]
pub(crate) fn clients_shift_remove(m: &mut IndexMap<Window, WindowWrapper>, w: Window) -> (r: Option<WindowWrapper>)
    requires
        keys_unique(client_entries(*old(m))),
    ensures
        has_key(client_entries(*old(m)), w) ==> {
            let i = index_of(client_entries(*old(m)), w);
            &&& r == Some(client_entries(*old(m))[i].1)
            &&& client_entries(*final(m)) == client_entries(*old(m)).remove(i)
        },
        !has_key(client_entries(*old(m)), w) ==> {
            &&& r is None
            &&& *final(m) == *old(m)
        },
{
    m.shift_remove(&w)
}

/// Orders two wrappers by the time they were taken into management.
pub fn toc_order(a: &WindowWrapper, b: &WindowWrapper) -> (o: Ordering)
    ensures
        (o == Ordering::Less) <==> a.toc < b.toc,
        (o == Ordering::Equal) <==> a.toc == b.toc,
        (o == Ordering::Greater) <==> a.toc > b.toc,
{
    if a.toc < b.toc {
        Ordering::Less
    } else if a.toc == b.toc {
        Ordering::Equal
    } else {
        Ordering::Greater
    }
}

/// Sorts the entries by `toc`.
///
/// Calls `IndexMap::sort_by` with `toc_order`.  Its documentation says that
/// the sort is stable; for a total order the stable sort has exactly one
/// result, which is the one that `sort_by_toc` defines.
#[verifier::external_body]
pub(crate) fn clients_sort_by_toc(m: &mut IndexMap<Window, WindowWrapper>)
    ensures
        client_entries(*final(m)) == sort_by_toc(client_entries(*old(m))),
{
    m.sort_by(|_ka, va, _kb, vb| toc_order(va, vb))
}

// ---------------------------------------------------------------------------
// Facts about the sort.

/// Re-filing a window that is filed keeps the number of entries and the
/// keys unique.
pub proof fn lemma_refile(s: Seq<Entry>, win: Window, nw: WindowWrapper)
    requires
        keys_unique(s),
        has_key(s, win),
    ensures
        sort_by_toc(insert_entry(s.remove(index_of(s, win)), win, nw)).len() == s.len(),
        keys_unique(sort_by_toc(insert_entry(s.remove(index_of(s, win)), win, nw))),
        has_key(sort_by_toc(insert_entry(s.remove(index_of(s, win)), win, nw)), win),
        forall|k: Window| #[trigger] has_key(s, k) ==> has_key(sort_by_toc(insert_entry(s.remove(index_of(s, win)), win, nw)), k),
        forall|k: Window| #[trigger] has_key(sort_by_toc(insert_entry(s.remove(index_of(s, win)), win, nw)), k) ==> has_key(s, k),
{
    let i = index_of(s, win);
    let r = s.remove(i);
    assert(!has_key(r, win)) by {
        if has_key(r, win) {
            let j = choose|j: int| 0 <= j < r.len() && r[j].0 == win;
            let jj = if j < i { j } else { j + 1 };
            assert(s[jj] == r[j]);
        }
    }
    let t = insert_entry(r, win, nw);
    assert(t == r.push((win, nw)));
    assert(keys_unique(t)) by {
        assert forall|a: int, b: int| 0 <= a < t.len() && 0 <= b < t.len() && a != b implies t[a].0 != t[b].0 by {
            if a < r.len() && b < r.len() {
                let aa = if a < i { a } else { a + 1 };
                let bb = if b < i { b } else { b + 1 };
                assert(t[a] == s[aa] && t[b] == s[bb]);
            } else if a < r.len() {
                assert(t[a] == r[a]);
            } else {
                assert(t[b] == r[b]);
            }
        }
    }
    lemma_sort_contents(t);
    let u = sort_by_toc(t);
    assert(t.contains((win, nw))) by {
        assert(t[t.len() - 1] == (win, nw));
    }
    assert(u.contains((win, nw)));
    assert forall|k: Window| #[trigger] has_key(s, k) implies has_key(u, k) by {
        let j = choose|j: int| 0 <= j < s.len() && s[j].0 == k;
        if j == i {
            let p = choose|p: int| 0 <= p < u.len() && u[p] == (win, nw);
            assert(u[p].0 == k);
        } else {
            let jj = if j < i { j } else { j - 1 };
            assert(r[jj] == s[j]);
            assert(t[jj] == s[j]);
            assert(t.contains(s[j]));
            assert(u.contains(s[j]));
            let p = choose|p: int| 0 <= p < u.len() && u[p] == s[j];
            assert(u[p].0 == k);
        }
    }
    assert forall|k: Window| #[trigger] has_key(u, k) implies has_key(s, k) by {
        let p = choose|p: int| 0 <= p < u.len() && u[p].0 == k;
        assert(u.contains(u[p]));
        assert(t.contains(u[p]));
        let q = choose|q: int| 0 <= q < t.len() && t[q] == u[p];
        if q == r.len() {
            assert(s[i].0 == k);
        } else {
            let qq = if q < i { q } else { q + 1 };
            assert(r[q] == s[qq]);
            assert(s[qq].0 == k);
        }
    }
}

/// Inserting puts `e` at some position and keeps the others in order.
pub proof fn lemma_insert_by_toc_shape(s: Seq<Entry>, e: Entry) -> (p: int)
    ensures
        0 <= p <= s.len(),
        insert_by_toc(s, e) == s.take(p).push(e) + s.skip(p),
        forall|i: int| p <= i < s.len() ==> s[i].1.toc > e.1.toc,
        p > 0 ==> s[p - 1].1.toc <= e.1.toc || !sorted_by_toc(s),
    decreases s.len(),
{
    if s.len() == 0 || s.last().1.toc <= e.1.toc {
        assert(s.take(s.len() as int) =~= s);
        assert(s.skip(s.len() as int) =~= Seq::<Entry>::empty());
        assert(s.take(s.len() as int).push(e) + s.skip(s.len() as int) =~= s.push(e));
        s.len() as int
    } else {
        let t = s.drop_last();
        let q = lemma_insert_by_toc_shape(t, e);
        assert forall|i: int| q <= i < s.len() implies s[i].1.toc > e.1.toc by {
            if i < t.len() {
                assert(s[i] == t[i]);
            }
        }
        assert(t.take(q) =~= s.take(q));
        assert(t.skip(q).push(s.last()) =~= s.skip(q));
        assert(insert_by_toc(s, e) =~= s.take(q).push(e) + s.skip(q));
        if q > 0 && !sorted_by_toc(t) {
            assert(!sorted_by_toc(s)) by {
                let (i, j) = choose|i: int, j: int| 0 <= i <= j < t.len() && !(t[i].1.toc <= t[j].1.toc);
                assert(s[i] == t[i] && s[j] == t[j]);
            }
        }
        q
    }
}

/// Inserting keeps a sorted sequence sorted.
pub proof fn lemma_insert_by_toc_sorted(s: Seq<Entry>, e: Entry)
    requires
        sorted_by_toc(s),
    ensures
        sorted_by_toc(insert_by_toc(s, e)),
{
    let p = lemma_insert_by_toc_shape(s, e);
    let r = insert_by_toc(s, e);
    assert forall|i: int, j: int| 0 <= i <= j < r.len() implies r[i].1.toc <= r[j].1.toc by {
        if i < p && j < p {
            assert(r[i] == s[i] && r[j] == s[j]);
        } else if i < p && j == p {
            assert(r[i] == s[i]);
            assert(s[i].1.toc <= s[p - 1].1.toc);
        } else if i < p {
            assert(r[i] == s[i] && r[j] == s[j - 1]);
        } else if i == p && j > p {
            assert(r[j] == s[j - 1]);
        } else if i > p {
            assert(r[i] == s[i - 1] && r[j] == s[j - 1]);
        }
    }
}

/// The sort gives a sorted sequence.
pub proof fn lemma_sort_sorted(s: Seq<Entry>)
    ensures
        sorted_by_toc(sort_by_toc(s)),
    decreases s.len(),
{
    if s.len() > 0 {
        lemma_sort_sorted(s.drop_last());
        lemma_insert_by_toc_sorted(sort_by_toc(s.drop_last()), s.last());
    }
}

/// Sorting a sorted sequence changes nothing.
pub proof fn lemma_sort_of_sorted(s: Seq<Entry>)
    requires
        sorted_by_toc(s),
    ensures
        sort_by_toc(s) == s,
    decreases s.len(),
{
    if s.len() > 0 {
        let t = s.drop_last();
        assert(sorted_by_toc(t));
        lemma_sort_of_sorted(t);
        assert(s.drop_last().push(s.last()) =~= s);
    }
}

/// Sorting keeps the length and the entries.
pub proof fn lemma_sort_contents(s: Seq<Entry>)
    ensures
        sort_by_toc(s).len() == s.len(),
        forall|x: Entry| sort_by_toc(s).contains(x) <==> s.contains(x),
        keys_unique(s) ==> keys_unique(sort_by_toc(s)),
    decreases s.len(),
{
    if s.len() > 0 {
        let t = s.drop_last();
        let st = sort_by_toc(t);
        lemma_sort_contents(t);
        let p = lemma_insert_by_toc_shape(st, s.last());
        let r = sort_by_toc(s);
        assert(r == st.take(p).push(s.last()) + st.skip(p));
        assert forall|x: Entry| r.contains(x) <==> s.contains(x) by {
            if r.contains(x) {
                let k = choose|k: int| 0 <= k < r.len() && r[k] == x;
                if k < p {
                    assert(st[k] == x);
                    assert(st.contains(x));
                    assert(t.contains(x));
                    let m = choose|m: int| 0 <= m < t.len() && t[m] == x;
                    assert(s[m] == t[m]);
                } else if k == p {
                    assert(s[s.len() - 1] == x);
                } else {
                    assert(st[k - 1] == x);
                    assert(st.contains(x));
                    assert(t.contains(x));
                    let m = choose|m: int| 0 <= m < t.len() && t[m] == x;
                    assert(s[m] == t[m]);
                }
            }
            if s.contains(x) {
                let k = choose|k: int| 0 <= k < s.len() && s[k] == x;
                if k == s.len() - 1 {
                    assert(r[p] == x);
                } else {
                    assert(t[k] == x);
                    assert(t.contains(x));
                    assert(st.contains(x));
                    let m = choose|m: int| 0 <= m < st.len() && st[m] == x;
                    if m < p {
                        assert(r[m] == x);
                    } else {
                        assert(r[m + 1] == x);
                    }
                }
            }
        }
        if keys_unique(s) {
            assert(keys_unique(t));
            assert forall|i: int, j: int| 0 <= i < r.len() && 0 <= j < r.len() && i != j implies r[i].0 != r[j].0 by {
                let e = s.last();
                // every entry of `st` is an entry of `t`, whose keys differ from `e`'s
                if i != p && j != p {
                    let ii = if i < p { i } else { i - 1 };
                    let jj = if j < p { j } else { j - 1 };
                    assert(r[i] == st[ii] && r[j] == st[jj]);
                } else {
                    let o = if i == p { j } else { i };
                    let oo = if o < p { o } else { o - 1 };
                    assert(r[o] == st[oo]);
                    assert(st.contains(st[oo]));
                    assert(t.contains(st[oo]));
                    let m = choose|m: int| 0 <= m < t.len() && t[m] == st[oo];
                    assert(s[m] == t[m]);
                    assert(s[s.len() - 1] == e);
                }
            }
        }
    }
}

} // verus!
