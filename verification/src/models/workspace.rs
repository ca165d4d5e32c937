use vstd::prelude::*;
use indexmap::IndexMap;
use crate::geometry::Window;
use crate::layout::{layout_from_tag, spec_layout_from_tag, Layout, LayoutTag};
use crate::models::client_map::{client_entries, clients_get_index, clients_index_of, clients_insert, clients_len, clients_new, clients_shift_remove, clients_sort_by_toc, has_key, index_of, insert_entry, keys_unique, lemma_sort_contents, lemma_sort_of_sorted, lemma_sort_sorted, sort_by_toc, sorted_by_toc, swapped, lemma_refile, wrappers, Entry};
use crate::models::windowwrapper::WindowWrapper;

verus! {

/// `IndexMap::clone`, which the copies of a workspace call.  Nothing is
/// claimed of the copy.
pub assume_specification<K: Clone, V: Clone, S: Clone>[<IndexMap<K, V, S> as Clone>::clone](
    m: &IndexMap<K, V, S>,
) -> IndexMap<K, V, S>;

/// A workspace: its windows, kept in the order in which they were taken
/// into management, and its layout.
#[derive(Clone, Debug)]
pub struct Workspace {
    pub tag: u32,
    pub clients: IndexMap<Window, WindowWrapper>,
    pub layout: Layout,
    pub focus_w: Window,
    pub available_layouts: Vec<LayoutTag>,
    pub current_tag: LayoutTag,
}

/// The layouts a workspace cycles through.
pub open spec fn cycle_order() -> Seq<LayoutTag> {
    seq![LayoutTag::Floating, LayoutTag::ColumnMaster]
}

/// The layout that follows `t` in the cycle.
pub open spec fn next_layout(t: LayoutTag) -> LayoutTag {
    match t {
        LayoutTag::Floating => LayoutTag::ColumnMaster,
        LayoutTag::ColumnMaster => LayoutTag::Floating,
    }
}

/// What `get_previous` gives for the window filed at `i`: the window before
/// it, the second last for the first; none when that is the window itself.
pub open spec fn previous_of(s: Seq<Entry>, i: int, w: Window) -> Option<WindowWrapper> {
    let j = if i == 0 { s.len() - 2 } else { i - 1 };
    if s[j].1.window == w { None } else { Some(s[j].1) }
}

/// What `get_next` gives for the window filed at `i`: the window after it,
/// the first for the last two; none when that is the window itself.
pub open spec fn next_of(s: Seq<Entry>, i: int, w: Window) -> Option<WindowWrapper> {
    let j = if i == s.len() - 2 || i == s.len() - 1 { 0 } else { i + 1 };
    if s[j].1.window == w { None } else { Some(s[j].1) }
}

impl Workspace {
    /// The clients in the workspace's order.
    pub open spec fn entries(&self) -> Seq<Entry> {
        client_entries(self.clients)
    }

    /// The wrappers of the clients in the workspace's order.
    pub open spec fn windows(&self) -> Seq<WindowWrapper> {
        wrappers(self.entries())
    }

    /// No window is filed twice, the clients are ordered by the time they
    /// were taken into management, and the layout is the one its tag names.
    pub open spec fn wf(&self) -> bool {
        &&& keys_unique(self.entries())
        &&& sorted_by_toc(self.entries())
        &&& self.available_layouts@ == cycle_order()
        &&& self.layout == spec_layout_from_tag(self.current_tag)
    }

    pub open spec fn has_window(&self, w: Window) -> bool {
        has_key(self.entries(), w)
    }

    /// The wrapper filed under `w`.
    pub open spec fn client(&self, w: Window) -> WindowWrapper {
        self.entries()[index_of(self.entries(), w)].1
    }

    /// An empty workspace with the layout of the default configuration
    /// (floating).  The window manager makes its workspaces with the
    /// configured layout, through `with_layout`.
    pub fn new(tag: u32, focus_w: Window) -> (ws: Workspace)
        ensures
            ws.wf(),
            ws.tag == tag,
            ws.focus_w == focus_w,
            ws.current_tag == LayoutTag::Floating,
            ws.entries() == Seq::<Entry>::empty(),
    {
        Self::with_layout(tag, focus_w, crate::config::default_layout())
    }

    /// An empty workspace with the layout `layout`.
    pub fn with_layout(tag: u32, focus_w: Window, layout: LayoutTag) -> (ws: Workspace)
        ensures
            ws.wf(),
            ws.tag == tag,
            ws.focus_w == focus_w,
            ws.current_tag == layout,
            ws.entries() == Seq::<Entry>::empty(),
    {
        let ws = Workspace {
            tag,
            clients: clients_new(),
            layout: layout_from_tag(layout),
            focus_w,
            available_layouts: vec![LayoutTag::Floating, LayoutTag::ColumnMaster],
            current_tag: layout,
        };
        proof {
            assert(ws.available_layouts@ =~= cycle_order());
        }
        ws
    }

    pub fn get_current_layout(&self) -> (t: LayoutTag)
        ensures
            t == self.current_tag,
    {
        self.current_tag
    }

    /// Switches to the next layout of the cycle.
    pub fn cycle_layout(&mut self)
        requires
            old(self).wf(),
        ensures
            final(self).wf(),
            final(self).current_tag == next_layout(old(self).current_tag),
            final(self).tag == old(self).tag,
            final(self).focus_w == old(self).focus_w,
            final(self).clients == old(self).clients,
    {
        let mut index: usize = 0;
        while index < self.available_layouts.len() && self.available_layouts[index] != self.current_tag
            invariant
                self.available_layouts@ == cycle_order(),
                index <= 2,
                forall|k: int| 0 <= k < index ==> self.available_layouts@[k] != self.current_tag,
                self.current_tag == old(self).current_tag,
                self.layout == old(self).layout,
                self.clients == old(self).clients,
                self.tag == old(self).tag,
                self.focus_w == old(self).focus_w,
            decreases 2 - index,
        {
            index = index + 1;
        }
        proof {
            if index == 2 {
                assert(self.available_layouts@[0] != self.current_tag);
                assert(self.available_layouts@[1] != self.current_tag);
                assert(false);
            }
        }
        assert(self.available_layouts@[index as int] == self.current_tag);
        let index = (index + 1) % self.available_layouts.len();
        self.current_tag = self.available_layouts[index];
        self.layout = layout_from_tag(self.current_tag);
    }

    pub fn contains_window(&self, w: Window) -> (r: bool)
        ensures
            r == self.has_window(w),
    {
        clients_index_of(&self.clients, w).is_some()
    }

    /// Files `ww` under `w` and sorts the clients by `toc` again.
    pub fn add_window(&mut self, w: Window, ww: WindowWrapper)
        requires
            old(self).wf(),
        ensures
            final(self).wf(),
            final(self).entries() == sort_by_toc(insert_entry(old(self).entries(), w, ww)),
            final(self).tag == old(self).tag,
            final(self).focus_w == old(self).focus_w,
            final(self).current_tag == old(self).current_tag,
    {
        let _ = clients_insert(&mut self.clients, w, ww);
        proof {
            let s = old(self).entries();
            let t = insert_entry(s, w, ww);
            assert(keys_unique(t)) by {
                if has_key(s, w) {
                    let i = index_of(s, w);
                    assert forall|a: int, b: int| 0 <= a < t.len() && 0 <= b < t.len() && a != b implies t[a].0 != t[b].0 by {
                        if a != i && b != i {
                            assert(t[a] == s[a] && t[b] == s[b]);
                        } else if a == i {
                            assert(t[b] == s[b]);
                        } else {
                            assert(t[a] == s[a]);
                        }
                    }
                } else {
                    assert forall|a: int, b: int| 0 <= a < t.len() && 0 <= b < t.len() && a != b implies t[a].0 != t[b].0 by {
                        if a < s.len() && b < s.len() {
                            assert(t[a] == s[a] && t[b] == s[b]);
                        } else if a < s.len() {
                            assert(t[a] == s[a]);
                        } else {
                            assert(t[b] == s[b]);
                        }
                    }
                }
            }
            lemma_sort_contents(t);
            lemma_sort_sorted(t);
        }
        clients_sort_by_toc(&mut self.clients);
    }

    /// Gives the window filed under `w` the wrapper `ww` in its place;
    /// `false`, changing nothing, when no window is filed under `w`.
    pub fn update_client(&mut self, w: Window, ww: WindowWrapper) -> (r: bool)
        requires
            old(self).wf(),
            old(self).has_window(w) ==> ww.toc == old(self).client(w).toc,
        ensures
            final(self).wf(),
            final(self).tag == old(self).tag,
            final(self).focus_w == old(self).focus_w,
            final(self).current_tag == old(self).current_tag,
            r == old(self).has_window(w),
            r ==> final(self).entries() == old(self).entries().update(index_of(old(self).entries(), w), (w, ww)),
            !r ==> *final(self) == *old(self),
    {
        if !self.contains_window(w) {
            return false;
        }
        let _ = clients_insert(&mut self.clients, w, ww);
        proof {
            let s = old(self).entries();
            let i = index_of(s, w);
            let t = s.update(i, (w, ww));
            assert forall|a: int, b: int| 0 <= a < t.len() && 0 <= b < t.len() && a != b implies t[a].0 != t[b].0 by {
                if a != i && b != i {
                    assert(t[a] == s[a] && t[b] == s[b]);
                } else if a == i {
                    assert(t[b] == s[b]);
                } else {
                    assert(t[a] == s[a]);
                }
            }
            assert forall|a: int, b: int| 0 <= a <= b < t.len() implies t[a].1.toc <= t[b].1.toc by {
                assert(s[a].1.toc <= s[b].1.toc);
            }
        }
        true
    }

    /// Removes the window filed under `w` and gives back its wrapper.
    pub fn remove_window(&mut self, w: Window) -> (r: Option<WindowWrapper>)
        requires
            old(self).wf(),
        ensures
            final(self).wf(),
            final(self).tag == old(self).tag,
            final(self).focus_w == old(self).focus_w,
            final(self).current_tag == old(self).current_tag,
            old(self).has_window(w) ==> {
                &&& r == Some(old(self).client(w))
                &&& final(self).entries() == old(self).entries().remove(index_of(old(self).entries(), w))
            },
            !old(self).has_window(w) ==> r is None && *final(self) == *old(self),
    {
        let r = clients_shift_remove(&mut self.clients, w);
        if r.is_none() {
            return r;
        }
        proof {
            let s = old(self).entries();
            let t = client_entries(self.clients);
            if has_key(s, w) {
                let i = index_of(s, w);
                assert(sorted_by_toc(t)) by {
                    assert forall|a: int, b: int| 0 <= a <= b < t.len() implies t[a].1.toc <= t[b].1.toc by {
                        let aa = if a < i { a } else { a + 1 };
                        let bb = if b < i { b } else { b + 1 };
                        assert(t[a] == s[aa] && t[b] == s[bb]);
                    }
                }
                assert(keys_unique(t)) by {
                    assert forall|a: int, b: int| 0 <= a < t.len() && 0 <= b < t.len() && a != b implies t[a].0 != t[b].0 by {
                        let aa = if a < i { a } else { a + 1 };
                        let bb = if b < i { b } else { b + 1 };
                        assert(t[a] == s[aa] && t[b] == s[bb]);
                    }
                }
            }
            lemma_sort_of_sorted(t);
        }
        clients_sort_by_toc(&mut self.clients);
        r
    }

    /// The newest client: the last one.
    pub fn get_newest(&self) -> (r: Option<Entry>)
        ensures
            self.entries().len() == 0 ==> r is None,
            self.entries().len() > 0 ==> r == Some(self.entries().last()),
    {
        let n = clients_len(&self.clients);
        if n == 0 {
            None
        } else {
            clients_get_index(&self.clients, n - 1)
        }
    }

    /// The client filed under `w`.
    pub fn get_client(&self, w: Window) -> (r: Option<WindowWrapper>)
        requires
            self.wf(),
        ensures
            self.has_window(w) ==> r == Some(self.client(w)),
            !self.has_window(w) ==> r is None,
    {
        match clients_index_of(&self.clients, w) {
            Some(i) => {
                let e = clients_get_index(&self.clients, i);
                proof {
                    let s = self.entries();
                    let j = index_of(s, w);
                    assert(s[j].0 == w);
                    assert(i == j);
                }
                match e {
                    Some(e) => Some(e.1),
                    None => None,
                }
            },
            None => None,
        }
    }

    /// The window before `ww`'s; the first window's predecessor is the
    /// second last.
    pub fn get_previous(&self, ww: &WindowWrapper) -> (r: Option<WindowWrapper>)
        requires
            self.wf(),
        ensures
            self.entries().len() <= 1 || !self.has_window(ww.window) ==> r is None,
            self.entries().len() > 1 && self.has_window(ww.window) ==> r == previous_of(
                self.entries(),
                index_of(self.entries(), ww.window),
                ww.window,
            ),
    {
        let n = clients_len(&self.clients);
        if n <= 1 {
            return None;
        }
        match clients_index_of(&self.clients, ww.window()) {
            Some(index) => {
                proof {
                    let s = self.entries();
                    assert(s[index_of(s, ww.window)].0 == ww.window);
                    assert(index == index_of(s, ww.window));
                }
                let index = if index == 0 { n - 2 } else { index - 1 };
                match clients_get_index(&self.clients, index) {
                    Some(e) => if e.1.window() == ww.window() { None } else { Some(e.1) },
                    None => None,
                }
            },
            None => None,
        }
    }

    /// The window after `ww`'s; the last two windows are followed by the
    /// first.
    pub fn get_next(&self, ww: &WindowWrapper) -> (r: Option<WindowWrapper>)
        requires
            self.wf(),
        ensures
            self.entries().len() <= 1 || !self.has_window(ww.window) ==> r is None,
            self.entries().len() > 1 && self.has_window(ww.window) ==> r == next_of(
                self.entries(),
                index_of(self.entries(), ww.window),
                ww.window,
            ),
    {
        let n = clients_len(&self.clients);
        if n <= 1 {
            return None;
        }
        match clients_index_of(&self.clients, ww.window()) {
            Some(index) => {
                proof {
                    let s = self.entries();
                    assert(s[index_of(s, ww.window)].0 == ww.window);
                    assert(index == index_of(s, ww.window));
                }
                let index = if index == n - 2 || index == n - 1 { 0 } else { index + 1 };
                match clients_get_index(&self.clients, index) {
                    Some(e) => if e.1.window() == ww.window() { None } else { Some(e.1) },
                    None => None,
                }
            },
            None => None,
        }
    }

    /// The wrappers of all clients, in order.
    pub fn client_values(&self) -> (r: Vec<WindowWrapper>)
        ensures
            r@ == self.windows(),
    {
        let n = clients_len(&self.clients);
        let mut r: Vec<WindowWrapper> = Vec::new();
        let mut i: usize = 0;
        while i < n
            invariant
                i <= n,
                n == self.entries().len(),
                r@ == self.windows().take(i as int),
            decreases n - i,
        {
            let e = clients_get_index(&self.clients, i);
            match e {
                Some(e) => {
                    r.push(e.1);
                },
                None => {},
            }
            proof {
                assert(r@ =~= self.windows().take(i as int + 1));
            }
            i = i + 1;
        }
        proof {
            assert(self.windows().take(n as int) =~= self.windows());
        }
        r
    }

    /// The windows under which the clients are filed, in order.
    pub fn client_keys(&self) -> (r: Vec<Window>)
        ensures
            r@ == self.entries().map_values(|e: Entry| e.0),
    {
        let n = clients_len(&self.clients);
        let mut r: Vec<Window> = Vec::new();
        let mut i: usize = 0;
        while i < n
            invariant
                i <= n,
                n == self.entries().len(),
                r@ == self.entries().map_values(|e: Entry| e.0).take(i as int),
            decreases n - i,
        {
            let e = clients_get_index(&self.clients, i);
            match e {
                Some(e) => {
                    r.push(e.0);
                },
                None => {},
            }
            proof {
                assert(r@ =~= self.entries().map_values(|e: Entry| e.0).take(i as int + 1));
            }
            i = i + 1;
        }
        proof {
            assert(self.entries().map_values(|e: Entry| e.0).take(n as int) =~= self.entries().map_values(|e: Entry| e.0));
        }
        r
    }

    /// The clients, in order.
    pub fn client_list(&self) -> (r: Vec<Entry>)
        ensures
            r@ == self.entries(),
    {
        let n = clients_len(&self.clients);
        let mut r: Vec<Entry> = Vec::new();
        let mut i: usize = 0;
        while i < n
            invariant
                i <= n,
                n == self.entries().len(),
                r@ == self.entries().take(i as int),
            decreases n - i,
        {
            let e = clients_get_index(&self.clients, i);
            match e {
                Some(e) => {
                    r.push(e);
                },
                None => {},
            }
            proof {
                assert(r@ =~= self.entries().take(i as int + 1));
            }
            i = i + 1;
        }
        proof {
            assert(self.entries().take(n as int) =~= self.entries());
        }
        r
    }

    /// The number of clients.
    pub fn len(&self) -> (n: usize)
        ensures
            n == self.entries().len(),
    {
        clients_len(&self.clients)
    }

    /// Workspaces are told apart by their tag.
    pub fn same_tag(&self, other: &Workspace) -> (r: bool)
        ensures
            r == (self.tag == other.tag),
    {
        self.tag == other.tag
    }

    /// Replaces the wrapper of `win` by `nw` and sorts the clients again;
    /// `None` when `win` is not filed.
    pub fn replace_window(&mut self, win: Window, nw: WindowWrapper) -> (r: Option<()>)
        requires
            old(self).wf(),
        ensures
            final(self).wf(),
            final(self).tag == old(self).tag,
            final(self).focus_w == old(self).focus_w,
            final(self).current_tag == old(self).current_tag,
            r is Some <==> old(self).has_window(win),
            final(self).entries() == swapped(old(self).entries(), win, nw),
            old(self).has_window(win) ==> final(self).entries().len() == old(self).entries().len(),
            forall|k: Window| #[trigger] old(self).has_window(k) ==> final(self).has_window(k),
    {
        match self.remove_window(win) {
            Some(_) => {},
            None => return None,
        }
        self.add_window(win, nw);
        proof {
            lemma_refile(old(self).entries(), win, nw);
        }
        Some(())
    }
}

} // verus!
