use vstd::prelude::*;
use vstd::string::StringExecFns;

use crate::error::BrowserError;
use crate::ids::random_id;
use crate::launch::{build_launch_command, launch_args, LaunchDirective};
use crate::locator::{find_browser_executable, HostOs};
use crate::tabs::{clone_opt_string, Tab, TabId};

verus! {

broadcast use vstd::seq_lib::group_to_multiset_ensures;

// ---------------------------------------------------------------------------
// Spec-level vocabulary for the tab collection
// ---------------------------------------------------------------------------

/// No two tabs of `s` share an id.
pub open spec fn ids_distinct(s: Seq<Tab>) -> bool {
    forall|i: int, j: int| 0 <= i < j < s.len() ==> s[i].id@ != s[j].id@
}

/// Some tab of `s` carries the id `id`.
pub open spec fn id_in(s: Seq<Tab>, id: Seq<char>) -> bool {
    exists|i: int| 0 <= i < s.len() && s[i].id@ == id
}

/// The index of the tab of `s` carrying `id`; meaningful when `id_in(s, id)`
/// holds, and unique when the ids of `s` are distinct.
pub open spec fn index_of_id(s: Seq<Tab>, id: Seq<char>) -> int {
    choose|i: int| 0 <= i < s.len() && s[i].id@ == id
}

/// `t`, marked inactive.
pub open spec fn deactivated(t: Tab) -> Tab {
    Tab { is_active: false, ..t }
}

/// `t`, marked active.
pub open spec fn activated(t: Tab) -> Tab {
    Tab { is_active: true, ..t }
}

/// Every tab of `s`, marked inactive.
pub open spec fn all_deactivated(s: Seq<Tab>) -> Seq<Tab> {
    s.map_values(|t: Tab| deactivated(t))
}

/// `j` is the first index of `s` whose tab has the smallest `position`.
pub open spec fn is_first_min_position(s: Seq<Tab>, j: int) -> bool {
    &&& 0 <= j < s.len()
    &&& forall|k: int| 0 <= k < s.len() ==> s[j].position <= #[trigger] s[k].position
    &&& forall|k: int| 0 <= k < j ==> #[trigger] s[k].position > s[j].position
}

/// The tabs of `s` appear in ascending `position` order.
pub open spec fn sorted_by_position(s: Seq<Tab>) -> bool {
    forall|i: int, j: int| 0 <= i < j < s.len() ==> #[trigger] s[i].position <= #[trigger] s[j].position
}

/// The length of the longest id among the tabs of `s`.
pub open spec fn max_id_len(s: Seq<Tab>) -> nat
    decreases s.len(),
{
    if s.len() == 0 {
        0
    } else {
        let rest = max_id_len(s.drop_last());
        if s.last().id@.len() > rest {
            s.last().id@.len()
        } else {
            rest
        }
    }
}

/// Every id of `s` is at most `max_id_len(s)` long.
proof fn lemma_max_id_len(s: Seq<Tab>, i: int)
    requires
        0 <= i < s.len(),
    ensures
        s[i].id@.len() <= max_id_len(s),
    decreases s.len(),
{
    if i < s.len() - 1 {
        lemma_max_id_len(s.drop_last(), i);
        assert(s.drop_last()[i] == s[i]);
    }
}

/// The message every not-found failure carries.
pub open spec fn not_found_msg(id: Seq<char>) -> Seq<char> {
    "Tab "@ + id + " not found"@
}

/// `e` is the not-found error for the tab id `id`.
pub open spec fn is_not_found_err(e: BrowserError, id: Seq<char>) -> bool {
    e matches BrowserError::NotFound(m) && m@ == not_found_msg(id)
}

// ---------------------------------------------------------------------------
// The manager
// ---------------------------------------------------------------------------

/// Owner of the logical tab collection and of the single optional browser
/// process. All tab mutation goes through its methods; every read hands out
/// owned copies. The process itself is spawned and killed by the caller,
/// which reports spawns back through [`BrowserManager::record_launched_process`].
pub struct BrowserManager {
    tabs: Vec<Tab>,
    active_tab: Option<TabId>,
    process_held: bool,
    cdp_port: u16,
}

impl BrowserManager {
    /// The tracked tabs, in insertion order.
    pub closed spec fn tabs_seq(&self) -> Seq<Tab> {
        self.tabs@
    }

    /// The id recorded as active, if any.
    pub closed spec fn active_id(&self) -> Option<Seq<char>> {
        match self.active_tab {
            Some(id) => Some(id@),
            None => None,
        }
    }

    /// Whether a browser process handle is currently held.
    pub closed spec fn process_running(&self) -> bool {
        self.process_held
    }

    /// The fixed remote-debugging port the browser is launched with.
    pub closed spec fn debug_port(&self) -> u16 {
        self.cdp_port
    }

    /// The manager's invariant: ids are distinct; the recorded active id
    /// names a tracked tab that is marked active; every tab marked active is
    /// the recorded one; and tabs are only ever without an active member
    /// when there are no tabs at all.
    pub closed spec fn wf(&self) -> bool {
        &&& ids_distinct(self.tabs@)
        &&& match self.active_tab {
            Some(id) => exists|i: int|
                0 <= i < self.tabs@.len() && #[trigger] self.tabs@[i].id@ == id@
                    && self.tabs@[i].is_active,
            None => self.tabs@.len() == 0,
        }
        &&& forall|i: int|
            0 <= i < self.tabs@.len() && #[trigger] self.tabs@[i].is_active ==> {
                &&& self.active_tab matches Some(id)
                &&& self.tabs@[i].id@ == id@
            }
    }

    /// A fresh manager: no tabs, no active tab, no process, port 9222.
    pub fn new() -> (m: BrowserManager)
        ensures
            m.wf(),
            m.tabs_seq().len() == 0,
            m.active_id() is None,
            !m.process_running(),
            m.debug_port() == 9222,
    {
        BrowserManager { tabs: Vec::new(), active_tab: None, process_held: false, cdp_port: 9222 }
    }

    /// The number of tracked tabs.
    pub fn tab_count(&self) -> (n: usize)
        ensures
            n == self.tabs_seq().len(),
    {
        self.tabs.len()
    }

    /// Whether a browser process handle is held.
    pub fn has_running_process(&self) -> (r: bool)
        ensures
            r == self.process_running(),
    {
        self.process_held
    }

    /// The index of the tab carrying `key`, if one is tracked.
    fn find_tab_index(&self, key: &String) -> (r: Option<usize>)
        ensures
            match r {
                Some(i) => 0 <= i < self.tabs_seq().len() && self.tabs_seq()[i as int].id@
                    == key@,
                None => !id_in(self.tabs_seq(), key@),
            },
    {
        let n = self.tabs.len();
        let mut k: usize = 0;
        while k < n
            invariant
                n == self.tabs@.len(),
                0 <= k <= n,
                forall|m: int| 0 <= m < k ==> #[trigger] self.tabs@[m].id@ != key@,
            decreases n - k,
        {
            if self.tabs[k].id == *key {
                return Some(k);
            }
            k = k + 1;
        }
        None
    }

    /// Create a new tab: a fresh id no tracked tab carries, the given url
    /// (a blank page when absent), the placeholder title, no favicon, a
    /// position equal to the current tab count, marked active while every
    /// other tab is deactivated in the same step. Always succeeds; the tab
    /// count stays below the position type's range by the precondition.
    pub fn create_tab(&mut self, url: Option<String>) -> (r: Result<Tab, BrowserError>)
        requires
            old(self).wf(),
            old(self).tabs_seq().len() < 0x7fff_ffff,
        ensures
            final(self).wf(),
            final(self).process_running() == old(self).process_running(),
            final(self).debug_port() == old(self).debug_port(),
            r matches Ok(tab) && {
                &&& !id_in(old(self).tabs_seq(), tab.id@)
                &&& tab.url@ == (match url {
                    Some(u) => u@,
                    None => "about:blank"@,
                })
                &&& tab.title@ == "New Tab"@
                &&& tab.favicon is None
                &&& tab.position == old(self).tabs_seq().len()
                &&& tab.is_active
                &&& final(self).tabs_seq() == all_deactivated(old(self).tabs_seq()).push(tab)
                &&& final(self).active_id() == Some(tab.id@)
            },
    {
        let ghost s0 = self.tabs@;
        // Draw a random id; in the vanishingly unlikely event that it is
        // already taken, lengthen it until it is longer than every tracked
        // id, which forces freshness.
        let mut id = random_id();
        let mut taken = self.find_tab_index(&id).is_some();
        while taken
            invariant
                self.tabs@ == s0,
                taken == id_in(s0, id@),
            decreases max_id_len(s0) + 1 - id@.len(),
        {
            proof {
                let w = choose|i: int| 0 <= i < s0.len() && s0[i].id@ == id@;
                lemma_max_id_len(s0, w);
                reveal_strlit("x");
            }
            id.append("x");
            taken = self.find_tab_index(&id).is_some();
        }
        let url_s: String = match url {
            Some(u) => u,
            None => "about:blank".to_owned(),
        };
        let n = self.tabs.len();
        let pos = n as i32;
        let mut rebuilt: Vec<Tab> = Vec::new();
        let mut k: usize = 0;
        while k < n
            invariant
                self.tabs@ == s0,
                n == s0.len(),
                0 <= k <= n,
                rebuilt@.len() == k,
                forall|m: int| 0 <= m < k ==> #[trigger] rebuilt@[m] == deactivated(s0[m]),
            decreases n - k,
        {
            let t = &self.tabs[k];
            let nt = Tab {
                id: t.id.clone(),
                url: t.url.clone(),
                title: t.title.clone(),
                favicon: clone_opt_string(&t.favicon),
                position: t.position,
                is_active: false,
            };
            rebuilt.push(nt);
            k = k + 1;
        }
        let new_tab = Tab {
            id: id.clone(),
            url: url_s,
            title: "New Tab".to_owned(),
            favicon: None,
            position: pos,
            is_active: true,
        };
        let out = new_tab.clone();
        rebuilt.push(new_tab);
        self.tabs = rebuilt;
        self.active_tab = Some(id);
        proof {
            let s1 = self.tabs@;
            assert(s1 =~= all_deactivated(s0).push(out));
            assert forall|m: int| 0 <= m < s0.len() implies #[trigger] s1[m].id@ == s0[m].id@
                && !s1[m].is_active by {
                assert(s1[m] == deactivated(s0[m]));
            }
            assert forall|a: int, b: int| 0 <= a < b < s1.len() implies s1[a].id@ != s1[b].id@ by {
                if b < s0.len() {
                    assert(s1[a].id@ == s0[a].id@);
                    assert(s1[b].id@ == s0[b].id@);
                } else {
                    assert(s1[a].id@ == s0[a].id@);
                    assert(!(0 <= a < s0.len() && s0[a].id@ == out.id@));
                }
            }
            assert(s1[s0.len() as int].id@ == out.id@ && s1[s0.len() as int].is_active);
        }
        Ok(out)
    }

    /// Make the tab carrying `tab_id` the active one, deactivating whichever
    /// tab was active before, as one atomic transition, and return the
    /// updated tab; report not-found when no tab carries `tab_id`, leaving
    /// the previously active tab active and the manager unchanged.
    pub fn switch_tab(&mut self, tab_id: &str) -> (r: Result<Tab, BrowserError>)
        requires
            old(self).wf(),
        ensures
            final(self).wf(),
            final(self).process_running() == old(self).process_running(),
            final(self).debug_port() == old(self).debug_port(),
            !id_in(old(self).tabs_seq(), tab_id@) ==> {
                &&& *final(self) == *old(self)
                &&& r matches Err(e) && is_not_found_err(e, tab_id@)
            },
            id_in(old(self).tabs_seq(), tab_id@) ==> {
                let i = index_of_id(old(self).tabs_seq(), tab_id@);
                &&& final(self).tabs_seq() == all_deactivated(old(self).tabs_seq()).update(
                    i,
                    activated(old(self).tabs_seq()[i]),
                )
                &&& final(self).active_id() == Some(tab_id@)
                &&& r matches Ok(t) && t == activated(old(self).tabs_seq()[i])
            },
    {
        let key: String = tab_id.to_owned();
        match self.find_tab_index(&key) {
            None => Err(BrowserError::NotFound(
                "Tab ".to_owned().concat(tab_id).concat(" not found"),
            )),
            Some(i) => {
                proof {
                    lemma_index_of_id_unique(self.tabs@, tab_id@, i as int);
                }
                let ghost s0 = self.tabs@;
                let n = self.tabs.len();
                let mut rebuilt: Vec<Tab> = Vec::new();
                let mut k: usize = 0;
                while k < n
                    invariant
                        self.tabs@ == s0,
                        n == s0.len(),
                        i < n,
                        0 <= k <= n,
                        rebuilt@.len() == k,
                        forall|m: int|
                            0 <= m < k && m != i ==> #[trigger] rebuilt@[m] == deactivated(
                                s0[m],
                            ),
                        i < k ==> rebuilt@[i as int] == activated(s0[i as int]),
                    decreases n - k,
                {
                    let t = &self.tabs[k];
                    let nt = Tab {
                        id: t.id.clone(),
                        url: t.url.clone(),
                        title: t.title.clone(),
                        favicon: clone_opt_string(&t.favicon),
                        position: t.position,
                        is_active: k == i,
                    };
                    rebuilt.push(nt);
                    k = k + 1;
                }
                self.tabs = rebuilt;
                self.active_tab = Some(key);
                let out = self.tabs[i].clone();
                proof {
                    let s1 = self.tabs@;
                    assert forall|m: int| 0 <= m < s1.len() implies {
                        &&& #[trigger] s1[m].id@ == s0[m].id@
                        &&& s1[m].is_active == (m == i as int)
                    } by {
                        if m != i as int {
                            assert(s1[m] == deactivated(s0[m]));
                        }
                    }
                    assert(s1 =~= all_deactivated(s0).update(i as int, activated(s0[i as int])));
                    assert forall|a: int, b: int| 0 <= a < b < s1.len() implies s1[a].id@
                        != s1[b].id@ by {
                        assert(s1[a].id@ == s0[a].id@);
                        assert(s1[b].id@ == s0[b].id@);
                    }
                    assert(s1[i as int].id@ == tab_id@ && s1[i as int].is_active);
                }
                Ok(out)
            },
        }
    }

    /// The first index of `v` holding the smallest position.
    fn first_min_position_index(v: &Vec<Tab>) -> (j: usize)
        requires
            v@.len() > 0,
        ensures
            is_first_min_position(v@, j as int),
    {
        let n = v.len();
        let mut j: usize = 0;
        let mut k: usize = 1;
        while k < n
            invariant
                n == v@.len(),
                0 <= j < k <= n,
                forall|m: int| 0 <= m < k ==> v@[j as int].position <= #[trigger] v@[m].position,
                forall|m: int| 0 <= m < j ==> #[trigger] v@[m].position > v@[j as int].position,
            decreases n - k,
        {
            if v[k].position < v[j].position {
                j = k;
            }
            k = k + 1;
        }
        j
    }

    /// Remove the tab carrying `tab_id`. When the removed tab was the active
    /// one, the remaining tab with the lowest position (first such, on a
    /// tie) becomes active, or no tab does when none remain. Report
    /// not-found when no tab carries `tab_id`, leaving the manager
    /// unchanged.
    pub fn close_tab(&mut self, tab_id: &str) -> (r: Result<(), BrowserError>)
        requires
            old(self).wf(),
        ensures
            final(self).wf(),
            final(self).process_running() == old(self).process_running(),
            final(self).debug_port() == old(self).debug_port(),
            !id_in(old(self).tabs_seq(), tab_id@) ==> {
                &&& *final(self) == *old(self)
                &&& r matches Err(e) && is_not_found_err(e, tab_id@)
            },
            id_in(old(self).tabs_seq(), tab_id@) ==> {
                let i = index_of_id(old(self).tabs_seq(), tab_id@);
                let rest = old(self).tabs_seq().remove(i);
                &&& r is Ok
                &&& old(self).active_id() != Some(tab_id@) ==> {
                    &&& final(self).tabs_seq() == rest
                    &&& final(self).active_id() == old(self).active_id()
                }
                &&& old(self).active_id() == Some(tab_id@) && rest.len() == 0 ==> {
                    &&& final(self).tabs_seq().len() == 0
                    &&& final(self).active_id() is None
                }
                &&& old(self).active_id() == Some(tab_id@) && rest.len() > 0 ==> exists|j: int| {
                    &&& #[trigger] is_first_min_position(rest, j)
                    &&& final(self).tabs_seq() == rest.update(j, activated(rest[j]))
                    &&& final(self).active_id() == Some(rest[j].id@)
                }
            },
    {
        let key: String = tab_id.to_owned();
        match self.find_tab_index(&key) {
            None => Err(BrowserError::NotFound(
                "Tab ".to_owned().concat(tab_id).concat(" not found"),
            )),
            Some(i) => {
                proof {
                    lemma_index_of_id_unique(self.tabs@, tab_id@, i as int);
                }
                let ghost s0 = self.tabs@;
                let _removed = self.tabs.remove(i);
                let ghost rest = self.tabs@;
                let was_active = match &self.active_tab {
                    Some(a) => *a == key,
                    None => false,
                };
                proof {
                    // Each remaining tab is one of the old tabs, one index over.
                    assert forall|m: int| 0 <= m < rest.len() implies #[trigger] rest[m] == (
                    if m < i as int {
                        s0[m]
                    } else {
                        s0[m + 1]
                    }) by {}
                }
                if was_active {
                    proof {
                        // Only the removed tab was active, so no remaining one is.
                        assert forall|m: int| 0 <= m < rest.len() implies !(
                        #[trigger] rest[m].is_active) by {
                            let m0 = if m < i as int {
                                m
                            } else {
                                m + 1
                            };
                            if s0[m0].is_active {
                                assert(s0[m0].id@ == key@);
                                if m0 < i as int {
                                    assert(s0[m0].id@ != s0[i as int].id@);
                                } else {
                                    assert(s0[i as int].id@ != s0[m0].id@);
                                }
                            }
                        }
                    }
                    if self.tabs.len() == 0 {
                        self.active_tab = None;
                    } else {
                        let j = Self::first_min_position_index(&self.tabs);
                        let mut t = self.tabs.remove(j);
                        t.is_active = true;
                        let new_id = t.id.clone();
                        self.tabs.insert(j, t);
                        self.active_tab = Some(new_id);
                        proof {
                            let s1 = self.tabs@;
                            assert(s1 =~= rest.update(j as int, activated(rest[j as int])));
                            assert forall|a: int, b: int| 0 <= a < b < s1.len() implies s1[a].id@
                                != s1[b].id@ by {
                                assert(s1[a].id@ == rest[a].id@);
                                assert(s1[b].id@ == rest[b].id@);
                                lemma_remove_keeps_distinct(s0, i as int);
                            }
                            assert(s1[j as int].id@ == rest[j as int].id@ && s1[j as int].is_active);
                            assert forall|m: int|
                                0 <= m < s1.len() && #[trigger] s1[m].is_active implies m == j
                                as int by {
                                if m != j as int {
                                    assert(s1[m] == rest[m]);
                                }
                            }
                        }
                    }
                } else {
                    proof {
                        lemma_remove_keeps_distinct(s0, i as int);
                        match self.active_tab {
                            Some(ref a) => {
                                assert(a@ != key@);
                                let i0 = choose|m: int|
                                    0 <= m < s0.len() && #[trigger] s0[m].id@ == a@
                                        && s0[m].is_active;
                                assert(i0 != i as int);
                                let i1 = if i0 < i as int {
                                    i0
                                } else {
                                    i0 - 1
                                };
                                assert(rest[i1].id@ == a@ && rest[i1].is_active);
                            },
                            None => {
                                // An empty manager has no tab to find.
                                assert(s0.len() == 0);
                                assert(false);
                            },
                        }
                        assert forall|m: int|
                            0 <= m < rest.len() && #[trigger] rest[m].is_active implies {
                            &&& self.active_tab matches Some(id)
                            &&& rest[m].id@ == id@
                        } by {
                            let m0 = if m < i as int {
                                m
                            } else {
                                m + 1
                            };
                            assert(s0[m0].is_active);
                        }
                    }
                }
                Ok(())
            },
        }
    }

    /// Point the tab carrying `tab_id` at `url`, touching nothing else of it,
    /// and return the updated tab; report not-found when no tab carries
    /// `tab_id`, leaving the manager unchanged.
    pub fn navigate_tab(&mut self, tab_id: &str, url: &str) -> (r: Result<Tab, BrowserError>)
        requires
            old(self).wf(),
        ensures
            final(self).wf(),
            final(self).process_running() == old(self).process_running(),
            final(self).debug_port() == old(self).debug_port(),
            !id_in(old(self).tabs_seq(), tab_id@) ==> {
                &&& *final(self) == *old(self)
                &&& r matches Err(e) && is_not_found_err(e, tab_id@)
            },
            id_in(old(self).tabs_seq(), tab_id@) ==> {
                let i = index_of_id(old(self).tabs_seq(), tab_id@);
                let t0 = old(self).tabs_seq()[i];
                let t1 = final(self).tabs_seq()[i];
                &&& final(self).tabs_seq().len() == old(self).tabs_seq().len()
                &&& forall|k: int|
                    0 <= k < old(self).tabs_seq().len() && k != i
                        ==> final(self).tabs_seq()[k] == old(self).tabs_seq()[k]
                &&& t1.id == t0.id
                &&& t1.url@ == url@
                &&& t1.title == t0.title
                &&& t1.favicon == t0.favicon
                &&& t1.position == t0.position
                &&& t1.is_active == t0.is_active
                &&& r matches Ok(t) && t == t1
                &&& final(self).active_id() == old(self).active_id()
            },
    {
        let key: String = tab_id.to_owned();
        match self.find_tab_index(&key) {
            None => Err(BrowserError::NotFound(
                "Tab ".to_owned().concat(tab_id).concat(" not found"),
            )),
            Some(i) => {
                proof {
                    lemma_index_of_id_unique(self.tabs@, tab_id@, i as int);
                }
                let mut t = self.tabs.remove(i);
                t.url = url.to_owned();
                let out = t.clone();
                self.tabs.insert(i, t);
                proof {
                    let s0 = old(self).tabs@;
                    assert(self.tabs@ =~= s0.update(i as int, self.tabs@[i as int]));
                    assert forall|k: int| 0 <= k < s0.len() implies {
                        &&& #[trigger] self.tabs@[k].id@ == s0[k].id@
                        &&& self.tabs@[k].is_active == s0[k].is_active
                    } by {}
                    lemma_wf_same_shape(*old(self), *self);
                }
                Ok(out)
            },
        }
    }

    /// An owned snapshot of all tracked tabs, in ascending position order.
    pub fn get_tabs(&self) -> (r: Vec<Tab>)
        ensures
            sorted_by_position(r@),
            r@.to_multiset() == self.tabs_seq().to_multiset(),
            r@.len() == self.tabs_seq().len(),
    {
        let n = self.tabs.len();
        let mut rest: Vec<Tab> = Vec::new();
        let mut k: usize = 0;
        while k < n
            invariant
                n == self.tabs@.len(),
                0 <= k <= n,
                rest@.len() == k,
                forall|m: int| 0 <= m < k ==> #[trigger] rest@[m] == self.tabs@[m],
            decreases n - k,
        {
            rest.push(self.tabs[k].clone());
            k = k + 1;
        }
        proof {
            assert(rest@ =~= self.tabs@);
        }
        let mut out: Vec<Tab> = Vec::new();
        while rest.len() > 0
            invariant
                out@.to_multiset().add(rest@.to_multiset()) == self.tabs@.to_multiset(),
                sorted_by_position(out@),
                forall|a: int, b: int|
                    0 <= a < out@.len() && 0 <= b < rest@.len() ==> #[trigger] out@[a].position
                        <= #[trigger] rest@[b].position,
            decreases rest@.len(),
        {
            let ghost rest0 = rest@;
            let ghost out0 = out@;
            let j = Self::first_min_position_index(&rest);
            let t = rest.remove(j);
            out.push(t);
            proof {
                assert(rest0.contains(t)) by {
                    assert(rest0[j as int] == t);
                }
                assert(out@.to_multiset().add(rest@.to_multiset()) =~= self.tabs@.to_multiset());
                assert forall|m: int| 0 <= m < rest@.len() implies #[trigger] rest@[m]
                    == rest0[if m < j as int {
                    m
                } else {
                    m + 1
                }] by {}
                assert forall|a: int, b: int|
                    0 <= a < b < out@.len() implies #[trigger] out@[a].position
                    <= #[trigger] out@[b].position by {
                    if b == out@.len() - 1 {
                        assert(out@[a] == out0[a]);
                        assert(out@[b] == t);
                    }
                }
            }
        }
        proof {
            assert(rest@ =~= Seq::<Tab>::empty());
            assert(out@.to_multiset() =~= out@.to_multiset().add(rest@.to_multiset()));
            assert(out@.len() == out@.to_multiset().len());
            assert(self.tabs@.len() == self.tabs@.to_multiset().len());
        }
        out
    }

    /// The active tab, when one is recorded; a recorded id always names a
    /// tracked tab, and no tab is recorded exactly when none is tracked.
    pub fn get_active_tab(&self) -> (r: Option<Tab>)
        requires
            self.wf(),
        ensures
            match self.active_id() {
                None => r is None && self.tabs_seq().len() == 0,
                Some(aid) => {
                    &&& id_in(self.tabs_seq(), aid)
                    &&& r matches Some(t)
                    &&& t == self.tabs_seq()[index_of_id(self.tabs_seq(), aid)]
                    &&& t.is_active
                },
            },
    {
        match &self.active_tab {
            None => None,
            Some(aid) => {
                proof {
                    let i0 = choose|m: int|
                        0 <= m < self.tabs@.len() && #[trigger] self.tabs@[m].id@ == aid@
                            && self.tabs@[m].is_active;
                    lemma_index_of_id_unique(self.tabs@, aid@, i0);
                }
                match self.find_tab_index(aid) {
                    Some(i) => {
                        proof {
                            lemma_index_of_id_unique(self.tabs@, aid@, i as int);
                        }
                        Some(self.tabs[i].clone())
                    },
                    None => {
                        proof {
                            assert(false);
                        }
                        None
                    },
                }
            },
        }
    }

    /// Plan a launch attempt. While a process handle is held the attempt is
    /// an idempotent no-op; otherwise the browser executable is located for
    /// `os` and the caller is handed the exact invocation to spawn, or the
    /// locator's configuration error. Nothing of the manager changes here;
    /// the caller reports a successful spawn back through
    /// [`BrowserManager::record_launched_process`].
    pub fn plan_launch(&self, os: &HostOs, program_files: Option<&String>, profile_dir: &str) -> (r:
        Result<LaunchDirective, BrowserError>)
        ensures
            self.process_running() ==> (r matches Ok(d) && d is AlreadyRunning),
            !self.process_running() ==> match r {
                Ok(d) => d matches LaunchDirective::Spawn(cmd) && cmd.args.deep_view()
                    == launch_args(self.debug_port(), profile_dir@),
                Err(e) => e matches BrowserError::Configuration(_),
            },
            (!self.process_running() && os is Windows && program_files is None) ==> (r matches
                Err(e) && e matches BrowserError::Configuration(m) && m@
                == "ProgramFiles not found"@),
    {
        if self.process_held {
            return Ok(LaunchDirective::AlreadyRunning);
        }
        match find_browser_executable(os, program_files) {
            Ok(program) => Ok(
                LaunchDirective::Spawn(build_launch_command(program, self.cdp_port, profile_dir)),
            ),
            Err(e) => Err(e),
        }
    }

    /// Note that the caller spawned the planned process; from here on,
    /// launch attempts are no-ops until the manager is discarded.
    pub fn record_launched_process(&mut self)
        requires
            old(self).wf(),
        ensures
            final(self).wf(),
            final(self).process_running(),
            final(self).tabs_seq() == old(self).tabs_seq(),
            final(self).active_id() == old(self).active_id(),
            final(self).debug_port() == old(self).debug_port(),
    {
        self.process_held = true;
    }
}

/// At most one tab is active in a well-formed manager: any two active
/// indices name tabs carrying the one recorded id, and distinct ids force
/// the indices to coincide.
pub proof fn lemma_at_most_one_active(m: BrowserManager)
    requires
        m.wf(),
    ensures
        forall|i: int, j: int|
            0 <= i < m.tabs_seq().len() && 0 <= j < m.tabs_seq().len()
                && (#[trigger] m.tabs_seq()[i]).is_active && (#[trigger] m.tabs_seq()[j]).is_active
                ==> i == j,
{
    let s = m.tabs_seq();
    assert forall|i: int, j: int|
        0 <= i < s.len() && 0 <= j < s.len() && (#[trigger] s[i]).is_active
            && (#[trigger] s[j]).is_active implies i == j by {
        if i < j {
            assert(s[i].id@ != s[j].id@);
        } else if j < i {
            assert(s[j].id@ != s[i].id@);
        }
    }
}

/// A well-formed manager with any tab at all has an active one: the active
/// reference is only empty when the tab collection is.
pub proof fn lemma_nonempty_has_active(m: BrowserManager)
    requires
        m.wf(),
        m.tabs_seq().len() > 0,
    ensures
        m.active_id() is Some,
        exists|i: int|
            0 <= i < m.tabs_seq().len() && (#[trigger] m.tabs_seq()[i]).is_active
                && Some(m.tabs_seq()[i].id@) == m.active_id(),
{
    match m.active_tab {
        Some(id) => {
            let i0 = choose|i: int|
                0 <= i < m.tabs@.len() && #[trigger] m.tabs@[i].id@ == id@ && m.tabs@[i].is_active;
            assert(0 <= i0 < m.tabs_seq().len() && (m.tabs_seq()[i0]).is_active && Some(
                m.tabs_seq()[i0].id@,
            ) == m.active_id());
        },
        None => {
            assert(false);
        },
    }
}

/// Well-formedness only reads each tab's id and active mark and the active
/// reference, so it carries over between two managers that agree on those.
proof fn lemma_wf_same_shape(m0: BrowserManager, m1: BrowserManager)
    requires
        m0.wf(),
        m1.tabs_seq().len() == m0.tabs_seq().len(),
        forall|k: int|
            0 <= k < m0.tabs_seq().len() ==> {
                &&& (#[trigger] m1.tabs_seq()[k]).id@ == m0.tabs_seq()[k].id@
                &&& m1.tabs_seq()[k].is_active == m0.tabs_seq()[k].is_active
            },
        m1.active_id() == m0.active_id(),
    ensures
        m1.wf(),
{
    let s0 = m0.tabs@;
    let s1 = m1.tabs@;
    assert forall|i: int, j: int| 0 <= i < j < s1.len() implies s1[i].id@ != s1[j].id@ by {
        assert(s1[i].id@ == s0[i].id@);
        assert(s1[j].id@ == s0[j].id@);
    }
    match m1.active_tab {
        Some(id) => {
            match m0.active_tab {
                Some(id0) => {
                    assert(id0@ == id@);
                    let i0 = choose|i: int|
                        0 <= i < s0.len() && #[trigger] s0[i].id@ == id0@ && s0[i].is_active;
                    assert(0 <= i0 < s0.len() && s0[i0].id@ == id0@ && s0[i0].is_active);
                    assert(m1.tabs_seq()[i0].id@ == m0.tabs_seq()[i0].id@
                        && m1.tabs_seq()[i0].is_active == m0.tabs_seq()[i0].is_active);
                    assert(s1[i0].id@ == id@ && s1[i0].is_active);
                },
                None => {
                    assert(false);
                },
            }
        },
        None => {},
    }
    assert forall|i: int| 0 <= i < s1.len() && #[trigger] s1[i].is_active implies {
        &&& m1.active_tab matches Some(id)
        &&& s1[i].id@ == id@
    } by {
        assert(s0[i].is_active);
    }
}

/// Removing a tab keeps the remaining ids distinct.
proof fn lemma_remove_keeps_distinct(s: Seq<Tab>, i: int)
    requires
        ids_distinct(s),
        0 <= i < s.len(),
    ensures
        ids_distinct(s.remove(i)),
{
    let rest = s.remove(i);
    assert forall|a: int, b: int| 0 <= a < b < rest.len() implies rest[a].id@ != rest[b].id@ by {
        let a0 = if a < i {
            a
        } else {
            a + 1
        };
        let b0 = if b < i {
            b
        } else {
            b + 1
        };
        assert(rest[a] == s[a0]);
        assert(rest[b] == s[b0]);
        assert(s[a0].id@ != s[b0].id@);
    }
}

/// When the ids of `s` are distinct and `s[i]` carries `id`, then `i` is the
/// one index `index_of_id` names.
pub proof fn lemma_index_of_id_unique(s: Seq<Tab>, id: Seq<char>, i: int)
    requires
        ids_distinct(s),
        0 <= i < s.len(),
        s[i].id@ == id,
    ensures
        id_in(s, id),
        index_of_id(s, id) == i,
{
    assert(id_in(s, id));
    let j = index_of_id(s, id);
    if j != i {
        if i < j {
            assert(s[i].id@ != s[j].id@);
        } else {
            assert(s[j].id@ != s[i].id@);
        }
    }
}

} // verus!
