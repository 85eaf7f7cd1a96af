//! Navigation history -- back/forward navigation and persistent history.
//!
//! Maintains both session navigation history (back/forward) and persistent
//! browsing history (timestamped entries; reading and writing the file is
//! left to the caller).
use std::path::PathBuf;
use vstd::prelude::*;
use crate::clock::now_unix_secs;
use crate::sort::{is_stable_order, stable_order, lemma_recency_arith};
use crate::text::{contains, contains_chars, lower_chars, lowercase};

verus! {

/// A single entry in the browsing history.
#[derive(Debug, Clone)]
pub struct HistoryEntry {
    /// The URL that was visited.
    pub url: String,
    /// The page title at time of visit.
    pub title: String,
    /// Unix timestamp of when the page was visited.
    pub timestamp: u64,
}

/// What an entry holds.
pub struct HistoryEntryView {
    pub url: Seq<char>,
    pub title: Seq<char>,
    pub timestamp: u64,
}

impl View for HistoryEntry {
    type V = HistoryEntryView;

    open spec fn view(&self) -> HistoryEntryView {
        HistoryEntryView { url: self.url@, title: self.title@, timestamp: self.timestamp }
    }
}

/// The contents of a list of entries.
pub open spec fn entry_views(s: Seq<HistoryEntry>) -> Seq<HistoryEntryView> {
    s.map_values(|e: HistoryEntry| e@)
}

/// Persistent browsing history.
#[derive(Debug)]
pub struct BrowsingHistory {
    entries: Vec<HistoryEntry>,
    path: PathBuf,
    max_entries: usize,
}

/// The number of entries a loaded history keeps.
pub const DEFAULT_MAX_ENTRIES: usize = 10000;

/// `s` cut down to its last `max` elements.
pub open spec fn keep_last<A>(s: Seq<A>, max: nat) -> Seq<A> {
    if s.len() > max {
        s.skip(s.len() - max)
    } else {
        s
    }
}

/// Sort keys for recency: the timestamp, then the position in the history
/// (a later visit in the same second is more recent).
pub open spec fn history_keys(s: Seq<HistoryEntryView>) -> Seq<u128> {
    Seq::new(s.len(), |i: int| (s[i].timestamp * 0x1_0000_0000_0000_0000 + i) as u128)
}

/// Entry `a` of `items` is a more recent visit than entry `b`: a later
/// time, or the same time and added later.
pub open spec fn later_visit(items: Seq<HistoryEntryView>, a: int, b: int) -> bool {
    ||| items[a].timestamp > items[b].timestamp
    ||| (items[a].timestamp == items[b].timestamp && a > b)
}

/// `ord` lists every index of `items` once, most recent visit first.
pub open spec fn visits_in_recency_order(items: Seq<HistoryEntryView>, ord: Seq<usize>) -> bool {
    &&& ord.len() == items.len()
    &&& forall|i: int| 0 <= i < ord.len() ==> #[trigger] ord[i] < items.len()
    &&& forall|i: int, j: int|
        0 <= i < j < ord.len() ==> later_visit(items, #[trigger] ord[i] as int, #[trigger] ord[j] as int)
}

/// A stable order by recency keys lists the most recent visit first.
proof fn lemma_recency_order(items: Seq<HistoryEntryView>, ord: Seq<usize>)
    requires
        items.len() <= usize::MAX,
        is_stable_order(history_keys(items), ord, items.len() as int, true),
    ensures
        visits_in_recency_order(items, ord),
{
    let keys = history_keys(items);
    assert forall|i: int, j: int| 0 <= i < j < ord.len() implies later_visit(
        items,
        #[trigger] ord[i] as int,
        #[trigger] ord[j] as int,
    ) by {
        let a = ord[i] as int;
        let b = ord[j] as int;
        lemma_recency_arith(items[a].timestamp as int, items[b].timestamp as int, a, b);
        assert(crate::sort::precedes(keys, a, b, true));
    }
}


/// An entry matches a lower-cased query when its lower-cased URL or title
/// contains it.
pub open spec fn history_matches(e: HistoryEntryView, q: Seq<char>) -> bool {
    contains(lowercase(e.url), q) || contains(lowercase(e.title), q)
}

impl BrowsingHistory {
    /// The stored entries, oldest first.
    pub closed spec fn items(&self) -> Seq<HistoryEntryView> {
        entry_views(self.entries@)
    }

    /// The largest number of entries kept.
    pub closed spec fn max(&self) -> nat {
        self.max_entries as nat
    }

    /// The file the history is stored in.
    pub closed spec fn location(&self) -> PathBuf {
        self.path
    }

    /// An empty history stored at `path` that keeps at most `max_entries`.
    pub fn new(path: PathBuf, max_entries: usize) -> (r: Self)
        ensures
            r.items() == Seq::<HistoryEntryView>::empty(),
            r.max() == max_entries,
            r.location() == path,
    {
        let r = Self { entries: Vec::new(), path, max_entries };
        assert(r.items() =~= Seq::<HistoryEntryView>::empty());
        r
    }

    /// A history read back from `path`; it keeps at most 10 000 entries.
    pub fn restore(entries: Vec<HistoryEntry>, path: PathBuf) -> (r: Self)
        ensures
            r.items() == entry_views(entries@),
            r.max() == DEFAULT_MAX_ENTRIES,
            r.location() == path,
    {
        Self { entries, path, max_entries: DEFAULT_MAX_ENTRIES }
    }

    /// Where the history is stored.
    pub fn path(&self) -> (r: &PathBuf)
        ensures
            *r == self.location(),
    {
        &self.path
    }

    /// The stored entries, oldest first (the order they are saved in).
    pub fn stored(&self) -> (r: &[HistoryEntry])
        ensures
            entry_views(r@) == self.items(),
    {
        self.entries.as_slice()
    }

    /// Add a URL visit stamped with the current time.
    pub fn add(&mut self, url: &str, title: &str)
        ensures
            final(self).location() == old(self).location(),
            final(self).max() == old(self).max(),
            exists|t: u64|
                final(self).items() == keep_last(
                    old(self).items().push(HistoryEntryView { url: url@, title: title@, timestamp: t }),
                    old(self).max(),
                ),
    {
        let timestamp = now_unix_secs();
        self.add_at(url, title, timestamp);
    }

    /// Add a visit with the given timestamp; when over the limit, the oldest
    /// entries are dropped.
    pub fn add_at(&mut self, url: &str, title: &str, timestamp: u64)
        ensures
            final(self).location() == old(self).location(),
            final(self).max() == old(self).max(),
            final(self).items() == keep_last(
                old(self).items().push(HistoryEntryView { url: url@, title: title@, timestamp }),
                old(self).max(),
            ),
    {
        let ghost v0 = self.entries@;
        let e = HistoryEntry { url: url.to_owned(), title: title.to_owned(), timestamp };
        self.entries.push(e);
        assert(entry_views(v0.push(e)) =~= entry_views(v0).push(e@));
        if self.entries.len() > self.max_entries {
            let drain_count = self.entries.len() - self.max_entries;
            let ghost v1 = self.entries@;
            let rest = self.entries.split_off(drain_count);
            self.entries = rest;
            assert(entry_views(self.entries@) =~= entry_views(v1).skip(drain_count as int));
        }
    }

    /// Get all history entries, most recent first: by time, and of visits
    /// in the same second the later one first.
    pub fn entries(&self) -> (r: Vec<&HistoryEntry>)
        ensures
            r@.len() == self.items().len(),
            exists|ord: Seq<usize>|
                {
                    &&& visits_in_recency_order(self.items(), ord)
                    &&& forall|k: int|
                        0 <= k < r@.len() ==> (*#[trigger] r@[k])@ == self.items()[ord[k] as int]
                },
    {
        let n = self.entries.len();
        let mut keys: Vec<u128> = Vec::new();
        let mut i: usize = 0;
        while i < n
            invariant
                i <= n == self.entries@.len(),
                keys@.len() == i,
                forall|k: int| 0 <= k < i ==> keys@[k] == (self.entries@[k].timestamp * 0x1_0000_0000_0000_0000
                    + k) as u128,
            decreases n - i,
        {
            let ts = self.entries[i].timestamp;
            proof {
                lemma_recency_arith(ts as int, 0, i as int, 0);
            }
            keys.push((ts as u128) * 0x1_0000_0000_0000_0000u128 + (i as u128));
            i = i + 1;
        }
        assert(keys@ =~= history_keys(self.items()));
        let ord = stable_order(&keys, true);
        let mut out: Vec<&HistoryEntry> = Vec::new();
        let mut j: usize = 0;
        while j < n
            invariant
                j <= n == self.entries@.len() == ord@.len(),
                is_stable_order(history_keys(self.items()), ord@, n as int, true),
                out@.len() == j,
                forall|k: int| 0 <= k < j ==> (*#[trigger] out@[k])@ == self.items()[ord@[k] as int],
            decreases n - j,
        {
            let o = ord[j];
            assert(o < n);
            out.push(&self.entries[o]);
            j = j + 1;
        }
        proof {
            lemma_recency_order(self.items(), ord@);
        }
        out
    }

    /// Search history entries by URL or title substring, ignoring case.
    pub fn search(&self, query: &str) -> (r: Vec<&HistoryEntry>)
        ensures
            ({
                let found = self.items().filter(
                    |e: HistoryEntryView| history_matches(e, lowercase(query@)),
                );
                &&& r@.len() == found.len()
                &&& forall|k: int| 0 <= k < r@.len() ==> (*#[trigger] r@[k])@ == found[k]
            }),
    {
        let q = lower_chars(query);
        let ghost pred = |e: HistoryEntryView| history_matches(e, lowercase(query@));
        let ghost items = self.items();
        let mut out: Vec<&HistoryEntry> = Vec::new();
        let n = self.entries.len();
        let mut i: usize = 0;
        while i < n
            invariant
                i <= n == self.entries@.len(),
                q@ == lowercase(query@),
                pred == (|e: HistoryEntryView| history_matches(e, lowercase(query@))),
                items == self.items(),
                out@.len() == items.take(i as int).filter(pred).len(),
                forall|k: int|
                    0 <= k < out@.len() ==> (*#[trigger] out@[k])@ == items.take(i as int).filter(
                        pred,
                    )[k],
            decreases n - i,
        {
            let e = &self.entries[i];
            let u = lower_chars(e.url.as_str());
            let t = lower_chars(e.title.as_str());
            let hit = contains_chars(u.as_slice(), q.as_slice()) || contains_chars(
                t.as_slice(),
                q.as_slice(),
            );
            proof {
                reveal_with_fuel(Seq::filter, 1);
                assert(items.take(i + 1).drop_last() =~= items.take(i as int));
                assert(items[i as int] == self.entries@[i as int]@);
                assert(hit == pred(items[i as int]));
            }
            if hit {
                out.push(e);
            }
            i = i + 1;
        }
        assert(items.take(n as int) =~= items);
        out
    }

    /// Clear all history.
    pub fn clear(&mut self)
        ensures
            final(self).location() == old(self).location(),
            final(self).items() == Seq::<HistoryEntryView>::empty(),
            final(self).max() == old(self).max(),
    {
        self.entries.clear();
        assert(self.items() =~= Seq::<HistoryEntryView>::empty());
    }

    /// Get the total number of history entries.
    pub fn len(&self) -> (r: usize)
        ensures
            r == self.items().len(),
    {
        self.entries.len()
    }

    /// Check if history is empty.
    pub fn is_empty(&self) -> (r: bool)
        ensures
            r == (self.items().len() == 0),
    {
        self.entries.len() == 0
    }
}

/// The contents of a list of strings.
pub open spec fn strs(v: Seq<String>) -> Seq<Seq<char>> {
    v.map_values(|s: String| s@)
}

/// The abstract back/forward stack: pages behind, the current page, pages
/// ahead (the nearest page last in both lists).
pub struct NavState {
    pub back: Seq<Seq<char>>,
    pub current: Option<Seq<char>>,
    pub forward: Seq<Seq<char>>,
}

/// Session navigation stack for back/forward.
#[derive(Debug)]
pub struct NavigationStack {
    back: Vec<String>,
    current: Option<String>,
    forward: Vec<String>,
}

impl View for NavigationStack {
    type V = NavState;

    closed spec fn view(&self) -> NavState {
        NavState {
            back: strs(self.back@),
            current: match self.current {
                Some(c) => Some(c@),
                None => None,
            },
            forward: strs(self.forward@),
        }
    }
}

/// `s` with `c` pushed when there is a current page.
pub open spec fn push_current(s: Seq<Seq<char>>, c: Option<Seq<char>>) -> Seq<Seq<char>> {
    match c {
        Some(u) => s.push(u),
        None => s,
    }
}

/// Navigating to `url`: the current page goes behind, nothing stays ahead.
pub open spec fn nav_navigate(s: NavState, url: Seq<char>) -> NavState {
    NavState { back: push_current(s.back, s.current), current: Some(url), forward: seq![] }
}

/// Going back: the nearest page behind becomes current, the current page
/// goes ahead.  Nothing changes when there is no page behind.
pub open spec fn nav_back(s: NavState) -> (NavState, Option<Seq<char>>) {
    if s.back.len() == 0 {
        (s, None)
    } else {
        (
            NavState {
                back: s.back.drop_last(),
                current: Some(s.back.last()),
                forward: push_current(s.forward, s.current),
            },
            Some(s.back.last()),
        )
    }
}

/// Going forward, the mirror of [`nav_back`].
pub open spec fn nav_forward(s: NavState) -> (NavState, Option<Seq<char>>) {
    if s.forward.len() == 0 {
        (s, None)
    } else {
        (
            NavState {
                back: push_current(s.back, s.current),
                current: Some(s.forward.last()),
                forward: s.forward.drop_last(),
            },
            Some(s.forward.last()),
        )
    }
}

proof fn lemma_strs_push(v: Seq<String>, s: String)
    ensures
        strs(v.push(s)) == strs(v).push(s@),
{
    assert(strs(v.push(s)) =~= strs(v).push(s@));
}

proof fn lemma_strs_drop_last(v: Seq<String>)
    requires
        v.len() > 0,
    ensures
        strs(v.drop_last()) == strs(v).drop_last(),
        strs(v).last() == v.last()@,
{
    assert(strs(v.drop_last()) =~= strs(v).drop_last());
}

impl NavigationStack {
    /// Create a new empty navigation stack.
    pub fn new() -> (r: Self)
        ensures
            r@ == (NavState { back: seq![], current: None, forward: seq![] }),
    {
        let r = Self { back: Vec::new(), current: None, forward: Vec::new() };
        assert(r@.back =~= seq![]);
        assert(r@.forward =~= seq![]);
        r
    }

    /// Navigate to a new URL (clears forward history).
    pub fn navigate(&mut self, url: &str)
        ensures
            final(self)@ == nav_navigate(old(self)@, url@),
    {
        let ghost back0 = self.back@;
        if let Some(current) = self.current.take() {
            self.back.push(current);
            proof {
                lemma_strs_push(back0, current);
            }
        }
        self.current = Some(url.to_owned());
        self.forward.clear();
        assert(strs(self.forward@) =~= seq![]);
    }

    /// Go back one page. Returns the URL to navigate to, if any.
    pub fn go_back(&mut self) -> (r: Option<String>)
        ensures
            (final(self)@, match r {
                Some(u) => Some(u@),
                None => None,
            }) == nav_back(old(self)@),
    {
        let ghost back0 = self.back@;
        let ghost fwd0 = self.forward@;
        if let Some(prev) = self.back.pop() {
            proof {
                lemma_strs_drop_last(back0);
            }
            if let Some(current) = self.current.take() {
                self.forward.push(current);
                proof {
                    lemma_strs_push(fwd0, current);
                }
            }
            self.current = Some(prev.clone());
            Some(prev)
        } else {
            None
        }
    }

    /// Go forward one page. Returns the URL to navigate to, if any.
    pub fn go_forward(&mut self) -> (r: Option<String>)
        ensures
            (final(self)@, match r {
                Some(u) => Some(u@),
                None => None,
            }) == nav_forward(old(self)@),
    {
        let ghost back0 = self.back@;
        let ghost fwd0 = self.forward@;
        if let Some(next) = self.forward.pop() {
            proof {
                lemma_strs_drop_last(fwd0);
            }
            if let Some(current) = self.current.take() {
                self.back.push(current);
                proof {
                    lemma_strs_push(back0, current);
                }
            }
            self.current = Some(next.clone());
            Some(next)
        } else {
            None
        }
    }

    /// Get the current URL.
    pub fn current(&self) -> (r: Option<&str>)
        ensures
            match r {
                Some(u) => self@.current == Some(u@),
                None => self@.current is None,
            },
    {
        match &self.current {
            Some(c) => Some(c.as_str()),
            None => None,
        }
    }

    /// Check if we can go back.
    pub fn can_go_back(&self) -> (r: bool)
        ensures
            r == (self@.back.len() > 0),
    {
        self.back.len() > 0
    }

    /// Check if we can go forward.
    pub fn can_go_forward(&self) -> (r: bool)
        ensures
            r == (self@.forward.len() > 0),
    {
        self.forward.len() > 0
    }
}

impl Default for NavigationStack {
    fn default() -> (r: Self)
        ensures
            r@ == (NavState { back: seq![], current: None, forward: seq![] }),
    {
        Self::new()
    }
}

// ---------------------------------------------------------------------------
// Laws
// ---------------------------------------------------------------------------


/// Searching finds an entry exactly when its URL or its title contains the
/// query, ignoring case: an entry found only by its title is found too, and
/// an entry whose URL and title both lack the query is not.
pub proof fn law_search_by_url_or_title(items: Seq<HistoryEntryView>, query: Seq<char>, i: int)
    requires
        0 <= i < items.len(),
    ensures
        items.filter(|e: HistoryEntryView| history_matches(e, lowercase(query))).contains(items[i])
            <==> (contains(lowercase(items[i].url), lowercase(query)) || contains(
            lowercase(items[i].title),
            lowercase(query),
        )),
{
    let pred = |e: HistoryEntryView| history_matches(e, lowercase(query));
    let f = items.filter(pred);
    if pred(items[i]) {
        items.lemma_filter_contains(pred, i);
    }
    if f.contains(items[i]) {
        let k = choose|k: int| 0 <= k < f.len() && f[k] == items[i];
        items.lemma_filter_pred(pred, k);
    }
}


/// In recency order the visits come by time, the latest first, and of
/// visits in the same second the one added later first.
pub proof fn law_recency_order_by_time(items: Seq<HistoryEntryView>, ord: Seq<usize>, i: int, j: int)
    requires
        visits_in_recency_order(items, ord),
        0 <= i < j < ord.len(),
    ensures
        items[ord[i] as int].timestamp >= items[ord[j] as int].timestamp,
        items[ord[i] as int].timestamp == items[ord[j] as int].timestamp ==> ord[i] > ord[j],
{
    assert(later_visit(items, ord[i] as int, ord[j] as int));
}

/// Navigating makes the new page current, puts the page navigated from (if
/// any) on top of the pages behind, and forgets the pages ahead; Back and
/// Forward with nothing to go to change nothing and give nothing.
pub proof fn law_navigation_moves(s: NavState, url: Seq<char>)
    ensures
        nav_navigate(s, url).current == Some(url),
        nav_navigate(s, url).forward.len() == 0,
        s.current matches Some(c) ==> nav_navigate(s, url).back == s.back.push(c),
        s.current is None ==> nav_navigate(s, url).back == s.back,
        s.back.len() == 0 ==> nav_back(s) == (s, None::<Seq<char>>),
        s.forward.len() == 0 ==> nav_forward(s) == (s, None::<Seq<char>>),
        s.back.len() > 0 ==> nav_back(s).1 == Some(s.back.last()) && nav_back(s).0.current == Some(
            s.back.last(),
        ) && nav_back(s).0.back == s.back.drop_last(),
        s.forward.len() > 0 ==> nav_forward(s).1 == Some(s.forward.last()) && nav_forward(s).0.current
            == Some(s.forward.last()) && nav_forward(s).0.forward == s.forward.drop_last(),
{
}

/// Trimming to the limit keeps the most recent entries, as many as the
/// limit allows, in their order.
pub proof fn law_trim_keeps_newest(s: Seq<HistoryEntryView>, max: nat)
    ensures
        keep_last(s, max).len() == if s.len() > max {
            max
        } else {
            s.len()
        },
        forall|k: int|
            0 <= k < keep_last(s, max).len() ==> #[trigger] keep_last(s, max)[k] == s[s.len() - keep_last(
                s,
                max,
            ).len() + k],
{
}

/// Going back and then forward returns to the same state, whenever there is
/// a current page and a page behind it.
pub proof fn law_back_then_forward(s: NavState)
    requires
        s.back.len() > 0,
        s.current is Some,
    ensures
        nav_forward(nav_back(s).0).0 == s,
        nav_forward(nav_back(s).0).1 == s.current,
{
    let b = nav_back(s).0;
    assert(b.forward.last() == s.current->0);
    assert(b.forward.drop_last() =~= s.forward);
    assert(b.back.push(s.back.last()) =~= s.back);
}

/// Going forward and then back returns to the same state, whenever there is
/// a current page and a page ahead of it.
pub proof fn law_forward_then_back(s: NavState)
    requires
        s.forward.len() > 0,
        s.current is Some,
    ensures
        nav_back(nav_forward(s).0).0 == s,
        nav_back(nav_forward(s).0).1 == s.current,
{
    let f = nav_forward(s).0;
    assert(f.back.drop_last() =~= s.back);
    assert(f.forward.push(s.forward.last()) =~= s.forward);
}

/// After navigating, nothing is ahead and the page navigated from is the
/// one that Back returns.
pub proof fn law_navigate_then_back(s: NavState, url: Seq<char>)
    requires
        s.current is Some,
    ensures
        nav_navigate(s, url).forward.len() == 0,
        nav_back(nav_navigate(s, url)).1 == s.current,
        nav_back(nav_navigate(s, url)).0.current == s.current,
{
}

/// The history never holds more entries than its limit, and the newest
/// visit is always its last entry (when the limit is not zero).
pub proof fn law_history_bounded(entries: Seq<HistoryEntryView>, e: HistoryEntryView, max: nat)
    requires
        entries.len() <= max,
    ensures
        keep_last(entries.push(e), max).len() <= max,
        max > 0 ==> keep_last(entries.push(e), max).last() == e,
{
}

} // verus!
