//! Tab management -- multiple browser tabs.
//!
//! Each tab has its own page state, history stack, document and search
//! state; the tab manager keeps the open tabs and which one is active.
//! Scroll positions and layouts, which are measured in pixels, are kept by
//! the front end beside each tab.
use vstd::prelude::*;
use crate::css::{Stylesheet, RuleView, css_rule_texts, sheet_from_texts};
use crate::dom::{Document, styles_in, text_in};
use crate::history::{NavState, NavigationStack, nav_navigate};
use crate::render::decimal_chars;
use crate::text::{
    chars_of, collapse_ws, index_of, index_of_exec, lowercase, lower_chars, occurs_at, push_chars,
    push_str, slice_chars, string_from_chars, prefix_byte_len_from, byte_len, sat_usize,
};

verus! {

/// State of a single tab's page.
#[derive(Debug)]
pub enum PageState {
    /// Tab has no content yet.
    Blank,
    /// Page is being loaded.
    Loading { url: String },
    /// Page is fully loaded.
    Loaded { url: String, title: String, html: String },
    /// Page load failed.
    Error { url: String, error: String },
}

/// A search match location.
#[derive(Debug)]
pub struct SearchMatch {
    /// The matched text.
    pub text: String,
    /// Position in the lower-cased page content, as a byte offset.
    pub offset: usize,
}

/// A single browser tab.
#[derive(Debug)]
pub struct Tab {
    /// Current page state.
    pub page_state: PageState,
    /// Navigation history stack (back/forward).
    pub nav_stack: NavigationStack,
    /// The parsed document (if loaded).
    pub document: Option<Document>,
    /// Parsed stylesheets for the current page.
    pub stylesheets: Vec<Stylesheet>,
    /// Search matches on the current page.
    pub search_matches: Vec<SearchMatch>,
    /// Current search match index.
    pub current_match: Option<usize>,
    /// Whether this tab is pinned.
    pub pinned: bool,
}

/// The title a page state shows in the tab bar.
pub open spec fn state_title(p: PageState) -> Seq<char> {
    match p {
        PageState::Blank => "New Tab"@,
        PageState::Loading { url } => url@,
        PageState::Loaded { title, .. } => if title@.len() == 0 {
            "Untitled"@
        } else {
            title@
        },
        PageState::Error { url, .. } => url@,
    }
}

/// The URL of a page state.
pub open spec fn state_url(p: PageState) -> Seq<char> {
    match p {
        PageState::Blank => "about:blank"@,
        PageState::Loading { url } => url@,
        PageState::Loaded { url, .. } => url@,
        PageState::Error { url, .. } => url@,
    }
}

/// A tab as it is when opened: blank, with an empty history.
pub open spec fn is_blank_tab(t: Tab) -> bool {
    &&& t.page_state is Blank
    &&& t.nav_stack@ == (NavState { back: seq![], current: None, forward: seq![] })
    &&& t.document is None
    &&& t.stylesheets@.len() == 0
    &&& t.search_matches@.len() == 0
    &&& t.current_match is None
    &&& !t.pinned
}

/// A tab opened on a URL: loading it, with it as the only history entry.
pub open spec fn is_loading_tab(t: Tab, url: Seq<char>) -> bool {
    &&& t.page_state matches PageState::Loading { url: u } && u@ == url
    &&& t.nav_stack@ == nav_navigate(
        NavState { back: seq![], current: None, forward: seq![] },
        url,
    )
    &&& t.document is None
    &&& t.stylesheets@.len() == 0
    &&& t.search_matches@.len() == 0
    &&& t.current_match is None
    &&& !t.pinned
}

/// The views of a sequence of stylesheets.
pub open spec fn sheets_view(v: Seq<Stylesheet>) -> Seq<Seq<RuleView>> {
    v.map_values(|s: Stylesheet| s@)
}

/// The stylesheets read from stylesheet texts.
pub open spec fn parsed_sheets(texts: Seq<Seq<char>>) -> Seq<Seq<RuleView>> {
    texts.map_values(|c: Seq<char>| sheet_from_texts(css_rule_texts(c)))
}

/// The matches of `query` (given lower-cased as `ql`, `qlen` characters
/// long) in `text` (lower-cased as `tl`) from `offset` on: each at the next
/// occurrence of `ql` in `tl`, the search going on `qlen` characters after
/// it; the text of a match is the original text at that place, and its
/// position the byte offset of the occurrence in `tl`.
pub open spec fn matches_from(
    text: Seq<char>,
    tl: Seq<char>,
    ql: Seq<char>,
    qlen: nat,
    offset: nat,
) -> Seq<(Seq<char>, nat)>
    decreases tl.len() + 1 - offset,
{
    if qlen == 0 || offset > tl.len() {
        seq![]
    } else {
        match index_of(tl.skip(offset as int), ql) {
            Some(p) => if p >= 0 {
                let abs = (offset + p) as nat;
                let lo = if abs <= text.len() {
                    abs
                } else {
                    text.len()
                };
                let hi = if abs + qlen <= text.len() {
                    abs + qlen
                } else {
                    text.len()
                };
                seq![(text.subrange(lo as int, hi as int), sat_usize(byte_len(tl.take(abs as int))) as nat)] + if abs + qlen <= tl.len() {
                    matches_from(text, tl, ql, qlen, abs + qlen)
                } else {
                    seq![]
                }
            } else {
                seq![]
            },
            None => seq![],
        }
    }
}

/// The text and offset of each search match.
pub open spec fn match_views(v: Seq<SearchMatch>) -> Seq<(Seq<char>, nat)> {
    v.map_values(|m: SearchMatch| (m.text@, m.offset as nat))
}

/// The page text a search looks at.
pub open spec fn page_text(doc: Document) -> Seq<char> {
    collapse_ws(text_in(doc.root))
}

/// The search matches of `query` in the page text `text`.
pub open spec fn search_results(text: Seq<char>, query: Seq<char>) -> Seq<(Seq<char>, nat)> {
    matches_from(text, lowercase(text), lowercase(query), query.len(), 0)
}

/// The tab after a search for `query`: the matches in its page text, the
/// first of them current; nothing else changed.
pub open spec fn after_search(t0: Tab, t1: Tab, query: Seq<char>) -> bool {
    &&& t1 == (Tab { search_matches: t1.search_matches, current_match: t1.current_match, ..t0 })
    &&& match t0.document {
        Some(doc) => match_views(t1.search_matches@) == search_results(page_text(doc), query)
            && t1.current_match == (if t1.search_matches@.len() > 0 {
            Some(0usize)
        } else {
            None
        }),
        None => t1.search_matches@.len() == 0 && t1.current_match is None,
    }
}

/// The position after moving to the next match: wrapping to the first.
pub open spec fn next_index(cur: Option<usize>, n: nat) -> Option<usize> {
    match cur {
        Some(i) => if i + 1 < n {
            Some((i + 1) as usize)
        } else {
            Some(0)
        },
        None => None,
    }
}

/// The position after moving to the previous match: wrapping to the last.
pub open spec fn prev_index(cur: Option<usize>, n: nat) -> Option<usize> {
    match cur {
        Some(i) => if i > 0 {
            Some((i - 1) as usize)
        } else if n > 0 {
            Some((n - 1) as usize)
        } else {
            Some(0)
        },
        None => None,
    }
}

/// The search status: `No matches`, `i/n`, or `n matches`.
pub open spec fn match_count_text(cur: Option<usize>, n: nat) -> Seq<char> {
    if n == 0 {
        "No matches"@
    } else {
        match cur {
            Some(i) => crate::render::decimal((i + 1) as nat) + "/"@ + crate::render::decimal(n),
            None => crate::render::decimal(n) + " matches"@,
        }
    }
}

impl Tab {
    /// Create a new blank tab.
    pub fn new() -> (r: Self)
        ensures
            is_blank_tab(r),
    {
        Tab {
            page_state: PageState::Blank,
            nav_stack: NavigationStack::new(),
            document: None,
            stylesheets: Vec::new(),
            search_matches: Vec::new(),
            current_match: None,
            pinned: false,
        }
    }

    /// Create a new tab loading a URL.
    pub fn with_url(url: &str) -> (r: Self)
        ensures
            is_loading_tab(r, url@),
    {
        let mut tab = Tab::new();
        tab.page_state = PageState::Loading { url: url.to_owned() };
        tab.nav_stack.navigate(url);
        tab
    }

    /// Get the tab title (for the tab bar).
    pub fn title(&self) -> (r: &str)
        ensures
            r@ == state_title(self.page_state),
    {
        match &self.page_state {
            PageState::Blank => "New Tab",
            PageState::Loading { url } => url.as_str(),
            PageState::Loaded { title, .. } => {
                if chars_of(title.as_str()).len() == 0 {
                    "Untitled"
                } else {
                    title.as_str()
                }
            },
            PageState::Error { url, .. } => url.as_str(),
        }
    }

    /// Get the current URL.
    pub fn url(&self) -> (r: &str)
        ensures
            r@ == state_url(self.page_state),
    {
        match &self.page_state {
            PageState::Blank => "about:blank",
            PageState::Loading { url } => url.as_str(),
            PageState::Loaded { url, .. } => url.as_str(),
            PageState::Error { url, .. } => url.as_str(),
        }
    }

    /// Set the page as loaded with its HTML and the document parsed from
    /// it: the title is the document's (`Untitled` when it has none), the
    /// stylesheets those of its `<style>` elements, the search is reset.
    pub fn set_loaded(&mut self, url: &str, html: String, doc: Document)
        ensures
            final(self).page_state matches PageState::Loaded { url: u, title: t, html: h } && u@
                == url@ && h@ == html@ && t@ == (match crate::dom::title_in(doc.root) {
                Some(x) => x,
                None => "Untitled"@,
            }),
            final(self).document == Some(doc),
            sheets_view(final(self).stylesheets@) == parsed_sheets(styles_in(doc.root)),
            final(self).search_matches@.len() == 0,
            final(self).current_match is None,
            final(self).nav_stack == old(self).nav_stack,
            final(self).pinned == old(self).pinned,
    {
        let title = match doc.title() {
            Some(t) => t.to_owned(),
            None => "Untitled".to_owned(),
        };
        let texts = doc.inline_styles();
        let mut stylesheets: Vec<Stylesheet> = Vec::new();
        let mut i: usize = 0;
        while i < texts.len()
            invariant
                i <= texts@.len(),
                texts@.map_values(|s: String| s@) == styles_in(doc.root),
                sheets_view(stylesheets@) == parsed_sheets(styles_in(doc.root)).take(i as int),
            decreases texts@.len() - i,
        {
            let ghost s0 = stylesheets@;
            let sheet = Stylesheet::parse(texts[i].as_str());
            stylesheets.push(sheet);
            assert(sheets_view(stylesheets@) =~= sheets_view(s0).push(sheet_from_texts(
                css_rule_texts(texts@[i as int]@),
            )));
            assert(parsed_sheets(styles_in(doc.root)).take(i + 1) =~= parsed_sheets(
                styles_in(doc.root),
            ).take(i as int).push(sheet_from_texts(css_rule_texts(texts@[i as int]@))));
            i = i + 1;
        }
        assert(parsed_sheets(styles_in(doc.root)).take(i as int) =~= parsed_sheets(
            styles_in(doc.root),
        ));
        self.page_state = PageState::Loaded { url: url.to_owned(), title, html };
        self.document = Some(doc);
        self.stylesheets = stylesheets;
        self.search_matches = Vec::new();
        self.current_match = None;
    }

    /// Set the page as errored.
    pub fn set_error(&mut self, url: &str, error: String)
        ensures
            final(self).page_state matches PageState::Error { url: u, error: e } && u@ == url@
                && e@ == error@,
            final(self).document == old(self).document,
            final(self).nav_stack == old(self).nav_stack,
            final(self).pinned == old(self).pinned,
            final(self).search_matches == old(self).search_matches,
            final(self).current_match == old(self).current_match,
            final(self).stylesheets == old(self).stylesheets,
    {
        self.page_state = PageState::Error { url: url.to_owned(), error };
    }

    /// Search for text on the current page, ignoring case; the first match
    /// becomes the current one.
    pub fn search(&mut self, query: &str)
        ensures
            after_search(*old(self), *final(self), query@),
    {
        self.search_matches = Vec::new();
        self.current_match = None;
        let found = match &self.document {
            Some(doc) => {
                let text = doc.text_content();
                let t = chars_of(text.as_str());
                let tl = lower_chars(text.as_str());
                let ql = lower_chars(query);
                let qlen = chars_of(query).len();
                Some(find_matches(t.as_slice(), tl.as_slice(), ql.as_slice(), qlen))
            },
            None => None,
        };
        match found {
            Some(m) => {
                self.search_matches = m;
                if self.search_matches.len() > 0 {
                    self.current_match = Some(0);
                }
            },
            None => {},
        }
    }

    /// Move to next search match.
    pub fn next_match(&mut self)
        ensures
            *final(self) == (Tab {
                current_match: next_index(old(self).current_match, old(self).search_matches@.len()),
                ..*old(self)
            }),
    {
        match self.current_match {
            Some(i) => {
                let n = self.search_matches.len();
                if n > 0 && i < n - 1 {
                    self.current_match = Some(i + 1);
                } else {
                    self.current_match = Some(0);
                }
            },
            None => {},
        }
    }

    /// Move to previous search match.
    pub fn prev_match(&mut self)
        ensures
            *final(self) == (Tab {
                current_match: prev_index(old(self).current_match, old(self).search_matches@.len()),
                ..*old(self)
            }),
    {
        match self.current_match {
            Some(i) => {
                if i > 0 {
                    self.current_match = Some(i - 1);
                } else if self.search_matches.len() > 0 {
                    self.current_match = Some(self.search_matches.len() - 1);
                } else {
                    self.current_match = Some(0);
                }
            },
            None => {},
        }
    }

    /// Get search match count string (e.g., "3/15").
    pub fn match_count_str(&self) -> (r: String)
        requires
            self.current_match matches Some(i) ==> i < usize::MAX,
        ensures
            r@ == match_count_text(self.current_match, self.search_matches@.len()),
    {
        let n = self.search_matches.len();
        if n == 0 {
            return "No matches".to_owned();
        }
        match self.current_match {
            Some(i) => {
                let mut out = decimal_chars((i + 1) as u64);
                push_str(&mut out, "/");
                let d = decimal_chars(n as u64);
                push_chars(&mut out, d.as_slice());
                string_from_chars(out.as_slice())
            },
            None => {
                let mut out = decimal_chars(n as u64);
                push_str(&mut out, " matches");
                string_from_chars(out.as_slice())
            },
        }
    }

    /// Check if the page is currently loading.
    pub fn is_loading(&self) -> (r: bool)
        ensures
            r == self.page_state is Loading,
    {
        match self.page_state {
            PageState::Loading { .. } => true,
            _ => false,
        }
    }
}

impl Default for Tab {
    fn default() -> (r: Self)
        ensures
            is_blank_tab(r),
    {
        Tab::new()
    }
}

/// The matches of `ql` in `tl` from `offset` on, as `matches_from` says.
fn find_matches(text: &[char], tl: &[char], ql: &[char], qlen: usize) -> (r: Vec<SearchMatch>)
    ensures
        match_views(r@) == matches_from(text@, tl@, ql@, qlen as nat, 0),
{
    let mut out: Vec<SearchMatch> = Vec::new();
    if qlen == 0 {
        assert(match_views(out@) =~= seq![]);
        return out;
    }
    let mut offset: usize = 0;
    let mut bytes_at: usize = 0;
    assert(match_views(out@) =~= seq![]);
    proof {
        assert(tl@.take(0) =~= Seq::<char>::empty());
        assert(vstd::utf8::encode_utf8(Seq::<char>::empty()) =~= Seq::<u8>::empty());
    }
    while offset <= tl.len()
        invariant
            qlen > 0,
            bytes_at == sat_usize(byte_len(tl@.take(offset as int))),
            match_views(out@) + matches_from(text@, tl@, ql@, qlen as nat, offset as nat)
                == matches_from(text@, tl@, ql@, qlen as nat, 0),
        decreases tl@.len() + 1 - offset,
    {
        let rest = slice_chars(tl, offset, tl.len());
        assert(rest@ =~= tl@.skip(offset as int));
        match index_of_exec(rest.as_slice(), ql) {
            Some(p) => {
                assert(occurs_at(rest@, ql@, p as int));
                let abs: usize = offset + p;
                let lo: usize = if abs <= text.len() { abs } else { text.len() };
                let hi: usize = if abs <= text.len() && qlen <= text.len() - abs {
                    abs + qlen
                } else {
                    text.len()
                };
                let piece = slice_chars(text, lo, hi);
                let ghost o0 = match_views(out@);
                let bytes_abs = prefix_byte_len_from(bytes_at, tl, offset, abs);
                let ghost m = (piece@, bytes_abs as nat);
                out.push(SearchMatch { text: string_from_chars(piece.as_slice()), offset: bytes_abs });
                assert(match_views(out@) =~= o0.push(m));
                if abs > tl.len() || qlen > tl.len() - abs {
                    proof {
                        assert(o0 + matches_from(text@, tl@, ql@, qlen as nat, offset as nat) =~= o0.push(m));
                    }
                    return out;
                }
                let next = abs + qlen;
                let bytes_next = prefix_byte_len_from(bytes_abs, tl, abs, next);
                proof {
                    assert(o0 + matches_from(text@, tl@, ql@, qlen as nat, offset as nat) =~= o0.push(m)
                        + matches_from(text@, tl@, ql@, qlen as nat, next as nat));
                }
                offset = next;
                bytes_at = bytes_next;
            },
            None => {
                assert(match_views(out@) + matches_from(text@, tl@, ql@, qlen as nat, offset as nat)
                    =~= match_views(out@));
                return out;
            },
        }
    }
    assert(match_views(out@) + matches_from(text@, tl@, ql@, qlen as nat, offset as nat)
        =~= match_views(out@));
    out
}

/// Manager for multiple browser tabs.
#[derive(Debug)]
pub struct TabManager {
    /// All open tabs.
    tabs: Vec<Tab>,
    /// Index of the currently active tab.
    active: usize,
}

/// The index of the tab after closing the active one at `active` of `n`.
pub open spec fn index_after_close(active: nat, n: nat) -> nat {
    if active >= n - 1 {
        (n - 2) as nat
    } else {
        active
    }
}

/// The active index after switching to the next tab: wrapping to the
/// first.
pub open spec fn next_active(a: nat, n: nat) -> nat {
    (a + 1) % n
}

/// The active index after switching to the previous tab: wrapping to the
/// last.
pub open spec fn prev_active(a: nat, n: nat) -> nat {
    if a == 0 {
        (n - 1) as nat
    } else {
        (a - 1) as nat
    }
}

/// The active index after going to tab `i`: unchanged when there is none.
pub open spec fn goto_active(a: nat, i: nat, n: nat) -> nat {
    if i < n {
        i
    } else {
        a
    }
}

/// The tab manager after closing the active tab: a pinned tab stays, the
/// last tab is replaced by a blank one, any other is removed.
pub open spec fn tab_closed(m0: TabManager, m1: TabManager) -> bool {
    let old_tabs = m0.tabs_seq();
    let a = m0.active_spec();
    &&& m1.wf()
    &&& if old_tabs[a as int].pinned {
        m1.tabs_seq() == old_tabs && m1.active_spec() == a
    } else if old_tabs.len() == 1 {
        m1.tabs_seq().len() == 1 && is_blank_tab(m1.tabs_seq()[0]) && m1.active_spec() == 0
    } else {
        m1.tabs_seq() == old_tabs.remove(a as int) && m1.active_spec() == index_after_close(
            a,
            old_tabs.len(),
        )
    }
}

impl TabManager {
    /// The open tabs, in order.
    pub closed spec fn tabs_seq(&self) -> Seq<Tab> {
        self.tabs@
    }

    /// The index of the active tab.
    pub closed spec fn active_spec(&self) -> nat {
        self.active as nat
    }

    /// At least one tab is open and the active index names one of them.
    pub open spec fn wf(&self) -> bool {
        self.tabs_seq().len() > 0 && self.active_spec() < self.tabs_seq().len()
    }

    /// Create a new tab manager with one blank tab.
    pub fn new() -> (r: Self)
        ensures
            r.wf(),
            r.tabs_seq().len() == 1,
            is_blank_tab(r.tabs_seq()[0]),
            r.active_spec() == 0,
    {
        let mut tabs: Vec<Tab> = Vec::new();
        tabs.push(Tab::new());
        TabManager { tabs, active: 0 }
    }

    /// Create a tab manager with an initial URL.
    pub fn with_url(url: &str) -> (r: Self)
        ensures
            r.wf(),
            r.tabs_seq().len() == 1,
            is_loading_tab(r.tabs_seq()[0], url@),
            r.active_spec() == 0,
    {
        let mut tabs: Vec<Tab> = Vec::new();
        tabs.push(Tab::with_url(url));
        TabManager { tabs, active: 0 }
    }

    /// Get the active tab.
    pub fn active_tab(&self) -> (r: &Tab)
        requires
            self.wf(),
        ensures
            *r == self.tabs_seq()[self.active_spec() as int],
    {
        &self.tabs[self.active]
    }

    /// Get the active tab mutably.
    pub fn active_tab_mut(&mut self) -> (r: &mut Tab)
        requires
            old(self).wf(),
        ensures
            *r == old(self).tabs_seq()[old(self).active_spec() as int],
            final(self).tabs_seq() == old(self).tabs_seq().update(
                old(self).active_spec() as int,
                *final(r),
            ),
            final(self).active_spec() == old(self).active_spec(),
    {
        &mut self.tabs[self.active]
    }

    /// Get the active tab index.
    pub fn active_index(&self) -> (r: usize)
        ensures
            r == self.active_spec(),
    {
        self.active
    }

    /// Get the number of open tabs.
    pub fn tab_count(&self) -> (r: usize)
        ensures
            r == self.tabs_seq().len(),
    {
        self.tabs.len()
    }

    /// Get all tab titles and whether each is the active one.
    pub fn tab_titles(&self) -> (r: Vec<(&str, bool)>)
        ensures
            r@.len() == self.tabs_seq().len(),
            forall|i: int|
                0 <= i < r@.len() ==> (#[trigger] r@[i]).0@ == state_title(
                    self.tabs_seq()[i].page_state,
                ) && r@[i].1 == (i == self.active_spec()),
    {
        let mut out: Vec<(&str, bool)> = Vec::new();
        let mut i: usize = 0;
        while i < self.tabs.len()
            invariant
                i <= self.tabs@.len(),
                out@.len() == i,
                forall|k: int|
                    0 <= k < i ==> (#[trigger] out@[k]).0@ == state_title(
                        self.tabs@[k].page_state,
                    ) && out@[k].1 == (k == self.active),
            decreases self.tabs@.len() - i,
        {
            out.push((self.tabs[i].title(), i == self.active));
            i = i + 1;
        }
        out
    }

    /// Open a new tab (optionally with a URL); it becomes the active one.
    pub fn new_tab(&mut self, url: Option<&str>) -> (r: usize)
        requires
            old(self).wf(),
        ensures
            final(self).wf(),
            final(self).tabs_seq().len() == old(self).tabs_seq().len() + 1,
            final(self).tabs_seq().take(old(self).tabs_seq().len() as int) == old(self).tabs_seq(),
            match url {
                Some(u) => is_loading_tab(final(self).tabs_seq().last(), u@),
                None => is_blank_tab(final(self).tabs_seq().last()),
            },
            final(self).active_spec() == old(self).tabs_seq().len(),
            r == final(self).active_spec(),
    {
        let tab = match url {
            Some(u) => Tab::with_url(u),
            None => Tab::new(),
        };
        let ghost t0 = self.tabs@;
        self.tabs.push(tab);
        assert(self.tabs@.take(t0.len() as int) =~= t0);
        self.active = self.tabs.len() - 1;
        self.active
    }

    /// Close the active tab. A pinned tab stays open; closing the last tab
    /// leaves one blank tab.
    pub fn close_tab(&mut self)
        requires
            old(self).wf(),
        ensures
            tab_closed(*old(self), *final(self)),
    {
        if self.tabs[self.active].pinned {
            return;
        }
        if self.tabs.len() == 1 {
            self.tabs.set(0, Tab::new());
            return;
        }
        self.tabs.remove(self.active);
        if self.active >= self.tabs.len() {
            self.active = self.tabs.len() - 1;
        }
    }

    /// Switch to the next tab, wrapping to the first.
    pub fn next_tab(&mut self)
        requires
            old(self).wf(),
        ensures
            final(self).wf(),
            final(self).tabs_seq() == old(self).tabs_seq(),
            final(self).active_spec() == next_active(
                old(self).active_spec(),
                old(self).tabs_seq().len(),
            ),
    {
        let n = self.tabs.len();
        assert(self.active < n);
        self.active = (self.active + 1) % n;
    }

    /// Switch to the previous tab, wrapping to the last.
    pub fn prev_tab(&mut self)
        requires
            old(self).wf(),
        ensures
            final(self).wf(),
            final(self).tabs_seq() == old(self).tabs_seq(),
            final(self).active_spec() == prev_active(
                old(self).active_spec(),
                old(self).tabs_seq().len(),
            ),
    {
        self.active = if self.active == 0 {
            self.tabs.len() - 1
        } else {
            self.active - 1
        };
    }

    /// Switch to a specific tab by index; an index past the last tab is
    /// ignored.
    pub fn goto_tab(&mut self, index: usize)
        requires
            old(self).wf(),
        ensures
            final(self).wf(),
            final(self).tabs_seq() == old(self).tabs_seq(),
            final(self).active_spec() == goto_active(
                old(self).active_spec(),
                index as nat,
                old(self).tabs_seq().len(),
            ),
    {
        if index < self.tabs.len() {
            self.active = index;
        }
    }

    /// Get a reference to a specific tab.
    pub fn get_tab(&self, index: usize) -> (r: Option<&Tab>)
        ensures
            match r {
                Some(t) => index < self.tabs_seq().len() && *t == self.tabs_seq()[index as int],
                None => index >= self.tabs_seq().len(),
            },
    {
        if index < self.tabs.len() {
            Some(&self.tabs[index])
        } else {
            None
        }
    }

    /// Get a mutable reference to a specific tab.
    pub fn get_tab_mut(&mut self, index: usize) -> (r: Option<&mut Tab>)
        ensures
            final(self).active_spec() == old(self).active_spec(),
            match r {
                Some(t) => index < old(self).tabs_seq().len() && *t == old(self).tabs_seq()[index as int]
                    && final(self).tabs_seq() == old(self).tabs_seq().update(index as int, *final(t)),
                None => index >= old(self).tabs_seq().len() && final(self).tabs_seq() == old(self).tabs_seq(),
            },
    {
        if index < self.tabs.len() {
            Some(&mut self.tabs[index])
        } else {
            None
        }
    }
}

impl Default for TabManager {
    fn default() -> (r: Self)
        ensures
            r.wf(),
            r.tabs_seq().len() == 1,
            is_blank_tab(r.tabs_seq()[0]),
            r.active_spec() == 0,
    {
        TabManager::new()
    }
}


/// Switching to the next tab and then to the previous one (or the other
/// way round) comes back to the same tab.
pub proof fn law_next_prev_inverse(a: nat, n: nat)
    requires
        a < n,
    ensures
        prev_active(next_active(a, n), n) == a,
        next_active(prev_active(a, n), n) == a,
{
    if a + 1 < n {
        assert((a + 1) % n == a + 1) by (nonlinear_arith)
            requires
                a + 1 < n,
        ;
    } else {
        assert((a + 1) % n == 0) by (nonlinear_arith)
            requires
                a + 1 == n,
        ;
    }
    if a == 0 {
        assert(((n - 1) as nat + 1) % n == 0) by (nonlinear_arith)
            requires
                n > 0,
        ;
    } else {
        assert(((a - 1) as nat + 1) % n == a) by (nonlinear_arith)
            requires
                0 < a < n,
        ;
    }
}

/// The active tab is always one of the open tabs, whatever the switch.
pub proof fn law_switch_stays_in_range(a: nat, i: nat, n: nat)
    requires
        a < n,
    ensures
        next_active(a, n) < n,
        prev_active(a, n) < n,
        goto_active(a, i, n) < n,
{
    assert((a + 1) % n < n) by (nonlinear_arith)
        requires
            n > 0,
    ;
}

/// Opening a tab and then closing it gives back the tabs there were, the
/// new tab's neighbour being active.
pub proof fn law_open_then_close(m0: TabManager, m1: TabManager, m2: TabManager)
    requires
        m0.wf(),
        m1.tabs_seq().len() == m0.tabs_seq().len() + 1,
        m1.tabs_seq().take(m0.tabs_seq().len() as int) == m0.tabs_seq(),
        is_blank_tab(m1.tabs_seq().last()),
        m1.active_spec() == m0.tabs_seq().len(),
        tab_closed(m1, m2),
    ensures
        m2.tabs_seq() == m0.tabs_seq(),
        m2.active_spec() == m0.tabs_seq().len() - 1,
{
    assert(m1.tabs_seq().remove(m0.tabs_seq().len() as int) =~= m0.tabs_seq());
}

} // verus!
