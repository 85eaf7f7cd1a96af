//! Browser state -- what the browser decides.
//!
//! The `Browser` owns tabs, history, bookmarks, the content blocker and the
//! input handler. Handling a key action or a `:` command changes this state
//! and names what the front end has to do next: scroll, fetch a URL, show
//! a generated page, or save the bookmarks.
use vstd::prelude::*;
use crate::bookmarks::{Bookmark, BookmarkView, Bookmarks, bookmarks_in_recency_order, has_url};
use crate::content_blocking::{ContentBlocker, BlockerView, after_check, blocks};
use crate::history::{
    BrowsingHistory, HistoryEntry, HistoryEntryView, NavState, visits_in_recency_order, keep_last, nav_back,
    nav_forward, nav_navigate, strs,
};
use crate::input::{
    ActionView, BrowserAction, InputHandler, InputState, Mode, command_parts, mode_label,
    split_command,
};
use crate::tabs::{
    PageState, Tab, TabManager, after_search, goto_active, match_count_text, next_active,
    next_index, prev_active, prev_index, state_title, state_url, tab_closed,
};
use crate::css::{Stylesheet, RuleView, css_rule_texts, sheet_from_texts};
use crate::dom::{Document, styles_in, title_in};
use crate::render::{
    RenderedPage, ansi_text, decimal, decimal_chars, line_views, render_status_bar,
    render_tab_bar, status_bar, tab_bar, tab_entries, to_ansi_text,
};
use crate::tabs::{is_blank_tab, is_loading_tab, parsed_sheets, sheets_view};
use crate::text::{
    is_ws_spec, char_seqs, chars_of, join_with, push_chars, push_str, split_words, string_from_chars, trim, words,
};
use crate::url_util::{normalize_input, normalized};

verus! {

// ---------------------------------------------------------------------------
// Generated pages
// ---------------------------------------------------------------------------

/// A bookmark's list item on the bookmarks page.
pub open spec fn bookmark_item(b: BookmarkView) -> Seq<char> {
    let tags = if b.tags.len() == 0 {
        seq![]
    } else {
        " ["@ + join_with(b.tags, ", "@) + "]"@
    };
    "<li><a href=\""@ + b.url + "\">"@ + b.title + "</a>"@ + tags + "</li>"@
}

/// The list items of bookmarks, one after the other.
pub open spec fn bookmark_items(bs: Seq<BookmarkView>) -> Seq<char>
    decreases bs.len(),
{
    if bs.len() == 0 {
        seq![]
    } else {
        bookmark_items(bs.drop_last()) + bookmark_item(bs.last())
    }
}

/// `list` holds the bookmarks of `items`, most recent first: by creation
/// time, and of two made in the same second the one added later first.
pub open spec fn newest_first(items: Seq<BookmarkView>, list: Seq<BookmarkView>) -> bool {
    exists|ord: Seq<usize>|
        {
            &&& bookmarks_in_recency_order(items, ord)
            &&& list.len() == items.len()
            &&& forall|k: int| 0 <= k < list.len() ==> #[trigger] list[k] == items[ord[k] as int]
        }
}

/// The bookmarks page for the bookmarks listed in `list`.
pub open spec fn bookmarks_html(list: Seq<BookmarkView>) -> Seq<char> {
    "<html><head><title>Bookmarks</title></head><body><h1>Bookmarks</h1><ul>"@ + bookmark_items(
        list,
    ) + (if list.len() == 0 {
        "<li>No bookmarks yet. Press B to bookmark a page.</li>"@
    } else {
        seq![]
    }) + "</ul></body></html>"@
}

fn push_bookmark_item(out: &mut Vec<char>, b: &Bookmark)
    ensures
        final(out)@ == old(out)@ + bookmark_item(b@),
{
    let ghost o0 = out@;
    push_str(out, "<li><a href=\"");
    push_str(out, b.url.as_str());
    push_str(out, "\">");
    push_str(out, b.title.as_str());
    push_str(out, "</a>");
    let ghost o1 = out@;
    if b.tags.len() > 0 {
        let mut tags: Vec<Vec<char>> = Vec::new();
        let mut i: usize = 0;
        while i < b.tags.len()
            invariant
                i <= b.tags@.len(),
                char_seqs(tags@) == strs(b.tags@).take(i as int),
            decreases b.tags@.len() - i,
        {
            let ghost t0 = tags@;
            tags.push(chars_of(b.tags[i].as_str()));
            assert(char_seqs(tags@) =~= char_seqs(t0).push(b.tags@[i as int]@));
            assert(strs(b.tags@).take(i + 1) =~= strs(b.tags@).take(i as int).push(b.tags@[i as int]@));
            i = i + 1;
        }
        assert(strs(b.tags@).take(i as int) =~= b@.tags);
        push_str(out, " [");
        let sep = chars_of(", ");
        let j = crate::text::join_chars(&tags, sep.as_slice());
        push_chars(out, j.as_slice());
        push_str(out, "]");
    }
    push_str(out, "</li>");
    assert(out@ =~= o0 + bookmark_item(b@));
}

/// Generate HTML for the bookmarks page: the bookmarks, most recent first,
/// or a hint when there are none.
pub fn render_bookmarks_page(bookmarks: &Bookmarks) -> (r: String)
    ensures
        exists|list: Seq<BookmarkView>|
            newest_first(bookmarks.items(), list) && r@ == bookmarks_html(list),
{
    let all = bookmarks.all();
    let ghost list = all@.map_values(|b: &Bookmark| b@);
    proof {
        let items = bookmarks.items();
        let ord = choose|ord: Seq<usize>|
            {
                &&& bookmarks_in_recency_order(items, ord)
                &&& forall|k: int|
                    0 <= k < all@.len() ==> (*#[trigger] all@[k])@ == items[ord[k] as int]
            };
        assert forall|k: int| 0 <= k < list.len() implies #[trigger] list[k] == items[ord[k] as int] by {
            assert(list[k] == (*all@[k])@);
        }
        assert(newest_first(items, list));
    }
    let mut out = chars_of("<html><head><title>Bookmarks</title></head><body><h1>Bookmarks</h1><ul>");
    let ghost head = out@;
    let mut i: usize = 0;
    while i < all.len()
        invariant
            i <= all@.len(),
            list == all@.map_values(|b: &Bookmark| b@),
            out@ == head + bookmark_items(list.take(i as int)),
        decreases all@.len() - i,
    {
        assert(list.take(i + 1).drop_last() =~= list.take(i as int));
        push_bookmark_item(&mut out, all[i]);
        i = i + 1;
    }
    assert(list.take(i as int) =~= list);
    if bookmarks.is_empty() {
        push_str(&mut out, "<li>No bookmarks yet. Press B to bookmark a page.</li>");
    }
    push_str(&mut out, "</ul></body></html>");
    let r = string_from_chars(out.as_slice());
    assert(r@ == bookmarks_html(list));
    r
}

/// A visit's list item on the history page.
pub open spec fn history_item(e: HistoryEntryView) -> Seq<char> {
    "<li><a href=\""@ + e.url + "\">"@ + e.title + "</a></li>"@
}

/// The list items of visits, one after the other.
pub open spec fn history_items(es: Seq<HistoryEntryView>) -> Seq<char>
    decreases es.len(),
{
    if es.len() == 0 {
        seq![]
    } else {
        history_items(es.drop_last()) + history_item(es.last())
    }
}

/// `list` holds the visits of `items`, most recent first.
pub open spec fn visits_newest_first(items: Seq<HistoryEntryView>, list: Seq<HistoryEntryView>) -> bool {
    exists|ord: Seq<usize>|
        {
            &&& visits_in_recency_order(items, ord)
            &&& list.len() == items.len()
            &&& forall|k: int| 0 <= k < list.len() ==> #[trigger] list[k] == items[ord[k] as int]
        }
}

/// The number of visits the history page shows.
pub open spec fn history_page_limit() -> nat {
    100
}

/// The history page for the visits listed in `list`: the first hundred.
pub open spec fn history_html(list: Seq<HistoryEntryView>) -> Seq<char> {
    let shown = if list.len() > history_page_limit() {
        list.take(history_page_limit() as int)
    } else {
        list
    };
    "<html><head><title>History</title></head><body><h1>Browsing History</h1><ul>"@
        + history_items(shown) + (if list.len() == 0 {
        "<li>No history yet.</li>"@
    } else {
        seq![]
    }) + "</ul></body></html>"@
}

/// Generate HTML for the history page: the latest hundred visits, most
/// recent first, or a note when there are none.
pub fn render_history_page(history: &BrowsingHistory) -> (r: String)
    ensures
        exists|list: Seq<HistoryEntryView>|
            visits_newest_first(history.items(), list) && r@ == history_html(list),
{
    let entries = history.entries();
    let ghost list = entries@.map_values(|e: &HistoryEntry| e@);
    proof {
        let items = history.items();
        let ord = choose|ord: Seq<usize>|
            {
                &&& visits_in_recency_order(items, ord)
                &&& forall|k: int|
                    0 <= k < entries@.len() ==> (*#[trigger] entries@[k])@ == items[ord[k] as int]
            };
        assert forall|k: int| 0 <= k < list.len() implies #[trigger] list[k] == items[ord[k] as int] by {
            assert(list[k] == (*entries@[k])@);
        }
        assert(visits_newest_first(items, list));
    }
    let mut out = chars_of(
        "<html><head><title>History</title></head><body><h1>Browsing History</h1><ul>",
    );
    let ghost head = out@;
    let n: usize = if entries.len() > 100 {
        100
    } else {
        entries.len()
    };
    let mut i: usize = 0;
    while i < n
        invariant
            i <= n <= entries@.len(),
            list == entries@.map_values(|e: &HistoryEntry| e@),
            out@ == head + history_items(list.take(i as int)),
        decreases n - i,
    {
        assert(list.take(i + 1).drop_last() =~= list.take(i as int));
        let e = entries[i];
        push_str(&mut out, "<li><a href=\"");
        push_str(&mut out, e.url.as_str());
        push_str(&mut out, "\">");
        push_str(&mut out, e.title.as_str());
        push_str(&mut out, "</a></li>");
        assert(out@ =~= head + history_items(list.take(i + 1)));
        i = i + 1;
    }
    assert(list.take(n as int) =~= (if list.len() > history_page_limit() {
        list.take(history_page_limit() as int)
    } else {
        list
    }));
    if history.is_empty() {
        push_str(&mut out, "<li>No history yet.</li>");
    }
    push_str(&mut out, "</ul></body></html>");
    let r = string_from_chars(out.as_slice());
    assert(r@ == history_html(list));
    r
}

/// HTML source shown as text: `&`, `<` and `>` escaped.
pub open spec fn escape_html(s: Seq<char>) -> Seq<char>
    decreases s.len(),
{
    if s.len() == 0 {
        seq![]
    } else {
        escape_html(s.drop_last()) + if s.last() == '&' {
            "&amp;"@
        } else if s.last() == '<' {
            "&lt;"@
        } else if s.last() == '>' {
            "&gt;"@
        } else {
            seq![s.last()]
        }
    }
}

/// The page that shows a document's source.
pub open spec fn source_html(html: Seq<char>) -> Seq<char> {
    "<html><body><pre>"@ + escape_html(html) + "</pre></body></html>"@
}

/// The page that shows the HTML source `html`.
pub fn render_source_page(html: &str) -> (r: String)
    ensures
        r@ == source_html(html@),
{
    let h = chars_of(html);
    let mut out = chars_of("<html><body><pre>");
    let ghost head = out@;
    let mut i: usize = 0;
    while i < h.len()
        invariant
            i <= h@.len(),
            out@ == head + escape_html(h@.take(i as int)),
        decreases h@.len() - i,
    {
        assert(h@.take(i + 1).drop_last() =~= h@.take(i as int));
        let c = h[i];
        if c == '&' {
            push_str(&mut out, "&amp;");
        } else if c == '<' {
            push_str(&mut out, "&lt;");
        } else if c == '>' {
            push_str(&mut out, "&gt;");
        } else {
            out.push(c);
        }
        assert(out@ =~= head + escape_html(h@.take(i + 1)));
        i = i + 1;
    }
    assert(h@.take(i as int) =~= h@);
    push_str(&mut out, "</pre></body></html>");
    string_from_chars(out.as_slice())
}

/// The page shown while `url` loads.
pub open spec fn loading_html(url: Seq<char>) -> Seq<char> {
    "<html><body><p>Loading "@ + url + "...</p></body></html>"@
}

/// The page shown when `url` failed to load with `error`.
pub open spec fn error_html(url: Seq<char>, error: Seq<char>) -> Seq<char> {
    "<html><body><h1>Error</h1><p>Failed to load "@ + url + "</p><p>"@ + error
        + "</p></body></html>"@
}

/// The page shown while `url` loads.
pub fn loading_page_html(url: &str) -> (r: String)
    ensures
        r@ == loading_html(url@),
{
    let mut out = chars_of("<html><body><p>Loading ");
    push_str(&mut out, url);
    push_str(&mut out, "...</p></body></html>");
    string_from_chars(out.as_slice())
}

/// The page shown when `url` failed to load with `error`.
pub fn error_page_html(url: &str, error: &str) -> (r: String)
    ensures
        r@ == error_html(url@, error@),
{
    let mut out = chars_of("<html><body><h1>Error</h1><p>Failed to load ");
    push_str(&mut out, url);
    push_str(&mut out, "</p><p>");
    push_str(&mut out, error);
    push_str(&mut out, "</p></body></html>");
    string_from_chars(out.as_slice())
}

// ---------------------------------------------------------------------------
// Browser state
// ---------------------------------------------------------------------------

/// What scrolling an action asks for.
#[derive(Debug, Clone, Copy, PartialEq, Eq, Structural)]
pub enum ScrollRequest {
    Down(u32),
    Up(u32),
    HalfPageDown,
    HalfPageUp,
    PageDown,
    PageUp,
    ToTop,
    ToBottom,
}

/// What the front end has to do after the browser handled an action.  The
/// parameter is the type of text; the browser uses `String`, contracts use
/// `Seq<char>`.
#[derive(Debug)]
pub enum BrowserEffect<S = String> {
    /// Nothing more.
    Nothing,
    /// Scroll the active tab.
    Scroll(ScrollRequest),
    /// Navigate the active tab to this URL.
    Navigate(S),
    /// Show this generated page in the active tab, laid out when asked.
    ShowPage { url: S, html: S, layout: bool },
    /// Write the bookmarks to their file.
    SaveBookmarks,
}

pub type EffectView = BrowserEffect<Seq<char>>;

impl<S: View> View for BrowserEffect<S> {
    type V = BrowserEffect<S::V>;

    open spec fn view(&self) -> BrowserEffect<S::V> {
        match self {
            BrowserEffect::Nothing => BrowserEffect::Nothing,
            BrowserEffect::Scroll(r) => BrowserEffect::Scroll(*r),
            BrowserEffect::Navigate(u) => BrowserEffect::Navigate(u@),
            BrowserEffect::ShowPage { url, html, layout } => BrowserEffect::ShowPage {
                url: url@,
                html: html@,
                layout: *layout,
            },
            BrowserEffect::SaveBookmarks => BrowserEffect::SaveBookmarks,
        }
    }
}

/// How a navigation starts.
#[derive(Debug)]
pub enum NavStart {
    /// The content blocker refused the URL; the tab shows the error.
    Blocked,
    /// The blank page was asked for; the tab is blank again.
    Blank,
    /// The page at this URL has to be fetched.
    Fetch(String),
}

/// What the active tab shows.
#[derive(Debug)]
pub enum PageSource {
    /// The blank page.
    Blank,
    /// A generated page, as HTML.
    Html(String),
    /// The tab's document.
    Document,
}

/// A fetched page: its final URL, its body, the texts of the stylesheets it
/// links, and the document parsed from the body.
#[derive(Debug)]
pub struct LoadedPage {
    pub url: String,
    pub body: String,
    pub css_texts: Vec<String>,
    pub document: Document,
}

/// The main browser state.
#[derive(Debug)]
pub struct Browser {
    /// Tab manager.
    pub tabs: TabManager,
    /// Global browsing history.
    pub history: BrowsingHistory,
    /// Bookmarks.
    pub bookmarks: Bookmarks,
    /// Content blocker.
    pub content_blocker: ContentBlocker,
    /// Input handler (keyboard mode).
    pub input: InputHandler,
    /// The search URL template, `%s` standing for the query.
    pub search_engine: String,
    /// Viewport width in characters.
    pub viewport_width: u32,
    /// Viewport height in lines.
    pub viewport_height: u32,
    /// Status message displayed at the bottom.
    pub status_message: Option<String>,
    /// Whether the browser should quit.
    pub should_quit: bool,
    /// Address bar content (when editing).
    pub address_bar: String,
    /// Whether the address bar is being edited.
    pub editing_address: bool,
}

/// The active tab of a browser.
pub open spec fn active_tab_of(b: Browser) -> Tab {
    b.tabs.tabs_seq()[b.tabs.active_spec() as int]
}

/// The browser's status message is `msg`.
pub open spec fn status_is(b: Browser, msg: Seq<char>) -> bool {
    b.status_message matches Some(m) && m@ == msg
}

/// `b1` is `b0` with another status message.
pub open spec fn only_status(b0: Browser, b1: Browser) -> bool {
    b1 == (Browser { status_message: b1.status_message, ..b0 })
}

/// `b1` is `b0` with the active tab replaced by `t` (and possibly another
/// status message).
pub open spec fn active_tab_becomes(b0: Browser, b1: Browser, t: Tab) -> bool {
    &&& b1 == (Browser { tabs: b1.tabs, status_message: b1.status_message, ..b0 })
    &&& b1.tabs.active_spec() == b0.tabs.active_spec()
    &&& b1.tabs.tabs_seq() == b0.tabs.tabs_seq().update(b0.tabs.active_spec() as int, t)
}

/// The bookmarks after adding one for `url`: unchanged when the URL is
/// already bookmarked, else one more, stamped with some time.
pub open spec fn bookmark_added(
    b0: Seq<BookmarkView>,
    b1: Seq<BookmarkView>,
    url: Seq<char>,
    title: Seq<char>,
    tags: Seq<Seq<char>>,
) -> bool {
    if has_url(b0, url) {
        b1 == b0
    } else {
        exists|t: u64|
            b1 == b0.push(BookmarkView { url, title, tags, created_at: t })
    }
}

/// The active tab with its history stack moved back (or forward): the URL
/// it moved to, if any.
pub open spec fn nav_moved(b0: Browser, b1: Browser, moved: (NavState, Option<Seq<char>>)) -> bool {
    let t0 = active_tab_of(b0);
    let t1 = active_tab_of(b1);
    &&& active_tab_becomes(b0, b1, t1)
    &&& t1 == (Tab { nav_stack: t1.nav_stack, ..t0 })
    &&& t1.nav_stack@ == moved.0
}

/// The browser after going back (or forward) in the active tab: navigate
/// to the URL moved to, or say that there is none.
pub open spec fn went(
    b0: Browser,
    b1: Browser,
    e: EffectView,
    moved: (NavState, Option<Seq<char>>),
    none_msg: Option<Seq<char>>,
) -> bool {
    &&& nav_moved(b0, b1, moved)
    &&& match moved.1 {
        Some(u) => e == BrowserEffect::Navigate(u) && b1.status_message == b0.status_message,
        None => e == BrowserEffect::<Seq<char>>::Nothing && match none_msg {
            Some(m) => status_is(b1, m),
            None => b1.status_message == b0.status_message,
        },
    }
}

/// The browser after a search on the active tab for `q`: the tab searched,
/// the match count shown.
pub open spec fn searched(b0: Browser, b1: Browser, q: Seq<char>) -> bool {
    let t1 = active_tab_of(b1);
    &&& active_tab_becomes(b0, b1, t1)
    &&& after_search(active_tab_of(b0), t1, q)
    &&& status_is(b1, match_count_text(t1.current_match, t1.search_matches@.len()))
}

/// The browser after moving to the next (or previous) match.
pub open spec fn moved_match(b0: Browser, b1: Browser, next: bool) -> bool {
    let t0 = active_tab_of(b0);
    let t1 = active_tab_of(b1);
    let cur = if next {
        next_index(t0.current_match, t0.search_matches@.len())
    } else {
        prev_index(t0.current_match, t0.search_matches@.len())
    };
    &&& active_tab_becomes(b0, b1, t1)
    &&& t1 == (Tab { current_match: cur, ..t0 })
    &&& status_is(b1, match_count_text(cur, t0.search_matches@.len()))
}

/// The browser after bookmarking the active page with `tags`.
pub open spec fn bookmarked(b0: Browser, b1: Browser, tags: Seq<Seq<char>>) -> bool {
    let t = active_tab_of(b0);
    &&& b1 == (Browser { bookmarks: b1.bookmarks, status_message: b1.status_message, ..b0 })
    &&& bookmark_added(
        b0.bookmarks.items(),
        b1.bookmarks.items(),
        state_url(t.page_state),
        state_title(t.page_state),
        tags,
    )
}

/// The browser after toggling the bookmark of the active page.
pub open spec fn toggled(b0: Browser, b1: Browser) -> bool {
    let t = active_tab_of(b0);
    let url = state_url(t.page_state);
    &&& b1 == (Browser { bookmarks: b1.bookmarks, status_message: b1.status_message, ..b0 })
    &&& if has_url(b0.bookmarks.items(), url) {
        b1.bookmarks.items() == b0.bookmarks.items().filter(|b: BookmarkView| b.url != url)
            && status_is(b1, "Bookmark removed"@)
    } else {
        bookmark_added(b0.bookmarks.items(), b1.bookmarks.items(), url, state_title(t.page_state), seq![])
            && status_is(b1, "Bookmark added"@)
    }
}

/// A tab manager after `new_tab(None)`: a blank tab added and made active.
pub open spec fn blank_tab_opened(m0: TabManager, m1: TabManager) -> bool {
    &&& m1.wf()
    &&& m1.tabs_seq().len() == m0.tabs_seq().len() + 1
    &&& m1.tabs_seq().take(m0.tabs_seq().len() as int) == m0.tabs_seq()
    &&& crate::tabs::is_blank_tab(m1.tabs_seq().last())
    &&& m1.active_spec() == m0.tabs_seq().len()
}

/// The browser after only its tab manager changed to `m1`'s tabs and
/// active index as `tabs_ok` says.
pub open spec fn only_tabs(b0: Browser, b1: Browser) -> bool {
    b1 == (Browser { tabs: b1.tabs, ..b0 })
}

/// The active tab switched to `a`, the tabs unchanged.
pub open spec fn switched(b0: Browser, b1: Browser, a: nat) -> bool {
    &&& only_tabs(b0, b1)
    &&& b1.tabs.wf()
    &&& b1.tabs.tabs_seq() == b0.tabs.tabs_seq()
    &&& b1.tabs.active_spec() == a
}

/// The bookmarks page was asked for, laid out or not.
pub open spec fn shows_bookmarks(b0: Browser, e: EffectView, layout: bool) -> bool {
    exists|list: Seq<BookmarkView>|
        newest_first(b0.bookmarks.items(), list) && e == (BrowserEffect::ShowPage {
            url: "about:bookmarks"@,
            html: bookmarks_html(list),
            layout,
        })
}

/// The history page was asked for, laid out or not.
pub open spec fn shows_history(b0: Browser, e: EffectView, layout: bool) -> bool {
    exists|list: Seq<HistoryEntryView>|
        visits_newest_first(b0.history.items(), list) && e == (BrowserEffect::ShowPage {
            url: "about:history"@,
            html: history_html(list),
            layout,
        })
}

/// What a `:` command does to the browser, and what it asks of the front
/// end.
pub open spec fn command_done(b0: Browser, cmd: Seq<char>, b1: Browser, e: EffectView) -> bool {
    let (c, arg) = command_parts(cmd);
    let t = active_tab_of(b0);
    let nothing = BrowserEffect::<Seq<char>>::Nothing;
    if c == "open"@ || c == "o"@ {
        b1 == b0 && e == (if arg.len() > 0 {
            BrowserEffect::Navigate(arg)
        } else {
            nothing
        })
    } else if c == "tabopen"@ || c == "topen"@ || c == "to"@ {
        if arg.len() > 0 {
            only_tabs(b0, b1) && blank_tab_opened(b0.tabs, b1.tabs) && e == BrowserEffect::Navigate(
                arg,
            )
        } else {
            b1 == b0 && e == nothing
        }
    } else if c == "bookmark"@ || c == "bm"@ {
        bookmarked(b0, b1, words(arg)) && status_is(b1, "Bookmarked"@) && e
            == BrowserEffect::<Seq<char>>::SaveBookmarks
    } else if c == "bookmarks"@ || c == "bmarks"@ {
        b1 == b0 && shows_bookmarks(b0, e, false)
    } else if c == "history"@ || c == "hist"@ {
        b1 == b0 && shows_history(b0, e, false)
    } else if c == "quit"@ || c == "q"@ || c == "qa"@ || c == "qall"@ {
        b1 == (Browser { should_quit: true, ..b0 }) && e == nothing
    } else if c == "reload"@ || c == "r"@ {
        b1 == b0 && e == BrowserEffect::Navigate(state_url(t.page_state))
    } else if c == "back"@ {
        went(b0, b1, e, nav_back(t.nav_stack@), None)
    } else if c == "forward"@ {
        went(b0, b1, e, nav_forward(t.nav_stack@), None)
    } else if c == "source"@ || c == "src"@ {
        b1 == b0 && e == match t.page_state {
            PageState::Loaded { html, .. } => BrowserEffect::ShowPage {
                url: "about:source"@,
                html: source_html(html@),
                layout: false,
            },
            _ => nothing,
        }
    } else if c.len() > 0 && (c[0] == '/' || c[0] == '?') {
        let query = trim(cmd).skip(1);
        if query.len() > 0 {
            searched(b0, b1, query) && e == nothing
        } else {
            b1 == b0 && e == nothing
        }
    } else {
        only_status(b0, b1) && status_is(b1, "Unknown command: "@ + c) && e == nothing
    }
}

/// What a key action does to the browser, and what it asks of the front
/// end.
pub open spec fn action_done(b0: Browser, a: ActionView, b1: Browser, e: EffectView) -> bool {
    let t = active_tab_of(b0);
    let n = b0.tabs.tabs_seq().len();
    let act = b0.tabs.active_spec();
    let nothing = BrowserEffect::<Seq<char>>::Nothing;
    match a {
        BrowserAction::ScrollDown(k) => b1 == b0 && e == BrowserEffect::<Seq<char>>::Scroll(
            ScrollRequest::Down(k),
        ),
        BrowserAction::ScrollUp(k) => b1 == b0 && e == BrowserEffect::<Seq<char>>::Scroll(
            ScrollRequest::Up(k),
        ),
        BrowserAction::HalfPageDown => b1 == b0 && e == BrowserEffect::<Seq<char>>::Scroll(
            ScrollRequest::HalfPageDown,
        ),
        BrowserAction::HalfPageUp => b1 == b0 && e == BrowserEffect::<Seq<char>>::Scroll(
            ScrollRequest::HalfPageUp,
        ),
        BrowserAction::PageDown => b1 == b0 && e == BrowserEffect::<Seq<char>>::Scroll(
            ScrollRequest::PageDown,
        ),
        BrowserAction::PageUp => b1 == b0 && e == BrowserEffect::<Seq<char>>::Scroll(
            ScrollRequest::PageUp,
        ),
        BrowserAction::ScrollToTop => b1 == b0 && e == BrowserEffect::<Seq<char>>::Scroll(
            ScrollRequest::ToTop,
        ),
        BrowserAction::ScrollToBottom => b1 == b0 && e == BrowserEffect::<Seq<char>>::Scroll(
            ScrollRequest::ToBottom,
        ),
        BrowserAction::GoBack => went(b0, b1, e, nav_back(t.nav_stack@), Some("No previous page"@)),
        BrowserAction::GoForward => went(b0, b1, e, nav_forward(t.nav_stack@), Some("No next page"@)),
        BrowserAction::Reload => b1 == b0 && e == BrowserEffect::Navigate(state_url(t.page_state)),
        BrowserAction::OpenUrl => b1 == (Browser {
            editing_address: true,
            address_bar: b1.address_bar,
            ..b0
        }) && b1.address_bar@.len() == 0 && e == nothing,
        BrowserAction::OpenUrlNewTab => b1 == (Browser {
            tabs: b1.tabs,
            editing_address: true,
            address_bar: b1.address_bar,
            ..b0
        }) && blank_tab_opened(b0.tabs, b1.tabs) && b1.address_bar@.len() == 0 && e == nothing,
        BrowserAction::NewTab => only_tabs(b0, b1) && blank_tab_opened(b0.tabs, b1.tabs) && e
            == nothing,
        BrowserAction::CloseTab => only_tabs(b0, b1) && tab_closed(b0.tabs, b1.tabs) && e == nothing,
        BrowserAction::NextTab => switched(b0, b1, next_active(act, n)) && e == nothing,
        BrowserAction::PrevTab => switched(b0, b1, prev_active(act, n)) && e == nothing,
        BrowserAction::GotoTab(i) => switched(b0, b1, goto_active(act, i as nat, n)) && e == nothing,
        BrowserAction::CopyUrl => only_status(b0, b1) && status_is(
            b1,
            "Copied: "@ + state_url(t.page_state),
        ) && e == nothing,
        BrowserAction::NextMatch => moved_match(b0, b1, true) && e == nothing,
        BrowserAction::PrevMatch => moved_match(b0, b1, false) && e == nothing,
        BrowserAction::ToggleBookmark => toggled(b0, b1) && e
            == BrowserEffect::<Seq<char>>::SaveBookmarks,
        BrowserAction::ShowBookmarks => b1 == b0 && shows_bookmarks(b0, e, true),
        BrowserAction::ShowHistory => b1 == b0 && shows_history(b0, e, true),
        BrowserAction::ExecuteCommand(cmd) => command_done(b0, cmd, b1, e),
        BrowserAction::SubmitInput => if b0.editing_address {
            b1 == (Browser { editing_address: false, ..b0 }) && e == BrowserEffect::Navigate(
                b0.address_bar@,
            )
        } else {
            b1 == b0 && e == nothing
        },
        BrowserAction::CancelInput => b1 == (Browser { editing_address: false, ..b0 }) && e
            == nothing,
        BrowserAction::Quit => b1 == (Browser { should_quit: true, ..b0 }) && e == nothing,
        BrowserAction::Help => only_status(b0, b1) && status_is(
            b1,
            "Press :help for commands, Esc to dismiss"@,
        ) && e == nothing,
        _ => b1 == b0 && e == nothing,
    }
}

impl Browser {
    /// The active tab's URL.
    fn active_url(&self) -> (r: String)
        requires
            self.tabs.wf(),
        ensures
            r@ == state_url(active_tab_of(*self).page_state),
    {
        self.tabs.active_tab().url().to_owned()
    }

    /// Set the status message.
    fn set_status(&mut self, msg: Vec<char>)
        ensures
            only_status(*old(self), *final(self)),
            status_is(*final(self), msg@),
    {
        self.status_message = Some(string_from_chars(msg.as_slice()));
    }

    /// Go back (or forward) in the active tab's history.
    fn go(&mut self, back: bool, none_msg: Option<&str>) -> (r: BrowserEffect)
        requires
            old(self).tabs.wf(),
        ensures
            final(self).tabs.wf(),
            went(
                *old(self),
                *final(self),
                r@,
                if back {
                    nav_back(active_tab_of(*old(self)).nav_stack@)
                } else {
                    nav_forward(active_tab_of(*old(self)).nav_stack@)
                },
                match none_msg {
                    Some(m) => Some(m@),
                    None => None,
                },
            ),
    {
        let moved = if back {
            self.tabs.active_tab_mut().nav_stack.go_back()
        } else {
            self.tabs.active_tab_mut().nav_stack.go_forward()
        };
        match moved {
            Some(url) => BrowserEffect::Navigate(url),
            None => {
                match none_msg {
                    Some(m) => {
                        self.status_message = Some(m.to_owned());
                    },
                    None => {},
                }
                BrowserEffect::Nothing
            },
        }
    }

    /// Search the active tab and show the match count.
    fn search_active(&mut self, query: &str)
        requires
            old(self).tabs.wf(),
        ensures
            final(self).tabs.wf(),
            searched(*old(self), *final(self), query@),
    {
        self.tabs.active_tab_mut().search(query);
        let info = self.tabs.active_tab().match_count_str();
        self.status_message = Some(info);
    }

    /// Move to the next (or previous) match in the active tab and show the
    /// match count.
    fn move_match(&mut self, next: bool)
        requires
            old(self).tabs.wf(),
        ensures
            final(self).tabs.wf(),
            moved_match(*old(self), *final(self), next),
    {
        let n = self.tabs.active_tab().search_matches.len();
        if next {
            self.tabs.active_tab_mut().next_match();
        } else {
            self.tabs.active_tab_mut().prev_match();
        }
        let info = self.tabs.active_tab().match_count_str();
        self.status_message = Some(info);
    }

    /// Bookmark the active page with these tags.
    fn bookmark_active(&mut self, tags: Vec<String>)
        requires
            old(self).tabs.wf(),
        ensures
            bookmarked(*old(self), *final(self), strs(tags@)),
            final(self).status_message == old(self).status_message,
    {
        let url = self.active_url();
        let title = self.tabs.active_tab().title().to_owned();
        self.bookmarks.add(url.as_str(), title.as_str(), tags);
    }

    /// Handle a browser action (from keyboard input).
    pub fn handle_action(&mut self, action: BrowserAction) -> (r: BrowserEffect)
        requires
            old(self).tabs.wf(),
        ensures
            final(self).tabs.wf(),
            action_done(*old(self), action@, *final(self), r@),
    {
        match action {
            BrowserAction::ScrollDown(n) => BrowserEffect::Scroll(ScrollRequest::Down(n)),
            BrowserAction::ScrollUp(n) => BrowserEffect::Scroll(ScrollRequest::Up(n)),
            BrowserAction::HalfPageDown => BrowserEffect::Scroll(ScrollRequest::HalfPageDown),
            BrowserAction::HalfPageUp => BrowserEffect::Scroll(ScrollRequest::HalfPageUp),
            BrowserAction::PageDown => BrowserEffect::Scroll(ScrollRequest::PageDown),
            BrowserAction::PageUp => BrowserEffect::Scroll(ScrollRequest::PageUp),
            BrowserAction::ScrollToTop => BrowserEffect::Scroll(ScrollRequest::ToTop),
            BrowserAction::ScrollToBottom => BrowserEffect::Scroll(ScrollRequest::ToBottom),
            BrowserAction::GoBack => self.go(true, Some("No previous page")),
            BrowserAction::GoForward => self.go(false, Some("No next page")),
            BrowserAction::Reload => BrowserEffect::Navigate(self.active_url()),
            BrowserAction::OpenUrl => {
                self.editing_address = true;
                self.address_bar = String::new();
                BrowserEffect::Nothing
            },
            BrowserAction::OpenUrlNewTab => {
                self.tabs.new_tab(None);
                self.editing_address = true;
                self.address_bar = String::new();
                BrowserEffect::Nothing
            },
            BrowserAction::NewTab => {
                self.tabs.new_tab(None);
                BrowserEffect::Nothing
            },
            BrowserAction::CloseTab => {
                self.tabs.close_tab();
                BrowserEffect::Nothing
            },
            BrowserAction::NextTab => {
                self.tabs.next_tab();
                BrowserEffect::Nothing
            },
            BrowserAction::PrevTab => {
                self.tabs.prev_tab();
                BrowserEffect::Nothing
            },
            BrowserAction::GotoTab(idx) => {
                self.tabs.goto_tab(idx);
                BrowserEffect::Nothing
            },
            BrowserAction::CopyUrl => {
                let url = self.active_url();
                let mut msg = chars_of("Copied: ");
                push_str(&mut msg, url.as_str());
                self.set_status(msg);
                BrowserEffect::Nothing
            },
            BrowserAction::NextMatch => {
                self.move_match(true);
                BrowserEffect::Nothing
            },
            BrowserAction::PrevMatch => {
                self.move_match(false);
                BrowserEffect::Nothing
            },
            BrowserAction::ToggleBookmark => {
                let url = self.active_url();
                if self.bookmarks.is_bookmarked(url.as_str()) {
                    self.bookmarks.remove(url.as_str());
                    self.status_message = Some("Bookmark removed".to_owned());
                } else {
                    let title = self.tabs.active_tab().title().to_owned();
                    let tags: Vec<String> = Vec::new();
                    assert(strs(tags@) =~= seq![]);
                    self.bookmarks.add(url.as_str(), title.as_str(), tags);
                    self.status_message = Some("Bookmark added".to_owned());
                }
                BrowserEffect::SaveBookmarks
            },
            BrowserAction::ShowBookmarks => BrowserEffect::ShowPage {
                url: "about:bookmarks".to_owned(),
                html: render_bookmarks_page(&self.bookmarks),
                layout: true,
            },
            BrowserAction::ShowHistory => BrowserEffect::ShowPage {
                url: "about:history".to_owned(),
                html: render_history_page(&self.history),
                layout: true,
            },
            BrowserAction::ExecuteCommand(cmd) => self.execute_command(cmd.as_str()),
            BrowserAction::SubmitInput => {
                if self.editing_address {
                    let url = self.address_bar.clone();
                    self.editing_address = false;
                    BrowserEffect::Navigate(url)
                } else {
                    BrowserEffect::Nothing
                }
            },
            BrowserAction::CancelInput => {
                self.editing_address = false;
                BrowserEffect::Nothing
            },
            BrowserAction::Quit => {
                self.should_quit = true;
                BrowserEffect::Nothing
            },
            BrowserAction::Help => {
                self.status_message = Some("Press :help for commands, Esc to dismiss".to_owned());
                BrowserEffect::Nothing
            },
            _ => BrowserEffect::Nothing,
        }
    }

    /// Execute a `:` command.
    pub fn execute_command(&mut self, cmd: &str) -> (r: BrowserEffect)
        requires
            old(self).tabs.wf(),
        ensures
            final(self).tabs.wf(),
            command_done(*old(self), cmd@, *final(self), r@),
    {
        let (c, arg) = split_command(cmd);
        let cv = c.as_slice();
        if crate::text::eq_str(cv, "open") || crate::text::eq_str(cv, "o") {
            if arg.len() > 0 {
                return BrowserEffect::Navigate(string_from_chars(arg.as_slice()));
            }
            return BrowserEffect::Nothing;
        }
        if crate::text::eq_str(cv, "tabopen") || crate::text::eq_str(cv, "topen")
            || crate::text::eq_str(cv, "to") {
            if arg.len() > 0 {
                self.tabs.new_tab(None);
                return BrowserEffect::Navigate(string_from_chars(arg.as_slice()));
            }
            return BrowserEffect::Nothing;
        }
        if crate::text::eq_str(cv, "bookmark") || crate::text::eq_str(cv, "bm") {
            let ws = split_words(arg.as_slice());
            let mut tags: Vec<String> = Vec::new();
            let mut i: usize = 0;
            while i < ws.len()
                invariant
                    i <= ws@.len(),
                    strs(tags@) == char_seqs(ws@).take(i as int),
                decreases ws@.len() - i,
            {
                let ghost t0 = tags@;
                tags.push(string_from_chars(ws[i].as_slice()));
                assert(strs(tags@) =~= strs(t0).push(ws@[i as int]@));
                assert(char_seqs(ws@).take(i + 1) =~= char_seqs(ws@).take(i as int).push(
                    ws@[i as int]@,
                ));
                i = i + 1;
            }
            assert(char_seqs(ws@).take(i as int) =~= words(arg@));
            self.bookmark_active(tags);
            self.status_message = Some("Bookmarked".to_owned());
            return BrowserEffect::SaveBookmarks;
        }
        if crate::text::eq_str(cv, "bookmarks") || crate::text::eq_str(cv, "bmarks") {
            return BrowserEffect::ShowPage {
                url: "about:bookmarks".to_owned(),
                html: render_bookmarks_page(&self.bookmarks),
                layout: false,
            };
        }
        if crate::text::eq_str(cv, "history") || crate::text::eq_str(cv, "hist") {
            return BrowserEffect::ShowPage {
                url: "about:history".to_owned(),
                html: render_history_page(&self.history),
                layout: false,
            };
        }
        if crate::text::eq_str(cv, "quit") || crate::text::eq_str(cv, "q") || crate::text::eq_str(
            cv,
            "qa",
        ) || crate::text::eq_str(cv, "qall") {
            self.should_quit = true;
            return BrowserEffect::Nothing;
        }
        if crate::text::eq_str(cv, "reload") || crate::text::eq_str(cv, "r") {
            return BrowserEffect::Navigate(self.active_url());
        }
        if crate::text::eq_str(cv, "back") {
            return self.go(true, None);
        }
        if crate::text::eq_str(cv, "forward") {
            return self.go(false, None);
        }
        if crate::text::eq_str(cv, "source") || crate::text::eq_str(cv, "src") {
            return match &self.tabs.active_tab().page_state {
                PageState::Loaded { html, .. } => BrowserEffect::ShowPage {
                    url: "about:source".to_owned(),
                    html: render_source_page(html.as_str()),
                    layout: false,
                },
                _ => BrowserEffect::Nothing,
            };
        }
        if c.len() > 0 && (c[0] == '/' || c[0] == '?') {
            let all = chars_of(cmd);
            let t = crate::text::trim_chars(all.as_slice());
            assert(t@.len() > 0 && t@[0] == c@[0]) by {
                crate::text::lemma_find_char(t@, ' ');
            }
            let q = crate::text::slice_chars(t.as_slice(), 1, t.len());
            assert(q@ =~= trim(cmd@).skip(1));
            if q.len() > 0 {
                let qs = string_from_chars(q.as_slice());
                self.search_active(qs.as_str());
            }
            return BrowserEffect::Nothing;
        }
        let mut msg = chars_of("Unknown command: ");
        push_chars(&mut msg, cv);
        self.set_status(msg);
        BrowserEffect::Nothing
    }
}

/// The tabs a browser starts with: the given URL (normalized), else the
/// homepage unless it is the blank page.
pub open spec fn starting_tabs(m: TabManager, search_engine: Seq<char>, homepage: Seq<char>, initial: Option<Seq<char>>) -> bool {
    &&& m.wf()
    &&& m.tabs_seq().len() == 1
    &&& m.active_spec() == 0
    &&& match initial {
        Some(u) => is_loading_tab(m.tabs_seq()[0], normalized(u, search_engine)),
        None => if homepage == "about:blank"@ {
            is_blank_tab(m.tabs_seq()[0])
        } else {
            is_loading_tab(m.tabs_seq()[0], homepage)
        },
    }
}

/// The view of an optional string slice.
pub open spec fn opt_str_view(o: Option<&str>) -> Option<Seq<char>> {
    match o {
        Some(s) => Some(s@),
        None => None,
    }
}

/// The tab-bar entries of a browser: each tab's title, and whether it is
/// the active one.
pub open spec fn tab_bar_entries(b: Browser) -> Seq<(Seq<char>, bool)> {
    Seq::new(
        b.tabs.tabs_seq().len(),
        |i: int| (state_title(b.tabs.tabs_seq()[i].page_state), i == b.tabs.active_spec()),
    )
}

/// The tab position shown in the status bar, `i/n`.
pub open spec fn tab_position(b: Browser) -> Seq<char> {
    decimal(b.tabs.active_spec() + 1) + "/"@ + decimal(b.tabs.tabs_seq().len())
}

/// The whole screen: tab bar, page, status bar, the status message and,
/// in command or search mode, the line being typed.
pub open spec fn screen_text(b: Browser, page: Seq<crate::render::LineView>) -> Seq<char> {
    let t = active_tab_of(b);
    let input = b.input@;
    tab_bar(tab_bar_entries(b), b.tabs.tabs_seq().len()) + "\n"@ + ansi_text(page) + status_bar(
        state_url(t.page_state),
        mode_label(input),
        tab_position(b),
        b.content_blocker@.blocked,
        t.page_state is Loading,
    ) + "\n"@ + (match b.status_message {
        Some(m) => m@ + "\n"@,
        None => seq![],
    }) + (if input.mode == Mode::Command {
        ":"@ + input.buffer + "\n"@
    } else if input.mode == Mode::Search {
        "/"@ + input.buffer + "\n"@
    } else {
        seq![]
    })
}

/// The history after a visit to `url` titled `title`, stamped with some
/// time, the oldest visits dropped beyond `max`.
pub open spec fn visit_recorded(
    h0: Seq<HistoryEntryView>,
    h1: Seq<HistoryEntryView>,
    max: nat,
    url: Seq<char>,
    title: Seq<char>,
) -> bool {
    exists|t: u64| h1 == keep_last(h0.push(HistoryEntryView { url, title, timestamp: t }), max)
}

/// The browser after a fetched page was shown in the active tab.
pub open spec fn page_shown(b0: Browser, b1: Browser, page: LoadedPage) -> bool {
    let t0 = active_tab_of(b0);
    let t1 = active_tab_of(b1);
    let title = match title_in(page.document.root) {
        Some(x) => x,
        None => "Untitled"@,
    };
    &&& b1 == (Browser {
        tabs: b1.tabs,
        history: b1.history,
        status_message: b1.status_message,
        ..b0
    })
    &&& b1.tabs.active_spec() == b0.tabs.active_spec()
    &&& b1.tabs.tabs_seq() == b0.tabs.tabs_seq().update(b0.tabs.active_spec() as int, t1)
    &&& b1.history.max() == b0.history.max()
    &&& visit_recorded(b0.history.items(), b1.history.items(), b0.history.max(), page.url@, title)
    &&& t1.page_state matches PageState::Loaded { url: u, title: tt, html: h } && u@ == page.url@
        && tt@ == title && h@ == page.body@
    &&& t1.document == Some(page.document)
    &&& sheets_view(t1.stylesheets@) == parsed_sheets(strs(page.css_texts@)) + parsed_sheets(
        styles_in(page.document.root),
    )
    &&& t1.search_matches@.len() == 0
    &&& t1.current_match is None
    &&& t1.nav_stack == t0.nav_stack
    &&& t1.pinned == t0.pinned
    &&& status_is(b1, "Loaded: "@ + page.url@)
}

/// The browser after a failed fetch of `url`: the active tab shows the
/// error.
pub open spec fn error_shown(b0: Browser, b1: Browser, url: Seq<char>, e: Seq<char>) -> bool {
    let t0 = active_tab_of(b0);
    let t1 = active_tab_of(b1);
    &&& b1 == (Browser { tabs: b1.tabs, status_message: b1.status_message, ..b0 })
    &&& b1.tabs.active_spec() == b0.tabs.active_spec()
    &&& b1.tabs.tabs_seq() == b0.tabs.tabs_seq().update(b0.tabs.active_spec() as int, t1)
    &&& t1 == (Tab { page_state: t1.page_state, ..t0 })
    &&& t1.page_state matches PageState::Error { url: u, error: er } && u@ == url && er@ == e
    &&& status_is(b1, "Error: "@ + e)
}

impl Browser {
    /// Create a browser around its stored history and bookmarks, opening
    /// the given URL, else the homepage.
    pub fn new(
        search_engine: String,
        homepage: &str,
        history: BrowsingHistory,
        bookmarks: Bookmarks,
        content_blocker: ContentBlocker,
        initial_url: Option<&str>,
    ) -> (r: Self)
        ensures
            starting_tabs(r.tabs, search_engine@, homepage@, opt_str_view(initial_url)),
            r.history == history,
            r.bookmarks == bookmarks,
            r.content_blocker == content_blocker,
            r.input@ == (InputState {
                mode: Mode::Normal,
                pending: seq![],
                buffer: seq![],
                cursor: 0,
                search_forward: true,
            }),
            r.input.wf(),
            r.search_engine == search_engine,
            r.viewport_width == 80,
            r.viewport_height == 24,
            r.status_message is None,
            !r.should_quit,
            r.address_bar@.len() == 0,
            !r.editing_address,
    {
        let tabs = match initial_url {
            Some(url) => {
                let n = normalize_input(url, search_engine.as_str());
                TabManager::with_url(n.as_str())
            },
            None => {
                if crate::text::eq_str(chars_of(homepage).as_slice(), "about:blank") {
                    TabManager::new()
                } else {
                    TabManager::with_url(homepage)
                }
            },
        };
        Browser {
            tabs,
            history,
            bookmarks,
            content_blocker,
            input: InputHandler::new(),
            search_engine,
            viewport_width: 80,
            viewport_height: 24,
            status_message: None,
            should_quit: false,
            address_bar: String::new(),
            editing_address: false,
        }
    }

    /// Start navigating the active tab: the URL is normalized and checked by
    /// the content blocker; the blank page needs no fetch; any other page is
    /// loading, pushed on the tab's history, and has to be fetched.
    pub fn begin_navigation(&mut self, url: &str) -> (r: NavStart)
        requires
            old(self).tabs.wf(),
            old(self).content_blocker.wf(),
            old(self).content_blocker@.enabled ==> old(self).content_blocker@.checked < u64::MAX,
        ensures
            final(self).tabs.wf(),
            final(self).content_blocker.wf(),
            ({
                let n = normalized(url@, old(self).search_engine@);
                let b0 = *old(self);
                let b1 = *final(self);
                let t0 = active_tab_of(b0);
                let t1 = active_tab_of(b1);
                &&& b1.content_blocker@ == after_check(b0.content_blocker@, n)
                &&& b1 == (Browser {
                    tabs: b1.tabs,
                    content_blocker: b1.content_blocker,
                    status_message: b1.status_message,
                    ..b0
                })
                &&& b1.tabs.active_spec() == b0.tabs.active_spec()
                &&& b1.tabs.tabs_seq() == b0.tabs.tabs_seq().update(b0.tabs.active_spec() as int, t1)
                &&& if b0.content_blocker@.enabled && blocks(b0.content_blocker@, n) {
                    &&& r is Blocked
                    &&& t1 == (Tab { page_state: t1.page_state, ..t0 })
                    &&& t1.page_state matches PageState::Error { url: u, error: e } && u@ == n
                        && e@ == "Blocked by content filter"@
                    &&& status_is(b1, "Blocked: "@ + n)
                } else if n == "about:blank"@ {
                    &&& r is Blank
                    &&& t1 == (Tab { page_state: PageState::Blank, document: None, ..t0 })
                    &&& b1.status_message == b0.status_message
                } else {
                    &&& r matches NavStart::Fetch(f) && f@ == n
                    &&& t1 == (Tab { page_state: t1.page_state, nav_stack: t1.nav_stack, ..t0 })
                    &&& t1.page_state matches PageState::Loading { url: u } && u@ == n
                    &&& t1.nav_stack@ == nav_navigate(t0.nav_stack@, n)
                    &&& b1.status_message == b0.status_message
                }
            }),
    {
        let n = normalize_input(url, self.search_engine.as_str());
        if self.content_blocker.should_block(n.as_str()) {
            self.tabs.active_tab_mut().set_error(n.as_str(), "Blocked by content filter".to_owned());
            let mut msg = chars_of("Blocked: ");
            push_str(&mut msg, n.as_str());
            self.status_message = Some(string_from_chars(msg.as_slice()));
            return NavStart::Blocked;
        }
        if crate::text::eq_str(chars_of(n.as_str()).as_slice(), "about:blank") {
            let tab = self.tabs.active_tab_mut();
            tab.page_state = PageState::Blank;
            tab.document = None;
            return NavStart::Blank;
        }
        let tab = self.tabs.active_tab_mut();
        tab.page_state = PageState::Loading { url: n.clone() };
        tab.nav_stack.navigate(n.as_str());
        NavStart::Fetch(n)
    }

    /// Finish navigating the active tab with what the fetch gave: the page
    /// is recorded in the history and shown with its stylesheets (the linked
    /// ones, then its `<style>` elements), or the error is shown.
    pub fn finish_navigation(&mut self, normalized_url: &str, outcome: Result<LoadedPage, String>)
        requires
            old(self).tabs.wf(),
        ensures
            final(self).tabs.wf(),
            match outcome {
                Ok(page) => page_shown(*old(self), *final(self), page),
                Err(e) => error_shown(*old(self), *final(self), normalized_url@, e@),
            },
    {
        let ghost go = outcome;
        match outcome {
            Ok(page) => {
                let ghost gp = page;
                assert(go == Ok::<LoadedPage, String>(gp));
                let LoadedPage { url, body, css_texts, document } = page;
                assert(gp.url == url && gp.body == body && gp.css_texts == css_texts && gp.document
                    == document);
                let ghost css_views = strs(css_texts@);
                let mut stylesheets: Vec<Stylesheet> = Vec::new();
                let mut i: usize = 0;
                while i < css_texts.len()
                    invariant
                        i <= css_texts@.len(),
                        css_views == strs(css_texts@),
                        sheets_view(stylesheets@) == parsed_sheets(css_views).take(i as int),
                    decreases css_texts@.len() - i,
                {
                    let ghost s0 = stylesheets@;
                    let sheet = Stylesheet::parse(css_texts[i].as_str());
                    stylesheets.push(sheet);
                    assert(sheets_view(stylesheets@) =~= sheets_view(s0).push(sheet@));
                    assert(parsed_sheets(css_views).take(i + 1) =~= parsed_sheets(css_views).take(
                        i as int,
                    ).push(sheet@));
                    i = i + 1;
                }
                assert(parsed_sheets(css_views).take(i as int) =~= parsed_sheets(css_views));
                let inline = document.inline_styles();
                let ghost inline_views = inline@.map_values(|c: String| c@);
                let ghost first = sheets_view(stylesheets@);
                let mut j: usize = 0;
                while j < inline.len()
                    invariant
                        j <= inline@.len(),
                        inline_views == inline@.map_values(|c: String| c@),
                        sheets_view(stylesheets@) == first + parsed_sheets(inline_views).take(
                            j as int,
                        ),
                    decreases inline@.len() - j,
                {
                    let ghost s0 = stylesheets@;
                    let sheet = Stylesheet::parse(inline[j].as_str());
                    stylesheets.push(sheet);
                    assert(sheets_view(stylesheets@) =~= sheets_view(s0).push(sheet@));
                    assert(parsed_sheets(inline_views).take(j + 1) =~= parsed_sheets(
                        inline_views,
                    ).take(j as int).push(sheet@));
                    j = j + 1;
                }
                assert(parsed_sheets(inline_views).take(j as int) =~= parsed_sheets(inline_views));
                let title = match document.title() {
                    Some(t) => t.to_owned(),
                    None => "Untitled".to_owned(),
                };
                self.history.add(url.as_str(), title.as_str());
                let mut msg = chars_of("Loaded: ");
                push_str(&mut msg, url.as_str());
                let tab = self.tabs.active_tab_mut();
                tab.page_state = PageState::Loaded { url, title, html: body };
                tab.document = Some(document);
                tab.stylesheets = stylesheets;
                tab.search_matches = Vec::new();
                tab.current_match = None;
                self.status_message = Some(string_from_chars(msg.as_slice()));
                assert(sheets_view(active_tab_of(*self).stylesheets@) == parsed_sheets(css_views)
                    + parsed_sheets(styles_in(document.root)));
                assert(active_tab_of(*self).document == Some(document));
                assert(status_is(*self, "Loaded: "@ + url@));
                assert(title@ == (match title_in(gp.document.root) {
                    Some(x) => x,
                    None => "Untitled"@,
                }));
                assert(active_tab_of(*self).page_state matches PageState::Loaded { url: u, title: tt, html: h }
                    && u@ == gp.url@ && tt@ == title@ && h@ == gp.body@);
                assert(active_tab_of(*self).nav_stack == active_tab_of(*old(self)).nav_stack);
                assert(self.tabs.tabs_seq() == old(self).tabs.tabs_seq().update(
                    old(self).tabs.active_spec() as int,
                    active_tab_of(*self),
                ));
                assert(self.history.max() == old(self).history.max());
                proof {
                    let st = match title_in(gp.document.root) {
                        Some(x) => x,
                        None => "Untitled"@,
                    };
                    let t = choose|t: u64|
                        self.history.items() == keep_last(
                            old(self).history.items().push(
                                HistoryEntryView { url: gp.url@, title: title@, timestamp: t },
                            ),
                            old(self).history.max(),
                        );
                    assert(self.history.items() == keep_last(
                        old(self).history.items().push(
                            HistoryEntryView { url: gp.url@, title: st, timestamp: t },
                        ),
                        old(self).history.max(),
                    ));
                }
                assert(*self == (Browser {
                    tabs: self.tabs,
                    history: self.history,
                    status_message: self.status_message,
                    ..*old(self)
                }));
                proof {
                    let b0 = *old(self);
                    let b1 = *self;
                    let t0 = active_tab_of(b0);
                    let t1 = active_tab_of(b1);
                    let title = match title_in(gp.document.root) {
                        Some(x) => x,
                        None => "Untitled"@,
                    };
                    assert(b1.tabs.active_spec() == b0.tabs.active_spec());
                    assert(sheets_view(t1.stylesheets@) == parsed_sheets(strs(gp.css_texts@))
                        + parsed_sheets(styles_in(gp.document.root)));
                    assert(t1.search_matches@.len() == 0);
                    assert(t1.current_match is None);
                    assert(t1.pinned == t0.pinned);
                    assert(status_is(b1, "Loaded: "@ + gp.url@));
                    let w = choose|t: u64|
                        b1.history.items() == keep_last(
                            b0.history.items().push(
                                HistoryEntryView { url: gp.url@, title, timestamp: t },
                            ),
                            b0.history.max(),
                        );
                    assert(b1.history.items() == keep_last(
                        b0.history.items().push(HistoryEntryView { url: gp.url@, title, timestamp: w }),
                        b0.history.max(),
                    ));
                    assert(visit_recorded(b0.history.items(), b1.history.items(), b0.history.max(), gp.url@, title));
                    assert(t1.document == Some(gp.document));
                    assert(t1.nav_stack == t0.nav_stack);
                    assert(b1.tabs.tabs_seq() == b0.tabs.tabs_seq().update(
                        b0.tabs.active_spec() as int,
                        t1,
                    ));
                    assert(page_shown(b0, b1, gp));
                }
            },
            Err(e) => {
                let mut msg = chars_of("Error: ");
                push_str(&mut msg, e.as_str());
                self.tabs.active_tab_mut().set_error(normalized_url, e);
                self.status_message = Some(string_from_chars(msg.as_slice()));
                assert(error_shown(*old(self), *self, normalized_url@, e@));
            },
        }
    }

    /// What the active tab shows: the blank page, a generated page while
    /// loading or after an error, or its document once loaded.
    pub fn page_source(&self) -> (r: PageSource)
        requires
            self.tabs.wf(),
        ensures
            ({
                let t = active_tab_of(*self);
                match t.page_state {
                    PageState::Blank => r is Blank,
                    PageState::Loading { url } => r matches PageSource::Html(h) && h@ == loading_html(url@),
                    PageState::Loaded { .. } => if t.document is Some {
                        r is Document
                    } else {
                        r is Blank
                    },
                    PageState::Error { url, error } => r matches PageSource::Html(h) && h@ == error_html(
                        url@,
                        error@,
                    ),
                }
            }),
    {
        let tab = self.tabs.active_tab();
        match &tab.page_state {
            PageState::Blank => PageSource::Blank,
            PageState::Loading { url } => PageSource::Html(loading_page_html(url.as_str())),
            PageState::Loaded { .. } => match &tab.document {
                Some(_) => PageSource::Document,
                None => PageSource::Blank,
            },
            PageState::Error { url, error } => PageSource::Html(error_page_html(url.as_str(), error.as_str())),
        }
    }

    /// The whole screen as ANSI text, with the rendered page of the active
    /// tab.
    #[verifier::rlimit(30)]
    pub fn render_full_text(&self, page: &RenderedPage) -> (r: String)
        requires
            self.tabs.wf(),
        ensures
            r@ == screen_text(*self, line_views(page.lines@)),
    {
        let titles = self.tabs.tab_titles();
        assert(tab_entries(titles@) =~= tab_bar_entries(*self));
        let bar = render_tab_bar(titles.as_slice());
        let mut out = chars_of(bar.as_str());
        out.push('\n');
        let body = to_ansi_text(page);
        push_str(&mut out, body.as_str());
        let url = self.active_url();
        let a = self.tabs.active_index();
        let n = self.tabs.tab_count();
        assert(a < n);
        let mut pos = decimal_chars((a + 1) as u64);
        push_str(&mut pos, "/");
        let cnt = decimal_chars(n as u64);
        push_chars(&mut pos, cnt.as_slice());
        let pos_s = string_from_chars(pos.as_slice());
        let status = render_status_bar(
            url.as_str(),
            self.input.mode_indicator(),
            pos_s.as_str(),
            self.content_blocker.stats().blocked,
            self.tabs.active_tab().is_loading(),
        );
        push_str(&mut out, status.as_str());
        out.push('\n');
        let ghost before_msg = out@;
        match &self.status_message {
            Some(m) => {
                push_str(&mut out, m.as_str());
                out.push('\n');
            },
            None => {},
        }
        let ghost before_input = out@;
        let mode = self.input.mode();
        if mode == Mode::Command || mode == Mode::Search {
            if mode == Mode::Command {
                out.push(':');
            } else {
                out.push('/');
            }
            let buf = self.input.command_buffer();
            push_str(&mut out, buf.as_str());
            out.push('\n');
        }
        proof {
            reveal_strlit("\n");
            reveal_strlit(":");
            reveal_strlit("/");
        }
        let r = string_from_chars(out.as_slice());
        assert(r@ =~= screen_text(*self, line_views(page.lines@)));
        r
    }
}

/// Escaped source holds no `<` or `>`: shown as text, it cannot open a
/// tag.
pub proof fn law_escaped_has_no_tags(s: Seq<char>)
    ensures
        forall|i: int| 0 <= i < escape_html(s).len() ==> #[trigger] escape_html(s)[i] != '<'
            && escape_html(s)[i] != '>',
    decreases s.len(),
{
    reveal_strlit("&amp;");
    reveal_strlit("&lt;");
    reveal_strlit("&gt;");
    if s.len() > 0 {
        law_escaped_has_no_tags(s.drop_last());
        let p = escape_html(s.drop_last());
        let c = s.last();
        let tail = if c == '&' {
            "&amp;"@
        } else if c == '<' {
            "&lt;"@
        } else if c == '>' {
            "&gt;"@
        } else {
            seq![c]
        };
        assert(escape_html(s) == p + tail);
        assert forall|i: int| 0 <= i < (p + tail).len() implies #[trigger] (p + tail)[i] != '<' && (p
            + tail)[i] != '>' by {
            if i < p.len() {
                assert((p + tail)[i] == p[i]);
            } else {
                assert((p + tail)[i] == tail[i - p.len()]);
            }
        }
    }
}

/// Quitting, by key or by command, asks the browser to stop and changes
/// nothing else.
pub proof fn law_quit(b0: Browser, b1: Browser, e: EffectView)
    requires
        action_done(b0, BrowserAction::Quit, b1, e) || command_done(b0, "q"@, b1, e),
    ensures
        b1.should_quit,
        b1 == (Browser { should_quit: true, ..b0 }),
        e == BrowserEffect::<Seq<char>>::Nothing,
{
    reveal_strlit("q");
    reveal_strlit("open");
    reveal_strlit("o");
    reveal_strlit("tabopen");
    reveal_strlit("topen");
    reveal_strlit("to");
    reveal_strlit("bookmark");
    reveal_strlit("bm");
    reveal_strlit("bookmarks");
    reveal_strlit("bmarks");
    reveal_strlit("history");
    reveal_strlit("hist");
    reveal_strlit("quit");
    assert(!is_ws_spec('q'));
    crate::input::lemma_command_parts_word("q"@);
}

} // verus!
