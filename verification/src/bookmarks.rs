//! Bookmarks -- bookmark collection with tags.
//!
//! Supports tagging, search, and listing; reading and writing the file is
//! left to the caller.
use std::path::PathBuf;
use vstd::prelude::*;
use crate::clock::now_unix_secs;
use crate::history::strs;
use crate::sort::{is_stable_order, stable_order, lemma_recency_arith};
use crate::text::{
    chars_eq, chars_of, contains, contains_chars, lemma_lex_irreflexive, lemma_lex_total,
    lemma_lex_transitive, lex_less, lex_lt, lower_chars, lowercase, string_from_chars,
};

verus! {

/// A single bookmark entry.
#[derive(Debug, Clone)]
pub struct Bookmark {
    /// The bookmarked URL.
    pub url: String,
    /// The page title.
    pub title: String,
    /// Tags for categorisation.
    pub tags: Vec<String>,
    /// Unix timestamp when the bookmark was added.
    pub created_at: u64,
}

/// What a bookmark holds.
pub struct BookmarkView {
    pub url: Seq<char>,
    pub title: Seq<char>,
    pub tags: Seq<Seq<char>>,
    pub created_at: u64,
}

impl View for Bookmark {
    type V = BookmarkView;

    open spec fn view(&self) -> BookmarkView {
        BookmarkView {
            url: self.url@,
            title: self.title@,
            tags: strs(self.tags@),
            created_at: self.created_at,
        }
    }
}

/// The contents of a list of bookmarks.
pub open spec fn bookmark_views(s: Seq<Bookmark>) -> Seq<BookmarkView> {
    s.map_values(|b: Bookmark| b@)
}

/// Bookmark collection.
#[derive(Debug)]
pub struct Bookmarks {
    bookmarks: Vec<Bookmark>,
    path: PathBuf,
}

/// Some bookmark has this URL.
pub open spec fn has_url(items: Seq<BookmarkView>, url: Seq<char>) -> bool {
    exists|i: int| 0 <= i < items.len() && #[trigger] items[i].url == url
}

/// Sort keys for recency: the creation time, then the position in the list
/// (of two bookmarks made in the same second, the one added later is the
/// more recent).
pub open spec fn bookmark_keys(s: Seq<BookmarkView>) -> Seq<u128> {
    Seq::new(s.len(), |i: int| (s[i].created_at * 0x1_0000_0000_0000_0000 + i) as u128)
}

/// Bookmark `a` of `items` is more recent than bookmark `b`: made later, or
/// in the same second and added later.
pub open spec fn added_later(items: Seq<BookmarkView>, a: int, b: int) -> bool {
    ||| items[a].created_at > items[b].created_at
    ||| (items[a].created_at == items[b].created_at && a > b)
}

/// `ord` lists every index of `items` once, most recent bookmark first.
pub open spec fn bookmarks_in_recency_order(items: Seq<BookmarkView>, ord: Seq<usize>) -> bool {
    &&& ord.len() == items.len()
    &&& forall|i: int| 0 <= i < ord.len() ==> #[trigger] ord[i] < items.len()
    &&& forall|i: int, j: int|
        0 <= i < j < ord.len() ==> added_later(items, #[trigger] ord[i] as int, #[trigger] ord[j] as int)
}

/// A stable order by recency keys lists the most recent bookmark first.
proof fn lemma_bookmark_order(items: Seq<BookmarkView>, ord: Seq<usize>)
    requires
        items.len() <= usize::MAX,
        is_stable_order(bookmark_keys(items), ord, items.len() as int, true),
    ensures
        bookmarks_in_recency_order(items, ord),
{
    let keys = bookmark_keys(items);
    assert forall|i: int, j: int| 0 <= i < j < ord.len() implies added_later(
        items,
        #[trigger] ord[i] as int,
        #[trigger] ord[j] as int,
    ) by {
        let a = ord[i] as int;
        let b = ord[j] as int;
        lemma_recency_arith(items[a].created_at as int, items[b].created_at as int, a, b);
        assert(crate::sort::precedes(keys, a, b, true));
    }
}

/// A bookmark matches a lower-cased query when its lower-cased URL, title
/// or one of its tags contains it.
pub open spec fn bookmark_matches(b: BookmarkView, q: Seq<char>) -> bool {
    ||| contains(lowercase(b.url), q)
    ||| contains(lowercase(b.title), q)
    ||| exists|j: int| 0 <= j < b.tags.len() && contains(lowercase(#[trigger] b.tags[j]), q)
}

/// A bookmark carries a tag equal to `t` once both are lower-cased.
pub open spec fn has_tag(b: BookmarkView, t: Seq<char>) -> bool {
    exists|j: int| 0 <= j < b.tags.len() && lowercase(#[trigger] b.tags[j]) == lowercase(t)
}

/// Some bookmark among the first `i` carries the tag `t`, or bookmark `i`
/// carries it among its first `j` tags.
pub open spec fn tag_seen(items: Seq<BookmarkView>, i: int, j: int, t: Seq<char>) -> bool {
    ||| exists|a: int, b: int|
        0 <= a < i && 0 <= b < items[a].tags.len() && #[trigger] items[a].tags[b] == t
    ||| exists|b: int| 0 <= b < j && #[trigger] items[i].tags[b] == t
}

/// Some bookmark carries the tag `t`.
pub open spec fn tag_used(items: Seq<BookmarkView>, t: Seq<char>) -> bool {
    exists|a: int, b: int|
        0 <= a < items.len() && 0 <= b < items[a].tags.len() && #[trigger] items[a].tags[b] == t
}

/// `s` is in strictly increasing lexicographic order.
pub open spec fn strictly_sorted(s: Seq<Seq<char>>) -> bool {
    forall|i: int, j: int| 0 <= i < j < s.len() ==> lex_lt(#[trigger] s[i], #[trigger] s[j])
}

/// Does `items[i].url` equal `url`?
fn url_is(b: &Bookmark, url: &Vec<char>) -> (r: bool)
    ensures
        r == (b@.url == url@),
{
    let u = chars_of(b.url.as_str());
    chars_eq(u.as_slice(), url.as_slice())
}

impl Bookmarks {
    /// The bookmarks, in the order they were added.
    pub closed spec fn items(&self) -> Seq<BookmarkView> {
        bookmark_views(self.bookmarks@)
    }

    /// The file the collection is stored in.
    pub closed spec fn location(&self) -> PathBuf {
        self.path
    }

    /// An empty collection stored at `path`.
    pub fn new(path: PathBuf) -> (r: Self)
        ensures
            r.items() == Seq::<BookmarkView>::empty(),
            r.location() == path,
    {
        let r = Self { bookmarks: Vec::new(), path };
        assert(r.items() =~= Seq::<BookmarkView>::empty());
        r
    }

    /// A collection read back from `path`.
    pub fn restore(bookmarks: Vec<Bookmark>, path: PathBuf) -> (r: Self)
        ensures
            r.items() == bookmark_views(bookmarks@),
            r.location() == path,
    {
        Self { bookmarks, path }
    }

    /// Where the collection is stored.
    pub fn path(&self) -> (r: &PathBuf)
        ensures
            *r == self.location(),
    {
        &self.path
    }

    /// The bookmarks in the order they were added (the order they are saved in).
    pub fn stored(&self) -> (r: &[Bookmark])
        ensures
            bookmark_views(r@) == self.items(),
    {
        self.bookmarks.as_slice()
    }

    fn find_url(&self, url: &Vec<char>) -> (r: bool)
        ensures
            r == has_url(self.items(), url@),
    {
        let mut i: usize = 0;
        while i < self.bookmarks.len()
            invariant
                i <= self.bookmarks@.len(),
                forall|k: int| 0 <= k < i ==> self.items()[k].url != url@,
            decreases self.bookmarks@.len() - i,
        {
            if url_is(&self.bookmarks[i], url) {
                assert(self.items()[i as int].url == url@);
                return true;
            }
            i = i + 1;
        }
        false
    }

    /// Add a bookmark stamped with the current time. Returns `true` if it
    /// was added, `false` if the URL is already bookmarked.
    pub fn add(&mut self, url: &str, title: &str, tags: Vec<String>) -> (r: bool)
        ensures
            final(self).location() == old(self).location(),
            r == !has_url(old(self).items(), url@),
            !r ==> final(self).items() == old(self).items(),
            r ==> exists|t: u64|
                final(self).items() == old(self).items().push(
                    BookmarkView { url: url@, title: title@, tags: strs(tags@), created_at: t },
                ),
    {
        let created_at = now_unix_secs();
        self.add_at(url, title, tags, created_at)
    }

    /// Add a bookmark with the given creation time. Returns `true` if it was
    /// added, `false` if the URL is already bookmarked.
    pub fn add_at(&mut self, url: &str, title: &str, tags: Vec<String>, created_at: u64) -> (r:
        bool)
        ensures
            final(self).location() == old(self).location(),
            r == !has_url(old(self).items(), url@),
            !r ==> final(self).items() == old(self).items(),
            r ==> final(self).items() == old(self).items().push(
                BookmarkView { url: url@, title: title@, tags: strs(tags@), created_at },
            ),
    {
        let u = chars_of(url);
        if self.find_url(&u) {
            return false;
        }
        let ghost v0 = self.bookmarks@;
        let b = Bookmark { url: url.to_owned(), title: title.to_owned(), tags, created_at };
        self.bookmarks.push(b);
        assert(bookmark_views(v0.push(b)) =~= bookmark_views(v0).push(b@));
        true
    }

    /// Remove every bookmark with this URL. Returns `true` if one was removed.
    pub fn remove(&mut self, url: &str) -> (r: bool)
        ensures
            final(self).location() == old(self).location(),
            r == has_url(old(self).items(), url@),
            final(self).items() == old(self).items().filter(|b: BookmarkView| b.url != url@),
    {
        let u = chars_of(url);
        let ghost pred = |b: BookmarkView| b.url != url@;
        let ghost items = self.items();
        let mut removed = false;
        let mut i: usize = 0;
        let ghost mut done: int = 0;
        assert(items.skip(0) =~= items);
        assert(items.take(0).filter(pred) =~= Seq::<BookmarkView>::empty()) by {
            reveal_with_fuel(Seq::filter, 1);
        }
        assert(items.take(0).filter(pred) + items.skip(0) =~= items);
        while i < self.bookmarks.len()
            invariant
                0 <= done <= items.len(),
                pred == (|b: BookmarkView| b.url != url@),
                u@ == url@,
                self.items() == items.take(done).filter(pred) + items.skip(done),
                i == items.take(done).filter(pred).len(),
                removed == has_url(items.take(done), url@),
                self.location() == old(self).location(),
            decreases items.len() - done,
        {
            let ghost f = items.take(done).filter(pred);
            proof {
                reveal_with_fuel(Seq::filter, 1);
                assert(items.take(done + 1).drop_last() =~= items.take(done));
                assert(self.items()[i as int] == items[done]);
                if has_url(items.take(done + 1), url@) && items[done].url != url@ {
                    let k = choose|k: int|
                        0 <= k < done + 1 && #[trigger] items.take(done + 1)[k].url == url@;
                    assert(items.take(done)[k].url == url@);
                }
                if removed {
                    let k = choose|k: int| 0 <= k < done && #[trigger] items.take(done)[k].url == url@;
                    assert(items.take(done + 1)[k].url == url@);
                }
                if items[done].url == url@ {
                    assert(items.take(done + 1)[done].url == url@);
                }
            }
            let ghost v0 = self.bookmarks@;
            if url_is(&self.bookmarks[i], &u) {
                self.bookmarks.remove(i);
                removed = true;
                proof {
                    assert(bookmark_views(v0.remove(i as int)) =~= bookmark_views(v0).remove(
                        i as int,
                    ));
                    assert(f + items.skip(done + 1) =~= (f + items.skip(done)).remove(i as int));
                }
            } else {
                i = i + 1;
                proof {
                    assert(f.push(items[done]) + items.skip(done + 1) =~= f + items.skip(done));
                }
            }
            proof {
                done = done + 1;
            }
        }
        proof {
            assert(items.skip(done).len() == 0);
            assert(done == items.len());
            assert(items.take(done) =~= items);
            assert(self.items() =~= items.filter(pred));
        }
        removed
    }

    /// Check if a URL is bookmarked.
    pub fn is_bookmarked(&self, url: &str) -> (r: bool)
        ensures
            r == has_url(self.items(), url@),
    {
        let u = chars_of(url);
        self.find_url(&u)
    }

    /// Get all bookmarks, most recent first: by creation time, and of two
    /// made in the same second the one added later first.
    pub fn all(&self) -> (r: Vec<&Bookmark>)
        ensures
            r@.len() == self.items().len(),
            exists|ord: Seq<usize>|
                {
                    &&& bookmarks_in_recency_order(self.items(), ord)
                    &&& forall|k: int|
                        0 <= k < r@.len() ==> (*#[trigger] r@[k])@ == self.items()[ord[k] as int]
                },
    {
        let n = self.bookmarks.len();
        let mut keys: Vec<u128> = Vec::new();
        let mut i: usize = 0;
        while i < n
            invariant
                i <= n == self.bookmarks@.len(),
                keys@.len() == i,
                forall|k: int| 0 <= k < i ==> keys@[k] == (self.bookmarks@[k].created_at * 0x1_0000_0000_0000_0000
                    + k) as u128,
            decreases n - i,
        {
            let t = self.bookmarks[i].created_at;
            proof {
                lemma_recency_arith(t as int, 0, i as int, 0);
            }
            keys.push((t as u128) * 0x1_0000_0000_0000_0000u128 + (i as u128));
            i = i + 1;
        }
        assert(keys@ =~= bookmark_keys(self.items()));
        let ord = stable_order(&keys, true);
        let mut out: Vec<&Bookmark> = Vec::new();
        let mut j: usize = 0;
        while j < n
            invariant
                j <= n == self.bookmarks@.len() == ord@.len(),
                is_stable_order(bookmark_keys(self.items()), ord@, n as int, true),
                out@.len() == j,
                forall|k: int| 0 <= k < j ==> (*#[trigger] out@[k])@ == self.items()[ord@[k] as int],
            decreases n - j,
        {
            let o = ord[j];
            assert(o < n);
            out.push(&self.bookmarks[o]);
            j = j + 1;
        }
        proof {
            lemma_bookmark_order(self.items(), ord@);
        }
        out
    }

    /// Search bookmarks by URL, title, or tag, ignoring case.
    pub fn search(&self, query: &str) -> (r: Vec<&Bookmark>)
        ensures
            ({
                let found = self.items().filter(
                    |b: BookmarkView| bookmark_matches(b, lowercase(query@)),
                );
                &&& r@.len() == found.len()
                &&& forall|k: int| 0 <= k < r@.len() ==> (*#[trigger] r@[k])@ == found[k]
            }),
    {
        let q = lower_chars(query);
        let ghost pred = |b: BookmarkView| bookmark_matches(b, lowercase(query@));
        let ghost items = self.items();
        let mut out: Vec<&Bookmark> = Vec::new();
        let n = self.bookmarks.len();
        let mut i: usize = 0;
        while i < n
            invariant
                i <= n == self.bookmarks@.len(),
                q@ == lowercase(query@),
                pred == (|b: BookmarkView| bookmark_matches(b, lowercase(query@))),
                items == self.items(),
                out@.len() == items.take(i as int).filter(pred).len(),
                forall|k: int|
                    0 <= k < out@.len() ==> (*#[trigger] out@[k])@ == items.take(i as int).filter(
                        pred,
                    )[k],
            decreases n - i,
        {
            let b = &self.bookmarks[i];
            let hit = bookmark_hit(b, &q);
            proof {
                reveal_with_fuel(Seq::filter, 1);
                assert(items.take(i + 1).drop_last() =~= items.take(i as int));
                assert(items[i as int] == self.bookmarks@[i as int]@);
            }
            if hit {
                out.push(b);
            }
            i = i + 1;
        }
        assert(items.take(n as int) =~= items);
        out
    }

    /// Get bookmarks carrying a tag, ignoring case.
    pub fn by_tag(&self, tag: &str) -> (r: Vec<&Bookmark>)
        ensures
            ({
                let found = self.items().filter(|b: BookmarkView| has_tag(b, tag@));
                &&& r@.len() == found.len()
                &&& forall|k: int| 0 <= k < r@.len() ==> (*#[trigger] r@[k])@ == found[k]
            }),
    {
        let t = lower_chars(tag);
        let ghost pred = |b: BookmarkView| has_tag(b, tag@);
        let ghost items = self.items();
        let mut out: Vec<&Bookmark> = Vec::new();
        let n = self.bookmarks.len();
        let mut i: usize = 0;
        while i < n
            invariant
                i <= n == self.bookmarks@.len(),
                t@ == lowercase(tag@),
                pred == (|b: BookmarkView| has_tag(b, tag@)),
                items == self.items(),
                out@.len() == items.take(i as int).filter(pred).len(),
                forall|k: int|
                    0 <= k < out@.len() ==> (*#[trigger] out@[k])@ == items.take(i as int).filter(
                        pred,
                    )[k],
            decreases n - i,
        {
            let b = &self.bookmarks[i];
            let hit = tag_hit(b, &t, Ghost(tag@));
            proof {
                reveal_with_fuel(Seq::filter, 1);
                assert(items.take(i + 1).drop_last() =~= items.take(i as int));
                assert(items[i as int] == self.bookmarks@[i as int]@);
            }
            if hit {
                out.push(b);
            }
            i = i + 1;
        }
        assert(items.take(n as int) =~= items);
        out
    }

    /// Get all distinct tags, in increasing order.
    pub fn tags(&self) -> (r: Vec<String>)
        ensures
            strictly_sorted(strs(r@)),
            forall|k: int| 0 <= k < r@.len() ==> tag_used(self.items(), (#[trigger] r@[k])@),
            forall|t: Seq<char>|
                tag_used(self.items(), t) ==> exists|k: int| 0 <= k < r@.len() && (#[trigger] r@[k])@ == t,
    {
        let ghost items = self.items();
        let mut out: Vec<Vec<char>> = Vec::new();
        let n = self.bookmarks.len();
        let mut i: usize = 0;
        while i < n
            invariant
                i <= n == self.bookmarks@.len(),
                items == self.items(),
                strictly_sorted(out@.map_values(|v: Vec<char>| v@)),
                forall|k: int| 0 <= k < out@.len() ==> tag_seen(items, i as int, 0, #[trigger] out@[k]@),
                forall|t: Seq<char>|
                    tag_seen(items, i as int, 0, t) ==> exists|k: int|
                        0 <= k < out@.len() && #[trigger] out@[k]@ == t,
            decreases n - i,
        {
            let b = &self.bookmarks[i];
            let m = b.tags.len();
            let mut j: usize = 0;
            assert(items[i as int] == b@);
            while j < m
                invariant
                    i < n == self.bookmarks@.len(),
                    j <= m == b.tags@.len(),
                    items == self.items(),
                    items[i as int] == b@,
                    strictly_sorted(out@.map_values(|v: Vec<char>| v@)),
                    forall|k: int|
                        0 <= k < out@.len() ==> tag_seen(items, i as int, j as int, #[trigger] out@[k]@),
                    forall|t: Seq<char>|
                        tag_seen(items, i as int, j as int, t) ==> exists|k: int|
                            0 <= k < out@.len() && #[trigger] out@[k]@ == t,
                decreases m - j,
            {
                let tv = chars_of(b.tags[j].as_str());
                assert(items[i as int].tags[j as int] == tv@);
                insert_sorted(&mut out, tv, Ghost(items), Ghost(i as int), Ghost(j as int), Ghost(j + 1));
                j = j + 1;
            }
            proof {
                assert forall|t: Seq<char>| tag_seen(items, i as int, m as int, t) implies tag_seen(
                    items,
                    i + 1,
                    0,
                    t,
                ) by {
                    if exists|bb: int| 0 <= bb < m && #[trigger] items[i as int].tags[bb] == t {
                        let bb = choose|bb: int| 0 <= bb < m && #[trigger] items[i as int].tags[bb] == t;
                        assert(items[i as int].tags[bb] == t);
                    }
                }
                assert forall|t: Seq<char>| tag_seen(items, i + 1, 0, t) implies tag_seen(
                    items,
                    i as int,
                    m as int,
                    t,
                ) by {
                    let (a, bb) = choose|a: int, bb: int|
                        0 <= a < i + 1 && 0 <= bb < items[a].tags.len() && #[trigger] items[a].tags[bb] == t;
                    if a == i {
                        assert(items[i as int].tags[bb] == t);
                    }
                }
                let i1 = i + 1;
                assert forall|t: Seq<char>| #[trigger] tag_seen(items, i1, 0, t) implies exists|k: int|
                    0 <= k < out@.len() && #[trigger] out@[k]@ == t by {
                    assert(tag_seen(items, i as int, m as int, t));
                }
            }
            i = i + 1;
        }
        let mut r: Vec<String> = Vec::new();
        let mut k: usize = 0;
        while k < out.len()
            invariant
                k <= out@.len(),
                r@.len() == k,
                forall|x: int| 0 <= x < k ==> (#[trigger] r@[x])@ == out@[x]@,
            decreases out@.len() - k,
        {
            r.push(string_from_chars(out[k].as_slice()));
            k = k + 1;
        }
        proof {
            assert(strs(r@) =~= out@.map_values(|v: Vec<char>| v@));
            assert forall|t: Seq<char>| tag_used(items, t) implies tag_seen(items, n as int, 0, t) by {}
            assert forall|t: Seq<char>| tag_seen(items, n as int, 0, t) implies tag_used(items, t) by {}
            assert forall|t: Seq<char>| tag_used(self.items(), t) implies exists|x: int|
                0 <= x < r@.len() && (#[trigger] r@[x])@ == t by {
                let x = choose|x: int| 0 <= x < out@.len() && #[trigger] out@[x]@ == t;
                assert(r@[x]@ == t);
            }
        }
        r
    }

    /// Get total number of bookmarks.
    pub fn len(&self) -> (r: usize)
        ensures
            r == self.items().len(),
    {
        self.bookmarks.len()
    }

    /// Check if bookmarks collection is empty.
    pub fn is_empty(&self) -> (r: bool)
        ensures
            r == (self.items().len() == 0),
    {
        self.bookmarks.len() == 0
    }
}

/// Does the bookmark match the lower-cased query `q`?
fn bookmark_hit(b: &Bookmark, q: &Vec<char>) -> (r: bool)
    ensures
        r == bookmark_matches(b@, q@),
{
    let u = lower_chars(b.url.as_str());
    if contains_chars(u.as_slice(), q.as_slice()) {
        return true;
    }
    let t = lower_chars(b.title.as_str());
    if contains_chars(t.as_slice(), q.as_slice()) {
        return true;
    }
    let mut j: usize = 0;
    while j < b.tags.len()
        invariant
            j <= b.tags@.len(),
            !contains(lowercase(b@.url), q@),
            !contains(lowercase(b@.title), q@),
            forall|k: int| 0 <= k < j ==> !contains(lowercase(#[trigger] b@.tags[k]), q@),
        decreases b.tags@.len() - j,
    {
        let l = lower_chars(b.tags[j].as_str());
        if contains_chars(l.as_slice(), q.as_slice()) {
            assert(b@.tags[j as int] == b.tags@[j as int]@);
            return true;
        }
        assert(b@.tags[j as int] == b.tags@[j as int]@);
        j = j + 1;
    }
    false
}

/// Does the bookmark carry the tag whose lower-cased form is `t`?
fn tag_hit(b: &Bookmark, t: &Vec<char>, Ghost(tag): Ghost<Seq<char>>) -> (r: bool)
    requires
        t@ == lowercase(tag),
    ensures
        r == has_tag(b@, tag),
{
    let mut j: usize = 0;
    while j < b.tags.len()
        invariant
            j <= b.tags@.len(),
            t@ == lowercase(tag),
            forall|k: int| 0 <= k < j ==> lowercase(#[trigger] b@.tags[k]) != lowercase(tag),
        decreases b.tags@.len() - j,
    {
        let l = lower_chars(b.tags[j].as_str());
        assert(b@.tags[j as int] == b.tags@[j as int]@);
        if chars_eq(l.as_slice(), t.as_slice()) {
            return true;
        }
        j = j + 1;
    }
    false
}

/// Insert the tag `items[i].tags[j]` into the sorted, duplicate-free list
/// `out` of the tags seen before it.
fn insert_sorted(
    out: &mut Vec<Vec<char>>,
    tv: Vec<char>,
    Ghost(items): Ghost<Seq<BookmarkView>>,
    Ghost(i): Ghost<int>,
    Ghost(j): Ghost<int>,
    Ghost(j1): Ghost<int>,
)
    requires
        j1 == j + 1,
        0 <= i < items.len(),
        0 <= j < items[i].tags.len(),
        items[i].tags[j] == tv@,
        strictly_sorted(old(out)@.map_values(|v: Vec<char>| v@)),
        forall|k: int| 0 <= k < old(out)@.len() ==> tag_seen(items, i, j, #[trigger] old(out)@[k]@),
        forall|t: Seq<char>|
            tag_seen(items, i, j, t) ==> exists|k: int| 0 <= k < old(out)@.len() && #[trigger] old(out)@[k]@ == t,
    ensures
        strictly_sorted(final(out)@.map_values(|v: Vec<char>| v@)),
        forall|k: int| 0 <= k < final(out)@.len() ==> tag_seen(items, i, j1, #[trigger] final(out)@[k]@),
        forall|t: Seq<char>|
            tag_seen(items, i, j1, t) ==> exists|k: int| 0 <= k < final(out)@.len() && #[trigger] final(out)@[k]@ == t,
{
    let ghost o = out@;
    let ghost ov = o.map_values(|v: Vec<char>| v@);
    assert forall|t: Seq<char>| tag_seen(items, i, j, t) implies tag_seen(items, i, j1, t) by {
        if exists|b: int| 0 <= b < j && #[trigger] items[i].tags[b] == t {
            let b = choose|b: int| 0 <= b < j && #[trigger] items[i].tags[b] == t;
            assert(items[i].tags[b] == t);
        }
    }
    assert(tag_seen(items, i, j1, tv@)) by {
        assert(items[i].tags[j] == tv@);
    }
    assert forall|t: Seq<char>| tag_seen(items, i, j1, t) implies (tag_seen(items, i, j, t)
        || t == tv@) by {
        if exists|b: int| 0 <= b < j1 && #[trigger] items[i].tags[b] == t {
            let b = choose|b: int| 0 <= b < j1 && #[trigger] items[i].tags[b] == t;
            if b < j {
                assert(items[i].tags[b] == t);
            }
        }
    }
    let mut p: usize = 0;
    while p < out.len() && lex_less(out[p].as_slice(), tv.as_slice())
        invariant
            p <= out@.len(),
            out@ == o,
            forall|k: int| 0 <= k < p ==> lex_lt(#[trigger] o[k]@, tv@),
        decreases out@.len() - p,
    {
        p = p + 1;
    }
    if p < out.len() && chars_eq(out[p].as_slice(), tv.as_slice()) {
        return;
    }
    proof {
        if p < o.len() {
            lemma_lex_total(o[p as int]@, tv@);
            assert(lex_lt(tv@, o[p as int]@));
        }
    }
    out.insert(p, tv);
    proof {
        let nv = out@.map_values(|v: Vec<char>| v@);
        assert forall|a: int, b: int| 0 <= a < b < nv.len() implies lex_lt(
            #[trigger] nv[a],
            #[trigger] nv[b],
        ) by {
            assert(ov[0] == o[0]@ || ov.len() == 0);
            if a < p && b < p {
                assert(nv[a] == ov[a] && nv[b] == ov[b]);
            } else if a < p && b == p {
                assert(nv[a] == o[a]@);
            } else if a < p {
                assert(nv[a] == ov[a] && nv[b] == ov[b - 1]);
            } else if a == p {
                assert(nv[b] == ov[b - 1]);
                if b - 1 > p {
                    assert(ov[p as int] == o[p as int]@);
                    lemma_lex_transitive(tv@, o[p as int]@, ov[b - 1]);
                }
            } else {
                assert(nv[a] == ov[a - 1] && nv[b] == ov[b - 1]);
            }
        }
        assert forall|k: int| 0 <= k < out@.len() implies tag_seen(items, i, j1, #[trigger] out@[k]@) by {
            if k < p {
                assert(out@[k] == o[k]);
            } else if k > p {
                assert(out@[k] == o[k - 1]);
            }
        }
        assert forall|t: Seq<char>| tag_seen(items, i, j1, t) implies exists|k: int|
            0 <= k < out@.len() && #[trigger] out@[k]@ == t by {
            if t == tv@ {
                assert(out@[p as int]@ == t);
            } else {
                let k = choose|k: int| 0 <= k < o.len() && #[trigger] o[k]@ == t;
                if k < p {
                    assert(out@[k] == o[k]);
                } else {
                    assert(out@[k + 1] == o[k]);
                }
            }
        }
    }
}


/// Searching finds a bookmark exactly when its URL, its title or one of its
/// tags contains the query, ignoring case.
pub proof fn law_search_by_url_title_or_tag(items: Seq<BookmarkView>, query: Seq<char>, i: int)
    requires
        0 <= i < items.len(),
    ensures
        items.filter(|b: BookmarkView| bookmark_matches(b, lowercase(query))).contains(items[i])
            <==> ({
            ||| contains(lowercase(items[i].url), lowercase(query))
            ||| contains(lowercase(items[i].title), lowercase(query))
            ||| exists|j: int|
                0 <= j < items[i].tags.len() && contains(lowercase(#[trigger] items[i].tags[j]), lowercase(query))
        }),
{
    let pred = |b: BookmarkView| bookmark_matches(b, lowercase(query));
    let f = items.filter(pred);
    if pred(items[i]) {
        items.lemma_filter_contains(pred, i);
    }
    if f.contains(items[i]) {
        let k = choose|k: int| 0 <= k < f.len() && f[k] == items[i];
        items.lemma_filter_pred(pred, k);
    }
}


/// Listing by tag finds a bookmark exactly when one of its tags equals the
/// tag asked for, ignoring case.
pub proof fn law_by_tag(items: Seq<BookmarkView>, tag: Seq<char>, i: int)
    requires
        0 <= i < items.len(),
    ensures
        items.filter(|b: BookmarkView| has_tag(b, tag)).contains(items[i]) <==> exists|j: int|
            0 <= j < items[i].tags.len() && lowercase(#[trigger] items[i].tags[j]) == lowercase(tag),
{
    let pred = |b: BookmarkView| has_tag(b, tag);
    let f = items.filter(pred);
    if pred(items[i]) {
        items.lemma_filter_contains(pred, i);
    }
    if f.contains(items[i]) {
        let k = choose|k: int| 0 <= k < f.len() && f[k] == items[i];
        items.lemma_filter_pred(pred, k);
    }
}


/// In recency order the bookmarks come by creation time, the latest first,
/// and of two made in the same second the one added later first.
pub proof fn law_recency_order_by_time(items: Seq<BookmarkView>, ord: Seq<usize>, i: int, j: int)
    requires
        bookmarks_in_recency_order(items, ord),
        0 <= i < j < ord.len(),
    ensures
        items[ord[i] as int].created_at >= items[ord[j] as int].created_at,
        items[ord[i] as int].created_at == items[ord[j] as int].created_at ==> ord[i] > ord[j],
{
    assert(added_later(items, ord[i] as int, ord[j] as int));
}

/// A bookmark, once added, is found by its URL; adding one whose URL is
/// already present is refused (see `Bookmarks::add`).
pub proof fn law_add_then_bookmarked(items: Seq<BookmarkView>, b: BookmarkView)
    ensures
        has_url(items.push(b), b.url),
{
    assert(items.push(b)[items.len() as int].url == b.url);
}

/// After removing a URL, it is no longer bookmarked and every other
/// bookmark is kept.
pub proof fn law_remove_then_not_bookmarked(items: Seq<BookmarkView>, url: Seq<char>)
    ensures
        !has_url(items.filter(|b: BookmarkView| b.url != url), url),
        forall|c: BookmarkView|
            items.contains(c) && c.url != url ==> items.filter(|b: BookmarkView| b.url != url).contains(c),
{
    let f = items.filter(|b: BookmarkView| b.url != url);
    items.filter_lemma(|b: BookmarkView| b.url != url);
    assert forall|c: BookmarkView| items.contains(c) && c.url != url implies f.contains(c) by {
        let k = choose|k: int| 0 <= k < items.len() && items[k] == c;
        items.lemma_filter_contains(|b: BookmarkView| b.url != url, k);
    }
}

} // verus!
