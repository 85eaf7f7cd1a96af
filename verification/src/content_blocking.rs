//! Content blocking -- tracker and ad blocking.
//!
//! EasyList-compatible filter engine with domain blocking,
//! pattern matching, and exception rules.
use vstd::prelude::*;
use crate::config::{clone_strings, ContentBlockingConfig};
use crate::history::strs;
use crate::text::{
    chars_eq, chars_of, contains, contains_chars, ends_with, ends_with_chars, find_char,
    find_char_exec, lower_of_chars, lowercase, push_chars, slice_chars, starts_with,
    starts_with_str, string_from_chars, strip_trailing, strip_trailing_exec, trim, trim_chars, is_ws_spec,
    lemma_trim_clean, lemma_find_char,
};
use crate::url_util::{host_text, host_text_exec};

verus! {

/// Blocking statistics for the current session.
#[derive(Debug, Default, Clone)]
pub struct BlockStats {
    /// Total requests checked.
    pub checked: u64,
    /// Total requests blocked.
    pub blocked: u64,
    /// Total requests allowed.
    pub allowed: u64,
}

/// A content blocker that checks URLs against filter rules.
#[derive(Debug)]
pub struct ContentBlocker {
    blocked_domains: Vec<String>,
    blocked_patterns: Vec<String>,
    exception_domains: Vec<String>,
    enabled: bool,
    stats: BlockStats,
}

/// The rules and counters of a blocker.
pub struct BlockerView {
    pub blocked_domains: Seq<Seq<char>>,
    pub blocked_patterns: Seq<Seq<char>>,
    pub exception_domains: Seq<Seq<char>>,
    pub enabled: bool,
    pub checked: u64,
    pub blocked: u64,
    pub allowed: u64,
}

impl View for ContentBlocker {
    type V = BlockerView;

    closed spec fn view(&self) -> BlockerView {
        BlockerView {
            blocked_domains: strs(self.blocked_domains@),
            blocked_patterns: strs(self.blocked_patterns@),
            exception_domains: strs(self.exception_domains@),
            enabled: self.enabled,
            checked: self.stats.checked,
            blocked: self.stats.blocked,
            allowed: self.stats.allowed,
        }
    }
}

/// Every checked request was either blocked or allowed.
pub open spec fn blocker_wf(b: BlockerView) -> bool {
    b.blocked + b.allowed == b.checked
}

/// The tracker domains blocked by default.
pub open spec fn default_trackers() -> Seq<Seq<char>> {
    seq![
        "doubleclick.net"@,
        "google-analytics.com"@,
        "googletagmanager.com"@,
        "googlesyndication.com"@,
        "facebook.net"@,
        "connect.facebook.net"@,
        "analytics.google.com"@,
        "pixel.facebook.com"@,
        "bat.bing.com"@,
        "scorecardresearch.com"@,
        "quantserve.com"@,
        "adservice.google.com"@,
        "pagead2.googlesyndication.com"@,
        "amazon-adsystem.com"@,
        "ads-twitter.com"@,
        "ads.linkedin.com"@,
        "hotjar.com"@,
        "clarity.ms"@,
        "mixpanel.com"@,
        "segment.com"@,
        "amplitude.com"@,
        "newrelic.com"@,
        "nr-data.net"@,
        "bugsnag.com"@,
        "sentry.io"@,
    ]
}

fn default_tracker_list() -> (r: Vec<&'static str>)
    ensures
        r@.map_values(|s: &str| s@) == default_trackers(),
{
    let r = vec![
        "doubleclick.net",
        "google-analytics.com",
        "googletagmanager.com",
        "googlesyndication.com",
        "facebook.net",
        "connect.facebook.net",
        "analytics.google.com",
        "pixel.facebook.com",
        "bat.bing.com",
        "scorecardresearch.com",
        "quantserve.com",
        "adservice.google.com",
        "pagead2.googlesyndication.com",
        "amazon-adsystem.com",
        "ads-twitter.com",
        "ads.linkedin.com",
        "hotjar.com",
        "clarity.ms",
        "mixpanel.com",
        "segment.com",
        "amplitude.com",
        "newrelic.com",
        "nr-data.net",
        "bugsnag.com",
        "sentry.io",
    ];
    assert(r@.map_values(|s: &str| s@) =~= default_trackers());
    r
}

/// `list` with `d` appended unless it is already there.
pub open spec fn add_unique(list: Seq<Seq<char>>, d: Seq<char>) -> Seq<Seq<char>> {
    if list.contains(d) {
        list
    } else {
        list.push(d)
    }
}

/// `list` with each of `ds` added in turn by [`add_unique`].
pub open spec fn add_all_unique(list: Seq<Seq<char>>, ds: Seq<Seq<char>>) -> Seq<Seq<char>>
    decreases ds.len(),
{
    if ds.len() == 0 {
        list
    } else {
        add_unique(add_all_unique(list, ds.drop_last()), ds.last())
    }
}

/// The domain a blocker looks at: the host text of the URL, lower-cased.
pub open spec fn blocker_domain(url: Seq<char>) -> Seq<char> {
    lowercase(host_text(url))
}

/// A domain matches a rule when it is the rule's domain or one of its
/// subdomains.
pub open spec fn domain_matches_spec(actual: Seq<char>, rule: Seq<char>) -> bool {
    actual == rule || ends_with(actual, seq!['.'] + rule)
}

/// Some rule in `rules` matches the domain.
pub open spec fn matches_any(domain: Seq<char>, rules: Seq<Seq<char>>) -> bool {
    exists|i: int| 0 <= i < rules.len() && domain_matches_spec(domain, #[trigger] rules[i])
}

/// Some pattern occurs in the URL.
pub open spec fn pattern_hit(url: Seq<char>, patterns: Seq<Seq<char>>) -> bool {
    exists|i: int| 0 <= i < patterns.len() && contains(url, #[trigger] patterns[i])
}

/// Whether the rules block a URL: no exception matches its domain, and a
/// domain rule matches it or a pattern occurs in it.
pub open spec fn blocks(b: BlockerView, url: Seq<char>) -> bool {
    let d = blocker_domain(url);
    !matches_any(d, b.exception_domains) && (matches_any(d, b.blocked_domains) || pattern_hit(
        url,
        b.blocked_patterns,
    ))
}

/// What checking a URL does to a blocker: when enabled, it counts the check
/// and either a block or an allow.
pub open spec fn after_check(b: BlockerView, url: Seq<char>) -> BlockerView {
    if !b.enabled {
        b
    } else if blocks(b, url) {
        BlockerView { checked: (b.checked + 1) as u64, blocked: (b.blocked + 1) as u64, ..b }
    } else {
        BlockerView { checked: (b.checked + 1) as u64, allowed: (b.allowed + 1) as u64, ..b }
    }
}

/// One line of a filter list, classified.
pub enum FilterLine {
    Skip,
    Exception(Seq<char>),
    Domain(Seq<char>),
    Pattern(Seq<char>),
}

/// How a line of an EasyList-format filter list is read: comments (`!`),
/// headers (`[`) and blank lines are skipped; `@@||domain^` is an exception;
/// `||domain^` a domain rule; anything else without `$` or `#` a pattern.
pub open spec fn classify_line(raw: Seq<char>) -> FilterLine {
    let line = trim(raw);
    if line.len() == 0 || line[0] == '!' || line[0] == '[' {
        FilterLine::Skip
    } else if starts_with(line, "@@||"@) {
        FilterLine::Exception(strip_trailing(line.skip("@@||"@.len() as int), '^'))
    } else if starts_with(line, "||"@) {
        let d = strip_trailing(line.skip("||"@.len() as int), '^');
        if d.len() == 0 {
            FilterLine::Skip
        } else {
            FilterLine::Domain(d)
        }
    } else if find_char(line, '$') is None && find_char(line, '#') is None {
        FilterLine::Pattern(line)
    } else {
        FilterLine::Skip
    }
}

/// Adding the rule of one line.
pub open spec fn apply_line(b: BlockerView, l: FilterLine) -> BlockerView {
    match l {
        FilterLine::Skip => b,
        FilterLine::Exception(d) => BlockerView { exception_domains: b.exception_domains.push(d), ..b },
        FilterLine::Domain(d) => BlockerView { blocked_domains: b.blocked_domains.push(d), ..b },
        FilterLine::Pattern(p) => BlockerView { blocked_patterns: b.blocked_patterns.push(p), ..b },
    }
}

/// The text split at each newline (the last piece may be empty).
pub open spec fn split_lines(s: Seq<char>) -> Seq<Seq<char>>
    decreases s.len(),
{
    if s.len() == 0 {
        seq![seq![]]
    } else if s.last() == '\n' {
        split_lines(s.drop_last()).push(seq![])
    } else {
        let l = split_lines(s.drop_last());
        l.update(l.len() - 1, l.last().push(s.last()))
    }
}

proof fn lemma_split_lines_nonempty(s: Seq<char>)
    ensures
        split_lines(s).len() >= 1,
    decreases s.len(),
{
    if s.len() > 0 {
        lemma_split_lines_nonempty(s.drop_last());
    }
}

/// Adding the rules of a sequence of lines, in order.
pub open spec fn apply_lines(b: BlockerView, lines: Seq<Seq<char>>) -> BlockerView
    decreases lines.len(),
{
    if lines.len() == 0 {
        b
    } else {
        apply_line(apply_lines(b, lines.drop_last()), classify_line(lines.last()))
    }
}

/// Extract the lower-cased domain from a URL string.
pub fn extract_domain(url: &str) -> (r: String)
    ensures
        r@ == blocker_domain(url@),
{
    let u = chars_of(url);
    let h = host_text_exec(u.as_slice());
    let l = lower_of_chars(h.as_slice());
    string_from_chars(l.as_slice())
}

/// Check if a domain matches a rule domain (with subdomain matching).
pub fn domain_matches(actual: &str, rule: &str) -> (r: bool)
    ensures
        r == domain_matches_spec(actual@, rule@),
{
    let a = chars_of(actual);
    let rl = chars_of(rule);
    domain_matches_chars(a.as_slice(), rl.as_slice())
}

fn domain_matches_chars(a: &[char], rule: &[char]) -> (r: bool)
    ensures
        r == domain_matches_spec(a@, rule@),
{
    if chars_eq(a, rule) {
        return true;
    }
    let mut dotted: Vec<char> = Vec::new();
    dotted.push('.');
    push_chars(&mut dotted, rule);
    assert(dotted@ =~= seq!['.'] + rule@);
    ends_with_chars(a, dotted.as_slice())
}

fn any_domain_match(d: &[char], rules: &Vec<String>) -> (r: bool)
    ensures
        r == matches_any(d@, strs(rules@)),
{
    let mut i: usize = 0;
    while i < rules.len()
        invariant
            i <= rules@.len(),
            forall|k: int| 0 <= k < i ==> !domain_matches_spec(d@, #[trigger] strs(rules@)[k]),
        decreases rules@.len() - i,
    {
        let rc = chars_of(rules[i].as_str());
        if domain_matches_chars(d, rc.as_slice()) {
            assert(strs(rules@)[i as int] == rc@);
            return true;
        }
        assert(strs(rules@)[i as int] == rc@);
        i = i + 1;
    }
    false
}

fn any_pattern_hit(url: &[char], patterns: &Vec<String>) -> (r: bool)
    ensures
        r == pattern_hit(url@, strs(patterns@)),
{
    let mut i: usize = 0;
    while i < patterns.len()
        invariant
            i <= patterns@.len(),
            forall|k: int| 0 <= k < i ==> !contains(url@, #[trigger] strs(patterns@)[k]),
        decreases patterns@.len() - i,
    {
        let pc = chars_of(patterns[i].as_str());
        assert(strs(patterns@)[i as int] == pc@);
        if contains_chars(url, pc.as_slice()) {
            return true;
        }
        i = i + 1;
    }
    false
}

fn list_has(list: &Vec<String>, d: &[char]) -> (r: bool)
    ensures
        r == strs(list@).contains(d@),
{
    let mut i: usize = 0;
    while i < list.len()
        invariant
            i <= list@.len(),
            forall|k: int| 0 <= k < i ==> strs(list@)[k] != d@,
        decreases list@.len() - i,
    {
        let c = chars_of(list[i].as_str());
        assert(strs(list@)[i as int] == c@);
        if chars_eq(c.as_slice(), d) {
            return true;
        }
        i = i + 1;
    }
    false
}

fn push_unique(list: &mut Vec<String>, d: &str)
    ensures
        strs(final(list)@) == add_unique(strs(old(list)@), d@),
{
    let dc = chars_of(d);
    if !list_has(list, dc.as_slice()) {
        let ghost l0 = list@;
        let s = d.to_owned();
        list.push(s);
        assert(strs(l0.push(s)) =~= strs(l0).push(d@));
    }
}

impl ContentBlocker {
    pub closed spec fn wf(&self) -> bool {
        blocker_wf(self@)
    }

    /// Create a new content blocker from config: the configured domains,
    /// then the default trackers not already among them.
    pub fn new(config: &ContentBlockingConfig) -> (r: Self)
        ensures
            r.wf(),
            r@.blocked_domains == (if config.block_trackers {
                add_all_unique(strs(config.blocked_domains@), default_trackers())
            } else {
                strs(config.blocked_domains@)
            }),
            r@.blocked_patterns.len() == 0,
            r@.exception_domains.len() == 0,
            r@.enabled == config.enabled,
            r@.checked == 0 && r@.blocked == 0 && r@.allowed == 0,
    {
        let mut blocked_domains = clone_strings(&config.blocked_domains);
        if config.block_trackers {
            let defaults = default_tracker_list();
            let ghost start = strs(blocked_domains@);
            let mut i: usize = 0;
            while i < defaults.len()
                invariant
                    i <= defaults@.len(),
                    defaults@.map_values(|s: &str| s@) == default_trackers(),
                    strs(blocked_domains@) == add_all_unique(
                        start,
                        default_trackers().take(i as int),
                    ),
                decreases defaults@.len() - i,
            {
                push_unique(&mut blocked_domains, defaults[i]);
                proof {
                    assert(default_trackers().take(i + 1).drop_last() =~= default_trackers().take(
                        i as int,
                    ));
                    assert(default_trackers()[i as int] == defaults@[i as int]@);
                }
                i = i + 1;
            }
            assert(default_trackers().take(defaults@.len() as int) =~= default_trackers());
        }
        let r = Self {
            blocked_domains,
            blocked_patterns: Vec::new(),
            exception_domains: Vec::new(),
            enabled: config.enabled,
            stats: BlockStats { checked: 0, blocked: 0, allowed: 0 },
        };
        assert(strs(r.blocked_patterns@) =~= Seq::<Seq<char>>::empty());
        assert(strs(r.exception_domains@) =~= Seq::<Seq<char>>::empty());
        r
    }

    fn add_line(&mut self, raw: &[char])
        requires
            old(self).wf(),
        ensures
            final(self).wf(),
            final(self)@ == apply_line(old(self)@, classify_line(raw@)),
    {
        let line = trim_chars(raw);
        let ls = line.as_slice();
        if line.len() == 0 || line[0] == '!' || line[0] == '[' {
            return;
        }
        if starts_with_str(ls, "@@||") {
            let n = chars_of("@@||").len();
            let rest = slice_chars(ls, n, line.len());
            assert(rest@ =~= line@.skip("@@||"@.len() as int));
            let d = strip_trailing_exec(rest.as_slice(), '^');
            let ghost e0 = self.exception_domains@;
            let s = string_from_chars(d.as_slice());
            self.exception_domains.push(s);
            assert(strs(e0.push(s)) =~= strs(e0).push(d@));
            return;
        }
        if starts_with_str(ls, "||") {
            let n = chars_of("||").len();
            let rest = slice_chars(ls, n, line.len());
            assert(rest@ =~= line@.skip("||"@.len() as int));
            let d = strip_trailing_exec(rest.as_slice(), '^');
            if d.len() > 0 {
                let ghost b0 = self.blocked_domains@;
                let s = string_from_chars(d.as_slice());
                self.blocked_domains.push(s);
                assert(strs(b0.push(s)) =~= strs(b0).push(d@));
            }
            return;
        }
        if find_char_exec(ls, '$').is_none() && find_char_exec(ls, '#').is_none() {
            let ghost p0 = self.blocked_patterns@;
            let s = string_from_chars(ls);
            self.blocked_patterns.push(s);
            assert(strs(p0.push(s)) =~= strs(p0).push(line@));
        }
    }

    /// Load filter rules from an EasyList-format text, line by line.
    pub fn load_filter_list(&mut self, content: &str)
        requires
            old(self).wf(),
        ensures
            final(self).wf(),
            final(self)@ == apply_lines(old(self)@, split_lines(content@)),
    {
        let c = chars_of(content);
        let ghost b0 = self@;
        let mut cur: Vec<char> = Vec::new();
        let mut i: usize = 0;
        proof {
            assert(c@.take(0) =~= Seq::<char>::empty());
            assert(split_lines(c@.take(0)).drop_last() =~= Seq::<Seq<char>>::empty());
        }
        while i < c.len()
            invariant
                i <= c@.len(),
                c@ == content@,
                self.wf(),
                self@ == apply_lines(b0, split_lines(c@.take(i as int)).drop_last()),
                cur@ == split_lines(c@.take(i as int)).last(),
            decreases c@.len() - i,
        {
            let ch = c[i];
            proof {
                lemma_split_lines_nonempty(c@.take(i as int));
                assert(c@.take(i + 1).drop_last() =~= c@.take(i as int));
                assert(c@.take(i + 1).last() == ch);
            }
            if ch == '\n' {
                let ghost ls = split_lines(c@.take(i as int));
                self.add_line(cur.as_slice());
                cur = Vec::new();
                proof {
                    let ls2 = split_lines(c@.take(i + 1));
                    assert(ls2 == ls.push(seq![]));
                    assert(ls2.drop_last() =~= ls);
                    assert(ls.drop_last() =~= ls.take(ls.len() - 1));
                    assert(ls.last() == cur@ || true);
                }
            } else {
                cur.push(ch);
                proof {
                    let ls = split_lines(c@.take(i as int));
                    let ls2 = split_lines(c@.take(i + 1));
                    assert(ls2.drop_last() =~= ls.drop_last());
                }
            }
            i = i + 1;
        }
        proof {
            assert(c@.take(c@.len() as int) =~= c@);
            lemma_split_lines_nonempty(c@);
        }
        self.add_line(cur.as_slice());
        proof {
            let ls = split_lines(c@);
            assert(ls.drop_last() =~= ls.drop_last());
            assert(apply_lines(b0, ls) == apply_line(
                apply_lines(b0, ls.drop_last()),
                classify_line(ls.last()),
            ));
        }
    }

    /// Check if a URL should be blocked (`true` means block).  When enabled,
    /// the check is counted as blocked or allowed.
    pub fn should_block(&mut self, url: &str) -> (r: bool)
        requires
            old(self).wf(),
            old(self)@.enabled ==> old(self)@.checked < u64::MAX,
        ensures
            final(self).wf(),
            r == (old(self)@.enabled && blocks(old(self)@, url@)),
            final(self)@ == after_check(old(self)@, url@),
    {
        if !self.enabled {
            return false;
        }
        self.stats.checked = self.stats.checked + 1;
        let u = chars_of(url);
        let h = host_text_exec(u.as_slice());
        let domain = lower_of_chars(h.as_slice());
        if any_domain_match(domain.as_slice(), &self.exception_domains) {
            self.stats.allowed = self.stats.allowed + 1;
            return false;
        }
        if any_domain_match(domain.as_slice(), &self.blocked_domains) {
            self.stats.blocked = self.stats.blocked + 1;
            return true;
        }
        if any_pattern_hit(u.as_slice(), &self.blocked_patterns) {
            self.stats.blocked = self.stats.blocked + 1;
            return true;
        }
        self.stats.allowed = self.stats.allowed + 1;
        false
    }

    /// Add a domain to the block list (once).
    pub fn block_domain(&mut self, domain: &str)
        requires
            old(self).wf(),
        ensures
            final(self).wf(),
            final(self)@ == (BlockerView {
                blocked_domains: add_unique(old(self)@.blocked_domains, domain@),
                ..old(self)@
            }),
    {
        push_unique(&mut self.blocked_domains, domain);
    }

    /// Remove a domain from the block list.
    pub fn unblock_domain(&mut self, domain: &str)
        requires
            old(self).wf(),
        ensures
            final(self).wf(),
            final(self)@ == (BlockerView {
                blocked_domains: old(self)@.blocked_domains.filter(|d: Seq<char>| d != domain@),
                ..old(self)@
            }),
    {
        let dc = chars_of(domain);
        let ghost pred = |d: Seq<char>| d != domain@;
        let ghost all = strs(self.blocked_domains@);
        let mut old_list: Vec<String> = Vec::new();
        std::mem::swap(&mut old_list, &mut self.blocked_domains);
        let mut kept: Vec<String> = Vec::new();
        let n = old_list.len();
        let mut i: usize = 0;
        while i < n
            invariant
                i <= n == old_list@.len(),
                all == strs(old_list@),
                dc@ == domain@,
                pred == (|d: Seq<char>| d != domain@),
                strs(kept@) == all.take(i as int).filter(pred),
            decreases n - i,
        {
            let c = chars_of(old_list[i].as_str());
            proof {
                reveal_with_fuel(Seq::filter, 1);
                assert(all.take(i + 1).drop_last() =~= all.take(i as int));
                assert(all[i as int] == c@);
            }
            if !chars_eq(c.as_slice(), dc.as_slice()) {
                let ghost k0 = kept@;
                let s = string_from_chars(c.as_slice());
                kept.push(s);
                assert(strs(k0.push(s)) =~= strs(k0).push(c@));
            }
            i = i + 1;
        }
        assert(all.take(n as int) =~= all);
        self.blocked_domains = kept;
    }

    /// Get current blocking statistics.
    pub fn stats(&self) -> (r: &BlockStats)
        ensures
            r.checked == self@.checked,
            r.blocked == self@.blocked,
            r.allowed == self@.allowed,
    {
        &self.stats
    }

    /// Reset statistics.
    pub fn reset_stats(&mut self)
        ensures
            final(self).wf(),
            final(self)@ == (BlockerView { checked: 0, blocked: 0, allowed: 0, ..old(self)@ }),
    {
        self.stats = BlockStats { checked: 0, blocked: 0, allowed: 0 };
    }

    /// Enable or disable blocking.
    pub fn set_enabled(&mut self, enabled: bool)
        requires
            old(self).wf(),
        ensures
            final(self).wf(),
            final(self)@ == (BlockerView { enabled: enabled, ..old(self)@ }),
    {
        self.enabled = enabled;
    }

    /// Check if blocking is enabled.
    pub fn is_enabled(&self) -> (r: bool)
        ensures
            r == self@.enabled,
    {
        self.enabled
    }

    /// Get the number of blocked domains.
    pub fn blocked_domain_count(&self) -> (r: usize)
        ensures
            r == self@.blocked_domains.len(),
    {
        self.blocked_domains.len()
    }
}

// ---------------------------------------------------------------------------
// Laws
// ---------------------------------------------------------------------------

/// A disabled blocker blocks nothing and counts nothing.
pub proof fn law_disabled_blocks_nothing(b: BlockerView, url: Seq<char>)
    requires
        !b.enabled,
    ensures
        after_check(b, url) == b,
{
}

/// Every check is counted once, as a block or an allow.
pub proof fn law_check_counts(b: BlockerView, url: Seq<char>)
    requires
        blocker_wf(b),
        b.enabled,
        b.checked < u64::MAX,
    ensures
        blocker_wf(after_check(b, url)),
        after_check(b, url).checked == b.checked + 1,
        blocks(b, url) ==> after_check(b, url).blocked == b.blocked + 1 && after_check(b, url).allowed
            == b.allowed,
        !blocks(b, url) ==> after_check(b, url).allowed == b.allowed + 1 && after_check(b, url).blocked
            == b.blocked,
        after_check(b, url).blocked_domains == b.blocked_domains,
        after_check(b, url).blocked_patterns == b.blocked_patterns,
        after_check(b, url).exception_domains == b.exception_domains,
        after_check(b, url).enabled == b.enabled,
{
}

/// Once a domain is on the block list, a URL on it or on one of its
/// subdomains is blocked unless an exception covers it.
pub proof fn law_blocked_domain_blocks(b: BlockerView, domain: Seq<char>, url: Seq<char>)
    requires
        domain_matches_spec(blocker_domain(url), domain),
        !matches_any(blocker_domain(url), b.exception_domains),
    ensures
        blocks(BlockerView { blocked_domains: add_unique(b.blocked_domains, domain), ..b }, url),
{
    let l = add_unique(b.blocked_domains, domain);
    if b.blocked_domains.contains(domain) {
        let k = choose|k: int| 0 <= k < b.blocked_domains.len() && b.blocked_domains[k] == domain;
        assert(domain_matches_spec(blocker_domain(url), l[k]));
    } else {
        assert(domain_matches_spec(blocker_domain(url), l[l.len() - 1]));
    }
}

/// After unblocking a domain it is no longer on the block list.
pub proof fn law_unblock_removes(b: BlockerView, domain: Seq<char>)
    ensures
        !b.blocked_domains.filter(|d: Seq<char>| d != domain).contains(domain),
{
    b.blocked_domains.filter_lemma(|d: Seq<char>| d != domain);
}

/// An exception rule for the URL's domain, or for a domain it is a
/// subdomain of, lets the URL through whatever other rule matches it: the
/// check blocks nothing and counts no block.
pub proof fn law_exception_allows(b: BlockerView, url: Seq<char>, i: int)
    requires
        0 <= i < b.exception_domains.len(),
        blocker_domain(url) == b.exception_domains[i] || ends_with(
            blocker_domain(url),
            seq!['.'] + b.exception_domains[i],
        ),
    ensures
        !blocks(b, url),
        after_check(b, url).blocked == b.blocked,
{
    assert(domain_matches_spec(blocker_domain(url), b.exception_domains[i]));
}

/// A URL in which a pattern rule occurs is blocked, unless an exception
/// covers its domain.
pub proof fn law_pattern_blocks(b: BlockerView, url: Seq<char>, i: int)
    requires
        0 <= i < b.blocked_patterns.len(),
        contains(url, b.blocked_patterns[i]),
        forall|j: int|
            0 <= j < b.exception_domains.len() ==> blocker_domain(url) != #[trigger] b.exception_domains[j]
                && !ends_with(blocker_domain(url), seq!['.'] + b.exception_domains[j]),
    ensures
        blocks(b, url),
        b.enabled && b.blocked < u64::MAX ==> after_check(b, url).blocked == b.blocked + 1,
{
    assert(pattern_hit(url, b.blocked_patterns));
}

/// A URL is blocked only for a reason: a domain rule matches its domain or
/// one of its parent domains, or a pattern rule occurs in it.
pub proof fn law_blocked_for_a_rule(b: BlockerView, url: Seq<char>)
    requires
        blocks(b, url),
    ensures
        (exists|i: int|
            0 <= i < b.blocked_domains.len() && (blocker_domain(url) == #[trigger] b.blocked_domains[i]
                || ends_with(blocker_domain(url), seq!['.'] + b.blocked_domains[i])))
            || (exists|i: int| 0 <= i < b.blocked_patterns.len() && contains(url, #[trigger] b.blocked_patterns[i])),
{
}

proof fn lemma_split_single_line(s: Seq<char>)
    requires
        forall|k: int| 0 <= k < s.len() ==> #[trigger] s[k] != '\n',
    ensures
        split_lines(s) == seq![s],
    decreases s.len(),
{
    if s.len() == 0 {
        assert(s =~= Seq::<char>::empty());
    } else {
        let t = s.drop_last();
        assert forall|k: int| 0 <= k < t.len() implies #[trigger] t[k] != '\n' by {
            assert(t[k] == s[k]);
        }
        lemma_split_single_line(t);
        assert(s.last() == s[s.len() - 1]);
        assert(s.last() != '\n');
        assert(t.push(s.last()) =~= s);
        assert(seq![t].last() == t);
        assert(seq![t].update(0, s) =~= seq![s]);
    }
}

proof fn lemma_clean_line(line: Seq<char>)
    requires
        line.len() > 0,
        forall|k: int| 0 <= k < line.len() ==> !is_ws_spec(#[trigger] line[k]),
    ensures
        trim(line) == line,
        split_lines(line) == seq![line],
{
    assert(!is_ws_spec(line[0]));
    assert(!is_ws_spec(line.last()));
    lemma_trim_clean(line);
    assert(is_ws_spec('\n'));
    lemma_split_single_line(line);
}

/// A filter list of one line adds that line's rule: `@@||d^` an exception
/// for the domain `d`, `||d^` a blocked domain `d`, and a line that is not a
/// comment (`!`), a header (`[`) or an option or element rule (`$`, `#`) a
/// blocked pattern; comment and header lines add nothing.
pub proof fn law_filter_lines(b: BlockerView, d: Seq<char>, p: Seq<char>, c: Seq<char>)
    requires
        d.len() > 0,
        forall|k: int| 0 <= k < d.len() ==> !is_ws_spec(#[trigger] d[k]) && d[k] != '^',
        p.len() > 0,
        forall|k: int| 0 <= k < p.len() ==> !is_ws_spec(#[trigger] p[k]) && p[k] != '$' && p[k] != '#',
        p[0] != '!' && p[0] != '[' && p[0] != '@' && p[0] != '|',
        forall|k: int| 0 <= k < c.len() ==> !is_ws_spec(#[trigger] c[k]),
    ensures
        apply_lines(b, split_lines("@@||"@ + d + "^"@)) == (BlockerView {
            exception_domains: b.exception_domains.push(d),
            ..b
        }),
        apply_lines(b, split_lines("||"@ + d + "^"@)) == (BlockerView {
            blocked_domains: b.blocked_domains.push(d),
            ..b
        }),
        apply_lines(b, split_lines(p)) == (BlockerView { blocked_patterns: b.blocked_patterns.push(p), ..b }),
        apply_lines(b, split_lines(seq!['!'] + c)) == b,
        apply_lines(b, split_lines(seq!['['] + c)) == b,
{
    reveal_strlit("@@||");
    reveal_strlit("||");
    reveal_strlit("^");
    assert(is_ws_spec('\n'));
    // `@@||d^`
    let e = "@@||"@ + d + "^"@;
    assert forall|k: int| 0 <= k < e.len() implies !is_ws_spec(#[trigger] e[k]) by {
        if 4 <= k < 4 + d.len() {
            assert(e[k] == d[k - 4]);
        }
    }
    lemma_clean_line(e);
    assert(e.take(4) =~= "@@||"@);
    assert(e.skip(4) =~= d + "^"@);
    assert((d + "^"@).drop_last() =~= d);
    assert(strip_trailing(d, '^') == d) by {
        assert(d.last() == d[d.len() - 1]);
    }
    assert(strip_trailing(d + "^"@, '^') == d);
    assert(classify_line(e) == FilterLine::Exception(d));
    // `||d^`
    let f = "||"@ + d + "^"@;
    assert forall|k: int| 0 <= k < f.len() implies !is_ws_spec(#[trigger] f[k]) by {
        if 2 <= k < 2 + d.len() {
            assert(f[k] == d[k - 2]);
        }
    }
    lemma_clean_line(f);
    assert(f.take(2) =~= "||"@);
    assert(f.skip(2) =~= d + "^"@);
    assert(!starts_with(f, "@@||"@)) by {
        assert(f.take(4)[0] == f[0]);
    }
    assert(classify_line(f) == FilterLine::Domain(d));
    // a pattern
    lemma_clean_line(p);
    assert(!starts_with(p, "@@||"@)) by {
        if p.len() >= 4 {
            assert(p.take(4)[0] == p[0]);
        }
    }
    assert(!starts_with(p, "||"@)) by {
        if p.len() >= 2 {
            assert(p.take(2)[0] == p[0]);
        }
    }
    lemma_find_char(p, '$');
    lemma_find_char(p, '#');
    assert(classify_line(p) == FilterLine::Pattern(p));
    // comments and headers
    let g = seq!['!'] + c;
    let h = seq!['['] + c;
    assert forall|k: int| 0 <= k < g.len() implies !is_ws_spec(#[trigger] g[k]) by {
        if k > 0 {
            assert(g[k] == c[k - 1]);
        }
    }
    assert forall|k: int| 0 <= k < h.len() implies !is_ws_spec(#[trigger] h[k]) by {
        if k > 0 {
            assert(h[k] == c[k - 1]);
        }
    }
    lemma_clean_line(g);
    lemma_clean_line(h);
    assert(seq![e].drop_last() =~= Seq::<Seq<char>>::empty());
    assert(seq![e].last() == e);
    assert(apply_lines(b, seq![e].drop_last()) == b);
    assert(apply_lines(b, seq![e]) == apply_line(b, classify_line(e)));
    assert(seq![f].drop_last() =~= Seq::<Seq<char>>::empty());
    assert(seq![f].last() == f);
    assert(apply_lines(b, seq![f].drop_last()) == b);
    assert(apply_lines(b, seq![f]) == apply_line(b, classify_line(f)));
    assert(seq![p].drop_last() =~= Seq::<Seq<char>>::empty());
    assert(apply_lines(b, seq![p]) == apply_line(b, classify_line(p)));
    assert(seq![g].drop_last() =~= Seq::<Seq<char>>::empty());
    assert(apply_lines(b, seq![g]) == apply_line(b, classify_line(g)));
    assert(seq![h].drop_last() =~= Seq::<Seq<char>>::empty());
    assert(apply_lines(b, seq![h]) == apply_line(b, classify_line(h)));
}

} // verus!
