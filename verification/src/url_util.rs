//! URL utilities -- resolution, normalization and display.
//!
//! Parsing and joining URLs is done by the `url` crate; everything around
//! those calls is stated and proved here.
use vstd::prelude::*;
use crate::text::{
    chars_of, find_char, find_char_exec, index_of, index_of_exec, occurs_at, prefix_before,
    prefix_before_exec, push_chars, push_str, slice_chars, starts_with, starts_with_str,
    string_from_chars, trim, trim_chars, contains, contains_chars, lemma_find_char, is_ws_spec,
    lemma_index_of, lemma_trim_ends, lemma_trim_clean, lemma_byte_len_push, char_width, byte_len,
    prefix_within, prefix_within_exec, lemma_prefix_within, lemma_byte_len_take, lemma_byte_len_add,
};
use vstd::utf8::encode_utf8;
use vstd::string::StringSliceAdditionalSpecFns;

verus! {

/// The part of a URL after its first `://`, up to any further `://`; the
/// whole text when there is none (`split("://").nth(1).unwrap_or(url)`).
pub open spec fn after_scheme(u: Seq<char>) -> Seq<char> {
    match index_of(u, "://"@) {
        Some(i) => {
            let rest = u.skip(i + "://"@.len());
            match index_of(rest, "://"@) {
                Some(j) => rest.take(j),
                None => rest,
            }
        },
        None => u,
    }
}

/// The host written in a URL, found by splitting the text: after the
/// scheme, before the first `/` and the first `:`.
pub open spec fn host_text(u: Seq<char>) -> Seq<char> {
    prefix_before(prefix_before(after_scheme(u), '/'), ':')
}

pub fn after_scheme_exec(u: &[char]) -> (r: Vec<char>)
    ensures
        r@ == after_scheme(u@),
{
    let sep = chars_of("://");
    match index_of_exec(u, sep.as_slice()) {
        Some(i) => {
            assert(occurs_at(u@, sep@, i as int));
            assert(u@.len() == u.len() && sep@.len() == sep.len());
            let rest = slice_chars(u, i + sep.len(), u.len());
            assert(rest@ =~= u@.skip(i + sep@.len()));
            match index_of_exec(rest.as_slice(), sep.as_slice()) {
                Some(j) => {
                    let r = slice_chars(rest.as_slice(), 0, j);
                    assert(r@ =~= rest@.take(j as int));
                    r
                },
                None => rest,
            }
        },
        None => slice_chars(u, 0, u.len()),
    }
}

pub fn host_text_exec(u: &[char]) -> (r: Vec<char>)
    ensures
        r@ == host_text(u@),
{
    let a = after_scheme_exec(u);
    let b = prefix_before_exec(a.as_slice(), '/');
    prefix_before_exec(b.as_slice(), ':')
}

/// The text of a URL before its first `://`, or all of it
/// (`split("://").next()`).
pub open spec fn scheme_part(u: Seq<char>) -> Seq<char> {
    match index_of(u, "://"@) {
        Some(i) => u.take(i),
        None => u,
    }
}

/// Links that are kept as written: special schemes and absolute http(s) URLs.
pub open spec fn kept_as_written(href: Seq<char>) -> bool {
    ||| starts_with(href, "about:"@)
    ||| starts_with(href, "data:"@)
    ||| starts_with(href, "javascript:"@)
    ||| starts_with(href, "mailto:"@)
    ||| starts_with(href, "http://"@)
    ||| starts_with(href, "https://"@)
}

/// How a link resolves without parsing the base: `None` when the base URL
/// has to be parsed and the link joined to it.
pub open spec fn resolve_direct(base: Seq<char>, href: Seq<char>) -> Option<Seq<char>> {
    if kept_as_written(href) {
        Some(href)
    } else if starts_with(href, "//"@) {
        Some(scheme_part(base) + ":"@ + href)
    } else {
        None
    }
}

/// The serialization of `href` joined to the parsed `base` URL, as the `url`
/// crate computes it; `None` when the base does not parse or the join fails.
pub uninterp spec fn url_join(base: Seq<char>, href: Seq<char>) -> Option<Seq<char>>;

/// The resolved form of a link found on the page at `base`.
pub open spec fn resolved(base: Seq<char>, href: Seq<char>) -> Seq<char> {
    match resolve_direct(base, href) {
        Some(r) => r,
        None => match url_join(base, href) {
            Some(j) => j,
            None => href,
        },
    }
}

/// `url::Url::parse(base)` followed by `Url::join(href)` and the joined
/// URL's serialization. Claims only that the result is the value named
/// `url_join` of the two arguments.
#[verifier::external_body]
fn join_url(base: &str, href: &str) -> (r: Option<String>)
    ensures
        match r {
            Some(s) => url_join(base@, href@) == Some(s@),
            None => url_join(base@, href@) is None,
        },
{
    match url::Url::parse(base) {
        Ok(b) => match b.join(href) {
            Ok(u) => Some(u.to_string()),
            Err(_) => None,
        },
        Err(_) => None,
    }
}

/// Resolves a link without the URL parser where that is possible:
/// special schemes and absolute links stay as written, protocol-relative
/// links take the base's scheme; `None` for a link relative to the base.
pub fn resolve_direct_exec(base: &str, href: &str) -> (r: Option<String>)
    ensures
        match r {
            Some(s) => resolve_direct(base@, href@) == Some(s@),
            None => resolve_direct(base@, href@) is None,
        },
{
    let h = chars_of(href);
    if starts_with_str(h.as_slice(), "about:") || starts_with_str(h.as_slice(), "data:")
        || starts_with_str(h.as_slice(), "javascript:") || starts_with_str(h.as_slice(), "mailto:")
        || starts_with_str(h.as_slice(), "http://") || starts_with_str(h.as_slice(), "https://") {
        return Some(string_from_chars(h.as_slice()));
    }
    if starts_with_str(h.as_slice(), "//") {
        let b = chars_of(base);
        let sep = chars_of("://");
        let mut out: Vec<char> = match index_of_exec(b.as_slice(), sep.as_slice()) {
            Some(i) => {
                let t = slice_chars(b.as_slice(), 0, i);
                assert(t@ =~= b@.take(i as int));
                t
            },
            None => b,
        };
        push_str(&mut out, ":");
        push_chars(&mut out, h.as_slice());
        return Some(string_from_chars(out.as_slice()));
    }
    None
}

/// Resolve a possibly-relative URL against a base URL.
///
/// If the input is already absolute, it's returned as-is.
/// If relative, it's resolved against the base.
pub fn resolve_url(base: &str, href: &str) -> (r: String)
    ensures
        r@ == resolved(base@, href@),
{
    match resolve_direct_exec(base, href) {
        Some(r) => r,
        None => match join_url(base, href) {
            Some(j) => j,
            None => href.to_owned(),
        },
    }
}

/// `s` with every occurrence of `pat` replaced by `rep`, left to right
/// (`str::replace` for a non-empty pattern).
pub open spec fn replace_all(s: Seq<char>, pat: Seq<char>, rep: Seq<char>) -> Seq<char>
    decreases s.len(),
{
    if pat.len() == 0 {
        s
    } else {
        match index_of(s, pat) {
            Some(i) => if 0 <= i && i + pat.len() <= s.len() {
                s.take(i) + rep + replace_all(s.skip(i + pat.len()), pat, rep)
            } else {
                s
            },
            None => s,
        }
    }
}

/// Replaces every occurrence of the non-empty `pat` in `s` by `rep`.
pub fn replace_all_exec(s: &[char], pat: &[char], rep: &[char]) -> (r: Vec<char>)
    requires
        pat@.len() > 0,
    ensures
        r@ == replace_all(s@, pat@, rep@),
{
    let mut out: Vec<char> = Vec::new();
    let mut rest = slice_chars(s, 0, s.len());
    assert(rest@ =~= s@);
    loop
        invariant
            pat@.len() > 0,
            out@ + replace_all(rest@, pat@, rep@) == replace_all(s@, pat@, rep@),
        decreases rest@.len(),
    {
        match index_of_exec(rest.as_slice(), pat) {
            Some(i) => {
                let ghost r0 = rest@;
                let ghost o0 = out@;
                assert(occurs_at(r0, pat@, i as int));
                assert(r0.len() == rest.len() && pat@.len() == pat.len());
                let head = slice_chars(rest.as_slice(), 0, i);
                assert(head@ =~= r0.take(i as int));
                push_chars(&mut out, head.as_slice());
                push_chars(&mut out, rep);
                let tail = slice_chars(rest.as_slice(), i + pat.len(), rest.len());
                assert(tail@ =~= r0.skip(i + pat@.len()));
                rest = tail;
                assert(replace_all(r0, pat@, rep@) == r0.take(i as int) + rep@ + replace_all(
                    rest@,
                    pat@,
                    rep@,
                ));
                assert((o0 + r0.take(i as int) + rep@) + replace_all(rest@, pat@, rep@) =~= o0 + (
                r0.take(i as int) + rep@ + replace_all(rest@, pat@, rep@)));
            },
            None => {
                push_chars(&mut out, rest.as_slice());
                return out;
            },
        }
    }
}

/// Bytes that URL encoding keeps as they are: ASCII letters, digits and
/// `-`, `_`, `.`, `~`.
pub open spec fn unreserved(b: u8) -> bool {
    ||| (65 <= b && b <= 90)
    ||| (97 <= b && b <= 122)
    ||| (48 <= b && b <= 57)
    ||| b == 45
    ||| b == 95
    ||| b == 46
    ||| b == 126
}

/// Upper-case hexadecimal digit of a value below 16.
pub open spec fn hex_digit(n: u8) -> char {
    if n < 10 {
        (n + 48) as char
    } else {
        (n + 55) as char
    }
}

/// The encoding of one byte: itself, `+` for a space, `%XX` otherwise.
pub open spec fn encode_byte(b: u8) -> Seq<char> {
    if unreserved(b) {
        seq![b as char]
    } else if b == 32 {
        seq!['+']
    } else {
        seq!['%', hex_digit(b / 16), hex_digit(b % 16)]
    }
}

/// The query-parameter encoding of a byte string.
pub open spec fn url_encoded(bytes: Seq<u8>) -> Seq<char>
    decreases bytes.len(),
{
    if bytes.len() == 0 {
        seq![]
    } else {
        url_encoded(bytes.drop_last()) + encode_byte(bytes.last())
    }
}

fn hex_digit_exec(n: u8) -> (c: char)
    requires
        n < 16,
    ensures
        c == hex_digit(n),
{
    if n < 10 {
        let d: u8 = n + 48;
        d as char
    } else {
        let d: u8 = n + 55;
        d as char
    }
}

fn encode_byte_exec(out: &mut Vec<char>, b: u8)
    ensures
        final(out)@ == old(out)@ + encode_byte(b),
{
    if (65 <= b && b <= 90) || (97 <= b && b <= 122) || (48 <= b && b <= 57) || b == 45 || b
        == 95 || b == 46 || b == 126 {
        out.push(b as char);
        assert(out@ =~= old(out)@ + encode_byte(b));
    } else if b == 32 {
        out.push('+');
        assert(out@ =~= old(out)@ + encode_byte(b));
    } else {
        out.push('%');
        out.push(hex_digit_exec(b / 16));
        out.push(hex_digit_exec(b % 16));
        assert(out@ =~= old(out)@ + encode_byte(b));
    }
}

/// URL-encode a string for use in query parameters: its UTF-8 bytes, each
/// kept, turned into `+` (a space) or written as `%XX`.
pub fn url_encode(s: &str) -> (r: String)
    ensures
        r@ == url_encoded(encode_utf8(s@)),
{
    let bytes = s.as_bytes();
    let mut out: Vec<char> = Vec::new();
    let mut i: usize = 0;
    while i < bytes.len()
        invariant
            i <= bytes@.len(),
            bytes@ == encode_utf8(s@),
            out@ == url_encoded(bytes@.take(i as int)),
        decreases bytes@.len() - i,
    {
        assert(bytes@.take(i + 1).drop_last() =~= bytes@.take(i as int));
        encode_byte_exec(&mut out, bytes[i]);
        i = i + 1;
    }
    assert(bytes@.take(i as int) =~= bytes@);
    string_from_chars(out.as_slice())
}

/// Input that is already a full URL.
pub open spec fn is_full_url(t: Seq<char>) -> bool {
    ||| starts_with(t, "http://"@)
    ||| starts_with(t, "https://"@)
    ||| starts_with(t, "about:"@)
    ||| starts_with(t, "file://"@)
}

/// Input that looks like a host: a dot and no space, `localhost...`, or a
/// `://` anywhere.
pub open spec fn looks_like_host(t: Seq<char>) -> bool {
    ||| (find_char(t, '.') is Some && find_char(t, ' ') is None)
    ||| starts_with(t, "localhost"@)
    ||| contains(t, "://"@)
}

/// Where the browser goes for what the user typed.
pub open spec fn normalized(input: Seq<char>, search_engine: Seq<char>) -> Seq<char> {
    let t = trim(input);
    if t.len() == 0 {
        "about:blank"@
    } else if is_full_url(t) {
        t
    } else if looks_like_host(t) {
        "https://"@ + t
    } else {
        replace_all(search_engine, "%s"@, url_encoded(encode_utf8(t)))
    }
}

/// Normalize a user-entered URL or search query.
///
/// - If it looks like a URL (has a dot and no spaces), add https://
/// - If it's already a full URL, return as-is
/// - Otherwise, treat it as a search query
pub fn normalize_input(input: &str, search_engine: &str) -> (r: String)
    ensures
        r@ == normalized(input@, search_engine@),
{
    let all = chars_of(input);
    let t = trim_chars(all.as_slice());
    if t.len() == 0 {
        return "about:blank".to_owned();
    }
    let tv = t.as_slice();
    if starts_with_str(tv, "http://") || starts_with_str(tv, "https://") || starts_with_str(
        tv,
        "about:",
    ) || starts_with_str(tv, "file://") {
        return string_from_chars(tv);
    }
    let sep = chars_of("://");
    let has_dot = match find_char_exec(tv, '.') {
        Some(_) => true,
        None => false,
    };
    let has_space = match find_char_exec(tv, ' ') {
        Some(_) => true,
        None => false,
    };
    proof {
        lemma_find_char(t@, '.');
        lemma_find_char(t@, ' ');
    }
    if (has_dot && !has_space) || starts_with_str(tv, "localhost") || contains_chars(
        tv,
        sep.as_slice(),
    ) {
        let mut out = chars_of("https://");
        push_chars(&mut out, tv);
        return string_from_chars(out.as_slice());
    }
    let ts = string_from_chars(tv);
    let enc = url_encode(ts.as_str());
    let ev = chars_of(enc.as_str());
    let engine = chars_of(search_engine);
    let pat = chars_of("%s");
    proof {
        reveal_strlit("%s");
    }
    let r = replace_all_exec(engine.as_slice(), pat.as_slice(), ev.as_slice());
    string_from_chars(r.as_slice())
}

/// The host that the `url` crate parses out of a URL: `None` when the URL
/// does not parse, `Some(None)` when it parses with no host.
pub uninterp spec fn parsed_host(url: Seq<char>) -> Option<Option<Seq<char>>>;

/// The view of a parsed host.
pub open spec fn host_view(p: Option<Option<String>>) -> Option<Option<Seq<char>>> {
    match p {
        Some(Some(h)) => Some(Some(h@)),
        Some(None) => Some(None),
        None => None,
    }
}

/// `url::Url::parse` followed by `Url::host_str`. Claims only that the
/// result is the value named `parsed_host` of the argument.
#[verifier::external_body]
fn parse_host(url: &str) -> (r: Option<Option<String>>)
    ensures
        host_view(r) == parsed_host(url@),
{
    match url::Url::parse(url) {
        Ok(u) => Some(u.host_str().map(|h| h.to_string())),
        Err(_) => None,
    }
}

/// The domain of a URL given what the URL parser made of it: the parsed
/// host, empty for a URL without one, and the host text found by splitting
/// when the URL does not parse.
pub open spec fn domain_of(url: Seq<char>, parsed: Option<Option<Seq<char>>>) -> Seq<char> {
    match parsed {
        Some(Some(h)) => h,
        Some(None) => seq![],
        None => host_text(url),
    }
}

/// The domain of `url`, given the parser's answer for it.
pub fn domain_from_parse(url: &str, parsed: Option<Option<String>>) -> (r: String)
    ensures
        r@ == domain_of(url@, host_view(parsed)),
{
    match parsed {
        Some(Some(h)) => h,
        Some(None) => String::new(),
        None => {
            let u = chars_of(url);
            let h = host_text_exec(u.as_slice());
            string_from_chars(h.as_slice())
        },
    }
}

/// Extract the domain from a URL.
pub fn extract_domain(url: &str) -> (r: String)
    ensures
        r@ == domain_of(url@, parsed_host(url@)),
{
    let parsed = parse_host(url);
    domain_from_parse(url, parsed)
}

/// Check if a URL is HTTPS.
pub fn is_https(url: &str) -> (r: bool)
    ensures
        r == starts_with(url@, "https://"@),
{
    let u = chars_of(url);
    starts_with_str(u.as_slice(), "https://")
}

/// Check if a URL is a special internal page.
pub fn is_internal(url: &str) -> (r: bool)
    ensures
        r == starts_with(url@, "about:"@),
{
    let u = chars_of(url);
    starts_with_str(u.as_slice(), "about:")
}

/// A URL without its `https://` or `http://` prefix and one trailing `/`.
pub open spec fn display_base(u: Seq<char>) -> Seq<char> {
    let c = if starts_with(u, "https://"@) {
        u.skip("https://"@.len() as int)
    } else if starts_with(u, "http://"@) {
        u.skip("http://"@.len() as int)
    } else {
        u
    };
    if c.len() > 0 && c.last() == '/' {
        c.drop_last()
    } else {
        c
    }
}

/// The display form of a URL in at most `max_len` bytes; when it is longer,
/// the characters that fit in `max_len - 3` bytes, then an ellipsis.
pub open spec fn displayed(u: Seq<char>, max_len: nat) -> Seq<char> {
    let c = display_base(u);
    if byte_len(c) <= max_len {
        c
    } else {
        c.take(prefix_within(c, if max_len >= 3 { (max_len - 3) as nat } else { 0 }) as int) + "..."@
    }
}

/// Get a display-friendly version of a URL (truncated for UI).
pub fn display_url(url: &str, max_len: usize) -> (r: String)
    ensures
        r@ == displayed(url@, max_len as nat),
{
    let u = chars_of(url);
    let uv = u.as_slice();
    let https = chars_of("https://");
    let http = chars_of("http://");
    let c = if starts_with_str(uv, "https://") {
        slice_chars(uv, https.len(), u.len())
    } else if starts_with_str(uv, "http://") {
        slice_chars(uv, http.len(), u.len())
    } else {
        slice_chars(uv, 0, u.len())
    };
    assert(c@ =~= (if starts_with(url@, "https://"@) {
        url@.skip("https://"@.len() as int)
    } else if starts_with(url@, "http://"@) {
        url@.skip("http://"@.len() as int)
    } else {
        url@
    }));
    let c = if c.len() > 0 && c[c.len() - 1] == '/' {
        let d = slice_chars(c.as_slice(), 0, c.len() - 1);
        assert(d@ =~= c@.drop_last());
        d
    } else {
        c
    };
    let fit = prefix_within_exec(c.as_slice(), max_len);
    proof {
        lemma_prefix_within(c@, max_len as nat);
        if fit == c@.len() {
            assert(c@.take(fit as int) =~= c@);
        } else {
            lemma_byte_len_take(c@, fit + 1);
        }
    }
    if fit == c.len() {
        string_from_chars(c.as_slice())
    } else {
        let budget: usize = if max_len >= 3 { max_len - 3 } else { 0 };
        let k = prefix_within_exec(c.as_slice(), budget);
        proof {
            lemma_prefix_within(c@, budget as nat);
        }
        let mut out = slice_chars(c.as_slice(), 0, k);
        assert(out@ =~= c@.take(k as int));
        push_str(&mut out, "...");
        string_from_chars(out.as_slice())
    }
}


/// Absolute links and links with a special scheme resolve to themselves,
/// whatever the base.
pub proof fn law_absolute_links_unchanged(base: Seq<char>, href: Seq<char>)
    requires
        kept_as_written(href),
    ensures
        resolved(base, href) == href,
{
}

/// Input that is already a full URL, with no surrounding whitespace, is
/// left as it is.
pub proof fn law_full_url_unchanged(input: Seq<char>, search_engine: Seq<char>)
    requires
        trim(input) == input,
        is_full_url(input),
    ensures
        normalized(input, search_engine) == input,
{
    if input.len() == 0 {
        assert(starts_with(input, "http://"@) ==> "http://"@.len() <= 0);
        reveal_strlit("http://");
        reveal_strlit("https://");
        reveal_strlit("about:");
        reveal_strlit("file://");
    }
}

proof fn lemma_replace_all_keeps_prefix(s: Seq<char>, pat: Seq<char>, rep: Seq<char>, p: Seq<char>)
    requires
        pat.len() > 0,
        starts_with(s, p),
        forall|k: int| 0 <= k < p.len() ==> p[k] != pat[0],
    ensures
        starts_with(replace_all(s, pat, rep), p),
{
    lemma_index_of(s, pat);
    match index_of(s, pat) {
        Some(i) => {
            if 0 <= i && i + pat.len() <= s.len() {
                assert(s[i] == pat[0]) by {
                    assert(s.subrange(i, i + pat.len())[0] == s[i]);
                }
                if i < p.len() {
                    assert(s.take(p.len() as int)[i] == s[i]);
                    assert(p[i] != pat[0]);
                }
                let r = replace_all(s, pat, rep);
                assert(r == s.take(i) + rep + replace_all(s.skip(i + pat.len()), pat, rep));
                assert(r.take(p.len() as int) =~= s.take(p.len() as int));
            }
        },
        None => {},
    }
}

proof fn lemma_replace_all_last(s: Seq<char>, pat: Seq<char>, rep: Seq<char>)
    requires
        pat.len() > 0,
        rep.len() > 0,
        forall|k: int| 0 <= k < rep.len() ==> !is_ws_spec(#[trigger] rep[k]),
        s.len() > 0,
        !is_ws_spec(s.last()),
    ensures
        replace_all(s, pat, rep).len() > 0,
        !is_ws_spec(replace_all(s, pat, rep).last()),
    decreases s.len(),
{
    match index_of(s, pat) {
        Some(i) => {
            if 0 <= i && i + pat.len() <= s.len() {
                let tail = s.skip(i + pat.len());
                let head = s.take(i) + rep;
                let r = replace_all(s, pat, rep);
                assert(r == head + replace_all(tail, pat, rep));
                if tail.len() > 0 {
                    assert(tail.last() == s.last());
                    lemma_replace_all_last(tail, pat, rep);
                    assert(r.last() == replace_all(tail, pat, rep).last());
                } else {
                    lemma_index_of(tail, pat);
                    assert(!contains(tail, pat));
                    assert(replace_all(tail, pat, rep) == tail);
                    assert(r =~= head);
                    assert(head.last() == rep[rep.len() - 1]);
                }
            }
        },
        None => {},
    }
}

proof fn lemma_encode_byte_clean(b: u8)
    ensures
        encode_byte(b).len() >= 1,
        forall|k: int| 0 <= k < encode_byte(b).len() ==> !is_ws_spec(#[trigger] encode_byte(b)[k]),
{
    if unreserved(b) {
        assert(encode_byte(b)[0] == b as char);
        assert((b as char) as u32 == b);
    } else if b == 32 {
    } else {
        let hi = b / 16;
        let lo = b % 16;
        assert(hi < 16 && lo < 16);
        assert(hex_digit(hi) as u32 == if hi < 10 { hi + 48 } else { hi + 55 });
        assert(hex_digit(lo) as u32 == if lo < 10 { lo + 48 } else { lo + 55 });
    }
}

proof fn lemma_url_encoded_clean(bytes: Seq<u8>)
    ensures
        url_encoded(bytes).len() >= bytes.len(),
        forall|k: int| 0 <= k < url_encoded(bytes).len() ==> !is_ws_spec(#[trigger] url_encoded(bytes)[k]),
    decreases bytes.len(),
{
    if bytes.len() > 0 {
        let a = url_encoded(bytes.drop_last());
        let e = encode_byte(bytes.last());
        lemma_url_encoded_clean(bytes.drop_last());
        lemma_encode_byte_clean(bytes.last());
        assert(url_encoded(bytes) == a + e);
        assert forall|k: int| 0 <= k < (a + e).len() implies !is_ws_spec(#[trigger] (a + e)[k]) by {
            if k < a.len() {
                assert((a + e)[k] == a[k]);
            } else {
                assert((a + e)[k] == e[k - a.len()]);
            }
        }
    }
}

proof fn lemma_encode_utf8_nonempty(t: Seq<char>)
    requires
        t.len() > 0,
    ensures
        encode_utf8(t).len() > 0,
{
    lemma_byte_len_push(t.drop_last(), t.last());
    assert(t.drop_last().push(t.last()) =~= t);
    assert(char_width(t.last()) >= 1);
}

/// Normalizing what normalizing gave changes nothing: it is a full URL with
/// no surrounding whitespace. This holds for a search engine URL that starts
/// with `https://` and has no surrounding whitespace either.
pub proof fn law_normalize_idempotent(input: Seq<char>, search_engine: Seq<char>)
    requires
        starts_with(search_engine, "https://"@),
        trim(search_engine) == search_engine,
    ensures
        normalized(normalized(input, search_engine), search_engine) == normalized(input, search_engine),
{
    reveal_strlit("https://");
    reveal_strlit("about:blank");
    reveal_strlit("about:");
    reveal_strlit("%s");
    let t = trim(input);
    let r = normalized(input, search_engine);
    lemma_trim_ends(input);
    if t.len() == 0 {
        assert(r.take(6) =~= "about:"@);
        lemma_trim_clean(r);
    } else if is_full_url(t) {
        lemma_trim_clean(t);
    } else if looks_like_host(t) {
        assert(r[0] == 'h');
        assert(r.last() == t.last());
        assert(r.take(8) =~= "https://"@);
        lemma_trim_clean(r);
    } else {
        let enc = url_encoded(encode_utf8(t));
        lemma_encode_utf8_nonempty(t);
        lemma_url_encoded_clean(encode_utf8(t));
        lemma_trim_ends(search_engine);
        lemma_replace_all_keeps_prefix(search_engine, "%s"@, enc, "https://"@);
        lemma_replace_all_last(search_engine, "%s"@, enc);
        assert(r.take(8)[0] == r[0]);
        lemma_trim_clean(r);
    }
    law_full_url_unchanged(r, search_engine);
}

/// The display form of a URL is never longer than the limit in bytes, or
/// than the three bytes of the ellipsis when the limit is smaller.
pub proof fn law_display_url_bounded(u: Seq<char>, max_len: nat)
    ensures
        byte_len(displayed(u, max_len)) <= if max_len >= 3 {
            max_len
        } else {
            3
        },
{
    let c = display_base(u);
    if byte_len(c) > max_len {
        let b: nat = if max_len >= 3 { (max_len - 3) as nat } else { 0 };
        let p = c.take(prefix_within(c, b) as int);
        lemma_prefix_within(c, b);
        lemma_byte_len_add(p, "..."@);
        reveal_strlit("...");
        assert(encode_utf8(Seq::<char>::empty()) =~= Seq::<u8>::empty());
        lemma_byte_len_push(Seq::<char>::empty(), '.');
        lemma_byte_len_push(seq!['.'], '.');
        lemma_byte_len_push(seq!['.', '.'], '.');
        assert(Seq::<char>::empty().push('.') =~= seq!['.']);
        assert(seq!['.'].push('.') =~= seq!['.', '.']);
        assert(seq!['.', '.'].push('.') =~= "..."@);
    }
}

proof fn lemma_prefix_before_clean(h: Seq<char>, rest: Seq<char>, c: char)
    requires
        forall|k: int| 0 <= k < h.len() ==> #[trigger] h[k] != c,
        rest.len() == 0 || rest[0] == c,
    ensures
        prefix_before(h + rest, c) == h,
{
    let s = h + rest;
    lemma_find_char(s, c);
    match find_char(s, c) {
        Some(i) => {
            if i < h.len() {
                assert(s[i] == h[i]);
            }
            if i > h.len() {
                assert(s[h.len() as int] == rest[0]);
            }
            assert(s.take(i) =~= h);
        },
        None => {
            if rest.len() > 0 {
                assert(s[h.len() as int] == rest[0]);
            }
            assert(s =~= h);
        },
    }
}

/// The host of a URL `scheme://host/path` is the text between `://` and
/// the first `/` (for a scheme without a colon, a host without `/` or `:`,
/// and a path that is empty or starts with `/`).
pub proof fn law_host_text(scheme: Seq<char>, host: Seq<char>, path: Seq<char>)
    requires
        forall|k: int| 0 <= k < scheme.len() ==> #[trigger] scheme[k] != ':',
        forall|k: int| 0 <= k < host.len() ==> #[trigger] host[k] != '/' && host[k] != ':',
        path.len() == 0 || path[0] == '/',
    ensures
        host_text(scheme + "://"@ + host + path) == host,
{
    reveal_strlit("://");
    let u = scheme + "://"@ + host + path;
    let n = scheme.len() as int;
    lemma_index_of(u, "://"@);
    assert(occurs_at(u, "://"@, n)) by {
        assert(u.subrange(n, n + 3) =~= "://"@);
    }
    let i = index_of(u, "://"@).unwrap();
    if i < n {
        assert(u.subrange(i, i + 3)[0] == u[i]);
        assert(u[i] == scheme[i]);
    }
    assert(i == n);
    let rest = u.skip(n + 3);
    assert(rest =~= host + path);
    let hp = host + path;
    lemma_index_of(rest, "://"@);
    let cut = match index_of(rest, "://"@) {
        Some(j) => rest.take(j),
        None => rest,
    };
    assert(after_scheme(u) == cut);
    match index_of(rest, "://"@) {
        Some(j) => {
            if j < host.len() {
                assert(rest.subrange(j, j + 3)[0] == rest[j]);
                assert(rest[j] == host[j]);
            }
            if j == host.len() {
                assert(rest.subrange(j, j + 3)[0] == rest[j]);
                assert(rest[j] == path[0]);
            }
            assert(j > host.len() || (j == host.len() && path.len() == 0)) by {
                if j == host.len() && path.len() > 0 {
                    assert(rest[j] == path[0]);
                }
            }
            if path.len() > 0 {
                assert(cut =~= host + path.take(j - host.len()));
                lemma_prefix_before_clean(host, path.take(j - host.len()), '/');
            } else {
                assert(cut =~= host);
                lemma_prefix_before_clean(host, Seq::<char>::empty(), '/');
                assert(host + Seq::<char>::empty() =~= host);
            }
        },
        None => {
            lemma_prefix_before_clean(host, path, '/');
        },
    }
    assert(prefix_before(cut, '/') == host);
    lemma_prefix_before_clean(host, Seq::<char>::empty(), ':');
    assert(host + Seq::<char>::empty() =~= host);
}

/// What the browser goes to for typed text `t` (already trimmed, not
/// empty): `t` itself when it starts with `http://`, `https://`, `about:`
/// or `file://`; otherwise `https://` + `t` when it has a dot and no space,
/// starts with `localhost` or holds `://`; otherwise the search engine URL
/// with the encoded text. Empty input gives `about:blank`.
pub proof fn law_normalize_cases(t: Seq<char>, search_engine: Seq<char>)
    requires
        trim(t) == t,
    ensures
        t.len() == 0 ==> normalized(t, search_engine) == "about:blank"@,
        (starts_with(t, "http://"@) || starts_with(t, "https://"@) || starts_with(t, "about:"@)
            || starts_with(t, "file://"@)) ==> normalized(t, search_engine) == t,
        ({
            let full = starts_with(t, "http://"@) || starts_with(t, "https://"@) || starts_with(t, "about:"@)
                || starts_with(t, "file://"@);
            let hostlike = ((exists|k: int| 0 <= k < t.len() && t[k] == '.') && (forall|k: int|
                0 <= k < t.len() ==> t[k] != ' ')) || starts_with(t, "localhost"@) || contains(t, "://"@);
            &&& t.len() > 0 && !full && hostlike ==> normalized(t, search_engine) == "https://"@ + t
            &&& t.len() > 0 && !full && !hostlike ==> normalized(t, search_engine) == replace_all(
                search_engine,
                "%s"@,
                url_encoded(encode_utf8(t)),
            )
        }),
{
    lemma_find_char(t, '.');
    lemma_find_char(t, ' ');
    if starts_with(t, "http://"@) || starts_with(t, "https://"@) || starts_with(t, "about:"@) || starts_with(
        t,
        "file://"@,
    ) {
        law_full_url_unchanged(t, search_engine);
    }
}

} // verus!
