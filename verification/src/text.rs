//! Character-sequence helpers shared by the browser modules.
//!
//! Text is handled as sequences of `char`: a `String` is turned into a
//! `Vec<char>` with [`chars_of`], worked on, and turned back with
//! [`string_from_chars`].
use vstd::prelude::*;

verus! {

/// Unicode `White_Space`, the set that `char::is_whitespace` tests.
pub open spec fn is_ws_spec(c: char) -> bool {
    let u = c as u32;
    ||| (0x09 <= u && u <= 0x0d)
    ||| u == 0x20
    ||| u == 0x85
    ||| u == 0xa0
    ||| u == 0x1680
    ||| (0x2000 <= u && u <= 0x200a)
    ||| u == 0x2028
    ||| u == 0x2029
    ||| u == 0x202f
    ||| u == 0x205f
    ||| u == 0x3000
}

/// Whitespace test with the same answer as `char::is_whitespace`.
pub fn is_ws(c: char) -> (r: bool)
    ensures
        r == is_ws_spec(c),
{
    let u = c as u32;
    (0x09 <= u && u <= 0x0d) || u == 0x20 || u == 0x85 || u == 0xa0 || u == 0x1680 || (0x2000
        <= u && u <= 0x200a) || u == 0x2028 || u == 0x2029 || u == 0x202f || u == 0x205f || u
        == 0x3000
}

/// ASCII letters and digits (`char::is_ascii_alphanumeric`).
pub open spec fn is_ascii_alnum_spec(c: char) -> bool {
    ('a' <= c && c <= 'z') || ('A' <= c && c <= 'Z') || ('0' <= c && c <= '9')
}

pub fn is_ascii_alnum(c: char) -> (r: bool)
    ensures
        r == is_ascii_alnum_spec(c),
{
    ('a' <= c && c <= 'z') || ('A' <= c && c <= 'Z') || ('0' <= c && c <= '9')
}

/// The characters of a string slice, in order.
pub fn chars_of(s: &str) -> (r: Vec<char>)
    ensures
        r@ == s@,
{
    let mut v: Vec<char> = Vec::new();
    for c in it: s.chars()
        invariant
            v@ == it.seq().take(it.index() as int),
    {
        v.push(c);
    }
    v
}

/// Collects characters into a `String` (std's `FromIterator<char> for String`);
/// the string holds exactly these characters, in this order.
#[verifier::external_body]
pub(crate) fn string_from_chars(v: &[char]) -> (s: String)
    ensures
        s@ == v@,
{
    v.iter().collect()
}

/// Appends the characters of `s` to `out`.
pub fn push_str(out: &mut Vec<char>, s: &str)
    ensures
        final(out)@ == old(out)@ + s@,
{
    let v = chars_of(s);
    push_chars(out, &v);
}

/// Appends `v` to `out`.
pub fn push_chars(out: &mut Vec<char>, v: &[char])
    ensures
        final(out)@ == old(out)@ + v@,
{
    let ghost start = out@;
    let mut i: usize = 0;
    while i < v.len()
        invariant
            i <= v@.len(),
            out@ == start + v@.take(i as int),
        decreases v@.len() - i,
    {
        out.push(v[i]);
        i = i + 1;
        assert(v@.take(i as int) == v@.take((i - 1) as int).push(v@[i - 1]));
    }
    assert(v@.take(v@.len() as int) == v@);
}

/// Character-wise equality of two sequences.
pub fn chars_eq(a: &[char], b: &[char]) -> (r: bool)
    ensures
        r == (a@ == b@),
{
    if a.len() != b.len() {
        return false;
    }
    let mut i: usize = 0;
    while i < a.len()
        invariant
            i <= a@.len(),
            a@.len() == b@.len(),
            forall|k: int| 0 <= k < i ==> a@[k] == b@[k],
        decreases a@.len() - i,
    {
        if a[i] != b[i] {
            return false;
        }
        i = i + 1;
    }
    assert(a@ =~= b@);
    true
}

/// Whether `a` holds the same characters as the literal `lit`.
pub fn eq_str(a: &[char], lit: &str) -> (r: bool)
    ensures
        r == (a@ == lit@),
{
    let l = chars_of(lit);
    chars_eq(a, l.as_slice())
}

/// `p` is a prefix of `s`.
pub open spec fn starts_with(s: Seq<char>, p: Seq<char>) -> bool {
    p.len() <= s.len() && s.take(p.len() as int) == p
}

/// `p` is a suffix of `s`.
pub open spec fn ends_with(s: Seq<char>, p: Seq<char>) -> bool {
    p.len() <= s.len() && s.skip(s.len() - p.len()) == p
}

pub fn starts_with_str(s: &[char], p: &str) -> (r: bool)
    ensures
        r == starts_with(s@, p@),
{
    let pv = chars_of(p);
    if pv.len() > s.len() {
        return false;
    }
    let mut i: usize = 0;
    while i < pv.len()
        invariant
            i <= pv@.len(),
            pv@.len() <= s@.len(),
            pv@ == p@,
            forall|k: int| 0 <= k < i ==> s@[k] == pv@[k],
        decreases pv@.len() - i,
    {
        if s[i] != pv[i] {
            assert(s@.take(pv@.len() as int)[i as int] != pv@[i as int]);
            return false;
        }
        i = i + 1;
    }
    assert(s@.take(pv@.len() as int) =~= pv@);
    true
}

pub fn ends_with_chars(s: &[char], p: &[char]) -> (r: bool)
    ensures
        r == ends_with(s@, p@),
{
    if p.len() > s.len() {
        return false;
    }
    let off = s.len() - p.len();
    let mut i: usize = 0;
    while i < p.len()
        invariant
            i <= p@.len(),
            off + p@.len() == s@.len(),
            s@.len() == s.len(),
            forall|k: int| 0 <= k < i ==> s@[off + k] == p@[k],
        decreases p@.len() - i,
    {
        if s[off + i] != p[i] {
            assert(s@.skip(off as int)[i as int] != p@[i as int]);
            return false;
        }
        i = i + 1;
    }
    assert(s@.skip(off as int) =~= p@);
    true
}

/// `v[lo..hi]` as a new vector.
pub fn slice_chars(v: &[char], lo: usize, hi: usize) -> (r: Vec<char>)
    requires
        lo <= hi <= v@.len(),
    ensures
        r@ == v@.subrange(lo as int, hi as int),
{
    let mut out: Vec<char> = Vec::new();
    let mut i: usize = lo;
    while i < hi
        invariant
            lo <= i <= hi <= v@.len(),
            out@ == v@.subrange(lo as int, i as int),
        decreases hi - i,
    {
        out.push(v[i]);
        i = i + 1;
        assert(v@.subrange(lo as int, i as int) == v@.subrange(lo as int, i - 1).push(
            v@[i - 1],
        ));
    }
    out
}

/// Number of leading whitespace characters.
pub open spec fn ws_prefix_len(s: Seq<char>) -> nat
    decreases s.len(),
{
    if s.len() == 0 || !is_ws_spec(s[0]) {
        0
    } else {
        1 + ws_prefix_len(s.drop_first())
    }
}

/// `s` without its leading whitespace (`str::trim_start`).
pub open spec fn trim_start(s: Seq<char>) -> Seq<char> {
    s.skip(ws_prefix_len(s) as int)
}

/// `s` without its trailing whitespace (`str::trim_end`).
pub open spec fn trim_end(s: Seq<char>) -> Seq<char>
    decreases s.len(),
{
    if s.len() == 0 || !is_ws_spec(s.last()) {
        s
    } else {
        trim_end(s.drop_last())
    }
}

/// `s` without leading and trailing whitespace (`str::trim`).
pub open spec fn trim(s: Seq<char>) -> Seq<char> {
    trim_end(trim_start(s))
}

/// Trimming never lengthens a sequence.
pub proof fn lemma_trim_end_len(s: Seq<char>)
    ensures
        trim_end(s).len() <= s.len(),
    decreases s.len(),
{
    if s.len() > 0 && is_ws_spec(s.last()) {
        lemma_trim_end_len(s.drop_last());
    }
}

proof fn lemma_ws_prefix_len_bound(s: Seq<char>)
    ensures
        ws_prefix_len(s) <= s.len(),
        forall|k: int| 0 <= k < ws_prefix_len(s) ==> is_ws_spec(#[trigger] s[k]),
        ws_prefix_len(s) < s.len() ==> !is_ws_spec(s[ws_prefix_len(s) as int]),
    decreases s.len(),
{
    if s.len() > 0 && is_ws_spec(s[0]) {
        lemma_ws_prefix_len_bound(s.drop_first());
        assert forall|k: int| 0 <= k < ws_prefix_len(s) implies is_ws_spec(#[trigger] s[k]) by {
            if k > 0 {
                assert(s[k] == s.drop_first()[k - 1]);
            }
        }
    }
}

proof fn lemma_ws_prefix_len_skip(s: Seq<char>, i: int)
    requires
        0 <= i <= s.len(),
        forall|k: int| 0 <= k < i ==> is_ws_spec(#[trigger] s[k]),
    ensures
        ws_prefix_len(s) == i + ws_prefix_len(s.skip(i)),
    decreases i,
{
    if i > 0 {
        assert(s.drop_first().skip(i - 1) =~= s.skip(i));
        assert forall|k: int| 0 <= k < i - 1 implies is_ws_spec(#[trigger] s.drop_first()[k]) by {
            assert(s.drop_first()[k] == s[k + 1]);
        }
        lemma_ws_prefix_len_skip(s.drop_first(), i - 1);
    } else {
        assert(s.skip(0) =~= s);
    }
}

proof fn lemma_trim_end_take(s: Seq<char>, j: int)
    requires
        0 <= j <= s.len(),
        forall|k: int| j <= k < s.len() ==> is_ws_spec(#[trigger] s[k]),
    ensures
        trim_end(s) == trim_end(s.take(j)),
    decreases s.len() - j,
{
    if j < s.len() {
        assert(s.drop_last().take(j) =~= s.take(j));
        lemma_trim_end_take(s.drop_last(), j);
    } else {
        assert(s.take(j) =~= s);
    }
}

/// Trimming the end keeps a prefix.
pub proof fn lemma_trim_end_prefix(s: Seq<char>)
    ensures
        trim_end(s).len() <= s.len(),
        trim_end(s) == s.take(trim_end(s).len() as int),
    decreases s.len(),
{
    if s.len() > 0 && is_ws_spec(s.last()) {
        lemma_trim_end_prefix(s.drop_last());
        assert(s.drop_last().take(trim_end(s).len() as int) =~= s.take(trim_end(s).len() as int));
    } else {
        assert(s.take(s.len() as int) =~= s);
    }
}

proof fn lemma_trim_end_last(s: Seq<char>)
    ensures
        trim_end(s).len() > 0 ==> !is_ws_spec(trim_end(s).last()),
    decreases s.len(),
{
    if s.len() > 0 && is_ws_spec(s.last()) {
        lemma_trim_end_last(s.drop_last());
    }
}

/// What trimming leaves neither starts nor ends with whitespace.
pub proof fn lemma_trim_ends(s: Seq<char>)
    ensures
        trim(s).len() > 0 ==> !is_ws_spec(trim(s)[0]) && !is_ws_spec(trim(s).last()),
{
    let t = trim_start(s);
    lemma_ws_prefix_len_bound(s);
    lemma_trim_end_prefix(t);
    lemma_trim_end_last(t);
    if trim(s).len() > 0 {
        assert(trim(s)[0] == t[0]);
        assert(t[0] == s[ws_prefix_len(s) as int]);
    }
}

/// A sequence that neither starts nor ends with whitespace is left as it is
/// by trimming.
pub proof fn lemma_trim_clean(s: Seq<char>)
    requires
        s.len() > 0 ==> !is_ws_spec(s[0]) && !is_ws_spec(s.last()),
    ensures
        trim(s) == s,
{
    assert(ws_prefix_len(s) == 0);
    assert(s.skip(0) =~= s);
}

/// Trimming twice trims no more than trimming once.
pub proof fn lemma_trim_idempotent(s: Seq<char>)
    ensures
        trim(trim(s)) == trim(s),
{
    lemma_trim_ends(s);
    lemma_trim_clean(trim(s));
}

/// The characters of `s` with trailing whitespace removed.
pub fn trim_end_chars(s: &[char]) -> (r: Vec<char>)
    ensures
        r@ == trim_end(s@),
{
    let mut j: usize = s.len();
    while j > 0 && is_ws(s[j - 1])
        invariant
            j <= s@.len(),
            forall|k: int| j <= k < s@.len() ==> is_ws_spec(#[trigger] s@[k]),
        decreases j,
    {
        j = j - 1;
    }
    proof {
        lemma_trim_end_take(s@, j as int);
        let u = s@.take(j as int);
        if u.len() > 0 {
            assert(u.last() == s@[j - 1]);
        }
        assert(trim_end(u) == u);
    }
    let r = slice_chars(s, 0, j);
    assert(r@ =~= s@.take(j as int));
    r
}

/// The characters of `s` with leading and trailing whitespace removed.
pub fn trim_chars(s: &[char]) -> (r: Vec<char>)
    ensures
        r@ == trim(s@),
{
    let mut i: usize = 0;
    while i < s.len() && is_ws(s[i])
        invariant
            i <= s@.len(),
            forall|k: int| 0 <= k < i ==> is_ws_spec(#[trigger] s@[k]),
        decreases s@.len() - i,
    {
        i = i + 1;
    }
    proof {
        lemma_ws_prefix_len_skip(s@, i as int);
        if i < s@.len() {
            assert(s@.skip(i as int)[0] == s@[i as int]);
        }
        assert(ws_prefix_len(s@.skip(i as int)) == 0);
    }
    let ghost t = s@.skip(i as int);
    let mut j: usize = s.len();
    while j > i && is_ws(s[j - 1])
        invariant
            i <= j <= s@.len(),
            t == s@.skip(i as int),
            forall|k: int| j - i <= k < t.len() ==> is_ws_spec(#[trigger] t[k]),
        decreases j,
    {
        j = j - 1;
    }
    proof {
        lemma_trim_end_take(t, j - i);
        let u = t.take(j - i);
        if u.len() > 0 {
            assert(u.last() == s@[j - 1]);
        }
        assert(trim_end(u) == u);
        assert(u =~= s@.subrange(i as int, j as int));
    }
    slice_chars(s, i, j)
}

/// Index of the first occurrence of `c` in `s`.
pub open spec fn find_char(s: Seq<char>, c: char) -> Option<int>
    decreases s.len(),
{
    if s.len() == 0 {
        None
    } else if s[0] == c {
        Some(0)
    } else {
        match find_char(s.drop_first(), c) {
            Some(i) => Some(i + 1),
            None => None,
        }
    }
}

pub proof fn lemma_find_char(s: Seq<char>, c: char)
    ensures
        match find_char(s, c) {
            Some(i) => 0 <= i < s.len() && s[i] == c && forall|k: int| 0 <= k < i ==> s[k] != c,
            None => forall|k: int| 0 <= k < s.len() ==> s[k] != c,
        },
    decreases s.len(),
{
    if s.len() > 0 && s[0] != c {
        lemma_find_char(s.drop_first(), c);
        assert forall|k: int| 0 < k < s.len() implies s[k] == s.drop_first()[k - 1] by {}
    }
}

/// Characterises `find_char` by the first matching position.
pub proof fn lemma_find_char_at(s: Seq<char>, c: char, i: int)
    requires
        0 <= i <= s.len(),
        forall|k: int| 0 <= k < i ==> s[k] != c,
    ensures
        i < s.len() && s[i] == c ==> find_char(s, c) == Some(i),
        i == s.len() ==> find_char(s, c) is None,
    decreases i,
{
    if i > 0 {
        assert forall|k: int| 0 <= k < i - 1 implies s.drop_first()[k] != c by {
            assert(s.drop_first()[k] == s[k + 1]);
        }
        lemma_find_char_at(s.drop_first(), c, i - 1);
        if i < s.len() {
            assert(s.drop_first()[i - 1] == s[i]);
        }
    }
}

/// First index of `c` in `s`.
pub fn find_char_exec(s: &[char], c: char) -> (r: Option<usize>)
    ensures
        r matches Some(i) ==> i < s@.len() && s@[i as int] == c && find_char(s@, c) == Some(
            i as int,
        ),
        r is None ==> find_char(s@, c) is None,
{
    let mut i: usize = 0;
    while i < s.len()
        invariant
            i <= s@.len(),
            forall|k: int| 0 <= k < i ==> s@[k] != c,
        decreases s@.len() - i,
    {
        if s[i] == c {
            proof {
                lemma_find_char_at(s@, c, i as int);
            }
            return Some(i);
        }
        i = i + 1;
    }
    proof {
        lemma_find_char_at(s@, c, i as int);
    }
    None
}

/// `q` occurs in `s` starting at index `i`.
pub open spec fn occurs_at(s: Seq<char>, q: Seq<char>, i: int) -> bool {
    0 <= i && i + q.len() <= s.len() && s.subrange(i, i + q.len()) == q
}

/// `q` occurs somewhere in `s` (`str::contains`).
pub open spec fn contains(s: Seq<char>, q: Seq<char>) -> bool {
    exists|i: int| occurs_at(s, q, i)
}

/// Whether `q` occurs in `s` at index `i`.
pub fn occurs_at_exec(s: &[char], q: &[char], i: usize) -> (r: bool)
    ensures
        r == occurs_at(s@, q@, i as int),
{
    if i > s.len() || q.len() > s.len() - i {
        return false;
    }
    let mut k: usize = 0;
    while k < q.len()
        invariant
            k <= q@.len(),
            i + q@.len() <= s@.len(),
            s@.len() == s.len(),
            forall|m: int| 0 <= m < k ==> s@[i + m] == q@[m],
        decreases q@.len() - k,
    {
        if s[i + k] != q[k] {
            assert(s@.subrange(i as int, i + q@.len())[k as int] != q@[k as int]);
            return false;
        }
        k = k + 1;
    }
    assert(s@.subrange(i as int, i + q@.len()) =~= q@);
    true
}

/// First index at or after `from` where `q` occurs in `s`.
pub open spec fn first_occurrence_from(s: Seq<char>, q: Seq<char>, from: int, i: int) -> bool {
    from <= i && occurs_at(s, q, i) && forall|k: int| from <= k < i ==> !occurs_at(s, q, k)
}

/// The first occurrence of `q` in `s` at or after `from`.
pub fn find_from(s: &[char], q: &[char], from: usize) -> (r: Option<usize>)
    ensures
        r matches Some(i) ==> first_occurrence_from(s@, q@, from as int, i as int),
        r is None ==> forall|k: int| from <= k ==> !occurs_at(s@, q@, k),
{
    if from > s.len() {
        return None;
    }
    let mut i: usize = from;
    while i < s.len()
        invariant
            from <= i <= s@.len(),
            forall|k: int| from <= k < i ==> !occurs_at(s@, q@, k),
        decreases s@.len() - i,
    {
        if occurs_at_exec(s, q, i) {
            return Some(i);
        }
        i = i + 1;
    }
    if occurs_at_exec(s, q, i) {
        return Some(i);
    }
    None
}

/// Whether `q` occurs in `s`.
pub fn contains_chars(s: &[char], q: &[char]) -> (r: bool)
    ensures
        r == contains(s@, q@),
{
    match find_from(s, q, 0) {
        Some(_) => true,
        None => false,
    }
}

/// Index of the first occurrence of `q` in `s` (`str::find`).
pub open spec fn index_of(s: Seq<char>, q: Seq<char>) -> Option<int> {
    if exists|i: int| occurs_at(s, q, i) {
        Some(choose|i: int| first_occurrence_from(s, q, 0, i))
    } else {
        None
    }
}

proof fn lemma_first_occurrence_exists(s: Seq<char>, q: Seq<char>, k: int)
    requires
        occurs_at(s, q, k),
    ensures
        exists|i: int| first_occurrence_from(s, q, 0, i),
    decreases k,
{
    if exists|j: int| 0 <= j < k && occurs_at(s, q, j) {
        let j = choose|j: int| 0 <= j < k && occurs_at(s, q, j);
        lemma_first_occurrence_exists(s, q, j);
    } else {
        assert(first_occurrence_from(s, q, 0, k));
    }
}

/// Where `q` occurs in `s`, `index_of` finds its first occurrence; it finds
/// nothing exactly where `q` does not occur.
pub proof fn lemma_index_of(s: Seq<char>, q: Seq<char>)
    ensures
        index_of(s, q) matches Some(i) ==> first_occurrence_from(s, q, 0, i),
        index_of(s, q) is None <==> !contains(s, q),
{
    if exists|k: int| occurs_at(s, q, k) {
        let k = choose|k: int| occurs_at(s, q, k);
        lemma_first_occurrence_exists(s, q, k);
    }
}

proof fn lemma_first_occurrence_unique(s: Seq<char>, q: Seq<char>, i: int, j: int)
    requires
        first_occurrence_from(s, q, 0, i),
        first_occurrence_from(s, q, 0, j),
    ensures
        i == j,
{
    if i < j {
        assert(!occurs_at(s, q, i));
    } else if j < i {
        assert(!occurs_at(s, q, j));
    }
}

/// The first occurrence of `q` in `s`.
pub fn index_of_exec(s: &[char], q: &[char]) -> (r: Option<usize>)
    ensures
        r matches Some(i) ==> index_of(s@, q@) == Some(i as int) && occurs_at(s@, q@, i as int),
        r is None ==> index_of(s@, q@) is None,
{
    match find_from(s, q, 0) {
        Some(i) => {
            proof {
                assert(exists|k: int| occurs_at(s@, q@, k));
                let c = choose|k: int| first_occurrence_from(s@, q@, 0, k);
                assert(first_occurrence_from(s@, q@, 0, c));
                lemma_first_occurrence_unique(s@, q@, i as int, c);
            }
            Some(i)
        },
        None => {
            proof {
                if exists|k: int| occurs_at(s@, q@, k) {
                    let k = choose|k: int| occurs_at(s@, q@, k);
                    assert(0 <= k);
                }
            }
            None
        },
    }
}

/// `s` up to (not including) the first `c`, or all of `s`.
pub open spec fn prefix_before(s: Seq<char>, c: char) -> Seq<char> {
    match find_char(s, c) {
        Some(i) => s.take(i),
        None => s,
    }
}

pub fn prefix_before_exec(s: &[char], c: char) -> (r: Vec<char>)
    ensures
        r@ == prefix_before(s@, c),
{
    match find_char_exec(s, c) {
        Some(i) => {
            let r = slice_chars(s, 0, i);
            assert(r@ =~= s@.take(i as int));
            r
        },
        None => slice_chars(s, 0, s.len()),
    }
}

/// `s` with every trailing `c` removed (`str::trim_end_matches`).
pub open spec fn strip_trailing(s: Seq<char>, c: char) -> Seq<char>
    decreases s.len(),
{
    if s.len() > 0 && s.last() == c {
        strip_trailing(s.drop_last(), c)
    } else {
        s
    }
}

pub fn strip_trailing_exec(s: &[char], c: char) -> (r: Vec<char>)
    ensures
        r@ == strip_trailing(s@, c),
{
    let mut j: usize = s.len();
    assert(s@.take(j as int) =~= s@);
    while j > 0 && s[j - 1] == c
        invariant
            j <= s@.len(),
            strip_trailing(s@, c) == strip_trailing(s@.take(j as int), c),
        decreases j,
    {
        assert(s@.take(j as int).drop_last() =~= s@.take(j - 1));
        j = j - 1;
    }
    let r = slice_chars(s, 0, j);
    assert(r@ =~= s@.take(j as int));
    r
}

/// The lower-cased characters of a character sequence.
pub fn lower_of_chars(s: &[char]) -> (r: Vec<char>)
    ensures
        r@ == lowercase(s@),
{
    let st = string_from_chars(s);
    lower_chars(st.as_str())
}

/// Unicode lower-casing as `str::to_lowercase` performs it.
pub uninterp spec fn lowercase(s: Seq<char>) -> Seq<char>;

/// std's `str::to_lowercase`: the result is the lower-cased form of `s`,
/// which depends on `s` alone (Unicode case mapping).
#[verifier::external_body]
pub(crate) fn to_lowercase(s: &str) -> (r: String)
    ensures
        r@ == lowercase(s@),
{
    s.to_lowercase()
}

/// The lower-cased characters of `s`.
pub fn lower_chars(s: &str) -> (r: Vec<char>)
    ensures
        r@ == lowercase(s@),
{
    let l = to_lowercase(s);
    chars_of(l.as_str())
}

/// Lexicographic order by character, the order of `String`'s `Ord` (UTF-8
/// bytes compare as the characters they encode).
pub open spec fn lex_lt(a: Seq<char>, b: Seq<char>) -> bool
    decreases a.len(),
{
    if a.len() == 0 {
        b.len() > 0
    } else if b.len() == 0 {
        false
    } else if a[0] != b[0] {
        a[0] < b[0]
    } else {
        lex_lt(a.drop_first(), b.drop_first())
    }
}

/// The order of strings: a proper prefix comes first, and otherwise the
/// string with the smaller character at the first difference.
pub proof fn law_lex_order(a: Seq<char>, b: Seq<char>, k: int)
    requires
        0 <= k,
    ensures
        k < a.len() && k < b.len() && a.take(k) == b.take(k) && a[k] < b[k] ==> lex_lt(a, b) && !lex_lt(b, a),
        a.len() < b.len() && b.take(a.len() as int) == a ==> lex_lt(a, b) && !lex_lt(b, a),
    decreases a.len(),
{
    if a.len() > 0 && b.len() > 0 {
        if k > 0 && k < a.len() && k < b.len() && a.take(k) == b.take(k) {
            assert(a[0] == a.take(k)[0] && b[0] == b.take(k)[0]);
            assert(a.drop_first().take(k - 1) =~= a.take(k).drop_first());
            assert(b.drop_first().take(k - 1) =~= b.take(k).drop_first());
            assert(a.drop_first()[k - 1] == a[k] && b.drop_first()[k - 1] == b[k]);
        }
        if a.len() < b.len() && b.take(a.len() as int) == a {
            assert(b[0] == b.take(a.len() as int)[0]);
            assert(b.drop_first().take(a.drop_first().len() as int) =~= a.drop_first());
        }
        law_lex_order(a.drop_first(), b.drop_first(), if k > 0 { k - 1 } else { 0 });
    }
}

pub proof fn lemma_lex_irreflexive(a: Seq<char>)
    ensures
        !lex_lt(a, a),
    decreases a.len(),
{
    if a.len() > 0 {
        lemma_lex_irreflexive(a.drop_first());
    }
}

pub proof fn lemma_lex_transitive(a: Seq<char>, b: Seq<char>, c: Seq<char>)
    requires
        lex_lt(a, b),
        lex_lt(b, c),
    ensures
        lex_lt(a, c),
    decreases a.len(),
{
    if a.len() > 0 && b.len() > 0 && c.len() > 0 {
        if a[0] == b[0] && b[0] == c[0] {
            lemma_lex_transitive(a.drop_first(), b.drop_first(), c.drop_first());
        }
    }
}

pub proof fn lemma_lex_total(a: Seq<char>, b: Seq<char>)
    ensures
        a == b || lex_lt(a, b) || lex_lt(b, a),
    decreases a.len(),
{
    if a.len() > 0 && b.len() > 0 {
        if a[0] == b[0] {
            lemma_lex_total(a.drop_first(), b.drop_first());
            if a.drop_first() == b.drop_first() {
                assert(a =~= seq![a[0]] + a.drop_first());
                assert(b =~= seq![b[0]] + b.drop_first());
            }
        } else {
            assert(a[0] < b[0] || b[0] < a[0]);
        }
    } else if a.len() == 0 && b.len() == 0 {
        assert(a =~= b);
    }
}

/// Whether `a` sorts strictly before `b`.
pub fn lex_less(a: &[char], b: &[char]) -> (r: bool)
    ensures
        r == lex_lt(a@, b@),
{
    let mut i: usize = 0;
    assert(a@.skip(0) =~= a@);
    assert(b@.skip(0) =~= b@);
    while i < a.len() && i < b.len() && a[i] == b[i]
        invariant
            i <= a@.len(),
            i <= b@.len(),
            lex_lt(a@, b@) == lex_lt(a@.skip(i as int), b@.skip(i as int)),
        decreases a@.len() - i,
    {
        assert(a@.skip(i as int).drop_first() =~= a@.skip(i + 1));
        assert(b@.skip(i as int).drop_first() =~= b@.skip(i + 1));
        i = i + 1;
    }
    if i == a.len() {
        i < b.len()
    } else if i == b.len() {
        false
    } else {
        assert(a@.skip(i as int)[0] == a@[i as int]);
        assert(b@.skip(i as int)[0] == b@[i as int]);
        a[i] < b[i]
    }
}

/// Index of the last occurrence of `c` in `s`.
pub open spec fn rfind_char(s: Seq<char>, c: char) -> Option<int>
    decreases s.len(),
{
    if s.len() == 0 {
        None
    } else if s.last() == c {
        Some(s.len() - 1)
    } else {
        rfind_char(s.drop_last(), c)
    }
}

pub proof fn lemma_rfind_char(s: Seq<char>, c: char)
    ensures
        rfind_char(s, c) matches Some(i) ==> 0 <= i < s.len() && s[i] == c && forall|j: int|
            i < j < s.len() ==> #[trigger] s[j] != c,
        rfind_char(s, c) is None ==> forall|j: int| 0 <= j < s.len() ==> #[trigger] s[j] != c,
    decreases s.len(),
{
    if s.len() > 0 && s.last() != c {
        lemma_rfind_char(s.drop_last(), c);
        assert(s[s.len() - 1] == s.last());
        assert forall|j: int| 0 <= j < s.len() - 1 implies s[j] == #[trigger] s.drop_last()[j] by {}
        if rfind_char(s, c) is None {
            assert forall|j: int| 0 <= j < s.len() implies #[trigger] s[j] != c by {
                if j < s.len() - 1 {
                    assert(s[j] == s.drop_last()[j]);
                }
            }
        } else {
            let i = rfind_char(s, c).unwrap();
            assert forall|j: int| i < j < s.len() implies #[trigger] s[j] != c by {
                if j < s.len() - 1 {
                    assert(s[j] == s.drop_last()[j]);
                }
            }
        }
    }
}

/// Last index of `c` in `s[..end]`.
pub fn rfind_char_exec(s: &[char], end: usize, c: char) -> (r: Option<usize>)
    requires
        end <= s@.len(),
    ensures
        r matches Some(i) ==> i < end && rfind_char(s@.take(end as int), c) == Some(i as int),
        r is None ==> rfind_char(s@.take(end as int), c) is None,
{
    let mut j: usize = end;
    while j > 0
        invariant
            j <= end <= s@.len(),
            rfind_char(s@.take(end as int), c) == rfind_char(s@.take(j as int), c),
        decreases j,
    {
        assert(s@.take(j as int).drop_last() =~= s@.take(j - 1));
        if s[j - 1] == c {
            return Some(j - 1);
        }
        j = j - 1;
    }
    None
}

/// The character sequences held by a vector of character vectors.
pub open spec fn char_seqs(v: Seq<Vec<char>>) -> Seq<Seq<char>> {
    v.map_values(|x: Vec<char>| x@)
}

/// Left-to-right state of splitting at `c`: the finished pieces and the
/// piece being read.
pub open spec fn split_state(s: Seq<char>, c: char) -> (Seq<Seq<char>>, Seq<char>)
    decreases s.len(),
{
    if s.len() == 0 {
        (seq![], seq![])
    } else {
        let (done, cur) = split_state(s.drop_last(), c);
        if s.last() == c {
            (done.push(cur), seq![])
        } else {
            (done, cur.push(s.last()))
        }
    }
}

/// The pieces of `s` between occurrences of `c` (`str::split` with a char);
/// there is always at least one.
pub open spec fn split_on(s: Seq<char>, c: char) -> Seq<Seq<char>> {
    let (done, cur) = split_state(s, c);
    done.push(cur)
}

/// Splits `s` at every `c`.
pub fn split_chars(s: &[char], c: char) -> (r: Vec<Vec<char>>)
    ensures
        char_seqs(r@) == split_on(s@, c),
{
    let mut done: Vec<Vec<char>> = Vec::new();
    let mut cur: Vec<char> = Vec::new();
    let mut i: usize = 0;
    while i < s.len()
        invariant
            i <= s@.len(),
            (char_seqs(done@), cur@) == split_state(s@.take(i as int), c),
        decreases s@.len() - i,
    {
        assert(s@.take(i + 1).drop_last() =~= s@.take(i as int));
        if s[i] == c {
            let piece = cur;
            cur = Vec::new();
            let ghost d0 = done@;
            done.push(piece);
            assert(char_seqs(done@) =~= char_seqs(d0).push(piece@));
        } else {
            cur.push(s[i]);
        }
        i = i + 1;
    }
    assert(s@.take(i as int) =~= s@);
    let ghost d0 = done@;
    let ghost last = cur@;
    done.push(cur);
    assert(char_seqs(done@) =~= char_seqs(d0).push(last));
    done
}

/// Left-to-right state of splitting at whitespace: the finished words and
/// the word being read.
pub open spec fn words_state(s: Seq<char>) -> (Seq<Seq<char>>, Seq<char>)
    decreases s.len(),
{
    if s.len() == 0 {
        (seq![], seq![])
    } else {
        let (done, cur) = words_state(s.drop_last());
        if is_ws_spec(s.last()) {
            if cur.len() > 0 {
                (done.push(cur), seq![])
            } else {
                (done, seq![])
            }
        } else {
            (done, cur.push(s.last()))
        }
    }
}

/// The whitespace-separated words of `s` (`str::split_whitespace`).
pub open spec fn words(s: Seq<char>) -> Seq<Seq<char>> {
    let (done, cur) = words_state(s);
    if cur.len() > 0 {
        done.push(cur)
    } else {
        done
    }
}

/// Splits `s` into its whitespace-separated words.
pub fn split_words(s: &[char]) -> (r: Vec<Vec<char>>)
    ensures
        char_seqs(r@) == words(s@),
{
    let mut done: Vec<Vec<char>> = Vec::new();
    let mut cur: Vec<char> = Vec::new();
    let mut i: usize = 0;
    while i < s.len()
        invariant
            i <= s@.len(),
            (char_seqs(done@), cur@) == words_state(s@.take(i as int)),
        decreases s@.len() - i,
    {
        assert(s@.take(i + 1).drop_last() =~= s@.take(i as int));
        if is_ws(s[i]) {
            if cur.len() > 0 {
                let piece = cur;
                cur = Vec::new();
                let ghost d0 = done@;
                done.push(piece);
                assert(char_seqs(done@) =~= char_seqs(d0).push(piece@));
            } else {
                cur = Vec::new();
            }
        } else {
            cur.push(s[i]);
        }
        i = i + 1;
    }
    assert(s@.take(i as int) =~= s@);
    if cur.len() > 0 {
        let ghost d0 = done@;
        let ghost last = cur@;
        done.push(cur);
        assert(char_seqs(done@) =~= char_seqs(d0).push(last));
    }
    done
}

/// The pieces of `ws` joined with `sep` between them (`join`).
pub open spec fn join_with(ws: Seq<Seq<char>>, sep: Seq<char>) -> Seq<char>
    decreases ws.len(),
{
    if ws.len() == 0 {
        seq![]
    } else if ws.len() == 1 {
        ws[0]
    } else {
        join_with(ws.drop_last(), sep) + sep + ws.last()
    }
}

/// Joins the pieces with `sep` between them.
pub fn join_chars(ws: &Vec<Vec<char>>, sep: &[char]) -> (r: Vec<char>)
    ensures
        r@ == join_with(char_seqs(ws@), sep@),
{
    let mut out: Vec<char> = Vec::new();
    let mut i: usize = 0;
    while i < ws.len()
        invariant
            i <= ws@.len(),
            out@ == join_with(char_seqs(ws@).take(i as int), sep@),
        decreases ws@.len() - i,
    {
        let ghost t = char_seqs(ws@).take(i + 1);
        assert(t.drop_last() =~= char_seqs(ws@).take(i as int));
        if i > 0 {
            push_chars(&mut out, sep);
        }
        push_chars(&mut out, ws[i].as_slice());
        proof {
            if i == 0 {
                assert(out@ =~= t[0]);
            }
        }
        i = i + 1;
    }
    assert(char_seqs(ws@).take(i as int) =~= char_seqs(ws@));
    out
}

/// Whitespace runs collapsed to single spaces, with no space at either end.
pub open spec fn collapse_ws(s: Seq<char>) -> Seq<char> {
    join_with(words(s), seq![' '])
}

/// Collapses the whitespace of `s`.
pub fn collapse_ws_chars(s: &[char]) -> (r: Vec<char>)
    ensures
        r@ == collapse_ws(s@),
{
    let ws = split_words(s);
    let sp: Vec<char> = vec![' '];
    assert(sp@ =~= seq![' ']);
    join_chars(&ws, sp.as_slice())
}

/// The part of `s` after its last `c`, or all of `s`
/// (`split(c).next_back()`).
pub open spec fn after_last(s: Seq<char>, c: char) -> Seq<char> {
    match rfind_char(s, c) {
        Some(i) => s.skip(i + 1),
        None => s,
    }
}

pub fn after_last_exec(s: &[char], c: char) -> (r: Vec<char>)
    ensures
        r@ == after_last(s@, c),
{
    assert(s@.take(s@.len() as int) =~= s@);
    match rfind_char_exec(s, s.len(), c) {
        Some(i) => {
            let r = slice_chars(s, i + 1, s.len());
            assert(r@ =~= s@.skip(i + 1));
            r
        },
        None => slice_chars(s, 0, s.len()),
    }
}

/// Whitespace in `t` is only single spaces between other characters.
pub open spec fn is_collapsed(t: Seq<char>) -> bool {
    forall|i: int|
        0 <= i < t.len() && is_ws_spec(#[trigger] t[i]) ==> t[i] == ' ' && 0 < i && i + 1 < t.len()
            && !is_ws_spec(t[i - 1]) && !is_ws_spec(t[i + 1])
}

/// `w` is a non-empty run of characters that are not whitespace.
pub open spec fn is_word(w: Seq<char>) -> bool {
    w.len() > 0 && forall|i: int| 0 <= i < w.len() ==> !is_ws_spec(#[trigger] w[i])
}

proof fn lemma_words_state(s: Seq<char>)
    ensures
        forall|k: int| 0 <= k < words_state(s).0.len() ==> is_word(#[trigger] words_state(s).0[k]),
        forall|i: int| 0 <= i < words_state(s).1.len() ==> !is_ws_spec(#[trigger] words_state(s).1[i]),
    decreases s.len(),
{
    if s.len() > 0 {
        lemma_words_state(s.drop_last());
        let (done, cur) = words_state(s.drop_last());
        if !is_ws_spec(s.last()) {
            assert forall|i: int| 0 <= i < cur.push(s.last()).len() implies !is_ws_spec(#[trigger] cur.push(s.last())[i]) by {
                if i < cur.len() {
                    assert(cur.push(s.last())[i] == cur[i]);
                }
            }
        } else if cur.len() > 0 {
            assert forall|k: int| 0 <= k < done.push(cur).len() implies is_word(#[trigger] done.push(cur)[k]) by {
                if k < done.len() {
                    assert(done.push(cur)[k] == done[k]);
                }
            }
        }
    }
}

/// Every word of `s` is a non-empty run of non-whitespace characters.
pub proof fn lemma_words_are_words(s: Seq<char>)
    ensures
        forall|k: int| 0 <= k < words(s).len() ==> is_word(#[trigger] words(s)[k]),
{
    lemma_words_state(s);
    let (done, cur) = words_state(s);
    if cur.len() > 0 {
        assert forall|k: int| 0 <= k < done.push(cur).len() implies is_word(#[trigger] done.push(cur)[k]) by {
            if k < done.len() {
                assert(done.push(cur)[k] == done[k]);
            }
        }
    }
}

proof fn lemma_join_words(ws: Seq<Seq<char>>)
    requires
        forall|k: int| 0 <= k < ws.len() ==> is_word(#[trigger] ws[k]),
    ensures
        is_collapsed(join_with(ws, seq![' '])),
        ws.len() > 0 ==> join_with(ws, seq![' ']).len() > 0 && !is_ws_spec(
            join_with(ws, seq![' '])[0],
        ) && !is_ws_spec(join_with(ws, seq![' ']).last()),
    decreases ws.len(),
{
    if ws.len() == 1 {
        assert(is_word(ws[0]));
    } else if ws.len() > 1 {
        let p = ws.drop_last();
        assert forall|k: int| 0 <= k < p.len() implies is_word(#[trigger] p[k]) by {
            assert(p[k] == ws[k]);
        }
        lemma_join_words(p);
        let j = join_with(p, seq![' ']);
        let w = ws.last();
        assert(is_word(ws[ws.len() - 1]));
        let t = j + seq![' '] + w;
        assert(join_with(ws, seq![' ']) == t);
        assert forall|i: int| 0 <= i < t.len() && is_ws_spec(#[trigger] t[i]) implies t[i] == ' ' && 0
            < i && i + 1 < t.len() && !is_ws_spec(t[i - 1]) && !is_ws_spec(t[i + 1]) by {
            if i < j.len() {
                assert(t[i] == j[i]);
                assert(t[i + 1] == j[i + 1] || i + 1 == j.len());
                if i > 0 {
                    assert(t[i - 1] == j[i - 1]);
                }
            } else if i == j.len() {
                assert(t[i - 1] == j.last());
                assert(t[i + 1] == w[0]);
            } else {
                assert(t[i] == w[i - j.len() - 1]);
            }
        }
        assert(t[0] == j[0]);
        assert(t.last() == w.last());
    }
}

/// Collapsed whitespace is only ever single spaces between other
/// characters: none at either end and never two in a row.
pub proof fn law_collapse_ws(s: Seq<char>)
    ensures
        is_collapsed(collapse_ws(s)),
{
    lemma_words_are_words(s);
    lemma_join_words(words(s));
}


// ---------------------------------------------------------------------------
// UTF-8 lengths
// ---------------------------------------------------------------------------

/// The number of bytes of `s` in UTF-8.
pub open spec fn byte_len(s: Seq<char>) -> nat {
    vstd::utf8::encode_utf8(s).len()
}

/// The number of bytes of `c` in UTF-8 (`char::len_utf8`).
pub open spec fn char_width(c: char) -> nat {
    if (c as u32) <= 0x7F {
        1
    } else if (c as u32) <= 0x7FF {
        2
    } else if (c as u32) <= 0xFFFF {
        3
    } else {
        4
    }
}

/// A byte count as a `usize`, saturated at `usize::MAX` (a string held in
/// memory never reaches it).
pub open spec fn sat_usize(n: nat) -> usize {
    if n <= usize::MAX {
        n as usize
    } else {
        usize::MAX
    }
}

pub proof fn lemma_encode_utf8_add(a: Seq<char>, b: Seq<char>)
    ensures
        vstd::utf8::encode_utf8(a + b) == vstd::utf8::encode_utf8(a) + vstd::utf8::encode_utf8(b),
    decreases a.len(),
{
    if a.len() == 0 {
        assert(a + b =~= b);
        assert(vstd::utf8::encode_utf8(a) =~= Seq::<u8>::empty());
        assert(Seq::<u8>::empty() + vstd::utf8::encode_utf8(b) =~= vstd::utf8::encode_utf8(b));
    } else {
        assert((a + b).drop_first() =~= a.drop_first() + b);
        assert((a + b)[0] == a[0]);
        lemma_encode_utf8_add(a.drop_first(), b);
        let e0 = vstd::utf8::encode_scalar(a[0] as u32);
        assert(e0 + (vstd::utf8::encode_utf8(a.drop_first()) + vstd::utf8::encode_utf8(b)) =~= (e0
            + vstd::utf8::encode_utf8(a.drop_first())) + vstd::utf8::encode_utf8(b));
    }
}

/// Appending a character adds its width to the byte length.
pub proof fn lemma_byte_len_push(s: Seq<char>, c: char)
    ensures
        byte_len(s.push(c)) == byte_len(s) + char_width(c),
{
    lemma_encode_utf8_add(s, seq![c]);
    assert(s.push(c) =~= s + seq![c]);
    vstd::utf8::char_is_scalar(c);
    assert(seq![c].drop_first() =~= Seq::<char>::empty());
    assert(vstd::utf8::encode_utf8(Seq::<char>::empty()) =~= Seq::<u8>::empty());
    assert(vstd::utf8::encode_utf8(seq![c]) =~= vstd::utf8::encode_scalar(c as u32));
}

/// The number of bytes of `c` in UTF-8.
pub fn char_width_exec(c: char) -> (r: usize)
    ensures
        r == char_width(c),
{
    let u = c as u32;
    if u <= 0x7F {
        1
    } else if u <= 0x7FF {
        2
    } else if u <= 0xFFFF {
        3
    } else {
        4
    }
}

/// The byte length of `s[from..to]` added to `start`, saturated.
pub fn add_byte_len(start: usize, s: &[char], from: usize, to: usize) -> (r: usize)
    requires
        from <= to <= s@.len(),
    ensures
        forall|b: nat|
            #![trigger sat_usize(b)]
            sat_usize(b) == start ==> r == sat_usize(b + byte_len(s@.subrange(from as int, to as int))),
{
    let mut acc = start;
    let mut i = from;
    assert(s@.subrange(from as int, from as int) =~= Seq::<char>::empty());
    assert(byte_len(Seq::<char>::empty()) == 0) by {
        assert(vstd::utf8::encode_utf8(Seq::<char>::empty()) =~= Seq::<u8>::empty());
    }
    while i < to
        invariant
            from <= i <= to <= s@.len(),
            forall|b: nat|
                #![trigger sat_usize(b)]
                sat_usize(b) == start ==> acc == sat_usize(b + byte_len(s@.subrange(from as int, i as int))),
        decreases to - i,
    {
        let w = char_width_exec(s[i]);
        proof {
            lemma_byte_len_push(s@.subrange(from as int, i as int), s@[i as int]);
            assert(s@.subrange(from as int, i as int).push(s@[i as int]) =~= s@.subrange(from as int, i + 1));
        }
        if acc > usize::MAX - w {
            acc = usize::MAX;
        } else {
            acc = acc + w;
        }
        i = i + 1;
    }
    acc
}


/// The byte offset of position `to` in `s`, found from that of `from`.
pub fn prefix_byte_len_from(start: usize, s: &[char], from: usize, to: usize) -> (r: usize)
    requires
        from <= to <= s@.len(),
        start == sat_usize(byte_len(s@.take(from as int))),
    ensures
        r == sat_usize(byte_len(s@.take(to as int))),
{
    let r = add_byte_len(start, s, from, to);
    proof {
        let head = s@.take(from as int);
        let mid = s@.subrange(from as int, to as int);
        let b0 = byte_len(head);
        assert(r == sat_usize(b0 + byte_len(mid)));
        lemma_byte_len_add(head, mid);
        assert(head + mid =~= s@.take(to as int));
    }
    r
}

/// The byte length of a concatenation is the sum of the byte lengths.
pub proof fn lemma_byte_len_add(a: Seq<char>, b: Seq<char>)
    ensures
        byte_len(a + b) == byte_len(a) + byte_len(b),
{
    lemma_encode_utf8_add(a, b);
}

/// A prefix is no longer in bytes than the whole.
pub proof fn lemma_byte_len_take(s: Seq<char>, k: int)
    requires
        0 <= k <= s.len(),
    ensures
        byte_len(s.take(k)) <= byte_len(s),
{
    lemma_byte_len_add(s.take(k), s.skip(k));
    assert(s.take(k) + s.skip(k) =~= s);
}

/// The bytes of a prefix of whole characters end on a character boundary
/// of the encoding of the whole sequence, within its length.
pub proof fn lemma_prefix_char_boundary(t: Seq<char>, k: int)
    requires
        0 <= k <= t.len(),
    ensures
        byte_len(t.take(k)) <= byte_len(t),
        vstd::utf8::is_char_boundary(vstd::utf8::encode_utf8(t), byte_len(t.take(k)) as int),
    decreases k,
{
    let bytes = vstd::utf8::encode_utf8(t);
    vstd::utf8::encode_utf8_valid_utf8(t);
    lemma_byte_len_add(t.take(k), t.skip(k));
    assert(t.take(k) + t.skip(k) =~= t);
    if k == 0 {
        assert(t.take(0) =~= Seq::<char>::empty());
        assert(vstd::utf8::encode_utf8(Seq::<char>::empty()) =~= Seq::<u8>::empty());
    } else {
        let r = t.drop_first();
        lemma_prefix_char_boundary(r, k - 1);
        vstd::utf8::encode_utf8_first_scalar(t);
        assert(vstd::utf8::pop_first_scalar(bytes) =~= vstd::utf8::encode_utf8(r));
        assert(t.take(k)[0] == t[0]);
        assert(t.take(k).drop_first() =~= r.take(k - 1));
        assert(vstd::utf8::encode_utf8(t.take(k)) == vstd::utf8::encode_scalar(t[0] as u32)
            + vstd::utf8::encode_utf8(r.take(k - 1)));
    }
}

/// The number of leading characters of `s` that fit in `budget` bytes:
/// the longest prefix no longer than `budget` bytes in UTF-8.
pub open spec fn prefix_within(s: Seq<char>, budget: nat) -> nat
    decreases s.len(),
{
    if s.len() == 0 || char_width(s[0]) > budget {
        0
    } else {
        1 + prefix_within(s.drop_first(), (budget - char_width(s[0])) as nat)
    }
}

/// The prefix of `s` that fits in `budget` bytes is within the budget and
/// as long as it can be.
pub proof fn lemma_prefix_within(s: Seq<char>, budget: nat)
    ensures
        prefix_within(s, budget) <= s.len(),
        byte_len(s.take(prefix_within(s, budget) as int)) <= budget,
        prefix_within(s, budget) < s.len() ==> byte_len(s.take(prefix_within(s, budget) as int + 1))
            > budget,
    decreases s.len(),
{
    let k = prefix_within(s, budget);
    if s.len() == 0 {
        assert(s.take(0) =~= Seq::<char>::empty());
        assert(vstd::utf8::encode_utf8(Seq::<char>::empty()) =~= Seq::<u8>::empty());
    } else if char_width(s[0]) > budget {
        assert(s.take(0) =~= Seq::<char>::empty());
        assert(vstd::utf8::encode_utf8(Seq::<char>::empty()) =~= Seq::<u8>::empty());
        lemma_byte_len_push(Seq::<char>::empty(), s[0]);
        assert(Seq::<char>::empty().push(s[0]) =~= s.take(1));
    } else {
        let w = char_width(s[0]);
        let t = s.drop_first();
        let rest = (budget - w) as nat;
        lemma_prefix_within(t, rest);
        let j = prefix_within(t, rest);
        lemma_byte_len_add(seq![s[0]], t.take(j as int));
        assert(seq![s[0]] + t.take(j as int) =~= s.take(k as int));
        lemma_byte_len_push(Seq::<char>::empty(), s[0]);
        assert(Seq::<char>::empty().push(s[0]) =~= seq![s[0]]);
        assert(vstd::utf8::encode_utf8(Seq::<char>::empty()) =~= Seq::<u8>::empty());
        if k < s.len() {
            lemma_byte_len_add(seq![s[0]], t.take(j as int + 1));
            assert(seq![s[0]] + t.take(j as int + 1) =~= s.take(k as int + 1));
        }
    }
}

/// The number of leading characters of `s` that fit in `budget` bytes.
pub fn prefix_within_exec(s: &[char], budget: usize) -> (r: usize)
    ensures
        r == prefix_within(s@, budget as nat),
{
    let mut i: usize = 0;
    let mut left: usize = budget;
    assert(s@.skip(0) =~= s@);
    while i < s.len()
        invariant
            i <= s@.len(),
            left <= budget,
            prefix_within(s@, budget as nat) == i + prefix_within(s@.skip(i as int), left as nat),
        decreases s@.len() - i,
    {
        assert(s@.skip(i as int)[0] == s@[i as int]);
        assert(s@.skip(i as int).drop_first() =~= s@.skip(i + 1));
        let w = char_width_exec(s[i]);
        if w > left {
            return i;
        }
        left = left - w;
        i = i + 1;
    }
    assert(s@.skip(i as int).len() == 0);
    i
}

} // verus!
