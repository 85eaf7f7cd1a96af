//! CSS parsing and cascade.
//!
//! Stylesheets are parsed by `lightningcss`; this module keeps the rules as
//! selector text and declarations, matches selectors against elements,
//! orders matching declarations by specificity and applies their keyword
//! values to a style. Lengths (sizes, margins, paddings) are read by the
//! caller from the declarations that this module singles out.
use vstd::prelude::*;
use crate::dom::{Element, attr_value};
use crate::sort::{is_stable_order, stable_order};
use crate::text::{
    after_last, after_last_exec, char_seqs, chars_eq, chars_of, eq_str, index_of, index_of_exec,
    occurs_at, slice_chars, split_chars, split_on, split_words, string_from_chars, trim,
    trim_chars, words, is_ascii_alnum_spec, is_ws_spec, split_state, words_state, lemma_trim_clean,
    lemma_rfind_char, lemma_index_of, rfind_char,
};
use lightningcss::printer::PrinterOptions;
use lightningcss::rules::CssRule;
use lightningcss::stylesheet::{ParserOptions, StyleSheet};
use lightningcss::traits::ToCss;

verus! {

/// CSS display value.
#[derive(Debug, Clone, Copy, PartialEq, Eq, Structural)]
pub enum Display {
    Block,
    Inline,
    InlineBlock,
    Flex,
    Grid,
    NoDisplay,
    ListItem,
    Table,
    TableRow,
    TableCell,
}

/// CSS font-weight.
#[derive(Debug, Clone, Copy, PartialEq, Eq, Structural)]
pub enum FontWeight {
    Normal,
    Bold,
    Numeric(u16),
}

/// CSS font-style.
#[derive(Debug, Clone, Copy, PartialEq, Eq, Structural)]
pub enum FontStyle {
    Normal,
    Italic,
    Oblique,
}

/// CSS text-decoration.
#[derive(Debug, Clone, Copy, PartialEq, Eq, Structural)]
pub enum TextDecoration {
    NoDecoration,
    Underline,
    LineThrough,
    Overline,
}

/// CSS text-align.
#[derive(Debug, Clone, Copy, PartialEq, Eq, Structural)]
pub enum TextAlign {
    Left,
    Right,
    Center,
    Justify,
}

/// CSS overflow.
#[derive(Debug, Clone, Copy, PartialEq, Eq, Structural)]
pub enum Overflow {
    Visible,
    Hidden,
    Scroll,
    Auto,
}

/// CSS white-space property.
#[derive(Debug, Clone, Copy, PartialEq, Eq, Structural)]
pub enum WhiteSpace {
    Normal,
    NoWrap,
    Pre,
    PreWrap,
    PreLine,
}

/// CSS visibility.
#[derive(Debug, Clone, Copy, PartialEq, Eq, Structural)]
pub enum Visibility {
    Visible,
    Hidden,
    Collapse,
}

/// CSS border-style.
#[derive(Debug, Clone, Copy, PartialEq, Eq, Structural)]
pub enum BorderStyle {
    NoBorder,
    Solid,
    Dashed,
    Dotted,
    Double,
}

/// CSS list-style-type.
#[derive(Debug, Clone, Copy, PartialEq, Eq, Structural)]
pub enum ListStyleType {
    NoMarker,
    Disc,
    Circle,
    Square,
    Decimal,
    LowerAlpha,
    UpperAlpha,
}

/// CSS vertical-align.
#[derive(Debug, Clone, Copy, PartialEq, Eq, Structural)]
pub enum VerticalAlign {
    Baseline,
    Top,
    Middle,
    Bottom,
}

/// CSS cursor.
#[derive(Debug, Clone, Copy, PartialEq, Eq, Structural)]
pub enum Cursor {
    Default,
    Pointer,
    Text,
    Move,
    NotAllowed,
}

/// A single CSS property declaration.
#[derive(Debug)]
pub struct Declaration {
    /// Property name, e.g. "color", "margin-left".
    pub property: String,
    /// Property value as a string, e.g. "red", "16px".
    pub value: String,
    /// Whether this declaration has `!important`.
    pub important: bool,
}

/// A CSS rule: a selector paired with declarations.
#[derive(Debug)]
pub struct Rule {
    /// The CSS selector string, e.g. "div.container > p".
    pub selector: String,
    /// The declarations within this rule block.
    pub declarations: Vec<Declaration>,
    /// Specificity of the selector (a, b, c).
    pub specificity: (u32, u32, u32),
}

/// A parsed CSS stylesheet containing rules.
#[derive(Debug)]
pub struct Stylesheet {
    rules: Vec<Rule>,
}

/// A declaration as values.
pub struct DeclarationView {
    pub property: Seq<char>,
    pub value: Seq<char>,
    pub important: bool,
}

impl View for Declaration {
    type V = DeclarationView;

    open spec fn view(&self) -> DeclarationView {
        DeclarationView { property: self.property@, value: self.value@, important: self.important }
    }
}

/// The views of a sequence of declarations.
pub open spec fn decl_views(ds: Seq<Declaration>) -> Seq<DeclarationView> {
    ds.map_values(|d: Declaration| d@)
}

/// A rule as values.
pub struct RuleView {
    pub selector: Seq<char>,
    pub declarations: Seq<DeclarationView>,
    pub specificity: (u32, u32, u32),
}

impl View for Rule {
    type V = RuleView;

    open spec fn view(&self) -> RuleView {
        RuleView {
            selector: self.selector@,
            declarations: decl_views(self.declarations@),
            specificity: self.specificity,
        }
    }
}

/// The views of a sequence of rules.
pub open spec fn rule_views(rs: Seq<Rule>) -> Seq<RuleView> {
    rs.map_values(|r: Rule| r@)
}

impl View for Stylesheet {
    type V = Seq<RuleView>;

    closed spec fn view(&self) -> Seq<RuleView> {
        rule_views(self.rules@)
    }
}

// ---------------------------------------------------------------------------
// Selectors
// ---------------------------------------------------------------------------

/// The simple selector that a comma-separated part of a selector ends
/// with: its last whitespace-separated word, after its last `>`, trimmed.
pub open spec fn selector_base(part: Seq<char>) -> Seq<char> {
    let sel = trim(part);
    let ws = words(sel);
    let last = if ws.len() > 0 {
        ws.last()
    } else {
        sel
    };
    trim(after_last(last, '>'))
}

/// A part of a selector list matches a tag: its simple selector is `*` or
/// the tag name.
pub open spec fn part_matches_tag(part: Seq<char>, tag: Seq<char>) -> bool {
    selector_base(part) == "*"@ || selector_base(part) == tag
}

/// Some part of the comma-separated selector list matches the tag.
pub open spec fn selector_matches_tag_spec(selector: Seq<char>, tag: Seq<char>) -> bool {
    exists|k: int|
        0 <= k < split_on(selector, ',').len() && part_matches_tag(
            #[trigger] split_on(selector, ',')[k],
            tag,
        )
}

/// The simple selector at the end of a selector part.
pub fn selector_base_exec(part: &[char]) -> (r: Vec<char>)
    ensures
        r@ == selector_base(part@),
{
    let sel = trim_chars(part);
    let ws = split_words(sel.as_slice());
    let last = if ws.len() > 0 {
        assert(char_seqs(ws@).last() == ws@.last()@);
        after_last_exec(ws[ws.len() - 1].as_slice(), '>')
    } else {
        after_last_exec(sel.as_slice(), '>')
    };
    trim_chars(last.as_slice())
}

/// Check if a selector matches a given tag name (simple matching).
pub fn selector_matches_tag(selector: &str, tag: &str) -> (r: bool)
    ensures
        r == selector_matches_tag_spec(selector@, tag@),
{
    let s = chars_of(selector);
    let t = chars_of(tag);
    let parts = split_chars(s.as_slice(), ',');
    let mut i: usize = 0;
    while i < parts.len()
        invariant
            i <= parts@.len(),
            char_seqs(parts@) == split_on(s@, ','),
            s@ == selector@,
            t@ == tag@,
            forall|k: int| 0 <= k < i ==> !part_matches_tag(#[trigger] split_on(selector@, ',')[k], tag@),
        decreases parts@.len() - i,
    {
        let base = selector_base_exec(parts[i].as_slice());
        assert(split_on(selector@, ',')[i as int] == parts@[i as int]@);
        if eq_str(base.as_slice(), "*") || chars_eq(base.as_slice(), t.as_slice()) {
            return true;
        }
        i = i + 1;
    }
    false
}

/// A mark that starts a class (`.`) or an id (`#`) in a simple selector.
pub open spec fn is_mark(c: char) -> bool {
    c == '.' || c == '#'
}

/// Number of leading characters that are not marks.
pub open spec fn name_len(s: Seq<char>) -> nat
    decreases s.len(),
{
    if s.len() == 0 || is_mark(s[0]) {
        0
    } else {
        1 + name_len(s.drop_first())
    }
}

pub proof fn lemma_name_len(s: Seq<char>)
    ensures
        name_len(s) <= s.len(),
        forall|k: int| 0 <= k < name_len(s) ==> !is_mark(#[trigger] s[k]),
        name_len(s) < s.len() ==> is_mark(s[name_len(s) as int]),
    decreases s.len(),
{
    if s.len() > 0 && !is_mark(s[0]) {
        lemma_name_len(s.drop_first());
        assert forall|k: int| 0 <= k < name_len(s) implies !is_mark(#[trigger] s[k]) by {
            if k > 0 {
                assert(s[k] == s.drop_first()[k - 1]);
            }
        }
    }
}

pub proof fn lemma_name_len_at(s: Seq<char>, k: int)
    requires
        0 <= k <= s.len(),
        forall|j: int| 0 <= j < k ==> !is_mark(#[trigger] s[j]),
        k == s.len() || is_mark(s[k]),
    ensures
        name_len(s) == k,
    decreases k,
{
    if k > 0 {
        assert forall|j: int| 0 <= j < k - 1 implies !is_mark(#[trigger] s.drop_first()[j]) by {
            assert(s.drop_first()[j] == s[j + 1]);
        }
        lemma_name_len_at(s.drop_first(), k - 1);
    }
}

/// The tag that a simple selector names: the text before its first mark,
/// none when it starts with a mark, the whole selector when it has none.
pub open spec fn sel_tag(s: Seq<char>) -> Option<Seq<char>> {
    let k = name_len(s);
    if k == s.len() {
        Some(s)
    } else if k > 0 {
        Some(s.take(k as int))
    } else {
        None
    }
}

/// The classes and ids part of a simple selector: from its first mark on.
pub open spec fn sel_rest(s: Seq<char>) -> Seq<char> {
    let k = name_len(s);
    if k == s.len() {
        seq![]
    } else {
        s.skip(k as int)
    }
}

/// The non-empty class names in a classes-and-ids part, in order.
pub open spec fn sel_classes(r: Seq<char>) -> Seq<Seq<char>>
    decreases r.len(),
{
    if r.len() == 0 {
        seq![]
    } else if is_mark(r[0]) {
        let n = name_len(r.skip(1)) as int;
        proof {
            lemma_name_len(r.skip(1));
        }
        let tail = sel_classes(r.skip(1 + n));
        if r[0] == '.' && n > 0 {
            seq![r.subrange(1, 1 + n)] + tail
        } else {
            tail
        }
    } else {
        sel_classes(r.drop_first())
    }
}

/// The last non-empty id in a classes-and-ids part.
pub open spec fn sel_id(r: Seq<char>) -> Option<Seq<char>>
    decreases r.len(),
{
    if r.len() == 0 {
        None
    } else if is_mark(r[0]) {
        let n = name_len(r.skip(1)) as int;
        proof {
            lemma_name_len(r.skip(1));
        }
        match sel_id(r.skip(1 + n)) {
            Some(d) => Some(d),
            None => if r[0] == '#' && n > 0 {
                Some(r.subrange(1, 1 + n))
            } else {
                None
            },
        }
    } else {
        sel_id(r.drop_first())
    }
}

/// Whether a simple selector (no combinators) matches an element with this
/// tag and these attributes: `*` matches everything; otherwise a tag, if
/// given, must be the element's, every class must be among the words of
/// its `class` attribute, an id must be its `id`, and the selector must
/// name at least one of these.
pub open spec fn simple_matches(sel: Seq<char>, tag: Seq<char>, attrs: Seq<(String, String)>) -> bool {
    if sel == "*"@ {
        true
    } else {
        let t = sel_tag(sel);
        let classes = sel_classes(sel_rest(sel));
        let id = sel_id(sel_rest(sel));
        let elem_classes = match attr_value(attrs, "class"@) {
            Some(c) => words(c),
            None => seq![],
        };
        &&& (t matches Some(tt) ==> tt.len() == 0 || tt == tag)
        &&& (forall|k: int| 0 <= k < classes.len() ==> elem_classes.contains(#[trigger] classes[k]))
        &&& (id matches Some(d) ==> attr_value(attrs, "id"@) == Some(d))
        &&& (t is Some || classes.len() > 0 || id is Some)
    }
}

/// Index of the first mark at or after `from`, or the length.
fn next_mark(s: &[char], from: usize) -> (r: usize)
    requires
        from <= s@.len(),
    ensures
        from <= r <= s@.len(),
        r - from == name_len(s@.skip(from as int)),
{
    let mut end: usize = from;
    while end < s.len() && s[end] != '.' && s[end] != '#'
        invariant
            from <= end <= s@.len(),
            forall|j: int| from <= j < end ==> !is_mark(#[trigger] s@[j]),
        decreases s@.len() - end,
    {
        end = end + 1;
    }
    proof {
        let t = s@.skip(from as int);
        assert forall|j: int| 0 <= j < end - from implies !is_mark(#[trigger] t[j]) by {
            assert(t[j] == s@[from + j]);
        }
        if end < s@.len() {
            assert(t[end - from] == s@[end as int]);
        }
        lemma_name_len_at(t, end - from);
    }
    end
}

/// Whether `w` is one of the words of `ws`.
fn word_in(ws: &Vec<Vec<char>>, w: &[char]) -> (r: bool)
    ensures
        r == char_seqs(ws@).contains(w@),
{
    let mut i: usize = 0;
    while i < ws.len()
        invariant
            i <= ws@.len(),
            forall|k: int| 0 <= k < i ==> ws@[k]@ != w@,
        decreases ws@.len() - i,
    {
        if chars_eq(ws[i].as_slice(), w) {
            assert(char_seqs(ws@)[i as int] == w@);
            return true;
        }
        i = i + 1;
    }
    proof {
        if char_seqs(ws@).contains(w@) {
            let k = choose|k: int| 0 <= k < char_seqs(ws@).len() && char_seqs(ws@)[k] == w@;
            assert(ws@[k]@ == w@);
        }
    }
    false
}

/// Check if a simple selector (no combinators) matches an element.
pub fn simple_selector_matches(selector: &str, elem: &Element) -> (r: bool)
    ensures
        r == simple_matches(selector@, elem.tag@, elem.attrs@),
{
    let sel = chars_of(selector);
    if eq_str(sel.as_slice(), "*") {
        return true;
    }
    let k = next_mark(sel.as_slice(), 0);
    assert(sel@.skip(0) =~= sel@);
    let tag: Option<Vec<char>> = if k == sel.len() {
        Some(crate::text::slice_chars(sel.as_slice(), 0, sel.len()))
    } else if k > 0 {
        Some(crate::text::slice_chars(sel.as_slice(), 0, k))
    } else {
        None
    };
    let rest: Vec<char> = if k == sel.len() {
        Vec::new()
    } else {
        crate::text::slice_chars(sel.as_slice(), k, sel.len())
    };
    proof {
        if k == sel@.len() {
            assert(sel@.subrange(0, sel@.len() as int) =~= sel@);
            assert(rest@ =~= seq![]);
        } else {
            assert(rest@ =~= sel@.skip(k as int));
        }
        if k < sel@.len() && k > 0 {
            assert(sel@.subrange(0, k as int) =~= sel@.take(k as int));
        }
    }
    let ghost r = rest@;
    assert(r == sel_rest(selector@));
    let mut classes: Vec<Vec<char>> = Vec::new();
    let mut id: Option<Vec<char>> = None;
    let mut i: usize = 0;
    assert(r.skip(0) =~= r);
    while i < rest.len()
        invariant
            i <= r.len(),
            r == rest@,
            char_seqs(classes@) + sel_classes(r.skip(i as int)) == sel_classes(r),
            sel_id(r) == (match sel_id(r.skip(i as int)) {
                Some(d) => Some(d),
                None => match id {
                    Some(v) => Some(v@),
                    None => None,
                },
            }),
        decreases r.len() - i,
    {
        let ghost q = r.skip(i as int);
        assert(q[0] == r[i as int]);
        if rest[i] == '.' || rest[i] == '#' {
            let start = i + 1;
            let end = next_mark(rest.as_slice(), start);
            proof {
                assert(q.skip(1) =~= r.skip(start as int));
                assert(q.skip(1 + (end - start)) =~= r.skip(end as int));
                lemma_name_len(q.skip(1));
            }
            let name = crate::text::slice_chars(rest.as_slice(), start, end);
            assert(name@ =~= q.subrange(1, 1 + (end - start)));
            if rest[i] == '.' {
                if start < end {
                    let ghost c0 = classes@;
                    classes.push(name);
                    assert(char_seqs(classes@) =~= char_seqs(c0).push(q.subrange(1, 1 + (end - start))));
                    assert(char_seqs(classes@) + sel_classes(r.skip(end as int)) =~= char_seqs(c0) + (
                    seq![q.subrange(1, 1 + (end - start))] + sel_classes(r.skip(end as int))));
                }
            } else {
                if start < end {
                    id = Some(name);
                }
            }
            i = end;
        } else {
            assert(q.drop_first() =~= r.skip(i + 1));
            i = i + 1;
        }
    }
    assert(r.skip(i as int) =~= seq![]);
    assert(char_seqs(classes@) + seq![] =~= char_seqs(classes@));
    // Check tag match.
    match &tag {
        Some(t) => {
            let et = chars_of(elem.tag.as_str());
            if t.len() > 0 && !chars_eq(t.as_slice(), et.as_slice()) {
                return false;
            }
        },
        None => {},
    }
    // Check class match.
    if classes.len() > 0 {
        let elem_classes: Vec<Vec<char>> = match elem.get_attr("class") {
            Some(c) => split_words(chars_of(c.as_str()).as_slice()),
            None => Vec::new(),
        };
        assert(char_seqs(elem_classes@) == (match attr_value(elem.attrs@, "class"@) {
            Some(c) => words(c),
            None => seq![],
        })) by {
            if attr_value(elem.attrs@, "class"@) is None {
                assert(char_seqs(elem_classes@) =~= seq![]);
            }
        }
        let mut j: usize = 0;
        while j < classes.len()
            invariant
                j <= classes@.len(),
                char_seqs(classes@) == sel_classes(sel_rest(selector@)),
                selector@ != "*"@,
                char_seqs(elem_classes@) == (match attr_value(elem.attrs@, "class"@) {
                    Some(c) => words(c),
                    None => seq![],
                }),
                forall|m: int|
                    0 <= m < j ==> char_seqs(elem_classes@).contains(#[trigger] char_seqs(classes@)[m]),
            decreases classes@.len() - j,
        {
            if !word_in(&elem_classes, classes[j].as_slice()) {
                assert(!char_seqs(elem_classes@).contains(char_seqs(classes@)[j as int]));
                assert(sel_classes(sel_rest(selector@))[j as int] == char_seqs(classes@)[j as int]);
                return false;
            }
            j = j + 1;
        }
    }
    // Check ID match.
    match &id {
        Some(d) => {
            match elem.get_attr("id") {
                Some(v) => {
                    if !chars_eq(chars_of(v.as_str()).as_slice(), d.as_slice()) {
                        return false;
                    }
                },
                None => {
                    return false;
                },
            }
        },
        None => {},
    }
    tag.is_some() || classes.len() > 0 || id.is_some()
}

/// Some part of the comma-separated selector list matches the element.
pub open spec fn selector_matches_element_spec(
    selector: Seq<char>,
    tag: Seq<char>,
    attrs: Seq<(String, String)>,
) -> bool {
    exists|k: int|
        0 <= k < split_on(selector, ',').len() && simple_matches(
            selector_base(#[trigger] split_on(selector, ',')[k]),
            tag,
            attrs,
        )
}

/// Check if a selector matches a given element (tag + class + id).
pub fn selector_matches_element(selector: &str, elem: &Element) -> (r: bool)
    ensures
        r == selector_matches_element_spec(selector@, elem.tag@, elem.attrs@),
{
    let s = chars_of(selector);
    let parts = split_chars(s.as_slice(), ',');
    let mut i: usize = 0;
    while i < parts.len()
        invariant
            i <= parts@.len(),
            char_seqs(parts@) == split_on(s@, ','),
            s@ == selector@,
            forall|k: int|
                0 <= k < i ==> !simple_matches(
                    selector_base(#[trigger] split_on(selector@, ',')[k]),
                    elem.tag@,
                    elem.attrs@,
                ),
        decreases parts@.len() - i,
    {
        let base = selector_base_exec(parts[i].as_slice());
        assert(split_on(selector@, ',')[i as int] == parts@[i as int]@);
        let bs = crate::text::string_from_chars(base.as_slice());
        if simple_selector_matches(bs.as_str(), elem) {
            return true;
        }
        i = i + 1;
    }
    false
}

/// Number of times `c` occurs in `s`.
pub open spec fn count_char(s: Seq<char>, c: char) -> nat
    decreases s.len(),
{
    if s.len() == 0 {
        0
    } else {
        count_char(s.drop_last(), c) + if s.last() == c {
            1nat
        } else {
            0nat
        }
    }
}

/// Characters that count toward the class column of specificity.
pub open spec fn is_class_mark(c: char) -> bool {
    c == '.' || c == ':' || c == '['
}

/// Combinators: characters after which a compound selector, and so a
/// type selector, may begin.
pub open spec fn is_combinator(c: char) -> bool {
    c == ' ' || c == '>'
}

pub open spec fn is_ascii_alpha(c: char) -> bool {
    ('a' <= c && c <= 'z') || ('A' <= c && c <= 'Z')
}

/// Number of class marks (`.`, `:` and `[`) in `s`.
pub open spec fn count_class_marks(s: Seq<char>) -> nat
    decreases s.len(),
{
    if s.len() == 0 {
        0
    } else {
        count_class_marks(s.drop_last()) + if is_class_mark(s.last()) {
            1nat
        } else {
            0nat
        }
    }
}

/// Number of type selectors in `s`: the positions holding an ASCII letter
/// that start `s` or follow a combinator (a class, id or pseudo-class name
/// follows its own mark and is not a type).
pub open spec fn count_type_pieces(s: Seq<char>) -> nat
    decreases s.len(),
{
    if s.len() == 0 {
        0
    } else {
        let n = s.len() - 1;
        count_type_pieces(s.drop_last()) + if is_ascii_alpha(s[n]) && (n == 0 || is_combinator(
            s[n - 1],
        )) {
            1nat
        } else {
            0nat
        }
    }
}

/// Estimated specificity of a selector: (ids, classes, types).
pub open spec fn specificity_of(s: Seq<char>) -> (u32, u32, u32) {
    (count_char(s, '#') as u32, count_class_marks(s) as u32, count_type_pieces(s) as u32)
}

/// Estimate specificity from a selector string: (id count, class count, type count).
pub fn compute_selector_specificity(selector: &str) -> (r: (u32, u32, u32))
    ensures
        r == specificity_of(selector@),
{
    let s = chars_of(selector);
    let mut ids: usize = 0;
    let mut classes: usize = 0;
    let mut types: usize = 0;
    let mut i: usize = 0;
    while i < s.len()
        invariant
            i <= s@.len(),
            s@ == selector@,
            ids == count_char(s@.take(i as int), '#'),
            classes == count_class_marks(s@.take(i as int)),
            types == count_type_pieces(s@.take(i as int)),
            ids <= i && classes <= i && types <= i,
        decreases s@.len() - i,
    {
        let ghost t = s@.take(i + 1);
        assert(t.drop_last() =~= s@.take(i as int));
        assert(t.last() == s@[i as int]);
        if i > 0 {
            assert(t[i - 1] == s@[i - 1]);
        }
        let c = s[i];
        if c == '#' {
            ids = ids + 1;
        }
        if c == '.' || c == ':' || c == '[' {
            classes = classes + 1;
        }
        if (('a' <= c && c <= 'z') || ('A' <= c && c <= 'Z')) && (i == 0 || s[i - 1] == ' ' || s[i
            - 1] == '>') {
            types = types + 1;
        }
        i = i + 1;
    }
    assert(s@.take(i as int) =~= s@);
    (ids as u32, classes as u32, types as u32)
}

/// The declarations of the rules whose selector matches the tag, in order.
pub open spec fn decls_for_tag(rules: Seq<RuleView>, tag: Seq<char>) -> Seq<DeclarationView>
    decreases rules.len(),
{
    if rules.len() == 0 {
        seq![]
    } else {
        decls_for_tag(rules.drop_last(), tag) + if selector_matches_tag_spec(
            rules.last().selector,
            tag,
        ) {
            rules.last().declarations
        } else {
            seq![]
        }
    }
}

/// The declarations of the rules whose selector matches the element, each
/// with its rule's specificity, in source order.
pub open spec fn decls_for_element(
    rules: Seq<RuleView>,
    tag: Seq<char>,
    attrs: Seq<(String, String)>,
) -> Seq<(DeclarationView, (u32, u32, u32))>
    decreases rules.len(),
{
    if rules.len() == 0 {
        seq![]
    } else {
        let r = rules.last();
        decls_for_element(rules.drop_last(), tag, attrs) + if selector_matches_element_spec(
            r.selector,
            tag,
            attrs,
        ) {
            r.declarations.map_values(|d: DeclarationView| (d, r.specificity))
        } else {
            seq![]
        }
    }
}

/// A specificity as one number ordered as the triples are.
pub open spec fn specificity_key(sp: (u32, u32, u32)) -> u128 {
    (sp.0 as int * 0x1_0000_0000_0000_0000 + sp.1 as int * 0x1_0000_0000 + sp.2 as int) as u128
}

/// The specificity keys of matched declarations.
pub open spec fn matched_keys(m: Seq<(DeclarationView, (u32, u32, u32))>) -> Seq<u128> {
    m.map_values(|x: (DeclarationView, (u32, u32, u32))| specificity_key(x.1))
}

fn key_of(sp: (u32, u32, u32)) -> (k: u128)
    ensures
        k == specificity_key(sp),
{
    (sp.0 as u128) * 0x1_0000_0000_0000_0000 + (sp.1 as u128) * 0x1_0000_0000 + (sp.2 as u128)
}

impl Stylesheet {
    /// Get all rules in the stylesheet.
    pub fn rules(&self) -> (r: &[Rule])
        ensures
            rule_views(r@) == self@,
    {
        self.rules.as_slice()
    }

    /// Look up declarations that match a given element tag.
    ///
    /// Handles: type selectors, universal selector, and simple
    /// comma-separated selector lists.
    pub fn matching_declarations(&self, tag: &str) -> (r: Vec<&Declaration>)
        ensures
            r@.map_values(|d: &Declaration| d@) == decls_for_tag(self@, tag@),
    {
        let mut result: Vec<&Declaration> = Vec::new();
        let mut i: usize = 0;
        while i < self.rules.len()
            invariant
                i <= self.rules@.len(),
                result@.map_values(|d: &Declaration| d@) == decls_for_tag(
                    rule_views(self.rules@).take(i as int),
                    tag@,
                ),
            decreases self.rules@.len() - i,
        {
            let ghost rv = rule_views(self.rules@);
            assert(rv.take(i + 1).drop_last() =~= rv.take(i as int));
            assert(rv.take(i + 1).last() == self.rules@[i as int]@);
            let rule = &self.rules[i];
            if selector_matches_tag(rule.selector.as_str(), tag) {
                let ghost r0 = result@;
                let mut j: usize = 0;
                while j < rule.declarations.len()
                    invariant
                        j <= rule.declarations@.len(),
                        result@ == r0 + rule.declarations@.take(j as int).map_values(
                            |d: Declaration| &d,
                        ),
                    decreases rule.declarations@.len() - j,
                {
                    result.push(&rule.declarations[j]);
                    assert(rule.declarations@.take(j + 1).map_values(|d: Declaration| &d)
                        =~= rule.declarations@.take(j as int).map_values(|d: Declaration| &d).push(
                        &rule.declarations@[j as int],
                    ));
                    j = j + 1;
                }
                assert(rule.declarations@.take(j as int) =~= rule.declarations@);
                assert(result@.map_values(|d: &Declaration| d@) =~= r0.map_values(
                    |d: &Declaration| d@,
                ) + decl_views(rule.declarations@));
            }
            i = i + 1;
        }
        assert(rule_views(self.rules@).take(i as int) =~= self@);
        result
    }

    /// Look up declarations that match a given element (tag + attrs), in
    /// increasing order of specificity; equal specificities keep source
    /// order.
    pub fn matching_declarations_for_element(&self, elem: &Element) -> (r: Vec<&Declaration>)
        ensures
            ({
                let m = decls_for_element(self@, elem.tag@, elem.attrs@);
                &&& r@.len() == m.len()
                &&& exists|ord: Seq<usize>|
                    {
                        &&& is_stable_order(matched_keys(m), ord, m.len() as int, false)
                        &&& forall|k: int|
                            0 <= k < r@.len() ==> (*#[trigger] r@[k])@ == m[ord[k] as int].0
                    }
            }),
    {
        let ghost rv = rule_views(self.rules@);
        let mut matched: Vec<&Declaration> = Vec::new();
        let mut keys: Vec<u128> = Vec::new();
        let mut i: usize = 0;
        while i < self.rules.len()
            invariant
                i <= self.rules@.len(),
                rv == rule_views(self.rules@),
                matched@.len() == keys@.len(),
                matched@.len() == decls_for_element(rv.take(i as int), elem.tag@, elem.attrs@).len(),
                forall|k: int|
                    0 <= k < matched@.len() ==> (*#[trigger] matched@[k])@ == decls_for_element(
                        rv.take(i as int),
                        elem.tag@,
                        elem.attrs@,
                    )[k].0,
                keys@ == matched_keys(decls_for_element(rv.take(i as int), elem.tag@, elem.attrs@)),
            decreases self.rules@.len() - i,
        {
            assert(rv.take(i + 1).drop_last() =~= rv.take(i as int));
            assert(rv.take(i + 1).last() == self.rules@[i as int]@);
            let rule = &self.rules[i];
            let ghost before = decls_for_element(rv.take(i as int), elem.tag@, elem.attrs@);
            let ghost after = decls_for_element(rv.take(i + 1), elem.tag@, elem.attrs@);
            if selector_matches_element(rule.selector.as_str(), elem) {
                let key = key_of(rule.specificity);
                let ghost added = rule@.declarations.map_values(
                    |d: DeclarationView| (d, rule@.specificity),
                );
                assert(after == before + added);
                let mut j: usize = 0;
                while j < rule.declarations.len()
                    invariant
                        j <= rule.declarations@.len(),
                        added.len() == rule.declarations@.len(),
                        added == rule@.declarations.map_values(
                            |d: DeclarationView| (d, rule@.specificity),
                        ),
                        key == specificity_key(rule.specificity),
                        matched@.len() == keys@.len() == before.len() + j,
                        forall|k: int|
                            0 <= k < matched@.len() ==> (*#[trigger] matched@[k])@ == (before
                                + added)[k].0,
                        keys@ == matched_keys(before + added.take(j as int)),
                    decreases rule.declarations@.len() - j,
                {
                    matched.push(&rule.declarations[j]);
                    keys.push(key);
                    assert(matched_keys(before + added.take(j + 1)) =~= matched_keys(
                        before + added.take(j as int),
                    ).push(key));
                    j = j + 1;
                }
                assert(added.take(j as int) =~= added);
            } else {
                assert(after =~= before);
            }
            i = i + 1;
        }
        assert(rv.take(i as int) =~= self@);
        let ghost m = decls_for_element(self@, elem.tag@, elem.attrs@);
        let ord = stable_order(&keys, false);
        let n = matched.len();
        let mut out: Vec<&Declaration> = Vec::new();
        let mut j: usize = 0;
        while j < n
            invariant
                j <= n == matched@.len() == ord@.len() == m.len(),
                is_stable_order(matched_keys(m), ord@, n as int, false),
                forall|k: int| 0 <= k < n ==> (*#[trigger] matched@[k])@ == m[k].0,
                out@.len() == j,
                forall|k: int| 0 <= k < j ==> (*#[trigger] out@[k])@ == m[ord@[k] as int].0,
            decreases n - j,
        {
            let o = ord[j];
            assert(o < n);
            out.push(matched[o]);
            j = j + 1;
        }
        out
    }
}

/// What `lightningcss` makes of a stylesheet, printed back as text: `None`
/// when the text does not parse; otherwise, for each top-level rule in
/// order, a style rule as its selector list and its declarations (each as
/// `property: value`, and whether it is `!important`), any other rule as
/// `None`.
pub uninterp spec fn css_rule_texts(css: Seq<char>) -> Option<
    Seq<Option<(Seq<char>, Seq<(Seq<char>, bool)>)>>,
>;

/// The rule texts handed back by the parser, as values.
pub open spec fn raw_rules_view(r: Option<Vec<Option<(String, Vec<(String, bool)>)>>>) -> Option<
    Seq<Option<(Seq<char>, Seq<(Seq<char>, bool)>)>>,
> {
    match r {
        Some(v) => Some(
            v@.map_values(
                |x: Option<(String, Vec<(String, bool)>)>|
                    match x {
                        Some(p) => Some((p.0@, p.1@.map_values(|d: (String, bool)| (d.0@, d.1)))),
                        None => None,
                    },
            ),
        ),
        None => None,
    }
}

/// `lightningcss::stylesheet::StyleSheet::parse` with default options, each
/// top-level rule handed out as text: a style rule's selectors and
/// declarations printed with `ToCss::to_css_string` and
/// `Property::to_css_string`, other rules as `None`. Claims only that the
/// result is the value named `css_rule_texts` of the argument.
#[verifier::external_body]
fn parse_css_rules(css: &str) -> (r: Option<Vec<Option<(String, Vec<(String, bool)>)>>>)
    ensures
        raw_rules_view(r) == css_rule_texts(css@),
{
    let sheet = StyleSheet::parse(css, ParserOptions::default()).ok()?;
    Some(sheet.rules.0.iter().map(|rule| match rule {
        CssRule::Style(s) => Some((
            s.selectors.to_css_string(PrinterOptions::default()).unwrap_or_default(),
            s.declarations.iter().map(|(p, imp)|
                (p.to_css_string(imp, PrinterOptions::default()).unwrap_or_default(), imp)).collect(),
        )),
        _ => None,
    }).collect())
}

/// A printed declaration `property: value` split at its first `": "`.
pub open spec fn split_decl(t: Seq<char>) -> Option<(Seq<char>, Seq<char>)> {
    match index_of(t, ": "@) {
        Some(i) => Some((t.take(i), t.skip(i + ": "@.len()))),
        None => None,
    }
}

/// The declarations read from printed declarations; those without `": "`
/// are left out.
pub open spec fn decls_from_texts(ds: Seq<(Seq<char>, bool)>) -> Seq<DeclarationView>
    decreases ds.len(),
{
    if ds.len() == 0 {
        seq![]
    } else {
        decls_from_texts(ds.drop_last()) + match split_decl(ds.last().0) {
            Some(pv) => seq![
                DeclarationView { property: pv.0, value: pv.1, important: ds.last().1 },
            ],
            None => seq![],
        }
    }
}

/// The rules read from the parser's rule texts: the style rules, in order,
/// each with the specificity of its selector.
pub open spec fn rules_from_texts(rs: Seq<Option<(Seq<char>, Seq<(Seq<char>, bool)>)>>) -> Seq<
    RuleView,
>
    decreases rs.len(),
{
    if rs.len() == 0 {
        seq![]
    } else {
        rules_from_texts(rs.drop_last()) + match rs.last() {
            Some(r) => seq![
                RuleView {
                    selector: r.0,
                    declarations: decls_from_texts(r.1),
                    specificity: specificity_of(r.0),
                },
            ],
            None => seq![],
        }
    }
}

/// The stylesheet read from the parser's answer: no rules when the text
/// did not parse.
pub open spec fn sheet_from_texts(t: Option<Seq<Option<(Seq<char>, Seq<(Seq<char>, bool)>)>>>) -> Seq<
    RuleView,
> {
    match t {
        Some(rs) => rules_from_texts(rs),
        None => seq![],
    }
}

/// Splits a printed declaration into property and value.
pub fn split_declaration(t: &str) -> (r: Option<(String, String)>)
    ensures
        match r {
            Some(pv) => split_decl(t@) == Some((pv.0@, pv.1@)),
            None => split_decl(t@) is None,
        },
{
    let c = chars_of(t);
    let sep = chars_of(": ");
    match index_of_exec(c.as_slice(), sep.as_slice()) {
        Some(i) => {
            assert(occurs_at(c@, sep@, i as int));
            assert(c@.len() == c.len() && sep@.len() == sep.len());
            let p = slice_chars(c.as_slice(), 0, i);
            let v = slice_chars(c.as_slice(), i + sep.len(), c.len());
            assert(p@ =~= c@.take(i as int));
            assert(v@ =~= c@.skip(i + sep@.len()));
            Some((string_from_chars(p.as_slice()), string_from_chars(v.as_slice())))
        },
        None => None,
    }
}

impl Stylesheet {
    /// The stylesheet made of the parser's rule texts.
    pub fn from_rule_texts(texts: Option<Vec<Option<(String, Vec<(String, bool)>)>>>) -> (r: Stylesheet)
        ensures
            r@ == sheet_from_texts(raw_rules_view(texts)),
    {
        let mut rules: Vec<Rule> = Vec::new();
        match texts {
            None => {
                assert(rule_views(rules@) =~= seq![]);
            },
            Some(v) => {
                let ghost rs = raw_rules_view(Some(v)).unwrap();
                let mut i: usize = 0;
                while i < v.len()
                    invariant
                        i <= v@.len() == rs.len(),
                        rs == raw_rules_view(Some(v)).unwrap(),
                        rule_views(rules@) == rules_from_texts(rs.take(i as int)),
                    decreases v@.len() - i,
                {
                    assert(rs.take(i + 1).drop_last() =~= rs.take(i as int));
                    assert(rs.take(i + 1).last() == rs[i as int]);
                    match &v[i] {
                        Some(rt) => {
                            let ghost ds = rt.1@.map_values(|d: (String, bool)| (d.0@, d.1));
                            assert(rs[i as int] == Some((rt.0@, ds)));
                            let mut decls: Vec<Declaration> = Vec::new();
                            let mut j: usize = 0;
                            while j < rt.1.len()
                                invariant
                                    j <= rt.1@.len() == ds.len(),
                                    ds == rt.1@.map_values(|d: (String, bool)| (d.0@, d.1)),
                                    decl_views(decls@) == decls_from_texts(ds.take(j as int)),
                                decreases rt.1@.len() - j,
                            {
                                assert(ds.take(j + 1).drop_last() =~= ds.take(j as int));
                                assert(ds.take(j + 1).last() == ds[j as int]);
                                let d = &rt.1[j];
                                match split_declaration(d.0.as_str()) {
                                    Some(pv) => {
                                        let ghost d0 = decls@;
                                        decls.push(
                                            Declaration { property: pv.0, value: pv.1, important: d.1 },
                                        );
                                        assert(decl_views(decls@) =~= decl_views(d0).push(
                                            decls@.last()@,
                                        ));
                                    },
                                    None => {},
                                }
                                j = j + 1;
                            }
                            assert(ds.take(j as int) =~= ds);
                            let selector = string_from_chars(chars_of(rt.0.as_str()).as_slice());
                            let specificity = compute_selector_specificity(selector.as_str());
                            let ghost r0 = rules@;
                            rules.push(Rule { selector, declarations: decls, specificity });
                            assert(rule_views(rules@) =~= rule_views(r0).push(rules@.last()@));
                        },
                        None => {},
                    }
                    i = i + 1;
                }
                assert(rs.take(i as int) =~= rs);
            },
        }
        Stylesheet { rules }
    }

    /// Parse a CSS string into a `Stylesheet`.
    ///
    /// Unrecognised or invalid rules are silently skipped to match browser
    /// behaviour; text that does not parse gives an empty stylesheet.
    pub fn parse(css: &str) -> (r: Stylesheet)
        ensures
            r@ == sheet_from_texts(css_rule_texts(css@)),
    {
        Stylesheet::from_rule_texts(parse_css_rules(css))
    }
}

// ---------------------------------------------------------------------------
// Applying declarations
// ---------------------------------------------------------------------------

/// The keyword-valued part of a computed style: every property that is not
/// a length.
#[derive(Debug)]
pub struct KeywordStyle {
    pub display: Display,
    pub color: String,
    pub background: String,
    pub font_weight: FontWeight,
    pub font_style: FontStyle,
    pub border_color: String,
    pub border_style: BorderStyle,
    pub text_decoration: TextDecoration,
    pub text_align: TextAlign,
    pub overflow: Overflow,
    pub white_space: WhiteSpace,
    pub visibility: Visibility,
    pub list_style_type: ListStyleType,
    pub vertical_align: VerticalAlign,
    pub cursor: Cursor,
}

/// A keyword style as values.
pub struct KeywordStyleView {
    pub display: Display,
    pub color: Seq<char>,
    pub background: Seq<char>,
    pub font_weight: FontWeight,
    pub font_style: FontStyle,
    pub border_color: Seq<char>,
    pub border_style: BorderStyle,
    pub text_decoration: TextDecoration,
    pub text_align: TextAlign,
    pub overflow: Overflow,
    pub white_space: WhiteSpace,
    pub visibility: Visibility,
    pub list_style_type: ListStyleType,
    pub vertical_align: VerticalAlign,
    pub cursor: Cursor,
}

impl View for KeywordStyle {
    type V = KeywordStyleView;

    open spec fn view(&self) -> KeywordStyleView {
        KeywordStyleView {
            display: self.display,
            color: self.color@,
            background: self.background@,
            font_weight: self.font_weight,
            font_style: self.font_style,
            border_color: self.border_color@,
            border_style: self.border_style,
            text_decoration: self.text_decoration,
            text_align: self.text_align,
            overflow: self.overflow,
            white_space: self.white_space,
            visibility: self.visibility,
            list_style_type: self.list_style_type,
            vertical_align: self.vertical_align,
            cursor: self.cursor,
        }
    }
}

/// The initial keyword style.
pub open spec fn initial_keywords() -> KeywordStyleView {
    KeywordStyleView {
        display: Display::Inline,
        color: "#000000"@,
        background: "transparent"@,
        font_weight: FontWeight::Normal,
        font_style: FontStyle::Normal,
        border_color: "#000000"@,
        border_style: BorderStyle::NoBorder,
        text_decoration: TextDecoration::NoDecoration,
        text_align: TextAlign::Left,
        overflow: Overflow::Visible,
        white_space: WhiteSpace::Normal,
        visibility: Visibility::Visible,
        list_style_type: ListStyleType::Disc,
        vertical_align: VerticalAlign::Baseline,
        cursor: Cursor::Default,
    }
}

impl Default for KeywordStyle {
    fn default() -> (r: Self)
        ensures
            r@ == initial_keywords(),
    {
        KeywordStyle {
            display: Display::Inline,
            color: "#000000".to_owned(),
            background: "transparent".to_owned(),
            font_weight: FontWeight::Normal,
            font_style: FontStyle::Normal,
            border_color: "#000000".to_owned(),
            border_style: BorderStyle::NoBorder,
            text_decoration: TextDecoration::NoDecoration,
            text_align: TextAlign::Left,
            overflow: Overflow::Visible,
            white_space: WhiteSpace::Normal,
            visibility: Visibility::Visible,
            list_style_type: ListStyleType::Disc,
            vertical_align: VerticalAlign::Baseline,
            cursor: Cursor::Default,
        }
    }
}

impl KeywordStyle {
    /// A copy of this style.
    pub fn copy(&self) -> (r: KeywordStyle)
        ensures
            r@ == self@,
    {
        KeywordStyle {
            display: self.display,
            color: self.color.clone(),
            background: self.background.clone(),
            font_weight: self.font_weight,
            font_style: self.font_style,
            border_color: self.border_color.clone(),
            border_style: self.border_style,
            text_decoration: self.text_decoration,
            text_align: self.text_align,
            overflow: self.overflow,
            white_space: self.white_space,
            visibility: self.visibility,
            list_style_type: self.list_style_type,
            vertical_align: self.vertical_align,
            cursor: self.cursor,
        }
    }
}

/// Decimal digits, with an optional leading `+` (`str::parse::<u16>`):
/// the number, when there is at least one digit, nothing else, and the
/// number fits in 16 bits.
pub open spec fn digits_value(d: Seq<char>) -> int
    decreases d.len(),
{
    if d.len() == 0 {
        0
    } else {
        digits_value(d.drop_last()) * 10 + (d.last() as int - '0' as int)
    }
}

pub open spec fn all_digits(d: Seq<char>) -> bool {
    forall|k: int| 0 <= k < d.len() ==> '0' <= #[trigger] d[k] && d[k] <= '9'
}

pub open spec fn parse_u16_spec(v: Seq<char>) -> Option<u16> {
    let d = if v.len() > 0 && v[0] == '+' {
        v.drop_first()
    } else {
        v
    };
    if d.len() > 0 && all_digits(d) && digits_value(d) <= 0xffff {
        Some(digits_value(d) as u16)
    } else {
        None
    }
}

proof fn lemma_digits_value_nonneg(d: Seq<char>)
    requires
        all_digits(d),
    ensures
        digits_value(d) >= 0,
    decreases d.len(),
{
    if d.len() > 0 {
        lemma_digits_value_nonneg(d.drop_last());
    }
}

proof fn lemma_digits_value_mono(d: Seq<char>, k: int)
    requires
        all_digits(d),
        0 <= k <= d.len(),
    ensures
        digits_value(d.take(k)) <= digits_value(d),
    decreases d.len() - k,
{
    if k < d.len() {
        assert(d.take(d.len() as int) =~= d);
        let e = d.take(k + 1);
        assert(e.drop_last() =~= d.take(k));
        assert(all_digits(d.take(k + 1)));
        lemma_digits_value_nonneg(d.take(k));
        lemma_digits_value_mono(d, k + 1);
    } else {
        assert(d.take(k) =~= d);
    }
}

/// Parses a 16-bit unsigned number.
pub fn parse_u16(v: &[char]) -> (r: Option<u16>)
    ensures
        r == parse_u16_spec(v@),
{
    let start: usize = if v.len() > 0 && v[0] == '+' {
        1
    } else {
        0
    };
    let ghost d = if v@.len() > 0 && v@[0] == '+' {
        v@.drop_first()
    } else {
        v@
    };
    assert(d =~= v@.skip(start as int));
    if start == v.len() {
        return None;
    }
    let mut n: u32 = 0;
    let mut i: usize = start;
    while i < v.len()
        invariant
            start <= i <= v@.len(),
            d == v@.skip(start as int),
            d == (if v@.len() > 0 && v@[0] == '+' {
                v@.drop_first()
            } else {
                v@
            }),
            all_digits(d.take(i - start)),
            n == digits_value(d.take(i - start)),
            n <= 0xffff,
        decreases v@.len() - i,
    {
        let c = v[i];
        assert(d[i - start] == c);
        if c < '0' || c > '9' {
            assert(!all_digits(d));
            return None;
        }
        let ghost e = d.take(i - start + 1);
        assert(e.drop_last() =~= d.take(i - start));
        assert(all_digits(e));
        let digit = (c as u32) - ('0' as u32);
        let m = n * 10 + digit;
        if m > 0xffff {
            proof {
                if all_digits(d) {
                    lemma_digits_value_mono(d, i - start + 1);
                }
            }
            return None;
        }
        n = m;
        i = i + 1;
    }
    assert(d.take(i - start) =~= d);
    Some(n as u16)
}

/// The font weight a value names: `bold`/`700`, `normal`/`400`, another
/// number, and normal for anything else.
#[verifier::opaque]
pub open spec fn font_weight_of(v: Seq<char>) -> FontWeight {
    if v == "bold"@ || v == "700"@ {
        FontWeight::Bold
    } else if v == "normal"@ || v == "400"@ {
        FontWeight::Normal
    } else {
        match parse_u16_spec(v) {
            Some(n) => FontWeight::Numeric(n),
            None => FontWeight::Normal,
        }
    }
}

fn font_weight_exec(v: &[char]) -> (r: FontWeight)
    ensures
        r == font_weight_of(v@),
{
    proof {
        reveal(font_weight_of);
    }
    if eq_str(v, "bold") || eq_str(v, "700") {
        FontWeight::Bold
    } else if eq_str(v, "normal") || eq_str(v, "400") {
        FontWeight::Normal
    } else {
        match parse_u16(v) {
            Some(n) => FontWeight::Numeric(n),
            None => FontWeight::Normal,
        }
    }
}

/// The `FontStyle` a keyword names, if any.
#[verifier::opaque]
pub open spec fn font_style_keyword(v: Seq<char>) -> Option<FontStyle> {
    if v == "italic"@ {
        Some(FontStyle::Italic)
    } else if v == "oblique"@ {
        Some(FontStyle::Oblique)
    } else {
        None
    }
}

fn font_style_keyword_exec(v: &[char]) -> (r: Option<FontStyle>)
    ensures
        r == font_style_keyword(v@),
{
    proof {
        reveal(font_style_keyword);
    }
    if eq_str(v, "italic") {
        Some(FontStyle::Italic)
    } else if eq_str(v, "oblique") {
        Some(FontStyle::Oblique)
    } else {
        None
    }
}

/// The `Display` a keyword names, if any.
#[verifier::opaque]
pub open spec fn display_keyword(v: Seq<char>) -> Option<Display> {
    if v == "block"@ {
        Some(Display::Block)
    } else if v == "inline"@ {
        Some(Display::Inline)
    } else if v == "inline-block"@ {
        Some(Display::InlineBlock)
    } else if v == "flex"@ {
        Some(Display::Flex)
    } else if v == "grid"@ {
        Some(Display::Grid)
    } else if v == "none"@ {
        Some(Display::NoDisplay)
    } else if v == "list-item"@ {
        Some(Display::ListItem)
    } else if v == "table"@ {
        Some(Display::Table)
    } else if v == "table-row"@ {
        Some(Display::TableRow)
    } else if v == "table-cell"@ {
        Some(Display::TableCell)
    } else {
        None
    }
}

fn display_keyword_exec(v: &[char]) -> (r: Option<Display>)
    ensures
        r == display_keyword(v@),
{
    proof {
        reveal(display_keyword);
    }
    if eq_str(v, "block") {
        Some(Display::Block)
    } else if eq_str(v, "inline") {
        Some(Display::Inline)
    } else if eq_str(v, "inline-block") {
        Some(Display::InlineBlock)
    } else if eq_str(v, "flex") {
        Some(Display::Flex)
    } else if eq_str(v, "grid") {
        Some(Display::Grid)
    } else if eq_str(v, "none") {
        Some(Display::NoDisplay)
    } else if eq_str(v, "list-item") {
        Some(Display::ListItem)
    } else if eq_str(v, "table") {
        Some(Display::Table)
    } else if eq_str(v, "table-row") {
        Some(Display::TableRow)
    } else if eq_str(v, "table-cell") {
        Some(Display::TableCell)
    } else {
        None
    }
}

/// The `TextDecoration` a keyword names, if any.
#[verifier::opaque]
pub open spec fn text_decoration_keyword(v: Seq<char>) -> Option<TextDecoration> {
    if v == "underline"@ {
        Some(TextDecoration::Underline)
    } else if v == "line-through"@ {
        Some(TextDecoration::LineThrough)
    } else if v == "overline"@ {
        Some(TextDecoration::Overline)
    } else if v == "none"@ {
        Some(TextDecoration::NoDecoration)
    } else {
        None
    }
}

fn text_decoration_keyword_exec(v: &[char]) -> (r: Option<TextDecoration>)
    ensures
        r == text_decoration_keyword(v@),
{
    proof {
        reveal(text_decoration_keyword);
    }
    if eq_str(v, "underline") {
        Some(TextDecoration::Underline)
    } else if eq_str(v, "line-through") {
        Some(TextDecoration::LineThrough)
    } else if eq_str(v, "overline") {
        Some(TextDecoration::Overline)
    } else if eq_str(v, "none") {
        Some(TextDecoration::NoDecoration)
    } else {
        None
    }
}

/// The `TextAlign` a keyword names, if any.
#[verifier::opaque]
pub open spec fn text_align_keyword(v: Seq<char>) -> Option<TextAlign> {
    if v == "left"@ {
        Some(TextAlign::Left)
    } else if v == "right"@ {
        Some(TextAlign::Right)
    } else if v == "center"@ {
        Some(TextAlign::Center)
    } else if v == "justify"@ {
        Some(TextAlign::Justify)
    } else {
        None
    }
}

fn text_align_keyword_exec(v: &[char]) -> (r: Option<TextAlign>)
    ensures
        r == text_align_keyword(v@),
{
    proof {
        reveal(text_align_keyword);
    }
    if eq_str(v, "left") {
        Some(TextAlign::Left)
    } else if eq_str(v, "right") {
        Some(TextAlign::Right)
    } else if eq_str(v, "center") {
        Some(TextAlign::Center)
    } else if eq_str(v, "justify") {
        Some(TextAlign::Justify)
    } else {
        None
    }
}

/// The `Overflow` a keyword names, if any.
#[verifier::opaque]
pub open spec fn overflow_keyword(v: Seq<char>) -> Option<Overflow> {
    if v == "visible"@ {
        Some(Overflow::Visible)
    } else if v == "hidden"@ {
        Some(Overflow::Hidden)
    } else if v == "scroll"@ {
        Some(Overflow::Scroll)
    } else if v == "auto"@ {
        Some(Overflow::Auto)
    } else {
        None
    }
}

fn overflow_keyword_exec(v: &[char]) -> (r: Option<Overflow>)
    ensures
        r == overflow_keyword(v@),
{
    proof {
        reveal(overflow_keyword);
    }
    if eq_str(v, "visible") {
        Some(Overflow::Visible)
    } else if eq_str(v, "hidden") {
        Some(Overflow::Hidden)
    } else if eq_str(v, "scroll") {
        Some(Overflow::Scroll)
    } else if eq_str(v, "auto") {
        Some(Overflow::Auto)
    } else {
        None
    }
}

/// The `WhiteSpace` a keyword names, if any.
#[verifier::opaque]
pub open spec fn white_space_keyword(v: Seq<char>) -> Option<WhiteSpace> {
    if v == "normal"@ {
        Some(WhiteSpace::Normal)
    } else if v == "nowrap"@ {
        Some(WhiteSpace::NoWrap)
    } else if v == "pre"@ {
        Some(WhiteSpace::Pre)
    } else if v == "pre-wrap"@ {
        Some(WhiteSpace::PreWrap)
    } else if v == "pre-line"@ {
        Some(WhiteSpace::PreLine)
    } else {
        None
    }
}

fn white_space_keyword_exec(v: &[char]) -> (r: Option<WhiteSpace>)
    ensures
        r == white_space_keyword(v@),
{
    proof {
        reveal(white_space_keyword);
    }
    if eq_str(v, "normal") {
        Some(WhiteSpace::Normal)
    } else if eq_str(v, "nowrap") {
        Some(WhiteSpace::NoWrap)
    } else if eq_str(v, "pre") {
        Some(WhiteSpace::Pre)
    } else if eq_str(v, "pre-wrap") {
        Some(WhiteSpace::PreWrap)
    } else if eq_str(v, "pre-line") {
        Some(WhiteSpace::PreLine)
    } else {
        None
    }
}

/// The `Visibility` a keyword names, if any.
#[verifier::opaque]
pub open spec fn visibility_keyword(v: Seq<char>) -> Option<Visibility> {
    if v == "visible"@ {
        Some(Visibility::Visible)
    } else if v == "hidden"@ {
        Some(Visibility::Hidden)
    } else if v == "collapse"@ {
        Some(Visibility::Collapse)
    } else {
        None
    }
}

fn visibility_keyword_exec(v: &[char]) -> (r: Option<Visibility>)
    ensures
        r == visibility_keyword(v@),
{
    proof {
        reveal(visibility_keyword);
    }
    if eq_str(v, "visible") {
        Some(Visibility::Visible)
    } else if eq_str(v, "hidden") {
        Some(Visibility::Hidden)
    } else if eq_str(v, "collapse") {
        Some(Visibility::Collapse)
    } else {
        None
    }
}

/// The `BorderStyle` a keyword names, if any.
#[verifier::opaque]
pub open spec fn border_style_keyword(v: Seq<char>) -> Option<BorderStyle> {
    if v == "none"@ {
        Some(BorderStyle::NoBorder)
    } else if v == "solid"@ {
        Some(BorderStyle::Solid)
    } else if v == "dashed"@ {
        Some(BorderStyle::Dashed)
    } else if v == "dotted"@ {
        Some(BorderStyle::Dotted)
    } else if v == "double"@ {
        Some(BorderStyle::Double)
    } else {
        None
    }
}

fn border_style_keyword_exec(v: &[char]) -> (r: Option<BorderStyle>)
    ensures
        r == border_style_keyword(v@),
{
    proof {
        reveal(border_style_keyword);
    }
    if eq_str(v, "none") {
        Some(BorderStyle::NoBorder)
    } else if eq_str(v, "solid") {
        Some(BorderStyle::Solid)
    } else if eq_str(v, "dashed") {
        Some(BorderStyle::Dashed)
    } else if eq_str(v, "dotted") {
        Some(BorderStyle::Dotted)
    } else if eq_str(v, "double") {
        Some(BorderStyle::Double)
    } else {
        None
    }
}

/// The `BorderStyle` a keyword names, if any.
#[verifier::opaque]
pub open spec fn border_shorthand_style(v: Seq<char>) -> Option<BorderStyle> {
    if v == "solid"@ {
        Some(BorderStyle::Solid)
    } else if v == "dashed"@ {
        Some(BorderStyle::Dashed)
    } else if v == "dotted"@ {
        Some(BorderStyle::Dotted)
    } else if v == "none"@ {
        Some(BorderStyle::NoBorder)
    } else {
        None
    }
}

fn border_shorthand_style_exec(v: &[char]) -> (r: Option<BorderStyle>)
    ensures
        r == border_shorthand_style(v@),
{
    proof {
        reveal(border_shorthand_style);
    }
    if eq_str(v, "solid") {
        Some(BorderStyle::Solid)
    } else if eq_str(v, "dashed") {
        Some(BorderStyle::Dashed)
    } else if eq_str(v, "dotted") {
        Some(BorderStyle::Dotted)
    } else if eq_str(v, "none") {
        Some(BorderStyle::NoBorder)
    } else {
        None
    }
}

/// The `ListStyleType` a keyword names, if any.
#[verifier::opaque]
pub open spec fn list_style_keyword(v: Seq<char>) -> Option<ListStyleType> {
    if v == "none"@ {
        Some(ListStyleType::NoMarker)
    } else if v == "disc"@ {
        Some(ListStyleType::Disc)
    } else if v == "circle"@ {
        Some(ListStyleType::Circle)
    } else if v == "square"@ {
        Some(ListStyleType::Square)
    } else if v == "decimal"@ {
        Some(ListStyleType::Decimal)
    } else if v == "lower-alpha"@ {
        Some(ListStyleType::LowerAlpha)
    } else if v == "upper-alpha"@ {
        Some(ListStyleType::UpperAlpha)
    } else {
        None
    }
}

fn list_style_keyword_exec(v: &[char]) -> (r: Option<ListStyleType>)
    ensures
        r == list_style_keyword(v@),
{
    proof {
        reveal(list_style_keyword);
    }
    if eq_str(v, "none") {
        Some(ListStyleType::NoMarker)
    } else if eq_str(v, "disc") {
        Some(ListStyleType::Disc)
    } else if eq_str(v, "circle") {
        Some(ListStyleType::Circle)
    } else if eq_str(v, "square") {
        Some(ListStyleType::Square)
    } else if eq_str(v, "decimal") {
        Some(ListStyleType::Decimal)
    } else if eq_str(v, "lower-alpha") {
        Some(ListStyleType::LowerAlpha)
    } else if eq_str(v, "upper-alpha") {
        Some(ListStyleType::UpperAlpha)
    } else {
        None
    }
}

/// The `VerticalAlign` a keyword names, if any.
#[verifier::opaque]
pub open spec fn vertical_align_keyword(v: Seq<char>) -> Option<VerticalAlign> {
    if v == "baseline"@ {
        Some(VerticalAlign::Baseline)
    } else if v == "top"@ {
        Some(VerticalAlign::Top)
    } else if v == "middle"@ {
        Some(VerticalAlign::Middle)
    } else if v == "bottom"@ {
        Some(VerticalAlign::Bottom)
    } else {
        None
    }
}

fn vertical_align_keyword_exec(v: &[char]) -> (r: Option<VerticalAlign>)
    ensures
        r == vertical_align_keyword(v@),
{
    proof {
        reveal(vertical_align_keyword);
    }
    if eq_str(v, "baseline") {
        Some(VerticalAlign::Baseline)
    } else if eq_str(v, "top") {
        Some(VerticalAlign::Top)
    } else if eq_str(v, "middle") {
        Some(VerticalAlign::Middle)
    } else if eq_str(v, "bottom") {
        Some(VerticalAlign::Bottom)
    } else {
        None
    }
}

/// The `Cursor` a keyword names, if any.
#[verifier::opaque]
pub open spec fn cursor_keyword(v: Seq<char>) -> Option<Cursor> {
    if v == "default"@ {
        Some(Cursor::Default)
    } else if v == "pointer"@ {
        Some(Cursor::Pointer)
    } else if v == "text"@ {
        Some(Cursor::Text)
    } else if v == "move"@ {
        Some(Cursor::Move)
    } else if v == "not-allowed"@ {
        Some(Cursor::NotAllowed)
    } else {
        None
    }
}

fn cursor_keyword_exec(v: &[char]) -> (r: Option<Cursor>)
    ensures
        r == cursor_keyword(v@),
{
    proof {
        reveal(cursor_keyword);
    }
    if eq_str(v, "default") {
        Some(Cursor::Default)
    } else if eq_str(v, "pointer") {
        Some(Cursor::Pointer)
    } else if eq_str(v, "text") {
        Some(Cursor::Text)
    } else if eq_str(v, "move") {
        Some(Cursor::Move)
    } else if eq_str(v, "not-allowed") {
        Some(Cursor::NotAllowed)
    } else {
        None
    }
}


/// `k` when the keyword names one, `old` otherwise.
pub open spec fn or_keep<T>(k: Option<T>, old: T) -> T {
    match k {
        Some(x) => x,
        None => old,
    }
}

/// The keyword-valued properties that declarations can set.
#[derive(Debug, Clone, Copy, PartialEq, Eq, Structural)]
pub enum KeywordProperty {
    Color,
    Background,
    FontWeightProp,
    FontStyleProp,
    DisplayProp,
    TextDecorationProp,
    TextAlignProp,
    OverflowProp,
    WhiteSpaceProp,
    VisibilityProp,
    BorderStyleProp,
    ListStyleTypeProp,
    VerticalAlignProp,
    CursorProp,
    BorderShorthand,
    BorderColor,
    NotKeyword,
}

/// The keyword-valued property a property name sets.
#[verifier::opaque]
pub open spec fn keyword_property(p: Seq<char>) -> KeywordProperty {
    if p == "color"@ {
        KeywordProperty::Color
    } else if p == "background"@ || p == "background-color"@ {
        KeywordProperty::Background
    } else if p == "font-weight"@ {
        KeywordProperty::FontWeightProp
    } else if p == "font-style"@ {
        KeywordProperty::FontStyleProp
    } else if p == "display"@ {
        KeywordProperty::DisplayProp
    } else if p == "text-decoration"@ || p == "text-decoration-line"@ {
        KeywordProperty::TextDecorationProp
    } else if p == "text-align"@ {
        KeywordProperty::TextAlignProp
    } else if p == "overflow"@ || p == "overflow-x"@ || p == "overflow-y"@ {
        KeywordProperty::OverflowProp
    } else if p == "white-space"@ {
        KeywordProperty::WhiteSpaceProp
    } else if p == "visibility"@ {
        KeywordProperty::VisibilityProp
    } else if p == "border-style"@ {
        KeywordProperty::BorderStyleProp
    } else if p == "list-style-type"@ {
        KeywordProperty::ListStyleTypeProp
    } else if p == "vertical-align"@ {
        KeywordProperty::VerticalAlignProp
    } else if p == "cursor"@ {
        KeywordProperty::CursorProp
    } else if p == "border"@ {
        KeywordProperty::BorderShorthand
    } else if p == "border-color"@ {
        KeywordProperty::BorderColor
    } else {
        KeywordProperty::NotKeyword
    }
}

fn keyword_property_exec(p: &[char]) -> (r: KeywordProperty)
    ensures
        r == keyword_property(p@),
{
    proof {
        reveal(keyword_property);
    }
    if eq_str(p, "color") {
        KeywordProperty::Color
    } else if eq_str(p, "background") || eq_str(p, "background-color") {
        KeywordProperty::Background
    } else if eq_str(p, "font-weight") {
        KeywordProperty::FontWeightProp
    } else if eq_str(p, "font-style") {
        KeywordProperty::FontStyleProp
    } else if eq_str(p, "display") {
        KeywordProperty::DisplayProp
    } else if eq_str(p, "text-decoration") || eq_str(p, "text-decoration-line") {
        KeywordProperty::TextDecorationProp
    } else if eq_str(p, "text-align") {
        KeywordProperty::TextAlignProp
    } else if eq_str(p, "overflow") || eq_str(p, "overflow-x") || eq_str(p, "overflow-y") {
        KeywordProperty::OverflowProp
    } else if eq_str(p, "white-space") {
        KeywordProperty::WhiteSpaceProp
    } else if eq_str(p, "visibility") {
        KeywordProperty::VisibilityProp
    } else if eq_str(p, "border-style") {
        KeywordProperty::BorderStyleProp
    } else if eq_str(p, "list-style-type") {
        KeywordProperty::ListStyleTypeProp
    } else if eq_str(p, "vertical-align") {
        KeywordProperty::VerticalAlignProp
    } else if eq_str(p, "cursor") {
        KeywordProperty::CursorProp
    } else if eq_str(p, "border") {
        KeywordProperty::BorderShorthand
    } else if eq_str(p, "border-color") {
        KeywordProperty::BorderColor
    } else {
        KeywordProperty::NotKeyword
    }
}

/// The keyword style after a declaration.
pub open spec fn keywords_after(s: KeywordStyleView, d: DeclarationView) -> KeywordStyleView {
    keywords_for(s, keyword_property(d.property), d.value)
}

/// The keyword style after setting the property `k` to the value `v`.
pub open spec fn keywords_for(s: KeywordStyleView, k: KeywordProperty, v: Seq<char>) -> KeywordStyleView {
    match k {
        KeywordProperty::Color => KeywordStyleView { color: v, ..s },
        KeywordProperty::Background => KeywordStyleView { background: v, ..s },
        KeywordProperty::FontWeightProp => KeywordStyleView { font_weight: font_weight_of(v), ..s },
        KeywordProperty::FontStyleProp => KeywordStyleView {
            font_style: or_keep(font_style_keyword(v), FontStyle::Normal),
            ..s
        },
        KeywordProperty::DisplayProp => KeywordStyleView {
            display: or_keep(display_keyword(v), s.display),
            ..s
        },
        KeywordProperty::TextDecorationProp => KeywordStyleView {
            text_decoration: or_keep(text_decoration_keyword(v), s.text_decoration),
            ..s
        },
        KeywordProperty::TextAlignProp => KeywordStyleView {
            text_align: or_keep(text_align_keyword(v), s.text_align),
            ..s
        },
        KeywordProperty::OverflowProp => KeywordStyleView {
            overflow: or_keep(overflow_keyword(v), s.overflow),
            ..s
        },
        KeywordProperty::WhiteSpaceProp => KeywordStyleView {
            white_space: or_keep(white_space_keyword(v), s.white_space),
            ..s
        },
        KeywordProperty::VisibilityProp => KeywordStyleView {
            visibility: or_keep(visibility_keyword(v), s.visibility),
            ..s
        },
        KeywordProperty::BorderStyleProp => KeywordStyleView {
            border_style: or_keep(border_style_keyword(v), s.border_style),
            ..s
        },
        KeywordProperty::ListStyleTypeProp => KeywordStyleView {
            list_style_type: or_keep(list_style_keyword(v), s.list_style_type),
            ..s
        },
        KeywordProperty::VerticalAlignProp => KeywordStyleView {
            vertical_align: or_keep(vertical_align_keyword(v), s.vertical_align),
            ..s
        },
        KeywordProperty::CursorProp => KeywordStyleView {
            cursor: or_keep(cursor_keyword(v), s.cursor),
            ..s
        },
        KeywordProperty::BorderShorthand => border_shorthand_after(s, v),
        KeywordProperty::BorderColor => KeywordStyleView { border_color: v, ..s },
        KeywordProperty::NotKeyword => s,
    }
}

/// The edge a box length applies to.
#[derive(Debug, Clone, Copy, PartialEq, Eq, Structural)]
pub enum Side {
    All,
    Top,
    Right,
    Bottom,
    Left,
}

/// The length property a declaration sets.
#[derive(Debug, Clone, Copy, PartialEq, Eq, Structural)]
pub enum LengthTarget {
    NoLength,
    FontSize,
    LineHeight,
    Margin(Side),
    Padding(Side),
    BorderWidth,
    Width,
    Height,
    MaxWidth,
    MinWidth,
}

/// The length part of a declaration: which length it sets and the text
/// that gives the length.
#[derive(Debug)]
pub struct LengthUpdate {
    pub target: LengthTarget,
    pub value: String,
}

/// The side named by the end of a box-length property (`margin-top`, ...).
pub open spec fn box_side(p: Seq<char>, prefix: Seq<char>) -> Option<Side> {
    if p == prefix {
        Some(Side::All)
    } else if p == prefix + "-top"@ {
        Some(Side::Top)
    } else if p == prefix + "-right"@ {
        Some(Side::Right)
    } else if p == prefix + "-bottom"@ {
        Some(Side::Bottom)
    } else if p == prefix + "-left"@ {
        Some(Side::Left)
    } else {
        None
    }
}

/// The length a declaration sets, and the text that gives it.
pub open spec fn length_effect(d: DeclarationView) -> (LengthTarget, Seq<char>) {
    let p = d.property;
    let v = d.value;
    if p == "font-size"@ {
        (LengthTarget::FontSize, v)
    } else if p == "line-height"@ {
        (LengthTarget::LineHeight, v)
    } else if box_side(p, "margin"@) is Some {
        (LengthTarget::Margin(box_side(p, "margin"@).unwrap()), v)
    } else if box_side(p, "padding"@) is Some {
        (LengthTarget::Padding(box_side(p, "padding"@).unwrap()), v)
    } else if p == "border"@ {
        if words(v).len() > 0 {
            (LengthTarget::BorderWidth, words(v)[0])
        } else {
            (LengthTarget::NoLength, seq![])
        }
    } else if p == "border-width"@ {
        (LengthTarget::BorderWidth, v)
    } else if p == "width"@ {
        (LengthTarget::Width, v)
    } else if p == "height"@ {
        (LengthTarget::Height, v)
    } else if p == "max-width"@ {
        (LengthTarget::MaxWidth, v)
    } else if p == "min-width"@ {
        (LengthTarget::MinWidth, v)
    } else {
        (LengthTarget::NoLength, seq![])
    }
}

fn box_side_exec(p: &[char], prefix: &str) -> (r: Option<Side>)
    ensures
        r == box_side(p@, prefix@),
{
    let base = chars_of(prefix);
    if chars_eq(p, base.as_slice()) {
        return Some(Side::All);
    }
    let mut t = chars_of(prefix);
    crate::text::push_str(&mut t, "-top");
    if chars_eq(p, t.as_slice()) {
        return Some(Side::Top);
    }
    let mut t = chars_of(prefix);
    crate::text::push_str(&mut t, "-right");
    if chars_eq(p, t.as_slice()) {
        return Some(Side::Right);
    }
    let mut t = chars_of(prefix);
    crate::text::push_str(&mut t, "-bottom");
    if chars_eq(p, t.as_slice()) {
        return Some(Side::Bottom);
    }
    let mut t = chars_of(prefix);
    crate::text::push_str(&mut t, "-left");
    if chars_eq(p, t.as_slice()) {
        return Some(Side::Left);
    }
    None
}

/// Apply a single CSS declaration to a style: its keyword value is set
/// here, and the length it sets, if any, is handed back.
pub fn apply_declaration(style: &mut KeywordStyle, decl: &Declaration) -> (r: LengthUpdate)
    ensures
        final(style)@ == keywords_after(old(style)@, decl@),
        (r.target, r.value@) == length_effect(decl@),
{
    apply_keywords(style, decl);
    length_update(decl)
}

/// The keyword style after a `border` shorthand with this value.
pub open spec fn border_shorthand_after(s: KeywordStyleView, v: Seq<char>) -> KeywordStyleView {
    let ws = words(v);
    let s1 = if ws.len() > 1 {
        KeywordStyleView {
            border_style: or_keep(border_shorthand_style(ws[1]), s.border_style),
            ..s
        }
    } else {
        s
    };
    if ws.len() > 2 {
        KeywordStyleView { border_color: ws[2], ..s1 }
    } else {
        s1
    }
}

fn apply_border_shorthand(style: &mut KeywordStyle, vv: &[char])
    ensures
        final(style)@ == border_shorthand_after(old(style)@, vv@),
{
    let ws = split_words(vv);
    if ws.len() > 1 {
        assert(char_seqs(ws@)[1] == ws@[1]@);
        if let Some(k) = border_shorthand_style_exec(ws[1].as_slice()) {
            style.border_style = k;
        }
    }
    if ws.len() > 2 {
        assert(char_seqs(ws@)[2] == ws@[2]@);
        style.border_color = string_from_chars(ws[2].as_slice());
    }
}

fn apply_text_keywords(style: &mut KeywordStyle, k: KeywordProperty, decl: &Declaration, vv: &[char])
    requires
        k == KeywordProperty::Color
        || k == KeywordProperty::Background
        || k == KeywordProperty::FontWeightProp
        || k == KeywordProperty::FontStyleProp
        || k == KeywordProperty::DisplayProp
        || k == KeywordProperty::TextDecorationProp,
        vv@ == decl.value@,
    ensures
        final(style)@ == keywords_for(old(style)@, k, vv@),
{
    match k {
        KeywordProperty::Color => {
            style.color = decl.value.clone();
        },
        KeywordProperty::Background => {
            style.background = decl.value.clone();
        },
        KeywordProperty::FontWeightProp => {
            style.font_weight = font_weight_exec(vv);
        },
        KeywordProperty::FontStyleProp => {
            style.font_style = match font_style_keyword_exec(vv) {
                Some(k) => k,
                None => FontStyle::Normal,
            };
        },
        KeywordProperty::DisplayProp => {
            if let Some(k) = display_keyword_exec(vv) {
                style.display = k;
            }
        },
        KeywordProperty::TextDecorationProp => {
            if let Some(k) = text_decoration_keyword_exec(vv) {
                style.text_decoration = k;
            }
        },
        _ => {},
    }
}

fn apply_flow_keywords(style: &mut KeywordStyle, k: KeywordProperty, decl: &Declaration, vv: &[char])
    requires
        k == KeywordProperty::TextAlignProp
        || k == KeywordProperty::OverflowProp
        || k == KeywordProperty::WhiteSpaceProp
        || k == KeywordProperty::VisibilityProp
        || k == KeywordProperty::BorderStyleProp,
        vv@ == decl.value@,
    ensures
        final(style)@ == keywords_for(old(style)@, k, vv@),
{
    match k {
        KeywordProperty::TextAlignProp => {
            if let Some(k) = text_align_keyword_exec(vv) {
                style.text_align = k;
            }
        },
        KeywordProperty::OverflowProp => {
            if let Some(k) = overflow_keyword_exec(vv) {
                style.overflow = k;
            }
        },
        KeywordProperty::WhiteSpaceProp => {
            if let Some(k) = white_space_keyword_exec(vv) {
                style.white_space = k;
            }
        },
        KeywordProperty::VisibilityProp => {
            if let Some(k) = visibility_keyword_exec(vv) {
                style.visibility = k;
            }
        },
        KeywordProperty::BorderStyleProp => {
            if let Some(k) = border_style_keyword_exec(vv) {
                style.border_style = k;
            }
        },
        _ => {},
    }
}

fn apply_other_keywords(style: &mut KeywordStyle, k: KeywordProperty, decl: &Declaration, vv: &[char])
    requires
        k == KeywordProperty::ListStyleTypeProp
        || k == KeywordProperty::VerticalAlignProp
        || k == KeywordProperty::CursorProp
        || k == KeywordProperty::BorderShorthand
        || k == KeywordProperty::BorderColor,
        vv@ == decl.value@,
    ensures
        final(style)@ == keywords_for(old(style)@, k, vv@),
{
    match k {
        KeywordProperty::ListStyleTypeProp => {
            if let Some(k) = list_style_keyword_exec(vv) {
                style.list_style_type = k;
            }
        },
        KeywordProperty::VerticalAlignProp => {
            if let Some(k) = vertical_align_keyword_exec(vv) {
                style.vertical_align = k;
            }
        },
        KeywordProperty::CursorProp => {
            if let Some(k) = cursor_keyword_exec(vv) {
                style.cursor = k;
            }
        },
        KeywordProperty::BorderShorthand => {
            apply_border_shorthand(style, vv);
        },
        KeywordProperty::BorderColor => {
            style.border_color = decl.value.clone();
        },
        _ => {},
    }
}

/// Sets the keyword value of a declaration on a style.
pub fn apply_keywords(style: &mut KeywordStyle, decl: &Declaration)
    ensures
        final(style)@ == keywords_after(old(style)@, decl@),
{
    let p = chars_of(decl.property.as_str());
    let v = chars_of(decl.value.as_str());
    let vv = v.as_slice();
    let k = keyword_property_exec(p.as_slice());
    if k == KeywordProperty::Color
        || k == KeywordProperty::Background
        || k == KeywordProperty::FontWeightProp
        || k == KeywordProperty::FontStyleProp
        || k == KeywordProperty::DisplayProp
        || k == KeywordProperty::TextDecorationProp {
        apply_text_keywords(style, k, decl, vv);
    } else if k == KeywordProperty::TextAlignProp
        || k == KeywordProperty::OverflowProp
        || k == KeywordProperty::WhiteSpaceProp
        || k == KeywordProperty::VisibilityProp
        || k == KeywordProperty::BorderStyleProp {
        apply_flow_keywords(style, k, decl, vv);
    } else if k == KeywordProperty::ListStyleTypeProp
        || k == KeywordProperty::VerticalAlignProp
        || k == KeywordProperty::CursorProp
        || k == KeywordProperty::BorderShorthand
        || k == KeywordProperty::BorderColor {
        apply_other_keywords(style, k, decl, vv);
    }
}

/// The length a declaration sets, and the text that gives it.
pub fn length_update(decl: &Declaration) -> (r: LengthUpdate)
    ensures
        (r.target, r.value@) == length_effect(decl@),
{
    let p = chars_of(decl.property.as_str());
    let v = chars_of(decl.value.as_str());
    let pv = p.as_slice();
    let vv = v.as_slice();
    if eq_str(pv, "font-size") {
        LengthUpdate { target: LengthTarget::FontSize, value: decl.value.clone() }
    } else if eq_str(pv, "line-height") {
        LengthUpdate { target: LengthTarget::LineHeight, value: decl.value.clone() }
    } else if let Some(side) = box_side_exec(pv, "margin") {
        LengthUpdate { target: LengthTarget::Margin(side), value: decl.value.clone() }
    } else if let Some(side) = box_side_exec(pv, "padding") {
        LengthUpdate { target: LengthTarget::Padding(side), value: decl.value.clone() }
    } else if eq_str(pv, "border") {
        let ws = split_words(vv);
        if ws.len() > 0 {
            assert(char_seqs(ws@)[0] == ws@[0]@);
            LengthUpdate {
                target: LengthTarget::BorderWidth,
                value: string_from_chars(ws[0].as_slice()),
            }
        } else {
            LengthUpdate { target: LengthTarget::NoLength, value: String::new() }
        }
    } else if eq_str(pv, "border-width") {
        LengthUpdate { target: LengthTarget::BorderWidth, value: decl.value.clone() }
    } else if eq_str(pv, "width") {
        LengthUpdate { target: LengthTarget::Width, value: decl.value.clone() }
    } else if eq_str(pv, "height") {
        LengthUpdate { target: LengthTarget::Height, value: decl.value.clone() }
    } else if eq_str(pv, "max-width") {
        LengthUpdate { target: LengthTarget::MaxWidth, value: decl.value.clone() }
    } else if eq_str(pv, "min-width") {
        LengthUpdate { target: LengthTarget::MinWidth, value: decl.value.clone() }
    } else {
        LengthUpdate { target: LengthTarget::NoLength, value: String::new() }
    }
}

// ---------------------------------------------------------------------------
// User-agent defaults
// ---------------------------------------------------------------------------

/// Tags displayed as blocks by default.
pub open spec fn is_block_tag(t: Seq<char>) -> bool {
    t == "div"@ || t == "p"@ || t == "section"@ || t == "article"@ || t == "main"@
        || t == "header"@ || t == "footer"@ || t == "nav"@ || t == "aside"@ || t == "form"@
        || t == "fieldset"@ || t == "address"@ || t == "figure"@ || t == "figcaption"@
        || t == "details"@ || t == "summary"@ || t == "h1"@ || t == "h2"@ || t == "h3"@
        || t == "h4"@ || t == "h5"@ || t == "h6"@ || t == "html"@ || t == "body"@ || t == "br"@
        || t == "ul"@ || t == "ol"@ || t == "blockquote"@
}

/// Tags that are not displayed.
pub open spec fn is_hidden_tag(t: Seq<char>) -> bool {
    t == "head"@ || t == "script"@ || t == "style"@ || t == "meta"@ || t == "link"@ || t == "title"@ || t == "noscript"@
}

/// The user-agent keyword style of a tag, before the heading and emphasis
/// overrides.
pub open spec fn tag_base_keywords(t: Seq<char>) -> KeywordStyleView {
    let s = initial_keywords();
    if is_block_tag(t) {
        KeywordStyleView { display: Display::Block, ..s }
    } else if t == "li"@ {
        KeywordStyleView { display: Display::ListItem, ..s }
    } else if t == "pre"@ {
        KeywordStyleView { display: Display::Block, white_space: WhiteSpace::Pre, ..s }
    } else if t == "table"@ {
        KeywordStyleView { display: Display::Table, ..s }
    } else if t == "tr"@ {
        KeywordStyleView { display: Display::TableRow, ..s }
    } else if t == "td"@ || t == "th"@ {
        KeywordStyleView { display: Display::TableCell, ..s }
    } else if t == "hr"@ {
        KeywordStyleView { display: Display::Block, border_style: BorderStyle::Solid, ..s }
    } else if is_hidden_tag(t) {
        KeywordStyleView { display: Display::NoDisplay, ..s }
    } else if t == "a"@ {
        KeywordStyleView {
            color: "#5e81ac"@,
            text_decoration: TextDecoration::Underline,
            cursor: Cursor::Pointer,
            ..s
        }
    } else if t == "strong"@ || t == "b"@ {
        KeywordStyleView { font_weight: FontWeight::Bold, ..s }
    } else if t == "em"@ || t == "i"@ {
        KeywordStyleView { font_style: FontStyle::Italic, ..s }
    } else if t == "code"@ || t == "kbd"@ || t == "samp"@ || t == "tt"@ {
        KeywordStyleView { white_space: WhiteSpace::PreWrap, ..s }
    } else {
        s
    }
}

/// Headings and `strong`/`b` are bold, `em`/`i` italic, whatever the
/// inherited style says.
pub open spec fn tag_override_keywords(s: KeywordStyleView, t: Seq<char>) -> KeywordStyleView {
    if t == "h1"@ || t == "h2"@ || t == "h3"@ || t == "h4"@ || t == "h5"@ || t == "h6"@ || t
        == "strong"@ || t == "b"@ {
        KeywordStyleView { font_weight: FontWeight::Bold, ..s }
    } else if t == "em"@ || t == "i"@ {
        KeywordStyleView { font_style: FontStyle::Italic, ..s }
    } else {
        s
    }
}

/// The user-agent keyword style of a tag.
pub open spec fn tag_keywords(t: Seq<char>) -> KeywordStyleView {
    tag_override_keywords(tag_base_keywords(t), t)
}

fn is_block_tag_exec(t: &[char]) -> (r: bool)
    ensures
        r == is_block_tag(t@),
{
    eq_str(t, "div") || eq_str(t, "p") || eq_str(t, "section") || eq_str(t, "article")
        || eq_str(t, "main") || eq_str(t, "header") || eq_str(t, "footer") || eq_str(t, "nav")
        || eq_str(t, "aside") || eq_str(t, "form") || eq_str(t, "fieldset")
        || eq_str(t, "address") || eq_str(t, "figure") || eq_str(t, "figcaption")
        || eq_str(t, "details") || eq_str(t, "summary") || eq_str(t, "h1") || eq_str(t, "h2")
        || eq_str(t, "h3") || eq_str(t, "h4") || eq_str(t, "h5") || eq_str(t, "h6")
        || eq_str(t, "html") || eq_str(t, "body") || eq_str(t, "br") || eq_str(t, "ul")
        || eq_str(t, "ol") || eq_str(t, "blockquote")
}

fn is_hidden_tag_exec(t: &[char]) -> (r: bool)
    ensures
        r == is_hidden_tag(t@),
{
    eq_str(t, "head") || eq_str(t, "script") || eq_str(t, "style") || eq_str(t, "meta")
        || eq_str(t, "link") || eq_str(t, "title") || eq_str(t, "noscript")
}

/// Apply the tag overrides (heading and emphasis) to a style.
pub fn apply_tag_default_keywords(style: &mut KeywordStyle, tag: &str)
    ensures
        final(style)@ == tag_override_keywords(old(style)@, tag@),
{
    let tc = chars_of(tag);
    let t = tc.as_slice();
    if eq_str(t, "h1") || eq_str(t, "h2") || eq_str(t, "h3") || eq_str(t, "h4") || eq_str(t, "h5")
        || eq_str(t, "h6") || eq_str(t, "strong") || eq_str(t, "b") {
        style.font_weight = FontWeight::Bold;
    } else if eq_str(t, "em") || eq_str(t, "i") {
        style.font_style = FontStyle::Italic;
    }
}

/// The default keyword style for an HTML tag.
pub fn default_keywords_for_tag(tag: &str) -> (r: KeywordStyle)
    ensures
        r@ == tag_keywords(tag@),
{
    let mut style = KeywordStyle::default();
    let tc = chars_of(tag);
    let t = tc.as_slice();
    if is_block_tag_exec(t) {
        style.display = Display::Block;
    } else if eq_str(t, "li") {
        style.display = Display::ListItem;
    } else if eq_str(t, "pre") {
        style.display = Display::Block;
        style.white_space = WhiteSpace::Pre;
    } else if eq_str(t, "table") {
        style.display = Display::Table;
    } else if eq_str(t, "tr") {
        style.display = Display::TableRow;
    } else if eq_str(t, "td") || eq_str(t, "th") {
        style.display = Display::TableCell;
    } else if eq_str(t, "hr") {
        style.display = Display::Block;
        style.border_style = BorderStyle::Solid;
    } else if is_hidden_tag_exec(t) {
        style.display = Display::NoDisplay;
    } else if eq_str(t, "a") {
        style.color = "#5e81ac".to_owned();
        style.text_decoration = TextDecoration::Underline;
        style.cursor = Cursor::Pointer;
    } else if eq_str(t, "strong") || eq_str(t, "b") {
        style.font_weight = FontWeight::Bold;
    } else if eq_str(t, "em") || eq_str(t, "i") {
        style.font_style = FontStyle::Italic;
    } else if eq_str(t, "code") || eq_str(t, "kbd") || eq_str(t, "samp") || eq_str(t, "tt") {
        style.white_space = WhiteSpace::PreWrap;
    }
    assert(style@ == tag_base_keywords(tag@));
    apply_tag_default_keywords(&mut style, tag);
    style
}

/// Lengths of the four sides of a box, in tenths of a pixel.
#[derive(Debug, Clone, Copy, PartialEq, Eq, Structural)]
pub struct BoxTenths {
    pub top: u32,
    pub right: u32,
    pub bottom: u32,
    pub left: u32,
}

/// The lengths a tag's user-agent style sets, in tenths of a pixel; the
/// others keep their initial values.
#[derive(Debug, Clone, Copy, PartialEq, Eq, Structural)]
pub struct TagLengths {
    pub font_size: Option<u32>,
    pub margin: Option<BoxTenths>,
    pub padding_left: Option<u32>,
    pub border_width: Option<BoxTenths>,
}

pub open spec fn sides(top: u32, right: u32, bottom: u32, left: u32) -> BoxTenths {
    BoxTenths { top, right, bottom, left }
}

pub open spec fn no_lengths() -> TagLengths {
    TagLengths { font_size: None, margin: None, padding_left: None, border_width: None }
}

/// The lengths set for a tag together with its display (lists, quotes and
/// rules).
pub open spec fn tag_base_lengths(t: Seq<char>) -> TagLengths {
    if t == "ul"@ || t == "ol"@ {
        TagLengths { padding_left: Some(400), ..no_lengths() }
    } else if t == "blockquote"@ {
        TagLengths { margin: Some(sides(160, 400, 160, 400)), ..no_lengths() }
    } else if t == "hr"@ {
        TagLengths {
            margin: Some(sides(80, 0, 80, 0)),
            border_width: Some(sides(10, 0, 0, 0)),
            ..no_lengths()
        }
    } else {
        no_lengths()
    }
}

/// The lengths a tag sets over inherited ones: heading sizes and margins,
/// and paragraph margins.
pub open spec fn tag_override_lengths(t: Seq<char>) -> TagLengths {
    if t == "h1"@ {
        TagLengths { font_size: Some(320), margin: Some(sides(210, 0, 210, 0)), ..no_lengths() }
    } else if t == "h2"@ {
        TagLengths { font_size: Some(240), margin: Some(sides(190, 0, 190, 0)), ..no_lengths() }
    } else if t == "h3"@ {
        TagLengths { font_size: Some(187), margin: Some(sides(180, 0, 180, 0)), ..no_lengths() }
    } else if t == "h4"@ {
        TagLengths { font_size: Some(160), margin: Some(sides(210, 0, 210, 0)), ..no_lengths() }
    } else if t == "h5"@ {
        TagLengths { font_size: Some(133), ..no_lengths() }
    } else if t == "h6"@ {
        TagLengths { font_size: Some(107), ..no_lengths() }
    } else if t == "p"@ {
        TagLengths { margin: Some(sides(160, 0, 160, 0)), ..no_lengths() }
    } else {
        no_lengths()
    }
}

fn box_tenths(top: u32, right: u32, bottom: u32, left: u32) -> (r: BoxTenths)
    ensures
        r == sides(top, right, bottom, left),
{
    BoxTenths { top, right, bottom, left }
}

/// The lengths that a tag's user-agent style sets with its display.
pub fn tag_base_lengths_exec(tag: &str) -> (r: TagLengths)
    ensures
        r == tag_base_lengths(tag@),
{
    let tc = chars_of(tag);
    let t = tc.as_slice();
    let none = TagLengths { font_size: None, margin: None, padding_left: None, border_width: None };
    if eq_str(t, "ul") || eq_str(t, "ol") {
        TagLengths { padding_left: Some(400), ..none }
    } else if eq_str(t, "blockquote") {
        TagLengths { margin: Some(box_tenths(160, 400, 160, 400)), ..none }
    } else if eq_str(t, "hr") {
        TagLengths {
            margin: Some(box_tenths(80, 0, 80, 0)),
            border_width: Some(box_tenths(10, 0, 0, 0)),
            ..none
        }
    } else {
        none
    }
}

/// The lengths that a tag sets over inherited ones.
pub fn tag_override_lengths_exec(tag: &str) -> (r: TagLengths)
    ensures
        r == tag_override_lengths(tag@),
{
    let tc = chars_of(tag);
    let t = tc.as_slice();
    let none = TagLengths { font_size: None, margin: None, padding_left: None, border_width: None };
    if eq_str(t, "h1") {
        TagLengths { font_size: Some(320), margin: Some(box_tenths(210, 0, 210, 0)), ..none }
    } else if eq_str(t, "h2") {
        TagLengths { font_size: Some(240), margin: Some(box_tenths(190, 0, 190, 0)), ..none }
    } else if eq_str(t, "h3") {
        TagLengths { font_size: Some(187), margin: Some(box_tenths(180, 0, 180, 0)), ..none }
    } else if eq_str(t, "h4") {
        TagLengths { font_size: Some(160), margin: Some(box_tenths(210, 0, 210, 0)), ..none }
    } else if eq_str(t, "h5") {
        TagLengths { font_size: Some(133), ..none }
    } else if eq_str(t, "h6") {
        TagLengths { font_size: Some(107), ..none }
    } else if eq_str(t, "p") {
        TagLengths { margin: Some(box_tenths(160, 0, 160, 0)), ..none }
    } else {
        none
    }
}

// ---------------------------------------------------------------------------
// Cascade
// ---------------------------------------------------------------------------

/// The inheritable keyword properties taken from the parent's style.
pub open spec fn inherited(s: KeywordStyleView, parent: KeywordStyleView) -> KeywordStyleView {
    KeywordStyleView {
        color: parent.color,
        font_weight: parent.font_weight,
        font_style: parent.font_style,
        text_align: parent.text_align,
        white_space: parent.white_space,
        list_style_type: parent.list_style_type,
        cursor: parent.cursor,
        visibility: parent.visibility,
        ..s
    }
}

/// The keyword style after the declarations `ds`, in order.
pub open spec fn keywords_after_all(s: KeywordStyleView, ds: Seq<DeclarationView>) -> KeywordStyleView
    decreases ds.len(),
{
    if ds.len() == 0 {
        s
    } else {
        keywords_after(keywords_after_all(s, ds.drop_last()), ds.last())
    }
}

/// `part` lists the declarations matched in a stylesheet by increasing
/// specificity, equal specificities in source order.
pub open spec fn sorted_matches(m: Seq<(DeclarationView, (u32, u32, u32))>, part: Seq<DeclarationView>) -> bool {
    exists|ord: Seq<usize>|
        {
            &&& is_stable_order(matched_keys(m), ord, m.len() as int, false)
            &&& part.len() == m.len()
            &&& forall|k: int| 0 <= k < part.len() ==> #[trigger] part[k] == m[ord[k] as int].0
        }
}

/// The parts one after the other.
pub open spec fn flatten_parts(parts: Seq<Seq<DeclarationView>>) -> Seq<DeclarationView>
    decreases parts.len(),
{
    if parts.len() == 0 {
        seq![]
    } else {
        flatten_parts(parts.drop_last()) + parts.last()
    }
}

/// The declarations of all the rules, in order.
pub open spec fn rules_decls(rs: Seq<RuleView>) -> Seq<DeclarationView>
    decreases rs.len(),
{
    if rs.len() == 0 {
        seq![]
    } else {
        rules_decls(rs.drop_last()) + rs.last().declarations
    }
}

/// The declarations of an element's `style` attribute, read as the body of
/// a rule.
pub open spec fn inline_decls(attrs: Seq<(String, String)>) -> Seq<DeclarationView> {
    match attr_value(attrs, "style"@) {
        Some(c) => rules_decls(sheet_from_texts(css_rule_texts("* { "@ + c + " }"@))),
        None => seq![],
    }
}

/// The views of the stylesheets.
pub open spec fn sheet_views(sheets: Seq<Stylesheet>) -> Seq<Seq<RuleView>> {
    sheets.map_values(|s: Stylesheet| s@)
}

/// `ds` is the order in which the declarations reach an element: each
/// stylesheet's matches by specificity, sheet after sheet, then the
/// element's own `style` attribute.
pub open spec fn is_cascade_order(
    sheets: Seq<Seq<RuleView>>,
    tag: Seq<char>,
    attrs: Seq<(String, String)>,
    ds: Seq<DeclarationView>,
) -> bool {
    exists|parts: Seq<Seq<DeclarationView>>|
        {
            &&& parts.len() == sheets.len()
            &&& forall|i: int|
                0 <= i < sheets.len() ==> sorted_matches(
                    decls_for_element(sheets[i], tag, attrs),
                    #[trigger] parts[i],
                )
            &&& ds == #[trigger] flatten_parts(parts) + inline_decls(attrs)
        }
}

/// The length updates as values.
pub open spec fn update_views(us: Seq<LengthUpdate>) -> Seq<(LengthTarget, Seq<char>)> {
    us.map_values(|u: LengthUpdate| (u.target, u.value@))
}

/// The length effects of declarations, in order.
pub open spec fn length_effects(ds: Seq<DeclarationView>) -> Seq<(LengthTarget, Seq<char>)> {
    ds.map_values(|d: DeclarationView| length_effect(d))
}

/// The keyword style an element starts its cascade with: its tag's
/// defaults, the inheritable properties of its parent, then its tag's
/// overrides.
pub open spec fn cascade_start(tag: Seq<char>, parent: KeywordStyleView) -> KeywordStyleView {
    tag_override_keywords(inherited(tag_keywords(tag), parent), tag)
}

/// Applies declarations in order, collecting their length updates.
fn apply_all(
    style: &mut KeywordStyle,
    updates: &mut Vec<LengthUpdate>,
    decls: &Vec<&Declaration>,
)
    ensures
        final(style)@ == keywords_after_all(
            old(style)@,
            decls@.map_values(|d: &Declaration| d@),
        ),
        update_views(final(updates)@) == update_views(old(updates)@) + length_effects(
            decls@.map_values(|d: &Declaration| d@),
        ),
{
    let ghost ds = decls@.map_values(|d: &Declaration| d@);
    let ghost s0 = style@;
    let ghost u0 = update_views(updates@);
    let mut j: usize = 0;
    while j < decls.len()
        invariant
            j <= decls@.len() == ds.len(),
            ds == decls@.map_values(|d: &Declaration| d@),
            style@ == keywords_after_all(s0, ds.take(j as int)),
            update_views(updates@) == u0 + length_effects(ds.take(j as int)),
        decreases decls@.len() - j,
    {
        assert(ds.take(j + 1).drop_last() =~= ds.take(j as int));
        assert(ds.take(j + 1).last() == decls@[j as int]@);
        let ghost uv = updates@;
        let u = apply_declaration(style, decls[j]);
        updates.push(u);
        assert(update_views(updates@) =~= update_views(uv).push((u.target, u.value@)));
        assert(length_effects(ds.take(j + 1)) =~= length_effects(ds.take(j as int)).push(
            length_effect(ds[j as int]),
        ));
        j = j + 1;
    }
    assert(ds.take(j as int) =~= ds);
}

proof fn lemma_keywords_after_all_append(s: KeywordStyleView, a: Seq<DeclarationView>, b: Seq<DeclarationView>)
    ensures
        keywords_after_all(s, a + b) == keywords_after_all(keywords_after_all(s, a), b),
    decreases b.len(),
{
    if b.len() == 0 {
        assert(a + b =~= a);
    } else {
        assert((a + b).drop_last() =~= a + b.drop_last());
        lemma_keywords_after_all_append(s, a, b.drop_last());
    }
}

impl Stylesheet {
    /// Apply the declarations that match a tag to a copy of `base`: the
    /// keyword style that results.
    pub fn compute_style(&self, tag: &str, base: &KeywordStyle) -> (r: KeywordStyle)
        ensures
            r@ == keywords_after_all(base@, decls_for_tag(self@, tag@)),
    {
        let mut style = base.copy();
        let decls = self.matching_declarations(tag);
        let mut updates: Vec<LengthUpdate> = Vec::new();
        apply_all(&mut style, &mut updates, &decls);
        style
    }

    /// Apply the declarations that match an element, by specificity, to a
    /// copy of `base`.
    pub fn compute_style_for_element(&self, elem: &Element, base: &KeywordStyle) -> (r: KeywordStyle)
        ensures
            exists|ds: Seq<DeclarationView>|
                sorted_matches(decls_for_element(self@, elem.tag@, elem.attrs@), ds) && r@
                    == keywords_after_all(base@, ds),
    {
        let mut style = base.copy();
        let decls = self.matching_declarations_for_element(elem);
        let ghost ds = decls@.map_values(|d: &Declaration| d@);
        proof {
            let m = decls_for_element(self@, elem.tag@, elem.attrs@);
            let ord = choose|ord: Seq<usize>|
                {
                    &&& is_stable_order(matched_keys(m), ord, m.len() as int, false)
                    &&& forall|k: int|
                        0 <= k < decls@.len() ==> (*#[trigger] decls@[k])@ == m[ord[k] as int].0
                };
            assert forall|k: int| 0 <= k < ds.len() implies #[trigger] ds[k] == m[ord[k] as int].0 by {
                assert(ds[k] == (*decls@[k])@);
            }
            assert(sorted_matches(m, ds));
        }
        let mut updates: Vec<LengthUpdate> = Vec::new();
        apply_all(&mut style, &mut updates, &decls);
        style
    }
}

/// Compute the cascaded keyword style of an element: its tag's defaults,
/// what it inherits from its parent, the declarations of the stylesheets
/// that match it and its `style` attribute; with the length updates of
/// those declarations, in the order they apply.
pub fn cascade_keywords(elem: &Element, sheets: &[Stylesheet], parent: &KeywordStyle) -> (r: (
    KeywordStyle,
    Vec<LengthUpdate>,
))
    ensures
        exists|ds: Seq<DeclarationView>|
            {
                &&& is_cascade_order(sheet_views(sheets@), elem.tag@, elem.attrs@, ds)
                &&& r.0@ == keywords_after_all(cascade_start(elem.tag@, parent@), ds)
                &&& update_views(r.1@) == length_effects(ds)
            },
{
    let mut style = default_keywords_for_tag(elem.tag.as_str());
    style.color = parent.color.clone();
    style.font_weight = parent.font_weight;
    style.font_style = parent.font_style;
    style.text_align = parent.text_align;
    style.white_space = parent.white_space;
    style.list_style_type = parent.list_style_type;
    style.cursor = parent.cursor;
    style.visibility = parent.visibility;
    apply_tag_default_keywords(&mut style, elem.tag.as_str());
    let ghost start = style@;
    assert(start == cascade_start(elem.tag@, parent@));
    let mut updates: Vec<LengthUpdate> = Vec::new();
    let ghost mut parts: Seq<Seq<DeclarationView>> = seq![];
    let ghost sv = sheet_views(sheets@);
    let mut i: usize = 0;
    assert(update_views(updates@) =~= seq![]);
    while i < sheets.len()
        invariant
            i <= sheets@.len() == sv.len(),
            sv == sheet_views(sheets@),
            parts.len() == i,
            forall|k: int|
                0 <= k < i ==> sorted_matches(
                    decls_for_element(sv[k], elem.tag@, elem.attrs@),
                    #[trigger] parts[k],
                ),
            style@ == keywords_after_all(start, flatten_parts(parts)),
            update_views(updates@) == length_effects(flatten_parts(parts)),
        decreases sheets@.len() - i,
    {
        let decls = sheets[i].matching_declarations_for_element(elem);
        let ghost part = decls@.map_values(|d: &Declaration| d@);
        proof {
            let m = decls_for_element(sv[i as int], elem.tag@, elem.attrs@);
            assert(sv[i as int] == sheets@[i as int]@);
            let ord = choose|ord: Seq<usize>|
                {
                    &&& is_stable_order(matched_keys(m), ord, m.len() as int, false)
                    &&& forall|k: int|
                        0 <= k < decls@.len() ==> (*#[trigger] decls@[k])@ == m[ord[k] as int].0
                };
            assert forall|k: int| 0 <= k < part.len() implies #[trigger] part[k] == m[ord[k] as int].0 by {
                assert(part[k] == (*decls@[k])@);
            }
            assert(sorted_matches(m, part));
        }
        let ghost before = flatten_parts(parts);
        apply_all(&mut style, &mut updates, &decls);
        proof {
            lemma_keywords_after_all_append(start, before, part);
            let np = parts.push(part);
            assert(np.drop_last() =~= parts);
            assert(flatten_parts(np) == before + part);
            assert(length_effects(before + part) =~= length_effects(before) + length_effects(part));
            assert forall|k: int| 0 <= k < i + 1 implies sorted_matches(
                decls_for_element(sv[k], elem.tag@, elem.attrs@),
                #[trigger] np[k],
            ) by {
                if k < i {
                    assert(np[k] == parts[k]);
                }
            }
            parts = np;
        }
        i = i + 1;
    }
    let ghost before = flatten_parts(parts);
    let ghost inline = inline_decls(elem.attrs@);
    match elem.get_attr("style") {
        Some(css) => {
            let mut text = chars_of("* { ");
            crate::text::push_str(&mut text, css.as_str());
            crate::text::push_str(&mut text, " }");
            let src = string_from_chars(text.as_slice());
            assert(src@ == "* { "@ + css@ + " }"@);
            let sheet = Stylesheet::parse(src.as_str());
            let rules = sheet.rules();
            let mut k: usize = 0;
            while k < rules.len()
                invariant
                    k <= rule_views(rules@).len(),
                    rule_views(rules@) == sheet_from_texts(css_rule_texts(src@)),
                    style@ == keywords_after_all(start, before + rules_decls(rule_views(rules@).take(k as int))),
                    update_views(updates@) == length_effects(before + rules_decls(rule_views(rules@).take(k as int))),
                decreases rules@.len() - k,
            {
                let ghost rv = rule_views(rules@);
                assert(rv.take(k + 1).drop_last() =~= rv.take(k as int));
                assert(rv.take(k + 1).last() == rules@[k as int]@);
                let mut refs: Vec<&Declaration> = Vec::new();
                let mut j: usize = 0;
                while j < rules[k].declarations.len()
                    invariant
                        j <= rules@[k as int].declarations@.len(),
                        k < rules@.len(),
                        refs@.map_values(|d: &Declaration| d@) == decl_views(rules@[k as int].declarations@).take(j as int),
                    decreases rules@[k as int].declarations@.len() - j,
                {
                    let ghost r0 = refs@;
                    refs.push(&rules[k].declarations[j]);
                    assert(refs@.map_values(|d: &Declaration| d@) =~= r0.map_values(
                        |d: &Declaration| d@,
                    ).push(rules@[k as int].declarations@[j as int]@));
                    assert(decl_views(rules@[k as int].declarations@).take(j + 1) =~= decl_views(
                        rules@[k as int].declarations@,
                    ).take(j as int).push(rules@[k as int].declarations@[j as int]@));
                    j = j + 1;
                }
                assert(decl_views(rules@[k as int].declarations@).take(j as int) =~= rules@[k as int]@.declarations);
                let ghost b2 = before + rules_decls(rv.take(k as int));
                apply_all(&mut style, &mut updates, &refs);
                proof {
                    lemma_keywords_after_all_append(start, b2, rules@[k as int]@.declarations);
                    assert(before + rules_decls(rv.take(k + 1)) =~= b2 + rules@[k as int]@.declarations);
                    assert(length_effects(b2 + rules@[k as int]@.declarations) =~= length_effects(b2)
                        + length_effects(rules@[k as int]@.declarations));
                }
                k = k + 1;
            }
            assert(rule_views(rules@).take(k as int) =~= rule_views(rules@));
            assert(inline == rules_decls(rule_views(rules@)));
        },
        None => {
            assert(inline =~= seq![]);
            assert(before + inline =~= before);
        },
    }
    assert(is_cascade_order(sv, elem.tag@, elem.attrs@, before + inline)) by {
        assert(before + inline == flatten_parts(parts) + inline_decls(elem.attrs@));
    }
    (style, updates)
}


/// An element takes the inheritable keyword properties (colour, weight,
/// style, alignment, spacing, list marker, cursor, visibility) from its
/// parent; only headings and `strong`/`b` turn bold and `em`/`i` italic.
pub proof fn law_cascade_inherits(tag: Seq<char>, parent: KeywordStyleView)
    ensures
        cascade_start(tag, parent).color == parent.color,
        cascade_start(tag, parent).text_align == parent.text_align,
        cascade_start(tag, parent).white_space == parent.white_space,
        cascade_start(tag, parent).cursor == parent.cursor,
        cascade_start(tag, parent).visibility == parent.visibility,
        cascade_start(tag, parent).list_style_type == parent.list_style_type,
{
}

/// Of two declarations of the same property that any value sets (the
/// colours, font weight and font style), the later one decides: applying
/// both gives what applying the later one gives.
pub proof fn law_later_declaration_wins(s: KeywordStyleView, d1: DeclarationView, d2: DeclarationView)
    requires
        d1.property == d2.property,
        ({
            let k = keyword_property(d2.property);
            k == KeywordProperty::Color || k == KeywordProperty::Background || k
                == KeywordProperty::BorderColor || k == KeywordProperty::FontWeightProp || k
                == KeywordProperty::FontStyleProp
        }),
    ensures
        keywords_after(keywords_after(s, d1), d2) == keywords_after(s, d2),
{
}

/// Declarations that set no keyword property leave the style as it is.
pub proof fn law_unknown_property_keeps_style(s: KeywordStyleView, ds: Seq<DeclarationView>)
    requires
        forall|k: int| 0 <= k < ds.len() ==> keyword_property(#[trigger] ds[k].property) == KeywordProperty::NotKeyword,
    ensures
        keywords_after_all(s, ds) == s,
    decreases ds.len(),
{
    if ds.len() > 0 {
        assert forall|k: int| 0 <= k < ds.drop_last().len() implies keyword_property(
            #[trigger] ds.drop_last()[k].property,
        ) == KeywordProperty::NotKeyword by {
            assert(ds.drop_last()[k] == ds[k]);
        }
        law_unknown_property_keeps_style(s, ds.drop_last());
        assert(keyword_property(ds[ds.len() - 1].property) == KeywordProperty::NotKeyword);
    }
}

/// The universal selector matches every element.
pub proof fn law_universal_matches(tag: Seq<char>, attrs: Seq<(String, String)>)
    ensures
        simple_matches("*"@, tag, attrs),
{
}

/// Each `display` keyword sets its own display value, whatever the style it
/// is applied to: `none` hides the element, the others choose its layout.
pub proof fn law_display_keywords(s: KeywordStyleView, important: bool)
    ensures
        keywords_after(s, DeclarationView { property: "display"@, value: "block"@, important }).display
            == Display::Block,
        keywords_after(s, DeclarationView { property: "display"@, value: "inline"@, important }).display
            == Display::Inline,
        keywords_after(s, DeclarationView { property: "display"@, value: "inline-block"@, important }).display
            == Display::InlineBlock,
        keywords_after(s, DeclarationView { property: "display"@, value: "flex"@, important }).display
            == Display::Flex,
        keywords_after(s, DeclarationView { property: "display"@, value: "grid"@, important }).display
            == Display::Grid,
        keywords_after(s, DeclarationView { property: "display"@, value: "none"@, important }).display
            == Display::NoDisplay,
        keywords_after(s, DeclarationView { property: "display"@, value: "list-item"@, important }).display
            == Display::ListItem,
        keywords_after(s, DeclarationView { property: "display"@, value: "table"@, important }).display
            == Display::Table,
        keywords_after(s, DeclarationView { property: "display"@, value: "table-row"@, important }).display
            == Display::TableRow,
        keywords_after(s, DeclarationView { property: "display"@, value: "table-cell"@, important }).display
            == Display::TableCell,
{
    reveal(keyword_property);
    reveal(display_keyword);
    reveal_strlit("display");
    reveal_strlit("block");
    reveal_strlit("inline");
    reveal_strlit("inline-block");
    reveal_strlit("flex");
    reveal_strlit("grid");
    reveal_strlit("none");
    reveal_strlit("list-item");
    reveal_strlit("table");
    reveal_strlit("table-row");
    reveal_strlit("table-cell");
    assert(display_keyword("block"@) == Some(Display::Block)) by {
    }
    assert(display_keyword("inline"@) == Some(Display::Inline)) by {
        assert("inline"@.len() != "block"@.len());
    }
    assert(display_keyword("inline-block"@) == Some(Display::InlineBlock)) by {
        assert("inline-block"@.len() != "block"@.len());
        assert("inline-block"@.len() != "inline"@.len());
    }
    assert(display_keyword("flex"@) == Some(Display::Flex)) by {
        assert("flex"@.len() != "block"@.len());
        assert("flex"@.len() != "inline"@.len());
        assert("flex"@.len() != "inline-block"@.len());
    }
    assert(display_keyword("grid"@) == Some(Display::Grid)) by {
        assert("grid"@.len() != "block"@.len());
        assert("grid"@.len() != "inline"@.len());
        assert("grid"@.len() != "inline-block"@.len());
        assert("grid"@[0] != "flex"@[0]);
    }
    assert(display_keyword("none"@) == Some(Display::NoDisplay)) by {
        assert("none"@.len() != "block"@.len());
        assert("none"@.len() != "inline"@.len());
        assert("none"@.len() != "inline-block"@.len());
        assert("none"@[0] != "flex"@[0]);
        assert("none"@[0] != "grid"@[0]);
    }
    assert(display_keyword("list-item"@) == Some(Display::ListItem)) by {
        assert("list-item"@.len() != "block"@.len());
        assert("list-item"@.len() != "inline"@.len());
        assert("list-item"@.len() != "inline-block"@.len());
        assert("list-item"@.len() != "flex"@.len());
        assert("list-item"@.len() != "grid"@.len());
        assert("list-item"@.len() != "none"@.len());
    }
    assert(display_keyword("table"@) == Some(Display::Table)) by {
        assert("table"@[0] != "block"@[0]);
        assert("table"@.len() != "inline"@.len());
        assert("table"@.len() != "inline-block"@.len());
        assert("table"@.len() != "flex"@.len());
        assert("table"@.len() != "grid"@.len());
        assert("table"@.len() != "none"@.len());
        assert("table"@.len() != "list-item"@.len());
    }
    assert(display_keyword("table-row"@) == Some(Display::TableRow)) by {
        assert("table-row"@.len() != "block"@.len());
        assert("table-row"@.len() != "inline"@.len());
        assert("table-row"@.len() != "inline-block"@.len());
        assert("table-row"@.len() != "flex"@.len());
        assert("table-row"@.len() != "grid"@.len());
        assert("table-row"@.len() != "none"@.len());
        assert("table-row"@[0] != "list-item"@[0]);
        assert("table-row"@.len() != "table"@.len());
    }
    assert(display_keyword("table-cell"@) == Some(Display::TableCell)) by {
        assert("table-cell"@.len() != "block"@.len());
        assert("table-cell"@.len() != "inline"@.len());
        assert("table-cell"@.len() != "inline-block"@.len());
        assert("table-cell"@.len() != "flex"@.len());
        assert("table-cell"@.len() != "grid"@.len());
        assert("table-cell"@.len() != "none"@.len());
        assert("table-cell"@.len() != "list-item"@.len());
        assert("table-cell"@.len() != "table"@.len());
        assert("table-cell"@.len() != "table-row"@.len());
    }
    assert(keyword_property("display"@) == KeywordProperty::DisplayProp) by {
        reveal_strlit("color");
        reveal_strlit("background");
        reveal_strlit("background-color");
        reveal_strlit("font-weight");
        reveal_strlit("font-style");
        assert("display"@.len() != "color"@.len());
        assert("display"@.len() != "background"@.len());
        assert("display"@.len() != "background-color"@.len());
        assert("display"@.len() != "font-weight"@.len());
        assert("display"@.len() != "font-style"@.len());
    }
}

/// `font-style` sets the font style its keyword names. Each keyword gives its own value, whatever the style it is
/// applied to.
pub proof fn law_font_style_keywords(s: KeywordStyleView, important: bool)
    ensures
        keywords_after(s, DeclarationView { property: "font-style"@, value: "italic"@, important }).font_style
            == FontStyle::Italic,
        keywords_after(s, DeclarationView { property: "font-style"@, value: "oblique"@, important }).font_style
            == FontStyle::Oblique,
{
    assert(keyword_property("font-style"@) == KeywordProperty::FontStyleProp) by {
        reveal(keyword_property);
        reveal_strlit("color");
        reveal_strlit("background");
        reveal_strlit("background-color");
        reveal_strlit("font-weight");
        reveal_strlit("font-style");
        assert("font-style"@.len() != "color"@.len());
        assert("font-style"@[0] != "background"@[0]);
        assert("font-style"@.len() != "background-color"@.len());
        assert("font-style"@.len() != "font-weight"@.len());
    }
    assert(font_style_keyword("italic"@) == Some(FontStyle::Italic)) by {
        reveal(font_style_keyword);
        reveal_strlit("italic");
    }
    assert(font_style_keyword("oblique"@) == Some(FontStyle::Oblique)) by {
        reveal(font_style_keyword);
        reveal_strlit("italic");
        reveal_strlit("oblique");
        assert("oblique"@.len() != "italic"@.len());
    }
}

/// `text-decoration` (and `text-decoration-line`) sets the decoration its keyword names. Each keyword gives its own value, whatever the style it is
/// applied to.
pub proof fn law_text_decoration_keywords(s: KeywordStyleView, important: bool)
    ensures
        keywords_after(s, DeclarationView { property: "text-decoration"@, value: "underline"@, important }).text_decoration
            == TextDecoration::Underline,
        keywords_after(s, DeclarationView { property: "text-decoration"@, value: "line-through"@, important }).text_decoration
            == TextDecoration::LineThrough,
        keywords_after(s, DeclarationView { property: "text-decoration"@, value: "overline"@, important }).text_decoration
            == TextDecoration::Overline,
        keywords_after(s, DeclarationView { property: "text-decoration"@, value: "none"@, important }).text_decoration
            == TextDecoration::NoDecoration,
        keywords_after(s, DeclarationView { property: "text-decoration-line"@, value: "underline"@, important }).text_decoration
            == TextDecoration::Underline,
        keywords_after(s, DeclarationView { property: "text-decoration-line"@, value: "line-through"@, important }).text_decoration
            == TextDecoration::LineThrough,
        keywords_after(s, DeclarationView { property: "text-decoration-line"@, value: "overline"@, important }).text_decoration
            == TextDecoration::Overline,
        keywords_after(s, DeclarationView { property: "text-decoration-line"@, value: "none"@, important }).text_decoration
            == TextDecoration::NoDecoration,
{
    assert(keyword_property("text-decoration"@) == KeywordProperty::TextDecorationProp) by {
        reveal(keyword_property);
        reveal_strlit("color");
        reveal_strlit("background");
        reveal_strlit("background-color");
        reveal_strlit("font-weight");
        reveal_strlit("font-style");
        reveal_strlit("display");
        reveal_strlit("text-decoration");
        assert("text-decoration"@.len() != "color"@.len());
        assert("text-decoration"@.len() != "background"@.len());
        assert("text-decoration"@.len() != "background-color"@.len());
        assert("text-decoration"@.len() != "font-weight"@.len());
        assert("text-decoration"@.len() != "font-style"@.len());
        assert("text-decoration"@.len() != "display"@.len());
    }
    assert(keyword_property("text-decoration-line"@) == KeywordProperty::TextDecorationProp) by {
        reveal(keyword_property);
        reveal_strlit("color");
        reveal_strlit("background");
        reveal_strlit("background-color");
        reveal_strlit("font-weight");
        reveal_strlit("font-style");
        reveal_strlit("display");
        reveal_strlit("text-decoration");
        reveal_strlit("text-decoration-line");
        assert("text-decoration-line"@.len() != "color"@.len());
        assert("text-decoration-line"@.len() != "background"@.len());
        assert("text-decoration-line"@.len() != "background-color"@.len());
        assert("text-decoration-line"@.len() != "font-weight"@.len());
        assert("text-decoration-line"@.len() != "font-style"@.len());
        assert("text-decoration-line"@.len() != "display"@.len());
        assert("text-decoration-line"@.len() != "text-decoration"@.len());
    }
    assert(text_decoration_keyword("underline"@) == Some(TextDecoration::Underline)) by {
        reveal(text_decoration_keyword);
        reveal_strlit("underline");
    }
    assert(text_decoration_keyword("line-through"@) == Some(TextDecoration::LineThrough)) by {
        reveal(text_decoration_keyword);
        reveal_strlit("underline");
        reveal_strlit("line-through");
        assert("line-through"@.len() != "underline"@.len());
    }
    assert(text_decoration_keyword("overline"@) == Some(TextDecoration::Overline)) by {
        reveal(text_decoration_keyword);
        reveal_strlit("underline");
        reveal_strlit("line-through");
        reveal_strlit("overline");
        assert("overline"@.len() != "underline"@.len());
        assert("overline"@.len() != "line-through"@.len());
    }
    assert(text_decoration_keyword("none"@) == Some(TextDecoration::NoDecoration)) by {
        reveal(text_decoration_keyword);
        reveal_strlit("underline");
        reveal_strlit("line-through");
        reveal_strlit("overline");
        reveal_strlit("none");
        assert("none"@.len() != "underline"@.len());
        assert("none"@.len() != "line-through"@.len());
        assert("none"@.len() != "overline"@.len());
    }
}

/// `text-align` sets the alignment its keyword names. Each keyword gives its own value, whatever the style it is
/// applied to.
pub proof fn law_text_align_keywords(s: KeywordStyleView, important: bool)
    ensures
        keywords_after(s, DeclarationView { property: "text-align"@, value: "left"@, important }).text_align
            == TextAlign::Left,
        keywords_after(s, DeclarationView { property: "text-align"@, value: "right"@, important }).text_align
            == TextAlign::Right,
        keywords_after(s, DeclarationView { property: "text-align"@, value: "center"@, important }).text_align
            == TextAlign::Center,
        keywords_after(s, DeclarationView { property: "text-align"@, value: "justify"@, important }).text_align
            == TextAlign::Justify,
{
    assert(keyword_property("text-align"@) == KeywordProperty::TextAlignProp) by {
        reveal(keyword_property);
        reveal_strlit("color");
        reveal_strlit("background");
        reveal_strlit("background-color");
        reveal_strlit("font-weight");
        reveal_strlit("font-style");
        reveal_strlit("display");
        reveal_strlit("text-decoration");
        reveal_strlit("text-decoration-line");
        reveal_strlit("text-align");
        assert("text-align"@.len() != "color"@.len());
        assert("text-align"@[0] != "background"@[0]);
        assert("text-align"@.len() != "background-color"@.len());
        assert("text-align"@.len() != "font-weight"@.len());
        assert("text-align"@[0] != "font-style"@[0]);
        assert("text-align"@.len() != "display"@.len());
        assert("text-align"@.len() != "text-decoration"@.len());
        assert("text-align"@.len() != "text-decoration-line"@.len());
    }
    assert(text_align_keyword("left"@) == Some(TextAlign::Left)) by {
        reveal(text_align_keyword);
        reveal_strlit("left");
    }
    assert(text_align_keyword("right"@) == Some(TextAlign::Right)) by {
        reveal(text_align_keyword);
        reveal_strlit("left");
        reveal_strlit("right");
        assert("right"@.len() != "left"@.len());
    }
    assert(text_align_keyword("center"@) == Some(TextAlign::Center)) by {
        reveal(text_align_keyword);
        reveal_strlit("left");
        reveal_strlit("right");
        reveal_strlit("center");
        assert("center"@.len() != "left"@.len());
        assert("center"@.len() != "right"@.len());
    }
    assert(text_align_keyword("justify"@) == Some(TextAlign::Justify)) by {
        reveal(text_align_keyword);
        reveal_strlit("left");
        reveal_strlit("right");
        reveal_strlit("center");
        reveal_strlit("justify");
        assert("justify"@.len() != "left"@.len());
        assert("justify"@.len() != "right"@.len());
        assert("justify"@.len() != "center"@.len());
    }
}

/// `overflow` (and `overflow-x`, `overflow-y`) sets the overflow its keyword names. Each keyword gives its own value, whatever the style it is
/// applied to.
pub proof fn law_overflow_keywords(s: KeywordStyleView, important: bool)
    ensures
        keywords_after(s, DeclarationView { property: "overflow"@, value: "visible"@, important }).overflow
            == Overflow::Visible,
        keywords_after(s, DeclarationView { property: "overflow"@, value: "hidden"@, important }).overflow
            == Overflow::Hidden,
        keywords_after(s, DeclarationView { property: "overflow"@, value: "scroll"@, important }).overflow
            == Overflow::Scroll,
        keywords_after(s, DeclarationView { property: "overflow"@, value: "auto"@, important }).overflow
            == Overflow::Auto,
        keywords_after(s, DeclarationView { property: "overflow-x"@, value: "visible"@, important }).overflow
            == Overflow::Visible,
        keywords_after(s, DeclarationView { property: "overflow-x"@, value: "hidden"@, important }).overflow
            == Overflow::Hidden,
        keywords_after(s, DeclarationView { property: "overflow-x"@, value: "scroll"@, important }).overflow
            == Overflow::Scroll,
        keywords_after(s, DeclarationView { property: "overflow-x"@, value: "auto"@, important }).overflow
            == Overflow::Auto,
        keywords_after(s, DeclarationView { property: "overflow-y"@, value: "visible"@, important }).overflow
            == Overflow::Visible,
        keywords_after(s, DeclarationView { property: "overflow-y"@, value: "hidden"@, important }).overflow
            == Overflow::Hidden,
        keywords_after(s, DeclarationView { property: "overflow-y"@, value: "scroll"@, important }).overflow
            == Overflow::Scroll,
        keywords_after(s, DeclarationView { property: "overflow-y"@, value: "auto"@, important }).overflow
            == Overflow::Auto,
{
    assert(keyword_property("overflow"@) == KeywordProperty::OverflowProp) by {
        reveal(keyword_property);
        reveal_strlit("color");
        reveal_strlit("background");
        reveal_strlit("background-color");
        reveal_strlit("font-weight");
        reveal_strlit("font-style");
        reveal_strlit("display");
        reveal_strlit("text-decoration");
        reveal_strlit("text-decoration-line");
        reveal_strlit("text-align");
        reveal_strlit("overflow");
        assert("overflow"@.len() != "color"@.len());
        assert("overflow"@.len() != "background"@.len());
        assert("overflow"@.len() != "background-color"@.len());
        assert("overflow"@.len() != "font-weight"@.len());
        assert("overflow"@.len() != "font-style"@.len());
        assert("overflow"@.len() != "display"@.len());
        assert("overflow"@.len() != "text-decoration"@.len());
        assert("overflow"@.len() != "text-decoration-line"@.len());
        assert("overflow"@.len() != "text-align"@.len());
    }
    assert(keyword_property("overflow-x"@) == KeywordProperty::OverflowProp) by {
        reveal(keyword_property);
        reveal_strlit("color");
        reveal_strlit("background");
        reveal_strlit("background-color");
        reveal_strlit("font-weight");
        reveal_strlit("font-style");
        reveal_strlit("display");
        reveal_strlit("text-decoration");
        reveal_strlit("text-decoration-line");
        reveal_strlit("text-align");
        reveal_strlit("overflow");
        reveal_strlit("overflow-x");
        assert("overflow-x"@.len() != "color"@.len());
        assert("overflow-x"@[0] != "background"@[0]);
        assert("overflow-x"@.len() != "background-color"@.len());
        assert("overflow-x"@.len() != "font-weight"@.len());
        assert("overflow-x"@[0] != "font-style"@[0]);
        assert("overflow-x"@.len() != "display"@.len());
        assert("overflow-x"@.len() != "text-decoration"@.len());
        assert("overflow-x"@.len() != "text-decoration-line"@.len());
        assert("overflow-x"@[0] != "text-align"@[0]);
        assert("overflow-x"@.len() != "overflow"@.len());
    }
    assert(keyword_property("overflow-y"@) == KeywordProperty::OverflowProp) by {
        reveal(keyword_property);
        reveal_strlit("color");
        reveal_strlit("background");
        reveal_strlit("background-color");
        reveal_strlit("font-weight");
        reveal_strlit("font-style");
        reveal_strlit("display");
        reveal_strlit("text-decoration");
        reveal_strlit("text-decoration-line");
        reveal_strlit("text-align");
        reveal_strlit("overflow");
        reveal_strlit("overflow-x");
        reveal_strlit("overflow-y");
        assert("overflow-y"@.len() != "color"@.len());
        assert("overflow-y"@[0] != "background"@[0]);
        assert("overflow-y"@.len() != "background-color"@.len());
        assert("overflow-y"@.len() != "font-weight"@.len());
        assert("overflow-y"@[0] != "font-style"@[0]);
        assert("overflow-y"@.len() != "display"@.len());
        assert("overflow-y"@.len() != "text-decoration"@.len());
        assert("overflow-y"@.len() != "text-decoration-line"@.len());
        assert("overflow-y"@[0] != "text-align"@[0]);
        assert("overflow-y"@.len() != "overflow"@.len());
        assert("overflow-y"@[9] != "overflow-x"@[9]);
    }
    assert(overflow_keyword("visible"@) == Some(Overflow::Visible)) by {
        reveal(overflow_keyword);
        reveal_strlit("visible");
    }
    assert(overflow_keyword("hidden"@) == Some(Overflow::Hidden)) by {
        reveal(overflow_keyword);
        reveal_strlit("visible");
        reveal_strlit("hidden");
        assert("hidden"@.len() != "visible"@.len());
    }
    assert(overflow_keyword("scroll"@) == Some(Overflow::Scroll)) by {
        reveal(overflow_keyword);
        reveal_strlit("visible");
        reveal_strlit("hidden");
        reveal_strlit("scroll");
        assert("scroll"@.len() != "visible"@.len());
        assert("scroll"@[0] != "hidden"@[0]);
    }
    assert(overflow_keyword("auto"@) == Some(Overflow::Auto)) by {
        reveal(overflow_keyword);
        reveal_strlit("visible");
        reveal_strlit("hidden");
        reveal_strlit("scroll");
        reveal_strlit("auto");
        assert("auto"@.len() != "visible"@.len());
        assert("auto"@.len() != "hidden"@.len());
        assert("auto"@.len() != "scroll"@.len());
    }
}

/// `white-space` sets the whitespace handling its keyword names. Each keyword gives its own value, whatever the style it is
/// applied to.
pub proof fn law_white_space_keywords(s: KeywordStyleView, important: bool)
    ensures
        keywords_after(s, DeclarationView { property: "white-space"@, value: "normal"@, important }).white_space
            == WhiteSpace::Normal,
        keywords_after(s, DeclarationView { property: "white-space"@, value: "nowrap"@, important }).white_space
            == WhiteSpace::NoWrap,
        keywords_after(s, DeclarationView { property: "white-space"@, value: "pre"@, important }).white_space
            == WhiteSpace::Pre,
        keywords_after(s, DeclarationView { property: "white-space"@, value: "pre-wrap"@, important }).white_space
            == WhiteSpace::PreWrap,
        keywords_after(s, DeclarationView { property: "white-space"@, value: "pre-line"@, important }).white_space
            == WhiteSpace::PreLine,
{
    assert(keyword_property("white-space"@) == KeywordProperty::WhiteSpaceProp) by {
        reveal(keyword_property);
        reveal_strlit("color");
        reveal_strlit("background");
        reveal_strlit("background-color");
        reveal_strlit("font-weight");
        reveal_strlit("font-style");
        reveal_strlit("display");
        reveal_strlit("text-decoration");
        reveal_strlit("text-decoration-line");
        reveal_strlit("text-align");
        reveal_strlit("overflow");
        reveal_strlit("overflow-x");
        reveal_strlit("overflow-y");
        reveal_strlit("white-space");
        assert("white-space"@.len() != "color"@.len());
        assert("white-space"@.len() != "background"@.len());
        assert("white-space"@.len() != "background-color"@.len());
        assert("white-space"@[0] != "font-weight"@[0]);
        assert("white-space"@.len() != "font-style"@.len());
        assert("white-space"@.len() != "display"@.len());
        assert("white-space"@.len() != "text-decoration"@.len());
        assert("white-space"@.len() != "text-decoration-line"@.len());
        assert("white-space"@.len() != "text-align"@.len());
        assert("white-space"@.len() != "overflow"@.len());
        assert("white-space"@.len() != "overflow-x"@.len());
        assert("white-space"@.len() != "overflow-y"@.len());
    }
    assert(white_space_keyword("normal"@) == Some(WhiteSpace::Normal)) by {
        reveal(white_space_keyword);
        reveal_strlit("normal");
    }
    assert(white_space_keyword("nowrap"@) == Some(WhiteSpace::NoWrap)) by {
        reveal(white_space_keyword);
        reveal_strlit("normal");
        reveal_strlit("nowrap");
        assert("nowrap"@[2] != "normal"@[2]);
    }
    assert(white_space_keyword("pre"@) == Some(WhiteSpace::Pre)) by {
        reveal(white_space_keyword);
        reveal_strlit("normal");
        reveal_strlit("nowrap");
        reveal_strlit("pre");
        assert("pre"@.len() != "normal"@.len());
        assert("pre"@.len() != "nowrap"@.len());
    }
    assert(white_space_keyword("pre-wrap"@) == Some(WhiteSpace::PreWrap)) by {
        reveal(white_space_keyword);
        reveal_strlit("normal");
        reveal_strlit("nowrap");
        reveal_strlit("pre");
        reveal_strlit("pre-wrap");
        assert("pre-wrap"@.len() != "normal"@.len());
        assert("pre-wrap"@.len() != "nowrap"@.len());
        assert("pre-wrap"@.len() != "pre"@.len());
    }
    assert(white_space_keyword("pre-line"@) == Some(WhiteSpace::PreLine)) by {
        reveal(white_space_keyword);
        reveal_strlit("normal");
        reveal_strlit("nowrap");
        reveal_strlit("pre");
        reveal_strlit("pre-wrap");
        reveal_strlit("pre-line");
        assert("pre-line"@.len() != "normal"@.len());
        assert("pre-line"@.len() != "nowrap"@.len());
        assert("pre-line"@.len() != "pre"@.len());
        assert("pre-line"@[4] != "pre-wrap"@[4]);
    }
}

/// `visibility` sets the visibility its keyword names. Each keyword gives its own value, whatever the style it is
/// applied to.
pub proof fn law_visibility_keywords(s: KeywordStyleView, important: bool)
    ensures
        keywords_after(s, DeclarationView { property: "visibility"@, value: "visible"@, important }).visibility
            == Visibility::Visible,
        keywords_after(s, DeclarationView { property: "visibility"@, value: "hidden"@, important }).visibility
            == Visibility::Hidden,
        keywords_after(s, DeclarationView { property: "visibility"@, value: "collapse"@, important }).visibility
            == Visibility::Collapse,
{
    assert(keyword_property("visibility"@) == KeywordProperty::VisibilityProp) by {
        reveal(keyword_property);
        reveal_strlit("color");
        reveal_strlit("background");
        reveal_strlit("background-color");
        reveal_strlit("font-weight");
        reveal_strlit("font-style");
        reveal_strlit("display");
        reveal_strlit("text-decoration");
        reveal_strlit("text-decoration-line");
        reveal_strlit("text-align");
        reveal_strlit("overflow");
        reveal_strlit("overflow-x");
        reveal_strlit("overflow-y");
        reveal_strlit("white-space");
        reveal_strlit("visibility");
        assert("visibility"@.len() != "color"@.len());
        assert("visibility"@[0] != "background"@[0]);
        assert("visibility"@.len() != "background-color"@.len());
        assert("visibility"@.len() != "font-weight"@.len());
        assert("visibility"@[0] != "font-style"@[0]);
        assert("visibility"@.len() != "display"@.len());
        assert("visibility"@.len() != "text-decoration"@.len());
        assert("visibility"@.len() != "text-decoration-line"@.len());
        assert("visibility"@[0] != "text-align"@[0]);
        assert("visibility"@.len() != "overflow"@.len());
        assert("visibility"@[0] != "overflow-x"@[0]);
        assert("visibility"@[0] != "overflow-y"@[0]);
        assert("visibility"@.len() != "white-space"@.len());
    }
    assert(visibility_keyword("visible"@) == Some(Visibility::Visible)) by {
        reveal(visibility_keyword);
        reveal_strlit("visible");
    }
    assert(visibility_keyword("hidden"@) == Some(Visibility::Hidden)) by {
        reveal(visibility_keyword);
        reveal_strlit("visible");
        reveal_strlit("hidden");
        assert("hidden"@.len() != "visible"@.len());
    }
    assert(visibility_keyword("collapse"@) == Some(Visibility::Collapse)) by {
        reveal(visibility_keyword);
        reveal_strlit("visible");
        reveal_strlit("hidden");
        reveal_strlit("collapse");
        assert("collapse"@.len() != "visible"@.len());
        assert("collapse"@.len() != "hidden"@.len());
    }
}

/// `border-style` sets the border style its keyword names. Each keyword gives its own value, whatever the style it is
/// applied to.
pub proof fn law_border_style_keywords(s: KeywordStyleView, important: bool)
    ensures
        keywords_after(s, DeclarationView { property: "border-style"@, value: "none"@, important }).border_style
            == BorderStyle::NoBorder,
        keywords_after(s, DeclarationView { property: "border-style"@, value: "solid"@, important }).border_style
            == BorderStyle::Solid,
        keywords_after(s, DeclarationView { property: "border-style"@, value: "dashed"@, important }).border_style
            == BorderStyle::Dashed,
        keywords_after(s, DeclarationView { property: "border-style"@, value: "dotted"@, important }).border_style
            == BorderStyle::Dotted,
        keywords_after(s, DeclarationView { property: "border-style"@, value: "double"@, important }).border_style
            == BorderStyle::Double,
{
    assert(keyword_property("border-style"@) == KeywordProperty::BorderStyleProp) by {
        reveal(keyword_property);
        reveal_strlit("color");
        reveal_strlit("background");
        reveal_strlit("background-color");
        reveal_strlit("font-weight");
        reveal_strlit("font-style");
        reveal_strlit("display");
        reveal_strlit("text-decoration");
        reveal_strlit("text-decoration-line");
        reveal_strlit("text-align");
        reveal_strlit("overflow");
        reveal_strlit("overflow-x");
        reveal_strlit("overflow-y");
        reveal_strlit("white-space");
        reveal_strlit("visibility");
        reveal_strlit("border-style");
        assert("border-style"@.len() != "color"@.len());
        assert("border-style"@.len() != "background"@.len());
        assert("border-style"@.len() != "background-color"@.len());
        assert("border-style"@.len() != "font-weight"@.len());
        assert("border-style"@.len() != "font-style"@.len());
        assert("border-style"@.len() != "display"@.len());
        assert("border-style"@.len() != "text-decoration"@.len());
        assert("border-style"@.len() != "text-decoration-line"@.len());
        assert("border-style"@.len() != "text-align"@.len());
        assert("border-style"@.len() != "overflow"@.len());
        assert("border-style"@.len() != "overflow-x"@.len());
        assert("border-style"@.len() != "overflow-y"@.len());
        assert("border-style"@.len() != "white-space"@.len());
        assert("border-style"@.len() != "visibility"@.len());
    }
    assert(border_style_keyword("none"@) == Some(BorderStyle::NoBorder)) by {
        reveal(border_style_keyword);
        reveal_strlit("none");
    }
    assert(border_style_keyword("solid"@) == Some(BorderStyle::Solid)) by {
        reveal(border_style_keyword);
        reveal_strlit("none");
        reveal_strlit("solid");
        assert("solid"@.len() != "none"@.len());
    }
    assert(border_style_keyword("dashed"@) == Some(BorderStyle::Dashed)) by {
        reveal(border_style_keyword);
        reveal_strlit("none");
        reveal_strlit("solid");
        reveal_strlit("dashed");
        assert("dashed"@.len() != "none"@.len());
        assert("dashed"@.len() != "solid"@.len());
    }
    assert(border_style_keyword("dotted"@) == Some(BorderStyle::Dotted)) by {
        reveal(border_style_keyword);
        reveal_strlit("none");
        reveal_strlit("solid");
        reveal_strlit("dashed");
        reveal_strlit("dotted");
        assert("dotted"@.len() != "none"@.len());
        assert("dotted"@.len() != "solid"@.len());
        assert("dotted"@[1] != "dashed"@[1]);
    }
    assert(border_style_keyword("double"@) == Some(BorderStyle::Double)) by {
        reveal(border_style_keyword);
        reveal_strlit("none");
        reveal_strlit("solid");
        reveal_strlit("dashed");
        reveal_strlit("dotted");
        reveal_strlit("double");
        assert("double"@.len() != "none"@.len());
        assert("double"@.len() != "solid"@.len());
        assert("double"@[1] != "dashed"@[1]);
        assert("double"@[2] != "dotted"@[2]);
    }
}

/// `list-style-type` sets the list marker its keyword names. Each keyword gives its own value, whatever the style it is
/// applied to.
pub proof fn law_list_style_keywords(s: KeywordStyleView, important: bool)
    ensures
        keywords_after(s, DeclarationView { property: "list-style-type"@, value: "none"@, important }).list_style_type
            == ListStyleType::NoMarker,
        keywords_after(s, DeclarationView { property: "list-style-type"@, value: "disc"@, important }).list_style_type
            == ListStyleType::Disc,
        keywords_after(s, DeclarationView { property: "list-style-type"@, value: "circle"@, important }).list_style_type
            == ListStyleType::Circle,
        keywords_after(s, DeclarationView { property: "list-style-type"@, value: "square"@, important }).list_style_type
            == ListStyleType::Square,
        keywords_after(s, DeclarationView { property: "list-style-type"@, value: "decimal"@, important }).list_style_type
            == ListStyleType::Decimal,
        keywords_after(s, DeclarationView { property: "list-style-type"@, value: "lower-alpha"@, important }).list_style_type
            == ListStyleType::LowerAlpha,
        keywords_after(s, DeclarationView { property: "list-style-type"@, value: "upper-alpha"@, important }).list_style_type
            == ListStyleType::UpperAlpha,
{
    assert(keyword_property("list-style-type"@) == KeywordProperty::ListStyleTypeProp) by {
        reveal(keyword_property);
        reveal_strlit("color");
        reveal_strlit("background");
        reveal_strlit("background-color");
        reveal_strlit("font-weight");
        reveal_strlit("font-style");
        reveal_strlit("display");
        reveal_strlit("text-decoration");
        reveal_strlit("text-decoration-line");
        reveal_strlit("text-align");
        reveal_strlit("overflow");
        reveal_strlit("overflow-x");
        reveal_strlit("overflow-y");
        reveal_strlit("white-space");
        reveal_strlit("visibility");
        reveal_strlit("border-style");
        reveal_strlit("list-style-type");
        assert("list-style-type"@.len() != "color"@.len());
        assert("list-style-type"@.len() != "background"@.len());
        assert("list-style-type"@.len() != "background-color"@.len());
        assert("list-style-type"@.len() != "font-weight"@.len());
        assert("list-style-type"@.len() != "font-style"@.len());
        assert("list-style-type"@.len() != "display"@.len());
        assert("list-style-type"@[0] != "text-decoration"@[0]);
        assert("list-style-type"@.len() != "text-decoration-line"@.len());
        assert("list-style-type"@.len() != "text-align"@.len());
        assert("list-style-type"@.len() != "overflow"@.len());
        assert("list-style-type"@.len() != "overflow-x"@.len());
        assert("list-style-type"@.len() != "overflow-y"@.len());
        assert("list-style-type"@.len() != "white-space"@.len());
        assert("list-style-type"@.len() != "visibility"@.len());
        assert("list-style-type"@.len() != "border-style"@.len());
    }
    assert(list_style_keyword("none"@) == Some(ListStyleType::NoMarker)) by {
        reveal(list_style_keyword);
        reveal_strlit("none");
    }
    assert(list_style_keyword("disc"@) == Some(ListStyleType::Disc)) by {
        reveal(list_style_keyword);
        reveal_strlit("none");
        reveal_strlit("disc");
        assert("disc"@[0] != "none"@[0]);
    }
    assert(list_style_keyword("circle"@) == Some(ListStyleType::Circle)) by {
        reveal(list_style_keyword);
        reveal_strlit("none");
        reveal_strlit("disc");
        reveal_strlit("circle");
        assert("circle"@.len() != "none"@.len());
        assert("circle"@.len() != "disc"@.len());
    }
    assert(list_style_keyword("square"@) == Some(ListStyleType::Square)) by {
        reveal(list_style_keyword);
        reveal_strlit("none");
        reveal_strlit("disc");
        reveal_strlit("circle");
        reveal_strlit("square");
        assert("square"@.len() != "none"@.len());
        assert("square"@.len() != "disc"@.len());
        assert("square"@[0] != "circle"@[0]);
    }
    assert(list_style_keyword("decimal"@) == Some(ListStyleType::Decimal)) by {
        reveal(list_style_keyword);
        reveal_strlit("none");
        reveal_strlit("disc");
        reveal_strlit("circle");
        reveal_strlit("square");
        reveal_strlit("decimal");
        assert("decimal"@.len() != "none"@.len());
        assert("decimal"@.len() != "disc"@.len());
        assert("decimal"@.len() != "circle"@.len());
        assert("decimal"@.len() != "square"@.len());
    }
    assert(list_style_keyword("lower-alpha"@) == Some(ListStyleType::LowerAlpha)) by {
        reveal(list_style_keyword);
        reveal_strlit("none");
        reveal_strlit("disc");
        reveal_strlit("circle");
        reveal_strlit("square");
        reveal_strlit("decimal");
        reveal_strlit("lower-alpha");
        assert("lower-alpha"@.len() != "none"@.len());
        assert("lower-alpha"@.len() != "disc"@.len());
        assert("lower-alpha"@.len() != "circle"@.len());
        assert("lower-alpha"@.len() != "square"@.len());
        assert("lower-alpha"@.len() != "decimal"@.len());
    }
    assert(list_style_keyword("upper-alpha"@) == Some(ListStyleType::UpperAlpha)) by {
        reveal(list_style_keyword);
        reveal_strlit("none");
        reveal_strlit("disc");
        reveal_strlit("circle");
        reveal_strlit("square");
        reveal_strlit("decimal");
        reveal_strlit("lower-alpha");
        reveal_strlit("upper-alpha");
        assert("upper-alpha"@.len() != "none"@.len());
        assert("upper-alpha"@.len() != "disc"@.len());
        assert("upper-alpha"@.len() != "circle"@.len());
        assert("upper-alpha"@.len() != "square"@.len());
        assert("upper-alpha"@.len() != "decimal"@.len());
        assert("upper-alpha"@[0] != "lower-alpha"@[0]);
    }
}

/// `vertical-align` sets the alignment its keyword names. Each keyword gives its own value, whatever the style it is
/// applied to.
pub proof fn law_vertical_align_keywords(s: KeywordStyleView, important: bool)
    ensures
        keywords_after(s, DeclarationView { property: "vertical-align"@, value: "baseline"@, important }).vertical_align
            == VerticalAlign::Baseline,
        keywords_after(s, DeclarationView { property: "vertical-align"@, value: "top"@, important }).vertical_align
            == VerticalAlign::Top,
        keywords_after(s, DeclarationView { property: "vertical-align"@, value: "middle"@, important }).vertical_align
            == VerticalAlign::Middle,
        keywords_after(s, DeclarationView { property: "vertical-align"@, value: "bottom"@, important }).vertical_align
            == VerticalAlign::Bottom,
{
    assert(keyword_property("vertical-align"@) == KeywordProperty::VerticalAlignProp) by {
        reveal(keyword_property);
        reveal_strlit("color");
        reveal_strlit("background");
        reveal_strlit("background-color");
        reveal_strlit("font-weight");
        reveal_strlit("font-style");
        reveal_strlit("display");
        reveal_strlit("text-decoration");
        reveal_strlit("text-decoration-line");
        reveal_strlit("text-align");
        reveal_strlit("overflow");
        reveal_strlit("overflow-x");
        reveal_strlit("overflow-y");
        reveal_strlit("white-space");
        reveal_strlit("visibility");
        reveal_strlit("border-style");
        reveal_strlit("list-style-type");
        reveal_strlit("vertical-align");
        assert("vertical-align"@.len() != "color"@.len());
        assert("vertical-align"@.len() != "background"@.len());
        assert("vertical-align"@.len() != "background-color"@.len());
        assert("vertical-align"@.len() != "font-weight"@.len());
        assert("vertical-align"@.len() != "font-style"@.len());
        assert("vertical-align"@.len() != "display"@.len());
        assert("vertical-align"@.len() != "text-decoration"@.len());
        assert("vertical-align"@.len() != "text-decoration-line"@.len());
        assert("vertical-align"@.len() != "text-align"@.len());
        assert("vertical-align"@.len() != "overflow"@.len());
        assert("vertical-align"@.len() != "overflow-x"@.len());
        assert("vertical-align"@.len() != "overflow-y"@.len());
        assert("vertical-align"@.len() != "white-space"@.len());
        assert("vertical-align"@.len() != "visibility"@.len());
        assert("vertical-align"@.len() != "border-style"@.len());
        assert("vertical-align"@.len() != "list-style-type"@.len());
    }
    assert(vertical_align_keyword("baseline"@) == Some(VerticalAlign::Baseline)) by {
        reveal(vertical_align_keyword);
        reveal_strlit("baseline");
    }
    assert(vertical_align_keyword("top"@) == Some(VerticalAlign::Top)) by {
        reveal(vertical_align_keyword);
        reveal_strlit("baseline");
        reveal_strlit("top");
        assert("top"@.len() != "baseline"@.len());
    }
    assert(vertical_align_keyword("middle"@) == Some(VerticalAlign::Middle)) by {
        reveal(vertical_align_keyword);
        reveal_strlit("baseline");
        reveal_strlit("top");
        reveal_strlit("middle");
        assert("middle"@.len() != "baseline"@.len());
        assert("middle"@.len() != "top"@.len());
    }
    assert(vertical_align_keyword("bottom"@) == Some(VerticalAlign::Bottom)) by {
        reveal(vertical_align_keyword);
        reveal_strlit("baseline");
        reveal_strlit("top");
        reveal_strlit("middle");
        reveal_strlit("bottom");
        assert("bottom"@.len() != "baseline"@.len());
        assert("bottom"@.len() != "top"@.len());
        assert("bottom"@[0] != "middle"@[0]);
    }
}

/// `cursor` sets the cursor its keyword names. Each keyword gives its own value, whatever the style it is
/// applied to.
pub proof fn law_cursor_keywords(s: KeywordStyleView, important: bool)
    ensures
        keywords_after(s, DeclarationView { property: "cursor"@, value: "default"@, important }).cursor
            == Cursor::Default,
        keywords_after(s, DeclarationView { property: "cursor"@, value: "pointer"@, important }).cursor
            == Cursor::Pointer,
        keywords_after(s, DeclarationView { property: "cursor"@, value: "text"@, important }).cursor
            == Cursor::Text,
        keywords_after(s, DeclarationView { property: "cursor"@, value: "move"@, important }).cursor
            == Cursor::Move,
        keywords_after(s, DeclarationView { property: "cursor"@, value: "not-allowed"@, important }).cursor
            == Cursor::NotAllowed,
{
    assert(keyword_property("cursor"@) == KeywordProperty::CursorProp) by {
        reveal(keyword_property);
        reveal_strlit("color");
        reveal_strlit("background");
        reveal_strlit("background-color");
        reveal_strlit("font-weight");
        reveal_strlit("font-style");
        reveal_strlit("display");
        reveal_strlit("text-decoration");
        reveal_strlit("text-decoration-line");
        reveal_strlit("text-align");
        reveal_strlit("overflow");
        reveal_strlit("overflow-x");
        reveal_strlit("overflow-y");
        reveal_strlit("white-space");
        reveal_strlit("visibility");
        reveal_strlit("border-style");
        reveal_strlit("list-style-type");
        reveal_strlit("vertical-align");
        reveal_strlit("cursor");
        assert("cursor"@.len() != "color"@.len());
        assert("cursor"@.len() != "background"@.len());
        assert("cursor"@.len() != "background-color"@.len());
        assert("cursor"@.len() != "font-weight"@.len());
        assert("cursor"@.len() != "font-style"@.len());
        assert("cursor"@.len() != "display"@.len());
        assert("cursor"@.len() != "text-decoration"@.len());
        assert("cursor"@.len() != "text-decoration-line"@.len());
        assert("cursor"@.len() != "text-align"@.len());
        assert("cursor"@.len() != "overflow"@.len());
        assert("cursor"@.len() != "overflow-x"@.len());
        assert("cursor"@.len() != "overflow-y"@.len());
        assert("cursor"@.len() != "white-space"@.len());
        assert("cursor"@.len() != "visibility"@.len());
        assert("cursor"@.len() != "border-style"@.len());
        assert("cursor"@.len() != "list-style-type"@.len());
        assert("cursor"@.len() != "vertical-align"@.len());
    }
    assert(cursor_keyword("default"@) == Some(Cursor::Default)) by {
        reveal(cursor_keyword);
        reveal_strlit("default");
    }
    assert(cursor_keyword("pointer"@) == Some(Cursor::Pointer)) by {
        reveal(cursor_keyword);
        reveal_strlit("default");
        reveal_strlit("pointer");
        assert("pointer"@[0] != "default"@[0]);
    }
    assert(cursor_keyword("text"@) == Some(Cursor::Text)) by {
        reveal(cursor_keyword);
        reveal_strlit("default");
        reveal_strlit("pointer");
        reveal_strlit("text");
        assert("text"@.len() != "default"@.len());
        assert("text"@.len() != "pointer"@.len());
    }
    assert(cursor_keyword("move"@) == Some(Cursor::Move)) by {
        reveal(cursor_keyword);
        reveal_strlit("default");
        reveal_strlit("pointer");
        reveal_strlit("text");
        reveal_strlit("move");
        assert("move"@.len() != "default"@.len());
        assert("move"@.len() != "pointer"@.len());
        assert("move"@[0] != "text"@[0]);
    }
    assert(cursor_keyword("not-allowed"@) == Some(Cursor::NotAllowed)) by {
        reveal(cursor_keyword);
        reveal_strlit("default");
        reveal_strlit("pointer");
        reveal_strlit("text");
        reveal_strlit("move");
        reveal_strlit("not-allowed");
        assert("not-allowed"@.len() != "default"@.len());
        assert("not-allowed"@.len() != "pointer"@.len());
        assert("not-allowed"@.len() != "text"@.len());
        assert("not-allowed"@.len() != "move"@.len());
    }
}

/// `color`, `background`, `background-color` and `border-color` take the
/// value as written; `font-weight` is bold for `bold` and `700` and normal
/// for `normal` and `400`, whatever the style they are applied to.
pub proof fn law_colour_and_weight(s: KeywordStyleView, v: Seq<char>, important: bool)
    ensures
        keywords_after(s, DeclarationView { property: "color"@, value: v, important }).color == v,
        keywords_after(s, DeclarationView { property: "background"@, value: v, important }).background == v,
        keywords_after(s, DeclarationView { property: "background-color"@, value: v, important }).background == v,
        keywords_after(s, DeclarationView { property: "border-color"@, value: v, important }).border_color == v,
        keywords_after(s, DeclarationView { property: "font-weight"@, value: "bold"@, important }).font_weight
            == FontWeight::Bold,
        keywords_after(s, DeclarationView { property: "font-weight"@, value: "700"@, important }).font_weight
            == FontWeight::Bold,
        keywords_after(s, DeclarationView { property: "font-weight"@, value: "normal"@, important }).font_weight
            == FontWeight::Normal,
        keywords_after(s, DeclarationView { property: "font-weight"@, value: "400"@, important }).font_weight
            == FontWeight::Normal,
{
    assert(keyword_property("color"@) == KeywordProperty::Color) by {
        reveal(keyword_property);
        reveal_strlit("color");
    }
    assert(keyword_property("background"@) == KeywordProperty::Background) by {
        reveal(keyword_property);
        reveal_strlit("color");
        reveal_strlit("background");
        assert("background"@.len() != "color"@.len());
    }
    assert(keyword_property("background-color"@) == KeywordProperty::Background) by {
        reveal(keyword_property);
        reveal_strlit("color");
        reveal_strlit("background");
        reveal_strlit("background-color");
        assert("background-color"@.len() != "color"@.len());
        assert("background-color"@.len() != "background"@.len());
    }
    assert(keyword_property("border-color"@) == KeywordProperty::BorderColor) by {
        reveal(keyword_property);
        reveal_strlit("color");
        reveal_strlit("background");
        reveal_strlit("background-color");
        reveal_strlit("font-weight");
        reveal_strlit("font-style");
        reveal_strlit("display");
        reveal_strlit("text-decoration");
        reveal_strlit("text-decoration-line");
        reveal_strlit("text-align");
        reveal_strlit("overflow");
        reveal_strlit("overflow-x");
        reveal_strlit("overflow-y");
        reveal_strlit("white-space");
        reveal_strlit("visibility");
        reveal_strlit("border-style");
        reveal_strlit("list-style-type");
        reveal_strlit("vertical-align");
        reveal_strlit("cursor");
        reveal_strlit("border");
        reveal_strlit("border-color");
        assert("border-color"@.len() != "color"@.len());
        assert("border-color"@.len() != "background"@.len());
        assert("border-color"@.len() != "background-color"@.len());
        assert("border-color"@.len() != "font-weight"@.len());
        assert("border-color"@.len() != "font-style"@.len());
        assert("border-color"@.len() != "display"@.len());
        assert("border-color"@.len() != "text-decoration"@.len());
        assert("border-color"@.len() != "text-decoration-line"@.len());
        assert("border-color"@.len() != "text-align"@.len());
        assert("border-color"@.len() != "overflow"@.len());
        assert("border-color"@.len() != "overflow-x"@.len());
        assert("border-color"@.len() != "overflow-y"@.len());
        assert("border-color"@.len() != "white-space"@.len());
        assert("border-color"@.len() != "visibility"@.len());
        assert("border-color"@[7] != "border-style"@[7]);
        assert("border-color"@.len() != "list-style-type"@.len());
        assert("border-color"@.len() != "vertical-align"@.len());
        assert("border-color"@.len() != "cursor"@.len());
        assert("border-color"@.len() != "border"@.len());
    }
    assert(keyword_property("font-weight"@) == KeywordProperty::FontWeightProp) by {
        reveal(keyword_property);
        reveal_strlit("color");
        reveal_strlit("background");
        reveal_strlit("background-color");
        reveal_strlit("font-weight");
        assert("font-weight"@.len() != "color"@.len());
        assert("font-weight"@.len() != "background"@.len());
        assert("font-weight"@.len() != "background-color"@.len());
    }
    assert(font_weight_of("bold"@) == FontWeight::Bold) by {
        reveal(font_weight_of);
        reveal_strlit("bold");
    }
    assert(font_weight_of("700"@) == FontWeight::Bold) by {
        reveal(font_weight_of);
        reveal_strlit("bold");
        reveal_strlit("700");
        assert("700"@.len() != "bold"@.len());
    }
    assert(font_weight_of("normal"@) == FontWeight::Normal) by {
        reveal(font_weight_of);
        reveal_strlit("bold");
        reveal_strlit("700");
        reveal_strlit("normal");
        assert("normal"@.len() != "bold"@.len());
        assert("normal"@.len() != "700"@.len());
    }
    assert(font_weight_of("400"@) == FontWeight::Normal) by {
        reveal(font_weight_of);
        reveal_strlit("bold");
        reveal_strlit("700");
        reveal_strlit("normal");
        reveal_strlit("400");
        assert("400"@.len() != "bold"@.len());
        assert("400"@[0] != "700"@[0]);
        assert("400"@.len() != "normal"@.len());
    }
}

/// Specificity `a` is lower than `b`: fewer ids, or as many and fewer
/// classes, or as many of both and fewer types.
pub open spec fn less_specific(a: (u32, u32, u32), b: (u32, u32, u32)) -> bool {
    a.0 < b.0 || (a.0 == b.0 && (a.1 < b.1 || (a.1 == b.1 && a.2 < b.2)))
}

proof fn lemma_specificity_key_order(a: (u32, u32, u32), b: (u32, u32, u32))
    ensures
        specificity_key(a) < specificity_key(b) <==> less_specific(a, b),
        specificity_key(a) == specificity_key(b) <==> a == b,
{
    let ka = a.0 as int * 0x1_0000_0000_0000_0000 + a.1 as int * 0x1_0000_0000 + a.2 as int;
    let kb = b.0 as int * 0x1_0000_0000_0000_0000 + b.1 as int * 0x1_0000_0000 + b.2 as int;
    assert(0 <= ka < 0x1_0000_0000_0000_0000_0000_0000) by (nonlinear_arith)
        requires
            ka == a.0 as int * 0x1_0000_0000_0000_0000 + a.1 as int * 0x1_0000_0000 + a.2 as int,
            0 <= a.0 < 0x1_0000_0000,
            0 <= a.1 < 0x1_0000_0000,
            0 <= a.2 < 0x1_0000_0000,
    ;
    assert(0 <= kb < 0x1_0000_0000_0000_0000_0000_0000) by (nonlinear_arith)
        requires
            kb == b.0 as int * 0x1_0000_0000_0000_0000 + b.1 as int * 0x1_0000_0000 + b.2 as int,
            0 <= b.0 < 0x1_0000_0000,
            0 <= b.1 < 0x1_0000_0000,
            0 <= b.2 < 0x1_0000_0000,
    ;
    assert(specificity_key(a) == ka);
    assert(specificity_key(b) == kb);
    assert((ka < kb <==> less_specific(a, b)) && (ka == kb <==> (a.0 == b.0 && a.1 == b.1 && a.2 == b.2)))
        by (nonlinear_arith)
        requires
            ka == a.0 as int * 0x1_0000_0000_0000_0000 + a.1 as int * 0x1_0000_0000 + a.2 as int,
            kb == b.0 as int * 0x1_0000_0000_0000_0000 + b.1 as int * 0x1_0000_0000 + b.2 as int,
            0 <= a.0 < 0x1_0000_0000,
            0 <= a.1 < 0x1_0000_0000,
            0 <= a.2 < 0x1_0000_0000,
            0 <= b.0 < 0x1_0000_0000,
            0 <= b.1 < 0x1_0000_0000,
            0 <= b.2 < 0x1_0000_0000,
    {
        if a.0 < b.0 {
            assert(ka < (a.0 + 1) * 0x1_0000_0000_0000_0000);
            assert((a.0 + 1) * 0x1_0000_0000_0000_0000 <= b.0 * 0x1_0000_0000_0000_0000);
        } else if a.0 > b.0 {
            assert(kb < (b.0 + 1) * 0x1_0000_0000_0000_0000);
            assert((b.0 + 1) * 0x1_0000_0000_0000_0000 <= a.0 * 0x1_0000_0000_0000_0000);
        } else if a.1 < b.1 {
            assert(a.1 * 0x1_0000_0000 + a.2 < (a.1 + 1) * 0x1_0000_0000);
            assert((a.1 + 1) * 0x1_0000_0000 <= b.1 * 0x1_0000_0000);
        } else if a.1 > b.1 {
            assert(b.1 * 0x1_0000_0000 + b.2 < (b.1 + 1) * 0x1_0000_0000);
            assert((b.1 + 1) * 0x1_0000_0000 <= a.1 * 0x1_0000_0000);
        }
    }
}

/// The declarations that match an element are applied from the least to
/// the most specific rule (equal specificities in source order), each
/// once, so the declaration of a more specific rule comes later and wins.
pub proof fn law_specificity_order(m: Seq<(DeclarationView, (u32, u32, u32))>, part: Seq<DeclarationView>)
    requires
        sorted_matches(m, part),
    ensures
        exists|ord: Seq<usize>|
            {
                &&& ord.len() == m.len() && part.len() == m.len()
                &&& forall|k: int| 0 <= k < part.len() ==> #[trigger] ord[k] < m.len() && part[k] == m[ord[k] as int].0
                &&& forall|i: int, j: int|
                    0 <= i < j < part.len() ==> ord[i] != ord[j] && !less_specific(
                        m[#[trigger] ord[j] as int].1,
                        m[#[trigger] ord[i] as int].1,
                    ) && (m[ord[i] as int].1 == m[ord[j] as int].1 ==> ord[i] < ord[j])
            },
{
    let ord = choose|ord: Seq<usize>|
        {
            &&& is_stable_order(matched_keys(m), ord, m.len() as int, false)
            &&& part.len() == m.len()
            &&& forall|k: int| 0 <= k < part.len() ==> #[trigger] part[k] == m[ord[k] as int].0
        };
    let keys = matched_keys(m);
    assert forall|i: int, j: int| 0 <= i < j < part.len() implies ord[i] != ord[j] && !less_specific(
        m[#[trigger] ord[j] as int].1,
        m[#[trigger] ord[i] as int].1,
    ) && (m[ord[i] as int].1 == m[ord[j] as int].1 ==> ord[i] < ord[j]) by {
        let a = ord[i] as int;
        let b = ord[j] as int;
        assert(crate::sort::precedes(keys, a, b, false));
        assert(keys[a] == specificity_key(m[a].1));
        assert(keys[b] == specificity_key(m[b].1));
        lemma_specificity_key_order(m[a].1, m[b].1);
        lemma_specificity_key_order(m[b].1, m[a].1);
    }
    assert forall|k: int| 0 <= k < part.len() implies #[trigger] ord[k] < m.len() && part[k] == m[ord[k] as int].0 by {}
}

proof fn lemma_counts_concat(a: Seq<char>, b: Seq<char>)
    requires
        a.len() == 0 || is_combinator(a.last()) || (b.len() > 0 && !is_ascii_alpha(b[0])),
    ensures
        count_char(a + b, '#') == count_char(a, '#') + count_char(b, '#'),
        count_class_marks(a + b) == count_class_marks(a) + count_class_marks(b),
        count_type_pieces(a + b) == count_type_pieces(a) + count_type_pieces(b),
    decreases b.len(),
{
    if b.len() == 0 {
        assert(a + b =~= a);
    } else {
        let c = b.drop_last();
        assert((a + b).drop_last() =~= a + c);
        assert((a + b).last() == b.last());
        if c.len() > 0 {
            assert(c[0] == b[0]);
            lemma_counts_concat(a, c);
        } else {
            assert(a + c =~= a);
        }
        let n = (a + b).len() - 1;
        let j = b.len() - 1;
        assert((a + b)[n] == b[j]);
        if j > 0 {
            assert((a + b)[n - 1] == b[j - 1]);
        } else if a.len() > 0 {
            assert((a + b)[n - 1] == a.last());
        }
    }
}

proof fn lemma_counts_bounded(s: Seq<char>)
    ensures
        count_char(s, '#') <= s.len(),
        count_class_marks(s) <= s.len(),
        count_type_pieces(s) <= s.len(),
    decreases s.len(),
{
    if s.len() > 0 {
        lemma_counts_bounded(s.drop_last());
    }
}

/// A name made of ASCII letters and digits, starting with a letter.
pub open spec fn is_plain_name(n: Seq<char>) -> bool {
    &&& n.len() > 0
    &&& is_ascii_alpha(n[0])
    &&& forall|k: int| 0 <= k < n.len() ==> #[trigger] is_ascii_alnum_spec(n[k])
}

proof fn lemma_name_counts(n: Seq<char>)
    requires
        n.len() > 0,
        forall|k: int| 0 <= k < n.len() ==> #[trigger] is_ascii_alnum_spec(n[k]),
    ensures
        count_char(n, '#') == 0,
        count_class_marks(n) == 0,
        count_type_pieces(n) == if is_ascii_alpha(n[0]) {
            1nat
        } else {
            0nat
        },
    decreases n.len(),
{
    let m = n.drop_last();
    assert(is_ascii_alnum_spec(n[n.len() - 1]));
    assert(n.last() == n[n.len() - 1]);
    assert(!is_class_mark(n.last()) && n.last() != '#');
    assert(count_class_marks(n) == count_class_marks(m));
    assert(count_char(n, '#') == count_char(m, '#'));
    if m.len() > 0 {
        assert forall|k: int| 0 <= k < m.len() implies #[trigger] is_ascii_alnum_spec(m[k]) by {
            assert(m[k] == n[k]);
        }
        lemma_name_counts(m);
        assert(m[0] == n[0]);
        assert(is_ascii_alnum_spec(n[n.len() - 2]));
        assert(!is_combinator(n[n.len() - 2]));
        assert(count_type_pieces(n) == count_type_pieces(m));
    } else {
        assert(m =~= Seq::<char>::empty());
        assert(count_class_marks(m) == 0 && count_char(m, '#') == 0);
        assert(count_type_pieces(n) == count_type_pieces(m) + if is_ascii_alpha(n[0]) {
            1nat
        } else {
            0nat
        });
    }
}

proof fn lemma_counts_name_suffix(a: Seq<char>, n: Seq<char>)
    requires
        a.len() > 0,
        !is_combinator(a.last()),
        forall|k: int| 0 <= k < n.len() ==> #[trigger] is_ascii_alnum_spec(n[k]),
    ensures
        count_char(a + n, '#') == count_char(a, '#'),
        count_class_marks(a + n) == count_class_marks(a),
        count_type_pieces(a + n) == count_type_pieces(a),
    decreases n.len(),
{
    if n.len() == 0 {
        assert(a + n =~= a);
    } else {
        let m = n.drop_last();
        assert forall|k: int| 0 <= k < m.len() implies #[trigger] is_ascii_alnum_spec(m[k]) by {
            assert(m[k] == n[k]);
        }
        lemma_counts_name_suffix(a, m);
        assert((a + n).drop_last() =~= a + m);
        let t = (a + n).len() - 1;
        assert((a + n)[t] == n[n.len() - 1]);
        assert(is_ascii_alnum_spec(n[n.len() - 1]));
        assert((a + n).last() == (a + n)[t]);
        if m.len() > 0 {
            assert((a + n)[t - 1] == m[m.len() - 1]);
            assert(is_ascii_alnum_spec(m[m.len() - 1]));
        } else {
            assert((a + n)[t - 1] == a.last());
        }
    }
}

proof fn lemma_mark_counts()
    ensures
        count_char(seq!['#'], '#') == 1 && count_class_marks(seq!['#']) == 0 && count_type_pieces(seq!['#']) == 0,
        count_char(seq!['.'], '#') == 0 && count_class_marks(seq!['.']) == 1 && count_type_pieces(seq!['.']) == 0,
        count_char(seq![':'], '#') == 0 && count_class_marks(seq![':']) == 1 && count_type_pieces(seq![':']) == 0,
{
    let e = Seq::<char>::empty();
    assert(count_char(e, '#') == 0 && count_class_marks(e) == 0 && count_type_pieces(e) == 0);
    assert(seq!['#'].drop_last() =~= e);
    assert(seq!['.'].drop_last() =~= e);
    assert(seq![':'].drop_last() =~= e);
    assert(seq!['#'].last() == '#' && seq!['#'][0] == '#');
    assert(seq!['.'].last() == '.' && seq!['.'][0] == '.');
    assert(seq![':'].last() == ':' && seq![':'][0] == ':');
}

/// The specificity of a single simple selector: a type name counts as one
/// type, `#name` as one id, `.name` and `:name` as one class.
pub proof fn law_specificity_simple(n: Seq<char>)
    requires
        is_plain_name(n),
    ensures
        specificity_of(n) == (0u32, 0u32, 1u32),
        specificity_of(seq!['#'] + n) == (1u32, 0u32, 0u32),
        specificity_of(seq!['.'] + n) == (0u32, 1u32, 0u32),
        specificity_of(seq![':'] + n) == (0u32, 1u32, 0u32),
{
    lemma_name_counts(n);
    assert(seq!['#'].drop_last() =~= Seq::<char>::empty());
    assert(seq!['.'].drop_last() =~= Seq::<char>::empty());
    assert(seq![':'].drop_last() =~= Seq::<char>::empty());
    lemma_mark_counts();
    lemma_counts_name_suffix(seq!['#'], n);
    lemma_counts_name_suffix(seq!['.'], n);
    lemma_counts_name_suffix(seq![':'], n);
}

/// Specificity adds up: a selector `a b` or `a > b` (descendant or child)
/// and a compound `ab` whose second part starts with `#`, `.`, `:` or `[`
/// count the ids, classes and types of both parts.
pub proof fn law_specificity_adds(a: Seq<char>, b: Seq<char>, c: char)
    requires
        a.len() + b.len() + 1 <= u32::MAX,
        c == ' ' || c == '>' || (b.len() > 0 && (b[0] == '#' || b[0] == '.' || b[0] == ':' || b[0] == '[')),
    ensures
        ({
            let s = if c == ' ' || c == '>' {
                a + seq![c] + b
            } else {
                a + b
            };
            let (x1, y1, z1) = specificity_of(a);
            let (x2, y2, z2) = specificity_of(b);
            specificity_of(s) == ((x1 + x2) as u32, (y1 + y2) as u32, (z1 + z2) as u32)
        }),
{
    lemma_counts_bounded(a);
    lemma_counts_bounded(b);
    if c == ' ' || c == '>' {
        let ac = a + seq![c];
        assert(ac.drop_last() =~= a);
        if a.len() > 0 {
            assert(ac[ac.len() - 2] == a.last());
        }
        assert(ac.last() == c);
        lemma_counts_concat(a, seq![c]);
        lemma_counts_concat(ac, b);
        lemma_counts_bounded(ac + b);
        assert(seq![c].drop_last() =~= Seq::<char>::empty());
    } else {
        lemma_counts_concat(a, b);
        lemma_counts_bounded(a + b);
    }
}

proof fn lemma_plain_name_len(n: Seq<char>)
    requires
        forall|k: int| 0 <= k < n.len() ==> #[trigger] is_ascii_alnum_spec(n[k]),
    ensures
        name_len(n) == n.len(),
{
    lemma_name_len(n);
    if name_len(n) < n.len() {
        assert(is_ascii_alnum_spec(n[name_len(n) as int]));
    }
}

/// The classes an element's `class` attribute lists.
pub open spec fn element_classes(attrs: Seq<(String, String)>) -> Seq<Seq<char>> {
    match attr_value(attrs, "class"@) {
        Some(c) => words(c),
        None => seq![],
    }
}

/// A simple selector made of a name matches by what it names: `name` an
/// element with that tag, `.name` one whose `class` attribute lists the
/// class, `#name` one whose `id` is the name, and `tag.name` one with both
/// the tag and the class.
pub proof fn law_simple_selectors(n: Seq<char>, t: Seq<char>, tag: Seq<char>, attrs: Seq<(String, String)>)
    requires
        is_plain_name(n),
        is_plain_name(t),
    ensures
        simple_matches(n, tag, attrs) <==> tag == n,
        simple_matches(seq!['.'] + n, tag, attrs) <==> element_classes(attrs).contains(n),
        simple_matches(seq!['#'] + n, tag, attrs) <==> attr_value(attrs, "id"@) == Some(n),
        simple_matches(t + seq!['.'] + n, tag, attrs) <==> tag == t && element_classes(attrs).contains(n),
{
    reveal_strlit("*");
    lemma_plain_name_len(n);
    lemma_plain_name_len(t);
    assert(n != "*"@) by {
        assert(is_ascii_alnum_spec(n[0]));
    }
    // `name`
    assert(sel_tag(n) == Some(n));
    assert(sel_rest(n) =~= Seq::<char>::empty());
    // `.name` and `#name`
    let e = Seq::<char>::empty();
    let dn = seq!['.'] + n;
    let hn = seq!['#'] + n;
    assert(dn.skip(1) =~= n);
    assert(hn.skip(1) =~= n);
    assert(dn.skip(1 + n.len() as int) =~= e);
    assert(hn.skip(1 + n.len() as int) =~= e);
    assert(dn.subrange(1, 1 + n.len() as int) =~= n);
    assert(hn.subrange(1, 1 + n.len() as int) =~= n);
    assert(dn != "*"@ && hn != "*"@) by {
        assert(dn.len() == 1 ==> n.len() == 0);
        assert(hn.len() == 1 ==> n.len() == 0);
    }
    assert(name_len(dn) == 0 && name_len(hn) == 0);
    assert(sel_rest(dn) == dn && sel_rest(hn) == hn);
    assert(sel_classes(e) == Seq::<Seq<char>>::empty());
    assert(sel_id(e) is None);
    assert(sel_classes(dn) =~= seq![n]);
    assert(sel_id(dn) is None);
    assert(sel_classes(hn) =~= Seq::<Seq<char>>::empty());
    assert(sel_id(hn) == Some(n));
    assert(simple_matches(dn, tag, attrs) <==> element_classes(attrs).contains(n)) by {
        let cl = sel_classes(sel_rest(dn));
        assert(cl.len() == 1 && cl[0] == n);
        if element_classes(attrs).contains(n) {
            assert forall|k: int| 0 <= k < cl.len() implies element_classes(attrs).contains(#[trigger] cl[k]) by {
                assert(k == 0);
            }
        }
    }
    // `tag.name`
    let c = t + seq!['.'] + n;
    assert forall|k: int| 0 <= k < t.len() implies !is_mark(#[trigger] c[k]) by {
        assert(c[k] == t[k]);
        assert(is_ascii_alnum_spec(t[k]));
    }
    assert(c.take(t.len() as int) =~= t);
    assert(c.skip(t.len() as int) =~= dn);
    assert(c[t.len() as int] == '.');
    assert(name_len(c) == t.len()) by {
        lemma_name_len(c);
        if name_len(c) < t.len() {
            assert(!is_mark(c[name_len(c) as int]));
        }
        lemma_name_len_at_least(c, t.len() as int);
    }
    assert(c != "*"@) by {
        assert(c.len() >= 3);
    }
    assert(sel_tag(c) == Some(t));
    assert(sel_rest(c) == dn);
    assert(simple_matches(c, tag, attrs) <==> tag == t && element_classes(attrs).contains(n)) by {
        let cl = sel_classes(sel_rest(c));
        assert(cl.len() == 1 && cl[0] == n);
        assert(t.len() > 0);
        if element_classes(attrs).contains(n) {
            assert forall|k: int| 0 <= k < cl.len() implies element_classes(attrs).contains(#[trigger] cl[k]) by {
                assert(k == 0);
            }
        }
    }
}

proof fn lemma_name_len_at_least(s: Seq<char>, i: int)
    requires
        0 <= i <= s.len(),
        forall|k: int| 0 <= k < i ==> !is_mark(#[trigger] s[k]),
    ensures
        name_len(s) >= i,
    decreases i,
{
    if i > 0 {
        assert forall|k: int| 0 <= k < i - 1 implies !is_mark(#[trigger] s.drop_first()[k]) by {
            assert(s.drop_first()[k] == s[k + 1]);
        }
        lemma_name_len_at_least(s.drop_first(), i - 1);
        assert(!is_mark(s[0]));
    }
}

/// A single simple selector: no whitespace, comma or `>` in it.
pub open spec fn is_single_simple(x: Seq<char>) -> bool {
    &&& x.len() > 0
    &&& forall|k: int| 0 <= k < x.len() ==> !is_ws_spec(#[trigger] x[k]) && x[k] != ',' && x[k] != '>'
}

proof fn lemma_single_states(x: Seq<char>)
    requires
        forall|k: int| 0 <= k < x.len() ==> !is_ws_spec(#[trigger] x[k]) && x[k] != ',' && x[k] != '>',
    ensures
        split_state(x, ',') == (Seq::<Seq<char>>::empty(), x),
        words_state(x) == (Seq::<Seq<char>>::empty(), x),
    decreases x.len(),
{
    if x.len() == 0 {
        assert(x =~= Seq::<char>::empty());
    } else {
        let y = x.drop_last();
        assert forall|k: int| 0 <= k < y.len() implies !is_ws_spec(#[trigger] y[k]) && y[k] != ',' && y[k]
            != '>' by {
            assert(y[k] == x[k]);
        }
        lemma_single_states(y);
        assert(x.last() == x[x.len() - 1]);
        assert(y.push(x.last()) =~= x);
    }
}

/// A single simple selector is its own base, and a selector list made of
/// one: it matches an element exactly as the simple selector does, and a
/// tag exactly when it is `*` or the tag's name.
pub proof fn law_single_selector(x: Seq<char>, tag: Seq<char>, attrs: Seq<(String, String)>)
    requires
        is_single_simple(x),
    ensures
        selector_base(x) == x,
        split_on(x, ',') == seq![x],
        selector_matches_element_spec(x, tag, attrs) <==> simple_matches(x, tag, attrs),
        selector_matches_tag_spec(x, tag) <==> (x == "*"@ || x == tag),
{
    lemma_single_states(x);
    assert(!is_ws_spec(x[0]));
    assert(!is_ws_spec(x.last())) by {
        assert(x.last() == x[x.len() - 1]);
    }
    lemma_trim_clean(x);
    assert(words(x) == seq![x]);
    lemma_rfind_char(x, '>');
    assert(after_last(x, '>') == x);
    assert(split_on(x, ',') =~= seq![x]);
    assert(seq![x][0] == x);
    if simple_matches(x, tag, attrs) {
        assert(simple_matches(selector_base(split_on(x, ',')[0]), tag, attrs));
    }
    if x == "*"@ || x == tag {
        assert(part_matches_tag(split_on(x, ',')[0], tag));
    }
}

proof fn lemma_length_font_size(v: Seq<char>, important: bool)
    ensures
        length_effect(DeclarationView { property: "font-size"@, value: v, important }) == (LengthTarget::FontSize, v),
{
    reveal_strlit("font-size");
    reveal_strlit("margin");
    reveal_strlit("-top");
    reveal_strlit("margin-top");
    assert("margin"@ + "-top"@ =~= "margin-top"@);
    reveal_strlit("-right");
    reveal_strlit("margin-right");
    assert("margin"@ + "-right"@ =~= "margin-right"@);
    reveal_strlit("-bottom");
    reveal_strlit("margin-bottom");
    assert("margin"@ + "-bottom"@ =~= "margin-bottom"@);
    reveal_strlit("-left");
    reveal_strlit("margin-left");
    assert("margin"@ + "-left"@ =~= "margin-left"@);
    reveal_strlit("padding");
    reveal_strlit("-top");
    reveal_strlit("padding-top");
    assert("padding"@ + "-top"@ =~= "padding-top"@);
    reveal_strlit("-right");
    reveal_strlit("padding-right");
    assert("padding"@ + "-right"@ =~= "padding-right"@);
    reveal_strlit("-bottom");
    reveal_strlit("padding-bottom");
    assert("padding"@ + "-bottom"@ =~= "padding-bottom"@);
    reveal_strlit("-left");
    reveal_strlit("padding-left");
    assert("padding"@ + "-left"@ =~= "padding-left"@);
    reveal_strlit("line-height");
    assert("font-size"@.len() != "line-height"@.len());
    reveal_strlit("margin");
    assert("font-size"@.len() != "margin"@.len());
    reveal_strlit("margin-top");
    assert("font-size"@.len() != "margin-top"@.len());
    reveal_strlit("margin-right");
    assert("font-size"@.len() != "margin-right"@.len());
    reveal_strlit("margin-bottom");
    assert("font-size"@.len() != "margin-bottom"@.len());
    reveal_strlit("margin-left");
    assert("font-size"@.len() != "margin-left"@.len());
    reveal_strlit("padding");
    assert("font-size"@.len() != "padding"@.len());
    reveal_strlit("padding-top");
    assert("font-size"@.len() != "padding-top"@.len());
    reveal_strlit("padding-right");
    assert("font-size"@.len() != "padding-right"@.len());
    reveal_strlit("padding-bottom");
    assert("font-size"@.len() != "padding-bottom"@.len());
    reveal_strlit("padding-left");
    assert("font-size"@.len() != "padding-left"@.len());
    reveal_strlit("border-width");
    assert("font-size"@.len() != "border-width"@.len());
    reveal_strlit("width");
    assert("font-size"@.len() != "width"@.len());
    reveal_strlit("height");
    assert("font-size"@.len() != "height"@.len());
    reveal_strlit("max-width");
    assert("font-size"@[0] != "max-width"@[0]);
    reveal_strlit("min-width");
    assert("font-size"@[0] != "min-width"@[0]);
    reveal_strlit("border");
    assert("font-size"@.len() != "border"@.len());
}

proof fn lemma_length_line_height(v: Seq<char>, important: bool)
    ensures
        length_effect(DeclarationView { property: "line-height"@, value: v, important }) == (LengthTarget::LineHeight, v),
{
    reveal_strlit("line-height");
    reveal_strlit("margin");
    reveal_strlit("-top");
    reveal_strlit("margin-top");
    assert("margin"@ + "-top"@ =~= "margin-top"@);
    reveal_strlit("-right");
    reveal_strlit("margin-right");
    assert("margin"@ + "-right"@ =~= "margin-right"@);
    reveal_strlit("-bottom");
    reveal_strlit("margin-bottom");
    assert("margin"@ + "-bottom"@ =~= "margin-bottom"@);
    reveal_strlit("-left");
    reveal_strlit("margin-left");
    assert("margin"@ + "-left"@ =~= "margin-left"@);
    reveal_strlit("padding");
    reveal_strlit("-top");
    reveal_strlit("padding-top");
    assert("padding"@ + "-top"@ =~= "padding-top"@);
    reveal_strlit("-right");
    reveal_strlit("padding-right");
    assert("padding"@ + "-right"@ =~= "padding-right"@);
    reveal_strlit("-bottom");
    reveal_strlit("padding-bottom");
    assert("padding"@ + "-bottom"@ =~= "padding-bottom"@);
    reveal_strlit("-left");
    reveal_strlit("padding-left");
    assert("padding"@ + "-left"@ =~= "padding-left"@);
    reveal_strlit("font-size");
    assert("line-height"@.len() != "font-size"@.len());
    reveal_strlit("margin");
    assert("line-height"@.len() != "margin"@.len());
    reveal_strlit("margin-top");
    assert("line-height"@.len() != "margin-top"@.len());
    reveal_strlit("margin-right");
    assert("line-height"@.len() != "margin-right"@.len());
    reveal_strlit("margin-bottom");
    assert("line-height"@.len() != "margin-bottom"@.len());
    reveal_strlit("margin-left");
    assert("line-height"@[0] != "margin-left"@[0]);
    reveal_strlit("padding");
    assert("line-height"@.len() != "padding"@.len());
    reveal_strlit("padding-top");
    assert("line-height"@[0] != "padding-top"@[0]);
    reveal_strlit("padding-right");
    assert("line-height"@.len() != "padding-right"@.len());
    reveal_strlit("padding-bottom");
    assert("line-height"@.len() != "padding-bottom"@.len());
    reveal_strlit("padding-left");
    assert("line-height"@.len() != "padding-left"@.len());
    reveal_strlit("border-width");
    assert("line-height"@.len() != "border-width"@.len());
    reveal_strlit("width");
    assert("line-height"@.len() != "width"@.len());
    reveal_strlit("height");
    assert("line-height"@.len() != "height"@.len());
    reveal_strlit("max-width");
    assert("line-height"@.len() != "max-width"@.len());
    reveal_strlit("min-width");
    assert("line-height"@.len() != "min-width"@.len());
    reveal_strlit("border");
    assert("line-height"@.len() != "border"@.len());
}

proof fn lemma_length_margin(v: Seq<char>, important: bool)
    ensures
        length_effect(DeclarationView { property: "margin"@, value: v, important }) == (LengthTarget::Margin(Side::All), v),
{
    reveal_strlit("margin");
    reveal_strlit("margin");
    reveal_strlit("-top");
    reveal_strlit("margin-top");
    assert("margin"@ + "-top"@ =~= "margin-top"@);
    reveal_strlit("-right");
    reveal_strlit("margin-right");
    assert("margin"@ + "-right"@ =~= "margin-right"@);
    reveal_strlit("-bottom");
    reveal_strlit("margin-bottom");
    assert("margin"@ + "-bottom"@ =~= "margin-bottom"@);
    reveal_strlit("-left");
    reveal_strlit("margin-left");
    assert("margin"@ + "-left"@ =~= "margin-left"@);
    reveal_strlit("padding");
    reveal_strlit("-top");
    reveal_strlit("padding-top");
    assert("padding"@ + "-top"@ =~= "padding-top"@);
    reveal_strlit("-right");
    reveal_strlit("padding-right");
    assert("padding"@ + "-right"@ =~= "padding-right"@);
    reveal_strlit("-bottom");
    reveal_strlit("padding-bottom");
    assert("padding"@ + "-bottom"@ =~= "padding-bottom"@);
    reveal_strlit("-left");
    reveal_strlit("padding-left");
    assert("padding"@ + "-left"@ =~= "padding-left"@);
    reveal_strlit("font-size");
    assert("margin"@.len() != "font-size"@.len());
    reveal_strlit("line-height");
    assert("margin"@.len() != "line-height"@.len());
    reveal_strlit("margin-top");
    assert("margin"@.len() != "margin-top"@.len());
    reveal_strlit("margin-right");
    assert("margin"@.len() != "margin-right"@.len());
    reveal_strlit("margin-bottom");
    assert("margin"@.len() != "margin-bottom"@.len());
    reveal_strlit("margin-left");
    assert("margin"@.len() != "margin-left"@.len());
    reveal_strlit("padding");
    assert("margin"@.len() != "padding"@.len());
    reveal_strlit("padding-top");
    assert("margin"@.len() != "padding-top"@.len());
    reveal_strlit("padding-right");
    assert("margin"@.len() != "padding-right"@.len());
    reveal_strlit("padding-bottom");
    assert("margin"@.len() != "padding-bottom"@.len());
    reveal_strlit("padding-left");
    assert("margin"@.len() != "padding-left"@.len());
    reveal_strlit("border-width");
    assert("margin"@.len() != "border-width"@.len());
    reveal_strlit("width");
    assert("margin"@.len() != "width"@.len());
    reveal_strlit("height");
    assert("margin"@[0] != "height"@[0]);
    reveal_strlit("max-width");
    assert("margin"@.len() != "max-width"@.len());
    reveal_strlit("min-width");
    assert("margin"@.len() != "min-width"@.len());
    reveal_strlit("border");
    assert("margin"@[0] != "border"@[0]);
}

proof fn lemma_length_margin_top(v: Seq<char>, important: bool)
    ensures
        length_effect(DeclarationView { property: "margin-top"@, value: v, important }) == (LengthTarget::Margin(Side::Top), v),
{
    reveal_strlit("margin-top");
    reveal_strlit("margin");
    reveal_strlit("-top");
    reveal_strlit("margin-top");
    assert("margin"@ + "-top"@ =~= "margin-top"@);
    reveal_strlit("-right");
    reveal_strlit("margin-right");
    assert("margin"@ + "-right"@ =~= "margin-right"@);
    reveal_strlit("-bottom");
    reveal_strlit("margin-bottom");
    assert("margin"@ + "-bottom"@ =~= "margin-bottom"@);
    reveal_strlit("-left");
    reveal_strlit("margin-left");
    assert("margin"@ + "-left"@ =~= "margin-left"@);
    reveal_strlit("padding");
    reveal_strlit("-top");
    reveal_strlit("padding-top");
    assert("padding"@ + "-top"@ =~= "padding-top"@);
    reveal_strlit("-right");
    reveal_strlit("padding-right");
    assert("padding"@ + "-right"@ =~= "padding-right"@);
    reveal_strlit("-bottom");
    reveal_strlit("padding-bottom");
    assert("padding"@ + "-bottom"@ =~= "padding-bottom"@);
    reveal_strlit("-left");
    reveal_strlit("padding-left");
    assert("padding"@ + "-left"@ =~= "padding-left"@);
    reveal_strlit("font-size");
    assert("margin-top"@.len() != "font-size"@.len());
    reveal_strlit("line-height");
    assert("margin-top"@.len() != "line-height"@.len());
    reveal_strlit("margin");
    assert("margin-top"@.len() != "margin"@.len());
    reveal_strlit("margin-right");
    assert("margin-top"@.len() != "margin-right"@.len());
    reveal_strlit("margin-bottom");
    assert("margin-top"@.len() != "margin-bottom"@.len());
    reveal_strlit("margin-left");
    assert("margin-top"@.len() != "margin-left"@.len());
    reveal_strlit("padding");
    assert("margin-top"@.len() != "padding"@.len());
    reveal_strlit("padding-top");
    assert("margin-top"@.len() != "padding-top"@.len());
    reveal_strlit("padding-right");
    assert("margin-top"@.len() != "padding-right"@.len());
    reveal_strlit("padding-bottom");
    assert("margin-top"@.len() != "padding-bottom"@.len());
    reveal_strlit("padding-left");
    assert("margin-top"@.len() != "padding-left"@.len());
    reveal_strlit("border-width");
    assert("margin-top"@.len() != "border-width"@.len());
    reveal_strlit("width");
    assert("margin-top"@.len() != "width"@.len());
    reveal_strlit("height");
    assert("margin-top"@.len() != "height"@.len());
    reveal_strlit("max-width");
    assert("margin-top"@.len() != "max-width"@.len());
    reveal_strlit("min-width");
    assert("margin-top"@.len() != "min-width"@.len());
    reveal_strlit("border");
    assert("margin-top"@.len() != "border"@.len());
}

proof fn lemma_length_margin_right(v: Seq<char>, important: bool)
    ensures
        length_effect(DeclarationView { property: "margin-right"@, value: v, important }) == (LengthTarget::Margin(Side::Right), v),
{
    reveal_strlit("margin-right");
    reveal_strlit("margin");
    reveal_strlit("-top");
    reveal_strlit("margin-top");
    assert("margin"@ + "-top"@ =~= "margin-top"@);
    reveal_strlit("-right");
    reveal_strlit("margin-right");
    assert("margin"@ + "-right"@ =~= "margin-right"@);
    reveal_strlit("-bottom");
    reveal_strlit("margin-bottom");
    assert("margin"@ + "-bottom"@ =~= "margin-bottom"@);
    reveal_strlit("-left");
    reveal_strlit("margin-left");
    assert("margin"@ + "-left"@ =~= "margin-left"@);
    reveal_strlit("padding");
    reveal_strlit("-top");
    reveal_strlit("padding-top");
    assert("padding"@ + "-top"@ =~= "padding-top"@);
    reveal_strlit("-right");
    reveal_strlit("padding-right");
    assert("padding"@ + "-right"@ =~= "padding-right"@);
    reveal_strlit("-bottom");
    reveal_strlit("padding-bottom");
    assert("padding"@ + "-bottom"@ =~= "padding-bottom"@);
    reveal_strlit("-left");
    reveal_strlit("padding-left");
    assert("padding"@ + "-left"@ =~= "padding-left"@);
    reveal_strlit("font-size");
    assert("margin-right"@.len() != "font-size"@.len());
    reveal_strlit("line-height");
    assert("margin-right"@.len() != "line-height"@.len());
    reveal_strlit("margin");
    assert("margin-right"@.len() != "margin"@.len());
    reveal_strlit("margin-top");
    assert("margin-right"@.len() != "margin-top"@.len());
    reveal_strlit("margin-bottom");
    assert("margin-right"@.len() != "margin-bottom"@.len());
    reveal_strlit("margin-left");
    assert("margin-right"@.len() != "margin-left"@.len());
    reveal_strlit("padding");
    assert("margin-right"@.len() != "padding"@.len());
    reveal_strlit("padding-top");
    assert("margin-right"@.len() != "padding-top"@.len());
    reveal_strlit("padding-right");
    assert("margin-right"@.len() != "padding-right"@.len());
    reveal_strlit("padding-bottom");
    assert("margin-right"@.len() != "padding-bottom"@.len());
    reveal_strlit("padding-left");
    assert("margin-right"@[0] != "padding-left"@[0]);
    reveal_strlit("border-width");
    assert("margin-right"@[0] != "border-width"@[0]);
    reveal_strlit("width");
    assert("margin-right"@.len() != "width"@.len());
    reveal_strlit("height");
    assert("margin-right"@.len() != "height"@.len());
    reveal_strlit("max-width");
    assert("margin-right"@.len() != "max-width"@.len());
    reveal_strlit("min-width");
    assert("margin-right"@.len() != "min-width"@.len());
    reveal_strlit("border");
    assert("margin-right"@.len() != "border"@.len());
}

proof fn lemma_length_margin_bottom(v: Seq<char>, important: bool)
    ensures
        length_effect(DeclarationView { property: "margin-bottom"@, value: v, important }) == (LengthTarget::Margin(Side::Bottom), v),
{
    reveal_strlit("margin-bottom");
    reveal_strlit("margin");
    reveal_strlit("-top");
    reveal_strlit("margin-top");
    assert("margin"@ + "-top"@ =~= "margin-top"@);
    reveal_strlit("-right");
    reveal_strlit("margin-right");
    assert("margin"@ + "-right"@ =~= "margin-right"@);
    reveal_strlit("-bottom");
    reveal_strlit("margin-bottom");
    assert("margin"@ + "-bottom"@ =~= "margin-bottom"@);
    reveal_strlit("-left");
    reveal_strlit("margin-left");
    assert("margin"@ + "-left"@ =~= "margin-left"@);
    reveal_strlit("padding");
    reveal_strlit("-top");
    reveal_strlit("padding-top");
    assert("padding"@ + "-top"@ =~= "padding-top"@);
    reveal_strlit("-right");
    reveal_strlit("padding-right");
    assert("padding"@ + "-right"@ =~= "padding-right"@);
    reveal_strlit("-bottom");
    reveal_strlit("padding-bottom");
    assert("padding"@ + "-bottom"@ =~= "padding-bottom"@);
    reveal_strlit("-left");
    reveal_strlit("padding-left");
    assert("padding"@ + "-left"@ =~= "padding-left"@);
    reveal_strlit("font-size");
    assert("margin-bottom"@.len() != "font-size"@.len());
    reveal_strlit("line-height");
    assert("margin-bottom"@.len() != "line-height"@.len());
    reveal_strlit("margin");
    assert("margin-bottom"@.len() != "margin"@.len());
    reveal_strlit("margin-top");
    assert("margin-bottom"@.len() != "margin-top"@.len());
    reveal_strlit("margin-right");
    assert("margin-bottom"@.len() != "margin-right"@.len());
    reveal_strlit("margin-left");
    assert("margin-bottom"@.len() != "margin-left"@.len());
    reveal_strlit("padding");
    assert("margin-bottom"@.len() != "padding"@.len());
    reveal_strlit("padding-top");
    assert("margin-bottom"@.len() != "padding-top"@.len());
    reveal_strlit("padding-right");
    assert("margin-bottom"@[0] != "padding-right"@[0]);
    reveal_strlit("padding-bottom");
    assert("margin-bottom"@.len() != "padding-bottom"@.len());
    reveal_strlit("padding-left");
    assert("margin-bottom"@.len() != "padding-left"@.len());
    reveal_strlit("border-width");
    assert("margin-bottom"@.len() != "border-width"@.len());
    reveal_strlit("width");
    assert("margin-bottom"@.len() != "width"@.len());
    reveal_strlit("height");
    assert("margin-bottom"@.len() != "height"@.len());
    reveal_strlit("max-width");
    assert("margin-bottom"@.len() != "max-width"@.len());
    reveal_strlit("min-width");
    assert("margin-bottom"@.len() != "min-width"@.len());
    reveal_strlit("border");
    assert("margin-bottom"@.len() != "border"@.len());
}

proof fn lemma_length_margin_left(v: Seq<char>, important: bool)
    ensures
        length_effect(DeclarationView { property: "margin-left"@, value: v, important }) == (LengthTarget::Margin(Side::Left), v),
{
    reveal_strlit("margin-left");
    reveal_strlit("margin");
    reveal_strlit("-top");
    reveal_strlit("margin-top");
    assert("margin"@ + "-top"@ =~= "margin-top"@);
    reveal_strlit("-right");
    reveal_strlit("margin-right");
    assert("margin"@ + "-right"@ =~= "margin-right"@);
    reveal_strlit("-bottom");
    reveal_strlit("margin-bottom");
    assert("margin"@ + "-bottom"@ =~= "margin-bottom"@);
    reveal_strlit("-left");
    reveal_strlit("margin-left");
    assert("margin"@ + "-left"@ =~= "margin-left"@);
    reveal_strlit("padding");
    reveal_strlit("-top");
    reveal_strlit("padding-top");
    assert("padding"@ + "-top"@ =~= "padding-top"@);
    reveal_strlit("-right");
    reveal_strlit("padding-right");
    assert("padding"@ + "-right"@ =~= "padding-right"@);
    reveal_strlit("-bottom");
    reveal_strlit("padding-bottom");
    assert("padding"@ + "-bottom"@ =~= "padding-bottom"@);
    reveal_strlit("-left");
    reveal_strlit("padding-left");
    assert("padding"@ + "-left"@ =~= "padding-left"@);
    reveal_strlit("font-size");
    assert("margin-left"@.len() != "font-size"@.len());
    reveal_strlit("line-height");
    assert("margin-left"@[0] != "line-height"@[0]);
    reveal_strlit("margin");
    assert("margin-left"@.len() != "margin"@.len());
    reveal_strlit("margin-top");
    assert("margin-left"@.len() != "margin-top"@.len());
    reveal_strlit("margin-right");
    assert("margin-left"@.len() != "margin-right"@.len());
    reveal_strlit("margin-bottom");
    assert("margin-left"@.len() != "margin-bottom"@.len());
    reveal_strlit("padding");
    assert("margin-left"@.len() != "padding"@.len());
    reveal_strlit("padding-top");
    assert("margin-left"@[0] != "padding-top"@[0]);
    reveal_strlit("padding-right");
    assert("margin-left"@.len() != "padding-right"@.len());
    reveal_strlit("padding-bottom");
    assert("margin-left"@.len() != "padding-bottom"@.len());
    reveal_strlit("padding-left");
    assert("margin-left"@.len() != "padding-left"@.len());
    reveal_strlit("border-width");
    assert("margin-left"@.len() != "border-width"@.len());
    reveal_strlit("width");
    assert("margin-left"@.len() != "width"@.len());
    reveal_strlit("height");
    assert("margin-left"@.len() != "height"@.len());
    reveal_strlit("max-width");
    assert("margin-left"@.len() != "max-width"@.len());
    reveal_strlit("min-width");
    assert("margin-left"@.len() != "min-width"@.len());
    reveal_strlit("border");
    assert("margin-left"@.len() != "border"@.len());
}

proof fn lemma_length_padding(v: Seq<char>, important: bool)
    ensures
        length_effect(DeclarationView { property: "padding"@, value: v, important }) == (LengthTarget::Padding(Side::All), v),
{
    reveal_strlit("padding");
    reveal_strlit("margin");
    reveal_strlit("-top");
    reveal_strlit("margin-top");
    assert("margin"@ + "-top"@ =~= "margin-top"@);
    reveal_strlit("-right");
    reveal_strlit("margin-right");
    assert("margin"@ + "-right"@ =~= "margin-right"@);
    reveal_strlit("-bottom");
    reveal_strlit("margin-bottom");
    assert("margin"@ + "-bottom"@ =~= "margin-bottom"@);
    reveal_strlit("-left");
    reveal_strlit("margin-left");
    assert("margin"@ + "-left"@ =~= "margin-left"@);
    reveal_strlit("padding");
    reveal_strlit("-top");
    reveal_strlit("padding-top");
    assert("padding"@ + "-top"@ =~= "padding-top"@);
    reveal_strlit("-right");
    reveal_strlit("padding-right");
    assert("padding"@ + "-right"@ =~= "padding-right"@);
    reveal_strlit("-bottom");
    reveal_strlit("padding-bottom");
    assert("padding"@ + "-bottom"@ =~= "padding-bottom"@);
    reveal_strlit("-left");
    reveal_strlit("padding-left");
    assert("padding"@ + "-left"@ =~= "padding-left"@);
    reveal_strlit("font-size");
    assert("padding"@.len() != "font-size"@.len());
    reveal_strlit("line-height");
    assert("padding"@.len() != "line-height"@.len());
    reveal_strlit("margin");
    assert("padding"@.len() != "margin"@.len());
    reveal_strlit("margin-top");
    assert("padding"@.len() != "margin-top"@.len());
    reveal_strlit("margin-right");
    assert("padding"@.len() != "margin-right"@.len());
    reveal_strlit("margin-bottom");
    assert("padding"@.len() != "margin-bottom"@.len());
    reveal_strlit("margin-left");
    assert("padding"@.len() != "margin-left"@.len());
    reveal_strlit("padding-top");
    assert("padding"@.len() != "padding-top"@.len());
    reveal_strlit("padding-right");
    assert("padding"@.len() != "padding-right"@.len());
    reveal_strlit("padding-bottom");
    assert("padding"@.len() != "padding-bottom"@.len());
    reveal_strlit("padding-left");
    assert("padding"@.len() != "padding-left"@.len());
    reveal_strlit("border-width");
    assert("padding"@.len() != "border-width"@.len());
    reveal_strlit("width");
    assert("padding"@.len() != "width"@.len());
    reveal_strlit("height");
    assert("padding"@.len() != "height"@.len());
    reveal_strlit("max-width");
    assert("padding"@.len() != "max-width"@.len());
    reveal_strlit("min-width");
    assert("padding"@.len() != "min-width"@.len());
    reveal_strlit("border");
    assert("padding"@.len() != "border"@.len());
}

proof fn lemma_length_padding_top(v: Seq<char>, important: bool)
    ensures
        length_effect(DeclarationView { property: "padding-top"@, value: v, important }) == (LengthTarget::Padding(Side::Top), v),
{
    reveal_strlit("padding-top");
    reveal_strlit("margin");
    reveal_strlit("-top");
    reveal_strlit("margin-top");
    assert("margin"@ + "-top"@ =~= "margin-top"@);
    reveal_strlit("-right");
    reveal_strlit("margin-right");
    assert("margin"@ + "-right"@ =~= "margin-right"@);
    reveal_strlit("-bottom");
    reveal_strlit("margin-bottom");
    assert("margin"@ + "-bottom"@ =~= "margin-bottom"@);
    reveal_strlit("-left");
    reveal_strlit("margin-left");
    assert("margin"@ + "-left"@ =~= "margin-left"@);
    reveal_strlit("padding");
    reveal_strlit("-top");
    reveal_strlit("padding-top");
    assert("padding"@ + "-top"@ =~= "padding-top"@);
    reveal_strlit("-right");
    reveal_strlit("padding-right");
    assert("padding"@ + "-right"@ =~= "padding-right"@);
    reveal_strlit("-bottom");
    reveal_strlit("padding-bottom");
    assert("padding"@ + "-bottom"@ =~= "padding-bottom"@);
    reveal_strlit("-left");
    reveal_strlit("padding-left");
    assert("padding"@ + "-left"@ =~= "padding-left"@);
    reveal_strlit("font-size");
    assert("padding-top"@.len() != "font-size"@.len());
    reveal_strlit("line-height");
    assert("padding-top"@[0] != "line-height"@[0]);
    reveal_strlit("margin");
    assert("padding-top"@.len() != "margin"@.len());
    reveal_strlit("margin-top");
    assert("padding-top"@.len() != "margin-top"@.len());
    reveal_strlit("margin-right");
    assert("padding-top"@.len() != "margin-right"@.len());
    reveal_strlit("margin-bottom");
    assert("padding-top"@.len() != "margin-bottom"@.len());
    reveal_strlit("margin-left");
    assert("padding-top"@[0] != "margin-left"@[0]);
    reveal_strlit("padding");
    assert("padding-top"@.len() != "padding"@.len());
    reveal_strlit("padding-right");
    assert("padding-top"@.len() != "padding-right"@.len());
    reveal_strlit("padding-bottom");
    assert("padding-top"@.len() != "padding-bottom"@.len());
    reveal_strlit("padding-left");
    assert("padding-top"@.len() != "padding-left"@.len());
    reveal_strlit("border-width");
    assert("padding-top"@.len() != "border-width"@.len());
    reveal_strlit("width");
    assert("padding-top"@.len() != "width"@.len());
    reveal_strlit("height");
    assert("padding-top"@.len() != "height"@.len());
    reveal_strlit("max-width");
    assert("padding-top"@.len() != "max-width"@.len());
    reveal_strlit("min-width");
    assert("padding-top"@.len() != "min-width"@.len());
    reveal_strlit("border");
    assert("padding-top"@.len() != "border"@.len());
}

proof fn lemma_length_padding_right(v: Seq<char>, important: bool)
    ensures
        length_effect(DeclarationView { property: "padding-right"@, value: v, important }) == (LengthTarget::Padding(Side::Right), v),
{
    reveal_strlit("padding-right");
    reveal_strlit("margin");
    reveal_strlit("-top");
    reveal_strlit("margin-top");
    assert("margin"@ + "-top"@ =~= "margin-top"@);
    reveal_strlit("-right");
    reveal_strlit("margin-right");
    assert("margin"@ + "-right"@ =~= "margin-right"@);
    reveal_strlit("-bottom");
    reveal_strlit("margin-bottom");
    assert("margin"@ + "-bottom"@ =~= "margin-bottom"@);
    reveal_strlit("-left");
    reveal_strlit("margin-left");
    assert("margin"@ + "-left"@ =~= "margin-left"@);
    reveal_strlit("padding");
    reveal_strlit("-top");
    reveal_strlit("padding-top");
    assert("padding"@ + "-top"@ =~= "padding-top"@);
    reveal_strlit("-right");
    reveal_strlit("padding-right");
    assert("padding"@ + "-right"@ =~= "padding-right"@);
    reveal_strlit("-bottom");
    reveal_strlit("padding-bottom");
    assert("padding"@ + "-bottom"@ =~= "padding-bottom"@);
    reveal_strlit("-left");
    reveal_strlit("padding-left");
    assert("padding"@ + "-left"@ =~= "padding-left"@);
    reveal_strlit("font-size");
    assert("padding-right"@.len() != "font-size"@.len());
    reveal_strlit("line-height");
    assert("padding-right"@.len() != "line-height"@.len());
    reveal_strlit("margin");
    assert("padding-right"@.len() != "margin"@.len());
    reveal_strlit("margin-top");
    assert("padding-right"@.len() != "margin-top"@.len());
    reveal_strlit("margin-right");
    assert("padding-right"@.len() != "margin-right"@.len());
    reveal_strlit("margin-bottom");
    assert("padding-right"@[0] != "margin-bottom"@[0]);
    reveal_strlit("margin-left");
    assert("padding-right"@.len() != "margin-left"@.len());
    reveal_strlit("padding");
    assert("padding-right"@.len() != "padding"@.len());
    reveal_strlit("padding-top");
    assert("padding-right"@.len() != "padding-top"@.len());
    reveal_strlit("padding-bottom");
    assert("padding-right"@.len() != "padding-bottom"@.len());
    reveal_strlit("padding-left");
    assert("padding-right"@.len() != "padding-left"@.len());
    reveal_strlit("border-width");
    assert("padding-right"@.len() != "border-width"@.len());
    reveal_strlit("width");
    assert("padding-right"@.len() != "width"@.len());
    reveal_strlit("height");
    assert("padding-right"@.len() != "height"@.len());
    reveal_strlit("max-width");
    assert("padding-right"@.len() != "max-width"@.len());
    reveal_strlit("min-width");
    assert("padding-right"@.len() != "min-width"@.len());
    reveal_strlit("border");
    assert("padding-right"@.len() != "border"@.len());
}

proof fn lemma_length_padding_bottom(v: Seq<char>, important: bool)
    ensures
        length_effect(DeclarationView { property: "padding-bottom"@, value: v, important }) == (LengthTarget::Padding(Side::Bottom), v),
{
    reveal_strlit("padding-bottom");
    reveal_strlit("margin");
    reveal_strlit("-top");
    reveal_strlit("margin-top");
    assert("margin"@ + "-top"@ =~= "margin-top"@);
    reveal_strlit("-right");
    reveal_strlit("margin-right");
    assert("margin"@ + "-right"@ =~= "margin-right"@);
    reveal_strlit("-bottom");
    reveal_strlit("margin-bottom");
    assert("margin"@ + "-bottom"@ =~= "margin-bottom"@);
    reveal_strlit("-left");
    reveal_strlit("margin-left");
    assert("margin"@ + "-left"@ =~= "margin-left"@);
    reveal_strlit("padding");
    reveal_strlit("-top");
    reveal_strlit("padding-top");
    assert("padding"@ + "-top"@ =~= "padding-top"@);
    reveal_strlit("-right");
    reveal_strlit("padding-right");
    assert("padding"@ + "-right"@ =~= "padding-right"@);
    reveal_strlit("-bottom");
    reveal_strlit("padding-bottom");
    assert("padding"@ + "-bottom"@ =~= "padding-bottom"@);
    reveal_strlit("-left");
    reveal_strlit("padding-left");
    assert("padding"@ + "-left"@ =~= "padding-left"@);
    reveal_strlit("font-size");
    assert("padding-bottom"@.len() != "font-size"@.len());
    reveal_strlit("line-height");
    assert("padding-bottom"@.len() != "line-height"@.len());
    reveal_strlit("margin");
    assert("padding-bottom"@.len() != "margin"@.len());
    reveal_strlit("margin-top");
    assert("padding-bottom"@.len() != "margin-top"@.len());
    reveal_strlit("margin-right");
    assert("padding-bottom"@.len() != "margin-right"@.len());
    reveal_strlit("margin-bottom");
    assert("padding-bottom"@.len() != "margin-bottom"@.len());
    reveal_strlit("margin-left");
    assert("padding-bottom"@.len() != "margin-left"@.len());
    reveal_strlit("padding");
    assert("padding-bottom"@.len() != "padding"@.len());
    reveal_strlit("padding-top");
    assert("padding-bottom"@.len() != "padding-top"@.len());
    reveal_strlit("padding-right");
    assert("padding-bottom"@.len() != "padding-right"@.len());
    reveal_strlit("padding-left");
    assert("padding-bottom"@.len() != "padding-left"@.len());
    reveal_strlit("border-width");
    assert("padding-bottom"@.len() != "border-width"@.len());
    reveal_strlit("width");
    assert("padding-bottom"@.len() != "width"@.len());
    reveal_strlit("height");
    assert("padding-bottom"@.len() != "height"@.len());
    reveal_strlit("max-width");
    assert("padding-bottom"@.len() != "max-width"@.len());
    reveal_strlit("min-width");
    assert("padding-bottom"@.len() != "min-width"@.len());
    reveal_strlit("border");
    assert("padding-bottom"@.len() != "border"@.len());
}

proof fn lemma_length_padding_left(v: Seq<char>, important: bool)
    ensures
        length_effect(DeclarationView { property: "padding-left"@, value: v, important }) == (LengthTarget::Padding(Side::Left), v),
{
    reveal_strlit("padding-left");
    reveal_strlit("margin");
    reveal_strlit("-top");
    reveal_strlit("margin-top");
    assert("margin"@ + "-top"@ =~= "margin-top"@);
    reveal_strlit("-right");
    reveal_strlit("margin-right");
    assert("margin"@ + "-right"@ =~= "margin-right"@);
    reveal_strlit("-bottom");
    reveal_strlit("margin-bottom");
    assert("margin"@ + "-bottom"@ =~= "margin-bottom"@);
    reveal_strlit("-left");
    reveal_strlit("margin-left");
    assert("margin"@ + "-left"@ =~= "margin-left"@);
    reveal_strlit("padding");
    reveal_strlit("-top");
    reveal_strlit("padding-top");
    assert("padding"@ + "-top"@ =~= "padding-top"@);
    reveal_strlit("-right");
    reveal_strlit("padding-right");
    assert("padding"@ + "-right"@ =~= "padding-right"@);
    reveal_strlit("-bottom");
    reveal_strlit("padding-bottom");
    assert("padding"@ + "-bottom"@ =~= "padding-bottom"@);
    reveal_strlit("-left");
    reveal_strlit("padding-left");
    assert("padding"@ + "-left"@ =~= "padding-left"@);
    reveal_strlit("font-size");
    assert("padding-left"@.len() != "font-size"@.len());
    reveal_strlit("line-height");
    assert("padding-left"@.len() != "line-height"@.len());
    reveal_strlit("margin");
    assert("padding-left"@.len() != "margin"@.len());
    reveal_strlit("margin-top");
    assert("padding-left"@.len() != "margin-top"@.len());
    reveal_strlit("margin-right");
    assert("padding-left"@[0] != "margin-right"@[0]);
    reveal_strlit("margin-bottom");
    assert("padding-left"@.len() != "margin-bottom"@.len());
    reveal_strlit("margin-left");
    assert("padding-left"@.len() != "margin-left"@.len());
    reveal_strlit("padding");
    assert("padding-left"@.len() != "padding"@.len());
    reveal_strlit("padding-top");
    assert("padding-left"@.len() != "padding-top"@.len());
    reveal_strlit("padding-right");
    assert("padding-left"@.len() != "padding-right"@.len());
    reveal_strlit("padding-bottom");
    assert("padding-left"@.len() != "padding-bottom"@.len());
    reveal_strlit("border-width");
    assert("padding-left"@[0] != "border-width"@[0]);
    reveal_strlit("width");
    assert("padding-left"@.len() != "width"@.len());
    reveal_strlit("height");
    assert("padding-left"@.len() != "height"@.len());
    reveal_strlit("max-width");
    assert("padding-left"@.len() != "max-width"@.len());
    reveal_strlit("min-width");
    assert("padding-left"@.len() != "min-width"@.len());
    reveal_strlit("border");
    assert("padding-left"@.len() != "border"@.len());
}

proof fn lemma_length_border_width(v: Seq<char>, important: bool)
    ensures
        length_effect(DeclarationView { property: "border-width"@, value: v, important }) == (LengthTarget::BorderWidth, v),
{
    reveal_strlit("border-width");
    reveal_strlit("margin");
    reveal_strlit("-top");
    reveal_strlit("margin-top");
    assert("margin"@ + "-top"@ =~= "margin-top"@);
    reveal_strlit("-right");
    reveal_strlit("margin-right");
    assert("margin"@ + "-right"@ =~= "margin-right"@);
    reveal_strlit("-bottom");
    reveal_strlit("margin-bottom");
    assert("margin"@ + "-bottom"@ =~= "margin-bottom"@);
    reveal_strlit("-left");
    reveal_strlit("margin-left");
    assert("margin"@ + "-left"@ =~= "margin-left"@);
    reveal_strlit("padding");
    reveal_strlit("-top");
    reveal_strlit("padding-top");
    assert("padding"@ + "-top"@ =~= "padding-top"@);
    reveal_strlit("-right");
    reveal_strlit("padding-right");
    assert("padding"@ + "-right"@ =~= "padding-right"@);
    reveal_strlit("-bottom");
    reveal_strlit("padding-bottom");
    assert("padding"@ + "-bottom"@ =~= "padding-bottom"@);
    reveal_strlit("-left");
    reveal_strlit("padding-left");
    assert("padding"@ + "-left"@ =~= "padding-left"@);
    reveal_strlit("font-size");
    assert("border-width"@.len() != "font-size"@.len());
    reveal_strlit("line-height");
    assert("border-width"@.len() != "line-height"@.len());
    reveal_strlit("margin");
    assert("border-width"@.len() != "margin"@.len());
    reveal_strlit("margin-top");
    assert("border-width"@.len() != "margin-top"@.len());
    reveal_strlit("margin-right");
    assert("border-width"@[0] != "margin-right"@[0]);
    reveal_strlit("margin-bottom");
    assert("border-width"@.len() != "margin-bottom"@.len());
    reveal_strlit("margin-left");
    assert("border-width"@.len() != "margin-left"@.len());
    reveal_strlit("padding");
    assert("border-width"@.len() != "padding"@.len());
    reveal_strlit("padding-top");
    assert("border-width"@.len() != "padding-top"@.len());
    reveal_strlit("padding-right");
    assert("border-width"@.len() != "padding-right"@.len());
    reveal_strlit("padding-bottom");
    assert("border-width"@.len() != "padding-bottom"@.len());
    reveal_strlit("padding-left");
    assert("border-width"@[0] != "padding-left"@[0]);
    reveal_strlit("width");
    assert("border-width"@.len() != "width"@.len());
    reveal_strlit("height");
    assert("border-width"@.len() != "height"@.len());
    reveal_strlit("max-width");
    assert("border-width"@.len() != "max-width"@.len());
    reveal_strlit("min-width");
    assert("border-width"@.len() != "min-width"@.len());
    reveal_strlit("border");
    assert("border-width"@.len() != "border"@.len());
}

proof fn lemma_length_width(v: Seq<char>, important: bool)
    ensures
        length_effect(DeclarationView { property: "width"@, value: v, important }) == (LengthTarget::Width, v),
{
    reveal_strlit("width");
    reveal_strlit("margin");
    reveal_strlit("-top");
    reveal_strlit("margin-top");
    assert("margin"@ + "-top"@ =~= "margin-top"@);
    reveal_strlit("-right");
    reveal_strlit("margin-right");
    assert("margin"@ + "-right"@ =~= "margin-right"@);
    reveal_strlit("-bottom");
    reveal_strlit("margin-bottom");
    assert("margin"@ + "-bottom"@ =~= "margin-bottom"@);
    reveal_strlit("-left");
    reveal_strlit("margin-left");
    assert("margin"@ + "-left"@ =~= "margin-left"@);
    reveal_strlit("padding");
    reveal_strlit("-top");
    reveal_strlit("padding-top");
    assert("padding"@ + "-top"@ =~= "padding-top"@);
    reveal_strlit("-right");
    reveal_strlit("padding-right");
    assert("padding"@ + "-right"@ =~= "padding-right"@);
    reveal_strlit("-bottom");
    reveal_strlit("padding-bottom");
    assert("padding"@ + "-bottom"@ =~= "padding-bottom"@);
    reveal_strlit("-left");
    reveal_strlit("padding-left");
    assert("padding"@ + "-left"@ =~= "padding-left"@);
    reveal_strlit("font-size");
    assert("width"@.len() != "font-size"@.len());
    reveal_strlit("line-height");
    assert("width"@.len() != "line-height"@.len());
    reveal_strlit("margin");
    assert("width"@.len() != "margin"@.len());
    reveal_strlit("margin-top");
    assert("width"@.len() != "margin-top"@.len());
    reveal_strlit("margin-right");
    assert("width"@.len() != "margin-right"@.len());
    reveal_strlit("margin-bottom");
    assert("width"@.len() != "margin-bottom"@.len());
    reveal_strlit("margin-left");
    assert("width"@.len() != "margin-left"@.len());
    reveal_strlit("padding");
    assert("width"@.len() != "padding"@.len());
    reveal_strlit("padding-top");
    assert("width"@.len() != "padding-top"@.len());
    reveal_strlit("padding-right");
    assert("width"@.len() != "padding-right"@.len());
    reveal_strlit("padding-bottom");
    assert("width"@.len() != "padding-bottom"@.len());
    reveal_strlit("padding-left");
    assert("width"@.len() != "padding-left"@.len());
    reveal_strlit("border-width");
    assert("width"@.len() != "border-width"@.len());
    reveal_strlit("height");
    assert("width"@.len() != "height"@.len());
    reveal_strlit("max-width");
    assert("width"@.len() != "max-width"@.len());
    reveal_strlit("min-width");
    assert("width"@.len() != "min-width"@.len());
    reveal_strlit("border");
    assert("width"@.len() != "border"@.len());
}

proof fn lemma_length_height(v: Seq<char>, important: bool)
    ensures
        length_effect(DeclarationView { property: "height"@, value: v, important }) == (LengthTarget::Height, v),
{
    reveal_strlit("height");
    reveal_strlit("margin");
    reveal_strlit("-top");
    reveal_strlit("margin-top");
    assert("margin"@ + "-top"@ =~= "margin-top"@);
    reveal_strlit("-right");
    reveal_strlit("margin-right");
    assert("margin"@ + "-right"@ =~= "margin-right"@);
    reveal_strlit("-bottom");
    reveal_strlit("margin-bottom");
    assert("margin"@ + "-bottom"@ =~= "margin-bottom"@);
    reveal_strlit("-left");
    reveal_strlit("margin-left");
    assert("margin"@ + "-left"@ =~= "margin-left"@);
    reveal_strlit("padding");
    reveal_strlit("-top");
    reveal_strlit("padding-top");
    assert("padding"@ + "-top"@ =~= "padding-top"@);
    reveal_strlit("-right");
    reveal_strlit("padding-right");
    assert("padding"@ + "-right"@ =~= "padding-right"@);
    reveal_strlit("-bottom");
    reveal_strlit("padding-bottom");
    assert("padding"@ + "-bottom"@ =~= "padding-bottom"@);
    reveal_strlit("-left");
    reveal_strlit("padding-left");
    assert("padding"@ + "-left"@ =~= "padding-left"@);
    reveal_strlit("font-size");
    assert("height"@.len() != "font-size"@.len());
    reveal_strlit("line-height");
    assert("height"@.len() != "line-height"@.len());
    reveal_strlit("margin");
    assert("height"@[0] != "margin"@[0]);
    reveal_strlit("margin-top");
    assert("height"@.len() != "margin-top"@.len());
    reveal_strlit("margin-right");
    assert("height"@.len() != "margin-right"@.len());
    reveal_strlit("margin-bottom");
    assert("height"@.len() != "margin-bottom"@.len());
    reveal_strlit("margin-left");
    assert("height"@.len() != "margin-left"@.len());
    reveal_strlit("padding");
    assert("height"@.len() != "padding"@.len());
    reveal_strlit("padding-top");
    assert("height"@.len() != "padding-top"@.len());
    reveal_strlit("padding-right");
    assert("height"@.len() != "padding-right"@.len());
    reveal_strlit("padding-bottom");
    assert("height"@.len() != "padding-bottom"@.len());
    reveal_strlit("padding-left");
    assert("height"@.len() != "padding-left"@.len());
    reveal_strlit("border-width");
    assert("height"@.len() != "border-width"@.len());
    reveal_strlit("width");
    assert("height"@.len() != "width"@.len());
    reveal_strlit("max-width");
    assert("height"@.len() != "max-width"@.len());
    reveal_strlit("min-width");
    assert("height"@.len() != "min-width"@.len());
    reveal_strlit("border");
    assert("height"@[0] != "border"@[0]);
}

proof fn lemma_length_max_width(v: Seq<char>, important: bool)
    ensures
        length_effect(DeclarationView { property: "max-width"@, value: v, important }) == (LengthTarget::MaxWidth, v),
{
    reveal_strlit("max-width");
    reveal_strlit("margin");
    reveal_strlit("-top");
    reveal_strlit("margin-top");
    assert("margin"@ + "-top"@ =~= "margin-top"@);
    reveal_strlit("-right");
    reveal_strlit("margin-right");
    assert("margin"@ + "-right"@ =~= "margin-right"@);
    reveal_strlit("-bottom");
    reveal_strlit("margin-bottom");
    assert("margin"@ + "-bottom"@ =~= "margin-bottom"@);
    reveal_strlit("-left");
    reveal_strlit("margin-left");
    assert("margin"@ + "-left"@ =~= "margin-left"@);
    reveal_strlit("padding");
    reveal_strlit("-top");
    reveal_strlit("padding-top");
    assert("padding"@ + "-top"@ =~= "padding-top"@);
    reveal_strlit("-right");
    reveal_strlit("padding-right");
    assert("padding"@ + "-right"@ =~= "padding-right"@);
    reveal_strlit("-bottom");
    reveal_strlit("padding-bottom");
    assert("padding"@ + "-bottom"@ =~= "padding-bottom"@);
    reveal_strlit("-left");
    reveal_strlit("padding-left");
    assert("padding"@ + "-left"@ =~= "padding-left"@);
    reveal_strlit("font-size");
    assert("max-width"@[0] != "font-size"@[0]);
    reveal_strlit("line-height");
    assert("max-width"@.len() != "line-height"@.len());
    reveal_strlit("margin");
    assert("max-width"@.len() != "margin"@.len());
    reveal_strlit("margin-top");
    assert("max-width"@.len() != "margin-top"@.len());
    reveal_strlit("margin-right");
    assert("max-width"@.len() != "margin-right"@.len());
    reveal_strlit("margin-bottom");
    assert("max-width"@.len() != "margin-bottom"@.len());
    reveal_strlit("margin-left");
    assert("max-width"@.len() != "margin-left"@.len());
    reveal_strlit("padding");
    assert("max-width"@.len() != "padding"@.len());
    reveal_strlit("padding-top");
    assert("max-width"@.len() != "padding-top"@.len());
    reveal_strlit("padding-right");
    assert("max-width"@.len() != "padding-right"@.len());
    reveal_strlit("padding-bottom");
    assert("max-width"@.len() != "padding-bottom"@.len());
    reveal_strlit("padding-left");
    assert("max-width"@.len() != "padding-left"@.len());
    reveal_strlit("border-width");
    assert("max-width"@.len() != "border-width"@.len());
    reveal_strlit("width");
    assert("max-width"@.len() != "width"@.len());
    reveal_strlit("height");
    assert("max-width"@.len() != "height"@.len());
    reveal_strlit("min-width");
    assert("max-width"@[1] != "min-width"@[1]);
    reveal_strlit("border");
    assert("max-width"@.len() != "border"@.len());
}

proof fn lemma_length_min_width(v: Seq<char>, important: bool)
    ensures
        length_effect(DeclarationView { property: "min-width"@, value: v, important }) == (LengthTarget::MinWidth, v),
{
    reveal_strlit("min-width");
    reveal_strlit("margin");
    reveal_strlit("-top");
    reveal_strlit("margin-top");
    assert("margin"@ + "-top"@ =~= "margin-top"@);
    reveal_strlit("-right");
    reveal_strlit("margin-right");
    assert("margin"@ + "-right"@ =~= "margin-right"@);
    reveal_strlit("-bottom");
    reveal_strlit("margin-bottom");
    assert("margin"@ + "-bottom"@ =~= "margin-bottom"@);
    reveal_strlit("-left");
    reveal_strlit("margin-left");
    assert("margin"@ + "-left"@ =~= "margin-left"@);
    reveal_strlit("padding");
    reveal_strlit("-top");
    reveal_strlit("padding-top");
    assert("padding"@ + "-top"@ =~= "padding-top"@);
    reveal_strlit("-right");
    reveal_strlit("padding-right");
    assert("padding"@ + "-right"@ =~= "padding-right"@);
    reveal_strlit("-bottom");
    reveal_strlit("padding-bottom");
    assert("padding"@ + "-bottom"@ =~= "padding-bottom"@);
    reveal_strlit("-left");
    reveal_strlit("padding-left");
    assert("padding"@ + "-left"@ =~= "padding-left"@);
    reveal_strlit("font-size");
    assert("min-width"@[0] != "font-size"@[0]);
    reveal_strlit("line-height");
    assert("min-width"@.len() != "line-height"@.len());
    reveal_strlit("margin");
    assert("min-width"@.len() != "margin"@.len());
    reveal_strlit("margin-top");
    assert("min-width"@.len() != "margin-top"@.len());
    reveal_strlit("margin-right");
    assert("min-width"@.len() != "margin-right"@.len());
    reveal_strlit("margin-bottom");
    assert("min-width"@.len() != "margin-bottom"@.len());
    reveal_strlit("margin-left");
    assert("min-width"@.len() != "margin-left"@.len());
    reveal_strlit("padding");
    assert("min-width"@.len() != "padding"@.len());
    reveal_strlit("padding-top");
    assert("min-width"@.len() != "padding-top"@.len());
    reveal_strlit("padding-right");
    assert("min-width"@.len() != "padding-right"@.len());
    reveal_strlit("padding-bottom");
    assert("min-width"@.len() != "padding-bottom"@.len());
    reveal_strlit("padding-left");
    assert("min-width"@.len() != "padding-left"@.len());
    reveal_strlit("border-width");
    assert("min-width"@.len() != "border-width"@.len());
    reveal_strlit("width");
    assert("min-width"@.len() != "width"@.len());
    reveal_strlit("height");
    assert("min-width"@.len() != "height"@.len());
    reveal_strlit("max-width");
    assert("min-width"@[1] != "max-width"@[1]);
    reveal_strlit("border");
    assert("min-width"@.len() != "border"@.len());
}

/// Each length property sets its own length, to the value as written:
/// `font-size`, `line-height`, `margin` and `padding` (all sides, or the
/// side their name ends with), `border-width`, `width`, `height`,
/// `max-width` and `min-width`.
pub proof fn law_length_properties(v: Seq<char>, important: bool)
    ensures
        length_effect(DeclarationView { property: "font-size"@, value: v, important }) == (LengthTarget::FontSize, v),
        length_effect(DeclarationView { property: "line-height"@, value: v, important }) == (LengthTarget::LineHeight, v),
        length_effect(DeclarationView { property: "margin"@, value: v, important }) == (LengthTarget::Margin(Side::All), v),
        length_effect(DeclarationView { property: "margin-top"@, value: v, important }) == (LengthTarget::Margin(Side::Top), v),
        length_effect(DeclarationView { property: "margin-right"@, value: v, important }) == (LengthTarget::Margin(Side::Right), v),
        length_effect(DeclarationView { property: "margin-bottom"@, value: v, important }) == (LengthTarget::Margin(Side::Bottom), v),
        length_effect(DeclarationView { property: "margin-left"@, value: v, important }) == (LengthTarget::Margin(Side::Left), v),
        length_effect(DeclarationView { property: "padding"@, value: v, important }) == (LengthTarget::Padding(Side::All), v),
        length_effect(DeclarationView { property: "padding-top"@, value: v, important }) == (LengthTarget::Padding(Side::Top), v),
        length_effect(DeclarationView { property: "padding-right"@, value: v, important }) == (LengthTarget::Padding(Side::Right), v),
        length_effect(DeclarationView { property: "padding-bottom"@, value: v, important }) == (LengthTarget::Padding(Side::Bottom), v),
        length_effect(DeclarationView { property: "padding-left"@, value: v, important }) == (LengthTarget::Padding(Side::Left), v),
        length_effect(DeclarationView { property: "border-width"@, value: v, important }) == (LengthTarget::BorderWidth, v),
        length_effect(DeclarationView { property: "width"@, value: v, important }) == (LengthTarget::Width, v),
        length_effect(DeclarationView { property: "height"@, value: v, important }) == (LengthTarget::Height, v),
        length_effect(DeclarationView { property: "max-width"@, value: v, important }) == (LengthTarget::MaxWidth, v),
        length_effect(DeclarationView { property: "min-width"@, value: v, important }) == (LengthTarget::MinWidth, v),
{
    lemma_length_font_size(v, important);
    lemma_length_line_height(v, important);
    lemma_length_margin(v, important);
    lemma_length_margin_top(v, important);
    lemma_length_margin_right(v, important);
    lemma_length_margin_bottom(v, important);
    lemma_length_margin_left(v, important);
    lemma_length_padding(v, important);
    lemma_length_padding_top(v, important);
    lemma_length_padding_right(v, important);
    lemma_length_padding_bottom(v, important);
    lemma_length_padding_left(v, important);
    lemma_length_border_width(v, important);
    lemma_length_width(v, important);
    lemma_length_height(v, important);
    lemma_length_max_width(v, important);
    lemma_length_min_width(v, important);
}

/// A printed declaration `p: v` whose property has no colon reads as the
/// property `p` with the value `v`, and keeps its `!important` flag; a
/// stylesheet keeps its style rules in order, each with its selector, its
/// declarations and the specificity of its selector, and leaves other
/// rules out.
pub proof fn law_rule_texts(
    p: Seq<char>,
    v: Seq<char>,
    important: bool,
    rs: Seq<Option<(Seq<char>, Seq<(Seq<char>, bool)>)>>,
    sel: Seq<char>,
    ds: Seq<(Seq<char>, bool)>,
)
    requires
        forall|k: int| 0 <= k < p.len() ==> #[trigger] p[k] != ':',
    ensures
        split_decl(p + ": "@ + v) == Some((p, v)),
        decls_from_texts(ds.push((p + ": "@ + v, important))) == decls_from_texts(ds).push(
            DeclarationView { property: p, value: v, important },
        ),
        rules_from_texts(rs.push(Some((sel, ds)))) == rules_from_texts(rs).push(
            RuleView { selector: sel, declarations: decls_from_texts(ds), specificity: specificity_of(sel) },
        ),
        rules_from_texts(rs.push(None)) == rules_from_texts(rs),
{
    reveal_strlit(": ");
    let t = p + ": "@ + v;
    lemma_index_of(t, ": "@);
    assert(occurs_at(t, ": "@, p.len() as int)) by {
        assert(t.subrange(p.len() as int, p.len() + 2 as int) =~= ": "@);
    }
    let i = index_of(t, ": "@).unwrap();
    if i < p.len() {
        assert(t.subrange(i, i + 2)[0] == t[i]);
        assert(t[i] == p[i]);
    }
    assert(i == p.len());
    assert(t.take(i) =~= p);
    assert(t.skip(i + 2) =~= v);
    assert(ds.push((t, important)).drop_last() =~= ds);
    assert(rs.push(Some((sel, ds))).drop_last() =~= rs);
    assert(rs.push(None::<(Seq<char>, Seq<(Seq<char>, bool)>)>).drop_last() =~= rs);
}

proof fn lemma_tag_defaults_div()
    ensures
        tag_keywords("div"@) == (KeywordStyleView { display: Display::Block, ..initial_keywords() }),
{
    reveal_strlit("div");
    reveal_strlit("p"); assert("div"@.len() != "p"@.len());
    reveal_strlit("section"); assert("div"@.len() != "section"@.len());
    reveal_strlit("article"); assert("div"@.len() != "article"@.len());
    reveal_strlit("main"); assert("div"@.len() != "main"@.len());
    reveal_strlit("header"); assert("div"@.len() != "header"@.len());
    reveal_strlit("footer"); assert("div"@.len() != "footer"@.len());
    reveal_strlit("nav"); assert("div"@[0] != "nav"@[0]);
    reveal_strlit("aside"); assert("div"@.len() != "aside"@.len());
    reveal_strlit("form"); assert("div"@.len() != "form"@.len());
    reveal_strlit("fieldset"); assert("div"@.len() != "fieldset"@.len());
    reveal_strlit("address"); assert("div"@.len() != "address"@.len());
    reveal_strlit("figure"); assert("div"@.len() != "figure"@.len());
    reveal_strlit("figcaption"); assert("div"@.len() != "figcaption"@.len());
    reveal_strlit("details"); assert("div"@.len() != "details"@.len());
    reveal_strlit("summary"); assert("div"@.len() != "summary"@.len());
    reveal_strlit("h1"); assert("div"@.len() != "h1"@.len());
    reveal_strlit("h2"); assert("div"@.len() != "h2"@.len());
    reveal_strlit("h3"); assert("div"@.len() != "h3"@.len());
    reveal_strlit("h4"); assert("div"@.len() != "h4"@.len());
    reveal_strlit("h5"); assert("div"@.len() != "h5"@.len());
    reveal_strlit("h6"); assert("div"@.len() != "h6"@.len());
    reveal_strlit("html"); assert("div"@.len() != "html"@.len());
    reveal_strlit("body"); assert("div"@.len() != "body"@.len());
    reveal_strlit("br"); assert("div"@.len() != "br"@.len());
    reveal_strlit("ul"); assert("div"@.len() != "ul"@.len());
    reveal_strlit("ol"); assert("div"@.len() != "ol"@.len());
    reveal_strlit("blockquote"); assert("div"@.len() != "blockquote"@.len());
    reveal_strlit("li"); assert("div"@.len() != "li"@.len());
    reveal_strlit("pre"); assert("div"@[0] != "pre"@[0]);
    reveal_strlit("table"); assert("div"@.len() != "table"@.len());
    reveal_strlit("tr"); assert("div"@.len() != "tr"@.len());
    reveal_strlit("td"); assert("div"@.len() != "td"@.len());
    reveal_strlit("th"); assert("div"@.len() != "th"@.len());
    reveal_strlit("hr"); assert("div"@.len() != "hr"@.len());
    reveal_strlit("head"); assert("div"@.len() != "head"@.len());
    reveal_strlit("script"); assert("div"@.len() != "script"@.len());
    reveal_strlit("style"); assert("div"@.len() != "style"@.len());
    reveal_strlit("meta"); assert("div"@.len() != "meta"@.len());
    reveal_strlit("link"); assert("div"@.len() != "link"@.len());
    reveal_strlit("title"); assert("div"@.len() != "title"@.len());
    reveal_strlit("noscript"); assert("div"@.len() != "noscript"@.len());
    reveal_strlit("a"); assert("div"@.len() != "a"@.len());
    reveal_strlit("strong"); assert("div"@.len() != "strong"@.len());
    reveal_strlit("b"); assert("div"@.len() != "b"@.len());
    reveal_strlit("em"); assert("div"@.len() != "em"@.len());
    reveal_strlit("i"); assert("div"@.len() != "i"@.len());
    reveal_strlit("code"); assert("div"@.len() != "code"@.len());
    reveal_strlit("kbd"); assert("div"@[0] != "kbd"@[0]);
    reveal_strlit("samp"); assert("div"@.len() != "samp"@.len());
    reveal_strlit("tt"); assert("div"@.len() != "tt"@.len());
}

proof fn lemma_tag_defaults_p()
    ensures
        tag_keywords("p"@) == (KeywordStyleView { display: Display::Block, ..initial_keywords() }),
{
    reveal_strlit("p");
    reveal_strlit("div"); assert("p"@.len() != "div"@.len());
    reveal_strlit("section"); assert("p"@.len() != "section"@.len());
    reveal_strlit("article"); assert("p"@.len() != "article"@.len());
    reveal_strlit("main"); assert("p"@.len() != "main"@.len());
    reveal_strlit("header"); assert("p"@.len() != "header"@.len());
    reveal_strlit("footer"); assert("p"@.len() != "footer"@.len());
    reveal_strlit("nav"); assert("p"@.len() != "nav"@.len());
    reveal_strlit("aside"); assert("p"@.len() != "aside"@.len());
    reveal_strlit("form"); assert("p"@.len() != "form"@.len());
    reveal_strlit("fieldset"); assert("p"@.len() != "fieldset"@.len());
    reveal_strlit("address"); assert("p"@.len() != "address"@.len());
    reveal_strlit("figure"); assert("p"@.len() != "figure"@.len());
    reveal_strlit("figcaption"); assert("p"@.len() != "figcaption"@.len());
    reveal_strlit("details"); assert("p"@.len() != "details"@.len());
    reveal_strlit("summary"); assert("p"@.len() != "summary"@.len());
    reveal_strlit("h1"); assert("p"@.len() != "h1"@.len());
    reveal_strlit("h2"); assert("p"@.len() != "h2"@.len());
    reveal_strlit("h3"); assert("p"@.len() != "h3"@.len());
    reveal_strlit("h4"); assert("p"@.len() != "h4"@.len());
    reveal_strlit("h5"); assert("p"@.len() != "h5"@.len());
    reveal_strlit("h6"); assert("p"@.len() != "h6"@.len());
    reveal_strlit("html"); assert("p"@.len() != "html"@.len());
    reveal_strlit("body"); assert("p"@.len() != "body"@.len());
    reveal_strlit("br"); assert("p"@.len() != "br"@.len());
    reveal_strlit("ul"); assert("p"@.len() != "ul"@.len());
    reveal_strlit("ol"); assert("p"@.len() != "ol"@.len());
    reveal_strlit("blockquote"); assert("p"@.len() != "blockquote"@.len());
    reveal_strlit("li"); assert("p"@.len() != "li"@.len());
    reveal_strlit("pre"); assert("p"@.len() != "pre"@.len());
    reveal_strlit("table"); assert("p"@.len() != "table"@.len());
    reveal_strlit("tr"); assert("p"@.len() != "tr"@.len());
    reveal_strlit("td"); assert("p"@.len() != "td"@.len());
    reveal_strlit("th"); assert("p"@.len() != "th"@.len());
    reveal_strlit("hr"); assert("p"@.len() != "hr"@.len());
    reveal_strlit("head"); assert("p"@.len() != "head"@.len());
    reveal_strlit("script"); assert("p"@.len() != "script"@.len());
    reveal_strlit("style"); assert("p"@.len() != "style"@.len());
    reveal_strlit("meta"); assert("p"@.len() != "meta"@.len());
    reveal_strlit("link"); assert("p"@.len() != "link"@.len());
    reveal_strlit("title"); assert("p"@.len() != "title"@.len());
    reveal_strlit("noscript"); assert("p"@.len() != "noscript"@.len());
    reveal_strlit("a"); assert("p"@[0] != "a"@[0]);
    reveal_strlit("strong"); assert("p"@.len() != "strong"@.len());
    reveal_strlit("b"); assert("p"@[0] != "b"@[0]);
    reveal_strlit("em"); assert("p"@.len() != "em"@.len());
    reveal_strlit("i"); assert("p"@[0] != "i"@[0]);
    reveal_strlit("code"); assert("p"@.len() != "code"@.len());
    reveal_strlit("kbd"); assert("p"@.len() != "kbd"@.len());
    reveal_strlit("samp"); assert("p"@.len() != "samp"@.len());
    reveal_strlit("tt"); assert("p"@.len() != "tt"@.len());
}

proof fn lemma_tag_defaults_section()
    ensures
        tag_keywords("section"@) == (KeywordStyleView { display: Display::Block, ..initial_keywords() }),
{
    reveal_strlit("section");
    reveal_strlit("div"); assert("section"@.len() != "div"@.len());
    reveal_strlit("p"); assert("section"@.len() != "p"@.len());
    reveal_strlit("article"); assert("section"@[0] != "article"@[0]);
    reveal_strlit("main"); assert("section"@.len() != "main"@.len());
    reveal_strlit("header"); assert("section"@.len() != "header"@.len());
    reveal_strlit("footer"); assert("section"@.len() != "footer"@.len());
    reveal_strlit("nav"); assert("section"@.len() != "nav"@.len());
    reveal_strlit("aside"); assert("section"@.len() != "aside"@.len());
    reveal_strlit("form"); assert("section"@.len() != "form"@.len());
    reveal_strlit("fieldset"); assert("section"@.len() != "fieldset"@.len());
    reveal_strlit("address"); assert("section"@[0] != "address"@[0]);
    reveal_strlit("figure"); assert("section"@.len() != "figure"@.len());
    reveal_strlit("figcaption"); assert("section"@.len() != "figcaption"@.len());
    reveal_strlit("details"); assert("section"@[0] != "details"@[0]);
    reveal_strlit("summary"); assert("section"@[1] != "summary"@[1]);
    reveal_strlit("h1"); assert("section"@.len() != "h1"@.len());
    reveal_strlit("h2"); assert("section"@.len() != "h2"@.len());
    reveal_strlit("h3"); assert("section"@.len() != "h3"@.len());
    reveal_strlit("h4"); assert("section"@.len() != "h4"@.len());
    reveal_strlit("h5"); assert("section"@.len() != "h5"@.len());
    reveal_strlit("h6"); assert("section"@.len() != "h6"@.len());
    reveal_strlit("html"); assert("section"@.len() != "html"@.len());
    reveal_strlit("body"); assert("section"@.len() != "body"@.len());
    reveal_strlit("br"); assert("section"@.len() != "br"@.len());
    reveal_strlit("ul"); assert("section"@.len() != "ul"@.len());
    reveal_strlit("ol"); assert("section"@.len() != "ol"@.len());
    reveal_strlit("blockquote"); assert("section"@.len() != "blockquote"@.len());
    reveal_strlit("li"); assert("section"@.len() != "li"@.len());
    reveal_strlit("pre"); assert("section"@.len() != "pre"@.len());
    reveal_strlit("table"); assert("section"@.len() != "table"@.len());
    reveal_strlit("tr"); assert("section"@.len() != "tr"@.len());
    reveal_strlit("td"); assert("section"@.len() != "td"@.len());
    reveal_strlit("th"); assert("section"@.len() != "th"@.len());
    reveal_strlit("hr"); assert("section"@.len() != "hr"@.len());
    reveal_strlit("head"); assert("section"@.len() != "head"@.len());
    reveal_strlit("script"); assert("section"@.len() != "script"@.len());
    reveal_strlit("style"); assert("section"@.len() != "style"@.len());
    reveal_strlit("meta"); assert("section"@.len() != "meta"@.len());
    reveal_strlit("link"); assert("section"@.len() != "link"@.len());
    reveal_strlit("title"); assert("section"@.len() != "title"@.len());
    reveal_strlit("noscript"); assert("section"@.len() != "noscript"@.len());
    reveal_strlit("a"); assert("section"@.len() != "a"@.len());
    reveal_strlit("strong"); assert("section"@.len() != "strong"@.len());
    reveal_strlit("b"); assert("section"@.len() != "b"@.len());
    reveal_strlit("em"); assert("section"@.len() != "em"@.len());
    reveal_strlit("i"); assert("section"@.len() != "i"@.len());
    reveal_strlit("code"); assert("section"@.len() != "code"@.len());
    reveal_strlit("kbd"); assert("section"@.len() != "kbd"@.len());
    reveal_strlit("samp"); assert("section"@.len() != "samp"@.len());
    reveal_strlit("tt"); assert("section"@.len() != "tt"@.len());
}

proof fn lemma_tag_defaults_article()
    ensures
        tag_keywords("article"@) == (KeywordStyleView { display: Display::Block, ..initial_keywords() }),
{
    reveal_strlit("article");
    reveal_strlit("div"); assert("article"@.len() != "div"@.len());
    reveal_strlit("p"); assert("article"@.len() != "p"@.len());
    reveal_strlit("section"); assert("article"@[0] != "section"@[0]);
    reveal_strlit("main"); assert("article"@.len() != "main"@.len());
    reveal_strlit("header"); assert("article"@.len() != "header"@.len());
    reveal_strlit("footer"); assert("article"@.len() != "footer"@.len());
    reveal_strlit("nav"); assert("article"@.len() != "nav"@.len());
    reveal_strlit("aside"); assert("article"@.len() != "aside"@.len());
    reveal_strlit("form"); assert("article"@.len() != "form"@.len());
    reveal_strlit("fieldset"); assert("article"@.len() != "fieldset"@.len());
    reveal_strlit("address"); assert("article"@[1] != "address"@[1]);
    reveal_strlit("figure"); assert("article"@.len() != "figure"@.len());
    reveal_strlit("figcaption"); assert("article"@.len() != "figcaption"@.len());
    reveal_strlit("details"); assert("article"@[0] != "details"@[0]);
    reveal_strlit("summary"); assert("article"@[0] != "summary"@[0]);
    reveal_strlit("h1"); assert("article"@.len() != "h1"@.len());
    reveal_strlit("h2"); assert("article"@.len() != "h2"@.len());
    reveal_strlit("h3"); assert("article"@.len() != "h3"@.len());
    reveal_strlit("h4"); assert("article"@.len() != "h4"@.len());
    reveal_strlit("h5"); assert("article"@.len() != "h5"@.len());
    reveal_strlit("h6"); assert("article"@.len() != "h6"@.len());
    reveal_strlit("html"); assert("article"@.len() != "html"@.len());
    reveal_strlit("body"); assert("article"@.len() != "body"@.len());
    reveal_strlit("br"); assert("article"@.len() != "br"@.len());
    reveal_strlit("ul"); assert("article"@.len() != "ul"@.len());
    reveal_strlit("ol"); assert("article"@.len() != "ol"@.len());
    reveal_strlit("blockquote"); assert("article"@.len() != "blockquote"@.len());
    reveal_strlit("li"); assert("article"@.len() != "li"@.len());
    reveal_strlit("pre"); assert("article"@.len() != "pre"@.len());
    reveal_strlit("table"); assert("article"@.len() != "table"@.len());
    reveal_strlit("tr"); assert("article"@.len() != "tr"@.len());
    reveal_strlit("td"); assert("article"@.len() != "td"@.len());
    reveal_strlit("th"); assert("article"@.len() != "th"@.len());
    reveal_strlit("hr"); assert("article"@.len() != "hr"@.len());
    reveal_strlit("head"); assert("article"@.len() != "head"@.len());
    reveal_strlit("script"); assert("article"@.len() != "script"@.len());
    reveal_strlit("style"); assert("article"@.len() != "style"@.len());
    reveal_strlit("meta"); assert("article"@.len() != "meta"@.len());
    reveal_strlit("link"); assert("article"@.len() != "link"@.len());
    reveal_strlit("title"); assert("article"@.len() != "title"@.len());
    reveal_strlit("noscript"); assert("article"@.len() != "noscript"@.len());
    reveal_strlit("a"); assert("article"@.len() != "a"@.len());
    reveal_strlit("strong"); assert("article"@.len() != "strong"@.len());
    reveal_strlit("b"); assert("article"@.len() != "b"@.len());
    reveal_strlit("em"); assert("article"@.len() != "em"@.len());
    reveal_strlit("i"); assert("article"@.len() != "i"@.len());
    reveal_strlit("code"); assert("article"@.len() != "code"@.len());
    reveal_strlit("kbd"); assert("article"@.len() != "kbd"@.len());
    reveal_strlit("samp"); assert("article"@.len() != "samp"@.len());
    reveal_strlit("tt"); assert("article"@.len() != "tt"@.len());
}

proof fn lemma_tag_defaults_main()
    ensures
        tag_keywords("main"@) == (KeywordStyleView { display: Display::Block, ..initial_keywords() }),
{
    reveal_strlit("main");
    reveal_strlit("div"); assert("main"@.len() != "div"@.len());
    reveal_strlit("p"); assert("main"@.len() != "p"@.len());
    reveal_strlit("section"); assert("main"@.len() != "section"@.len());
    reveal_strlit("article"); assert("main"@.len() != "article"@.len());
    reveal_strlit("header"); assert("main"@.len() != "header"@.len());
    reveal_strlit("footer"); assert("main"@.len() != "footer"@.len());
    reveal_strlit("nav"); assert("main"@.len() != "nav"@.len());
    reveal_strlit("aside"); assert("main"@.len() != "aside"@.len());
    reveal_strlit("form"); assert("main"@[0] != "form"@[0]);
    reveal_strlit("fieldset"); assert("main"@.len() != "fieldset"@.len());
    reveal_strlit("address"); assert("main"@.len() != "address"@.len());
    reveal_strlit("figure"); assert("main"@.len() != "figure"@.len());
    reveal_strlit("figcaption"); assert("main"@.len() != "figcaption"@.len());
    reveal_strlit("details"); assert("main"@.len() != "details"@.len());
    reveal_strlit("summary"); assert("main"@.len() != "summary"@.len());
    reveal_strlit("h1"); assert("main"@.len() != "h1"@.len());
    reveal_strlit("h2"); assert("main"@.len() != "h2"@.len());
    reveal_strlit("h3"); assert("main"@.len() != "h3"@.len());
    reveal_strlit("h4"); assert("main"@.len() != "h4"@.len());
    reveal_strlit("h5"); assert("main"@.len() != "h5"@.len());
    reveal_strlit("h6"); assert("main"@.len() != "h6"@.len());
    reveal_strlit("html"); assert("main"@[0] != "html"@[0]);
    reveal_strlit("body"); assert("main"@[0] != "body"@[0]);
    reveal_strlit("br"); assert("main"@.len() != "br"@.len());
    reveal_strlit("ul"); assert("main"@.len() != "ul"@.len());
    reveal_strlit("ol"); assert("main"@.len() != "ol"@.len());
    reveal_strlit("blockquote"); assert("main"@.len() != "blockquote"@.len());
    reveal_strlit("li"); assert("main"@.len() != "li"@.len());
    reveal_strlit("pre"); assert("main"@.len() != "pre"@.len());
    reveal_strlit("table"); assert("main"@.len() != "table"@.len());
    reveal_strlit("tr"); assert("main"@.len() != "tr"@.len());
    reveal_strlit("td"); assert("main"@.len() != "td"@.len());
    reveal_strlit("th"); assert("main"@.len() != "th"@.len());
    reveal_strlit("hr"); assert("main"@.len() != "hr"@.len());
    reveal_strlit("head"); assert("main"@[0] != "head"@[0]);
    reveal_strlit("script"); assert("main"@.len() != "script"@.len());
    reveal_strlit("style"); assert("main"@.len() != "style"@.len());
    reveal_strlit("meta"); assert("main"@[1] != "meta"@[1]);
    reveal_strlit("link"); assert("main"@[0] != "link"@[0]);
    reveal_strlit("title"); assert("main"@.len() != "title"@.len());
    reveal_strlit("noscript"); assert("main"@.len() != "noscript"@.len());
    reveal_strlit("a"); assert("main"@.len() != "a"@.len());
    reveal_strlit("strong"); assert("main"@.len() != "strong"@.len());
    reveal_strlit("b"); assert("main"@.len() != "b"@.len());
    reveal_strlit("em"); assert("main"@.len() != "em"@.len());
    reveal_strlit("i"); assert("main"@.len() != "i"@.len());
    reveal_strlit("code"); assert("main"@[0] != "code"@[0]);
    reveal_strlit("kbd"); assert("main"@.len() != "kbd"@.len());
    reveal_strlit("samp"); assert("main"@[0] != "samp"@[0]);
    reveal_strlit("tt"); assert("main"@.len() != "tt"@.len());
}

proof fn lemma_tag_defaults_header()
    ensures
        tag_keywords("header"@) == (KeywordStyleView { display: Display::Block, ..initial_keywords() }),
{
    reveal_strlit("header");
    reveal_strlit("div"); assert("header"@.len() != "div"@.len());
    reveal_strlit("p"); assert("header"@.len() != "p"@.len());
    reveal_strlit("section"); assert("header"@.len() != "section"@.len());
    reveal_strlit("article"); assert("header"@.len() != "article"@.len());
    reveal_strlit("main"); assert("header"@.len() != "main"@.len());
    reveal_strlit("footer"); assert("header"@[0] != "footer"@[0]);
    reveal_strlit("nav"); assert("header"@.len() != "nav"@.len());
    reveal_strlit("aside"); assert("header"@.len() != "aside"@.len());
    reveal_strlit("form"); assert("header"@.len() != "form"@.len());
    reveal_strlit("fieldset"); assert("header"@.len() != "fieldset"@.len());
    reveal_strlit("address"); assert("header"@.len() != "address"@.len());
    reveal_strlit("figure"); assert("header"@[0] != "figure"@[0]);
    reveal_strlit("figcaption"); assert("header"@.len() != "figcaption"@.len());
    reveal_strlit("details"); assert("header"@.len() != "details"@.len());
    reveal_strlit("summary"); assert("header"@.len() != "summary"@.len());
    reveal_strlit("h1"); assert("header"@.len() != "h1"@.len());
    reveal_strlit("h2"); assert("header"@.len() != "h2"@.len());
    reveal_strlit("h3"); assert("header"@.len() != "h3"@.len());
    reveal_strlit("h4"); assert("header"@.len() != "h4"@.len());
    reveal_strlit("h5"); assert("header"@.len() != "h5"@.len());
    reveal_strlit("h6"); assert("header"@.len() != "h6"@.len());
    reveal_strlit("html"); assert("header"@.len() != "html"@.len());
    reveal_strlit("body"); assert("header"@.len() != "body"@.len());
    reveal_strlit("br"); assert("header"@.len() != "br"@.len());
    reveal_strlit("ul"); assert("header"@.len() != "ul"@.len());
    reveal_strlit("ol"); assert("header"@.len() != "ol"@.len());
    reveal_strlit("blockquote"); assert("header"@.len() != "blockquote"@.len());
    reveal_strlit("li"); assert("header"@.len() != "li"@.len());
    reveal_strlit("pre"); assert("header"@.len() != "pre"@.len());
    reveal_strlit("table"); assert("header"@.len() != "table"@.len());
    reveal_strlit("tr"); assert("header"@.len() != "tr"@.len());
    reveal_strlit("td"); assert("header"@.len() != "td"@.len());
    reveal_strlit("th"); assert("header"@.len() != "th"@.len());
    reveal_strlit("hr"); assert("header"@.len() != "hr"@.len());
    reveal_strlit("head"); assert("header"@.len() != "head"@.len());
    reveal_strlit("script"); assert("header"@[0] != "script"@[0]);
    reveal_strlit("style"); assert("header"@.len() != "style"@.len());
    reveal_strlit("meta"); assert("header"@.len() != "meta"@.len());
    reveal_strlit("link"); assert("header"@.len() != "link"@.len());
    reveal_strlit("title"); assert("header"@.len() != "title"@.len());
    reveal_strlit("noscript"); assert("header"@.len() != "noscript"@.len());
    reveal_strlit("a"); assert("header"@.len() != "a"@.len());
    reveal_strlit("strong"); assert("header"@[0] != "strong"@[0]);
    reveal_strlit("b"); assert("header"@.len() != "b"@.len());
    reveal_strlit("em"); assert("header"@.len() != "em"@.len());
    reveal_strlit("i"); assert("header"@.len() != "i"@.len());
    reveal_strlit("code"); assert("header"@.len() != "code"@.len());
    reveal_strlit("kbd"); assert("header"@.len() != "kbd"@.len());
    reveal_strlit("samp"); assert("header"@.len() != "samp"@.len());
    reveal_strlit("tt"); assert("header"@.len() != "tt"@.len());
}

proof fn lemma_tag_defaults_footer()
    ensures
        tag_keywords("footer"@) == (KeywordStyleView { display: Display::Block, ..initial_keywords() }),
{
    reveal_strlit("footer");
    reveal_strlit("div"); assert("footer"@.len() != "div"@.len());
    reveal_strlit("p"); assert("footer"@.len() != "p"@.len());
    reveal_strlit("section"); assert("footer"@.len() != "section"@.len());
    reveal_strlit("article"); assert("footer"@.len() != "article"@.len());
    reveal_strlit("main"); assert("footer"@.len() != "main"@.len());
    reveal_strlit("header"); assert("footer"@[0] != "header"@[0]);
    reveal_strlit("nav"); assert("footer"@.len() != "nav"@.len());
    reveal_strlit("aside"); assert("footer"@.len() != "aside"@.len());
    reveal_strlit("form"); assert("footer"@.len() != "form"@.len());
    reveal_strlit("fieldset"); assert("footer"@.len() != "fieldset"@.len());
    reveal_strlit("address"); assert("footer"@.len() != "address"@.len());
    reveal_strlit("figure"); assert("footer"@[1] != "figure"@[1]);
    reveal_strlit("figcaption"); assert("footer"@.len() != "figcaption"@.len());
    reveal_strlit("details"); assert("footer"@.len() != "details"@.len());
    reveal_strlit("summary"); assert("footer"@.len() != "summary"@.len());
    reveal_strlit("h1"); assert("footer"@.len() != "h1"@.len());
    reveal_strlit("h2"); assert("footer"@.len() != "h2"@.len());
    reveal_strlit("h3"); assert("footer"@.len() != "h3"@.len());
    reveal_strlit("h4"); assert("footer"@.len() != "h4"@.len());
    reveal_strlit("h5"); assert("footer"@.len() != "h5"@.len());
    reveal_strlit("h6"); assert("footer"@.len() != "h6"@.len());
    reveal_strlit("html"); assert("footer"@.len() != "html"@.len());
    reveal_strlit("body"); assert("footer"@.len() != "body"@.len());
    reveal_strlit("br"); assert("footer"@.len() != "br"@.len());
    reveal_strlit("ul"); assert("footer"@.len() != "ul"@.len());
    reveal_strlit("ol"); assert("footer"@.len() != "ol"@.len());
    reveal_strlit("blockquote"); assert("footer"@.len() != "blockquote"@.len());
    reveal_strlit("li"); assert("footer"@.len() != "li"@.len());
    reveal_strlit("pre"); assert("footer"@.len() != "pre"@.len());
    reveal_strlit("table"); assert("footer"@.len() != "table"@.len());
    reveal_strlit("tr"); assert("footer"@.len() != "tr"@.len());
    reveal_strlit("td"); assert("footer"@.len() != "td"@.len());
    reveal_strlit("th"); assert("footer"@.len() != "th"@.len());
    reveal_strlit("hr"); assert("footer"@.len() != "hr"@.len());
    reveal_strlit("head"); assert("footer"@.len() != "head"@.len());
    reveal_strlit("script"); assert("footer"@[0] != "script"@[0]);
    reveal_strlit("style"); assert("footer"@.len() != "style"@.len());
    reveal_strlit("meta"); assert("footer"@.len() != "meta"@.len());
    reveal_strlit("link"); assert("footer"@.len() != "link"@.len());
    reveal_strlit("title"); assert("footer"@.len() != "title"@.len());
    reveal_strlit("noscript"); assert("footer"@.len() != "noscript"@.len());
    reveal_strlit("a"); assert("footer"@.len() != "a"@.len());
    reveal_strlit("strong"); assert("footer"@[0] != "strong"@[0]);
    reveal_strlit("b"); assert("footer"@.len() != "b"@.len());
    reveal_strlit("em"); assert("footer"@.len() != "em"@.len());
    reveal_strlit("i"); assert("footer"@.len() != "i"@.len());
    reveal_strlit("code"); assert("footer"@.len() != "code"@.len());
    reveal_strlit("kbd"); assert("footer"@.len() != "kbd"@.len());
    reveal_strlit("samp"); assert("footer"@.len() != "samp"@.len());
    reveal_strlit("tt"); assert("footer"@.len() != "tt"@.len());
}

proof fn lemma_tag_defaults_nav()
    ensures
        tag_keywords("nav"@) == (KeywordStyleView { display: Display::Block, ..initial_keywords() }),
{
    reveal_strlit("nav");
    reveal_strlit("div"); assert("nav"@[0] != "div"@[0]);
    reveal_strlit("p"); assert("nav"@.len() != "p"@.len());
    reveal_strlit("section"); assert("nav"@.len() != "section"@.len());
    reveal_strlit("article"); assert("nav"@.len() != "article"@.len());
    reveal_strlit("main"); assert("nav"@.len() != "main"@.len());
    reveal_strlit("header"); assert("nav"@.len() != "header"@.len());
    reveal_strlit("footer"); assert("nav"@.len() != "footer"@.len());
    reveal_strlit("aside"); assert("nav"@.len() != "aside"@.len());
    reveal_strlit("form"); assert("nav"@.len() != "form"@.len());
    reveal_strlit("fieldset"); assert("nav"@.len() != "fieldset"@.len());
    reveal_strlit("address"); assert("nav"@.len() != "address"@.len());
    reveal_strlit("figure"); assert("nav"@.len() != "figure"@.len());
    reveal_strlit("figcaption"); assert("nav"@.len() != "figcaption"@.len());
    reveal_strlit("details"); assert("nav"@.len() != "details"@.len());
    reveal_strlit("summary"); assert("nav"@.len() != "summary"@.len());
    reveal_strlit("h1"); assert("nav"@.len() != "h1"@.len());
    reveal_strlit("h2"); assert("nav"@.len() != "h2"@.len());
    reveal_strlit("h3"); assert("nav"@.len() != "h3"@.len());
    reveal_strlit("h4"); assert("nav"@.len() != "h4"@.len());
    reveal_strlit("h5"); assert("nav"@.len() != "h5"@.len());
    reveal_strlit("h6"); assert("nav"@.len() != "h6"@.len());
    reveal_strlit("html"); assert("nav"@.len() != "html"@.len());
    reveal_strlit("body"); assert("nav"@.len() != "body"@.len());
    reveal_strlit("br"); assert("nav"@.len() != "br"@.len());
    reveal_strlit("ul"); assert("nav"@.len() != "ul"@.len());
    reveal_strlit("ol"); assert("nav"@.len() != "ol"@.len());
    reveal_strlit("blockquote"); assert("nav"@.len() != "blockquote"@.len());
    reveal_strlit("li"); assert("nav"@.len() != "li"@.len());
    reveal_strlit("pre"); assert("nav"@[0] != "pre"@[0]);
    reveal_strlit("table"); assert("nav"@.len() != "table"@.len());
    reveal_strlit("tr"); assert("nav"@.len() != "tr"@.len());
    reveal_strlit("td"); assert("nav"@.len() != "td"@.len());
    reveal_strlit("th"); assert("nav"@.len() != "th"@.len());
    reveal_strlit("hr"); assert("nav"@.len() != "hr"@.len());
    reveal_strlit("head"); assert("nav"@.len() != "head"@.len());
    reveal_strlit("script"); assert("nav"@.len() != "script"@.len());
    reveal_strlit("style"); assert("nav"@.len() != "style"@.len());
    reveal_strlit("meta"); assert("nav"@.len() != "meta"@.len());
    reveal_strlit("link"); assert("nav"@.len() != "link"@.len());
    reveal_strlit("title"); assert("nav"@.len() != "title"@.len());
    reveal_strlit("noscript"); assert("nav"@.len() != "noscript"@.len());
    reveal_strlit("a"); assert("nav"@.len() != "a"@.len());
    reveal_strlit("strong"); assert("nav"@.len() != "strong"@.len());
    reveal_strlit("b"); assert("nav"@.len() != "b"@.len());
    reveal_strlit("em"); assert("nav"@.len() != "em"@.len());
    reveal_strlit("i"); assert("nav"@.len() != "i"@.len());
    reveal_strlit("code"); assert("nav"@.len() != "code"@.len());
    reveal_strlit("kbd"); assert("nav"@[0] != "kbd"@[0]);
    reveal_strlit("samp"); assert("nav"@.len() != "samp"@.len());
    reveal_strlit("tt"); assert("nav"@.len() != "tt"@.len());
}

proof fn lemma_tag_defaults_aside()
    ensures
        tag_keywords("aside"@) == (KeywordStyleView { display: Display::Block, ..initial_keywords() }),
{
    reveal_strlit("aside");
    reveal_strlit("div"); assert("aside"@.len() != "div"@.len());
    reveal_strlit("p"); assert("aside"@.len() != "p"@.len());
    reveal_strlit("section"); assert("aside"@.len() != "section"@.len());
    reveal_strlit("article"); assert("aside"@.len() != "article"@.len());
    reveal_strlit("main"); assert("aside"@.len() != "main"@.len());
    reveal_strlit("header"); assert("aside"@.len() != "header"@.len());
    reveal_strlit("footer"); assert("aside"@.len() != "footer"@.len());
    reveal_strlit("nav"); assert("aside"@.len() != "nav"@.len());
    reveal_strlit("form"); assert("aside"@.len() != "form"@.len());
    reveal_strlit("fieldset"); assert("aside"@.len() != "fieldset"@.len());
    reveal_strlit("address"); assert("aside"@.len() != "address"@.len());
    reveal_strlit("figure"); assert("aside"@.len() != "figure"@.len());
    reveal_strlit("figcaption"); assert("aside"@.len() != "figcaption"@.len());
    reveal_strlit("details"); assert("aside"@.len() != "details"@.len());
    reveal_strlit("summary"); assert("aside"@.len() != "summary"@.len());
    reveal_strlit("h1"); assert("aside"@.len() != "h1"@.len());
    reveal_strlit("h2"); assert("aside"@.len() != "h2"@.len());
    reveal_strlit("h3"); assert("aside"@.len() != "h3"@.len());
    reveal_strlit("h4"); assert("aside"@.len() != "h4"@.len());
    reveal_strlit("h5"); assert("aside"@.len() != "h5"@.len());
    reveal_strlit("h6"); assert("aside"@.len() != "h6"@.len());
    reveal_strlit("html"); assert("aside"@.len() != "html"@.len());
    reveal_strlit("body"); assert("aside"@.len() != "body"@.len());
    reveal_strlit("br"); assert("aside"@.len() != "br"@.len());
    reveal_strlit("ul"); assert("aside"@.len() != "ul"@.len());
    reveal_strlit("ol"); assert("aside"@.len() != "ol"@.len());
    reveal_strlit("blockquote"); assert("aside"@.len() != "blockquote"@.len());
    reveal_strlit("li"); assert("aside"@.len() != "li"@.len());
    reveal_strlit("pre"); assert("aside"@.len() != "pre"@.len());
    reveal_strlit("table"); assert("aside"@[0] != "table"@[0]);
    reveal_strlit("tr"); assert("aside"@.len() != "tr"@.len());
    reveal_strlit("td"); assert("aside"@.len() != "td"@.len());
    reveal_strlit("th"); assert("aside"@.len() != "th"@.len());
    reveal_strlit("hr"); assert("aside"@.len() != "hr"@.len());
    reveal_strlit("head"); assert("aside"@.len() != "head"@.len());
    reveal_strlit("script"); assert("aside"@.len() != "script"@.len());
    reveal_strlit("style"); assert("aside"@[0] != "style"@[0]);
    reveal_strlit("meta"); assert("aside"@.len() != "meta"@.len());
    reveal_strlit("link"); assert("aside"@.len() != "link"@.len());
    reveal_strlit("title"); assert("aside"@[0] != "title"@[0]);
    reveal_strlit("noscript"); assert("aside"@.len() != "noscript"@.len());
    reveal_strlit("a"); assert("aside"@.len() != "a"@.len());
    reveal_strlit("strong"); assert("aside"@.len() != "strong"@.len());
    reveal_strlit("b"); assert("aside"@.len() != "b"@.len());
    reveal_strlit("em"); assert("aside"@.len() != "em"@.len());
    reveal_strlit("i"); assert("aside"@.len() != "i"@.len());
    reveal_strlit("code"); assert("aside"@.len() != "code"@.len());
    reveal_strlit("kbd"); assert("aside"@.len() != "kbd"@.len());
    reveal_strlit("samp"); assert("aside"@.len() != "samp"@.len());
    reveal_strlit("tt"); assert("aside"@.len() != "tt"@.len());
}

proof fn lemma_tag_defaults_form()
    ensures
        tag_keywords("form"@) == (KeywordStyleView { display: Display::Block, ..initial_keywords() }),
{
    reveal_strlit("form");
    reveal_strlit("div"); assert("form"@.len() != "div"@.len());
    reveal_strlit("p"); assert("form"@.len() != "p"@.len());
    reveal_strlit("section"); assert("form"@.len() != "section"@.len());
    reveal_strlit("article"); assert("form"@.len() != "article"@.len());
    reveal_strlit("main"); assert("form"@[0] != "main"@[0]);
    reveal_strlit("header"); assert("form"@.len() != "header"@.len());
    reveal_strlit("footer"); assert("form"@.len() != "footer"@.len());
    reveal_strlit("nav"); assert("form"@.len() != "nav"@.len());
    reveal_strlit("aside"); assert("form"@.len() != "aside"@.len());
    reveal_strlit("fieldset"); assert("form"@.len() != "fieldset"@.len());
    reveal_strlit("address"); assert("form"@.len() != "address"@.len());
    reveal_strlit("figure"); assert("form"@.len() != "figure"@.len());
    reveal_strlit("figcaption"); assert("form"@.len() != "figcaption"@.len());
    reveal_strlit("details"); assert("form"@.len() != "details"@.len());
    reveal_strlit("summary"); assert("form"@.len() != "summary"@.len());
    reveal_strlit("h1"); assert("form"@.len() != "h1"@.len());
    reveal_strlit("h2"); assert("form"@.len() != "h2"@.len());
    reveal_strlit("h3"); assert("form"@.len() != "h3"@.len());
    reveal_strlit("h4"); assert("form"@.len() != "h4"@.len());
    reveal_strlit("h5"); assert("form"@.len() != "h5"@.len());
    reveal_strlit("h6"); assert("form"@.len() != "h6"@.len());
    reveal_strlit("html"); assert("form"@[0] != "html"@[0]);
    reveal_strlit("body"); assert("form"@[0] != "body"@[0]);
    reveal_strlit("br"); assert("form"@.len() != "br"@.len());
    reveal_strlit("ul"); assert("form"@.len() != "ul"@.len());
    reveal_strlit("ol"); assert("form"@.len() != "ol"@.len());
    reveal_strlit("blockquote"); assert("form"@.len() != "blockquote"@.len());
    reveal_strlit("li"); assert("form"@.len() != "li"@.len());
    reveal_strlit("pre"); assert("form"@.len() != "pre"@.len());
    reveal_strlit("table"); assert("form"@.len() != "table"@.len());
    reveal_strlit("tr"); assert("form"@.len() != "tr"@.len());
    reveal_strlit("td"); assert("form"@.len() != "td"@.len());
    reveal_strlit("th"); assert("form"@.len() != "th"@.len());
    reveal_strlit("hr"); assert("form"@.len() != "hr"@.len());
    reveal_strlit("head"); assert("form"@[0] != "head"@[0]);
    reveal_strlit("script"); assert("form"@.len() != "script"@.len());
    reveal_strlit("style"); assert("form"@.len() != "style"@.len());
    reveal_strlit("meta"); assert("form"@[0] != "meta"@[0]);
    reveal_strlit("link"); assert("form"@[0] != "link"@[0]);
    reveal_strlit("title"); assert("form"@.len() != "title"@.len());
    reveal_strlit("noscript"); assert("form"@.len() != "noscript"@.len());
    reveal_strlit("a"); assert("form"@.len() != "a"@.len());
    reveal_strlit("strong"); assert("form"@.len() != "strong"@.len());
    reveal_strlit("b"); assert("form"@.len() != "b"@.len());
    reveal_strlit("em"); assert("form"@.len() != "em"@.len());
    reveal_strlit("i"); assert("form"@.len() != "i"@.len());
    reveal_strlit("code"); assert("form"@[0] != "code"@[0]);
    reveal_strlit("kbd"); assert("form"@.len() != "kbd"@.len());
    reveal_strlit("samp"); assert("form"@[0] != "samp"@[0]);
    reveal_strlit("tt"); assert("form"@.len() != "tt"@.len());
}

proof fn lemma_tag_defaults_fieldset()
    ensures
        tag_keywords("fieldset"@) == (KeywordStyleView { display: Display::Block, ..initial_keywords() }),
{
    reveal_strlit("fieldset");
    reveal_strlit("div"); assert("fieldset"@.len() != "div"@.len());
    reveal_strlit("p"); assert("fieldset"@.len() != "p"@.len());
    reveal_strlit("section"); assert("fieldset"@.len() != "section"@.len());
    reveal_strlit("article"); assert("fieldset"@.len() != "article"@.len());
    reveal_strlit("main"); assert("fieldset"@.len() != "main"@.len());
    reveal_strlit("header"); assert("fieldset"@.len() != "header"@.len());
    reveal_strlit("footer"); assert("fieldset"@.len() != "footer"@.len());
    reveal_strlit("nav"); assert("fieldset"@.len() != "nav"@.len());
    reveal_strlit("aside"); assert("fieldset"@.len() != "aside"@.len());
    reveal_strlit("form"); assert("fieldset"@.len() != "form"@.len());
    reveal_strlit("address"); assert("fieldset"@.len() != "address"@.len());
    reveal_strlit("figure"); assert("fieldset"@.len() != "figure"@.len());
    reveal_strlit("figcaption"); assert("fieldset"@.len() != "figcaption"@.len());
    reveal_strlit("details"); assert("fieldset"@.len() != "details"@.len());
    reveal_strlit("summary"); assert("fieldset"@.len() != "summary"@.len());
    reveal_strlit("h1"); assert("fieldset"@.len() != "h1"@.len());
    reveal_strlit("h2"); assert("fieldset"@.len() != "h2"@.len());
    reveal_strlit("h3"); assert("fieldset"@.len() != "h3"@.len());
    reveal_strlit("h4"); assert("fieldset"@.len() != "h4"@.len());
    reveal_strlit("h5"); assert("fieldset"@.len() != "h5"@.len());
    reveal_strlit("h6"); assert("fieldset"@.len() != "h6"@.len());
    reveal_strlit("html"); assert("fieldset"@.len() != "html"@.len());
    reveal_strlit("body"); assert("fieldset"@.len() != "body"@.len());
    reveal_strlit("br"); assert("fieldset"@.len() != "br"@.len());
    reveal_strlit("ul"); assert("fieldset"@.len() != "ul"@.len());
    reveal_strlit("ol"); assert("fieldset"@.len() != "ol"@.len());
    reveal_strlit("blockquote"); assert("fieldset"@.len() != "blockquote"@.len());
    reveal_strlit("li"); assert("fieldset"@.len() != "li"@.len());
    reveal_strlit("pre"); assert("fieldset"@.len() != "pre"@.len());
    reveal_strlit("table"); assert("fieldset"@.len() != "table"@.len());
    reveal_strlit("tr"); assert("fieldset"@.len() != "tr"@.len());
    reveal_strlit("td"); assert("fieldset"@.len() != "td"@.len());
    reveal_strlit("th"); assert("fieldset"@.len() != "th"@.len());
    reveal_strlit("hr"); assert("fieldset"@.len() != "hr"@.len());
    reveal_strlit("head"); assert("fieldset"@.len() != "head"@.len());
    reveal_strlit("script"); assert("fieldset"@.len() != "script"@.len());
    reveal_strlit("style"); assert("fieldset"@.len() != "style"@.len());
    reveal_strlit("meta"); assert("fieldset"@.len() != "meta"@.len());
    reveal_strlit("link"); assert("fieldset"@.len() != "link"@.len());
    reveal_strlit("title"); assert("fieldset"@.len() != "title"@.len());
    reveal_strlit("noscript"); assert("fieldset"@[0] != "noscript"@[0]);
    reveal_strlit("a"); assert("fieldset"@.len() != "a"@.len());
    reveal_strlit("strong"); assert("fieldset"@.len() != "strong"@.len());
    reveal_strlit("b"); assert("fieldset"@.len() != "b"@.len());
    reveal_strlit("em"); assert("fieldset"@.len() != "em"@.len());
    reveal_strlit("i"); assert("fieldset"@.len() != "i"@.len());
    reveal_strlit("code"); assert("fieldset"@.len() != "code"@.len());
    reveal_strlit("kbd"); assert("fieldset"@.len() != "kbd"@.len());
    reveal_strlit("samp"); assert("fieldset"@.len() != "samp"@.len());
    reveal_strlit("tt"); assert("fieldset"@.len() != "tt"@.len());
}

proof fn lemma_tag_defaults_address()
    ensures
        tag_keywords("address"@) == (KeywordStyleView { display: Display::Block, ..initial_keywords() }),
{
    reveal_strlit("address");
    reveal_strlit("div"); assert("address"@.len() != "div"@.len());
    reveal_strlit("p"); assert("address"@.len() != "p"@.len());
    reveal_strlit("section"); assert("address"@[0] != "section"@[0]);
    reveal_strlit("article"); assert("address"@[1] != "article"@[1]);
    reveal_strlit("main"); assert("address"@.len() != "main"@.len());
    reveal_strlit("header"); assert("address"@.len() != "header"@.len());
    reveal_strlit("footer"); assert("address"@.len() != "footer"@.len());
    reveal_strlit("nav"); assert("address"@.len() != "nav"@.len());
    reveal_strlit("aside"); assert("address"@.len() != "aside"@.len());
    reveal_strlit("form"); assert("address"@.len() != "form"@.len());
    reveal_strlit("fieldset"); assert("address"@.len() != "fieldset"@.len());
    reveal_strlit("figure"); assert("address"@.len() != "figure"@.len());
    reveal_strlit("figcaption"); assert("address"@.len() != "figcaption"@.len());
    reveal_strlit("details"); assert("address"@[0] != "details"@[0]);
    reveal_strlit("summary"); assert("address"@[0] != "summary"@[0]);
    reveal_strlit("h1"); assert("address"@.len() != "h1"@.len());
    reveal_strlit("h2"); assert("address"@.len() != "h2"@.len());
    reveal_strlit("h3"); assert("address"@.len() != "h3"@.len());
    reveal_strlit("h4"); assert("address"@.len() != "h4"@.len());
    reveal_strlit("h5"); assert("address"@.len() != "h5"@.len());
    reveal_strlit("h6"); assert("address"@.len() != "h6"@.len());
    reveal_strlit("html"); assert("address"@.len() != "html"@.len());
    reveal_strlit("body"); assert("address"@.len() != "body"@.len());
    reveal_strlit("br"); assert("address"@.len() != "br"@.len());
    reveal_strlit("ul"); assert("address"@.len() != "ul"@.len());
    reveal_strlit("ol"); assert("address"@.len() != "ol"@.len());
    reveal_strlit("blockquote"); assert("address"@.len() != "blockquote"@.len());
    reveal_strlit("li"); assert("address"@.len() != "li"@.len());
    reveal_strlit("pre"); assert("address"@.len() != "pre"@.len());
    reveal_strlit("table"); assert("address"@.len() != "table"@.len());
    reveal_strlit("tr"); assert("address"@.len() != "tr"@.len());
    reveal_strlit("td"); assert("address"@.len() != "td"@.len());
    reveal_strlit("th"); assert("address"@.len() != "th"@.len());
    reveal_strlit("hr"); assert("address"@.len() != "hr"@.len());
    reveal_strlit("head"); assert("address"@.len() != "head"@.len());
    reveal_strlit("script"); assert("address"@.len() != "script"@.len());
    reveal_strlit("style"); assert("address"@.len() != "style"@.len());
    reveal_strlit("meta"); assert("address"@.len() != "meta"@.len());
    reveal_strlit("link"); assert("address"@.len() != "link"@.len());
    reveal_strlit("title"); assert("address"@.len() != "title"@.len());
    reveal_strlit("noscript"); assert("address"@.len() != "noscript"@.len());
    reveal_strlit("a"); assert("address"@.len() != "a"@.len());
    reveal_strlit("strong"); assert("address"@.len() != "strong"@.len());
    reveal_strlit("b"); assert("address"@.len() != "b"@.len());
    reveal_strlit("em"); assert("address"@.len() != "em"@.len());
    reveal_strlit("i"); assert("address"@.len() != "i"@.len());
    reveal_strlit("code"); assert("address"@.len() != "code"@.len());
    reveal_strlit("kbd"); assert("address"@.len() != "kbd"@.len());
    reveal_strlit("samp"); assert("address"@.len() != "samp"@.len());
    reveal_strlit("tt"); assert("address"@.len() != "tt"@.len());
}

proof fn lemma_tag_defaults_figure()
    ensures
        tag_keywords("figure"@) == (KeywordStyleView { display: Display::Block, ..initial_keywords() }),
{
    reveal_strlit("figure");
    reveal_strlit("div"); assert("figure"@.len() != "div"@.len());
    reveal_strlit("p"); assert("figure"@.len() != "p"@.len());
    reveal_strlit("section"); assert("figure"@.len() != "section"@.len());
    reveal_strlit("article"); assert("figure"@.len() != "article"@.len());
    reveal_strlit("main"); assert("figure"@.len() != "main"@.len());
    reveal_strlit("header"); assert("figure"@[0] != "header"@[0]);
    reveal_strlit("footer"); assert("figure"@[1] != "footer"@[1]);
    reveal_strlit("nav"); assert("figure"@.len() != "nav"@.len());
    reveal_strlit("aside"); assert("figure"@.len() != "aside"@.len());
    reveal_strlit("form"); assert("figure"@.len() != "form"@.len());
    reveal_strlit("fieldset"); assert("figure"@.len() != "fieldset"@.len());
    reveal_strlit("address"); assert("figure"@.len() != "address"@.len());
    reveal_strlit("figcaption"); assert("figure"@.len() != "figcaption"@.len());
    reveal_strlit("details"); assert("figure"@.len() != "details"@.len());
    reveal_strlit("summary"); assert("figure"@.len() != "summary"@.len());
    reveal_strlit("h1"); assert("figure"@.len() != "h1"@.len());
    reveal_strlit("h2"); assert("figure"@.len() != "h2"@.len());
    reveal_strlit("h3"); assert("figure"@.len() != "h3"@.len());
    reveal_strlit("h4"); assert("figure"@.len() != "h4"@.len());
    reveal_strlit("h5"); assert("figure"@.len() != "h5"@.len());
    reveal_strlit("h6"); assert("figure"@.len() != "h6"@.len());
    reveal_strlit("html"); assert("figure"@.len() != "html"@.len());
    reveal_strlit("body"); assert("figure"@.len() != "body"@.len());
    reveal_strlit("br"); assert("figure"@.len() != "br"@.len());
    reveal_strlit("ul"); assert("figure"@.len() != "ul"@.len());
    reveal_strlit("ol"); assert("figure"@.len() != "ol"@.len());
    reveal_strlit("blockquote"); assert("figure"@.len() != "blockquote"@.len());
    reveal_strlit("li"); assert("figure"@.len() != "li"@.len());
    reveal_strlit("pre"); assert("figure"@.len() != "pre"@.len());
    reveal_strlit("table"); assert("figure"@.len() != "table"@.len());
    reveal_strlit("tr"); assert("figure"@.len() != "tr"@.len());
    reveal_strlit("td"); assert("figure"@.len() != "td"@.len());
    reveal_strlit("th"); assert("figure"@.len() != "th"@.len());
    reveal_strlit("hr"); assert("figure"@.len() != "hr"@.len());
    reveal_strlit("head"); assert("figure"@.len() != "head"@.len());
    reveal_strlit("script"); assert("figure"@[0] != "script"@[0]);
    reveal_strlit("style"); assert("figure"@.len() != "style"@.len());
    reveal_strlit("meta"); assert("figure"@.len() != "meta"@.len());
    reveal_strlit("link"); assert("figure"@.len() != "link"@.len());
    reveal_strlit("title"); assert("figure"@.len() != "title"@.len());
    reveal_strlit("noscript"); assert("figure"@.len() != "noscript"@.len());
    reveal_strlit("a"); assert("figure"@.len() != "a"@.len());
    reveal_strlit("strong"); assert("figure"@[0] != "strong"@[0]);
    reveal_strlit("b"); assert("figure"@.len() != "b"@.len());
    reveal_strlit("em"); assert("figure"@.len() != "em"@.len());
    reveal_strlit("i"); assert("figure"@.len() != "i"@.len());
    reveal_strlit("code"); assert("figure"@.len() != "code"@.len());
    reveal_strlit("kbd"); assert("figure"@.len() != "kbd"@.len());
    reveal_strlit("samp"); assert("figure"@.len() != "samp"@.len());
    reveal_strlit("tt"); assert("figure"@.len() != "tt"@.len());
}

proof fn lemma_tag_defaults_figcaption()
    ensures
        tag_keywords("figcaption"@) == (KeywordStyleView { display: Display::Block, ..initial_keywords() }),
{
    reveal_strlit("figcaption");
    reveal_strlit("div"); assert("figcaption"@.len() != "div"@.len());
    reveal_strlit("p"); assert("figcaption"@.len() != "p"@.len());
    reveal_strlit("section"); assert("figcaption"@.len() != "section"@.len());
    reveal_strlit("article"); assert("figcaption"@.len() != "article"@.len());
    reveal_strlit("main"); assert("figcaption"@.len() != "main"@.len());
    reveal_strlit("header"); assert("figcaption"@.len() != "header"@.len());
    reveal_strlit("footer"); assert("figcaption"@.len() != "footer"@.len());
    reveal_strlit("nav"); assert("figcaption"@.len() != "nav"@.len());
    reveal_strlit("aside"); assert("figcaption"@.len() != "aside"@.len());
    reveal_strlit("form"); assert("figcaption"@.len() != "form"@.len());
    reveal_strlit("fieldset"); assert("figcaption"@.len() != "fieldset"@.len());
    reveal_strlit("address"); assert("figcaption"@.len() != "address"@.len());
    reveal_strlit("figure"); assert("figcaption"@.len() != "figure"@.len());
    reveal_strlit("details"); assert("figcaption"@.len() != "details"@.len());
    reveal_strlit("summary"); assert("figcaption"@.len() != "summary"@.len());
    reveal_strlit("h1"); assert("figcaption"@.len() != "h1"@.len());
    reveal_strlit("h2"); assert("figcaption"@.len() != "h2"@.len());
    reveal_strlit("h3"); assert("figcaption"@.len() != "h3"@.len());
    reveal_strlit("h4"); assert("figcaption"@.len() != "h4"@.len());
    reveal_strlit("h5"); assert("figcaption"@.len() != "h5"@.len());
    reveal_strlit("h6"); assert("figcaption"@.len() != "h6"@.len());
    reveal_strlit("html"); assert("figcaption"@.len() != "html"@.len());
    reveal_strlit("body"); assert("figcaption"@.len() != "body"@.len());
    reveal_strlit("br"); assert("figcaption"@.len() != "br"@.len());
    reveal_strlit("ul"); assert("figcaption"@.len() != "ul"@.len());
    reveal_strlit("ol"); assert("figcaption"@.len() != "ol"@.len());
    reveal_strlit("blockquote"); assert("figcaption"@[0] != "blockquote"@[0]);
    reveal_strlit("li"); assert("figcaption"@.len() != "li"@.len());
    reveal_strlit("pre"); assert("figcaption"@.len() != "pre"@.len());
    reveal_strlit("table"); assert("figcaption"@.len() != "table"@.len());
    reveal_strlit("tr"); assert("figcaption"@.len() != "tr"@.len());
    reveal_strlit("td"); assert("figcaption"@.len() != "td"@.len());
    reveal_strlit("th"); assert("figcaption"@.len() != "th"@.len());
    reveal_strlit("hr"); assert("figcaption"@.len() != "hr"@.len());
    reveal_strlit("head"); assert("figcaption"@.len() != "head"@.len());
    reveal_strlit("script"); assert("figcaption"@.len() != "script"@.len());
    reveal_strlit("style"); assert("figcaption"@.len() != "style"@.len());
    reveal_strlit("meta"); assert("figcaption"@.len() != "meta"@.len());
    reveal_strlit("link"); assert("figcaption"@.len() != "link"@.len());
    reveal_strlit("title"); assert("figcaption"@.len() != "title"@.len());
    reveal_strlit("noscript"); assert("figcaption"@.len() != "noscript"@.len());
    reveal_strlit("a"); assert("figcaption"@.len() != "a"@.len());
    reveal_strlit("strong"); assert("figcaption"@.len() != "strong"@.len());
    reveal_strlit("b"); assert("figcaption"@.len() != "b"@.len());
    reveal_strlit("em"); assert("figcaption"@.len() != "em"@.len());
    reveal_strlit("i"); assert("figcaption"@.len() != "i"@.len());
    reveal_strlit("code"); assert("figcaption"@.len() != "code"@.len());
    reveal_strlit("kbd"); assert("figcaption"@.len() != "kbd"@.len());
    reveal_strlit("samp"); assert("figcaption"@.len() != "samp"@.len());
    reveal_strlit("tt"); assert("figcaption"@.len() != "tt"@.len());
}

proof fn lemma_tag_defaults_details()
    ensures
        tag_keywords("details"@) == (KeywordStyleView { display: Display::Block, ..initial_keywords() }),
{
    reveal_strlit("details");
    reveal_strlit("div"); assert("details"@.len() != "div"@.len());
    reveal_strlit("p"); assert("details"@.len() != "p"@.len());
    reveal_strlit("section"); assert("details"@[0] != "section"@[0]);
    reveal_strlit("article"); assert("details"@[0] != "article"@[0]);
    reveal_strlit("main"); assert("details"@.len() != "main"@.len());
    reveal_strlit("header"); assert("details"@.len() != "header"@.len());
    reveal_strlit("footer"); assert("details"@.len() != "footer"@.len());
    reveal_strlit("nav"); assert("details"@.len() != "nav"@.len());
    reveal_strlit("aside"); assert("details"@.len() != "aside"@.len());
    reveal_strlit("form"); assert("details"@.len() != "form"@.len());
    reveal_strlit("fieldset"); assert("details"@.len() != "fieldset"@.len());
    reveal_strlit("address"); assert("details"@[0] != "address"@[0]);
    reveal_strlit("figure"); assert("details"@.len() != "figure"@.len());
    reveal_strlit("figcaption"); assert("details"@.len() != "figcaption"@.len());
    reveal_strlit("summary"); assert("details"@[0] != "summary"@[0]);
    reveal_strlit("h1"); assert("details"@.len() != "h1"@.len());
    reveal_strlit("h2"); assert("details"@.len() != "h2"@.len());
    reveal_strlit("h3"); assert("details"@.len() != "h3"@.len());
    reveal_strlit("h4"); assert("details"@.len() != "h4"@.len());
    reveal_strlit("h5"); assert("details"@.len() != "h5"@.len());
    reveal_strlit("h6"); assert("details"@.len() != "h6"@.len());
    reveal_strlit("html"); assert("details"@.len() != "html"@.len());
    reveal_strlit("body"); assert("details"@.len() != "body"@.len());
    reveal_strlit("br"); assert("details"@.len() != "br"@.len());
    reveal_strlit("ul"); assert("details"@.len() != "ul"@.len());
    reveal_strlit("ol"); assert("details"@.len() != "ol"@.len());
    reveal_strlit("blockquote"); assert("details"@.len() != "blockquote"@.len());
    reveal_strlit("li"); assert("details"@.len() != "li"@.len());
    reveal_strlit("pre"); assert("details"@.len() != "pre"@.len());
    reveal_strlit("table"); assert("details"@.len() != "table"@.len());
    reveal_strlit("tr"); assert("details"@.len() != "tr"@.len());
    reveal_strlit("td"); assert("details"@.len() != "td"@.len());
    reveal_strlit("th"); assert("details"@.len() != "th"@.len());
    reveal_strlit("hr"); assert("details"@.len() != "hr"@.len());
    reveal_strlit("head"); assert("details"@.len() != "head"@.len());
    reveal_strlit("script"); assert("details"@.len() != "script"@.len());
    reveal_strlit("style"); assert("details"@.len() != "style"@.len());
    reveal_strlit("meta"); assert("details"@.len() != "meta"@.len());
    reveal_strlit("link"); assert("details"@.len() != "link"@.len());
    reveal_strlit("title"); assert("details"@.len() != "title"@.len());
    reveal_strlit("noscript"); assert("details"@.len() != "noscript"@.len());
    reveal_strlit("a"); assert("details"@.len() != "a"@.len());
    reveal_strlit("strong"); assert("details"@.len() != "strong"@.len());
    reveal_strlit("b"); assert("details"@.len() != "b"@.len());
    reveal_strlit("em"); assert("details"@.len() != "em"@.len());
    reveal_strlit("i"); assert("details"@.len() != "i"@.len());
    reveal_strlit("code"); assert("details"@.len() != "code"@.len());
    reveal_strlit("kbd"); assert("details"@.len() != "kbd"@.len());
    reveal_strlit("samp"); assert("details"@.len() != "samp"@.len());
    reveal_strlit("tt"); assert("details"@.len() != "tt"@.len());
}

proof fn lemma_tag_defaults_summary()
    ensures
        tag_keywords("summary"@) == (KeywordStyleView { display: Display::Block, ..initial_keywords() }),
{
    reveal_strlit("summary");
    reveal_strlit("div"); assert("summary"@.len() != "div"@.len());
    reveal_strlit("p"); assert("summary"@.len() != "p"@.len());
    reveal_strlit("section"); assert("summary"@[1] != "section"@[1]);
    reveal_strlit("article"); assert("summary"@[0] != "article"@[0]);
    reveal_strlit("main"); assert("summary"@.len() != "main"@.len());
    reveal_strlit("header"); assert("summary"@.len() != "header"@.len());
    reveal_strlit("footer"); assert("summary"@.len() != "footer"@.len());
    reveal_strlit("nav"); assert("summary"@.len() != "nav"@.len());
    reveal_strlit("aside"); assert("summary"@.len() != "aside"@.len());
    reveal_strlit("form"); assert("summary"@.len() != "form"@.len());
    reveal_strlit("fieldset"); assert("summary"@.len() != "fieldset"@.len());
    reveal_strlit("address"); assert("summary"@[0] != "address"@[0]);
    reveal_strlit("figure"); assert("summary"@.len() != "figure"@.len());
    reveal_strlit("figcaption"); assert("summary"@.len() != "figcaption"@.len());
    reveal_strlit("details"); assert("summary"@[0] != "details"@[0]);
    reveal_strlit("h1"); assert("summary"@.len() != "h1"@.len());
    reveal_strlit("h2"); assert("summary"@.len() != "h2"@.len());
    reveal_strlit("h3"); assert("summary"@.len() != "h3"@.len());
    reveal_strlit("h4"); assert("summary"@.len() != "h4"@.len());
    reveal_strlit("h5"); assert("summary"@.len() != "h5"@.len());
    reveal_strlit("h6"); assert("summary"@.len() != "h6"@.len());
    reveal_strlit("html"); assert("summary"@.len() != "html"@.len());
    reveal_strlit("body"); assert("summary"@.len() != "body"@.len());
    reveal_strlit("br"); assert("summary"@.len() != "br"@.len());
    reveal_strlit("ul"); assert("summary"@.len() != "ul"@.len());
    reveal_strlit("ol"); assert("summary"@.len() != "ol"@.len());
    reveal_strlit("blockquote"); assert("summary"@.len() != "blockquote"@.len());
    reveal_strlit("li"); assert("summary"@.len() != "li"@.len());
    reveal_strlit("pre"); assert("summary"@.len() != "pre"@.len());
    reveal_strlit("table"); assert("summary"@.len() != "table"@.len());
    reveal_strlit("tr"); assert("summary"@.len() != "tr"@.len());
    reveal_strlit("td"); assert("summary"@.len() != "td"@.len());
    reveal_strlit("th"); assert("summary"@.len() != "th"@.len());
    reveal_strlit("hr"); assert("summary"@.len() != "hr"@.len());
    reveal_strlit("head"); assert("summary"@.len() != "head"@.len());
    reveal_strlit("script"); assert("summary"@.len() != "script"@.len());
    reveal_strlit("style"); assert("summary"@.len() != "style"@.len());
    reveal_strlit("meta"); assert("summary"@.len() != "meta"@.len());
    reveal_strlit("link"); assert("summary"@.len() != "link"@.len());
    reveal_strlit("title"); assert("summary"@.len() != "title"@.len());
    reveal_strlit("noscript"); assert("summary"@.len() != "noscript"@.len());
    reveal_strlit("a"); assert("summary"@.len() != "a"@.len());
    reveal_strlit("strong"); assert("summary"@.len() != "strong"@.len());
    reveal_strlit("b"); assert("summary"@.len() != "b"@.len());
    reveal_strlit("em"); assert("summary"@.len() != "em"@.len());
    reveal_strlit("i"); assert("summary"@.len() != "i"@.len());
    reveal_strlit("code"); assert("summary"@.len() != "code"@.len());
    reveal_strlit("kbd"); assert("summary"@.len() != "kbd"@.len());
    reveal_strlit("samp"); assert("summary"@.len() != "samp"@.len());
    reveal_strlit("tt"); assert("summary"@.len() != "tt"@.len());
}

proof fn lemma_tag_defaults_h1()
    ensures
        tag_keywords("h1"@) == (KeywordStyleView { display: Display::Block, font_weight: FontWeight::Bold, ..initial_keywords() }),
{
    reveal_strlit("h1");
    reveal_strlit("div"); assert("h1"@.len() != "div"@.len());
    reveal_strlit("p"); assert("h1"@.len() != "p"@.len());
    reveal_strlit("section"); assert("h1"@.len() != "section"@.len());
    reveal_strlit("article"); assert("h1"@.len() != "article"@.len());
    reveal_strlit("main"); assert("h1"@.len() != "main"@.len());
    reveal_strlit("header"); assert("h1"@.len() != "header"@.len());
    reveal_strlit("footer"); assert("h1"@.len() != "footer"@.len());
    reveal_strlit("nav"); assert("h1"@.len() != "nav"@.len());
    reveal_strlit("aside"); assert("h1"@.len() != "aside"@.len());
    reveal_strlit("form"); assert("h1"@.len() != "form"@.len());
    reveal_strlit("fieldset"); assert("h1"@.len() != "fieldset"@.len());
    reveal_strlit("address"); assert("h1"@.len() != "address"@.len());
    reveal_strlit("figure"); assert("h1"@.len() != "figure"@.len());
    reveal_strlit("figcaption"); assert("h1"@.len() != "figcaption"@.len());
    reveal_strlit("details"); assert("h1"@.len() != "details"@.len());
    reveal_strlit("summary"); assert("h1"@.len() != "summary"@.len());
    reveal_strlit("h2"); assert("h1"@[1] != "h2"@[1]);
    reveal_strlit("h3"); assert("h1"@[1] != "h3"@[1]);
    reveal_strlit("h4"); assert("h1"@[1] != "h4"@[1]);
    reveal_strlit("h5"); assert("h1"@[1] != "h5"@[1]);
    reveal_strlit("h6"); assert("h1"@[1] != "h6"@[1]);
    reveal_strlit("html"); assert("h1"@.len() != "html"@.len());
    reveal_strlit("body"); assert("h1"@.len() != "body"@.len());
    reveal_strlit("br"); assert("h1"@[0] != "br"@[0]);
    reveal_strlit("ul"); assert("h1"@[0] != "ul"@[0]);
    reveal_strlit("ol"); assert("h1"@[0] != "ol"@[0]);
    reveal_strlit("blockquote"); assert("h1"@.len() != "blockquote"@.len());
    reveal_strlit("li"); assert("h1"@[0] != "li"@[0]);
    reveal_strlit("pre"); assert("h1"@.len() != "pre"@.len());
    reveal_strlit("table"); assert("h1"@.len() != "table"@.len());
    reveal_strlit("tr"); assert("h1"@[0] != "tr"@[0]);
    reveal_strlit("td"); assert("h1"@[0] != "td"@[0]);
    reveal_strlit("th"); assert("h1"@[0] != "th"@[0]);
    reveal_strlit("hr"); assert("h1"@[1] != "hr"@[1]);
    reveal_strlit("head"); assert("h1"@.len() != "head"@.len());
    reveal_strlit("script"); assert("h1"@.len() != "script"@.len());
    reveal_strlit("style"); assert("h1"@.len() != "style"@.len());
    reveal_strlit("meta"); assert("h1"@.len() != "meta"@.len());
    reveal_strlit("link"); assert("h1"@.len() != "link"@.len());
    reveal_strlit("title"); assert("h1"@.len() != "title"@.len());
    reveal_strlit("noscript"); assert("h1"@.len() != "noscript"@.len());
    reveal_strlit("a"); assert("h1"@.len() != "a"@.len());
    reveal_strlit("strong"); assert("h1"@.len() != "strong"@.len());
    reveal_strlit("b"); assert("h1"@.len() != "b"@.len());
    reveal_strlit("em"); assert("h1"@[0] != "em"@[0]);
    reveal_strlit("i"); assert("h1"@.len() != "i"@.len());
    reveal_strlit("code"); assert("h1"@.len() != "code"@.len());
    reveal_strlit("kbd"); assert("h1"@.len() != "kbd"@.len());
    reveal_strlit("samp"); assert("h1"@.len() != "samp"@.len());
    reveal_strlit("tt"); assert("h1"@[0] != "tt"@[0]);
}

proof fn lemma_tag_defaults_h2()
    ensures
        tag_keywords("h2"@) == (KeywordStyleView { display: Display::Block, font_weight: FontWeight::Bold, ..initial_keywords() }),
{
    reveal_strlit("h2");
    reveal_strlit("div"); assert("h2"@.len() != "div"@.len());
    reveal_strlit("p"); assert("h2"@.len() != "p"@.len());
    reveal_strlit("section"); assert("h2"@.len() != "section"@.len());
    reveal_strlit("article"); assert("h2"@.len() != "article"@.len());
    reveal_strlit("main"); assert("h2"@.len() != "main"@.len());
    reveal_strlit("header"); assert("h2"@.len() != "header"@.len());
    reveal_strlit("footer"); assert("h2"@.len() != "footer"@.len());
    reveal_strlit("nav"); assert("h2"@.len() != "nav"@.len());
    reveal_strlit("aside"); assert("h2"@.len() != "aside"@.len());
    reveal_strlit("form"); assert("h2"@.len() != "form"@.len());
    reveal_strlit("fieldset"); assert("h2"@.len() != "fieldset"@.len());
    reveal_strlit("address"); assert("h2"@.len() != "address"@.len());
    reveal_strlit("figure"); assert("h2"@.len() != "figure"@.len());
    reveal_strlit("figcaption"); assert("h2"@.len() != "figcaption"@.len());
    reveal_strlit("details"); assert("h2"@.len() != "details"@.len());
    reveal_strlit("summary"); assert("h2"@.len() != "summary"@.len());
    reveal_strlit("h1"); assert("h2"@[1] != "h1"@[1]);
    reveal_strlit("h3"); assert("h2"@[1] != "h3"@[1]);
    reveal_strlit("h4"); assert("h2"@[1] != "h4"@[1]);
    reveal_strlit("h5"); assert("h2"@[1] != "h5"@[1]);
    reveal_strlit("h6"); assert("h2"@[1] != "h6"@[1]);
    reveal_strlit("html"); assert("h2"@.len() != "html"@.len());
    reveal_strlit("body"); assert("h2"@.len() != "body"@.len());
    reveal_strlit("br"); assert("h2"@[0] != "br"@[0]);
    reveal_strlit("ul"); assert("h2"@[0] != "ul"@[0]);
    reveal_strlit("ol"); assert("h2"@[0] != "ol"@[0]);
    reveal_strlit("blockquote"); assert("h2"@.len() != "blockquote"@.len());
    reveal_strlit("li"); assert("h2"@[0] != "li"@[0]);
    reveal_strlit("pre"); assert("h2"@.len() != "pre"@.len());
    reveal_strlit("table"); assert("h2"@.len() != "table"@.len());
    reveal_strlit("tr"); assert("h2"@[0] != "tr"@[0]);
    reveal_strlit("td"); assert("h2"@[0] != "td"@[0]);
    reveal_strlit("th"); assert("h2"@[0] != "th"@[0]);
    reveal_strlit("hr"); assert("h2"@[1] != "hr"@[1]);
    reveal_strlit("head"); assert("h2"@.len() != "head"@.len());
    reveal_strlit("script"); assert("h2"@.len() != "script"@.len());
    reveal_strlit("style"); assert("h2"@.len() != "style"@.len());
    reveal_strlit("meta"); assert("h2"@.len() != "meta"@.len());
    reveal_strlit("link"); assert("h2"@.len() != "link"@.len());
    reveal_strlit("title"); assert("h2"@.len() != "title"@.len());
    reveal_strlit("noscript"); assert("h2"@.len() != "noscript"@.len());
    reveal_strlit("a"); assert("h2"@.len() != "a"@.len());
    reveal_strlit("strong"); assert("h2"@.len() != "strong"@.len());
    reveal_strlit("b"); assert("h2"@.len() != "b"@.len());
    reveal_strlit("em"); assert("h2"@[0] != "em"@[0]);
    reveal_strlit("i"); assert("h2"@.len() != "i"@.len());
    reveal_strlit("code"); assert("h2"@.len() != "code"@.len());
    reveal_strlit("kbd"); assert("h2"@.len() != "kbd"@.len());
    reveal_strlit("samp"); assert("h2"@.len() != "samp"@.len());
    reveal_strlit("tt"); assert("h2"@[0] != "tt"@[0]);
}

proof fn lemma_tag_defaults_h3()
    ensures
        tag_keywords("h3"@) == (KeywordStyleView { display: Display::Block, font_weight: FontWeight::Bold, ..initial_keywords() }),
{
    reveal_strlit("h3");
    reveal_strlit("div"); assert("h3"@.len() != "div"@.len());
    reveal_strlit("p"); assert("h3"@.len() != "p"@.len());
    reveal_strlit("section"); assert("h3"@.len() != "section"@.len());
    reveal_strlit("article"); assert("h3"@.len() != "article"@.len());
    reveal_strlit("main"); assert("h3"@.len() != "main"@.len());
    reveal_strlit("header"); assert("h3"@.len() != "header"@.len());
    reveal_strlit("footer"); assert("h3"@.len() != "footer"@.len());
    reveal_strlit("nav"); assert("h3"@.len() != "nav"@.len());
    reveal_strlit("aside"); assert("h3"@.len() != "aside"@.len());
    reveal_strlit("form"); assert("h3"@.len() != "form"@.len());
    reveal_strlit("fieldset"); assert("h3"@.len() != "fieldset"@.len());
    reveal_strlit("address"); assert("h3"@.len() != "address"@.len());
    reveal_strlit("figure"); assert("h3"@.len() != "figure"@.len());
    reveal_strlit("figcaption"); assert("h3"@.len() != "figcaption"@.len());
    reveal_strlit("details"); assert("h3"@.len() != "details"@.len());
    reveal_strlit("summary"); assert("h3"@.len() != "summary"@.len());
    reveal_strlit("h1"); assert("h3"@[1] != "h1"@[1]);
    reveal_strlit("h2"); assert("h3"@[1] != "h2"@[1]);
    reveal_strlit("h4"); assert("h3"@[1] != "h4"@[1]);
    reveal_strlit("h5"); assert("h3"@[1] != "h5"@[1]);
    reveal_strlit("h6"); assert("h3"@[1] != "h6"@[1]);
    reveal_strlit("html"); assert("h3"@.len() != "html"@.len());
    reveal_strlit("body"); assert("h3"@.len() != "body"@.len());
    reveal_strlit("br"); assert("h3"@[0] != "br"@[0]);
    reveal_strlit("ul"); assert("h3"@[0] != "ul"@[0]);
    reveal_strlit("ol"); assert("h3"@[0] != "ol"@[0]);
    reveal_strlit("blockquote"); assert("h3"@.len() != "blockquote"@.len());
    reveal_strlit("li"); assert("h3"@[0] != "li"@[0]);
    reveal_strlit("pre"); assert("h3"@.len() != "pre"@.len());
    reveal_strlit("table"); assert("h3"@.len() != "table"@.len());
    reveal_strlit("tr"); assert("h3"@[0] != "tr"@[0]);
    reveal_strlit("td"); assert("h3"@[0] != "td"@[0]);
    reveal_strlit("th"); assert("h3"@[0] != "th"@[0]);
    reveal_strlit("hr"); assert("h3"@[1] != "hr"@[1]);
    reveal_strlit("head"); assert("h3"@.len() != "head"@.len());
    reveal_strlit("script"); assert("h3"@.len() != "script"@.len());
    reveal_strlit("style"); assert("h3"@.len() != "style"@.len());
    reveal_strlit("meta"); assert("h3"@.len() != "meta"@.len());
    reveal_strlit("link"); assert("h3"@.len() != "link"@.len());
    reveal_strlit("title"); assert("h3"@.len() != "title"@.len());
    reveal_strlit("noscript"); assert("h3"@.len() != "noscript"@.len());
    reveal_strlit("a"); assert("h3"@.len() != "a"@.len());
    reveal_strlit("strong"); assert("h3"@.len() != "strong"@.len());
    reveal_strlit("b"); assert("h3"@.len() != "b"@.len());
    reveal_strlit("em"); assert("h3"@[0] != "em"@[0]);
    reveal_strlit("i"); assert("h3"@.len() != "i"@.len());
    reveal_strlit("code"); assert("h3"@.len() != "code"@.len());
    reveal_strlit("kbd"); assert("h3"@.len() != "kbd"@.len());
    reveal_strlit("samp"); assert("h3"@.len() != "samp"@.len());
    reveal_strlit("tt"); assert("h3"@[0] != "tt"@[0]);
}

proof fn lemma_tag_defaults_h4()
    ensures
        tag_keywords("h4"@) == (KeywordStyleView { display: Display::Block, font_weight: FontWeight::Bold, ..initial_keywords() }),
{
    reveal_strlit("h4");
    reveal_strlit("div"); assert("h4"@.len() != "div"@.len());
    reveal_strlit("p"); assert("h4"@.len() != "p"@.len());
    reveal_strlit("section"); assert("h4"@.len() != "section"@.len());
    reveal_strlit("article"); assert("h4"@.len() != "article"@.len());
    reveal_strlit("main"); assert("h4"@.len() != "main"@.len());
    reveal_strlit("header"); assert("h4"@.len() != "header"@.len());
    reveal_strlit("footer"); assert("h4"@.len() != "footer"@.len());
    reveal_strlit("nav"); assert("h4"@.len() != "nav"@.len());
    reveal_strlit("aside"); assert("h4"@.len() != "aside"@.len());
    reveal_strlit("form"); assert("h4"@.len() != "form"@.len());
    reveal_strlit("fieldset"); assert("h4"@.len() != "fieldset"@.len());
    reveal_strlit("address"); assert("h4"@.len() != "address"@.len());
    reveal_strlit("figure"); assert("h4"@.len() != "figure"@.len());
    reveal_strlit("figcaption"); assert("h4"@.len() != "figcaption"@.len());
    reveal_strlit("details"); assert("h4"@.len() != "details"@.len());
    reveal_strlit("summary"); assert("h4"@.len() != "summary"@.len());
    reveal_strlit("h1"); assert("h4"@[1] != "h1"@[1]);
    reveal_strlit("h2"); assert("h4"@[1] != "h2"@[1]);
    reveal_strlit("h3"); assert("h4"@[1] != "h3"@[1]);
    reveal_strlit("h5"); assert("h4"@[1] != "h5"@[1]);
    reveal_strlit("h6"); assert("h4"@[1] != "h6"@[1]);
    reveal_strlit("html"); assert("h4"@.len() != "html"@.len());
    reveal_strlit("body"); assert("h4"@.len() != "body"@.len());
    reveal_strlit("br"); assert("h4"@[0] != "br"@[0]);
    reveal_strlit("ul"); assert("h4"@[0] != "ul"@[0]);
    reveal_strlit("ol"); assert("h4"@[0] != "ol"@[0]);
    reveal_strlit("blockquote"); assert("h4"@.len() != "blockquote"@.len());
    reveal_strlit("li"); assert("h4"@[0] != "li"@[0]);
    reveal_strlit("pre"); assert("h4"@.len() != "pre"@.len());
    reveal_strlit("table"); assert("h4"@.len() != "table"@.len());
    reveal_strlit("tr"); assert("h4"@[0] != "tr"@[0]);
    reveal_strlit("td"); assert("h4"@[0] != "td"@[0]);
    reveal_strlit("th"); assert("h4"@[0] != "th"@[0]);
    reveal_strlit("hr"); assert("h4"@[1] != "hr"@[1]);
    reveal_strlit("head"); assert("h4"@.len() != "head"@.len());
    reveal_strlit("script"); assert("h4"@.len() != "script"@.len());
    reveal_strlit("style"); assert("h4"@.len() != "style"@.len());
    reveal_strlit("meta"); assert("h4"@.len() != "meta"@.len());
    reveal_strlit("link"); assert("h4"@.len() != "link"@.len());
    reveal_strlit("title"); assert("h4"@.len() != "title"@.len());
    reveal_strlit("noscript"); assert("h4"@.len() != "noscript"@.len());
    reveal_strlit("a"); assert("h4"@.len() != "a"@.len());
    reveal_strlit("strong"); assert("h4"@.len() != "strong"@.len());
    reveal_strlit("b"); assert("h4"@.len() != "b"@.len());
    reveal_strlit("em"); assert("h4"@[0] != "em"@[0]);
    reveal_strlit("i"); assert("h4"@.len() != "i"@.len());
    reveal_strlit("code"); assert("h4"@.len() != "code"@.len());
    reveal_strlit("kbd"); assert("h4"@.len() != "kbd"@.len());
    reveal_strlit("samp"); assert("h4"@.len() != "samp"@.len());
    reveal_strlit("tt"); assert("h4"@[0] != "tt"@[0]);
}

proof fn lemma_tag_defaults_h5()
    ensures
        tag_keywords("h5"@) == (KeywordStyleView { display: Display::Block, font_weight: FontWeight::Bold, ..initial_keywords() }),
{
    reveal_strlit("h5");
    reveal_strlit("div"); assert("h5"@.len() != "div"@.len());
    reveal_strlit("p"); assert("h5"@.len() != "p"@.len());
    reveal_strlit("section"); assert("h5"@.len() != "section"@.len());
    reveal_strlit("article"); assert("h5"@.len() != "article"@.len());
    reveal_strlit("main"); assert("h5"@.len() != "main"@.len());
    reveal_strlit("header"); assert("h5"@.len() != "header"@.len());
    reveal_strlit("footer"); assert("h5"@.len() != "footer"@.len());
    reveal_strlit("nav"); assert("h5"@.len() != "nav"@.len());
    reveal_strlit("aside"); assert("h5"@.len() != "aside"@.len());
    reveal_strlit("form"); assert("h5"@.len() != "form"@.len());
    reveal_strlit("fieldset"); assert("h5"@.len() != "fieldset"@.len());
    reveal_strlit("address"); assert("h5"@.len() != "address"@.len());
    reveal_strlit("figure"); assert("h5"@.len() != "figure"@.len());
    reveal_strlit("figcaption"); assert("h5"@.len() != "figcaption"@.len());
    reveal_strlit("details"); assert("h5"@.len() != "details"@.len());
    reveal_strlit("summary"); assert("h5"@.len() != "summary"@.len());
    reveal_strlit("h1"); assert("h5"@[1] != "h1"@[1]);
    reveal_strlit("h2"); assert("h5"@[1] != "h2"@[1]);
    reveal_strlit("h3"); assert("h5"@[1] != "h3"@[1]);
    reveal_strlit("h4"); assert("h5"@[1] != "h4"@[1]);
    reveal_strlit("h6"); assert("h5"@[1] != "h6"@[1]);
    reveal_strlit("html"); assert("h5"@.len() != "html"@.len());
    reveal_strlit("body"); assert("h5"@.len() != "body"@.len());
    reveal_strlit("br"); assert("h5"@[0] != "br"@[0]);
    reveal_strlit("ul"); assert("h5"@[0] != "ul"@[0]);
    reveal_strlit("ol"); assert("h5"@[0] != "ol"@[0]);
    reveal_strlit("blockquote"); assert("h5"@.len() != "blockquote"@.len());
    reveal_strlit("li"); assert("h5"@[0] != "li"@[0]);
    reveal_strlit("pre"); assert("h5"@.len() != "pre"@.len());
    reveal_strlit("table"); assert("h5"@.len() != "table"@.len());
    reveal_strlit("tr"); assert("h5"@[0] != "tr"@[0]);
    reveal_strlit("td"); assert("h5"@[0] != "td"@[0]);
    reveal_strlit("th"); assert("h5"@[0] != "th"@[0]);
    reveal_strlit("hr"); assert("h5"@[1] != "hr"@[1]);
    reveal_strlit("head"); assert("h5"@.len() != "head"@.len());
    reveal_strlit("script"); assert("h5"@.len() != "script"@.len());
    reveal_strlit("style"); assert("h5"@.len() != "style"@.len());
    reveal_strlit("meta"); assert("h5"@.len() != "meta"@.len());
    reveal_strlit("link"); assert("h5"@.len() != "link"@.len());
    reveal_strlit("title"); assert("h5"@.len() != "title"@.len());
    reveal_strlit("noscript"); assert("h5"@.len() != "noscript"@.len());
    reveal_strlit("a"); assert("h5"@.len() != "a"@.len());
    reveal_strlit("strong"); assert("h5"@.len() != "strong"@.len());
    reveal_strlit("b"); assert("h5"@.len() != "b"@.len());
    reveal_strlit("em"); assert("h5"@[0] != "em"@[0]);
    reveal_strlit("i"); assert("h5"@.len() != "i"@.len());
    reveal_strlit("code"); assert("h5"@.len() != "code"@.len());
    reveal_strlit("kbd"); assert("h5"@.len() != "kbd"@.len());
    reveal_strlit("samp"); assert("h5"@.len() != "samp"@.len());
    reveal_strlit("tt"); assert("h5"@[0] != "tt"@[0]);
}

proof fn lemma_tag_defaults_h6()
    ensures
        tag_keywords("h6"@) == (KeywordStyleView { display: Display::Block, font_weight: FontWeight::Bold, ..initial_keywords() }),
{
    reveal_strlit("h6");
    reveal_strlit("div"); assert("h6"@.len() != "div"@.len());
    reveal_strlit("p"); assert("h6"@.len() != "p"@.len());
    reveal_strlit("section"); assert("h6"@.len() != "section"@.len());
    reveal_strlit("article"); assert("h6"@.len() != "article"@.len());
    reveal_strlit("main"); assert("h6"@.len() != "main"@.len());
    reveal_strlit("header"); assert("h6"@.len() != "header"@.len());
    reveal_strlit("footer"); assert("h6"@.len() != "footer"@.len());
    reveal_strlit("nav"); assert("h6"@.len() != "nav"@.len());
    reveal_strlit("aside"); assert("h6"@.len() != "aside"@.len());
    reveal_strlit("form"); assert("h6"@.len() != "form"@.len());
    reveal_strlit("fieldset"); assert("h6"@.len() != "fieldset"@.len());
    reveal_strlit("address"); assert("h6"@.len() != "address"@.len());
    reveal_strlit("figure"); assert("h6"@.len() != "figure"@.len());
    reveal_strlit("figcaption"); assert("h6"@.len() != "figcaption"@.len());
    reveal_strlit("details"); assert("h6"@.len() != "details"@.len());
    reveal_strlit("summary"); assert("h6"@.len() != "summary"@.len());
    reveal_strlit("h1"); assert("h6"@[1] != "h1"@[1]);
    reveal_strlit("h2"); assert("h6"@[1] != "h2"@[1]);
    reveal_strlit("h3"); assert("h6"@[1] != "h3"@[1]);
    reveal_strlit("h4"); assert("h6"@[1] != "h4"@[1]);
    reveal_strlit("h5"); assert("h6"@[1] != "h5"@[1]);
    reveal_strlit("html"); assert("h6"@.len() != "html"@.len());
    reveal_strlit("body"); assert("h6"@.len() != "body"@.len());
    reveal_strlit("br"); assert("h6"@[0] != "br"@[0]);
    reveal_strlit("ul"); assert("h6"@[0] != "ul"@[0]);
    reveal_strlit("ol"); assert("h6"@[0] != "ol"@[0]);
    reveal_strlit("blockquote"); assert("h6"@.len() != "blockquote"@.len());
    reveal_strlit("li"); assert("h6"@[0] != "li"@[0]);
    reveal_strlit("pre"); assert("h6"@.len() != "pre"@.len());
    reveal_strlit("table"); assert("h6"@.len() != "table"@.len());
    reveal_strlit("tr"); assert("h6"@[0] != "tr"@[0]);
    reveal_strlit("td"); assert("h6"@[0] != "td"@[0]);
    reveal_strlit("th"); assert("h6"@[0] != "th"@[0]);
    reveal_strlit("hr"); assert("h6"@[1] != "hr"@[1]);
    reveal_strlit("head"); assert("h6"@.len() != "head"@.len());
    reveal_strlit("script"); assert("h6"@.len() != "script"@.len());
    reveal_strlit("style"); assert("h6"@.len() != "style"@.len());
    reveal_strlit("meta"); assert("h6"@.len() != "meta"@.len());
    reveal_strlit("link"); assert("h6"@.len() != "link"@.len());
    reveal_strlit("title"); assert("h6"@.len() != "title"@.len());
    reveal_strlit("noscript"); assert("h6"@.len() != "noscript"@.len());
    reveal_strlit("a"); assert("h6"@.len() != "a"@.len());
    reveal_strlit("strong"); assert("h6"@.len() != "strong"@.len());
    reveal_strlit("b"); assert("h6"@.len() != "b"@.len());
    reveal_strlit("em"); assert("h6"@[0] != "em"@[0]);
    reveal_strlit("i"); assert("h6"@.len() != "i"@.len());
    reveal_strlit("code"); assert("h6"@.len() != "code"@.len());
    reveal_strlit("kbd"); assert("h6"@.len() != "kbd"@.len());
    reveal_strlit("samp"); assert("h6"@.len() != "samp"@.len());
    reveal_strlit("tt"); assert("h6"@[0] != "tt"@[0]);
}

proof fn lemma_tag_defaults_html()
    ensures
        tag_keywords("html"@) == (KeywordStyleView { display: Display::Block, ..initial_keywords() }),
{
    reveal_strlit("html");
    reveal_strlit("div"); assert("html"@.len() != "div"@.len());
    reveal_strlit("p"); assert("html"@.len() != "p"@.len());
    reveal_strlit("section"); assert("html"@.len() != "section"@.len());
    reveal_strlit("article"); assert("html"@.len() != "article"@.len());
    reveal_strlit("main"); assert("html"@[0] != "main"@[0]);
    reveal_strlit("header"); assert("html"@.len() != "header"@.len());
    reveal_strlit("footer"); assert("html"@.len() != "footer"@.len());
    reveal_strlit("nav"); assert("html"@.len() != "nav"@.len());
    reveal_strlit("aside"); assert("html"@.len() != "aside"@.len());
    reveal_strlit("form"); assert("html"@[0] != "form"@[0]);
    reveal_strlit("fieldset"); assert("html"@.len() != "fieldset"@.len());
    reveal_strlit("address"); assert("html"@.len() != "address"@.len());
    reveal_strlit("figure"); assert("html"@.len() != "figure"@.len());
    reveal_strlit("figcaption"); assert("html"@.len() != "figcaption"@.len());
    reveal_strlit("details"); assert("html"@.len() != "details"@.len());
    reveal_strlit("summary"); assert("html"@.len() != "summary"@.len());
    reveal_strlit("h1"); assert("html"@.len() != "h1"@.len());
    reveal_strlit("h2"); assert("html"@.len() != "h2"@.len());
    reveal_strlit("h3"); assert("html"@.len() != "h3"@.len());
    reveal_strlit("h4"); assert("html"@.len() != "h4"@.len());
    reveal_strlit("h5"); assert("html"@.len() != "h5"@.len());
    reveal_strlit("h6"); assert("html"@.len() != "h6"@.len());
    reveal_strlit("body"); assert("html"@[0] != "body"@[0]);
    reveal_strlit("br"); assert("html"@.len() != "br"@.len());
    reveal_strlit("ul"); assert("html"@.len() != "ul"@.len());
    reveal_strlit("ol"); assert("html"@.len() != "ol"@.len());
    reveal_strlit("blockquote"); assert("html"@.len() != "blockquote"@.len());
    reveal_strlit("li"); assert("html"@.len() != "li"@.len());
    reveal_strlit("pre"); assert("html"@.len() != "pre"@.len());
    reveal_strlit("table"); assert("html"@.len() != "table"@.len());
    reveal_strlit("tr"); assert("html"@.len() != "tr"@.len());
    reveal_strlit("td"); assert("html"@.len() != "td"@.len());
    reveal_strlit("th"); assert("html"@.len() != "th"@.len());
    reveal_strlit("hr"); assert("html"@.len() != "hr"@.len());
    reveal_strlit("head"); assert("html"@[1] != "head"@[1]);
    reveal_strlit("script"); assert("html"@.len() != "script"@.len());
    reveal_strlit("style"); assert("html"@.len() != "style"@.len());
    reveal_strlit("meta"); assert("html"@[0] != "meta"@[0]);
    reveal_strlit("link"); assert("html"@[0] != "link"@[0]);
    reveal_strlit("title"); assert("html"@.len() != "title"@.len());
    reveal_strlit("noscript"); assert("html"@.len() != "noscript"@.len());
    reveal_strlit("a"); assert("html"@.len() != "a"@.len());
    reveal_strlit("strong"); assert("html"@.len() != "strong"@.len());
    reveal_strlit("b"); assert("html"@.len() != "b"@.len());
    reveal_strlit("em"); assert("html"@.len() != "em"@.len());
    reveal_strlit("i"); assert("html"@.len() != "i"@.len());
    reveal_strlit("code"); assert("html"@[0] != "code"@[0]);
    reveal_strlit("kbd"); assert("html"@.len() != "kbd"@.len());
    reveal_strlit("samp"); assert("html"@[0] != "samp"@[0]);
    reveal_strlit("tt"); assert("html"@.len() != "tt"@.len());
}

proof fn lemma_tag_defaults_body()
    ensures
        tag_keywords("body"@) == (KeywordStyleView { display: Display::Block, ..initial_keywords() }),
{
    reveal_strlit("body");
    reveal_strlit("div"); assert("body"@.len() != "div"@.len());
    reveal_strlit("p"); assert("body"@.len() != "p"@.len());
    reveal_strlit("section"); assert("body"@.len() != "section"@.len());
    reveal_strlit("article"); assert("body"@.len() != "article"@.len());
    reveal_strlit("main"); assert("body"@[0] != "main"@[0]);
    reveal_strlit("header"); assert("body"@.len() != "header"@.len());
    reveal_strlit("footer"); assert("body"@.len() != "footer"@.len());
    reveal_strlit("nav"); assert("body"@.len() != "nav"@.len());
    reveal_strlit("aside"); assert("body"@.len() != "aside"@.len());
    reveal_strlit("form"); assert("body"@[0] != "form"@[0]);
    reveal_strlit("fieldset"); assert("body"@.len() != "fieldset"@.len());
    reveal_strlit("address"); assert("body"@.len() != "address"@.len());
    reveal_strlit("figure"); assert("body"@.len() != "figure"@.len());
    reveal_strlit("figcaption"); assert("body"@.len() != "figcaption"@.len());
    reveal_strlit("details"); assert("body"@.len() != "details"@.len());
    reveal_strlit("summary"); assert("body"@.len() != "summary"@.len());
    reveal_strlit("h1"); assert("body"@.len() != "h1"@.len());
    reveal_strlit("h2"); assert("body"@.len() != "h2"@.len());
    reveal_strlit("h3"); assert("body"@.len() != "h3"@.len());
    reveal_strlit("h4"); assert("body"@.len() != "h4"@.len());
    reveal_strlit("h5"); assert("body"@.len() != "h5"@.len());
    reveal_strlit("h6"); assert("body"@.len() != "h6"@.len());
    reveal_strlit("html"); assert("body"@[0] != "html"@[0]);
    reveal_strlit("br"); assert("body"@.len() != "br"@.len());
    reveal_strlit("ul"); assert("body"@.len() != "ul"@.len());
    reveal_strlit("ol"); assert("body"@.len() != "ol"@.len());
    reveal_strlit("blockquote"); assert("body"@.len() != "blockquote"@.len());
    reveal_strlit("li"); assert("body"@.len() != "li"@.len());
    reveal_strlit("pre"); assert("body"@.len() != "pre"@.len());
    reveal_strlit("table"); assert("body"@.len() != "table"@.len());
    reveal_strlit("tr"); assert("body"@.len() != "tr"@.len());
    reveal_strlit("td"); assert("body"@.len() != "td"@.len());
    reveal_strlit("th"); assert("body"@.len() != "th"@.len());
    reveal_strlit("hr"); assert("body"@.len() != "hr"@.len());
    reveal_strlit("head"); assert("body"@[0] != "head"@[0]);
    reveal_strlit("script"); assert("body"@.len() != "script"@.len());
    reveal_strlit("style"); assert("body"@.len() != "style"@.len());
    reveal_strlit("meta"); assert("body"@[0] != "meta"@[0]);
    reveal_strlit("link"); assert("body"@[0] != "link"@[0]);
    reveal_strlit("title"); assert("body"@.len() != "title"@.len());
    reveal_strlit("noscript"); assert("body"@.len() != "noscript"@.len());
    reveal_strlit("a"); assert("body"@.len() != "a"@.len());
    reveal_strlit("strong"); assert("body"@.len() != "strong"@.len());
    reveal_strlit("b"); assert("body"@.len() != "b"@.len());
    reveal_strlit("em"); assert("body"@.len() != "em"@.len());
    reveal_strlit("i"); assert("body"@.len() != "i"@.len());
    reveal_strlit("code"); assert("body"@[0] != "code"@[0]);
    reveal_strlit("kbd"); assert("body"@.len() != "kbd"@.len());
    reveal_strlit("samp"); assert("body"@[0] != "samp"@[0]);
    reveal_strlit("tt"); assert("body"@.len() != "tt"@.len());
}

proof fn lemma_tag_defaults_br()
    ensures
        tag_keywords("br"@) == (KeywordStyleView { display: Display::Block, ..initial_keywords() }),
{
    reveal_strlit("br");
    reveal_strlit("div"); assert("br"@.len() != "div"@.len());
    reveal_strlit("p"); assert("br"@.len() != "p"@.len());
    reveal_strlit("section"); assert("br"@.len() != "section"@.len());
    reveal_strlit("article"); assert("br"@.len() != "article"@.len());
    reveal_strlit("main"); assert("br"@.len() != "main"@.len());
    reveal_strlit("header"); assert("br"@.len() != "header"@.len());
    reveal_strlit("footer"); assert("br"@.len() != "footer"@.len());
    reveal_strlit("nav"); assert("br"@.len() != "nav"@.len());
    reveal_strlit("aside"); assert("br"@.len() != "aside"@.len());
    reveal_strlit("form"); assert("br"@.len() != "form"@.len());
    reveal_strlit("fieldset"); assert("br"@.len() != "fieldset"@.len());
    reveal_strlit("address"); assert("br"@.len() != "address"@.len());
    reveal_strlit("figure"); assert("br"@.len() != "figure"@.len());
    reveal_strlit("figcaption"); assert("br"@.len() != "figcaption"@.len());
    reveal_strlit("details"); assert("br"@.len() != "details"@.len());
    reveal_strlit("summary"); assert("br"@.len() != "summary"@.len());
    reveal_strlit("h1"); assert("br"@[0] != "h1"@[0]);
    reveal_strlit("h2"); assert("br"@[0] != "h2"@[0]);
    reveal_strlit("h3"); assert("br"@[0] != "h3"@[0]);
    reveal_strlit("h4"); assert("br"@[0] != "h4"@[0]);
    reveal_strlit("h5"); assert("br"@[0] != "h5"@[0]);
    reveal_strlit("h6"); assert("br"@[0] != "h6"@[0]);
    reveal_strlit("html"); assert("br"@.len() != "html"@.len());
    reveal_strlit("body"); assert("br"@.len() != "body"@.len());
    reveal_strlit("ul"); assert("br"@[0] != "ul"@[0]);
    reveal_strlit("ol"); assert("br"@[0] != "ol"@[0]);
    reveal_strlit("blockquote"); assert("br"@.len() != "blockquote"@.len());
    reveal_strlit("li"); assert("br"@[0] != "li"@[0]);
    reveal_strlit("pre"); assert("br"@.len() != "pre"@.len());
    reveal_strlit("table"); assert("br"@.len() != "table"@.len());
    reveal_strlit("tr"); assert("br"@[0] != "tr"@[0]);
    reveal_strlit("td"); assert("br"@[0] != "td"@[0]);
    reveal_strlit("th"); assert("br"@[0] != "th"@[0]);
    reveal_strlit("hr"); assert("br"@[0] != "hr"@[0]);
    reveal_strlit("head"); assert("br"@.len() != "head"@.len());
    reveal_strlit("script"); assert("br"@.len() != "script"@.len());
    reveal_strlit("style"); assert("br"@.len() != "style"@.len());
    reveal_strlit("meta"); assert("br"@.len() != "meta"@.len());
    reveal_strlit("link"); assert("br"@.len() != "link"@.len());
    reveal_strlit("title"); assert("br"@.len() != "title"@.len());
    reveal_strlit("noscript"); assert("br"@.len() != "noscript"@.len());
    reveal_strlit("a"); assert("br"@.len() != "a"@.len());
    reveal_strlit("strong"); assert("br"@.len() != "strong"@.len());
    reveal_strlit("b"); assert("br"@.len() != "b"@.len());
    reveal_strlit("em"); assert("br"@[0] != "em"@[0]);
    reveal_strlit("i"); assert("br"@.len() != "i"@.len());
    reveal_strlit("code"); assert("br"@.len() != "code"@.len());
    reveal_strlit("kbd"); assert("br"@.len() != "kbd"@.len());
    reveal_strlit("samp"); assert("br"@.len() != "samp"@.len());
    reveal_strlit("tt"); assert("br"@[0] != "tt"@[0]);
}

proof fn lemma_tag_defaults_ul()
    ensures
        tag_keywords("ul"@) == (KeywordStyleView { display: Display::Block, ..initial_keywords() }),
{
    reveal_strlit("ul");
    reveal_strlit("div"); assert("ul"@.len() != "div"@.len());
    reveal_strlit("p"); assert("ul"@.len() != "p"@.len());
    reveal_strlit("section"); assert("ul"@.len() != "section"@.len());
    reveal_strlit("article"); assert("ul"@.len() != "article"@.len());
    reveal_strlit("main"); assert("ul"@.len() != "main"@.len());
    reveal_strlit("header"); assert("ul"@.len() != "header"@.len());
    reveal_strlit("footer"); assert("ul"@.len() != "footer"@.len());
    reveal_strlit("nav"); assert("ul"@.len() != "nav"@.len());
    reveal_strlit("aside"); assert("ul"@.len() != "aside"@.len());
    reveal_strlit("form"); assert("ul"@.len() != "form"@.len());
    reveal_strlit("fieldset"); assert("ul"@.len() != "fieldset"@.len());
    reveal_strlit("address"); assert("ul"@.len() != "address"@.len());
    reveal_strlit("figure"); assert("ul"@.len() != "figure"@.len());
    reveal_strlit("figcaption"); assert("ul"@.len() != "figcaption"@.len());
    reveal_strlit("details"); assert("ul"@.len() != "details"@.len());
    reveal_strlit("summary"); assert("ul"@.len() != "summary"@.len());
    reveal_strlit("h1"); assert("ul"@[0] != "h1"@[0]);
    reveal_strlit("h2"); assert("ul"@[0] != "h2"@[0]);
    reveal_strlit("h3"); assert("ul"@[0] != "h3"@[0]);
    reveal_strlit("h4"); assert("ul"@[0] != "h4"@[0]);
    reveal_strlit("h5"); assert("ul"@[0] != "h5"@[0]);
    reveal_strlit("h6"); assert("ul"@[0] != "h6"@[0]);
    reveal_strlit("html"); assert("ul"@.len() != "html"@.len());
    reveal_strlit("body"); assert("ul"@.len() != "body"@.len());
    reveal_strlit("br"); assert("ul"@[0] != "br"@[0]);
    reveal_strlit("ol"); assert("ul"@[0] != "ol"@[0]);
    reveal_strlit("blockquote"); assert("ul"@.len() != "blockquote"@.len());
    reveal_strlit("li"); assert("ul"@[0] != "li"@[0]);
    reveal_strlit("pre"); assert("ul"@.len() != "pre"@.len());
    reveal_strlit("table"); assert("ul"@.len() != "table"@.len());
    reveal_strlit("tr"); assert("ul"@[0] != "tr"@[0]);
    reveal_strlit("td"); assert("ul"@[0] != "td"@[0]);
    reveal_strlit("th"); assert("ul"@[0] != "th"@[0]);
    reveal_strlit("hr"); assert("ul"@[0] != "hr"@[0]);
    reveal_strlit("head"); assert("ul"@.len() != "head"@.len());
    reveal_strlit("script"); assert("ul"@.len() != "script"@.len());
    reveal_strlit("style"); assert("ul"@.len() != "style"@.len());
    reveal_strlit("meta"); assert("ul"@.len() != "meta"@.len());
    reveal_strlit("link"); assert("ul"@.len() != "link"@.len());
    reveal_strlit("title"); assert("ul"@.len() != "title"@.len());
    reveal_strlit("noscript"); assert("ul"@.len() != "noscript"@.len());
    reveal_strlit("a"); assert("ul"@.len() != "a"@.len());
    reveal_strlit("strong"); assert("ul"@.len() != "strong"@.len());
    reveal_strlit("b"); assert("ul"@.len() != "b"@.len());
    reveal_strlit("em"); assert("ul"@[0] != "em"@[0]);
    reveal_strlit("i"); assert("ul"@.len() != "i"@.len());
    reveal_strlit("code"); assert("ul"@.len() != "code"@.len());
    reveal_strlit("kbd"); assert("ul"@.len() != "kbd"@.len());
    reveal_strlit("samp"); assert("ul"@.len() != "samp"@.len());
    reveal_strlit("tt"); assert("ul"@[0] != "tt"@[0]);
}

proof fn lemma_tag_defaults_ol()
    ensures
        tag_keywords("ol"@) == (KeywordStyleView { display: Display::Block, ..initial_keywords() }),
{
    reveal_strlit("ol");
    reveal_strlit("div"); assert("ol"@.len() != "div"@.len());
    reveal_strlit("p"); assert("ol"@.len() != "p"@.len());
    reveal_strlit("section"); assert("ol"@.len() != "section"@.len());
    reveal_strlit("article"); assert("ol"@.len() != "article"@.len());
    reveal_strlit("main"); assert("ol"@.len() != "main"@.len());
    reveal_strlit("header"); assert("ol"@.len() != "header"@.len());
    reveal_strlit("footer"); assert("ol"@.len() != "footer"@.len());
    reveal_strlit("nav"); assert("ol"@.len() != "nav"@.len());
    reveal_strlit("aside"); assert("ol"@.len() != "aside"@.len());
    reveal_strlit("form"); assert("ol"@.len() != "form"@.len());
    reveal_strlit("fieldset"); assert("ol"@.len() != "fieldset"@.len());
    reveal_strlit("address"); assert("ol"@.len() != "address"@.len());
    reveal_strlit("figure"); assert("ol"@.len() != "figure"@.len());
    reveal_strlit("figcaption"); assert("ol"@.len() != "figcaption"@.len());
    reveal_strlit("details"); assert("ol"@.len() != "details"@.len());
    reveal_strlit("summary"); assert("ol"@.len() != "summary"@.len());
    reveal_strlit("h1"); assert("ol"@[0] != "h1"@[0]);
    reveal_strlit("h2"); assert("ol"@[0] != "h2"@[0]);
    reveal_strlit("h3"); assert("ol"@[0] != "h3"@[0]);
    reveal_strlit("h4"); assert("ol"@[0] != "h4"@[0]);
    reveal_strlit("h5"); assert("ol"@[0] != "h5"@[0]);
    reveal_strlit("h6"); assert("ol"@[0] != "h6"@[0]);
    reveal_strlit("html"); assert("ol"@.len() != "html"@.len());
    reveal_strlit("body"); assert("ol"@.len() != "body"@.len());
    reveal_strlit("br"); assert("ol"@[0] != "br"@[0]);
    reveal_strlit("ul"); assert("ol"@[0] != "ul"@[0]);
    reveal_strlit("blockquote"); assert("ol"@.len() != "blockquote"@.len());
    reveal_strlit("li"); assert("ol"@[0] != "li"@[0]);
    reveal_strlit("pre"); assert("ol"@.len() != "pre"@.len());
    reveal_strlit("table"); assert("ol"@.len() != "table"@.len());
    reveal_strlit("tr"); assert("ol"@[0] != "tr"@[0]);
    reveal_strlit("td"); assert("ol"@[0] != "td"@[0]);
    reveal_strlit("th"); assert("ol"@[0] != "th"@[0]);
    reveal_strlit("hr"); assert("ol"@[0] != "hr"@[0]);
    reveal_strlit("head"); assert("ol"@.len() != "head"@.len());
    reveal_strlit("script"); assert("ol"@.len() != "script"@.len());
    reveal_strlit("style"); assert("ol"@.len() != "style"@.len());
    reveal_strlit("meta"); assert("ol"@.len() != "meta"@.len());
    reveal_strlit("link"); assert("ol"@.len() != "link"@.len());
    reveal_strlit("title"); assert("ol"@.len() != "title"@.len());
    reveal_strlit("noscript"); assert("ol"@.len() != "noscript"@.len());
    reveal_strlit("a"); assert("ol"@.len() != "a"@.len());
    reveal_strlit("strong"); assert("ol"@.len() != "strong"@.len());
    reveal_strlit("b"); assert("ol"@.len() != "b"@.len());
    reveal_strlit("em"); assert("ol"@[0] != "em"@[0]);
    reveal_strlit("i"); assert("ol"@.len() != "i"@.len());
    reveal_strlit("code"); assert("ol"@.len() != "code"@.len());
    reveal_strlit("kbd"); assert("ol"@.len() != "kbd"@.len());
    reveal_strlit("samp"); assert("ol"@.len() != "samp"@.len());
    reveal_strlit("tt"); assert("ol"@[0] != "tt"@[0]);
}

proof fn lemma_tag_defaults_blockquote()
    ensures
        tag_keywords("blockquote"@) == (KeywordStyleView { display: Display::Block, ..initial_keywords() }),
{
    reveal_strlit("blockquote");
    reveal_strlit("div"); assert("blockquote"@.len() != "div"@.len());
    reveal_strlit("p"); assert("blockquote"@.len() != "p"@.len());
    reveal_strlit("section"); assert("blockquote"@.len() != "section"@.len());
    reveal_strlit("article"); assert("blockquote"@.len() != "article"@.len());
    reveal_strlit("main"); assert("blockquote"@.len() != "main"@.len());
    reveal_strlit("header"); assert("blockquote"@.len() != "header"@.len());
    reveal_strlit("footer"); assert("blockquote"@.len() != "footer"@.len());
    reveal_strlit("nav"); assert("blockquote"@.len() != "nav"@.len());
    reveal_strlit("aside"); assert("blockquote"@.len() != "aside"@.len());
    reveal_strlit("form"); assert("blockquote"@.len() != "form"@.len());
    reveal_strlit("fieldset"); assert("blockquote"@.len() != "fieldset"@.len());
    reveal_strlit("address"); assert("blockquote"@.len() != "address"@.len());
    reveal_strlit("figure"); assert("blockquote"@.len() != "figure"@.len());
    reveal_strlit("figcaption"); assert("blockquote"@[0] != "figcaption"@[0]);
    reveal_strlit("details"); assert("blockquote"@.len() != "details"@.len());
    reveal_strlit("summary"); assert("blockquote"@.len() != "summary"@.len());
    reveal_strlit("h1"); assert("blockquote"@.len() != "h1"@.len());
    reveal_strlit("h2"); assert("blockquote"@.len() != "h2"@.len());
    reveal_strlit("h3"); assert("blockquote"@.len() != "h3"@.len());
    reveal_strlit("h4"); assert("blockquote"@.len() != "h4"@.len());
    reveal_strlit("h5"); assert("blockquote"@.len() != "h5"@.len());
    reveal_strlit("h6"); assert("blockquote"@.len() != "h6"@.len());
    reveal_strlit("html"); assert("blockquote"@.len() != "html"@.len());
    reveal_strlit("body"); assert("blockquote"@.len() != "body"@.len());
    reveal_strlit("br"); assert("blockquote"@.len() != "br"@.len());
    reveal_strlit("ul"); assert("blockquote"@.len() != "ul"@.len());
    reveal_strlit("ol"); assert("blockquote"@.len() != "ol"@.len());
    reveal_strlit("li"); assert("blockquote"@.len() != "li"@.len());
    reveal_strlit("pre"); assert("blockquote"@.len() != "pre"@.len());
    reveal_strlit("table"); assert("blockquote"@.len() != "table"@.len());
    reveal_strlit("tr"); assert("blockquote"@.len() != "tr"@.len());
    reveal_strlit("td"); assert("blockquote"@.len() != "td"@.len());
    reveal_strlit("th"); assert("blockquote"@.len() != "th"@.len());
    reveal_strlit("hr"); assert("blockquote"@.len() != "hr"@.len());
    reveal_strlit("head"); assert("blockquote"@.len() != "head"@.len());
    reveal_strlit("script"); assert("blockquote"@.len() != "script"@.len());
    reveal_strlit("style"); assert("blockquote"@.len() != "style"@.len());
    reveal_strlit("meta"); assert("blockquote"@.len() != "meta"@.len());
    reveal_strlit("link"); assert("blockquote"@.len() != "link"@.len());
    reveal_strlit("title"); assert("blockquote"@.len() != "title"@.len());
    reveal_strlit("noscript"); assert("blockquote"@.len() != "noscript"@.len());
    reveal_strlit("a"); assert("blockquote"@.len() != "a"@.len());
    reveal_strlit("strong"); assert("blockquote"@.len() != "strong"@.len());
    reveal_strlit("b"); assert("blockquote"@.len() != "b"@.len());
    reveal_strlit("em"); assert("blockquote"@.len() != "em"@.len());
    reveal_strlit("i"); assert("blockquote"@.len() != "i"@.len());
    reveal_strlit("code"); assert("blockquote"@.len() != "code"@.len());
    reveal_strlit("kbd"); assert("blockquote"@.len() != "kbd"@.len());
    reveal_strlit("samp"); assert("blockquote"@.len() != "samp"@.len());
    reveal_strlit("tt"); assert("blockquote"@.len() != "tt"@.len());
}

proof fn lemma_tag_defaults_li()
    ensures
        tag_keywords("li"@) == (KeywordStyleView { display: Display::ListItem, ..initial_keywords() }),
{
    reveal_strlit("li");
    reveal_strlit("div"); assert("li"@.len() != "div"@.len());
    reveal_strlit("p"); assert("li"@.len() != "p"@.len());
    reveal_strlit("section"); assert("li"@.len() != "section"@.len());
    reveal_strlit("article"); assert("li"@.len() != "article"@.len());
    reveal_strlit("main"); assert("li"@.len() != "main"@.len());
    reveal_strlit("header"); assert("li"@.len() != "header"@.len());
    reveal_strlit("footer"); assert("li"@.len() != "footer"@.len());
    reveal_strlit("nav"); assert("li"@.len() != "nav"@.len());
    reveal_strlit("aside"); assert("li"@.len() != "aside"@.len());
    reveal_strlit("form"); assert("li"@.len() != "form"@.len());
    reveal_strlit("fieldset"); assert("li"@.len() != "fieldset"@.len());
    reveal_strlit("address"); assert("li"@.len() != "address"@.len());
    reveal_strlit("figure"); assert("li"@.len() != "figure"@.len());
    reveal_strlit("figcaption"); assert("li"@.len() != "figcaption"@.len());
    reveal_strlit("details"); assert("li"@.len() != "details"@.len());
    reveal_strlit("summary"); assert("li"@.len() != "summary"@.len());
    reveal_strlit("h1"); assert("li"@[0] != "h1"@[0]);
    reveal_strlit("h2"); assert("li"@[0] != "h2"@[0]);
    reveal_strlit("h3"); assert("li"@[0] != "h3"@[0]);
    reveal_strlit("h4"); assert("li"@[0] != "h4"@[0]);
    reveal_strlit("h5"); assert("li"@[0] != "h5"@[0]);
    reveal_strlit("h6"); assert("li"@[0] != "h6"@[0]);
    reveal_strlit("html"); assert("li"@.len() != "html"@.len());
    reveal_strlit("body"); assert("li"@.len() != "body"@.len());
    reveal_strlit("br"); assert("li"@[0] != "br"@[0]);
    reveal_strlit("ul"); assert("li"@[0] != "ul"@[0]);
    reveal_strlit("ol"); assert("li"@[0] != "ol"@[0]);
    reveal_strlit("blockquote"); assert("li"@.len() != "blockquote"@.len());
    reveal_strlit("pre"); assert("li"@.len() != "pre"@.len());
    reveal_strlit("table"); assert("li"@.len() != "table"@.len());
    reveal_strlit("tr"); assert("li"@[0] != "tr"@[0]);
    reveal_strlit("td"); assert("li"@[0] != "td"@[0]);
    reveal_strlit("th"); assert("li"@[0] != "th"@[0]);
    reveal_strlit("hr"); assert("li"@[0] != "hr"@[0]);
    reveal_strlit("head"); assert("li"@.len() != "head"@.len());
    reveal_strlit("script"); assert("li"@.len() != "script"@.len());
    reveal_strlit("style"); assert("li"@.len() != "style"@.len());
    reveal_strlit("meta"); assert("li"@.len() != "meta"@.len());
    reveal_strlit("link"); assert("li"@.len() != "link"@.len());
    reveal_strlit("title"); assert("li"@.len() != "title"@.len());
    reveal_strlit("noscript"); assert("li"@.len() != "noscript"@.len());
    reveal_strlit("a"); assert("li"@.len() != "a"@.len());
    reveal_strlit("strong"); assert("li"@.len() != "strong"@.len());
    reveal_strlit("b"); assert("li"@.len() != "b"@.len());
    reveal_strlit("em"); assert("li"@[0] != "em"@[0]);
    reveal_strlit("i"); assert("li"@.len() != "i"@.len());
    reveal_strlit("code"); assert("li"@.len() != "code"@.len());
    reveal_strlit("kbd"); assert("li"@.len() != "kbd"@.len());
    reveal_strlit("samp"); assert("li"@.len() != "samp"@.len());
    reveal_strlit("tt"); assert("li"@[0] != "tt"@[0]);
}

proof fn lemma_tag_defaults_pre()
    ensures
        tag_keywords("pre"@) == (KeywordStyleView { display: Display::Block, white_space: WhiteSpace::Pre, ..initial_keywords() }),
{
    reveal_strlit("pre");
    reveal_strlit("div"); assert("pre"@[0] != "div"@[0]);
    reveal_strlit("p"); assert("pre"@.len() != "p"@.len());
    reveal_strlit("section"); assert("pre"@.len() != "section"@.len());
    reveal_strlit("article"); assert("pre"@.len() != "article"@.len());
    reveal_strlit("main"); assert("pre"@.len() != "main"@.len());
    reveal_strlit("header"); assert("pre"@.len() != "header"@.len());
    reveal_strlit("footer"); assert("pre"@.len() != "footer"@.len());
    reveal_strlit("nav"); assert("pre"@[0] != "nav"@[0]);
    reveal_strlit("aside"); assert("pre"@.len() != "aside"@.len());
    reveal_strlit("form"); assert("pre"@.len() != "form"@.len());
    reveal_strlit("fieldset"); assert("pre"@.len() != "fieldset"@.len());
    reveal_strlit("address"); assert("pre"@.len() != "address"@.len());
    reveal_strlit("figure"); assert("pre"@.len() != "figure"@.len());
    reveal_strlit("figcaption"); assert("pre"@.len() != "figcaption"@.len());
    reveal_strlit("details"); assert("pre"@.len() != "details"@.len());
    reveal_strlit("summary"); assert("pre"@.len() != "summary"@.len());
    reveal_strlit("h1"); assert("pre"@.len() != "h1"@.len());
    reveal_strlit("h2"); assert("pre"@.len() != "h2"@.len());
    reveal_strlit("h3"); assert("pre"@.len() != "h3"@.len());
    reveal_strlit("h4"); assert("pre"@.len() != "h4"@.len());
    reveal_strlit("h5"); assert("pre"@.len() != "h5"@.len());
    reveal_strlit("h6"); assert("pre"@.len() != "h6"@.len());
    reveal_strlit("html"); assert("pre"@.len() != "html"@.len());
    reveal_strlit("body"); assert("pre"@.len() != "body"@.len());
    reveal_strlit("br"); assert("pre"@.len() != "br"@.len());
    reveal_strlit("ul"); assert("pre"@.len() != "ul"@.len());
    reveal_strlit("ol"); assert("pre"@.len() != "ol"@.len());
    reveal_strlit("blockquote"); assert("pre"@.len() != "blockquote"@.len());
    reveal_strlit("li"); assert("pre"@.len() != "li"@.len());
    reveal_strlit("table"); assert("pre"@.len() != "table"@.len());
    reveal_strlit("tr"); assert("pre"@.len() != "tr"@.len());
    reveal_strlit("td"); assert("pre"@.len() != "td"@.len());
    reveal_strlit("th"); assert("pre"@.len() != "th"@.len());
    reveal_strlit("hr"); assert("pre"@.len() != "hr"@.len());
    reveal_strlit("head"); assert("pre"@.len() != "head"@.len());
    reveal_strlit("script"); assert("pre"@.len() != "script"@.len());
    reveal_strlit("style"); assert("pre"@.len() != "style"@.len());
    reveal_strlit("meta"); assert("pre"@.len() != "meta"@.len());
    reveal_strlit("link"); assert("pre"@.len() != "link"@.len());
    reveal_strlit("title"); assert("pre"@.len() != "title"@.len());
    reveal_strlit("noscript"); assert("pre"@.len() != "noscript"@.len());
    reveal_strlit("a"); assert("pre"@.len() != "a"@.len());
    reveal_strlit("strong"); assert("pre"@.len() != "strong"@.len());
    reveal_strlit("b"); assert("pre"@.len() != "b"@.len());
    reveal_strlit("em"); assert("pre"@.len() != "em"@.len());
    reveal_strlit("i"); assert("pre"@.len() != "i"@.len());
    reveal_strlit("code"); assert("pre"@.len() != "code"@.len());
    reveal_strlit("kbd"); assert("pre"@[0] != "kbd"@[0]);
    reveal_strlit("samp"); assert("pre"@.len() != "samp"@.len());
    reveal_strlit("tt"); assert("pre"@.len() != "tt"@.len());
}

proof fn lemma_tag_defaults_table()
    ensures
        tag_keywords("table"@) == (KeywordStyleView { display: Display::Table, ..initial_keywords() }),
{
    reveal_strlit("table");
    reveal_strlit("div"); assert("table"@.len() != "div"@.len());
    reveal_strlit("p"); assert("table"@.len() != "p"@.len());
    reveal_strlit("section"); assert("table"@.len() != "section"@.len());
    reveal_strlit("article"); assert("table"@.len() != "article"@.len());
    reveal_strlit("main"); assert("table"@.len() != "main"@.len());
    reveal_strlit("header"); assert("table"@.len() != "header"@.len());
    reveal_strlit("footer"); assert("table"@.len() != "footer"@.len());
    reveal_strlit("nav"); assert("table"@.len() != "nav"@.len());
    reveal_strlit("aside"); assert("table"@[0] != "aside"@[0]);
    reveal_strlit("form"); assert("table"@.len() != "form"@.len());
    reveal_strlit("fieldset"); assert("table"@.len() != "fieldset"@.len());
    reveal_strlit("address"); assert("table"@.len() != "address"@.len());
    reveal_strlit("figure"); assert("table"@.len() != "figure"@.len());
    reveal_strlit("figcaption"); assert("table"@.len() != "figcaption"@.len());
    reveal_strlit("details"); assert("table"@.len() != "details"@.len());
    reveal_strlit("summary"); assert("table"@.len() != "summary"@.len());
    reveal_strlit("h1"); assert("table"@.len() != "h1"@.len());
    reveal_strlit("h2"); assert("table"@.len() != "h2"@.len());
    reveal_strlit("h3"); assert("table"@.len() != "h3"@.len());
    reveal_strlit("h4"); assert("table"@.len() != "h4"@.len());
    reveal_strlit("h5"); assert("table"@.len() != "h5"@.len());
    reveal_strlit("h6"); assert("table"@.len() != "h6"@.len());
    reveal_strlit("html"); assert("table"@.len() != "html"@.len());
    reveal_strlit("body"); assert("table"@.len() != "body"@.len());
    reveal_strlit("br"); assert("table"@.len() != "br"@.len());
    reveal_strlit("ul"); assert("table"@.len() != "ul"@.len());
    reveal_strlit("ol"); assert("table"@.len() != "ol"@.len());
    reveal_strlit("blockquote"); assert("table"@.len() != "blockquote"@.len());
    reveal_strlit("li"); assert("table"@.len() != "li"@.len());
    reveal_strlit("pre"); assert("table"@.len() != "pre"@.len());
    reveal_strlit("tr"); assert("table"@.len() != "tr"@.len());
    reveal_strlit("td"); assert("table"@.len() != "td"@.len());
    reveal_strlit("th"); assert("table"@.len() != "th"@.len());
    reveal_strlit("hr"); assert("table"@.len() != "hr"@.len());
    reveal_strlit("head"); assert("table"@.len() != "head"@.len());
    reveal_strlit("script"); assert("table"@.len() != "script"@.len());
    reveal_strlit("style"); assert("table"@[0] != "style"@[0]);
    reveal_strlit("meta"); assert("table"@.len() != "meta"@.len());
    reveal_strlit("link"); assert("table"@.len() != "link"@.len());
    reveal_strlit("title"); assert("table"@[1] != "title"@[1]);
    reveal_strlit("noscript"); assert("table"@.len() != "noscript"@.len());
    reveal_strlit("a"); assert("table"@.len() != "a"@.len());
    reveal_strlit("strong"); assert("table"@.len() != "strong"@.len());
    reveal_strlit("b"); assert("table"@.len() != "b"@.len());
    reveal_strlit("em"); assert("table"@.len() != "em"@.len());
    reveal_strlit("i"); assert("table"@.len() != "i"@.len());
    reveal_strlit("code"); assert("table"@.len() != "code"@.len());
    reveal_strlit("kbd"); assert("table"@.len() != "kbd"@.len());
    reveal_strlit("samp"); assert("table"@.len() != "samp"@.len());
    reveal_strlit("tt"); assert("table"@.len() != "tt"@.len());
}

proof fn lemma_tag_defaults_tr()
    ensures
        tag_keywords("tr"@) == (KeywordStyleView { display: Display::TableRow, ..initial_keywords() }),
{
    reveal_strlit("tr");
    reveal_strlit("div"); assert("tr"@.len() != "div"@.len());
    reveal_strlit("p"); assert("tr"@.len() != "p"@.len());
    reveal_strlit("section"); assert("tr"@.len() != "section"@.len());
    reveal_strlit("article"); assert("tr"@.len() != "article"@.len());
    reveal_strlit("main"); assert("tr"@.len() != "main"@.len());
    reveal_strlit("header"); assert("tr"@.len() != "header"@.len());
    reveal_strlit("footer"); assert("tr"@.len() != "footer"@.len());
    reveal_strlit("nav"); assert("tr"@.len() != "nav"@.len());
    reveal_strlit("aside"); assert("tr"@.len() != "aside"@.len());
    reveal_strlit("form"); assert("tr"@.len() != "form"@.len());
    reveal_strlit("fieldset"); assert("tr"@.len() != "fieldset"@.len());
    reveal_strlit("address"); assert("tr"@.len() != "address"@.len());
    reveal_strlit("figure"); assert("tr"@.len() != "figure"@.len());
    reveal_strlit("figcaption"); assert("tr"@.len() != "figcaption"@.len());
    reveal_strlit("details"); assert("tr"@.len() != "details"@.len());
    reveal_strlit("summary"); assert("tr"@.len() != "summary"@.len());
    reveal_strlit("h1"); assert("tr"@[0] != "h1"@[0]);
    reveal_strlit("h2"); assert("tr"@[0] != "h2"@[0]);
    reveal_strlit("h3"); assert("tr"@[0] != "h3"@[0]);
    reveal_strlit("h4"); assert("tr"@[0] != "h4"@[0]);
    reveal_strlit("h5"); assert("tr"@[0] != "h5"@[0]);
    reveal_strlit("h6"); assert("tr"@[0] != "h6"@[0]);
    reveal_strlit("html"); assert("tr"@.len() != "html"@.len());
    reveal_strlit("body"); assert("tr"@.len() != "body"@.len());
    reveal_strlit("br"); assert("tr"@[0] != "br"@[0]);
    reveal_strlit("ul"); assert("tr"@[0] != "ul"@[0]);
    reveal_strlit("ol"); assert("tr"@[0] != "ol"@[0]);
    reveal_strlit("blockquote"); assert("tr"@.len() != "blockquote"@.len());
    reveal_strlit("li"); assert("tr"@[0] != "li"@[0]);
    reveal_strlit("pre"); assert("tr"@.len() != "pre"@.len());
    reveal_strlit("table"); assert("tr"@.len() != "table"@.len());
    reveal_strlit("td"); assert("tr"@[1] != "td"@[1]);
    reveal_strlit("th"); assert("tr"@[1] != "th"@[1]);
    reveal_strlit("hr"); assert("tr"@[0] != "hr"@[0]);
    reveal_strlit("head"); assert("tr"@.len() != "head"@.len());
    reveal_strlit("script"); assert("tr"@.len() != "script"@.len());
    reveal_strlit("style"); assert("tr"@.len() != "style"@.len());
    reveal_strlit("meta"); assert("tr"@.len() != "meta"@.len());
    reveal_strlit("link"); assert("tr"@.len() != "link"@.len());
    reveal_strlit("title"); assert("tr"@.len() != "title"@.len());
    reveal_strlit("noscript"); assert("tr"@.len() != "noscript"@.len());
    reveal_strlit("a"); assert("tr"@.len() != "a"@.len());
    reveal_strlit("strong"); assert("tr"@.len() != "strong"@.len());
    reveal_strlit("b"); assert("tr"@.len() != "b"@.len());
    reveal_strlit("em"); assert("tr"@[0] != "em"@[0]);
    reveal_strlit("i"); assert("tr"@.len() != "i"@.len());
    reveal_strlit("code"); assert("tr"@.len() != "code"@.len());
    reveal_strlit("kbd"); assert("tr"@.len() != "kbd"@.len());
    reveal_strlit("samp"); assert("tr"@.len() != "samp"@.len());
    reveal_strlit("tt"); assert("tr"@[1] != "tt"@[1]);
}

proof fn lemma_tag_defaults_td()
    ensures
        tag_keywords("td"@) == (KeywordStyleView { display: Display::TableCell, ..initial_keywords() }),
{
    reveal_strlit("td");
    reveal_strlit("div"); assert("td"@.len() != "div"@.len());
    reveal_strlit("p"); assert("td"@.len() != "p"@.len());
    reveal_strlit("section"); assert("td"@.len() != "section"@.len());
    reveal_strlit("article"); assert("td"@.len() != "article"@.len());
    reveal_strlit("main"); assert("td"@.len() != "main"@.len());
    reveal_strlit("header"); assert("td"@.len() != "header"@.len());
    reveal_strlit("footer"); assert("td"@.len() != "footer"@.len());
    reveal_strlit("nav"); assert("td"@.len() != "nav"@.len());
    reveal_strlit("aside"); assert("td"@.len() != "aside"@.len());
    reveal_strlit("form"); assert("td"@.len() != "form"@.len());
    reveal_strlit("fieldset"); assert("td"@.len() != "fieldset"@.len());
    reveal_strlit("address"); assert("td"@.len() != "address"@.len());
    reveal_strlit("figure"); assert("td"@.len() != "figure"@.len());
    reveal_strlit("figcaption"); assert("td"@.len() != "figcaption"@.len());
    reveal_strlit("details"); assert("td"@.len() != "details"@.len());
    reveal_strlit("summary"); assert("td"@.len() != "summary"@.len());
    reveal_strlit("h1"); assert("td"@[0] != "h1"@[0]);
    reveal_strlit("h2"); assert("td"@[0] != "h2"@[0]);
    reveal_strlit("h3"); assert("td"@[0] != "h3"@[0]);
    reveal_strlit("h4"); assert("td"@[0] != "h4"@[0]);
    reveal_strlit("h5"); assert("td"@[0] != "h5"@[0]);
    reveal_strlit("h6"); assert("td"@[0] != "h6"@[0]);
    reveal_strlit("html"); assert("td"@.len() != "html"@.len());
    reveal_strlit("body"); assert("td"@.len() != "body"@.len());
    reveal_strlit("br"); assert("td"@[0] != "br"@[0]);
    reveal_strlit("ul"); assert("td"@[0] != "ul"@[0]);
    reveal_strlit("ol"); assert("td"@[0] != "ol"@[0]);
    reveal_strlit("blockquote"); assert("td"@.len() != "blockquote"@.len());
    reveal_strlit("li"); assert("td"@[0] != "li"@[0]);
    reveal_strlit("pre"); assert("td"@.len() != "pre"@.len());
    reveal_strlit("table"); assert("td"@.len() != "table"@.len());
    reveal_strlit("tr"); assert("td"@[1] != "tr"@[1]);
    reveal_strlit("th"); assert("td"@[1] != "th"@[1]);
    reveal_strlit("hr"); assert("td"@[0] != "hr"@[0]);
    reveal_strlit("head"); assert("td"@.len() != "head"@.len());
    reveal_strlit("script"); assert("td"@.len() != "script"@.len());
    reveal_strlit("style"); assert("td"@.len() != "style"@.len());
    reveal_strlit("meta"); assert("td"@.len() != "meta"@.len());
    reveal_strlit("link"); assert("td"@.len() != "link"@.len());
    reveal_strlit("title"); assert("td"@.len() != "title"@.len());
    reveal_strlit("noscript"); assert("td"@.len() != "noscript"@.len());
    reveal_strlit("a"); assert("td"@.len() != "a"@.len());
    reveal_strlit("strong"); assert("td"@.len() != "strong"@.len());
    reveal_strlit("b"); assert("td"@.len() != "b"@.len());
    reveal_strlit("em"); assert("td"@[0] != "em"@[0]);
    reveal_strlit("i"); assert("td"@.len() != "i"@.len());
    reveal_strlit("code"); assert("td"@.len() != "code"@.len());
    reveal_strlit("kbd"); assert("td"@.len() != "kbd"@.len());
    reveal_strlit("samp"); assert("td"@.len() != "samp"@.len());
    reveal_strlit("tt"); assert("td"@[1] != "tt"@[1]);
}

proof fn lemma_tag_defaults_th()
    ensures
        tag_keywords("th"@) == (KeywordStyleView { display: Display::TableCell, ..initial_keywords() }),
{
    reveal_strlit("th");
    reveal_strlit("div"); assert("th"@.len() != "div"@.len());
    reveal_strlit("p"); assert("th"@.len() != "p"@.len());
    reveal_strlit("section"); assert("th"@.len() != "section"@.len());
    reveal_strlit("article"); assert("th"@.len() != "article"@.len());
    reveal_strlit("main"); assert("th"@.len() != "main"@.len());
    reveal_strlit("header"); assert("th"@.len() != "header"@.len());
    reveal_strlit("footer"); assert("th"@.len() != "footer"@.len());
    reveal_strlit("nav"); assert("th"@.len() != "nav"@.len());
    reveal_strlit("aside"); assert("th"@.len() != "aside"@.len());
    reveal_strlit("form"); assert("th"@.len() != "form"@.len());
    reveal_strlit("fieldset"); assert("th"@.len() != "fieldset"@.len());
    reveal_strlit("address"); assert("th"@.len() != "address"@.len());
    reveal_strlit("figure"); assert("th"@.len() != "figure"@.len());
    reveal_strlit("figcaption"); assert("th"@.len() != "figcaption"@.len());
    reveal_strlit("details"); assert("th"@.len() != "details"@.len());
    reveal_strlit("summary"); assert("th"@.len() != "summary"@.len());
    reveal_strlit("h1"); assert("th"@[0] != "h1"@[0]);
    reveal_strlit("h2"); assert("th"@[0] != "h2"@[0]);
    reveal_strlit("h3"); assert("th"@[0] != "h3"@[0]);
    reveal_strlit("h4"); assert("th"@[0] != "h4"@[0]);
    reveal_strlit("h5"); assert("th"@[0] != "h5"@[0]);
    reveal_strlit("h6"); assert("th"@[0] != "h6"@[0]);
    reveal_strlit("html"); assert("th"@.len() != "html"@.len());
    reveal_strlit("body"); assert("th"@.len() != "body"@.len());
    reveal_strlit("br"); assert("th"@[0] != "br"@[0]);
    reveal_strlit("ul"); assert("th"@[0] != "ul"@[0]);
    reveal_strlit("ol"); assert("th"@[0] != "ol"@[0]);
    reveal_strlit("blockquote"); assert("th"@.len() != "blockquote"@.len());
    reveal_strlit("li"); assert("th"@[0] != "li"@[0]);
    reveal_strlit("pre"); assert("th"@.len() != "pre"@.len());
    reveal_strlit("table"); assert("th"@.len() != "table"@.len());
    reveal_strlit("tr"); assert("th"@[1] != "tr"@[1]);
    reveal_strlit("td"); assert("th"@[1] != "td"@[1]);
    reveal_strlit("hr"); assert("th"@[0] != "hr"@[0]);
    reveal_strlit("head"); assert("th"@.len() != "head"@.len());
    reveal_strlit("script"); assert("th"@.len() != "script"@.len());
    reveal_strlit("style"); assert("th"@.len() != "style"@.len());
    reveal_strlit("meta"); assert("th"@.len() != "meta"@.len());
    reveal_strlit("link"); assert("th"@.len() != "link"@.len());
    reveal_strlit("title"); assert("th"@.len() != "title"@.len());
    reveal_strlit("noscript"); assert("th"@.len() != "noscript"@.len());
    reveal_strlit("a"); assert("th"@.len() != "a"@.len());
    reveal_strlit("strong"); assert("th"@.len() != "strong"@.len());
    reveal_strlit("b"); assert("th"@.len() != "b"@.len());
    reveal_strlit("em"); assert("th"@[0] != "em"@[0]);
    reveal_strlit("i"); assert("th"@.len() != "i"@.len());
    reveal_strlit("code"); assert("th"@.len() != "code"@.len());
    reveal_strlit("kbd"); assert("th"@.len() != "kbd"@.len());
    reveal_strlit("samp"); assert("th"@.len() != "samp"@.len());
    reveal_strlit("tt"); assert("th"@[1] != "tt"@[1]);
}

proof fn lemma_tag_defaults_hr()
    ensures
        tag_keywords("hr"@) == (KeywordStyleView { display: Display::Block, border_style: BorderStyle::Solid, ..initial_keywords() }),
{
    reveal_strlit("hr");
    reveal_strlit("div"); assert("hr"@.len() != "div"@.len());
    reveal_strlit("p"); assert("hr"@.len() != "p"@.len());
    reveal_strlit("section"); assert("hr"@.len() != "section"@.len());
    reveal_strlit("article"); assert("hr"@.len() != "article"@.len());
    reveal_strlit("main"); assert("hr"@.len() != "main"@.len());
    reveal_strlit("header"); assert("hr"@.len() != "header"@.len());
    reveal_strlit("footer"); assert("hr"@.len() != "footer"@.len());
    reveal_strlit("nav"); assert("hr"@.len() != "nav"@.len());
    reveal_strlit("aside"); assert("hr"@.len() != "aside"@.len());
    reveal_strlit("form"); assert("hr"@.len() != "form"@.len());
    reveal_strlit("fieldset"); assert("hr"@.len() != "fieldset"@.len());
    reveal_strlit("address"); assert("hr"@.len() != "address"@.len());
    reveal_strlit("figure"); assert("hr"@.len() != "figure"@.len());
    reveal_strlit("figcaption"); assert("hr"@.len() != "figcaption"@.len());
    reveal_strlit("details"); assert("hr"@.len() != "details"@.len());
    reveal_strlit("summary"); assert("hr"@.len() != "summary"@.len());
    reveal_strlit("h1"); assert("hr"@[1] != "h1"@[1]);
    reveal_strlit("h2"); assert("hr"@[1] != "h2"@[1]);
    reveal_strlit("h3"); assert("hr"@[1] != "h3"@[1]);
    reveal_strlit("h4"); assert("hr"@[1] != "h4"@[1]);
    reveal_strlit("h5"); assert("hr"@[1] != "h5"@[1]);
    reveal_strlit("h6"); assert("hr"@[1] != "h6"@[1]);
    reveal_strlit("html"); assert("hr"@.len() != "html"@.len());
    reveal_strlit("body"); assert("hr"@.len() != "body"@.len());
    reveal_strlit("br"); assert("hr"@[0] != "br"@[0]);
    reveal_strlit("ul"); assert("hr"@[0] != "ul"@[0]);
    reveal_strlit("ol"); assert("hr"@[0] != "ol"@[0]);
    reveal_strlit("blockquote"); assert("hr"@.len() != "blockquote"@.len());
    reveal_strlit("li"); assert("hr"@[0] != "li"@[0]);
    reveal_strlit("pre"); assert("hr"@.len() != "pre"@.len());
    reveal_strlit("table"); assert("hr"@.len() != "table"@.len());
    reveal_strlit("tr"); assert("hr"@[0] != "tr"@[0]);
    reveal_strlit("td"); assert("hr"@[0] != "td"@[0]);
    reveal_strlit("th"); assert("hr"@[0] != "th"@[0]);
    reveal_strlit("head"); assert("hr"@.len() != "head"@.len());
    reveal_strlit("script"); assert("hr"@.len() != "script"@.len());
    reveal_strlit("style"); assert("hr"@.len() != "style"@.len());
    reveal_strlit("meta"); assert("hr"@.len() != "meta"@.len());
    reveal_strlit("link"); assert("hr"@.len() != "link"@.len());
    reveal_strlit("title"); assert("hr"@.len() != "title"@.len());
    reveal_strlit("noscript"); assert("hr"@.len() != "noscript"@.len());
    reveal_strlit("a"); assert("hr"@.len() != "a"@.len());
    reveal_strlit("strong"); assert("hr"@.len() != "strong"@.len());
    reveal_strlit("b"); assert("hr"@.len() != "b"@.len());
    reveal_strlit("em"); assert("hr"@[0] != "em"@[0]);
    reveal_strlit("i"); assert("hr"@.len() != "i"@.len());
    reveal_strlit("code"); assert("hr"@.len() != "code"@.len());
    reveal_strlit("kbd"); assert("hr"@.len() != "kbd"@.len());
    reveal_strlit("samp"); assert("hr"@.len() != "samp"@.len());
    reveal_strlit("tt"); assert("hr"@[0] != "tt"@[0]);
}

proof fn lemma_tag_defaults_head()
    ensures
        tag_keywords("head"@) == (KeywordStyleView { display: Display::NoDisplay, ..initial_keywords() }),
{
    reveal_strlit("head");
    reveal_strlit("div"); assert("head"@.len() != "div"@.len());
    reveal_strlit("p"); assert("head"@.len() != "p"@.len());
    reveal_strlit("section"); assert("head"@.len() != "section"@.len());
    reveal_strlit("article"); assert("head"@.len() != "article"@.len());
    reveal_strlit("main"); assert("head"@[0] != "main"@[0]);
    reveal_strlit("header"); assert("head"@.len() != "header"@.len());
    reveal_strlit("footer"); assert("head"@.len() != "footer"@.len());
    reveal_strlit("nav"); assert("head"@.len() != "nav"@.len());
    reveal_strlit("aside"); assert("head"@.len() != "aside"@.len());
    reveal_strlit("form"); assert("head"@[0] != "form"@[0]);
    reveal_strlit("fieldset"); assert("head"@.len() != "fieldset"@.len());
    reveal_strlit("address"); assert("head"@.len() != "address"@.len());
    reveal_strlit("figure"); assert("head"@.len() != "figure"@.len());
    reveal_strlit("figcaption"); assert("head"@.len() != "figcaption"@.len());
    reveal_strlit("details"); assert("head"@.len() != "details"@.len());
    reveal_strlit("summary"); assert("head"@.len() != "summary"@.len());
    reveal_strlit("h1"); assert("head"@.len() != "h1"@.len());
    reveal_strlit("h2"); assert("head"@.len() != "h2"@.len());
    reveal_strlit("h3"); assert("head"@.len() != "h3"@.len());
    reveal_strlit("h4"); assert("head"@.len() != "h4"@.len());
    reveal_strlit("h5"); assert("head"@.len() != "h5"@.len());
    reveal_strlit("h6"); assert("head"@.len() != "h6"@.len());
    reveal_strlit("html"); assert("head"@[1] != "html"@[1]);
    reveal_strlit("body"); assert("head"@[0] != "body"@[0]);
    reveal_strlit("br"); assert("head"@.len() != "br"@.len());
    reveal_strlit("ul"); assert("head"@.len() != "ul"@.len());
    reveal_strlit("ol"); assert("head"@.len() != "ol"@.len());
    reveal_strlit("blockquote"); assert("head"@.len() != "blockquote"@.len());
    reveal_strlit("li"); assert("head"@.len() != "li"@.len());
    reveal_strlit("pre"); assert("head"@.len() != "pre"@.len());
    reveal_strlit("table"); assert("head"@.len() != "table"@.len());
    reveal_strlit("tr"); assert("head"@.len() != "tr"@.len());
    reveal_strlit("td"); assert("head"@.len() != "td"@.len());
    reveal_strlit("th"); assert("head"@.len() != "th"@.len());
    reveal_strlit("hr"); assert("head"@.len() != "hr"@.len());
    reveal_strlit("script"); assert("head"@.len() != "script"@.len());
    reveal_strlit("style"); assert("head"@.len() != "style"@.len());
    reveal_strlit("meta"); assert("head"@[0] != "meta"@[0]);
    reveal_strlit("link"); assert("head"@[0] != "link"@[0]);
    reveal_strlit("title"); assert("head"@.len() != "title"@.len());
    reveal_strlit("noscript"); assert("head"@.len() != "noscript"@.len());
    reveal_strlit("a"); assert("head"@.len() != "a"@.len());
    reveal_strlit("strong"); assert("head"@.len() != "strong"@.len());
    reveal_strlit("b"); assert("head"@.len() != "b"@.len());
    reveal_strlit("em"); assert("head"@.len() != "em"@.len());
    reveal_strlit("i"); assert("head"@.len() != "i"@.len());
    reveal_strlit("code"); assert("head"@[0] != "code"@[0]);
    reveal_strlit("kbd"); assert("head"@.len() != "kbd"@.len());
    reveal_strlit("samp"); assert("head"@[0] != "samp"@[0]);
    reveal_strlit("tt"); assert("head"@.len() != "tt"@.len());
}

proof fn lemma_tag_defaults_script()
    ensures
        tag_keywords("script"@) == (KeywordStyleView { display: Display::NoDisplay, ..initial_keywords() }),
{
    reveal_strlit("script");
    reveal_strlit("div"); assert("script"@.len() != "div"@.len());
    reveal_strlit("p"); assert("script"@.len() != "p"@.len());
    reveal_strlit("section"); assert("script"@.len() != "section"@.len());
    reveal_strlit("article"); assert("script"@.len() != "article"@.len());
    reveal_strlit("main"); assert("script"@.len() != "main"@.len());
    reveal_strlit("header"); assert("script"@[0] != "header"@[0]);
    reveal_strlit("footer"); assert("script"@[0] != "footer"@[0]);
    reveal_strlit("nav"); assert("script"@.len() != "nav"@.len());
    reveal_strlit("aside"); assert("script"@.len() != "aside"@.len());
    reveal_strlit("form"); assert("script"@.len() != "form"@.len());
    reveal_strlit("fieldset"); assert("script"@.len() != "fieldset"@.len());
    reveal_strlit("address"); assert("script"@.len() != "address"@.len());
    reveal_strlit("figure"); assert("script"@[0] != "figure"@[0]);
    reveal_strlit("figcaption"); assert("script"@.len() != "figcaption"@.len());
    reveal_strlit("details"); assert("script"@.len() != "details"@.len());
    reveal_strlit("summary"); assert("script"@.len() != "summary"@.len());
    reveal_strlit("h1"); assert("script"@.len() != "h1"@.len());
    reveal_strlit("h2"); assert("script"@.len() != "h2"@.len());
    reveal_strlit("h3"); assert("script"@.len() != "h3"@.len());
    reveal_strlit("h4"); assert("script"@.len() != "h4"@.len());
    reveal_strlit("h5"); assert("script"@.len() != "h5"@.len());
    reveal_strlit("h6"); assert("script"@.len() != "h6"@.len());
    reveal_strlit("html"); assert("script"@.len() != "html"@.len());
    reveal_strlit("body"); assert("script"@.len() != "body"@.len());
    reveal_strlit("br"); assert("script"@.len() != "br"@.len());
    reveal_strlit("ul"); assert("script"@.len() != "ul"@.len());
    reveal_strlit("ol"); assert("script"@.len() != "ol"@.len());
    reveal_strlit("blockquote"); assert("script"@.len() != "blockquote"@.len());
    reveal_strlit("li"); assert("script"@.len() != "li"@.len());
    reveal_strlit("pre"); assert("script"@.len() != "pre"@.len());
    reveal_strlit("table"); assert("script"@.len() != "table"@.len());
    reveal_strlit("tr"); assert("script"@.len() != "tr"@.len());
    reveal_strlit("td"); assert("script"@.len() != "td"@.len());
    reveal_strlit("th"); assert("script"@.len() != "th"@.len());
    reveal_strlit("hr"); assert("script"@.len() != "hr"@.len());
    reveal_strlit("head"); assert("script"@.len() != "head"@.len());
    reveal_strlit("style"); assert("script"@.len() != "style"@.len());
    reveal_strlit("meta"); assert("script"@.len() != "meta"@.len());
    reveal_strlit("link"); assert("script"@.len() != "link"@.len());
    reveal_strlit("title"); assert("script"@.len() != "title"@.len());
    reveal_strlit("noscript"); assert("script"@.len() != "noscript"@.len());
    reveal_strlit("a"); assert("script"@.len() != "a"@.len());
    reveal_strlit("strong"); assert("script"@[1] != "strong"@[1]);
    reveal_strlit("b"); assert("script"@.len() != "b"@.len());
    reveal_strlit("em"); assert("script"@.len() != "em"@.len());
    reveal_strlit("i"); assert("script"@.len() != "i"@.len());
    reveal_strlit("code"); assert("script"@.len() != "code"@.len());
    reveal_strlit("kbd"); assert("script"@.len() != "kbd"@.len());
    reveal_strlit("samp"); assert("script"@.len() != "samp"@.len());
    reveal_strlit("tt"); assert("script"@.len() != "tt"@.len());
}

proof fn lemma_tag_defaults_style()
    ensures
        tag_keywords("style"@) == (KeywordStyleView { display: Display::NoDisplay, ..initial_keywords() }),
{
    reveal_strlit("style");
    reveal_strlit("div"); assert("style"@.len() != "div"@.len());
    reveal_strlit("p"); assert("style"@.len() != "p"@.len());
    reveal_strlit("section"); assert("style"@.len() != "section"@.len());
    reveal_strlit("article"); assert("style"@.len() != "article"@.len());
    reveal_strlit("main"); assert("style"@.len() != "main"@.len());
    reveal_strlit("header"); assert("style"@.len() != "header"@.len());
    reveal_strlit("footer"); assert("style"@.len() != "footer"@.len());
    reveal_strlit("nav"); assert("style"@.len() != "nav"@.len());
    reveal_strlit("aside"); assert("style"@[0] != "aside"@[0]);
    reveal_strlit("form"); assert("style"@.len() != "form"@.len());
    reveal_strlit("fieldset"); assert("style"@.len() != "fieldset"@.len());
    reveal_strlit("address"); assert("style"@.len() != "address"@.len());
    reveal_strlit("figure"); assert("style"@.len() != "figure"@.len());
    reveal_strlit("figcaption"); assert("style"@.len() != "figcaption"@.len());
    reveal_strlit("details"); assert("style"@.len() != "details"@.len());
    reveal_strlit("summary"); assert("style"@.len() != "summary"@.len());
    reveal_strlit("h1"); assert("style"@.len() != "h1"@.len());
    reveal_strlit("h2"); assert("style"@.len() != "h2"@.len());
    reveal_strlit("h3"); assert("style"@.len() != "h3"@.len());
    reveal_strlit("h4"); assert("style"@.len() != "h4"@.len());
    reveal_strlit("h5"); assert("style"@.len() != "h5"@.len());
    reveal_strlit("h6"); assert("style"@.len() != "h6"@.len());
    reveal_strlit("html"); assert("style"@.len() != "html"@.len());
    reveal_strlit("body"); assert("style"@.len() != "body"@.len());
    reveal_strlit("br"); assert("style"@.len() != "br"@.len());
    reveal_strlit("ul"); assert("style"@.len() != "ul"@.len());
    reveal_strlit("ol"); assert("style"@.len() != "ol"@.len());
    reveal_strlit("blockquote"); assert("style"@.len() != "blockquote"@.len());
    reveal_strlit("li"); assert("style"@.len() != "li"@.len());
    reveal_strlit("pre"); assert("style"@.len() != "pre"@.len());
    reveal_strlit("table"); assert("style"@[0] != "table"@[0]);
    reveal_strlit("tr"); assert("style"@.len() != "tr"@.len());
    reveal_strlit("td"); assert("style"@.len() != "td"@.len());
    reveal_strlit("th"); assert("style"@.len() != "th"@.len());
    reveal_strlit("hr"); assert("style"@.len() != "hr"@.len());
    reveal_strlit("head"); assert("style"@.len() != "head"@.len());
    reveal_strlit("script"); assert("style"@.len() != "script"@.len());
    reveal_strlit("meta"); assert("style"@.len() != "meta"@.len());
    reveal_strlit("link"); assert("style"@.len() != "link"@.len());
    reveal_strlit("title"); assert("style"@[0] != "title"@[0]);
    reveal_strlit("noscript"); assert("style"@.len() != "noscript"@.len());
    reveal_strlit("a"); assert("style"@.len() != "a"@.len());
    reveal_strlit("strong"); assert("style"@.len() != "strong"@.len());
    reveal_strlit("b"); assert("style"@.len() != "b"@.len());
    reveal_strlit("em"); assert("style"@.len() != "em"@.len());
    reveal_strlit("i"); assert("style"@.len() != "i"@.len());
    reveal_strlit("code"); assert("style"@.len() != "code"@.len());
    reveal_strlit("kbd"); assert("style"@.len() != "kbd"@.len());
    reveal_strlit("samp"); assert("style"@.len() != "samp"@.len());
    reveal_strlit("tt"); assert("style"@.len() != "tt"@.len());
}

proof fn lemma_tag_defaults_meta()
    ensures
        tag_keywords("meta"@) == (KeywordStyleView { display: Display::NoDisplay, ..initial_keywords() }),
{
    reveal_strlit("meta");
    reveal_strlit("div"); assert("meta"@.len() != "div"@.len());
    reveal_strlit("p"); assert("meta"@.len() != "p"@.len());
    reveal_strlit("section"); assert("meta"@.len() != "section"@.len());
    reveal_strlit("article"); assert("meta"@.len() != "article"@.len());
    reveal_strlit("main"); assert("meta"@[1] != "main"@[1]);
    reveal_strlit("header"); assert("meta"@.len() != "header"@.len());
    reveal_strlit("footer"); assert("meta"@.len() != "footer"@.len());
    reveal_strlit("nav"); assert("meta"@.len() != "nav"@.len());
    reveal_strlit("aside"); assert("meta"@.len() != "aside"@.len());
    reveal_strlit("form"); assert("meta"@[0] != "form"@[0]);
    reveal_strlit("fieldset"); assert("meta"@.len() != "fieldset"@.len());
    reveal_strlit("address"); assert("meta"@.len() != "address"@.len());
    reveal_strlit("figure"); assert("meta"@.len() != "figure"@.len());
    reveal_strlit("figcaption"); assert("meta"@.len() != "figcaption"@.len());
    reveal_strlit("details"); assert("meta"@.len() != "details"@.len());
    reveal_strlit("summary"); assert("meta"@.len() != "summary"@.len());
    reveal_strlit("h1"); assert("meta"@.len() != "h1"@.len());
    reveal_strlit("h2"); assert("meta"@.len() != "h2"@.len());
    reveal_strlit("h3"); assert("meta"@.len() != "h3"@.len());
    reveal_strlit("h4"); assert("meta"@.len() != "h4"@.len());
    reveal_strlit("h5"); assert("meta"@.len() != "h5"@.len());
    reveal_strlit("h6"); assert("meta"@.len() != "h6"@.len());
    reveal_strlit("html"); assert("meta"@[0] != "html"@[0]);
    reveal_strlit("body"); assert("meta"@[0] != "body"@[0]);
    reveal_strlit("br"); assert("meta"@.len() != "br"@.len());
    reveal_strlit("ul"); assert("meta"@.len() != "ul"@.len());
    reveal_strlit("ol"); assert("meta"@.len() != "ol"@.len());
    reveal_strlit("blockquote"); assert("meta"@.len() != "blockquote"@.len());
    reveal_strlit("li"); assert("meta"@.len() != "li"@.len());
    reveal_strlit("pre"); assert("meta"@.len() != "pre"@.len());
    reveal_strlit("table"); assert("meta"@.len() != "table"@.len());
    reveal_strlit("tr"); assert("meta"@.len() != "tr"@.len());
    reveal_strlit("td"); assert("meta"@.len() != "td"@.len());
    reveal_strlit("th"); assert("meta"@.len() != "th"@.len());
    reveal_strlit("hr"); assert("meta"@.len() != "hr"@.len());
    reveal_strlit("head"); assert("meta"@[0] != "head"@[0]);
    reveal_strlit("script"); assert("meta"@.len() != "script"@.len());
    reveal_strlit("style"); assert("meta"@.len() != "style"@.len());
    reveal_strlit("link"); assert("meta"@[0] != "link"@[0]);
    reveal_strlit("title"); assert("meta"@.len() != "title"@.len());
    reveal_strlit("noscript"); assert("meta"@.len() != "noscript"@.len());
    reveal_strlit("a"); assert("meta"@.len() != "a"@.len());
    reveal_strlit("strong"); assert("meta"@.len() != "strong"@.len());
    reveal_strlit("b"); assert("meta"@.len() != "b"@.len());
    reveal_strlit("em"); assert("meta"@.len() != "em"@.len());
    reveal_strlit("i"); assert("meta"@.len() != "i"@.len());
    reveal_strlit("code"); assert("meta"@[0] != "code"@[0]);
    reveal_strlit("kbd"); assert("meta"@.len() != "kbd"@.len());
    reveal_strlit("samp"); assert("meta"@[0] != "samp"@[0]);
    reveal_strlit("tt"); assert("meta"@.len() != "tt"@.len());
}

proof fn lemma_tag_defaults_link()
    ensures
        tag_keywords("link"@) == (KeywordStyleView { display: Display::NoDisplay, ..initial_keywords() }),
{
    reveal_strlit("link");
    reveal_strlit("div"); assert("link"@.len() != "div"@.len());
    reveal_strlit("p"); assert("link"@.len() != "p"@.len());
    reveal_strlit("section"); assert("link"@.len() != "section"@.len());
    reveal_strlit("article"); assert("link"@.len() != "article"@.len());
    reveal_strlit("main"); assert("link"@[0] != "main"@[0]);
    reveal_strlit("header"); assert("link"@.len() != "header"@.len());
    reveal_strlit("footer"); assert("link"@.len() != "footer"@.len());
    reveal_strlit("nav"); assert("link"@.len() != "nav"@.len());
    reveal_strlit("aside"); assert("link"@.len() != "aside"@.len());
    reveal_strlit("form"); assert("link"@[0] != "form"@[0]);
    reveal_strlit("fieldset"); assert("link"@.len() != "fieldset"@.len());
    reveal_strlit("address"); assert("link"@.len() != "address"@.len());
    reveal_strlit("figure"); assert("link"@.len() != "figure"@.len());
    reveal_strlit("figcaption"); assert("link"@.len() != "figcaption"@.len());
    reveal_strlit("details"); assert("link"@.len() != "details"@.len());
    reveal_strlit("summary"); assert("link"@.len() != "summary"@.len());
    reveal_strlit("h1"); assert("link"@.len() != "h1"@.len());
    reveal_strlit("h2"); assert("link"@.len() != "h2"@.len());
    reveal_strlit("h3"); assert("link"@.len() != "h3"@.len());
    reveal_strlit("h4"); assert("link"@.len() != "h4"@.len());
    reveal_strlit("h5"); assert("link"@.len() != "h5"@.len());
    reveal_strlit("h6"); assert("link"@.len() != "h6"@.len());
    reveal_strlit("html"); assert("link"@[0] != "html"@[0]);
    reveal_strlit("body"); assert("link"@[0] != "body"@[0]);
    reveal_strlit("br"); assert("link"@.len() != "br"@.len());
    reveal_strlit("ul"); assert("link"@.len() != "ul"@.len());
    reveal_strlit("ol"); assert("link"@.len() != "ol"@.len());
    reveal_strlit("blockquote"); assert("link"@.len() != "blockquote"@.len());
    reveal_strlit("li"); assert("link"@.len() != "li"@.len());
    reveal_strlit("pre"); assert("link"@.len() != "pre"@.len());
    reveal_strlit("table"); assert("link"@.len() != "table"@.len());
    reveal_strlit("tr"); assert("link"@.len() != "tr"@.len());
    reveal_strlit("td"); assert("link"@.len() != "td"@.len());
    reveal_strlit("th"); assert("link"@.len() != "th"@.len());
    reveal_strlit("hr"); assert("link"@.len() != "hr"@.len());
    reveal_strlit("head"); assert("link"@[0] != "head"@[0]);
    reveal_strlit("script"); assert("link"@.len() != "script"@.len());
    reveal_strlit("style"); assert("link"@.len() != "style"@.len());
    reveal_strlit("meta"); assert("link"@[0] != "meta"@[0]);
    reveal_strlit("title"); assert("link"@.len() != "title"@.len());
    reveal_strlit("noscript"); assert("link"@.len() != "noscript"@.len());
    reveal_strlit("a"); assert("link"@.len() != "a"@.len());
    reveal_strlit("strong"); assert("link"@.len() != "strong"@.len());
    reveal_strlit("b"); assert("link"@.len() != "b"@.len());
    reveal_strlit("em"); assert("link"@.len() != "em"@.len());
    reveal_strlit("i"); assert("link"@.len() != "i"@.len());
    reveal_strlit("code"); assert("link"@[0] != "code"@[0]);
    reveal_strlit("kbd"); assert("link"@.len() != "kbd"@.len());
    reveal_strlit("samp"); assert("link"@[0] != "samp"@[0]);
    reveal_strlit("tt"); assert("link"@.len() != "tt"@.len());
}

proof fn lemma_tag_defaults_title()
    ensures
        tag_keywords("title"@) == (KeywordStyleView { display: Display::NoDisplay, ..initial_keywords() }),
{
    reveal_strlit("title");
    reveal_strlit("div"); assert("title"@.len() != "div"@.len());
    reveal_strlit("p"); assert("title"@.len() != "p"@.len());
    reveal_strlit("section"); assert("title"@.len() != "section"@.len());
    reveal_strlit("article"); assert("title"@.len() != "article"@.len());
    reveal_strlit("main"); assert("title"@.len() != "main"@.len());
    reveal_strlit("header"); assert("title"@.len() != "header"@.len());
    reveal_strlit("footer"); assert("title"@.len() != "footer"@.len());
    reveal_strlit("nav"); assert("title"@.len() != "nav"@.len());
    reveal_strlit("aside"); assert("title"@[0] != "aside"@[0]);
    reveal_strlit("form"); assert("title"@.len() != "form"@.len());
    reveal_strlit("fieldset"); assert("title"@.len() != "fieldset"@.len());
    reveal_strlit("address"); assert("title"@.len() != "address"@.len());
    reveal_strlit("figure"); assert("title"@.len() != "figure"@.len());
    reveal_strlit("figcaption"); assert("title"@.len() != "figcaption"@.len());
    reveal_strlit("details"); assert("title"@.len() != "details"@.len());
    reveal_strlit("summary"); assert("title"@.len() != "summary"@.len());
    reveal_strlit("h1"); assert("title"@.len() != "h1"@.len());
    reveal_strlit("h2"); assert("title"@.len() != "h2"@.len());
    reveal_strlit("h3"); assert("title"@.len() != "h3"@.len());
    reveal_strlit("h4"); assert("title"@.len() != "h4"@.len());
    reveal_strlit("h5"); assert("title"@.len() != "h5"@.len());
    reveal_strlit("h6"); assert("title"@.len() != "h6"@.len());
    reveal_strlit("html"); assert("title"@.len() != "html"@.len());
    reveal_strlit("body"); assert("title"@.len() != "body"@.len());
    reveal_strlit("br"); assert("title"@.len() != "br"@.len());
    reveal_strlit("ul"); assert("title"@.len() != "ul"@.len());
    reveal_strlit("ol"); assert("title"@.len() != "ol"@.len());
    reveal_strlit("blockquote"); assert("title"@.len() != "blockquote"@.len());
    reveal_strlit("li"); assert("title"@.len() != "li"@.len());
    reveal_strlit("pre"); assert("title"@.len() != "pre"@.len());
    reveal_strlit("table"); assert("title"@[1] != "table"@[1]);
    reveal_strlit("tr"); assert("title"@.len() != "tr"@.len());
    reveal_strlit("td"); assert("title"@.len() != "td"@.len());
    reveal_strlit("th"); assert("title"@.len() != "th"@.len());
    reveal_strlit("hr"); assert("title"@.len() != "hr"@.len());
    reveal_strlit("head"); assert("title"@.len() != "head"@.len());
    reveal_strlit("script"); assert("title"@.len() != "script"@.len());
    reveal_strlit("style"); assert("title"@[0] != "style"@[0]);
    reveal_strlit("meta"); assert("title"@.len() != "meta"@.len());
    reveal_strlit("link"); assert("title"@.len() != "link"@.len());
    reveal_strlit("noscript"); assert("title"@.len() != "noscript"@.len());
    reveal_strlit("a"); assert("title"@.len() != "a"@.len());
    reveal_strlit("strong"); assert("title"@.len() != "strong"@.len());
    reveal_strlit("b"); assert("title"@.len() != "b"@.len());
    reveal_strlit("em"); assert("title"@.len() != "em"@.len());
    reveal_strlit("i"); assert("title"@.len() != "i"@.len());
    reveal_strlit("code"); assert("title"@.len() != "code"@.len());
    reveal_strlit("kbd"); assert("title"@.len() != "kbd"@.len());
    reveal_strlit("samp"); assert("title"@.len() != "samp"@.len());
    reveal_strlit("tt"); assert("title"@.len() != "tt"@.len());
}

proof fn lemma_tag_defaults_noscript()
    ensures
        tag_keywords("noscript"@) == (KeywordStyleView { display: Display::NoDisplay, ..initial_keywords() }),
{
    reveal_strlit("noscript");
    reveal_strlit("div"); assert("noscript"@.len() != "div"@.len());
    reveal_strlit("p"); assert("noscript"@.len() != "p"@.len());
    reveal_strlit("section"); assert("noscript"@.len() != "section"@.len());
    reveal_strlit("article"); assert("noscript"@.len() != "article"@.len());
    reveal_strlit("main"); assert("noscript"@.len() != "main"@.len());
    reveal_strlit("header"); assert("noscript"@.len() != "header"@.len());
    reveal_strlit("footer"); assert("noscript"@.len() != "footer"@.len());
    reveal_strlit("nav"); assert("noscript"@.len() != "nav"@.len());
    reveal_strlit("aside"); assert("noscript"@.len() != "aside"@.len());
    reveal_strlit("form"); assert("noscript"@.len() != "form"@.len());
    reveal_strlit("fieldset"); assert("noscript"@[0] != "fieldset"@[0]);
    reveal_strlit("address"); assert("noscript"@.len() != "address"@.len());
    reveal_strlit("figure"); assert("noscript"@.len() != "figure"@.len());
    reveal_strlit("figcaption"); assert("noscript"@.len() != "figcaption"@.len());
    reveal_strlit("details"); assert("noscript"@.len() != "details"@.len());
    reveal_strlit("summary"); assert("noscript"@.len() != "summary"@.len());
    reveal_strlit("h1"); assert("noscript"@.len() != "h1"@.len());
    reveal_strlit("h2"); assert("noscript"@.len() != "h2"@.len());
    reveal_strlit("h3"); assert("noscript"@.len() != "h3"@.len());
    reveal_strlit("h4"); assert("noscript"@.len() != "h4"@.len());
    reveal_strlit("h5"); assert("noscript"@.len() != "h5"@.len());
    reveal_strlit("h6"); assert("noscript"@.len() != "h6"@.len());
    reveal_strlit("html"); assert("noscript"@.len() != "html"@.len());
    reveal_strlit("body"); assert("noscript"@.len() != "body"@.len());
    reveal_strlit("br"); assert("noscript"@.len() != "br"@.len());
    reveal_strlit("ul"); assert("noscript"@.len() != "ul"@.len());
    reveal_strlit("ol"); assert("noscript"@.len() != "ol"@.len());
    reveal_strlit("blockquote"); assert("noscript"@.len() != "blockquote"@.len());
    reveal_strlit("li"); assert("noscript"@.len() != "li"@.len());
    reveal_strlit("pre"); assert("noscript"@.len() != "pre"@.len());
    reveal_strlit("table"); assert("noscript"@.len() != "table"@.len());
    reveal_strlit("tr"); assert("noscript"@.len() != "tr"@.len());
    reveal_strlit("td"); assert("noscript"@.len() != "td"@.len());
    reveal_strlit("th"); assert("noscript"@.len() != "th"@.len());
    reveal_strlit("hr"); assert("noscript"@.len() != "hr"@.len());
    reveal_strlit("head"); assert("noscript"@.len() != "head"@.len());
    reveal_strlit("script"); assert("noscript"@.len() != "script"@.len());
    reveal_strlit("style"); assert("noscript"@.len() != "style"@.len());
    reveal_strlit("meta"); assert("noscript"@.len() != "meta"@.len());
    reveal_strlit("link"); assert("noscript"@.len() != "link"@.len());
    reveal_strlit("title"); assert("noscript"@.len() != "title"@.len());
    reveal_strlit("a"); assert("noscript"@.len() != "a"@.len());
    reveal_strlit("strong"); assert("noscript"@.len() != "strong"@.len());
    reveal_strlit("b"); assert("noscript"@.len() != "b"@.len());
    reveal_strlit("em"); assert("noscript"@.len() != "em"@.len());
    reveal_strlit("i"); assert("noscript"@.len() != "i"@.len());
    reveal_strlit("code"); assert("noscript"@.len() != "code"@.len());
    reveal_strlit("kbd"); assert("noscript"@.len() != "kbd"@.len());
    reveal_strlit("samp"); assert("noscript"@.len() != "samp"@.len());
    reveal_strlit("tt"); assert("noscript"@.len() != "tt"@.len());
}

proof fn lemma_tag_defaults_a()
    ensures
        tag_keywords("a"@) == (KeywordStyleView { color: "#5e81ac"@, text_decoration: TextDecoration::Underline, cursor: Cursor::Pointer, ..initial_keywords() }),
{
    reveal_strlit("a");
    reveal_strlit("div"); assert("a"@.len() != "div"@.len());
    reveal_strlit("p"); assert("a"@[0] != "p"@[0]);
    reveal_strlit("section"); assert("a"@.len() != "section"@.len());
    reveal_strlit("article"); assert("a"@.len() != "article"@.len());
    reveal_strlit("main"); assert("a"@.len() != "main"@.len());
    reveal_strlit("header"); assert("a"@.len() != "header"@.len());
    reveal_strlit("footer"); assert("a"@.len() != "footer"@.len());
    reveal_strlit("nav"); assert("a"@.len() != "nav"@.len());
    reveal_strlit("aside"); assert("a"@.len() != "aside"@.len());
    reveal_strlit("form"); assert("a"@.len() != "form"@.len());
    reveal_strlit("fieldset"); assert("a"@.len() != "fieldset"@.len());
    reveal_strlit("address"); assert("a"@.len() != "address"@.len());
    reveal_strlit("figure"); assert("a"@.len() != "figure"@.len());
    reveal_strlit("figcaption"); assert("a"@.len() != "figcaption"@.len());
    reveal_strlit("details"); assert("a"@.len() != "details"@.len());
    reveal_strlit("summary"); assert("a"@.len() != "summary"@.len());
    reveal_strlit("h1"); assert("a"@.len() != "h1"@.len());
    reveal_strlit("h2"); assert("a"@.len() != "h2"@.len());
    reveal_strlit("h3"); assert("a"@.len() != "h3"@.len());
    reveal_strlit("h4"); assert("a"@.len() != "h4"@.len());
    reveal_strlit("h5"); assert("a"@.len() != "h5"@.len());
    reveal_strlit("h6"); assert("a"@.len() != "h6"@.len());
    reveal_strlit("html"); assert("a"@.len() != "html"@.len());
    reveal_strlit("body"); assert("a"@.len() != "body"@.len());
    reveal_strlit("br"); assert("a"@.len() != "br"@.len());
    reveal_strlit("ul"); assert("a"@.len() != "ul"@.len());
    reveal_strlit("ol"); assert("a"@.len() != "ol"@.len());
    reveal_strlit("blockquote"); assert("a"@.len() != "blockquote"@.len());
    reveal_strlit("li"); assert("a"@.len() != "li"@.len());
    reveal_strlit("pre"); assert("a"@.len() != "pre"@.len());
    reveal_strlit("table"); assert("a"@.len() != "table"@.len());
    reveal_strlit("tr"); assert("a"@.len() != "tr"@.len());
    reveal_strlit("td"); assert("a"@.len() != "td"@.len());
    reveal_strlit("th"); assert("a"@.len() != "th"@.len());
    reveal_strlit("hr"); assert("a"@.len() != "hr"@.len());
    reveal_strlit("head"); assert("a"@.len() != "head"@.len());
    reveal_strlit("script"); assert("a"@.len() != "script"@.len());
    reveal_strlit("style"); assert("a"@.len() != "style"@.len());
    reveal_strlit("meta"); assert("a"@.len() != "meta"@.len());
    reveal_strlit("link"); assert("a"@.len() != "link"@.len());
    reveal_strlit("title"); assert("a"@.len() != "title"@.len());
    reveal_strlit("noscript"); assert("a"@.len() != "noscript"@.len());
    reveal_strlit("strong"); assert("a"@.len() != "strong"@.len());
    reveal_strlit("b"); assert("a"@[0] != "b"@[0]);
    reveal_strlit("em"); assert("a"@.len() != "em"@.len());
    reveal_strlit("i"); assert("a"@[0] != "i"@[0]);
    reveal_strlit("code"); assert("a"@.len() != "code"@.len());
    reveal_strlit("kbd"); assert("a"@.len() != "kbd"@.len());
    reveal_strlit("samp"); assert("a"@.len() != "samp"@.len());
    reveal_strlit("tt"); assert("a"@.len() != "tt"@.len());
}

proof fn lemma_tag_defaults_strong()
    ensures
        tag_keywords("strong"@) == (KeywordStyleView { font_weight: FontWeight::Bold, ..initial_keywords() }),
{
    reveal_strlit("strong");
    reveal_strlit("div"); assert("strong"@.len() != "div"@.len());
    reveal_strlit("p"); assert("strong"@.len() != "p"@.len());
    reveal_strlit("section"); assert("strong"@.len() != "section"@.len());
    reveal_strlit("article"); assert("strong"@.len() != "article"@.len());
    reveal_strlit("main"); assert("strong"@.len() != "main"@.len());
    reveal_strlit("header"); assert("strong"@[0] != "header"@[0]);
    reveal_strlit("footer"); assert("strong"@[0] != "footer"@[0]);
    reveal_strlit("nav"); assert("strong"@.len() != "nav"@.len());
    reveal_strlit("aside"); assert("strong"@.len() != "aside"@.len());
    reveal_strlit("form"); assert("strong"@.len() != "form"@.len());
    reveal_strlit("fieldset"); assert("strong"@.len() != "fieldset"@.len());
    reveal_strlit("address"); assert("strong"@.len() != "address"@.len());
    reveal_strlit("figure"); assert("strong"@[0] != "figure"@[0]);
    reveal_strlit("figcaption"); assert("strong"@.len() != "figcaption"@.len());
    reveal_strlit("details"); assert("strong"@.len() != "details"@.len());
    reveal_strlit("summary"); assert("strong"@.len() != "summary"@.len());
    reveal_strlit("h1"); assert("strong"@.len() != "h1"@.len());
    reveal_strlit("h2"); assert("strong"@.len() != "h2"@.len());
    reveal_strlit("h3"); assert("strong"@.len() != "h3"@.len());
    reveal_strlit("h4"); assert("strong"@.len() != "h4"@.len());
    reveal_strlit("h5"); assert("strong"@.len() != "h5"@.len());
    reveal_strlit("h6"); assert("strong"@.len() != "h6"@.len());
    reveal_strlit("html"); assert("strong"@.len() != "html"@.len());
    reveal_strlit("body"); assert("strong"@.len() != "body"@.len());
    reveal_strlit("br"); assert("strong"@.len() != "br"@.len());
    reveal_strlit("ul"); assert("strong"@.len() != "ul"@.len());
    reveal_strlit("ol"); assert("strong"@.len() != "ol"@.len());
    reveal_strlit("blockquote"); assert("strong"@.len() != "blockquote"@.len());
    reveal_strlit("li"); assert("strong"@.len() != "li"@.len());
    reveal_strlit("pre"); assert("strong"@.len() != "pre"@.len());
    reveal_strlit("table"); assert("strong"@.len() != "table"@.len());
    reveal_strlit("tr"); assert("strong"@.len() != "tr"@.len());
    reveal_strlit("td"); assert("strong"@.len() != "td"@.len());
    reveal_strlit("th"); assert("strong"@.len() != "th"@.len());
    reveal_strlit("hr"); assert("strong"@.len() != "hr"@.len());
    reveal_strlit("head"); assert("strong"@.len() != "head"@.len());
    reveal_strlit("script"); assert("strong"@[1] != "script"@[1]);
    reveal_strlit("style"); assert("strong"@.len() != "style"@.len());
    reveal_strlit("meta"); assert("strong"@.len() != "meta"@.len());
    reveal_strlit("link"); assert("strong"@.len() != "link"@.len());
    reveal_strlit("title"); assert("strong"@.len() != "title"@.len());
    reveal_strlit("noscript"); assert("strong"@.len() != "noscript"@.len());
    reveal_strlit("a"); assert("strong"@.len() != "a"@.len());
    reveal_strlit("b"); assert("strong"@.len() != "b"@.len());
    reveal_strlit("em"); assert("strong"@.len() != "em"@.len());
    reveal_strlit("i"); assert("strong"@.len() != "i"@.len());
    reveal_strlit("code"); assert("strong"@.len() != "code"@.len());
    reveal_strlit("kbd"); assert("strong"@.len() != "kbd"@.len());
    reveal_strlit("samp"); assert("strong"@.len() != "samp"@.len());
    reveal_strlit("tt"); assert("strong"@.len() != "tt"@.len());
}

proof fn lemma_tag_defaults_b()
    ensures
        tag_keywords("b"@) == (KeywordStyleView { font_weight: FontWeight::Bold, ..initial_keywords() }),
{
    reveal_strlit("b");
    reveal_strlit("div"); assert("b"@.len() != "div"@.len());
    reveal_strlit("p"); assert("b"@[0] != "p"@[0]);
    reveal_strlit("section"); assert("b"@.len() != "section"@.len());
    reveal_strlit("article"); assert("b"@.len() != "article"@.len());
    reveal_strlit("main"); assert("b"@.len() != "main"@.len());
    reveal_strlit("header"); assert("b"@.len() != "header"@.len());
    reveal_strlit("footer"); assert("b"@.len() != "footer"@.len());
    reveal_strlit("nav"); assert("b"@.len() != "nav"@.len());
    reveal_strlit("aside"); assert("b"@.len() != "aside"@.len());
    reveal_strlit("form"); assert("b"@.len() != "form"@.len());
    reveal_strlit("fieldset"); assert("b"@.len() != "fieldset"@.len());
    reveal_strlit("address"); assert("b"@.len() != "address"@.len());
    reveal_strlit("figure"); assert("b"@.len() != "figure"@.len());
    reveal_strlit("figcaption"); assert("b"@.len() != "figcaption"@.len());
    reveal_strlit("details"); assert("b"@.len() != "details"@.len());
    reveal_strlit("summary"); assert("b"@.len() != "summary"@.len());
    reveal_strlit("h1"); assert("b"@.len() != "h1"@.len());
    reveal_strlit("h2"); assert("b"@.len() != "h2"@.len());
    reveal_strlit("h3"); assert("b"@.len() != "h3"@.len());
    reveal_strlit("h4"); assert("b"@.len() != "h4"@.len());
    reveal_strlit("h5"); assert("b"@.len() != "h5"@.len());
    reveal_strlit("h6"); assert("b"@.len() != "h6"@.len());
    reveal_strlit("html"); assert("b"@.len() != "html"@.len());
    reveal_strlit("body"); assert("b"@.len() != "body"@.len());
    reveal_strlit("br"); assert("b"@.len() != "br"@.len());
    reveal_strlit("ul"); assert("b"@.len() != "ul"@.len());
    reveal_strlit("ol"); assert("b"@.len() != "ol"@.len());
    reveal_strlit("blockquote"); assert("b"@.len() != "blockquote"@.len());
    reveal_strlit("li"); assert("b"@.len() != "li"@.len());
    reveal_strlit("pre"); assert("b"@.len() != "pre"@.len());
    reveal_strlit("table"); assert("b"@.len() != "table"@.len());
    reveal_strlit("tr"); assert("b"@.len() != "tr"@.len());
    reveal_strlit("td"); assert("b"@.len() != "td"@.len());
    reveal_strlit("th"); assert("b"@.len() != "th"@.len());
    reveal_strlit("hr"); assert("b"@.len() != "hr"@.len());
    reveal_strlit("head"); assert("b"@.len() != "head"@.len());
    reveal_strlit("script"); assert("b"@.len() != "script"@.len());
    reveal_strlit("style"); assert("b"@.len() != "style"@.len());
    reveal_strlit("meta"); assert("b"@.len() != "meta"@.len());
    reveal_strlit("link"); assert("b"@.len() != "link"@.len());
    reveal_strlit("title"); assert("b"@.len() != "title"@.len());
    reveal_strlit("noscript"); assert("b"@.len() != "noscript"@.len());
    reveal_strlit("a"); assert("b"@[0] != "a"@[0]);
    reveal_strlit("strong"); assert("b"@.len() != "strong"@.len());
    reveal_strlit("em"); assert("b"@.len() != "em"@.len());
    reveal_strlit("i"); assert("b"@[0] != "i"@[0]);
    reveal_strlit("code"); assert("b"@.len() != "code"@.len());
    reveal_strlit("kbd"); assert("b"@.len() != "kbd"@.len());
    reveal_strlit("samp"); assert("b"@.len() != "samp"@.len());
    reveal_strlit("tt"); assert("b"@.len() != "tt"@.len());
}

proof fn lemma_tag_defaults_em()
    ensures
        tag_keywords("em"@) == (KeywordStyleView { font_style: FontStyle::Italic, ..initial_keywords() }),
{
    reveal_strlit("em");
    reveal_strlit("div"); assert("em"@.len() != "div"@.len());
    reveal_strlit("p"); assert("em"@.len() != "p"@.len());
    reveal_strlit("section"); assert("em"@.len() != "section"@.len());
    reveal_strlit("article"); assert("em"@.len() != "article"@.len());
    reveal_strlit("main"); assert("em"@.len() != "main"@.len());
    reveal_strlit("header"); assert("em"@.len() != "header"@.len());
    reveal_strlit("footer"); assert("em"@.len() != "footer"@.len());
    reveal_strlit("nav"); assert("em"@.len() != "nav"@.len());
    reveal_strlit("aside"); assert("em"@.len() != "aside"@.len());
    reveal_strlit("form"); assert("em"@.len() != "form"@.len());
    reveal_strlit("fieldset"); assert("em"@.len() != "fieldset"@.len());
    reveal_strlit("address"); assert("em"@.len() != "address"@.len());
    reveal_strlit("figure"); assert("em"@.len() != "figure"@.len());
    reveal_strlit("figcaption"); assert("em"@.len() != "figcaption"@.len());
    reveal_strlit("details"); assert("em"@.len() != "details"@.len());
    reveal_strlit("summary"); assert("em"@.len() != "summary"@.len());
    reveal_strlit("h1"); assert("em"@[0] != "h1"@[0]);
    reveal_strlit("h2"); assert("em"@[0] != "h2"@[0]);
    reveal_strlit("h3"); assert("em"@[0] != "h3"@[0]);
    reveal_strlit("h4"); assert("em"@[0] != "h4"@[0]);
    reveal_strlit("h5"); assert("em"@[0] != "h5"@[0]);
    reveal_strlit("h6"); assert("em"@[0] != "h6"@[0]);
    reveal_strlit("html"); assert("em"@.len() != "html"@.len());
    reveal_strlit("body"); assert("em"@.len() != "body"@.len());
    reveal_strlit("br"); assert("em"@[0] != "br"@[0]);
    reveal_strlit("ul"); assert("em"@[0] != "ul"@[0]);
    reveal_strlit("ol"); assert("em"@[0] != "ol"@[0]);
    reveal_strlit("blockquote"); assert("em"@.len() != "blockquote"@.len());
    reveal_strlit("li"); assert("em"@[0] != "li"@[0]);
    reveal_strlit("pre"); assert("em"@.len() != "pre"@.len());
    reveal_strlit("table"); assert("em"@.len() != "table"@.len());
    reveal_strlit("tr"); assert("em"@[0] != "tr"@[0]);
    reveal_strlit("td"); assert("em"@[0] != "td"@[0]);
    reveal_strlit("th"); assert("em"@[0] != "th"@[0]);
    reveal_strlit("hr"); assert("em"@[0] != "hr"@[0]);
    reveal_strlit("head"); assert("em"@.len() != "head"@.len());
    reveal_strlit("script"); assert("em"@.len() != "script"@.len());
    reveal_strlit("style"); assert("em"@.len() != "style"@.len());
    reveal_strlit("meta"); assert("em"@.len() != "meta"@.len());
    reveal_strlit("link"); assert("em"@.len() != "link"@.len());
    reveal_strlit("title"); assert("em"@.len() != "title"@.len());
    reveal_strlit("noscript"); assert("em"@.len() != "noscript"@.len());
    reveal_strlit("a"); assert("em"@.len() != "a"@.len());
    reveal_strlit("strong"); assert("em"@.len() != "strong"@.len());
    reveal_strlit("b"); assert("em"@.len() != "b"@.len());
    reveal_strlit("i"); assert("em"@.len() != "i"@.len());
    reveal_strlit("code"); assert("em"@.len() != "code"@.len());
    reveal_strlit("kbd"); assert("em"@.len() != "kbd"@.len());
    reveal_strlit("samp"); assert("em"@.len() != "samp"@.len());
    reveal_strlit("tt"); assert("em"@[0] != "tt"@[0]);
}

proof fn lemma_tag_defaults_i()
    ensures
        tag_keywords("i"@) == (KeywordStyleView { font_style: FontStyle::Italic, ..initial_keywords() }),
{
    reveal_strlit("i");
    reveal_strlit("div"); assert("i"@.len() != "div"@.len());
    reveal_strlit("p"); assert("i"@[0] != "p"@[0]);
    reveal_strlit("section"); assert("i"@.len() != "section"@.len());
    reveal_strlit("article"); assert("i"@.len() != "article"@.len());
    reveal_strlit("main"); assert("i"@.len() != "main"@.len());
    reveal_strlit("header"); assert("i"@.len() != "header"@.len());
    reveal_strlit("footer"); assert("i"@.len() != "footer"@.len());
    reveal_strlit("nav"); assert("i"@.len() != "nav"@.len());
    reveal_strlit("aside"); assert("i"@.len() != "aside"@.len());
    reveal_strlit("form"); assert("i"@.len() != "form"@.len());
    reveal_strlit("fieldset"); assert("i"@.len() != "fieldset"@.len());
    reveal_strlit("address"); assert("i"@.len() != "address"@.len());
    reveal_strlit("figure"); assert("i"@.len() != "figure"@.len());
    reveal_strlit("figcaption"); assert("i"@.len() != "figcaption"@.len());
    reveal_strlit("details"); assert("i"@.len() != "details"@.len());
    reveal_strlit("summary"); assert("i"@.len() != "summary"@.len());
    reveal_strlit("h1"); assert("i"@.len() != "h1"@.len());
    reveal_strlit("h2"); assert("i"@.len() != "h2"@.len());
    reveal_strlit("h3"); assert("i"@.len() != "h3"@.len());
    reveal_strlit("h4"); assert("i"@.len() != "h4"@.len());
    reveal_strlit("h5"); assert("i"@.len() != "h5"@.len());
    reveal_strlit("h6"); assert("i"@.len() != "h6"@.len());
    reveal_strlit("html"); assert("i"@.len() != "html"@.len());
    reveal_strlit("body"); assert("i"@.len() != "body"@.len());
    reveal_strlit("br"); assert("i"@.len() != "br"@.len());
    reveal_strlit("ul"); assert("i"@.len() != "ul"@.len());
    reveal_strlit("ol"); assert("i"@.len() != "ol"@.len());
    reveal_strlit("blockquote"); assert("i"@.len() != "blockquote"@.len());
    reveal_strlit("li"); assert("i"@.len() != "li"@.len());
    reveal_strlit("pre"); assert("i"@.len() != "pre"@.len());
    reveal_strlit("table"); assert("i"@.len() != "table"@.len());
    reveal_strlit("tr"); assert("i"@.len() != "tr"@.len());
    reveal_strlit("td"); assert("i"@.len() != "td"@.len());
    reveal_strlit("th"); assert("i"@.len() != "th"@.len());
    reveal_strlit("hr"); assert("i"@.len() != "hr"@.len());
    reveal_strlit("head"); assert("i"@.len() != "head"@.len());
    reveal_strlit("script"); assert("i"@.len() != "script"@.len());
    reveal_strlit("style"); assert("i"@.len() != "style"@.len());
    reveal_strlit("meta"); assert("i"@.len() != "meta"@.len());
    reveal_strlit("link"); assert("i"@.len() != "link"@.len());
    reveal_strlit("title"); assert("i"@.len() != "title"@.len());
    reveal_strlit("noscript"); assert("i"@.len() != "noscript"@.len());
    reveal_strlit("a"); assert("i"@[0] != "a"@[0]);
    reveal_strlit("strong"); assert("i"@.len() != "strong"@.len());
    reveal_strlit("b"); assert("i"@[0] != "b"@[0]);
    reveal_strlit("em"); assert("i"@.len() != "em"@.len());
    reveal_strlit("code"); assert("i"@.len() != "code"@.len());
    reveal_strlit("kbd"); assert("i"@.len() != "kbd"@.len());
    reveal_strlit("samp"); assert("i"@.len() != "samp"@.len());
    reveal_strlit("tt"); assert("i"@.len() != "tt"@.len());
}

proof fn lemma_tag_defaults_code()
    ensures
        tag_keywords("code"@) == (KeywordStyleView { white_space: WhiteSpace::PreWrap, ..initial_keywords() }),
{
    reveal_strlit("code");
    reveal_strlit("div"); assert("code"@.len() != "div"@.len());
    reveal_strlit("p"); assert("code"@.len() != "p"@.len());
    reveal_strlit("section"); assert("code"@.len() != "section"@.len());
    reveal_strlit("article"); assert("code"@.len() != "article"@.len());
    reveal_strlit("main"); assert("code"@[0] != "main"@[0]);
    reveal_strlit("header"); assert("code"@.len() != "header"@.len());
    reveal_strlit("footer"); assert("code"@.len() != "footer"@.len());
    reveal_strlit("nav"); assert("code"@.len() != "nav"@.len());
    reveal_strlit("aside"); assert("code"@.len() != "aside"@.len());
    reveal_strlit("form"); assert("code"@[0] != "form"@[0]);
    reveal_strlit("fieldset"); assert("code"@.len() != "fieldset"@.len());
    reveal_strlit("address"); assert("code"@.len() != "address"@.len());
    reveal_strlit("figure"); assert("code"@.len() != "figure"@.len());
    reveal_strlit("figcaption"); assert("code"@.len() != "figcaption"@.len());
    reveal_strlit("details"); assert("code"@.len() != "details"@.len());
    reveal_strlit("summary"); assert("code"@.len() != "summary"@.len());
    reveal_strlit("h1"); assert("code"@.len() != "h1"@.len());
    reveal_strlit("h2"); assert("code"@.len() != "h2"@.len());
    reveal_strlit("h3"); assert("code"@.len() != "h3"@.len());
    reveal_strlit("h4"); assert("code"@.len() != "h4"@.len());
    reveal_strlit("h5"); assert("code"@.len() != "h5"@.len());
    reveal_strlit("h6"); assert("code"@.len() != "h6"@.len());
    reveal_strlit("html"); assert("code"@[0] != "html"@[0]);
    reveal_strlit("body"); assert("code"@[0] != "body"@[0]);
    reveal_strlit("br"); assert("code"@.len() != "br"@.len());
    reveal_strlit("ul"); assert("code"@.len() != "ul"@.len());
    reveal_strlit("ol"); assert("code"@.len() != "ol"@.len());
    reveal_strlit("blockquote"); assert("code"@.len() != "blockquote"@.len());
    reveal_strlit("li"); assert("code"@.len() != "li"@.len());
    reveal_strlit("pre"); assert("code"@.len() != "pre"@.len());
    reveal_strlit("table"); assert("code"@.len() != "table"@.len());
    reveal_strlit("tr"); assert("code"@.len() != "tr"@.len());
    reveal_strlit("td"); assert("code"@.len() != "td"@.len());
    reveal_strlit("th"); assert("code"@.len() != "th"@.len());
    reveal_strlit("hr"); assert("code"@.len() != "hr"@.len());
    reveal_strlit("head"); assert("code"@[0] != "head"@[0]);
    reveal_strlit("script"); assert("code"@.len() != "script"@.len());
    reveal_strlit("style"); assert("code"@.len() != "style"@.len());
    reveal_strlit("meta"); assert("code"@[0] != "meta"@[0]);
    reveal_strlit("link"); assert("code"@[0] != "link"@[0]);
    reveal_strlit("title"); assert("code"@.len() != "title"@.len());
    reveal_strlit("noscript"); assert("code"@.len() != "noscript"@.len());
    reveal_strlit("a"); assert("code"@.len() != "a"@.len());
    reveal_strlit("strong"); assert("code"@.len() != "strong"@.len());
    reveal_strlit("b"); assert("code"@.len() != "b"@.len());
    reveal_strlit("em"); assert("code"@.len() != "em"@.len());
    reveal_strlit("i"); assert("code"@.len() != "i"@.len());
    reveal_strlit("kbd"); assert("code"@.len() != "kbd"@.len());
    reveal_strlit("samp"); assert("code"@[0] != "samp"@[0]);
    reveal_strlit("tt"); assert("code"@.len() != "tt"@.len());
}

proof fn lemma_tag_defaults_kbd()
    ensures
        tag_keywords("kbd"@) == (KeywordStyleView { white_space: WhiteSpace::PreWrap, ..initial_keywords() }),
{
    reveal_strlit("kbd");
    reveal_strlit("div"); assert("kbd"@[0] != "div"@[0]);
    reveal_strlit("p"); assert("kbd"@.len() != "p"@.len());
    reveal_strlit("section"); assert("kbd"@.len() != "section"@.len());
    reveal_strlit("article"); assert("kbd"@.len() != "article"@.len());
    reveal_strlit("main"); assert("kbd"@.len() != "main"@.len());
    reveal_strlit("header"); assert("kbd"@.len() != "header"@.len());
    reveal_strlit("footer"); assert("kbd"@.len() != "footer"@.len());
    reveal_strlit("nav"); assert("kbd"@[0] != "nav"@[0]);
    reveal_strlit("aside"); assert("kbd"@.len() != "aside"@.len());
    reveal_strlit("form"); assert("kbd"@.len() != "form"@.len());
    reveal_strlit("fieldset"); assert("kbd"@.len() != "fieldset"@.len());
    reveal_strlit("address"); assert("kbd"@.len() != "address"@.len());
    reveal_strlit("figure"); assert("kbd"@.len() != "figure"@.len());
    reveal_strlit("figcaption"); assert("kbd"@.len() != "figcaption"@.len());
    reveal_strlit("details"); assert("kbd"@.len() != "details"@.len());
    reveal_strlit("summary"); assert("kbd"@.len() != "summary"@.len());
    reveal_strlit("h1"); assert("kbd"@.len() != "h1"@.len());
    reveal_strlit("h2"); assert("kbd"@.len() != "h2"@.len());
    reveal_strlit("h3"); assert("kbd"@.len() != "h3"@.len());
    reveal_strlit("h4"); assert("kbd"@.len() != "h4"@.len());
    reveal_strlit("h5"); assert("kbd"@.len() != "h5"@.len());
    reveal_strlit("h6"); assert("kbd"@.len() != "h6"@.len());
    reveal_strlit("html"); assert("kbd"@.len() != "html"@.len());
    reveal_strlit("body"); assert("kbd"@.len() != "body"@.len());
    reveal_strlit("br"); assert("kbd"@.len() != "br"@.len());
    reveal_strlit("ul"); assert("kbd"@.len() != "ul"@.len());
    reveal_strlit("ol"); assert("kbd"@.len() != "ol"@.len());
    reveal_strlit("blockquote"); assert("kbd"@.len() != "blockquote"@.len());
    reveal_strlit("li"); assert("kbd"@.len() != "li"@.len());
    reveal_strlit("pre"); assert("kbd"@[0] != "pre"@[0]);
    reveal_strlit("table"); assert("kbd"@.len() != "table"@.len());
    reveal_strlit("tr"); assert("kbd"@.len() != "tr"@.len());
    reveal_strlit("td"); assert("kbd"@.len() != "td"@.len());
    reveal_strlit("th"); assert("kbd"@.len() != "th"@.len());
    reveal_strlit("hr"); assert("kbd"@.len() != "hr"@.len());
    reveal_strlit("head"); assert("kbd"@.len() != "head"@.len());
    reveal_strlit("script"); assert("kbd"@.len() != "script"@.len());
    reveal_strlit("style"); assert("kbd"@.len() != "style"@.len());
    reveal_strlit("meta"); assert("kbd"@.len() != "meta"@.len());
    reveal_strlit("link"); assert("kbd"@.len() != "link"@.len());
    reveal_strlit("title"); assert("kbd"@.len() != "title"@.len());
    reveal_strlit("noscript"); assert("kbd"@.len() != "noscript"@.len());
    reveal_strlit("a"); assert("kbd"@.len() != "a"@.len());
    reveal_strlit("strong"); assert("kbd"@.len() != "strong"@.len());
    reveal_strlit("b"); assert("kbd"@.len() != "b"@.len());
    reveal_strlit("em"); assert("kbd"@.len() != "em"@.len());
    reveal_strlit("i"); assert("kbd"@.len() != "i"@.len());
    reveal_strlit("code"); assert("kbd"@.len() != "code"@.len());
    reveal_strlit("samp"); assert("kbd"@.len() != "samp"@.len());
    reveal_strlit("tt"); assert("kbd"@.len() != "tt"@.len());
}

proof fn lemma_tag_defaults_samp()
    ensures
        tag_keywords("samp"@) == (KeywordStyleView { white_space: WhiteSpace::PreWrap, ..initial_keywords() }),
{
    reveal_strlit("samp");
    reveal_strlit("div"); assert("samp"@.len() != "div"@.len());
    reveal_strlit("p"); assert("samp"@.len() != "p"@.len());
    reveal_strlit("section"); assert("samp"@.len() != "section"@.len());
    reveal_strlit("article"); assert("samp"@.len() != "article"@.len());
    reveal_strlit("main"); assert("samp"@[0] != "main"@[0]);
    reveal_strlit("header"); assert("samp"@.len() != "header"@.len());
    reveal_strlit("footer"); assert("samp"@.len() != "footer"@.len());
    reveal_strlit("nav"); assert("samp"@.len() != "nav"@.len());
    reveal_strlit("aside"); assert("samp"@.len() != "aside"@.len());
    reveal_strlit("form"); assert("samp"@[0] != "form"@[0]);
    reveal_strlit("fieldset"); assert("samp"@.len() != "fieldset"@.len());
    reveal_strlit("address"); assert("samp"@.len() != "address"@.len());
    reveal_strlit("figure"); assert("samp"@.len() != "figure"@.len());
    reveal_strlit("figcaption"); assert("samp"@.len() != "figcaption"@.len());
    reveal_strlit("details"); assert("samp"@.len() != "details"@.len());
    reveal_strlit("summary"); assert("samp"@.len() != "summary"@.len());
    reveal_strlit("h1"); assert("samp"@.len() != "h1"@.len());
    reveal_strlit("h2"); assert("samp"@.len() != "h2"@.len());
    reveal_strlit("h3"); assert("samp"@.len() != "h3"@.len());
    reveal_strlit("h4"); assert("samp"@.len() != "h4"@.len());
    reveal_strlit("h5"); assert("samp"@.len() != "h5"@.len());
    reveal_strlit("h6"); assert("samp"@.len() != "h6"@.len());
    reveal_strlit("html"); assert("samp"@[0] != "html"@[0]);
    reveal_strlit("body"); assert("samp"@[0] != "body"@[0]);
    reveal_strlit("br"); assert("samp"@.len() != "br"@.len());
    reveal_strlit("ul"); assert("samp"@.len() != "ul"@.len());
    reveal_strlit("ol"); assert("samp"@.len() != "ol"@.len());
    reveal_strlit("blockquote"); assert("samp"@.len() != "blockquote"@.len());
    reveal_strlit("li"); assert("samp"@.len() != "li"@.len());
    reveal_strlit("pre"); assert("samp"@.len() != "pre"@.len());
    reveal_strlit("table"); assert("samp"@.len() != "table"@.len());
    reveal_strlit("tr"); assert("samp"@.len() != "tr"@.len());
    reveal_strlit("td"); assert("samp"@.len() != "td"@.len());
    reveal_strlit("th"); assert("samp"@.len() != "th"@.len());
    reveal_strlit("hr"); assert("samp"@.len() != "hr"@.len());
    reveal_strlit("head"); assert("samp"@[0] != "head"@[0]);
    reveal_strlit("script"); assert("samp"@.len() != "script"@.len());
    reveal_strlit("style"); assert("samp"@.len() != "style"@.len());
    reveal_strlit("meta"); assert("samp"@[0] != "meta"@[0]);
    reveal_strlit("link"); assert("samp"@[0] != "link"@[0]);
    reveal_strlit("title"); assert("samp"@.len() != "title"@.len());
    reveal_strlit("noscript"); assert("samp"@.len() != "noscript"@.len());
    reveal_strlit("a"); assert("samp"@.len() != "a"@.len());
    reveal_strlit("strong"); assert("samp"@.len() != "strong"@.len());
    reveal_strlit("b"); assert("samp"@.len() != "b"@.len());
    reveal_strlit("em"); assert("samp"@.len() != "em"@.len());
    reveal_strlit("i"); assert("samp"@.len() != "i"@.len());
    reveal_strlit("code"); assert("samp"@[0] != "code"@[0]);
    reveal_strlit("kbd"); assert("samp"@.len() != "kbd"@.len());
    reveal_strlit("tt"); assert("samp"@.len() != "tt"@.len());
}

proof fn lemma_tag_defaults_tt()
    ensures
        tag_keywords("tt"@) == (KeywordStyleView { white_space: WhiteSpace::PreWrap, ..initial_keywords() }),
{
    reveal_strlit("tt");
    reveal_strlit("div"); assert("tt"@.len() != "div"@.len());
    reveal_strlit("p"); assert("tt"@.len() != "p"@.len());
    reveal_strlit("section"); assert("tt"@.len() != "section"@.len());
    reveal_strlit("article"); assert("tt"@.len() != "article"@.len());
    reveal_strlit("main"); assert("tt"@.len() != "main"@.len());
    reveal_strlit("header"); assert("tt"@.len() != "header"@.len());
    reveal_strlit("footer"); assert("tt"@.len() != "footer"@.len());
    reveal_strlit("nav"); assert("tt"@.len() != "nav"@.len());
    reveal_strlit("aside"); assert("tt"@.len() != "aside"@.len());
    reveal_strlit("form"); assert("tt"@.len() != "form"@.len());
    reveal_strlit("fieldset"); assert("tt"@.len() != "fieldset"@.len());
    reveal_strlit("address"); assert("tt"@.len() != "address"@.len());
    reveal_strlit("figure"); assert("tt"@.len() != "figure"@.len());
    reveal_strlit("figcaption"); assert("tt"@.len() != "figcaption"@.len());
    reveal_strlit("details"); assert("tt"@.len() != "details"@.len());
    reveal_strlit("summary"); assert("tt"@.len() != "summary"@.len());
    reveal_strlit("h1"); assert("tt"@[0] != "h1"@[0]);
    reveal_strlit("h2"); assert("tt"@[0] != "h2"@[0]);
    reveal_strlit("h3"); assert("tt"@[0] != "h3"@[0]);
    reveal_strlit("h4"); assert("tt"@[0] != "h4"@[0]);
    reveal_strlit("h5"); assert("tt"@[0] != "h5"@[0]);
    reveal_strlit("h6"); assert("tt"@[0] != "h6"@[0]);
    reveal_strlit("html"); assert("tt"@.len() != "html"@.len());
    reveal_strlit("body"); assert("tt"@.len() != "body"@.len());
    reveal_strlit("br"); assert("tt"@[0] != "br"@[0]);
    reveal_strlit("ul"); assert("tt"@[0] != "ul"@[0]);
    reveal_strlit("ol"); assert("tt"@[0] != "ol"@[0]);
    reveal_strlit("blockquote"); assert("tt"@.len() != "blockquote"@.len());
    reveal_strlit("li"); assert("tt"@[0] != "li"@[0]);
    reveal_strlit("pre"); assert("tt"@.len() != "pre"@.len());
    reveal_strlit("table"); assert("tt"@.len() != "table"@.len());
    reveal_strlit("tr"); assert("tt"@[1] != "tr"@[1]);
    reveal_strlit("td"); assert("tt"@[1] != "td"@[1]);
    reveal_strlit("th"); assert("tt"@[1] != "th"@[1]);
    reveal_strlit("hr"); assert("tt"@[0] != "hr"@[0]);
    reveal_strlit("head"); assert("tt"@.len() != "head"@.len());
    reveal_strlit("script"); assert("tt"@.len() != "script"@.len());
    reveal_strlit("style"); assert("tt"@.len() != "style"@.len());
    reveal_strlit("meta"); assert("tt"@.len() != "meta"@.len());
    reveal_strlit("link"); assert("tt"@.len() != "link"@.len());
    reveal_strlit("title"); assert("tt"@.len() != "title"@.len());
    reveal_strlit("noscript"); assert("tt"@.len() != "noscript"@.len());
    reveal_strlit("a"); assert("tt"@.len() != "a"@.len());
    reveal_strlit("strong"); assert("tt"@.len() != "strong"@.len());
    reveal_strlit("b"); assert("tt"@.len() != "b"@.len());
    reveal_strlit("em"); assert("tt"@[0] != "em"@[0]);
    reveal_strlit("i"); assert("tt"@.len() != "i"@.len());
    reveal_strlit("code"); assert("tt"@.len() != "code"@.len());
    reveal_strlit("kbd"); assert("tt"@.len() != "kbd"@.len());
    reveal_strlit("samp"); assert("tt"@.len() != "samp"@.len());
}

proof fn lemma_tag_defaults_span()
    ensures
        tag_keywords("span"@) == (initial_keywords()),
{
    reveal_strlit("span");
    reveal_strlit("div"); assert("span"@.len() != "div"@.len());
    reveal_strlit("p"); assert("span"@.len() != "p"@.len());
    reveal_strlit("section"); assert("span"@.len() != "section"@.len());
    reveal_strlit("article"); assert("span"@.len() != "article"@.len());
    reveal_strlit("main"); assert("span"@[0] != "main"@[0]);
    reveal_strlit("header"); assert("span"@.len() != "header"@.len());
    reveal_strlit("footer"); assert("span"@.len() != "footer"@.len());
    reveal_strlit("nav"); assert("span"@.len() != "nav"@.len());
    reveal_strlit("aside"); assert("span"@.len() != "aside"@.len());
    reveal_strlit("form"); assert("span"@[0] != "form"@[0]);
    reveal_strlit("fieldset"); assert("span"@.len() != "fieldset"@.len());
    reveal_strlit("address"); assert("span"@.len() != "address"@.len());
    reveal_strlit("figure"); assert("span"@.len() != "figure"@.len());
    reveal_strlit("figcaption"); assert("span"@.len() != "figcaption"@.len());
    reveal_strlit("details"); assert("span"@.len() != "details"@.len());
    reveal_strlit("summary"); assert("span"@.len() != "summary"@.len());
    reveal_strlit("h1"); assert("span"@.len() != "h1"@.len());
    reveal_strlit("h2"); assert("span"@.len() != "h2"@.len());
    reveal_strlit("h3"); assert("span"@.len() != "h3"@.len());
    reveal_strlit("h4"); assert("span"@.len() != "h4"@.len());
    reveal_strlit("h5"); assert("span"@.len() != "h5"@.len());
    reveal_strlit("h6"); assert("span"@.len() != "h6"@.len());
    reveal_strlit("html"); assert("span"@[0] != "html"@[0]);
    reveal_strlit("body"); assert("span"@[0] != "body"@[0]);
    reveal_strlit("br"); assert("span"@.len() != "br"@.len());
    reveal_strlit("ul"); assert("span"@.len() != "ul"@.len());
    reveal_strlit("ol"); assert("span"@.len() != "ol"@.len());
    reveal_strlit("blockquote"); assert("span"@.len() != "blockquote"@.len());
    reveal_strlit("li"); assert("span"@.len() != "li"@.len());
    reveal_strlit("pre"); assert("span"@.len() != "pre"@.len());
    reveal_strlit("table"); assert("span"@.len() != "table"@.len());
    reveal_strlit("tr"); assert("span"@.len() != "tr"@.len());
    reveal_strlit("td"); assert("span"@.len() != "td"@.len());
    reveal_strlit("th"); assert("span"@.len() != "th"@.len());
    reveal_strlit("hr"); assert("span"@.len() != "hr"@.len());
    reveal_strlit("head"); assert("span"@[0] != "head"@[0]);
    reveal_strlit("script"); assert("span"@.len() != "script"@.len());
    reveal_strlit("style"); assert("span"@.len() != "style"@.len());
    reveal_strlit("meta"); assert("span"@[0] != "meta"@[0]);
    reveal_strlit("link"); assert("span"@[0] != "link"@[0]);
    reveal_strlit("title"); assert("span"@.len() != "title"@.len());
    reveal_strlit("noscript"); assert("span"@.len() != "noscript"@.len());
    reveal_strlit("a"); assert("span"@.len() != "a"@.len());
    reveal_strlit("strong"); assert("span"@.len() != "strong"@.len());
    reveal_strlit("b"); assert("span"@.len() != "b"@.len());
    reveal_strlit("em"); assert("span"@.len() != "em"@.len());
    reveal_strlit("i"); assert("span"@.len() != "i"@.len());
    reveal_strlit("code"); assert("span"@[0] != "code"@[0]);
    reveal_strlit("kbd"); assert("span"@.len() != "kbd"@.len());
    reveal_strlit("samp"); assert("span"@[1] != "samp"@[1]);
    reveal_strlit("tt"); assert("span"@.len() != "tt"@.len());
}

/// The user-agent defaults of the tags: block elements (`div`, `p`,
/// headings, lists, ...) display as blocks, `li` as list items, the table
/// tags as table parts, `head`, `script`, `style` and the like not at all,
/// and everything else inline; headings and `strong`/`b` are bold, `em`/`i`
/// italic, links blue, underlined and with a pointer, `pre` and the code
/// tags keep their whitespace, `hr` has a solid border.
pub proof fn law_tag_defaults()
    ensures
        tag_keywords("div"@) == (KeywordStyleView { display: Display::Block, ..initial_keywords() }),
        tag_keywords("p"@) == (KeywordStyleView { display: Display::Block, ..initial_keywords() }),
        tag_keywords("section"@) == (KeywordStyleView { display: Display::Block, ..initial_keywords() }),
        tag_keywords("article"@) == (KeywordStyleView { display: Display::Block, ..initial_keywords() }),
        tag_keywords("main"@) == (KeywordStyleView { display: Display::Block, ..initial_keywords() }),
        tag_keywords("header"@) == (KeywordStyleView { display: Display::Block, ..initial_keywords() }),
        tag_keywords("footer"@) == (KeywordStyleView { display: Display::Block, ..initial_keywords() }),
        tag_keywords("nav"@) == (KeywordStyleView { display: Display::Block, ..initial_keywords() }),
        tag_keywords("aside"@) == (KeywordStyleView { display: Display::Block, ..initial_keywords() }),
        tag_keywords("form"@) == (KeywordStyleView { display: Display::Block, ..initial_keywords() }),
        tag_keywords("fieldset"@) == (KeywordStyleView { display: Display::Block, ..initial_keywords() }),
        tag_keywords("address"@) == (KeywordStyleView { display: Display::Block, ..initial_keywords() }),
        tag_keywords("figure"@) == (KeywordStyleView { display: Display::Block, ..initial_keywords() }),
        tag_keywords("figcaption"@) == (KeywordStyleView { display: Display::Block, ..initial_keywords() }),
        tag_keywords("details"@) == (KeywordStyleView { display: Display::Block, ..initial_keywords() }),
        tag_keywords("summary"@) == (KeywordStyleView { display: Display::Block, ..initial_keywords() }),
        tag_keywords("h1"@) == (KeywordStyleView { display: Display::Block, font_weight: FontWeight::Bold, ..initial_keywords() }),
        tag_keywords("h2"@) == (KeywordStyleView { display: Display::Block, font_weight: FontWeight::Bold, ..initial_keywords() }),
        tag_keywords("h3"@) == (KeywordStyleView { display: Display::Block, font_weight: FontWeight::Bold, ..initial_keywords() }),
        tag_keywords("h4"@) == (KeywordStyleView { display: Display::Block, font_weight: FontWeight::Bold, ..initial_keywords() }),
        tag_keywords("h5"@) == (KeywordStyleView { display: Display::Block, font_weight: FontWeight::Bold, ..initial_keywords() }),
        tag_keywords("h6"@) == (KeywordStyleView { display: Display::Block, font_weight: FontWeight::Bold, ..initial_keywords() }),
        tag_keywords("html"@) == (KeywordStyleView { display: Display::Block, ..initial_keywords() }),
        tag_keywords("body"@) == (KeywordStyleView { display: Display::Block, ..initial_keywords() }),
        tag_keywords("br"@) == (KeywordStyleView { display: Display::Block, ..initial_keywords() }),
        tag_keywords("ul"@) == (KeywordStyleView { display: Display::Block, ..initial_keywords() }),
        tag_keywords("ol"@) == (KeywordStyleView { display: Display::Block, ..initial_keywords() }),
        tag_keywords("blockquote"@) == (KeywordStyleView { display: Display::Block, ..initial_keywords() }),
        tag_keywords("li"@) == (KeywordStyleView { display: Display::ListItem, ..initial_keywords() }),
        tag_keywords("pre"@) == (KeywordStyleView { display: Display::Block, white_space: WhiteSpace::Pre, ..initial_keywords() }),
        tag_keywords("table"@) == (KeywordStyleView { display: Display::Table, ..initial_keywords() }),
        tag_keywords("tr"@) == (KeywordStyleView { display: Display::TableRow, ..initial_keywords() }),
        tag_keywords("td"@) == (KeywordStyleView { display: Display::TableCell, ..initial_keywords() }),
        tag_keywords("th"@) == (KeywordStyleView { display: Display::TableCell, ..initial_keywords() }),
        tag_keywords("hr"@) == (KeywordStyleView { display: Display::Block, border_style: BorderStyle::Solid, ..initial_keywords() }),
        tag_keywords("head"@) == (KeywordStyleView { display: Display::NoDisplay, ..initial_keywords() }),
        tag_keywords("script"@) == (KeywordStyleView { display: Display::NoDisplay, ..initial_keywords() }),
        tag_keywords("style"@) == (KeywordStyleView { display: Display::NoDisplay, ..initial_keywords() }),
        tag_keywords("meta"@) == (KeywordStyleView { display: Display::NoDisplay, ..initial_keywords() }),
        tag_keywords("link"@) == (KeywordStyleView { display: Display::NoDisplay, ..initial_keywords() }),
        tag_keywords("title"@) == (KeywordStyleView { display: Display::NoDisplay, ..initial_keywords() }),
        tag_keywords("noscript"@) == (KeywordStyleView { display: Display::NoDisplay, ..initial_keywords() }),
        tag_keywords("a"@) == (KeywordStyleView { color: "#5e81ac"@, text_decoration: TextDecoration::Underline, cursor: Cursor::Pointer, ..initial_keywords() }),
        tag_keywords("strong"@) == (KeywordStyleView { font_weight: FontWeight::Bold, ..initial_keywords() }),
        tag_keywords("b"@) == (KeywordStyleView { font_weight: FontWeight::Bold, ..initial_keywords() }),
        tag_keywords("em"@) == (KeywordStyleView { font_style: FontStyle::Italic, ..initial_keywords() }),
        tag_keywords("i"@) == (KeywordStyleView { font_style: FontStyle::Italic, ..initial_keywords() }),
        tag_keywords("code"@) == (KeywordStyleView { white_space: WhiteSpace::PreWrap, ..initial_keywords() }),
        tag_keywords("kbd"@) == (KeywordStyleView { white_space: WhiteSpace::PreWrap, ..initial_keywords() }),
        tag_keywords("samp"@) == (KeywordStyleView { white_space: WhiteSpace::PreWrap, ..initial_keywords() }),
        tag_keywords("tt"@) == (KeywordStyleView { white_space: WhiteSpace::PreWrap, ..initial_keywords() }),
        tag_keywords("span"@) == (initial_keywords()),
{
    lemma_tag_defaults_div();
    lemma_tag_defaults_p();
    lemma_tag_defaults_section();
    lemma_tag_defaults_article();
    lemma_tag_defaults_main();
    lemma_tag_defaults_header();
    lemma_tag_defaults_footer();
    lemma_tag_defaults_nav();
    lemma_tag_defaults_aside();
    lemma_tag_defaults_form();
    lemma_tag_defaults_fieldset();
    lemma_tag_defaults_address();
    lemma_tag_defaults_figure();
    lemma_tag_defaults_figcaption();
    lemma_tag_defaults_details();
    lemma_tag_defaults_summary();
    lemma_tag_defaults_h1();
    lemma_tag_defaults_h2();
    lemma_tag_defaults_h3();
    lemma_tag_defaults_h4();
    lemma_tag_defaults_h5();
    lemma_tag_defaults_h6();
    lemma_tag_defaults_html();
    lemma_tag_defaults_body();
    lemma_tag_defaults_br();
    lemma_tag_defaults_ul();
    lemma_tag_defaults_ol();
    lemma_tag_defaults_blockquote();
    lemma_tag_defaults_li();
    lemma_tag_defaults_pre();
    lemma_tag_defaults_table();
    lemma_tag_defaults_tr();
    lemma_tag_defaults_td();
    lemma_tag_defaults_th();
    lemma_tag_defaults_hr();
    lemma_tag_defaults_head();
    lemma_tag_defaults_script();
    lemma_tag_defaults_style();
    lemma_tag_defaults_meta();
    lemma_tag_defaults_link();
    lemma_tag_defaults_title();
    lemma_tag_defaults_noscript();
    lemma_tag_defaults_a();
    lemma_tag_defaults_strong();
    lemma_tag_defaults_b();
    lemma_tag_defaults_em();
    lemma_tag_defaults_i();
    lemma_tag_defaults_code();
    lemma_tag_defaults_kbd();
    lemma_tag_defaults_samp();
    lemma_tag_defaults_tt();
    lemma_tag_defaults_span();
}

/// The start of an element's cascade: the non-inherited properties
/// (display, background, border, decoration, overflow, vertical alignment)
/// are its tag's defaults; weight and style are the parent's unless the tag
/// makes the text bold (headings, `strong`, `b`) or italic (`em`, `i`).
pub proof fn law_cascade_start_fields(tag: Seq<char>, parent: KeywordStyleView)
    ensures
        cascade_start(tag, parent).display == tag_keywords(tag).display,
        cascade_start(tag, parent).background == tag_keywords(tag).background,
        cascade_start(tag, parent).border_color == tag_keywords(tag).border_color,
        cascade_start(tag, parent).border_style == tag_keywords(tag).border_style,
        cascade_start(tag, parent).text_decoration == tag_keywords(tag).text_decoration,
        cascade_start(tag, parent).overflow == tag_keywords(tag).overflow,
        cascade_start(tag, parent).vertical_align == tag_keywords(tag).vertical_align,
        cascade_start(tag, parent).font_weight == if tag == "h1"@ || tag == "h2"@ || tag == "h3"@ || tag
            == "h4"@ || tag == "h5"@ || tag == "h6"@ || tag == "strong"@ || tag == "b"@ {
            FontWeight::Bold
        } else {
            parent.font_weight
        },
        cascade_start(tag, parent).font_style == if tag == "em"@ || tag == "i"@ {
            FontStyle::Italic
        } else {
            parent.font_style
        },
{
    reveal_strlit("h1");
    reveal_strlit("h2");
    reveal_strlit("h3");
    reveal_strlit("h4");
    reveal_strlit("h5");
    reveal_strlit("h6");
    reveal_strlit("strong");
    reveal_strlit("b");
    reveal_strlit("em");
    reveal_strlit("i");
    assert("em"@[0] != "h1"@[0]);
    assert("em"@[0] != "h2"@[0]);
    assert("em"@[0] != "h3"@[0]);
    assert("em"@[0] != "h4"@[0]);
    assert("em"@[0] != "h5"@[0]);
    assert("em"@[0] != "h6"@[0]);
    assert("em"@.len() != "strong"@.len());
    assert("em"@.len() != "b"@.len());
    assert("i"@.len() != "h1"@.len());
    assert("i"@.len() != "h2"@.len());
    assert("i"@.len() != "h3"@.len());
    assert("i"@.len() != "h4"@.len());
    assert("i"@.len() != "h5"@.len());
    assert("i"@.len() != "h6"@.len());
    assert("i"@.len() != "strong"@.len());
    assert("i"@[0] != "b"@[0]);
}

proof fn lemma_split_state_concat(x: Seq<char>, y: Seq<char>)
    ensures
        split_state(x + seq![','] + y, ',') == (
            split_on(x, ',') + split_state(y, ',').0,
            split_state(y, ',').1,
        ),
    decreases y.len(),
{
    let xc = x + seq![','];
    if y.len() == 0 {
        assert(xc + y =~= xc);
        assert(xc.drop_last() =~= x);
        assert(split_on(x, ',') + Seq::<Seq<char>>::empty() =~= split_on(x, ','));
    } else {
        let z = y.drop_last();
        lemma_split_state_concat(x, z);
        assert((xc + y).drop_last() =~= xc + z);
        assert((xc + y).last() == y.last());
        let (d, c) = split_state(z, ',');
        assert(split_on(x, ',') + d.push(c) =~= (split_on(x, ',') + d).push(c));
    }
}

/// A selector list `x, y` matches an element (or a tag) exactly when one
/// of its two parts does.
pub proof fn law_selector_list(x: Seq<char>, y: Seq<char>, tag: Seq<char>, attrs: Seq<(String, String)>)
    ensures
        split_on(x + seq![','] + y, ',') == split_on(x, ',') + split_on(y, ','),
        selector_matches_element_spec(x + seq![','] + y, tag, attrs) <==> selector_matches_element_spec(x, tag, attrs)
            || selector_matches_element_spec(y, tag, attrs),
        selector_matches_tag_spec(x + seq![','] + y, tag) <==> selector_matches_tag_spec(x, tag)
            || selector_matches_tag_spec(y, tag),
{
    lemma_split_state_concat(x, y);
    let a = split_on(x, ',');
    let b = split_on(y, ',');
    let l = split_on(x + seq![','] + y, ',');
    assert(l =~= a + b);
    assert forall|k: int| 0 <= k < a.len() implies #[trigger] l[k] == a[k] by {}
    assert forall|k: int| 0 <= k < b.len() implies #[trigger] l[a.len() + k] == b[k] by {}
    if selector_matches_element_spec(x + seq![','] + y, tag, attrs) {
        let k = choose|k: int| 0 <= k < l.len() && simple_matches(selector_base(#[trigger] l[k]), tag, attrs);
        if k < a.len() {
            assert(simple_matches(selector_base(a[k]), tag, attrs));
        } else {
            assert(l[a.len() + (k - a.len())] == b[k - a.len()]);
            assert(simple_matches(selector_base(b[k - a.len()]), tag, attrs));
        }
    }
    if selector_matches_element_spec(x, tag, attrs) {
        let k = choose|k: int| 0 <= k < a.len() && simple_matches(selector_base(#[trigger] a[k]), tag, attrs);
        assert(simple_matches(selector_base(l[k]), tag, attrs));
    }
    if selector_matches_element_spec(y, tag, attrs) {
        let k = choose|k: int| 0 <= k < b.len() && simple_matches(selector_base(#[trigger] b[k]), tag, attrs);
        assert(simple_matches(selector_base(l[a.len() + k]), tag, attrs));
    }
    if selector_matches_tag_spec(x + seq![','] + y, tag) {
        let k = choose|k: int| 0 <= k < l.len() && part_matches_tag(#[trigger] l[k], tag);
        if k < a.len() {
            assert(part_matches_tag(a[k], tag));
        } else {
            assert(l[a.len() + (k - a.len())] == b[k - a.len()]);
            assert(part_matches_tag(b[k - a.len()], tag));
        }
    }
    if selector_matches_tag_spec(x, tag) {
        let k = choose|k: int| 0 <= k < a.len() && part_matches_tag(#[trigger] a[k], tag);
        assert(part_matches_tag(l[k], tag));
    }
    if selector_matches_tag_spec(y, tag) {
        let k = choose|k: int| 0 <= k < b.len() && part_matches_tag(#[trigger] b[k], tag);
        assert(part_matches_tag(l[a.len() + k], tag));
    }
}

proof fn lemma_words_state_suffix(p: Seq<char>, x: Seq<char>)
    requires
        forall|k: int| 0 <= k < x.len() ==> !is_ws_spec(#[trigger] x[k]),
    ensures
        words_state(p + x) == (words_state(p).0, words_state(p).1 + x),
    decreases x.len(),
{
    if x.len() == 0 {
        assert(p + x =~= p);
        assert(words_state(p).1 + x =~= words_state(p).1);
    } else {
        let z = x.drop_last();
        assert forall|k: int| 0 <= k < z.len() implies !is_ws_spec(#[trigger] z[k]) by {
            assert(z[k] == x[k]);
        }
        lemma_words_state_suffix(p, z);
        assert((p + x).drop_last() =~= p + z);
        assert((p + x).last() == x[x.len() - 1]);
        assert((words_state(p).1 + z).push(x[x.len() - 1]) =~= words_state(p).1 + x);
    }
}

proof fn lemma_no_comma_split(s: Seq<char>)
    requires
        forall|k: int| 0 <= k < s.len() ==> #[trigger] s[k] != ',',
    ensures
        split_state(s, ',') == (Seq::<Seq<char>>::empty(), s),
        split_on(s, ',') == seq![s],
    decreases s.len(),
{
    if s.len() == 0 {
        assert(s =~= Seq::<char>::empty());
    } else {
        let z = s.drop_last();
        assert forall|k: int| 0 <= k < z.len() implies #[trigger] z[k] != ',' by {
            assert(z[k] == s[k]);
        }
        lemma_no_comma_split(z);
        assert(s.last() == s[s.len() - 1]);
        assert(z.push(s.last()) =~= s);
    }
}

proof fn lemma_single_base(x: Seq<char>)
    requires
        is_single_simple(x),
    ensures
        forall|k: int| 0 <= k < x.len() ==> !is_ws_spec(#[trigger] x[k]),
        !is_ws_spec(x.last()),
        after_last(x, '>') == x,
        trim(x) == x,
{
    assert(x.last() == x[x.len() - 1]);
    lemma_trim_clean(x);
    lemma_rfind_char(x, '>');
}

proof fn lemma_descendant_base(a: Seq<char>, x: Seq<char>)
    requires
        a.len() > 0,
        !is_ws_spec(a[0]),
        is_single_simple(x),
    ensures
        selector_base(a + seq![' '] + x) == x,
{
    lemma_single_base(x);
    let sp = a + seq![' '];
    let d = sp + x;
    assert(d[0] == a[0] && d.last() == x.last());
    lemma_trim_clean(d);
    lemma_words_state_suffix(sp, x);
    assert(sp.drop_last() =~= a);
    assert(sp.last() == ' ');
    assert(is_ws_spec(' '));
    assert(words_state(sp).1.len() == 0);
    assert(words_state(sp).1 + x =~= x);
    assert(words(d).last() == x);
}

proof fn lemma_child_base(a: Seq<char>, x: Seq<char>)
    requires
        a.len() > 0,
        !is_ws_spec(a[0]),
        is_single_simple(x),
    ensures
        selector_base(a + seq!['>'] + x) == x,
{
    lemma_single_base(x);
    let gt = a + seq!['>'];
    let c = gt + x;
    assert(c[0] == a[0] && c.last() == x.last());
    lemma_trim_clean(c);
    lemma_words_state_suffix(gt, x);
    let w = words_state(gt).1 + x;
    assert(words(c).last() == w);
    assert(gt.drop_last() =~= a);
    assert(gt.last() == '>');
    assert(words_state(gt).1 == words_state(a).1.push('>'));
    let m = words_state(a).1.len();
    assert(w[m as int] == '>');
    lemma_rfind_char(w, '>');
    let i = rfind_char(w, '>').unwrap();
    if i > m {
        assert(w[i] == x[i - m - 1]);
    }
    assert(i == m);
    assert(w.skip(i + 1) =~= x);
    lemma_trim_clean(x);
}

proof fn lemma_joined_no_comma(a: Seq<char>, sep: char, x: Seq<char>)
    requires
        sep != ',',
        is_single_simple(x),
        forall|k: int| 0 <= k < a.len() ==> #[trigger] a[k] != ',',
    ensures
        split_on(a + seq![sep] + x, ',') == seq![a + seq![sep] + x],
{
    let d = a + seq![sep] + x;
    assert forall|k: int| 0 <= k < d.len() implies #[trigger] d[k] != ',' by {
        if k < a.len() {
            assert(d[k] == a[k]);
        } else if k > a.len() {
            assert(d[k] == x[k - a.len() - 1]);
        }
    }
    lemma_no_comma_split(d);
}

/// In `a b` (descendant) and `a>b` (child), where `b` is a single simple
/// selector, it is `b` that decides: the selector's base is `b`, and without
/// a comma in `a` the selector matches an element exactly when `b` does.
pub proof fn law_combinator_selectors(a: Seq<char>, x: Seq<char>, tag: Seq<char>, attrs: Seq<(String, String)>)
    requires
        a.len() > 0,
        !is_ws_spec(a[0]),
        is_single_simple(x),
    ensures
        selector_base(a + seq![' '] + x) == x,
        selector_base(a + seq!['>'] + x) == x,
        (forall|k: int| 0 <= k < a.len() ==> #[trigger] a[k] != ',') ==> ((selector_matches_element_spec(
            a + seq![' '] + x,
            tag,
            attrs,
        ) <==> simple_matches(x, tag, attrs)) && (selector_matches_element_spec(a + seq!['>'] + x, tag, attrs)
            <==> simple_matches(x, tag, attrs))),
{
    lemma_descendant_base(a, x);
    lemma_child_base(a, x);
    if forall|k: int| 0 <= k < a.len() ==> #[trigger] a[k] != ',' {
        let d = a + seq![' '] + x;
        let c = a + seq!['>'] + x;
        lemma_joined_no_comma(a, ' ', x);
        lemma_joined_no_comma(a, '>', x);
        assert(split_on(d, ',')[0] == d);
        assert(split_on(c, ',')[0] == c);
        if simple_matches(x, tag, attrs) {
            assert(simple_matches(selector_base(split_on(d, ',')[0]), tag, attrs));
            assert(simple_matches(selector_base(split_on(c, ',')[0]), tag, attrs));
        }
    }
}

/// The declarations that reach an element end with those of its own
/// `style` attribute, after everything the stylesheets give, so an inline
/// declaration is applied last and wins.
pub proof fn law_inline_style_last(
    sheets: Seq<Seq<RuleView>>,
    tag: Seq<char>,
    attrs: Seq<(String, String)>,
    ds: Seq<DeclarationView>,
)
    requires
        is_cascade_order(sheets, tag, attrs, ds),
    ensures
        ds.len() >= inline_decls(attrs).len(),
        ds.skip(ds.len() - inline_decls(attrs).len()) == inline_decls(attrs),
{
    let parts = choose|parts: Seq<Seq<DeclarationView>>|
        {
            &&& parts.len() == sheets.len()
            &&& forall|i: int|
                0 <= i < sheets.len() ==> sorted_matches(
                    decls_for_element(sheets[i], tag, attrs),
                    #[trigger] parts[i],
                )
            &&& ds == #[trigger] flatten_parts(parts) + inline_decls(attrs)
        };
    assert(ds.skip(ds.len() - inline_decls(attrs).len()) =~= inline_decls(attrs));
}

/// Matching by tag keeps source order: a rule added at the end of a
/// stylesheet puts its declarations after all earlier ones when its
/// selector matches the tag, and adds nothing otherwise.
pub proof fn law_tag_rules_in_source_order(rules: Seq<RuleView>, r: RuleView, tag: Seq<char>)
    ensures
        selector_matches_tag_spec(r.selector, tag) ==> decls_for_tag(rules.push(r), tag) == decls_for_tag(
            rules,
            tag,
        ) + r.declarations,
        !selector_matches_tag_spec(r.selector, tag) ==> decls_for_tag(rules.push(r), tag) == decls_for_tag(
            rules,
            tag,
        ),
{
    assert(rules.push(r).drop_last() =~= rules);
    assert(decls_for_tag(rules, tag) + Seq::<DeclarationView>::empty() =~= decls_for_tag(rules, tag));
}

/// A word without whitespace.
pub open spec fn is_word_text(w: Seq<char>) -> bool {
    &&& w.len() > 0
    &&& forall|k: int| 0 <= k < w.len() ==> !is_ws_spec(#[trigger] w[k])
}

proof fn lemma_words_space(p: Seq<char>)
    ensures
        words_state(p + seq![' ']) == (if words_state(p).1.len() > 0 {
            words_state(p).0.push(words_state(p).1)
        } else {
            words_state(p).0
        }, Seq::<char>::empty()),
{
    assert((p + seq![' ']).drop_last() =~= p);
    assert((p + seq![' ']).last() == ' ');
    assert(is_ws_spec(' '));
}

proof fn lemma_three_words(a: Seq<char>, b: Seq<char>, c: Seq<char>)
    requires
        is_word_text(a),
        is_word_text(b),
        is_word_text(c),
    ensures
        words(a + seq![' '] + b + seq![' '] + c) == seq![a, b, c],
{
    let e = Seq::<char>::empty();
    lemma_words_state_suffix(e, a);
    assert(e + a =~= a);
    assert(words_state(e) == (Seq::<Seq<char>>::empty(), e));
    assert(e + a =~= a);
    lemma_words_space(a);
    let p1 = a + seq![' '];
    lemma_words_state_suffix(p1, b);
    assert(e + b =~= b);
    let p2 = p1 + b;
    lemma_words_space(p2);
    let p3 = p2 + seq![' '];
    lemma_words_state_suffix(p3, c);
    assert(e + c =~= c);
    assert(seq![a].push(b).push(c) =~= seq![a, b, c]);
    assert(Seq::<Seq<char>>::empty().push(a) =~= seq![a]);
}

/// The `border` shorthand `width style colour` sets the border style its
/// second word names (`solid`, `dashed`, `dotted`, `none`) and the colour
/// its third word gives.
pub proof fn law_border_shorthand(s: KeywordStyleView, w: Seq<char>, c: Seq<char>, important: bool)
    requires
        is_word_text(w),
        is_word_text(c),
    ensures
        ({
            let after = |style: Seq<char>| keywords_after(
                s,
                DeclarationView { property: "border"@, value: w + seq![' '] + style + seq![' '] + c, important },
            );
            &&& after("solid"@).border_style == BorderStyle::Solid
            &&& after("dashed"@).border_style == BorderStyle::Dashed
            &&& after("dotted"@).border_style == BorderStyle::Dotted
            &&& after("none"@).border_style == BorderStyle::NoBorder
            &&& after("solid"@).border_color == c
        }),
{
    reveal(keyword_property);
    reveal(border_shorthand_style);
    reveal_strlit("border");
    reveal_strlit("color"); assert("border"@.len() != "color"@.len());
    reveal_strlit("background"); assert("border"@.len() != "background"@.len());
    reveal_strlit("background-color"); assert("border"@.len() != "background-color"@.len());
    reveal_strlit("font-weight"); assert("border"@.len() != "font-weight"@.len());
    reveal_strlit("font-style"); assert("border"@.len() != "font-style"@.len());
    reveal_strlit("display"); assert("border"@.len() != "display"@.len());
    reveal_strlit("text-decoration"); assert("border"@.len() != "text-decoration"@.len());
    reveal_strlit("text-decoration-line"); assert("border"@.len() != "text-decoration-line"@.len());
    reveal_strlit("text-align"); assert("border"@.len() != "text-align"@.len());
    reveal_strlit("overflow"); assert("border"@.len() != "overflow"@.len());
    reveal_strlit("overflow-x"); assert("border"@.len() != "overflow-x"@.len());
    reveal_strlit("overflow-y"); assert("border"@.len() != "overflow-y"@.len());
    reveal_strlit("white-space"); assert("border"@.len() != "white-space"@.len());
    reveal_strlit("visibility"); assert("border"@.len() != "visibility"@.len());
    reveal_strlit("border-style"); assert("border"@.len() != "border-style"@.len());
    reveal_strlit("list-style-type"); assert("border"@.len() != "list-style-type"@.len());
    reveal_strlit("vertical-align"); assert("border"@.len() != "vertical-align"@.len());
    reveal_strlit("cursor"); assert("border"@[0] != "cursor"@[0]);
    reveal_strlit("border");
    reveal_strlit("solid");
    assert forall|k: int| 0 <= k < "solid"@.len() implies !is_ws_spec(#[trigger] "solid"@[k]) by {
        if k == 0 {} else if k == 1 {} else if k == 2 {} else if k == 3 {} else if k == 4 {}
    }
    lemma_three_words(w, "solid"@, c);
    assert(words(w + seq![' '] + "solid"@ + seq![' '] + c)[1] == "solid"@);
    reveal_strlit("dashed");
    assert("dashed"@.len() != "solid"@.len());
    assert forall|k: int| 0 <= k < "dashed"@.len() implies !is_ws_spec(#[trigger] "dashed"@[k]) by {
        if k == 0 {} else if k == 1 {} else if k == 2 {} else if k == 3 {} else if k == 4 {} else if k == 5 {}
    }
    lemma_three_words(w, "dashed"@, c);
    assert(words(w + seq![' '] + "dashed"@ + seq![' '] + c)[1] == "dashed"@);
    reveal_strlit("dotted");
    assert("dotted"@.len() != "solid"@.len());
    assert("dotted"@[1] != "dashed"@[1]);
    assert forall|k: int| 0 <= k < "dotted"@.len() implies !is_ws_spec(#[trigger] "dotted"@[k]) by {
        if k == 0 {} else if k == 1 {} else if k == 2 {} else if k == 3 {} else if k == 4 {} else if k == 5 {}
    }
    lemma_three_words(w, "dotted"@, c);
    assert(words(w + seq![' '] + "dotted"@ + seq![' '] + c)[1] == "dotted"@);
    reveal_strlit("none");
    assert("none"@.len() != "solid"@.len());
    assert("none"@.len() != "dashed"@.len());
    assert("none"@.len() != "dotted"@.len());
    assert forall|k: int| 0 <= k < "none"@.len() implies !is_ws_spec(#[trigger] "none"@[k]) by {
        if k == 0 {} else if k == 1 {} else if k == 2 {} else if k == 3 {}
    }
    lemma_three_words(w, "none"@, c);
    assert(words(w + seq![' '] + "none"@ + seq![' '] + c)[1] == "none"@);
}

} // verus!
