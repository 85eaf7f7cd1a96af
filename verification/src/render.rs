//! Rendering -- page content to displayable text.
//!
//! Walks the document tree and collects styled text spans into lines, and
//! turns those lines into plain or ANSI-coloured terminal text; also the
//! status bar, the tab bar and the blank page.
use vstd::prelude::*;
use crate::css::{FontStyle, FontWeight, KeywordStyle, KeywordStyleView, TextDecoration};
use crate::dom::{Document, Element, Node, NodeKind, attr_value, title_in};
use crate::text::{
    chars_of, collapse_ws, collapse_ws_chars, eq_str, join_with, push_chars, push_str,
    slice_chars, string_from_chars, trim_end, trim_end_chars, byte_len, prefix_within, prefix_within_exec,
    lemma_prefix_within, lemma_byte_len_take, lemma_trim_end_prefix,
};

verus! {

/// A styled text span within a line.
#[derive(Debug)]
pub struct StyledSpan {
    /// The text content.
    pub text: String,
    /// Foreground color as hex string (e.g., "#eceff4").
    pub fg_color: String,
    /// Background color (or "transparent").
    pub bg_color: String,
    /// Whether text is bold.
    pub bold: bool,
    /// Whether text is italic.
    pub italic: bool,
    /// Whether text is underlined.
    pub underline: bool,
    /// Whether text is struck through.
    pub strikethrough: bool,
    /// Whether this span is a link.
    pub is_link: bool,
    /// Link href if this is a link.
    pub href: Option<String>,
}

/// A line of styled text.
#[derive(Debug)]
pub struct StyledLine {
    /// Spans within this line.
    pub spans: Vec<StyledSpan>,
    /// Indentation level.
    pub indent: usize,
}

/// A rendered page ready for display.
#[derive(Debug)]
pub struct RenderedPage {
    /// Lines of styled text.
    pub lines: Vec<StyledLine>,
    /// The page title.
    pub title: String,
    /// Total content height in lines.
    pub total_lines: usize,
}

/// A span as values.
pub struct SpanView {
    pub text: Seq<char>,
    pub fg_color: Seq<char>,
    pub bg_color: Seq<char>,
    pub bold: bool,
    pub italic: bool,
    pub underline: bool,
    pub strikethrough: bool,
    pub is_link: bool,
    pub href: Option<Seq<char>>,
}

/// The view of an optional string.
pub open spec fn opt_view(o: Option<String>) -> Option<Seq<char>> {
    match o {
        Some(s) => Some(s@),
        None => None,
    }
}

impl View for StyledSpan {
    type V = SpanView;

    open spec fn view(&self) -> SpanView {
        SpanView {
            text: self.text@,
            fg_color: self.fg_color@,
            bg_color: self.bg_color@,
            bold: self.bold,
            italic: self.italic,
            underline: self.underline,
            strikethrough: self.strikethrough,
            is_link: self.is_link,
            href: opt_view(self.href),
        }
    }
}

/// A line as values.
pub struct LineView {
    pub spans: Seq<SpanView>,
    pub indent: nat,
}

impl View for StyledLine {
    type V = LineView;

    open spec fn view(&self) -> LineView {
        LineView {
            spans: self.spans@.map_values(|s: StyledSpan| s@),
            indent: self.indent as nat,
        }
    }
}

/// The views of a sequence of lines.
pub open spec fn line_views(ls: Seq<StyledLine>) -> Seq<LineView> {
    ls.map_values(|l: StyledLine| l@)
}

/// A plain span: no styling flags and no link.
pub open spec fn plain_span(text: Seq<char>, fg: Seq<char>, bg: Seq<char>, bold: bool, italic: bool) -> SpanView {
    SpanView {
        text,
        fg_color: fg,
        bg_color: bg,
        bold,
        italic,
        underline: false,
        strikethrough: false,
        is_link: false,
        href: None,
    }
}

fn make_plain_span(text: String, fg: &str, bg: &str, bold: bool, italic: bool) -> (r: StyledSpan)
    ensures
        r@ == plain_span(text@, fg@, bg@, bold, italic),
{
    StyledSpan {
        text,
        fg_color: fg.to_owned(),
        bg_color: bg.to_owned(),
        bold,
        italic,
        underline: false,
        strikethrough: false,
        is_link: false,
        href: None,
    }
}

/// The lines with `span` added to the last line, or to a new line at
/// `indent` when there is none.
pub open spec fn append_span(lines: Seq<LineView>, span: SpanView, indent: nat) -> Seq<LineView> {
    if lines.len() > 0 {
        lines.update(
            lines.len() - 1,
            LineView { spans: lines.last().spans.push(span), indent: lines.last().indent },
        )
    } else {
        seq![LineView { spans: seq![span], indent }]
    }
}

/// The lines with a new line holding `span` (or nothing) at `indent`.
pub open spec fn new_line(lines: Seq<LineView>, spans: Seq<SpanView>, indent: nat) -> Seq<LineView> {
    lines.push(LineView { spans, indent })
}

/// A prefix goes on a new line unless the last line is still empty.
pub open spec fn push_prefix_spec(lines: Seq<LineView>, span: SpanView, indent: nat) -> Seq<LineView> {
    if lines.len() == 0 || lines.last().spans.len() > 0 {
        new_line(lines, seq![span], indent)
    } else {
        append_span(lines, span, indent)
    }
}

fn add_to_last(lines: &mut Vec<StyledLine>, span: StyledSpan)
    requires
        old(lines)@.len() > 0,
    ensures
        line_views(final(lines)@) == append_span(line_views(old(lines)@), span@, 0),
{
    let ghost l0 = line_views(lines@);
    let mut last = lines.pop().unwrap();
    let ghost lv = last@;
    last.spans.push(span);
    assert(last@.spans =~= lv.spans.push(span@));
    lines.push(last);
    assert(line_views(lines@) =~= l0.update(l0.len() - 1, LineView { spans: lv.spans.push(span@), indent: lv.indent }));
}

fn append_span_exec(lines: &mut Vec<StyledLine>, span: StyledSpan, indent: usize)
    ensures
        line_views(final(lines)@) == append_span(line_views(old(lines)@), span@, indent as nat),
{
    if lines.len() > 0 {
        add_to_last(lines, span);
    } else {
        let ghost sv = span@;
        let ghost l0 = line_views(lines@);
        single_line_exec(lines, span, indent);
        assert(l0.push(LineView { spans: seq![sv], indent: indent as nat }) =~= seq![
            LineView { spans: seq![sv], indent: indent as nat },
        ]);
    }
}

fn new_line_exec(lines: &mut Vec<StyledLine>, spans: Vec<StyledSpan>, indent: usize)
    ensures
        line_views(final(lines)@) == new_line(
            line_views(old(lines)@),
            spans@.map_values(|s: StyledSpan| s@),
            indent as nat,
        ),
{
    let ghost l0 = line_views(lines@);
    let ghost sv = spans@.map_values(|s: StyledSpan| s@);
    lines.push(StyledLine { spans, indent });
    assert(line_views(lines@) =~= l0.push(LineView { spans: sv, indent: indent as nat }));
}

fn empty_line_exec(lines: &mut Vec<StyledLine>, indent: usize)
    ensures
        line_views(final(lines)@) == new_line(line_views(old(lines)@), seq![], indent as nat),
{
    let spans: Vec<StyledSpan> = Vec::new();
    assert(spans@.map_values(|s: StyledSpan| s@) =~= seq![]);
    new_line_exec(lines, spans, indent);
}

fn single_line_exec(lines: &mut Vec<StyledLine>, span: StyledSpan, indent: usize)
    ensures
        line_views(final(lines)@) == new_line(line_views(old(lines)@), seq![span@], indent as nat),
{
    let ghost sv = span@;
    let mut spans: Vec<StyledSpan> = Vec::new();
    spans.push(span);
    assert(spans@.map_values(|s: StyledSpan| s@) =~= seq![sv]);
    new_line_exec(lines, spans, indent);
}

fn last_line_empty(lines: &Vec<StyledLine>) -> (r: bool)
    requires
        lines@.len() > 0,
    ensures
        r == (line_views(lines@).last().spans.len() == 0),
{
    lines[lines.len() - 1].spans.len() == 0
}

/// The span a prefix is written with.
pub open spec fn prefix_span(prefix: Seq<char>, style: KeywordStyleView) -> SpanView {
    plain_span(prefix, style.color, "transparent"@, style.font_weight == FontWeight::Bold, false)
}

/// Push a prefix span onto the current or new line.
fn push_prefix(lines: &mut Vec<StyledLine>, indent: usize, prefix: &str, style: &KeywordStyle)
    ensures
        line_views(final(lines)@) == push_prefix_spec(
            line_views(old(lines)@),
            prefix_span(prefix@, style@),
            indent as nat,
        ),
{
    let span = make_plain_span(
        prefix.to_owned(),
        style.color.as_str(),
        "transparent",
        style.font_weight == FontWeight::Bold,
        false,
    );
    if lines.len() == 0 || !last_line_empty(lines) {
        single_line_exec(lines, span, indent);
    } else {
        add_to_last(lines, span);
    }
}

/// Elements that are not rendered.
pub open spec fn is_skipped_tag(t: Seq<char>) -> bool {
    t == "script"@ || t == "style"@ || t == "head"@ || t == "meta"@ || t == "link"@ || t == "title"@ || t == "noscript"@
}

/// Elements rendered as blocks: on lines of their own.
pub open spec fn is_block_render_tag(t: Seq<char>) -> bool {
    t == "div"@ || t == "p"@ || t == "h1"@ || t == "h2"@ || t == "h3"@ || t == "h4"@
        || t == "h5"@ || t == "h6"@ || t == "section"@ || t == "article"@ || t == "main"@
        || t == "header"@ || t == "footer"@ || t == "nav"@ || t == "aside"@ || t == "ul"@
        || t == "ol"@ || t == "blockquote"@ || t == "pre"@ || t == "form"@ || t == "table"@
        || t == "tr"@ || t == "dl"@ || t == "figure"@ || t == "figcaption"@ || t == "details"@
        || t == "summary"@
}

fn is_skipped_tag_exec(t: &[char]) -> (r: bool)
    ensures
        r == is_skipped_tag(t@),
{
    eq_str(t, "script") || eq_str(t, "style") || eq_str(t, "head") || eq_str(t, "meta")
        || eq_str(t, "link") || eq_str(t, "title") || eq_str(t, "noscript")
}

fn is_block_render_tag_exec(t: &[char]) -> (r: bool)
    ensures
        r == is_block_render_tag(t@),
{
    eq_str(t, "div") || eq_str(t, "p") || eq_str(t, "h1") || eq_str(t, "h2") || eq_str(t, "h3")
        || eq_str(t, "h4") || eq_str(t, "h5") || eq_str(t, "h6") || eq_str(t, "section")
        || eq_str(t, "article") || eq_str(t, "main") || eq_str(t, "header")
        || eq_str(t, "footer") || eq_str(t, "nav") || eq_str(t, "aside") || eq_str(t, "ul")
        || eq_str(t, "ol") || eq_str(t, "blockquote") || eq_str(t, "pre") || eq_str(t, "form")
        || eq_str(t, "table") || eq_str(t, "tr") || eq_str(t, "dl") || eq_str(t, "figure")
        || eq_str(t, "figcaption") || eq_str(t, "details") || eq_str(t, "summary")
}

/// The style an element's content is rendered with.
pub open spec fn element_style(st: KeywordStyleView, t: Seq<char>) -> KeywordStyleView {
    if t == "h1"@ || t == "h2"@ || t == "h3"@ || t == "h4"@ || t == "h5"@ || t == "h6"@ || t
        == "strong"@ || t == "b"@ {
        KeywordStyleView { font_weight: FontWeight::Bold, ..st }
    } else if t == "em"@ || t == "i"@ {
        KeywordStyleView { font_style: FontStyle::Italic, ..st }
    } else if t == "a"@ {
        KeywordStyleView { color: "#5e81ac"@, text_decoration: TextDecoration::Underline, ..st }
    } else if t == "code"@ || t == "kbd"@ || t == "samp"@ {
        KeywordStyleView { background: "#3b4252"@, ..st }
    } else {
        st
    }
}

fn element_style_exec(st: &KeywordStyle, t: &[char]) -> (r: KeywordStyle)
    ensures
        r@ == element_style(st@, t@),
{
    let mut style = st.copy();
    if eq_str(t, "h1") || eq_str(t, "h2") || eq_str(t, "h3") || eq_str(t, "h4") || eq_str(t, "h5")
        || eq_str(t, "h6") || eq_str(t, "strong") || eq_str(t, "b") {
        style.font_weight = FontWeight::Bold;
    } else if eq_str(t, "em") || eq_str(t, "i") {
        style.font_style = FontStyle::Italic;
    } else if eq_str(t, "a") {
        style.color = "#5e81ac".to_owned();
        style.text_decoration = TextDecoration::Underline;
    } else if eq_str(t, "code") || eq_str(t, "kbd") || eq_str(t, "samp") {
        style.background = "#3b4252".to_owned();
    }
    style
}

/// The prefix written before an element's content.
pub open spec fn element_prefix(t: Seq<char>) -> Option<Seq<char>> {
    if t == "h1"@ {
        Some("# "@)
    } else if t == "h2"@ {
        Some("## "@)
    } else if t == "h3"@ {
        Some("### "@)
    } else if t == "h4"@ {
        Some("#### "@)
    } else if t == "h5"@ {
        Some("##### "@)
    } else if t == "h6"@ {
        Some("###### "@)
    } else if t == "li"@ {
        Some("  - "@)
    } else if t == "blockquote"@ {
        Some("> "@)
    } else {
        None
    }
}

fn element_prefix_exec(t: &[char]) -> (r: Option<&'static str>)
    ensures
        match r {
            Some(p) => element_prefix(t@) == Some(p@),
            None => element_prefix(t@) is None,
        },
{
    if eq_str(t, "h1") {
        Some("# ")
    } else if eq_str(t, "h2") {
        Some("## ")
    } else if eq_str(t, "h3") {
        Some("### ")
    } else if eq_str(t, "h4") {
        Some("#### ")
    } else if eq_str(t, "h5") {
        Some("##### ")
    } else if eq_str(t, "h6") {
        Some("###### ")
    } else if eq_str(t, "li") {
        Some("  - ")
    } else if eq_str(t, "blockquote") {
        Some("> ")
    } else {
        None
    }
}

/// The span of a text node's collapsed text.
pub open spec fn text_span(
    text: Seq<char>,
    st: KeywordStyleView,
    in_link: bool,
    href: Option<Seq<char>>,
) -> SpanView {
    SpanView {
        text,
        fg_color: st.color,
        bg_color: st.background,
        bold: st.font_weight == FontWeight::Bold,
        italic: st.font_style == FontStyle::Italic,
        underline: st.text_decoration == TextDecoration::Underline,
        strikethrough: st.text_decoration == TextDecoration::LineThrough,
        is_link: in_link,
        href,
    }
}

/// `n` dashes.
pub open spec fn dashes(n: nat) -> Seq<char> {
    Seq::new(n, |i: int| '-')
}

/// The span of a horizontal rule as wide as the viewport, at most 80.
pub open spec fn rule_span(viewport_width: u32) -> SpanView {
    let w: nat = if viewport_width < 80 {
        viewport_width as nat
    } else {
        80
    };
    plain_span(dashes(w), "#4c566a"@, "transparent"@, false, false)
}

/// The span that shows a link's target after its text.
pub open spec fn link_target_span(h: Seq<char>) -> SpanView {
    SpanView {
        text: " ["@ + h + "]"@,
        fg_color: "#4c566a"@,
        bg_color: "transparent"@,
        bold: false,
        italic: false,
        underline: false,
        strikethrough: false,
        is_link: true,
        href: Some(h),
    }
}

/// The indentation of list items: one more inside `ul` and `ol`.
pub open spec fn child_indent(t: Seq<char>, indent: nat) -> nat {
    if (t == "ul"@ || t == "ol"@) && indent < usize::MAX {
        indent + 1
    } else {
        indent
    }
}

/// The view of an optional link target.
pub open spec fn href_view(h: Option<&str>) -> Option<Seq<char>> {
    match h {
        Some(s) => Some(s@),
        None => None,
    }
}

/// The lines after rendering the node `n` with the parent's style.
pub open spec fn render_in(
    n: Node,
    st: KeywordStyleView,
    lines: Seq<LineView>,
    indent: nat,
    vw: u32,
    in_link: bool,
    href: Option<Seq<char>>,
) -> Seq<LineView>
    decreases n, 0nat,
{
    match n.kind {
        NodeKind::Text(text) => {
            let c = collapse_ws(text@);
            if c.len() == 0 {
                lines
            } else {
                append_span(lines, text_span(c, st, in_link, href), indent)
            }
        },
        NodeKind::Element(e) => {
            let t = e.tag@;
            if is_skipped_tag(t) {
                lines
            } else {
                let style = element_style(st, t);
                let block = is_block_render_tag(t);
                let l1 = if block && lines.len() > 0 && lines.last().spans.len() > 0 {
                    new_line(lines, seq![], indent)
                } else {
                    lines
                };
                if t == "hr"@ {
                    new_line(l1, seq![rule_span(vw)], indent)
                } else if t == "br"@ {
                    new_line(l1, seq![], indent)
                } else if t == "img"@ {
                    let alt = match attr_value(e.attrs@, "alt"@) {
                        Some(a) => a,
                        None => "image"@,
                    };
                    push_prefix_spec(l1, prefix_span("[img: "@ + alt + "]"@, style), indent)
                } else {
                    let l2 = match element_prefix(t) {
                        Some(p) => push_prefix_spec(l1, prefix_span(p, style), indent),
                        None => l1,
                    };
                    let is_a = t == "a"@;
                    let h2 = if is_a {
                        attr_value(e.attrs@, "href"@)
                    } else {
                        href
                    };
                    let l3 = render_all(
                        e.children@,
                        style,
                        l2,
                        child_indent(t, indent),
                        vw,
                        in_link || is_a,
                        h2,
                    );
                    let l4 = if is_a && l3.len() > 0 {
                        match attr_value(e.attrs@, "href"@) {
                            Some(h) => append_span(l3, link_target_span(h), 0),
                            None => l3,
                        }
                    } else {
                        l3
                    };
                    if block {
                        new_line(l4, seq![], indent)
                    } else {
                        l4
                    }
                }
            }
        },
        NodeKind::Comment(_) => lines,
    }
}

/// The lines after rendering the nodes `cs` in order.
pub open spec fn render_all(
    cs: Seq<Node>,
    st: KeywordStyleView,
    lines: Seq<LineView>,
    indent: nat,
    vw: u32,
    in_link: bool,
    href: Option<Seq<char>>,
) -> Seq<LineView>
    decreases cs, 1nat,
{
    if cs.len() == 0 {
        lines
    } else {
        render_in(
            cs[cs.len() - 1],
            st,
            render_all(cs.subrange(0, cs.len() - 1), st, lines, indent, vw, in_link, href),
            indent,
            vw,
            in_link,
            href,
        )
    }
}

fn text_span_exec(text: Vec<char>, st: &KeywordStyle, in_link: bool, href: Option<&str>) -> (r: StyledSpan)
    ensures
        r@ == text_span(text@, st@, in_link, href_view(href)),
{
    StyledSpan {
        text: string_from_chars(text.as_slice()),
        fg_color: st.color.clone(),
        bg_color: st.background.clone(),
        bold: st.font_weight == FontWeight::Bold,
        italic: st.font_style == FontStyle::Italic,
        underline: st.text_decoration == TextDecoration::Underline,
        strikethrough: st.text_decoration == TextDecoration::LineThrough,
        is_link: in_link,
        href: match href {
            Some(h) => Some(h.to_owned()),
            None => None,
        },
    }
}

fn rule_span_exec(viewport_width: u32) -> (r: StyledSpan)
    ensures
        r@ == rule_span(viewport_width),
{
    let w: usize = if viewport_width < 80 {
        viewport_width as usize
    } else {
        80
    };
    let mut d: Vec<char> = Vec::new();
    let mut i: usize = 0;
    while i < w
        invariant
            i <= w,
            d@ == dashes(i as nat),
        decreases w - i,
    {
        d.push('-');
        i = i + 1;
        assert(d@ =~= dashes(i as nat));
    }
    make_plain_span(string_from_chars(d.as_slice()), "#4c566a", "transparent", false, false)
}

fn link_target_span_exec(h: &String) -> (r: StyledSpan)
    ensures
        r@ == link_target_span(h@),
{
    let mut t = chars_of(" [");
    push_str(&mut t, h.as_str());
    push_str(&mut t, "]");
    StyledSpan {
        text: string_from_chars(t.as_slice()),
        fg_color: "#4c566a".to_owned(),
        bg_color: "transparent".to_owned(),
        bold: false,
        italic: false,
        underline: false,
        strikethrough: false,
        is_link: true,
        href: Some(h.clone()),
    }
}

/// Recursively render a DOM node into styled lines.
fn render_node(
    node: &Node,
    parent_style: &KeywordStyle,
    lines: &mut Vec<StyledLine>,
    indent: usize,
    viewport_width: u32,
    in_link: bool,
    link_href: Option<&str>,
)
    ensures
        line_views(final(lines)@) == render_in(
            *node,
            parent_style@,
            line_views(old(lines)@),
            indent as nat,
            viewport_width,
            in_link,
            href_view(link_href),
        ),
    decreases node,
{
    match &node.kind {
        NodeKind::Text(text) => {
            let c = collapse_ws_chars(chars_of(text.as_str()).as_slice());
            if c.len() == 0 {
                return;
            }
            let span = text_span_exec(c, parent_style, in_link, link_href);
            append_span_exec(lines, span, indent);
        },
        NodeKind::Element(elem) => {
            let tc = chars_of(elem.tag.as_str());
            let t = tc.as_slice();
            if is_skipped_tag_exec(t) {
                return;
            }
            let style = element_style_exec(parent_style, t);
            let block = is_block_render_tag_exec(t);
            if block && lines.len() > 0 && !last_line_empty(lines) {
                empty_line_exec(lines, indent);
            }
            if eq_str(t, "hr") {
                let span = rule_span_exec(viewport_width);
                single_line_exec(lines, span, indent);
                return;
            }
            if eq_str(t, "br") {
                empty_line_exec(lines, indent);
                return;
            }
            if eq_str(t, "img") {
                let mut p = chars_of("[img: ");
                match elem.get_attr("alt") {
                    Some(a) => push_str(&mut p, a.as_str()),
                    None => push_str(&mut p, "image"),
                }
                push_str(&mut p, "]");
                let ps = string_from_chars(p.as_slice());
                push_prefix(lines, indent, ps.as_str(), &style);
                return;
            }
            match element_prefix_exec(t) {
                Some(pfx) => push_prefix(lines, indent, pfx, &style),
                None => {},
            }
            let is_a = eq_str(t, "a");
            let href: Option<&str> = if is_a {
                match elem.get_attr("href") {
                    Some(h) => Some(h.as_str()),
                    None => None,
                }
            } else {
                link_href
            };
            let ci: usize = if (eq_str(t, "ul") || eq_str(t, "ol")) && indent < usize::MAX {
                indent + 1
            } else {
                indent
            };
            let ghost l2 = line_views(lines@);
            let cs = &elem.children;
            let mut i: usize = 0;
            while i < cs.len()
                invariant
                    i <= cs@.len(),
                    node.kind == NodeKind::Element(*elem),
                    elem.children == *cs,
                    line_views(lines@) == render_all(
                        cs@.subrange(0, i as int),
                        style@,
                        l2,
                        ci as nat,
                        viewport_width,
                        in_link || is_a,
                        href_view(href),
                    ),
                decreases cs@.len() - i,
            {
                assert(cs@.subrange(0, i + 1).subrange(0, i as int) =~= cs@.subrange(0, i as int));
                assert(cs@.subrange(0, i + 1)[i as int] == cs@[i as int]);
                assert(decreases_to!(*node => cs@[i as int])) by {
                    assert(decreases_to!(*node => node.kind));
                    assert(decreases_to!(node.kind => node.kind->Element_0));
                    assert(decreases_to!(*elem => elem.children));
                    assert(decreases_to!(elem.children => elem.children@));
                    assert(decreases_to!(cs@ => cs@[i as int]));
                }
                render_node(&cs[i], &style, lines, ci, viewport_width, in_link || is_a, href);
                i = i + 1;
            }
            assert(cs@.subrange(0, cs@.len() as int) =~= cs@);
            if is_a && lines.len() > 0 {
                match elem.get_attr("href") {
                    Some(h) => {
                        let span = link_target_span_exec(h);
                        add_to_last(lines, span);
                    },
                    None => {},
                }
            }
            if block {
                empty_line_exec(lines, indent);
            }
        },
        NodeKind::Comment(_) => {},
    }
}

/// The style text is rendered with at the top of a document.
pub open spec fn page_style() -> KeywordStyleView {
    KeywordStyleView { color: "#eceff4"@, ..crate::css::initial_keywords() }
}

/// Render a document into styled text lines: the title (`Untitled` when
/// there is none) and the lines of its tree.
pub fn render_document(doc: &Document, viewport_width: u32) -> (r: RenderedPage)
    ensures
        r.title@ == (match title_in(doc.root) {
            Some(t) => t,
            None => "Untitled"@,
        }),
        line_views(r.lines@) == render_in(doc.root, page_style(), seq![], 0, viewport_width, false, None),
        r.total_lines == r.lines@.len(),
{
    let title = match doc.title() {
        Some(t) => t.to_owned(),
        None => "Untitled".to_owned(),
    };
    let mut lines: Vec<StyledLine> = Vec::new();
    let mut style = KeywordStyle::default();
    style.color = "#eceff4".to_owned();
    assert(line_views(lines@) =~= seq![]);
    render_node(&doc.root, &style, &mut lines, 0, viewport_width, false, None);
    let total_lines = lines.len();
    RenderedPage { lines, title, total_lines }
}

/// Two spaces per indentation level.
pub open spec fn indent_text(n: nat) -> Seq<char> {
    Seq::new(2 * n, |i: int| ' ')
}

/// The texts of the spans one after the other.
pub open spec fn spans_text(ss: Seq<SpanView>) -> Seq<char>
    decreases ss.len(),
{
    if ss.len() == 0 {
        seq![]
    } else {
        spans_text(ss.drop_last()) + ss.last().text
    }
}

/// A line as plain text.
pub open spec fn plain_line(l: LineView) -> Seq<char> {
    indent_text(l.indent) + spans_text(l.spans) + "\n"@
}

/// The lines as plain text.
pub open spec fn plain_text(ls: Seq<LineView>) -> Seq<char>
    decreases ls.len(),
{
    if ls.len() == 0 {
        seq![]
    } else {
        plain_text(ls.drop_last()) + plain_line(ls.last())
    }
}

fn push_indent(out: &mut Vec<char>, n: usize)
    ensures
        final(out)@ == old(out)@ + indent_text(n as nat),
{
    let ghost start = out@;
    let mut i: usize = 0;
    while i < n
        invariant
            i <= n,
            out@ == start + indent_text(i as nat),
        decreases n - i,
    {
        out.push(' ');
        out.push(' ');
        i = i + 1;
        assert(out@ =~= start + indent_text(i as nat));
    }
}

/// Convert a `RenderedPage` to plain text (no ANSI codes).
pub fn to_plain_text(page: &RenderedPage) -> (r: String)
    ensures
        r@ == plain_text(line_views(page.lines@)),
{
    let ghost lv = line_views(page.lines@);
    let mut out: Vec<char> = Vec::new();
    let mut i: usize = 0;
    while i < page.lines.len()
        invariant
            i <= page.lines@.len(),
            lv == line_views(page.lines@),
            out@ == plain_text(lv.take(i as int)),
        decreases page.lines@.len() - i,
    {
        assert(lv.take(i + 1).drop_last() =~= lv.take(i as int));
        let line = &page.lines[i];
        let ghost o0 = out@;
        push_indent(&mut out, line.indent);
        let ghost sv = line@.spans;
        let mut j: usize = 0;
        while j < line.spans.len()
            invariant
                j <= line.spans@.len(),
                sv == line@.spans,
                out@ == o0 + indent_text(line.indent as nat) + spans_text(sv.take(j as int)),
            decreases line.spans@.len() - j,
        {
            assert(sv.take(j + 1).drop_last() =~= sv.take(j as int));
            push_str(&mut out, line.spans[j].text.as_str());
            j = j + 1;
        }
        assert(sv.take(j as int) =~= sv);
        out.push('\n');
        proof {
            reveal_strlit("\n");
        }
        assert(out@ =~= o0 + plain_line(lv[i as int]));
        i = i + 1;
    }
    assert(lv.take(i as int) =~= lv);
    string_from_chars(out.as_slice())
}

/// The value of a hexadecimal digit.
pub open spec fn hex_value(c: char) -> Option<int> {
    if '0' <= c && c <= '9' {
        Some(c as int - '0' as int)
    } else if 'a' <= c && c <= 'f' {
        Some(c as int - 'a' as int + 10)
    } else if 'A' <= c && c <= 'F' {
        Some(c as int - 'A' as int + 10)
    } else {
        None
    }
}

/// Two characters read as a hexadecimal byte (`u8::from_str_radix(_, 16)`,
/// which takes a leading `+`).
pub open spec fn hex_pair(a: char, b: char) -> Option<int> {
    if a == '+' {
        hex_value(b)
    } else {
        match (hex_value(a), hex_value(b)) {
            (Some(x), Some(y)) => Some(16 * x + y),
            _ => None,
        }
    }
}

/// The step, 0 to 5, of the colour cube closest to a channel value.
pub open spec fn cube_step(v: int) -> int {
    (v + 25) / 51
}

/// The ANSI 256-colour code closest to a `#rrggbb` colour, from the 6x6x6
/// colour cube; `None` for anything else.
pub open spec fn hex_to_ansi(h: Seq<char>) -> Option<u8> {
    if h.len() > 0 && h[0] == '#' && h.len() >= 7 {
        match (hex_pair(h[1], h[2]), hex_pair(h[3], h[4]), hex_pair(h[5], h[6])) {
            (Some(r), Some(g), Some(b)) => Some(
                (16 + 36 * cube_step(r) + 6 * cube_step(g) + cube_step(b)) as u8,
            ),
            _ => None,
        }
    } else {
        None
    }
}

fn hex_value_exec(c: char) -> (r: Option<u32>)
    ensures
        match r {
            Some(v) => hex_value(c) == Some(v as int) && v < 16,
            None => hex_value(c) is None,
        },
{
    if '0' <= c && c <= '9' {
        Some((c as u32) - ('0' as u32))
    } else if 'a' <= c && c <= 'f' {
        Some((c as u32) - ('a' as u32) + 10)
    } else if 'A' <= c && c <= 'F' {
        Some((c as u32) - ('A' as u32) + 10)
    } else {
        None
    }
}

fn hex_pair_exec(a: char, b: char) -> (r: Option<u32>)
    ensures
        match r {
            Some(v) => hex_pair(a, b) == Some(v as int) && v < 256,
            None => hex_pair(a, b) is None,
        },
{
    if a == '+' {
        hex_value_exec(b)
    } else {
        match (hex_value_exec(a), hex_value_exec(b)) {
            (Some(x), Some(y)) => Some(16 * x + y),
            _ => None,
        }
    }
}

/// Convert a hex color to an ANSI 256 color code (rough approximation).
pub fn hex_to_ansi256(hex: &str) -> (r: Option<u8>)
    ensures
        r == hex_to_ansi(hex@),
{
    let h = chars_of(hex);
    if h.len() == 0 || h[0] != '#' || h.len() < 7 {
        return None;
    }
    match (hex_pair_exec(h[1], h[2]), hex_pair_exec(h[3], h[4]), hex_pair_exec(h[5], h[6])) {
        (Some(r), Some(g), Some(b)) => {
            let c: u32 = 16 + 36 * ((r + 25) / 51) + 6 * ((g + 25) / 51) + (b + 25) / 51;
            assert(c < 256) by {
                assert((r + 25) / 51 <= 5);
                assert((g + 25) / 51 <= 5);
                assert((b + 25) / 51 <= 5);
            }
            Some(c as u8)
        },
        _ => None,
    }
}

/// The decimal digits of a number.
pub open spec fn decimal(n: nat) -> Seq<char>
    decreases n,
{
    if n < 10 {
        seq![((n + 48) as char)]
    } else {
        decimal(n / 10).push(((n % 10 + 48) as char))
    }
}

/// The decimal digits of `n`.
pub fn decimal_chars(n: u64) -> (r: Vec<char>)
    ensures
        r@ == decimal(n as nat),
    decreases n,
{
    let d: u8 = (n % 10) as u8 + 48;
    if n < 10 {
        let mut v: Vec<char> = Vec::new();
        v.push(d as char);
        assert(v@ =~= decimal(n as nat));
        v
    } else {
        let mut v = decimal_chars(n / 10);
        v.push(d as char);
        v
    }
}

/// The ANSI style codes of a span: bold, italic, underline, strike-through.
pub open spec fn style_codes(s: SpanView) -> Seq<Seq<char>> {
    (if s.bold {
        seq!["1"@]
    } else {
        seq![]
    }) + (if s.italic {
        seq!["3"@]
    } else {
        seq![]
    }) + (if s.underline {
        seq!["4"@]
    } else {
        seq![]
    }) + (if s.strikethrough {
        seq!["9"@]
    } else {
        seq![]
    })
}

/// A span as ANSI terminal text: its colour and style codes, its text, and
/// a reset when anything was set.
#[verifier::opaque]
pub open spec fn ansi_span(s: SpanView) -> Seq<char> {
    let a = hex_to_ansi(s.fg_color);
    let codes = style_codes(s);
    (match a {
        Some(n) => "\x1b[38;5;"@ + decimal(n as nat) + "m"@,
        None => seq![],
    }) + (if codes.len() > 0 {
        "\x1b["@ + join_with(codes, ";"@) + "m"@
    } else {
        seq![]
    }) + s.text + (if codes.len() > 0 || a is Some {
        "\x1b[0m"@
    } else {
        seq![]
    })
}

/// The ANSI texts of the spans one after the other.
pub open spec fn ansi_spans(ss: Seq<SpanView>) -> Seq<char>
    decreases ss.len(),
{
    if ss.len() == 0 {
        seq![]
    } else {
        ansi_spans(ss.drop_last()) + ansi_span(ss.last())
    }
}

/// The lines as ANSI terminal text.
pub open spec fn ansi_text(ls: Seq<LineView>) -> Seq<char>
    decreases ls.len(),
{
    if ls.len() == 0 {
        seq![]
    } else {
        ansi_text(ls.drop_last()) + indent_text(ls.last().indent) + ansi_spans(ls.last().spans)
            + "\n"@
    }
}

/// The colour part of a span's ANSI text.
pub open spec fn ansi_color_part(a: Option<u8>) -> Seq<char> {
    match a {
        Some(n) => "\x1b[38;5;"@ + decimal(n as nat) + "m"@,
        None => seq![],
    }
}

/// The style part of a span's ANSI text.
pub open spec fn ansi_codes_part(codes: Seq<Seq<char>>) -> Seq<char> {
    if codes.len() > 0 {
        "\x1b["@ + join_with(codes, ";"@) + "m"@
    } else {
        seq![]
    }
}

fn ansi_color_part_exec(a: Option<u8>) -> (r: Vec<char>)
    ensures
        r@ == ansi_color_part(a),
{
    match a {
        Some(n) => {
            let mut out = chars_of("\x1b[38;5;");
            let d = decimal_chars(n as u64);
            push_chars(&mut out, d.as_slice());
            push_str(&mut out, "m");
            out
        },
        None => Vec::new(),
    }
}

fn ansi_codes_part_exec(span: &StyledSpan) -> (r: (Vec<char>, bool))
    ensures
        r.0@ == ansi_codes_part(style_codes(span@)),
        r.1 == (style_codes(span@).len() > 0),
{
    let mut codes: Vec<Vec<char>> = Vec::new();
    if span.bold {
        codes.push(chars_of("1"));
    }
    if span.italic {
        codes.push(chars_of("3"));
    }
    if span.underline {
        codes.push(chars_of("4"));
    }
    if span.strikethrough {
        codes.push(chars_of("9"));
    }
    assert(crate::text::char_seqs(codes@) =~= style_codes(span@));
    if codes.len() > 0 {
        let mut out = chars_of("\x1b[");
        let sep = chars_of(";");
        let j = crate::text::join_chars(&codes, sep.as_slice());
        push_chars(&mut out, j.as_slice());
        push_str(&mut out, "m");
        (out, true)
    } else {
        (Vec::new(), false)
    }
}

fn push_ansi_span(out: &mut Vec<char>, span: &StyledSpan)
    ensures
        final(out)@ == old(out)@ + ansi_span(span@),
{
    let a = hex_to_ansi256(span.fg_color.as_str());
    let c = ansi_color_part_exec(a);
    let (k, has_codes) = ansi_codes_part_exec(span);
    let ghost o0 = out@;
    push_chars(out, c.as_slice());
    push_chars(out, k.as_slice());
    push_str(out, span.text.as_str());
    let ghost o1 = out@;
    if has_codes || a.is_some() {
        push_str(out, "\x1b[0m");
    }
    assert(out@ =~= o0 + ansi_span(span@)) by {
        reveal(ansi_span);
        assert(o1 =~= o0 + ansi_color_part(a) + ansi_codes_part(style_codes(span@)) + span@.text);
    }
}

/// Convert a `RenderedPage` to ANSI-colored text for terminal display.
pub fn to_ansi_text(page: &RenderedPage) -> (r: String)
    ensures
        r@ == ansi_text(line_views(page.lines@)),
{
    let ghost lv = line_views(page.lines@);
    let mut out: Vec<char> = Vec::new();
    let mut i: usize = 0;
    while i < page.lines.len()
        invariant
            i <= page.lines@.len(),
            lv == line_views(page.lines@),
            out@ == ansi_text(lv.take(i as int)),
        decreases page.lines@.len() - i,
    {
        assert(lv.take(i + 1).drop_last() =~= lv.take(i as int));
        let line = &page.lines[i];
        let ghost o0 = out@;
        push_indent(&mut out, line.indent);
        let ghost sv = line@.spans;
        let mut j: usize = 0;
        while j < line.spans.len()
            invariant
                j <= line.spans@.len(),
                sv == line@.spans,
                out@ == o0 + indent_text(line.indent as nat) + ansi_spans(sv.take(j as int)),
            decreases line.spans@.len() - j,
        {
            assert(sv.take(j + 1).drop_last() =~= sv.take(j as int));
            push_ansi_span(&mut out, &line.spans[j]);
            j = j + 1;
        }
        assert(sv.take(j as int) =~= sv);
        out.push('\n');
        proof {
            reveal_strlit("\n");
        }
        assert(out@ =~= o0 + indent_text(lv[i as int].indent) + ansi_spans(lv[i as int].spans)
            + "\n"@);
        i = i + 1;
    }
    assert(lv.take(i as int) =~= lv);
    string_from_chars(out.as_slice())
}

/// The status bar text.
pub open spec fn status_bar(
    url: Seq<char>,
    mode: Seq<char>,
    tab_info: Seq<char>,
    blocked_count: u64,
    loading: bool,
) -> Seq<char> {
    let status = if loading {
        "Loading..."@
    } else {
        seq![]
    };
    let blocked = if blocked_count > 0 {
        " ["@ + decimal(blocked_count as nat) + " blocked]"@
    } else {
        seq![]
    };
    "\x1b[7m "@ + mode + " | "@ + url + " "@ + status + blocked + " | "@ + tab_info + " \x1b[0m"@
}

/// Render a status bar line.
pub fn render_status_bar(url: &str, mode: &str, tab_info: &str, blocked_count: u64, loading: bool) -> (r: String)
    ensures
        r@ == status_bar(url@, mode@, tab_info@, blocked_count, loading),
{
    let mut out = chars_of("\x1b[7m ");
    push_str(&mut out, mode);
    push_str(&mut out, " | ");
    push_str(&mut out, url);
    push_str(&mut out, " ");
    if loading {
        push_str(&mut out, "Loading...");
    }
    if blocked_count > 0 {
        push_str(&mut out, " [");
        let d = decimal_chars(blocked_count);
        push_chars(&mut out, d.as_slice());
        push_str(&mut out, " blocked]");
    }
    push_str(&mut out, " | ");
    push_str(&mut out, tab_info);
    push_str(&mut out, " \x1b[0m");
    proof {
        let status = if loading {
            "Loading..."@
        } else {
            seq![]
        };
        let blocked = if blocked_count > 0 {
            " ["@ + decimal(blocked_count as nat) + " blocked]"@
        } else {
            seq![]
        };
        assert(out@ =~= "\x1b[7m "@ + mode@ + " | "@ + url@ + " "@ + status + blocked + " | "@
            + tab_info@ + " \x1b[0m"@);
    }
    string_from_chars(out.as_slice())
}

/// A string cut to at most `max` bytes (UTF-8): when longer, the longest
/// prefix of at most `max - 3` bytes (at least none) that ends at a
/// character boundary, without trailing whitespace, then `...`.
pub open spec fn truncated(s: Seq<char>, max: nat) -> Seq<char> {
    if byte_len(s) <= max {
        s
    } else {
        trim_end(s.take(prefix_within(s, if max >= 3 { (max - 3) as nat } else { 0 }) as int)) + "..."@
    }
}

/// Truncate a string to a max length in bytes, with an ellipsis.
pub fn truncate(s: &str, max: usize) -> (r: String)
    ensures
        r@ == truncated(s@, max as nat),
{
    let c = chars_of(s);
    let fit = prefix_within_exec(c.as_slice(), max);
    proof {
        lemma_prefix_within(c@, max as nat);
        if fit == c@.len() {
            assert(c@.take(fit as int) =~= c@);
        } else {
            lemma_byte_len_take(c@, fit + 1);
        }
    }
    if fit == c.len() {
        return string_from_chars(c.as_slice());
    }
    let budget: usize = if max >= 3 {
        max - 3
    } else {
        0
    };
    let end = prefix_within_exec(c.as_slice(), budget);
    proof {
        lemma_prefix_within(c@, budget as nat);
    }
    let head = slice_chars(c.as_slice(), 0, end);
    assert(head@ =~= c@.take(end as int));
    let mut t = trim_end_chars(head.as_slice());
    push_str(&mut t, "...");
    string_from_chars(t.as_slice())
}

/// One tab's entry in the tab bar; `n` counts from one.
pub open spec fn tab_entry(n: nat, title: Seq<char>, active: bool) -> Seq<char> {
    if active {
        "\x1b[7m ["@ + decimal(n) + ": "@ + truncated(title, 20) + "] \x1b[0m"@
    } else {
        "  "@ + decimal(n) + ": "@ + truncated(title, 20) + "  "@
    }
}

/// The tab bar for the tabs `tabs[..k]`, each a title and whether it is
/// the active tab.
pub open spec fn tab_bar(tabs: Seq<(Seq<char>, bool)>, k: nat) -> Seq<char>
    decreases k,
{
    if k == 0 {
        seq![]
    } else {
        tab_bar(tabs, (k - 1) as nat) + tab_entry(k, tabs[k - 1].0, tabs[k - 1].1)
    }
}

/// The titles and active flags of the tab bar's entries.
pub open spec fn tab_entries(tabs: Seq<(&str, bool)>) -> Seq<(Seq<char>, bool)> {
    tabs.map_values(|t: (&str, bool)| (t.0@, t.1))
}

/// Render a tab bar line.
pub fn render_tab_bar(tabs: &[(&str, bool)]) -> (r: String)
    ensures
        r@ == tab_bar(tab_entries(tabs@), tabs@.len()),
{
    let mut out: Vec<char> = Vec::new();
    let mut i: usize = 0;
    while i < tabs.len()
        invariant
            i <= tabs@.len(),
            out@ == tab_bar(tab_entries(tabs@), i as nat),
        decreases tabs@.len() - i,
    {
        let (title, active) = tabs[i];
        let ghost o0 = out@;
        let n = decimal_chars((i + 1) as u64);
        let t = truncate(title, 20);
        if active {
            push_str(&mut out, "\x1b[7m [");
            push_chars(&mut out, n.as_slice());
            push_str(&mut out, ": ");
            push_str(&mut out, t.as_str());
            push_str(&mut out, "] \x1b[0m");
        } else {
            push_str(&mut out, "  ");
            push_chars(&mut out, n.as_slice());
            push_str(&mut out, ": ");
            push_str(&mut out, t.as_str());
            push_str(&mut out, "  ");
        }
        assert(out@ =~= o0 + tab_entry((i + 1) as nat, tabs@[i as int].0@, tabs@[i as int].1));
        i = i + 1;
    }
    string_from_chars(out.as_slice())
}

/// `s` padded with spaces to `w` characters (`format!("{s:<w$}")`).
pub open spec fn pad_right(s: Seq<char>, w: nat) -> Seq<char> {
    if s.len() < w {
        s + Seq::new((w - s.len()) as nat, |i: int| ' ')
    } else {
        s
    }
}

/// A line of the key help: the key, padded, in bold green, then what it
/// does.
pub open spec fn help_line_view(key: Seq<char>, desc: Seq<char>) -> LineView {
    LineView {
        spans: seq![
            plain_span(pad_right(key, 12), "#a3be8c"@, "transparent"@, true, false),
            plain_span(desc, "#eceff4"@, "transparent"@, false, false),
        ],
        indent: 0,
    }
}

fn pad_right_exec(s: &str, w: usize) -> (r: String)
    ensures
        r@ == pad_right(s@, w as nat),
{
    let mut c = chars_of(s);
    let ghost c0 = c@;
    if c.len() < w {
        let n = w - c.len();
        let mut i: usize = 0;
        while i < n
            invariant
                i <= n,
                c@ == c0 + Seq::new(i as nat, |k: int| ' '),
            decreases n - i,
        {
            c.push(' ');
            i = i + 1;
            assert(c@ =~= c0 + Seq::new(i as nat, |k: int| ' '));
        }
    }
    string_from_chars(c.as_slice())
}

fn help_line(key: &str, desc: &str) -> (r: StyledLine)
    ensures
        r@ == help_line_view(key@, desc@),
{
    let mut spans: Vec<StyledSpan> = Vec::new();
    spans.push(make_plain_span(pad_right_exec(key, 12), "#a3be8c", "transparent", true, false));
    spans.push(make_plain_span(desc.to_owned(), "#eceff4", "transparent", false, false));
    let r = StyledLine { spans, indent: 0 };
    assert(r@.spans =~= help_line_view(key@, desc@).spans);
    r
}

fn text_line(text: &str, fg: &str, bold: bool, italic: bool) -> (r: StyledLine)
    ensures
        r@ == (LineView {
            spans: seq![plain_span(text@, fg@, "transparent"@, bold, italic)],
            indent: 0,
        }),
{
    let mut spans: Vec<StyledSpan> = Vec::new();
    spans.push(make_plain_span(text.to_owned(), fg, "transparent", bold, italic));
    let r = StyledLine { spans, indent: 0 };
    assert(r@.spans =~= seq![plain_span(text@, fg@, "transparent"@, bold, italic)]);
    r
}

fn blank_line() -> (r: StyledLine)
    ensures
        r@ == (LineView { spans: seq![], indent: 0 }),
{
    let r = StyledLine { spans: Vec::new(), indent: 0 };
    assert(r@.spans =~= seq![]);
    r
}

/// The lines of the blank page: a greeting and the key help.
pub open spec fn blank_page_lines() -> Seq<LineView> {
    let empty = LineView { spans: seq![], indent: 0 };
    let text = |t: Seq<char>, fg: Seq<char>, bold: bool, italic: bool|
        LineView { spans: seq![plain_span(t, fg, "transparent"@, bold, italic)], indent: 0 };
    seq![
        empty,
        text("  Nami Browser"@, "#88c0d0"@, true, false),
        text("  GPU-rendered TUI browser"@, "#4c566a"@, false, true),
        empty,
        text("  Type 'o' to open a URL, ':help' for commands"@, "#eceff4"@, false, false),
        empty,
        text("  Keybindings:"@, "#88c0d0"@, true, false),
    ] + blank_page_help()
}

/// The key help lines of the blank page.
pub open spec fn blank_page_help() -> Seq<LineView> {
    seq![
        help_line_view("  j/k"@, "Scroll down/up"@),
        help_line_view("  d/u"@, "Half-page down/up"@),
        help_line_view("  gg/G"@, "Top/bottom of page"@),
        help_line_view("  o/O"@, "Open URL / Open in new tab"@),
        help_line_view("  f/F"@, "Follow link / Follow in new tab"@),
        help_line_view("  H/L"@, "Go back/forward"@),
        help_line_view("  t/x"@, "New tab / Close tab"@),
        help_line_view("  gt/gT"@, "Next/previous tab"@),
        help_line_view("  /"@, "Search on page"@),
        help_line_view("  :"@, "Command mode"@),
        help_line_view("  yy"@, "Copy current URL"@),
        help_line_view("  B"@, "Toggle bookmark"@),
        help_line_view("  :q"@, "Quit"@)
    ]
}

/// Render the "about:blank" page.
pub fn render_blank_page() -> (r: RenderedPage)
    ensures
        line_views(r.lines@) == blank_page_lines(),
        r.title@ == "New Tab"@,
        r.total_lines == r.lines@.len(),
{
    let mut lines: Vec<StyledLine> = Vec::new();
    lines.push(blank_line());
    lines.push(text_line("  Nami Browser", "#88c0d0", true, false));
    lines.push(text_line("  GPU-rendered TUI browser", "#4c566a", false, true));
    lines.push(blank_line());
    lines.push(text_line("  Type 'o' to open a URL, ':help' for commands", "#eceff4", false, false));
    lines.push(blank_line());
    lines.push(text_line("  Keybindings:", "#88c0d0", true, false));
    let ghost head = line_views(lines@);
    lines.push(help_line("  j/k", "Scroll down/up"));
    lines.push(help_line("  d/u", "Half-page down/up"));
    lines.push(help_line("  gg/G", "Top/bottom of page"));
    lines.push(help_line("  o/O", "Open URL / Open in new tab"));
    lines.push(help_line("  f/F", "Follow link / Follow in new tab"));
    lines.push(help_line("  H/L", "Go back/forward"));
    lines.push(help_line("  t/x", "New tab / Close tab"));
    lines.push(help_line("  gt/gT", "Next/previous tab"));
    lines.push(help_line("  /", "Search on page"));
    lines.push(help_line("  :", "Command mode"));
    lines.push(help_line("  yy", "Copy current URL"));
    lines.push(help_line("  B", "Toggle bookmark"));
    lines.push(help_line("  :q", "Quit"));
    assert(line_views(lines@).take(7) =~= head);
    assert(line_views(lines@).skip(7) =~= blank_page_help());
    assert(line_views(lines@) =~= line_views(lines@).take(7) + line_views(lines@).skip(7));
    let total_lines = lines.len();
    RenderedPage { lines, title: "New Tab".to_owned(), total_lines }
}

/// A truncated string is never longer than `max` bytes (or the three
/// bytes of the ellipsis when `max` is smaller).
pub proof fn law_truncate_bounded(s: Seq<char>, max: nat)
    ensures
        byte_len(truncated(s, max)) <= if max >= 3 {
            max
        } else {
            3
        },
{
    if byte_len(s) > max {
        let b: nat = if max >= 3 { (max - 3) as nat } else { 0 };
        let p = s.take(prefix_within(s, b) as int);
        lemma_prefix_within(s, b);
        let t = trim_end(p);
        lemma_trim_end_prefix(p);
        lemma_byte_len_take(p, t.len() as int);
        crate::text::lemma_byte_len_add(t, "..."@);
        reveal_strlit("...");
        assert(vstd::utf8::encode_utf8(Seq::<char>::empty()) =~= Seq::<u8>::empty());
        crate::text::lemma_byte_len_push(Seq::<char>::empty(), '.');
        crate::text::lemma_byte_len_push(seq!['.'], '.');
        crate::text::lemma_byte_len_push(seq!['.', '.'], '.');
        assert(Seq::<char>::empty().push('.') =~= seq!['.']);
        assert(seq!['.'].push('.') =~= seq!['.', '.']);
        assert(seq!['.', '.'].push('.') =~= "..."@);
    }
}


/// The ANSI colour of a `#rrggbb` colour is one of the 216 cube colours,
/// 16 to 231.
pub proof fn law_ansi_in_cube(h: Seq<char>)
    ensures
        hex_to_ansi(h) matches Some(n) ==> 16 <= n <= 231,
{
    if h.len() > 0 && h[0] == '#' && h.len() >= 7 {
        match (hex_pair(h[1], h[2]), hex_pair(h[3], h[4]), hex_pair(h[5], h[6])) {
            (Some(r), Some(g), Some(b)) => {
                lemma_hex_pair_byte(h[1], h[2]);
                lemma_hex_pair_byte(h[3], h[4]);
                lemma_hex_pair_byte(h[5], h[6]);
                assert(0 <= cube_step(r) <= 5);
                assert(0 <= cube_step(g) <= 5);
                assert(0 <= cube_step(b) <= 5);
            },
            _ => {},
        }
    }
}

proof fn lemma_hex_pair_byte(a: char, b: char)
    ensures
        hex_pair(a, b) matches Some(v) ==> 0 <= v <= 255,
{
}

} // verus!
