//! What goes into the layout boxes, and the errors of the layout engine.
//!
//! Layout itself works in floating-point pixels and is left to the caller;
//! this module decides which nodes make boxes and what they carry, and
//! holds the error type and the messages it shows.
use vstd::prelude::*;
use crate::browser::opt_str_view;
use crate::css::{Display, WhiteSpace};
use crate::render::opt_view;
use crate::text::{chars_of, collapse_ws, collapse_ws_chars, eq_str, push_str, string_from_chars};

verus! {

/// Why a layout could not be computed.
#[derive(Debug)]
pub enum LayoutError {
    /// The layout computation failed.
    Compute(String),
    /// The layout engine reported an error.
    Taffy(String),
}

/// The message of a layout error.
pub open spec fn layout_message(e: LayoutError) -> Seq<char> {
    match e {
        LayoutError::Compute(s) => "layout computation failed: "@ + s@,
        LayoutError::Taffy(s) => "taffy error: "@ + s@,
    }
}

impl LayoutError {
    /// The message shown for this error.
    pub fn message(&self) -> (r: String)
        ensures
            r@ == layout_message(*self),
    {
        let mut out = match self {
            LayoutError::Compute(_) => chars_of("layout computation failed: "),
            LayoutError::Taffy(_) => chars_of("taffy error: "),
        };
        match self {
            LayoutError::Compute(s) => push_str(&mut out, s.as_str()),
            LayoutError::Taffy(s) => push_str(&mut out, s.as_str()),
        }
        string_from_chars(out.as_slice())
    }
}

/// The link state of an element's box, for an element with tag `tag` and
/// `href` attribute `own_href` inside a box with `parent_is_link` and
/// `parent_href`: an `a` with an `href` is a link and so is everything
/// inside a link; an `a` carries its own target, any other element its
/// parent's.
pub open spec fn element_link(
    tag: Seq<char>,
    own_href: Option<Seq<char>>,
    parent_is_link: bool,
    parent_href: Option<Seq<char>>,
) -> (bool, Option<Seq<char>>) {
    let is_a = tag == "a"@;
    ((is_a && own_href is Some) || parent_is_link, if is_a { own_href } else { parent_href })
}

/// The link state of the box an element makes, or `None` when its display
/// is `none` and it makes no box.
pub fn element_box_link(
    display: Display,
    tag: &str,
    own_href: Option<&str>,
    parent_is_link: bool,
    parent_href: Option<&str>,
) -> (r: Option<(bool, Option<String>)>)
    ensures
        display == Display::NoDisplay ==> r is None,
        display != Display::NoDisplay ==> (r matches Some(p) && (p.0, opt_view(p.1)) == element_link(
            tag@,
            opt_str_view(own_href),
            parent_is_link,
            opt_str_view(parent_href),
        )),
{
    if display == Display::NoDisplay {
        return None;
    }
    let is_a = eq_str(chars_of(tag).as_slice(), "a");
    let is_link = (is_a && own_href.is_some()) || parent_is_link;
    let from = if is_a { own_href } else { parent_href };
    let href = match from {
        Some(h) => Some(h.to_owned()),
        None => None,
    };
    Some((is_link, href))
}

/// The text a text node shows under `white_space`: as written for `pre`
/// and `pre-wrap`, with its whitespace collapsed otherwise; `None` when
/// nothing is left and the node makes no box.
pub open spec fn shown_text(text: Seq<char>, white_space: WhiteSpace) -> Option<Seq<char>> {
    let t = if white_space == WhiteSpace::Pre || white_space == WhiteSpace::PreWrap {
        text
    } else {
        collapse_ws(text)
    };
    if t.len() == 0 {
        None
    } else {
        Some(t)
    }
}

/// The text of a text node's box, or `None` when it makes no box.
pub fn text_box_content(text: &str, white_space: WhiteSpace) -> (r: Option<String>)
    ensures
        opt_view(r) == shown_text(text@, white_space),
{
    let c = chars_of(text);
    let t = if white_space == WhiteSpace::Pre || white_space == WhiteSpace::PreWrap {
        c
    } else {
        collapse_ws_chars(c.as_slice())
    };
    if t.len() == 0 {
        None
    } else {
        Some(string_from_chars(t.as_slice()))
    }
}

} // verus!
