use nami::css::{Display, WhiteSpace};
use nami::layout::{element_box_link, text_box_content};

#[test]
fn hidden_elements_make_no_box() {
    assert_eq!(element_box_link(Display::NoDisplay, "a", Some("/x"), false, None), None);
}

#[test]
fn links_carry_their_target_to_their_contents() {
    assert_eq!(element_box_link(Display::Inline, "a", Some("/x"), false, None), Some((true, Some("/x".to_string()))));
    assert_eq!(element_box_link(Display::Inline, "a", None, false, Some("/p")), Some((false, None)));
    assert_eq!(element_box_link(Display::Block, "span", Some("/y"), true, Some("/p")), Some((true, Some("/p".to_string()))));
    assert_eq!(element_box_link(Display::Block, "div", None, false, None), Some((false, None)));
}

#[test]
fn text_boxes_collapse_whitespace_unless_preformatted() {
    assert_eq!(text_box_content("  a \n b ", WhiteSpace::Normal), Some("a b".to_string()));
    assert_eq!(text_box_content("  a \n b ", WhiteSpace::Pre), Some("  a \n b ".to_string()));
    assert_eq!(text_box_content(" \n\t ", WhiteSpace::Normal), None);
    assert_eq!(text_box_content("", WhiteSpace::PreWrap), None);
    assert_eq!(text_box_content("  ", WhiteSpace::PreWrap), Some("  ".to_string()));
}
