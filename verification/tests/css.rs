use nami::css::{
    cascade_keywords, compute_selector_specificity, default_keywords_for_tag, selector_matches_element,
    selector_matches_tag, simple_selector_matches, Display, FontWeight, KeywordStyle, LengthTarget,
    Side, Stylesheet, TextDecoration,
};
use nami::dom::Element;

fn element(tag: &str, attrs: &[(&str, &str)]) -> Element {
    Element {
        tag: tag.to_string(),
        attrs: attrs.iter().map(|(k, v)| (k.to_string(), v.to_string())).collect(),
        children: Vec::new(),
    }
}

#[test]
fn parse_empty_css() {
    let sheet = Stylesheet::parse("");
    assert!(sheet.rules().is_empty());
}

#[test]
fn parse_single_rule() {
    let css = "p { color: red; font-size: 16px; }";
    let sheet = Stylesheet::parse(css);
    assert_eq!(sheet.rules().len(), 1);
    assert_eq!(sheet.rules()[0].selector, "p");
    assert!(!sheet.rules()[0].declarations.is_empty());
}

#[test]
fn parse_multiple_rules() {
    let css = "h1 { font-size: 24px; } p { color: blue; } a { text-decoration: underline; }";
    let sheet = Stylesheet::parse(css);
    assert_eq!(sheet.rules().len(), 3);
}

#[test]
fn matching_declarations_type_selector() {
    let css = "p { color: red; } div { color: blue; }";
    let sheet = Stylesheet::parse(css);

    let p_decls = sheet.matching_declarations("p");
    assert!(!p_decls.is_empty());
    assert!(p_decls.iter().any(|d| d.property == "color"));

    let div_decls = sheet.matching_declarations("div");
    assert!(!div_decls.is_empty());
    assert!(div_decls.iter().any(|d| d.property == "color"));
}

#[test]
fn matching_declarations_universal_selector() {
    let css = "* { margin: 0px; }";
    let sheet = Stylesheet::parse(css);

    let decls = sheet.matching_declarations("anything");
    assert!(!decls.is_empty());
}

#[test]
fn matching_declarations_no_match() {
    let css = "p { color: red; }";
    let sheet = Stylesheet::parse(css);

    let decls = sheet.matching_declarations("div");
    assert!(decls.is_empty());
}

#[test]
fn compute_style_applies_color() {
    let css = "p { color: red; }";
    let sheet = Stylesheet::parse(css);
    let base = KeywordStyle::default();

    let computed = sheet.compute_style("p", &base);
    assert_eq!(computed.color, "red");
}

#[test]
fn compute_style_applies_display() {
    let css = "span { display: block; }";
    let sheet = Stylesheet::parse(css);
    let base = KeywordStyle::default();

    let computed = sheet.compute_style("span", &base);
    assert_eq!(computed.display, Display::Block);
}

#[test]
fn compute_style_applies_font_weight() {
    let css = "strong { font-weight: bold; }";
    let sheet = Stylesheet::parse(css);
    let base = KeywordStyle::default();

    let computed = sheet.compute_style("strong", &base);
    assert_eq!(computed.font_weight, FontWeight::Bold);
}

#[test]
fn compute_style_no_match_returns_base() {
    let css = "p { color: red; }";
    let sheet = Stylesheet::parse(css);
    let base = KeywordStyle::default();

    let computed = sheet.compute_style("div", &base);
    assert_eq!(computed.color, base.color);
}

#[test]
fn parse_invalid_css_returns_empty() {
    let css = "this is { not: valid {{ css }}}}";
    let sheet = Stylesheet::parse(css);
    let _ = sheet.rules();
}

#[test]
fn class_selector_matching() {
    let elem = element("div", &[("class", "container active")]);
    assert!(simple_selector_matches(".container", &elem));
    assert!(simple_selector_matches("div.container", &elem));
    assert!(simple_selector_matches(".active", &elem));
    assert!(!simple_selector_matches(".missing", &elem));
}

#[test]
fn id_selector_matching() {
    let elem = element("div", &[("id", "main")]);
    assert!(simple_selector_matches("#main", &elem));
    assert!(simple_selector_matches("div#main", &elem));
    assert!(!simple_selector_matches("#other", &elem));
}

#[test]
fn cascade_inherits_color() {
    let mut parent = KeywordStyle::default();
    parent.color = "red".to_string();
    let elem = element("span", &[]);
    let (result, _) = cascade_keywords(&elem, &[], &parent);
    assert_eq!(result.color, "red");
}

#[test]
fn default_computed_style() {
    let s = KeywordStyle::default();
    assert_eq!(s.display, Display::Inline);
    assert_eq!(s.color, "#000000");
    assert_eq!(s.background, "transparent");
    assert_eq!(s.font_weight, FontWeight::Normal);
    assert_eq!(s.text_decoration, TextDecoration::NoDecoration);
}

#[test]
fn specificity_counts_ids_classes_and_types() {
    assert_eq!(compute_selector_specificity("div#main .item > a:hover"), (1, 2, 2));
    assert_eq!(compute_selector_specificity("div.container"), (0, 1, 1));
    assert_eq!(compute_selector_specificity("*"), (0, 0, 0));
    assert_eq!(compute_selector_specificity("ul li[data-x]"), (0, 1, 2));
}

#[test]
fn selector_lists_and_combinators() {
    assert!(selector_matches_tag("h1, h2, p", "h2"));
    assert!(selector_matches_tag("div > p", "p"));
    assert!(selector_matches_tag("body *", "span"));
    assert!(!selector_matches_tag("div p", "div"));
    let elem = element("a", &[("class", "nav link")]);
    assert!(selector_matches_element("ul .link", &elem));
    assert!(!selector_matches_element("ul .button", &elem));
}

#[test]
fn element_declarations_sorted_by_specificity() {
    let sheet = Stylesheet::parse("#x { color: green; } p { color: red; } .c { color: blue; } p { color: black; }");
    let elem = element("p", &[("id", "x"), ("class", "c")]);
    let values: Vec<&str> = sheet
        .matching_declarations_for_element(&elem)
        .iter()
        .map(|d| d.value.as_str())
        .collect();
    assert_eq!(values, vec!["red", "#000", "#00f", "green"]);
}

#[test]
fn declarations_give_keywords_and_lengths() {
    let sheet = Stylesheet::parse("p { margin-left: 4px; border: 2px dashed #123456; font-weight: 600; display: nonsense; }");
    let elem = element("p", &[]);
    let parent = KeywordStyle::default();
    let (style, updates) = cascade_keywords(&elem, &[sheet], &parent);
    assert_eq!(style.border_color, "#123456");
    assert_eq!(style.font_weight, FontWeight::Numeric(600));
    assert_eq!(style.display, Display::Block);
    assert!(updates.iter().any(|u| u.target == LengthTarget::Margin(Side::Left) && u.value == "4px"));
    assert!(updates.iter().any(|u| u.target == LengthTarget::BorderWidth && u.value == "2px"));
}

#[test]
fn inline_style_comes_last() {
    let sheet = Stylesheet::parse("span { color: blue; }");
    let elem = element("span", &[("style", "color: green")]);
    let (style, _) = cascade_keywords(&elem, &[sheet], &KeywordStyle::default());
    assert_eq!(style.color, "green");
}

#[test]
fn tag_defaults() {
    assert_eq!(default_keywords_for_tag("li").display, Display::ListItem);
    assert_eq!(default_keywords_for_tag("script").display, Display::NoDisplay);
    let a = default_keywords_for_tag("a");
    assert_eq!(a.color, "#5e81ac");
    assert_eq!(a.text_decoration, TextDecoration::Underline);
    assert_eq!(default_keywords_for_tag("h3").font_weight, FontWeight::Bold);
}

#[test]
fn important_declarations_are_flagged() {
    let sheet = Stylesheet::parse("p { color: red !important; }");
    let d = &sheet.rules()[0].declarations[0];
    assert_eq!(d.property, "color");
    assert!(d.important);
}
