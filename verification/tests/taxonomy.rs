use flat_html::tag::TagKind;
use flat_html::text::str_eq;
use flat_html::to_html_tag;
use std::str::FromStr;

fn kind_of(name: &str) -> TagKind {
    TagKind::from_str(name).unwrap()
}

fn recognized() -> Vec<(&'static str, TagKind)> {
    vec![
        ("html", TagKind::Html),
        ("meta", TagKind::Meta),
        ("title", TagKind::Title),
        ("script", TagKind::Script),
        ("head", TagKind::Head),
        ("body", TagKind::Body),
        ("div", TagKind::Div),
        ("span", TagKind::Span),
        ("input", TagKind::Input),
        ("label", TagKind::Label),
        ("table", TagKind::Table),
        ("ul", TagKind::UnorderedList),
        ("li", TagKind::ListItem),
        ("style", TagKind::Style),
        ("b", TagKind::Bold),
        ("i", TagKind::Italic),
        ("h1", TagKind::Heading(1)),
        ("a", TagKind::Link),
        ("p", TagKind::Paragraph),
        ("code", TagKind::Code),
        ("br", TagKind::LineBreak),
    ]
}

#[test]
fn every_recognized_name_has_its_kind() {
    for (name, kind) in recognized() {
        assert_eq!(kind_of(name), kind, "{}", name);
    }
}

#[test]
fn every_canonical_kind_has_its_name() {
    for (name, kind) in recognized() {
        assert_eq!(to_html_tag(&kind), name);
    }
}

#[test]
fn div_maps_both_ways() {
    assert_eq!(kind_of("div"), TagKind::Div);
    assert_eq!(to_html_tag(&TagKind::Div), "div");
}

#[test]
fn recognized_names_round_trip() {
    for (name, _) in recognized() {
        assert_eq!(to_html_tag(&kind_of(name)), name);
    }
}

#[test]
fn canonical_kinds_round_trip() {
    for (_, kind) in recognized() {
        assert_eq!(kind_of(&to_html_tag(&kind)), kind);
    }
}

#[test]
fn parsing_never_fails() {
    let inputs = [
        "", " ", "div", "foo", "<div>", "div class=\"x\"", "\u{0}", "h\u{e9}ad", "\u{1f600}",
        "a-very-long-name-that-is-no-tag-at-all",
    ];
    for input in inputs {
        assert!(TagKind::from_str(input).is_ok(), "{:?}", input);
        assert!(input.parse::<TagKind>().is_ok(), "{:?}", input);
    }
}

#[test]
fn parse_agrees_with_from_str() {
    assert_eq!("span".parse::<TagKind>().unwrap(), TagKind::Span);
    assert_eq!("nope".parse::<TagKind>().unwrap(), TagKind::Unknown);
}

#[test]
fn unknown_name_degrades_to_div() {
    assert_eq!(kind_of("foo"), TagKind::Unknown);
    assert_eq!(to_html_tag(&TagKind::Unknown), "div");
    assert_ne!(to_html_tag(&kind_of("foo")), "foo");
}

#[test]
fn unrecognized_names_are_unknown() {
    for name in ["", "h2", "h3", "h6", "h", "h11", "dt", "dd", "pre", "tr", "td", "math", "em", "strong"] {
        assert_eq!(kind_of(name), TagKind::Unknown, "{:?}", name);
    }
}

#[test]
fn heading_level_one_round_trips() {
    assert_eq!(kind_of("h1"), TagKind::Heading(1));
    assert_eq!(to_html_tag(&TagKind::Heading(1)), "h1");
}

#[test]
fn heading_name_ignores_level() {
    assert_eq!(to_html_tag(&TagKind::Heading(2)), "h1");
    assert_ne!(to_html_tag(&TagKind::Heading(2)), "h2");
    for level in [0, 3, 4, 5, 6, 7, u32::MAX] {
        assert_eq!(to_html_tag(&TagKind::Heading(level)), "h1");
    }
    assert_eq!(kind_of(&to_html_tag(&TagKind::Heading(2))), TagKind::Heading(1));
}

#[test]
fn upper_case_is_not_folded() {
    assert_eq!(kind_of("DIV"), TagKind::Unknown);
    assert_eq!(kind_of("UL"), TagKind::Unknown);
    assert_eq!(kind_of("Div"), TagKind::Unknown);
    assert_eq!(kind_of("H1"), TagKind::Unknown);
    assert_eq!(kind_of("bR"), TagKind::Unknown);
}

#[test]
fn blanks_are_not_trimmed() {
    assert_eq!(kind_of(" ul "), TagKind::Unknown);
    assert_eq!(kind_of("ul "), TagKind::Unknown);
    assert_eq!(kind_of(" ul"), TagKind::Unknown);
    assert_eq!(kind_of("div\n"), TagKind::Unknown);
    assert_eq!(kind_of("\tp"), TagKind::Unknown);
}

#[test]
fn brackets_and_attributes_are_not_stripped() {
    assert_eq!(kind_of("<div>"), TagKind::Unknown);
    assert_eq!(kind_of("</div>"), TagKind::Unknown);
    assert_eq!(kind_of("a href"), TagKind::Unknown);
}

#[test]
fn prefixes_and_extensions_of_names_are_unknown() {
    assert_eq!(kind_of("htm"), TagKind::Unknown);
    assert_eq!(kind_of("htmll"), TagKind::Unknown);
    assert_eq!(kind_of("bo"), TagKind::Unknown);
    assert_eq!(kind_of("bb"), TagKind::Unknown);
    assert_eq!(kind_of("tabel"), TagKind::Unknown);
    assert_eq!(kind_of("titl\u{e9}"), TagKind::Unknown);
}

#[test]
fn every_kind_has_a_recognized_name() {
    let mut kinds: Vec<TagKind> = recognized().into_iter().map(|(_, kind)| kind).collect();
    kinds.push(TagKind::Unknown);
    kinds.push(TagKind::Heading(0));
    kinds.push(TagKind::Heading(6));
    for kind in kinds {
        let name = to_html_tag(&kind);
        assert!(!name.is_empty());
        assert!(name.len() <= 6);
        assert!(name.chars().all(|c| c.is_ascii_lowercase() || c.is_ascii_digit()));
        assert_ne!(kind_of(&name), TagKind::Unknown);
    }
}

#[test]
fn tag_kind_is_copied_and_compared() {
    let kind = TagKind::Heading(3);
    let copy = kind;
    assert_eq!(kind, copy);
    assert_eq!(kind.clone(), TagKind::Heading(3));
    assert_ne!(TagKind::Heading(3), TagKind::Heading(4));
    assert_ne!(TagKind::LineBreak, TagKind::Unknown);
    assert_eq!(format!("{:?}", TagKind::UnorderedList), "UnorderedList");
    assert_eq!(format!("{:?}", TagKind::Heading(2)), "Heading(2)");
}

#[test]
fn str_eq_is_exact() {
    assert!(str_eq("", ""));
    assert!(str_eq("div", "div"));
    assert!(!str_eq("div", "DIV"));
    assert!(!str_eq("div", "di"));
    assert!(!str_eq("di", "div"));
    assert!(!str_eq("div", "dib"));
    assert!(!str_eq("", "a"));
    assert!(str_eq("h\u{e9}ad", "h\u{e9}ad"));
    assert!(!str_eq("h\u{e9}ad", "h\u{e8}ad"));
    assert!(!str_eq("\u{e9}", "e"));
}

#[test]
fn canonical_kinds_have_distinct_names() {
    let table = recognized();
    for (i, (_, first)) in table.iter().enumerate() {
        for (_, second) in table.iter().skip(i + 1) {
            assert_ne!(to_html_tag(first), to_html_tag(second));
        }
    }
}
