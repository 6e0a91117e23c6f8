//! The tag taxonomy: the closed set of tag kinds and the two mappings
//! between a kind and its lowercase tag name.

use crate::text::str_eq;
use std::str::FromStr;
use vstd::prelude::*;

verus! {

/// `anyhow::Error`, the error type that parsing a tag name is declared with.
/// It is opaque here: no value of it is ever built or inspected.
#[verifier::external_type_specification]
#[verifier::external_body]
pub struct ExAnyhowError(anyhow::Error);

/// The semantic category of a markup tag.
#[derive(PartialEq, Eq, Structural, Debug, Copy, Clone)]
pub enum TagKind {
    /// `<html>`
    Html,
    /// `<meta>`
    Meta,
    /// `<title>`
    Title,
    /// `<script>`
    Script,
    /// `<head>`
    Head,
    /// `<body>`
    Body,
    /// `<div>`
    Div,
    /// `<span>`
    Span,
    /// `<input>`
    Input,
    /// `<label>`
    Label,
    /// `<table>`
    Table,
    /// `<ul>`
    UnorderedList,
    /// `<li>`
    ListItem,
    /// `<style>`
    Style,
    /// `<b>`
    Bold,
    /// `<i>`
    Italic,
    /// A heading with its level. Only level 1 has a name of its own.
    Heading(u32),
    /// `<a>`
    Link,
    /// `<p>`
    Paragraph,
    /// `<code>`
    Code,
    /// `<br>`
    LineBreak,
    /// Any tag whose name is not recognized.
    Unknown,
}

/// The canonical tag name of `kind`: lowercase, without brackets or attributes.
///
/// Every heading is named `h1`, whatever its level, and `Unknown` is named
/// `div`, so that every kind has a name that can be rendered.
pub open spec fn tag_name(kind: TagKind) -> Seq<char> {
    match kind {
        TagKind::Html => "html"@,
        TagKind::Meta => "meta"@,
        TagKind::Title => "title"@,
        TagKind::Script => "script"@,
        TagKind::Head => "head"@,
        TagKind::Body => "body"@,
        TagKind::Div => "div"@,
        TagKind::Span => "span"@,
        TagKind::Input => "input"@,
        TagKind::Label => "label"@,
        TagKind::Table => "table"@,
        TagKind::UnorderedList => "ul"@,
        TagKind::ListItem => "li"@,
        TagKind::Style => "style"@,
        TagKind::Bold => "b"@,
        TagKind::Italic => "i"@,
        TagKind::Heading(_) => "h1"@,
        TagKind::Link => "a"@,
        TagKind::Paragraph => "p"@,
        TagKind::Code => "code"@,
        TagKind::LineBreak => "br"@,
        TagKind::Unknown => "div"@,
    }
}

/// The kind that the tag name `name` stands for, and `Unknown` for every
/// other sequence of characters. The match is exact: character for character.
pub open spec fn kind_of_name(name: Seq<char>) -> TagKind {
    if name == "html"@ {
        TagKind::Html
    } else if name == "meta"@ {
        TagKind::Meta
    } else if name == "title"@ {
        TagKind::Title
    } else if name == "script"@ {
        TagKind::Script
    } else if name == "head"@ {
        TagKind::Head
    } else if name == "body"@ {
        TagKind::Body
    } else if name == "div"@ {
        TagKind::Div
    } else if name == "span"@ {
        TagKind::Span
    } else if name == "input"@ {
        TagKind::Input
    } else if name == "label"@ {
        TagKind::Label
    } else if name == "table"@ {
        TagKind::Table
    } else if name == "ul"@ {
        TagKind::UnorderedList
    } else if name == "li"@ {
        TagKind::ListItem
    } else if name == "style"@ {
        TagKind::Style
    } else if name == "b"@ {
        TagKind::Bold
    } else if name == "i"@ {
        TagKind::Italic
    } else if name == "h1"@ {
        TagKind::Heading(1)
    } else if name == "a"@ {
        TagKind::Link
    } else if name == "p"@ {
        TagKind::Paragraph
    } else if name == "code"@ {
        TagKind::Code
    } else if name == "br"@ {
        TagKind::LineBreak
    } else {
        TagKind::Unknown
    }
}

/// Whether `name` is one of the tag names that the taxonomy recognizes.
pub open spec fn is_recognized(name: Seq<char>) -> bool {
    ||| name == "html"@
    ||| name == "meta"@
    ||| name == "title"@
    ||| name == "script"@
    ||| name == "head"@
    ||| name == "body"@
    ||| name == "div"@
    ||| name == "span"@
    ||| name == "input"@
    ||| name == "label"@
    ||| name == "table"@
    ||| name == "ul"@
    ||| name == "li"@
    ||| name == "style"@
    ||| name == "b"@
    ||| name == "i"@
    ||| name == "h1"@
    ||| name == "a"@
    ||| name == "p"@
    ||| name == "code"@
    ||| name == "br"@
}

/// Whether `kind` is what some recognized name stands for: every kind but
/// `Unknown` and the headings of a level other than 1.
pub open spec fn is_canonical(kind: TagKind) -> bool {
    match kind {
        TagKind::Unknown => false,
        TagKind::Heading(level) => level == 1,
        _ => true,
    }
}

/// Whether `c` may occur in a tag name: a lowercase ASCII letter or a digit.
pub open spec fn is_name_char(c: char) -> bool {
    'a' <= c <= 'z' || '0' <= c <= '9'
}

impl FromStr for TagKind {
    type Err = anyhow::Error;

    /// Classifies a tag name. Every string has a kind, so the result is
    /// always `Ok`; a name that is not recognized gives `Unknown`.
    fn from_str(s: &str) -> (r: Result<Self, anyhow::Error>)
        ensures
            r matches Ok(kind) && kind == kind_of_name(s@),
    {
        Ok(
            if str_eq(s, "html") {
                TagKind::Html
            } else if str_eq(s, "meta") {
                TagKind::Meta
            } else if str_eq(s, "title") {
                TagKind::Title
            } else if str_eq(s, "script") {
                TagKind::Script
            } else if str_eq(s, "head") {
                TagKind::Head
            } else if str_eq(s, "body") {
                TagKind::Body
            } else if str_eq(s, "div") {
                TagKind::Div
            } else if str_eq(s, "span") {
                TagKind::Span
            } else if str_eq(s, "input") {
                TagKind::Input
            } else if str_eq(s, "label") {
                TagKind::Label
            } else if str_eq(s, "table") {
                TagKind::Table
            } else if str_eq(s, "ul") {
                TagKind::UnorderedList
            } else if str_eq(s, "li") {
                TagKind::ListItem
            } else if str_eq(s, "style") {
                TagKind::Style
            } else if str_eq(s, "b") {
                TagKind::Bold
            } else if str_eq(s, "i") {
                TagKind::Italic
            } else if str_eq(s, "h1") {
                TagKind::Heading(1)
            } else if str_eq(s, "a") {
                TagKind::Link
            } else if str_eq(s, "p") {
                TagKind::Paragraph
            } else if str_eq(s, "code") {
                TagKind::Code
            } else if str_eq(s, "br") {
                TagKind::LineBreak
            } else {
                TagKind::Unknown
            },
        )
    }
}

/// The canonical tag name of `kind`, for writing the tag out again.
pub fn to_html_tag(kind: &TagKind) -> (name: String)
    ensures
        name@ == tag_name(*kind),
{
    match kind {
        TagKind::Html => "html".to_owned(),
        TagKind::Meta => "meta".to_owned(),
        TagKind::Title => "title".to_owned(),
        TagKind::Script => "script".to_owned(),
        TagKind::Head => "head".to_owned(),
        TagKind::Body => "body".to_owned(),
        TagKind::Div => "div".to_owned(),
        TagKind::Span => "span".to_owned(),
        TagKind::Input => "input".to_owned(),
        TagKind::Label => "label".to_owned(),
        TagKind::Table => "table".to_owned(),
        TagKind::UnorderedList => "ul".to_owned(),
        TagKind::ListItem => "li".to_owned(),
        TagKind::Style => "style".to_owned(),
        TagKind::Bold => "b".to_owned(),
        TagKind::Italic => "i".to_owned(),
        TagKind::Heading(_) => "h1".to_owned(),
        TagKind::Link => "a".to_owned(),
        TagKind::Paragraph => "p".to_owned(),
        TagKind::Code => "code".to_owned(),
        TagKind::LineBreak => "br".to_owned(),
        TagKind::Unknown => "div".to_owned(),
    }
}

/// Makes the characters of every tag name known to the solver.
proof fn lemma_names_revealed()
    ensures
        "html"@ =~= seq!['h', 't', 'm', 'l'],
        "meta"@ =~= seq!['m', 'e', 't', 'a'],
        "title"@ =~= seq!['t', 'i', 't', 'l', 'e'],
        "script"@ =~= seq!['s', 'c', 'r', 'i', 'p', 't'],
        "head"@ =~= seq!['h', 'e', 'a', 'd'],
        "body"@ =~= seq!['b', 'o', 'd', 'y'],
        "div"@ =~= seq!['d', 'i', 'v'],
        "span"@ =~= seq!['s', 'p', 'a', 'n'],
        "input"@ =~= seq!['i', 'n', 'p', 'u', 't'],
        "label"@ =~= seq!['l', 'a', 'b', 'e', 'l'],
        "table"@ =~= seq!['t', 'a', 'b', 'l', 'e'],
        "ul"@ =~= seq!['u', 'l'],
        "li"@ =~= seq!['l', 'i'],
        "style"@ =~= seq!['s', 't', 'y', 'l', 'e'],
        "b"@ =~= seq!['b'],
        "i"@ =~= seq!['i'],
        "h1"@ =~= seq!['h', '1'],
        "a"@ =~= seq!['a'],
        "p"@ =~= seq!['p'],
        "code"@ =~= seq!['c', 'o', 'd', 'e'],
        "br"@ =~= seq!['b', 'r'],
{
    reveal_strlit("html");
    reveal_strlit("meta");
    reveal_strlit("title");
    reveal_strlit("script");
    reveal_strlit("head");
    reveal_strlit("body");
    reveal_strlit("div");
    reveal_strlit("span");
    reveal_strlit("input");
    reveal_strlit("label");
    reveal_strlit("table");
    reveal_strlit("ul");
    reveal_strlit("li");
    reveal_strlit("style");
    reveal_strlit("b");
    reveal_strlit("i");
    reveal_strlit("h1");
    reveal_strlit("a");
    reveal_strlit("p");
    reveal_strlit("code");
    reveal_strlit("br");
}

/// A recognized name survives the round trip: the name of the kind that it
/// stands for is the name itself.
pub proof fn lemma_recognized_name_round_trips(name: Seq<char>)
    requires
        is_recognized(name),
    ensures
        is_canonical(kind_of_name(name)),
        tag_name(kind_of_name(name)) == name,
{
}

/// A name stands for `Unknown` exactly when it is not recognized.
pub proof fn lemma_unknown_iff_unrecognized(name: Seq<char>)
    ensures
        kind_of_name(name) == TagKind::Unknown <==> !is_recognized(name),
{
}

/// A name that is not recognized degrades to `Unknown`, which is written out
/// as `div`: the round trip loses the name.
pub proof fn lemma_unrecognized_name_degrades(name: Seq<char>)
    requires
        !is_recognized(name),
    ensures
        kind_of_name(name) == TagKind::Unknown,
        tag_name(kind_of_name(name)) == "div"@,
        tag_name(kind_of_name(name)) != name,
{
}

/// A canonical kind survives the round trip: its name stands for the kind
/// itself.
pub proof fn lemma_canonical_kind_round_trips(kind: TagKind)
    requires
        is_canonical(kind),
    ensures
        kind_of_name(tag_name(kind)) == kind,
{
    lemma_names_revealed();
    // The length and the first two characters tell any two names apart.
    let name = tag_name(kind);
    assert(name.len() >= 1);
    assert(is_name_char(name[0]));
    assert(name.len() >= 2 ==> is_name_char(name[1]));
}

/// No two canonical kinds share a name.
pub proof fn lemma_canonical_names_are_distinct(a: TagKind, b: TagKind)
    requires
        is_canonical(a),
        is_canonical(b),
        tag_name(a) == tag_name(b),
    ensures
        a == b,
{
    lemma_canonical_kind_round_trips(a);
    lemma_canonical_kind_round_trips(b);
}

/// The name of a heading does not depend on its level: every heading is
/// written out as `h1`, and read back as a heading of level 1.
pub proof fn lemma_heading_name_ignores_level(level: u32)
    ensures
        tag_name(TagKind::Heading(level)) == "h1"@,
        tag_name(TagKind::Heading(level)) == tag_name(TagKind::Heading(1)),
        kind_of_name(tag_name(TagKind::Heading(level))) == TagKind::Heading(1),
{
    lemma_canonical_kind_round_trips(TagKind::Heading(1));
}

/// Every kind has a name, and that name is a recognized one.
pub proof fn lemma_every_kind_is_named(kind: TagKind)
    ensures
        is_recognized(tag_name(kind)),
{
}

/// A tag name is one to six lowercase letters or digits: it holds no
/// bracket, no blank and no upper case.
pub proof fn lemma_tag_name_is_lowercase(kind: TagKind)
    ensures
        1 <= tag_name(kind).len() <= 6,
        forall|i: int| 0 <= i < tag_name(kind).len() ==> is_name_char(#[trigger] tag_name(kind)[i]),
{
    lemma_names_revealed();
}

/// The match is exact: a name that holds any character other than a
/// lowercase letter or a digit, such as an upper-case letter or a blank,
/// stands for `Unknown`.
pub proof fn lemma_name_with_other_char_is_unknown(name: Seq<char>, i: int)
    requires
        0 <= i < name.len(),
        !is_name_char(name[i]),
    ensures
        kind_of_name(name) == TagKind::Unknown,
{
    if is_recognized(name) {
        lemma_recognized_name_round_trips(name);
        lemma_tag_name_is_lowercase(kind_of_name(name));
    }
}

} // verus!
