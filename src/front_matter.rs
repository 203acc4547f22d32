//! Front matter and heading helpers for the supported page formats.
use vstd::prelude::*;
use vstd::string::*;

use crate::render::{hashes, heading_text, render_hashes, render_heading, zola_front_matter_text};
use crate::text::cat3;

verus! {

/// Relies on `String::push`, which appends one character.
pub assume_specification[ String::push ](s: &mut String, ch: char)
    ensures
        final(s)@ == old(s)@.push(ch),
;

/// The front matter of a page.
#[derive(Debug, Clone, PartialEq, Eq)]
pub struct FrontMatter {
    pub title: Option<String>,
}

/// Page formats.
#[derive(Debug, Clone, Copy, PartialEq, Eq, Structural)]
pub enum FrontMatterFormat {
    Markdown,
    Zola,
}

/// The view of an optional title.
pub open spec fn title_view(title: Option<String>) -> Option<Seq<char>> {
    match title {
        Some(t) => Some(t@),
        None => None,
    }
}

/// Plain front matter: a level-one heading with the title, if there is one.
pub open spec fn plain_front_matter_text(title: Option<Seq<char>>) -> Seq<char> {
    match title {
        Some(t) => heading_text(t, 1),
        None => Seq::empty(),
    }
}

/// Renders plain Markdown front matter.
pub fn render_plain_front_matter(title: &Option<String>) -> (r: String)
    ensures
        r@ == plain_front_matter_text(title_view(*title)),
{
    match title {
        Some(t) => render_heading(t.as_str(), 1),
        None => String::new(),
    }
}

/// Renders a Zola front matter block.
pub fn render_zola_front_matter(title: &Option<String>) -> (r: String)
    ensures
        r@ == zola_front_matter_text(title_view(*title)),
{
    let mut out = String::from_str("+++\n");
    match title {
        Some(t) => {
            out.append("title = \"");
            out.append(t.as_str());
            out.append("\"\n");
        },
        None => {},
    }
    out.append("+++\n");
    out
}

/// Renders the front matter of a page in the given format.
pub fn render_front_matter(title: &Option<String>, format: FrontMatterFormat) -> (r: String)
    ensures
        r@ == match format {
            FrontMatterFormat::Markdown => plain_front_matter_text(title_view(*title)),
            FrontMatterFormat::Zola => zola_front_matter_text(title_view(*title)),
        },
{
    match format {
        FrontMatterFormat::Markdown => render_plain_front_matter(title),
        FrontMatterFormat::Zola => render_zola_front_matter(title),
    }
}

/// ASCII upper-case letters in lower case; other characters unchanged.
pub open spec fn ascii_lower(c: char) -> char {
    if 'A' <= c && c <= 'Z' {
        ((c as u8) + 32) as char
    } else {
        c
    }
}

/// The anchor id of a heading: its text in ASCII lower case, without dots
/// and hyphens.
pub open spec fn anchor_id(s: Seq<char>) -> Seq<char>
    decreases s.len(),
{
    if s.len() == 0 {
        Seq::empty()
    } else {
        let prev = anchor_id(s.drop_last());
        let c = s.last();
        if c == '.' || c == '-' {
            prev
        } else {
            prev.push(ascii_lower(c))
        }
    }
}

/// The anchor id of a heading.
pub fn render_zola_anchor_id(content: &str) -> (r: String)
    ensures
        r@ == anchor_id(content@),
{
    let n = content.unicode_len();
    let mut out = String::new();
    let mut i: usize = 0;
    while i < n
        invariant
            n == content@.len(),
            0 <= i <= n,
            out@ == anchor_id(content@.subrange(0, i as int)),
        decreases n - i,
    {
        let c = content.get_char(i);
        proof {
            assert(content@.subrange(0, i + 1).drop_last() =~= content@.subrange(0, i as int));
        }
        if c != '.' && c != '-' {
            let lower = if 'A' <= c && c <= 'Z' {
                ((c as u8) + 32) as char
            } else {
                c
            };
            out.push(lower);
        }
        i += 1;
    }
    proof {
        assert(content@.subrange(0, n as int) =~= content@);
    }
    out
}

/// The anchor of a heading: `{#id}`.
pub open spec fn anchor_text(s: Seq<char>) -> Seq<char> {
    "{#"@ + anchor_id(s) + "}"@
}

pub fn render_zola_anchor(content: &str) -> (r: String)
    ensures
        r@ == anchor_text(content@),
{
    let id = render_zola_anchor_id(content);
    cat3("{#", id.as_str(), "}")
}

/// A Zola heading with an explicit anchor.
pub open spec fn zola_header_text(content: Seq<char>, level: nat) -> Seq<char> {
    hashes(level) + " "@ + content + " "@ + anchor_text(content)
}

/// Renders a Zola heading followed by its explicit anchor.
pub fn render_zola_header(content: String, header_level: usize) -> (r: String)
    ensures
        r@ == zola_header_text(content@, header_level as nat),
{
    let anchor = render_zola_anchor(content.as_str());
    let mut out = render_hashes(header_level);
    out.append(" ");
    out.append(content.as_str());
    out.append(" ");
    out.append(anchor.as_str());
    out
}

/// A link to the anchor of a heading on the same page.
pub open spec fn zola_link_text(content: Seq<char>) -> Seq<char> {
    "["@ + content + "](#"@ + anchor_id(content) + ")"@
}

/// Renders a link to a heading on the same page.
pub fn render_zola_link(content: String) -> (r: String)
    ensures
        r@ == zola_link_text(content@),
{
    let id = render_zola_anchor_id(content.as_str());
    let mut out = cat3("[", content.as_str(), "](#");
    out.append(id.as_str());
    out.append(")");
    out
}

} // verus!
