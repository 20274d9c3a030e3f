//! Anchor markup composition: the rendered tag for a resolved page, and
//! the placeholder tag for a page that does not exist yet.
//!
//! The placeholder shape is compatibility-sensitive: an anchor carrying the
//! fixed CSS marker class `page-not-created`, the localized title, and the
//! display content, the latter wrapped in a `<code>` element when the
//! caller asked for code styling.

use vstd::prelude::*;
use vstd::string::StringExecFns;
use crate::pages::Page;

verus! {

/// The display content of a link, wrapped in a `<code>` element when code
/// styling is requested.
pub open spec fn code_wrapped(content: Seq<char>, code: bool) -> Seq<char> {
    if code {
        "<code>"@ + content + "</code>"@
    } else {
        content
    }
}

/// The placeholder anchor for a missing page: marked with the fixed CSS
/// class `page-not-created`, titled with the localized summary string.
pub open spec fn placeholder_markup(title: Seq<char>, content: Seq<char>, code: bool) -> Seq<
    char,
> {
    "<a class=\"page-not-created\" title=\""@ + title + "\">"@ + code_wrapped(content, code)
        + "</a>"@
}

/// The badge element appended to a rendered link when the caller asks for
/// one.
pub open spec fn badge_markup(with_badge: bool) -> Seq<char> {
    if with_badge {
        "<span class=\"badge\"></span>"@
    } else {
        Seq::empty()
    }
}

/// The anchor for a resolved page: its URL as the target, the chosen title
/// and display content, and an optional badge.
pub open spec fn page_markup(
    url: Seq<char>,
    title: Seq<char>,
    content: Seq<char>,
    code: bool,
    with_badge: bool,
) -> Seq<char> {
    "<a href=\""@ + url + "\" title=\""@ + title + "\">"@ + code_wrapped(content, code)
        + badge_markup(with_badge) + "</a>"@
}

/// Builds the placeholder anchor for a missing page.
pub fn render_placeholder(title: &str, content: &str, code: bool) -> (r: String)
    ensures
        r@ == placeholder_markup(title@, content@, code),
{
    let mut out = String::new();
    out.append("<a class=\"page-not-created\" title=\"");
    out.append(title);
    out.append("\">");
    if code {
        out.append("<code>");
        out.append(content);
        out.append("</code>");
    } else {
        out.append(content);
    }
    out.append("</a>");
    proof {
        assert(out@ =~= placeholder_markup(title@, content@, code));
    }
    out
}

/// Builds the anchor for a resolved page.
pub fn render_page_link(page: &Page, title: &str, content: &str, code: bool, with_badge: bool) -> (r:
    String)
    ensures
        r@ == page_markup(page.url@, title@, content@, code, with_badge),
{
    let mut out = String::new();
    out.append("<a href=\"");
    out.append(page.url.as_str());
    out.append("\" title=\"");
    out.append(title);
    out.append("\">");
    if code {
        out.append("<code>");
        out.append(content);
        out.append("</code>");
    } else {
        out.append(content);
    }
    if with_badge {
        out.append("<span class=\"badge\"></span>");
    }
    out.append("</a>");
    proof {
        assert(out@ =~= page_markup(page.url@, title@, content@, code, with_badge));
    }
    out
}

} // verus!
