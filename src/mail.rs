//! The texts of the mail channel: subjects and the HTML content of each mail.

use vstd::prelude::*;

verus! {

/// The content of the startup mail: the watched urls as an ordered list.
pub open spec fn startup_items(urls: Seq<Seq<char>>) -> Seq<char>
    decreases urls.len(),
{
    if urls.len() == 0 {
        Seq::empty()
    } else {
        startup_items(urls.drop_last()) + "<li>"@ + urls.last() + "</li>"@
    }
}

pub open spec fn startup_content_text(urls: Seq<Seq<char>>) -> Seq<char> {
    "<p>Started listening on the following URLs:</p><ol>"@ + startup_items(urls) + "</ol>"@
}

/// Writes the content of the startup mail.
pub fn startup_content(urls: &[String]) -> (r: String)
    ensures
        r@ == startup_content_text(urls@.map_values(|u: String| u@)),
{
    let mut items = String::new();
    let mut i: usize = 0;
    while i < urls.len()
        invariant
            0 <= i <= urls@.len(),
            items@ == startup_items(urls@.map_values(|u: String| u@).take(i as int)),
        decreases urls.len() - i,
    {
        items.append("<li>");
        items.append(urls[i].as_str());
        items.append("</li>");
        proof {
            let views = urls@.map_values(|u: String| u@);
            assert(views.take(i as int + 1).drop_last() =~= views.take(i as int));
            assert(items@ =~= startup_items(views.take(i as int + 1)));
        }
        i = i + 1;
    }
    assert(urls@.map_values(|u: String| u@).take(i as int) =~= urls@.map_values(|u: String| u@));
    let mut content = String::from_str("<p>Started listening on the following URLs:</p><ol>");
    content.append(items.as_str());
    content.append("</ol>");
    content
}

pub open spec fn changed_content_text(url: Seq<char>) -> Seq<char> {
    "The following changes were found in <a target=\"_blank\" href=\""@ + url + "\">"@ + url + "</a>"@
}

/// Writes the introduction of the change mail: a link to the target.
pub fn changed_content(url: &str) -> (r: String)
    ensures
        r@ == changed_content_text(url@),
{
    let mut content = String::from_str("The following changes were found in <a target=\"_blank\" href=\"");
    content.append(url);
    content.append("\">");
    content.append(url);
    content.append("</a>");
    content
}

/// Writes the subject of the change mail.
pub fn changed_subject(url: &str) -> (r: String)
    ensures
        r@ == "Changes in "@ + url@,
{
    let mut subject = String::from_str("Changes in ");
    subject.append(url);
    subject
}

/// Writes the content of the failure mail.
pub fn failed_content(url: &str, reason: &str) -> (r: String)
    ensures
        r@ == "<p>Failed to fetch "@ + url@ + "</p><p>"@ + reason@ + "</p>"@,
{
    let mut content = String::from_str("<p>Failed to fetch ");
    content.append(url);
    content.append("</p><p>");
    content.append(reason);
    content.append("</p>");
    content
}

} // verus!
