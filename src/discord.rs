//! The texts of the chat-bot channel: startup, change and failure messages, the
//! status message of the heartbeat, and which messages a purge removes.

use vstd::prelude::*;

use crate::notify::{items_view, HeartbeatItem, ItemView};
use crate::text::{decimal, push_decimal};
use vstd::utf8::{encode_scalar, encode_utf8};

verus! {

/// How many bytes of a diff, body or reason a message quotes before cutting.
pub const TRIM_LIMIT: usize = 1800;

/// What a cut quotation ends with.
pub open spec fn trim_marker() -> Seq<char> {
    "\n(...)"@
}

/// How many leading characters of `chars` fit, encoded in UTF-8, in `budget` bytes.
pub open spec fn fitting_chars(chars: Seq<char>, budget: int) -> nat
    decreases chars.len(),
{
    if chars.len() == 0 {
        0
    } else {
        let width = encode_scalar(chars[0] as u32).len() as int;
        if width > budget {
            0
        } else {
            1 + fitting_chars(chars.drop_first(), budget - width)
        }
    }
}

/// `value` cut to at most `max` bytes of UTF-8, at a character boundary: the kept
/// part (the longest character prefix that fits), the marker to append, and whether
/// anything was cut.
pub open spec fn trimmed(value: Seq<char>, max: nat) -> (Seq<char>, Seq<char>, bool) {
    if encode_utf8(value).len() > max {
        (value.take(fitting_chars(value, max as int) as int), trim_marker(), true)
    } else {
        (value, Seq::empty(), false)
    }
}

fn char_width(value: &str, i: usize) -> (w: usize)
    requires
        i < value@.len() <= usize::MAX,
    ensures
        w == encode_scalar(value@[i as int] as u32).len(),
{
    let piece = value.substring_char(i, i + 1);
    proof {
        assert(piece@ =~= seq![value@[i as int]]);
        assert(piece@.drop_first() =~= Seq::<char>::empty());
        assert(encode_utf8(piece@) == encode_scalar(piece@[0] as u32) + encode_utf8(piece@.drop_first()));
        assert(encode_utf8(piece@) =~= encode_scalar(value@[i as int] as u32));
    }
    piece.as_bytes().len()
}

/// Cuts `value` to at most `max` bytes, at a character boundary, saying whether it did.
pub fn trim<'a>(value: &'a str, max: usize) -> (r: (&'a str, &'static str, bool))
    ensures
        (r.0@, r.1@, r.2) == trimmed(value@, max as nat),
{
    proof {
        reveal_strlit("");
    }
    if value.as_bytes().len() <= max {
        return (value, "", false);
    }
    let n = value.unicode_len();
    let mut budget: usize = max;
    let mut i: usize = 0;
    assert(value@.skip(0) =~= value@);
    while i < n && char_width(value, i) <= budget
        invariant
            n == value@.len(),
            0 <= i <= n,
            budget <= max,
            fitting_chars(value@, max as int) == i + fitting_chars(value@.skip(i as int), budget as int),
        decreases n - i,
    {
        let width = char_width(value, i);
        proof {
            let rest = value@.skip(i as int);
            assert(rest[0] == value@[i as int]);
            assert(rest.drop_first() =~= value@.skip(i as int + 1));
        }
        budget = budget - width;
        i = i + 1;
    }
    proof {
        let rest = value@.skip(i as int);
        if i < n {
            assert(rest[0] == value@[i as int]);
        } else {
            assert(rest.len() == 0);
        }
    }
    (value.substring_char(0, i), "\n(...)", true)
}

/// The startup message.
pub open spec fn startup_text(urls: Seq<Seq<char>>) -> Seq<char>
    decreases urls.len(),
{
    if urls.len() == 0 {
        "Started listening on the following URLs:"@
    } else {
        startup_text(urls.drop_last()) + "\n- "@ + urls.last()
    }
}

/// Writes the startup message.
pub fn startup_message(urls: &[String]) -> (r: String)
    ensures
        r@ == startup_text(urls@.map_values(|u: String| u@)),
{
    let mut text = String::from_str("Started listening on the following URLs:");
    let mut i: usize = 0;
    while i < urls.len()
        invariant
            0 <= i <= urls@.len(),
            text@ == startup_text(urls@.map_values(|u: String| u@).take(i as int)),
        decreases urls.len() - i,
    {
        text.append("\n- ");
        text.append(urls[i].as_str());
        proof {
            let views = urls@.map_values(|u: String| u@);
            assert(views.take(i as int + 1).drop_last() =~= views.take(i as int));
        }
        i = i + 1;
    }
    assert(urls@.map_values(|u: String| u@).take(i as int) =~= urls@.map_values(|u: String| u@));
    text
}

/// The change message around a (cut) diff.
pub open spec fn changed_text(url: Seq<char>, diff: Seq<char>) -> Seq<char> {
    let (kept, marker, _) = trimmed(diff, TRIM_LIMIT as nat);
    "Found changes in "@ + url + "\n```patch\n"@ + kept + marker + "```"@
}

/// Writes the change message for a diff; says whether the diff was cut, in which case
/// the whole diff goes along as an attachment.
pub fn changed_message(url: &str, diff: &str) -> (r: (String, bool))
    ensures
        r.0@ == changed_text(url@, diff@),
        r.1 == trimmed(diff@, TRIM_LIMIT as nat).2,
{
    let (kept, marker, was_trimmed) = trim(diff, TRIM_LIMIT);
    let mut text = String::from_str("Found changes in ");
    text.append(url);
    text.append("\n```patch\n");
    text.append(kept);
    text.append(marker);
    text.append("```");
    (text, was_trimmed)
}

/// The failure message: the status and (cut) body where the server answered, else the
/// (cut) reason.
pub open spec fn failed_text(url: Seq<char>, reason: Seq<char>, status: Option<u16>, body: Option<Seq<char>>) -> Seq<char> {
    match (status, body) {
        (Some(s), Some(b)) => {
            let (kept, marker, _) = trimmed(b, TRIM_LIMIT as nat);
            "Failed to fetch "@ + url + " with status __"@ + decimal(s as nat) + "__ and body:\n```\n"@ + kept
                + marker + "\n```"@
        },
        _ => {
            let (kept, marker, _) = trimmed(reason, TRIM_LIMIT as nat);
            "Failed to fetch "@ + url + " because of:\n```\n"@ + kept + marker + "\n```"@
        },
    }
}

/// Whether the failure message quotes a cut text (the body where the server answered,
/// else the reason), which then goes along whole as an attachment.
pub open spec fn failed_cut(reason: Seq<char>, status: Option<u16>, body: Option<Seq<char>>) -> bool {
    match (status, body) {
        (Some(_), Some(b)) => trimmed(b, TRIM_LIMIT as nat).2,
        _ => trimmed(reason, TRIM_LIMIT as nat).2,
    }
}

/// Writes the failure message; says whether the quoted text was cut.
pub fn failed_message(url: &str, reason: &str, status: Option<u16>, body: &Option<String>) -> (r: (String, bool))
    ensures
        r.0@ == failed_text(url@, reason@, status, crate::event::opt_text(*body)),
        r.1 == failed_cut(reason@, status, crate::event::opt_text(*body)),
{
    match (status, body) {
        (Some(s), Some(b)) => {
            let (kept, marker, was_trimmed) = trim(b.as_str(), TRIM_LIMIT);
            let mut text = String::from_str("Failed to fetch ");
            text.append(url);
            text.append(" with status __");
            push_decimal(&mut text, s as u64);
            text.append("__ and body:\n```\n");
            text.append(kept);
            text.append(marker);
            text.append("\n```");
            (text, was_trimmed)
        },
        _ => {
            let (kept, marker, was_trimmed) = trim(reason, TRIM_LIMIT);
            let mut text = String::from_str("Failed to fetch ");
            text.append(url);
            text.append(" because of:\n```\n");
            text.append(kept);
            text.append(marker);
            text.append("\n```");
            (text, was_trimmed)
        },
    }
}

/// A relative timestamp in the chat's markup.
pub open spec fn stamp(t: u64) -> Seq<char> {
    "<t:"@ + decimal(t as nat) + ":R>"@
}

/// When a target was last polled, in the status message.
pub open spec fn update_part(t: Option<u64>) -> Seq<char> {
    match t {
        None => "never"@,
        Some(t) => stamp(t),
    }
}

/// A labelled timestamp in the status message, or nothing.
pub open spec fn optional_part(label: Seq<char>, t: Option<u64>) -> Seq<char> {
    match t {
        None => Seq::empty(),
        Some(t) => label + stamp(t),
    }
}

/// The lines of one target in the status message.
pub open spec fn item_status(item: ItemView) -> Seq<char> {
    "\n"@ + item.url + "\nLast updated "@ + update_part(item.last_update) + optional_part(
        ", changed "@,
        item.last_change,
    ) + optional_part(", failed "@, item.last_failure) + "\n"@
}

/// The lines of all targets in the status message.
pub open spec fn items_status(items: Seq<ItemView>) -> Seq<char>
    decreases items.len(),
{
    if items.len() == 0 {
        Seq::empty()
    } else {
        items_status(items.drop_last()) + item_status(items.last())
    }
}

/// The status message of a heartbeat sent at time `now`.
pub open spec fn status_text(items: Seq<ItemView>, now: u64) -> Seq<char> {
    "**Last updated "@ + stamp(now) + "**\n"@ + items_status(items)
}

fn push_stamp(out: &mut String, t: u64)
    ensures
        final(out)@ == old(out)@ + stamp(t),
{
    out.append("<t:");
    push_decimal(out, t);
    out.append(":R>");
    assert(final(out)@ =~= old(out)@ + stamp(t));
}

fn push_update_part(out: &mut String, t: Option<u64>)
    ensures
        final(out)@ == old(out)@ + update_part(t),
{
    match t {
        None => out.append("never"),
        Some(t) => push_stamp(out, t),
    }
}

fn push_optional_part(out: &mut String, label: &str, t: Option<u64>)
    ensures
        final(out)@ == old(out)@ + optional_part(label@, t),
{
    match t {
        None => {
            assert(old(out)@ + optional_part(label@, t) =~= old(out)@);
        },
        Some(t) => {
            out.append(label);
            push_stamp(out, t);
            assert(final(out)@ =~= old(out)@ + optional_part(label@, Some(t)));
        },
    }
}

fn push_item_status(out: &mut String, item: &HeartbeatItem)
    ensures
        final(out)@ == old(out)@ + item_status(item@),
{
    out.append("\n");
    out.append(item.url.as_str());
    out.append("\nLast updated ");
    push_update_part(out, item.last_update);
    push_optional_part(out, ", changed ", item.last_change);
    push_optional_part(out, ", failed ", item.last_failure);
    out.append("\n");
    assert(final(out)@ =~= old(out)@ + item_status(item@));
}

/// Writes the status message of a heartbeat sent at time `now`.
pub fn status_message(items: &Vec<HeartbeatItem>, now: u64) -> (r: String)
    ensures
        r@ == status_text(items_view(items@), now),
{
    let mut text = String::from_str("**Last updated ");
    push_stamp(&mut text, now);
    text.append("**\n");
    let ghost head = text@;
    let mut i: usize = 0;
    while i < items.len()
        invariant
            0 <= i <= items@.len(),
            head == "**Last updated "@ + stamp(now) + "**\n"@,
            text@ == head + items_status(items_view(items@).take(i as int)),
        decreases items.len() - i,
    {
        push_item_status(&mut text, &items[i]);
        proof {
            let views = items_view(items@);
            assert(views.take(i as int + 1).drop_last() =~= views.take(i as int));
            assert(text@ =~= head + items_status(views.take(i as int + 1)));
        }
        i = i + 1;
    }
    assert(items_view(items@).take(i as int) =~= items_view(items@));
    text
}

/// The message that purging counts back from: the status message if one is up, else
/// the channel's last message.
pub fn purge_anchor(status_message: Option<u64>, last_message: Option<u64>) -> (r: Option<u64>)
    ensures
        r == if status_message is Some { status_message } else { last_message },
{
    match status_message {
        Some(id) => Some(id),
        None => last_message,
    }
}

/// The ids of the messages (given as author and id) that the bot itself wrote, in order.
pub open spec fn own_ids(messages: Seq<(u64, u64)>, bot: u64) -> Seq<u64> {
    messages.filter(|m: (u64, u64)| m.0 == bot).map_values(|m: (u64, u64)| m.1)
}

/// Picks the messages to purge: those the bot wrote.
pub fn own_messages(messages: &Vec<(u64, u64)>, bot: u64) -> (r: Vec<u64>)
    ensures
        r@ == own_ids(messages@, bot),
{
    let mut ids: Vec<u64> = Vec::new();
    let mut i: usize = 0;
    while i < messages.len()
        invariant
            0 <= i <= messages@.len(),
            ids@ == own_ids(messages@.take(i as int), bot),
        decreases messages.len() - i,
    {
        let (author, id) = messages[i];
        proof {
            let taken = messages@.take(i as int + 1);
            assert(taken.drop_last() =~= messages@.take(i as int));
            reveal(Seq::filter);
        }
        if author == bot {
            ids.push(id);
        }
        proof {
            assert(ids@ =~= own_ids(messages@.take(i as int + 1), bot));
        }
        i = i + 1;
    }
    assert(messages@.take(i as int) =~= messages@);
    ids
}

} // verus!
