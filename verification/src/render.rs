//! Rendering of fetched events and of outcome messages as
//! human-readable text. Every failure renders as a single line, so
//! that the command loop can show it and go on.

use vstd::prelude::*;
use crate::filter::NoteId;
use crate::numfmt::dec_str;
use crate::numfmt::u64_to_string;

verus! {

/// How many characters of an event's content the preview shows.
pub const PREVIEW_CHARS: usize = 100;

/// A read-only projection of a fetched event for display: the
/// identifier in its human-readable encoded form, the creation
/// timestamp in seconds since the Unix epoch, and the content.
#[derive(Debug)]
pub struct EventSummary {
    pub id: String,
    pub created_at: u64,
    pub content: String,
}

/// The mathematical image of an [`EventSummary`].
pub struct SpecEventSummary {
    pub id: Seq<char>,
    pub created_at: u64,
    pub content: Seq<char>,
}

impl View for EventSummary {
    type V = SpecEventSummary;

    open spec fn view(&self) -> SpecEventSummary {
        SpecEventSummary { id: self.id@, created_at: self.created_at, content: self.content@ }
    }
}

impl DeepView for EventSummary {
    type V = SpecEventSummary;

    open spec fn deep_view(&self) -> SpecEventSummary {
        self.view()
    }
}

/// The first characters of an event's content, at most
/// [`PREVIEW_CHARS`] of them.
pub open spec fn spec_preview(c: Seq<char>) -> Seq<char> {
    if c.len() <= PREVIEW_CHARS {
        c
    } else {
        c.take(PREVIEW_CHARS as int)
    }
}

/// The display block of one fetched event.
pub open spec fn spec_format_event(e: SpecEventSummary) -> Seq<char> {
    "Event ID: "@ + e.id + "\nCreated: "@ + dec_str(e.created_at as nat) + "\nMessage: "@
        + spec_preview(e.content)
}

/// Renders one fetched event: its identifier, its creation
/// timestamp, and a truncated content preview.
pub fn format_event(event: &EventSummary) -> (r: String)
    ensures
        r@ == spec_format_event(event@),
{
    let len = event.content.as_str().unicode_len();
    let cut = if len <= PREVIEW_CHARS {
        len
    } else {
        PREVIEW_CHARS
    };
    let preview = event.content.as_str().substring_char(0, cut);
    proof {
        assert(preview@ == spec_preview(event.content@));
    }
    let mut out = String::from_str("Event ID: ");
    out.append(event.id.as_str());
    out.append("\nCreated: ");
    let ts = u64_to_string(event.created_at);
    out.append(ts.as_str());
    out.append("\nMessage: ");
    out.append(preview);
    out
}

/// The display text of a fetch-by-id outcome.
pub open spec fn spec_fetch_by_id_text(evs: Seq<SpecEventSummary>) -> Seq<char> {
    if evs.len() == 0 {
        "Event not found"@
    } else {
        spec_format_event(evs[0])
    }
}

/// Renders the outcome of a fetch-by-id query: the first match, or
/// a not-found line when no event came back. Matches beyond the
/// first are ignored, as id lookups are expected to be unique.
pub fn render_fetch_by_id(events: &Vec<EventSummary>) -> (r: String)
    ensures
        r@ == spec_fetch_by_id_text(events.deep_view()),
{
    proof {
        assert(events.deep_view().len() == events.len());
    }
    if events.len() == 0 {
        String::from_str("Event not found")
    } else {
        proof {
            assert(events.deep_view()[0] == events[0]@);
        }
        format_event(&events[0])
    }
}

/// The display blocks of a sequence of fetched events, each
/// preceded by a blank line.
pub open spec fn spec_event_blocks(evs: Seq<SpecEventSummary>) -> Seq<char>
    decreases evs.len(),
{
    if evs.len() == 0 {
        Seq::<char>::empty()
    } else {
        spec_event_blocks(evs.drop_last()) + "\n\n"@ + spec_format_event(evs.last())
    }
}

/// The display text of a recent-events listing: the match count,
/// then each event in relay-return order.
pub open spec fn spec_recent_listing(evs: Seq<SpecEventSummary>) -> Seq<char> {
    "Found "@ + dec_str(evs.len()) + " events"@ + spec_event_blocks(evs)
}

/// Renders the outcome of a recent-events listing: the match count
/// followed by each event, in the order the relays returned them —
/// no re-sorting is imposed.
pub fn render_recent(events: &Vec<EventSummary>) -> (r: String)
    ensures
        r@ == spec_recent_listing(events.deep_view()),
{
    proof {
        assert(events.deep_view().len() == events.len());
    }
    let mut out = String::from_str("Found ");
    let count = u64_to_string(events.len() as u64);
    out.append(count.as_str());
    out.append(" events");
    let ghost evs = events.deep_view();
    let mut i: usize = 0;
    while i < events.len()
        invariant
            0 <= i <= events.len(),
            evs == events.deep_view(),
            evs.len() == events.len(),
            out@ == "Found "@ + dec_str(events.len() as nat) + " events"@ + spec_event_blocks(
                evs.take(i as int),
            ),
        decreases events.len() - i,
    {
        proof {
            assert(evs[i as int] == events[i as int]@);
            assert(evs.take(i + 1).drop_last() =~= evs.take(i as int));
            assert(evs.take(i + 1).last() == evs[i as int]);
        }
        out.append("\n\n");
        let block = format_event(&events[i]);
        out.append(block.as_str());
        i = i + 1;
    }
    proof {
        assert(evs.take(evs.len() as int) =~= evs);
    }
    out
}

/// The display text of the line announcing a recent-events listing.
pub open spec fn spec_recent_header(limit: u64) -> Seq<char> {
    "Getting the last "@ + dec_str(limit as nat) + " messages"@
}

/// Renders the line announcing a recent-events listing.
pub fn render_recent_header(limit: u64) -> (r: String)
    ensures
        r@ == spec_recent_header(limit),
{
    let mut out = String::from_str("Getting the last ");
    let num = u64_to_string(limit);
    out.append(num.as_str());
    out.append(" messages");
    out
}

/// The display text of a successful publication.
pub open spec fn spec_submit_ok_text(id: Seq<char>) -> Seq<char> {
    "Just sent event ID "@ + id
}

/// Renders the identifier a relay assigned to a published event.
pub fn render_submit_ok(id_text: &String) -> (r: String)
    ensures
        r@ == spec_submit_ok_text(id_text@),
{
    let mut out = String::from_str("Just sent event ID ");
    out.append(id_text.as_str());
    out
}

/// The display text of a confirmed deletion.
pub open spec fn spec_delete_ok_text(id: Seq<char>) -> Seq<char> {
    "Deleted event "@ + id
}

/// Renders the confirmation of a deletion request, including the id
/// it concerned.
pub fn render_delete_ok(id: &NoteId) -> (r: String)
    ensures
        r@ == spec_delete_ok_text(id.text@),
{
    let mut out = String::from_str("Deleted event ");
    out.append(id.text.as_str());
    out
}

/// The given text with every line break replaced by a space.
pub open spec fn one_line(s: Seq<char>) -> Seq<char> {
    s.map_values(
        |c: char|
            if c == '\n' || c == '\r' {
                ' '
            } else {
                c
            },
    )
}

/// Relies on String::push: it appends the character to the string.
#[verifier::external_body]
fn push_char(s: &mut String, c: char)
    ensures
        final(s)@ == old(s)@ + seq![c],
{
    s.push(c);
}

/// Renders a failure reported by the relay transport — a timeout, an
/// unreachable relay, a rejection — as a single line: the reported
/// text with every line break replaced by a space. The result
/// depends on the reported text alone.
pub fn render_failure(text: &str) -> (r: String)
    ensures
        r@ == one_line(text@),
{
    let len = text.unicode_len();
    let mut out = String::new();
    let mut i: usize = 0;
    while i < len
        invariant
            0 <= i <= len == text@.len(),
            out@ == one_line(text@.take(i as int)),
        decreases len - i,
    {
        let c = text.get_char(i);
        let mapped = if c == '\n' || c == '\r' {
            ' '
        } else {
            c
        };
        push_char(&mut out, mapped);
        proof {
            assert(one_line(text@.take(i + 1)) =~= one_line(text@.take(i as int)) + seq![mapped]);
        }
        i = i + 1;
    }
    proof {
        assert(text@.take(len as int) =~= text@);
    }
    out
}

} // verus!
