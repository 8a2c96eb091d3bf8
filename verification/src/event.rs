//! The event model builder: it turns user-supplied fields into a
//! structured, taggable event payload, validating the publish date,
//! the image URL and the kind value before anything reaches the
//! network.

use vstd::prelude::*;
use crate::command::KIND_LONG_FORM;
use crate::command::KIND_NOTE;
use crate::command::PublishArgs;
use crate::command::SpecPublishArgs;
use crate::errors::ValidationError;

verus! {

/// The kind selector of an event payload.
#[derive(Debug, Clone, Copy, PartialEq, Eq, Structural)]
pub enum EventKind {
    /// A short note.
    Note,
    /// A long-form article.
    LongFormArticle,
}

/// One structured metadata annotation of an event payload.
#[derive(Debug)]
pub enum Tag {
    /// The event's title.
    Title(String),
    /// The event's publication instant, as seconds since the Unix
    /// epoch.
    PublishedAt(i64),
    /// The URL of an image associated with the event.
    Image(String),
}

/// The mathematical image of a [`Tag`].
pub enum SpecTag {
    Title(Seq<char>),
    PublishedAt(i64),
    Image(Seq<char>),
}

impl View for Tag {
    type V = SpecTag;

    open spec fn view(&self) -> SpecTag {
        match self {
            Tag::Title(t) => SpecTag::Title(t@),
            Tag::PublishedAt(ts) => SpecTag::PublishedAt(*ts),
            Tag::Image(u) => SpecTag::Image(u@),
        }
    }
}

/// An event payload not yet signed or identified: body text, a kind
/// selector, and an ordered sequence of tags.
#[derive(Debug)]
pub struct EventDraft {
    pub content: String,
    pub kind: EventKind,
    pub tags: Vec<Tag>,
}

/// The mathematical image of an [`EventDraft`].
pub struct SpecEventDraft {
    pub content: Seq<char>,
    pub kind: EventKind,
    pub tags: Seq<SpecTag>,
}

impl View for EventDraft {
    type V = SpecEventDraft;

    open spec fn view(&self) -> SpecEventDraft {
        SpecEventDraft {
            content: self.content@,
            kind: self.kind,
            tags: self.tags@.map_values(|t: Tag| t@),
        }
    }
}

/// The instant that a standards-compliant date-time string denotes,
/// as seconds since the Unix epoch, or nothing for a string that
/// does not parse.
pub uninterp spec fn rfc3339_unix(s: Seq<char>) -> Option<i64>;

/// The serialization of the URL that a string denotes, or nothing
/// for a string that is not a well-formed URL.
pub uninterp spec fn url_canon(s: Seq<char>) -> Option<Seq<char>>;

/// Relies on chrono's DateTime::parse_from_rfc3339 and timestamp:
/// whether a date-time string parses, and the instant it denotes,
/// depend on the string alone.
#[verifier::external_body]
fn parse_publish_date(s: &str) -> (r: Option<i64>)
    ensures
        r == rfc3339_unix(s@),
{
    match chrono::DateTime::parse_from_rfc3339(s) {
        Ok(dt) => Some(dt.timestamp()),
        Err(_) => None,
    }
}

/// Relies on Url::parse of the url crate (as nostr_sdk re-exports
/// it): whether a string is a well-formed URL, and the URL's
/// serialization, depend on the string alone.
#[verifier::external_body]
fn parse_image_url(s: &str) -> (r: Option<String>)
    ensures
        r is Some <==> url_canon(s@) is Some,
        r matches Some(u) ==> Some(u@) == url_canon(s@),
{
    match nostr_sdk::prelude::Url::parse(s) {
        Ok(url) => Some(url.as_str().to_owned()),
        Err(_) => None,
    }
}

/// True when the publish date field is present but does not parse.
pub open spec fn bad_publish_date(a: SpecPublishArgs) -> bool {
    match a.publish_date {
        Some(d) => rfc3339_unix(d) is None,
        None => false,
    }
}

/// True when the image URL field is present but is not well-formed.
pub open spec fn bad_image_url(a: SpecPublishArgs) -> bool {
    match a.image_url {
        Some(u) => url_canon(u) is None,
        None => false,
    }
}

/// The tag sequence of a draft built from `a`: the title tag if a
/// title was given, then the publication tag if a publish date was
/// given, then the image tag if an image URL was given.
pub open spec fn spec_tags(a: SpecPublishArgs) -> Seq<SpecTag> {
    (match a.title {
        Some(t) => seq![SpecTag::Title(t)],
        None => Seq::<SpecTag>::empty(),
    }) + (match a.publish_date {
        Some(d) => seq![SpecTag::PublishedAt(rfc3339_unix(d)->Some_0)],
        None => Seq::<SpecTag>::empty(),
    }) + (match a.image_url {
        Some(u) => seq![SpecTag::Image(url_canon(u)->Some_0)],
        None => Seq::<SpecTag>::empty(),
    })
}

/// What building a draft from `a` yields: the first failing
/// validation in the order publish date, image URL, kind; or else
/// the draft, whose body is the message, whose kind selector follows
/// the kind value, and whose tags are [`spec_tags`].
pub open spec fn spec_build_publish(a: SpecPublishArgs) -> Result<
    SpecEventDraft,
    ValidationError,
> {
    if bad_publish_date(a) {
        Err(ValidationError::InvalidTimestamp)
    } else if bad_image_url(a) {
        Err(ValidationError::InvalidUrl)
    } else if a.kind != KIND_NOTE && a.kind != KIND_LONG_FORM {
        Err(ValidationError::UnsupportedKind(a.kind))
    } else {
        Ok(
            SpecEventDraft {
                content: a.message,
                kind: if a.kind == KIND_NOTE {
                    EventKind::Note
                } else {
                    EventKind::LongFormArticle
                },
                tags: spec_tags(a),
            },
        )
    }
}

/// The view of a draft-building result.
pub open spec fn built_view(r: Result<EventDraft, ValidationError>) -> Result<
    SpecEventDraft,
    ValidationError,
> {
    match r {
        Ok(d) => Ok(d@),
        Err(e) => Err(e),
    }
}

/// Builds an event payload from a publish command's fields. Fails
/// with `InvalidTimestamp` if a publish date was given that is not a
/// standards-compliant date-time string, with `InvalidUrl` if an
/// image URL was given that is not well-formed, and with
/// `UnsupportedKind` for any kind value other than the short note
/// and the long-form article; no draft exists in any of those
/// cases. Side-effect-free.
pub fn build_publish(args: PublishArgs) -> (r: Result<EventDraft, ValidationError>)
    ensures
        built_view(r) == spec_build_publish(args@),
{
    let ghost a = args@;
    let PublishArgs { message, kind, title, publish_date, image_url } = args;
    let published_ts: Option<i64> = match &publish_date {
        Some(d) => {
            match parse_publish_date(d.as_str()) {
                Some(ts) => Some(ts),
                None => {
                    return Err(ValidationError::InvalidTimestamp);
                },
            }
        },
        None => None,
    };
    let canonical_url: Option<String> = match &image_url {
        Some(u) => {
            match parse_image_url(u.as_str()) {
                Some(c) => Some(c),
                None => {
                    return Err(ValidationError::InvalidUrl);
                },
            }
        },
        None => None,
    };
    if kind != KIND_NOTE && kind != KIND_LONG_FORM {
        return Err(ValidationError::UnsupportedKind(kind));
    }
    let mut tags: Vec<Tag> = Vec::new();
    if let Some(t) = title {
        tags.push(Tag::Title(t));
    }
    if let Some(ts) = published_ts {
        tags.push(Tag::PublishedAt(ts));
    }
    if let Some(u) = canonical_url {
        tags.push(Tag::Image(u));
    }
    let draft = EventDraft {
        content: message,
        kind: if kind == KIND_NOTE {
            EventKind::Note
        } else {
            EventKind::LongFormArticle
        },
        tags,
    };
    proof {
        assert(draft@.tags =~= spec_tags(a));
    }
    Ok(draft)
}

} // verus!
