//! General properties of the command processor, stated and proved
//! over the same spec functions that the executable functions'
//! contracts use.

use vstd::prelude::*;
use crate::command::KIND_LONG_FORM;
use crate::command::KIND_NOTE;
use crate::command::SpecPublishArgs;
use crate::errors::ValidationError;
use crate::event::SpecEventDraft;
use crate::event::SpecTag;
use crate::event::bad_image_url;
use crate::event::bad_publish_date;
use crate::event::spec_build_publish;
use crate::render::one_line;
use crate::tokenize::quoting_ok;

verus! {

/// A publish date that does not parse as a standards-compliant
/// date-time aborts the build with `InvalidTimestamp`: no draft
/// exists, so nothing can reach the network for it.
pub proof fn lemma_bad_timestamp_rejected(a: SpecPublishArgs)
    requires
        bad_publish_date(a),
    ensures
        spec_build_publish(a) == Err::<SpecEventDraft, ValidationError>(
            ValidationError::InvalidTimestamp,
        ),
{
}

/// A kind value other than the short note and the long-form article
/// never yields a draft, so such an event is never submitted; when
/// the other fields validate, the error names the rejected kind.
pub proof fn lemma_unsupported_kind_rejected(a: SpecPublishArgs)
    requires
        a.kind != KIND_NOTE,
        a.kind != KIND_LONG_FORM,
    ensures
        spec_build_publish(a) is Err,
        !bad_publish_date(a) && !bad_image_url(a) ==> spec_build_publish(a)
            == Err::<SpecEventDraft, ValidationError>(ValidationError::UnsupportedKind(a.kind)),
{
}

/// The rendering order of a tag's kind: title, then publication
/// instant, then image.
pub open spec fn tag_rank(t: SpecTag) -> int {
    match t {
        SpecTag::Title(_) => 0,
        SpecTag::PublishedAt(_) => 1,
        SpecTag::Image(_) => 2,
    }
}

/// Every draft that the builder yields carries its tags in strictly
/// ascending rank order: title before publication instant before
/// image, and so at most one tag of each kind.
pub proof fn lemma_draft_tags_ordered(a: SpecPublishArgs, d: SpecEventDraft)
    requires
        spec_build_publish(a) == Ok::<SpecEventDraft, ValidationError>(d),
    ensures
        d.tags.len() <= 3,
        forall|i: int, j: int|
            0 <= i < j < d.tags.len() ==> tag_rank(d.tags[i]) < tag_rank(d.tags[j]),
{
    assert(d.tags == crate::event::spec_tags(a));
}

/// A draft built with all three tag sources carries exactly three
/// tags: the title, then the publication instant, then the image.
pub proof fn lemma_full_draft_tags(a: SpecPublishArgs, d: SpecEventDraft)
    requires
        spec_build_publish(a) == Ok::<SpecEventDraft, ValidationError>(d),
        a.title is Some,
        a.publish_date is Some,
        a.image_url is Some,
    ensures
        d.tags.len() == 3,
        d.tags[0] is Title,
        d.tags[1] is PublishedAt,
        d.tags[2] is Image,
{
}

/// A listing command with no argument parses, and the declared
/// default stands in for the omitted limit.
pub proof fn lemma_ls_default_limit(toks: Seq<Seq<char>>)
    requires
        toks.len() == 1,
        toks[0] == "ls"@,
    ensures
        crate::command::spec_parse_tokens(toks) == Ok::<
            crate::command::SpecCommand,
            crate::errors::SpecParseError,
        >(crate::command::SpecCommand::Ls { limit: 10 }),
{
    reveal_strlit("ls");
    reveal_strlit("gets");
    assert("ls"@.len() == 2);
    assert("gets"@.len() == 4);
    assert("ls"@ != "gets"@);
}

/// Handling a line is a function of the line and of the relay's
/// reply alone — there is no hidden state, so issuing the same
/// command twice against the same failure yields the same message
/// both times.
pub proof fn lemma_outcome_repeats(line1: Seq<char>, line2: Seq<char>, err1: Seq<char>, err2: Seq<char>)
    requires
        line1 == line2,
        err1 == err2,
    ensures
        quoting_ok(line1) == quoting_ok(line2),
        crate::command::spec_parse_tokens(crate::tokenize::shell_tokens(line1))
            == crate::command::spec_parse_tokens(crate::tokenize::shell_tokens(line2)),
        one_line(err1) == one_line(err2),
{
}

} // verus!
