//! The command processor: a stateless function from one parsed
//! command (plus the caller's identity) to the single relay action
//! it calls for, or to the text it replies with when validation
//! fails and nothing may reach the network. The shell loop performs
//! the action and renders the relay's reply with the functions of
//! [`crate::render`].

use vstd::prelude::*;
use crate::command::Commands;
use crate::command::KIND_LONG_FORM;
use crate::command::PublishArgs;
use crate::command::SpecCommand;
use crate::command::SpecPublishArgs;
use crate::command::opt_view;
use crate::errors::ValidationError;
use crate::errors::spec_validation_message;
use crate::event::EventDraft;
use crate::event::build_publish;
use crate::event::spec_build_publish;
use crate::filter::NoteId;
use crate::filter::QueryFilter;
use crate::filter::build_fetch_by_id;
use crate::filter::build_recent;
use crate::filter::note_id_decode;

verus! {

/// The bounded wait applied to fetch operations, in seconds.
pub const FETCH_TIMEOUT_SECS: u64 = 5;

/// The fixed human-readable reason attached to deletion requests.
pub const DELETE_REASON: &'static str = "Deleted by author";

/// What a fetch was issued for, which decides how its result set is
/// rendered.
#[derive(Debug, Clone, Copy, PartialEq, Eq, Structural)]
pub enum FetchPurpose {
    /// A lookup of one event by id.
    ById,
    /// A listing of the caller's recent events.
    Recent,
}

/// The single step that one command asks of the shell loop.
#[derive(Debug)]
pub enum Plan {
    /// Show this text; no relay call is made.
    Reply { text: String },
    /// Fetch events matching the filter, under the bounded wait.
    Fetch { filter: QueryFilter, timeout_secs: u64, purpose: FetchPurpose },
    /// Sign and broadcast this draft.
    Submit { draft: EventDraft },
    /// Ask the relays to delete the event, with the fixed reason.
    Delete { id: NoteId, reason: String },
    /// Read this file and continue with [`publish_file_body`].
    ReadFile {
        file_name: String,
        title: Option<String>,
        publish_date: Option<String>,
        image_url: Option<String>,
    },
    /// Leave the shell; no relay call is made.
    Exit,
}

/// Turns one command into the step it asks for. Validation happens
/// here, before anything reaches the network: a command whose
/// fields do not validate yields a `Reply` carrying that error's
/// message, never a relay action. Stateless: the result depends on
/// the command and the caller's public key alone.
pub fn handle_command(command: Commands, author_pubkey: &String) -> (p: Plan)
    ensures
        command@ matches SpecCommand::Exit ==> p is Exit,
        command@ matches SpecCommand::Gets { id } ==> (match p {
            Plan::Fetch { filter, timeout_secs, purpose } => {
                &&& note_id_decode(id) is Some
                &&& purpose == FetchPurpose::ById
                &&& timeout_secs == FETCH_TIMEOUT_SECS
                &&& filter.id matches Some(n) && n.wf() && n.text@ == id
                &&& filter.author is None
                &&& filter.limit is None
                &&& filter.since is None
            },
            Plan::Reply { text } => note_id_decode(id) is None && text@
                == spec_validation_message(ValidationError::InvalidId),
            _ => false,
        }),
        command@ matches SpecCommand::Ls { limit } ==> (match p {
            Plan::Fetch { filter, timeout_secs, purpose } => {
                &&& purpose == FetchPurpose::Recent
                &&& timeout_secs == FETCH_TIMEOUT_SECS
                &&& filter.author matches Some(a) && a@ == author_pubkey@
                &&& filter.limit == Some(limit)
                &&& filter.id is None
                &&& filter.since is None
            },
            _ => false,
        }),
        command@ matches SpecCommand::Puts { args } ==> (match p {
            Plan::Submit { draft } => spec_build_publish(args) == Ok::<_, ValidationError>(draft@),
            Plan::Reply { text } => (spec_build_publish(args) matches Err(e) && text@
                == spec_validation_message(e)),
            _ => false,
        }),
        command@ matches SpecCommand::Rm { id } ==> (match p {
            Plan::Delete { id: n, reason } => {
                &&& note_id_decode(id) is Some
                &&& n.wf()
                &&& n.text@ == id
                &&& reason@ == DELETE_REASON@
            },
            Plan::Reply { text } => note_id_decode(id) is None && text@
                == spec_validation_message(ValidationError::InvalidId),
            _ => false,
        }),
        command@ matches SpecCommand::Cp { file_name, title, publish_date, image_url } ==> (
        match p {
            Plan::ReadFile { file_name: f, title: t, publish_date: d, image_url: u } => {
                &&& f@ == file_name
                &&& opt_view(t) == title
                &&& opt_view(d) == publish_date
                &&& opt_view(u) == image_url
            },
            _ => false,
        }),
{
    match command {
        Commands::Exit => Plan::Exit,
        Commands::Gets { id } => {
            match build_fetch_by_id(id) {
                Ok(filter) => Plan::Fetch {
                    filter,
                    timeout_secs: FETCH_TIMEOUT_SECS,
                    purpose: FetchPurpose::ById,
                },
                Err(e) => Plan::Reply { text: e.message() },
            }
        },
        Commands::Ls { limit } => Plan::Fetch {
            filter: build_recent(limit, author_pubkey),
            timeout_secs: FETCH_TIMEOUT_SECS,
            purpose: FetchPurpose::Recent,
        },
        Commands::Puts { args } => {
            match build_publish(args) {
                Ok(draft) => Plan::Submit { draft },
                Err(e) => Plan::Reply { text: e.message() },
            }
        },
        Commands::Rm { id } => {
            match NoteId::decode(id) {
                Ok(n) => Plan::Delete { id: n, reason: String::from_str(DELETE_REASON) },
                Err(e) => Plan::Reply { text: e.message() },
            }
        },
        Commands::Cp { file_name, title, publish_date, image_url } => Plan::ReadFile {
            file_name,
            title,
            publish_date,
            image_url,
        },
    }
}

/// Continues a publish-from-file command once the shell loop has
/// read the file: builds a long-form article draft from the body
/// and the tag sources, yielding the submit step or the validation
/// error's message. The file read stays outside; a read failure
/// means this is never called and no draft ever exists.
pub fn publish_file_body(
    message: String,
    title: Option<String>,
    publish_date: Option<String>,
    image_url: Option<String>,
) -> (p: Plan)
    ensures
        ({
            let args = SpecPublishArgs {
                message: message@,
                kind: KIND_LONG_FORM,
                title: opt_view(title),
                publish_date: opt_view(publish_date),
                image_url: opt_view(image_url),
            };
            match p {
                Plan::Submit { draft } => spec_build_publish(args) == Ok::<_, ValidationError>(draft@),
                Plan::Reply { text } => (spec_build_publish(args) matches Err(e) && text@
                    == spec_validation_message(e)),
                _ => false,
            }
        }),
{
    let args = PublishArgs { message, kind: KIND_LONG_FORM, title, publish_date, image_url };
    match build_publish(args) {
        Ok(draft) => Plan::Submit { draft },
        Err(e) => Plan::Reply { text: e.message() },
    }
}

} // verus!
