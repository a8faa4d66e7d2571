//! What becomes of one message, step by step.
//!
//! Handling a message alternates between deciding and waiting for the
//! bookmarking server. The deciding is `msg_handler`: given where the
//! handling stands and what has just happened, it says where the handling
//! stands next and what is to be done. The caller does what is asked (asks
//! the server, or sends the reply) and comes back with the outcome.
//!
//! A message starts in `State::Start`. Its sender is looked up; the URL it
//! means is found; the bookmark is saved; where detailed replies are wanted,
//! its details are fetched; and with the reply the handling is `State::Done`.

use crate::api::BookmarkDetailsResponse;
use crate::errors::{ProcessError, ReadeckError};
use crate::extract::{extract_url, extract_url_spec, Candidate, InboundMessage};
use crate::text::{decimal, push_decimal};
use crate::users::{UserData, Users};
use vstd::prelude::*;
use vstd::string::*;

verus! {

/// Where the handling of a message stands.
#[derive(Debug, Clone, PartialEq, Eq)]
pub enum State {
    /// The message has not been looked at.
    Start,
    /// The server has been asked to save the bookmark, with this token.
    Saving { api_token: String },
    /// The bookmark is saved and the server has been asked for its details.
    Enriching,
    /// The reply has been given.
    Done,
}

/// A `State` as mathematical values.
pub enum StateView {
    Start,
    Saving { api_token: Seq<char> },
    Enriching,
    Done,
}

impl View for State {
    type V = StateView;

    open spec fn view(&self) -> StateView {
        match self {
            State::Start => StateView::Start,
            State::Saving { api_token } => StateView::Saving { api_token: api_token@ },
            State::Enriching => StateView::Enriching,
            State::Done => StateView::Done,
        }
    }
}

/// What has just happened.
#[derive(Debug, PartialEq, Eq)]
pub enum Event {
    /// The message came in.
    Message(InboundMessage),
    /// The attempt to save ended: with the new bookmark's identifier, or
    /// with the reason why there is none.
    Saved(Result<String, ReadeckError>),
    /// The attempt to fetch the details ended.
    Details(Result<BookmarkDetailsResponse, ReadeckError>),
}

/// What is to be done next.
#[derive(Debug, Clone, PartialEq, Eq)]
pub enum Action {
    /// Send this text back, as a reply to the message. Nothing follows.
    Reply(String),
    /// Ask the server to save `url` with `api_token`, and come back with
    /// `Event::Saved`.
    Save { url: String, api_token: String, bot_marked: bool },
    /// Ask the server for the details of `bookmark_id` with `api_token`,
    /// and come back with `Event::Details`.
    FetchDetails { bookmark_id: String, api_token: String },
    /// Nothing: the event does not belong to where the handling stands.
    Nothing,
}

/// An `Action` as mathematical values.
pub enum ActionView {
    Reply(Seq<char>),
    Save { url: Seq<char>, api_token: Seq<char>, bot_marked: bool },
    FetchDetails { bookmark_id: Seq<char>, api_token: Seq<char> },
    Nothing,
}

impl View for Action {
    type V = ActionView;

    open spec fn view(&self) -> ActionView {
        match self {
            Action::Reply(text) => ActionView::Reply(text@),
            Action::Save { url, api_token, bot_marked } => ActionView::Save {
                url: url@,
                api_token: api_token@,
                bot_marked: *bot_marked,
            },
            Action::FetchDetails { bookmark_id, api_token } => ActionView::FetchDetails {
                bookmark_id: bookmark_id@,
                api_token: api_token@,
            },
            Action::Nothing => ActionView::Nothing,
        }
    }
}

/// The reply to a sender who is not in the directory.
pub open spec fn unauthorized_reply() -> Seq<char> {
    "Unauthorized"@
}

/// The reply to a saved bookmark where no details are wanted.
pub open spec fn terse_reply() -> Seq<char> {
    "Article saved successfully"@
}

/// The reply to a saved bookmark with its details: the title and, where
/// the server gave one, the reading time; a fixed text where the title is
/// empty.
pub open spec fn details_reply(details: BookmarkDetailsResponse) -> Seq<char> {
    if details.title@.len() > 0 {
        match details.reading_time {
            Some(minutes) => details.title@ + " added to Readeck.\n\n Reading time: "@ + decimal(
                minutes as nat,
            ),
            None => details.title@ + " added to Readeck."@,
        }
    } else {
        "Added to Readeck."@
    }
}

/// The user that a message comes from, where the directory knows its
/// sender.
pub open spec fn authorized(users: Map<u64, UserData>, msg: InboundMessage) -> Option<UserData> {
    match msg.sender {
        Some(id) => if users.contains_key(id) {
            Some(users[id])
        } else {
            None
        },
        None => None,
    }
}

/// The step that follows the choice of a URL for a message of `user`: the
/// save of the URL with the user's own token and flag, or the reply that
/// there is no valid URL.
pub open spec fn chosen_step(user: UserData, chosen: Option<Candidate>) -> (StateView, ActionView) {
    match chosen {
        Some(Some(url)) => (
            StateView::Saving { api_token: user.api_token@ },
            ActionView::Save { url, api_token: user.api_token@, bot_marked: user.bot_marked },
        ),
        _ => (StateView::Done, ActionView::Reply(ProcessError::NotAnUrl.message_spec())),
    }
}

/// The step that a message leads to: the refusal of an unknown sender, or
/// what follows from the URL that the message means.
pub open spec fn message_step(users: Map<u64, UserData>, msg: InboundMessage) -> (
    StateView,
    ActionView,
) {
    match authorized(users, msg) {
        Some(user) => chosen_step(user, extract_url_spec(msg)),
        None => (StateView::Done, ActionView::Reply(unauthorized_reply())),
    }
}

/// The step that the end of a save leads to: the error as the reply; or,
/// on success, the fetch of the details with the same token where detailed
/// replies are wanted, and the terse confirmation where they are not.
pub open spec fn saved_step(
    pretty_response: bool,
    api_token: Seq<char>,
    saved: Result<String, ReadeckError>,
) -> (StateView, ActionView) {
    match saved {
        Ok(id) => if pretty_response {
            (StateView::Enriching, ActionView::FetchDetails { bookmark_id: id@, api_token })
        } else {
            (StateView::Done, ActionView::Reply(terse_reply()))
        },
        Err(cause) => (
            StateView::Done,
            ActionView::Reply(ProcessError::ReadeckError(cause).message_spec()),
        ),
    }
}

/// The step that the end of a fetch of details leads to: the detailed
/// reply, or the reply that the bookmark is saved and its details are not
/// to be had.
pub open spec fn details_step(details: Result<BookmarkDetailsResponse, ReadeckError>) -> (
    StateView,
    ActionView,
) {
    match details {
        Ok(d) => (StateView::Done, ActionView::Reply(details_reply(d))),
        Err(cause) => (
            StateView::Done,
            ActionView::Reply(ProcessError::SavedWithError(cause).message_spec()),
        ),
    }
}

/// The step from `state` on `event`. An event that does not belong to the
/// state changes nothing and asks for nothing.
pub open spec fn step(
    users: Map<u64, UserData>,
    pretty_response: bool,
    state: StateView,
    event: Event,
) -> (StateView, ActionView) {
    match (state, event) {
        (StateView::Start, Event::Message(msg)) => message_step(users, msg),
        (StateView::Saving { api_token }, Event::Saved(saved)) => saved_step(
            pretty_response,
            api_token,
            saved,
        ),
        (StateView::Enriching, Event::Details(details)) => details_step(details),
        _ => (state, ActionView::Nothing),
    }
}

/// The user that `msg` comes from, where the directory knows its sender.
pub fn authorize<'a>(users: &'a Users, msg: &InboundMessage) -> (user: Option<&'a UserData>)
    ensures
        match user {
            Some(u) => authorized(users@, *msg) == Some(*u),
            None => authorized(users@, *msg) is None,
        },
{
    match msg.sender {
        Some(id) => users.find(id),
        None => None,
    }
}

/// The detailed reply to a saved bookmark.
pub fn details_reply_text(details: &BookmarkDetailsResponse) -> (text: String)
    ensures
        text@ == details_reply(*details),
{
    if !details.title.as_str().is_empty() {
        let mut text = details.title.clone();
        match details.reading_time {
            Some(minutes) => {
                text.append(" added to Readeck.\n\n Reading time: ");
                push_decimal(&mut text, minutes as u64);
            },
            None => {
                text.append(" added to Readeck.");
            },
        }
        text
    } else {
        "Added to Readeck.".to_owned()
    }
}

/// The step that follows the choice of a URL for a message of `user`, as
/// the choice is handed over: the save of a URL with the user's own token
/// and flag; the wording of the error where the first candidate was none;
/// the reply that there is no valid URL where there was no candidate.
pub open spec fn extracted_step(user: UserData, chosen: Option<Result<String, ProcessError>>) -> (
    StateView,
    ActionView,
) {
    match chosen {
        Some(Ok(url)) => (
            StateView::Saving { api_token: user.api_token@ },
            ActionView::Save { url: url@, api_token: user.api_token@, bot_marked: user.bot_marked },
        ),
        Some(Err(cause)) => (StateView::Done, ActionView::Reply(cause.message_spec())),
        None => (StateView::Done, ActionView::Reply(ProcessError::NotAnUrl.message_spec())),
    }
}

/// The step that follows the choice of a URL for a message of `user`.
pub fn on_extracted(user: &UserData, chosen: Option<Result<String, ProcessError>>) -> (next: (
    State,
    Action,
))
    ensures
        (next.0@, next.1@) == extracted_step(*user, chosen),
{
    match chosen {
        Some(Ok(url)) => (
            State::Saving { api_token: user.api_token.clone() },
            Action::Save {
                url,
                api_token: user.api_token.clone(),
                bot_marked: user.bot_marked,
            },
        ),
        Some(Err(cause)) => (State::Done, Action::Reply(cause.message())),
        None => (State::Done, Action::Reply(ProcessError::NotAnUrl.message())),
    }
}

/// The step from `state` on `event`, for the directory `users` and with
/// detailed replies wanted or not.
pub fn msg_handler(users: &Users, pretty_response: bool, state: State, event: Event) -> (next: (
    State,
    Action,
))
    ensures
        (next.0@, next.1@) == step(users@, pretty_response, state@, event),
{
    match state {
        State::Start => match event {
            Event::Message(msg) => match authorize(users, &msg) {
                Some(user) => {
                    let chosen = extract_url(&msg);
                    assert(extracted_step(*user, chosen) == chosen_step(
                        *user,
                        extract_url_spec(msg),
                    ));
                    on_extracted(user, chosen)
                },
                None => (State::Done, Action::Reply("Unauthorized".to_owned())),
            },
            _ => (State::Start, Action::Nothing),
        },
        State::Saving { api_token } => match event {
            Event::Saved(saved) => match saved {
                Ok(bookmark_id) => if pretty_response {
                    (State::Enriching, Action::FetchDetails { bookmark_id, api_token })
                } else {
                    (State::Done, Action::Reply("Article saved successfully".to_owned()))
                },
                Err(cause) => (
                    State::Done,
                    Action::Reply(ProcessError::ReadeckError(cause).message()),
                ),
            },
            _ => (State::Saving { api_token }, Action::Nothing),
        },
        State::Enriching => match event {
            Event::Details(details) => match details {
                Ok(d) => (State::Done, Action::Reply(details_reply_text(&d))),
                Err(cause) => (
                    State::Done,
                    Action::Reply(ProcessError::SavedWithError(cause).message()),
                ),
            },
            _ => (State::Enriching, Action::Nothing),
        },
        State::Done => (State::Done, Action::Nothing),
    }
}

/// A message without a sender, or from a sender that the directory does
/// not know, is answered with exactly "Unauthorized", and that ends its
/// handling: the server is asked for nothing, then or later.
pub proof fn lemma_unknown_sender_is_refused(
    users: Map<u64, UserData>,
    pretty_response: bool,
    msg: InboundMessage,
)
    requires
        msg.sender matches Some(id) ==> !users.contains_key(id),
    ensures
        step(users, pretty_response, StateView::Start, Event::Message(msg)) == (
            StateView::Done,
            ActionView::Reply("Unauthorized"@),
        ),
        forall|event: Event| #[trigger]
            step(users, pretty_response, StateView::Done, event) == (
                StateView::Done,
                ActionView::Nothing,
            ),
{
}

/// A save is asked for only on behalf of a sender that the directory knows,
/// for the URL that the message means, and with that sender's own token and
/// flag; the token is then kept for what follows.
pub proof fn lemma_save_carries_senders_token(
    users: Map<u64, UserData>,
    pretty_response: bool,
    msg: InboundMessage,
)
    requires
        step(users, pretty_response, StateView::Start, Event::Message(msg)).1 is Save,
    ensures
        msg.sender is Some,
        users.contains_key(msg.sender->0),
        step(users, pretty_response, StateView::Start, Event::Message(msg)) == (
            StateView::Saving { api_token: users[msg.sender->0].api_token@ },
            ActionView::Save {
                url: extract_url_spec(msg)->0->0,
                api_token: users[msg.sender->0].api_token@,
                bot_marked: users[msg.sender->0].bot_marked,
            },
        ),
        extract_url_spec(msg) matches Some(Some(_)),
{
}

/// The details of a bookmark are asked for with the token that it was
/// saved with, and only where detailed replies are wanted and the save
/// succeeded.
pub proof fn lemma_details_carry_same_token(
    users: Map<u64, UserData>,
    pretty_response: bool,
    api_token: Seq<char>,
    event: Event,
)
    requires
        step(users, pretty_response, StateView::Saving { api_token }, event).1 is FetchDetails,
    ensures
        pretty_response,
        event matches Event::Saved(Ok(id)) && step(
            users,
            pretty_response,
            StateView::Saving { api_token },
            event,
        ) == (StateView::Enriching, ActionView::FetchDetails { bookmark_id: id@, api_token }),
{
}

/// A save that the server refuses ends the handling with the wording of
/// the refusal, and no details are asked for. So it is for a token that the
/// server does not know: status 401 means `Unauthorized`, whatever the
/// headers, and the reply is that error's wording.
pub proof fn lemma_failed_save_ends(
    users: Map<u64, UserData>,
    pretty_response: bool,
    api_token: Seq<char>,
    cause: ReadeckError,
    bookmark_id: Option<Seq<u8>>,
)
    ensures
        step(users, pretty_response, StateView::Saving { api_token }, Event::Saved(Err(cause)))
            == (StateView::Done, ActionView::Reply(cause.message_spec())),
        crate::api::save_outcome(401, bookmark_id) == Err::<Seq<char>, ReadeckError>(
            ReadeckError::Unauthorized,
        ),
        step(
            users,
            pretty_response,
            StateView::Saving { api_token },
            Event::Saved(Err(ReadeckError::Unauthorized)),
        ) == (
            StateView::Done,
            ActionView::Reply(
                "The request token found in the Authorization header is not valid"@,
            ),
        ),
{
}

/// Where detailed replies are not wanted, a successful save is answered
/// with exactly "Article saved successfully", whatever the identifier, and
/// that ends the handling: no details are asked for.
pub proof fn lemma_terse_confirmation(
    users: Map<u64, UserData>,
    api_token: Seq<char>,
    bookmark_id: String,
)
    ensures
        step(users, false, StateView::Saving { api_token }, Event::Saved(Ok(bookmark_id))) == (
            StateView::Done,
            ActionView::Reply("Article saved successfully"@),
        ),
        forall|event: Event| #[trigger]
            step(users, false, StateView::Done, event) == (StateView::Done, ActionView::Nothing),
{
}

/// A failed fetch of details is answered as a save that succeeded: the
/// reply opens with "Article saved, but errors occurred: " and goes on with
/// the wording of the failure.
pub proof fn lemma_partial_success_wording(
    users: Map<u64, UserData>,
    pretty_response: bool,
    cause: ReadeckError,
)
    ensures
        step(users, pretty_response, StateView::Enriching, Event::Details(Err(cause))) == (
            StateView::Done,
            ActionView::Reply("Article saved, but errors occurred: "@ + cause.message_spec()),
        ),
{
}

/// Every message gets one reply at most, and with it its handling is done:
/// a step that replies ends in `Done`, and from `Done` no event leads
/// anywhere.
pub proof fn lemma_reply_is_final(
    users: Map<u64, UserData>,
    pretty_response: bool,
    state: StateView,
    event: Event,
)
    ensures
        step(users, pretty_response, state, event).1 is Reply ==> step(
            users,
            pretty_response,
            state,
            event,
        ).0 is Done,
        state is Done ==> step(users, pretty_response, state, event) == (
            state,
            ActionView::Nothing,
        ),
{
}

} // verus!
