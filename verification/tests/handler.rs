use readeckbot::api::{BookmarkDetailsResponse, ReadeckApi};
use readeckbot::errors::{ProcessError, ReadeckError};
use readeckbot::extract::{InboundMessage, MessageEntity, MessageEntityKind};
use readeckbot::handler::{
    authorize, details_reply_text, msg_handler, on_extracted, Action, Event, State,
};
use readeckbot::users::{UserData, Users};

fn directory() -> Users {
    Users::load(vec![
        (1, UserData { api_token: "token-of-1".to_owned(), bot_marked: true }),
        (2, UserData { api_token: "token-of-2".to_owned(), bot_marked: false }),
    ])
}

fn message(sender: Option<u64>, text: &str) -> InboundMessage {
    InboundMessage {
        sender,
        text: Some(text.to_owned()),
        caption: None,
        entities: Vec::new(),
        caption_entities: Vec::new(),
    }
}

fn saving() -> State {
    State::Saving { api_token: "token-of-1".to_owned() }
}

fn reply(text: &str) -> (State, Action) {
    (State::Done, Action::Reply(text.to_owned()))
}

#[test]
fn a_message_without_sender_is_unauthorized() {
    let users = directory();
    let msg = message(None, "http://example.com/a");
    assert_eq!(msg_handler(&users, true, State::Start, Event::Message(msg)), reply("Unauthorized"));
}

#[test]
fn a_message_from_an_unknown_sender_is_unauthorized() {
    let users = directory();
    for pretty in [true, false] {
        let msg = message(Some(3), "http://example.com/a");
        assert_eq!(
            msg_handler(&users, pretty, State::Start, Event::Message(msg)),
            reply("Unauthorized")
        );
    }
    let nobody = Users::load(Vec::new());
    let msg = message(Some(1), "http://example.com/a");
    assert_eq!(msg_handler(&nobody, true, State::Start, Event::Message(msg)), reply("Unauthorized"));
}

#[test]
fn a_message_without_url_is_not_a_valid_url() {
    let users = directory();
    let msg = message(Some(1), "hello there");
    assert_eq!(
        msg_handler(&users, true, State::Start, Event::Message(msg)),
        reply("Not a valid URL")
    );
}

#[test]
fn a_message_whose_first_candidate_is_no_url_is_not_a_valid_url() {
    let users = directory();
    let msg = message(Some(1), "http://foo:bar.com and http://example.com/a");
    assert_eq!(
        msg_handler(&users, true, State::Start, Event::Message(msg)),
        reply("Not a valid URL")
    );
}

#[test]
fn a_message_with_a_url_is_saved_with_the_senders_token() {
    let users = directory();
    let msg = message(Some(1), "check this out http://example.com/a and http://example.com/b");
    assert_eq!(
        msg_handler(&users, true, State::Start, Event::Message(msg)),
        (
            State::Saving { api_token: "token-of-1".to_owned() },
            Action::Save {
                url: "http://example.com/a".to_owned(),
                api_token: "token-of-1".to_owned(),
                bot_marked: true,
            },
        )
    );
    let msg = message(Some(2), "https://example.org/");
    assert_eq!(
        msg_handler(&users, false, State::Start, Event::Message(msg)),
        (
            State::Saving { api_token: "token-of-2".to_owned() },
            Action::Save {
                url: "https://example.org/".to_owned(),
                api_token: "token-of-2".to_owned(),
                bot_marked: false,
            },
        )
    );
}

#[test]
fn a_linked_url_is_saved_in_place_of_a_written_one() {
    let users = directory();
    let mut msg = message(Some(2), "see http://example.com/written");
    msg.entities = vec![MessageEntity {
        kind: MessageEntityKind::TextLink { url: "https://example.org/linked".to_owned() },
        offset: 0,
        length: 3,
    }];
    assert_eq!(
        msg_handler(&users, true, State::Start, Event::Message(msg)).1,
        Action::Save {
            url: "https://example.org/linked".to_owned(),
            api_token: "token-of-2".to_owned(),
            bot_marked: false,
        }
    );
}

#[test]
fn a_saved_bookmark_with_title_and_reading_time_is_announced_in_full() {
    let users = directory();
    let (state, action) = msg_handler(&users, true, saving(), Event::Saved(Ok("42".to_owned())));
    assert_eq!(state, State::Enriching);
    assert_eq!(
        action,
        Action::FetchDetails { bookmark_id: "42".to_owned(), api_token: "token-of-1".to_owned() }
    );
    let details = BookmarkDetailsResponse { title: "Hello World".to_owned(), reading_time: Some(5) };
    assert_eq!(
        msg_handler(&users, true, state, Event::Details(Ok(details))),
        reply("Hello World added to Readeck.\n\n Reading time: 5")
    );
}

#[test]
fn a_saved_bookmark_without_reading_time_is_announced_by_title() {
    let users = directory();
    let details = BookmarkDetailsResponse { title: "Hello World".to_owned(), reading_time: None };
    assert_eq!(
        msg_handler(&users, true, State::Enriching, Event::Details(Ok(details))),
        reply("Hello World added to Readeck.")
    );
}

#[test]
fn a_saved_bookmark_without_title_is_announced_plainly() {
    let users = directory();
    let details = BookmarkDetailsResponse { title: String::new(), reading_time: Some(12) };
    assert_eq!(
        msg_handler(&users, true, State::Enriching, Event::Details(Ok(details))),
        reply("Added to Readeck.")
    );
}

#[test]
fn a_failed_fetch_of_details_tells_that_the_bookmark_is_saved() {
    let users = directory();
    let (state, _) = msg_handler(&users, true, saving(), Event::Saved(Ok("42".to_owned())));
    let failure = ReadeckError::ReqwestError("connection reset".to_owned());
    let (state, action) = msg_handler(&users, true, state, Event::Details(Err(failure.clone())));
    assert_eq!(state, State::Done);
    assert_eq!(
        action,
        Action::Reply(
            "Article saved, but errors occurred: A network error occurred: connection reset"
                .to_owned()
        )
    );
    assert_ne!(action, Action::Reply(failure.message()));
}

#[test]
fn a_save_refused_as_unauthorized_is_answered_with_that_error() {
    let users = directory();
    let saved = ReadeckApi::saved_bookmark_id(401, None);
    assert_eq!(saved, Err(ReadeckError::Unauthorized));
    for pretty in [true, false] {
        let saved = ReadeckApi::saved_bookmark_id(401, None);
        assert_eq!(
            msg_handler(&users, pretty, saving(), Event::Saved(saved)),
            reply("The request token found in the Authorization header is not valid")
        );
    }
}

#[test]
fn every_failed_save_is_answered_with_its_wording() {
    let users = directory();
    let causes = [
        ReadeckError::Unauthorized,
        ReadeckError::Forbidden,
        ReadeckError::InvalidData,
        ReadeckError::OtherHttp(503),
        ReadeckError::ReqwestError("timed out".to_owned()),
        ReadeckError::SerdeError("bad".to_owned()),
        ReadeckError::MissingBookmarkId,
    ];
    for cause in causes {
        let wording = cause.message();
        assert_eq!(
            msg_handler(&users, true, saving(), Event::Saved(Err(cause))),
            reply(&wording)
        );
    }
}

#[test]
fn without_pretty_responses_a_save_is_confirmed_at_once() {
    let users = directory();
    for id in ["42", "", "some-long-identifier"] {
        assert_eq!(
            msg_handler(&users, false, saving(), Event::Saved(Ok(id.to_owned()))),
            reply("Article saved successfully")
        );
    }
}

#[test]
fn an_event_out_of_place_changes_nothing() {
    let users = directory();
    let details = || BookmarkDetailsResponse { title: "T".to_owned(), reading_time: None };
    assert_eq!(
        msg_handler(&users, true, State::Start, Event::Saved(Ok("42".to_owned()))),
        (State::Start, Action::Nothing)
    );
    assert_eq!(
        msg_handler(&users, true, saving(), Event::Details(Ok(details()))),
        (saving(), Action::Nothing)
    );
    assert_eq!(
        msg_handler(&users, true, State::Enriching, Event::Message(message(Some(1), "http://example.com/a"))),
        (State::Enriching, Action::Nothing)
    );
}

#[test]
fn nothing_follows_a_reply() {
    let users = directory();
    let details = BookmarkDetailsResponse { title: "T".to_owned(), reading_time: None };
    let events = [
        Event::Message(message(Some(1), "http://example.com/a")),
        Event::Saved(Ok("42".to_owned())),
        Event::Saved(Err(ReadeckError::Forbidden)),
        Event::Details(Ok(details)),
    ];
    for event in events {
        assert_eq!(msg_handler(&users, true, State::Done, event), (State::Done, Action::Nothing));
    }
}

#[test]
fn authorize_finds_the_sender_in_the_directory() {
    let users = directory();
    assert_eq!(
        authorize(&users, &message(Some(2), "")),
        Some(&UserData { api_token: "token-of-2".to_owned(), bot_marked: false })
    );
    assert_eq!(authorize(&users, &message(Some(20), "")), None);
    assert_eq!(authorize(&users, &message(None, "")), None);
}

#[test]
fn on_extracted_saves_a_url_and_words_an_error() {
    let user = UserData { api_token: "t".to_owned(), bot_marked: true };
    assert_eq!(
        on_extracted(&user, Some(Ok("http://example.com/".to_owned()))),
        (
            State::Saving { api_token: "t".to_owned() },
            Action::Save { url: "http://example.com/".to_owned(), api_token: "t".to_owned(), bot_marked: true },
        )
    );
    assert_eq!(on_extracted(&user, Some(Err(ProcessError::NotAnUrl))), reply("Not a valid URL"));
    assert_eq!(on_extracted(&user, None), reply("Not a valid URL"));
}

#[test]
fn details_reply_text_renders_the_reading_time_in_decimal() {
    let details = BookmarkDetailsResponse { title: "A".to_owned(), reading_time: Some(0) };
    assert_eq!(details_reply_text(&details), "A added to Readeck.\n\n Reading time: 0");
    let details = BookmarkDetailsResponse { title: "A".to_owned(), reading_time: Some(u32::MAX) };
    assert_eq!(details_reply_text(&details), "A added to Readeck.\n\n Reading time: 4294967295");
}

#[test]
fn an_accepted_bookmark_with_details_is_announced_in_full() {
    let users = directory();
    let msg = message(Some(1), "http://example.com/a");
    let (state, action) = msg_handler(&users, true, State::Start, Event::Message(msg));
    assert_eq!(
        action,
        Action::Save {
            url: "http://example.com/a".to_owned(),
            api_token: "token-of-1".to_owned(),
            bot_marked: true,
        }
    );
    let saved = ReadeckApi::saved_bookmark_id(202, Some(b"42".as_slice()));
    let (state, action) = msg_handler(&users, true, state, Event::Saved(saved));
    assert_eq!(
        action,
        Action::FetchDetails { bookmark_id: "42".to_owned(), api_token: "token-of-1".to_owned() }
    );
    assert_eq!(ReadeckApi::details_status(200), Ok(()));
    let body: serde_json::Value =
        serde_json::from_str("{\"title\": \"Hello World\", \"reading_time\": 5}").unwrap();
    let details = BookmarkDetailsResponse {
        title: body["title"].as_str().unwrap().to_owned(),
        reading_time: body["reading_time"].as_u64().map(|minutes| minutes as u32),
    };
    assert_eq!(
        msg_handler(&users, true, state, Event::Details(Ok(details))),
        reply("Hello World added to Readeck.\n\n Reading time: 5")
    );
}

#[test]
fn an_accepted_bookmark_whose_details_do_not_arrive_is_still_saved() {
    let users = directory();
    let saved = ReadeckApi::saved_bookmark_id(202, Some(b"42".as_slice()));
    assert_eq!(saved, Ok("42".to_owned()));
    let (state, action) = msg_handler(&users, true, saving(), Event::Saved(saved));
    assert_eq!(state, State::Enriching);
    assert_eq!(
        action,
        Action::FetchDetails { bookmark_id: "42".to_owned(), api_token: "token-of-1".to_owned() }
    );
    let failure = ReadeckError::ReqwestError("error sending request".to_owned());
    let full_failure = msg_handler(&users, true, saving(), Event::Saved(Err(failure.clone()))).1;
    let partial = msg_handler(&users, true, state, Event::Details(Err(failure))).1;
    assert_eq!(
        partial,
        Action::Reply(
            "Article saved, but errors occurred: A network error occurred: error sending request"
                .to_owned()
        )
    );
    assert_eq!(
        full_failure,
        Action::Reply("A network error occurred: error sending request".to_owned())
    );
    assert_ne!(partial, full_failure);
}

#[test]
fn a_details_answer_that_is_no_success_is_a_save_with_errors() {
    let users = directory();
    let refused = ReadeckApi::details_status(404).unwrap_err();
    assert_eq!(
        msg_handler(&users, true, State::Enriching, Event::Details(Err(refused))),
        reply("Article saved, but errors occurred: HTTP Error 404")
    );
}
