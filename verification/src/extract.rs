//! Which URL a message means.
//!
//! A message offers up to four sources of URLs. In order: the link
//! annotations of its body, those of its caption, the URLs written out in
//! its body, and those written out in its caption. The candidates of all
//! four are lined up in that order and the first one decides, whether or
//! not it is a well-formed URL.

use crate::bindings::{find_all, parse_strict, regex_matches, strict_url, texts};
use crate::errors::ProcessError;
use vstd::prelude::*;

verus! {

/// What a written-out URL looks like: `http://` or `https://`, an optional
/// `www.`, a host, a dot, a top-level label of two to four letters, and
/// what path and query follow.
pub const URL_PATTERN: &'static str =
    r"https?:\/\/(www\.)?[-a-zA-Z0-9@:%._\+~#=]{2,256}\.[a-z]{2,4}\b([-a-zA-Z0-9@:%_\+.~#?&//=]*)";

/// What an annotation marks its span of text as.
#[derive(Debug, Clone, PartialEq, Eq)]
pub enum MessageEntityKind {
    /// A link: the span is shown as written and leads to `url`.
    TextLink { url: String },
    /// Anything else: a mention, bold type and the like.
    Other,
}

/// An annotation of a span of a message's body or caption.
#[derive(Debug, Clone, PartialEq, Eq)]
pub struct MessageEntity {
    pub kind: MessageEntityKind,
    /// Where the span starts.
    pub offset: usize,
    /// How long the span is.
    pub length: usize,
}

/// A message as it comes from the chat transport.
#[derive(Debug, Clone, PartialEq, Eq)]
pub struct InboundMessage {
    /// The identifier of the sender, where the transport names one.
    pub sender: Option<u64>,
    /// The body of the message.
    pub text: Option<String>,
    /// The caption, where the message is a picture or the like.
    pub caption: Option<String>,
    /// The annotations of the body, in the transport's order.
    pub entities: Vec<MessageEntity>,
    /// The annotations of the caption, in the transport's order.
    pub caption_entities: Vec<MessageEntity>,
}

/// A candidate as a contract sees it: the URL, or `None` for a piece of
/// text that looked like a URL and is none.
pub type Candidate = Option<Seq<char>>;

/// The targets of the link annotations among `entities`, in their order.
pub open spec fn link_targets(entities: Seq<MessageEntity>) -> Seq<Seq<char>>
    decreases entities.len(),
{
    if entities.len() == 0 {
        Seq::empty()
    } else {
        let before = link_targets(entities.drop_last());
        match entities.last().kind {
            MessageEntityKind::TextLink { url } => before.push(url@),
            MessageEntityKind::Other => before,
        }
    }
}

/// The candidates that the link annotations among `entities` give.
pub open spec fn linked(entities: Seq<MessageEntity>) -> Seq<Candidate> {
    link_targets(entities).map_values(|target: Seq<char>| Some(target))
}

/// The candidates that pieces of text give, each put to the strict parser.
pub open spec fn parsed(matches: Seq<Seq<char>>) -> Seq<Candidate> {
    matches.map_values(|m: Seq<char>| strict_url(m))
}

/// The candidates written out in `text`: what a scan for `URL_PATTERN`
/// finds, each put to the strict parser. A pattern that the scanner refused
/// would find nothing.
pub open spec fn scanned(text: Seq<char>) -> Seq<Candidate> {
    match regex_matches(URL_PATTERN@, text) {
        Some(matches) => parsed(matches),
        None => Seq::empty(),
    }
}

/// The text of an optional part of a message: empty where it is absent.
pub open spec fn text_or_empty(part: Option<String>) -> Seq<char> {
    match part {
        Some(t) => t@,
        None => Seq::empty(),
    }
}

/// All candidates of a message, in the order of precedence.
pub open spec fn candidates(msg: InboundMessage) -> Seq<Candidate> {
    linked(msg.entities@) + linked(msg.caption_entities@) + scanned(text_or_empty(msg.text))
        + scanned(text_or_empty(msg.caption))
}

/// The URL that a message means: `None` where it has no candidate, else its
/// first candidate.
pub open spec fn extract_url_spec(msg: InboundMessage) -> Option<Candidate> {
    if candidates(msg).len() == 0 {
        None
    } else {
        Some(candidates(msg)[0])
    }
}

/// An executable candidate as a contract sees it.
pub open spec fn candidate_view(candidate: Result<String, ProcessError>) -> Candidate {
    match candidate {
        Ok(url) => Some(url@),
        Err(_) => None,
    }
}

/// Executable candidates as a contract sees them.
pub open spec fn candidate_views(found: Seq<Result<String, ProcessError>>) -> Seq<Candidate> {
    found.map_values(|c: Result<String, ProcessError>| candidate_view(c))
}

/// Whether a candidate is a URL or the error that says it is none.
pub open spec fn well_formed(candidate: Result<String, ProcessError>) -> bool {
    candidate matches Err(e) ==> e is NotAnUrl
}

/// Whether each of `found` is a URL or the error that says it is none.
pub open spec fn all_well_formed(found: Seq<Result<String, ProcessError>>) -> bool {
    forall|i: int| 0 <= i < found.len() ==> well_formed(#[trigger] found[i])
}

/// One more executable candidate is one more candidate in the contract's
/// eyes.
proof fn lemma_views_push(
    found: Seq<Result<String, ProcessError>>,
    candidate: Result<String, ProcessError>,
)
    ensures
        candidate_views(found.push(candidate)) == candidate_views(found).push(
            candidate_view(candidate),
        ),
{
    assert(candidate_views(found.push(candidate)) =~= candidate_views(found).push(
        candidate_view(candidate),
    ));
}

/// One more link target is one more candidate.
proof fn lemma_linked_push(targets: Seq<Seq<char>>, target: Seq<char>)
    ensures
        targets.push(target).map_values(|t: Seq<char>| Some(t)) == targets.map_values(
            |t: Seq<char>| Some(t),
        ).push(Some(target)),
{
    assert(targets.push(target).map_values(|t: Seq<char>| Some(t)) =~= targets.map_values(
        |t: Seq<char>| Some(t),
    ).push(Some(target)));
}

/// One more piece of text is one more candidate: what the strict parser
/// makes of it.
proof fn lemma_parsed_push(matches: Seq<Seq<char>>, piece: Seq<char>)
    ensures
        parsed(matches.push(piece)) == parsed(matches).push(strict_url(piece)),
{
    assert(parsed(matches.push(piece)) =~= parsed(matches).push(strict_url(piece)));
}

/// The candidates that the link annotations among `entities` give: the
/// target of each, in their order.
pub fn text_links(entities: &Vec<MessageEntity>) -> (links: Vec<Result<String, ProcessError>>)
    ensures
        candidate_views(links@) == linked(entities@),
        all_well_formed(links@),
{
    let mut links: Vec<Result<String, ProcessError>> = Vec::new();
    let mut i: usize = 0;
    while i < entities.len()
        invariant
            i <= entities.len(),
            candidate_views(links@) == linked(entities@.take(i as int)),
            all_well_formed(links@),
        decreases entities.len() - i,
    {
        let ghost before = links@;
        match &entities[i].kind {
            MessageEntityKind::TextLink { url } => {
                links.push(Ok(url.clone()));
            },
            MessageEntityKind::Other => {},
        }
        proof {
            let upto = entities@.take(i + 1);
            assert(upto.drop_last() =~= entities@.take(i as int));
            assert(upto.last() == entities@[i as int]);
            match entities@[i as int].kind {
                MessageEntityKind::TextLink { url } => {
                    assert(link_targets(upto) == link_targets(entities@.take(i as int)).push(url@));
                    assert(links@ == before.push(links@.last()));
                    lemma_views_push(before, links@.last());
                    lemma_linked_push(link_targets(entities@.take(i as int)), url@);
                },
                MessageEntityKind::Other => {
                    assert(link_targets(upto) == link_targets(entities@.take(i as int)));
                },
            }
        }
        i += 1;
    }
    assert(entities@.take(i as int) =~= entities@);
    links
}

/// Puts each of `matches` to the strict parser: its URL where the parser
/// takes it, else the error that it is none.
pub fn parse_matches(matches: Vec<String>) -> (found: Vec<Result<String, ProcessError>>)
    ensures
        candidate_views(found@) == parsed(texts(matches@)),
        all_well_formed(found@),
{
    let mut found: Vec<Result<String, ProcessError>> = Vec::new();
    let mut i: usize = 0;
    while i < matches.len()
        invariant
            i <= matches.len(),
            candidate_views(found@) == parsed(texts(matches@.take(i as int))),
            all_well_formed(found@),
        decreases matches.len() - i,
    {
        let candidate = match parse_strict(matches[i].as_str()) {
            Some(url) => Ok(url),
            None => Err(ProcessError::NotAnUrl),
        };
        let ghost before = found@;
        found.push(candidate);
        proof {
            let upto = matches@.take(i + 1);
            assert(upto.drop_last() =~= matches@.take(i as int));
            assert(texts(upto) =~= texts(matches@.take(i as int)).push(matches@[i as int]@));
            assert(found@ == before.push(candidate));
            lemma_views_push(before, candidate);
            lemma_parsed_push(texts(matches@.take(i as int)), matches@[i as int]@);
        }
        i += 1;
    }
    assert(matches@.take(i as int) =~= matches@);
    found
}

/// The candidates written out in `text`: every piece of it that looks like
/// a URL, leftmost first, each put to the strict parser. One that the
/// parser refuses keeps its place, as the error that it is no URL.
pub fn parse_url(text: &str) -> (found: Vec<Result<String, ProcessError>>)
    ensures
        candidate_views(found@) == scanned(text@),
        all_well_formed(found@),
{
    match find_all(URL_PATTERN, text) {
        Some(matches) => parse_matches(matches),
        None => {
            let found: Vec<Result<String, ProcessError>> = Vec::new();
            assert(candidate_views(found@) =~= scanned(text@));
            found
        },
    }
}

/// The first of the candidates of four sources, taken in the order of
/// precedence: link annotations of the body, link annotations of the
/// caption, URLs written out in the body, URLs written out in the caption.
pub fn choose_url(
    links: Vec<Result<String, ProcessError>>,
    caption_links: Vec<Result<String, ProcessError>>,
    written: Vec<Result<String, ProcessError>>,
    caption_written: Vec<Result<String, ProcessError>>,
) -> (chosen: Option<Result<String, ProcessError>>)
    ensures
        chosen == (if (links@ + caption_links@ + written@ + caption_written@).len() == 0 {
            None
        } else {
            Some((links@ + caption_links@ + written@ + caption_written@)[0])
        }),
{
    let mut urls = links;
    let mut caption_links = caption_links;
    let mut written = written;
    let mut caption_written = caption_written;
    urls.append(&mut caption_links);
    urls.append(&mut written);
    urls.append(&mut caption_written);
    if urls.len() == 0 {
        None
    } else {
        Some(urls.remove(0))
    }
}

/// The URL that `msg` means: `None` where no source yields a candidate,
/// else the first candidate, which is an error where it is no well-formed
/// URL.
pub fn extract_url(msg: &InboundMessage) -> (chosen: Option<Result<String, ProcessError>>)
    ensures
        match chosen {
            Some(candidate) => extract_url_spec(*msg) == Some(candidate_view(candidate))
                && well_formed(candidate),
            None => extract_url_spec(*msg) is None,
        },
{
    let links = text_links(&msg.entities);
    let caption_links = text_links(&msg.caption_entities);
    let written = match &msg.text {
        Some(text) => parse_url(text.as_str()),
        None => parse_url(""),
    };
    let caption_written = match &msg.caption {
        Some(caption) => parse_url(caption.as_str()),
        None => parse_url(""),
    };
    proof {
        reveal_strlit("");
        assert(""@ =~= Seq::<char>::empty());
        let all = links@ + caption_links@ + written@ + caption_written@;
        assert(candidate_views(all) =~= candidates(*msg));
    }
    choose_url(links, caption_links, written, caption_written)
}

/// Whether `entities` holds a link annotation.
pub open spec fn has_link(entities: Seq<MessageEntity>) -> bool {
    exists|i: int| 0 <= i < entities.len() && #[trigger] entities[i].kind is TextLink
}

/// Annotations of which none is a link give no target.
pub proof fn lemma_no_link_no_target(entities: Seq<MessageEntity>)
    requires
        !has_link(entities),
    ensures
        link_targets(entities).len() == 0,
    decreases entities.len(),
{
    if entities.len() > 0 {
        let before = entities.drop_last();
        assert(entities.last() == entities[entities.len() - 1]);
        assert(entities[entities.len() - 1].kind is Other);
        assert forall|j: int| 0 <= j < before.len() implies !(#[trigger] before[j].kind
            is TextLink) by {
            assert(before[j] == entities[j]);
        }
        lemma_no_link_no_target(before);
    }
}

/// The first target among `entities` is the target of their first link
/// annotation: the transport's order is kept.
pub proof fn lemma_first_link_target(entities: Seq<MessageEntity>, i: int)
    requires
        0 <= i < entities.len(),
        entities[i].kind is TextLink,
        !has_link(entities.take(i)),
    ensures
        link_targets(entities).len() > 0,
        link_targets(entities)[0] == entities[i].kind->url@,
    decreases entities.len(),
{
    let before = entities.drop_last();
    if i == entities.len() - 1 {
        assert(before =~= entities.take(i));
        lemma_no_link_no_target(before);
    } else {
        assert(before[i] == entities[i]);
        assert(before.take(i) =~= entities.take(i));
        lemma_first_link_target(before, i);
    }
}

/// Annotations of which one is a link give a target.
pub proof fn lemma_link_gives_target(entities: Seq<MessageEntity>)
    requires
        has_link(entities),
    ensures
        link_targets(entities).len() > 0,
    decreases entities.len(),
{
    let i = choose|i: int| 0 <= i < entities.len() && #[trigger] entities[i].kind is TextLink;
    let before = entities.drop_last();
    if i < entities.len() - 1 {
        assert(before[i] == entities[i]);
        lemma_link_gives_target(before);
    }
}

/// A link annotation in the body wins: where the body of a message holds
/// one, the message means the target of the first of them, whatever URLs
/// its caption holds and whatever is written out in either text.
pub proof fn lemma_body_link_wins(msg: InboundMessage)
    requires
        has_link(msg.entities@),
    ensures
        link_targets(msg.entities@).len() > 0,
        extract_url_spec(msg) == Some(Some(link_targets(msg.entities@)[0])),
{
    lemma_link_gives_target(msg.entities@);
}

/// A link annotation in the caption wins over written-out URLs: where the
/// body of a message holds no link annotation and its caption holds one,
/// the message means the target of the first of the caption's, whatever is
/// written out in either text.
pub proof fn lemma_caption_link_wins(msg: InboundMessage)
    requires
        !has_link(msg.entities@),
        has_link(msg.caption_entities@),
    ensures
        link_targets(msg.caption_entities@).len() > 0,
        extract_url_spec(msg) == Some(Some(link_targets(msg.caption_entities@)[0])),
{
    lemma_no_link_no_target(msg.entities@);
    lemma_link_gives_target(msg.caption_entities@);
    assert(linked(msg.entities@) =~= Seq::<Candidate>::empty());
}

/// Written-out URLs count only where no annotation is a link, and those of
/// the body come first: such a message means the first candidate written
/// out in its body, or, where there is none, the first written out in its
/// caption.
pub proof fn lemma_written_urls_come_last(msg: InboundMessage)
    requires
        !has_link(msg.entities@),
        !has_link(msg.caption_entities@),
    ensures
        extract_url_spec(msg) == (if scanned(text_or_empty(msg.text)).len() > 0 {
            Some(scanned(text_or_empty(msg.text))[0])
        } else if scanned(text_or_empty(msg.caption)).len() > 0 {
            Some(scanned(text_or_empty(msg.caption))[0])
        } else {
            None
        }),
{
    lemma_no_link_no_target(msg.entities@);
    lemma_no_link_no_target(msg.caption_entities@);
    assert(linked(msg.entities@) =~= Seq::<Candidate>::empty());
    assert(linked(msg.caption_entities@) =~= Seq::<Candidate>::empty());
}

} // verus!
