//! What the bot does with a request that traQ sends to its webhook.

use vstd::prelude::*;
use traq_bot_http::{Event, RequestParser};
use vstd::utf8::{decode_utf8, valid_utf8};

verus! {

/// A message that a user posted, as the bot sees it.
pub struct MessageEvent {
    pub channel_id: String,
    pub user_id: String,
    pub plain_text: String,
}

/// A change of the reactions on a message of the bot.
pub struct StampsEvent {
    pub message_id: String,
    pub stamp_ids: Vec<String>,
}

/// An event of traQ, as far as the bot tells events apart.
pub enum BotEvent {
    MessageCreated(MessageEvent),
    DirectMessageCreated(MessageEvent),
    BotMessageStampsUpdated(StampsEvent),
    Other,
}

/// What the bot does with a request: refuse it, answer it with no content,
/// or hand its event to the matching handler.
pub enum EventAction {
    BadRequest,
    NoContent,
    MessageCreated(MessageEvent),
    DirectMessageCreated(MessageEvent),
    BotMessageStampsUpdated(StampsEvent),
}

/// The plain form of an event: its kind (0 for a message, 1 for a direct
/// message, 2 for a change of reactions, 3 for any other event) and its
/// fields (channel, user and text of a message; message and reactions of a
/// change of reactions).
pub type EventForm = (u8, Seq<char>, Seq<char>, Seq<char>, Seq<Seq<char>>);

/// The plain form of a parsed event, `None` for a refused request.
pub open spec fn event_form(e: Option<BotEvent>) -> Option<EventForm> {
    match e {
        None => None,
        Some(BotEvent::MessageCreated(m)) => Some(
            (0u8, m.channel_id@, m.user_id@, m.plain_text@, Seq::empty()),
        ),
        Some(BotEvent::DirectMessageCreated(m)) => Some(
            (1u8, m.channel_id@, m.user_id@, m.plain_text@, Seq::empty()),
        ),
        Some(BotEvent::BotMessageStampsUpdated(s)) => Some(
            (2u8, s.message_id@, Seq::empty(), Seq::empty(), s.stamp_ids.deep_view()),
        ),
        Some(BotEvent::Other) => Some((3u8, Seq::empty(), Seq::empty(), Seq::empty(), Seq::empty())),
    }
}

/// What `RequestParser::new(token).parse(headers, body)`
/// gives, in plain form: `None` when it refuses the request.
pub uninterp spec fn parsed_event(
    token: Seq<char>,
    headers: Seq<(Seq<u8>, Seq<u8>)>,
    body: Seq<u8>,
) -> Option<EventForm>;

/// Some header of the request carries `token`, in UTF-8, as its value.
pub open spec fn token_presented(headers: Seq<(Seq<u8>, Seq<u8>)>, token: Seq<char>) -> bool {
    exists|i: int|
        0 <= i < headers.len() && valid_utf8(#[trigger] headers[i].1) && decode_utf8(
            headers[i].1,
        ) == token
}

/// Parses a webhook request with `traq_bot_http::RequestParser::parse`, for
/// the verification token `token`, and keeps of its event what the bot
/// reads. The contract claims that the result is `parsed_event` of the
/// arguments, and that a request is only taken when one of its headers
/// carries the token (the parser compares the value of the
/// `X-TRAQ-BOT-TOKEN` header with it); which header name the parser reads
/// for the token, and its checks of the content type and the event name,
/// are left to the name.
#[verifier::external_body]
pub(crate) fn parse_event(token: &str, headers: &Vec<(Vec<u8>, Vec<u8>)>, body: &[u8]) -> (r: Option<BotEvent>)
    ensures
        event_form(r) == parsed_event(token@, headers.deep_view(), body@),
        r is Some ==> token_presented(headers.deep_view(), token@),
{
    match RequestParser::new(token).parse(headers.iter().map(|(k, v)| (k, v)), body) {
        Err(_) => None,
        Ok(Event::MessageCreated(p)) => Some(BotEvent::MessageCreated(MessageEvent { channel_id: p.message.channel_id, user_id: p.message.user.id, plain_text: p.message.plain_text })),
        Ok(Event::DirectMessageCreated(p)) => Some(BotEvent::DirectMessageCreated(MessageEvent { channel_id: p.message.channel_id, user_id: p.message.user.id, plain_text: p.message.plain_text })),
        Ok(Event::BotMessageStampsUpdated(p)) => Some(BotEvent::BotMessageStampsUpdated(StampsEvent { message_id: p.message_id, stamp_ids: p.stamps.into_iter().map(|s| s.stamp_id).collect() })),
        Ok(_) => Some(BotEvent::Other),
    }
}

/// The action for a parsed event (`None` for a refused request).
pub open spec fn action_for(e: Option<BotEvent>) -> EventAction {
    match e {
        None => EventAction::BadRequest,
        Some(BotEvent::MessageCreated(m)) => EventAction::MessageCreated(m),
        Some(BotEvent::DirectMessageCreated(m)) => EventAction::DirectMessageCreated(m),
        Some(BotEvent::BotMessageStampsUpdated(s)) => EventAction::BotMessageStampsUpdated(s),
        Some(BotEvent::Other) => EventAction::NoContent,
    }
}

/// The plain form of an action: `None` to refuse, `Some(None)` to answer
/// with no content, `Some(Some(f))` to hand the event of form `f` to its
/// handler.
pub open spec fn action_form(a: EventAction) -> Option<Option<EventForm>> {
    match a {
        EventAction::BadRequest => None,
        EventAction::NoContent => Some(None),
        EventAction::MessageCreated(m) => Some(event_form(Some(BotEvent::MessageCreated(m)))),
        EventAction::DirectMessageCreated(m) => Some(
            event_form(Some(BotEvent::DirectMessageCreated(m))),
        ),
        EventAction::BotMessageStampsUpdated(s) => Some(
            event_form(Some(BotEvent::BotMessageStampsUpdated(s))),
        ),
    }
}

/// Which action the plain form of a parsed event calls for: refuse a
/// refused request, hand messages, direct messages and changes of reactions
/// to their handlers, and answer any other event with no content.
pub open spec fn dispatch(f: Option<EventForm>) -> Option<Option<EventForm>> {
    match f {
        None => None,
        Some(g) => if g.0 <= 2 {
            Some(Some(g))
        } else {
            Some(None)
        },
    }
}

/// The action for a parsed event.
pub fn event_action(e: Option<BotEvent>) -> (a: EventAction)
    ensures
        a == action_for(e),
        action_form(a) == dispatch(event_form(e)),
{
    match e {
        None => EventAction::BadRequest,
        Some(BotEvent::MessageCreated(m)) => EventAction::MessageCreated(m),
        Some(BotEvent::DirectMessageCreated(m)) => EventAction::DirectMessageCreated(m),
        Some(BotEvent::BotMessageStampsUpdated(s)) => EventAction::BotMessageStampsUpdated(s),
        Some(BotEvent::Other) => EventAction::NoContent,
    }
}

/// Decides what to do with a webhook request, given the bot's verification
/// token: a request that the parser refuses is a bad request; messages,
/// direct messages and changes of reactions go to their handlers; any other
/// event is answered with no content. A request none of whose headers
/// carries the token is always refused.
pub fn handle_event(token: &str, headers: &Vec<(Vec<u8>, Vec<u8>)>, body: &[u8]) -> (a: EventAction)
    ensures
        action_form(a) == dispatch(parsed_event(token@, headers.deep_view(), body@)),
        !token_presented(headers.deep_view(), token@) ==> a is BadRequest,
{
    let e = parse_event(token, headers, body);
    event_action(e)
}

/// A refused request is a bad request and only a refused one is; a
/// message, a direct message or a change of reactions reaches its own
/// handler with its fields as parsed; any other event gets no content.
pub proof fn law_events_reach_their_handlers(e: Option<BotEvent>)
    ensures
        (action_for(e) is BadRequest) <==> e is None,
        (action_for(e) is NoContent) <==> (e is Some && e->0 is Other),
        e is Some && e->0 is MessageCreated ==> action_for(e) == EventAction::MessageCreated(
            e->0->MessageCreated_0,
        ),
        e is Some && e->0 is DirectMessageCreated ==> action_for(e)
            == EventAction::DirectMessageCreated(e->0->DirectMessageCreated_0),
        e is Some && e->0 is BotMessageStampsUpdated ==> action_for(e)
            == EventAction::BotMessageStampsUpdated(e->0->BotMessageStampsUpdated_0),
{
}

} // verus!
