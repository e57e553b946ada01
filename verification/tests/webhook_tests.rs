use akinator::webhook::{event_action, handle_event, BotEvent, EventAction, MessageEvent};

const TOKEN: &str = "traqbotverificationtoken";

fn headers(event: &str, token: &str) -> Vec<(Vec<u8>, Vec<u8>)> {
    vec![
        (b"Content-Type".to_vec(), b"application/json".to_vec()),
        (b"X-TRAQ-BOT-TOKEN".to_vec(), token.as_bytes().to_vec()),
        (b"X-TRAQ-BOT-EVENT".to_vec(), event.as_bytes().to_vec()),
    ]
}

const MESSAGE_BODY: &str = r#"{
  "eventTime": "2019-05-08T13:33:51.690308239Z",
  "message": {
    "id": "bc9106b3-f9b2-4eca-9ba1-72b39b40954e",
    "user": {
      "id": "dfdff0c9-5de0-46ee-9721-2525e8bb3d45",
      "name": "takashi_trap",
      "displayName": "寺田 健二",
      "iconId": "2bc06cda-bdb9-4a68-8000-62f907f36a92",
      "bot": false
    },
    "channelId": "9aba50da-f605-4cd0-a428-5e4558cb911e",
    "text": "let's play akinator",
    "plainText": "let's play akinator",
    "embedded": [],
    "createdAt": "2019-05-08T13:33:51.632149265Z",
    "updatedAt": "2019-05-08T13:33:51.632149265Z"
  }
}"#;

const STAMPS_BODY: &str = r#"{
  "eventTime": "2020-10-17T03:35:34.5326265Z",
  "messageId": "200b6600-b2cd-4c1e-b366-9c40308cc087",
  "stamps": [
    {
      "stampId": "9f0be841-fbfa-4abf-871e-c1c72627e691",
      "userId": "b80551a5-2768-4d29-ad78-8e0e92330c8d",
      "count": 1,
      "createdAt": "2020-10-17T03:35:34.514299Z",
      "updatedAt": "2020-10-17T03:35:34.514299Z"
    }
  ]
}"#;

#[test]
fn message_goes_to_its_handler() {
    match handle_event(TOKEN, &headers("MESSAGE_CREATED", TOKEN), MESSAGE_BODY.as_bytes()) {
        EventAction::MessageCreated(m) => {
            assert_eq!(m.channel_id, "9aba50da-f605-4cd0-a428-5e4558cb911e");
            assert_eq!(m.user_id, "dfdff0c9-5de0-46ee-9721-2525e8bb3d45");
            assert_eq!(m.plain_text, "let's play akinator");
        }
        _ => panic!("expected a message"),
    }
}

#[test]
fn direct_message_goes_to_its_handler() {
    let a = handle_event(TOKEN, &headers("DIRECT_MESSAGE_CREATED", TOKEN), MESSAGE_BODY.as_bytes());
    assert!(matches!(a, EventAction::DirectMessageCreated(_)));
}

#[test]
fn stamps_go_to_their_handler() {
    match handle_event(TOKEN, &headers("BOT_MESSAGE_STAMPS_UPDATED", TOKEN), STAMPS_BODY.as_bytes()) {
        EventAction::BotMessageStampsUpdated(s) => {
            assert_eq!(s.message_id, "200b6600-b2cd-4c1e-b366-9c40308cc087");
            assert_eq!(s.stamp_ids, vec!["9f0be841-fbfa-4abf-871e-c1c72627e691".to_string()]);
        }
        _ => panic!("expected a change of reactions"),
    }
}

#[test]
fn other_events_get_no_content() {
    let body = br#"{"eventTime": "2019-05-07T04:50:48.582586882Z"}"#;
    assert!(matches!(handle_event(TOKEN, &headers("PING", TOKEN), body), EventAction::NoContent));
}

#[test]
fn wrong_token_is_bad_request() {
    let a = handle_event(TOKEN, &headers("MESSAGE_CREATED", "other"), MESSAGE_BODY.as_bytes());
    assert!(matches!(a, EventAction::BadRequest));
}

#[test]
fn broken_body_is_bad_request() {
    let a = handle_event(TOKEN, &headers("MESSAGE_CREATED", TOKEN), b"{");
    assert!(matches!(a, EventAction::BadRequest));
    let mut h = headers("MESSAGE_CREATED", TOKEN);
    h.remove(0);
    assert!(matches!(handle_event(TOKEN, &h, MESSAGE_BODY.as_bytes()), EventAction::BadRequest));
}

#[test]
fn event_action_by_kind() {
    assert!(matches!(event_action(None), EventAction::BadRequest));
    assert!(matches!(event_action(Some(BotEvent::Other)), EventAction::NoContent));
    let m = MessageEvent {
        channel_id: "c".to_string(),
        user_id: "u".to_string(),
        plain_text: "t".to_string(),
    };
    match event_action(Some(BotEvent::MessageCreated(m))) {
        EventAction::MessageCreated(m) => assert_eq!(m.plain_text, "t"),
        _ => panic!("expected a message"),
    }
}
