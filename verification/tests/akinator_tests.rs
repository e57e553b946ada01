use akinator::akinator::{
    Akinator, AkinatorGameTheme, AkinatorParams, AkinatorProposition, AkinatorResponse,
    AkinatorStart, AkinatorState, Language,
};
use akinator::error::AkinatorError;
use akinator::page::{
    get_question_from_body, question_from_capture, session_from_body, session_from_captures,
};

const BODY: &str = "<script>\nsession: '3355'\nsignature: 'sig-77'\n</script>\n<p class=\"question-text\" id=\"question-label\">Is your character real?</p>\n";

fn response(completion: &str) -> AkinatorResponse {
    AkinatorResponse {
        completion: completion.to_string(),
        question: None,
        step: None,
        progression: None,
        akitude: "defy.png".to_string(),
        id_base_proposition: None,
        name_proposition: None,
        description_proposition: None,
        photo: None,
        guess: None,
    }
}

fn question_response(step: &str, progression: &str, question: &str) -> AkinatorResponse {
    let mut r = response("OK");
    r.step = Some(step.to_string());
    r.progression = Some(progression.to_string());
    r.question = Some(question.to_string());
    r.akitude = "serein.png".to_string();
    r
}

fn guess_response(photo: Option<&str>) -> AkinatorResponse {
    let mut r = response("OK");
    r.id_base_proposition = Some("123".to_string());
    r.name_proposition = Some("Mario".to_string());
    r.description_proposition = Some("Plumber".to_string());
    r.photo = photo.map(|p| p.to_string());
    r
}

fn started() -> Akinator {
    let mut a = Akinator::new(AkinatorGameTheme::Character).unwrap();
    assert!(a.finish_start(BODY).is_ok());
    a
}

#[test]
fn language_codes_and_default() {
    assert_eq!(Language::default().to_lang_code(), "jp");
    assert_eq!(Language::English.to_lang_code(), "en");
    assert_eq!(Language::Chinese.to_lang_code(), "cn");
}

#[test]
fn theme_sids() {
    assert_eq!(AkinatorGameTheme::Character.to_sid(), 1);
    assert_eq!(AkinatorGameTheme::Animal.to_sid(), 14);
}

#[test]
fn start_request_for_theme() {
    let s = AkinatorStart::new(AkinatorGameTheme::Animal, true);
    assert_eq!(s.sid, 14);
    assert!(s.cm);
    let a = Akinator::new(AkinatorGameTheme::Animal).unwrap();
    let (path, r) = a.start_request();
    assert_eq!(path, "game");
    assert_eq!(r.sid, 14);
    assert!(!r.cm);
}

#[test]
fn new_game_uses_parsed_site_url() {
    let a = Akinator::new(AkinatorGameTheme::Character).unwrap();
    assert_eq!(a.url(), "https://jp.akinator.com/");
    assert_eq!(a.request_url("answer"), Some("https://jp.akinator.com/answer".to_string()));
    assert_eq!(a.request_url("game"), Some("https://jp.akinator.com/game".to_string()));
    let p = AkinatorParams::new(AkinatorGameTheme::Animal).unwrap();
    assert_eq!(p.url, "https://jp.akinator.com/");
    assert_eq!(p.step, 0);
    assert_eq!(p.progression, "0.0");
    assert_eq!(p.step_last_proposition, None);
    assert!(!p.child_mode);
}

#[test]
fn reads_session_and_question_from_page() {
    let s = session_from_body(BODY).ok().unwrap();
    assert_eq!(s.session, "3355");
    assert_eq!(s.signature, "sig-77");
    assert_eq!(get_question_from_body(BODY).ok().unwrap(), "Is your character real?");
}

#[test]
fn page_without_session_or_signature() {
    assert!(matches!(session_from_body("nothing here"), Err(AkinatorError::SessionNotFound)));
    assert!(matches!(session_from_body("session: 'a'\n"), Err(AkinatorError::UnexpectedError)));
    assert!(matches!(get_question_from_body("<p>no</p>"), Err(AkinatorError::UnexpectedError)));
}

#[test]
fn captures_decide_the_session() {
    assert!(matches!(session_from_captures(None, None), Err(AkinatorError::SessionNotFound)));
    assert!(matches!(
        session_from_captures(Some(None), Some(Some("g".to_string()))),
        Err(AkinatorError::UnexpectedError)
    ));
    assert!(matches!(
        session_from_captures(Some(Some("s".to_string())), None),
        Err(AkinatorError::UnexpectedError)
    ));
    let s = session_from_captures(Some(Some("s".to_string())), Some(Some("g".to_string())))
        .ok()
        .unwrap();
    assert_eq!((s.session.as_str(), s.signature.as_str()), ("s", "g"));
    assert_eq!(question_from_capture(Some(Some("q".to_string()))).ok().unwrap(), "q");
    assert!(matches!(question_from_capture(Some(None)), Err(AkinatorError::UnexpectedError)));
}

#[test]
fn start_asks_first_question() {
    let mut a = Akinator::new(AkinatorGameTheme::Character).unwrap();
    match a.finish_start(BODY) {
        Ok(AkinatorState::Question(q)) => {
            assert_eq!(q.question, "Is your character real?");
            assert_eq!(q.step, 0);
            assert_eq!(q.progression, "0.0");
            assert_eq!(q.akitude, "https://jp.akinator.com//assets/img/akitudes_670x1096/defy.png");
        }
        _ => panic!("expected a question"),
    }
    let req = a.answer_request(AkinatorProposition::Yes).ok().unwrap().1;
    assert_eq!(req.session, "3355");
    assert_eq!(req.signature, "sig-77");
    assert_eq!(req.sid, 1);
    assert_eq!(req.step, 0);
    assert_eq!(req.progression, "0.0");
    assert!(matches!(req.answer, Some(AkinatorProposition::Yes)));
    assert_eq!(req.step_last_proposition, None);
}

#[test]
fn start_without_session_changes_nothing() {
    let mut a = Akinator::new(AkinatorGameTheme::Character).unwrap();
    assert!(matches!(a.finish_start("<html></html>"), Err(AkinatorError::SessionNotFound)));
    assert!(matches!(a.answer_request(AkinatorProposition::No), Err(AkinatorError::SessionNotFound)));
    assert!(matches!(a.exclude_request(), Err(AkinatorError::SessionNotFound)));
    assert!(matches!(a.back_request(), Err(AkinatorError::SessionNotFound)));
}

#[test]
fn start_without_question_keeps_session() {
    let mut a = Akinator::new(AkinatorGameTheme::Character).unwrap();
    let body = "session: 'x1'\nsignature: 'y2'\n";
    assert!(matches!(a.finish_start(body), Err(AkinatorError::UnexpectedError)));
    let req = a.exclude_request().ok().unwrap().1;
    assert_eq!(req.session, "x1");
    assert!(req.answer.is_none());
}

#[test]
fn back_refused_at_first_step() {
    let a = started();
    assert!(matches!(a.back_request(), Err(AkinatorError::CannotBackAnyMore)));
}

#[test]
fn answer_moves_to_next_question() {
    let mut a = started();
    match a.finish_answer(&question_response("3", "41.5", "Is it an animal?")) {
        Ok(AkinatorState::Question(q)) => {
            assert_eq!(q.step, 3);
            assert_eq!(q.progression, "41.5");
            assert_eq!(q.question, "Is it an animal?");
            assert_eq!(q.akitude, "https://jp.akinator.com//assets/img/akitudes_670x1096/serein.png");
        }
        _ => panic!("expected a question"),
    }
    let back = a.back_request().ok().unwrap().1;
    assert_eq!(back.step, 3);
    assert_eq!(back.progression, "41.5");
    assert_eq!(back.step_last_proposition, None);
    assert!(back.answer.is_none());
}

#[test]
fn answer_at_question_limit() {
    let mut a = started();
    assert!(matches!(
        a.finish_answer(&question_response("3", "1", "q")),
        Ok(AkinatorState::Question(_))
    ));
    assert!(matches!(
        a.finish_answer(&question_response("4", "2", "q").with_completion("SOUNDLIKE")),
        Err(AkinatorError::QuestionLimitExceeded)
    ));
    assert!(matches!(
        a.finish_answer(&question_response("4", "2", "q").with_completion("KO")),
        Err(AkinatorError::InvalidResponse)
    ));
    assert_eq!(a.exclude_request().ok().unwrap().1.step, 3);
}

trait WithCompletion {
    fn with_completion(self, c: &str) -> Self;
}

impl WithCompletion for AkinatorResponse {
    fn with_completion(mut self, c: &str) -> Self {
        self.completion = c.to_string();
        self
    }
}

#[test]
fn guess_is_remembered_for_exclude() {
    let mut a = started();
    assert!(a.update_state(&question_response("7", "88.0", "q")).is_ok());
    match a.update_state(&guess_response(Some("https://photos.example/mario.jpg"))) {
        Ok(AkinatorState::Guess(g)) => {
            assert_eq!(g.name, "Mario");
            assert_eq!(g.description, "Plumber");
            assert_eq!(g.image, "https://photos.example/mario.jpg");
        }
        _ => panic!("expected a guess"),
    }
    let ex = a.exclude_request().ok().unwrap().1;
    assert_eq!(ex.step_last_proposition, Some(7));
    assert_eq!(ex.step, 7);
}

#[test]
fn guess_with_bad_photo_still_recorded() {
    let mut a = started();
    assert!(a.update_state(&question_response("2", "10", "q")).is_ok());
    assert!(matches!(a.update_state(&guess_response(None)), Err(AkinatorError::InvalidResponse)));
    assert_eq!(a.exclude_request().ok().unwrap().1.step_last_proposition, Some(2));
    assert!(matches!(
        a.update_state(&guess_response(Some("not a url"))),
        Err(AkinatorError::InvalidResponse)
    ));
}

#[test]
fn question_with_bad_step_changes_nothing() {
    let mut a = started();
    assert!(matches!(
        a.update_state(&question_response("x", "10", "q")),
        Err(AkinatorError::InvalidResponse)
    ));
    let mut r = question_response("5", "10", "q");
    r.progression = None;
    assert!(matches!(a.update_state(&r), Err(AkinatorError::InvalidResponse)));
    assert_eq!(a.exclude_request().ok().unwrap().1.step, 0);
}

#[test]
fn question_without_text_still_moves_step() {
    let mut a = started();
    let mut r = question_response("6", "12.5", "q");
    r.question = None;
    assert!(matches!(a.update_state(&r), Err(AkinatorError::InvalidResponse)));
    let req = a.exclude_request().ok().unwrap().1;
    assert_eq!(req.step, 6);
    assert_eq!(req.progression, "12.5");
}

#[test]
fn error_messages() {
    assert_eq!(AkinatorError::SessionNotFound.message(), "Session not found");
    assert_eq!(AkinatorError::ConnectionError.message(), "Connection error");
    assert_eq!(AkinatorError::QuestionLimitExceeded.message(), "Question limit exceeded");
    assert_eq!(AkinatorError::InvalidResponse.message(), "Invalid response");
    assert_eq!(AkinatorError::UnexpectedError.message(), "Unexpected error");
    assert_eq!(AkinatorError::CannotBackAnyMore.message(), "Cannot back any more");
}

#[test]
fn requests_name_their_paths() {
    let mut a = started();
    assert_eq!(a.answer_request(AkinatorProposition::No).ok().unwrap().0, "answer");
    assert_eq!(a.exclude_request().ok().unwrap().0, "exclude");
    assert!(a.update_state(&question_response("1", "5", "q")).is_ok());
    assert_eq!(a.back_request().ok().unwrap().0, "back");
}

#[test]
fn answer_codes() {
    assert_eq!(AkinatorProposition::Yes.code(), 0);
    assert_eq!(AkinatorProposition::No.code(), 1);
    assert_eq!(AkinatorProposition::DontKnow.code(), 2);
    assert_eq!(AkinatorProposition::Probably.code(), 3);
    assert_eq!(AkinatorProposition::ProbablyNot.code(), 4);
}

#[test]
fn question_with_unreadable_progression_changes_nothing() {
    let mut a = started();
    assert!(matches!(
        a.update_state(&question_response("3", "abc", "q")),
        Err(AkinatorError::InvalidResponse)
    ));
    assert!(matches!(
        a.finish_answer(&question_response("3", "1.2.3", "q")),
        Err(AkinatorError::InvalidResponse)
    ));
    let req = a.exclude_request().ok().unwrap().1;
    assert_eq!(req.step, 0);
    assert_eq!(req.progression, "0.0");
    assert!(matches!(
        a.update_state(&question_response("3", "-Infinity", "q")),
        Ok(AkinatorState::Question(_))
    ));
}
