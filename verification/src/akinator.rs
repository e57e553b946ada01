//! The state of a game with Akinator, the requests that it sends and what
//! it makes of the answers.

use vstd::prelude::*;

use crate::error::AkinatorError;
use crate::page::{
    body_question, body_session, get_question_from_body, session_from_body, session_result_view,
    text_result_view,
};
use crate::text::{is_float, is_float_text, parse_i32, spec_parse_i32, str_eq};
use crate::web::{join_url, joined_url, parse_url, parsed_url};

verus! {

/// The language of the Akinator site that a game uses.
#[derive(Clone, Copy, PartialEq, Eq, Structural)]
pub enum Language {
    English,
    Japanese,
    Chinese,
}

impl Default for Language {
    fn default() -> (r: Self)
        ensures
            r == Language::Japanese,
    {
        Language::Japanese
    }
}

/// The code of a language in the Akinator host name.
pub open spec fn lang_code(l: Language) -> Seq<char> {
    match l {
        Language::English => "en"@,
        Language::Japanese => "jp"@,
        Language::Chinese => "cn"@,
    }
}

impl Language {
    /// The code of the language in the host name of the site.
    pub fn to_lang_code(&self) -> (r: &'static str)
        ensures
            r@ == lang_code(*self),
    {
        match self {
            Language::English => "en",
            Language::Japanese => "jp",
            Language::Chinese => "cn",
        }
    }
}

/// An answer to a question of Akinator.
#[derive(Clone, Copy, PartialEq, Eq, Structural)]
pub enum AkinatorProposition {
    Yes,
    No,
    DontKnow,
    Probably,
    ProbablyNot,
}

/// The number by which the site knows an answer.
pub open spec fn proposition_code(p: AkinatorProposition) -> u8 {
    match p {
        AkinatorProposition::Yes => 0,
        AkinatorProposition::No => 1,
        AkinatorProposition::DontKnow => 2,
        AkinatorProposition::Probably => 3,
        AkinatorProposition::ProbablyNot => 4,
    }
}

impl AkinatorProposition {
    /// The number that a request carries for the answer.
    pub fn code(&self) -> (r: u8)
        ensures
            r == proposition_code(*self),
    {
        match self {
            AkinatorProposition::Yes => 0,
            AkinatorProposition::No => 1,
            AkinatorProposition::DontKnow => 2,
            AkinatorProposition::Probably => 3,
            AkinatorProposition::ProbablyNot => 4,
        }
    }
}

/// The path on the site of the request that opens a game.
pub const START_PATH: &'static str = "game";

/// The path on the site of the request that answers a question.
pub const ANSWER_PATH: &'static str = "answer";

/// The path on the site of the request that rejects a guess.
pub const EXCLUDE_PATH: &'static str = "exclude";

/// The path on the site of the request that goes back a question.
pub const BACK_PATH: &'static str = "back";

/// What the player thinks of: a character or an animal.
#[derive(Clone, Copy, PartialEq, Eq, Structural)]
pub enum AkinatorGameTheme {
    Character,
    Animal,
}

/// The theme's number on the Akinator site.
pub open spec fn theme_sid(t: AkinatorGameTheme) -> i32 {
    match t {
        AkinatorGameTheme::Character => 1,
        AkinatorGameTheme::Animal => 14,
    }
}

impl AkinatorGameTheme {
    /// The number by which the site knows the theme.
    pub fn to_sid(&self) -> (r: i32)
        ensures
            r == theme_sid(*self),
    {
        match self {
            AkinatorGameTheme::Character => 1,
            AkinatorGameTheme::Animal => 14,
        }
    }
}

/// A question that Akinator asks. The progression is the text in which the
/// site reports it; the image is the serialized URL of Akinator's pose.
pub struct AkinatorQuestion {
    pub question: String,
    pub step: i32,
    pub progression: String,
    pub akitude: String,
}

/// A guess of Akinator, with the serialized URL of its picture.
pub struct AkinatorGuess {
    pub name: String,
    pub description: String,
    pub image: String,
}

/// What Akinator says next: a question or a guess.
pub enum AkinatorState {
    Question(AkinatorQuestion),
    Guess(AkinatorGuess),
}

/// The mathematical form of a state.
pub enum StateView {
    Question { question: Seq<char>, step: i32, progression: Seq<char>, akitude: Seq<char> },
    Guess { name: Seq<char>, description: Seq<char>, image: Seq<char> },
}

impl View for AkinatorState {
    type V = StateView;

    open spec fn view(&self) -> StateView {
        match self {
            AkinatorState::Question(q) => StateView::Question {
                question: q.question@,
                step: q.step,
                progression: q.progression@,
                akitude: q.akitude@,
            },
            AkinatorState::Guess(g) => StateView::Guess {
                name: g.name@,
                description: g.description@,
                image: g.image@,
            },
        }
    }
}

/// The session that the site opens for a game, which every later request
/// carries.
pub struct AkinatorSession {
    pub session: String,
    pub signature: String,
}

/// The mathematical form of a session.
pub struct SessionView {
    pub session: Seq<char>,
    pub signature: Seq<char>,
}

impl View for AkinatorSession {
    type V = SessionView;

    open spec fn view(&self) -> SessionView {
        SessionView { session: self.session@, signature: self.signature@ }
    }
}

/// The parameters that a game carries from one request to the next.
pub struct AkinatorParams {
    pub step: i32,
    pub progression: String,
    pub step_last_proposition: Option<i32>,
    pub url: String,
    pub language: Language,
    pub child_mode: bool,
    pub game_theme: AkinatorGameTheme,
}

/// The mathematical form of a game: its parameters and its session.
pub struct AkinatorView {
    pub step: i32,
    pub progression: Seq<char>,
    pub step_last_proposition: Option<i32>,
    pub url: Seq<char>,
    pub language: Language,
    pub child_mode: bool,
    pub game_theme: AkinatorGameTheme,
    pub session: Option<SessionView>,
}

/// A game with Akinator.
pub struct Akinator {
    params: AkinatorParams,
    session: Option<AkinatorSession>,
}

impl View for Akinator {
    type V = AkinatorView;

    closed spec fn view(&self) -> AkinatorView {
        AkinatorView {
            step: self.params.step,
            progression: self.params.progression@,
            step_last_proposition: self.params.step_last_proposition,
            url: self.params.url@,
            language: self.params.language,
            child_mode: self.params.child_mode,
            game_theme: self.params.game_theme,
            session: match self.session {
                Some(s) => Some(s@),
                None => None,
            },
        }
    }
}

/// The body of the request that opens a game.
pub struct AkinatorStart {
    pub sid: i32,
    pub cm: bool,
}

impl AkinatorStart {
    /// The opening request for a game on `game_theme`.
    pub fn new(game_theme: AkinatorGameTheme, child_mode: bool) -> (r: Self)
        ensures
            r.sid == theme_sid(game_theme),
            r.cm == child_mode,
    {
        let sid = game_theme.to_sid();
        AkinatorStart { sid, cm: child_mode }
    }
}

/// The body of a request in a running game.
pub struct AkinatorRequest {
    pub sid: i32,
    pub cm: bool,
    pub step: i32,
    pub progression: String,
    pub step_last_proposition: Option<i32>,
    pub answer: Option<AkinatorProposition>,
    pub session: String,
    pub signature: String,
}

/// The mathematical form of a request.
pub struct RequestView {
    pub sid: i32,
    pub cm: bool,
    pub step: i32,
    pub progression: Seq<char>,
    pub step_last_proposition: Option<i32>,
    pub answer: Option<AkinatorProposition>,
    pub session: Seq<char>,
    pub signature: Seq<char>,
}

impl View for AkinatorRequest {
    type V = RequestView;

    open spec fn view(&self) -> RequestView {
        RequestView {
            sid: self.sid,
            cm: self.cm,
            step: self.step,
            progression: self.progression@,
            step_last_proposition: self.step_last_proposition,
            answer: self.answer,
            session: self.session@,
            signature: self.signature@,
        }
    }
}

/// What the site answers to a request in a running game. Its fields are
/// present only for a question (`question`, `step`, `progression`) or only
/// for a guess (the `*_proposition` fields and `photo`).
pub struct AkinatorResponse {
    pub completion: String,
    pub question: Option<String>,
    pub step: Option<String>,
    pub progression: Option<String>,
    pub akitude: String,
    pub id_base_proposition: Option<String>,
    pub name_proposition: Option<String>,
    pub description_proposition: Option<String>,
    pub photo: Option<String>,
    pub guess: Option<String>,
}

/// The mathematical form of a response.
pub struct ResponseView {
    pub completion: Seq<char>,
    pub question: Option<Seq<char>>,
    pub step: Option<Seq<char>>,
    pub progression: Option<Seq<char>>,
    pub akitude: Seq<char>,
    pub id_base_proposition: Option<Seq<char>>,
    pub name_proposition: Option<Seq<char>>,
    pub description_proposition: Option<Seq<char>>,
    pub photo: Option<Seq<char>>,
    pub guess: Option<Seq<char>>,
}

impl View for AkinatorResponse {
    type V = ResponseView;

    open spec fn view(&self) -> ResponseView {
        ResponseView {
            completion: self.completion@,
            question: self.question.deep_view(),
            step: self.step.deep_view(),
            progression: self.progression.deep_view(),
            akitude: self.akitude@,
            id_base_proposition: self.id_base_proposition.deep_view(),
            name_proposition: self.name_proposition.deep_view(),
            description_proposition: self.description_proposition.deep_view(),
            photo: self.photo.deep_view(),
            guess: self.guess.deep_view(),
        }
    }
}

// ---------------------------------------------------------------------------
// What the operations mean.

/// The address of the site for a language, before it is parsed.
pub open spec fn site_address(l: Language) -> Seq<char> {
    "https://"@ + lang_code(l) + ".akinator.com"@
}

/// Where the picture of Akinator's pose `name` lies on the site at `url`.
pub open spec fn akitude_address(url: Seq<char>, name: Seq<char>) -> Seq<char> {
    url + "/assets/img/akitudes_670x1096/"@ + name
}

/// The progression of a game that has not been told one yet.
pub open spec fn initial_progression() -> Seq<char> {
    "0.0"@
}

/// A fresh game on `game_theme` at the site whose parsed URL is `url`.
pub open spec fn fresh_game(game_theme: AkinatorGameTheme, url: Seq<char>) -> AkinatorView {
    AkinatorView {
        step: 0,
        progression: initial_progression(),
        step_last_proposition: None,
        url,
        language: Language::Japanese,
        child_mode: false,
        game_theme,
        session: None,
    }
}

/// The request that a game in state `a` sends with `answer` and the step of
/// the last guess `last`, given its session `s`.
pub open spec fn request_of(
    a: AkinatorView,
    s: SessionView,
    last: Option<i32>,
    answer: Option<AkinatorProposition>,
) -> RequestView {
    RequestView {
        sid: theme_sid(a.game_theme),
        cm: a.child_mode,
        step: a.step,
        progression: a.progression,
        step_last_proposition: last,
        answer,
        session: s.session,
        signature: s.signature,
    }
}

/// The game after a response `r`, and what the response says, given the
/// parsed location `location` of its picture (the photo of a guess, or the
/// pose of a question).
pub open spec fn after_response(
    a: AkinatorView,
    r: ResponseView,
    location: Option<Seq<char>>,
) -> (AkinatorView, Result<StateView, AkinatorError>) {
    if r.id_base_proposition is Some {
        let a2 = AkinatorView { step_last_proposition: Some(a.step), ..a };
        if r.name_proposition is Some && r.description_proposition is Some && r.photo is Some
            && location is Some {
            (
                a2,
                Ok(
                    StateView::Guess {
                        name: r.name_proposition->0,
                        description: r.description_proposition->0,
                        image: location->0,
                    },
                ),
            )
        } else {
            (a2, Err(AkinatorError::InvalidResponse))
        }
    } else if r.step is None || spec_parse_i32(r.step->0) is None || r.progression is None
        || !is_float_text(r.progression->0) {
        (a, Err(AkinatorError::InvalidResponse))
    } else {
        let step = spec_parse_i32(r.step->0)->0;
        let a2 = AkinatorView { step, progression: r.progression->0, ..a };
        if r.question is Some && location is Some {
            (
                a2,
                Ok(
                    StateView::Question {
                        question: r.question->0,
                        step,
                        progression: r.progression->0,
                        akitude: location->0,
                    },
                ),
            )
        } else {
            (a2, Err(AkinatorError::InvalidResponse))
        }
    }
}

/// Where the picture that a response refers to lies, before it is parsed.
pub open spec fn response_location(a: AkinatorView, r: ResponseView) -> Option<Seq<char>> {
    if r.id_base_proposition is Some {
        r.photo
    } else {
        Some(akitude_address(a.url, r.akitude))
    }
}

/// The parsed location of the picture that a response refers to.
pub open spec fn parsed_location(a: AkinatorView, r: ResponseView) -> Option<Seq<char>> {
    match response_location(a, r) {
        Some(l) => parsed_url(l),
        None => None,
    }
}

/// The game after its opening page has been read, and what it says, given
/// the session and the first question read from the page and the parsed
/// location of Akinator's opening pose.
pub open spec fn after_start(
    a: AkinatorView,
    session: Result<SessionView, AkinatorError>,
    question: Result<Seq<char>, AkinatorError>,
    akitude: Option<Seq<char>>,
) -> (AkinatorView, Result<StateView, AkinatorError>) {
    match session {
        Err(e) => (a, Err(e)),
        Ok(s) => {
            let a2 = AkinatorView { session: Some(s), ..a };
            match question {
                Err(e) => (a2, Err(e)),
                Ok(q) => match akitude {
                    None => (a2, Err(AkinatorError::UnexpectedError)),
                    Some(u) => (
                        a2,
                        Ok(
                            StateView::Question {
                                question: q,
                                step: 0,
                                progression: initial_progression(),
                                akitude: u,
                            },
                        ),
                    ),
                },
            }
        },
    }
}

/// The name of Akinator's opening pose.
pub open spec fn opening_pose() -> Seq<char> {
    "defy.png"@
}

/// The mathematical form of the result of an operation.
pub open spec fn state_result_view(r: Result<AkinatorState, AkinatorError>) -> Result<
    StateView,
    AkinatorError,
> {
    match r {
        Ok(s) => Ok(s@),
        Err(e) => Err(e),
    }
}

/// The completion code of a response whose answer was taken.
pub open spec fn completion_ok() -> Seq<char> {
    "OK"@
}

/// The completion code of a response once the game has run out of
/// questions.
pub open spec fn completion_sound_like() -> Seq<char> {
    "SOUNDLIKE"@
}

// ---------------------------------------------------------------------------

fn concat3(a: &str, b: &str, c: &str) -> (r: String)
    ensures
        r@ == a@ + b@ + c@,
{
    let mut s = a.to_string();
    s.append(b);
    s.append(c);
    s
}

impl AkinatorParams {
    /// The parameters of a fresh game on `game_theme` at the site whose
    /// parsed URL is `url`.
    pub fn with_url(game_theme: AkinatorGameTheme, url: String) -> (r: Self)
        ensures
            r.step == 0,
            r.progression@ == initial_progression(),
            r.step_last_proposition is None,
            r.url@ == url@,
            r.language == Language::Japanese,
            !r.child_mode,
            r.game_theme == game_theme,
    {
        AkinatorParams {
            url,
            language: Language::default(),
            step: 0,
            progression: "0.0".to_string(),
            step_last_proposition: None,
            child_mode: false,
            game_theme,
        }
    }

    /// The parameters of a fresh game on `game_theme` at the site of the
    /// default language; `None` when the URL parser refuses the site's
    /// address.
    pub fn new(game_theme: AkinatorGameTheme) -> (r: Option<Self>)
        ensures
            r is Some <==> parsed_url(site_address(Language::Japanese)) is Some,
            r matches Some(p) ==> {
                &&& p.step == 0
                &&& p.progression@ == initial_progression()
                &&& p.step_last_proposition is None
                &&& p.url@ == parsed_url(site_address(Language::Japanese))->0
                &&& p.language == Language::Japanese
                &&& !p.child_mode
                &&& p.game_theme == game_theme
            },
    {
        let lang = Language::default();
        let address = concat3("https://", lang.to_lang_code(), ".akinator.com");
        match parse_url(address.as_str()) {
            Some(url) => Some(AkinatorParams::with_url(game_theme, url)),
            None => None,
        }
    }
}

impl Akinator {
    /// A fresh game on `game_theme`, with no session yet; `None` when the
    /// URL parser refuses the site's address.
    pub fn new(game_theme: AkinatorGameTheme) -> (r: Option<Self>)
        ensures
            r is Some <==> parsed_url(site_address(Language::Japanese)) is Some,
            r matches Some(a) ==> a@ == fresh_game(
                game_theme,
                parsed_url(site_address(Language::Japanese))->0,
            ),
    {
        match AkinatorParams::new(game_theme) {
            Some(params) => Some(Akinator { params, session: None }),
            None => None,
        }
    }

    /// The serialized URL of the site that the game plays on.
    pub fn url(&self) -> (r: &str)
        ensures
            r@ == self@.url,
    {
        self.params.url.as_str()
    }

    /// The address to which a request on `path` of the site goes; `None`
    /// when the URL library cannot join the path to the site's URL.
    pub fn request_url(&self, path: &str) -> (r: Option<String>)
        ensures
            r.deep_view() == joined_url(self@.url, path@),
    {
        join_url(self.params.url.as_str(), path)
    }

    /// The request that opens the game on the site: its path (`game`) and
    /// its body.
    pub fn start_request(&self) -> (r: (&'static str, AkinatorStart))
        ensures
            r.0@ == START_PATH@,
            r.1.sid == theme_sid(self@.game_theme),
            r.1.cm == self@.child_mode,
    {
        (START_PATH, AkinatorStart::new(self.params.game_theme, self.params.child_mode))
    }

    fn request(&self, session: &AkinatorSession, last: Option<i32>, answer: Option<AkinatorProposition>) -> (r: AkinatorRequest)
        ensures
            r@ == request_of(self@, session@, last, answer),
    {
        AkinatorRequest {
            sid: self.params.game_theme.to_sid(),
            cm: self.params.child_mode,
            step: self.params.step,
            progression: self.params.progression.clone(),
            step_last_proposition: last,
            answer,
            session: session.session.clone(),
            signature: session.signature.clone(),
        }
    }

    /// The request that gives `answer` to the current question, with its
    /// path (`answer`); an error when the game has no session.
    pub fn answer_request(&self, answer: AkinatorProposition) -> (r: Result<(&'static str, AkinatorRequest), AkinatorError>)
        ensures
            self@.session is None ==> r == Err::<(&'static str, AkinatorRequest), _>(
                AkinatorError::SessionNotFound,
            ),
            self@.session is Some ==> (r matches Ok((path, req)) && path@ == ANSWER_PATH@ && req@
                == request_of(self@, self@.session->0, self@.step_last_proposition, Some(answer))),
            r matches Ok((_, req)) ==> req.answer == Some(answer) && req.step_last_proposition
                == self@.step_last_proposition && req.sid == theme_sid(self@.game_theme)
                && req.step == self@.step,
    {
        match &self.session {
            None => Err(AkinatorError::SessionNotFound),
            Some(session) => Ok(
                (ANSWER_PATH, self.request(session, self.params.step_last_proposition, Some(answer))),
            ),
        }
    }

    /// The request that rejects the current guess, with its path
    /// (`exclude`); an error when the game has no session.
    pub fn exclude_request(&self) -> (r: Result<(&'static str, AkinatorRequest), AkinatorError>)
        ensures
            self@.session is None ==> r == Err::<(&'static str, AkinatorRequest), _>(
                AkinatorError::SessionNotFound,
            ),
            self@.session is Some ==> (r matches Ok((path, req)) && path@ == EXCLUDE_PATH@ && req@
                == request_of(self@, self@.session->0, self@.step_last_proposition, None)),
            r matches Ok((_, req)) ==> req.answer is None && req.step_last_proposition
                == self@.step_last_proposition && req.sid == theme_sid(self@.game_theme)
                && req.step == self@.step,
    {
        match &self.session {
            None => Err(AkinatorError::SessionNotFound),
            Some(session) => Ok(
                (EXCLUDE_PATH, self.request(session, self.params.step_last_proposition, None)),
            ),
        }
    }

    /// The request that goes back to the previous question, with its path
    /// (`back`); an error when the game has no session, or is at its first
    /// step.
    pub fn back_request(&self) -> (r: Result<(&'static str, AkinatorRequest), AkinatorError>)
        ensures
            self@.session is None ==> r == Err::<(&'static str, AkinatorRequest), _>(
                AkinatorError::SessionNotFound,
            ),
            self@.session is Some && self@.step == 0 ==> r == Err::<
                (&'static str, AkinatorRequest),
                _,
            >(AkinatorError::CannotBackAnyMore),
            self@.session is Some && self@.step != 0 ==> (r matches Ok((path, req)) && path@
                == BACK_PATH@ && req@ == request_of(self@, self@.session->0, None, None)),
            r matches Ok((_, req)) ==> req.answer is None && req.step_last_proposition is None
                && req.sid == theme_sid(self@.game_theme) && req.step == self@.step,
    {
        match &self.session {
            None => Err(AkinatorError::SessionNotFound),
            Some(session) => {
                if self.params.step == 0 {
                    Err(AkinatorError::CannotBackAnyMore)
                } else {
                    Ok((BACK_PATH, self.request(session, None, None)))
                }
            },
        }
    }

    /// Takes in a response to a request of a running game, given the
    /// parsed location of the picture that it refers to, as `after_response`
    /// says.
    ///
    /// The progression of a question is kept as the text the site sent,
    /// once it is known to read as a floating-point number; a question
    /// whose progression does not is refused and leaves the game as it was.
    pub fn apply_response(&mut self, response: &AkinatorResponse, location: Option<String>) -> (r: Result<AkinatorState, AkinatorError>)
        ensures
            ({
                let (a2, out) = after_response(old(self)@, response@, location.deep_view());
                &&& final(self)@ == a2
                &&& state_result_view(r) == out
            }),
    {
        match &response.id_base_proposition {
            Some(_) => {
                self.params.step_last_proposition = Some(self.params.step);
                match (&response.name_proposition, &response.description_proposition, &response.photo, location) {
                    (Some(name), Some(description), Some(_), Some(image)) => Ok(
                        AkinatorState::Guess(AkinatorGuess {
                            name: name.clone(),
                            description: description.clone(),
                            image,
                        }),
                    ),
                    _ => Err(AkinatorError::InvalidResponse),
                }
            },
            None => {
                let step = match &response.step {
                    None => {
                        return Err(AkinatorError::InvalidResponse);
                    },
                    Some(text) => match parse_i32(text.as_str()) {
                        None => {
                            return Err(AkinatorError::InvalidResponse);
                        },
                        Some(step) => step,
                    },
                };
                let progression = match &response.progression {
                    None => {
                        return Err(AkinatorError::InvalidResponse);
                    },
                    Some(p) => {
                        if !is_float(p.as_str()) {
                            return Err(AkinatorError::InvalidResponse);
                        }
                        p.clone()
                    },
                };
                self.params.step = step;
                self.params.progression = progression.clone();
                match (&response.question, location) {
                    (Some(question), Some(akitude)) => Ok(
                        AkinatorState::Question(AkinatorQuestion {
                            question: question.clone(),
                            step,
                            progression,
                            akitude,
                        }),
                    ),
                    _ => Err(AkinatorError::InvalidResponse),
                }
            },
        }
    }

    /// Takes in a response to a request of a running game: a guess is
    /// recorded as made at the current step; a question moves the game to
    /// the step and progression that the response reports.
    ///
    /// The progression of a question is kept as the text the site sent,
    /// once it is known to read as a floating-point number; a question
    /// whose progression does not is refused and leaves the game as it was.
    pub fn update_state(&mut self, response: &AkinatorResponse) -> (r: Result<AkinatorState, AkinatorError>)
        ensures
            ({
                let (a2, out) = after_response(
                    old(self)@,
                    response@,
                    parsed_location(old(self)@, response@),
                );
                &&& final(self)@ == a2
                &&& state_result_view(r) == out
            }),
    {
        let location = match &response.id_base_proposition {
            Some(_) => match &response.photo {
                Some(photo) => parse_url(photo.as_str()),
                None => None,
            },
            None => {
                let address = concat3(self.params.url.as_str(), "/assets/img/akitudes_670x1096/", response.akitude.as_str());
                parse_url(address.as_str())
            },
        };
        self.apply_response(response, location)
    }

    /// Takes in a response to an answer: a response that took the answer
    /// moves the game as `update_state` says; one that reports the end of
    /// the questions, or any other completion, is an error and leaves the
    /// game as it was.
    ///
    /// The progression of a question is kept as the text the site sent,
    /// once it is known to read as a floating-point number; a question
    /// whose progression does not is refused and leaves the game as it was.
    pub fn finish_answer(&mut self, response: &AkinatorResponse) -> (r: Result<AkinatorState, AkinatorError>)
        ensures
            response@.completion == completion_ok() ==> ({
                let (a2, out) = after_response(
                    old(self)@,
                    response@,
                    parsed_location(old(self)@, response@),
                );
                &&& final(self)@ == a2
                &&& state_result_view(r) == out
            }),
            response@.completion == completion_sound_like() ==> final(self)@ == old(self)@ && r
                == Err::<AkinatorState, _>(AkinatorError::QuestionLimitExceeded),
            response@.completion != completion_ok() && response@.completion
                != completion_sound_like() ==> final(self)@ == old(self)@ && r == Err::<
                AkinatorState,
                _,
            >(AkinatorError::InvalidResponse),
    {
        proof {
            reveal_strlit("OK");
            reveal_strlit("SOUNDLIKE");
            assert(completion_ok().len() != completion_sound_like().len());
        }
        if str_eq(response.completion.as_str(), "OK") {
            self.update_state(response)
        } else if str_eq(response.completion.as_str(), "SOUNDLIKE") {
            Err(AkinatorError::QuestionLimitExceeded)
        } else {
            Err(AkinatorError::InvalidResponse)
        }
    }

    /// Takes in the opening page of the game, given the session and the
    /// first question read from it and the parsed location of Akinator's
    /// opening pose, as `after_start` says.
    pub fn apply_start(
        &mut self,
        session: Result<AkinatorSession, AkinatorError>,
        question: Result<String, AkinatorError>,
        akitude: Option<String>,
    ) -> (r: Result<AkinatorState, AkinatorError>)
        ensures
            ({
                let (a2, out) = after_start(
                    old(self)@,
                    session_result_view(session),
                    text_result_view(question),
                    akitude.deep_view(),
                );
                &&& final(self)@ == a2
                &&& state_result_view(r) == out
            }),
    {
        match session {
            Err(e) => Err(e),
            Ok(s) => {
                self.session = Some(s);
                match question {
                    Err(e) => Err(e),
                    Ok(q) => match akitude {
                        None => Err(AkinatorError::UnexpectedError),
                        Some(u) => Ok(
                            AkinatorState::Question(AkinatorQuestion {
                                question: q,
                                step: 0,
                                progression: "0.0".to_string(),
                                akitude: u,
                            }),
                        ),
                    },
                }
            },
        }
    }

    /// Takes in the page with which the site opens the game: the game keeps
    /// the session read from it and Akinator asks the first question on it.
    pub fn finish_start(&mut self, body: &str) -> (r: Result<AkinatorState, AkinatorError>)
        ensures
            ({
                let (a2, out) = after_start(
                    old(self)@,
                    body_session(body@),
                    body_question(body@),
                    parsed_url(akitude_address(old(self)@.url, opening_pose())),
                );
                &&& final(self)@ == a2
                &&& state_result_view(r) == out
            }),
    {
        let session = session_from_body(body);
        let question = get_question_from_body(body);
        let address = concat3(self.params.url.as_str(), "/assets/img/akitudes_670x1096/", "defy.png");
        let akitude = parse_url(address.as_str());
        self.apply_start(session, question, akitude)
    }
}

/// A response never changes what a game was set up with or its session:
/// the site, the language, the child mode, the theme and the session stay.
pub proof fn law_responses_keep_the_setup(a: AkinatorView, r: ResponseView, location: Option<Seq<char>>)
    ensures
        ({
            let a2 = after_response(a, r, location).0;
            &&& a2.url == a.url
            &&& a2.language == a.language
            &&& a2.child_mode == a.child_mode
            &&& a2.game_theme == a.game_theme
            &&& a2.session == a.session
        }),
{
}

/// After a question, the next request of the game reports the step and the
/// progression of that question.
pub proof fn law_next_request_reports_the_question(
    a: AkinatorView,
    r: ResponseView,
    location: Option<Seq<char>>,
    s: SessionView,
    last: Option<i32>,
    answer: Option<AkinatorProposition>,
)
    ensures
        ({
            let (a2, out) = after_response(a, r, location);
            out matches Ok(StateView::Question { step, progression, .. }) ==> {
                &&& request_of(a2, s, last, answer).step == step
                &&& request_of(a2, s, last, answer).progression == progression
            }
        }),
{
}

/// After a guess, the request that rejects it, and the next answer, name
/// the step at which the guess was made.
pub proof fn law_guess_is_remembered(
    a: AkinatorView,
    r: ResponseView,
    location: Option<Seq<char>>,
    s: SessionView,
    answer: Option<AkinatorProposition>,
)
    ensures
        ({
            let (a2, out) = after_response(a, r, location);
            out matches Ok(StateView::Guess { .. }) ==> request_of(
                a2,
                s,
                a2.step_last_proposition,
                answer,
            ).step_last_proposition == Some(a.step)
        }),
{
}

/// Opening a game: when no session can be read from the page, the opening
/// fails with exactly that error and the game stays as it was; once a
/// session is read the game keeps it, and the first question is asked at
/// step 0 with progression `0.0` when the question and the pose are there.
pub proof fn law_start_keeps_a_read_session(
    a: AkinatorView,
    session: Result<SessionView, AkinatorError>,
    question: Result<Seq<char>, AkinatorError>,
    akitude: Option<Seq<char>>,
)
    ensures
        session is Err ==> after_start(a, session, question, akitude) == (
            a,
            Err::<StateView, AkinatorError>(session->Err_0),
        ),
        session is Ok ==> after_start(a, session, question, akitude).0 == (AkinatorView {
            session: Some(session->Ok_0),
            ..a
        }),
        session is Ok && question is Err ==> after_start(a, session, question, akitude).1 == Err::<
            StateView,
            AkinatorError,
        >(question->Err_0),
        session is Ok && question is Ok && akitude is None ==> after_start(
            a,
            session,
            question,
            akitude,
        ).1 == Err::<StateView, AkinatorError>(AkinatorError::UnexpectedError),
        session is Ok && question is Ok && akitude is Some ==> after_start(
            a,
            session,
            question,
            akitude,
        ).1 == Ok::<StateView, AkinatorError>(
            StateView::Question {
                question: question->Ok_0,
                step: 0,
                progression: "0.0"@,
                akitude: akitude->0,
            },
        ),
{
}

/// A question whose step or progression does not read as a number is
/// refused, and the game stays as it was.
pub proof fn law_unreadable_question_changes_nothing(
    a: AkinatorView,
    r: ResponseView,
    location: Option<Seq<char>>,
)
    requires
        r.id_base_proposition is None,
        r.step is None || spec_parse_i32(r.step->0) is None || r.progression is None
            || !is_float_text(r.progression->0),
    ensures
        after_response(a, r, location) == (a, Err::<StateView, AkinatorError>(
            AkinatorError::InvalidResponse,
        )),
{
}

/// A question whose step and progression read as numbers moves the game to
/// exactly the step it reports, above or below the current one, and to its
/// progression, keeping everything else; Akinator then asks that question at
/// that step, or the response is invalid when the question or the pose is
/// missing.
pub proof fn law_question_moves_to_reported_step(
    a: AkinatorView,
    r: ResponseView,
    location: Option<Seq<char>>,
)
    requires
        r.id_base_proposition is None,
        r.step is Some,
        spec_parse_i32(r.step->0) is Some,
        r.progression is Some,
        is_float_text(r.progression->0),
    ensures
        ({
            let n = spec_parse_i32(r.step->0)->0;
            let (a2, out) = after_response(a, r, location);
            &&& a2 == (AkinatorView { step: n, progression: r.progression->0, ..a })
            &&& a2.step == n
            &&& (r.question is Some && location is Some) ==> out == Ok::<StateView, AkinatorError>(
                StateView::Question {
                    question: r.question->0,
                    step: n,
                    progression: r.progression->0,
                    akitude: location->0,
                },
            )
            &&& !(r.question is Some && location is Some) ==> out == Err::<
                StateView,
                AkinatorError,
            >(AkinatorError::InvalidResponse)
        }),
{
}

/// A guess records the step at which it was made as the last guess and
/// changes nothing else; Akinator names the guessed character with its
/// picture, or the response is invalid when a part of it is missing.
pub proof fn law_guess_records_its_step(a: AkinatorView, r: ResponseView, location: Option<Seq<char>>)
    requires
        r.id_base_proposition is Some,
    ensures
        ({
            let (a2, out) = after_response(a, r, location);
            let complete = r.name_proposition is Some && r.description_proposition is Some
                && r.photo is Some && location is Some;
            &&& a2 == (AkinatorView { step_last_proposition: Some(a.step), ..a })
            &&& complete ==> out == Ok::<StateView, AkinatorError>(
                StateView::Guess {
                    name: r.name_proposition->0,
                    description: r.description_proposition->0,
                    image: location->0,
                },
            )
            &&& !complete ==> out == Err::<StateView, AkinatorError>(AkinatorError::InvalidResponse)
        }),
{
}

/// Every request of a running game carries the number of the game's own
/// theme (1 for characters, 14 for animals), the game's child mode, step
/// and progression, the session, and exactly the last guess and the answer
/// it is built with.
pub proof fn law_requests_carry_the_game(
    a: AkinatorView,
    s: SessionView,
    last: Option<i32>,
    answer: Option<AkinatorProposition>,
)
    ensures
        ({
            let req = request_of(a, s, last, answer);
            &&& a.game_theme == AkinatorGameTheme::Character ==> req.sid == 1
            &&& a.game_theme == AkinatorGameTheme::Animal ==> req.sid == 14
            &&& req.cm == a.child_mode
            &&& req.step == a.step
            &&& req.progression == a.progression
            &&& req.step_last_proposition == last
            &&& req.answer == answer
            &&& req.session == s.session
            &&& req.signature == s.signature
        }),
{
}

} // verus!
