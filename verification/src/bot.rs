//! What the bot decides in a game: which reactions it offers, what a
//! reaction means, and the messages it posts.

use vstd::prelude::*;

use crate::akinator::{AkinatorGameTheme, AkinatorProposition};
use crate::text::{contains, decimal_text, i32_text, occurs_in, str_eq};

verus! {

/// The reaction that picks the character theme (`:viine02:`).
pub const CHARA_STAMP_ID: &'static str = "a96defd6-49cb-4f44-adaa-a4bf511a90fd";

/// The reaction that picks the animal theme (`:cat:`).
pub const ANIMAL_STAMP_ID: &'static str = "964c82e8-e1ec-40d2-9a22-82b2c48794f2";

/// The reaction that answers yes (`:one:`).
pub const YES_STAMP_ID: &'static str = "9f0be841-fbfa-4abf-871e-c1c72627e691";

/// The reaction that answers no (`:two:`).
pub const NO_STAMP_ID: &'static str = "350c45b4-a048-4f62-bf2b-e98f4edef40c";

/// The reaction that answers "don't know" (`:three:`).
pub const DONT_KNOW_STAMP_ID: &'static str = "ea0e7725-5b86-456b-b34a-060035153be2";

/// The reaction that answers "probably" (`:four:`).
pub const PROBABLY_STAMP_ID: &'static str = "1463cc12-9758-478f-b968-e031a912d426";

/// The reaction that answers "probably not" (`:five:`).
pub const PROBABLY_NOT_STAMP_ID: &'static str = "2d04f8d3-b2db-4e53-b11c-111350c7b70d";

/// The reaction that goes back a question (`:arrow_backward:`).
pub const BACK_STAMP_ID: &'static str = "118d80c7-6766-44d1-b3fc-945e94108350";

/// The message that asks the player to pick a theme.
pub const THEME_SELECT_MESSAGE: &'static str = "
        ## Akinator\n
        ### やあ、私はアキネイターです:doya-nya.ex-large:\n
        有名な人物やキャラクターを思い浮かべて。魔人が誰でも当ててみせよう。魔人は何でもお見通しさ\n\n
        #### ゲームのテーマを選んでください。\n
        #### :one.ex-large: : キャラクター\n
        #### :two.ex-large: : 動物\n
        ";

/// The text of a guess message before the name of the guess.
pub const GUESS_MESSAGE_HEAD: &'static str = "## Akinator\n\n
        あなたが思い浮かべたキャラクターは ";

/// The text of a guess message after the name of the guess.
pub const GUESS_MESSAGE_TAIL: &'static str = " ですか？\n\n
        
        #### :one.ex-large: : はい\n
        #### :two.ex-large: : いいえ\n";

/// The text of a question message before the progression.
pub const QUESTION_MESSAGE_HEAD: &'static str = "## Akinator\n\n
        進捗度: ";

/// The text of a question message between the progression and the step.
pub const QUESTION_MESSAGE_STEP: &'static str = "\n\n
        #### 質問 ";

/// The text of a question message between the step and the question.
pub const QUESTION_MESSAGE_TEXT: &'static str = ": ";

/// The text of a question message after the question.
pub const QUESTION_MESSAGE_TAIL: &'static str = "\n\n
        #### :one.ex-large: : はい\n
        #### :two.ex-large: : いいえ\n
        #### :three.ex-large: : わからない\n
        #### :four.ex-large: : たぶんそう、部分的にそう\n
        #### :five.ex-large: : たぶん違う、部分的にちがう\n
        #### :arrow_backward.ex-large: : 戻る\n";

/// The message that closes a game.
pub const END_GAME_MESSAGE: &'static str = "## Akinator\n\nゲームを終了しました。";

/// The word in a message that starts a game.
pub const GAME_KEYWORD: &'static str = "akinator";

/// The word in a message that the bot greets back.
pub const GREETING_KEYWORD: &'static str = "おいすー";

/// What the player asks for with a reaction to a question.
#[derive(Clone, Copy, PartialEq, Eq, Structural)]
pub enum AnswerCommand {
    Answer(AkinatorProposition),
    Back,
}

/// The theme that a reaction picks.
pub open spec fn stamp_theme(stamp: Seq<char>) -> Option<AkinatorGameTheme> {
    if stamp == CHARA_STAMP_ID@ {
        Some(AkinatorGameTheme::Character)
    } else if stamp == ANIMAL_STAMP_ID@ {
        Some(AkinatorGameTheme::Animal)
    } else {
        None
    }
}

/// What a reaction to a question asks for.
pub open spec fn stamp_command(stamp: Seq<char>) -> Option<AnswerCommand> {
    if stamp == YES_STAMP_ID@ {
        Some(AnswerCommand::Answer(AkinatorProposition::Yes))
    } else if stamp == NO_STAMP_ID@ {
        Some(AnswerCommand::Answer(AkinatorProposition::No))
    } else if stamp == DONT_KNOW_STAMP_ID@ {
        Some(AnswerCommand::Answer(AkinatorProposition::DontKnow))
    } else if stamp == PROBABLY_STAMP_ID@ {
        Some(AnswerCommand::Answer(AkinatorProposition::Probably))
    } else if stamp == PROBABLY_NOT_STAMP_ID@ {
        Some(AnswerCommand::Answer(AkinatorProposition::ProbablyNot))
    } else if stamp == BACK_STAMP_ID@ {
        Some(AnswerCommand::Back)
    } else {
        None
    }
}

/// Whether a reaction to a guess says it is right.
pub open spec fn stamp_verdict(stamp: Seq<char>) -> Option<bool> {
    if stamp == YES_STAMP_ID@ {
        Some(true)
    } else if stamp == NO_STAMP_ID@ {
        Some(false)
    } else {
        None
    }
}

/// The reactions offered with the choice of a theme.
pub open spec fn theme_stamps_spec() -> Seq<Seq<char>> {
    seq![CHARA_STAMP_ID@, ANIMAL_STAMP_ID@]
}

/// The reactions offered with a question.
pub open spec fn question_stamps_spec() -> Seq<Seq<char>> {
    seq![
        YES_STAMP_ID@,
        NO_STAMP_ID@,
        DONT_KNOW_STAMP_ID@,
        PROBABLY_STAMP_ID@,
        PROBABLY_NOT_STAMP_ID@,
    ]
}

/// The reactions offered with a guess.
pub open spec fn guess_stamps_spec() -> Seq<Seq<char>> {
    seq![YES_STAMP_ID@, NO_STAMP_ID@]
}

/// The views of a vector of texts.
pub open spec fn texts_view(v: Seq<&'static str>) -> Seq<Seq<char>> {
    v.map_values(|s: &'static str| s@)
}

/// The theme that the reaction `stamp_id` picks; `None` for any other
/// reaction.
pub fn theme_from_stamp(stamp_id: &str) -> (r: Option<AkinatorGameTheme>)
    ensures
        r == stamp_theme(stamp_id@),
{
    if str_eq(stamp_id, CHARA_STAMP_ID) {
        Some(AkinatorGameTheme::Character)
    } else if str_eq(stamp_id, ANIMAL_STAMP_ID) {
        Some(AkinatorGameTheme::Animal)
    } else {
        None
    }
}

/// What the reaction `stamp_id` to a question asks for; `None` for any
/// other reaction.
pub fn command_from_stamp(stamp_id: &str) -> (r: Option<AnswerCommand>)
    ensures
        r == stamp_command(stamp_id@),
{
    if str_eq(stamp_id, YES_STAMP_ID) {
        Some(AnswerCommand::Answer(AkinatorProposition::Yes))
    } else if str_eq(stamp_id, NO_STAMP_ID) {
        Some(AnswerCommand::Answer(AkinatorProposition::No))
    } else if str_eq(stamp_id, DONT_KNOW_STAMP_ID) {
        Some(AnswerCommand::Answer(AkinatorProposition::DontKnow))
    } else if str_eq(stamp_id, PROBABLY_STAMP_ID) {
        Some(AnswerCommand::Answer(AkinatorProposition::Probably))
    } else if str_eq(stamp_id, PROBABLY_NOT_STAMP_ID) {
        Some(AnswerCommand::Answer(AkinatorProposition::ProbablyNot))
    } else if str_eq(stamp_id, BACK_STAMP_ID) {
        Some(AnswerCommand::Back)
    } else {
        None
    }
}

/// Whether the reaction `stamp_id` to a guess says it is right; `None` for
/// any other reaction.
pub fn verdict_from_stamp(stamp_id: &str) -> (r: Option<bool>)
    ensures
        r == stamp_verdict(stamp_id@),
{
    if str_eq(stamp_id, YES_STAMP_ID) {
        Some(true)
    } else if str_eq(stamp_id, NO_STAMP_ID) {
        Some(false)
    } else {
        None
    }
}

/// The reactions that the bot adds to its choice of a theme.
pub fn theme_stamps() -> (r: Vec<&'static str>)
    ensures
        texts_view(r@) == theme_stamps_spec(),
{
    let r = vec![CHARA_STAMP_ID, ANIMAL_STAMP_ID];
    assert(texts_view(r@) =~= theme_stamps_spec());
    r
}

/// The reactions that the bot adds to a question.
pub fn question_stamps() -> (r: Vec<&'static str>)
    ensures
        texts_view(r@) == question_stamps_spec(),
{
    let r = vec![
        YES_STAMP_ID,
        NO_STAMP_ID,
        DONT_KNOW_STAMP_ID,
        PROBABLY_STAMP_ID,
        PROBABLY_NOT_STAMP_ID,
    ];
    assert(texts_view(r@) =~= question_stamps_spec());
    r
}

/// The reactions that the bot adds to a guess.
pub fn guess_stamps() -> (r: Vec<&'static str>)
    ensures
        texts_view(r@) == guess_stamps_spec(),
{
    let r = vec![YES_STAMP_ID, NO_STAMP_ID];
    assert(texts_view(r@) =~= guess_stamps_spec());
    r
}

/// The message that asks whether the player thought of `name`.
pub fn guess_message(name: &str) -> (r: String)
    ensures
        r@ == GUESS_MESSAGE_HEAD@ + name@ + GUESS_MESSAGE_TAIL@,
{
    let mut s = GUESS_MESSAGE_HEAD.to_string();
    s.append(name);
    s.append(GUESS_MESSAGE_TAIL);
    s
}

/// The message that asks the question `question` at step `step`, with the
/// progression written as `progression`.
pub fn question_message(progression: &str, step: i32, question: &str) -> (r: String)
    ensures
        r@ == QUESTION_MESSAGE_HEAD@ + progression@ + QUESTION_MESSAGE_STEP@ + decimal_text(
            step as int,
        ) + QUESTION_MESSAGE_TEXT@ + question@ + QUESTION_MESSAGE_TAIL@,
{
    let mut s = QUESTION_MESSAGE_HEAD.to_string();
    s.append(progression);
    s.append(QUESTION_MESSAGE_STEP);
    let step_text = i32_text(step);
    s.append(step_text.as_str());
    s.append(QUESTION_MESSAGE_TEXT);
    s.append(question);
    s.append(QUESTION_MESSAGE_TAIL);
    s
}

/// Whether a message asks for a game.
pub fn wants_game(plain_text: &str) -> (r: bool)
    ensures
        r == occurs_in(plain_text@, GAME_KEYWORD@),
{
    contains(plain_text, GAME_KEYWORD)
}

/// Whether a message calls for a greeting.
pub fn wants_greeting(plain_text: &str) -> (r: bool)
    ensures
        r == occurs_in(plain_text@, GREETING_KEYWORD@),
{
    contains(plain_text, GREETING_KEYWORD)
}

/// The greeting for the user `user_id`.
pub fn greeting(user_id: &str) -> (r: String)
    ensures
        r@ == "@"@ + user_id@ + " おいすー！！！"@,
{
    let mut s = "@".to_string();
    s.append(user_id);
    s.append(" おいすー！！！");
    s
}

proof fn lemma_stamps_differ()
    ensures
        YES_STAMP_ID@ != NO_STAMP_ID@,
        YES_STAMP_ID@ != DONT_KNOW_STAMP_ID@,
        YES_STAMP_ID@ != PROBABLY_STAMP_ID@,
        YES_STAMP_ID@ != PROBABLY_NOT_STAMP_ID@,
        NO_STAMP_ID@ != DONT_KNOW_STAMP_ID@,
        NO_STAMP_ID@ != PROBABLY_STAMP_ID@,
        NO_STAMP_ID@ != PROBABLY_NOT_STAMP_ID@,
        DONT_KNOW_STAMP_ID@ != PROBABLY_STAMP_ID@,
        DONT_KNOW_STAMP_ID@ != PROBABLY_NOT_STAMP_ID@,
        PROBABLY_STAMP_ID@ != PROBABLY_NOT_STAMP_ID@,
        CHARA_STAMP_ID@ != ANIMAL_STAMP_ID@,
{
    reveal_strlit("a96defd6-49cb-4f44-adaa-a4bf511a90fd");
    reveal_strlit("964c82e8-e1ec-40d2-9a22-82b2c48794f2");
    reveal_strlit("9f0be841-fbfa-4abf-871e-c1c72627e691");
    reveal_strlit("350c45b4-a048-4f62-bf2b-e98f4edef40c");
    reveal_strlit("ea0e7725-5b86-456b-b34a-060035153be2");
    reveal_strlit("1463cc12-9758-478f-b968-e031a912d426");
    reveal_strlit("2d04f8d3-b2db-4e53-b11c-111350c7b70d");
    assert(YES_STAMP_ID@[0] != NO_STAMP_ID@[0]);
    assert(YES_STAMP_ID@[0] != DONT_KNOW_STAMP_ID@[0]);
    assert(YES_STAMP_ID@[0] != PROBABLY_STAMP_ID@[0]);
    assert(YES_STAMP_ID@[0] != PROBABLY_NOT_STAMP_ID@[0]);
    assert(NO_STAMP_ID@[0] != DONT_KNOW_STAMP_ID@[0]);
    assert(NO_STAMP_ID@[0] != PROBABLY_STAMP_ID@[0]);
    assert(NO_STAMP_ID@[0] != PROBABLY_NOT_STAMP_ID@[0]);
    assert(DONT_KNOW_STAMP_ID@[0] != PROBABLY_STAMP_ID@[0]);
    assert(DONT_KNOW_STAMP_ID@[0] != PROBABLY_NOT_STAMP_ID@[0]);
    assert(PROBABLY_STAMP_ID@[0] != PROBABLY_NOT_STAMP_ID@[0]);
    assert(CHARA_STAMP_ID@[0] != ANIMAL_STAMP_ID@[0]);
}

/// Each reaction offered with the choice of a theme picks a theme, and the
/// two pick different themes.
pub proof fn law_theme_stamps_are_understood()
    ensures
        stamp_theme(theme_stamps_spec()[0]) == Some(AkinatorGameTheme::Character),
        stamp_theme(theme_stamps_spec()[1]) == Some(AkinatorGameTheme::Animal),
        forall|i: int|
            0 <= i < theme_stamps_spec().len() ==> #[trigger] stamp_theme(theme_stamps_spec()[i])
                is Some,
{
    lemma_stamps_differ();
    assert forall|i: int|
        0 <= i < theme_stamps_spec().len() implies #[trigger] stamp_theme(
        theme_stamps_spec()[i],
    ) is Some by {
        if i == 0 {
        } else {
            assert(i == 1);
        }
    }
}

/// Each reaction offered with a question gives an answer, and the five give
/// the five answers in the order yes, no, don't know, probably, probably
/// not.
pub proof fn law_question_stamps_are_understood()
    ensures
        stamp_command(question_stamps_spec()[0]) == Some(AnswerCommand::Answer(AkinatorProposition::Yes)),
        stamp_command(question_stamps_spec()[1]) == Some(AnswerCommand::Answer(AkinatorProposition::No)),
        stamp_command(question_stamps_spec()[2]) == Some(
            AnswerCommand::Answer(AkinatorProposition::DontKnow),
        ),
        stamp_command(question_stamps_spec()[3]) == Some(
            AnswerCommand::Answer(AkinatorProposition::Probably),
        ),
        stamp_command(question_stamps_spec()[4]) == Some(
            AnswerCommand::Answer(AkinatorProposition::ProbablyNot),
        ),
        question_stamps_spec().len() == 5,
{
    lemma_stamps_differ();
}

/// Of the reactions offered with a guess, the first says it is right and
/// the second that it is wrong.
pub proof fn law_guess_stamps_are_understood()
    ensures
        stamp_verdict(guess_stamps_spec()[0]) == Some(true),
        stamp_verdict(guess_stamps_spec()[1]) == Some(false),
        guess_stamps_spec().len() == 2,
{
    lemma_stamps_differ();
}

} // verus!
