use akinator::akinator::{AkinatorGameTheme, AkinatorProposition};
use akinator::bot::{
    command_from_stamp, greeting, guess_message, guess_stamps, question_message, question_stamps,
    theme_from_stamp, theme_stamps, verdict_from_stamp, wants_game, wants_greeting, AnswerCommand,
    BACK_STAMP_ID, GUESS_MESSAGE_HEAD, GUESS_MESSAGE_TAIL,
};
use akinator::game::{GameSessionManager, SESSION_LIFETIME};

#[test]
fn offered_theme_stamps_pick_themes() {
    let s = theme_stamps();
    assert_eq!(s.len(), 2);
    assert!(matches!(theme_from_stamp(s[0]), Some(AkinatorGameTheme::Character)));
    assert!(matches!(theme_from_stamp(s[1]), Some(AkinatorGameTheme::Animal)));
    assert!(theme_from_stamp("unknown").is_none());
}

#[test]
fn offered_question_stamps_answer() {
    let s = question_stamps();
    let expected = [
        AkinatorProposition::Yes,
        AkinatorProposition::No,
        AkinatorProposition::DontKnow,
        AkinatorProposition::Probably,
        AkinatorProposition::ProbablyNot,
    ];
    assert_eq!(s.len(), 5);
    for (stamp, p) in s.iter().zip(expected.iter()) {
        assert!(command_from_stamp(stamp) == Some(AnswerCommand::Answer(*p)));
    }
    assert!(command_from_stamp(BACK_STAMP_ID) == Some(AnswerCommand::Back));
    assert!(command_from_stamp("964c82e8-e1ec-40d2-9a22-82b2c48794f2").is_none());
}

#[test]
fn offered_guess_stamps_judge() {
    let s = guess_stamps();
    assert_eq!(s.len(), 2);
    assert_eq!(verdict_from_stamp(s[0]), Some(true));
    assert_eq!(verdict_from_stamp(s[1]), Some(false));
    assert_eq!(verdict_from_stamp(BACK_STAMP_ID), None);
}

#[test]
fn guess_message_names_the_guess() {
    let m = guess_message("Mario");
    assert_eq!(m, format!("{}Mario{}", GUESS_MESSAGE_HEAD, GUESS_MESSAGE_TAIL));
    assert!(m.contains("キャラクターは Mario ですか？"));
}

#[test]
fn messages_that_start_games_and_greetings() {
    assert!(wants_game("let's play akinator"));
    assert!(!wants_game("Akinator"));
    assert!(wants_greeting("おいすー"));
    assert!(!wants_greeting("おいす"));
    assert_eq!(greeting("user-1"), "@user-1 おいすー！！！");
}

#[test]
fn games_lapse_after_three_minutes() {
    let mut m: GameSessionManager<&str> = GameSessionManager::new();
    m.set_game("first", 0);
    m.set_game("second", 60_000_000_000);
    m.set_game("third", 120_000_000_000);
    assert_eq!(m.len(), 3);
    assert!(m.delete_expired_sessions(SESSION_LIFETIME).is_empty());
    assert_eq!(m.len(), 3);
    let removed = m.delete_expired_sessions(SESSION_LIFETIME + 60_000_000_001);
    assert_eq!(removed, vec!["second", "first"]);
    assert_eq!(m.len(), 1);
    assert_eq!(*m.game_mut(0), "third");
}

#[test]
fn game_mut_changes_only_that_game() {
    let mut m: GameSessionManager<u32> = GameSessionManager::new();
    m.set_game(1, 10);
    m.set_game(2, 20);
    *m.game_mut(1) = 5;
    assert_eq!(*m.game_mut(0), 1);
    assert_eq!(*m.game_mut(1), 5);
    let removed = m.delete_expired_sessions(20 + SESSION_LIFETIME);
    assert_eq!(removed, vec![1]);
}

#[test]
fn question_message_shows_step_and_question() {
    let m = question_message("41.5", -3, "Is it real?");
    assert!(m.starts_with("## Akinator\n\n\n        進捗度: 41.5\n\n\n        #### 質問 -3: Is it real?\n\n"));
    assert!(m.ends_with("#### :arrow_backward.ex-large: : 戻る\n"));
    let expected = format!(
        "## Akinator\n\n\n        進捗度: {}\n\n\n        #### 質問 {}: {}\n\n\n        #### :one.ex-large: : はい\n\n        #### :two.ex-large: : いいえ\n\n        #### :three.ex-large: : わからない\n\n        #### :four.ex-large: : たぶんそう、部分的にそう\n\n        #### :five.ex-large: : たぶん違う、部分的にちがう\n\n        #### :arrow_backward.ex-large: : 戻る\n",
        41.5f32, 12, "Q"
    );
    assert_eq!(question_message("41.5", 12, "Q"), expected);
}

#[test]
fn games_far_in_the_future_still_lapse() {
    let mut m: GameSessionManager<u8> = GameSessionManager::new();
    let late: i128 = 300_000 * 365 * 24 * 3600 * 1_000_000_000;
    m.set_game(1, late);
    assert!(m.delete_expired_sessions(late + SESSION_LIFETIME).is_empty());
    assert_eq!(m.delete_expired_sessions(late + SESSION_LIFETIME + 1), vec![1]);
}
