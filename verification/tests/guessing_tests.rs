use incubator::guessing::{
    parse_guess, parse_secret_number, run_app, run_game, AppError, GameMsg, SecretNumberError,
};

#[test]
fn parse_secret_number_trims_and_parses() {
    assert_eq!(parse_secret_number(" 7 "), Ok(7));
}

#[test]
fn parse_secret_number_rejects_invalid() {
    assert_eq!(
        parse_secret_number("nope"),
        Err(SecretNumberError::NotANumber)
    );
}

#[test]
fn parse_secret_number_rejects_overflow() {
    assert_eq!(
        parse_secret_number("4294967296"),
        Err(SecretNumberError::NotANumber)
    );
}

#[test]
fn parse_guess_returns_none_for_invalid() {
    assert_eq!(parse_guess("nope"), None);
}

#[test]
fn parse_guess_accepts_plus_and_bounds() {
    assert_eq!(parse_guess("+42"), Some(42));
    assert_eq!(parse_guess("4294967295"), Some(u32::MAX));
    assert_eq!(parse_guess("+"), None);
    assert_eq!(parse_guess(""), None);
}

#[test]
fn run_app_requires_secret_number() {
    let lines: Vec<String> = Vec::new();
    let args = vec!["prog".to_string()];
    let (msgs, result) = run_app(&args, &lines);
    assert!(msgs.is_empty());
    assert!(matches!(result, Err(AppError::MissingSecretNumber)));
}

#[test]
fn run_app_rejects_non_numeric_secret_number() {
    let lines: Vec<String> = Vec::new();
    let args = vec!["prog".to_string(), "abc".to_string()];
    let (msgs, result) = run_app(&args, &lines);
    assert!(msgs.is_empty());
    assert!(matches!(result, Err(AppError::InvalidSecretNumber)));
}

#[test]
fn run_game_handles_invalid_guess_then_wins() {
    let lines = vec!["nope".to_string(), "10".to_string()];
    let (msgs, result) = run_game(10, &lines);
    result.unwrap();
    // The invalid line is prompted for but never echoed as a guess.
    assert_eq!(
        msgs,
        vec![
            GameMsg::Start,
            GameMsg::Prompt,
            GameMsg::Prompt,
            GameMsg::Guessed(10),
            GameMsg::Win,
        ]
    );
}

#[test]
fn run_game_returns_error_on_eof() {
    let lines: Vec<String> = Vec::new();
    let (msgs, result) = run_game(10, &lines);
    assert!(matches!(result, Err(AppError::InputEnded)));
    assert_eq!(msgs, vec![GameMsg::Start, GameMsg::Prompt]);
}

#[test]
fn run_game_reports_too_small_and_too_big() {
    let lines = vec!["3".to_string(), "20".to_string(), "10".to_string()];
    let (msgs, result) = run_game(10, &lines);
    result.unwrap();
    assert_eq!(
        msgs,
        vec![
            GameMsg::Start,
            GameMsg::Prompt,
            GameMsg::Guessed(3),
            GameMsg::TooSmall,
            GameMsg::Prompt,
            GameMsg::Guessed(20),
            GameMsg::TooBig,
            GameMsg::Prompt,
            GameMsg::Guessed(10),
            GameMsg::Win,
        ]
    );
}
