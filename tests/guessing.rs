use exercicios::guess::{compare, parse_guess, Game, Turn, Verdict, SECRET_MAX, SECRET_MIN};

fn play_all(game: &mut Game, lines: &[&str]) -> Vec<String> {
    let mut out = Vec::new();
    for line in lines {
        match game.play_line(line) {
            Turn::Retry => {}
            Turn::Judged { verdict, .. } => {
                out.push(verdict.message().to_string());
                if verdict == Verdict::Win {
                    break;
                }
            }
        }
    }
    out
}

#[test]
fn guesses_low_high_then_right() {
    let mut game = Game::with_secret(50);
    let out = play_all(&mut game, &["10\n", "90\n", "50\n", "70\n"]);
    assert_eq!(out, vec!["Muito pequeno!", "Muito grande!", "Você ganhou!"]);
    assert!(game.is_won());
}

#[test]
fn unparsable_lines_retry_and_keep_state() {
    let mut game = Game::with_secret(50);
    for line in ["abc\n", "\n", "", "-5\n", "4294967296\n", "+\n", "1 2\n", "5a\n", "++5\n"] {
        assert_eq!(game.play_line(line), Turn::Retry);
        assert_eq!(game.secret(), 50);
        assert!(!game.is_won());
    }
}

#[test]
fn line_is_trimmed_before_parsing() {
    let mut game = Game::with_secret(42);
    assert_eq!(
        game.play_line("  42 \r\n"),
        Turn::Judged { guess: 42, verdict: Verdict::Win }
    );
    assert!(game.is_won());
}

#[test]
fn untrimmed_text_is_no_number() {
    let mut game = Game::with_secret(42);
    assert_eq!(game.play_trimmed(" 42"), Turn::Retry);
    assert_eq!(game.play_trimmed("41"), Turn::Judged { guess: 41, verdict: Verdict::TooSmall });
    assert!(!game.is_won());
}

#[test]
fn parse_guess_values() {
    assert_eq!(parse_guess("0"), Some(0));
    assert_eq!(parse_guess("007"), Some(7));
    assert_eq!(parse_guess("+7"), Some(7));
    assert_eq!(parse_guess("4294967295"), Some(4294967295));
    assert_eq!(parse_guess("4294967296"), None);
    assert_eq!(parse_guess("99999999999999999999"), None);
    assert_eq!(parse_guess(""), None);
    assert_eq!(parse_guess("+"), None);
    assert_eq!(parse_guess("-0"), None);
    assert_eq!(parse_guess("1.5"), None);
    assert_eq!(parse_guess("١٢"), None);
}

#[test]
fn compare_is_three_way() {
    assert_eq!(compare(1, 2), Verdict::TooSmall);
    assert_eq!(compare(3, 2), Verdict::TooBig);
    assert_eq!(compare(2, 2), Verdict::Win);
}

#[test]
fn verdict_messages() {
    assert_eq!(Verdict::TooSmall.message(), "Muito pequeno!");
    assert_eq!(Verdict::TooBig.message(), "Muito grande!");
    assert_eq!(Verdict::Win.message(), "Você ganhou!");
}

#[test]
fn judge_wins_only_on_equality() {
    let mut game = Game::with_secret(SECRET_MAX);
    assert_eq!(game.judge(SECRET_MIN), Verdict::TooSmall);
    assert!(!game.is_won());
    assert_eq!(game.judge(u32::MAX), Verdict::TooBig);
    assert!(!game.is_won());
    assert_eq!(game.judge(SECRET_MAX), Verdict::Win);
    assert!(game.is_won());
}

#[test]
fn random_secret_in_range() {
    for _ in 0..200 {
        let game = Game::new();
        assert!(SECRET_MIN <= game.secret() && game.secret() <= SECRET_MAX);
        assert!(!game.is_won());
    }
}
