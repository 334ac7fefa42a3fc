use lucca_faces::error::PlayError;
use lucca_faces::options::PlayerOptions;
use lucca_faces::protocol::{
    append_decimal, check_status, games_path, guess_path, image_range, is_success, login_path,
    next_question_path, start_outcome, start_payload, Game, Question, StartPayload, Suggestion,
};

fn suggestion(id: u32, value: &str) -> Suggestion {
    Suggestion { id, value: value.to_string() }
}

fn question(id: u32) -> Question {
    Question {
        id,
        image_url: "img/1.jpg".to_string(),
        suggestions: [
            suggestion(1, "A"),
            suggestion(2, "B"),
            suggestion(3, "C"),
            suggestion(4, "D"),
        ],
    }
}

#[test]
fn decimal_text_of_numbers() {
    for (n, text) in [(0u32, "0"), (7, "7"), (10, "10"), (305, "305"), (u32::MAX, "4294967295")] {
        let mut out = "q".to_string();
        append_decimal(&mut out, n);
        assert_eq!(out, format!("q{}", text));
    }
}

#[test]
fn game_paths() {
    assert_eq!(login_path(), "identity/login");
    assert_eq!(games_path(false), "faces/api/games");
    assert_eq!(games_path(true), "faces/api/games/training");
    let game = Game::new("abc-1".to_string(), 10);
    assert_eq!(game.nb_questions, 10);
    assert_eq!(next_question_path(&game), "faces/api/games/abc-1/questions/next");
    assert_eq!(guess_path(&game, &question(4021)), "faces/api/games/abc-1/questions/4021/guess");
    assert_eq!(image_range(), "bytes=0-1023");
}

#[test]
fn status_checks() {
    assert!(is_success(200));
    assert!(is_success(299));
    assert!(!is_success(300));
    assert!(!is_success(199));
    assert_eq!(check_status(201), Ok(()));
    assert_eq!(check_status(500), Err(PlayError::HttpError { status: 500 }));
    assert_eq!(start_outcome(200), Ok(()));
    assert_eq!(start_outcome(403), Err(PlayError::GameStartFailed { status: 403 }));
}

#[test]
fn options_parse_and_join() {
    let options = PlayerOptions::new("https://example.ilucca.net/", true).unwrap();
    assert!(options.training);
    let url = options.endpoint("faces/api/games").unwrap();
    assert_eq!(url.as_str(), "https://example.ilucca.net/faces/api/games");
    assert!(matches!(PlayerOptions::new("not a url", false), Err(PlayError::InvalidUrl)));
}

#[test]
fn training_mode_sends_scope_filters() {
    assert_eq!(start_payload(true), StartPayload::EmptyScopeFilters);
    assert_eq!(start_payload(false), StartPayload::Empty);
}

#[test]
fn endpoint_keeps_base_text_and_resolves_absolute_paths() {
    let options = PlayerOptions::new("https://example.ilucca.net/", false).unwrap();
    assert_eq!(options.lucca_url, "https://example.ilucca.net/");
    let url = options.endpoint("https://cdn.example.org/img/1.jpg").unwrap();
    assert_eq!(url.as_str(), "https://cdn.example.org/img/1.jpg");
    assert!(matches!(options.endpoint("http://[::1"), Err(PlayError::InvalidUrl)));
}
