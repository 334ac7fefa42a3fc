use lucca_faces::error::PlayError;
use lucca_faces::fingerprint::fingerprint;
use lucca_faces::play::{choose_suggestion, correct_index, learn, select_guess};
use lucca_faces::protocol::{Game, GuessResponse, Question, Suggestion};
use lucca_faces::session::GameProgress;
use lucca_faces::store::AnswerStore;

fn question(id: u32, names: [&str; 4]) -> Question {
    Question {
        id,
        image_url: format!("img/{}.jpg", id),
        suggestions: [
            Suggestion { id: id * 10 + 1, value: names[0].to_string() },
            Suggestion { id: id * 10 + 2, value: names[1].to_string() },
            Suggestion { id: id * 10 + 3, value: names[2].to_string() },
            Suggestion { id: id * 10 + 4, value: names[3].to_string() },
        ],
    }
}

#[test]
fn cold_start_guesses_first_suggestion() {
    let store = AnswerStore::new();
    let q = question(1, ["Ann", "Bob", "Cy", "Di"]);
    assert_eq!(choose_suggestion(&store, &q, 99), Ok(0));
}

#[test]
fn remembered_name_is_guessed() {
    let mut store = AnswerStore::new();
    store.put(99, "Cy".to_string());
    let q = question(1, ["Ann", "Bob", "Cy", "Di"]);
    assert_eq!(choose_suggestion(&store, &q, 99), Ok(2));
}

#[test]
fn remembered_name_absent_from_question_fails() {
    let mut store = AnswerStore::new();
    store.put(99, "Zed".to_string());
    let q = question(1, ["Ann", "Bob", "Cy", "Di"]);
    assert_eq!(choose_suggestion(&store, &q, 99), Err(PlayError::UnknownStoredAnswer));
}

#[test]
fn wrong_guess_stores_declared_answer() {
    let mut store = AnswerStore::new();
    store.put(5, "Ann".to_string());
    let q = question(2, ["Ann", "Bob", "Cy", "Di"]);
    let guessed = choose_suggestion(&store, &q, 5).unwrap();
    assert_eq!(guessed, 0);
    let feedback = GuessResponse { score: 0, is_correct: false, correct_suggestion_id: 24 };
    assert_eq!(correct_index(&q, guessed, &feedback), Ok(3));
    assert_eq!(learn(&mut store, &q, 5, guessed, &feedback), Ok(0));
    assert_eq!(store.get(5), Some("Di".to_string()));
    assert_eq!(choose_suggestion(&store, &q, 5), Ok(3));
}

#[test]
fn right_guess_stores_guessed_answer() {
    let mut store = AnswerStore::new();
    let q = question(3, ["Ann", "Bob", "Cy", "Di"]);
    let feedback = GuessResponse { score: 150, is_correct: true, correct_suggestion_id: 31 };
    assert_eq!(learn(&mut store, &q, 8, 0, &feedback), Ok(150));
    assert_eq!(store.get(8), Some("Ann".to_string()));
}

#[test]
fn unknown_correct_suggestion_keeps_store() {
    let mut store = AnswerStore::new();
    store.put(8, "Bob".to_string());
    let q = question(3, ["Ann", "Bob", "Cy", "Di"]);
    let feedback = GuessResponse { score: 0, is_correct: false, correct_suggestion_id: 77 };
    assert_eq!(
        learn(&mut store, &q, 8, 1, &feedback),
        Err(PlayError::UnknownCorrectSuggestion)
    );
    assert_eq!(store.get(8), Some("Bob".to_string()));
    assert_eq!(store.len(), 1);
}

#[test]
fn fingerprint_depends_on_bytes() {
    let a = fingerprint(&[1, 2, 3]);
    assert_eq!(a, fingerprint(&[1, 2, 3]));
    assert_ne!(a, fingerprint(&[1, 2, 4]));
    assert_ne!(fingerprint(&[]), fingerprint(&[0]));
}

#[test]
fn three_question_game_from_empty_store() {
    let game = Game::new("g".to_string(), 3);
    let mut store = AnswerStore::new();
    let mut progress = GameProgress::new(&game);
    let images: [Vec<u8>; 3] = [vec![1u8; 1024], vec![2u8; 1024], vec![3u8; 1024]];
    let mut plays = 0;
    while !progress.is_complete() {
        let index = progress.answered();
        let q = question(index as u32 + 1, ["Ann", "Bob", "Cy", "Di"]);
        let (f, guessed) = select_guess(&store, &q, &images[index]).unwrap();
        assert_eq!(guessed, 0);
        let feedback = GuessResponse {
            score: 10 * (index as i32 + 1),
            is_correct: false,
            correct_suggestion_id: q.suggestions[2].id,
        };
        let score = learn(&mut store, &q, f, guessed, &feedback).unwrap();
        progress.record(score);
        plays += 1;
    }
    assert_eq!(plays, 3);
    assert_eq!(progress.scores(), vec![10, 20, 30]);
    assert_eq!(progress.total(), 60);
    assert_eq!(store.len(), 3);
}

#[test]
fn progress_starts_empty() {
    let game = Game::new("g".to_string(), 0);
    let progress = GameProgress::new(&game);
    assert!(progress.is_complete());
    assert_eq!(progress.answered(), 0);
    assert_eq!(progress.total(), 0);
}
