use vstd::prelude::*;
use vstd::string::StringExecFns;

use crate::error::PlayError;

verus! {

/// A game as the service created it: its identifier and how many questions it asks.
pub struct Game {
    pub id: String,
    pub nb_questions: u32,
}

/// One of the names offered for a question's image.
pub struct Suggestion {
    pub id: u32,
    pub value: String,
}

/// A question: an image and exactly four suggestions.
pub struct Question {
    pub id: u32,
    pub image_url: String,
    pub suggestions: [Suggestion; 4],
}

/// The service's verdict on a guess.
pub struct GuessResponse {
    pub score: i32,
    pub is_correct: bool,
    pub correct_suggestion_id: u32,
}

impl Game {
    pub fn new(id: String, nb_questions: u32) -> (r: Game)
        ensures
            r.id@ == id@,
            r.nb_questions == nb_questions,
    {
        Game { id, nb_questions }
    }
}

/// The text of one decimal digit.
pub open spec fn digit_text(d: nat) -> Seq<char> {
    if d == 0 {
        "0"@
    } else if d == 1 {
        "1"@
    } else if d == 2 {
        "2"@
    } else if d == 3 {
        "3"@
    } else if d == 4 {
        "4"@
    } else if d == 5 {
        "5"@
    } else if d == 6 {
        "6"@
    } else if d == 7 {
        "7"@
    } else if d == 8 {
        "8"@
    } else {
        "9"@
    }
}

/// `n` written in decimal, without leading zeros.
pub open spec fn decimal(n: nat) -> Seq<char>
    decreases n,
{
    if n < 10 {
        digit_text(n)
    } else {
        decimal(n / 10) + digit_text(n % 10)
    }
}

fn digit_str(d: u32) -> (r: &'static str)
    requires
        d < 10,
    ensures
        r@ == digit_text(d as nat),
{
    if d == 0 {
        "0"
    } else if d == 1 {
        "1"
    } else if d == 2 {
        "2"
    } else if d == 3 {
        "3"
    } else if d == 4 {
        "4"
    } else if d == 5 {
        "5"
    } else if d == 6 {
        "6"
    } else if d == 7 {
        "7"
    } else if d == 8 {
        "8"
    } else {
        "9"
    }
}

/// Appends `n` in decimal to `out`.
pub fn append_decimal(out: &mut String, n: u32)
    ensures
        final(out)@ == old(out)@ + decimal(n as nat),
    decreases n,
{
    if n >= 10 {
        append_decimal(out, n / 10);
    }
    let d = digit_str(n % 10);
    out.append(d);
    assert(out@ =~= old(out)@ + decimal(n as nat));
}

/// The login page, relative to the service's base URL.
pub open spec fn login_path_text() -> Seq<char> {
    "identity/login"@
}

/// Where a game is created; the training variant has its own endpoint.
pub open spec fn games_path_text(training: bool) -> Seq<char> {
    if training {
        "faces/api/games"@ + "/training"@
    } else {
        "faces/api/games"@
    }
}

/// Where the next question of a game is asked for.
pub open spec fn next_question_path_text(game_id: Seq<char>) -> Seq<char> {
    "faces/api/games/"@ + game_id + "/questions/next"@
}

/// Where a guess for a question of a game is sent.
pub open spec fn guess_path_text(game_id: Seq<char>, question_id: nat) -> Seq<char> {
    "faces/api/games/"@ + game_id + "/questions/"@ + decimal(question_id) + "/guess"@
}

pub fn login_path() -> (r: String)
    ensures
        r@ == login_path_text(),
{
    String::from_str("identity/login")
}

pub fn games_path(training: bool) -> (r: String)
    ensures
        r@ == games_path_text(training),
{
    let mut r = String::from_str("faces/api/games");
    if training {
        r.append("/training");
    }
    r
}

pub fn next_question_path(game: &Game) -> (r: String)
    ensures
        r@ == next_question_path_text(game.id@),
{
    let mut r = String::from_str("faces/api/games/");
    r.append(game.id.as_str());
    r.append("/questions/next");
    r
}

pub fn guess_path(game: &Game, question: &Question) -> (r: String)
    ensures
        r@ == guess_path_text(game.id@, question.id as nat),
{
    let mut r = String::from_str("faces/api/games/");
    r.append(game.id.as_str());
    r.append("/questions/");
    append_decimal(&mut r, question.id);
    r.append("/guess");
    assert(r@ =~= guess_path_text(game.id@, question.id as nat));
    r
}

/// The body that creates a game: empty, or in training mode empty department
/// and establishment filters.
#[derive(Debug, Clone, Copy, PartialEq, Eq, Structural)]
pub enum StartPayload {
    Empty,
    EmptyScopeFilters,
}

pub fn start_payload(training: bool) -> (r: StartPayload)
    ensures
        r == (if training {
            StartPayload::EmptyScopeFilters
        } else {
            StartPayload::Empty
        }),
{
    if training {
        StartPayload::EmptyScopeFilters
    } else {
        StartPayload::Empty
    }
}

/// The byte range asked for when fetching an image: its first 1024 bytes.
pub open spec fn image_range_text() -> Seq<char> {
    "bytes=0-1023"@
}

pub fn image_range() -> (r: String)
    ensures
        r@ == image_range_text(),
{
    String::from_str("bytes=0-1023")
}

/// Whether an HTTP status code is a success (2xx).
pub open spec fn is_success_status(status: u16) -> bool {
    200 <= status && status < 300
}

pub fn is_success(status: u16) -> (r: bool)
    ensures
        r == is_success_status(status),
{
    200 <= status && status < 300
}

/// A protocol call must be answered with a success status.
pub fn check_status(status: u16) -> (r: Result<(), PlayError>)
    ensures
        r is Ok <==> is_success_status(status),
        r matches Err(e) ==> e == (PlayError::HttpError { status }),
{
    if is_success(status) {
        Ok(())
    } else {
        Err(PlayError::HttpError { status })
    }
}

/// Creating a game must be answered with a success status.
pub fn start_outcome(status: u16) -> (r: Result<(), PlayError>)
    ensures
        r is Ok <==> is_success_status(status),
        r matches Err(e) ==> e == (PlayError::GameStartFailed { status }),
{
    if is_success(status) {
        Ok(())
    } else {
        Err(PlayError::GameStartFailed { status })
    }
}

} // verus!
