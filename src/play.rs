use vstd::prelude::*;

use crate::error::PlayError;
use crate::fingerprint::fingerprint;
use crate::protocol::{GuessResponse, Question, Suggestion};
use crate::store::{lookup, AnswerStore};

verus! {

broadcast use vstd::array::group_array_axioms;

/// The first index, from `from` on, of a suggestion named `name`.
pub open spec fn first_named(s: Seq<Suggestion>, name: Seq<char>, from: nat) -> Option<int>
    decreases s.len() - from,
{
    if from >= s.len() {
        None
    } else if s[from as int].value@ == name {
        Some(from as int)
    } else {
        first_named(s, name, from + 1)
    }
}

/// The first index, from `from` on, of a suggestion with identifier `id`.
pub open spec fn first_with_id(s: Seq<Suggestion>, id: u32, from: nat) -> Option<int>
    decreases s.len() - from,
{
    if from >= s.len() {
        None
    } else if s[from as int].id == id {
        Some(from as int)
    } else {
        first_with_id(s, id, from + 1)
    }
}

/// The suggestion to guess: the one named as remembered for the fingerprint,
/// or the first one where nothing is remembered.
pub open spec fn guess_index(m: Map<u64, Seq<char>>, s: Seq<Suggestion>, f: u64) -> Option<int> {
    match lookup(m, f) {
        None => Some(0),
        Some(name) => first_named(s, name, 0),
    }
}

/// The suggestion that was truly correct: the guess where the feedback says so,
/// else the one with the identifier that the feedback declares.
pub open spec fn truth_index(s: Seq<Suggestion>, guessed: int, feedback: GuessResponse) -> Option<int> {
    if feedback.is_correct {
        Some(guessed)
    } else {
        first_with_id(s, feedback.correct_suggestion_id, 0)
    }
}

/// Picks the suggestion to guess for an image with fingerprint `fingerprint`:
/// `UnknownStoredAnswer` where the remembered name is none of the four.
pub fn choose_suggestion(store: &AnswerStore, question: &Question, fingerprint: u64) -> (r: Result<
    usize,
    PlayError,
>)
    ensures
        r matches Ok(i) ==> i < 4,
        match r {
            Ok(i) => guess_index(store@, question.suggestions@, fingerprint) == Some(i as int),
            Err(e) => e == PlayError::UnknownStoredAnswer && guess_index(
                store@,
                question.suggestions@,
                fingerprint,
            ) is None,
        },
{
    match store.get(fingerprint) {
        None => Ok(0),
        Some(name) => {
            let ghost s = question.suggestions@;
            let mut i: usize = 0;
            while i < 4
                invariant
                    0 <= i <= 4,
                    s == question.suggestions@,
                    s.len() == 4,
                    lookup(store@, fingerprint) == Some(name@),
                    first_named(s, name@, 0) == first_named(s, name@, i as nat),
                decreases 4 - i,
            {
                if question.suggestions[i].value == name {
                    assert(s[i as int].value@ == name@);
                    assert(first_named(s, name@, i as nat) == Some(i as int));
                    return Ok(i);
                }
                i = i + 1;
            }
            Err(PlayError::UnknownStoredAnswer)
        },
    }
}

/// Finds the suggestion that was truly correct for a guess of index `guessed`:
/// `UnknownCorrectSuggestion` where the guess was wrong and no suggestion has
/// the declared identifier.
pub fn correct_index(question: &Question, guessed: usize, feedback: &GuessResponse) -> (r: Result<
    usize,
    PlayError,
>)
    requires
        guessed < 4,
    ensures
        r matches Ok(i) ==> i < 4,
        match r {
            Ok(i) => truth_index(question.suggestions@, guessed as int, *feedback) == Some(
                i as int,
            ),
            Err(e) => e == PlayError::UnknownCorrectSuggestion && truth_index(
                question.suggestions@,
                guessed as int,
                *feedback,
            ) is None,
        },
{
    if feedback.is_correct {
        return Ok(guessed);
    }
    let ghost s = question.suggestions@;
    let id = feedback.correct_suggestion_id;
    let mut i: usize = 0;
    while i < 4
        invariant
            0 <= i <= 4,
            s == question.suggestions@,
            s.len() == 4,
            !feedback.is_correct,
            id == feedback.correct_suggestion_id,
            first_with_id(s, id, 0) == first_with_id(s, id, i as nat),
        decreases 4 - i,
    {
        if question.suggestions[i].id == id {
            assert(s[i as int].id == id);
            assert(first_with_id(s, id, i as nat) == Some(i as int));
            return Ok(i);
        }
        i = i + 1;
    }
    Err(PlayError::UnknownCorrectSuggestion)
}

/// Fingerprints an image's leading bytes and picks the suggestion to guess.
/// Whatever fingerprint comes out, the pick is the one `choose_suggestion`
/// makes for it.
pub fn select_guess(store: &AnswerStore, question: &Question, image_prefix: &[u8]) -> (r: Result<
    (u64, usize),
    PlayError,
>)
    ensures
        r matches Ok((_, i)) ==> i < 4,
        (forall|g: u64| guess_index(store@, question.suggestions@, g) is Some) ==> r is Ok,
        store@ == Map::<u64, Seq<char>>::empty() ==> (r matches Ok((_, i)) && i == 0),
        match r {
            Ok((f, i)) => guess_index(store@, question.suggestions@, f) == Some(i as int),
            Err(e) => e == PlayError::UnknownStoredAnswer,
        },
{
    let f = fingerprint(image_prefix);
    match choose_suggestion(store, question, f) {
        Ok(i) => Ok((f, i)),
        Err(e) => Err(e),
    }
}

/// Learns from the feedback on a guess: remembers the truly correct name for
/// the fingerprint, right or wrong as the guess was, and returns the score.
/// Where the correct suggestion cannot be found the store is left as it was.
pub fn learn(
    store: &mut AnswerStore,
    question: &Question,
    fingerprint: u64,
    guessed: usize,
    feedback: &GuessResponse,
) -> (r: Result<i32, PlayError>)
    requires
        guessed < 4,
    ensures
        match truth_index(question.suggestions@, guessed as int, *feedback) {
            Some(i) => {
                &&& r == Ok::<i32, PlayError>(feedback.score)
                &&& final(store)@ == old(store)@.insert(fingerprint, question.suggestions@[i].value@)
            },
            None => {
                &&& r == Err::<i32, PlayError>(PlayError::UnknownCorrectSuggestion)
                &&& final(store)@ == old(store)@
            },
        },
{
    match correct_index(question, guessed, feedback) {
        Ok(i) => {
            store.put(fingerprint, question.suggestions[i].value.clone());
            Ok(feedback.score)
        },
        Err(e) => Err(e),
    }
}

proof fn lemma_first_with_id(s: Seq<Suggestion>, id: u32, from: nat)
    ensures
        match first_with_id(s, id, from) {
            Some(i) => from <= i < s.len() && s[i].id == id,
            None => forall|j: int| from <= j < s.len() ==> s[j].id != id,
        },
    decreases s.len() - from,
{
    if from < s.len() && s[from as int].id != id {
        lemma_first_with_id(s, id, from + 1);
    }
}

/// With nothing remembered for a fingerprint, the first suggestion is guessed.
pub proof fn lemma_cold_start(m: Map<u64, Seq<char>>, s: Seq<Suggestion>, f: u64)
    requires
        !m.contains_key(f),
    ensures
        guess_index(m, s, f) == Some(0int),
{
}

/// After a wrong guess, where the suggestions carry distinct identifiers and
/// one of them has the identifier that the feedback declares correct, what is
/// remembered for the fingerprint becomes that suggestion's name; a wrong name
/// remembered before is gone.
pub proof fn lemma_self_correction(
    m: Map<u64, Seq<char>>,
    s: Seq<Suggestion>,
    f: u64,
    guessed: int,
    feedback: GuessResponse,
    j: int,
)
    requires
        !feedback.is_correct,
        0 <= j < s.len(),
        s[j].id == feedback.correct_suggestion_id,
        forall|a: int, b: int|
            0 <= a < s.len() && 0 <= b < s.len() && a != b ==> s[a].id != s[b].id,
    ensures
        truth_index(s, guessed, feedback) == Some(j),
        lookup(m.insert(f, s[j].value@), f) == Some(s[j].value@),
        m.contains_key(f) && m[f] != s[j].value@ ==> lookup(m.insert(f, s[j].value@), f)
            != lookup(m, f),
{
    lemma_first_with_id(s, feedback.correct_suggestion_id, 0);
}

/// The table after remembering `names[k]` for `fs[k]`, one after another,
/// starting from `m`.
pub open spec fn learned(m: Map<u64, Seq<char>>, fs: Seq<u64>, names: Seq<Seq<char>>) -> Map<
    u64,
    Seq<char>,
>
    decreases fs.len(),
{
    if fs.len() == 0 || names.len() == 0 {
        m
    } else {
        learned(m, fs.drop_last(), names.drop_last()).insert(fs.last(), names.last())
    }
}

/// A game played from an empty table, whose questions show images with
/// pairwise distinct fingerprints, leaves exactly one entry per question, each
/// of its fingerprints remembered.
pub proof fn lemma_game_fills_store(fs: Seq<u64>, names: Seq<Seq<char>>)
    requires
        fs.len() == names.len(),
        fs.no_duplicates(),
    ensures
        learned(Map::empty(), fs, names).dom().finite(),
        learned(Map::empty(), fs, names).len() == fs.len(),
        forall|k: u64| #[trigger] learned(Map::empty(), fs, names).contains_key(k) <==> fs.contains(k),
    decreases fs.len(),
{
    if fs.len() > 0 {
        let p = fs.drop_last();
        let x = fs.last();
        assert(p.no_duplicates()) by {
            assert forall|i: int, j: int| 0 <= i < p.len() && 0 <= j < p.len() && i != j implies p[i]
                != p[j] by {
                assert(p[i] == fs[i] && p[j] == fs[j]);
            }
        }
        lemma_game_fills_store(p, names.drop_last());
        assert(!p.contains(x)) by {
            if p.contains(x) {
                let i = choose|i: int| 0 <= i < p.len() && p[i] == x;
                assert(fs[i] == fs[fs.len() - 1]);
            }
        }
        let l = learned(Map::empty(), p, names.drop_last());
        assert(!l.contains_key(x));
        assert forall|k: u64| #[trigger] learned(Map::empty(), fs, names).contains_key(k) <==> fs.contains(k) by {
            if fs.contains(k) && k != x {
                let i = choose|i: int| 0 <= i < fs.len() && fs[i] == k;
                assert(p[i] == k);
            }
            if p.contains(k) {
                let i = choose|i: int| 0 <= i < p.len() && p[i] == k;
                assert(fs[i] == k);
            }
            assert(fs[fs.len() - 1] == x);
        }
    } else {
        assert(learned(Map::empty(), fs, names) =~= Map::empty());
    }
}

} // verus!
