use vstd::prelude::*;

use crate::protocol::Game;

verus! {

/// The scores of a game in play: one per question answered, in order, never
/// more than the game's question count.
pub struct GameProgress {
    nb_questions: u32,
    scores: Vec<i32>,
}

/// The sum of a sequence of scores.
pub open spec fn score_sum(s: Seq<i32>) -> int
    decreases s.len(),
{
    if s.len() == 0 {
        0
    } else {
        score_sum(s.drop_last()) + s.last()
    }
}

impl GameProgress {
    /// How many questions the game asks.
    pub closed spec fn question_count(&self) -> nat {
        self.nb_questions as nat
    }

    /// The scores recorded so far, in order.
    pub closed spec fn recorded(&self) -> Seq<i32> {
        self.scores@
    }

    pub closed spec fn wf(&self) -> bool {
        self.scores@.len() <= self.nb_questions
    }

    /// A game not started on: no question answered yet.
    pub fn new(game: &Game) -> (r: GameProgress)
        ensures
            r.wf(),
            r.question_count() == game.nb_questions,
            r.recorded() == Seq::<i32>::empty(),
    {
        GameProgress { nb_questions: game.nb_questions, scores: Vec::new() }
    }

    /// How many questions have been answered.
    pub fn answered(&self) -> (r: usize)
        ensures
            r == self.recorded().len(),
    {
        self.scores.len()
    }

    /// Whether every question of the game has been answered.
    pub fn is_complete(&self) -> (r: bool)
        requires
            self.wf(),
        ensures
            r == (self.recorded().len() == self.question_count()),
    {
        self.scores.len() == self.nb_questions as usize
    }

    /// Records the score of the next question.
    pub fn record(&mut self, score: i32)
        requires
            old(self).wf(),
            old(self).recorded().len() < old(self).question_count(),
        ensures
            final(self).wf(),
            final(self).question_count() == old(self).question_count(),
            final(self).recorded() == old(self).recorded().push(score),
    {
        self.scores.push(score);
    }

    /// The scores recorded so far, in order.
    pub fn scores(&self) -> (r: Vec<i32>)
        ensures
            r@ == self.recorded(),
    {
        let mut r: Vec<i32> = Vec::new();
        let mut i: usize = 0;
        while i < self.scores.len()
            invariant
                i <= self.scores@.len(),
                r@ == self.scores@.subrange(0, i as int),
            decreases self.scores@.len() - i,
        {
            r.push(self.scores[i]);
            i = i + 1;
        }
        assert(r@ =~= self.scores@);
        r
    }

    /// The total of the scores recorded so far.
    pub fn total(&self) -> (r: i64)
        requires
            self.wf(),
        ensures
            r == score_sum(self.recorded()),
    {
        let mut sum: i64 = 0;
        let mut i: usize = 0;
        while i < self.scores.len()
            invariant
                i <= self.scores@.len(),
                self.scores@.len() <= u32::MAX,
                sum == score_sum(self.scores@.subrange(0, i as int)),
                -(i as int) * 2147483648 <= sum <= (i as int) * 2147483647,
            decreases self.scores@.len() - i,
        {
            let ghost before = self.scores@.subrange(0, i as int);
            assert(self.scores@.subrange(0, i + 1).drop_last() =~= before);
            sum = sum + self.scores[i] as i64;
            i = i + 1;
        }
        assert(self.scores@.subrange(0, i as int) =~= self.scores@);
        sum
    }
}

} // verus!
