//! What the window manager does, as a dialogue: it asks for calls to be
//! made, and goes on from the answers.
use vstd::prelude::*;

verus! {

/// A dialogue that asks questions `Q`, is given answers `A` and ends with a
/// `T`. Each answer leads on to what is left of the dialogue.
#[verifier::reject_recursive_types(A)]
pub enum Dialogue<Q, A, T> {
    Return(T),
    Ask(Q, spec_fn(A) -> Dialogue<Q, A, T>),
}

impl<Q, A, T> Dialogue<Q, A, T> {
    /// The questions that are asked when these answers are given, the one that
    /// is left without an answer among them.
    pub open spec fn questions(self, answers: Seq<A>) -> Seq<Q>
        decreases answers.len(),
    {
        match self {
            Dialogue::Return(_) => Seq::empty(),
            Dialogue::Ask(question, next) => if answers.len() == 0 {
                seq![question]
            } else {
                seq![question] + next(answers[0]).questions(answers.drop_first())
            },
        }
    }

    /// How the dialogue ends when these answers are given; nothing, where it
    /// waits for one more.
    pub open spec fn outcome(self, answers: Seq<A>) -> Option<T>
        decreases answers.len(),
    {
        match self {
            Dialogue::Return(value) => Some(value),
            Dialogue::Ask(_, next) => if answers.len() == 0 {
                None
            } else {
                next(answers[0]).outcome(answers.drop_first())
            },
        }
    }

    /// How many of these answers are taken.
    pub open spec fn turns(self, answers: Seq<A>) -> nat
        decreases answers.len(),
    {
        match self {
            Dialogue::Return(_) => 0,
            Dialogue::Ask(_, next) => if answers.len() == 0 {
                0
            } else {
                1 + next(answers[0]).turns(answers.drop_first())
            },
        }
    }

    /// A dialogue that has ended asked as many questions as it took answers. One
    /// that has not took all of them, and waits for one more.
    pub proof fn lemma_turns(self, answers: Seq<A>)
        ensures
            self.turns(answers) <= answers.len(),
            self.outcome(answers) is Some ==> self.questions(answers).len() == self.turns(answers),
            self.outcome(answers) is None ==> self.turns(answers) == answers.len()
                && self.questions(answers).len() == answers.len() + 1,
        decreases answers.len(),
    {
        match self {
            Dialogue::Return(_) => {},
            Dialogue::Ask(_, next) => {
                if answers.len() > 0 {
                    next(answers[0]).lemma_turns(answers.drop_first());
                }
            },
        }
    }
}

} // verus!
