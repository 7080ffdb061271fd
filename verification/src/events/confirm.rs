use vstd::prelude::*;

verus! {

/// The broker's answer to a published message.
#[derive(PartialEq, Eq, Structural)]
pub enum Confirmation {
    Acked,
    Nacked,
}

/// The decisions of the publisher-confirm callback: the waiting publisher is told of the first
/// acknowledgement or refusal, and of nothing after it.
pub struct ConfirmTracker {
    pub awaiting: bool,
}

/// What one broker answer delivers to the waiting publisher, and whether one is still awaited.
pub open spec fn confirm_step(awaiting: bool, answer: Confirmation) -> (bool, Option<Confirmation>) {
    if awaiting {
        (false, Some(answer))
    } else {
        (false, None)
    }
}

/// Everything a run of broker answers delivers to the waiting publisher.
pub open spec fn delivered(awaiting: bool, answers: Seq<Confirmation>) -> Seq<Confirmation>
    decreases answers.len(),
{
    if answers.len() == 0 {
        Seq::empty()
    } else {
        let (next, out) = confirm_step(awaiting, answers[0]);
        match out {
            Some(c) => seq![c] + delivered(next, answers.drop_first()),
            None => delivered(next, answers.drop_first()),
        }
    }
}

impl ConfirmTracker {
    /// A tracker that still awaits the broker's answer.
    pub fn new() -> (tracker: ConfirmTracker)
        ensures
            tracker.awaiting,
    {
        ConfirmTracker { awaiting: true }
    }

    /// Handles an answer of the broker; returns what to deliver to the publisher.
    pub fn on_answer(&mut self, answer: Confirmation) -> (delivery: Option<Confirmation>)
        ensures
            (final(self).awaiting, delivery) == confirm_step(old(self).awaiting, answer),
    {
        if self.awaiting {
            self.awaiting = false;
            Some(answer)
        } else {
            None
        }
    }

    /// Handles a positive acknowledgement of the broker.
    pub fn on_ack(&mut self) -> (delivery: Option<Confirmation>)
        ensures
            (final(self).awaiting, delivery) == confirm_step(old(self).awaiting, Confirmation::Acked),
    {
        self.on_answer(Confirmation::Acked)
    }

    /// Handles a negative acknowledgement (refusal) of the broker.
    pub fn on_nack(&mut self) -> (delivery: Option<Confirmation>)
        ensures
            (final(self).awaiting, delivery) == confirm_step(old(self).awaiting, Confirmation::Nacked),
    {
        self.on_answer(Confirmation::Nacked)
    }
}

/// The publisher hears at most one answer: a tracker that awaits delivers exactly the first
/// answer of any run and nothing after it, and a settled tracker delivers nothing.
pub proof fn lemma_first_answer_only(awaiting: bool, answers: Seq<Confirmation>)
    ensures
        delivered(awaiting, answers) == (if awaiting && answers.len() > 0 {
            seq![answers[0]]
        } else {
            Seq::<Confirmation>::empty()
        }),
    decreases answers.len(),
{
    if answers.len() > 0 {
        lemma_first_answer_only(false, answers.drop_first());
        if awaiting {
            assert(seq![answers[0]] + Seq::<Confirmation>::empty() =~= seq![answers[0]]);
        }
    }
}

} // verus!
