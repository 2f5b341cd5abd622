//! Outgoing side of the pipeline.
//!
//! The [`Dispatcher`] admits payloads to sending: it counts the sends that
//! are under way and lets no more of them start than the configuration
//! allows.

use vstd::prelude::*;
use crate::config::GlobalConfig;

pub mod payload;
pub mod strategies;

use payload::Payload;

verus! {

/// What reached the dispatcher since its last step.
#[derive(Clone, Debug, PartialEq, Eq)]
pub enum DispatchInput {
    /// The aggregator handed in a payload, or a payload that was put off is
    /// offered again.
    Payload(Payload),
    /// A send task has ended, however it went.
    SendFinished,
    /// The aggregator has gone and the queue is drained.
    Closed,
}

/// What the dispatcher's loop has to do next.
#[derive(Clone, Debug, PartialEq, Eq)]
pub enum DispatchAction {
    /// Start a send task for the payload and go on at once. A place among
    /// the sends under way is taken for it; the task gives it back by
    /// reporting that it has ended.
    Spawn(Payload),
    /// Every place is taken: keep the payload, take no other, and offer it
    /// again after the next send task has ended.
    Defer(Payload),
    /// Go on.
    Continue,
    /// Take no more payloads. Send tasks under way run to their end.
    Stop,
}

/// Admits outgoing sends up to a bound.
pub struct Dispatcher {
    max_send_task: u8,
    in_flight: u8,
}

/// Mathematical value of a [`Dispatcher`].
pub struct DispatcherView {
    /// Most sends that may be under way at once.
    pub max_send_task: nat,
    /// Number of sends under way.
    pub in_flight: nat,
}

impl DispatcherView {
    /// The bound that the dispatcher keeps: never more sends under way than
    /// allowed.
    pub open spec fn within_bound(self) -> bool {
        self.in_flight <= self.max_send_task
    }

    /// Whether a further send may start.
    pub open spec fn has_permit(self) -> bool {
        self.in_flight < self.max_send_task
    }

    /// The dispatcher after a permit was asked for.
    pub open spec fn acquired(self) -> DispatcherView {
        if self.has_permit() {
            DispatcherView { in_flight: self.in_flight + 1, ..self }
        } else {
            self
        }
    }

    /// The dispatcher after a send task has ended.
    pub open spec fn released(self) -> DispatcherView {
        if self.in_flight > 0 {
            DispatcherView { in_flight: (self.in_flight - 1) as nat, ..self }
        } else {
            self
        }
    }

    /// The dispatcher after the step on `input`.
    pub open spec fn stepped(self, input: DispatchInput) -> DispatcherView {
        match input {
            DispatchInput::Payload(_) => self.acquired(),
            DispatchInput::SendFinished => self.released(),
            DispatchInput::Closed => self,
        }
    }

    /// The answer of the step on `input`.
    pub open spec fn answer(self, input: DispatchInput) -> DispatchAction {
        match input {
            DispatchInput::Payload(payload) => if self.has_permit() {
                DispatchAction::Spawn(payload)
            } else {
                DispatchAction::Defer(payload)
            },
            DispatchInput::SendFinished => DispatchAction::Continue,
            DispatchInput::Closed => DispatchAction::Stop,
        }
    }

    /// The dispatcher after the steps on `inputs`, one after the other.
    pub open spec fn stepped_all(self, inputs: Seq<DispatchInput>) -> DispatcherView
        decreases inputs.len(),
    {
        if inputs.len() == 0 {
            self
        } else {
            self.stepped_all(inputs.drop_last()).stepped(inputs.last())
        }
    }
}

/// Whatever reaches the dispatcher, and in whatever order, the number of
/// sends under way never passes the bound.
pub proof fn lemma_sends_stay_bounded(dispatcher: DispatcherView, inputs: Seq<DispatchInput>)
    requires
        dispatcher.within_bound(),
    ensures
        dispatcher.stepped_all(inputs).within_bound(),
        dispatcher.stepped_all(inputs).max_send_task == dispatcher.max_send_task,
    decreases inputs.len(),
{
    if inputs.len() > 0 {
        lemma_sends_stay_bounded(dispatcher, inputs.drop_last());
    }
}

impl View for Dispatcher {
    type V = DispatcherView;

    closed spec fn view(&self) -> DispatcherView {
        DispatcherView {
            max_send_task: self.max_send_task as nat,
            in_flight: self.in_flight as nat,
        }
    }
}

impl Dispatcher {
    /// The invariant of the dispatcher: the bound holds.
    pub open spec fn wf(&self) -> bool {
        self@.within_bound()
    }

    /// A dispatcher with no send under way that admits `global.max_send_task`
    /// sends at once.
    pub fn new(global: &GlobalConfig) -> (dispatcher: Dispatcher)
        ensures
            dispatcher.wf(),
            dispatcher@ == (DispatcherView { max_send_task: global.max_send_task as nat, in_flight: 0 }),
    {
        Dispatcher { max_send_task: global.max_send_task, in_flight: 0 }
    }

    /// Number of sends under way.
    pub fn in_flight(&self) -> (n: u8)
        ensures
            n == self@.in_flight,
    {
        self.in_flight
    }

    /// Most sends that may be under way at once.
    pub fn max_send_task(&self) -> (n: u8)
        ensures
            n == self@.max_send_task,
    {
        self.max_send_task
    }

    /// Asks for a place among the sends under way. It is granted, and
    /// counted, exactly when fewer sends are under way than allowed.
    pub fn try_acquire(&mut self) -> (granted: bool)
        requires
            old(self).wf(),
        ensures
            final(self).wf(),
            granted == old(self)@.has_permit(),
            final(self)@ == old(self)@.acquired(),
    {
        if self.in_flight < self.max_send_task {
            self.in_flight += 1;
            true
        } else {
            false
        }
    }

    /// Gives back the place of a send task that has ended.
    pub fn release(&mut self)
        requires
            old(self).wf(),
        ensures
            final(self).wf(),
            final(self)@ == old(self)@.released(),
    {
        if self.in_flight > 0 {
            self.in_flight -= 1;
        }
    }

    /// One step of the dispatcher: takes `input` in and says what to do.
    ///
    /// A payload is sent off where a place is free and put off where none
    /// is. A send task that has ended frees its place. The end of input
    /// stops the dispatcher.
    pub fn dispatch(&mut self, input: DispatchInput) -> (action: DispatchAction)
        requires
            old(self).wf(),
        ensures
            final(self).wf(),
            final(self)@ == old(self)@.stepped(input),
            action == old(self)@.answer(input),
    {
        match input {
            DispatchInput::Payload(payload) => {
                if self.try_acquire() {
                    DispatchAction::Spawn(payload)
                } else {
                    DispatchAction::Defer(payload)
                }
            },
            DispatchInput::SendFinished => {
                self.release();
                DispatchAction::Continue
            },
            DispatchInput::Closed => DispatchAction::Stop,
        }
    }
}

} // verus!
