//! The status alphabet shared by operations and channel attempts, and the
//! transitions between its letters.

use vstd::prelude::*;
use vstd::string::StringExecFns;

verus! {

/// Where an operation or a channel attempt stands.
#[derive(Clone, Copy, Debug, PartialEq, Eq, Structural)]
pub enum Status {
    Pending,
    Running,
    Done,
    Failed,
}

/// What can happen to something that has a [`Status`].
#[derive(Clone, Copy, Debug, PartialEq, Eq, Structural)]
pub enum StatusEvent {
    /// Work on it begins.
    Start,
    /// Work on it ended well.
    Succeed,
    /// Work on it ended badly.
    Fail,
}

impl Status {
    /// The stored text of the status.
    pub open spec fn text(self) -> Seq<char> {
        match self {
            Status::Pending => "pending"@,
            Status::Running => "running"@,
            Status::Done => "done"@,
            Status::Failed => "failed"@,
        }
    }

    /// Position along `pending → running → {done | failed}`.
    pub open spec fn rank(self) -> nat {
        match self {
            Status::Pending => 0,
            Status::Running => 1,
            Status::Done => 2,
            Status::Failed => 2,
        }
    }

    /// `done` and `failed` are terminal.
    pub open spec fn terminal(self) -> bool {
        self == Status::Done || self == Status::Failed
    }

    /// The status that `event` leads to from `self`, if the transition is legal.
    pub open spec fn after(self, event: StatusEvent) -> Option<Status> {
        match (self, event) {
            (Status::Pending, StatusEvent::Start) => Some(Status::Running),
            (Status::Running, StatusEvent::Succeed) => Some(Status::Done),
            (Status::Running, StatusEvent::Fail) => Some(Status::Failed),
            _ => None,
        }
    }

    /// A write of `next` over `self` that keeps the status monotone: either a legal
    /// transition, or the same status written again.
    pub open spec fn may_become(self, next: Status) -> bool {
        next == self || exists|e: StatusEvent| self.after(e) == Some(next)
    }

    pub fn is_terminal(&self) -> (r: bool)
        ensures
            r == self.terminal(),
    {
        match self {
            Status::Done => true,
            Status::Failed => true,
            _ => false,
        }
    }

    /// The stored text, as the store and the JSON payloads spell it.
    pub fn as_str(&self) -> (r: &'static str)
        ensures
            r@ == self.text(),
    {
        match self {
            Status::Pending => "pending",
            Status::Running => "running",
            Status::Done => "done",
            Status::Failed => "failed",
        }
    }

    /// Reads a stored text back. `None` for any text outside the alphabet.
    pub fn parse(text: &String) -> (r: Option<Status>)
        ensures
            match r {
                Some(s) => text@ == s.text(),
                None => forall|s: Status| text@ != s.text(),
            },
    {
        if *text == String::from_str("pending") {
            Some(Status::Pending)
        } else if *text == String::from_str("running") {
            Some(Status::Running)
        } else if *text == String::from_str("done") {
            Some(Status::Done)
        } else if *text == String::from_str("failed") {
            Some(Status::Failed)
        } else {
            None
        }
    }

    /// The transition function: the next status, or `None` where `event` is not
    /// legal in `self`.
    pub fn step(self, event: StatusEvent) -> (r: Option<Status>)
        ensures
            r == self.after(event),
    {
        match (self, event) {
            (Status::Pending, StatusEvent::Start) => Some(Status::Running),
            (Status::Running, StatusEvent::Succeed) => Some(Status::Done),
            (Status::Running, StatusEvent::Fail) => Some(Status::Failed),
            _ => None,
        }
    }
}

/// The four stored texts are pairwise different, so a text names at most one status.
pub proof fn lemma_text_injective(a: Status, b: Status)
    requires
        a.text() == b.text(),
    ensures
        a == b,
{
    reveal_strlit("pending");
    reveal_strlit("running");
    reveal_strlit("done");
    reveal_strlit("failed");
    assert("pending"@.len() == 7 && "pending"@[0] == 'p');
    assert("running"@.len() == 7 && "running"@[0] == 'r');
    assert("done"@.len() == 4);
    assert("failed"@.len() == 6);
}

/// Every legal transition moves strictly forward along
/// `pending → running → {done | failed}`.
pub proof fn lemma_step_advances(s: Status, e: StatusEvent)
    requires
        s.after(e) is Some,
    ensures
        s.after(e)->0.rank() == s.rank() + 1,
{
}

/// Nothing leads out of a terminal status.
pub proof fn lemma_terminal_is_final(s: Status, e: StatusEvent)
    requires
        s.terminal(),
    ensures
        s.after(e) is None,
{
}

/// A monotone write never lowers the rank, and over a terminal status it changes
/// nothing.
pub proof fn lemma_may_become_monotone(s: Status, next: Status)
    requires
        s.may_become(next),
    ensures
        s.rank() <= next.rank(),
        s.terminal() ==> next == s,
{
}

} // verus!
