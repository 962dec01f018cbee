//! What the platform can report to the application, and what the
//! application can answer.

use vstd::prelude::*;

verus! {

/// Another user asking to join the current game.
#[derive(Debug, Clone, PartialEq, Eq)]
pub struct JoinRequest {
    pub id: String,
    pub name: String,
    pub avatar: String,
}

/// The text of a [`JoinRequest`].
pub struct JoinRequestView {
    pub id: Seq<char>,
    pub name: Seq<char>,
    pub avatar: Seq<char>,
}

impl View for JoinRequest {
    type V = JoinRequestView;

    open spec fn view(&self) -> JoinRequestView {
        JoinRequestView { id: self.id@, name: self.name@, avatar: self.avatar@ }
    }
}

/// A reply to a join request.
#[derive(Debug, Copy, Clone, PartialEq, Eq, Structural)]
pub enum Reply {
    No,
    Yes,
    Ignore,
}

impl Reply {
    /// The integer that stands for this reply on the native side.
    pub open spec fn spec_code(self) -> i32 {
        match self {
            Reply::No => 0i32,
            Reply::Yes => 1i32,
            Reply::Ignore => 2i32,
        }
    }

    /// The integer that stands for this reply on the native side.
    #[verifier::when_used_as_spec(spec_code)]
    pub fn code(self) -> (c: i32)
        ensures
            c == self.spec_code(),
    {
        match self {
            Reply::No => 0i32,
            Reply::Yes => 1i32,
            Reply::Ignore => 2i32,
        }
    }
}

/// Something the platform reported.
#[derive(Debug, Clone, PartialEq, Eq)]
pub enum Event {
    Ready,
    Disconnected(i32, String),
    Errored(i32, String),
    JoinGame(String),
    SpectateGame(String),
    JoinRequest(JoinRequest),
}

/// The content of an [`Event`].
pub enum EventView {
    Ready,
    Disconnected(i32, Seq<char>),
    Errored(i32, Seq<char>),
    JoinGame(Seq<char>),
    SpectateGame(Seq<char>),
    JoinRequest(JoinRequestView),
}

impl View for Event {
    type V = EventView;

    open spec fn view(&self) -> EventView {
        match *self {
            Event::Ready => EventView::Ready,
            Event::Disconnected(code, message) => EventView::Disconnected(code, message@),
            Event::Errored(code, message) => EventView::Errored(code, message@),
            Event::JoinGame(secret) => EventView::JoinGame(secret@),
            Event::SpectateGame(secret) => EventView::SpectateGame(secret@),
            Event::JoinRequest(request) => EventView::JoinRequest(request@),
        }
    }
}

/// Distinct replies have distinct native codes, and every code lies in `0..=2`.
pub proof fn reply_codes_are_distinct(a: Reply, b: Reply)
    ensures
        0 <= a.spec_code() <= 2,
        a.spec_code() == b.spec_code() <==> a == b,
{
}

} // verus!
