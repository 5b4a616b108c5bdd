use vstd::prelude::*;
use crate::model::{Event, Player, Score};
use crate::phase::Phase;

verus! {

/// The payload of the "user joined" event.
#[derive(Clone, Debug, PartialEq, Eq)]
pub struct TempUser {
    pub name: String,
    pub token: String,
}

impl View for TempUser {
    type V = Player;

    open spec fn view(&self) -> Player {
        Player { name: self.name@, token: self.token@ }
    }
}

/// One line of the final ranking.
#[derive(Clone, Debug, PartialEq, Eq)]
pub struct GuessScore {
    pub name: String,
    pub token: String,
    pub score: u32,
}

impl View for GuessScore {
    type V = Score;

    open spec fn view(&self) -> Score {
        Score { name: self.name@, token: self.token@, score: self.score }
    }
}

impl DeepView for GuessScore {
    type V = Score;

    open spec fn deep_view(&self) -> Score {
        self@
    }
}

/// The frame with which a client identifies itself on the real-time channel.
#[derive(Clone, Debug, PartialEq, Eq)]
pub struct WSAuthMessage {
    pub obj: String,
    pub token: String,
}

/// An event on a lobby's channel: one variant for each kind, with the
/// payload of that kind.
#[derive(Clone, Debug, PartialEq, Eq)]
pub enum WSMessage {
    UserJoined(TempUser),
    GapClaimed(u32),
    GapFilled(u32),
    ChangeView(Phase),
    StartGuessing(u32),
    GuessScores(Vec<GuessScore>),
    Guessed(String),
}

impl View for WSMessage {
    type V = Event;

    open spec fn view(&self) -> Event {
        match self {
            WSMessage::UserJoined(user) => Event::UserJoined(user@),
            WSMessage::GapClaimed(gap_id) => Event::GapClaimed(*gap_id),
            WSMessage::GapFilled(gap_id) => Event::GapFilled(*gap_id),
            WSMessage::ChangeView(view) => Event::ChangeView(*view),
            WSMessage::StartGuessing(delay) => Event::StartGuessing(*delay),
            WSMessage::GuessScores(scores) => Event::GuessScores(scores.deep_view()),
            WSMessage::Guessed(token) => Event::Guessed(token@),
        }
    }
}

impl WSMessage {
    /// A player has joined.
    pub fn user_joined(name: String, token: String) -> (msg: Self)
        ensures
            msg@ == Event::UserJoined(Player { name: name@, token: token@ }),
    {
        WSMessage::UserJoined(TempUser { name, token })
    }

    /// The game is over: each player's result.
    pub fn guess_scores(guesses: Vec<GuessScore>) -> (msg: Self)
        ensures
            msg@ == Event::GuessScores(guesses.deep_view()),
    {
        WSMessage::GuessScores(guesses)
    }

    /// The lobby has entered `view`.
    pub fn change_view(view: Phase) -> (msg: Self)
        ensures
            msg@ == Event::ChangeView(view),
    {
        WSMessage::ChangeView(view)
    }

    /// Gap `gap_id` has a claimant.
    pub fn gap_claimed(gap_id: u32) -> (msg: Self)
        ensures
            msg@ == Event::GapClaimed(gap_id),
    {
        WSMessage::GapClaimed(gap_id)
    }

    /// Gap `gap_id` has been written. The event does not carry what was
    /// written: that stays hidden until the guessing.
    pub fn gap_filled(gap_id: u32) -> (msg: Self)
        ensures
            msg@ == Event::GapFilled(gap_id),
    {
        WSMessage::GapFilled(gap_id)
    }

    /// The guessing begins after `delay` time units.
    pub fn start_guessing(delay: u32) -> (msg: Self)
        ensures
            msg@ == Event::StartGuessing(delay),
    {
        WSMessage::StartGuessing(delay)
    }

    /// The player with `token` has submitted guesses.
    pub fn guessed(token: String) -> (msg: Self)
        ensures
            msg@ == Event::Guessed(token@),
    {
        WSMessage::Guessed(token)
    }

    /// The tag by which clients tell the kinds of event apart.
    pub fn obj(&self) -> (tag: String)
        ensures
            tag@ == self@.kind(),
    {
        match self {
            WSMessage::UserJoined(_) => "user_joined".to_string(),
            WSMessage::GapClaimed(_) => "gap_claimed".to_string(),
            WSMessage::GapFilled(_) => "gap_filled".to_string(),
            WSMessage::ChangeView(_) => "change_view".to_string(),
            WSMessage::StartGuessing(_) => "start_guessing".to_string(),
            WSMessage::GuessScores(_) => "guess_scores".to_string(),
            WSMessage::Guessed(_) => "guessed".to_string(),
        }
    }
}

} // verus!
