use vstd::prelude::*;
use crate::error::GameError;
use crate::phase::Phase;

verus! {

/// The longest content that a gap stores, in characters.
pub const FILL_LIMIT: usize = 140;

/// The countdown that the "start guessing" event carries.
pub const GUESS_COUNTDOWN: u32 = 10;

/// A player as others see them: a display name and the token that identifies them.
pub struct Player {
    pub name: Seq<char>,
    pub token: Seq<char>,
}

/// A player's final result.
pub struct Score {
    pub name: Seq<char>,
    pub token: Seq<char>,
    pub score: u32,
}

/// One guess: which token filled the gap.
pub struct Guess {
    pub gap_id: u32,
    pub token: Seq<char>,
}

/// What a lobby tells its subscribers.
pub enum Event {
    UserJoined(Player),
    GapClaimed(u32),
    GapFilled(u32),
    ChangeView(Phase),
    StartGuessing(u32),
    GuessScores(Seq<Score>),
    Guessed(Seq<char>),
}

/// A joined player with their scoring state.
pub struct UserModel {
    pub name: Seq<char>,
    pub token: Seq<char>,
    pub correct_guesses: u32,
    pub guessed: bool,
}

/// One segment of the text, and the blank that may follow it.
pub struct GapModel {
    pub id: u32,
    pub text_section: Seq<char>,
    pub gap_after: bool,
    pub value: Seq<char>,
    pub filled_by: Option<Seq<char>>,
}

/// A lobby: its players, its gaps, its phase, and every event that it has
/// handed to its channel so far, oldest first.
pub struct LobbyModel {
    pub users: Seq<UserModel>,
    pub gaps: Seq<GapModel>,
    pub phase: Phase,
    pub published: Seq<Event>,
}

/// The content that is stored for `content`: its first 140 characters.
pub open spec fn truncated(content: Seq<char>) -> Seq<char> {
    if content.len() > FILL_LIMIT {
        content.take(FILL_LIMIT as int)
    } else {
        content
    }
}

impl UserModel {
    /// A player who has just joined.
    pub open spec fn joined(name: Seq<char>, token: Seq<char>) -> UserModel {
        UserModel { name, token, correct_guesses: 0, guessed: false }
    }

    pub open spec fn player(self) -> Player {
        Player { name: self.name, token: self.token }
    }

    pub open spec fn score(self) -> Score {
        Score { name: self.name, token: self.token, score: self.correct_guesses }
    }
}

impl GapModel {
    /// A gap as a new lobby holds it.
    pub open spec fn blank(id: u32, text_section: Seq<char>, gap_after: bool) -> GapModel {
        GapModel { id, text_section, gap_after, value: Seq::empty(), filled_by: None }
    }

    /// Content is stored only for a claimed gap, and never more than 140 characters.
    pub open spec fn wf(self) -> bool {
        &&& self.value.len() <= FILL_LIMIT
        &&& self.filled_by is None ==> self.value.len() == 0
    }

    /// Claimed, and filled with something.
    pub open spec fn is_complete(self) -> bool {
        self.filled_by is Some && self.value.len() > 0
    }

    /// The gap once `token` has claimed it.
    pub open spec fn claimed(self, token: Seq<char>) -> GapModel {
        GapModel { filled_by: Some(token), ..self }
    }

    /// The gap once its claimant has written `content` into it.
    pub open spec fn filled(self, content: Seq<char>) -> GapModel {
        GapModel { value: truncated(content), ..self }
    }

    /// Whether a guess that names `token` for this gap is right.
    pub open spec fn is_by(self, token: Seq<char>) -> bool {
        self.gap_after && self.filled_by == Some(token)
    }
}

impl Event {
    /// The tag by which clients tell the kinds of event apart.
    pub open spec fn kind(self) -> Seq<char> {
        match self {
            Event::UserJoined(_) => "user_joined"@,
            Event::GapClaimed(_) => "gap_claimed"@,
            Event::GapFilled(_) => "gap_filled"@,
            Event::ChangeView(_) => "change_view"@,
            Event::StartGuessing(_) => "start_guessing"@,
            Event::GuessScores(_) => "guess_scores"@,
            Event::Guessed(_) => "guessed"@,
        }
    }

    pub open spec fn is_change_view(self) -> bool {
        self is ChangeView
    }

    pub open spec fn is_start_guessing(self) -> bool {
        self is StartGuessing
    }

    pub open spec fn is_guess_scores(self) -> bool {
        self is GuessScores
    }
}

/// How often the log announces the start of the fill phase.
pub open spec fn change_views(log: Seq<Event>) -> nat {
    log.filter(|e: Event| e.is_change_view()).len()
}

/// How often the log announces the start of the guessing.
pub open spec fn start_guessings(log: Seq<Event>) -> nat {
    log.filter(|e: Event| e.is_start_guessing()).len()
}

/// How often the log announces the final scores.
pub open spec fn guess_scores(log: Seq<Event>) -> nat {
    log.filter(|e: Event| e.is_guess_scores()).len()
}

/// The number of guesses that name the claimant of a blank gap.
pub open spec fn tally(gaps: Seq<GapModel>, guesses: Seq<Guess>) -> nat {
    guesses.filter(
        |g: Guess| g.gap_id < gaps.len() && gaps[g.gap_id as int].is_by(g.token),
    ).len()
}

impl LobbyModel {
    /// The lobby that a template with these segments starts as: one gap for
    /// each segment, in order, with a blank after each but the last.
    pub open spec fn fresh(segments: Seq<Seq<char>>) -> LobbyModel {
        LobbyModel {
            users: Seq::empty(),
            gaps: Seq::new(
                segments.len(),
                |i: int| GapModel::blank(i as u32, segments[i], i + 1 != segments.len()),
            ),
            phase: Phase::Waiting,
            published: Seq::empty(),
        }
    }

    /// Every gap that has a blank after it is claimed and filled.
    pub open spec fn all_filled(self) -> bool {
        forall|i: int|
            0 <= i < self.gaps.len() && (#[trigger] self.gaps[i]).gap_after
                ==> self.gaps[i].is_complete()
    }

    /// Every player has submitted guesses.
    pub open spec fn all_guessed(self) -> bool {
        forall|j: int| 0 <= j < self.users.len() ==> (#[trigger] self.users[j]).guessed
    }

    /// The players, in the order in which they joined.
    pub open spec fn roster(self) -> Seq<Player> {
        self.users.map_values(|u: UserModel| u.player())
    }

    /// The players but those with `token`, in the order in which they joined.
    pub open spec fn others(self, token: Seq<char>) -> Seq<Player> {
        self.users.filter(|u: UserModel| u.token != token).map_values(|u: UserModel| u.player())
    }

    /// Each player's result, in the order in which they joined.
    pub open spec fn scores(self) -> Seq<Score> {
        self.users.map_values(|u: UserModel| u.score())
    }

    /// Whether `i` is the place of the first player with `token`.
    pub open spec fn is_first(self, token: Seq<char>, i: int) -> bool {
        &&& 0 <= i < self.users.len()
        &&& self.users[i].token == token
        &&& forall|j: int| 0 <= j < i ==> (#[trigger] self.users[j]).token != token
    }

    /// Whether a player with `token` has joined.
    pub open spec fn knows(self, token: Seq<char>) -> bool {
        exists|i: int| 0 <= i < self.users.len() && (#[trigger] self.users[i]).token == token
    }

    /// The place of the first player with `token`.
    pub open spec fn position(self, token: Seq<char>) -> int {
        choose|i: int| self.is_first(token, i)
    }

    /// Whether a player with this name and this token has joined.
    pub open spec fn knows_player(self, player: Player) -> bool {
        exists|i: int| 0 <= i < self.users.len() && (#[trigger] self.users[i]).player() == player
    }

    /// How many players have `token`.
    pub open spec fn holders(self, token: Seq<char>) -> nat {
        self.users.filter(|u: UserModel| u.token == token).len()
    }

    /// What holds of every lobby that the operations can reach.
    pub open spec fn wf(self) -> bool {
        &&& 0 < self.gaps.len() <= u32::MAX
        &&& forall|i: int|
            0 <= i < self.gaps.len() ==> {
                &&& (#[trigger] self.gaps[i]).id == i
                &&& self.gaps[i].gap_after == (i + 1 != self.gaps.len())
                &&& self.gaps[i].wf()
            }
        &&& self.phase == Phase::Waiting ==> forall|i: int|
            0 <= i < self.gaps.len() ==> (#[trigger] self.gaps[i]).filled_by is None
        &&& self.phase.rank() >= 2 ==> self.all_filled()
        &&& self.phase.rank() <= 1 ==> forall|j: int|
            0 <= j < self.users.len() ==> !(#[trigger] self.users[j]).guessed
        &&& forall|j: int|
            0 <= j < self.users.len() && !(#[trigger] self.users[j]).guessed
                ==> self.users[j].correct_guesses == 0
        &&& self.phase == Phase::Ranking ==> self.all_guessed() && self.users.len() > 0
        &&& change_views(self.published) == (if self.phase.rank() >= 1 { 1nat } else { 0nat })
        &&& start_guessings(self.published) == (if self.phase.rank() >= 2 { 1nat } else { 0nat })
        &&& guess_scores(self.published) == (if self.phase.rank() >= 3 { 1nat } else { 0nat })
    }

    /// The lobby with one more event in its log.
    pub open spec fn with_event(self, event: Event) -> LobbyModel {
        LobbyModel { published: self.published.push(event), ..self }
    }

    // ---- join ----

    /// Why a join is refused, if it is.
    pub open spec fn join_error(self) -> Option<GameError> {
        if self.phase != Phase::Waiting {
            Some(GameError::InvalidPhase)
        } else {
            None
        }
    }

    /// The lobby once a player has been added.
    pub open spec fn with_user(self, name: Seq<char>, token: Seq<char>) -> LobbyModel {
        LobbyModel { users: self.users.push(UserModel::joined(name, token)), ..self }
    }

    // ---- start of the fill phase ----

    /// Why the fill phase cannot be started, if it cannot.
    pub open spec fn start_fill_error(self) -> Option<GameError> {
        if self.phase != Phase::Waiting {
            Some(GameError::InvalidPhase)
        } else {
            None
        }
    }

    /// The lobby once the fill phase has been started.
    pub open spec fn after_start_fill(self) -> LobbyModel {
        LobbyModel { phase: Phase::Fill, ..self }.with_event(Event::ChangeView(Phase::Fill))
    }

    // ---- claim ----

    /// Why a claim of gap `gap_id` is refused, if it is.
    pub open spec fn claim_error(self, gap_id: u32) -> Option<GameError> {
        if self.phase != Phase::Fill {
            Some(GameError::InvalidPhase)
        } else if gap_id >= self.gaps.len() {
            Some(GameError::NotFound)
        } else if self.gaps[gap_id as int].filled_by is Some {
            Some(GameError::AlreadyClaimed)
        } else {
            None
        }
    }

    /// The lobby once `token` has claimed gap `gap_id`.
    pub open spec fn after_claim(self, gap_id: u32, token: Seq<char>) -> LobbyModel {
        LobbyModel {
            gaps: self.gaps.update(gap_id as int, self.gaps[gap_id as int].claimed(token)),
            ..self
        }.with_event(Event::GapClaimed(gap_id))
    }

    // ---- fill ----

    /// Why `token` may not fill gap `gap_id`, if it may not.
    pub open spec fn fill_error(self, gap_id: u32, token: Seq<char>) -> Option<GameError> {
        if self.phase != Phase::Fill {
            Some(GameError::InvalidPhase)
        } else if gap_id >= self.gaps.len() {
            Some(GameError::NotFound)
        } else if self.gaps[gap_id as int].filled_by is None {
            Some(GameError::NotClaimed)
        } else if self.gaps[gap_id as int].filled_by != Some(token) {
            Some(GameError::WrongClaimant)
        } else {
            None
        }
    }

    /// The lobby once `content` has been written into gap `gap_id`, before
    /// the phase is looked at.
    pub open spec fn written(self, gap_id: u32, content: Seq<char>) -> LobbyModel {
        LobbyModel {
            gaps: self.gaps.update(gap_id as int, self.gaps[gap_id as int].filled(content)),
            ..self
        }.with_event(Event::GapFilled(gap_id))
    }

    /// The lobby once the guessing has begun.
    pub open spec fn guessing(self) -> LobbyModel {
        LobbyModel { phase: Phase::Guess, ..self }.with_event(
            Event::StartGuessing(GUESS_COUNTDOWN),
        )
    }

    /// The lobby after a fill: the content is written, and the guessing
    /// begins if and only if no blank is left open.
    pub open spec fn after_fill(self, gap_id: u32, content: Seq<char>) -> LobbyModel {
        let written = self.written(gap_id, content);
        if written.all_filled() {
            written.guessing()
        } else {
            written
        }
    }

    // ---- guess ----

    /// Why guesses of `token` are refused, if they are.
    pub open spec fn guess_error(self, token: Seq<char>) -> Option<GameError> {
        if self.phase != Phase::Guess {
            Some(GameError::InvalidPhase)
        } else if !self.knows(token) {
            Some(GameError::UserNotFound)
        } else {
            None
        }
    }

    /// The lobby once the guesses of `token` have been counted.
    pub open spec fn recorded(self, token: Seq<char>, guesses: Seq<Guess>) -> LobbyModel {
        let at = self.position(token);
        LobbyModel {
            users: self.users.update(
                at,
                UserModel {
                    correct_guesses: tally(self.gaps, guesses) as u32,
                    guessed: true,
                    ..self.users[at]
                },
            ),
            ..self
        }
    }

    /// The lobby once the ranking is shown.
    pub open spec fn ranked(self) -> LobbyModel {
        LobbyModel { phase: Phase::Ranking, ..self }.with_event(Event::GuessScores(self.scores()))
    }

    /// The lobby after a submission of guesses: they are counted, and the
    /// ranking is shown if and only if no player is left to guess.
    pub open spec fn after_guess(self, token: Seq<char>, guesses: Seq<Guess>) -> LobbyModel {
        let recorded = self.recorded(token, guesses);
        if recorded.all_guessed() {
            recorded.ranked()
        } else {
            recorded
        }
    }
}

} // verus!
