use vstd::prelude::*;
use vstd::string::StrSliceExecFns;
use crate::error::GameError;
use crate::lemmas::lemma_fresh_wf;
use crate::model::{truncated, GapModel, LobbyModel, UserModel, FILL_LIMIT};
use crate::notify::Notifier;
use crate::phase::Phase;

verus! {

/// A joined player.
pub struct User {
    pub(crate) name: String,
    pub(crate) token: String,
    pub(crate) correct_guesses: u32,
    pub(crate) guessed: bool,
}

impl View for User {
    type V = UserModel;

    open(crate) spec fn view(&self) -> UserModel {
        UserModel {
            name: self.name@,
            token: self.token@,
            correct_guesses: self.correct_guesses,
            guessed: self.guessed,
        }
    }
}

impl DeepView for User {
    type V = UserModel;

    open spec fn deep_view(&self) -> UserModel {
        self@
    }
}

impl User {
    /// A player who has just joined: no guesses yet, and a score of zero.
    pub fn new(name: String, token: String) -> (user: User)
        ensures
            user@ == UserModel::joined(name@, token@),
    {
        User { name, token, correct_guesses: 0, guessed: false }
    }

    /// The display name.
    pub fn name(&self) -> (name: &String)
        ensures
            name@ == self@.name,
    {
        &self.name
    }

    /// The token that identifies the player.
    pub fn token(&self) -> (token: &String)
        ensures
            token@ == self@.token,
    {
        &self.token
    }

    /// The number of right guesses in the player's last submission.
    pub fn correct_guesses(&self) -> (count: u32)
        ensures
            count == self@.correct_guesses,
    {
        self.correct_guesses
    }

    /// Whether the player has submitted guesses.
    pub fn guessed(&self) -> (guessed: bool)
        ensures
            guessed == self@.guessed,
    {
        self.guessed
    }
}

/// One segment of a lobby's text, with the blank that may follow it.
pub struct Gap {
    pub(crate) id: u32,
    pub(crate) text_section: String,
    pub(crate) gap_after: bool,
    pub(crate) value: String,
    pub(crate) filled_by: Option<String>,
}

impl View for Gap {
    type V = GapModel;

    open(crate) spec fn view(&self) -> GapModel {
        GapModel {
            id: self.id,
            text_section: self.text_section@,
            gap_after: self.gap_after,
            value: self.value@,
            filled_by: match self.filled_by {
                Some(token) => Some(token@),
                None => None,
            },
        }
    }
}

impl DeepView for Gap {
    type V = GapModel;

    open spec fn deep_view(&self) -> GapModel {
        self@
    }
}

/// The first 140 characters of `content`, or all of it if it has no more.
pub fn truncate(content: &String) -> (stored: String)
    ensures
        stored@ == truncated(content@),
{
    let text = content.as_str();
    if text.unicode_len() > FILL_LIMIT {
        text.substring_char(0, FILL_LIMIT).to_owned()
    } else {
        content.clone()
    }
}

impl Gap {
    /// An unclaimed, empty gap.
    pub fn new(id: u32, text_section: String, gap_after: bool) -> (gap: Gap)
        ensures
            gap@ == GapModel::blank(id, text_section@, gap_after),
            gap@.wf(),
    {
        Gap { id, text_section, gap_after, value: String::new(), filled_by: None }
    }

    /// The gap's place in the text, counted from zero.
    pub fn id(&self) -> (id: u32)
        ensures
            id == self@.id,
    {
        self.id
    }

    /// The text before the blank.
    pub fn text_section(&self) -> (text: &String)
        ensures
            text@ == self@.text_section,
    {
        &self.text_section
    }

    /// Whether a blank follows the text.
    pub fn gap_after(&self) -> (blank: bool)
        ensures
            blank == self@.gap_after,
    {
        self.gap_after
    }

    /// What was written into the gap; empty until it is filled.
    pub fn value(&self) -> (value: &String)
        ensures
            value@ == self@.value,
    {
        &self.value
    }

    /// The token that claimed the gap, if one did.
    pub fn filled_by(&self) -> (claimant: Option<&String>)
        ensures
            match claimant {
                Some(token) => self@.filled_by == Some(token@),
                None => self@.filled_by is None,
            },
    {
        self.filled_by.as_ref()
    }

    /// Claims the gap for `token`. The first claim wins and stays: a gap
    /// that has a claimant refuses every further claim and is left as it was.
    pub fn claim(&mut self, token: String) -> (r: Result<(), GameError>)
        ensures
            old(self)@.wf() ==> final(self)@.wf(),
            old(self)@.filled_by is Some ==> r == Err::<(), GameError>(GameError::AlreadyClaimed)
                && final(self)@ == old(self)@,
            old(self)@.filled_by is None ==> r == Ok::<(), GameError>(()) && final(self)@ == old(
                self,
            )@.claimed(token@),
    {
        if self.filled_by.is_some() {
            return Err(GameError::AlreadyClaimed);
        }
        self.filled_by = Some(token);
        Ok(())
    }

    /// Writes `content`, cut to 140 characters, into the gap, if `token` is
    /// its claimant. Otherwise the gap is left as it was.
    pub fn fill(&mut self, token: &String, content: &String) -> (r: Result<(), GameError>)
        ensures
            old(self)@.filled_by is None ==> r == Err::<(), GameError>(GameError::NotClaimed),
            old(self)@.filled_by is Some && old(self)@.filled_by != Some(token@) ==> r == Err::<
                (),
                GameError,
            >(GameError::WrongClaimant),
            old(self)@.filled_by == Some(token@) ==> r == Ok::<(), GameError>(()),
            r is Err ==> final(self)@ == old(self)@,
            r is Ok ==> final(self)@ == old(self)@.filled(content@),
            old(self)@.wf() ==> final(self)@.wf(),
    {
        match &self.filled_by {
            None => {
                return Err(GameError::NotClaimed);
            },
            Some(claimant) => {
                if *claimant != *token {
                    return Err(GameError::WrongClaimant);
                }
            },
        }
        self.value = truncate(content);
        Ok(())
    }

    /// Whether the gap is claimed and has content.
    pub fn is_complete(&self) -> (r: bool)
        ensures
            r == self@.is_complete(),
    {
        self.filled_by.is_some() && !self.value.as_str().is_empty()
    }

    /// Whether a guess that names `token` for this gap is right: the gap has
    /// a blank after it, and `token` claimed it.
    pub fn is_by(&self, token: &String) -> (r: bool)
        ensures
            r == self@.is_by(token@),
    {
        if !self.gap_after {
            return false;
        }
        match &self.filled_by {
            Some(claimant) => *claimant == *token,
            None => false,
        }
    }
}

/// What a lobby's players share: the channel on which they are notified,
/// the gaps of the text, and the phase that the game is in.
pub struct GameState {
    pub(crate) tx: Notifier,
    pub(crate) gaps: Vec<Gap>,
    pub(crate) view: Phase,
}

/// One play session: its players, in the order in which they joined, and
/// the state of their game.
pub struct Lobby {
    pub(crate) users: Vec<User>,
    pub(crate) game: GameState,
}

impl View for Lobby {
    type V = LobbyModel;

    open(crate) spec fn view(&self) -> LobbyModel {
        LobbyModel {
            users: self.users.deep_view(),
            gaps: self.game.gaps.deep_view(),
            phase: self.game.view,
            published: self.game.tx.history(),
        }
    }
}

impl Lobby {
    /// What holds of every lobby that `new` and the operations produce.
    pub open spec fn wf(&self) -> bool {
        self@.wf()
    }

    /// The players, in the order in which they joined.
    pub fn users(&self) -> (users: &Vec<User>)
        ensures
            users.deep_view() == self@.users,
    {
        &self.users
    }

    /// The gaps, in the order of the text.
    pub fn gaps(&self) -> (gaps: &Vec<Gap>)
        ensures
            gaps.deep_view() == self@.gaps,
    {
        &self.game.gaps
    }

    /// The phase that the lobby is in.
    pub fn phase(&self) -> (phase: Phase)
        ensures
            phase == self@.phase,
    {
        self.game.view
    }

    /// A lobby in the waiting phase, without players, with one gap for each
    /// of the segments, in their order. Every gap has a blank after it but
    /// the last.
    pub fn new(gaps: Vec<String>) -> (lobby: Lobby)
        requires
            0 < gaps.len() <= u32::MAX,
        ensures
            lobby@ == LobbyModel::fresh(gaps.deep_view()),
            lobby.wf(),
    {
        let count = gaps.len();
        let mut built: Vec<Gap> = Vec::new();
        let mut i: usize = 0;
        while i < count
            invariant
                i <= count == gaps.len() <= u32::MAX,
                built.len() == i,
                forall|k: int|
                    0 <= k < i ==> (#[trigger] built[k])@ == GapModel::blank(
                        k as u32,
                        gaps[k]@,
                        k + 1 != count,
                    ),
            decreases count - i,
        {
            built.push(Gap::new(i as u32, gaps[i].clone(), i + 1 != count));
            i += 1;
        }
        let lobby = Lobby {
            users: Vec::new(),
            game: GameState { tx: Notifier::new(), gaps: built, view: Phase::Waiting },
        };
        proof {
            let segments = gaps.deep_view();
            assert(lobby@.gaps =~= LobbyModel::fresh(segments).gaps);
            assert(lobby@.users =~= LobbyModel::fresh(segments).users);
            lemma_fresh_wf(segments);
        }
        lobby
    }
}

} // verus!
