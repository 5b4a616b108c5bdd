use vstd::prelude::*;
use crate::model::{Guess, Player, Score};
use crate::ws_dto::GuessScore;

verus! {
/// A game template: a name, and the segments of its text in order.
#[derive(Clone, Debug, PartialEq, Eq)]
pub struct GameDTO {
    pub name: String,
    pub text_section: Vec<String>,
}

/// What a `GameDTO` holds.
pub struct GameDTOView {
    pub name: Seq<char>,
    pub text_section: Seq<Seq<char>>,
}

impl View for GameDTO {
    type V = GameDTOView;

    open spec fn view(&self) -> GameDTOView {
        GameDTOView {
            name: self.name@,
            text_section: self.text_section.deep_view(),
        }
    }
}

/// Whether a template that exists may be replaced.
#[derive(Clone, Debug, PartialEq, Eq)]
pub struct Override {
    pub force: Option<bool>,
}

/// The plain answer: whether the request succeeded, and a message if there is one.
#[derive(Clone, Debug, PartialEq, Eq)]
pub struct BaseResponse {
    pub success: bool,
    pub message: Option<String>,
}

/// What a `BaseResponse` holds.
pub struct BaseResponseView {
    pub success: bool,
    pub message: Option<Seq<char>>,
}

impl View for BaseResponse {
    type V = BaseResponseView;

    open spec fn view(&self) -> BaseResponseView {
        BaseResponseView {
            success: self.success,
            message: self.message.deep_view(),
        }
    }
}

/// The answer to a player who comes back after the game: the final ranking.
#[derive(Clone, Debug, PartialEq, Eq)]
pub struct EndGameResponse {
    pub success: bool,
    pub view: String,
    pub value: Vec<GuessScore>,
}

/// What a `EndGameResponse` holds.
pub struct EndGameResponseView {
    pub success: bool,
    pub view: Seq<char>,
    pub value: Seq<Score>,
}

impl View for EndGameResponse {
    type V = EndGameResponseView;

    open spec fn view(&self) -> EndGameResponseView {
        EndGameResponseView {
            success: self.success,
            view: self.view@,
            value: self.value.deep_view(),
        }
    }
}

/// A single name: a template's, or a lobby's code.
#[derive(Clone, Debug, PartialEq, Eq)]
pub struct BaseStringDTO {
    pub name: String,
}

/// A player as others see them.
#[derive(Clone, Debug, PartialEq, Eq)]
pub struct UserDTO {
    pub name: String,
    pub token: String,
}

impl View for UserDTO {
    type V = Player;

    open spec fn view(&self) -> Player {
        Player {
            name: self.name@,
            token: self.token@,
        }
    }
}

impl DeepView for UserDTO {
    type V = Player;

    open spec fn deep_view(&self) -> Player {
        self@
    }
}

/// A gap as a joining player sees it: without claimant and content.
#[derive(Clone, Debug, PartialEq, Eq)]
pub struct PreGapTextDTO {
    pub id: u32,
    pub text: String,
    pub gap_after: bool,
}

/// What a `PreGapTextDTO` holds.
pub struct PreGapTextView {
    pub id: u32,
    pub text: Seq<char>,
    pub gap_after: bool,
}

impl View for PreGapTextDTO {
    type V = PreGapTextView;

    open spec fn view(&self) -> PreGapTextView {
        PreGapTextView {
            id: self.id,
            text: self.text@,
            gap_after: self.gap_after,
        }
    }
}

impl DeepView for PreGapTextDTO {
    type V = PreGapTextView;

    open spec fn deep_view(&self) -> PreGapTextView {
        self@
    }
}

/// The answer to a join: the gaps, and the players that were there before.
#[derive(Clone, Debug, PartialEq, Eq)]
pub struct JoinResponse {
    pub success: bool,
    pub pre_gaps_text: Vec<PreGapTextDTO>,
    pub current_users: Vec<UserDTO>,
}

/// What a `JoinResponse` holds.
pub struct JoinResponseView {
    pub success: bool,
    pub pre_gaps_text: Seq<PreGapTextView>,
    pub current_users: Seq<Player>,
}

impl View for JoinResponse {
    type V = JoinResponseView;

    open spec fn view(&self) -> JoinResponseView {
        JoinResponseView {
            success: self.success,
            pre_gaps_text: self.pre_gaps_text.deep_view(),
            current_users: self.current_users.deep_view(),
        }
    }
}

/// A gap as a returning player sees it.
#[derive(Clone, Debug, PartialEq, Eq)]
pub struct CurrentGapTextDTO {
    pub id: u32,
    pub text: String,
    pub gap_after: bool,
    pub claimed: bool,
    pub filled: bool,
    pub gap_value: Option<String>,
    pub filled_by_current_user: bool,
}

/// What a `CurrentGapTextDTO` holds.
pub struct CurrentGapTextView {
    pub id: u32,
    pub text: Seq<char>,
    pub gap_after: bool,
    pub claimed: bool,
    pub filled: bool,
    pub gap_value: Option<Seq<char>>,
    pub filled_by_current_user: bool,
}

impl View for CurrentGapTextDTO {
    type V = CurrentGapTextView;

    open spec fn view(&self) -> CurrentGapTextView {
        CurrentGapTextView {
            id: self.id,
            text: self.text@,
            gap_after: self.gap_after,
            claimed: self.claimed,
            filled: self.filled,
            gap_value: self.gap_value.deep_view(),
            filled_by_current_user: self.filled_by_current_user,
        }
    }
}

impl DeepView for CurrentGapTextDTO {
    type V = CurrentGapTextView;

    open spec fn deep_view(&self) -> CurrentGapTextView {
        self@
    }
}

/// The answer to a player who comes back during the game: where it stands.
#[derive(Clone, Debug, PartialEq, Eq)]
pub struct RejoinResponseDTO {
    pub success: bool,
    pub current_gap_text: Vec<CurrentGapTextDTO>,
    pub view: String,
    pub users: Vec<UserDTO>,
}

/// What a `RejoinResponseDTO` holds.
pub struct RejoinResponseView {
    pub success: bool,
    pub current_gap_text: Seq<CurrentGapTextView>,
    pub view: Seq<char>,
    pub users: Seq<Player>,
}

impl View for RejoinResponseDTO {
    type V = RejoinResponseView;

    open spec fn view(&self) -> RejoinResponseView {
        RejoinResponseView {
            success: self.success,
            current_gap_text: self.current_gap_text.deep_view(),
            view: self.view@,
            users: self.users.deep_view(),
        }
    }
}

/// A request to claim a gap for a token.
#[derive(Clone, Debug, PartialEq, Eq)]
pub struct GapClaimDTO {
    pub gap_id: u32,
    pub token: String,
}

/// A request to write content into a gap that the token has claimed.
#[derive(Clone, Debug, PartialEq, Eq)]
pub struct GapFillDTO {
    pub gap_id: u32,
    pub token: String,
    pub content: String,
}

/// What was written into a gap, without its author.
#[derive(Clone, Debug, PartialEq, Eq)]
pub struct GapFilledDTO {
    pub gap_id: u32,
    pub value: String,
}

/// What a `GapFilledDTO` holds.
pub struct GapFilledView {
    pub gap_id: u32,
    pub value: Seq<char>,
}

impl View for GapFilledDTO {
    type V = GapFilledView;

    open spec fn view(&self) -> GapFilledView {
        GapFilledView {
            gap_id: self.gap_id,
            value: self.value@,
        }
    }
}

impl DeepView for GapFilledDTO {
    type V = GapFilledView;

    open spec fn deep_view(&self) -> GapFilledView {
        self@
    }
}

/// What the players guess on: the content of every blank, and the players.
#[derive(Clone, Debug, PartialEq, Eq)]
pub struct PreGuessingDTO {
    pub success: bool,
    pub gaps: Vec<GapFilledDTO>,
    pub users: Vec<UserDTO>,
}

/// What a `PreGuessingDTO` holds.
pub struct PreGuessingView {
    pub success: bool,
    pub gaps: Seq<GapFilledView>,
    pub users: Seq<Player>,
}

impl View for PreGuessingDTO {
    type V = PreGuessingView;

    open spec fn view(&self) -> PreGuessingView {
        PreGuessingView {
            success: self.success,
            gaps: self.gaps.deep_view(),
            users: self.users.deep_view(),
        }
    }
}

/// One guess: the token that is thought to have filled the gap.
#[derive(Clone, Debug, PartialEq, Eq)]
pub struct GuessDTO {
    pub gap_id: u32,
    pub token: String,
}

impl View for GuessDTO {
    type V = Guess;

    open spec fn view(&self) -> Guess {
        Guess {
            gap_id: self.gap_id,
            token: self.token@,
        }
    }
}

impl DeepView for GuessDTO {
    type V = Guess;

    open spec fn deep_view(&self) -> Guess {
        self@
    }
}

/// The guesses of the player with `token`.
#[derive(Clone, Debug, PartialEq, Eq)]
pub struct GuessesDTO {
    pub token: String,
    pub guesses: Vec<GuessDTO>,
}

} // verus!
