use vstd::prelude::*;
use crate::dto::{
    BaseResponse, CurrentGapTextDTO, CurrentGapTextView, EndGameResponse, EndGameResponseView,
    GapClaimDTO, GapFillDTO, GapFilledDTO, GapFilledView, GuessDTO, GuessesDTO, JoinResponse,
    JoinResponseView, PreGapTextDTO, PreGapTextView, PreGuessingDTO, PreGuessingView,
    RejoinResponseDTO, RejoinResponseView, UserDTO,
};
use crate::error::GameError;
use crate::lemmas::{lemma_claim_wf, lemma_fill_wf, lemma_first_exists, lemma_first_unique, lemma_guess_wf, lemma_join_wf};
use crate::model::{
    tally, Event, GapModel, Guess, LobbyModel, Player, UserModel, GUESS_COUNTDOWN,
};
use crate::notify::Delivery;
use crate::objects::{Lobby, User};
use crate::phase::Phase;
use crate::registry::Registry;
use crate::ws_dto::{GuessScore, WSMessage};

verus! {

impl GapModel {
    /// The gap as a joining player sees it.
    pub open spec fn outline(self) -> PreGapTextView {
        PreGapTextView { id: self.id, text: self.text_section, gap_after: self.gap_after }
    }

    /// The gap as the player with `token` sees it when coming back; the
    /// content is shown only if `reveal` is set.
    pub open spec fn current(self, reveal: bool, token: Seq<char>) -> CurrentGapTextView {
        CurrentGapTextView {
            id: self.id,
            text: self.text_section,
            gap_after: self.gap_after,
            claimed: self.filled_by is Some,
            filled: self.value.len() > 0,
            gap_value: if reveal {
                Some(self.value)
            } else {
                None
            },
            filled_by_current_user: self.filled_by == Some(token),
        }
    }

    /// The gap's content, without its author.
    pub open spec fn filling(self) -> GapFilledView {
        GapFilledView { gap_id: self.id, value: self.value }
    }
}

/// What a returning player is told.
#[derive(Clone, Debug, PartialEq, Eq)]
pub enum RejoinResponse {
    /// The game is over: the final ranking.
    Finished(EndGameResponse),
    /// The game is on: where it stands.
    Running(RejoinResponseDTO),
}

/// What a `RejoinResponse` holds.
pub enum RejoinView {
    Finished(EndGameResponseView),
    Running(RejoinResponseView),
}

impl View for RejoinResponse {
    type V = RejoinView;

    open spec fn view(&self) -> RejoinView {
        match self {
            RejoinResponse::Finished(end) => RejoinView::Finished(end@),
            RejoinResponse::Running(state) => RejoinView::Running(state@),
        }
    }
}

impl LobbyModel {
    /// The final ranking, as a returning player is told it.
    pub open spec fn final_scores(self) -> EndGameResponseView {
        EndGameResponseView { success: true, view: Phase::Ranking.label(), value: self.scores() }
    }

    /// Where the game stands, as the player with `token` is told it. The
    /// gaps' content is shown only once the fill phase is over.
    pub open spec fn snapshot(self, token: Seq<char>) -> RejoinResponseView {
        RejoinResponseView {
            success: true,
            current_gap_text: self.gaps.map_values(
                |g: GapModel| g.current(self.phase.rank() > 1, token),
            ),
            view: self.phase.label(),
            users: self.roster(),
        }
    }

    /// What a player is told on joining: every gap without claimant and
    /// content, and the players that joined before under another token.
    pub open spec fn join_response(self, token: Seq<char>) -> JoinResponseView {
        JoinResponseView {
            success: true,
            pre_gaps_text: self.gaps.map_values(|g: GapModel| g.outline()),
            current_users: self.others(token),
        }
    }

    /// Why the player with `token` is not told what to guess on, if so.
    pub open spec fn filled_gaps_error(self, token: Seq<char>) -> Option<GameError> {
        if self.phase != Phase::Guess {
            Some(GameError::InvalidPhase)
        } else if !self.knows(token) {
            Some(GameError::NotFound)
        } else {
            None
        }
    }

    /// What the players guess on: the content of every gap that has a blank
    /// after it, without its author, and the players.
    pub open spec fn fillings(self) -> PreGuessingView {
        PreGuessingView {
            success: true,
            gaps: self.gaps.filter(|g: GapModel| g.gap_after).map_values(
                |g: GapModel| g.filling(),
            ),
            users: self.roster(),
        }
    }

    /// What a returning player is told: the ranking once the game is over,
    /// whoever asks; before that, where the game stands, if a player with
    /// this name and token has joined.
    pub open spec fn rejoin(self, player: Player) -> Result<RejoinView, GameError> {
        if self.phase == Phase::Ranking {
            Ok(RejoinView::Finished(self.final_scores()))
        } else if !self.knows_player(player) {
            Err(GameError::UserNotFound)
        } else {
            Ok(RejoinView::Running(self.snapshot(player.token)))
        }
    }
}

impl Lobby {
    /// The players, in the order in which they joined.
    pub fn roster(&self) -> (roster: Vec<UserDTO>)
        ensures
            roster.deep_view() == self@.roster(),
    {
        let mut roster: Vec<UserDTO> = Vec::new();
        let mut i: usize = 0;
        while i < self.users.len()
            invariant
                i <= self.users.len(),
                roster.len() == i,
                forall|k: int| 0 <= k < i ==> (#[trigger] roster[k])@ == self.users[k]@.player(),
            decreases self.users.len() - i,
        {
            let user = &self.users[i];
            roster.push(UserDTO { name: user.name.clone(), token: user.token.clone() });
            i += 1;
        }
        assert(roster.deep_view() =~= self@.roster());
        roster
    }

    /// Each player's result, in the order in which they joined.
    pub fn scores(&self) -> (scores: Vec<GuessScore>)
        ensures
            scores.deep_view() == self@.scores(),
    {
        let mut scores: Vec<GuessScore> = Vec::new();
        let mut i: usize = 0;
        while i < self.users.len()
            invariant
                i <= self.users.len(),
                scores.len() == i,
                forall|k: int| 0 <= k < i ==> (#[trigger] scores[k])@ == self.users[k]@.score(),
            decreases self.users.len() - i,
        {
            let user = &self.users[i];
            scores.push(
                GuessScore {
                    name: user.name.clone(),
                    token: user.token.clone(),
                    score: user.correct_guesses,
                },
            );
            i += 1;
        }
        assert(scores.deep_view() =~= self@.scores());
        scores
    }

    /// Whether a player with this name and this token has joined.
    pub fn has_player(&self, player: &UserDTO) -> (known: bool)
        ensures
            known == self@.knows_player(player@),
    {
        let mut i: usize = 0;
        while i < self.users.len()
            invariant
                i <= self.users.len(),
                forall|k: int| 0 <= k < i ==> (#[trigger] self@.users[k]).player() != player@,
            decreases self.users.len() - i,
        {
            let user = &self.users[i];
            if user.token == player.token && user.name == player.name {
                assert(self@.users[i as int].player() == player@);
                return true;
            }
            i += 1;
        }
        false
    }

    /// What a returning player is told. Once the game is over that is the
    /// final ranking, whoever asks and however often. Before that it is the
    /// state of the game, for a player who has joined under this name and
    /// token: every gap with its claim and fill flags, the content only once
    /// the fill phase is over, and whether the caller claimed it; the
    /// players; and the phase.
    pub fn rejoin(&self, payload: &UserDTO) -> (r: Result<RejoinResponse, GameError>)
        ensures
            match r {
                Ok(response) => self@.rejoin(payload@) == Ok::<RejoinView, GameError>(response@),
                Err(e) => self@.rejoin(payload@) == Err::<RejoinView, GameError>(e),
            },
    {
        if self.game.view == Phase::Ranking {
            return Ok(
                RejoinResponse::Finished(
                    EndGameResponse {
                        success: true,
                        view: Phase::Ranking.name(),
                        value: self.scores(),
                    },
                ),
            );
        }
        if !self.has_player(payload) {
            return Err(GameError::UserNotFound);
        }
        let reveal = self.game.view.is_past(Phase::Fill);
        let mut gaps: Vec<CurrentGapTextDTO> = Vec::new();
        let mut i: usize = 0;
        while i < self.game.gaps.len()
            invariant
                i <= self.game.gaps.len(),
                gaps.len() == i,
                reveal == (self@.phase.rank() > 1),
                forall|k: int|
                    0 <= k < i ==> (#[trigger] gaps[k])@ == self.game.gaps[k]@.current(
                        reveal,
                        payload@.token,
                    ),
            decreases self.game.gaps.len() - i,
        {
            let gap = &self.game.gaps[i];
            let filled_by_current_user = match &gap.filled_by {
                Some(claimant) => *claimant == payload.token,
                None => false,
            };
            let gap_value = if reveal {
                Some(gap.value.clone())
            } else {
                None
            };
            gaps.push(
                CurrentGapTextDTO {
                    id: gap.id,
                    text: gap.text_section.clone(),
                    gap_after: gap.gap_after,
                    claimed: gap.filled_by.is_some(),
                    filled: !gap.value.as_str().is_empty(),
                    gap_value,
                    filled_by_current_user,
                },
            );
            i += 1;
        }
        let state = RejoinResponseDTO {
            success: true,
            current_gap_text: gaps,
            view: self.game.view.name(),
            users: self.roster(),
        };
        assert(state@.current_gap_text =~= self@.snapshot(payload@.token).current_gap_text);
        Ok(RejoinResponse::Running(state))
    }
}

impl BaseResponse {
    /// The answer to a request that was carried out.
    pub fn ok() -> (response: BaseResponse)
        ensures
            response.success,
            response.message is None,
    {
        BaseResponse { success: true, message: None }
    }

    /// The answer to a request that was refused with `error`: the error in words.
    pub fn failure(error: GameError) -> (response: BaseResponse)
        ensures
            !response.success,
            response.message matches Some(message) && message@ == error.words(),
    {
        BaseResponse { success: false, message: Some(error.message()) }
    }
}

impl Lobby {
    /// Claims gap `gap_id` for `token`. A claim is taken in the fill phase,
    /// for a gap that the lobby has and that nobody has claimed; it is then
    /// announced as "gap claimed". A claim that is refused changes nothing.
    pub fn claim(&mut self, payload: &GapClaimDTO) -> (r: Result<BaseResponse, GameError>)
        requires
            old(self).wf(),
        ensures
            final(self).wf(),
            match r {
                Ok(response) => {
                    &&& old(self)@.claim_error(payload.gap_id) is None
                    &&& final(self)@ == old(self)@.after_claim(payload.gap_id, payload.token@)
                    &&& response.success
                    &&& response.message is None
                },
                Err(e) => {
                    &&& old(self)@.claim_error(payload.gap_id) == Some(e)
                    &&& final(self)@ == old(self)@
                },
            },
    {
        if self.game.view != Phase::Fill {
            return Err(GameError::InvalidPhase);
        }
        let index = payload.gap_id as usize;
        if index >= self.game.gaps.len() {
            return Err(GameError::NotFound);
        }
        match self.game.gaps[index].claim(payload.token.clone()) {
            Err(e) => {
                assert(self@.gaps =~= old(self)@.gaps);
                assert(self@.users =~= old(self)@.users);
                return Err(e);
            },
            Ok(()) => {},
        }
        self.game.tx.publish(WSMessage::gap_claimed(payload.gap_id));
        proof {
            let before = old(self)@;
            let after = before.after_claim(payload.gap_id, payload.token@);
            assert(self@.gaps =~= after.gaps);
            assert(self@.users =~= after.users);
            lemma_claim_wf(before, payload.gap_id, payload.token@);
        }
        Ok(BaseResponse::ok())
    }

    /// Whether every gap with a blank after it is claimed and filled.
    pub fn all_filled(&self) -> (r: bool)
        ensures
            r == self@.all_filled(),
    {
        let mut i: usize = 0;
        while i < self.game.gaps.len()
            invariant
                i <= self.game.gaps.len(),
                forall|k: int|
                    0 <= k < i && (#[trigger] self@.gaps[k]).gap_after
                        ==> self@.gaps[k].is_complete(),
            decreases self.game.gaps.len() - i,
        {
            let gap = &self.game.gaps[i];
            if gap.gap_after && !gap.is_complete() {
                assert(self@.gaps[i as int].gap_after && !self@.gaps[i as int].is_complete());
                return false;
            }
            i += 1;
        }
        true
    }

    /// Writes `content`, cut to 140 characters, into gap `gap_id`. A fill is
    /// taken in the fill phase, for a gap that the lobby has, from the token
    /// that claimed it; it is then announced as "gap filled", without the
    /// content. If after it every gap with a blank is claimed and filled,
    /// the lobby enters the guess phase and announces "start guessing" with
    /// the countdown, and otherwise it does neither. A fill that is refused
    /// changes nothing.
    pub fn fill(&mut self, payload: &GapFillDTO) -> (r: Result<BaseResponse, GameError>)
        requires
            old(self).wf(),
        ensures
            final(self).wf(),
            match r {
                Ok(response) => {
                    &&& old(self)@.fill_error(payload.gap_id, payload.token@) is None
                    &&& final(self)@ == old(self)@.after_fill(payload.gap_id, payload.content@)
                    &&& response.success
                    &&& response.message is None
                },
                Err(e) => {
                    &&& old(self)@.fill_error(payload.gap_id, payload.token@) == Some(e)
                    &&& final(self)@ == old(self)@
                },
            },
    {
        if self.game.view != Phase::Fill {
            return Err(GameError::InvalidPhase);
        }
        let index = payload.gap_id as usize;
        if index >= self.game.gaps.len() {
            return Err(GameError::NotFound);
        }
        match self.game.gaps[index].fill(&payload.token, &payload.content) {
            Err(e) => {
                assert(self@.gaps =~= old(self)@.gaps);
                assert(self@.users =~= old(self)@.users);
                return Err(e);
            },
            Ok(()) => {},
        }
        self.game.tx.publish(WSMessage::gap_filled(payload.gap_id));
        proof {
            let written = old(self)@.written(payload.gap_id, payload.content@);
            assert(self@.gaps =~= written.gaps);
            assert(self@.users =~= written.users);
            assert(self@ == written);
        }
        if self.all_filled() {
            self.game.view = Phase::Guess;
            self.game.tx.publish(WSMessage::start_guessing(GUESS_COUNTDOWN));
        }
        proof {
            let before = old(self)@;
            let after = before.after_fill(payload.gap_id, payload.content@);
            assert(self@.gaps =~= after.gaps);
            assert(self@.users =~= after.users);
            lemma_fill_wf(before, payload.gap_id, payload.token@, payload.content@);
        }
        Ok(BaseResponse::ok())
    }
}

/// What a join answers once the player has been added: the response,
/// unless the channel had subscribers and did not take the announcement.
pub fn join_outcome(delivery: Delivery, response: JoinResponse) -> (r: Result<
    JoinResponse,
    GameError,
>)
    ensures
        delivery == Delivery::Failed ==> r == Err::<JoinResponse, GameError>(
            GameError::BroadcastFailure,
        ),
        delivery != Delivery::Failed ==> r == Ok::<JoinResponse, GameError>(response),
{
    match delivery {
        Delivery::Failed => Err(GameError::BroadcastFailure),
        _ => Ok(response),
    }
}

impl Lobby {
    /// Every gap as a joining player sees it, in order.
    pub fn outline(&self) -> (gaps: Vec<PreGapTextDTO>)
        ensures
            gaps.deep_view() == self@.gaps.map_values(|g: GapModel| g.outline()),
    {
        let mut gaps: Vec<PreGapTextDTO> = Vec::new();
        let mut i: usize = 0;
        while i < self.game.gaps.len()
            invariant
                i <= self.game.gaps.len(),
                gaps.len() == i,
                forall|k: int| 0 <= k < i ==> (#[trigger] gaps[k])@ == self.game.gaps[k]@.outline(),
            decreases self.game.gaps.len() - i,
        {
            let gap = &self.game.gaps[i];
            gaps.push(
                PreGapTextDTO {
                    id: gap.id,
                    text: gap.text_section.clone(),
                    gap_after: gap.gap_after,
                },
            );
            i += 1;
        }
        assert(gaps.deep_view() =~= self@.gaps.map_values(|g: GapModel| g.outline()));
        gaps
    }

    /// The players but those with `token`, in the order in which they joined.
    pub fn others(&self, token: &String) -> (others: Vec<UserDTO>)
        ensures
            others.deep_view() == self@.others(token@),
    {
        let mut others: Vec<UserDTO> = Vec::new();
        let mut i: usize = 0;
        proof {
            reveal(Seq::filter);
            assert(self@.users.take(0) =~= Seq::<UserModel>::empty());
            assert(others.deep_view() =~= (LobbyModel {
                users: self@.users.take(0),
                ..self@
            }).others(token@));
        }
        while i < self.users.len()
            invariant
                i <= self.users.len(),
                others.deep_view() == (LobbyModel {
                    users: self@.users.take(i as int),
                    ..self@
                }).others(token@),
            decreases self.users.len() - i,
        {
            let user = &self.users[i];
            let ghost before = others.deep_view();
            proof {
                broadcast use Seq::lemma_filter_push, Seq::lemma_push_map_commute;

                assert(self@.users.take(i + 1) =~= self@.users.take(i as int).push(
                    self@.users[i as int],
                ));
            }
            if user.token != *token {
                others.push(UserDTO { name: user.name.clone(), token: user.token.clone() });
                assert(others.deep_view() =~= before.push(user@.player()));
            }
            i += 1;
        }
        assert(self@.users.take(self.users.len() as int) =~= self@.users);
        others
    }

    /// Adds a player. A join is taken in the waiting phase only. The player
    /// starts without guesses and with a score of zero, and is announced as
    /// "user joined" if the channel has a subscriber. The answer holds every
    /// gap without claimant and content and the players that joined before
    /// under another token. If the channel had a subscriber and did not take
    /// the announcement, the player stays added and the answer is
    /// `BroadcastFailure`. A join that is refused for the phase changes nothing.
    pub fn join(&mut self, payload: &UserDTO) -> (r: Result<JoinResponse, GameError>)
        requires
            old(self).wf(),
        ensures
            final(self).wf(),
            old(self)@.join_error() matches Some(e) ==> r == Err::<JoinResponse, GameError>(e)
                && final(self)@ == old(self)@,
            old(self)@.join_error() is None ==> ({
                let joined = old(self)@.with_user(payload@.name, payload@.token);
                let announced = joined.with_event(Event::UserJoined(payload@));
                &&& final(self)@ == joined || final(self)@ == announced
                &&& match r {
                    Ok(response) => response@ == old(self)@.join_response(payload@.token),
                    Err(e) => e == GameError::BroadcastFailure && final(self)@ == announced,
                }
            }),
    {
        if self.game.view != Phase::Waiting {
            return Err(GameError::InvalidPhase);
        }
        let response = JoinResponse {
            success: true,
            pre_gaps_text: self.outline(),
            current_users: self.others(&payload.token),
        };
        self.users.push(User::new(payload.name.clone(), payload.token.clone()));
        let delivery = self.game.tx.announce(
            WSMessage::user_joined(payload.name.clone(), payload.token.clone()),
        );
        proof {
            let before = old(self)@;
            let joined = before.with_user(payload@.name, payload@.token);
            assert(self@.users =~= joined.users);
            assert(self@.gaps =~= joined.gaps);
            lemma_join_wf(before, payload@.name, payload@.token);
        }
        join_outcome(delivery, response)
    }

    /// What the players guess on, for a player of the lobby in the guess
    /// phase: the content of every gap that has a blank after it, in order
    /// and without its author, and all the players.
    pub fn filled_gaps(&self, token: &String) -> (r: Result<PreGuessingDTO, GameError>)
        ensures
            match r {
                Ok(response) => self@.filled_gaps_error(token@) is None && response@
                    == self@.fillings(),
                Err(e) => self@.filled_gaps_error(token@) == Some(e),
            },
    {
        if self.game.view != Phase::Guess {
            return Err(GameError::InvalidPhase);
        }
        if self.find_user(token).is_none() {
            return Err(GameError::NotFound);
        }
        let mut gaps: Vec<GapFilledDTO> = Vec::new();
        let mut i: usize = 0;
        let ghost blank = |g: GapModel| g.gap_after;
        let ghost filling = |g: GapModel| g.filling();
        proof {
            reveal(Seq::filter);
            assert(self@.gaps.take(0) =~= Seq::<GapModel>::empty());
            assert(gaps.deep_view() =~= self@.gaps.take(0).filter(blank).map_values(filling));
        }
        while i < self.game.gaps.len()
            invariant
                i <= self.game.gaps.len(),
                blank == |g: GapModel| g.gap_after,
                filling == |g: GapModel| g.filling(),
                gaps.deep_view() == self@.gaps.take(i as int).filter(blank).map_values(filling),
            decreases self.game.gaps.len() - i,
        {
            let gap = &self.game.gaps[i];
            let ghost before = gaps.deep_view();
            proof {
                broadcast use Seq::lemma_filter_push, Seq::lemma_push_map_commute;

                assert(self@.gaps.take(i + 1) =~= self@.gaps.take(i as int).push(
                    self@.gaps[i as int],
                ));
            }
            if gap.gap_after {
                gaps.push(GapFilledDTO { gap_id: gap.id, value: gap.value.clone() });
                assert(gaps.deep_view() =~= before.push(gap@.filling()));
            }
            i += 1;
        }
        assert(self@.gaps.take(self.game.gaps.len() as int) =~= self@.gaps);
        Ok(PreGuessingDTO { success: true, gaps, users: self.roster() })
    }

    /// The place of the first player with `token`, if there is one.
    pub fn find_user(&self, token: &String) -> (place: Option<usize>)
        ensures
            match place {
                Some(i) => self@.is_first(token@, i as int),
                None => !self@.knows(token@),
            },
    {
        let mut i: usize = 0;
        while i < self.users.len()
            invariant
                i <= self.users.len(),
                forall|k: int| 0 <= k < i ==> (#[trigger] self@.users[k]).token != token@,
            decreases self.users.len() - i,
        {
            if self.users[i].token == *token {
                return Some(i);
            }
            i += 1;
        }
        None
    }

    /// Whether every player has submitted guesses.
    pub fn all_guessed(&self) -> (r: bool)
        ensures
            r == self@.all_guessed(),
    {
        let mut i: usize = 0;
        while i < self.users.len()
            invariant
                i <= self.users.len(),
                forall|k: int| 0 <= k < i ==> (#[trigger] self@.users[k]).guessed,
            decreases self.users.len() - i,
        {
            if !self.users[i].guessed {
                assert(!self@.users[i as int].guessed);
                return false;
            }
            i += 1;
        }
        true
    }

    /// The number of `guesses` that are right: those that name the claimant
    /// of a gap that has a blank after it. A guess on a gap without a blank,
    /// on an unclaimed gap or on a gap that the lobby does not have counts
    /// for nothing.
    pub fn count_correct(&self, guesses: &Vec<GuessDTO>) -> (correct: u32)
        requires
            guesses.len() <= u32::MAX,
        ensures
            correct == tally(self@.gaps, guesses.deep_view()),
    {
        let mut correct: u32 = 0;
        let mut i: usize = 0;
        proof {
            reveal(Seq::filter);
            assert(guesses.deep_view().take(0) =~= Seq::<Guess>::empty());
        }
        while i < guesses.len()
            invariant
                i <= guesses.len() <= u32::MAX,
                correct <= i,
                correct == tally(self@.gaps, guesses.deep_view().take(i as int)),
            decreases guesses.len() - i,
        {
            let guess = &guesses[i];
            proof {
                broadcast use Seq::lemma_filter_len_push;

                assert(guesses.deep_view().take(i + 1) =~= guesses.deep_view().take(
                    i as int,
                ).push(guess@));
            }
            let index = guess.gap_id as usize;
            if index < self.game.gaps.len() && self.game.gaps[index].is_by(&guess.token) {
                correct += 1;
            }
            i += 1;
        }
        assert(guesses.deep_view().take(guesses.len() as int) =~= guesses.deep_view());
        correct
    }

    /// Takes the guesses of the player with `token`. Guesses are taken in
    /// the guess phase, from a player of the lobby; the first player with
    /// the token then has the number of right guesses as score and has
    /// guessed. If after that every player has guessed, the lobby enters the
    /// ranking phase and announces every player's score, in the order in
    /// which they joined; otherwise it does neither. A submission that is
    /// refused changes nothing.
    pub fn guess(&mut self, payload: &GuessesDTO) -> (r: Result<BaseResponse, GameError>)
        requires
            old(self).wf(),
            payload.guesses.len() <= u32::MAX,
        ensures
            final(self).wf(),
            match r {
                Ok(response) => {
                    &&& old(self)@.guess_error(payload.token@) is None
                    &&& final(self)@ == old(self)@.after_guess(
                        payload.token@,
                        payload.guesses.deep_view(),
                    )
                    &&& response.success
                    &&& response.message is None
                },
                Err(e) => {
                    &&& old(self)@.guess_error(payload.token@) == Some(e)
                    &&& final(self)@ == old(self)@
                },
            },
    {
        if self.game.view != Phase::Guess {
            return Err(GameError::InvalidPhase);
        }
        let place = match self.find_user(&payload.token) {
            None => {
                return Err(GameError::UserNotFound);
            },
            Some(place) => place,
        };
        let correct = self.count_correct(&payload.guesses);
        proof {
            lemma_first_exists(old(self)@, payload.token@);
            lemma_first_unique(
                old(self)@,
                payload.token@,
                place as int,
                old(self)@.position(payload.token@),
            );
        }
        let user = &mut self.users[place];
        user.correct_guesses = correct;
        user.guessed = true;
        proof {
            let recorded = old(self)@.recorded(payload.token@, payload.guesses.deep_view());
            assert(self@.users =~= recorded.users);
            assert(self@.gaps =~= recorded.gaps);
            assert(self@ == recorded);
        }
        if self.all_guessed() {
            let scores = self.scores();
            self.game.view = Phase::Ranking;
            self.game.tx.publish(WSMessage::guess_scores(scores));
        }
        proof {
            let before = old(self)@;
            let after = before.after_guess(payload.token@, payload.guesses.deep_view());
            assert(self@.users =~= after.users);
            assert(self@.gaps =~= after.gaps);
            lemma_guess_wf(before, payload.token@, payload.guesses.deep_view());
        }
        Ok(BaseResponse::ok())
    }
}

impl Registry {
    /// Says whether a lobby has the code `code`: "Game found" if one has,
    /// and `NotFound` if none has.
    pub fn hello(&self, code: &String) -> (r: Result<BaseResponse, GameError>)
        requires
            self.wf(),
        ensures
            match r {
                Ok(response) => {
                    &&& self@.contains_key(code@)
                    &&& response.success
                    &&& response.message matches Some(message) && message@ == "Game found"@
                },
                Err(e) => !self@.contains_key(code@) && e == GameError::NotFound,
            },
    {
        if self.contains(code) {
            Ok(BaseResponse { success: true, message: Some("Game found".to_string()) })
        } else {
            Err(GameError::NotFound)
        }
    }

    /// Adds a player to the lobby with the code `code`: `NotFound` if there
    /// is none, and otherwise what `Lobby::join` does and answers. No other
    /// lobby is touched.
    pub fn join(&mut self, code: &String, payload: &UserDTO) -> (r: Result<
        JoinResponse,
        GameError,
    >)
        requires
            old(self).wf(),
        ensures
            final(self).wf(),
            !old(self)@.contains_key(code@) ==> r == Err::<JoinResponse, GameError>(
                GameError::NotFound,
            ) && final(self)@ == old(self)@,
            old(self)@.contains_key(code@) ==> ({
                let lobby = old(self)@[code@];
                let joined = lobby.with_user(payload@.name, payload@.token);
                let announced = joined.with_event(Event::UserJoined(payload@));
                match lobby.join_error() {
                    Some(e) => r == Err::<JoinResponse, GameError>(e) && final(self)@ == old(
                        self,
                    )@,
                    None => {
                        &&& final(self)@ == old(self)@.insert(code@, joined) || final(self)@
                            == old(self)@.insert(code@, announced)
                        &&& match r {
                            Ok(response) => response@ == lobby.join_response(payload@.token),
                            Err(e) => e == GameError::BroadcastFailure && final(self)@ == old(
                                self,
                            )@.insert(code@, announced),
                        }
                    },
                }
            }),
    {
        match self.get_mut(code) {
            None => Err(GameError::NotFound),
            Some(lobby) => {
                let r = lobby.join(payload);
                assert(old(self)@.insert(code@, old(self)@[code@]) =~= old(self)@);
                r
            },
        }
    }

    /// Claims a gap in the lobby with the code `code`: `NotFound` if there is
    /// none, and otherwise what `Lobby::claim` does and answers. No other
    /// lobby is touched.
    pub fn claim(&mut self, code: &String, payload: &GapClaimDTO) -> (r: Result<
        BaseResponse,
        GameError,
    >)
        requires
            old(self).wf(),
        ensures
            final(self).wf(),
            match r {
                Ok(response) => {
                    &&& old(self)@.contains_key(code@)
                    &&& old(self)@[code@].claim_error(payload.gap_id) is None
                    &&& final(self)@ == old(self)@.insert(
                        code@,
                        old(self)@[code@].after_claim(payload.gap_id, payload.token@),
                    )
                    &&& response.success
                    &&& response.message is None
                },
                Err(e) => {
                    &&& final(self)@ == old(self)@
                    &&& if old(self)@.contains_key(code@) {
                        old(self)@[code@].claim_error(payload.gap_id) == Some(e)
                    } else {
                        e == GameError::NotFound
                    }
                },
            },
    {
        match self.get_mut(code) {
            None => Err(GameError::NotFound),
            Some(lobby) => {
                let r = lobby.claim(payload);
                assert(old(self)@.insert(code@, old(self)@[code@]) =~= old(self)@);
                r
            },
        }
    }

    /// Fills a gap in the lobby with the code `code`: `NotFound` if there is
    /// none, and otherwise what `Lobby::fill` does and answers. No other
    /// lobby is touched.
    pub fn fill(&mut self, code: &String, payload: &GapFillDTO) -> (r: Result<
        BaseResponse,
        GameError,
    >)
        requires
            old(self).wf(),
        ensures
            final(self).wf(),
            match r {
                Ok(response) => {
                    &&& old(self)@.contains_key(code@)
                    &&& old(self)@[code@].fill_error(payload.gap_id, payload.token@) is None
                    &&& final(self)@ == old(self)@.insert(
                        code@,
                        old(self)@[code@].after_fill(payload.gap_id, payload.content@),
                    )
                    &&& response.success
                    &&& response.message is None
                },
                Err(e) => {
                    &&& final(self)@ == old(self)@
                    &&& if old(self)@.contains_key(code@) {
                        old(self)@[code@].fill_error(payload.gap_id, payload.token@) == Some(e)
                    } else {
                        e == GameError::NotFound
                    }
                },
            },
    {
        match self.get_mut(code) {
            None => Err(GameError::NotFound),
            Some(lobby) => {
                let r = lobby.fill(payload);
                assert(old(self)@.insert(code@, old(self)@[code@]) =~= old(self)@);
                r
            },
        }
    }

    /// What the players of the lobby with the code `code` guess on:
    /// `NotFound` if there is no such lobby, and otherwise what
    /// `Lobby::filled_gaps` answers.
    pub fn filled_gaps(&self, code: &String, token: &String) -> (r: Result<
        PreGuessingDTO,
        GameError,
    >)
        requires
            self.wf(),
        ensures
            match r {
                Ok(response) => {
                    &&& self@.contains_key(code@)
                    &&& self@[code@].filled_gaps_error(token@) is None
                    &&& response@ == self@[code@].fillings()
                },
                Err(e) => if self@.contains_key(code@) {
                    self@[code@].filled_gaps_error(token@) == Some(e)
                } else {
                    e == GameError::NotFound
                },
            },
    {
        match self.get(code) {
            None => Err(GameError::NotFound),
            Some(lobby) => lobby.filled_gaps(token),
        }
    }

    /// Takes guesses in the lobby with the code `code`: `NotFound` if there
    /// is none, and otherwise what `Lobby::guess` does and answers. No other
    /// lobby is touched.
    pub fn guess(&mut self, code: &String, payload: &GuessesDTO) -> (r: Result<
        BaseResponse,
        GameError,
    >)
        requires
            old(self).wf(),
            payload.guesses.len() <= u32::MAX,
        ensures
            final(self).wf(),
            match r {
                Ok(response) => {
                    &&& old(self)@.contains_key(code@)
                    &&& old(self)@[code@].guess_error(payload.token@) is None
                    &&& final(self)@ == old(self)@.insert(
                        code@,
                        old(self)@[code@].after_guess(payload.token@, payload.guesses.deep_view()),
                    )
                    &&& response.success
                    &&& response.message is None
                },
                Err(e) => {
                    &&& final(self)@ == old(self)@
                    &&& if old(self)@.contains_key(code@) {
                        old(self)@[code@].guess_error(payload.token@) == Some(e)
                    } else {
                        e == GameError::NotFound
                    }
                },
            },
    {
        match self.get_mut(code) {
            None => Err(GameError::NotFound),
            Some(lobby) => {
                let r = lobby.guess(payload);
                assert(old(self)@.insert(code@, old(self)@[code@]) =~= old(self)@);
                r
            },
        }
    }

    /// What a player who comes back to the lobby with the code `code` is
    /// told: `NotFound` if there is no such lobby, and otherwise what
    /// `Lobby::rejoin` answers.
    pub fn rejoin(&self, code: &String, payload: &UserDTO) -> (r: Result<
        RejoinResponse,
        GameError,
    >)
        requires
            self.wf(),
        ensures
            match r {
                Ok(response) => self@.contains_key(code@) && self@[code@].rejoin(payload@) == Ok::<
                    RejoinView,
                    GameError,
                >(response@),
                Err(e) => if self@.contains_key(code@) {
                    self@[code@].rejoin(payload@) == Err::<RejoinView, GameError>(e)
                } else {
                    e == GameError::NotFound
                },
            },
    {
        match self.get(code) {
            None => Err(GameError::NotFound),
            Some(lobby) => lobby.rejoin(payload),
        }
    }
}

} // verus!
