use vstd::prelude::*;
use crate::error::GameError;
use crate::game_api::RejoinView;
use crate::lemmas::{
    lemma_claim_wf, lemma_counts_push, lemma_fill_wf, lemma_fresh_wf, lemma_guess_wf,
    lemma_join_wf, lemma_start_fill_wf,
};
use crate::model::{
    start_guessings, tally, truncated, Event, GapModel, Guess, LobbyModel, Player, FILL_LIMIT,
};
use crate::phase::Phase;

verus! {

/// One call of an operation that changes a lobby, with its arguments. For a
/// join, `announced` says whether the channel had a subscriber, so that the
/// event was handed to it.
pub enum Step {
    Join { name: Seq<char>, token: Seq<char>, announced: bool },
    StartFill,
    Claim { gap_id: u32, token: Seq<char> },
    Fill { gap_id: u32, token: Seq<char>, content: Seq<char> },
    Guess { token: Seq<char>, guesses: Seq<Guess> },
}

impl Step {
    /// Why the operation refuses the call in `lobby`, if it does.
    pub open spec fn error(self, lobby: LobbyModel) -> Option<GameError> {
        match self {
            Step::Join { .. } => lobby.join_error(),
            Step::StartFill => lobby.start_fill_error(),
            Step::Claim { gap_id, .. } => lobby.claim_error(gap_id),
            Step::Fill { gap_id, token, .. } => lobby.fill_error(gap_id, token),
            Step::Guess { token, .. } => lobby.guess_error(token),
        }
    }

    /// The lobby after the call: as the operation's contract gives it where
    /// the call is taken, and unchanged where it is refused.
    pub open spec fn apply(self, lobby: LobbyModel) -> LobbyModel {
        if self.error(lobby) is Some {
            lobby
        } else {
            match self {
                Step::Join { name, token, announced } => {
                    let joined = lobby.with_user(name, token);
                    if announced {
                        joined.with_event(Event::UserJoined(Player { name, token }))
                    } else {
                        joined
                    }
                },
                Step::StartFill => lobby.after_start_fill(),
                Step::Claim { gap_id, token } => lobby.after_claim(gap_id, token),
                Step::Fill { gap_id, content, .. } => lobby.after_fill(gap_id, content),
                Step::Guess { token, guesses } => lobby.after_guess(token, guesses),
            }
        }
    }
}

/// The lobby after the calls `steps`, made one after the other in this order.
pub open spec fn run(lobby: LobbyModel, steps: Seq<Step>) -> LobbyModel
    decreases steps.len(),
{
    if steps.len() == 0 {
        lobby
    } else {
        steps.last().apply(run(lobby, steps.drop_last()))
    }
}

/// What the claims of `tokens` on gap `gap_id`, made one after the other in
/// this order, are answered: for each, the error, or `None` where it is taken.
pub open spec fn claim_answers(lobby: LobbyModel, gap_id: u32, tokens: Seq<Seq<char>>) -> Seq<
    Option<GameError>,
>
    decreases tokens.len(),
{
    if tokens.len() == 0 {
        Seq::empty()
    } else {
        let before = run(lobby, claims(gap_id, tokens.drop_last()));
        claim_answers(lobby, gap_id, tokens.drop_last()).push(before.claim_error(gap_id))
    }
}

/// Every call leaves a well-formed lobby well formed, and its phase where
/// it was or further on.
pub proof fn law_step_keeps_wf(lobby: LobbyModel, step: Step)
    requires
        lobby.wf(),
    ensures
        step.apply(lobby).wf(),
        step.apply(lobby).phase.rank() >= lobby.phase.rank(),
{
    if step.error(lobby) is None {
        match step {
            Step::Join { name, token, announced } => {
                lemma_join_wf(lobby, name, token);
            },
            Step::StartFill => {
                lemma_start_fill_wf(lobby);
            },
            Step::Claim { gap_id, token } => {
                lemma_claim_wf(lobby, gap_id, token);
            },
            Step::Fill { gap_id, token, content } => {
                lemma_fill_wf(lobby, gap_id, token, content);
            },
            Step::Guess { token, guesses } => {
                lemma_guess_wf(lobby, token, guesses);
            },
        }
    }
}

/// What a call hands to the channel. A call that is refused hands it
/// nothing. The start of the fill phase and a claim each hand it one event.
/// A join hands it "user joined" if somebody listens. A fill hands it "gap
/// filled", and after that "start guessing" if the guessing begins with it.
/// A submission of guesses hands it the scores if it is the last one that
/// was missing, and nothing otherwise.
pub proof fn law_step_announces(lobby: LobbyModel, step: Step)
    requires
        lobby.wf(),
    ensures
        step.error(lobby) is Some ==> step.apply(lobby) == lobby,
        step.error(lobby) is None ==> match step {
            Step::Join { name, token, announced } => step.apply(lobby).published == if announced {
                lobby.published.push(Event::UserJoined(Player { name, token }))
            } else {
                lobby.published
            },
            Step::StartFill => step.apply(lobby).published == lobby.published.push(
                Event::ChangeView(Phase::Fill),
            ),
            Step::Claim { gap_id, .. } => step.apply(lobby).published == lobby.published.push(
                Event::GapClaimed(gap_id),
            ),
            Step::Fill { gap_id, .. } => step.apply(lobby).published == if step.apply(
                lobby,
            ).phase == Phase::Guess {
                lobby.published.push(Event::GapFilled(gap_id)).push(
                    Event::StartGuessing(crate::model::GUESS_COUNTDOWN),
                )
            } else {
                lobby.published.push(Event::GapFilled(gap_id))
            },
            Step::Guess { .. } => step.apply(lobby).published == if step.apply(lobby).phase
                == Phase::Ranking {
                lobby.published.push(Event::GuessScores(step.apply(lobby).scores()))
            } else {
                lobby.published
            },
        },
{
}

/// No call takes a gap or a player away, changes a gap's text or a player's
/// name and token, or takes a claim back: a gap that has a claimant keeps
/// that claimant.
pub proof fn law_step_keeps_what_is_fixed(lobby: LobbyModel, step: Step)
    requires
        lobby.wf(),
    ensures
        step.apply(lobby).gaps.len() == lobby.gaps.len(),
        forall|i: int|
            0 <= i < lobby.gaps.len() ==> {
                &&& (#[trigger] step.apply(lobby).gaps[i]).text_section
                    == lobby.gaps[i].text_section
                &&& lobby.gaps[i].filled_by is Some ==> step.apply(lobby).gaps[i].filled_by
                    == lobby.gaps[i].filled_by
            },
        step.apply(lobby).users.len() >= lobby.users.len(),
        forall|j: int|
            0 <= j < lobby.users.len() ==> (#[trigger] step.apply(lobby).users[j]).player()
                == lobby.users[j].player(),
        forall|n: int|
            0 <= n < lobby.published.len() ==> (#[trigger] step.apply(lobby).published[n])
                == lobby.published[n],
{
    if step.error(lobby) is None {
        match step {
            Step::Guess { token, guesses } => {
                crate::lemmas::lemma_first_exists(lobby, token);
            },
            _ => {},
        }
    }
}

/// Whatever is called on a lobby, in whatever order: its gaps stay the
/// same in number and text, a claim stays with its claimant, and the
/// players stay, under their names and tokens and in their order.
pub proof fn law_what_is_fixed_stays(lobby: LobbyModel, steps: Seq<Step>)
    requires
        lobby.wf(),
    ensures
        run(lobby, steps).gaps.len() == lobby.gaps.len(),
        forall|i: int|
            0 <= i < lobby.gaps.len() ==> {
                &&& (#[trigger] run(lobby, steps).gaps[i]).text_section
                    == lobby.gaps[i].text_section
                &&& lobby.gaps[i].filled_by is Some ==> run(lobby, steps).gaps[i].filled_by
                    == lobby.gaps[i].filled_by
            },
        run(lobby, steps).users.len() >= lobby.users.len(),
        forall|j: int|
            0 <= j < lobby.users.len() ==> (#[trigger] run(lobby, steps).users[j]).player()
                == lobby.users[j].player(),
    decreases steps.len(),
{
    if steps.len() > 0 {
        let before = run(lobby, steps.drop_last());
        law_what_is_fixed_stays(lobby, steps.drop_last());
        law_phase_never_reverts(lobby, steps.drop_last());
        law_step_keeps_what_is_fixed(before, steps.last());
    }
}

/// Whatever is called on a lobby, in whatever order, it stays well formed
/// and its phase never goes back.
pub proof fn law_phase_never_reverts(lobby: LobbyModel, steps: Seq<Step>)
    requires
        lobby.wf(),
    ensures
        run(lobby, steps).wf(),
        run(lobby, steps).phase.rank() >= lobby.phase.rank(),
    decreases steps.len(),
{
    if steps.len() > 0 {
        law_phase_never_reverts(lobby, steps.drop_last());
        law_step_keeps_wf(run(lobby, steps.drop_last()), steps.last());
    }
}

/// In every lobby the last gap has no blank after it and every other gap
/// has one, however many gaps there are.
pub proof fn law_blank_after_all_but_last(lobby: LobbyModel, i: int)
    requires
        lobby.wf(),
        0 <= i < lobby.gaps.len(),
    ensures
        lobby.gaps[i].gap_after <==> i != lobby.gaps.len() - 1,
        lobby.gaps[i].id == i,
{
}

/// A new lobby has one gap for each segment of its template, is well
/// formed, and so has a blank after every gap but the last; with a single
/// segment it has no blank at all.
pub proof fn law_new_lobby(segments: Seq<Seq<char>>)
    requires
        0 < segments.len() <= u32::MAX,
    ensures
        LobbyModel::fresh(segments).wf(),
        LobbyModel::fresh(segments).gaps.len() == segments.len(),
        forall|i: int|
            0 <= i < segments.len() ==> (#[trigger] LobbyModel::fresh(segments).gaps[i]).gap_after
                == (i != segments.len() - 1),
        segments.len() == 1 ==> !LobbyModel::fresh(segments).gaps[0].gap_after,
{
    lemma_fresh_wf(segments);
}

/// The claims of `tokens` on gap `gap_id`, as calls.
pub open spec fn claims(gap_id: u32, tokens: Seq<Seq<char>>) -> Seq<Step> {
    tokens.map_values(|t: Seq<char>| Step::Claim { gap_id, token: t })
}

/// Of any number of claims on one unclaimed gap, made in the fill phase in
/// whatever order, exactly one is taken: the first. Every other is answered
/// `AlreadyClaimed`, and the gap stays with the first claimant.
pub proof fn law_claim_exactly_once(lobby: LobbyModel, gap_id: u32, tokens: Seq<Seq<char>>)
    requires
        lobby.wf(),
        lobby.claim_error(gap_id) is None,
        tokens.len() > 0,
    ensures
        claim_answers(lobby, gap_id, tokens).len() == tokens.len(),
        claim_answers(lobby, gap_id, tokens)[0] is None,
        forall|i: int|
            1 <= i < tokens.len() ==> #[trigger] claim_answers(lobby, gap_id, tokens)[i] == Some(
                GameError::AlreadyClaimed,
            ),
        run(lobby, claims(gap_id, tokens)).phase == Phase::Fill,
        run(lobby, claims(gap_id, tokens)).gaps.len() == lobby.gaps.len(),
        run(lobby, claims(gap_id, tokens)).gaps[gap_id as int].filled_by == Some(tokens[0]),
    decreases tokens.len(),
{
    let earlier = tokens.drop_last();
    assert(claims(gap_id, tokens).drop_last() =~= claims(gap_id, earlier));
    assert(claims(gap_id, tokens).last() == Step::Claim { gap_id, token: tokens.last() });
    let before = run(lobby, claims(gap_id, earlier));
    let answers = claim_answers(lobby, gap_id, tokens);
    assert(answers == claim_answers(lobby, gap_id, earlier).push(before.claim_error(gap_id)));
    if tokens.len() == 1 {
        assert(claims(gap_id, earlier) =~= Seq::<Step>::empty());
        assert(before == lobby);
    } else {
        law_claim_exactly_once(lobby, gap_id, earlier);
        assert(earlier[0] == tokens[0]);
        assert(before.claim_error(gap_id) == Some(GameError::AlreadyClaimed));
        assert forall|i: int| 1 <= i < tokens.len() implies #[trigger] answers[i] == Some(
            GameError::AlreadyClaimed,
        ) by {
            if i < earlier.len() {
                assert(answers[i] == claim_answers(lobby, gap_id, earlier)[i]);
            }
        }
    }
}

/// A gap that has a claimant refuses every later claim, and every fill from
/// another token, whatever was called in between and in whatever order.
pub proof fn law_claim_is_final(
    lobby: LobbyModel,
    steps: Seq<Step>,
    gap_id: u32,
    claimant: Seq<char>,
    token: Seq<char>,
)
    requires
        lobby.wf(),
        gap_id < lobby.gaps.len(),
        lobby.gaps[gap_id as int].filled_by == Some(claimant),
    ensures
        run(lobby, steps).gaps[gap_id as int].filled_by == Some(claimant),
        run(lobby, steps).claim_error(gap_id) == Some(GameError::AlreadyClaimed) || run(
            lobby,
            steps,
        ).claim_error(gap_id) == Some(GameError::InvalidPhase),
        token != claimant ==> run(lobby, steps).fill_error(gap_id, token) == Some(
            GameError::WrongClaimant,
        ) || run(lobby, steps).fill_error(gap_id, token) == Some(GameError::InvalidPhase),
{
    law_what_is_fixed_stays(lobby, steps);
    assert(run(lobby, steps).gaps[gap_id as int].filled_by
        == lobby.gaps[gap_id as int].filled_by);
}

/// A fill needs the claim of the same token: on an unclaimed gap it is
/// answered `NotClaimed`, on a gap that another token claimed
/// `WrongClaimant`, and from the claimant it is taken.
pub proof fn law_fill_needs_claim(lobby: LobbyModel, gap_id: u32, token: Seq<char>)
    requires
        lobby.wf(),
        lobby.phase == Phase::Fill,
        gap_id < lobby.gaps.len(),
    ensures
        lobby.gaps[gap_id as int].filled_by is None ==> lobby.fill_error(gap_id, token) == Some(
            GameError::NotClaimed,
        ),
        lobby.gaps[gap_id as int].filled_by is Some && lobby.gaps[gap_id as int].filled_by
            != Some(token) ==> lobby.fill_error(gap_id, token) == Some(GameError::WrongClaimant),
        lobby.gaps[gap_id as int].filled_by == Some(token) ==> lobby.fill_error(gap_id, token)
            is None,
        lobby.claim_error(gap_id) is None ==> lobby.after_claim(gap_id, token).fill_error(
            gap_id,
            token,
        ) is None,
{
}

/// What a fill stores is the content's first 140 characters: content of
/// more than 140 characters is stored with exactly 140, shorter content as
/// it is.
pub proof fn law_fill_stores_140(lobby: LobbyModel, gap_id: u32, token: Seq<char>, content: Seq<char>)
    requires
        lobby.wf(),
        lobby.fill_error(gap_id, token) is None,
    ensures
        lobby.after_fill(gap_id, content).gaps[gap_id as int].value == truncated(content),
        content.len() > FILL_LIMIT ==> truncated(content).len() == FILL_LIMIT && truncated(content)
            == content.take(FILL_LIMIT as int),
        content.len() <= FILL_LIMIT ==> truncated(content) == content,
{
}

/// Once a lobby has left the waiting phase, every join is answered
/// `InvalidPhase`, whatever was called in between and in whatever order.
pub proof fn law_no_join_after_waiting(lobby: LobbyModel, steps: Seq<Step>)
    requires
        lobby.wf(),
        lobby.phase != Phase::Waiting,
    ensures
        run(lobby, steps).join_error() == Some(GameError::InvalidPhase),
{
    law_phase_never_reverts(lobby, steps);
}

/// A fill that is taken starts the guessing if and only if after it every
/// gap with a blank is claimed and has content. It then announces "start
/// guessing" once, and otherwise not at all; and no lobby ever has announced
/// it more than once.
pub proof fn law_guessing_starts_once(
    lobby: LobbyModel,
    gap_id: u32,
    token: Seq<char>,
    content: Seq<char>,
)
    requires
        lobby.wf(),
        lobby.fill_error(gap_id, token) is None,
    ensures
        lobby.after_fill(gap_id, content).phase == Phase::Guess <==> lobby.written(
            gap_id,
            content,
        ).all_filled(),
        lobby.after_fill(gap_id, content).phase == Phase::Guess <==> lobby.after_fill(
            gap_id,
            content,
        ).all_filled(),
        start_guessings(lobby.published) == 0,
        start_guessings(lobby.after_fill(gap_id, content).published) == (if lobby.written(
            gap_id,
            content,
        ).all_filled() {
            1nat
        } else {
            0nat
        }),
        lobby.written(gap_id, content).all_filled() ==> lobby.after_fill(
            gap_id,
            content,
        ).published == lobby.published.push(Event::GapFilled(gap_id)).push(
            Event::StartGuessing(crate::model::GUESS_COUNTDOWN),
        ),
        !lobby.written(gap_id, content).all_filled() ==> lobby.after_fill(
            gap_id,
            content,
        ).published == lobby.published.push(Event::GapFilled(gap_id)),
{
    let written = lobby.written(gap_id, content);
    lemma_counts_push(lobby.published, Event::GapFilled(gap_id));
    lemma_counts_push(written.published, Event::StartGuessing(crate::model::GUESS_COUNTDOWN));
    lemma_fill_wf(lobby, gap_id, token, content);
}

/// In a well-formed lobby "start guessing" has been announced once if the
/// guessing has begun, and never before.
pub proof fn law_start_guessing_at_most_once(lobby: LobbyModel)
    requires
        lobby.wf(),
    ensures
        start_guessings(lobby.published) <= 1,
        start_guessings(lobby.published) == 1 <==> lobby.phase.rank() >= 2,
{
}

/// A guess counts if and only if its gap exists, has a blank after it, is
/// claimed, and was claimed by the token that the guess names. The number
/// of right guesses is the number of guesses that count.
pub proof fn law_guess_counts(gaps: Seq<GapModel>, guesses: Seq<Guess>, guess: Guess)
    ensures
        tally(gaps, Seq::empty()) == 0,
        tally(gaps, guesses.push(guess)) == tally(gaps, guesses) + (if guess.gap_id < gaps.len()
            && gaps[guess.gap_id as int].gap_after && gaps[guess.gap_id as int].filled_by == Some(
            guess.token,
        ) {
            1nat
        } else {
            0nat
        }),
        guess.gap_id < gaps.len() && !gaps[guess.gap_id as int].gap_after ==> tally(
            gaps,
            guesses.push(guess),
        ) == tally(gaps, guesses),
        guess.gap_id < gaps.len() && gaps[guess.gap_id as int].filled_by is None ==> tally(
            gaps,
            guesses.push(guess),
        ) == tally(gaps, guesses),
{
    broadcast use Seq::lemma_filter_len_push;

    reveal(Seq::filter);
}

/// Once the ranking is shown, a returning player is told the same final
/// scores whoever asks, and nothing that is called changes the lobby: so
/// the answer is the same however often it is asked for.
pub proof fn law_ranking_is_stable(lobby: LobbyModel, steps: Seq<Step>, first: Player, second: Player)
    requires
        lobby.wf(),
        lobby.phase == Phase::Ranking,
    ensures
        lobby.rejoin(first) == Ok::<RejoinView, GameError>(
            RejoinView::Finished(lobby.final_scores()),
        ),
        lobby.rejoin(second) == lobby.rejoin(first),
        run(lobby, steps) == lobby,
        run(lobby, steps).rejoin(second) == lobby.rejoin(first),
    decreases steps.len(),
{
    if steps.len() > 0 {
        law_ranking_is_stable(lobby, steps.drop_last(), first, second);
    }
}

} // verus!
