use vstd::prelude::*;
use crate::model::{
    change_views, guess_scores, start_guessings, Event, Guess, LobbyModel,
};
use crate::phase::Phase;

verus! {

/// A log with one more event announces each phase as often as before, and a
/// phase's own event once more.
pub proof fn lemma_counts_push(log: Seq<Event>, event: Event)
    ensures
        change_views(log.push(event)) == change_views(log) + (if event.is_change_view() {
            1nat
        } else {
            0nat
        }),
        start_guessings(log.push(event)) == start_guessings(log) + (if event.is_start_guessing() {
            1nat
        } else {
            0nat
        }),
        guess_scores(log.push(event)) == guess_scores(log) + (if event.is_guess_scores() {
            1nat
        } else {
            0nat
        }),
{
    broadcast use Seq::lemma_filter_len_push;

}

/// An empty log announces nothing.
pub proof fn lemma_counts_empty()
    ensures
        change_views(Seq::empty()) == 0,
        start_guessings(Seq::empty()) == 0,
        guess_scores(Seq::empty()) == 0,
{
    reveal(Seq::filter);
}

/// A new lobby is well formed.
pub proof fn lemma_fresh_wf(segments: Seq<Seq<char>>)
    requires
        0 < segments.len() <= u32::MAX,
    ensures
        LobbyModel::fresh(segments).wf(),
{
    lemma_counts_empty();
}

/// A join in the waiting phase leaves the lobby well formed, whether or not
/// the event was handed to the channel.
pub proof fn lemma_join_wf(lobby: LobbyModel, name: Seq<char>, token: Seq<char>)
    requires
        lobby.wf(),
        lobby.join_error() is None,
    ensures
        lobby.with_user(name, token).wf(),
        lobby.with_user(name, token).with_event(
            Event::UserJoined(crate::model::Player { name, token }),
        ).wf(),
{
    lemma_counts_push(lobby.published, Event::UserJoined(crate::model::Player { name, token }));
}

/// The start of the fill phase leaves the lobby well formed.
pub proof fn lemma_start_fill_wf(lobby: LobbyModel)
    requires
        lobby.wf(),
        lobby.start_fill_error() is None,
    ensures
        lobby.after_start_fill().wf(),
{
    lemma_counts_push(lobby.published, Event::ChangeView(Phase::Fill));
}

/// A claim that is not refused leaves the lobby well formed.
pub proof fn lemma_claim_wf(lobby: LobbyModel, gap_id: u32, token: Seq<char>)
    requires
        lobby.wf(),
        lobby.claim_error(gap_id) is None,
    ensures
        lobby.after_claim(gap_id, token).wf(),
{
    lemma_counts_push(lobby.published, Event::GapClaimed(gap_id));
}

/// A fill that is not refused leaves the lobby well formed.
pub proof fn lemma_fill_wf(lobby: LobbyModel, gap_id: u32, token: Seq<char>, content: Seq<char>)
    requires
        lobby.wf(),
        lobby.fill_error(gap_id, token) is None,
    ensures
        lobby.after_fill(gap_id, content).wf(),
{
    let written = lobby.written(gap_id, content);
    lemma_counts_push(lobby.published, Event::GapFilled(gap_id));
    assert(written.wf());
    if written.all_filled() {
        lemma_counts_push(written.published, Event::StartGuessing(crate::model::GUESS_COUNTDOWN));
    }
}

/// Two places that are both the first of a token are the same place.
pub proof fn lemma_first_unique(lobby: LobbyModel, token: Seq<char>, i: int, j: int)
    requires
        lobby.is_first(token, i),
        lobby.is_first(token, j),
    ensures
        i == j,
{
    if i < j {
        assert(lobby.users[i].token != token);
    }
    if j < i {
        assert(lobby.users[j].token != token);
    }
}

/// Among the players with a token there is a first.
pub proof fn lemma_first_exists(lobby: LobbyModel, token: Seq<char>)
    requires
        lobby.knows(token),
    ensures
        lobby.is_first(token, lobby.position(token)),
{
    let some = choose|i: int| 0 <= i < lobby.users.len() && (#[trigger] lobby.users[i]).token == token;
    lemma_first_below(lobby, token, some);
}

/// If a player at or below `bound` has the token, some place is its first.
proof fn lemma_first_below(lobby: LobbyModel, token: Seq<char>, bound: int)
    requires
        0 <= bound < lobby.users.len(),
        lobby.users[bound].token == token,
    ensures
        exists|i: int| lobby.is_first(token, i),
    decreases bound,
{
    if exists|j: int| 0 <= j < bound && (#[trigger] lobby.users[j]).token == token {
        let j = choose|j: int| 0 <= j < bound && (#[trigger] lobby.users[j]).token == token;
        lemma_first_below(lobby, token, j);
    } else {
        assert(lobby.is_first(token, bound));
    }
}

/// A submission of guesses that is not refused leaves the lobby well formed.
pub proof fn lemma_guess_wf(lobby: LobbyModel, token: Seq<char>, guesses: Seq<Guess>)
    requires
        lobby.wf(),
        lobby.guess_error(token) is None,
    ensures
        lobby.after_guess(token, guesses).wf(),
{
    lemma_first_exists(lobby, token);
    let recorded = lobby.recorded(token, guesses);
    assert(recorded.wf());
    if recorded.all_guessed() {
        lemma_counts_push(recorded.published, Event::GuessScores(recorded.scores()));
    }
}

} // verus!
