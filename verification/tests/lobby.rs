use wordweaver::dto::{
    CurrentGapTextDTO, GapClaimDTO, GapFillDTO, GapFilledDTO, GuessDTO, GuessesDTO, PreGapTextDTO,
    UserDTO,
};
use wordweaver::error::GameError;
use wordweaver::game_api::{join_outcome, RejoinResponse};
use wordweaver::notify::Delivery;
use wordweaver::objects::{truncate, Gap, Lobby, User};
use wordweaver::phase::Phase;
use wordweaver::ws_dto::GuessScore;

fn user(name: &str, token: &str) -> UserDTO {
    UserDTO { name: name.to_string(), token: token.to_string() }
}

fn claim(gap_id: u32, token: &str) -> GapClaimDTO {
    GapClaimDTO { gap_id, token: token.to_string() }
}

fn fill(gap_id: u32, token: &str, content: &str) -> GapFillDTO {
    GapFillDTO { gap_id, token: token.to_string(), content: content.to_string() }
}

fn guess(gap_id: u32, token: &str) -> GuessDTO {
    GuessDTO { gap_id, token: token.to_string() }
}

fn guesses(token: &str, guesses: Vec<GuessDTO>) -> GuessesDTO {
    GuessesDTO { token: token.to_string(), guesses }
}

fn lobby_of(segments: &[&str]) -> Lobby {
    Lobby::new(segments.iter().map(|s| s.to_string()).collect())
}

/// Three segments, Ann ("a") and Bob ("b") joined, fill phase started.
fn filling() -> Lobby {
    let mut lobby = lobby_of(&["The cat", "sat on the", "mat"]);
    lobby.join(&user("Ann", "a")).unwrap();
    lobby.join(&user("Bob", "b")).unwrap();
    lobby.start_fill().unwrap();
    lobby
}

/// As `filling`, with both blanks claimed and filled: the guess phase.
fn guessing() -> Lobby {
    let mut lobby = filling();
    lobby.claim(&claim(0, "a")).unwrap();
    lobby.claim(&claim(1, "b")).unwrap();
    lobby.fill(&fill(0, "a", "jumped over")).unwrap();
    lobby.fill(&fill(1, "b", "rolled under the")).unwrap();
    lobby
}

#[test]
fn new_lobby_has_blank_after_all_but_last() {
    for count in [1usize, 2, 3, 7, 50] {
        let segments: Vec<String> = (0..count).map(|i| format!("segment {}", i)).collect();
        let lobby = Lobby::new(segments.clone());
        assert_eq!(lobby.phase(), Phase::Waiting);
        assert!(lobby.users().is_empty());
        assert_eq!(lobby.gaps().len(), count);
        for (i, gap) in lobby.gaps().iter().enumerate() {
            assert_eq!(gap.id(), i as u32);
            assert_eq!(gap.text_section(), &segments[i]);
            assert_eq!(gap.gap_after(), i + 1 != count);
            assert_eq!(gap.value(), "");
            assert_eq!(gap.filled_by(), None);
        }
    }
}

#[test]
fn single_segment_has_no_blank() {
    let lobby = lobby_of(&["all of it"]);
    assert_eq!(lobby.gaps().len(), 1);
    assert!(!lobby.gaps()[0].gap_after());
}

#[test]
fn join_answers_gaps_and_earlier_players() {
    let mut lobby = lobby_of(&["The cat", "sat on the", "mat"]);
    let first = lobby.join(&user("Ann", "a")).unwrap();
    assert!(first.success);
    assert_eq!(
        first.pre_gaps_text,
        vec![
            PreGapTextDTO { id: 0, text: "The cat".to_string(), gap_after: true },
            PreGapTextDTO { id: 1, text: "sat on the".to_string(), gap_after: true },
            PreGapTextDTO { id: 2, text: "mat".to_string(), gap_after: false },
        ]
    );
    assert!(first.current_users.is_empty());
    let second = lobby.join(&user("Bob", "b")).unwrap();
    assert_eq!(second.current_users, vec![user("Ann", "a")]);
    let third = lobby.join(&user("Cid", "c")).unwrap();
    assert_eq!(third.current_users, vec![user("Ann", "a"), user("Bob", "b")]);
    assert_eq!(lobby.users().len(), 3);
    let bob = &lobby.users()[1];
    assert_eq!(bob.name(), "Bob");
    assert_eq!(bob.token(), "b");
    assert_eq!(bob.correct_guesses(), 0);
    assert!(!bob.guessed());
}

#[test]
fn join_leaves_out_players_with_the_callers_token() {
    let mut lobby = lobby_of(&["a", "b"]);
    lobby.join(&user("Ann", "a")).unwrap();
    lobby.join(&user("Bob", "b")).unwrap();
    let again = lobby.join(&user("Ann again", "a")).unwrap();
    assert_eq!(again.current_users, vec![user("Bob", "b")]);
    assert_eq!(lobby.users().len(), 3);
}

#[test]
fn join_is_refused_once_waiting_is_over() {
    let mut lobby = filling();
    assert_eq!(lobby.join(&user("Cid", "c")), Err(GameError::InvalidPhase));
    assert_eq!(lobby.users().len(), 2);
    let mut lobby = guessing();
    assert_eq!(lobby.join(&user("Cid", "c")), Err(GameError::InvalidPhase));
    lobby.guess(&guesses("a", vec![])).unwrap();
    lobby.guess(&guesses("b", vec![])).unwrap();
    assert_eq!(lobby.phase(), Phase::Ranking);
    assert_eq!(lobby.join(&user("Cid", "c")), Err(GameError::InvalidPhase));
    assert_eq!(lobby.users().len(), 2);
}

#[test]
fn join_outcome_reports_a_failed_broadcast() {
    let mut lobby = lobby_of(&["a", "b"]);
    let response = lobby.join(&user("Ann", "a")).unwrap();
    assert_eq!(join_outcome(Delivery::NoSubscribers, response.clone()), Ok(response.clone()));
    assert_eq!(join_outcome(Delivery::Sent, response.clone()), Ok(response.clone()));
    assert_eq!(join_outcome(Delivery::Failed, response), Err(GameError::BroadcastFailure));
}

#[test]
fn start_fill_happens_once() {
    let mut lobby = lobby_of(&["a", "b"]);
    let response = lobby.start_fill().unwrap();
    assert!(response.success);
    assert_eq!(response.message, None);
    assert_eq!(lobby.phase(), Phase::Fill);
    assert_eq!(lobby.start_fill(), Err(GameError::InvalidPhase));
    assert_eq!(lobby.phase(), Phase::Fill);
    let mut lobby = guessing();
    assert_eq!(lobby.start_fill(), Err(GameError::InvalidPhase));
    assert_eq!(lobby.phase(), Phase::Guess);
}

#[test]
fn claim_is_taken_exactly_once() {
    let mut lobby = filling();
    let tokens = ["b", "a", "c", "b", "a"];
    let answers: Vec<bool> =
        tokens.iter().map(|t| lobby.claim(&claim(0, t)).is_ok()).collect();
    assert_eq!(answers, vec![true, false, false, false, false]);
    assert_eq!(lobby.claim(&claim(0, "a")), Err(GameError::AlreadyClaimed));
    assert_eq!(lobby.gaps()[0].filled_by(), Some(&"b".to_string()));
    assert_eq!(lobby.gaps()[1].filled_by(), None);
}

#[test]
fn claim_is_refused_outside_the_fill_phase() {
    let mut lobby = lobby_of(&["a", "b"]);
    assert_eq!(lobby.claim(&claim(0, "a")), Err(GameError::InvalidPhase));
    assert_eq!(lobby.gaps()[0].filled_by(), None);
    let mut lobby = guessing();
    assert_eq!(lobby.claim(&claim(2, "a")), Err(GameError::InvalidPhase));
    assert_eq!(lobby.gaps()[2].filled_by(), None);
}

#[test]
fn claim_of_a_gap_that_is_not_there() {
    let mut lobby = filling();
    assert_eq!(lobby.claim(&claim(3, "a")), Err(GameError::NotFound));
    assert_eq!(lobby.claim(&claim(u32::MAX, "a")), Err(GameError::NotFound));
}

#[test]
fn fill_needs_the_claim_of_the_same_token() {
    let mut lobby = filling();
    assert_eq!(lobby.fill(&fill(0, "a", "jumped over")), Err(GameError::NotClaimed));
    lobby.claim(&claim(0, "a")).unwrap();
    assert_eq!(lobby.fill(&fill(0, "b", "jumped over")), Err(GameError::WrongClaimant));
    assert_eq!(lobby.gaps()[0].value(), "");
    let response = lobby.fill(&fill(0, "a", "jumped over")).unwrap();
    assert!(response.success);
    assert_eq!(response.message, None);
    assert_eq!(lobby.gaps()[0].value(), "jumped over");
    assert_eq!(lobby.fill(&fill(7, "a", "x")), Err(GameError::NotFound));
}

#[test]
fn fill_is_refused_outside_the_fill_phase() {
    let mut lobby = lobby_of(&["a", "b"]);
    assert_eq!(lobby.fill(&fill(0, "a", "x")), Err(GameError::InvalidPhase));
    let mut lobby = guessing();
    assert_eq!(lobby.fill(&fill(0, "a", "changed my mind")), Err(GameError::InvalidPhase));
    assert_eq!(lobby.gaps()[0].value(), "jumped over");
}

#[test]
fn fill_stores_at_most_140_characters() {
    let mut lobby = filling();
    lobby.claim(&claim(0, "a")).unwrap();
    let exact: String = "x".repeat(140);
    lobby.fill(&fill(0, "a", &exact)).unwrap();
    assert_eq!(lobby.gaps()[0].value(), &exact);
    let long: String = "abcdefghij".repeat(15);
    lobby.fill(&fill(0, "a", &long)).unwrap();
    assert_eq!(lobby.gaps()[0].value().chars().count(), 140);
    assert_eq!(lobby.gaps()[0].value(), &long[..140]);
    let one_more: String = "y".repeat(141);
    lobby.fill(&fill(0, "a", &one_more)).unwrap();
    assert_eq!(lobby.gaps()[0].value(), &"y".repeat(140));
}

#[test]
fn truncate_counts_characters_not_bytes() {
    let umlauts: String = "ä".repeat(150);
    let stored = truncate(&umlauts);
    assert_eq!(stored.chars().count(), 140);
    assert_eq!(stored, "ä".repeat(140));
    assert_eq!(truncate(&"short".to_string()), "short");
    assert_eq!(truncate(&String::new()), "");
    let mixed: String = format!("{}€b", "a".repeat(139));
    assert_eq!(truncate(&mixed), format!("{}€", "a".repeat(139)));
}

#[test]
fn guessing_starts_with_the_last_blank() {
    let mut lobby = filling();
    lobby.claim(&claim(0, "a")).unwrap();
    lobby.claim(&claim(1, "b")).unwrap();
    lobby.fill(&fill(0, "a", "jumped over")).unwrap();
    assert_eq!(lobby.phase(), Phase::Fill);
    assert!(!lobby.all_filled());
    lobby.fill(&fill(1, "b", "")).unwrap();
    assert_eq!(lobby.phase(), Phase::Fill);
    lobby.fill(&fill(0, "a", "leapt over")).unwrap();
    assert_eq!(lobby.phase(), Phase::Fill);
    lobby.fill(&fill(1, "b", "rolled under the")).unwrap();
    assert!(lobby.all_filled());
    assert_eq!(lobby.phase(), Phase::Guess);
}

#[test]
fn the_last_gap_does_not_hold_up_the_guessing() {
    let mut lobby = filling();
    lobby.claim(&claim(2, "a")).unwrap();
    lobby.fill(&fill(2, "a", "not a blank")).unwrap();
    assert_eq!(lobby.phase(), Phase::Fill);
    lobby.claim(&claim(0, "a")).unwrap();
    lobby.claim(&claim(1, "a")).unwrap();
    lobby.fill(&fill(0, "a", "one")).unwrap();
    lobby.fill(&fill(1, "a", "two")).unwrap();
    assert_eq!(lobby.phase(), Phase::Guess);
}

#[test]
fn filled_gaps_shows_the_blanks_without_authors() {
    let lobby = guessing();
    let shown = lobby.filled_gaps(&"b".to_string()).unwrap();
    assert!(shown.success);
    assert_eq!(
        shown.gaps,
        vec![
            GapFilledDTO { gap_id: 0, value: "jumped over".to_string() },
            GapFilledDTO { gap_id: 1, value: "rolled under the".to_string() },
        ]
    );
    assert_eq!(shown.users, vec![user("Ann", "a"), user("Bob", "b")]);
}

#[test]
fn filled_gaps_is_for_players_in_the_guess_phase() {
    assert_eq!(filling().filled_gaps(&"a".to_string()), Err(GameError::InvalidPhase));
    assert_eq!(
        lobby_of(&["a", "b"]).filled_gaps(&"a".to_string()),
        Err(GameError::InvalidPhase)
    );
    assert_eq!(guessing().filled_gaps(&"stranger".to_string()), Err(GameError::NotFound));
    let mut over = guessing();
    over.guess(&guesses("a", vec![])).unwrap();
    over.guess(&guesses("b", vec![])).unwrap();
    assert_eq!(over.filled_gaps(&"a".to_string()), Err(GameError::InvalidPhase));
}

#[test]
fn a_guess_counts_for_the_claimant_of_a_blank() {
    let mut lobby = filling();
    lobby.claim(&claim(0, "a")).unwrap();
    lobby.claim(&claim(2, "b")).unwrap();
    let right = vec![guess(0, "a")];
    assert_eq!(lobby.count_correct(&right), 1);
    assert_eq!(lobby.count_correct(&vec![guess(0, "b")]), 0);
    // gap 1 has a blank but no claimant
    assert_eq!(lobby.count_correct(&vec![guess(1, "a")]), 0);
    // gap 2 has a claimant but no blank
    assert_eq!(lobby.count_correct(&vec![guess(2, "b")]), 0);
    // no gap 9
    assert_eq!(lobby.count_correct(&vec![guess(9, "a")]), 0);
    assert_eq!(lobby.count_correct(&vec![]), 0);
    let many = vec![guess(0, "a"), guess(1, "b"), guess(0, "a"), guess(2, "b"), guess(0, "b")];
    assert_eq!(lobby.count_correct(&many), 2);
}

#[test]
fn guess_sets_the_score_and_ends_the_game_with_the_last_player() {
    let mut lobby = guessing();
    lobby.guess(&guesses("b", vec![guess(0, "a"), guess(1, "b")])).unwrap();
    assert_eq!(lobby.phase(), Phase::Guess);
    assert!(!lobby.all_guessed());
    assert_eq!(lobby.users()[1].correct_guesses(), 2);
    assert!(lobby.users()[1].guessed());
    assert!(!lobby.users()[0].guessed());
    // a second submission replaces the first
    lobby.guess(&guesses("b", vec![guess(0, "b"), guess(1, "b")])).unwrap();
    assert_eq!(lobby.users()[1].correct_guesses(), 1);
    assert_eq!(lobby.phase(), Phase::Guess);
    lobby.guess(&guesses("a", vec![guess(0, "b"), guess(1, "a")])).unwrap();
    assert!(lobby.all_guessed());
    assert_eq!(lobby.phase(), Phase::Ranking);
    assert_eq!(
        lobby.scores(),
        vec![
            GuessScore { name: "Ann".to_string(), token: "a".to_string(), score: 0 },
            GuessScore { name: "Bob".to_string(), token: "b".to_string(), score: 1 },
        ]
    );
}

#[test]
fn guess_is_for_players_in_the_guess_phase() {
    let mut lobby = filling();
    assert_eq!(lobby.guess(&guesses("a", vec![])), Err(GameError::InvalidPhase));
    let mut lobby = guessing();
    assert_eq!(lobby.guess(&guesses("stranger", vec![guess(0, "a")])), Err(GameError::UserNotFound));
    assert_eq!(lobby.phase(), Phase::Guess);
    assert!(!lobby.users()[0].guessed());
    lobby.guess(&guesses("a", vec![])).unwrap();
    lobby.guess(&guesses("b", vec![])).unwrap();
    assert_eq!(lobby.guess(&guesses("a", vec![guess(0, "a")])), Err(GameError::InvalidPhase));
    assert_eq!(lobby.users()[0].correct_guesses(), 0);
}

#[test]
fn guess_goes_to_the_first_player_with_the_token() {
    let mut lobby = lobby_of(&["x", "y"]);
    lobby.join(&user("Ann", "a")).unwrap();
    lobby.join(&user("Twin", "a")).unwrap();
    lobby.start_fill().unwrap();
    lobby.claim(&claim(0, "a")).unwrap();
    lobby.fill(&fill(0, "a", "z")).unwrap();
    assert_eq!(lobby.find_user(&"a".to_string()), Some(0));
    assert_eq!(lobby.find_user(&"b".to_string()), None);
    lobby.guess(&guesses("a", vec![guess(0, "a")])).unwrap();
    assert!(lobby.users()[0].guessed());
    assert_eq!(lobby.users()[0].correct_guesses(), 1);
    assert!(!lobby.users()[1].guessed());
    assert_eq!(lobby.phase(), Phase::Guess);
}

#[test]
fn rejoin_shows_where_the_game_stands() {
    let mut lobby = filling();
    lobby.claim(&claim(0, "a")).unwrap();
    lobby.fill(&fill(0, "a", "jumped over")).unwrap();
    lobby.claim(&claim(1, "b")).unwrap();
    let gap = |id: u32, text: &str, gap_after, claimed, filled, value: Option<&str>, mine| {
        CurrentGapTextDTO {
            id,
            text: text.to_string(),
            gap_after,
            claimed,
            filled,
            gap_value: value.map(|v| v.to_string()),
            filled_by_current_user: mine,
        }
    };
    match lobby.rejoin(&user("Ann", "a")).unwrap() {
        RejoinResponse::Running(state) => {
            assert!(state.success);
            assert_eq!(state.view, "fill");
            assert_eq!(state.users, vec![user("Ann", "a"), user("Bob", "b")]);
            assert_eq!(
                state.current_gap_text,
                vec![
                    gap(0, "The cat", true, true, true, None, true),
                    gap(1, "sat on the", true, true, false, None, false),
                    gap(2, "mat", false, false, false, None, false),
                ]
            );
        }
        RejoinResponse::Finished(_) => panic!("the game is on"),
    }
    lobby.fill(&fill(1, "b", "rolled under the")).unwrap();
    match lobby.rejoin(&user("Bob", "b")).unwrap() {
        RejoinResponse::Running(state) => {
            assert_eq!(state.view, "guess");
            assert_eq!(
                state.current_gap_text,
                vec![
                    gap(0, "The cat", true, true, true, Some("jumped over"), false),
                    gap(1, "sat on the", true, true, true, Some("rolled under the"), true),
                    gap(2, "mat", false, false, false, Some(""), false),
                ]
            );
        }
        RejoinResponse::Finished(_) => panic!("the game is on"),
    }
}

#[test]
fn rejoin_while_waiting_shows_no_content() {
    let mut lobby = lobby_of(&["a", "b"]);
    lobby.join(&user("Ann", "a")).unwrap();
    match lobby.rejoin(&user("Ann", "a")).unwrap() {
        RejoinResponse::Running(state) => {
            assert_eq!(state.view, "waiting");
            assert_eq!(state.current_gap_text.len(), 2);
            assert!(state.current_gap_text.iter().all(|g| g.gap_value.is_none()));
            assert!(state.current_gap_text.iter().all(|g| !g.claimed && !g.filled));
        }
        RejoinResponse::Finished(_) => panic!("the game is on"),
    }
}

#[test]
fn rejoin_needs_name_and_token_before_the_ranking() {
    let lobby = filling();
    assert_eq!(lobby.rejoin(&user("Ann", "b")), Err(GameError::UserNotFound));
    assert_eq!(lobby.rejoin(&user("Bob", "a")), Err(GameError::UserNotFound));
    assert_eq!(lobby.rejoin(&user("Cid", "c")), Err(GameError::UserNotFound));
    assert!(lobby.rejoin(&user("Bob", "b")).is_ok());
    assert!(lobby.has_player(&user("Ann", "a")));
    assert!(!lobby.has_player(&user("Ann", "b")));
}

#[test]
fn rejoin_after_the_ranking_is_stable() {
    let mut lobby = guessing();
    lobby.guess(&guesses("a", vec![guess(1, "b")])).unwrap();
    lobby.guess(&guesses("b", vec![guess(1, "a")])).unwrap();
    let first = lobby.rejoin(&user("Ann", "a")).unwrap();
    match &first {
        RejoinResponse::Finished(end) => {
            assert!(end.success);
            assert_eq!(end.view, "ranking");
            assert_eq!(
                end.value,
                vec![
                    GuessScore { name: "Ann".to_string(), token: "a".to_string(), score: 1 },
                    GuessScore { name: "Bob".to_string(), token: "b".to_string(), score: 0 },
                ]
            );
        }
        RejoinResponse::Running(_) => panic!("the game is over"),
    }
    // whatever is tried in between, and whoever asks
    assert!(lobby.join(&user("Cid", "c")).is_err());
    assert!(lobby.start_fill().is_err());
    assert!(lobby.claim(&claim(2, "a")).is_err());
    assert!(lobby.fill(&fill(0, "a", "other")).is_err());
    assert!(lobby.guess(&guesses("a", vec![])).is_err());
    for _ in 0..3 {
        assert_eq!(lobby.rejoin(&user("Ann", "a")).unwrap(), first);
        assert_eq!(lobby.rejoin(&user("Stranger", "x")).unwrap(), first);
    }
}

#[test]
fn a_gap_alone_is_claimed_once_and_filled_by_its_claimant() {
    let mut gap = Gap::new(4, "and then".to_string(), true);
    assert_eq!(gap.id(), 4);
    assert!(!gap.is_complete());
    assert_eq!(gap.fill(&"a".to_string(), &"x".to_string()), Err(GameError::NotClaimed));
    assert_eq!(gap.claim("a".to_string()), Ok(()));
    assert_eq!(gap.claim("b".to_string()), Err(GameError::AlreadyClaimed));
    assert_eq!(gap.claim("a".to_string()), Err(GameError::AlreadyClaimed));
    assert_eq!(gap.filled_by(), Some(&"a".to_string()));
    assert!(!gap.is_complete());
    assert_eq!(gap.fill(&"b".to_string(), &"x".to_string()), Err(GameError::WrongClaimant));
    assert_eq!(gap.value(), "");
    assert_eq!(gap.fill(&"a".to_string(), &"x".to_string()), Ok(()));
    assert_eq!(gap.value(), "x");
    assert!(gap.is_complete());
    assert!(gap.is_by(&"a".to_string()));
    assert!(!gap.is_by(&"b".to_string()));
    let mut last = Gap::new(5, "the end".to_string(), false);
    last.claim("a".to_string()).unwrap();
    assert!(!last.is_by(&"a".to_string()));
}

#[test]
fn a_new_user_has_no_score() {
    let user = User::new("Ann".to_string(), "a".to_string());
    assert_eq!(user.name(), "Ann");
    assert_eq!(user.token(), "a");
    assert_eq!(user.correct_guesses(), 0);
    assert!(!user.guessed());
}

#[test]
fn roster_and_others_keep_the_order_of_joining() {
    let mut lobby = lobby_of(&["a", "b"]);
    for (name, token) in [("Ann", "a"), ("Bob", "b"), ("Cid", "c"), ("Dee", "b")] {
        lobby.join(&user(name, token)).unwrap();
    }
    assert_eq!(
        lobby.roster(),
        vec![user("Ann", "a"), user("Bob", "b"), user("Cid", "c"), user("Dee", "b")]
    );
    assert_eq!(lobby.others(&"b".to_string()), vec![user("Ann", "a"), user("Cid", "c")]);
    assert_eq!(lobby.others(&"z".to_string()).len(), 4);
    assert_eq!(lobby.outline().len(), 2);
}
