use tokio::sync::broadcast::error::TryRecvError;
use wordweaver::dto::{GapClaimDTO, GapFillDTO, GuessesDTO, UserDTO};
use wordweaver::error::GameError;
use wordweaver::notify::{Delivery, Notifier, CHANNEL_CAPACITY};
use wordweaver::objects::Lobby;
use wordweaver::phase::Phase;
use wordweaver::ws_dto::{GuessScore, TempUser, WSMessage};

fn user(name: &str, token: &str) -> UserDTO {
    UserDTO { name: name.to_string(), token: token.to_string() }
}

fn lobby_of(segments: &[&str]) -> Lobby {
    Lobby::new(segments.iter().map(|s| s.to_string()).collect())
}

#[test]
fn each_kind_of_event_has_its_tag_and_payload() {
    let joined = WSMessage::user_joined("Ann".to_string(), "a".to_string());
    assert_eq!(
        joined,
        WSMessage::UserJoined(TempUser { name: "Ann".to_string(), token: "a".to_string() })
    );
    assert_eq!(joined.obj(), "user_joined");
    let scores = vec![GuessScore { name: "Ann".to_string(), token: "a".to_string(), score: 3 }];
    assert_eq!(WSMessage::guess_scores(scores.clone()), WSMessage::GuessScores(scores.clone()));
    assert_eq!(WSMessage::guess_scores(scores).obj(), "guess_scores");
    assert_eq!(WSMessage::change_view(Phase::Fill), WSMessage::ChangeView(Phase::Fill));
    assert_eq!(WSMessage::change_view(Phase::Fill).obj(), "change_view");
    assert_eq!(WSMessage::gap_claimed(7), WSMessage::GapClaimed(7));
    assert_eq!(WSMessage::gap_claimed(7).obj(), "gap_claimed");
    assert_eq!(WSMessage::gap_filled(8), WSMessage::GapFilled(8));
    assert_eq!(WSMessage::gap_filled(8).obj(), "gap_filled");
    assert_eq!(WSMessage::start_guessing(10), WSMessage::StartGuessing(10));
    assert_eq!(WSMessage::start_guessing(10).obj(), "start_guessing");
    assert_eq!(WSMessage::guessed("a".to_string()), WSMessage::Guessed("a".to_string()));
    assert_eq!(WSMessage::guessed("a".to_string()).obj(), "guessed");
}

#[test]
fn phases_have_their_names_and_order() {
    assert_eq!(Phase::Waiting.name(), "waiting");
    assert_eq!(Phase::Fill.name(), "fill");
    assert_eq!(Phase::Guess.name(), "guess");
    assert_eq!(Phase::Ranking.name(), "ranking");
    let order = [Phase::Waiting, Phase::Fill, Phase::Guess, Phase::Ranking];
    for (i, a) in order.iter().enumerate() {
        for (j, b) in order.iter().enumerate() {
            assert_eq!(a.is_past(*b), i > j);
        }
    }
}

#[test]
fn errors_have_their_status() {
    assert_eq!(GameError::NotFound.status_code(), 404);
    assert_eq!(GameError::UserNotFound.status_code(), 404);
    assert_eq!(GameError::InvalidPhase.status_code(), 400);
    assert_eq!(GameError::NotClaimed.status_code(), 400);
    assert_eq!(GameError::AlreadyClaimed.status_code(), 400);
    assert_eq!(GameError::WrongClaimant.status_code(), 400);
    assert_eq!(GameError::BroadcastFailure.status_code(), 500);
    assert_eq!(GameError::ConfigurationFailure.status_code(), 500);
}

#[test]
fn a_notifier_without_subscribers_takes_nothing() {
    let mut notifier = Notifier::new();
    assert_eq!(notifier.sender().receiver_count(), 0);
    assert!(!notifier.publish(WSMessage::gap_claimed(1)));
    assert_eq!(notifier.announce(WSMessage::gap_claimed(1)), Delivery::NoSubscribers);
    let mut rx = notifier.sender().subscribe();
    assert_eq!(rx.try_recv(), Err(TryRecvError::Empty));
    assert!(notifier.publish(WSMessage::gap_claimed(2)));
    assert_eq!(notifier.announce(WSMessage::gap_claimed(3)), Delivery::Sent);
    assert_eq!(rx.try_recv(), Ok(WSMessage::gap_claimed(2)));
    assert_eq!(rx.try_recv(), Ok(WSMessage::gap_claimed(3)));
    assert_eq!(rx.try_recv(), Err(TryRecvError::Empty));
    drop(rx);
    assert_eq!(notifier.announce(WSMessage::gap_claimed(4)), Delivery::NoSubscribers);
}

#[test]
fn every_subscriber_sees_every_event() {
    let mut notifier = Notifier::new();
    let mut one = notifier.sender().subscribe();
    let mut two = notifier.sender().subscribe();
    assert!(notifier.publish(WSMessage::start_guessing(10)));
    assert_eq!(one.try_recv(), Ok(WSMessage::start_guessing(10)));
    assert_eq!(two.try_recv(), Ok(WSMessage::start_guessing(10)));
}

#[test]
fn the_channel_keeps_what_its_capacity_allows() {
    assert_eq!(CHANNEL_CAPACITY, 100);
    let mut notifier = Notifier::new();
    let mut rx = notifier.sender().subscribe();
    for i in 0..100 {
        assert!(notifier.publish(WSMessage::gap_claimed(i)));
    }
    for i in 0..100 {
        assert_eq!(rx.try_recv(), Ok(WSMessage::gap_claimed(i)));
    }
}

#[test]
fn join_without_subscriber_succeeds_in_silence() {
    let mut lobby = lobby_of(&["a", "b"]);
    assert!(lobby.join(&user("Ann", "a")).is_ok());
    let mut rx = lobby.sender().subscribe();
    assert_eq!(rx.try_recv(), Err(TryRecvError::Empty));
    assert!(lobby.join(&user("Bob", "b")).is_ok());
    assert_eq!(rx.try_recv(), Ok(WSMessage::user_joined("Bob".to_string(), "b".to_string())));
}

#[test]
fn operations_succeed_without_subscribers() {
    let mut lobby = lobby_of(&["a", "b"]);
    lobby.join(&user("Ann", "a")).unwrap();
    lobby.start_fill().unwrap();
    lobby.claim(&GapClaimDTO { gap_id: 0, token: "a".to_string() }).unwrap();
    lobby
        .fill(&GapFillDTO { gap_id: 0, token: "a".to_string(), content: "x".to_string() })
        .unwrap();
    lobby.guess(&GuessesDTO { token: "a".to_string(), guesses: vec![] }).unwrap();
    assert_eq!(lobby.phase(), Phase::Ranking);
}

#[test]
fn refused_operations_announce_nothing() {
    let mut lobby = lobby_of(&["a", "b"]);
    let mut rx = lobby.sender().subscribe();
    assert!(lobby.claim(&GapClaimDTO { gap_id: 0, token: "a".to_string() }).is_err());
    assert!(lobby.guess(&GuessesDTO { token: "a".to_string(), guesses: vec![] }).is_err());
    lobby.start_fill().unwrap();
    assert!(lobby.start_fill().is_err());
    assert!(lobby.join(&user("Ann", "a")).is_err());
    assert!(lobby.claim(&GapClaimDTO { gap_id: 5, token: "a".to_string() }).is_err());
    assert!(lobby
        .fill(&GapFillDTO { gap_id: 0, token: "a".to_string(), content: "x".to_string() })
        .is_err());
    assert_eq!(rx.try_recv(), Ok(WSMessage::change_view(Phase::Fill)));
    assert_eq!(rx.try_recv(), Err(TryRecvError::Empty));
}

#[test]
fn start_guessing_is_announced_exactly_once() {
    let mut lobby = lobby_of(&["a", "b", "c"]);
    let mut rx = lobby.sender().subscribe();
    lobby.join(&user("Ann", "a")).unwrap();
    lobby.start_fill().unwrap();
    lobby.claim(&GapClaimDTO { gap_id: 0, token: "a".to_string() }).unwrap();
    lobby.claim(&GapClaimDTO { gap_id: 1, token: "a".to_string() }).unwrap();
    let fill = |gap_id: u32, content: &str| GapFillDTO {
        gap_id,
        token: "a".to_string(),
        content: content.to_string(),
    };
    lobby.fill(&fill(0, "one")).unwrap();
    lobby.fill(&fill(0, "one again")).unwrap();
    lobby.fill(&fill(1, "two")).unwrap();
    assert!(lobby.fill(&fill(1, "two again")).is_err());
    let mut seen = Vec::new();
    while let Ok(msg) = rx.try_recv() {
        seen.push(msg);
    }
    assert_eq!(
        seen,
        vec![
            WSMessage::user_joined("Ann".to_string(), "a".to_string()),
            WSMessage::change_view(Phase::Fill),
            WSMessage::gap_claimed(0),
            WSMessage::gap_claimed(1),
            WSMessage::gap_filled(0),
            WSMessage::gap_filled(0),
            WSMessage::gap_filled(1),
            WSMessage::start_guessing(10),
        ]
    );
}

#[test]
fn delivery_follows_what_the_channel_answered() {
    assert_eq!(Delivery::of(0, false), Delivery::NoSubscribers);
    assert_eq!(Delivery::of(0, true), Delivery::NoSubscribers);
    assert_eq!(Delivery::of(1, true), Delivery::Sent);
    assert_eq!(Delivery::of(3, true), Delivery::Sent);
    assert_eq!(Delivery::of(1, false), Delivery::Failed);
    assert_eq!(Delivery::of(usize::MAX, false), Delivery::Failed);
}
