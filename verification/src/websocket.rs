use vstd::prelude::*;
use tokio::sync::broadcast::Sender;
use crate::model::{LobbyModel, UserModel};
use crate::objects::Lobby;
use crate::registry::Registry;
use crate::ws_dto::{WSAuthMessage, WSMessage};

verus! {

/// What a connection has read from its client.
#[derive(Clone, Debug, PartialEq, Eq)]
pub enum Frame {
    /// Reading failed.
    Failed,
    /// A frame that is not text.
    NotText,
    /// A text frame that is no authentication message.
    Malformed,
    /// A text frame that reads as an authentication message.
    Auth(WSAuthMessage),
}

/// What a connection does after a frame.
#[derive(Clone, Copy, Debug, PartialEq, Eq, Structural)]
pub enum Verdict {
    /// Go on reading.
    Continue,
    /// End the connection, and with it the task that sends to the client.
    Close,
}

impl LobbyModel {
    /// Whether a client that sends this tag and token is let in: the tag is
    /// "auth", and exactly one player has the token.
    pub open spec fn admits(self, obj: Seq<char>, token: Seq<char>) -> bool {
        obj == "auth"@ && self.holders(token) == 1
    }
}

/// What a frame leads to on a connection to a lobby with this state, or to
/// none if the lobby is gone: frames that are not text are passed over, an
/// authentication that the lobby admits keeps the connection, and
/// everything else ends it.
pub open spec fn verdict(lobby: Option<LobbyModel>, frame: Frame) -> Verdict {
    match frame {
        Frame::NotText => Verdict::Continue,
        Frame::Auth(auth) => if lobby matches Some(l) && l.admits(auth.obj@, auth.token@) {
            Verdict::Continue
        } else {
            Verdict::Close
        },
        _ => Verdict::Close,
    }
}

impl Lobby {
    /// The sending half of the lobby's channel, from which a connection subscribes.
    pub fn sender(&self) -> (tx: &Sender<WSMessage>)
        ensures
            *tx == self.channel(),
    {
        self.game.tx.sender()
    }

    /// The sending half of the lobby's channel.
    pub open(crate) spec fn channel(&self) -> Sender<WSMessage> {
        self.game.tx.channel()
    }

    /// How many players have `token`.
    pub fn holders(&self, token: &String) -> (count: usize)
        ensures
            count == self@.holders(token@),
    {
        let mut count: usize = 0;
        let mut i: usize = 0;
        let ghost has = |u: UserModel| u.token == token@;
        proof {
            reveal(Seq::filter);
            assert(self@.users.take(0) =~= Seq::<UserModel>::empty());
        }
        while i < self.users.len()
            invariant
                i <= self.users.len(),
                count <= i,
                has == |u: UserModel| u.token == token@,
                count == self@.users.take(i as int).filter(has).len(),
            decreases self.users.len() - i,
        {
            proof {
                broadcast use Seq::lemma_filter_len_push;

                assert(self@.users.take(i + 1) =~= self@.users.take(i as int).push(
                    self@.users[i as int],
                ));
            }
            if self.users[i].token == *token {
                count += 1;
            }
            i += 1;
        }
        assert(self@.users.take(self.users.len() as int) =~= self@.users);
        count
    }

    /// Whether a client that sends `auth` is let in.
    pub fn admits(&self, auth: &WSAuthMessage) -> (admitted: bool)
        ensures
            admitted == self@.admits(auth.obj@, auth.token@),
    {
        auth.obj == "auth".to_string() && self.holders(&auth.token) == 1
    }
}

impl Registry {
    /// What a connection to the lobby with the code `code` does after `frame`.
    pub fn on_frame(&self, code: &String, frame: &Frame) -> (next: Verdict)
        requires
            self.wf(),
        ensures
            next == verdict(
                if self@.contains_key(code@) {
                    Some(self@[code@])
                } else {
                    None
                },
                *frame,
            ),
    {
        match frame {
            Frame::NotText => Verdict::Continue,
            Frame::Auth(auth) => match self.get(code) {
                Some(lobby) => if lobby.admits(auth) {
                    Verdict::Continue
                } else {
                    Verdict::Close
                },
                None => Verdict::Close,
            },
            _ => Verdict::Close,
        }
    }
}

} // verus!
