use vstd::prelude::*;
use crate::dto::{BaseResponse, BaseStringDTO, GameDTO, Override};
use crate::error::GameError;
use crate::lemmas::lemma_start_fill_wf;
use crate::objects::Lobby;
use crate::phase::Phase;
use crate::registry::Registry;
use crate::ws_dto::WSMessage;

verus! {

impl Lobby {
    /// Starts the fill phase. That is done once, from the waiting phase, and
    /// announced as "change view"; in any later phase the request is
    /// refused and changes nothing, so that no phase is ever entered again.
    pub fn start_fill(&mut self) -> (r: Result<BaseResponse, GameError>)
        requires
            old(self).wf(),
        ensures
            final(self).wf(),
            match r {
                Ok(response) => {
                    &&& old(self)@.start_fill_error() is None
                    &&& final(self)@ == old(self)@.after_start_fill()
                    &&& response.success
                    &&& response.message is None
                },
                Err(e) => {
                    &&& old(self)@.start_fill_error() == Some(e)
                    &&& final(self)@ == old(self)@
                },
            },
    {
        if self.game.view != Phase::Waiting {
            return Err(GameError::InvalidPhase);
        }
        self.game.view = Phase::Fill;
        self.game.tx.publish(WSMessage::change_view(Phase::Fill));
        proof {
            lemma_start_fill_wf(old(self)@);
        }
        Ok(BaseResponse::ok())
    }
}

impl Registry {
    /// Starts the fill phase in the lobby with the code `code`: `NotFound`
    /// if there is none, and otherwise what `Lobby::start_fill` does and
    /// answers. No other lobby is touched.
    pub fn start_fill(&mut self, code: &String) -> (r: Result<BaseResponse, GameError>)
        requires
            old(self).wf(),
        ensures
            final(self).wf(),
            match r {
                Ok(response) => {
                    &&& old(self)@.contains_key(code@)
                    &&& old(self)@[code@].start_fill_error() is None
                    &&& final(self)@ == old(self)@.insert(
                        code@,
                        old(self)@[code@].after_start_fill(),
                    )
                    &&& response.success
                    &&& response.message is None
                },
                Err(e) => {
                    &&& final(self)@ == old(self)@
                    &&& if old(self)@.contains_key(code@) {
                        old(self)@[code@].start_fill_error() == Some(e)
                    } else {
                        e == GameError::NotFound
                    }
                },
            },
    {
        match self.get_mut(code) {
            None => Err(GameError::NotFound),
            Some(lobby) => {
                let r = lobby.start_fill();
                assert(old(self)@.insert(code@, old(self)@[code@]) =~= old(self)@);
                r
            },
        }
    }

    /// Closes the lobby with the code `code`, with its players and its
    /// game: `NotFound` if there is none. No other lobby is touched.
    pub fn close(&mut self, code: &String) -> (r: Result<BaseResponse, GameError>)
        requires
            old(self).wf(),
        ensures
            final(self).wf(),
            final(self)@ == old(self)@.remove(code@),
            match r {
                Ok(response) => {
                    &&& old(self)@.contains_key(code@)
                    &&& response.success
                    &&& response.message is None
                },
                Err(e) => !old(self)@.contains_key(code@) && e == GameError::NotFound,
            },
    {
        if self.remove(code) {
            Ok(BaseResponse::ok())
        } else {
            Err(GameError::NotFound)
        }
    }

    /// The live lobbies, each once, by code.
    pub fn active_games(&self) -> (games: Vec<BaseStringDTO>)
        requires
            self.wf(),
        ensures
            games@.map_values(|g: BaseStringDTO| g.name@).no_duplicates(),
            games@.map_values(|g: BaseStringDTO| g.name@).to_set() == self@.dom(),
    {
        let codes = self.list_codes();
        let ghost listed = codes.deep_view();
        let mut games: Vec<BaseStringDTO> = Vec::new();
        let mut i: usize = 0;
        while i < codes.len()
            invariant
                i <= codes.len(),
                games.len() == i,
                codes.deep_view() == listed,
                forall|k: int| 0 <= k < i ==> (#[trigger] games[k]).name@ == listed[k],
            decreases codes.len() - i,
        {
            games.push(BaseStringDTO { name: codes[i].clone() });
            i += 1;
        }
        assert(games@.map_values(|g: BaseStringDTO| g.name@) =~= listed);
        games
    }
}

/// What the template store answered when asked for one template by name.
#[derive(Clone, Debug, PartialEq, Eq)]
pub enum Fetched {
    /// The store could not be reached.
    Unreachable,
    /// The store has no template of that name.
    Missing,
    /// The store has this template under that name.
    Found(GameDTO),
}

/// The template to start a lobby from, given the store's answer: the one
/// that was found; `NotFound` if the store has none of that name, and
/// `ConfigurationFailure` if the store could not be reached.
pub fn template_of(answer: Fetched) -> (r: Result<GameDTO, GameError>)
    ensures
        match answer {
            Fetched::Unreachable => r == Err::<GameDTO, GameError>(
                GameError::ConfigurationFailure,
            ),
            Fetched::Missing => r == Err::<GameDTO, GameError>(GameError::NotFound),
            Fetched::Found(template) => r == Ok::<GameDTO, GameError>(template),
        },
{
    match answer {
        Fetched::Unreachable => Err(GameError::ConfigurationFailure),
        Fetched::Missing => Err(GameError::NotFound),
        Fetched::Found(template) => Ok(template),
    }
}

/// What the template store has just answered, while a template is saved.
#[derive(Clone, Copy, Debug, PartialEq, Eq, Structural)]
pub enum StoreEvent {
    /// The store could not say whether a template of that name exists.
    LookupFailed,
    /// No template of that name exists.
    Absent,
    /// A template of that name exists.
    Present,
    /// The existing template was deleted, or could not be.
    Deleted(bool),
    /// The new template was inserted, or could not be.
    Inserted(bool),
}

/// How the saving of a template ended.
#[derive(Clone, Copy, Debug, PartialEq, Eq, Structural)]
pub enum SaveOutcome {
    Saved,
    AlreadyExists,
    LookupFailed,
    DeleteFailed,
    InsertFailed,
}

/// What to do next, while a template is saved.
#[derive(Clone, Copy, Debug, PartialEq, Eq, Structural)]
pub enum StoreAction {
    /// Delete the template of that name.
    Delete,
    /// Insert the new template.
    Insert,
    /// Answer the request.
    Reply(SaveOutcome),
}

/// The next step of saving a template. A template whose name is free is
/// inserted. One whose name is taken is refused, unless the request forces
/// it: then the old one is deleted and the new one inserted. Whatever the
/// store fails at ends the saving.
pub open spec fn next_step(event: StoreEvent, force: Option<bool>) -> StoreAction {
    match event {
        StoreEvent::LookupFailed => StoreAction::Reply(SaveOutcome::LookupFailed),
        StoreEvent::Absent => StoreAction::Insert,
        StoreEvent::Present => if force == Some(true) {
            StoreAction::Delete
        } else {
            StoreAction::Reply(SaveOutcome::AlreadyExists)
        },
        StoreEvent::Deleted(done) => if done {
            StoreAction::Insert
        } else {
            StoreAction::Reply(SaveOutcome::DeleteFailed)
        },
        StoreEvent::Inserted(done) => if done {
            StoreAction::Reply(SaveOutcome::Saved)
        } else {
            StoreAction::Reply(SaveOutcome::InsertFailed)
        },
    }
}

/// What to do after the store's answer `event`, for a request that carries `force`.
pub fn plan_save(event: StoreEvent, force: &Override) -> (action: StoreAction)
    ensures
        action == next_step(event, force.force),
{
    match event {
        StoreEvent::LookupFailed => StoreAction::Reply(SaveOutcome::LookupFailed),
        StoreEvent::Absent => StoreAction::Insert,
        StoreEvent::Present => {
            let forced = match force.force {
                Some(flag) => flag,
                None => false,
            };
            if forced {
                StoreAction::Delete
            } else {
                StoreAction::Reply(SaveOutcome::AlreadyExists)
            }
        },
        StoreEvent::Deleted(done) => if done {
            StoreAction::Insert
        } else {
            StoreAction::Reply(SaveOutcome::DeleteFailed)
        },
        StoreEvent::Inserted(done) => if done {
            StoreAction::Reply(SaveOutcome::Saved)
        } else {
            StoreAction::Reply(SaveOutcome::InsertFailed)
        },
    }
}

impl SaveOutcome {
    /// The HTTP status under which an outcome is reported.
    pub open spec fn status(self) -> u16 {
        match self {
            SaveOutcome::Saved => 200,
            SaveOutcome::AlreadyExists => 409,
            _ => 500,
        }
    }

    /// The words in which an outcome is reported.
    pub open spec fn words(self) -> Seq<char> {
        match self {
            SaveOutcome::Saved => "Game saved"@,
            SaveOutcome::AlreadyExists => "Game already exists"@,
            SaveOutcome::LookupFailed => "Failed to check if game exists"@,
            SaveOutcome::DeleteFailed => "Failed to delete game to update existing game"@,
            SaveOutcome::InsertFailed => "Failed to insert game"@,
        }
    }

    /// The HTTP status under which this outcome is reported: 200 for a saved
    /// template, 409 for a name that is taken, 500 for a failure of the store.
    pub fn status_code(self) -> (code: u16)
        ensures
            code == self.status(),
    {
        match self {
            SaveOutcome::Saved => 200,
            SaveOutcome::AlreadyExists => 409,
            _ => 500,
        }
    }

    /// The answer that reports this outcome: successful only for a saved
    /// template, and always with the outcome in words.
    pub fn response(self) -> (response: BaseResponse)
        ensures
            response.success == (self == SaveOutcome::Saved),
            response.message matches Some(message) && message@ == self.words(),
    {
        let message = match self {
            SaveOutcome::Saved => "Game saved".to_string(),
            SaveOutcome::AlreadyExists => "Game already exists".to_string(),
            SaveOutcome::LookupFailed => "Failed to check if game exists".to_string(),
            SaveOutcome::DeleteFailed => {
                "Failed to delete game to update existing game".to_string()
            },
            SaveOutcome::InsertFailed => "Failed to insert game".to_string(),
        };
        let success = match self {
            SaveOutcome::Saved => true,
            _ => false,
        };
        BaseResponse { success, message: Some(message) }
    }
}

} // verus!
