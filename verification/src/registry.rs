use vstd::prelude::*;
use crate::dto::GameDTO;
use crate::model::LobbyModel;
use crate::objects::Lobby;
use crate::utils::{id_generator, is_code};

verus! {

/// The length of a lobby code.
pub const CODE_LENGTH: usize = 6;

/// A live lobby under its code.
pub struct Entry {
    pub(crate) code: String,
    pub(crate) lobby: Lobby,
}

/// The live lobbies of the process, each under its own code.
pub struct Registry {
    pub(crate) entries: Vec<Entry>,
}

impl Registry {
    /// Whether entry `i` has the code `code`.
    pub open(crate) spec fn holds(&self, code: Seq<char>, i: int) -> bool {
        0 <= i < self.entries.len() && self.entries[i].code@ == code
    }

    /// The place of the entry with the code `code`.
    pub open(crate) spec fn place(&self, code: Seq<char>) -> int {
        choose|i: int| self.holds(code, i)
    }

    /// No code occurs twice.
    pub open(crate) spec fn distinct(&self) -> bool {
        forall|i: int, j: int|
            0 <= i < j < self.entries.len() ==> (#[trigger] self.entries[i]).code@
                != (#[trigger] self.entries[j]).code@
    }

    /// No code occurs twice, and every lobby is well formed.
    pub open(crate) spec fn wf(&self) -> bool {
        &&& self.distinct()
        &&& forall|i: int| 0 <= i < self.entries.len() ==> (#[trigger] self.entries[i]).lobby.wf()
    }
}

impl View for Registry {
    type V = Map<Seq<char>, LobbyModel>;

    open(crate) spec fn view(&self) -> Map<Seq<char>, LobbyModel> {
        Map::new(
            |code: Seq<char>| exists|i: int| self.holds(code, i),
            |code: Seq<char>| self.entries[self.place(code)].lobby@,
        )
    }
}

impl Registry {
    /// In a well-formed registry a code has one place.
    pub(crate) proof fn lemma_place(&self, code: Seq<char>, i: int)
        requires
            self.distinct(),
            self.holds(code, i),
        ensures
            self.place(code) == i,
            self@.contains_key(code),
            self@[code] == self.entries[i].lobby@,
    {
        let p = self.place(code);
        assert(self.holds(code, p));
        if p < i {
            assert(self.entries[p].code@ != self.entries[i].code@);
        }
        if i < p {
            assert(self.entries[i].code@ != self.entries[p].code@);
        }
    }

    /// A registry in which the lobby at one place was changed holds the new
    /// lobby under that place's code, and every other lobby as before.
    pub(crate) proof fn lemma_replaced(&self, after: Registry, code: Seq<char>, i: int)
        requires
            self.wf(),
            self.holds(code, i),
            after.entries@ == self.entries@.update(
                i,
                Entry { code: self.entries[i].code, lobby: after.entries[i].lobby },
            ),
        ensures
            after.distinct(),
            after@ == self@.insert(code, after.entries[i].lobby@),
            after.entries[i].lobby.wf() ==> after.wf(),
    {
        assert(after.distinct()) by {
            assert forall|a: int, b: int| 0 <= a < b < after.entries.len() implies (
            #[trigger] after.entries[a]).code@ != (#[trigger] after.entries[b]).code@ by {
                assert(self.entries[a].code@ != self.entries[b].code@);
            }
        }
        let target = self@.insert(code, after.entries[i].lobby@);
        assert forall|k: Seq<char>| after@.contains_key(k) <==> target.contains_key(k) by {
            if after@.contains_key(k) {
                let j = choose|j: int| after.holds(k, j);
                assert(self.holds(k, j));
            }
            if target.contains_key(k) {
                if k == code {
                    assert(after.holds(k, i));
                } else {
                    let j = choose|j: int| self.holds(k, j);
                    assert(after.holds(k, j));
                }
            }
        }
        assert forall|k: Seq<char>| after@.contains_key(k) implies after@[k] == target[k] by {
            let j = choose|j: int| after.holds(k, j);
            after.lemma_place(k, j);
            assert(self.holds(k, j));
            self.lemma_place(k, j);
            if k == code {
                self.lemma_place(code, i);
            }
        }
        assert(after@ =~= target);
        if after.entries[i].lobby.wf() {
            assert forall|j: int| 0 <= j < after.entries.len() implies (
            #[trigger] after.entries[j]).lobby.wf() by {
                if j != i {
                    assert(self.entries[j].lobby.wf());
                }
            }
        }
    }

    /// A registry without lobbies.
    pub fn new() -> (registry: Registry)
        ensures
            registry.wf(),
            registry@ == Map::<Seq<char>, LobbyModel>::empty(),
    {
        let registry = Registry { entries: Vec::new() };
        assert(registry@ =~= Map::<Seq<char>, LobbyModel>::empty());
        registry
    }

    /// The place of the lobby with the code `code`, if there is one.
    pub(crate) fn find(&self, code: &String) -> (place: Option<usize>)
        requires
            self.wf(),
        ensures
            match place {
                Some(i) => self.holds(code@, i as int),
                None => !self@.contains_key(code@),
            },
    {
        let mut i: usize = 0;
        while i < self.entries.len()
            invariant
                i <= self.entries.len(),
                forall|k: int| 0 <= k < i ==> !self.holds(code@, k),
            decreases self.entries.len() - i,
        {
            if self.entries[i].code == *code {
                return Some(i);
            }
            i += 1;
        }
        None
    }

    /// Whether a lobby has the code `code`.
    pub fn contains(&self, code: &String) -> (found: bool)
        requires
            self.wf(),
        ensures
            found == self@.contains_key(code@),
    {
        match self.find(code) {
            Some(i) => {
                proof {
                    self.lemma_place(code@, i as int);
                }
                true
            },
            None => false,
        }
    }

    /// The lobby with the code `code`, if there is one.
    pub fn get(&self, code: &String) -> (found: Option<&Lobby>)
        requires
            self.wf(),
        ensures
            match found {
                Some(lobby) => self@.contains_key(code@) && lobby@ == self@[code@] && lobby.wf(),
                None => !self@.contains_key(code@),
            },
    {
        match self.find(code) {
            Some(i) => {
                proof {
                    self.lemma_place(code@, i as int);
                }
                Some(&self.entries[i].lobby)
            },
            None => None,
        }
    }

    /// The lobby with the code `code`, to be changed, if there is one. What
    /// the caller makes of the lobby is what the registry then holds under
    /// that code; every other lobby stays as it is.
    pub fn get_mut(&mut self, code: &String) -> (found: Option<&mut Lobby>)
        requires
            old(self).wf(),
        ensures
            match found {
                Some(lobby) => {
                    &&& old(self)@.contains_key(code@)
                    &&& lobby@ == old(self)@[code@]
                    &&& lobby.wf()
                    &&& final(lobby).wf() ==> final(self).wf()
                    &&& final(self)@ == old(self)@.insert(code@, final(lobby)@)
                },
                None => {
                    &&& !old(self)@.contains_key(code@)
                    &&& final(self)@ == old(self)@
                    &&& final(self).wf()
                },
            },
    {
        match self.find(code) {
            Some(i) => {
                proof {
                    self.lemma_place(code@, i as int);
                }
                assert forall|after: Registry|
                    after.entries@ == self.entries@.update(
                        i as int,
                        Entry {
                            code: self.entries[i as int].code,
                            lobby: after.entries[i as int].lobby,
                        },
                    ) implies (#[trigger] after@) == self@.insert(
                    code@,
                    after.entries[i as int].lobby@,
                ) && (after.entries[i as int].lobby.wf() ==> after.wf()) by {
                    self.lemma_replaced(after, code@, i as int);
                }
                Some(&mut self.entries[i].lobby)
            },
            None => None,
        }
    }
}

impl Registry {
    /// A registry with one more entry, under a code that was free, holds the
    /// new lobby under that code, and every other lobby as before.
    pub(crate) proof fn lemma_pushed(&self, after: Registry, entry: Entry)
        requires
            self.wf(),
            !self@.contains_key(entry.code@),
            entry.lobby.wf(),
            after.entries@ == self.entries@.push(entry),
        ensures
            after.wf(),
            after@ == self@.insert(entry.code@, entry.lobby@),
    {
        let last = self.entries.len() as int;
        assert(after.distinct()) by {
            assert forall|a: int, b: int| 0 <= a < b < after.entries.len() implies (
            #[trigger] after.entries[a]).code@ != (#[trigger] after.entries[b]).code@ by {
                if b == last {
                    if after.entries[a].code@ == entry.code@ {
                        assert(self.holds(entry.code@, a));
                    }
                } else {
                    assert(self.entries[a].code@ != self.entries[b].code@);
                }
            }
        }
        let target = self@.insert(entry.code@, entry.lobby@);
        assert forall|k: Seq<char>| after@.contains_key(k) <==> target.contains_key(k) by {
            if after@.contains_key(k) {
                let j = choose|j: int| after.holds(k, j);
                if j != last {
                    assert(self.holds(k, j));
                }
            }
            if target.contains_key(k) {
                if k == entry.code@ {
                    assert(after.holds(k, last));
                } else {
                    let j = choose|j: int| self.holds(k, j);
                    assert(after.holds(k, j));
                }
            }
        }
        assert forall|k: Seq<char>| after@.contains_key(k) implies after@[k] == target[k] by {
            let j = choose|j: int| after.holds(k, j);
            after.lemma_place(k, j);
            if j != last {
                assert(self.holds(k, j));
                self.lemma_place(k, j);
            }
        }
        assert(after@ =~= target);
    }

    /// A registry from which the entry at one place was taken holds every
    /// lobby as before, but the one under that place's code.
    pub(crate) proof fn lemma_removed(&self, after: Registry, code: Seq<char>, i: int)
        requires
            self.wf(),
            self.holds(code, i),
            after.entries@ == self.entries@.remove(i),
        ensures
            after.wf(),
            after@ == self@.remove(code),
    {
        assert(after.distinct()) by {
            assert forall|a: int, b: int| 0 <= a < b < after.entries.len() implies (
            #[trigger] after.entries[a]).code@ != (#[trigger] after.entries[b]).code@ by {
                let a0 = if a < i { a } else { a + 1 };
                let b0 = if b < i { b } else { b + 1 };
                assert(self.entries[a0].code@ != self.entries[b0].code@);
            }
        }
        assert forall|j: int| 0 <= j < after.entries.len() implies (
        #[trigger] after.entries[j]).lobby.wf() by {
            let j0 = if j < i { j } else { j + 1 };
            assert(self.entries[j0].lobby.wf());
        }
        let target = self@.remove(code);
        assert forall|k: Seq<char>| after@.contains_key(k) <==> target.contains_key(k) by {
            if after@.contains_key(k) {
                let j = choose|j: int| after.holds(k, j);
                let j0 = if j < i { j } else { j + 1 };
                assert(self.holds(k, j0));
                if k == code {
                    self.lemma_place(k, j0);
                    self.lemma_place(k, i);
                }
            }
            if target.contains_key(k) {
                let j0 = choose|j: int| self.holds(k, j);
                if j0 == i {
                    assert(self.entries[i].code@ == code);
                }
                let j = if j0 < i { j0 } else { j0 - 1 };
                assert(after.holds(k, j));
            }
        }
        assert forall|k: Seq<char>| after@.contains_key(k) implies after@[k] == target[k] by {
            let j = choose|j: int| after.holds(k, j);
            after.lemma_place(k, j);
            let j0 = if j < i { j } else { j + 1 };
            assert(self.holds(k, j0));
            self.lemma_place(k, j0);
        }
        assert(after@ =~= target);
    }

    /// Puts `lobby` under `code`, if that code is free. A code that is taken
    /// keeps its lobby: nothing is ever overwritten.
    pub fn insert(&mut self, code: String, lobby: Lobby) -> (inserted: bool)
        requires
            old(self).wf(),
            lobby.wf(),
        ensures
            final(self).wf(),
            inserted == !old(self)@.contains_key(code@),
            inserted ==> final(self)@ == old(self)@.insert(code@, lobby@),
            !inserted ==> final(self)@ == old(self)@,
    {
        if self.contains(&code) {
            return false;
        }
        let ghost entry = Entry { code, lobby };
        self.entries.push(Entry { code, lobby });
        proof {
            old(self).lemma_pushed(*self, entry);
        }
        true
    }

    /// Starts a lobby for `template` under a new random code of six
    /// characters of `CHARSET`: it waits, without players, with one gap for
    /// each segment. Only if the code drawn is taken by a live lobby is none
    /// started; the registry then stays as it was.
    pub fn create(&mut self, template: &GameDTO) -> (code: Option<String>)
        requires
            old(self).wf(),
            0 < template.text_section.len() <= u32::MAX,
        ensures
            final(self).wf(),
            match code {
                Some(code) => {
                    &&& code@.len() == CODE_LENGTH
                    &&& is_code(code@)
                    &&& !old(self)@.contains_key(code@)
                    &&& final(self)@ == old(self)@.insert(
                        code@,
                        LobbyModel::fresh(template@.text_section),
                    )
                },
                None => {
                    &&& final(self)@ == old(self)@
                    &&& exists|taken: Seq<char>|
                        #[trigger] old(self)@.contains_key(taken) && taken.len() == CODE_LENGTH
                            && is_code(taken)
                },
            },
    {
        let code = id_generator(CODE_LENGTH);
        let lobby = Lobby::new(template.text_section.clone());
        if self.insert(code.clone(), lobby) {
            Some(code)
        } else {
            None
        }
    }

    /// The codes of the live lobbies, each once.
    pub fn list_codes(&self) -> (codes: Vec<String>)
        requires
            self.wf(),
        ensures
            codes.deep_view().no_duplicates(),
            codes.deep_view().to_set() == self@.dom(),
    {
        let mut codes: Vec<String> = Vec::new();
        let mut i: usize = 0;
        while i < self.entries.len()
            invariant
                i <= self.entries.len(),
                codes.len() == i,
                forall|k: int| 0 <= k < i ==> (#[trigger] codes[k])@ == self.entries[k].code@,
            decreases self.entries.len() - i,
        {
            codes.push(self.entries[i].code.clone());
            i += 1;
        }
        proof {
            let listed = codes.deep_view();
            assert forall|a: int, b: int|
                0 <= a < listed.len() && 0 <= b < listed.len() && a != b implies listed[a]
                != listed[b] by {
                if a < b {
                    assert(self.entries[a].code@ != self.entries[b].code@);
                } else {
                    assert(self.entries[b].code@ != self.entries[a].code@);
                }
            }
            assert forall|k: Seq<char>| listed.to_set().contains(k) <==> self@.dom().contains(
                k,
            ) by {
                if listed.to_set().contains(k) {
                    let j = choose|j: int| 0 <= j < listed.len() && listed[j] == k;
                    assert(self.holds(k, j));
                }
                if self@.dom().contains(k) {
                    let j = choose|j: int| self.holds(k, j);
                    assert(listed[j] == k);
                }
            }
            assert(listed.to_set() =~= self@.dom());
        }
        codes
    }

    /// Closes the lobby with the code `code`. Returns whether there was one.
    pub fn remove(&mut self, code: &String) -> (removed: bool)
        requires
            old(self).wf(),
        ensures
            final(self).wf(),
            removed == old(self)@.contains_key(code@),
            final(self)@ == old(self)@.remove(code@),
    {
        match self.find(code) {
            Some(i) => {
                proof {
                    self.lemma_place(code@, i as int);
                }
                self.entries.remove(i);
                proof {
                    old(self).lemma_removed(*self, code@, i as int);
                }
                true
            },
            None => {
                assert(self@.remove(code@) =~= self@);
                false
            },
        }
    }
}

} // verus!
