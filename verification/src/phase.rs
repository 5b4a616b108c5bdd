use vstd::prelude::*;

verus! {

/// The four lifecycle stages of a lobby, in the order in which they are passed.
#[derive(Clone, Copy, Debug, PartialEq, Eq, Structural)]
pub enum Phase {
    Waiting,
    Fill,
    Guess,
    Ranking,
}

impl Phase {
    /// The position of a phase in the lifecycle.
    pub open spec fn rank(self) -> nat {
        match self {
            Phase::Waiting => 0,
            Phase::Fill => 1,
            Phase::Guess => 2,
            Phase::Ranking => 3,
        }
    }

    /// The name under which clients know a phase.
    pub open spec fn label(self) -> Seq<char> {
        match self {
            Phase::Waiting => "waiting"@,
            Phase::Fill => "fill"@,
            Phase::Guess => "guess"@,
            Phase::Ranking => "ranking"@,
        }
    }

    /// The phase's name, as clients read it in responses and events.
    pub fn name(self) -> (r: String)
        ensures
            r@ == self.label(),
    {
        match self {
            Phase::Waiting => "waiting".to_string(),
            Phase::Fill => "fill".to_string(),
            Phase::Guess => "guess".to_string(),
            Phase::Ranking => "ranking".to_string(),
        }
    }

    /// Whether `self` comes strictly after `other` in the lifecycle.
    pub fn is_past(self, other: Phase) -> (r: bool)
        ensures
            r == (self.rank() > other.rank()),
    {
        match (self, other) {
            (Phase::Waiting, _) => false,
            (Phase::Fill, Phase::Waiting) => true,
            (Phase::Fill, _) => false,
            (Phase::Guess, Phase::Waiting) => true,
            (Phase::Guess, Phase::Fill) => true,
            (Phase::Guess, _) => false,
            (Phase::Ranking, Phase::Ranking) => false,
            (Phase::Ranking, _) => true,
        }
    }
}

/// The four labels are pairwise different, so a label names one phase.
pub proof fn label_names_one_phase(a: Phase, b: Phase)
    ensures
        a.label() == b.label() <==> a == b,
{
    reveal_strlit("waiting");
    reveal_strlit("fill");
    reveal_strlit("guess");
    reveal_strlit("ranking");
    if a != b {
        assert(a.label().len() != b.label().len() || a.label()[0] != b.label()[0]);
    }
}

} // verus!
