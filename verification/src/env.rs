//! The compilation environment: the caller-supplied named string
//! inputs that are combined with the compiler's standard definitions.
//!
//! The environment is immutable by replacement: changing the inputs
//! builds a wholly new value, and rebuilding from inputs that carry the
//! same mapping yields an observably equal environment.

use vstd::prelude::*;

verus! {

/// The mapping an input list denotes: later entries win on a repeated
/// key, as for any keyed insertion sequence.
pub open spec fn inputs_map(s: Seq<(String, String)>) -> Map<Seq<char>, Seq<char>>
    decreases s.len(),
{
    if s.len() == 0 {
        Map::empty()
    } else {
        inputs_map(s.drop_last()).insert(s.last().0@, s.last().1@)
    }
}

/// An immutable snapshot of the caller-supplied named inputs.
pub struct Environment {
    inputs: Vec<(String, String)>,
}

impl View for Environment {
    type V = Map<Seq<char>, Seq<char>>;

    closed spec fn view(&self) -> Map<Seq<char>, Seq<char>> {
        inputs_map(self.inputs@)
    }
}

impl Environment {
    /// The environment with no named inputs.
    pub fn empty() -> (r: Environment)
        ensures
            r@ == Map::<Seq<char>, Seq<char>>::empty(),
    {
        Environment { inputs: Vec::new() }
    }

    /// Build the environment denoting exactly the mapping of `pairs`.
    pub fn from_inputs(pairs: Vec<(String, String)>) -> (r: Environment)
        ensures
            r@ == inputs_map(pairs@),
            r.pairs() == pairs@,
    {
        Environment { inputs: pairs }
    }

    /// The input list the environment was built from.
    pub closed spec fn pairs(self) -> Seq<(String, String)> {
        self.inputs@
    }

    /// The input entries, for handing to the compiler's library
    /// builder.
    pub fn input_pairs(&self) -> (r: &Vec<(String, String)>)
        ensures
            r@ == self.pairs(),
            inputs_map(r@) == self@,
    {
        &self.inputs
    }
}

/// Rebuilding the environment from input lists that carry the same
/// mapping yields observably equal environments: what the compiler can
/// see of them, the key-to-value mapping, is the same.
pub proof fn lemma_environment_idempotent(
    e1: Environment,
    e2: Environment,
    pa: Seq<(String, String)>,
    pb: Seq<(String, String)>,
)
    requires
        e1@ == inputs_map(pa),
        e2@ == inputs_map(pb),
        inputs_map(pa) == inputs_map(pb),
    ensures
        e1@ == e2@,
{
}

} // verus!
