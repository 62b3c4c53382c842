//! The responder selector: one agent out of those registered.

use crate::models::{views, User, UserView};
use rand::seq::SliceRandom;
use vstd::prelude::*;

verus! {

/// `SliceRandom::choose` with the thread's generator, on a slice of
/// positions. Trusted: it returns `None` for an empty slice and otherwise one
/// of the slice's items. Which one is random.
#[verifier::external_body]
fn choose_position(positions: &Vec<usize>) -> (r: Option<usize>)
    ensures
        positions@.len() == 0 ==> r is None,
        positions@.len() > 0 ==> r is Some && positions@.contains(r.unwrap()),
{
    positions.choose(&mut rand::thread_rng()).copied()
}

/// No agent is registered.
#[derive(Clone, Copy, Debug, PartialEq, Eq, Structural)]
pub struct NoResponderAvailable;

/// The agent that a draw selects: the draw counts round the candidates.
pub open spec fn selected(agents: Seq<UserView>, draw: nat) -> Option<UserView> {
    if agents.len() == 0 {
        None
    } else {
        Some(agents[(draw % agents.len()) as int])
    }
}

/// Selects the agent that `draw` points at.
pub fn select_at(agents: &Vec<User>, draw: usize) -> (r: Result<User, NoResponderAvailable>)
    ensures
        match r {
            Ok(agent) => selected(views(agents@), draw as nat) == Some(agent@),
            Err(_) => selected(views(agents@), draw as nat) is None,
        },
{
    let count = agents.len();
    if count == 0 {
        Err(NoResponderAvailable)
    } else {
        Ok(agents[draw % count].clone())
    }
}

/// Draws a position below `count`, each with the same chance. `None` where
/// `count` is 0.
pub fn draw_position(count: usize) -> (r: Option<usize>)
    ensures
        count == 0 <==> r is None,
        r matches Some(position) ==> position < count,
{
    let mut positions: Vec<usize> = Vec::new();
    let mut next: usize = 0;
    while next < count
        invariant
            next <= count,
            positions@.len() == next,
            forall|i: int| 0 <= i < next ==> positions@[i] == i,
        decreases count - next,
    {
        positions.push(next);
        next = next + 1;
    }
    choose_position(&positions)
}

/// Selects one agent at random, each with the same chance and without
/// memory of earlier selections.
pub fn select(agents: &Vec<User>) -> (r: Result<User, NoResponderAvailable>)
    ensures
        r is Err <==> agents@.len() == 0,
        r matches Ok(agent) ==> exists|i: int|
            0 <= i < agents@.len() && #[trigger] agents@[i]@ == agent@,
        agents@.len() == 1 ==> r is Ok && r.unwrap()@ == agents@[0]@,
{
    match draw_position(agents.len()) {
        None => Err(NoResponderAvailable),
        Some(position) => {
            let agent = agents[position].clone();
            assert(agents@[position as int]@ == agent@);
            Ok(agent)
        },
    }
}

} // verus!
