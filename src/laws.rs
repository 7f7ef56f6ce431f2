//! Facts about every game, proved from the rules.
use vstd::prelude::*;

use crate::rules::{initial, next, run, valid_roll, well_formed};
use crate::state::State;

verus! {

/// One throw keeps a well-formed state well-formed: the position stays in
/// [0, 6], and a cause of death is set exactly when the player is dead.
pub proof fn lemma_update_keeps_well_formed(s: State, dice: u8)
    requires
        well_formed(s),
        valid_roll(dice),
    ensures
        well_formed(next(s, dice)),
{
}

/// After any sequence of valid throws from a well-formed state, the resulting
/// state is well-formed.
pub proof fn lemma_run_keeps_well_formed(s: State, rolls: Seq<u8>)
    requires
        well_formed(s),
        forall|i: int| 0 <= i < rolls.len() ==> valid_roll(#[trigger] rolls[i]),
    ensures
        well_formed(run(s, rolls)),
    decreases rolls.len(),
{
    if rolls.len() > 0 {
        lemma_update_keeps_well_formed(s, rolls[0]);
        let rest = rolls.drop_first();
        assert forall|i: int| 0 <= i < rest.len() implies valid_roll(#[trigger] rest[i]) by {
            assert(rest[i] == rolls[i + 1]);
        }
        lemma_run_keeps_well_formed(next(s, rolls[0]), rest);
    }
}

/// Every game played with valid throws is well-formed at every step: from the
/// initial state, after each prefix of the throws, the position is in [0, 6]
/// and a cause of death is set exactly when the player is dead.
pub proof fn lemma_game_well_formed(rolls: Seq<u8>)
    requires
        forall|i: int| 0 <= i < rolls.len() ==> valid_roll(#[trigger] rolls[i]),
    ensures
        forall|k: int|
            0 <= k <= rolls.len() ==> well_formed(#[trigger] run(initial(), rolls.take(k))),
{
    assert forall|k: int| 0 <= k <= rolls.len() implies well_formed(
        #[trigger] run(initial(), rolls.take(k)),
    ) by {
        let prefix = rolls.take(k);
        assert forall|i: int| 0 <= i < prefix.len() implies valid_roll(#[trigger] prefix[i]) by {
            assert(prefix[i] == rolls[i]);
        }
        lemma_run_keeps_well_formed(initial(), prefix);
    }
}

/// Once the player is dead, no sequence of throws changes any field of the
/// state: the game is over and its cause of death is final.
pub proof fn lemma_dead_is_final(s: State, rolls: Seq<u8>)
    requires
        s.dead,
    ensures
        run(s, rolls) == s,
    decreases rolls.len(),
{
    if rolls.len() > 0 {
        lemma_dead_is_final(next(s, rolls[0]), rolls.drop_first());
    }
}

} // verus!
