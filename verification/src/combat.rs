use vstd::prelude::*;

use crate::npc::NPCState;
use crate::player::{drawn_weapon, raised_wanted, Player, Weapon};

verus! {

/// The player's attempt to hit a character in reach. The drawn weapon is
/// fired first, so a round is spent even while the weapon is cooling down;
/// the hit lands, with the drawn weapon, only when the shot was fired and the
/// cooldown has run out.
pub fn attempt_strike(player: &mut Player, cooldown_ready: bool) -> (hit: Option<Weapon>)
    ensures
        ({
            let fired = old(player).ammo > 0
                && drawn_weapon(old(player).weapons@, old(player).current_weapon_index) != Weapon::Fist;
            &&& fired ==> *final(player) == (Player { ammo: (old(player).ammo - 1) as u32, ..*old(player) })
            &&& !fired ==> *final(player) == *old(player)
            &&& hit == (if fired && cooldown_ready {
                Some(drawn_weapon(old(player).weapons@, old(player).current_weapon_index))
            } else {
                None
            })
        }),
{
    if player.fire_weapon() && cooldown_ready {
        Some(player.current_weapon())
    } else {
        None
    }
}

/// What a hit does to the struck character and to the player: a character
/// that survived the hit turns to fight and the player's wanted level rises;
/// a dead one stays dead and the wanted level stays.
pub fn provoke(player: &mut Player, struck: NPCState) -> (after: NPCState)
    requires
        old(player).wanted_level < u32::MAX,
    ensures
        struck == NPCState::Dead ==> after == NPCState::Dead && *final(player) == *old(player),
        struck != NPCState::Dead ==> after == NPCState::Fighting
            && *final(player) == (Player { wanted_level: raised_wanted(old(player).wanted_level), ..*old(player) }),
{
    if struck != NPCState::Dead {
        player.increase_wanted_level();
        NPCState::Fighting
    } else {
        struck
    }
}

/// Whether a character in reach attacks the player this step: it does when
/// it is fighting and alive.
pub fn attacks_player(state: NPCState, alive: bool) -> (attacks: bool)
    ensures
        attacks == (state == NPCState::Fighting && alive),
{
    state == NPCState::Fighting && alive
}

} // verus!
