use vstd::prelude::*;

verus! {

/// What a non-player character is doing.
#[derive(Clone, Copy, Debug, PartialEq, Eq, Structural)]
pub enum NPCState {
    Idle,
    Walking,
    Running,
    Fighting,
    Dead,
}

/// How a character's velocity changes in one step.
#[derive(Clone, Copy, Debug, PartialEq, Eq, Structural)]
pub enum NpcMovement {
    /// Keep the current velocity.
    Keep,
    /// Pick a new small random velocity on the ground plane.
    RandomWalk,
    /// Head straight for the player.
    TowardPlayer,
    /// Stand still.
    Halt,
}

/// What a living character sees of the player in one step: whether the player
/// is near enough to notice (under 20 units), to attack (under 10) or to
/// fight hand to hand (under 2), and whether its behaviour timer has run out
/// (over 5 seconds).
#[derive(Clone, Copy, Debug, PartialEq, Eq, Structural)]
pub struct NpcSenses {
    pub notices_player: bool,
    pub can_attack: bool,
    pub in_melee_range: bool,
    pub timer_expired: bool,
}

/// The outcome of one behaviour step: the new state, whether the behaviour
/// timer restarts, whether the player becomes the target, and the velocity change.
#[derive(Clone, Copy, Debug, PartialEq, Eq, Structural)]
pub struct NpcDecision {
    pub state: NPCState,
    pub reset_timer: bool,
    pub target_player: bool,
    pub movement: NpcMovement,
}

/// One behaviour step of a living character. An idle one starts walking once
/// it notices the player. A walking one wanders, and turns to fight once the
/// player is within attack range, or goes idle with a fresh timer when its
/// timer runs out. A fighting one heads for the player until within melee
/// range. A dead one stands still. A running one carries on unchanged.
pub open spec fn npc_step(state: NPCState, senses: NpcSenses) -> NpcDecision {
    match state {
        NPCState::Idle => NpcDecision {
            state: if senses.notices_player { NPCState::Walking } else { NPCState::Idle },
            reset_timer: false,
            target_player: false,
            movement: NpcMovement::Keep,
        },
        NPCState::Walking => if senses.can_attack {
            NpcDecision { state: NPCState::Fighting, reset_timer: false, target_player: true, movement: NpcMovement::RandomWalk }
        } else if senses.timer_expired {
            NpcDecision { state: NPCState::Idle, reset_timer: true, target_player: false, movement: NpcMovement::RandomWalk }
        } else {
            NpcDecision { state: NPCState::Walking, reset_timer: false, target_player: false, movement: NpcMovement::RandomWalk }
        },
        NPCState::Fighting => NpcDecision {
            state: NPCState::Fighting,
            reset_timer: false,
            target_player: false,
            movement: if senses.in_melee_range { NpcMovement::Keep } else { NpcMovement::TowardPlayer },
        },
        NPCState::Dead => NpcDecision { state: NPCState::Dead, reset_timer: false, target_player: false, movement: NpcMovement::Halt },
        NPCState::Running => NpcDecision { state: NPCState::Running, reset_timer: false, target_player: false, movement: NpcMovement::Keep },
    }
}

/// Decides one behaviour step of a living character from its state and what it senses.
pub fn decide_npc_step(state: NPCState, senses: NpcSenses) -> (d: NpcDecision)
    ensures
        d == npc_step(state, senses),
{
    match state {
        NPCState::Idle => NpcDecision {
            state: if senses.notices_player { NPCState::Walking } else { NPCState::Idle },
            reset_timer: false,
            target_player: false,
            movement: NpcMovement::Keep,
        },
        NPCState::Walking => if senses.can_attack {
            NpcDecision { state: NPCState::Fighting, reset_timer: false, target_player: true, movement: NpcMovement::RandomWalk }
        } else if senses.timer_expired {
            NpcDecision { state: NPCState::Idle, reset_timer: true, target_player: false, movement: NpcMovement::RandomWalk }
        } else {
            NpcDecision { state: NPCState::Walking, reset_timer: false, target_player: false, movement: NpcMovement::RandomWalk }
        },
        NPCState::Fighting => NpcDecision {
            state: NPCState::Fighting,
            reset_timer: false,
            target_player: false,
            movement: if senses.in_melee_range { NpcMovement::Keep } else { NpcMovement::TowardPlayer },
        },
        NPCState::Dead => NpcDecision { state: NPCState::Dead, reset_timer: false, target_player: false, movement: NpcMovement::Halt },
        NPCState::Running => NpcDecision { state: NPCState::Running, reset_timer: false, target_player: false, movement: NpcMovement::Keep },
    }
}

/// The behaviour steps never revive the dead, never calm a fighter, never jump
/// from idle straight to fighting, and target the player exactly when a walker
/// starts fighting.
pub proof fn lemma_npc_step_laws(state: NPCState, senses: NpcSenses)
    ensures
        state == NPCState::Dead ==> npc_step(state, senses).state == NPCState::Dead
            && npc_step(state, senses).movement == NpcMovement::Halt,
        state == NPCState::Fighting ==> npc_step(state, senses).state == NPCState::Fighting,
        state == NPCState::Idle ==> npc_step(state, senses).state != NPCState::Fighting,
        npc_step(state, senses).state != NPCState::Dead || state == NPCState::Dead,
        npc_step(state, senses).target_player <==> (state == NPCState::Walking && npc_step(state, senses).state == NPCState::Fighting),
{
}

/// The step, stated per state: an idle character starts walking exactly when
/// it notices the player; a walker starts fighting (targeting the player) when
/// it can attack, else rests with a fresh timer when its timer has run out,
/// else keeps walking, always wandering; a fighter keeps fighting and heads for
/// the player unless within melee range, whatever else it senses; the dead
/// stand still.
pub proof fn lemma_npc_step_per_state(state: NPCState, senses: NpcSenses)
    ensures
        state == NPCState::Idle ==> npc_step(state, senses).state == (if senses.notices_player { NPCState::Walking } else { NPCState::Idle })
            && npc_step(state, senses).movement == NpcMovement::Keep
            && !npc_step(state, senses).reset_timer,
        state == NPCState::Walking ==> npc_step(state, senses).movement == NpcMovement::RandomWalk,
        state == NPCState::Walking && senses.can_attack ==> npc_step(state, senses).state == NPCState::Fighting
            && npc_step(state, senses).target_player && !npc_step(state, senses).reset_timer,
        state == NPCState::Walking && !senses.can_attack && senses.timer_expired ==>
            npc_step(state, senses).state == NPCState::Idle && npc_step(state, senses).reset_timer,
        state == NPCState::Walking && !senses.can_attack && !senses.timer_expired ==>
            npc_step(state, senses).state == NPCState::Walking && !npc_step(state, senses).reset_timer,
        state == NPCState::Fighting && !senses.in_melee_range ==> npc_step(state, senses).movement == NpcMovement::TowardPlayer,
        state == NPCState::Fighting && senses.in_melee_range ==> npc_step(state, senses).movement == NpcMovement::Keep,
        state == NPCState::Fighting ==> !npc_step(state, senses).reset_timer && !npc_step(state, senses).target_player,
        state == NPCState::Dead ==> npc_step(state, senses) == (NpcDecision {
            state: NPCState::Dead, reset_timer: false, target_player: false, movement: NpcMovement::Halt }),
        state == NPCState::Running ==> npc_step(state, senses).state == NPCState::Running
            && npc_step(state, senses).movement == NpcMovement::Keep,
{
}

} // verus!
