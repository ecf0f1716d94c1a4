use vstd::prelude::*;

use crate::ids::{is_random_uuid, new_id};

verus! {

/// The weapons a player can carry.
#[derive(Clone, Copy, Debug, PartialEq, Eq, Structural)]
pub enum Weapon {
    Fist,
    Pistol,
    Rifle,
    Shotgun,
    Knife,
}

/// The highest wanted level.
pub const MAX_WANTED_LEVEL: u32 = 6;

/// Ammunition a new player starts with, and holds at most.
pub const STARTING_AMMO: u32 = 100;

/// The player's inventory and progression: identity, money, experience, the
/// carried weapons and which one is drawn, ammunition, wanted level, and the
/// jump and fall flags that the physics step sets.
pub struct Player {
    pub id: u128,
    pub money: u32,
    pub experience: u32,
    pub weapons: Vec<Weapon>,
    pub current_weapon_index: usize,
    pub ammo: u32,
    pub max_ammo: u32,
    pub wanted_level: u32,
    pub is_jumping: bool,
    pub is_falling: bool,
}

/// The weapon that is drawn: the one at the current index, or the fist when
/// the index lies outside the list.
pub open spec fn drawn_weapon(weapons: Seq<Weapon>, index: usize) -> Weapon {
    if index < weapons.len() {
        weapons[index as int]
    } else {
        Weapon::Fist
    }
}

/// The weapon list after picking up `w`: unchanged if already carried, else `w` appended.
pub open spec fn with_weapon(weapons: Seq<Weapon>, w: Weapon) -> Seq<Weapon> {
    if weapons.contains(w) {
        weapons
    } else {
        weapons.push(w)
    }
}

/// The wanted level one step up, capped at 6.
pub open spec fn raised_wanted(level: u32) -> u32 {
    if level + 1 > MAX_WANTED_LEVEL {
        MAX_WANTED_LEVEL
    } else {
        (level + 1) as u32
    }
}

/// The wanted level one step down, not below 0.
pub open spec fn lowered_wanted(level: u32) -> u32 {
    if level == 0 {
        0
    } else {
        (level - 1) as u32
    }
}

/// `v` clamped into `lo..=hi`.
pub open spec fn clamp_int(v: int, lo: int, hi: int) -> int {
    if v < lo {
        lo
    } else if v > hi {
        hi
    } else {
        v
    }
}

/// No weapon is carried twice.
pub open spec fn no_duplicate_weapons(weapons: Seq<Weapon>) -> bool {
    forall|i: int, j: int| 0 <= i < j < weapons.len() ==> weapons[i] != weapons[j]
}

impl Player {
    /// The state every operation keeps: at least one weapon, none twice, the
    /// drawn index within the list, ammunition within its maximum and the
    /// wanted level at most 6.
    pub open spec fn well_formed(&self) -> bool {
        &&& self.weapons@.len() > 0
        &&& no_duplicate_weapons(self.weapons@)
        &&& self.current_weapon_index < self.weapons@.len()
        &&& self.ammo <= self.max_ammo
        &&& self.wanted_level <= MAX_WANTED_LEVEL
    }

    /// A new player with a fresh random identity: no money or experience, the
    /// fist and a pistol with the fist drawn, 100 of 100 rounds, not wanted,
    /// on the ground.
    pub fn new() -> (p: Self)
        ensures
            is_random_uuid(p.id),
            p.money == 0,
            p.experience == 0,
            p.weapons@ == seq![Weapon::Fist, Weapon::Pistol],
            p.current_weapon_index == 0,
            p.ammo == STARTING_AMMO,
            p.max_ammo == STARTING_AMMO,
            p.wanted_level == 0,
            !p.is_jumping,
            !p.is_falling,
            p.well_formed(),
    {
        let mut weapons: Vec<Weapon> = Vec::new();
        weapons.push(Weapon::Fist);
        weapons.push(Weapon::Pistol);
        Self {
            id: new_id(),
            money: 0,
            experience: 0,
            weapons,
            current_weapon_index: 0,
            ammo: STARTING_AMMO,
            max_ammo: STARTING_AMMO,
            wanted_level: 0,
            is_jumping: false,
            is_falling: false,
        }
    }

    /// Adds `amount` to the money; nothing else changes.
    pub fn add_money(&mut self, amount: u32)
        requires
            old(self).money + amount <= u32::MAX,
        ensures
            *final(self) == (Player { money: (old(self).money + amount) as u32, ..*old(self) }),
    {
        self.money = self.money + amount;
    }

    /// Adds `amount` to the experience; nothing else changes.
    pub fn add_experience(&mut self, amount: u32)
        requires
            old(self).experience + amount <= u32::MAX,
        ensures
            *final(self) == (Player { experience: (old(self).experience + amount) as u32, ..*old(self) }),
    {
        self.experience = self.experience + amount;
    }

    /// The weapon that is drawn; the fist when the index lies outside the list.
    pub fn current_weapon(&self) -> (w: Weapon)
        ensures
            w == drawn_weapon(self.weapons@, self.current_weapon_index),
    {
        if self.current_weapon_index < self.weapons.len() {
            self.weapons[self.current_weapon_index]
        } else {
            Weapon::Fist
        }
    }

    /// Draws the weapon at `index` with a full magazine; an index outside the
    /// list changes nothing.
    pub fn select_weapon(&mut self, index: usize)
        ensures
            index < old(self).weapons@.len() ==> *final(self) == (Player { current_weapon_index: index, ammo: old(self).max_ammo, ..*old(self) }),
            index >= old(self).weapons@.len() ==> *final(self) == *old(self),
    {
        if index < self.weapons.len() {
            self.current_weapon_index = index;
            self.ammo = self.max_ammo;
        }
    }

    /// Moves the drawn index by `direction`, clamped to the list, and refills
    /// the magazine. The index and the list length are taken as 32-bit signed
    /// numbers, as the clamp works on those.
    pub fn change_weapon(&mut self, direction: i32)
        requires
            1 <= old(self).weapons.len() as i32,
            i32::MIN <= (old(self).current_weapon_index as i32) + direction <= i32::MAX,
        ensures
            *final(self) == (Player {
                current_weapon_index: clamp_int(
                    (old(self).current_weapon_index as i32) + direction,
                    0,
                    (old(self).weapons.len() as i32) - 1,
                ) as usize,
                ammo: old(self).max_ammo,
                ..*old(self)
            }),
    {
        let target: i32 = self.current_weapon_index as i32 + direction;
        let last: i32 = self.weapons.len() as i32 - 1;
        let new_index: i32 = if target < 0 {
            0
        } else if target > last {
            last
        } else {
            target
        };
        self.current_weapon_index = new_index as usize;
        self.ammo = self.max_ammo;
    }

    /// Fires the drawn weapon: succeeds, using one round, when there is
    /// ammunition and the drawn weapon is not the fist; otherwise nothing changes.
    pub fn fire_weapon(&mut self) -> (fired: bool)
        ensures
            fired == (old(self).ammo > 0 && drawn_weapon(old(self).weapons@, old(self).current_weapon_index) != Weapon::Fist),
            fired ==> *final(self) == (Player { ammo: (old(self).ammo - 1) as u32, ..*old(self) }),
            !fired ==> *final(self) == *old(self),
    {
        if self.ammo > 0 && self.current_weapon() != Weapon::Fist {
            self.ammo = self.ammo - 1;
            return true;
        }
        false
    }

    /// Refills the magazine.
    pub fn reload_weapon(&mut self)
        ensures
            *final(self) == (Player { ammo: old(self).max_ammo, ..*old(self) }),
    {
        self.ammo = self.max_ammo;
    }

    /// Picks up `weapon`, unless it is already carried.
    pub fn add_weapon(&mut self, weapon: Weapon)
        ensures
            final(self).weapons@ == with_weapon(old(self).weapons@, weapon),
            final(self).id == old(self).id,
            final(self).money == old(self).money,
            final(self).experience == old(self).experience,
            final(self).current_weapon_index == old(self).current_weapon_index,
            final(self).ammo == old(self).ammo,
            final(self).max_ammo == old(self).max_ammo,
            final(self).wanted_level == old(self).wanted_level,
            final(self).is_jumping == old(self).is_jumping,
            final(self).is_falling == old(self).is_falling,
    {
        let mut i: usize = 0;
        let mut found = false;
        while i < self.weapons.len()
            invariant
                i <= self.weapons@.len(),
                found <==> (exists|k: int| 0 <= k < i && self.weapons@[k] == weapon),
            decreases self.weapons@.len() - i,
        {
            if self.weapons[i] == weapon {
                found = true;
            }
            i = i + 1;
        }
        if !found {
            self.weapons.push(weapon);
        }
    }

    /// Raises the wanted level by one, up to 6; nothing else changes.
    pub fn increase_wanted_level(&mut self)
        requires
            old(self).wanted_level < u32::MAX,
        ensures
            *final(self) == (Player { wanted_level: raised_wanted(old(self).wanted_level), ..*old(self) }),
    {
        let raised = self.wanted_level + 1;
        self.wanted_level = if raised > MAX_WANTED_LEVEL { MAX_WANTED_LEVEL } else { raised };
    }

    /// Lowers the wanted level by one, not below 0; nothing else changes.
    pub fn decrease_wanted_level(&mut self)
        ensures
            *final(self) == (Player { wanted_level: lowered_wanted(old(self).wanted_level), ..*old(self) }),
    {
        self.wanted_level = if self.wanted_level == 0 { 0 } else { self.wanted_level - 1 };
    }

    /// The per-frame update of the player's own state: movement and collision
    /// belong to the physics step, so nothing changes here.
    pub fn update(&mut self)
        ensures
            *final(self) == *old(self),
    {
    }
}

/// A new player is well formed, and each operation keeps a well-formed player
/// well formed (for the money and experience updates, the weapon choice, firing,
/// reloading, picking up a weapon and the wanted-level steps).
pub proof fn lemma_operations_keep_well_formed(p: Player, w: Weapon, index: usize, direction: i32)
    requires
        p.well_formed(),
    ensures
        index < p.weapons@.len() ==> (Player { current_weapon_index: index, ammo: p.max_ammo, ..p }).well_formed(),
        p.weapons@.len() <= i32::MAX ==> (Player {
            current_weapon_index: clamp_int((p.current_weapon_index as i32) + direction, 0, (p.weapons.len() as i32) - 1) as usize,
            ammo: p.max_ammo,
            ..p
        }).well_formed(),
        p.ammo > 0 ==> (Player { ammo: (p.ammo - 1) as u32, ..p }).well_formed(),
        (Player { ammo: p.max_ammo, ..p }).well_formed(),
        no_duplicate_weapons(with_weapon(p.weapons@, w)),
        with_weapon(p.weapons@, w).len() >= p.weapons@.len(),
        raised_wanted(p.wanted_level) <= MAX_WANTED_LEVEL,
        lowered_wanted(p.wanted_level) <= MAX_WANTED_LEVEL,
{
    if !p.weapons@.contains(w) {
        let s = p.weapons@.push(w);
        assert forall|i: int, j: int| 0 <= i < j < s.len() implies s[i] != s[j] by {
            if j == s.len() - 1 {
                assert(p.weapons@[i] == s[i]);
            }
        }
    }
}

/// Picking up a weapon twice is the same as picking it up once.
pub proof fn lemma_add_weapon_idempotent(weapons: Seq<Weapon>, w: Weapon)
    ensures
        with_weapon(with_weapon(weapons, w), w) == with_weapon(weapons, w),
        with_weapon(weapons, w).contains(w),
{
    if !weapons.contains(w) {
        assert(weapons.push(w)[weapons.len() as int] == w);
    }
}

/// Firing and then reloading leaves the magazine full.
pub proof fn lemma_fire_then_reload(p: Player)
    ensures
        (Player { ammo: p.max_ammo, ..(Player { ammo: (p.ammo - 1) as u32, ..p }) }) == (Player { ammo: p.max_ammo, ..p }),
{
}

/// Below the cap, raising the wanted level and lowering it again restores it.
pub proof fn lemma_wanted_up_then_down(level: u32)
    requires
        level < MAX_WANTED_LEVEL,
    ensures
        lowered_wanted(raised_wanted(level)) == level,
        raised_wanted(level) == level + 1,
{
}

/// However often it is raised, the wanted level never exceeds 6.
pub proof fn lemma_wanted_capped(level: u32)
    ensures
        raised_wanted(level) <= MAX_WANTED_LEVEL,
        level <= MAX_WANTED_LEVEL ==> raised_wanted(level) >= level,
{
}

/// The step rules in plain numbers and lists: the wanted level rises by one
/// up to 6 and falls by one down to 0; the drawn weapon is the one at the
/// index, or the fist past the end; picking up a weapon adds it at the end
/// exactly when it is not yet carried and keeps every weapon already carried.
pub proof fn lemma_player_step_rules(level: u32, weapons: Seq<Weapon>, index: usize, w: Weapon)
    ensures
        raised_wanted(level) == (if level >= 6 { 6 } else { level + 1 }),
        lowered_wanted(level) == (if level == 0 { 0 } else { level - 1 }),
        index < weapons.len() ==> drawn_weapon(weapons, index) == weapons[index as int],
        index >= weapons.len() ==> drawn_weapon(weapons, index) == Weapon::Fist,
        with_weapon(weapons, w).contains(w),
        with_weapon(weapons, w).len() == weapons.len() + (if weapons.contains(w) { 0int } else { 1int }),
        forall|i: int| 0 <= i < weapons.len() ==> #[trigger] with_weapon(weapons, w)[i] == weapons[i],
{
    if !weapons.contains(w) {
        assert(weapons.push(w)[weapons.len() as int] == w);
    }
}

} // verus!
