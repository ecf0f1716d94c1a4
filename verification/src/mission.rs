use vstd::prelude::*;

use crate::ids::{is_random_uuid, new_id};
use crate::player::Player;

verus! {

/// Where a mission stands.
#[derive(Clone, Copy, Debug, PartialEq, Eq, Structural)]
pub enum MissionStatus {
    NotStarted,
    InProgress,
    Completed,
    Failed,
}

/// A mission: its identity, texts, status, money reward, objectives and the
/// index of the objective being worked on.
pub struct Mission {
    pub id: u128,
    pub title: String,
    pub description: String,
    pub status: MissionStatus,
    pub reward: u32,
    pub objectives: Vec<String>,
    pub current_objective: usize,
}

/// Experience granted for completing a mission.
pub const MISSION_EXPERIENCE: u32 = 50;

/// Money the tutorial mission pays.
pub const TUTORIAL_REWARD: u32 = 100;

impl Mission {
    /// A mission that has not started, with no reward, no objectives and a
    /// fresh random identity.
    pub fn new(title: String, description: String) -> (m: Self)
        ensures
            is_random_uuid(m.id),
            m.title@ == title@,
            m.description@ == description@,
            m.status == MissionStatus::NotStarted,
            m.reward == 0,
            m.objectives@.len() == 0,
            m.current_objective == 0,
    {
        Self {
            id: new_id(),
            title,
            description,
            status: MissionStatus::NotStarted,
            reward: 0,
            objectives: Vec::new(),
            current_objective: 0,
        }
    }

    /// Marks the mission as in progress; nothing else changes.
    pub fn start(&mut self)
        ensures
            *final(self) == (Mission { status: MissionStatus::InProgress, ..*old(self) }),
    {
        self.status = MissionStatus::InProgress;
    }

    /// Marks the mission as completed; nothing else changes.
    pub fn complete(&mut self)
        ensures
            *final(self) == (Mission { status: MissionStatus::Completed, ..*old(self) }),
    {
        self.status = MissionStatus::Completed;
    }

    /// Marks the mission as failed; nothing else changes.
    pub fn fail(&mut self)
        ensures
            *final(self) == (Mission { status: MissionStatus::Failed, ..*old(self) }),
    {
        self.status = MissionStatus::Failed;
    }

    /// Moves on to the next objective; nothing else changes.
    pub fn next_objective(&mut self)
        requires
            old(self).current_objective < usize::MAX,
        ensures
            *final(self) == (Mission { current_objective: (old(self).current_objective + 1) as usize, ..*old(self) }),
    {
        self.current_objective = self.current_objective + 1;
    }
}

/// The tutorial mission's title.
pub open spec fn tutorial_title() -> Seq<char> {
    "Welcome to the City"@
}

/// The tutorial mission's description.
pub open spec fn tutorial_description() -> Seq<char> {
    "Get familiar with the city and complete some tasks."@
}

/// The tutorial mission's objectives, in order.
pub open spec fn tutorial_objectives() -> Seq<Seq<char>> {
    seq!["Walk around and explore"@, "Find a weapon"@, "Complete your first objective"@]
}

/// The missions known to the game and which of them, if any, is current.
pub struct MissionManager {
    missions: Vec<Mission>,
    current_mission_index: Option<usize>,
}

/// The mission at `index`, when it is a position of `missions`.
pub open spec fn mission_at(missions: Seq<Mission>, index: Option<usize>) -> Option<Mission> {
    match index {
        Some(i) => if i < missions.len() { Some(missions[i as int]) } else { None },
        None => None,
    }
}

impl MissionManager {
    /// The missions, in the order they were added.
    pub closed spec fn missions(&self) -> Seq<Mission> {
        self.missions@
    }

    /// Which mission is current, by position.
    pub closed spec fn current_index(&self) -> Option<usize> {
        self.current_mission_index
    }

    /// The current mission, if the current position holds one.
    pub open spec fn current(&self) -> Option<Mission> {
        mission_at(self.missions(), self.current_index())
    }

    /// No missions and none current.
    pub fn new() -> (m: Self)
        ensures
            m.missions().len() == 0,
            m.current_index().is_none(),
    {
        Self { missions: Vec::new(), current_mission_index: None }
    }

    /// Adds the tutorial mission, already in progress with its three objectives
    /// and a reward of 100, and makes position 0 the current one.
    pub fn create_tutorial_mission(&mut self)
        ensures
            final(self).missions().len() == old(self).missions().len() + 1,
            final(self).missions().drop_last() == old(self).missions(),
            final(self).current_index() == Some(0usize),
            ({
                let m = final(self).missions().last();
                &&& is_random_uuid(m.id)
                &&& m.title@ == tutorial_title()
                &&& m.description@ == tutorial_description()
                &&& m.status == MissionStatus::InProgress
                &&& m.reward == TUTORIAL_REWARD
                &&& m.objectives@.len() == 3
                &&& forall|i: int| 0 <= i < 3 ==> #[trigger] m.objectives@[i]@ == tutorial_objectives()[i]
                &&& m.current_objective == 0
            }),
    {
        let mut mission = Mission::new(
            String::from_str("Welcome to the City"),
            String::from_str("Get familiar with the city and complete some tasks."),
        );
        let mut objectives: Vec<String> = Vec::new();
        objectives.push(String::from_str("Walk around and explore"));
        objectives.push(String::from_str("Find a weapon"));
        objectives.push(String::from_str("Complete your first objective"));
        mission.objectives = objectives;
        mission.reward = TUTORIAL_REWARD;
        mission.start();
        self.missions.push(mission);
        self.current_mission_index = Some(0);
        proof {
            assert(self.missions@.drop_last() =~= old(self).missions@);
        }
    }

    /// Adds `mission` at the end and returns its identity; which mission is
    /// current does not change.
    pub fn add_mission(&mut self, mission: Mission) -> (id: u128)
        ensures
            id == mission.id,
            final(self).missions() == old(self).missions().push(mission),
            final(self).current_index() == old(self).current_index(),
    {
        let id = mission.id;
        self.missions.push(mission);
        id
    }

    /// The current mission, if the current position holds one.
    pub fn get_current_mission(&self) -> (r: Option<&Mission>)
        ensures
            match r {
                Some(m) => self.current() == Some(*m),
                None => self.current().is_none(),
            },
    {
        match self.current_mission_index {
            Some(i) => {
                if i < self.missions.len() {
                    Some(&self.missions[i])
                } else {
                    None
                }
            },
            None => None,
        }
    }

    /// The current mission for changing it in place, if the current position
    /// holds one; the other missions and the current position stay as they are.
    pub fn get_current_mission_mut(&mut self) -> (r: Option<&mut Mission>)
        ensures
            final(self).current_index() == old(self).current_index(),
            r is None ==> old(self).current().is_none() && final(self).missions() == old(self).missions(),
            r matches Some(m) ==> old(self).current() == Some(*m),
            r matches Some(m) ==> final(self).missions() == old(self).missions().update(
                old(self).current_index().unwrap() as int, *final(m)),
    {
        match self.current_mission_index {
            Some(i) => {
                if i < self.missions.len() {
                    Some(&mut self.missions[i])
                } else {
                    None
                }
            },
            None => None,
        }
    }

    /// Completes the current mission, if there is one, and pays the player its
    /// reward and 50 experience; without a current mission nothing changes.
    pub fn complete_current_mission(&mut self, player: &mut Player)
        requires
            old(self).current() matches Some(m) ==> {
                &&& old(player).money + m.reward <= u32::MAX
                &&& old(player).experience + MISSION_EXPERIENCE <= u32::MAX
            },
        ensures
            final(self).current_index() == old(self).current_index(),
            match old(self).current() {
                Some(m) => {
                    &&& final(self).missions() == old(self).missions().update(
                        old(self).current_index().unwrap() as int,
                        Mission { status: MissionStatus::Completed, ..m },
                    )
                    &&& *final(player) == (Player {
                        money: (old(player).money + m.reward) as u32,
                        experience: (old(player).experience + MISSION_EXPERIENCE) as u32,
                        ..*old(player)
                    })
                },
                None => {
                    &&& final(self).missions() == old(self).missions()
                    &&& *final(player) == *old(player)
                },
            },
    {
        if let Some(i) = self.current_mission_index {
            if i < self.missions.len() {
                let reward = self.missions[i].reward;
                let mut mission = self.missions.remove(i);
                mission.complete();
                self.missions.insert(i, mission);
                player.add_money(reward);
                player.add_experience(MISSION_EXPERIENCE);
                proof {
                    assert(self.missions@ =~= old(self).missions@.update(
                        i as int,
                        Mission { status: MissionStatus::Completed, ..old(self).missions@[i as int] },
                    ));
                }
            }
        }
    }

    /// The per-frame mission check: no mission condition is evaluated yet, so
    /// nothing changes.
    pub fn update(&mut self, player: &Player)
        ensures
            final(self).missions() == old(self).missions(),
            final(self).current_index() == old(self).current_index(),
    {
    }

    /// All missions, in the order they were added.
    pub fn get_missions(&self) -> (s: &[Mission])
        ensures
            s@ == self.missions(),
    {
        self.missions.as_slice()
    }
}

/// Completing a mission keeps it at its position with its reward, marks it
/// completed and leaves every other mission as it was, so completing the same
/// current mission again pays its reward again.
pub proof fn lemma_complete_pays_reward(before: Seq<Mission>, i: usize)
    requires
        i < before.len(),
    ensures
        ({
            let after = before.update(i as int, Mission { status: MissionStatus::Completed, ..before[i as int] });
            &&& after.len() == before.len()
            &&& after[i as int].status == MissionStatus::Completed
            &&& after[i as int].reward == before[i as int].reward
            &&& mission_at(after, Some(i)) == Some(after[i as int])
            &&& forall|j: int| 0 <= j < before.len() && j != i ==> after[j] == before[j]
        }),
{
}

} // verus!
