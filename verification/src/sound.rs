use vstd::prelude::*;

verus! {

/// The registered sound effects and whether music plays.
pub struct SoundManager {
    effects: Vec<(String, String)>,
    music_enabled: bool,
}

/// The effect names the game registers, with the files they play.
pub open spec fn default_effects() -> Seq<(Seq<char>, Seq<char>)> {
    seq![
        ("gunshot"@, "assets/sounds/gunshot.wav"@),
        ("footstep"@, "assets/sounds/footstep.wav"@),
        ("impact"@, "assets/sounds/impact.wav"@),
        ("vehicle_engine"@, "assets/sounds/engine.wav"@),
    ]
}

impl SoundManager {
    /// The registered effects as (name, file) pairs.
    pub closed spec fn effects(&self) -> Seq<(Seq<char>, Seq<char>)> {
        self.effects@.map_values(|e: (String, String)| (e.0@, e.1@))
    }

    /// Whether music is switched on.
    pub closed spec fn music_on(&self) -> bool {
        self.music_enabled
    }

    /// Whether an effect of this name is registered.
    pub open spec fn has_effect(&self, name: Seq<char>) -> bool {
        exists|i: int| 0 <= i < self.effects().len() && #[trigger] self.effects()[i].0 == name
    }

    /// The four game effects registered, music on.
    pub fn new() -> (m: Self)
        ensures
            m.effects() == default_effects(),
            m.music_on(),
    {
        let mut effects: Vec<(String, String)> = Vec::new();
        effects.push((String::from_str("gunshot"), String::from_str("assets/sounds/gunshot.wav")));
        effects.push((String::from_str("footstep"), String::from_str("assets/sounds/footstep.wav")));
        effects.push((String::from_str("impact"), String::from_str("assets/sounds/impact.wav")));
        effects.push((String::from_str("vehicle_engine"), String::from_str("assets/sounds/engine.wav")));
        let m = Self { effects, music_enabled: true };
        assert(m.effects() =~= default_effects());
        m
    }

    /// Whether the effect `effect_name` plays: it does exactly when it is registered.
    pub fn play_effect(&self, effect_name: &str) -> (plays: bool)
        ensures
            plays == self.has_effect(effect_name@),
    {
        let name = String::from_str(effect_name);
        let mut i: usize = 0;
        while i < self.effects.len()
            invariant
                i <= self.effects@.len(),
                name@ == effect_name@,
                forall|k: int| 0 <= k < i ==> self.effects()[k].0 != effect_name@,
            decreases self.effects@.len() - i,
        {
            if self.effects[i].0 == name {
                assert(self.effects()[i as int].0 == effect_name@);
                return true;
            }
            i = i + 1;
        }
        false
    }

    /// Whether music `music_name` plays: it does exactly when music is switched on.
    pub fn play_music(&self, music_name: &str) -> (plays: bool)
        ensures
            plays == self.music_on(),
    {
        self.music_enabled
    }

    /// Switches music on or off; the effects stay.
    pub fn toggle_music(&mut self)
        ensures
            final(self).music_on() == !old(self).music_on(),
            final(self).effects() == old(self).effects(),
    {
        self.music_enabled = !self.music_enabled;
    }

    /// Stops every sound that plays; no registration or switch changes.
    pub fn stop_all(&self) {
    }
}

/// Switching music twice restores the setting and keeps the effects.
pub proof fn lemma_toggle_music_twice(a: SoundManager, b: SoundManager, c: SoundManager)
    requires
        b.music_on() == !a.music_on(),
        b.effects() == a.effects(),
        c.music_on() == !b.music_on(),
        c.effects() == b.effects(),
    ensures
        c.music_on() == a.music_on(),
        c.effects() == a.effects(),
{
}

} // verus!
