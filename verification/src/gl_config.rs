use vstd::prelude::*;

verus! {

/// How much a configuration with `samples` MSAA samples is preferred when
/// `requested` samples were asked for: an exact match ranks highest, then a
/// configuration without multisampling when none was asked for, then more
/// samples over fewer.
pub open spec fn config_score(requested: u8, samples: u8) -> int {
    if requested == 0 && samples == 0 {
        10_000
    } else if samples == requested {
        20_000
    } else {
        samples as int
    }
}

/// Executable form of `config_score`.
pub fn msaa_config_score(requested: u8, samples: u8) -> (s: i32)
    ensures
        s == config_score(requested, samples),
{
    if requested == 0 && samples == 0 {
        10_000
    } else if samples == requested {
        20_000
    } else {
        samples as i32
    }
}

/// `i` is the configuration that taking the maximum by score picks: one with
/// the highest score, the last of them on a tie.
pub open spec fn is_chosen_config(samples: Seq<u8>, requested: u8, i: int) -> bool {
    &&& 0 <= i < samples.len()
    &&& forall|k: int| 0 <= k < samples.len() ==> config_score(requested, samples[k]) <= config_score(requested, samples[i])
    &&& forall|k: int| i < k < samples.len() ==> config_score(requested, samples[k]) < config_score(requested, samples[i])
}

/// Chooses among the OpenGL configurations, given by their sample counts, the
/// one that best matches the requested MSAA sample count; `None` when there is
/// no configuration at all.
pub fn select_gl_config(samples: &Vec<u8>, requested: u8) -> (r: Option<usize>)
    ensures
        r.is_none() <==> samples@.len() == 0,
        r matches Some(i) ==> is_chosen_config(samples@, requested, i as int),
{
    if samples.len() == 0 {
        return None;
    }
    let mut best: usize = 0;
    let mut best_score = msaa_config_score(requested, samples[0]);
    let mut i: usize = 1;
    while i < samples.len()
        invariant
            1 <= i <= samples.len(),
            best < i,
            best_score == config_score(requested, samples@[best as int]),
            forall|k: int| 0 <= k < i ==> config_score(requested, samples@[k]) <= config_score(requested, samples@[best as int]),
            forall|k: int| best < k < i ==> config_score(requested, samples@[k]) < config_score(requested, samples@[best as int]),
        decreases samples.len() - i,
    {
        let s = msaa_config_score(requested, samples[i]);
        if s >= best_score {
            best = i;
            best_score = s;
        }
        i = i + 1;
    }
    Some(best)
}

/// What the chosen configuration is, in terms of sample counts alone: an
/// exact match for a nonzero request; a configuration without multisampling
/// when none was requested and one is offered; otherwise one with the most
/// samples offered (more samples ranked over fewer). No later configuration
/// has the same sample count as the chosen one.
pub proof fn lemma_chosen_config_samples(samples: Seq<u8>, requested: u8, i: int)
    requires
        is_chosen_config(samples, requested, i),
    ensures
        (exists|k: int| 0 <= k < samples.len() && samples[k] == requested) ==> samples[i] == requested,
        !(exists|k: int| 0 <= k < samples.len() && samples[k] == requested) ==>
            forall|k: int| 0 <= k < samples.len() ==> #[trigger] samples[k] <= samples[i],
        forall|k: int| i < k < samples.len() ==> #[trigger] samples[k] != samples[i],
{
    if exists|k: int| 0 <= k < samples.len() && samples[k] == requested {
        let k = choose|k: int| 0 <= k < samples.len() && samples[k] == requested;
        assert(config_score(requested, samples[k]) <= config_score(requested, samples[i]));
    } else {
        assert forall|k: int| 0 <= k < samples.len() implies #[trigger] samples[k] <= samples[i] by {
            assert(config_score(requested, samples[k]) <= config_score(requested, samples[i]));
            assert(samples[k] != requested);
        }
    }
    assert forall|k: int| i < k < samples.len() implies #[trigger] samples[k] != samples[i] by {
        assert(config_score(requested, samples[k]) < config_score(requested, samples[i]));
    }
}

} // verus!
