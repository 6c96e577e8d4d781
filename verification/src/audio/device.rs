//! The choice among the stream configurations that an output device offers.

use vstd::prelude::*;

verus! {

/// The sample rate that is preferred above all others.
pub const PREFERRED_RATE: u32 = 48000;

/// The sample rate that is taken where the preferred one is not offered.
pub const FALLBACK_RATE: u32 = 44100;

/// How welcome a channel count is: stereo first, then four channels, then
/// any other layout with more than one channel, then mono.
pub open spec fn channel_rank(channels: nat) -> nat {
    if channels == 0 {
        0
    } else if channels == 1 {
        1
    } else if channels == 2 {
        4
    } else if channels == 4 {
        3
    } else {
        2
    }
}

/// How welcome a configuration is: the rank of its channel count, three
/// points for each end of its rate range that lets the preferred rate in,
/// and four points for floating-point samples.
pub open spec fn config_rank(channels: nat, min_rate: nat, max_rate: nat, float_samples: bool)
    -> nat {
    channel_rank(channels) + (if min_rate <= PREFERRED_RATE {
        3nat
    } else {
        0nat
    }) + (if max_rate >= PREFERRED_RATE {
        3nat
    } else {
        0nat
    }) + (if float_samples {
        4nat
    } else {
        0nat
    })
}

/// The rate to run a configuration at whose range is `min_rate..=max_rate`:
/// the preferred rate if the range holds it, else the fallback rate if the
/// range holds that, else the end of the range that lies nearest to the
/// preferred rate.
pub open spec fn chosen_rate(min_rate: nat, max_rate: nat) -> nat {
    if min_rate <= PREFERRED_RATE <= max_rate {
        PREFERRED_RATE as nat
    } else if min_rate <= FALLBACK_RATE <= max_rate {
        FALLBACK_RATE as nat
    } else if max_rate < PREFERRED_RATE {
        max_rate
    } else {
        min_rate
    }
}

/// `index` is the first position of `ranks` that holds its largest value.
pub open spec fn is_first_best(ranks: Seq<u32>, index: int) -> bool {
    &&& 0 <= index < ranks.len()
    &&& forall|j: int| 0 <= j < index ==> ranks[j] < ranks[index]
    &&& forall|j: int| index <= j < ranks.len() ==> ranks[j] <= ranks[index]
}

/// The rate chosen for a valid range lies inside the range.
pub proof fn lemma_chosen_rate_in_range(min_rate: nat, max_rate: nat)
    requires
        min_rate <= max_rate,
    ensures
        min_rate <= chosen_rate(min_rate, max_rate) <= max_rate,
{
}

/// Ranks a configuration of `channels` channels whose rate range is
/// `min_rate..=max_rate`.
pub fn rank_supported_config(channels: u16, min_rate: u32, max_rate: u32, float_samples: bool)
    -> (rank: u32)
    ensures
        rank == config_rank(channels as nat, min_rate as nat, max_rate as nat, float_samples),
{
    let channel_rank: u32 = if channels == 0 {
        0
    } else if channels == 1 {
        1
    } else if channels == 2 {
        4
    } else if channels == 4 {
        3
    } else {
        2
    };
    let min_sample_rank: u32 = if min_rate <= PREFERRED_RATE {
        3
    } else {
        0
    };
    let max_sample_rank: u32 = if max_rate >= PREFERRED_RATE {
        3
    } else {
        0
    };
    let sample_format_rank: u32 = if float_samples {
        4
    } else {
        0
    };
    channel_rank + min_sample_rank + max_sample_rank + sample_format_rank
}

/// Chooses the rate to run a configuration at.
pub fn choose_sample_rate(min_rate: u32, max_rate: u32) -> (rate: u32)
    ensures
        rate == chosen_rate(min_rate as nat, max_rate as nat),
{
    if min_rate <= PREFERRED_RATE && PREFERRED_RATE <= max_rate {
        PREFERRED_RATE
    } else if min_rate <= FALLBACK_RATE && FALLBACK_RATE <= max_rate {
        FALLBACK_RATE
    } else if max_rate < PREFERRED_RATE {
        max_rate
    } else {
        min_rate
    }
}

/// Picks the configuration to use from the ranks of the ones offered: the
/// first of those that rank highest. Returns `None` exactly when none is
/// offered.
pub fn best_config(ranks: &Vec<u32>) -> (best: Option<usize>)
    ensures
        match best {
            Some(index) => is_first_best(ranks@, index as int),
            None => ranks@.len() == 0,
        },
{
    if ranks.len() == 0 {
        return None;
    }
    let mut best: usize = 0;
    let mut i: usize = 1;
    while i < ranks.len()
        invariant
            1 <= i <= ranks@.len(),
            best < i,
            forall|j: int| 0 <= j < best ==> ranks@[j] < ranks@[best as int],
            forall|j: int| best <= j < i ==> ranks@[j] <= ranks@[best as int],
        decreases ranks@.len() - i,
    {
        if ranks[i] > ranks[best] {
            best = i;
        }
        i += 1;
    }
    Some(best)
}

} // verus!
