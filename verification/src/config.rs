//! Choosing among the framebuffer configurations that a display offers.

use vstd::prelude::*;

verus! {

/// What the choice reads of a framebuffer configuration.
#[derive(Clone, Copy, Debug, PartialEq, Eq, Hash, Structural)]
pub struct ConfigTraits {
    /// Whether the framebuffer can hold sRGB colours.
    pub srgb_capable: bool,
    /// The number of samples per pixel.
    pub num_samples: u8,
}

/// `chosen` is the place of the best of the configurations: it can hold
/// sRGB colours, none that can has more samples, and none that comes after
/// it has as many.
pub open spec fn is_best(configs: Seq<ConfigTraits>, chosen: int) -> bool {
    &&& 0 <= chosen < configs.len()
    &&& configs[chosen].srgb_capable
    &&& forall|i: int|
        0 <= i < configs.len() && configs[i].srgb_capable ==> configs[i].num_samples
            <= configs[chosen].num_samples
    &&& forall|i: int|
        chosen < i < configs.len() && configs[i].srgb_capable ==> configs[i].num_samples
            < configs[chosen].num_samples
}

/// The place of the configuration to use: among those that can hold sRGB
/// colours the one with the most samples, and of several such the last.
/// `None` when no configuration can hold sRGB colours.
pub fn pick_config(configs: &Vec<ConfigTraits>) -> (chosen: Option<usize>)
    ensures
        chosen is None <==> forall|i: int| 0 <= i < configs.len() ==> !configs[i].srgb_capable,
        chosen matches Some(k) ==> is_best(configs@, k as int),
{
    let mut chosen: Option<usize> = None;
    let mut most: u8 = 0;
    let mut at: usize = 0;
    while at < configs.len()
        invariant
            at <= configs.len(),
            chosen is None <==> forall|i: int| 0 <= i < at ==> !configs[i].srgb_capable,
            chosen matches Some(k) ==> {
                &&& is_best(configs@.take(at as int), k as int)
                &&& most == configs[k as int].num_samples
            },
        decreases configs.len() - at,
    {
        let config = configs[at];
        if config.srgb_capable {
            let better = match chosen {
                None => true,
                Some(_) => config.num_samples >= most,
            };
            if better {
                chosen = Some(at);
                most = config.num_samples;
            }
        }
        at += 1;
    }
    proof {
        assert(configs@.take(at as int) =~= configs@);
    }
    chosen
}

} // verus!
