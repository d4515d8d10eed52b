//! Resource profiles, adaptation strategies, progressive enhancement and
//! fallback strategies.

pub mod adaptation;
pub mod detection;
pub mod enhancement;
pub mod fallback;
pub mod profile;
pub mod system;

use vstd::prelude::*;
use crate::resources::enhancement::availability;
use crate::resources::fallback::fallbacks_settled;
use crate::resources::system::ResourceSystem;

verus! {

/// Initialize the resource adaptation system: the enhancement and fallback
/// managers are linked to profile changes and brought up to the current
/// profile.
pub fn initialize(system: &mut ResourceSystem)
    requires
        old(system).wf(),
    ensures
        final(system).wf(),
        final(system).manager == old(system).manager,
        final(system).enhancements_follow,
        final(system).fallbacks_follow,
        final(system).enhancements.params() == old(system).enhancements.params(),
        final(system).enhancements.enabled() == old(system).enhancements.enabled().union_prefer_right(
            availability(old(system).manager.profile()),
        ),
        final(system).fallbacks.registry() == old(system).fallbacks.registry(),
        fallbacks_settled(
            old(system).fallbacks.active(),
            final(system).fallbacks.active(),
            old(system).fallbacks.registry(),
            old(system).manager.profile(),
            8,
        ),
{
    enhancement::initialize(system);
    fallback::initialize(system);
}

} // verus!
