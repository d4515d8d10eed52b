use vstd::prelude::*;
use vstd::string::*;
use crate::keyed::{KeyedMap, LookupKey};
use crate::time_span::TimeSpan;

verus! {

/// Resource profile representing the resource capabilities of the system.
#[derive(Debug, PartialEq, Eq, Hash)]
pub enum ResourceProfile {
    /// High-end system with abundant resources
    HighEnd,
    /// Mid-range system with moderate resources
    MidRange,
    /// Low-end system with limited resources
    LowEnd,
    /// Mobile device with very limited resources
    Mobile,
    /// System running on battery power
    BatteryPowered,
    /// System with limited network connectivity
    LimitedConnectivity,
    /// Custom profile with specific constraints
    Custom(String),
}

impl Clone for ResourceProfile {
    fn clone(&self) -> (r: Self)
        ensures
            r == *self,
    {
        match self {
            ResourceProfile::HighEnd => ResourceProfile::HighEnd,
            ResourceProfile::MidRange => ResourceProfile::MidRange,
            ResourceProfile::LowEnd => ResourceProfile::LowEnd,
            ResourceProfile::Mobile => ResourceProfile::Mobile,
            ResourceProfile::BatteryPowered => ResourceProfile::BatteryPowered,
            ResourceProfile::LimitedConnectivity => ResourceProfile::LimitedConnectivity,
            ResourceProfile::Custom(name) => ResourceProfile::Custom(name.clone()),
        }
    }
}

impl LookupKey for ResourceProfile {
    open spec fn lookup_key(&self) -> (int, Seq<char>) {
        match self {
            ResourceProfile::HighEnd => (0, Seq::empty()),
            ResourceProfile::MidRange => (1, Seq::empty()),
            ResourceProfile::LowEnd => (2, Seq::empty()),
            ResourceProfile::Mobile => (3, Seq::empty()),
            ResourceProfile::BatteryPowered => (4, Seq::empty()),
            ResourceProfile::LimitedConnectivity => (5, Seq::empty()),
            ResourceProfile::Custom(name) => (6, name@),
        }
    }

    fn same_key(&self, other: &Self) -> (r: bool) {
        match (self, other) {
            (ResourceProfile::HighEnd, ResourceProfile::HighEnd) => true,
            (ResourceProfile::MidRange, ResourceProfile::MidRange) => true,
            (ResourceProfile::LowEnd, ResourceProfile::LowEnd) => true,
            (ResourceProfile::Mobile, ResourceProfile::Mobile) => true,
            (ResourceProfile::BatteryPowered, ResourceProfile::BatteryPowered) => true,
            (ResourceProfile::LimitedConnectivity, ResourceProfile::LimitedConnectivity) => true,
            (ResourceProfile::Custom(a), ResourceProfile::Custom(b)) => *a == *b,
            _ => false,
        }
    }
}

/// The human-readable name of a profile.
pub open spec fn profile_name(p: ResourceProfile) -> Seq<char> {
    match p {
        ResourceProfile::HighEnd => "High-End"@,
        ResourceProfile::MidRange => "Mid-Range"@,
        ResourceProfile::LowEnd => "Low-End"@,
        ResourceProfile::Mobile => "Mobile"@,
        ResourceProfile::BatteryPowered => "Battery Powered"@,
        ResourceProfile::LimitedConnectivity => "Limited Connectivity"@,
        ResourceProfile::Custom(name) => "Custom: "@ + name@,
    }
}

/// The recommended batch size of a profile.
pub open spec fn batch_size_for(p: ResourceProfile) -> usize {
    match p {
        ResourceProfile::HighEnd => 1000,
        ResourceProfile::MidRange => 500,
        ResourceProfile::LowEnd => 100,
        ResourceProfile::Mobile => 50,
        ResourceProfile::BatteryPowered => 50,
        ResourceProfile::LimitedConnectivity => 20,
        ResourceProfile::Custom(_) => 100,
    }
}

/// The recommended cache size of a profile, in megabytes.
pub open spec fn cache_size_mb_for(p: ResourceProfile) -> usize {
    match p {
        ResourceProfile::HighEnd => 1024,
        ResourceProfile::MidRange => 512,
        ResourceProfile::LowEnd => 128,
        ResourceProfile::Mobile => 64,
        ResourceProfile::BatteryPowered => 128,
        ResourceProfile::LimitedConnectivity => 256,
        ResourceProfile::Custom(_) => 256,
    }
}

/// The recommended number of worker threads of a profile.
pub open spec fn worker_threads_for(p: ResourceProfile) -> usize {
    match p {
        ResourceProfile::HighEnd => 8,
        ResourceProfile::MidRange => 4,
        ResourceProfile::LowEnd => 2,
        ResourceProfile::Mobile => 1,
        ResourceProfile::BatteryPowered => 2,
        ResourceProfile::LimitedConnectivity => 2,
        ResourceProfile::Custom(_) => 2,
    }
}

/// The recommended polling interval of a profile, in seconds.
pub open spec fn polling_secs_for(p: ResourceProfile) -> u64 {
    match p {
        ResourceProfile::HighEnd => 1,
        ResourceProfile::MidRange => 2,
        ResourceProfile::LowEnd => 5,
        ResourceProfile::Mobile => 10,
        ResourceProfile::BatteryPowered => 15,
        ResourceProfile::LimitedConnectivity => 30,
        ResourceProfile::Custom(_) => 5,
    }
}

/// The recommended compression level (0-9) of a profile.
pub open spec fn compression_level_for(p: ResourceProfile) -> u32 {
    match p {
        ResourceProfile::HighEnd => 1,
        ResourceProfile::MidRange => 3,
        ResourceProfile::LowEnd => 6,
        ResourceProfile::Mobile => 9,
        ResourceProfile::BatteryPowered => 6,
        ResourceProfile::LimitedConnectivity => 9,
        ResourceProfile::Custom(_) => 6,
    }
}

impl ResourceProfile {
    /// Get a human-readable name for the profile.
    pub fn name(&self) -> (r: String)
        ensures
            r@ == profile_name(*self),
    {
        match self {
            ResourceProfile::HighEnd => "High-End".to_owned(),
            ResourceProfile::MidRange => "Mid-Range".to_owned(),
            ResourceProfile::LowEnd => "Low-End".to_owned(),
            ResourceProfile::Mobile => "Mobile".to_owned(),
            ResourceProfile::BatteryPowered => "Battery Powered".to_owned(),
            ResourceProfile::LimitedConnectivity => "Limited Connectivity".to_owned(),
            ResourceProfile::Custom(name) => {
                let mut s = "Custom: ".to_owned();
                s.append(name.as_str());
                s
            },
        }
    }

    /// Get the recommended batch size for this profile.
    pub fn recommended_batch_size(&self) -> (r: usize)
        ensures
            r == batch_size_for(*self),
    {
        match self {
            ResourceProfile::HighEnd => 1000,
            ResourceProfile::MidRange => 500,
            ResourceProfile::LowEnd => 100,
            ResourceProfile::Mobile => 50,
            ResourceProfile::BatteryPowered => 50,
            ResourceProfile::LimitedConnectivity => 20,
            ResourceProfile::Custom(_) => 100,
        }
    }

    /// Get the recommended cache size for this profile (in MB).
    pub fn recommended_cache_size_mb(&self) -> (r: usize)
        ensures
            r == cache_size_mb_for(*self),
    {
        match self {
            ResourceProfile::HighEnd => 1024,
            ResourceProfile::MidRange => 512,
            ResourceProfile::LowEnd => 128,
            ResourceProfile::Mobile => 64,
            ResourceProfile::BatteryPowered => 128,
            ResourceProfile::LimitedConnectivity => 256,
            ResourceProfile::Custom(_) => 256,
        }
    }

    /// Get the recommended number of worker threads for this profile.
    pub fn recommended_worker_threads(&self) -> (r: usize)
        ensures
            r == worker_threads_for(*self),
    {
        match self {
            ResourceProfile::HighEnd => 8,
            ResourceProfile::MidRange => 4,
            ResourceProfile::LowEnd => 2,
            ResourceProfile::Mobile => 1,
            ResourceProfile::BatteryPowered => 2,
            ResourceProfile::LimitedConnectivity => 2,
            ResourceProfile::Custom(_) => 2,
        }
    }

    /// Get the recommended polling interval for this profile.
    pub fn recommended_polling_interval(&self) -> (r: TimeSpan)
        ensures
            r.millis == polling_secs_for(*self) * 1000,
    {
        let secs: u64 = match self {
            ResourceProfile::HighEnd => 1,
            ResourceProfile::MidRange => 2,
            ResourceProfile::LowEnd => 5,
            ResourceProfile::Mobile => 10,
            ResourceProfile::BatteryPowered => 15,
            ResourceProfile::LimitedConnectivity => 30,
            ResourceProfile::Custom(_) => 5,
        };
        TimeSpan::from_secs(secs)
    }

    /// Get the recommended compression level for this profile (0-9).
    pub fn recommended_compression_level(&self) -> (r: u32)
        ensures
            r == compression_level_for(*self),
    {
        match self {
            ResourceProfile::HighEnd => 1,
            ResourceProfile::MidRange => 3,
            ResourceProfile::LowEnd => 6,
            ResourceProfile::Mobile => 9,
            ResourceProfile::BatteryPowered => 6,
            ResourceProfile::LimitedConnectivity => 9,
            ResourceProfile::Custom(_) => 6,
        }
    }
}

} // verus!
