//! The two variants under test: the published release of the component, or a
//! local source tree that overrides it.

use vstd::prelude::*;
use crate::results::Error;

verus! {

/// Where a dependency is built from: the registry's current release, or a
/// specific local source tree (kept as its manifest path).
#[derive(Debug)]
pub enum Origin {
    Published,
    Source(String),
}

/// The override handed to one build attempt, derived from an `Origin`.
#[derive(Debug)]
pub enum CrateOverride {
    Default,
    Source(String),
}

impl Clone for CrateOverride {
    fn clone(&self) -> (r: Self)
        ensures
            r == *self,
    {
        match self {
            CrateOverride::Default => CrateOverride::Default,
            CrateOverride::Source(p) => CrateOverride::Source(p.clone()),
        }
    }
}

/// The run's configuration: the component's manifest and name, and the two
/// origins to test against.
#[derive(Debug)]
pub struct Config {
    pub manifest_path: String,
    pub crate_name: String,
    pub base_origin: Origin,
    pub next_origin: Origin,
}

/// The two overrides shared read-only by every job of a run.
#[derive(Debug)]
pub struct Crates {
    pub base: CrateOverride,
    pub next: CrateOverride,
}

/// What `acquire_crate` yields for each origin.
pub open spec fn override_of(origin: Origin) -> CrateOverride {
    match origin {
        Origin::Published => CrateOverride::Default,
        Origin::Source(p) => CrateOverride::Source(p),
    }
}

pub fn acquire_crate(origin: &Origin) -> (c: CrateOverride)
    ensures
        c == override_of(*origin),
{
    match origin {
        Origin::Published => CrateOverride::Default,
        Origin::Source(p) => CrateOverride::Source(p.clone()),
    }
}

pub fn acquire_crates(config: &Config) -> (r: Result<Crates, Error>)
    ensures
        r matches Ok(c) && c.base == override_of(config.base_origin) && c.next == override_of(
            config.next_origin,
        ),
{
    let base = acquire_crate(&config.base_origin);
    let next = acquire_crate(&config.next_origin);
    Ok(Crates { base, next })
}

} // verus!
