//! The health report: the machine's architecture and processor, and the
//! build the service runs.
use vstd::prelude::*;

use crate::text::owned;

verus! {

/// The build the service runs.
#[derive(Clone, Debug)]
pub struct Version {
    pub build_date: String,
    pub build_timestamp: String,
    pub git_sha: String,
    pub git_describe: String,
}

impl Version {
    /// The build description; the build does not fill it in, so each field
    /// holds the name of the variable it would come from.
    pub fn new() -> (r: Self)
        ensures
            r.build_date@ == "VERGEN_BUILD_DATE"@,
            r.build_timestamp@ == "VERGEN_BUILD_TIMESTAMP"@,
            r.git_sha@ == "VERGEN_GIT_SHA"@,
            r.git_describe@ == "VERGEN_GIT_DESCRIBE"@,
    {
        Version {
            build_date: owned("VERGEN_BUILD_DATE"),
            build_timestamp: owned("VERGEN_BUILD_TIMESTAMP"),
            git_sha: owned("VERGEN_GIT_SHA"),
            git_describe: owned("VERGEN_GIT_DESCRIBE"),
        }
    }
}

/// The brand of each processor, read with `sysinfo::System::new_all`,
/// `refresh_cpu_all` and `cpus`; when the system cannot be read, there are
/// none. What the machine has is not claimed.
#[verifier::external_body]
fn cpu_brands() -> Vec<String> {
    match sysinfo::System::new_all() {
        Ok(mut system) => {
            system.refresh_cpu_all();
            system.cpus().iter().map(|cpu| cpu.brand().to_owned()).collect()
        },
        Err(_) => Vec::new(),
    }
}

/// The processor description and count from the processors' brands: the
/// first brand, or "unknown" when there is none.
pub fn cpu_summary(brands: Vec<String>) -> (r: (String, usize))
    ensures
        r.1 == brands@.len(),
        r.0@ == if brands@.len() > 0 {
            brands@[0]@
        } else {
            "unknown"@
        },
{
    let count = brands.len();
    if count > 0 {
        (brands[0].clone(), count)
    } else {
        (owned("unknown"), 0)
    }
}

/// The machine's processor description and count.
pub fn read_cpu_info() -> (r: (String, usize))
    ensures
        exists|brands: Seq<String>|
            r.1 == brands.len() && r.0@ == if brands.len() > 0 {
                brands[0]@
            } else {
                "unknown"@
            },
{
    let brands = cpu_brands();
    let ghost b = brands@;
    let r = cpu_summary(brands);
    proof {
        assert(r.1 == b.len());
    }
    r
}

/// What the health route reports.
#[derive(Clone, Debug)]
pub struct HealthState {
    pub arch: String,
    pub cpu_info: String,
    pub cpu_count: usize,
    pub version: Version,
}

impl HealthState {
    /// The report for a machine of the given architecture, with its
    /// processors as read now and the build description.
    pub fn new(arch: String) -> (r: Self)
        ensures
            r.arch == arch,
            r.version.build_date@ == "VERGEN_BUILD_DATE"@,
            r.version.git_sha@ == "VERGEN_GIT_SHA"@,
    {
        let (cpu_info, cpu_count) = read_cpu_info();
        HealthState { arch, cpu_info, cpu_count, version: Version::new() }
    }
}

} // verus!
