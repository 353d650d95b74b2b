use vstd::prelude::*;

verus! {

/// Name under which this service reports itself.
pub const SERVICE: &'static str = "srvcs-distance3d";

/// What this service computes.
pub const CONCERN: &'static str = "geometry: distance between two 3D points";

/// The services this one composes, in the order in which it first calls them.
pub const DEPENDS_ON: [&'static str; 4] = [
    "srvcs-floatsubtract",
    "srvcs-floatmultiply",
    "srvcs-floatadd",
    "srvcs-sqrt",
];

/// Service identity, as answered on `GET /`.
pub struct Info {
    pub service: &'static str,
    pub concern: &'static str,
    pub depends_on: Vec<&'static str>,
}

/// The identity of this service: its name, its concern and its dependencies
/// in the order of `DEPENDS_ON`.
pub fn index() -> (info: Info)
    ensures
        info.service == SERVICE,
        info.concern == CONCERN,
        info.depends_on@ == DEPENDS_ON@,
{
    let mut depends_on: Vec<&'static str> = Vec::new();
    let mut i: usize = 0;
    while i < 4
        invariant
            i <= 4,
            depends_on@ == DEPENDS_ON@.take(i as int),
        decreases 4 - i,
    {
        depends_on.push(DEPENDS_ON[i]);
        i = i + 1;
    }
    Info { service: SERVICE, concern: CONCERN, depends_on }
}

/// The four services whose answers this one composes.
#[derive(Clone, Copy, PartialEq, Eq, Structural, Debug)]
pub enum Dependency {
    FloatSubtract,
    FloatMultiply,
    FloatAdd,
    Sqrt,
}

impl Dependency {
    /// Position of the dependency in `DEPENDS_ON`.
    pub open spec fn rank(self) -> int {
        match self {
            Dependency::FloatSubtract => 0,
            Dependency::FloatMultiply => 1,
            Dependency::FloatAdd => 2,
            Dependency::Sqrt => 3,
        }
    }

    /// The service name under which the dependency is known.
    pub open spec fn service_name(self) -> &'static str {
        match self {
            Dependency::FloatSubtract => "srvcs-floatsubtract",
            Dependency::FloatMultiply => "srvcs-floatmultiply",
            Dependency::FloatAdd => "srvcs-floatadd",
            Dependency::Sqrt => "srvcs-sqrt",
        }
    }

    /// The service name under which the dependency is known.
    pub fn name(&self) -> (name: &'static str)
        ensures
            name == self.service_name(),
    {
        match self {
            Dependency::FloatSubtract => "srvcs-floatsubtract",
            Dependency::FloatMultiply => "srvcs-floatmultiply",
            Dependency::FloatAdd => "srvcs-floatadd",
            Dependency::Sqrt => "srvcs-sqrt",
        }
    }
}

/// Every dependency is listed in `DEPENDS_ON`, under its own name, at its rank.
pub proof fn lemma_dependency_listed(dependency: Dependency)
    ensures
        0 <= dependency.rank() < DEPENDS_ON@.len(),
        DEPENDS_ON@[dependency.rank()] == dependency.service_name(),
{
}

/// Dependency endpoints: the base URL at which each dependency is reached.
#[derive(Clone)]
pub struct Deps {
    pub floatsubtract_url: String,
    pub floatmultiply_url: String,
    pub floatadd_url: String,
    pub sqrt_url: String,
}

impl Deps {
    /// The endpoint configured for `dependency`.
    pub open spec fn endpoint(&self, dependency: Dependency) -> String {
        match dependency {
            Dependency::FloatSubtract => self.floatsubtract_url,
            Dependency::FloatMultiply => self.floatmultiply_url,
            Dependency::FloatAdd => self.floatadd_url,
            Dependency::Sqrt => self.sqrt_url,
        }
    }

    /// The endpoint configured for `dependency`.
    pub fn url(&self, dependency: Dependency) -> (url: &String)
        ensures
            *url == self.endpoint(dependency),
    {
        match dependency {
            Dependency::FloatSubtract => &self.floatsubtract_url,
            Dependency::FloatMultiply => &self.floatmultiply_url,
            Dependency::FloatAdd => &self.floatadd_url,
            Dependency::Sqrt => &self.sqrt_url,
        }
    }
}

} // verus!
