//! Requirements that a machine must meet before a case is run on it.
use vstd::prelude::*;

verus! {

/// What the topology service reports about the machine, as plain counts.
#[derive(Debug, Clone, Copy, PartialEq, Eq, Structural)]
pub struct Topology {
    pub logical_cpus: usize,
    pub complexes: usize,
    pub nodes: usize,
}

/// Why a machine does not meet a set of constraints.
#[derive(Debug, Clone, Copy, PartialEq, Eq, Structural)]
pub enum ConstraintError {
    InsufficientCpus,
    TooManyCpus,
    InsufficientComplexes,
    TooManyComplexes,
    InsufficientNodes,
    TooManyNodes,
    SchedulerExcluded,
    SchedulerNotFound,
}

impl ConstraintError {
    /// A short human-readable description of the failure.
    pub fn message(&self) -> (r: &'static str)
        ensures
            *self == ConstraintError::InsufficientCpus ==> r@ == "insufficient logical cpus"@,
            *self == ConstraintError::TooManyCpus ==> r@ == "too many logical cpus"@,
            *self == ConstraintError::InsufficientComplexes ==> r@ == "insufficient complexes"@,
            *self == ConstraintError::TooManyComplexes ==> r@ == "too many complexes"@,
            *self == ConstraintError::InsufficientNodes ==> r@ == "insufficient nodes"@,
            *self == ConstraintError::TooManyNodes ==> r@ == "too many nodes"@,
            *self == ConstraintError::SchedulerExcluded ==> r@ == "scheduler is excluded"@,
            *self == ConstraintError::SchedulerNotFound ==> r@ == "required scheduler not found"@,
    {
        match self {
            ConstraintError::InsufficientCpus => "insufficient logical cpus",
            ConstraintError::TooManyCpus => "too many logical cpus",
            ConstraintError::InsufficientComplexes => "insufficient complexes",
            ConstraintError::TooManyComplexes => "too many complexes",
            ConstraintError::InsufficientNodes => "insufficient nodes",
            ConstraintError::TooManyNodes => "too many nodes",
            ConstraintError::SchedulerExcluded => "scheduler is excluded",
            ConstraintError::SchedulerNotFound => "required scheduler not found",
        }
    }
}

/// Bounds on the machine's topology and on the scheduler that is installed.
/// A bound that is `None` is not checked.
#[derive(Debug)]
pub struct Constraints {
    pub min_cpus: Option<usize>,
    pub max_cpus: Option<usize>,
    pub min_complexes: Option<usize>,
    pub max_complexes: Option<usize>,
    pub min_nodes: Option<usize>,
    pub max_nodes: Option<usize>,
    pub required_schedulers: Option<Vec<String>>,
    pub excluded_schedulers: Option<Vec<String>>,
}

/// Whether `name` is one of the names in `list`.
pub open spec fn listed(list: Seq<String>, name: Seq<char>) -> bool {
    exists|i: int| 0 <= i < list.len() && (#[trigger] list[i])@ == name
}

/// The name of the installed scheduler; the empty name when there is none.
pub open spec fn installed_name(installed: Option<String>) -> Seq<char> {
    match installed {
        Some(s) => s@,
        None => Seq::empty(),
    }
}

/// `v` is present and below `lo`.
pub open spec fn below(lo: Option<usize>, v: usize) -> bool {
    lo.is_some() && v < lo.unwrap()
}

/// `v` is present and above `hi`.
pub open spec fn above(hi: Option<usize>, v: usize) -> bool {
    hi.is_some() && v > hi.unwrap()
}

impl Constraints {
    /// Whether the machine's topology meets every topology bound.
    pub open spec fn topology_ok(&self, t: Topology) -> bool {
        &&& !below(self.min_cpus, t.logical_cpus)
        &&& !above(self.max_cpus, t.logical_cpus)
        &&& !below(self.min_complexes, t.complexes)
        &&& !above(self.max_complexes, t.complexes)
        &&& !below(self.min_nodes, t.nodes)
        &&& !above(self.max_nodes, t.nodes)
    }

    /// The outcome of checking these constraints on a machine: the bounds are
    /// tried in order and the first one that fails decides the error.
    pub open spec fn check_spec(&self, t: Topology, installed: Seq<char>) -> Result<(), ConstraintError> {
        if below(self.min_cpus, t.logical_cpus) {
            Err(ConstraintError::InsufficientCpus)
        } else if above(self.max_cpus, t.logical_cpus) {
            Err(ConstraintError::TooManyCpus)
        } else if below(self.min_complexes, t.complexes) {
            Err(ConstraintError::InsufficientComplexes)
        } else if above(self.max_complexes, t.complexes) {
            Err(ConstraintError::TooManyComplexes)
        } else if below(self.min_nodes, t.nodes) {
            Err(ConstraintError::InsufficientNodes)
        } else if above(self.max_nodes, t.nodes) {
            Err(ConstraintError::TooManyNodes)
        } else if self.excluded_schedulers.is_some() && listed(
            self.excluded_schedulers.unwrap()@,
            installed,
        ) {
            Err(ConstraintError::SchedulerExcluded)
        } else if self.required_schedulers.is_some() && !listed(
            self.required_schedulers.unwrap()@,
            installed,
        ) {
            Err(ConstraintError::SchedulerNotFound)
        } else {
            Ok(())
        }
    }

    /// Constraints that every machine meets.
    pub fn new() -> (r: Self)
        ensures
            r.min_cpus is None && r.max_cpus is None,
            r.min_complexes is None && r.max_complexes is None,
            r.min_nodes is None && r.max_nodes is None,
            r.required_schedulers is None && r.excluded_schedulers is None,
    {
        Constraints {
            min_cpus: None,
            max_cpus: None,
            min_complexes: None,
            max_complexes: None,
            min_nodes: None,
            max_nodes: None,
            required_schedulers: None,
            excluded_schedulers: None,
        }
    }

    /// Sets the fewest logical CPUs.
    pub fn with_min_cpus(self, min_cpus: usize) -> (r: Self)
        ensures
            r.min_cpus == Some(min_cpus),
            r.max_cpus == self.max_cpus,
            r.min_complexes == self.min_complexes,
            r.max_complexes == self.max_complexes,
            r.min_nodes == self.min_nodes,
            r.max_nodes == self.max_nodes,
            r.required_schedulers == self.required_schedulers,
            r.excluded_schedulers == self.excluded_schedulers,
    {
        let mut c = self;
        c.min_cpus = Some(min_cpus);
        c
    }

    /// Sets the most logical CPUs.
    pub fn with_max_cpus(self, max_cpus: usize) -> (r: Self)
        ensures
            r.max_cpus == Some(max_cpus),
            r.min_cpus == self.min_cpus,
            r.min_complexes == self.min_complexes,
            r.max_complexes == self.max_complexes,
            r.min_nodes == self.min_nodes,
            r.max_nodes == self.max_nodes,
            r.required_schedulers == self.required_schedulers,
            r.excluded_schedulers == self.excluded_schedulers,
    {
        let mut c = self;
        c.max_cpus = Some(max_cpus);
        c
    }

    /// Sets the fewest CPU complexes.
    pub fn with_min_complexes(self, min_complexes: usize) -> (r: Self)
        ensures
            r.min_complexes == Some(min_complexes),
            r.min_cpus == self.min_cpus,
            r.max_cpus == self.max_cpus,
            r.max_complexes == self.max_complexes,
            r.min_nodes == self.min_nodes,
            r.max_nodes == self.max_nodes,
            r.required_schedulers == self.required_schedulers,
            r.excluded_schedulers == self.excluded_schedulers,
    {
        let mut c = self;
        c.min_complexes = Some(min_complexes);
        c
    }

    /// Sets the most CPU complexes.
    pub fn with_max_complexes(self, max_complexes: usize) -> (r: Self)
        ensures
            r.max_complexes == Some(max_complexes),
            r.min_cpus == self.min_cpus,
            r.max_cpus == self.max_cpus,
            r.min_complexes == self.min_complexes,
            r.min_nodes == self.min_nodes,
            r.max_nodes == self.max_nodes,
            r.required_schedulers == self.required_schedulers,
            r.excluded_schedulers == self.excluded_schedulers,
    {
        let mut c = self;
        c.max_complexes = Some(max_complexes);
        c
    }

    /// Sets the fewest NUMA nodes.
    pub fn with_min_nodes(self, min_nodes: usize) -> (r: Self)
        ensures
            r.min_nodes == Some(min_nodes),
            r.min_cpus == self.min_cpus,
            r.max_cpus == self.max_cpus,
            r.min_complexes == self.min_complexes,
            r.max_complexes == self.max_complexes,
            r.max_nodes == self.max_nodes,
            r.required_schedulers == self.required_schedulers,
            r.excluded_schedulers == self.excluded_schedulers,
    {
        let mut c = self;
        c.min_nodes = Some(min_nodes);
        c
    }

    /// Sets the most NUMA nodes.
    pub fn with_max_nodes(self, max_nodes: usize) -> (r: Self)
        ensures
            r.max_nodes == Some(max_nodes),
            r.min_cpus == self.min_cpus,
            r.max_cpus == self.max_cpus,
            r.min_complexes == self.min_complexes,
            r.max_complexes == self.max_complexes,
            r.min_nodes == self.min_nodes,
            r.required_schedulers == self.required_schedulers,
            r.excluded_schedulers == self.excluded_schedulers,
    {
        let mut c = self;
        c.max_nodes = Some(max_nodes);
        c
    }

    /// Sets the schedulers one of which must be installed.
    pub fn with_required_schedulers(self, schedulers: Vec<String>) -> (r: Self)
        ensures
            r.required_schedulers == Some(schedulers),
            r.min_cpus == self.min_cpus,
            r.max_cpus == self.max_cpus,
            r.min_complexes == self.min_complexes,
            r.max_complexes == self.max_complexes,
            r.min_nodes == self.min_nodes,
            r.max_nodes == self.max_nodes,
            r.excluded_schedulers == self.excluded_schedulers,
    {
        let mut c = self;
        c.required_schedulers = Some(schedulers);
        c
    }

    /// Sets the schedulers none of which may be installed.
    pub fn with_excluded_schedulers(self, schedulers: Vec<String>) -> (r: Self)
        ensures
            r.excluded_schedulers == Some(schedulers),
            r.min_cpus == self.min_cpus,
            r.max_cpus == self.max_cpus,
            r.min_complexes == self.min_complexes,
            r.max_complexes == self.max_complexes,
            r.min_nodes == self.min_nodes,
            r.max_nodes == self.max_nodes,
            r.required_schedulers == self.required_schedulers,
    {
        let mut c = self;
        c.excluded_schedulers = Some(schedulers);
        c
    }

    /// Checks the constraints against the machine's topology and the name of
    /// the scheduler that is installed (`None` when the default one runs).
    /// The installed name is read only when a scheduler bound is set.
    pub fn check(&self, topology: &Topology, installed: &Option<String>) -> (r: Result<(), ConstraintError>)
        ensures
            r == self.check_spec(*topology, installed_name(*installed)),
    {
        if let Some(min_cpus) = self.min_cpus {
            if topology.logical_cpus < min_cpus {
                return Err(ConstraintError::InsufficientCpus);
            }
        }
        if let Some(max_cpus) = self.max_cpus {
            if topology.logical_cpus > max_cpus {
                return Err(ConstraintError::TooManyCpus);
            }
        }
        if let Some(min_complexes) = self.min_complexes {
            if topology.complexes < min_complexes {
                return Err(ConstraintError::InsufficientComplexes);
            }
        }
        if let Some(max_complexes) = self.max_complexes {
            if topology.complexes > max_complexes {
                return Err(ConstraintError::TooManyComplexes);
            }
        }
        if let Some(min_nodes) = self.min_nodes {
            if topology.nodes < min_nodes {
                return Err(ConstraintError::InsufficientNodes);
            }
        }
        if let Some(max_nodes) = self.max_nodes {
            if topology.nodes > max_nodes {
                return Err(ConstraintError::TooManyNodes);
            }
        }
        if self.required_schedulers.is_some() || self.excluded_schedulers.is_some() {
            let name = match installed {
                Some(s) => s.clone(),
                None => String::new(),
            };
            if let Some(excluded) = self.excluded_schedulers.as_ref() {
                let mut i: usize = 0;
                while i < excluded.len()
                    invariant
                        i <= excluded@.len(),
                        name@ == installed_name(*installed),
                        self.topology_ok(*topology),
                        self.excluded_schedulers == Some(*excluded),
                        forall|j: int| 0 <= j < i ==> (#[trigger] excluded@[j])@ != name@,
                    decreases excluded@.len() - i,
                {
                    if name == excluded[i] {
                        assert((excluded@[i as int])@ == name@);
                        return Err(ConstraintError::SchedulerExcluded);
                    }
                    i = i + 1;
                }
            }
            if let Some(required) = self.required_schedulers.as_ref() {
                let mut found = false;
                let mut i: usize = 0;
                while i < required.len()
                    invariant
                        i <= required@.len(),
                        name@ == installed_name(*installed),
                        self.topology_ok(*topology),
                        self.required_schedulers == Some(*required),
                        self.excluded_schedulers.is_some() ==> !listed(
                            self.excluded_schedulers.unwrap()@,
                            name@,
                        ),
                        found == exists|j: int| 0 <= j < i && (#[trigger] required@[j])@ == name@,
                    decreases required@.len() - i,
                {
                    if name == required[i] {
                        found = true;
                    }
                    i = i + 1;
                }
                if !found {
                    return Err(ConstraintError::SchedulerNotFound);
                }
            }
        }
        Ok(())
    }
}

} // verus!
