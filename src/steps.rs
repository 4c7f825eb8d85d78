use vstd::prelude::*;

verus! {

/// One forward step of service creation; each has a matching inverse.
#[derive(Clone, Copy, Debug, PartialEq, Eq, Structural)]
pub enum Step {
    Folder,
    ComposeFile,
    EnvFile,
    SystemdUnit,
}

/// Number of steps in a full creation.
pub const STEP_COUNT: usize = 4;

/// The fixed order in which the creation steps run.
pub open spec fn creation_order() -> Seq<Step> {
    seq![Step::Folder, Step::ComposeFile, Step::EnvFile, Step::SystemdUnit]
}

/// Position of a step in the creation order.
pub open spec fn step_index(s: Step) -> nat {
    match s {
        Step::Folder => 0,
        Step::ComposeFile => 1,
        Step::EnvFile => 2,
        Step::SystemdUnit => 3,
    }
}

/// Caller-facing name of a step.
pub open spec fn step_name(s: Step) -> Seq<char> {
    match s {
        Step::Folder => "Create Service Folder"@,
        Step::ComposeFile => "Create Compose File"@,
        Step::EnvFile => "Create Env File"@,
        Step::SystemdUnit => "Create Systemd Unit"@,
    }
}

impl Step {
    /// The step at position `i` of the creation order.
    pub fn at(i: usize) -> (r: Step)
        requires
            i < STEP_COUNT,
        ensures
            r == creation_order()[i as int],
            step_index(r) == i,
    {
        if i == 0 {
            Step::Folder
        } else if i == 1 {
            Step::ComposeFile
        } else if i == 2 {
            Step::EnvFile
        } else {
            Step::SystemdUnit
        }
    }

    /// Position of this step in the creation order.
    pub fn index(&self) -> (r: usize)
        ensures
            r == step_index(*self),
            creation_order()[r as int] == *self,
    {
        match self {
            Step::Folder => 0,
            Step::ComposeFile => 1,
            Step::EnvFile => 2,
            Step::SystemdUnit => 3,
        }
    }

    /// The name under which a failure of this step is reported.
    pub fn name(&self) -> (r: String)
        ensures
            r@ == step_name(*self),
    {
        match self {
            Step::Folder => String::from_str("Create Service Folder"),
            Step::ComposeFile => String::from_str("Create Compose File"),
            Step::EnvFile => String::from_str("Create Env File"),
            Step::SystemdUnit => String::from_str("Create Systemd Unit"),
        }
    }
}

} // verus!
