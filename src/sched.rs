//! What the machine reports about pluggable schedulers.
use vstd::prelude::*;

verus! {

/// What `str::trim` returns for a string: the string without leading and
/// trailing whitespace.
pub uninterp spec fn trim_of(s: Seq<char>) -> Seq<char>;

/// Relies on str::trim for removing leading and trailing whitespace.
#[verifier::external_body]
fn trim(s: &str) -> (r: &str)
    ensures
        r@ == trim_of(s@),
{
    s.trim()
}

/// Relies on std::path::Path::exists for whether a path names an existing
/// file or directory; nothing is known of the answer.
#[verifier::external_body]
fn path_exists(path: &str) -> (r: bool) {
    std::path::Path::new(path).exists()
}

/// Directory of the pluggable-scheduler facility.
pub const SCHED_EXT_PATH: &'static str = "/sys/kernel/sched_ext";

/// File holding the facility's state.
pub const SCHED_EXT_STATUS_PATH: &'static str = "/sys/kernel/sched_ext/state";

/// File holding the name of the scheduler that is installed.
pub const SCHED_EXT_ROOT_OPS_PATH: &'static str = "/sys/kernel/sched_ext/root/ops";

/// Scheduling parameters of the calling process.
pub struct Sched;

/// The pluggable-scheduler facility.
pub struct SchedExt;

/// The user the process runs as.
pub struct User;

/// Why the state of the facility could not be understood.
#[derive(Debug, PartialEq, Eq)]
pub enum SchedError {
    /// The state file held something other than a known state.
    UnexpectedStatus(String),
}

impl SchedError {
    /// A short human-readable description of the failure.
    pub fn message(&self) -> (r: String)
        ensures
            self matches SchedError::UnexpectedStatus(s) ==> r@ == "Unexpected status: "@ + s@,
    {
        match self {
            SchedError::UnexpectedStatus(s) => {
                let mut m = String::from_str("Unexpected status: ");
                m.append(s.as_str());
                m
            },
        }
    }
}

impl SchedExt {
    /// Whether the pluggable-scheduler facility exists on this machine.
    pub fn available() -> (r: Result<bool, SchedError>)
        ensures
            r is Ok,
    {
        Ok(path_exists(SCHED_EXT_PATH))
    }

    /// Whether the state file's content says that a scheduler is enabled, so
    /// that the ops file is to be read for its name.
    pub fn enabled(status: &str) -> (r: bool)
        ensures
            r == (trim_of(status@) == "enabled"@),
    {
        trim(status).to_owned() == "enabled".to_owned()
    }

    /// Which custom scheduler is installed, from the contents of the state
    /// file and of the ops file (`None` for a file that does not exist).
    /// Without a state file, or in state `disabled` or `enabling`, none is;
    /// in state `enabled` it is the trimmed content of the ops file, if that
    /// file exists. Any other state is an error.
    pub fn installed_from(status: Option<String>, ops: Option<String>) -> (r: Result<Option<String>, SchedError>)
        ensures
            status is None ==> r == Ok::<Option<String>, SchedError>(None),
            status is Some ==> {
                let t = trim_of(status->Some_0@);
                if t == "disabled"@ || t == "enabling"@ {
                    r == Ok::<Option<String>, SchedError>(None)
                } else if t != "enabled"@ {
                    r matches Err(SchedError::UnexpectedStatus(m)) && m@ == t
                } else if ops is None {
                    r == Ok::<Option<String>, SchedError>(None)
                } else {
                    r matches Ok(Some(n)) && n@ == trim_of(ops->Some_0@)
                }
            },
    {
        let status = match status {
            Some(s) => s,
            None => return Ok(None),
        };
        let t = trim(status.as_str()).to_owned();
        if t == "disabled".to_owned() || t == "enabling".to_owned() {
            return Ok(None);
        }
        if t != "enabled".to_owned() {
            return Err(SchedError::UnexpectedStatus(t));
        }
        match ops {
            Some(o) => Ok(Some(trim(o.as_str()).to_owned())),
            None => Ok(None),
        }
    }
}

} // verus!
