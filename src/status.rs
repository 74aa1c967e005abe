use vstd::prelude::*;

verus! {

/// State of one job execution, as the management API reports it.
#[derive(Debug, Clone, Copy, PartialEq, Eq, Structural)]
pub enum JobExecutionStatus {
    Running,
    Succeeded,
    Failed,
    Unknown,
}

/// The status that a wire string stands for: the three known names map one to
/// one, every other string is `Unknown`.
pub open spec fn status_of(s: Seq<char>) -> JobExecutionStatus {
    if s == "Running"@ {
        JobExecutionStatus::Running
    } else if s == "Succeeded"@ {
        JobExecutionStatus::Succeeded
    } else if s == "Failed"@ {
        JobExecutionStatus::Failed
    } else {
        JobExecutionStatus::Unknown
    }
}

/// The wire name of a status.
pub open spec fn name_of(st: JobExecutionStatus) -> Seq<char> {
    match st {
        JobExecutionStatus::Running => "Running"@,
        JobExecutionStatus::Succeeded => "Succeeded"@,
        JobExecutionStatus::Failed => "Failed"@,
        JobExecutionStatus::Unknown => "Unknown"@,
    }
}

/// A status from which no further transition occurs.
pub open spec fn is_terminal(st: JobExecutionStatus) -> bool {
    st == JobExecutionStatus::Succeeded || st == JobExecutionStatus::Failed
}

fn str_eq(a: &str, b: &str) -> (r: bool)
    ensures
        r == (a@ == b@),
{
    let n = a.unicode_len();
    if n != b.unicode_len() {
        return false;
    }
    let mut i: usize = 0;
    while i < n
        invariant
            n == a@.len(),
            n == b@.len(),
            0 <= i <= n,
            forall|j: int| 0 <= j < i ==> a@[j] == b@[j],
        decreases n - i,
    {
        if a.get_char(i) != b.get_char(i) {
            return false;
        }
        i = i + 1;
    }
    proof {
        assert(a@ =~= b@);
    }
    true
}

impl JobExecutionStatus {
    /// Decodes a wire string; an unrecognised one is `Unknown`, never an error.
    pub fn from_str(s: &str) -> (r: JobExecutionStatus)
        ensures
            r == status_of(s@),
    {
        if str_eq(s, "Running") {
            JobExecutionStatus::Running
        } else if str_eq(s, "Succeeded") {
            JobExecutionStatus::Succeeded
        } else if str_eq(s, "Failed") {
            JobExecutionStatus::Failed
        } else {
            JobExecutionStatus::Unknown
        }
    }

    /// Decodes a status field that may be missing: a missing one is `Unknown`.
    pub fn from_field(s: Option<&str>) -> (r: JobExecutionStatus)
        ensures
            r == match s {
                Some(t) => status_of(t@),
                None => JobExecutionStatus::Unknown,
            },
    {
        match s {
            Some(t) => JobExecutionStatus::from_str(t),
            None => JobExecutionStatus::Unknown,
        }
    }

    /// The wire name of this status.
    pub fn to_str(&self) -> (r: &'static str)
        ensures
            r@ == name_of(*self),
    {
        match self {
            JobExecutionStatus::Running => "Running",
            JobExecutionStatus::Succeeded => "Succeeded",
            JobExecutionStatus::Failed => "Failed",
            JobExecutionStatus::Unknown => "Unknown",
        }
    }

    /// Whether this status ends the watch of an execution.
    pub fn is_terminal(&self) -> (r: bool)
        ensures
            r == is_terminal(*self),
    {
        match self {
            JobExecutionStatus::Succeeded | JobExecutionStatus::Failed => true,
            _ => false,
        }
    }
}

/// Decoding the wire name of a status gives the status back.
pub proof fn lemma_name_round_trip(st: JobExecutionStatus)
    ensures
        status_of(name_of(st)) == st,
{
    reveal_strlit("Running");
    reveal_strlit("Succeeded");
    reveal_strlit("Failed");
    reveal_strlit("Unknown");
    assert("Succeeded"@.len() != "Running"@.len());
    assert("Failed"@.len() != "Running"@.len());
    assert("Failed"@.len() != "Succeeded"@.len());
    assert("Unknown"@[0] != "Running"@[0]);
    assert("Unknown"@.len() != "Succeeded"@.len());
    assert("Unknown"@.len() != "Failed"@.len());
}

/// A string other than the three known names decodes to `Unknown`.
pub proof fn lemma_unrecognised_is_unknown(s: Seq<char>)
    requires
        s != "Running"@,
        s != "Succeeded"@,
        s != "Failed"@,
    ensures
        status_of(s) == JobExecutionStatus::Unknown,
{
}

} // verus!
