//! The bootstrap's sole data value: the outcome of one delegated run.
//!
//! Exactly one [`ExitOutcome`] is produced per process invocation.  A
//! `Success` carries the integer that the delegated command loop returned;
//! a `Failure` carries a human-readable description of the step that failed.

use vstd::prelude::*;
use vstd::string::StringExecFns;

verus! {

/// One terminal failure of the bootstrap.  Every variant carries the
/// delegated runtime's own description of what went wrong; the variant
/// itself records which step failed.
pub enum BootstrapError {
    /// The embedded runtime could not be started or attached.
    RuntimeAcquisition(String),
    /// The named module, or the named attribute on it, could not be found.
    Resolution(String),
    /// Instantiating the resolved class failed.
    Construction(String),
    /// Calling the command loop failed.
    Invocation(String),
    /// The command loop's return value was not convertible to a signed
    /// integer exit code.
    Conversion(String),
}

impl BootstrapError {
    /// The fixed prefix that names the step this error belongs to.
    pub open spec fn label_spec(self) -> Seq<char> {
        match self {
            BootstrapError::RuntimeAcquisition(_) => "runtime acquisition failed: "@,
            BootstrapError::Resolution(_) => "module or attribute resolution failed: "@,
            BootstrapError::Construction(_) => "construction failed: "@,
            BootstrapError::Invocation(_) => "invocation failed: "@,
            BootstrapError::Conversion(_) => "exit-code conversion failed: "@,
        }
    }

    /// The description carried inside the error, as the delegated runtime
    /// reported it.
    pub open spec fn detail_spec(self) -> Seq<char> {
        match self {
            BootstrapError::RuntimeAcquisition(d) => d@,
            BootstrapError::Resolution(d) => d@,
            BootstrapError::Construction(d) => d@,
            BootstrapError::Invocation(d) => d@,
            BootstrapError::Conversion(d) => d@,
        }
    }

    /// The full human-readable message: the step's label followed by the
    /// runtime's own description.
    pub open spec fn message_spec(self) -> Seq<char> {
        self.label_spec() + self.detail_spec()
    }

    /// Builds the message that [`Self::message_spec`] describes.
    pub fn message(&self) -> (r: String)
        ensures
            r@ == self.message_spec(),
            r@.len() > 0,
    {
        proof {
            lemma_label_nonempty(*self);
        }
        match self {
            BootstrapError::RuntimeAcquisition(d) => {
                String::from_str("runtime acquisition failed: ").concat(d.as_str())
            },
            BootstrapError::Resolution(d) => {
                String::from_str("module or attribute resolution failed: ").concat(d.as_str())
            },
            BootstrapError::Construction(d) => {
                String::from_str("construction failed: ").concat(d.as_str())
            },
            BootstrapError::Invocation(d) => {
                String::from_str("invocation failed: ").concat(d.as_str())
            },
            BootstrapError::Conversion(d) => {
                String::from_str("exit-code conversion failed: ").concat(d.as_str())
            },
        }
    }
}

/// Whatever step fails, its label — and with it the whole message — is
/// never empty, and the message begins with the label that names the step.
pub proof fn lemma_label_nonempty(e: BootstrapError)
    ensures
        e.label_spec().len() > 0,
        e.message_spec().len() > 0,
        e.message_spec().subrange(0, e.label_spec().len() as int) == e.label_spec(),
{
    reveal_strlit("runtime acquisition failed: ");
    reveal_strlit("module or attribute resolution failed: ");
    reveal_strlit("construction failed: ");
    reveal_strlit("invocation failed: ");
    reveal_strlit("exit-code conversion failed: ");
    assert(e.message_spec().subrange(0, e.label_spec().len() as int) =~= e.label_spec());
}

/// The result of one delegated run: either the command loop's exit code,
/// or a message describing the step that failed.
pub enum ExitOutcome {
    /// The command loop returned this exit code.
    Success(i32),
    /// A step failed; the message is ready for standard-error output.
    Failure(String),
}

/// The process exit status that an outcome calls for: a successful run
/// forwards the delegated code verbatim, any failure exits with status 1.
pub open spec fn exit_status_spec(o: ExitOutcome) -> int {
    match o {
        ExitOutcome::Success(code) => code as int,
        ExitOutcome::Failure(_) => 1,
    }
}

impl ExitOutcome {
    /// The process exit status this outcome calls for.
    pub fn exit_status(&self) -> (r: i32)
        ensures
            r as int == exit_status_spec(*self),
    {
        match self {
            ExitOutcome::Success(code) => *code,
            ExitOutcome::Failure(_) => 1,
        }
    }

    /// The line owed to standard error: `None` on success, and on failure
    /// `Error: ` followed by the failure's message.
    pub fn stderr_line(&self) -> (r: Option<String>)
        ensures
            *self is Success ==> r is None,
            forall|m: String| *self == ExitOutcome::Failure(m)
                ==> (r matches Some(line) && line@ == "Error: "@ + m@),
    {
        match self {
            ExitOutcome::Success(_) => None,
            ExitOutcome::Failure(m) => Some(String::from_str("Error: ").concat(m.as_str())),
        }
    }
}

/// How an outcome corresponds to the delegated run's raw result: a code is
/// kept verbatim, an error is rendered through [`BootstrapError::message_spec`].
pub open spec fn outcome_matches(r: Result<i32, BootstrapError>, o: ExitOutcome) -> bool {
    match r {
        Ok(code) => o == ExitOutcome::Success(code),
        Err(e) => o matches ExitOutcome::Failure(m) && m@ == e.message_spec(),
    }
}

/// Turns the raw result of the delegated run into the process's one
/// [`ExitOutcome`].
pub fn outcome_of(r: Result<i32, BootstrapError>) -> (o: ExitOutcome)
    ensures
        outcome_matches(r, o),
{
    match r {
        Ok(code) => ExitOutcome::Success(code),
        Err(e) => ExitOutcome::Failure(e.message()),
    }
}

/// The low eight bits of an exit code, as a non-negative residue: what a
/// POSIX parent observes of the status after truncation to one byte.
pub open spec fn status_byte_spec(code: int) -> int {
    code % 256
}

/// Truncates an exit status to the eight bits that a POSIX parent process
/// observes.
pub fn status_byte(code: i32) -> (r: u8)
    ensures
        r as int == status_byte_spec(code as int),
{
    if code >= 0 {
        (code % 256) as u8
    } else {
        let pos: i64 = -(code as i64);
        let rem: i64 = pos % 256;
        if rem == 0 {
            proof {
                lemma_neg_mod(code as int, pos as int, rem as int);
            }
            0u8
        } else {
            proof {
                lemma_neg_mod(code as int, pos as int, rem as int);
            }
            (256 - rem) as u8
        }
    }
}

/// For a negative code, the non-negative residue is `256 - ((-code) % 256)`,
/// or zero when `-code` is a multiple of 256.
proof fn lemma_neg_mod(code: int, pos: int, rem: int)
    requires
        code < 0,
        pos == -code,
        rem == pos % 256,
    ensures
        rem == 0 ==> code % 256 == 0,
        rem != 0 ==> code % 256 == 256 - rem,
{
    let q: int = pos / 256;
    vstd::arithmetic::div_mod::lemma_fundamental_div_mod(pos, 256);
    if rem == 0 {
        vstd::arithmetic::div_mod::lemma_mod_multiples_vanish(-q, 0, 256);
    } else {
        vstd::arithmetic::div_mod::lemma_mod_multiples_vanish(-q - 1, 256 - rem, 256);
        vstd::arithmetic::div_mod::lemma_small_mod((256 - rem) as nat, 256nat);
    }
}

/// Law: a successful run forwards the delegated code verbatim as the exit
/// status.
pub proof fn lemma_success_status_forwarded(code: i32)
    ensures
        exit_status_spec(ExitOutcome::Success(code)) == code as int,
{
}

/// Law: every failed run exits with status 1, and its message is non-empty
/// and begins with the label of the step that failed.
pub proof fn lemma_failure_status_one(e: BootstrapError, m: String)
    requires
        m@ == e.message_spec(),
    ensures
        exit_status_spec(ExitOutcome::Failure(m)) == 1,
        m@.len() > 0,
        m@.subrange(0, e.label_spec().len() as int) == e.label_spec(),
{
    lemma_label_nonempty(e);
}

/// Law: the outcome is a function of the delegated run's raw result alone.
/// Two runs whose raw results are equal yield outcomes of the same class,
/// with the same exit status and, on failure, the same message.
pub proof fn lemma_outcome_deterministic(
    r1: Result<i32, BootstrapError>,
    r2: Result<i32, BootstrapError>,
    o1: ExitOutcome,
    o2: ExitOutcome,
)
    requires
        r1 == r2,
        outcome_matches(r1, o1),
        outcome_matches(r2, o2),
    ensures
        o1 is Success <==> o2 is Success,
        exit_status_spec(o1) == exit_status_spec(o2),
        o1 matches ExitOutcome::Failure(m1) ==> (o2 matches ExitOutcome::Failure(m2) && m1@
            == m2@),
{
}

} // verus!
