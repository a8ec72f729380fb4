use vstd::prelude::*;

use crate::text::{trim, trimmed};
use crate::AppError;

verus! {

/// The program that every invocation runs.
pub const PROGRAM: &'static str = "git";

/// The words put before the caller's arguments: no pager, no colour.
pub open spec fn preamble() -> Seq<Seq<char>> {
    seq!["-c"@, "core.pager=cat"@, "-c"@, "color.ui=false"@]
}

/// The text of a failure from the trimmed streams `out` and `err` of a run that
/// exited with `status`: stdout first, one newline between the two when both
/// are there; a sentence naming the status when neither is.
pub open spec fn joined_message(out: Seq<char>, err: Seq<char>, status: Seq<char>) -> Seq<char> {
    if out.len() == 0 && err.len() == 0 {
        "git exited with status "@ + status
    } else if err.len() == 0 {
        out
    } else if out.len() == 0 {
        err
    } else {
        out + seq!['\n'] + err
    }
}

/// The text of the failure of a run that exited with `status`, having written
/// `out` and `err`: the message joined from the two streams trimmed.
pub open spec fn failure_message(out: Seq<char>, err: Seq<char>, status: Seq<char>) -> Seq<char> {
    joined_message(trimmed(out), trimmed(err), status)
}

/// The text that a successful run yields: its stdout, or its stderr where
/// stdout is empty.
pub open spec fn success_text(out: Seq<char>, err: Seq<char>) -> Seq<char> {
    if out.len() > 0 {
        out
    } else {
        err
    }
}

/// What one run of an external program produced, as plain values.
pub struct Execution {
    /// Whether the exit status reports success.
    pub success: bool,
    /// Standard output, decoded with invalid sequences replaced.
    pub stdout: String,
    /// Standard error, decoded with invalid sequences replaced.
    pub stderr: String,
    /// How the exit status reads, as the process layer prints it.
    pub status: String,
}

/// A run to be made: the program, its full argument list and the directory
/// it runs in.
pub struct Invocation {
    pub program: String,
    pub args: Vec<String>,
    pub cwd: String,
}

/// The outcome that an execution comes to, with the error as its text.
pub open spec fn outcome_of(e: Execution) -> Result<Seq<char>, Seq<char>> {
    if e.success {
        Ok(success_text(e.stdout@, e.stderr@))
    } else {
        Err(failure_message(e.stdout@, e.stderr@, e.status@))
    }
}

/// A result of the library seen as text, the error by its message.
pub open spec fn text_result(r: Result<String, AppError>) -> Result<Seq<char>, Seq<char>> {
    match r {
        Ok(s) => Ok(s@),
        Err(e) => Err(e@),
    }
}

/// Runs git with a fixed preamble and normalises what comes back.
pub struct GitRunner;

impl GitRunner {
    /// The invocation of git with `args` in `cwd`.
    pub fn invocation(args: Vec<String>, cwd: String) -> (r: Invocation)
        ensures
            r.program@ == PROGRAM@,
            r.args.deep_view() == preamble() + args.deep_view(),
            r.cwd@ == cwd@,
    {
        let mut full: Vec<String> = Vec::new();
        full.push("-c".to_owned());
        full.push("core.pager=cat".to_owned());
        full.push("-c".to_owned());
        full.push("color.ui=false".to_owned());
        let mut rest = args;
        let ghost given = rest.deep_view();
        full.append(&mut rest);
        assert(full.deep_view() =~= preamble() + given);
        Invocation { program: PROGRAM.to_owned(), args: full, cwd }
    }

    /// The message of a failed run from its trimmed stdout `out`, its trimmed
    /// stderr `err` and its exit `status`.
    pub fn failure_text(out: &str, err: &str, status: &str) -> (r: String)
        ensures
            r@ == joined_message(out@, err@, status@),
    {
        let mut msg = String::new();
        if !out.is_empty() {
            msg.append(out);
        }
        if !err.is_empty() {
            if !msg.as_str().is_empty() {
                msg.append("\n");
            }
            msg.append(err);
        }
        if msg.as_str().is_empty() {
            msg = "git exited with status ".to_owned();
            msg.append(status);
        }
        proof {
            reveal_strlit("\n");
        }
        assert(msg@ =~= joined_message(out@, err@, status@));
        msg
    }

    /// The outcome of a run: on success its stdout, or its stderr where stdout
    /// is empty; on failure an error made of the trimmed streams, or naming the
    /// exit status where both are blank.
    pub fn outcome(e: Execution) -> (r: Result<String, AppError>)
        ensures
            text_result(r) == outcome_of(e),
            r is Ok <==> e.success,
            e.success && e.stdout@.len() > 0 ==> (r matches Ok(s) && s@ == e.stdout@),
            e.success && e.stdout@.len() == 0 ==> (r matches Ok(s) && s@ == e.stderr@),
            !e.success ==> (r matches Err(m) && m@ == failure_message(
                e.stdout@,
                e.stderr@,
                e.status@,
            )),
            !e.success && e.stdout@.len() == 0 && e.stderr@.len() == 0 ==> (r matches Err(m) && m@
                == "git exited with status "@ + e.status@),
    {
        if !e.success {
            let out = trim(e.stdout.as_str());
            let err = trim(e.stderr.as_str());
            let msg = GitRunner::failure_text(out, err, e.status.as_str());
            return Err(AppError::new(msg));
        }
        if !e.stdout.as_str().is_empty() {
            Ok(e.stdout)
        } else {
            Ok(e.stderr)
        }
    }
}

} // verus!
