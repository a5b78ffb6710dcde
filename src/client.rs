//! What the client prints and how it exits, once its one call has
//! succeeded with a payload or failed with a transport error.

use vstd::prelude::*;

verus! {

/// The text that `{:?}` gives for a string: the string quoted, with quotes,
/// backslashes and control characters escaped.
pub uninterp spec fn debug_text(s: Seq<char>) -> Seq<char>;

/// Relies on std's `Debug` for `str` (`format!("{:?}", s)`): its text
/// depends on the characters of `s` alone.
#[verifier::external_body]
fn debug_quoted(s: &str) -> (r: String)
    ensures
        r@ == debug_text(s@),
{
    format!("{:?}", s)
}

/// `RESPONSE=`, which starts the line printed on success.
pub open spec fn response_prefix() -> Seq<char> {
    seq!['R', 'E', 'S', 'P', 'O', 'N', 'S', 'E', '=']
}

/// `Error: `, which starts the line reported on failure.
pub open spec fn error_prefix() -> Seq<char> {
    seq!['E', 'r', 'r', 'o', 'r', ':', ' ']
}

/// The line printed for the echoed text `m`.
pub open spec fn response_line_of(m: Seq<char>) -> Seq<char> {
    response_prefix() + debug_text(m)
}

/// The line reported for a failure described by `detail`.
pub open spec fn error_line_of(detail: Seq<char>) -> Seq<char> {
    error_prefix() + detail
}

/// What the client process does at its end: the line it writes to standard
/// output, the line it writes to standard error, and its exit status.
pub struct ClientReport {
    pub stdout: Option<String>,
    pub stderr: Option<String>,
    pub exit_code: i32,
}

/// The success line for an echoed text whose quoted form is `quoted`:
/// `RESPONSE=` followed by `quoted`.
pub fn response_line_from_quoted(quoted: &str) -> (r: String)
    ensures
        r@ == response_prefix() + quoted@,
{
    proof {
        reveal_strlit("RESPONSE=");
    }
    let mut r = String::from_str("RESPONSE=");
    r.append(quoted);
    assert(r@ =~= response_prefix() + quoted@);
    r
}

/// The success line for the echoed text `message`: `RESPONSE=` followed by
/// the text quoted as `{:?}` quotes it.
pub fn response_line(message: &str) -> (r: String)
    ensures
        r@ == response_line_of(message@),
{
    let quoted = debug_quoted(message);
    response_line_from_quoted(quoted.as_str())
}

/// The failure line for a transport error described by `detail`.
pub fn error_line(detail: &str) -> (r: String)
    ensures
        r@ == error_line_of(detail@),
{
    proof {
        reveal_strlit("Error: ");
    }
    let mut r = String::from_str("Error: ");
    r.append(detail);
    assert(r@ =~= error_line_of(detail@));
    r
}

/// How the client ends after its call: with `Ok(m)`, the echoed text `m`,
/// it prints the response line and exits with status 0; with `Err(d)`, a
/// transport error described by `d`, it prints no response line, reports the
/// error and exits with status 1.
pub fn report(outcome: &Result<String, String>) -> (r: ClientReport)
    ensures
        match outcome {
            Ok(m) => {
                &&& r.stdout is Some
                &&& r.stdout->0@ == response_line_of(m@)
                &&& r.stderr is None
                &&& r.exit_code == 0
            },
            Err(d) => {
                &&& r.stdout is None
                &&& r.stderr is Some
                &&& r.stderr->0@ == error_line_of(d@)
                &&& r.exit_code == 1
            },
        },
{
    match outcome {
        Ok(m) => ClientReport { stdout: Some(response_line(m.as_str())), stderr: None, exit_code: 0 },
        Err(d) => ClientReport { stdout: None, stderr: Some(error_line(d.as_str())), exit_code: 1 },
    }
}

} // verus!
