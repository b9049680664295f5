//! The decisions of the command that runs the PHP script: which process to
//! launch for a name, and what to answer once it has run. Launching the
//! process and waiting for it is left to the caller.
use vstd::prelude::*;

verus! {

/// The interpreter that runs the script.
pub const INTERPRETER: &'static str = "php";

/// The script handed to the interpreter, before the caller's argument.
pub const SCRIPT_PATH: &'static str = "php/index.php";

/// A process to launch: the program and its arguments, in order.
pub struct ScriptCall {
    pub program: String,
    pub args: Vec<String>,
}

/// What became of one launch of the script.
pub enum ScriptOutcome {
    /// The process could not be started; the description of why.
    SpawnFailed(String),
    /// The process ran to its end.
    Exited { success: bool, stdout: Vec<u8>, stderr: Vec<u8> },
}

/// The text that `String::from_utf8_lossy` makes of `b`.
pub uninterp spec fn utf8_lossy(b: Seq<u8>) -> Seq<char>;

/// Every byte is ASCII.
pub open spec fn is_ascii_bytes(b: Seq<u8>) -> bool {
    forall|i: int| 0 <= i < b.len() ==> b[i] < 128
}

/// The characters of ASCII bytes, one for each byte.
pub open spec fn ascii_chars(b: Seq<u8>) -> Seq<char> {
    b.map_values(|x: u8| x as char)
}

/// The lossy decoding of `b`, spelled out where `b` is ASCII.
pub open spec fn lossy_text(b: Seq<u8>) -> Seq<char> {
    if is_ascii_bytes(b) {
        ascii_chars(b)
    } else {
        utf8_lossy(b)
    }
}

/// What the command answers for an outcome: the standard output on success,
/// the standard error on failure, the description when nothing ran.
pub open spec fn outcome_result(o: ScriptOutcome) -> Result<Seq<char>, Seq<char>> {
    match o {
        ScriptOutcome::SpawnFailed(msg) => Err(msg@),
        ScriptOutcome::Exited { success, stdout, stderr } => if success {
            Ok(lossy_text(stdout@))
        } else {
            Err(lossy_text(stderr@))
        },
    }
}

/// The view of a result of strings.
pub open spec fn result_view(r: Result<String, String>) -> Result<Seq<char>, Seq<char>> {
    match r {
        Ok(s) => Ok(s@),
        Err(e) => Err(e@),
    }
}

/// Relies on `String::from_utf8_lossy`: the text depends on the bytes alone,
/// and bytes that are valid UTF-8 (ASCII bytes among them) come back as they are.
#[verifier::external_body]
fn decode_lossy(b: &[u8]) -> (r: String)
    ensures
        r@ == utf8_lossy(b@),
        is_ascii_bytes(b@) ==> r@ == ascii_chars(b@),
{
    String::from_utf8_lossy(b).into_owned()
}

/// The process that runs the script on `name`: the interpreter, with the
/// script's path and `name`, unchanged, as its two arguments.
pub fn script_call(name: &str) -> (r: ScriptCall)
    ensures
        r.program@ == INTERPRETER@,
        r.args@.len() == 2,
        r.args@[0]@ == SCRIPT_PATH@,
        r.args@[1]@ == name@,
{
    let args = vec![SCRIPT_PATH.to_owned(), name.to_owned()];
    ScriptCall { program: INTERPRETER.to_owned(), args }
}

/// The command's answer for what became of the launch: the decoded standard
/// output when the script succeeded, its decoded standard error as the error
/// when it failed, and the description of the failure when it did not start.
pub fn invocation_result(outcome: ScriptOutcome) -> (r: Result<String, String>)
    ensures
        result_view(r) == outcome_result(outcome),
{
    match outcome {
        ScriptOutcome::SpawnFailed(msg) => Err(msg),
        ScriptOutcome::Exited { success, stdout, stderr } => {
            if success {
                Ok(decode_lossy(stdout.as_slice()))
            } else {
                Err(decode_lossy(stderr.as_slice()))
            }
        },
    }
}

} // verus!
