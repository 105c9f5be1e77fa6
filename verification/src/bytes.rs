//! Text out of bytes, as other programs write it.
use vstd::prelude::*;
use vstd::string::*;
use vstd::utf8::*;

verus! {

/// The text that stands for bytes which need not be valid UTF-8.
pub uninterp spec fn lossy_text(bytes: Seq<u8>) -> Seq<char>;

/// `String::from_utf8_lossy` decodes UTF-8 and puts replacement characters
/// where the bytes are not valid. What comes out of valid bytes is what they
/// encode; for others the result has the name `lossy_text`.
#[verifier::external_body]
pub(crate) fn text_of_bytes(bytes: &Vec<u8>) -> (r: String)
    ensures
        r@ == lossy_text(bytes@),
        valid_utf8(bytes@) ==> r@ == decode_utf8(bytes@),
{
    String::from_utf8_lossy(bytes).into_owned()
}

/// What is wrong with bytes that are not valid UTF-8, in words.
pub uninterp spec fn utf8_fault(bytes: Seq<u8>) -> Seq<char>;

/// `String::from_utf8` gives the text that valid UTF-8 encodes. For anything
/// else it gives an error, whose text has the name `utf8_fault`.
#[verifier::external_body]
pub(crate) fn utf8_text(bytes: Vec<u8>) -> (r: Result<String, String>)
    ensures
        match r {
            Ok(s) => valid_utf8(bytes@) && s@ == decode_utf8(bytes@),
            Err(e) => !valid_utf8(bytes@) && e@ == utf8_fault(bytes@),
        },
{
    String::from_utf8(bytes).map_err(|fault| fault.to_string())
}

/// What a program that ran has left behind.
pub struct ProcessOutput {
    pub success: bool,
    pub stdout: Vec<u8>,
    pub stderr: Vec<u8>,
}

impl ProcessOutput {
    /// The text on standard output.
    pub open spec fn out_text(self) -> Seq<char> {
        lossy_text(self.stdout@)
    }

    /// The text on standard error.
    pub open spec fn err_text(self) -> Seq<char> {
        lossy_text(self.stderr@)
    }
}

/// How running a program ended. The texts give the reason of a failure.
pub enum RunResult {
    /// The program ran.
    Finished(ProcessOutput),
    /// There is no such program.
    NotFound(String),
    /// The program could not be run.
    Failed(String),
    /// The program did not take its input.
    WriteFailed(String),
    /// The output of the program could not be read.
    ReadFailed(String),
}

/// Why a program did not run to its end.
pub open spec fn fault_of(run: RunResult) -> Option<Seq<char>> {
    match run {
        RunResult::Finished(_) => None,
        RunResult::NotFound(reason) => Some(reason@),
        RunResult::Failed(reason) => Some(reason@),
        RunResult::WriteFailed(reason) => Some(reason@),
        RunResult::ReadFailed(reason) => Some(reason@),
    }
}

/// The standard output of a run that succeeded.
pub open spec fn successful_out(run: RunResult) -> Option<Seq<char>> {
    match run {
        RunResult::Finished(output) => if output.success {
            Some(output.out_text())
        } else {
            None
        },
        _ => None,
    }
}

/// Reads the standard output of a run that succeeded.
pub fn successful_output(run: &RunResult) -> (r: Option<String>)
    ensures
        match r {
            Some(s) => successful_out(*run) == Some(s@),
            None => successful_out(*run) is None,
        },
{
    match run {
        RunResult::Finished(output) => if output.success {
            Some(text_of_bytes(&output.stdout))
        } else {
            None
        },
        _ => None,
    }
}

} // verus!
