//! The text extractor: how the external OCR engine is located and invoked,
//! and how its outcome becomes extracted text or a failure.
//!
//! The engine runs as an external process, which the embedding application
//! spawns. This module decides everything around that: whether the engine
//! can be invoked at all, the exact argument list, and what the process's
//! outcome means.

use vstd::prelude::*;

verus! {

/// Why an extraction failed.
#[derive(Clone, Copy, Debug, PartialEq, Eq, Structural)]
pub enum ExtractError {
    /// The OCR engine executable is not resolvable on the search path;
    /// nothing was spawned.
    EngineNotFound,
    /// The engine could not be run, or exited with a non-zero status.
    EngineExecutionFailed,
}

/// The OCR engine's executable name.
pub fn engine_name() -> (r: &'static str)
    ensures
        r@ == "tesseract"@,
{
    "tesseract"
}

/// The argument list the engine is invoked with: the image, output to
/// standard out, and fixed English language configuration.
pub open spec fn engine_args(image_path: Seq<char>) -> Seq<Seq<char>> {
    seq![image_path, "stdout"@, "-l"@, "eng"@]
}

/// Relies on `which::which`: resolves a binary name to an executable on the
/// process's search path. Whether it succeeds depends on the environment,
/// so nothing is promised of the result.
#[verifier::external_body]
fn binary_on_path(name: &str) -> bool {
    which::which(name).is_ok()
}

/// The invocation a found engine gets, or the failure an absent one causes.
/// When the engine was not found the result is `EngineNotFound` and no
/// argument list exists for the application to spawn anything with.
pub fn extraction_command(engine_found: bool, image_path: &str) -> (r: Result<
    Vec<String>,
    ExtractError,
>)
    ensures
        engine_found <==> r is Ok,
        r matches Ok(args) ==> args.deep_view() == engine_args(image_path@),
        !engine_found ==> r == Err::<Vec<String>, ExtractError>(ExtractError::EngineNotFound),
{
    if engine_found {
        let mut args: Vec<String> = Vec::new();
        args.push(image_path.to_owned());
        args.push("stdout".to_owned());
        args.push("-l".to_owned());
        args.push("eng".to_owned());
        proof {
            assert(args.deep_view() =~= engine_args(image_path@));
        }
        Ok(args)
    } else {
        Err(ExtractError::EngineNotFound)
    }
}

/// Looks the engine up on the search path and, when it is there, hands back
/// the argument list to spawn it with; otherwise fails with
/// `EngineNotFound`. Whether the lookup succeeds depends on the
/// environment, but either outcome's content is fixed: an `Ok` holds
/// exactly the engine's argument list, an `Err` is `EngineNotFound`.
pub fn begin_extraction(image_path: &str) -> (r: Result<Vec<String>, ExtractError>)
    ensures
        r matches Ok(args) ==> args.deep_view() == engine_args(image_path@),
        r matches Err(e) ==> e == ExtractError::EngineNotFound,
{
    extraction_command(binary_on_path(engine_name()), image_path)
}

/// What the application observed of one engine process: whether it exited
/// successfully, and the bytes it wrote to standard out (standard error is
/// discarded).
pub struct EngineRun {
    pub exit_success: bool,
    pub stdout: Vec<u8>,
}

/// What `String::from_utf8_lossy` decodes a byte sequence to: a function
/// of the bytes alone.
pub uninterp spec fn lossy_decoded(bytes: Seq<u8>) -> Seq<char>;

/// Relies on `String::from_utf8_lossy`: decodes bytes as UTF-8, replacing
/// any invalid sequence with the replacement character; it never fails, and
/// empty input gives empty output.
#[verifier::external_body]
fn decode_lossy(bytes: &Vec<u8>) -> (r: String)
    ensures
        r@ == lossy_decoded(bytes@),
        bytes@.len() == 0 ==> r@.len() == 0,
{
    String::from_utf8_lossy(bytes.as_slice()).into_owned()
}

/// The text an engine run extracted, or why it failed. A run that could
/// not be spawned (`None`) and a run that exited unsuccessfully both fail
/// with `EngineExecutionFailed`; a successful exit yields the standard-out
/// bytes decoded lossily as text.
pub fn finish_extraction(run: Option<EngineRun>) -> (r: Result<String, ExtractError>)
    ensures
        (run is Some && run->0.exit_success) <==> r is Ok,
        (run is Some && run->0.exit_success) ==> (r matches Ok(t) && t@ == lossy_decoded(
            run->0.stdout@,
        )),
        !(run is Some && run->0.exit_success) ==> r == Err::<String, ExtractError>(
            ExtractError::EngineExecutionFailed,
        ),
{
    match run {
        None => Err(ExtractError::EngineExecutionFailed),
        Some(o) => {
            if o.exit_success {
                Ok(decode_lossy(&o.stdout))
            } else {
                Err(ExtractError::EngineExecutionFailed)
            }
        },
    }
}

} // verus!
