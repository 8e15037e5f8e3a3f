//! Turning the outcome of one run of the external compiler into the result
//! that the front-end renders.

use vstd::prelude::*;
use vstd::string::*;
use vstd::utf8::*;
use crate::decimal::{append_decimal, decimal_digits};
use crate::text::{
    decode_lossy, lemma_occurs_between, lemma_occurs_in_trans, lossy_text, occurs_in,
};

verus! {

/// What became of the attempt to launch the external compiler.
#[derive(Debug, Clone, PartialEq, Eq)]
pub enum LaunchOutcome {
    /// The executable could not be started at all.
    NotFound,
    /// The process ran to its end; `success` tells whether its exit status
    /// was a success status, and the two streams are held as captured.
    Exited { success: bool, stdout: Vec<u8>, stderr: Vec<u8> },
}

/// The uniform answer to a compile request.
#[derive(Debug, Clone, PartialEq, Eq)]
pub struct CompileResult {
    pub success: bool,
    pub output: String,
    pub errors: Vec<String>,
}

/// The mathematical content of a [`CompileResult`].
pub ghost struct CompileResultView {
    pub success: bool,
    pub output: Seq<char>,
    pub errors: Seq<Seq<char>>,
}

impl View for CompileResult {
    type V = CompileResultView;

    open spec fn view(&self) -> CompileResultView {
        CompileResultView {
            success: self.success,
            output: self.output@,
            errors: self.errors@.map_values(|e: String| e@),
        }
    }
}

/// The line of the placeholder that reports the length of the source.
pub open spec fn source_length_note(source_len: nat) -> Seq<char> {
    "Source length: "@ + decimal_digits(source_len) + " chars"@
}

/// The line of the placeholder that reports the requested target.
pub open spec fn target_note(target: Seq<char>) -> Seq<char> {
    "Target: "@ + target
}

/// The placeholder output for a source of `source_len` bytes and the given
/// target: three comment lines, the last two being the notes above.
pub open spec fn placeholder_text(source_len: nat, target: Seq<char>) -> Seq<char> {
    "// Mock compiled output for agent\n// "@ + source_length_note(source_len) + "\n// "@
        + target_note(target)
}

/// The result owed when the compiler could not be launched.
pub open spec fn placeholder_view(source_len: nat, target: Seq<char>) -> CompileResultView {
    CompileResultView {
        success: true,
        output: placeholder_text(source_len, target),
        errors: Seq::empty(),
    }
}

/// The result owed when the compiler exited with a success status and wrote
/// `output` to its standard output.
pub open spec fn accepted_view(output: Seq<char>) -> CompileResultView {
    CompileResultView { success: true, output, errors: Seq::empty() }
}

/// The result owed when the compiler exited with a failure status and wrote
/// `diagnostic` to its standard error.
pub open spec fn rejected_view(diagnostic: Seq<char>) -> CompileResultView {
    CompileResultView { success: false, output: Seq::empty(), errors: seq![diagnostic] }
}

/// The result owed for a request and the outcome of the launch. The source
/// enters only through the length of its UTF-8 encoding.
pub open spec fn compile_view(
    source: Seq<char>,
    target: Seq<char>,
    launch: LaunchOutcome,
) -> CompileResultView {
    match launch {
        LaunchOutcome::NotFound => placeholder_view(encode_utf8(source).len(), target),
        LaunchOutcome::Exited { success, stdout, stderr } => if success {
            accepted_view(lossy_text(stdout@))
        } else {
            rejected_view(lossy_text(stderr@))
        },
    }
}

/// The placeholder shows both notes, and with them the decimal length of the
/// source and the target as it was given.
pub proof fn lemma_placeholder_reports_request(source_len: nat, target: Seq<char>)
    ensures
        occurs_in(source_length_note(source_len), placeholder_text(source_len, target)),
        occurs_in(target_note(target), placeholder_text(source_len, target)),
        occurs_in(decimal_digits(source_len), placeholder_text(source_len, target)),
        occurs_in(target, placeholder_text(source_len, target)),
{
    let head = "// Mock compiled output for agent\n// "@;
    let gap = "\n// "@;
    let length_note = source_length_note(source_len);
    let whole = placeholder_text(source_len, target);
    lemma_occurs_between(head, length_note, gap + target_note(target));
    assert(head + length_note + (gap + target_note(target)) =~= whole);
    lemma_occurs_between(head + length_note + gap, target_note(target), Seq::empty());
    assert(head + length_note + gap + target_note(target) + Seq::<char>::empty() =~= whole);
    lemma_occurs_between("Source length: "@, decimal_digits(source_len), " chars"@);
    lemma_occurs_in_trans(decimal_digits(source_len), length_note, whole);
    lemma_occurs_between("Target: "@, target, Seq::empty());
    assert("Target: "@ + target + Seq::<char>::empty() =~= target_note(target));
    lemma_occurs_in_trans(target, target_note(target), whole);
}

/// When the compiler cannot be launched, the request still succeeds, without
/// errors, and the output shows the byte length of the source in decimal and
/// the target.
pub proof fn lemma_missing_tool_is_soft(source: Seq<char>, target: Seq<char>)
    ensures
        compile_view(source, target, LaunchOutcome::NotFound).success,
        compile_view(source, target, LaunchOutcome::NotFound).errors.len() == 0,
        occurs_in(
            decimal_digits(encode_utf8(source).len()),
            compile_view(source, target, LaunchOutcome::NotFound).output,
        ),
        occurs_in(target, compile_view(source, target, LaunchOutcome::NotFound).output),
{
    lemma_placeholder_reports_request(encode_utf8(source).len(), target);
}

/// When the compiler exits with a success status, the request succeeds, the
/// output is the decoded standard output, and there are no errors, whatever
/// the request and whatever was written to standard error.
pub proof fn lemma_tool_accepts(
    source: Seq<char>,
    target: Seq<char>,
    stdout: Vec<u8>,
    stderr: Vec<u8>,
)
    ensures
        ({
            let result = compile_view(
                source,
                target,
                (LaunchOutcome::Exited { success: true, stdout, stderr }),
            );
            &&& result.success
            &&& result.output == lossy_text(stdout@)
            &&& result.errors.len() == 0
        }),
{
}

/// When the compiler exits with a failure status, the request fails, the
/// output is empty, and the decoded standard error is the one error, whatever
/// the request and whatever was written to standard output.
pub proof fn lemma_tool_rejects(
    source: Seq<char>,
    target: Seq<char>,
    stdout: Vec<u8>,
    stderr: Vec<u8>,
)
    ensures
        ({
            let result = compile_view(
                source,
                target,
                (LaunchOutcome::Exited { success: false, stdout, stderr }),
            );
            &&& !result.success
            &&& result.output.len() == 0
            &&& result.errors.len() == 1
            &&& result.errors[0] == lossy_text(stderr@)
        }),
{
}

/// With the compiler missing, the result is a function of the byte length of
/// the source and of the target alone: two requests that agree on both get
/// the same result, character for character.
pub proof fn lemma_placeholder_repeats(
    first_source: Seq<char>,
    second_source: Seq<char>,
    target: Seq<char>,
)
    requires
        encode_utf8(first_source).len() == encode_utf8(second_source).len(),
    ensures
        compile_view(first_source, target, LaunchOutcome::NotFound) == compile_view(
            second_source,
            target,
            LaunchOutcome::NotFound,
        ),
{
}

/// Every result is well-formed: it reports success exactly when it carries no
/// error, it never carries more than one, and a failure has no output.
pub proof fn lemma_result_shape(source: Seq<char>, target: Seq<char>, launch: LaunchOutcome)
    ensures
        compile_view(source, target, launch).success <==> compile_view(
            source,
            target,
            launch,
        ).errors.len() == 0,
        compile_view(source, target, launch).errors.len() <= 1,
        !compile_view(source, target, launch).success ==> compile_view(
            source,
            target,
            launch,
        ).output.len() == 0,
{
}

/// Whether `result` shows the captured stream that it reports exactly as the
/// stream encodes it, wherever that stream is valid UTF-8.
pub open spec fn keeps_valid_text(launch: LaunchOutcome, result: CompileResultView) -> bool {
    match launch {
        LaunchOutcome::NotFound => true,
        LaunchOutcome::Exited { success, stdout, stderr } => if success {
            valid_utf8(stdout@) ==> result.output == decode_utf8(stdout@)
        } else {
            valid_utf8(stderr@) ==> result.errors == seq![decode_utf8(stderr@)]
        },
    }
}

/// The name under which the external compiler is looked up on the search path.
pub fn tool_program() -> (name: &'static str)
    ensures
        name@ == "sag"@,
{
    "sag"
}

/// The arguments that put the external compiler into its check mode, reading
/// from its standard input.
pub fn tool_arguments() -> (args: Vec<&'static str>)
    ensures
        args@.len() == 2,
        args@[0]@ == "check"@,
        args@[1]@ == "--stdin"@,
{
    let mut args: Vec<&'static str> = Vec::new();
    args.push("check");
    args.push("--stdin");
    args
}

/// The number of bytes that `text` takes in UTF-8.
pub fn byte_length(text: &str) -> (len: usize)
    ensures
        len == encode_utf8(text@).len(),
{
    text.as_bytes().len()
}

/// Builds the placeholder result for a compiler that could not be launched.
pub fn placeholder_result(source_len: usize, target: &str) -> (result: CompileResult)
    ensures
        result@ == placeholder_view(source_len as nat, target@),
{
    let mut output = String::from_str("// Mock compiled output for agent\n// ");
    output.append("Source length: ");
    append_decimal(&mut output, source_len);
    output.append(" chars");
    output.append("\n// ");
    output.append("Target: ");
    output.append(target);
    let result = CompileResult { success: true, output, errors: Vec::new() };
    assert(result@.output =~= placeholder_text(source_len as nat, target@));
    assert(result@.errors =~= Seq::empty());
    result
}

/// Builds the result for a compiler that accepted the input.
pub fn accepted_result(output: String) -> (result: CompileResult)
    ensures
        result@ == accepted_view(output@),
{
    let result = CompileResult { success: true, output, errors: Vec::new() };
    assert(result@.errors =~= Seq::empty());
    result
}

/// Builds the result for a compiler that rejected the input.
pub fn rejected_result(diagnostic: String) -> (result: CompileResult)
    ensures
        result@ == rejected_view(diagnostic@),
{
    let mut errors: Vec<String> = Vec::new();
    errors.push(diagnostic);
    let result = CompileResult { success: false, output: String::new(), errors };
    assert(result@.errors =~= seq![diagnostic@]);
    result
}

/// Answers a compile request from the outcome of launching the compiler.
///
/// The call itself never fails: a missing compiler and a failing compiler are
/// both reported inside the result. Captured bytes are decoded leniently; where
/// they are valid UTF-8 the text is exactly the one they encode.
///
/// The source text bears on the answer only through its byte length, and only
/// when the compiler is missing. Whether it should also be fed to the
/// compiler's standard input is an open question; until it is settled the
/// outcome of a launch does not depend on the source.
pub fn compile_sag(source: String, target: String, launch: LaunchOutcome) -> (answer: Result<
    CompileResult,
    String,
>)
    ensures
        answer is Ok,
        answer->Ok_0@ == compile_view(source@, target@, launch),
        keeps_valid_text(launch, answer->Ok_0@),
{
    match launch {
        LaunchOutcome::NotFound => {
            let source_len: usize = byte_length(source.as_str());
            Ok(placeholder_result(source_len, target.as_str()))
        },
        LaunchOutcome::Exited { success, stdout, stderr } => {
            if success {
                Ok(accepted_result(decode_lossy(&stdout)))
            } else {
                Ok(rejected_result(decode_lossy(&stderr)))
            }
        },
    }
}

} // verus!
