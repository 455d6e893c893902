//! The request and the result of one exchange, and their wire format.
//!
//! Both travel as one JSON object. A request carries the members `language`,
//! `code` and `filename`, all strings; a result carries `success`, `stdout`,
//! `stderr` and `exitCode`, written in that order.

use crate::json::{json_object, json_string, member, parse_object, quote, Field, FieldView};
use crate::text::{decimal, decimal_text};
use vstd::prelude::*;

verus! {

/// What a caller asks the agent to run.
#[derive(Debug, Clone, PartialEq, Eq)]
pub struct ExecutionRequest {
    /// Identifier of the toolchain.
    pub language: String,
    /// The source text.
    pub code: String,
    /// The name under which the source is staged.
    pub filename: String,
}

/// The mathematical value of an [`ExecutionRequest`].
pub struct RequestView {
    pub language: Seq<char>,
    pub code: Seq<char>,
    pub filename: Seq<char>,
}

impl View for ExecutionRequest {
    type V = RequestView;

    open spec fn view(&self) -> RequestView {
        RequestView { language: self.language@, code: self.code@, filename: self.filename@ }
    }
}

/// What the agent answers.
#[derive(Debug, Clone, PartialEq, Eq)]
pub struct ExecutionResult {
    /// Whether the child process exited with status zero.
    pub success: bool,
    /// What the child wrote to its standard output.
    pub stdout: String,
    /// What the child wrote to its standard error, or why nothing was run.
    pub stderr: String,
    /// The child's exit code, or -1 where there is none.
    pub exit_code: i32,
}

/// The mathematical value of an [`ExecutionResult`].
pub struct ResultView {
    pub success: bool,
    pub stdout: Seq<char>,
    pub stderr: Seq<char>,
    pub exit_code: i32,
}

impl View for ExecutionResult {
    type V = ResultView;

    open spec fn view(&self) -> ResultView {
        ResultView {
            success: self.success,
            stdout: self.stdout@,
            stderr: self.stderr@,
            exit_code: self.exit_code,
        }
    }
}

/// The exit code reported where the child left none, or nothing was run.
pub const NO_EXIT_CODE: i32 = -1;

/// The members of the two wire objects.
#[derive(Debug, Clone, Copy, PartialEq, Eq, Structural)]
pub enum FieldId {
    Language,
    Code,
    Filename,
    Success,
    Stdout,
    Stderr,
    ExitCode,
}

impl FieldId {
    /// The member's key on the wire.
    pub open spec fn key(self) -> Seq<char> {
        match self {
            FieldId::Language => "language"@,
            FieldId::Code => "code"@,
            FieldId::Filename => "filename"@,
            FieldId::Success => "success"@,
            FieldId::Stdout => "stdout"@,
            FieldId::Stderr => "stderr"@,
            FieldId::ExitCode => "exitCode"@,
        }
    }

    /// What the member's value has to be, in words.
    pub open spec fn expected(self) -> Seq<char> {
        match self {
            FieldId::Success => "a boolean"@,
            FieldId::ExitCode => "a 32-bit integer"@,
            _ => "a string"@,
        }
    }

    /// The member's key on the wire.
    pub fn name(self) -> (r: &'static str)
        ensures
            r@ == self.key(),
    {
        match self {
            FieldId::Language => "language",
            FieldId::Code => "code",
            FieldId::Filename => "filename",
            FieldId::Success => "success",
            FieldId::Stdout => "stdout",
            FieldId::Stderr => "stderr",
            FieldId::ExitCode => "exitCode",
        }
    }

    /// What the member's value has to be, in words.
    pub fn expectation(self) -> (r: &'static str)
        ensures
            r@ == self.expected(),
    {
        match self {
            FieldId::Success => "a boolean",
            FieldId::ExitCode => "a 32-bit integer",
            _ => "a string",
        }
    }
}

/// Why a payload could not be decoded.
#[derive(Debug)]
pub enum DecodeError {
    /// The payload is not the JSON notation of one object; the text is the
    /// parser's description.
    Malformed(String),
    /// The object lacks a required member.
    Missing(FieldId),
    /// A required member holds a value of the wrong type.
    Mistyped(FieldId),
}

/// The mathematical value of a [`DecodeError`].
pub enum DecodeErrorView {
    Malformed(Seq<char>),
    Missing(FieldId),
    Mistyped(FieldId),
}

impl View for DecodeError {
    type V = DecodeErrorView;

    open spec fn view(&self) -> DecodeErrorView {
        match self {
            DecodeError::Malformed(m) => DecodeErrorView::Malformed(m@),
            DecodeError::Missing(id) => DecodeErrorView::Missing(*id),
            DecodeError::Mistyped(id) => DecodeErrorView::Mistyped(*id),
        }
    }
}

impl DecodeError {
    /// The error in words.
    pub open spec fn description(e: DecodeErrorView) -> Seq<char> {
        match e {
            DecodeErrorView::Malformed(m) => m,
            DecodeErrorView::Missing(id) => "missing field `"@ + id.key() + "`"@,
            DecodeErrorView::Mistyped(id) => "invalid type for field `"@ + id.key()
                + "`, expected "@ + id.expected(),
        }
    }

    /// The error in words.
    pub fn describe(&self) -> (r: String)
        ensures
            r@ == Self::description(self@),
    {
        match self {
            DecodeError::Malformed(m) => m.clone(),
            DecodeError::Missing(id) => {
                let mut out = String::from_str("missing field `");
                out.append(id.name());
                out.append("`");
                out
            },
            DecodeError::Mistyped(id) => {
                let mut out = String::from_str("invalid type for field `");
                out.append(id.name());
                out.append("`, expected ");
                out.append(id.expectation());
                out
            },
        }
    }
}

/// The member `id` of an object, if it has one.
pub open spec fn lookup(members: Map<Seq<char>, FieldView>, id: FieldId) -> Option<FieldView> {
    if members.contains_key(id.key()) {
        Some(members[id.key()])
    } else {
        None
    }
}

/// The text of a member that has to be a string.
pub open spec fn text_of(field: Option<FieldView>, id: FieldId) -> Result<
    Seq<char>,
    DecodeErrorView,
> {
    match field {
        None => Err(DecodeErrorView::Missing(id)),
        Some(FieldView::Text(s)) => Ok(s),
        Some(_) => Err(DecodeErrorView::Mistyped(id)),
    }
}

/// The value of a member that has to be a boolean.
pub open spec fn flag_of(field: Option<FieldView>, id: FieldId) -> Result<bool, DecodeErrorView> {
    match field {
        None => Err(DecodeErrorView::Missing(id)),
        Some(FieldView::Flag(b)) => Ok(b),
        Some(_) => Err(DecodeErrorView::Mistyped(id)),
    }
}

/// The value of a member that has to be an integer of 32 bits.
pub open spec fn int32_of(field: Option<FieldView>, id: FieldId) -> Result<i32, DecodeErrorView> {
    match field {
        None => Err(DecodeErrorView::Missing(id)),
        Some(FieldView::Integer(n)) => if i32::MIN <= n <= i32::MAX {
            Ok(n as i32)
        } else {
            Err(DecodeErrorView::Mistyped(id))
        },
        Some(_) => Err(DecodeErrorView::Mistyped(id)),
    }
}

/// The request that three members make: each has to be present and a string,
/// and the first that is not decides the error.
pub open spec fn request_of_fields(
    language: Option<FieldView>,
    code: Option<FieldView>,
    filename: Option<FieldView>,
) -> Result<RequestView, DecodeErrorView> {
    match text_of(language, FieldId::Language) {
        Err(e) => Err(e),
        Ok(language) => match text_of(code, FieldId::Code) {
            Err(e) => Err(e),
            Ok(code) => match text_of(filename, FieldId::Filename) {
                Err(e) => Err(e),
                Ok(filename) => Ok(RequestView { language, code, filename }),
            },
        },
    }
}

/// The request that an object denotes. Members other than the three required
/// ones are ignored.
pub open spec fn request_of_object(members: Map<Seq<char>, FieldView>) -> Result<
    RequestView,
    DecodeErrorView,
> {
    request_of_fields(
        lookup(members, FieldId::Language),
        lookup(members, FieldId::Code),
        lookup(members, FieldId::Filename),
    )
}

/// The result that four members make: a boolean, two strings and an integer
/// of 32 bits; the first that is absent or of another type decides the error.
pub open spec fn result_of_fields(
    success: Option<FieldView>,
    stdout: Option<FieldView>,
    stderr: Option<FieldView>,
    exit_code: Option<FieldView>,
) -> Result<ResultView, DecodeErrorView> {
    match flag_of(success, FieldId::Success) {
        Err(e) => Err(e),
        Ok(success) => match text_of(stdout, FieldId::Stdout) {
            Err(e) => Err(e),
            Ok(stdout) => match text_of(stderr, FieldId::Stderr) {
                Err(e) => Err(e),
                Ok(stderr) => match int32_of(exit_code, FieldId::ExitCode) {
                    Err(e) => Err(e),
                    Ok(exit_code) => Ok(ResultView { success, stdout, stderr, exit_code }),
                },
            },
        },
    }
}

/// The result that an object denotes.
pub open spec fn result_of_object(members: Map<Seq<char>, FieldView>) -> Result<
    ResultView,
    DecodeErrorView,
> {
    result_of_fields(
        lookup(members, FieldId::Success),
        lookup(members, FieldId::Stdout),
        lookup(members, FieldId::Stderr),
        lookup(members, FieldId::ExitCode),
    )
}

/// The view of a decoded request or its error.
pub open spec fn decoded_request(r: Result<ExecutionRequest, DecodeError>) -> Result<
    RequestView,
    DecodeErrorView,
> {
    match r {
        Ok(request) => Ok(request@),
        Err(e) => Err(e@),
    }
}

/// The view of a decoded result or its error.
pub open spec fn decoded_result(r: Result<ExecutionResult, DecodeError>) -> Result<
    ResultView,
    DecodeErrorView,
> {
    match r {
        Ok(result) => Ok(result@),
        Err(e) => Err(e@),
    }
}

fn take_text(field: Option<Field>, id: FieldId) -> (r: Result<String, DecodeError>)
    ensures
        match text_of(crate::json::field_view(field), id) {
            Ok(s) => r matches Ok(t) && t@ == s,
            Err(e) => r matches Err(f) && f@ == e,
        },
{
    match field {
        None => Err(DecodeError::Missing(id)),
        Some(Field::Text(s)) => Ok(s),
        Some(_) => Err(DecodeError::Mistyped(id)),
    }
}

fn take_flag(field: Option<Field>, id: FieldId) -> (r: Result<bool, DecodeError>)
    ensures
        match flag_of(crate::json::field_view(field), id) {
            Ok(b) => r == Ok::<bool, DecodeError>(b),
            Err(e) => r matches Err(f) && f@ == e,
        },
{
    match field {
        None => Err(DecodeError::Missing(id)),
        Some(Field::Flag(b)) => Ok(b),
        Some(_) => Err(DecodeError::Mistyped(id)),
    }
}

fn take_int32(field: Option<Field>, id: FieldId) -> (r: Result<i32, DecodeError>)
    ensures
        match int32_of(crate::json::field_view(field), id) {
            Ok(n) => r == Ok::<i32, DecodeError>(n),
            Err(e) => r matches Err(f) && f@ == e,
        },
{
    match field {
        None => Err(DecodeError::Missing(id)),
        Some(Field::Integer(n)) => {
            if -2147483648 <= n && n <= 2147483647 {
                Ok(n as i32)
            } else {
                Err(DecodeError::Mistyped(id))
            }
        },
        Some(_) => Err(DecodeError::Mistyped(id)),
    }
}

/// Builds a request from the three members read off a parsed object.
pub fn request_from_fields(
    language: Option<Field>,
    code: Option<Field>,
    filename: Option<Field>,
) -> (r: Result<ExecutionRequest, DecodeError>)
    ensures
        decoded_request(r) == request_of_fields(
            crate::json::field_view(language),
            crate::json::field_view(code),
            crate::json::field_view(filename),
        ),
{
    let language = match take_text(language, FieldId::Language) {
        Ok(s) => s,
        Err(e) => {
            return Err(e);
        },
    };
    let code = match take_text(code, FieldId::Code) {
        Ok(s) => s,
        Err(e) => {
            return Err(e);
        },
    };
    let filename = match take_text(filename, FieldId::Filename) {
        Ok(s) => s,
        Err(e) => {
            return Err(e);
        },
    };
    Ok(ExecutionRequest { language, code, filename })
}

/// Builds a result from the four members read off a parsed object.
pub fn result_from_fields(
    success: Option<Field>,
    stdout: Option<Field>,
    stderr: Option<Field>,
    exit_code: Option<Field>,
) -> (r: Result<ExecutionResult, DecodeError>)
    ensures
        decoded_result(r) == result_of_fields(
            crate::json::field_view(success),
            crate::json::field_view(stdout),
            crate::json::field_view(stderr),
            crate::json::field_view(exit_code),
        ),
{
    let success = match take_flag(success, FieldId::Success) {
        Ok(b) => b,
        Err(e) => {
            return Err(e);
        },
    };
    let stdout = match take_text(stdout, FieldId::Stdout) {
        Ok(s) => s,
        Err(e) => {
            return Err(e);
        },
    };
    let stderr = match take_text(stderr, FieldId::Stderr) {
        Ok(s) => s,
        Err(e) => {
            return Err(e);
        },
    };
    let exit_code: i32 = match take_int32(exit_code, FieldId::ExitCode) {
        Ok(n) => n,
        Err(e) => {
            return Err(e);
        },
    };
    Ok(ExecutionResult { success, stdout, stderr, exit_code })
}

/// Decodes a request payload.
///
/// The payload has to be one JSON object whose members `language`, `code`
/// and `filename` are strings. Whether it is one object, and what its members
/// hold, is the JSON parser's finding.
pub fn decode_request(text: &str) -> (r: Result<ExecutionRequest, DecodeError>)
    ensures
        match json_object(text@) {
            Some(members) => decoded_request(r) == request_of_object(members),
            None => r matches Err(DecodeError::Malformed(_)),
        },
{
    match parse_object(text) {
        Err(e) => Err(DecodeError::Malformed(e.to_string())),
        Ok(object) => request_from_fields(
            member(&object, FieldId::Language.name()),
            member(&object, FieldId::Code.name()),
            member(&object, FieldId::Filename.name()),
        ),
    }
}

/// Decodes a result payload, as [`encode_result`] writes it.
pub fn decode_result(text: &str) -> (r: Result<ExecutionResult, DecodeError>)
    ensures
        match json_object(text@) {
            Some(members) => decoded_result(r) == result_of_object(members),
            None => r matches Err(DecodeError::Malformed(_)),
        },
{
    match parse_object(text) {
        Err(e) => Err(DecodeError::Malformed(e.to_string())),
        Ok(object) => result_from_fields(
            member(&object, FieldId::Success.name()),
            member(&object, FieldId::Stdout.name()),
            member(&object, FieldId::Stderr.name()),
            member(&object, FieldId::ExitCode.name()),
        ),
    }
}

impl ExecutionResult {
    /// The result of an exchange in which nothing ran to an exit code.
    pub open spec fn failure(stderr: Seq<char>) -> ResultView {
        ResultView { success: false, stdout: Seq::empty(), stderr, exit_code: NO_EXIT_CODE }
    }

    /// The result of an exchange in which nothing ran to an exit code:
    /// no success, no output, `stderr` as the explanation, exit code -1.
    pub fn failed(stderr: String) -> (r: ExecutionResult)
        ensures
            r@ == Self::failure(stderr@),
    {
        ExecutionResult { success: false, stdout: String::new(), stderr, exit_code: NO_EXIT_CODE }
    }
}

/// What the result of an undecodable request says on `stderr`.
pub open spec fn parse_failure_text(e: DecodeErrorView) -> Seq<char> {
    "Failed to parse request: "@ + DecodeError::description(e)
}

/// The result that answers a payload which could not be decoded.
pub fn parse_failure(error: &DecodeError) -> (r: ExecutionResult)
    ensures
        r@ == ExecutionResult::failure(parse_failure_text(error@)),
        !r.success,
        r.stdout@.len() == 0,
        r.stderr@.len() > 0,
        r.exit_code == -1,
{
    proof {
        reveal_strlit("Failed to parse request: ");
    }
    let mut stderr = String::from_str("Failed to parse request: ");
    let detail = error.describe();
    stderr.append(detail.as_str());
    ExecutionResult::failed(stderr)
}

/// `true` or `false`, as JSON writes them.
pub open spec fn flag_text(b: bool) -> Seq<char> {
    if b {
        "true"@
    } else {
        "false"@
    }
}

/// `prefix` followed by one object member: the quoted key, a colon, the value.
pub open spec fn with_member(prefix: Seq<char>, id: FieldId, value: Seq<char>) -> Seq<char> {
    prefix + "\""@ + id.key() + "\":"@ + value
}

/// The text of a result object, given the JSON literals of its two strings.
pub open spec fn result_layout(
    success: bool,
    stdout_literal: Seq<char>,
    stderr_literal: Seq<char>,
    exit_code: i32,
) -> Seq<char> {
    let first = with_member("{"@, FieldId::Success, flag_text(success));
    let second = with_member(first + ","@, FieldId::Stdout, stdout_literal);
    let third = with_member(second + ","@, FieldId::Stderr, stderr_literal);
    let fourth = with_member(third + ","@, FieldId::ExitCode, decimal(exit_code as int));
    fourth + "}"@
}

/// The wire text of a result, or `None` where the JSON encoder fails on one of
/// its strings.
pub open spec fn encoded_result(result: ResultView) -> Option<Seq<char>> {
    match (json_string(result.stdout), json_string(result.stderr)) {
        (Some(stdout_literal), Some(stderr_literal)) => Some(
            result_layout(result.success, stdout_literal, stderr_literal, result.exit_code),
        ),
        _ => None,
    }
}

fn append_member(out: &mut String, id: FieldId, value: &str)
    ensures
        final(out)@ == with_member(old(out)@, id, value@),
{
    out.append("\"");
    out.append(id.name());
    out.append("\":");
    out.append(value);
}

/// Lays out a result object around the JSON literals of its two strings.
pub fn assemble_result(
    success: bool,
    stdout_literal: &str,
    stderr_literal: &str,
    exit_code: i32,
) -> (r: String)
    ensures
        r@ == result_layout(success, stdout_literal@, stderr_literal@, exit_code),
{
    let mut out = String::from_str("{");
    append_member(&mut out, FieldId::Success, if success { "true" } else { "false" });
    out.append(",");
    append_member(&mut out, FieldId::Stdout, stdout_literal);
    out.append(",");
    append_member(&mut out, FieldId::Stderr, stderr_literal);
    out.append(",");
    let code = decimal_text(exit_code);
    append_member(&mut out, FieldId::ExitCode, code.as_str());
    out.append("}");
    out
}

/// The JSON encoder's refusal to write a string.
#[derive(Debug)]
pub struct EncodeError {
    /// The encoder's description.
    pub detail: String,
}

/// Encodes a result for the wire: one JSON object with the members `success`,
/// `stdout`, `stderr` and `exitCode`, in that order and without white space.
pub fn encode_result(result: &ExecutionResult) -> (r: Result<String, EncodeError>)
    ensures
        match encoded_result(result@) {
            Some(text) => r matches Ok(out) && out@ == text,
            None => r is Err,
        },
{
    let stdout_literal = match quote(result.stdout.as_str()) {
        Ok(literal) => literal,
        Err(e) => {
            return Err(EncodeError { detail: e.to_string() });
        },
    };
    let stderr_literal = match quote(result.stderr.as_str()) {
        Ok(literal) => literal,
        Err(e) => {
            return Err(EncodeError { detail: e.to_string() });
        },
    };
    Ok(
        assemble_result(
            result.success,
            stdout_literal.as_str(),
            stderr_literal.as_str(),
            result.exit_code,
        ),
    )
}

/// The object that the wire text of `result` denotes: its four members.
pub open spec fn result_object(result: ResultView) -> Map<Seq<char>, FieldView> {
    Map::<Seq<char>, FieldView>::empty().insert(
        FieldId::Success.key(),
        FieldView::Flag(result.success),
    ).insert(FieldId::Stdout.key(), FieldView::Text(result.stdout)).insert(
        FieldId::Stderr.key(),
        FieldView::Text(result.stderr),
    ).insert(FieldId::ExitCode.key(), FieldView::Integer(result.exit_code as int))
}

/// The keys of the result object differ from one another.
pub proof fn lemma_result_keys_distinct()
    ensures
        FieldId::Success.key() != FieldId::Stdout.key(),
        FieldId::Success.key() != FieldId::Stderr.key(),
        FieldId::Success.key() != FieldId::ExitCode.key(),
        FieldId::Stdout.key() != FieldId::Stderr.key(),
        FieldId::Stdout.key() != FieldId::ExitCode.key(),
        FieldId::Stderr.key() != FieldId::ExitCode.key(),
{
    reveal_strlit("success");
    reveal_strlit("stdout");
    reveal_strlit("stderr");
    reveal_strlit("exitCode");
    assert("success"@.len() == 7);
    assert("stdout"@.len() == 6);
    assert("stderr"@.len() == 6);
    assert("exitCode"@.len() == 8);
    assert("stdout"@[3] != "stderr"@[3]);
}

/// Decoding reads back what encoding writes: the object of the four members
/// of a result decodes to that result, field for field.
pub proof fn lemma_result_members_round_trip(result: ResultView)
    ensures
        result_of_object(result_object(result)) == Ok::<ResultView, DecodeErrorView>(result),
{
    lemma_result_keys_distinct();
}

} // verus!
