//! Failures on their way to the client: the HTTP error response and the
//! log record that an error is turned into.

use crate::failure::{
    contains_text, lemma_joined_holds_part, lemma_joined_in_order, occurs_at, offset_in_joined,
    terse_separator, terse_text, verbose_separator, verbose_text, Failure,
};
use crate::status::{code_digits, status_line, StatusCode};
use vstd::prelude::*;
use vstd::std_specs::convert::FromSpecImpl;

verus! {

/// How grave a log record is, gravest first.
#[derive(Clone, Copy, Debug, PartialEq, Eq, Structural)]
pub enum Level {
    Error,
    Warn,
    Info,
    Debug,
    Trace,
}

/// One record for the service's log.
#[derive(Debug)]
pub struct LogRecord {
    pub level: Level,
    pub message: String,
}

/// An HTTP response as far as an error decides it: the status code of the
/// status line, and the body as plain text.
#[derive(Debug)]
pub struct Response {
    pub status: StatusCode,
    pub body: String,
}

/// What one error is turned into: the response for the client and the
/// record for the operators.
#[derive(Debug)]
pub struct Outcome {
    pub response: Response,
    pub record: LogRecord,
}

/// The body of the response to an error: the status line, then the causes
/// in their terse rendering.
pub open spec fn response_body(code: u16, chain: Seq<Seq<char>>) -> Seq<char> {
    status_line(code) + ": "@ + terse_text(chain)
}

/// The message of the log record of an error: the causes in their verbose
/// rendering, marked as an error.
pub open spec fn log_message(chain: Seq<Seq<char>>) -> Seq<char> {
    "Error: "@ + verbose_text(chain)
}

/// The position in the message of a log record at which cause `i` starts.
pub open spec fn place_in_record(chain: Seq<Seq<char>>, i: int) -> int {
    "Error: "@.len() as int + offset_in_joined(chain, verbose_separator(), i)
}

/// The log record names every cause, whole: cause `i` stands in the message
/// behind the opening, at its place in the verbose rendering.
pub proof fn law_record_names_every_cause(chain: Seq<Seq<char>>, i: int)
    requires
        0 <= i < chain.len(),
    ensures
        occurs_at(log_message(chain), chain[i], place_in_record(chain, i)),
        contains_text(log_message(chain), chain[i]),
{
    let opening = "Error: "@;
    let at = offset_in_joined(chain, verbose_separator(), i);
    lemma_joined_holds_part(chain, verbose_separator(), i);
    assert(log_message(chain).subrange(opening.len() + at, opening.len() + at + chain[i].len())
        =~= verbose_text(chain).subrange(at, at + chain[i].len()));
    assert(occurs_at(log_message(chain), chain[i], opening.len() + at));
}

/// The log record names the causes in their order, outermost first: a
/// cause has ended where a later one starts.
pub proof fn law_record_keeps_the_order(chain: Seq<Seq<char>>, i: int, j: int)
    requires
        0 <= i < j < chain.len(),
    ensures
        occurs_at(log_message(chain), chain[i], place_in_record(chain, i)),
        occurs_at(log_message(chain), chain[j], place_in_record(chain, j)),
        place_in_record(chain, i) + chain[i].len() <= place_in_record(chain, j),
{
    law_record_names_every_cause(chain, i);
    law_record_names_every_cause(chain, j);
    lemma_joined_in_order(chain, verbose_separator(), i, j);
}

/// The body of the response is never empty and starts with the status
/// line, so with the three digits of the status code; the terse rendering
/// of the causes follows, and in it every cause stands whole.
pub proof fn law_body_starts_with_status(code: u16, chain: Seq<Seq<char>>)
    ensures
        response_body(code, chain).len() >= 3,
        occurs_at(response_body(code, chain), code_digits(code), 0),
        occurs_at(response_body(code, chain), status_line(code), 0),
        occurs_at(
            response_body(code, chain),
            terse_text(chain),
            (status_line(code).len() + ": "@.len()) as int,
        ),
        forall|i: int|
            0 <= i < chain.len() ==> contains_text(
                response_body(code, chain),
                #[trigger] chain[i],
            ),
{
    let body = response_body(code, chain);
    let line = status_line(code);
    let start = (line.len() + ": "@.len()) as int;
    assert(body.subrange(0, 3) =~= code_digits(code));
    assert(body.subrange(0, line.len() as int) =~= line);
    assert(body.subrange(start, start + terse_text(chain).len()) =~= terse_text(chain));
    assert forall|i: int| 0 <= i < chain.len() implies contains_text(
        body,
        #[trigger] chain[i],
    ) by {
        let at = offset_in_joined(chain, terse_separator(), i);
        lemma_joined_holds_part(chain, terse_separator(), i);
        assert(body.subrange(start + at, start + at + chain[i].len()) =~= terse_text(
            chain,
        ).subrange(at, at + chain[i].len()));
        assert(occurs_at(body, chain[i], start + at));
    }
}

/// The log record can be told from the body of any response: the record
/// opens with a word, the body with the digits of a status code.
pub proof fn law_record_differs_from_body(
    code: u16,
    chain: Seq<Seq<char>>,
    logged: Seq<Seq<char>>,
)
    ensures
        log_message(logged) != response_body(code, chain),
{
    reveal_strlit("Error: ");
    assert(log_message(logged)[0] == 'E');
    assert(response_body(code, chain)[0] == code_digits(code)[0]);
}

/// A failure on its way to the client: the status code to answer with, and
/// the failure itself.
#[derive(Debug)]
pub struct AppError(pub StatusCode, pub Failure);

impl AppError {
    /// Turns the error into the response for the client and the record for
    /// the log. The response carries the error's status code, and its body
    /// names the causes tersely; the record is of level `Error` and names
    /// them verbosely.
    pub fn into_response(self) -> (out: Outcome)
        ensures
            out.response.status == self.0,
            out.response.body@ == response_body(self.0@, self.1@),
            out.record.level == Level::Error,
            out.record.message@ == log_message(self.1@),
    {
        let mut message = String::from_str("Error: ");
        message.append(self.1.verbose().as_str());
        let mut body = self.0.status_line();
        body.append(": ");
        body.append(self.1.terse().as_str());
        Outcome {
            response: Response { status: self.0, body },
            record: LogRecord { level: Level::Error, message },
        }
    }
}

/// What the conversion rule makes of a failure that has no status code of
/// its own: an error answered with status 500, with the failure as it is.
pub open spec fn upgraded(failure: Failure) -> AppError {
    AppError(StatusCode::with_code(500), failure)
}

impl From<Failure> for AppError {
    /// A failure that reaches the client without a status code of its own
    /// is answered with `500 Internal Server Error`.
    fn from(failure: Failure) -> (error: AppError) {
        AppError(StatusCode::internal_server_error(), failure)
    }
}

impl FromSpecImpl<Failure> for AppError {
    open spec fn obeys_from_spec() -> bool {
        true
    }

    open spec fn from_spec(failure: Failure) -> AppError {
        upgraded(failure)
    }
}

/// The conversion rule: a failure that is upgraded to an error is answered
/// with status 500 and keeps its causes as they are. One that carries a
/// single message thus gives a chain of exactly that message.
pub proof fn law_conversion(failure: Failure)
    ensures
        upgraded(failure).0@ == 500,
        upgraded(failure).1 == failure,
        failure@.len() == 1 ==> upgraded(failure).1@ == seq![failure@[0]],
{
    StatusCode::lemma_with_code(upgraded(failure).0, 500);
    if failure@.len() == 1 {
        assert(failure@ =~= seq![failure@[0]]);
    }
}

} // verus!
