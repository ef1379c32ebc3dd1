//! From the answer of the server to the lines that are shown.

use vstd::prelude::*;
use vstd::string::StringExecFns;

use crate::decode::DecodeError;
use crate::decode::decode_block;
use crate::decode::fault_text;
use crate::parse::parse_json;
use crate::parse::parsed_json;
use crate::record::Block;
use crate::record::BlockView;
use crate::report::block_report;
use crate::report::report;
use crate::report::texts;
use crate::shape::Fault;
use crate::shape::block_of;
use crate::status::is_success;
use crate::status::spec_is_success;
use crate::text::append_decimal;
use crate::text::decimal;

verus! {

/// How every line about a failure begins.
pub const FAILURE_PREFIX: &'static str = "Failed to fetch block details: ";

/// Why no block was had.
#[derive(Debug, PartialEq, Eq)]
pub enum FetchError {
    /// The request could not be carried out. The message says why.
    Transport(String),
    /// The server answered with this status, which is not one of success.
    Status(u16),
    /// The server's answer could not be read as a block.
    Decode(DecodeError),
}

/// The mathematical value of a [`FetchError`].
pub enum FetchFault {
    Transport(Seq<char>),
    Status(u16),
    Decode(Fault),
}

impl View for FetchError {
    type V = FetchFault;

    open spec fn view(&self) -> FetchFault {
        match self {
            FetchError::Transport(message) => FetchFault::Transport(message@),
            FetchError::Status(status) => FetchFault::Status(*status),
            FetchError::Decode(error) => FetchFault::Decode(error@),
        }
    }
}

/// What is shown for a failure, after the prefix.
pub open spec fn failure_text(fault: FetchFault) -> Seq<char> {
    match fault {
        FetchFault::Transport(message) => message,
        FetchFault::Status(status) => "HTTP status "@ + decimal(status as nat),
        FetchFault::Decode(fault) => fault_text(fault),
    }
}

/// The line that is shown for a failure.
pub open spec fn failure_line(fault: FetchFault) -> Seq<char> {
    FAILURE_PREFIX@ + failure_text(fault)
}

impl FetchError {
    /// Says in words what went wrong.
    pub fn describe(&self) -> (text: String)
        ensures
            text@ == failure_text(self@),
    {
        match self {
            FetchError::Transport(message) => message.clone(),
            FetchError::Status(status) => {
                let mut text = String::from_str("HTTP status ");
                append_decimal(&mut text, *status as u64);
                text
            },
            FetchError::Decode(error) => error.describe(),
        }
    }
}

/// Reads the body of an answer as a block.
///
/// A body that is no JSON text gives the error `Syntax`; for every other
/// body the result is that of [`decode_block`] on the value that the text
/// stands for.
pub fn decode_block_text(body: &[u8]) -> (read: Result<Block, DecodeError>)
    ensures
        match parsed_json(body@) {
            Some(json) => match read {
                Ok(block) => block_of(json) == Ok::<BlockView, Fault>(block@),
                Err(error) => block_of(json) == Err::<BlockView, Fault>(error@),
            },
            None => read is Err && read->Err_0@ is Syntax,
        },
{
    match parse_json(body) {
        Ok(json) => decode_block(&json),
        Err(error) => Err(DecodeError::Syntax(error.message)),
    }
}

/// Reads an answer of the server as a block.
///
/// An answer whose status is not one of success gives the error `Status`
/// with that status, whatever the body holds: the body is then not read. An
/// answer of success is read by [`decode_block_text`].
pub fn read_block(status: u16, body: &[u8]) -> (read: Result<Block, FetchError>)
    ensures
        !spec_is_success(status) ==> read is Err && read->Err_0@ == FetchFault::Status(status),
        spec_is_success(status) ==> match parsed_json(body@) {
            Some(json) => match read {
                Ok(block) => block_of(json) == Ok::<BlockView, Fault>(block@),
                Err(error) => error@ is Decode && block_of(json) == Err::<BlockView, Fault>(
                    error@->Decode_0,
                ),
            },
            None => read is Err && read->Err_0@ is Decode && read->Err_0@->Decode_0 is Syntax,
        },
{
    if !is_success(status) {
        return Err(FetchError::Status(status));
    }
    match decode_block_text(body) {
        Ok(block) => Ok(block),
        Err(error) => Err(FetchError::Decode(error)),
    }
}

/// The lines for what a fetch came to: the report of the block, or one line
/// that says why there is none.
pub open spec fn lines_for(outcome: Result<BlockView, FetchFault>) -> Seq<Seq<char>> {
    match outcome {
        Ok(block) => report(block),
        Err(fault) => seq![failure_line(fault)],
    }
}

/// The mathematical value of what a fetch came to.
pub open spec fn outcome_view(outcome: Result<Block, FetchError>) -> Result<BlockView, FetchFault> {
    match outcome {
        Ok(block) => Ok(block@),
        Err(error) => Err(error@),
    }
}

/// The lines to show for what a fetch came to.
pub fn outcome_lines(outcome: &Result<Block, FetchError>) -> (lines: Vec<String>)
    ensures
        texts(lines@) == lines_for(outcome_view(*outcome)),
{
    match outcome {
        Ok(block) => block_report(block),
        Err(error) => {
            let mut line = String::from_str(FAILURE_PREFIX);
            let text = error.describe();
            line.append(text.as_str());
            let mut lines: Vec<String> = Vec::new();
            lines.push(line);
            assert(texts(lines@) =~= seq![failure_line(error@)]);
            lines
        },
    }
}

/// What came of sending a request.
#[derive(Debug, PartialEq, Eq)]
pub enum Answer {
    /// No answer was had. The message says why.
    Failed(String),
    /// The server answered with this status and this body.
    Replied { status: u16, body: Vec<u8> },
}

/// The lines to show for what came of sending the request for a block.
///
/// Where no answer was had, or one whose status is not one of success, this
/// is the one line that says so, and the body is not read. Otherwise it is
/// the report of the block that the body holds, or the one line that says
/// why the body could not be read.
pub fn answer_lines(answer: &Answer) -> (lines: Vec<String>)
    ensures
        match *answer {
            Answer::Failed(message) => texts(lines@) == seq![
                failure_line(FetchFault::Transport(message@)),
            ],
            Answer::Replied { status, body } => if !spec_is_success(status) {
                texts(lines@) == seq![failure_line(FetchFault::Status(status))]
            } else {
                match parsed_json(body@) {
                    Some(json) => texts(lines@) == lines_for(
                        match block_of(json) {
                            Ok(block) => Ok(block),
                            Err(fault) => Err(FetchFault::Decode(fault)),
                        },
                    ),
                    None => exists|message: Seq<char>|
                        texts(lines@) == seq![
                            failure_line(FetchFault::Decode(Fault::Syntax(message))),
                        ],
                }
            },
        },
{
    let outcome = match answer {
        Answer::Failed(message) => Err(FetchError::Transport(message.clone())),
        Answer::Replied { status, body } => read_block(*status, body.as_slice()),
    };
    let lines = outcome_lines(&outcome);
    proof {
        if let Answer::Replied { status, body } = answer {
            if spec_is_success(*status) && parsed_json(body@) is None {
                let message = outcome->Err_0@->Decode_0->Syntax_0;
                assert(texts(lines@) == seq![
                    failure_line(FetchFault::Decode(Fault::Syntax(message))),
                ]);
            }
        }
    }
    lines
}

} // verus!
