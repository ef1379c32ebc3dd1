//! What to do for a command line.

use vstd::prelude::*;

use crate::request::Request;
use crate::request::RequestView;
use crate::request::block_request;
use crate::request::block_request_for;
use crate::text::str_eq;

verus! {

/// The line shown where the command line names no command or no identifier.
pub const USAGE: &'static str = "Usage: cargo run <block/transaction> <id>";

/// The line shown for a command that is not known.
pub const INVALID_COMMAND: &'static str = "Invalid command. Use 'blockhash'.";

/// The command that asks for a block by its hash.
pub const BLOCK_COMMAND: &'static str = "blockhash";

/// What the program does next.
#[derive(Debug, PartialEq, Eq)]
pub enum Action {
    /// Show this line and end. Nothing is sent.
    Say(&'static str),
    /// Send this request and show what comes back.
    FetchBlock(Request),
}

/// The mathematical value of an [`Action`].
pub enum ActionView {
    Say(Seq<char>),
    FetchBlock(RequestView),
}

impl View for Action {
    type V = ActionView;

    open spec fn view(&self) -> ActionView {
        match self {
            Action::Say(line) => ActionView::Say(line@),
            Action::FetchBlock(request) => ActionView::FetchBlock(request@),
        }
    }
}

/// The action for the arguments `args`, of which the first is the program's
/// own name, the second the command and the third the identifier. What
/// follows the third is not looked at.
pub open spec fn planned(args: Seq<Seq<char>>) -> ActionView {
    if args.len() < 3 {
        ActionView::Say(USAGE@)
    } else if args[1] == BLOCK_COMMAND@ {
        ActionView::FetchBlock(block_request_for(args[2]))
    } else {
        ActionView::Say(INVALID_COMMAND@)
    }
}

/// With fewer than two arguments after the program's name, the usage line
/// is shown and no request is made.
pub proof fn lemma_too_few_arguments(args: Seq<Seq<char>>)
    requires
        args.len() < 3,
    ensures
        planned(args) == ActionView::Say(USAGE@),
{
}

/// With a command that is not known, the line that says so is shown and no
/// request is made.
pub proof fn lemma_unknown_command(args: Seq<Seq<char>>)
    requires
        args.len() >= 3,
        args[1] != BLOCK_COMMAND@,
    ensures
        planned(args) == ActionView::Say(INVALID_COMMAND@),
{
}

/// A request is made for the block command alone, and then for the block
/// that the third argument names.
pub proof fn lemma_request_for_block_command_only(args: Seq<Seq<char>>)
    ensures
        planned(args) is FetchBlock <==> args.len() >= 3 && args[1] == BLOCK_COMMAND@,
        planned(args) is FetchBlock ==> planned(args) == ActionView::FetchBlock(
            block_request_for(args[2]),
        ),
{
}

/// The characters of each argument.
pub open spec fn words(args: Seq<String>) -> Seq<Seq<char>> {
    args.map_values(|arg: String| arg@)
}

/// Decides what to do for the arguments of the process, program name first.
///
/// With fewer than two arguments after the program's name the usage line is
/// shown; with a command other than `blockhash`, the line that says so. In
/// both cases nothing is sent. Otherwise the block named by the identifier is
/// asked for.
pub fn plan(args: &Vec<String>) -> (action: Action)
    ensures
        action@ == planned(words(args@)),
{
    if args.len() < 3 {
        Action::Say(USAGE)
    } else if str_eq(args[1].as_str(), BLOCK_COMMAND) {
        Action::FetchBlock(block_request(args[2].as_str()))
    } else {
        Action::Say(INVALID_COMMAND)
    }
}

} // verus!
