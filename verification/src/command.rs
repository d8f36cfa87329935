//! The command table: which names the front end may invoke, and what each
//! of them does.

use vstd::prelude::*;
use crate::greeting::{greet, greeting};
use crate::text::same_text;

verus! {

/// The exit status with which the application ends.
pub const EXIT_STATUS: i32 = 0;

/// A command of the table. The table is fixed: these two and no others.
#[derive(Clone, Copy, Debug, PartialEq, Eq, Structural)]
pub enum Command {
    /// Formats a greeting for a name.
    Greet,
    /// Ends the application.
    CloseApplication,
}

/// What the host does once a command has run.
#[derive(Debug)]
pub enum Outcome {
    /// Hand this text back to the caller.
    Reply(String),
    /// End the whole process at once with this status. It is final: the host
    /// runs nothing after it, and the caller gets no answer.
    Exit(i32),
}

/// An outcome as a plain value: the text by its characters.
pub enum Effect {
    Reply(Seq<char>),
    Exit(int),
}

impl View for Outcome {
    type V = Effect;

    open spec fn view(&self) -> Effect {
        match self {
            Outcome::Reply(text) => Effect::Reply(text@),
            Outcome::Exit(status) => Effect::Exit(*status as int),
        }
    }
}

impl Command {
    /// The name under which the command is invoked.
    pub open spec fn name_text(self) -> Seq<char> {
        match self {
            Command::Greet => "greet"@,
            Command::CloseApplication => "close_application"@,
        }
    }

    /// What the command does with its argument. Only `Greet` reads it.
    pub open spec fn effect(self, argument: Seq<char>) -> Effect {
        match self {
            Command::Greet => Effect::Reply(greeting(argument)),
            Command::CloseApplication => Effect::Exit(EXIT_STATUS as int),
        }
    }

    /// The name under which the command is invoked.
    pub fn name(self) -> (text: &'static str)
        ensures
            text@ == self.name_text(),
    {
        match self {
            Command::Greet => "greet",
            Command::CloseApplication => "close_application",
        }
    }

    /// Runs the command's handler on `argument`.
    pub fn invoke(self, argument: &str) -> (outcome: Outcome)
        ensures
            outcome@ == self.effect(argument@),
    {
        match self {
            Command::Greet => Outcome::Reply(greet(argument)),
            Command::CloseApplication => Outcome::Exit(close_application()),
        }
    }
}

/// The names of the table.
pub open spec fn registered_names() -> Set<Seq<char>> {
    set![Command::Greet.name_text(), Command::CloseApplication.name_text()]
}

/// The command that `name` stands for, if it is a name of the table.
pub open spec fn command_named(name: Seq<char>) -> Option<Command> {
    if name == Command::Greet.name_text() {
        Some(Command::Greet)
    } else if name == Command::CloseApplication.name_text() {
        Some(Command::CloseApplication)
    } else {
        None
    }
}

/// What invoking `name` with `argument` comes to: the effect of the command
/// of that name, and nothing where the table has no such name.
pub open spec fn effect_of(name: Seq<char>, argument: Seq<char>) -> Option<Effect> {
    match command_named(name) {
        Some(command) => Some(command.effect(argument)),
        None => None,
    }
}

/// Decides how the application ends: with the status that this returns, and
/// at once. Ending the process is left to the caller, who must run nothing
/// after it.
pub fn close_application() -> (status: i32)
    ensures
        status == EXIT_STATUS,
{
    EXIT_STATUS
}

/// The commands of the table, in the order in which they were registered.
pub fn commands() -> (table: Vec<Command>)
    ensures
        table@ == seq![Command::Greet, Command::CloseApplication],
{
    let mut table: Vec<Command> = Vec::new();
    table.push(Command::Greet);
    table.push(Command::CloseApplication);
    assert(table@ =~= seq![Command::Greet, Command::CloseApplication]);
    table
}

/// Finds the command of the given name. Names are matched exactly.
pub fn lookup(name: &str) -> (found: Option<Command>)
    ensures
        found == command_named(name@),
{
    if same_text(name, "greet") {
        Some(Command::Greet)
    } else if same_text(name, "close_application") {
        Some(Command::CloseApplication)
    } else {
        None
    }
}

/// Looks `name` up and runs the command it stands for on `argument`. A name
/// that the table does not hold runs nothing and gives `None`: what becomes
/// of such a call is the host's affair.
pub fn dispatch(name: &str, argument: &str) -> (outcome: Option<Outcome>)
    ensures
        match outcome {
            Some(done) => effect_of(name@, argument@) == Some(done@),
            None => effect_of(name@, argument@).is_none(),
        },
{
    match lookup(name) {
        Some(command) => Some(command.invoke(argument)),
        None => None,
    }
}

/// The two names differ, as their lengths do.
proof fn lemma_names_differ()
    ensures
        Command::Greet.name_text() != Command::CloseApplication.name_text(),
{
    reveal_strlit("greet");
    reveal_strlit("close_application");
    assert("greet"@.len() == 5);
    assert("close_application"@.len() == 17);
}

/// No two commands share a name.
pub proof fn lemma_names_are_unique(first: Command, second: Command)
    requires
        first.name_text() == second.name_text(),
    ensures
        first == second,
{
    lemma_names_differ();
}

/// Looking a command's own name up finds that command.
pub proof fn lemma_lookup_finds_each_command(command: Command)
    ensures
        command_named(command.name_text()) == Some(command),
{
    lemma_names_differ();
}

/// The table holds exactly two names, and a name stands for a command if
/// and only if it is one of them.
pub proof fn lemma_table_has_two_names(name: Seq<char>)
    ensures
        registered_names().finite(),
        registered_names().len() == 2,
        registered_names().contains(name) <==> command_named(name).is_some(),
        command_named(name) matches Some(command) ==> command.name_text() == name,
{
    lemma_names_differ();
}

} // verus!
