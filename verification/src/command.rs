use vstd::prelude::*;

use crate::text::str_eq;

verus! {

/// One resolved invocation of the program: which depository operation the
/// user asked for.
#[derive(Clone, Copy, PartialEq, Eq, Structural, Debug)]
pub enum Command {
    AddBook,
    ListBooks,
    RemoveBook,
    AddReader,
    BorrowBookForUser,
    AddMagazine,
    ListMagazines,
    BorrowMagazineForUser,
}

/// The command, if any, that a command token names.
pub open spec fn spec_command_of(s: Seq<char>) -> Option<Command> {
    if s == "addbook"@ {
        Some(Command::AddBook)
    } else if s == "listbooks"@ {
        Some(Command::ListBooks)
    } else if s == "removebook"@ {
        Some(Command::RemoveBook)
    } else if s == "adduser"@ {
        Some(Command::AddReader)
    } else if s == "borrowbook"@ {
        Some(Command::BorrowBookForUser)
    } else if s == "addmagazine"@ {
        Some(Command::AddMagazine)
    } else if s == "listmagazines"@ {
        Some(Command::ListMagazines)
    } else if s == "borrowmagazine"@ {
        Some(Command::BorrowMagazineForUser)
    } else {
        None
    }
}

impl Command {
    /// Resolves a command token; an unrecognized token is rejected, and the
    /// caller must treat that as fatal before any state is touched.
    pub fn from_str(input: &str) -> (r: Result<Command, ()>)
        ensures
            r == match spec_command_of(input@) {
                Some(c) => Ok::<Command, ()>(c),
                None => Err::<Command, ()>(()),
            },
    {
        if str_eq(input, "addbook") {
            Ok(Command::AddBook)
        } else if str_eq(input, "listbooks") {
            Ok(Command::ListBooks)
        } else if str_eq(input, "removebook") {
            Ok(Command::RemoveBook)
        } else if str_eq(input, "adduser") {
            Ok(Command::AddReader)
        } else if str_eq(input, "borrowbook") {
            Ok(Command::BorrowBookForUser)
        } else if str_eq(input, "addmagazine") {
            Ok(Command::AddMagazine)
        } else if str_eq(input, "listmagazines") {
            Ok(Command::ListMagazines)
        } else if str_eq(input, "borrowmagazine") {
            Ok(Command::BorrowMagazineForUser)
        } else {
            Err(())
        }
    }
}

} // verus!
