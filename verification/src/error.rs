use vstd::prelude::*;
use vstd::string::StringExecFns;

verus! {

/// What can go wrong while working with the task list.
#[derive(Debug)]
pub enum RusteriaError {
    /// An input was not understood; the text says why.
    Unknown(String),
    /// The task file is absent; the text is the file name that was looked for.
    NoTodoFile(String),
    /// An identifier was not written as a UUID.
    InvalidUUID,
    /// No task in the list carries the identifier that was asked for.
    NoSuchTodo,
}

impl RusteriaError {
    /// The human-readable message of this error, as a sequence of characters.
    pub open spec fn message_text(&self) -> Seq<char> {
        match self {
            RusteriaError::Unknown(reason) => "Unknown: "@ + reason@,
            RusteriaError::NoTodoFile(file_name) => "No TODO file found. File named '"@
                + file_name@ + "' is expected"@,
            RusteriaError::InvalidUUID => "Not a valid UUID"@,
            RusteriaError::NoSuchTodo => "No such Todo exists"@,
        }
    }

    /// Renders the error for a human reader.
    pub fn message(&self) -> (text: String)
        ensures
            text@ == self.message_text(),
    {
        match self {
            RusteriaError::Unknown(reason) => {
                let mut text = String::from_str("Unknown: ");
                text.append(reason.as_str());
                text
            },
            RusteriaError::NoTodoFile(file_name) => {
                let mut text = String::from_str("No TODO file found. File named '");
                text.append(file_name.as_str());
                text.append("' is expected");
                text
            },
            RusteriaError::InvalidUUID => String::from_str("Not a valid UUID"),
            RusteriaError::NoSuchTodo => String::from_str("No such Todo exists"),
        }
    }

    /// The error for a task file that could not be opened: `NoTodoFile` with
    /// the name of the file where the file is missing, `Unknown` for any
    /// other cause.
    pub fn file_not_opened(missing: bool, file_name: &str) -> (error: RusteriaError)
        ensures
            if missing {
                error matches RusteriaError::NoTodoFile(name) && name@ == file_name@
            } else {
                error matches RusteriaError::Unknown(reason) && reason@ == "Unknown file error"@
            },
    {
        if missing {
            RusteriaError::NoTodoFile(String::from_str(file_name))
        } else {
            RusteriaError::Unknown(String::from_str("Unknown file error"))
        }
    }

    /// Whether this error says that the task file is absent.
    pub fn is_file_not_found_error(&self) -> (absent: bool)
        ensures
            absent == (self is NoTodoFile),
    {
        match self {
            RusteriaError::NoTodoFile(_) => true,
            _ => false,
        }
    }
}

} // verus!
