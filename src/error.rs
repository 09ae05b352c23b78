//! The errors of the library.

use vstd::prelude::*;

verus! {

/// Every way an operation on a repository can fail.
#[derive(Debug, Clone, PartialEq, Eq)]
pub enum Error {
    /// A file-system operation failed; holds the system's message.
    File(String),
    /// The configuration document could not be decoded or encoded.
    YAMLConvert(String),
    /// The index document could not be decoded or mapped.
    JsonConvert(String),
    /// A directory was expected at this path.
    NotADirectory(String),
    /// A regular file was expected at this path.
    NotAFile(String),
    /// Initialising the repository failed.
    Init,
    /// Regenerating the repository index failed.
    Update,
    /// An external command failed; holds the command line.
    Run(String),
    /// A file failed a check of its content or name.
    InvalidFile(InvalidFile),
}

/// A file that failed a check, with the reason where one is known.
#[derive(Debug, Clone, PartialEq, Eq)]
pub struct InvalidFile {
    /// Why the file is invalid.
    pub reason: Option<String>,
    /// Path to the invalid file.
    pub file: String,
}

impl InvalidFile {
    /// An invalid file with no reason given.
    pub fn without_reason(file: String) -> (r: InvalidFile)
        ensures
            r.reason is None,
            r.file == file,
    {
        InvalidFile { reason: None, file }
    }

    /// An invalid file with a reason.
    pub fn with_reason(file: String, reason: &str) -> (r: InvalidFile)
        ensures
            r.reason matches Some(s) && s@ == reason@,
            r.file == file,
    {
        InvalidFile { reason: Some(reason.to_owned()), file }
    }
}

/// `t` between double quotes.
pub open spec fn quoted(t: Seq<char>) -> Seq<char> {
    "\""@ + t + "\""@
}

/// The human-readable text of an error.
pub open spec fn message_of(e: Error) -> Seq<char> {
    match e {
        Error::File(m) => "Error while working with a file: "@ + m@,
        Error::YAMLConvert(m) => "Error while converting a yml file: "@ + m@,
        Error::JsonConvert(m) => "Error while converting a json file: "@ + m@,
        Error::NotADirectory(p) => "The provided path is not a directory: "@ + quoted(p@),
        Error::NotAFile(p) => "The provided path is not a file: "@ + quoted(p@),
        Error::Init => "Could not initialize the repository!"@,
        Error::Update => "Could not update the repository!"@,
        Error::Run(c) => "Command failed. Command "@ + quoted(c@) + "!"@,
        Error::InvalidFile(f) => "File with path "@ + quoted(f.file@) + " is invalid."@ + match f.reason {
            Some(r) => " Reason: "@ + quoted(r@) + "."@,
            None => Seq::empty(),
        },
    }
}

fn quote(t: &str) -> (r: String)
    ensures
        r@ == quoted(t@),
{
    String::from_str("\"").concat(t).concat("\"")
}

impl Error {
    /// The human-readable text of the error.
    pub fn message(&self) -> (r: String)
        ensures
            r@ == message_of(*self),
    {
        match self {
            Error::File(m) => String::from_str("Error while working with a file: ").concat(m.as_str()),
            Error::YAMLConvert(m) => String::from_str("Error while converting a yml file: ").concat(m.as_str()),
            Error::JsonConvert(m) => String::from_str("Error while converting a json file: ").concat(m.as_str()),
            Error::NotADirectory(p) => String::from_str("The provided path is not a directory: ").concat(quote(p.as_str()).as_str()),
            Error::NotAFile(p) => String::from_str("The provided path is not a file: ").concat(quote(p.as_str()).as_str()),
            Error::Init => String::from_str("Could not initialize the repository!"),
            Error::Update => String::from_str("Could not update the repository!"),
            Error::Run(c) => String::from_str("Command failed. Command ").concat(quote(c.as_str()).as_str()).concat("!"),
            Error::InvalidFile(f) => {
                let head = String::from_str("File with path ").concat(quote(f.file.as_str()).as_str()).concat(" is invalid.");
                match &f.reason {
                    Some(r) => head.concat(" Reason: ").concat(quote(r.as_str()).as_str()).concat("."),
                    None => {
                        assert(head@ + Seq::<char>::empty() =~= head@);
                        head
                    },
                }
            },
        }
    }
}

} // verus!
