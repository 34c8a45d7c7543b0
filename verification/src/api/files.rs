//! Uploading files.

use vstd::prelude::*;
use std::path::PathBuf;
use vstd::string::StringExecFns;
use crate::error::{GroqError, SerdeError};
use crate::framing::{first_newline, strip_cr, take_line};
use crate::json::{json_parse, Json};
use crate::text::{
    char_is_whitespace, chars_of, decimal_digits, decimal_text, is_whitespace, starts_with, text_is,
};

verus! {

/// Whether `line` holds nothing but white space.
pub open spec fn is_blank(line: Seq<char>) -> bool {
    forall|i: int| 0 <= i < line.len() ==> is_whitespace(#[trigger] line[i])
}

/// Whether `line` may stand in a JSON Lines file: it is blank, or a JSON
/// document.
pub open spec fn line_is_valid(line: Seq<char>) -> bool {
    is_blank(line) || json_parse(line) is Some
}

/// The number of the first line of `text` that may not stand in a JSON Lines
/// file, where `number` is the number of its first line.
pub open spec fn first_invalid_line(text: Seq<char>, number: nat) -> Option<nat>
    decreases text.len(),
{
    let n = first_newline(text);
    if text.len() == 0 {
        None
    } else if n < 0 || n >= text.len() {
        if line_is_valid(text) {
            None
        } else {
            Some(number)
        }
    } else if !line_is_valid(strip_cr(text.take(n))) {
        Some(number)
    } else {
        first_invalid_line(text.skip(n + 1), number + 1)
    }
}

/// What is wrong with `line` in a JSON Lines file, in the parser's words;
/// nothing if it may stand there.
pub fn line_problem(line: &Vec<char>) -> (r: Option<SerdeError>)
    ensures
        r is None == line_is_valid(line@),
{
    let mut i: usize = 0;
    while i < line.len() && char_is_whitespace(line[i])
        invariant
            i <= line.len(),
            forall|j: int| 0 <= j < i ==> is_whitespace(#[trigger] line@[j]),
        decreases line.len() - i,
    {
        i += 1;
    }
    if i == line.len() {
        None
    } else {
        assert(!is_whitespace(line@[i as int]));
        match Json::parse_or_explain(line) {
            Ok(_) => None,
            Err(e) => Some(e),
        }
    }
}

/// Whether `line` may stand in a JSON Lines file.
pub fn check_line(line: &Vec<char>) -> (r: bool)
    ensures
        r == line_is_valid(line@),
{
    line_problem(line).is_none()
}

/// Finds the first line, counted from one, that may not stand in a JSON
/// Lines file, with what the parser says of it.
pub fn find_invalid_line(content: &str) -> (r: Option<(usize, SerdeError)>)
    ensures
        match r {
            Some(found) => first_invalid_line(content@, 1) == Some(found.0 as nat),
            None => first_invalid_line(content@, 1) is None,
        },
{
    let text = chars_of(content);
    let mut start: usize = 0;
    let mut index: usize = 0;
    assert(text@.skip(0) =~= text@);
    while start < text.len()
        invariant
            start <= text.len(),
            index <= start,
            text@ == content@,
            first_invalid_line(content@, 1) == first_invalid_line(
                text@.skip(start as int),
                (index + 1) as nat,
            ),
        decreases text.len() - start,
    {
        let ghost rest = text@.skip(start as int);
        assert(rest =~= text@.subrange(start as int, text@.len() as int));
        let (line, next) = take_line(&text, start, text.len());
        proof {
            let n = first_newline(rest);
            if n < rest.len() {
                assert(rest.skip(n + 1) =~= text@.skip(next as int));
            } else {
                assert(text@.skip(next as int) =~= Seq::<char>::empty());
            }
        }
        match line_problem(&line) {
            Some(problem) => {
                return Some((index + 1, problem));
            },
            None => {},
        }
        index += 1;
        start = next;
    }
    None
}

/// `std::path::PathBuf`, the name of a file. Nothing is known of what it
/// holds.
#[verifier::external_type_specification]
#[verifier::external_body]
pub struct ExPathBuf(PathBuf);

/// `PathBuf::clone`: the copy of a path is the same path.
pub assume_specification[ <PathBuf as Clone>::clone ](path: &PathBuf) -> (r: PathBuf)
    ensures
        r == *path,
;

/// The extension of the file that `path` names, by `Path::extension`, where
/// it has one that is text. Nothing is known of the result: what a path
/// means depends on the platform.
#[verifier::external_body]
fn extension_of(path: &PathBuf) -> Option<String> {
    path.extension().and_then(|e| e.to_str()).map(|e| e.to_owned())
}

/// The request that uploads a file.
#[derive(Debug, Clone)]
pub struct FileCreateRequest {
    /// Where the file is.
    pub file: PathBuf,
    /// What the file is for.
    pub purpose: String,
}

/// How the refusal of a file begins whose line `number` is not JSON; the
/// parser's words follow.
pub open spec fn invalid_line_text(number: nat) -> Seq<char> {
    "Invalid JSONL at line "@ + decimal_digits(number) + ": "@
}

/// Whether a file with this extension and this content can be uploaded: the
/// extension is `jsonl`, and every line is blank or a JSON document.
pub open spec fn uploadable(extension: Option<Seq<char>>, content: Seq<char>) -> bool {
    extension == Some("jsonl"@) && first_invalid_line(content, 1) is None
}

impl FileCreateRequest {
    /// The request for the file at `file`, whose extension and content are
    /// given. A file that cannot be uploaded is refused as an invalid message:
    /// for its extension first, then for its content.
    pub fn checked(file: PathBuf, purpose: String, extension: Option<&str>, content: &str) -> (r:
        Result<Self, GroqError>)
        ensures
            match r {
                Ok(request) => {
                    &&& uploadable(
                        match extension {
                            Some(e) => Some(e@),
                            None => None,
                        },
                        content@,
                    )
                    &&& request.file == file
                    &&& request.purpose == purpose
                },
                Err(e) => {
                    &&& e matches GroqError::InvalidMessage(message)
                    &&& match extension {
                        Some(ext) => if ext@ == "jsonl"@ {
                            &&& first_invalid_line(content@, 1) matches Some(number)
                            &&& starts_with(message@, invalid_line_text(number))
                        } else {
                            message@ == "File must have .jsonl extension"@
                        },
                        None => message@ == "File must have .jsonl extension"@,
                    }
                },
            },
    {
        let named = match extension {
            Some(ext) => text_is(&ext.to_owned(), "jsonl"),
            None => false,
        };
        if !named {
            return Err(GroqError::InvalidMessage("File must have .jsonl extension".to_owned()));
        }
        match find_invalid_line(content) {
            Some((number, problem)) => {
                let head = "Invalid JSONL at line ".to_owned().concat(
                    decimal_text(number as u64).as_str(),
                ).concat(": ");
                let message = head.clone().concat(problem.message().as_str());
                assert(message@.subrange(0, head@.len() as int) =~= head@);
                Err(GroqError::InvalidMessage(message))
            },
            None => Ok(FileCreateRequest { file, purpose }),
        }
    }

    /// The request for the file at `file`, which holds `content`. The file
    /// is refused as an invalid message: for its extension, or, where its
    /// content has a line that is not JSON, with the number of the first such
    /// line.
    pub fn new(file: PathBuf, purpose: String, content: &str) -> (r: Result<Self, GroqError>)
        ensures
            match r {
                Ok(request) => first_invalid_line(content@, 1) is None && request.file == file
                    && request.purpose == purpose,
                Err(e) => {
                    &&& e matches GroqError::InvalidMessage(message)
                    &&& (message@ == "File must have .jsonl extension"@ || match first_invalid_line(
                        content@,
                        1,
                    ) {
                        Some(number) => starts_with(message@, invalid_line_text(number)),
                        None => false,
                    })
                },
            },
    {
        let extension = extension_of(&file);
        match &extension {
            Some(ext) => FileCreateRequest::checked(file, purpose, Some(ext.as_str()), content),
            None => FileCreateRequest::checked(file, purpose, None, content),
        }
    }
}

} // verus!
