//! The deterministic test mode: a switch in the environment replaces the
//! call to the service by an answer that is made up here.

use vstd::prelude::*;
use crate::request::OracleRequest;
use crate::text::{is_blank, is_blank_text, lowered, str_eq, to_ascii_lowercase, trim, trimmed};

verus! {

/// Whether the value of the switch turns the test mode on: one of `1`,
/// `true`, `yes` and `on`, in any case and with white space around it.
pub open spec fn enables_test_mode(value: Seq<char>) -> bool {
    let normalized = lowered(trimmed(value));
    normalized == "1"@ || normalized == "true"@ || normalized == "yes"@ || normalized == "on"@
}

/// Whether the test mode is on, given the value of its switch; without a
/// value it is off.
pub fn test_mode_enabled(value: Option<&str>) -> (r: bool)
    ensures
        r == match value {
            Some(text) => enables_test_mode(text@),
            None => false,
        },
{
    match value {
        Some(text) => {
            let normalized = to_ascii_lowercase(trim(text));
            let word = normalized.as_str();
            str_eq(word, "1") || str_eq(word, "true") || str_eq(word, "yes") || str_eq(word, "on")
        },
        None => false,
    }
}

/// The line that marks an answer of the test mode.
pub open spec fn test_mode_marker() -> Seq<char> {
    "[oracle test mode] No call was made to OpenAI because ORACLE_TEST_MODE is set.\n\n"@
}

/// The part of the answer that repeats the notes.
pub open spec fn notes_echo(extra: Option<Seq<char>>) -> Seq<char> {
    match extra {
        Some(notes) => if is_blank(notes) {
            "Extra context: (not provided)\n\n"@
        } else {
            "Extra context:\n"@ + notes + "\n\n"@
        },
        None => "Extra context: (not provided)\n\n"@,
    }
}

/// One line for each of the first `count` paths.
pub open spec fn path_lines(files: Seq<String>, count: int) -> Seq<char>
    decreases count,
{
    if count <= 0 || count > files.len() {
        Seq::empty()
    } else {
        path_lines(files, count - 1) + "- "@ + files[count - 1]@ + "\n"@
    }
}

/// The part of the answer that lists the files.
pub open spec fn files_echo(files: Option<Vec<String>>) -> Seq<char> {
    match files {
        Some(paths) => if paths@.len() == 0 {
            "(none)\n"@
        } else {
            path_lines(paths@, paths@.len() as int)
        },
        None => "(none)\n"@,
    }
}

/// The answer of the test mode to `request`: the marker, then the
/// problem, the notes and the paths of the files as they were given.
pub open spec fn test_response_text(request: OracleRequest) -> Seq<char> {
    test_mode_marker() + "Problem description:\n"@ + request.problem@ + "\n\n"@ + notes_echo(
        request.notes(),
    ) + "Files provided:\n"@ + files_echo(request.files)
}

/// The answer of the test mode to `request`.
pub fn test_mode_response(request: &OracleRequest) -> (r: String)
    ensures
        r@ == test_response_text(*request),
{
    let mut response =
        "[oracle test mode] No call was made to OpenAI because ORACLE_TEST_MODE is set.\n\n".to_owned();
    response.append("Problem description:\n");
    response.append(request.problem.as_str());
    response.append("\n\n");
    let ghost opening = response@;

    let mut provided = false;
    if let Some(notes) = &request.extra_context {
        if !is_blank_text(notes.as_str()) {
            response.append("Extra context:\n");
            response.append(notes.as_str());
            response.append("\n\n");
            provided = true;
        }
    }
    if !provided {
        response.append("Extra context: (not provided)\n\n");
    }
    response.append("Files provided:\n");
    let ghost listing = response@;
    assert(listing =~= opening + notes_echo(request.notes()) + "Files provided:\n"@);

    let mut listed = false;
    if let Some(paths) = &request.files {
        if paths.len() > 0 {
            let mut i: usize = 0;
            while i < paths.len()
                invariant
                    i <= paths.len(),
                    response@ == listing + path_lines(paths@, i as int),
                decreases paths.len() - i,
            {
                response.append("- ");
                response.append(paths[i].as_str());
                response.append("\n");
                assert(response@ =~= listing + (path_lines(paths@, i as int) + "- "@ + paths@[i as int]@
                    + "\n"@));
                i += 1;
            }
            listed = true;
        }
    }
    if !listed {
        response.append("(none)\n");
    }
    assert(response@ =~= listing + files_echo(request.files));
    response
}

/// The answer that replaces the call where the test mode is on; nothing
/// where it is off, and the call goes ahead.
pub fn canned_answer(switch: Option<&str>, request: &OracleRequest) -> (r: Option<String>)
    ensures
        match switch {
            Some(text) => if enables_test_mode(text@) {
                r is Some && r->Some_0@ == test_response_text(*request)
            } else {
                r is None
            },
            None => r is None,
        },
{
    if test_mode_enabled(switch) {
        Some(test_mode_response(request))
    } else {
        None
    }
}

} // verus!
