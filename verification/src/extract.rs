//! Locating the answer text in the payload of a finished job.

use vstd::prelude::*;
use crate::json::{find_member, Json};
use crate::text::{is_blank, is_blank_text, trim, trimmed};

verus! {

/// The separator between two pieces of one answer: a blank line.
pub open spec fn separator() -> Seq<char> {
    "\n\n"@
}

/// `buffer` after the piece `text` is added to it: a blank piece is
/// skipped, and a separator stands between two pieces.
pub open spec fn appended(buffer: Seq<char>, text: Seq<char>) -> Seq<char> {
    if is_blank(text) {
        buffer
    } else if buffer.len() == 0 {
        text
    } else {
        buffer + separator() + text
    }
}

/// `buffer` after each of `pieces` is added to it in turn.
pub open spec fn joined(buffer: Seq<char>, pieces: Seq<Seq<char>>) -> Seq<char>
    decreases pieces.len(),
{
    if pieces.len() == 0 {
        buffer
    } else {
        appended(joined(buffer, pieces.drop_last()), pieces.last())
    }
}

/// Every text found under the first `count` of `entries`, in the order of
/// the document.
pub open spec fn fragments(entries: Seq<Json>, count: int) -> Seq<Seq<char>>
    decreases entries, count,
{
    if count <= 0 || count > entries.len() {
        Seq::empty()
    } else {
        fragments(entries, count - 1) + fragments_of(entries[count - 1])
    }
}

/// Every text found in one content entry: its own `text` member, where
/// that is a string, then what its nested `content` list holds.
pub open spec fn fragments_of(entry: Json) -> Seq<Seq<char>>
    decreases entry, 0int,
{
    let own = match entry.member_text("text"@) {
        Some(text) => seq![text],
        None => Seq::empty(),
    };
    match entry.member("content"@) {
        Some(Json::Array(nested)) => {
            proof {
                lemma_member_is_smaller(entry, "content"@);
            }
            own + fragments(nested@, nested@.len() as int)
        },
        _ => own,
    }
}

/// The string elements among the first `count` of `chunks`, in order.
pub open spec fn text_chunks(chunks: Seq<Json>, count: int) -> Seq<Seq<char>>
    decreases count,
{
    if count <= 0 || count > chunks.len() {
        Seq::empty()
    } else {
        match chunks[count - 1].text() {
            Some(text) => text_chunks(chunks, count - 1).push(text),
            None => text_chunks(chunks, count - 1),
        }
    }
}

/// Every text found under the `content` lists of the first `count` output
/// items, in the order of the document.
pub open spec fn item_fragments(items: Seq<Json>, count: int) -> Seq<Seq<char>>
    decreases count,
{
    if count <= 0 || count > items.len() {
        Seq::empty()
    } else {
        match items[count - 1].member_items("content"@) {
            Some(content) => item_fragments(items, count - 1) + fragments(
                content,
                content.len() as int,
            ),
            None => item_fragments(items, count - 1),
        }
    }
}

/// A text that holds something, or nothing.
pub open spec fn non_empty(text: Seq<char>) -> Option<Seq<char>> {
    if text.len() > 0 {
        Some(text)
    } else {
        None
    }
}

/// The shapes in which a payload may carry its answer, in the order in
/// which they are tried.
#[derive(Clone, Copy, PartialEq, Eq, Structural, Debug)]
pub enum Strategy {
    /// One string under `output_text`.
    TopLevelText,
    /// A list of strings under `output_text`.
    TextFragments,
    /// A list of items under `output`, each with a `content` list.
    OutputItems,
    /// A `content` list at the top.
    ContentList,
}

/// What `strategy` finds in `response`.
pub open spec fn strategy_text(strategy: Strategy, response: Json) -> Option<Seq<char>> {
    match strategy {
        Strategy::TopLevelText => match response.member_text("output_text"@) {
            Some(text) => non_empty(trimmed(text)),
            None => None,
        },
        Strategy::TextFragments => match response.member_items("output_text"@) {
            Some(chunks) => non_empty(
                joined(Seq::empty(), text_chunks(chunks, chunks.len() as int)),
            ),
            None => None,
        },
        Strategy::OutputItems => match response.member_items("output"@) {
            Some(items) => non_empty(
                joined(Seq::empty(), item_fragments(items, items.len() as int)),
            ),
            None => None,
        },
        Strategy::ContentList => match response.member_items("content"@) {
            Some(content) => non_empty(
                joined(Seq::empty(), fragments(content, content.len() as int)),
            ),
            None => None,
        },
    }
}

/// The first of two findings that holds a text.
pub open spec fn or_else(first: Option<Seq<char>>, second: Option<Seq<char>>) -> Option<Seq<char>> {
    if first is Some {
        first
    } else {
        second
    }
}

/// The answer text of `response`: what the first strategy that finds a
/// text finds, or nothing where none does.
pub open spec fn extracted(response: Json) -> Option<Seq<char>> {
    or_else(
        strategy_text(Strategy::TopLevelText, response),
        or_else(
            strategy_text(Strategy::TextFragments, response),
            or_else(
                strategy_text(Strategy::OutputItems, response),
                strategy_text(Strategy::ContentList, response),
            ),
        ),
    )
}

/// Whether the exec finding `found` is the finding `model`.
pub open spec fn same_text(found: Option<String>, model: Option<Seq<char>>) -> bool {
    match found {
        Some(text) => model == Some(text@),
        None => model is None,
    }
}

/// A member of a document is a part of it.
pub proof fn lemma_member_is_smaller(document: Json, key: Seq<char>)
    ensures
        document.member(key) matches Some(value) ==> decreases_to!(document => value),
{
    if let Json::Object(fields) = document {
        lemma_found_is_smaller(fields, key, 0);
    }
}

proof fn lemma_found_is_smaller(fields: Vec<(String, Json)>, key: Seq<char>, from: int)
    ensures
        find_member(fields@, key, from) matches Some(value) ==> decreases_to!(fields => value),
    decreases fields@.len() - from,
{
    broadcast use vstd::std_specs::vec::axiom_vec_index_decreases;
    if 0 <= from < fields@.len() {
        if fields@[from].0@ == key {
            assert(decreases_to!(fields => fields[from]));
        } else {
            lemma_found_is_smaller(fields, key, from + 1);
        }
    }
}

/// Adding one piece after some others is the last step of adding them all.
pub proof fn lemma_joined_concat(buffer: Seq<char>, first: Seq<Seq<char>>, second: Seq<Seq<char>>)
    ensures
        joined(buffer, first + second) == joined(joined(buffer, first), second),
    decreases second.len(),
{
    if second.len() == 0 {
        assert(first + second =~= first);
    } else {
        assert((first + second).drop_last() =~= first + second.drop_last());
        assert((first + second).last() == second.last());
        lemma_joined_concat(buffer, first, second.drop_last());
    }
}

/// Adds the piece `text` to `buffer`, unless it is blank; a separator
/// comes before it where the buffer already holds text.
pub fn append_text_segment(buffer: &mut String, text: &str)
    ensures
        final(buffer)@ == appended(old(buffer)@, text@),
{
    if is_blank_text(text) {
        return;
    }
    if !buffer.as_str().is_empty() {
        buffer.append("\n\n");
    }
    buffer.append(text);
}

/// Adds to `buffer` every text found under `contents`, entry by entry and
/// each entry's own text before its nested ones.
pub fn collect_text_from_contents(contents: &[Json], buffer: &mut String)
    ensures
        final(buffer)@ == joined(old(buffer)@, fragments(contents@, contents@.len() as int)),
    decreases contents@,
{
    let mut i: usize = 0;
    while i < contents.len()
        invariant
            i <= contents.len(),
            buffer@ == joined(old(buffer)@, fragments(contents@, i as int)),
        decreases contents.len() - i,
    {
        let entry = &contents[i];
        let ghost before = buffer@;
        let ghost own: Seq<Seq<char>> = match entry.member_text("text"@) {
            Some(text) => seq![text],
            None => Seq::empty(),
        };
        if let Some(text) = entry.get_str("text") {
            append_text_segment(buffer, text);
        }
        proof {
            assert(joined(before, own) == buffer@) by {
                if own.len() > 0 {
                    assert(joined(before, own.drop_last()) == before);
                }
            }
        }
        if let Some(nested) = entry.get_array("content") {
            proof {
                lemma_member_is_smaller(*entry, "content"@);
            }
            collect_text_from_contents(nested.as_slice(), buffer);
            proof {
                lemma_joined_concat(before, own, fragments(nested@, nested@.len() as int));
            }
        }
        proof {
            assert(buffer@ == joined(before, fragments_of(*entry)));
            lemma_joined_concat(old(buffer)@, fragments(contents@, i as int), fragments_of(*entry));
        }
        i += 1;
    }
}

/// The buffer as a finding: nothing where it is empty.
fn finding(buffer: String) -> (r: Option<String>)
    ensures
        same_text(r, non_empty(buffer@)),
{
    if buffer.as_str().is_empty() {
        None
    } else {
        Some(buffer)
    }
}

/// Applies one strategy to `response`.
pub fn extract_with(strategy: Strategy, response: &Json) -> (r: Option<String>)
    ensures
        same_text(r, strategy_text(strategy, *response)),
{
    match strategy {
        Strategy::TopLevelText => match response.get_str("output_text") {
            Some(text) => {
                let inner = trim(text);
                if inner.is_empty() {
                    None
                } else {
                    Some(inner.to_owned())
                }
            },
            None => None,
        },
        Strategy::TextFragments => match response.get_array("output_text") {
            Some(chunks) => {
                let mut buffer = String::new();
                let mut i: usize = 0;
                while i < chunks.len()
                    invariant
                        i <= chunks.len(),
                        buffer@ == joined(Seq::empty(), text_chunks(chunks@, i as int)),
                    decreases chunks.len() - i,
                {
                    if let Some(chunk) = chunks[i].as_str() {
                        proof {
                            let before = text_chunks(chunks@, i as int);
                            assert(before.push(chunk@).drop_last() =~= before);
                        }
                        append_text_segment(&mut buffer, chunk);
                    }
                    i += 1;
                }
                finding(buffer)
            },
            None => None,
        },
        Strategy::OutputItems => match response.get_array("output") {
            Some(items) => {
                let mut buffer = String::new();
                let mut i: usize = 0;
                while i < items.len()
                    invariant
                        i <= items.len(),
                        buffer@ == joined(Seq::empty(), item_fragments(items@, i as int)),
                    decreases items.len() - i,
                {
                    if let Some(content) = items[i].get_array("content") {
                        proof {
                            lemma_joined_concat(
                                Seq::empty(),
                                item_fragments(items@, i as int),
                                fragments(content@, content@.len() as int),
                            );
                        }
                        collect_text_from_contents(content.as_slice(), &mut buffer);
                    }
                    i += 1;
                }
                finding(buffer)
            },
            None => None,
        },
        Strategy::ContentList => match response.get_array("content") {
            Some(content) => {
                let mut buffer = String::new();
                collect_text_from_contents(content.as_slice(), &mut buffer);
                finding(buffer)
            },
            None => None,
        },
    }
}

/// The answer text of a finished job's payload, or nothing where the
/// payload holds none in any of the known shapes.
pub fn extract_output_text(response: &Json) -> (r: Option<String>)
    ensures
        same_text(r, extracted(*response)),
{
    let found = extract_with(Strategy::TopLevelText, response);
    if found.is_some() {
        return found;
    }
    let found = extract_with(Strategy::TextFragments, response);
    if found.is_some() {
        return found;
    }
    let found = extract_with(Strategy::OutputItems, response);
    if found.is_some() {
        return found;
    }
    extract_with(Strategy::ContentList, response)
}

/// A text under `output_text` that is not blank is the answer, whatever
/// else the payload holds.
pub proof fn lemma_top_level_text_wins(response: Json, text: Seq<char>)
    requires
        response.member_text("output_text"@) == Some(text),
        !is_blank(text),
    ensures
        extracted(response) == Some(trimmed(text)),
{
}

} // verus!
