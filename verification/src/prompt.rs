//! The prompt of a request: fixed instructions, the problem, optional
//! notes, and the contents of the files, cut to fit a fixed number of
//! characters.

use vstd::prelude::*;
use crate::request::{FileContext, FileOutcome, OracleRequest};
use crate::text::{char_count, char_prefix, is_blank, is_blank_text};

verus! {

/// The number of characters that a prompt may hold.
pub const MAX_PROMPT_CHARS: usize = 1_000_000;

/// The instructions that open every prompt.
pub open spec fn preamble() -> Seq<char> {
    "You are Oracle, a senior software engineer MCP tool.\n"@
        + "You will be given a coding problem and optional project files.\n"@
        + "Carefully analyze the problem, read the files, reason step-by-step, and produce a clear, actionable answer.\n\n"@
        + "Context is constrained to stay under roughly 256k tokens. If you see '[truncated]' markers, some content was cut to fit the budget.\n\n"@
}

/// The section that states the problem.
pub open spec fn problem_section(problem: Seq<char>) -> Seq<char> {
    "### Coding problem\n"@ + problem + "\n\n"@
}

/// The section of the extra notes: nothing where there are none or they
/// are blank.
pub open spec fn extra_section(extra: Option<Seq<char>>) -> Seq<char> {
    match extra {
        Some(notes) => if is_blank(notes) {
            Seq::empty()
        } else {
            "### Extra context\n"@ + notes + "\n\n"@
        },
        None => Seq::empty(),
    }
}

/// Everything of a prompt that comes before the files.
pub open spec fn prompt_head(problem: Seq<char>, extra: Option<Seq<char>>) -> Seq<char> {
    preamble() + problem_section(problem) + extra_section(extra)
}

/// The line that opens the files.
pub open spec fn files_header() -> Seq<char> {
    "### Project files\n"@
}

/// The note that says that the contents of the files were cut.
pub open spec fn truncation_notice() -> Seq<char> {
    "\n\n...[truncated project file content to respect ~256k-token context budget]...\n"@
}

/// The block of one file: a line with its path, then its text, or the
/// description of why it could not be read.
pub open spec fn file_block(context: FileContext) -> Seq<char> {
    match context.outcome {
        FileOutcome::Content(text) => "\n\n===== FILE: "@ + context.path@ + " =====\n"@ + text@
            + "\n"@,
        FileOutcome::Unreadable(reason) => "\n\n===== FILE: "@ + context.path@
            + " (error reading) =====\n"@ + reason@ + "\n"@,
    }
}

/// The blocks of the first `count` of `contexts`, one after the other.
pub open spec fn context_blocks(contexts: Seq<FileContext>, count: int) -> Seq<char>
    decreases count,
{
    if count <= 0 || count > contexts.len() {
        Seq::empty()
    } else {
        context_blocks(contexts, count - 1) + file_block(contexts[count - 1])
    }
}

/// The number of characters that are left for the contents of the files
/// after `head`, the header and the notice.
pub open spec fn room_for_files(head: Seq<char>) -> int {
    let base = head.len() + files_header().len() + truncation_notice().len();
    if base >= MAX_PROMPT_CHARS {
        0
    } else {
        MAX_PROMPT_CHARS - base
    }
}

/// The part of a prompt that holds the files, after `head`: nothing
/// without files; else the header, then the blocks as far as there is
/// room for them, and the notice where they were cut.
pub open spec fn files_section(head: Seq<char>, blocks: Seq<char>) -> Seq<char> {
    let room = room_for_files(head);
    if blocks.len() == 0 {
        Seq::empty()
    } else if room == 0 {
        files_header() + truncation_notice()
    } else if blocks.len() > room {
        files_header() + blocks.subrange(0, room) + truncation_notice()
    } else {
        files_header() + blocks
    }
}

/// The prompt for `problem` with the notes `extra` and the files
/// `contexts`.
pub open spec fn prompt_text(
    problem: Seq<char>,
    extra: Option<Seq<char>>,
    contexts: Seq<FileContext>,
) -> Seq<char> {
    let head = prompt_head(problem, extra);
    head + files_section(head, context_blocks(contexts, contexts.len() as int))
}

/// The number of characters of a prompt that are there whatever the
/// files hold: the head, and with files the header and the notice.
pub open spec fn fixed_len(
    problem: Seq<char>,
    extra: Option<Seq<char>>,
    contexts: Seq<FileContext>,
) -> nat {
    let head = prompt_head(problem, extra);
    if context_blocks(contexts, contexts.len() as int).len() == 0 {
        head.len()
    } else {
        head.len() + files_header().len() + truncation_notice().len()
    }
}

/// The blocks of all of `contexts`.
pub fn render_blocks(contexts: &[FileContext]) -> (r: String)
    ensures
        r@ == context_blocks(contexts@, contexts@.len() as int),
{
    let mut blocks = String::new();
    let mut i: usize = 0;
    while i < contexts.len()
        invariant
            i <= contexts.len(),
            blocks@ == context_blocks(contexts@, i as int),
        decreases contexts.len() - i,
    {
        let context = &contexts[i];
        let ghost before = blocks@;
        blocks.append("\n\n===== FILE: ");
        blocks.append(context.path.as_str());
        match &context.outcome {
            FileOutcome::Content(text) => {
                blocks.append(" =====\n");
                blocks.append(text.as_str());
            },
            FileOutcome::Unreadable(reason) => {
                blocks.append(" (error reading) =====\n");
                blocks.append(reason.as_str());
            },
        }
        blocks.append("\n");
        assert(blocks@ =~= before + file_block(*context));
        i += 1;
    }
    blocks
}

/// Builds the prompt of `request` with the contents of its files.
pub fn build_prompt(request: &OracleRequest, contexts: &[FileContext]) -> (r: String)
    ensures
        r@ == prompt_text(request.problem@, request.notes(), contexts@),
        fixed_len(request.problem@, request.notes(), contexts@) <= MAX_PROMPT_CHARS ==> r@.len()
            <= MAX_PROMPT_CHARS,
{
    proof {
        lemma_prompt_is_bounded(request.problem@, request.notes(), contexts@);
    }
    let mut prompt = "You are Oracle, a senior software engineer MCP tool.\n".to_owned();
    prompt.append("You will be given a coding problem and optional project files.\n");
    prompt.append(
        "Carefully analyze the problem, read the files, reason step-by-step, and produce a clear, actionable answer.\n\n",
    );
    prompt.append(
        "Context is constrained to stay under roughly 256k tokens. If you see '[truncated]' markers, some content was cut to fit the budget.\n\n",
    );
    prompt.append("### Coding problem\n");
    prompt.append(request.problem.as_str());
    prompt.append("\n\n");
    assert(prompt@ =~= preamble() + problem_section(request.problem@));
    if let Some(notes) = &request.extra_context {
        if !is_blank_text(notes.as_str()) {
            prompt.append("### Extra context\n");
            prompt.append(notes.as_str());
            prompt.append("\n\n");
        }
    }
    assert(prompt@ =~= prompt_head(request.problem@, request.notes()));
    let ghost head = prompt@;

    let blocks = render_blocks(contexts);
    if blocks.as_str().is_empty() {
        assert(prompt@ =~= head + files_section(head, blocks@));
        return prompt;
    }
    let header = "### Project files\n";
    let notice =
        "\n\n...[truncated project file content to respect ~256k-token context budget]...\n";
    proof {
        reveal_strlit("### Project files\n");
        reveal_strlit(
            "\n\n...[truncated project file content to respect ~256k-token context budget]...\n",
        );
    }
    let fixed: usize = char_count(header) + char_count(notice);
    let head_len = char_count(prompt.as_str());
    let room: usize = if head_len >= MAX_PROMPT_CHARS - fixed {
        0
    } else {
        MAX_PROMPT_CHARS - fixed - head_len
    };
    assert(room == room_for_files(head));

    prompt.append(header);
    if room == 0 {
        prompt.append(notice);
    } else if char_count(blocks.as_str()) > room {
        prompt.append(char_prefix(blocks.as_str(), room));
        prompt.append(notice);
    } else {
        prompt.append(blocks.as_str());
    }
    assert(prompt@ =~= head + files_section(head, blocks@));
    prompt
}

/// A prompt holds at most the fixed number of characters exactly when
/// the part of it that is there whatever the files hold does: the
/// contents of the files are cut to the room that this part leaves, and
/// nothing else is ever cut.
pub proof fn lemma_prompt_is_bounded(
    problem: Seq<char>,
    extra: Option<Seq<char>>,
    contexts: Seq<FileContext>,
)
    ensures
        prompt_text(problem, extra, contexts).len() <= MAX_PROMPT_CHARS <==> fixed_len(
            problem,
            extra,
            contexts,
        ) <= MAX_PROMPT_CHARS,
{
}

/// Where the head, the header and the notice leave no room, a prompt
/// with files ends with the header and the notice, and holds nothing of
/// the files.
pub proof fn lemma_no_room_for_files(
    problem: Seq<char>,
    extra: Option<Seq<char>>,
    contexts: Seq<FileContext>,
)
    requires
        contexts.len() > 0,
        prompt_head(problem, extra).len() + files_header().len() + truncation_notice().len()
            >= MAX_PROMPT_CHARS,
    ensures
        prompt_text(problem, extra, contexts) == prompt_head(problem, extra) + files_header()
            + truncation_notice(),
{
    let count = contexts.len() as int;
    assert(context_blocks(contexts, count) == context_blocks(contexts, count - 1) + file_block(
        contexts[count - 1],
    ));
    reveal_strlit("\n");
    assert(file_block(contexts[count - 1]).len() > 0);
    let head = prompt_head(problem, extra);
    assert(head + (files_header() + truncation_notice()) =~= head + files_header()
        + truncation_notice());
}

/// Where the blocks of the files are longer than the room that is left,
/// the prompt holds exactly the fixed number of characters.
pub proof fn lemma_cut_prompt_is_full(
    problem: Seq<char>,
    extra: Option<Seq<char>>,
    contexts: Seq<FileContext>,
)
    requires
        room_for_files(prompt_head(problem, extra)) > 0,
        context_blocks(contexts, contexts.len() as int).len() > room_for_files(
            prompt_head(problem, extra),
        ),
    ensures
        prompt_text(problem, extra, contexts).len() == MAX_PROMPT_CHARS,
{
}

} // verus!
