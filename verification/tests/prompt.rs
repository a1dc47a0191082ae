use oracle::prompt::{build_prompt, render_blocks, MAX_PROMPT_CHARS};
use oracle::request::{FileContext, FileOutcome, OracleRequest};

const PREAMBLE: &str = "You are Oracle, a senior software engineer MCP tool.\nYou will be given a coding problem and optional project files.\nCarefully analyze the problem, read the files, reason step-by-step, and produce a clear, actionable answer.\n\nContext is constrained to stay under roughly 256k tokens. If you see '[truncated]' markers, some content was cut to fit the budget.\n\n";
const HEADER: &str = "### Project files\n";
const NOTICE: &str =
    "\n\n...[truncated project file content to respect ~256k-token context budget]...\n";

fn request(problem: &str, extra: Option<&str>) -> OracleRequest {
    OracleRequest {
        problem: problem.to_string(),
        files: None,
        extra_context: extra.map(|s| s.to_string()),
    }
}

fn content(path: &str, text: &str) -> FileContext {
    FileContext { path: path.to_string(), outcome: FileOutcome::Content(text.to_string()) }
}

fn unreadable(path: &str, reason: &str) -> FileContext {
    FileContext { path: path.to_string(), outcome: FileOutcome::Unreadable(reason.to_string()) }
}

#[test]
fn prompt_without_files_or_notes() {
    let prompt = build_prompt(&request("fix bug", None), &[]);
    assert_eq!(prompt, format!("{PREAMBLE}### Coding problem\nfix bug\n\n"));
}

#[test]
fn prompt_with_notes() {
    let prompt = build_prompt(&request("fix bug", Some("be brief")), &[]);
    assert_eq!(
        prompt,
        format!("{PREAMBLE}### Coding problem\nfix bug\n\n### Extra context\nbe brief\n\n")
    );
}

#[test]
fn blank_notes_are_left_out() {
    let prompt = build_prompt(&request("fix bug", Some(" \n ")), &[]);
    assert_eq!(prompt, format!("{PREAMBLE}### Coding problem\nfix bug\n\n"));
}

#[test]
fn files_are_listed_in_order_with_their_errors() {
    let contexts = vec![content("src/a.rs", "fn a() {}"), unreadable("b.rs", "No such file")];
    assert_eq!(
        render_blocks(&contexts),
        "\n\n===== FILE: src/a.rs =====\nfn a() {}\n\n\n===== FILE: b.rs (error reading) =====\nNo such file\n"
    );
    let prompt = build_prompt(&request("p", None), &contexts);
    assert_eq!(
        prompt,
        format!(
            "{PREAMBLE}### Coding problem\np\n\n{HEADER}\n\n===== FILE: src/a.rs =====\nfn a() {{}}\n\n\n===== FILE: b.rs (error reading) =====\nNo such file\n"
        )
    );
    assert!(!prompt.contains("truncated project file content"));
}

#[test]
fn long_file_content_is_cut_to_the_limit() {
    let contexts = vec![content("big.txt", &"x".repeat(2 * MAX_PROMPT_CHARS))];
    let prompt = build_prompt(&request("p", None), &contexts);
    assert_eq!(prompt.chars().count(), MAX_PROMPT_CHARS);
    assert!(prompt.ends_with(&format!("x{NOTICE}")));
    let head = format!("{PREAMBLE}### Coding problem\np\n\n{HEADER}\n\n===== FILE: big.txt =====\nxxx");
    assert!(prompt.starts_with(&head));
}

#[test]
fn cut_never_splits_a_character() {
    let contexts = vec![content("big.txt", &"日本語".repeat(MAX_PROMPT_CHARS / 2))];
    let prompt = build_prompt(&request("p", None), &contexts);
    assert_eq!(prompt.chars().count(), MAX_PROMPT_CHARS);
    assert!(prompt.ends_with(NOTICE));
    let before = &prompt[..prompt.len() - NOTICE.len()];
    let last = before.chars().last();
    assert!(last == Some('日') || last == Some('本') || last == Some('語'));
}

#[test]
fn content_that_just_fits_is_not_cut() {
    let head = format!("{PREAMBLE}### Coding problem\np\n\n");
    let frame = "\n\n===== FILE: f =====\n\n".chars().count();
    let room = MAX_PROMPT_CHARS - head.chars().count() - HEADER.len() - NOTICE.len();
    let contexts = vec![content("f", &"y".repeat(room - frame))];
    let prompt = build_prompt(&request("p", None), &contexts);
    assert_eq!(prompt.chars().count(), MAX_PROMPT_CHARS - NOTICE.len());
    assert!(!prompt.contains("truncated project file content"));

    let contexts = vec![content("f", &"y".repeat(room - frame + 1))];
    let prompt = build_prompt(&request("p", None), &contexts);
    assert_eq!(prompt.chars().count(), MAX_PROMPT_CHARS);
    assert!(prompt.ends_with(&format!("y{NOTICE}")));
}

#[test]
fn no_room_for_files_leaves_only_the_notice() {
    let problem = "q".repeat(MAX_PROMPT_CHARS);
    let contexts = vec![content("secret.txt", "file body")];
    let prompt = build_prompt(&request(&problem, None), &contexts);
    assert_eq!(
        prompt,
        format!("{PREAMBLE}### Coding problem\n{problem}\n\n{HEADER}{NOTICE}")
    );
    assert!(!prompt.contains("file body"));
    assert!(!prompt.contains("secret.txt"));
}

#[test]
fn head_that_fills_the_limit_exactly_leaves_no_room() {
    let fixed = format!("{PREAMBLE}### Coding problem\n\n\n").chars().count();
    let problem = "q".repeat(MAX_PROMPT_CHARS - fixed - HEADER.len() - NOTICE.len());
    let contexts = vec![content("f", "body")];
    let prompt = build_prompt(&request(&problem, None), &contexts);
    assert_eq!(prompt.chars().count(), MAX_PROMPT_CHARS);
    assert!(prompt.ends_with(&format!("{HEADER}{NOTICE}")));
}

#[test]
fn only_the_contents_of_files_are_ever_cut() {
    let problem = "q".repeat(MAX_PROMPT_CHARS);
    let prompt = build_prompt(&request(&problem, Some("notes")), &[]);
    assert_eq!(
        prompt,
        format!("{PREAMBLE}### Coding problem\n{problem}\n\n### Extra context\nnotes\n\n")
    );
    assert!(prompt.chars().count() > MAX_PROMPT_CHARS);
}
