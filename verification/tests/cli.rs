use oracle::cli::{
    accept_problem_text, plan_problem_text, request_from_call, CallArgs, Cli, CliError, Command,
    Origin, ProblemPlan,
};
use oracle::error::{
    error_report, require_api_key, tool_reply, ErrorKind, OracleError,
};
use oracle::testmode::{canned_answer, test_mode_enabled, test_mode_response};
use oracle::request::OracleRequest;
use oracle::wire::{poll_url, responses_url, submit_request};

fn message(plan: ProblemPlan) -> String {
    match plan {
        ProblemPlan::Fail(err) => err.to_text(),
        _ => panic!("expected the plan to fail"),
    }
}

#[test]
fn cli_error_keeps_its_message() {
    let err = CliError::new("Problem text cannot be empty".to_string());
    assert_eq!(err.to_text(), "Problem text cannot be empty");
    assert_eq!(CliError::new(String::new()).to_text(), "");
}

#[test]
fn arguments_are_plain_values() {
    let cli = Cli {
        command: Some(Command::Call(CallArgs {
            problem: Some("p".to_string()),
            problem_file: None,
            extra_context: None,
            files: vec!["a.rs".to_string()],
        })),
    };
    match cli.command {
        Some(Command::Call(args)) => {
            assert_eq!(args.problem.as_deref(), Some("p"));
            assert_eq!(args.files, vec!["a.rs".to_string()]);
        }
        _ => panic!("expected a call"),
    }
    assert!(matches!(Cli { command: Some(Command::Serve) }.command, Some(Command::Serve)));
    assert!(Cli { command: None }.command.is_none());
}

#[test]
fn without_a_command_the_program_serves() {
    assert!(matches!(Cli { command: None }.command_or_serve(), Command::Serve));
    assert!(matches!(Cli { command: Some(Command::Serve) }.command_or_serve(), Command::Serve));
    let call = Command::Call(CallArgs {
        problem: None,
        problem_file: Some("-".to_string()),
        extra_context: None,
        files: vec![],
    });
    match (Cli { command: Some(call) }).command_or_serve() {
        Command::Call(args) => assert_eq!(args.problem_file.as_deref(), Some("-")),
        Command::Serve => panic!("expected a call"),
    }
}

#[test]
fn inline_problem_text_wins() {
    match plan_problem_text(Some("fix bug".to_string()), Some("ignored.txt".to_string())) {
        ProblemPlan::Use(text) => assert_eq!(text, "fix bug"),
        _ => panic!("expected the inline text"),
    }
    assert_eq!(
        message(plan_problem_text(Some("  \n".to_string()), None)),
        "Problem text cannot be empty"
    );
    assert_eq!(
        message(plan_problem_text(Some(String::new()), Some("p.txt".to_string()))),
        "Problem text cannot be empty"
    );
}

#[test]
fn problem_file_names_a_file_or_standard_input() {
    assert!(matches!(plan_problem_text(None, Some("-".to_string())), ProblemPlan::ReadStdin));
    match plan_problem_text(None, Some("notes/p.txt".to_string())) {
        ProblemPlan::ReadFile(path) => assert_eq!(path, "notes/p.txt"),
        _ => panic!("expected a file"),
    }
    match plan_problem_text(None, Some("--".to_string())) {
        ProblemPlan::ReadFile(path) => assert_eq!(path, "--"),
        _ => panic!("expected a file"),
    }
    assert_eq!(
        message(plan_problem_text(None, None)),
        "Provide --problem TEXT or --problem-file PATH (use '-' for stdin)"
    );
}

#[test]
fn text_that_was_read_must_not_be_blank() {
    assert_eq!(accept_problem_text(Origin::Stdin, "x\n".to_string()).unwrap(), "x\n");
    assert_eq!(accept_problem_text(Origin::File, " x".to_string()).unwrap(), " x");
    assert_eq!(
        accept_problem_text(Origin::Stdin, "\n".to_string()).unwrap_err().to_text(),
        "Problem text read from stdin is empty"
    );
    assert_eq!(
        accept_problem_text(Origin::File, String::new()).unwrap_err().to_text(),
        "Problem text file is empty"
    );
    assert_eq!(
        accept_problem_text(Origin::Inline, "\t".to_string()).unwrap_err().to_text(),
        "Problem text cannot be empty"
    );
}

#[test]
fn request_of_a_call_has_no_empty_file_list() {
    let request = request_from_call("p".to_string(), Some("e".to_string()), vec![]);
    assert_eq!(request.problem, "p");
    assert_eq!(request.extra_context.as_deref(), Some("e"));
    assert_eq!(request.files, None);
    let request = request_from_call("p".to_string(), None, vec!["a".to_string(), "b".to_string()]);
    assert_eq!(request.files, Some(vec!["a".to_string(), "b".to_string()]));
    assert_eq!(request.extra_context, None);
}

#[test]
fn failures_are_reported_in_one_line() {
    assert_eq!(error_report("boom"), "Oracle encountered an error: boom");
    let reply = tool_reply(Err(OracleError {
        kind: ErrorKind::PollTimeout,
        message: "too slow".to_string(),
    }));
    assert!(reply.is_error);
    assert_eq!(reply.text, "Oracle encountered an error: too slow");
    let reply = tool_reply(Ok("answer".to_string()));
    assert!(!reply.is_error);
    assert_eq!(reply.text, "answer");
}

#[test]
fn missing_credential_is_a_configuration_error() {
    assert_eq!(require_api_key(Some("SECRET".to_string())).unwrap(), "SECRET");
    let err = require_api_key(None).unwrap_err();
    assert_eq!(err.kind, ErrorKind::Configuration);
    assert_eq!(err.message, "Environment variable OPENAI_API_KEY is not set");
}

#[test]
fn test_mode_switch_values() {
    for value in ["1", "true", "yes", "on", " TRUE ", "Yes\n", "\tON", "tRuE"] {
        assert!(test_mode_enabled(Some(value)), "{value:?} turns the test mode on");
    }
    for value in ["", "0", "false", "no", "off", "2", "y", "t rue", "ｏｎ", "enabled"] {
        assert!(!test_mode_enabled(Some(value)), "{value:?} leaves the test mode off");
    }
    assert!(!test_mode_enabled(None));
}

#[test]
fn test_mode_answer_echoes_the_request() {
    let request =
        OracleRequest { problem: "fix bug".to_string(), files: None, extra_context: None };
    let answer = canned_answer(Some("1"), &request).expect("the test mode is on");
    assert!(answer.contains("[oracle test mode]"));
    assert!(answer.contains("fix bug"));
    assert_eq!(
        answer,
        "[oracle test mode] No call was made to OpenAI because ORACLE_TEST_MODE is set.\n\nProblem description:\nfix bug\n\nExtra context: (not provided)\n\nFiles provided:\n(none)\n"
    );
    assert_eq!(canned_answer(Some("0"), &request), None);
    assert_eq!(canned_answer(None, &request), None);
}

#[test]
fn test_mode_answer_lists_notes_and_files() {
    let request = OracleRequest {
        problem: "p".to_string(),
        files: Some(vec!["a.rs".to_string(), "dir/b.rs".to_string()]),
        extra_context: Some("notes".to_string()),
    };
    assert_eq!(
        test_mode_response(&request),
        "[oracle test mode] No call was made to OpenAI because ORACLE_TEST_MODE is set.\n\nProblem description:\np\n\nExtra context:\nnotes\n\nFiles provided:\n- a.rs\n- dir/b.rs\n"
    );
    let request = OracleRequest {
        problem: "p".to_string(),
        files: Some(vec![]),
        extra_context: Some("  ".to_string()),
    };
    assert_eq!(
        test_mode_response(&request),
        "[oracle test mode] No call was made to OpenAI because ORACLE_TEST_MODE is set.\n\nProblem description:\np\n\nExtra context: (not provided)\n\nFiles provided:\n(none)\n"
    );
}

#[test]
fn generation_request_carries_the_fixed_settings() {
    let request = submit_request("the prompt", 4096);
    assert_eq!(request.model, "gpt-5-pro");
    assert_eq!(request.input, "the prompt");
    assert_eq!(request.reasoning_effort, "high");
    assert_eq!(request.max_output_tokens, 4096);
    assert!(request.instructions.starts_with("You are Oracle, a meticulous, senior-level coding assistant."));
    assert_eq!(responses_url(), "https://api.openai.com/v1/responses");
    assert_eq!(poll_url("resp_42"), "https://api.openai.com/v1/responses/resp_42");
}
