use builder_rs::executor::{fan_out_messages, log_file_line, MockCommandExecutor, MockResponse};

fn args(list: &[&str]) -> Vec<String> {
    list.iter().map(|s| s.to_string()).collect()
}

#[test]
fn test_mock_executor_success() {
    let mut executor = MockCommandExecutor::new();
    executor.add_success("git", vec!["Cloning into 'repo'...".to_string()]);

    let result = executor.execute("git", &args(&["clone", "https://example.com/repo.git"]));

    assert!(result.is_ok());
    let (cmd_result, messages) = result.unwrap();
    assert!(cmd_result.success);
    assert_eq!(cmd_result.exit_code, Some(0));
    assert_eq!(cmd_result.stdout_lines.len(), 1);

    // Check that output was sent
    assert!(!messages.is_empty());
    assert!(messages[0].contains("Cloning into 'repo'"));
}

#[test]
fn test_mock_executor_failure() {
    let mut executor = MockCommandExecutor::new();
    executor.add_failure("make", vec!["error: missing target".to_string()]);

    let result = executor.execute("make", &args(&["defconfig"]));

    assert!(result.is_ok());
    let (cmd_result, _messages) = result.unwrap();
    assert!(!cmd_result.success);
    assert_eq!(cmd_result.exit_code, Some(1));
    assert_eq!(cmd_result.stderr_lines.len(), 1);
}

#[test]
fn test_git_clone_success() {
    // Setup mock executor with expected git clone behavior
    let mut executor = MockCommandExecutor::new();
    executor.add_response(MockResponse {
        program_pattern: "git".to_string(),
        success: true,
        exit_code: 0,
        stdout_lines: vec![
            "Cloning into 'linux'...".to_string(),
            "remote: Enumerating objects: 1000".to_string(),
            "Receiving objects: 100% (1000/1000)".to_string(),
        ],
        stderr_lines: vec![],
        delay_ms: Some(100), // Simulate 100ms clone time
    });

    let result = executor.execute(
        "git",
        &args(&["clone", "--depth=1", "https://github.com/torvalds/linux.git"]),
    );

    // Verify result
    assert!(result.is_ok());
    let (cmd_result, messages) = result.unwrap();
    assert!(cmd_result.success);
    assert_eq!(cmd_result.exit_code, Some(0));
    assert_eq!(cmd_result.stdout_lines.len(), 3);

    // Verify output was streamed
    let mut output_count = 0;
    for msg in &messages {
        assert!(msg.starts_with("stdout: "));
        output_count += 1;
    }
    assert_eq!(output_count, 3);
}

#[test]
fn test_make_defconfig_success() {
    let mut executor = MockCommandExecutor::new();
    executor.add_success(
        "make",
        vec![
            "HOSTCC  scripts/basic/fixdep".to_string(),
            "HOSTCC  scripts/kconfig/conf.o".to_string(),
            "configuration written to .config".to_string(),
        ],
    );

    let result = executor.execute("make", &args(&["-j8", "O=out", "defconfig"]));

    assert!(result.is_ok());
    let (cmd_result, _messages) = result.unwrap();
    assert!(cmd_result.success);
    assert_eq!(cmd_result.stdout_lines.len(), 3);
}

#[test]
fn test_make_build_failure() {
    let mut executor = MockCommandExecutor::new();
    executor.add_failure(
        "make",
        vec![
            "error: implicit declaration of function 'foo'".to_string(),
            "make[1]: *** [scripts/Makefile.build:271: file.o] Error 1".to_string(),
            "make: *** [Makefile:1872: file] Error 2".to_string(),
        ],
    );

    let result = executor.execute("make", &args(&["-j8", "O=out"]));

    assert!(result.is_ok());
    let (cmd_result, messages) = result.unwrap();
    assert!(!cmd_result.success); // Build failed
    assert_eq!(cmd_result.exit_code, Some(1));
    assert_eq!(cmd_result.stderr_lines.len(), 3);

    // Verify error output was streamed
    let mut error_count = 0;
    for msg in &messages {
        assert!(msg.starts_with("stderr: "));
        error_count += 1;
    }
    assert_eq!(error_count, 3);
}

#[test]
fn test_repo_sync_sequence() {
    // Simulate a multi-command build sequence
    let mut executor = MockCommandExecutor::new();

    executor.add_success("repo", vec!["Repo command succeeded.".to_string()]);
    executor.add_success(
        "repo",
        vec![
            "Fetching: 100% (100/100)".to_string(),
            "Syncing work tree: 100% (100/100)".to_string(),
        ],
    );
    executor.add_success("bash", vec!["Build completed successfully".to_string()]);

    // Execute repo init
    let result1 = executor.execute("repo", &args(&["init"]));
    assert!(result1.unwrap().0.success);

    // Execute repo sync
    let result2 = executor.execute("repo", &args(&["sync"]));
    assert!(result2.unwrap().0.success);

    // Execute build script
    let result3 = executor.execute("bash", &args(&["build.sh"]));
    assert!(result3.unwrap().0.success);
}

#[test]
fn test_insufficient_responses() {
    // Test what happens when we run out of configured responses
    let mut executor = MockCommandExecutor::new();
    executor.add_success("git", vec!["Success".to_string()]);

    // First call should succeed
    let result1 = executor.execute("git", &args(&["clone"]));
    assert!(result1.is_ok());

    // Second call should fail (no response configured)
    let result2 = executor.execute("git", &args(&["clone"]));
    assert!(result2.is_err());
    assert!(result2.unwrap_err().contains("No mock response"));
}

#[test]
fn test_build_with_cancellation() {
    let mut executor = MockCommandExecutor::new();
    executor.add_response(MockResponse {
        program_pattern: "make".to_string(),
        success: false,
        exit_code: -1, // Typically indicates killed/interrupted
        stdout_lines: vec!["Building...".to_string()],
        stderr_lines: vec![],
        delay_ms: Some(5000), // Would take 5 seconds
    });

    // The scripted executor replays the outcome; the scripted delay is for
    // callers that simulate slow commands, so the call itself returns.
    let result = executor.execute("make", &args(&[]));
    assert!(result.is_ok());
}

#[test]
fn test_fan_out_tags_every_line_once() {
    // Every line appears exactly once, stdout first, each tagged with its
    // stream.
    let stdout = vec!["a".to_string(), "b".to_string()];
    let stderr = vec!["x".to_string()];
    let messages = fan_out_messages(&stdout, &stderr);
    assert_eq!(
        messages,
        vec!["stdout: a".to_string(), "stdout: b".to_string(), "stderr: x".to_string()]
    );
}

#[test]
fn test_log_file_line_prefixes_stderr() {
    assert_eq!(log_file_line("boom", true), "ERR: boom");
    assert_eq!(log_file_line("fine", false), "fine");
}
