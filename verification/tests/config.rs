use git_retrieve::cli::{config_get_string, find_cmd_tool, value_of, ConfigReply, ToolStep};
use git_retrieve::error::GitCliError;

fn output(status: Option<i32>, stdout: &[u8]) -> ConfigReply {
    ConfigReply::Output { status, stdout: stdout.to_vec() }
}

#[test]
fn should_get_merge_cmd() {
    let mut replies = Vec::new();
    assert_eq!(find_cmd_tool("merge", &replies), ToolStep::Ask("merge.tool".to_string()));
    replies.push(output(Some(0), b"code\n"));
    assert_eq!(find_cmd_tool("merge", &replies), ToolStep::Ask("mergetool.code.cmd".to_string()));
    replies.push(output(Some(0), b"code --wait $MERGED\n"));
    let result = find_cmd_tool("merge", &replies);
    assert_eq!(result, ToolStep::Found("code --wait $MERGED".to_string()));
}

#[test]
fn diff_tool_is_looked_up_the_same_way() {
    assert_eq!(find_cmd_tool("diff", &[]), ToolStep::Ask("diff.tool".to_string()));
    assert_eq!(
        find_cmd_tool("diff", &[output(Some(0), b"  meld \t\r\n")]),
        ToolStep::Ask("difftool.meld.cmd".to_string())
    );
}

#[test]
fn value_is_trimmed_on_both_sides() {
    assert_eq!(
        config_get_string("k", &output(Some(0), b" \t code --wait \n\n")),
        Ok("code --wait".to_string())
    );
    assert_eq!(config_get_string("k", &output(Some(0), b"")), Ok(String::new()));
    assert_eq!(config_get_string("k", &output(Some(0), b"  \n")), Ok(String::new()));
}

#[test]
fn invalid_utf8_is_replaced() {
    assert_eq!(
        config_get_string("k", &output(Some(0), b"a\xffb\n")),
        Ok("a\u{fffd}b".to_string())
    );
}

#[test]
fn failed_query_names_the_key_and_the_status() {
    assert_eq!(
        config_get_string("merge.tool", &output(Some(1), b"ignored")),
        Err(GitCliError::CommandError("git config merge.tool".to_string(), Some(1)))
    );
    assert_eq!(
        config_get_string("merge.tool", &output(None, b"")),
        Err(GitCliError::CommandError("git config merge.tool".to_string(), None))
    );
    assert_eq!(
        find_cmd_tool("merge", &[output(Some(1), b"")]),
        ToolStep::Failed(GitCliError::CommandError("git config merge.tool".to_string(), Some(1)))
    );
    assert_eq!(
        find_cmd_tool("merge", &[output(Some(0), b"vim"), output(Some(5), b"")]),
        ToolStep::Failed(GitCliError::CommandError(
            "git config mergetool.vim.cmd".to_string(),
            Some(5)
        ))
    );
}

#[test]
fn first_failure_ends_the_search() {
    let replies = [output(Some(1), b""), output(Some(0), b"never read")];
    assert_eq!(
        find_cmd_tool("merge", &replies),
        ToolStep::Failed(GitCliError::CommandError("git config merge.tool".to_string(), Some(1)))
    );
}

#[test]
fn query_that_cannot_start_carries_the_systems_text() {
    assert_eq!(
        config_get_string("k", &ConfigReply::NotStarted("No such file".to_string())),
        Err(GitCliError::IoError("No such file".to_string()))
    );
    assert_eq!(
        find_cmd_tool("merge", &[ConfigReply::NotStarted("No such file".to_string())]),
        ToolStep::Failed(GitCliError::IoError("No such file".to_string()))
    );
}

#[test]
fn value_is_the_text_only_on_exit_code_zero() {
    assert_eq!(value_of("k", Some(0), "v".to_string()), Ok("v".to_string()));
    assert_eq!(
        value_of("k", Some(2), "v".to_string()),
        Err(GitCliError::CommandError("git config k".to_string(), Some(2)))
    );
    assert_eq!(
        value_of("k", None, "v".to_string()),
        Err(GitCliError::CommandError("git config k".to_string(), None))
    );
}
