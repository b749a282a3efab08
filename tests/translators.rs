use ni_rs::command::{get_command, CommandError, ResolveCommandReturn};
use ni_rs::serialize::{serialize, serialize_command};
use ni_rs::translate::{parse_na, parse_ni, parse_nlx, parse_nr, parse_nu, parse_nun, RunnerContext};

fn line(command: &str, args: &[&str]) -> ResolveCommandReturn {
    ResolveCommandReturn {
        command: command.to_string(),
        args: args.iter().map(|s| s.to_string()).collect(),
    }
}

fn with_lock(has_lock: bool) -> Option<RunnerContext> {
    Some(RunnerContext { programmatic: None, has_lock: Some(has_lock), cwd: None })
}

#[test]
fn install_without_arguments() {
    assert_eq!(parse_ni("npm", vec![], None), Ok(line("npm", &["i"])));
}

#[test]
fn install_with_only_flags() {
    assert_eq!(parse_ni("pnpm", vec!["--prod", "-w"], None), Ok(line("pnpm", &["i", "--prod", "-w"])));
}

#[test]
fn install_with_packages_adds_them() {
    assert_eq!(parse_ni("yarn", vec!["axios", "-D"], None), Ok(line("yarn", &["add", "axios", "-D"])));
}

#[test]
fn install_global() {
    assert_eq!(parse_ni("npm", vec!["-g", "eslint"], None), Ok(line("npm", &["i", "-g", "eslint"])));
}

#[test]
fn install_frozen() {
    assert_eq!(parse_ni("yarn@berry", vec!["--frozen"], None), Ok(line("yarn", &["install", "--immutable"])));
}

#[test]
fn install_frozen_if_present_with_lock() {
    assert_eq!(parse_ni("npm", vec!["--frozen-if-present"], with_lock(true)), Ok(line("npm", &["ci"])));
}

#[test]
fn install_frozen_if_present_without_lock() {
    assert_eq!(parse_ni("npm", vec!["--frozen-if-present"], with_lock(false)), Ok(line("npm", &["i"])));
}

#[test]
fn install_bun_rewrites_dev_flag() {
    assert_eq!(parse_ni("bun", vec!["axios", "-D"], None), Ok(line("bun", &["add", "axios", "-d"])));
}

#[test]
fn install_other_agent_keeps_dev_flag() {
    assert_eq!(parse_ni("pnpm", vec!["axios", "-D"], None), Ok(line("pnpm", &["add", "axios", "-D"])));
}

#[test]
fn install_unknown_agent() {
    assert_eq!(parse_ni("cargo", vec![], None), Err(CommandError::UnsupportedAgent("cargo".to_string())));
}

#[test]
fn run_deno_prefixes_script_with_arguments() {
    assert_eq!(parse_nr("deno", vec!["build", "--watch"], None), Ok(line("deno", &["run", "npm:build", "--watch"])));
}

#[test]
fn run_pnpm6_inserts_separator() {
    assert_eq!(parse_nr("pnpm@6", vec!["build", "-o"], None), Ok(line("pnpm", &["run", "build", "--", "-o"])));
}

#[test]
fn run_if_present_alone_defaults_nothing() {
    assert_eq!(parse_nr("yarn", vec!["--if-present"], None), Ok(line("yarn", &["run", "--if-present"])));
}

#[test]
fn run_if_present_alone_for_script_runner_fails() {
    assert_eq!(parse_nr("npm", vec!["--if-present"], None), Err(CommandError::TemplateInterpolation));
}

#[test]
fn run_if_present_with_many_arguments() {
    assert_eq!(
        parse_nr("bun", vec!["test", "a", "--if-present", "b"], None),
        Ok(line("bun", &["run", "--if-present", "test", "a", "b"]))
    );
}

#[test]
fn upgrade_plain_and_interactive() {
    assert_eq!(parse_nu("pnpm", vec!["react"], None), Ok(line("pnpm", &["update", "react"])));
    assert_eq!(parse_nu("yarn@berry", vec!["-i"], None), Ok(line("yarn", &["up", "-i"])));
}

#[test]
fn upgrade_interactive_unavailable_for_npm() {
    assert_eq!(parse_nu("npm", vec!["-i"], None), Err(CommandError::TemplateInterpolation));
}

#[test]
fn uninstall_plain_and_global() {
    assert_eq!(parse_nun("bun", vec!["axios"], None), Ok(line("bun", &["remove", "axios"])));
    assert_eq!(parse_nun("yarn", vec!["-g", "axios"], None), Ok(line("yarn", &["global", "remove", "axios"])));
}

#[test]
fn execute_and_agent_pass_arguments_through() {
    assert_eq!(parse_nlx("pnpm", vec!["vitest", "-w"], None), Ok(line("pnpm", &["dlx", "vitest", "-w"])));
    assert_eq!(parse_na("bun", vec!["--version"], None), Ok(line("bun", &["--version"])));
}

#[test]
fn unknown_verb_error_value() {
    assert_eq!(
        get_command("bun", "publish", vec![]),
        Err(CommandError::UnsupportedVerb("bun".to_string(), "publish".to_string()))
    );
}

#[test]
fn template_without_placeholder_drops_arguments() {
    assert_eq!(get_command("pnpm", "frozen", vec!["x"]), Ok(line("pnpm", &["i", "--frozen-lockfile"])));
}

#[test]
fn script_runner_without_arguments_fails() {
    let output = get_command("npm", "run", vec![]);
    assert_eq!(output, Err(CommandError::TemplateInterpolation));
    assert_eq!(
        CommandError::TemplateInterpolation.message(),
        "Cannot build the command from its template".to_string()
    );
}

#[test]
fn serialize_quotes_arguments_with_spaces() {
    let c = line("npm", &["run", "my script"]);
    assert_eq!(serialize_command(Some(c)), Some("npm run 'my script'".to_string()));
}

#[test]
fn serialize_without_arguments() {
    assert_eq!(serialize_command(Some(line("npm", &[]))), Some("npm".to_string()));
    assert_eq!(serialize_command(None), None);
}

#[test]
fn serialize_quotes_other_whitespace() {
    let c = line("yarn", &["a\tb", "c", "d\u{3000}e"]);
    assert_eq!(serialize(&c), "yarn 'a\tb' c 'd\u{3000}e'");
}

#[test]
fn serialize_twice_gives_same_line() {
    let c = parse_nr("npm", vec!["my script", "--if-present"], None).unwrap();
    let first = serialize(&c);
    let second = serialize(&c);
    assert_eq!(first, second);
    assert_eq!(first, "npm run --if-present 'my script'");
}

#[test]
fn resolved_arguments_keep_their_order() {
    assert_eq!(
        get_command("yarn", "global", vec!["c", "a", "b"]),
        Ok(line("yarn", &["global", "add", "c", "a", "b"]))
    );
}
