use ni_rs::command::{get_command, CommandError, ResolveCommandReturn};
use ni_rs::translate::parse_nr;

fn expected(command: &str, args: &[&str]) -> Result<ResolveCommandReturn, CommandError> {
    Ok(ResolveCommandReturn {
        command: command.to_string(),
        args: args.iter().map(|s| s.to_string()).collect(),
    })
}

#[test]
fn npm_install() {
    let output = get_command("npm", "run", vec!["axios"]);
    assert_eq!(output, expected("npm", &["run", "axios"]));
}

#[test]
fn yarn_install() {
    let output = get_command("yarn", "run", vec!["axios"]);
    assert_eq!(output, expected("yarn", &["run", "axios"]));
}

#[test]
fn not_supported_agent() {
    let output = get_command("xxx", "run", vec!["axios"]);
    assert_eq!(output.map_err(|e| e.message()), Err("Unsupported agent 'xxx'".to_string()));
}

#[test]
fn not_supported_command() {
    let output = get_command("npm", "xxx", vec!["axios"]);
    assert_eq!(
        output.map_err(|e| e.message()),
        Err("Command 'xxx' is not support by agent 'npm'".to_string())
    );
}

#[test]
fn bun_empty() {
    let output = parse_nr("bun", vec![], None);
    assert_eq!(output, expected("bun", &["run", "start"]));
}

#[test]
fn bun_script() {
    let output = parse_nr("bun", vec!["dev"], None);
    assert_eq!(output, expected("bun", &["run", "dev"]));
}

#[test]
fn bun_script_with_arguments() {
    let output = parse_nr("bun", vec!["build", "--watch", "-o"], None);
    assert_eq!(output, expected("bun", &["run", "build", "--watch", "-o"]));
}

#[test]
fn bun_colon() {
    let output = parse_nr("bun", vec!["build:dev"], None);
    assert_eq!(output, expected("bun", &["run", "build:dev"]));
}

#[test]
fn bun_if_present() {
    let output = parse_nr("bun", vec!["test", "--if-present"], None);
    assert_eq!(output, expected("bun", &["run", "--if-present", "test"]));
}

#[test]
fn npm_empty() {
    let output = parse_nr("npm", vec![], None);
    assert_eq!(output, expected("npm", &["run", "start"]));
}

#[test]
fn npm_script() {
    let output = parse_nr("npm", vec!["dev"], None);
    assert_eq!(output, expected("npm", &["run", "dev"]));
}

#[test]
fn npm_script_with_arguments() {
    let output = parse_nr("npm", vec!["build", "--watch", "-o"], None);
    assert_eq!(output, expected("npm", &["run", "build", "--", "--watch", "-o"]));
}

#[test]
fn npm_colon() {
    let output = parse_nr("npm", vec!["build:dev"], None);
    assert_eq!(output, expected("npm", &["run", "build:dev"]));
}

#[test]
fn npm_if_present() {
    let output = parse_nr("npm", vec!["test", "--if-present"], None);
    assert_eq!(output, expected("npm", &["run", "--if-present", "test"]));
}

#[test]
fn pnpm_empty() {
    let output = parse_nr("pnpm", vec![], None);
    assert_eq!(output, expected("pnpm", &["run", "start"]));
}

#[test]
fn pnpm_script() {
    let output = parse_nr("pnpm", vec!["dev"], None);
    assert_eq!(output, expected("pnpm", &["run", "dev"]));
}

#[test]
fn pnpm_script_with_arguments() {
    let output = parse_nr("pnpm", vec!["build", "--watch", "-o"], None);
    assert_eq!(output, expected("pnpm", &["run", "build", "--watch", "-o"]));
}

#[test]
fn pnpm_colon() {
    let output = parse_nr("pnpm", vec!["build:dev"], None);
    assert_eq!(output, expected("pnpm", &["run", "build:dev"]));
}

#[test]
fn pnpm_if_present() {
    let output = parse_nr("pnpm", vec!["test", "--if-present"], None);
    assert_eq!(output, expected("pnpm", &["run", "--if-present", "test"]));
}

#[test]
fn yarn_empty() {
    let output = parse_nr("yarn", vec![], None);
    assert_eq!(output, expected("yarn", &["run", "start"]));
}

#[test]
fn yarn_script() {
    let output = parse_nr("yarn", vec!["dev"], None);
    assert_eq!(output, expected("yarn", &["run", "dev"]));
}

#[test]
fn yarn_script_with_arguments() {
    let output = parse_nr("yarn", vec!["build", "--watch", "-o"], None);
    assert_eq!(output, expected("yarn", &["run", "build", "--watch", "-o"]));
}

#[test]
fn yarn_colon() {
    let output = parse_nr("yarn", vec!["build:dev"], None);
    assert_eq!(output, expected("yarn", &["run", "build:dev"]));
}

#[test]
fn yarn_if_present() {
    let output = parse_nr("yarn", vec!["test", "--if-present"], None);
    assert_eq!(output, expected("yarn", &["run", "--if-present", "test"]));
}

#[test]
fn yarn_berry_empty() {
    let output = parse_nr("yarn", vec![], None);
    assert_eq!(output, expected("yarn", &["run", "start"]));
}

#[test]
fn yarn_berry_script() {
    let output = parse_nr("yarn", vec!["dev"], None);
    assert_eq!(output, expected("yarn", &["run", "dev"]));
}

#[test]
fn yarn_berry_script_with_arguments() {
    let output = parse_nr("yarn", vec!["build", "--watch", "-o"], None);
    assert_eq!(output, expected("yarn", &["run", "build", "--watch", "-o"]));
}

#[test]
fn yarn_berry_colon() {
    let output = parse_nr("yarn", vec!["build:dev"], None);
    assert_eq!(output, expected("yarn", &["run", "build:dev"]));
}

#[test]
fn yarn_berry_if_present() {
    let output = parse_nr("yarn", vec!["test", "--if-present"], None);
    assert_eq!(output, expected("yarn", &["run", "--if-present", "test"]));
}
