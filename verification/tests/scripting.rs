use kubit::scripting::{quoted, Script};

fn words(tokens: &[&str]) -> Vec<String> {
    tokens.iter().map(|x| x.to_string()).collect()
}

#[test]
fn test_script() {
    let script = Script::from_vec(words(&["echo", "foo", "bar", "baz qux"]));
    let expected = r#"#!/bin/bash
set -euo pipefail

echo \
    foo \
    bar \
    'baz qux'"#;
    assert_eq!(script.to_string(), expected);
}

#[test]
fn test_add() {
    let script_a = Script::from_vec(words(&["echo", "foo", "bar"]));
    let script_b = Script::from_vec(words(&["echo", "baz qux"]));
    let combined = script_a + script_b;

    let expected = r#"#!/bin/bash
set -euo pipefail

echo \
    foo \
    bar
echo \
    'baz qux'"#;
    assert_eq!(combined.to_string(), expected);
}

#[test]
fn test_sum() {
    let scripts = vec![
        Script::from_vec(words(&["echo", "foo", "bar"])),
        Script::from_vec(words(&["echo", "baz qux"])),
    ];

    let combined: Script = Script::sum(scripts);

    let expected = r#"#!/bin/bash
set -euo pipefail

echo \
    foo \
    bar
echo \
    'baz qux'"#;
    assert_eq!(combined.to_string(), expected);
}

#[test]
fn test_variable() {
    let script = Script::from_vec(words(&["echo", "quote_$_me", "${dont_quote_me}"]));
    let expected = r#"#!/bin/bash
set -euo pipefail

echo \
    'quote_$_me' \
    "${dont_quote_me}""#;
    assert_eq!(script.to_string(), expected);
}

#[test]
fn test_pipe() {
    let left = Script::from_vec(words(&["echo", "foo"]));
    let right = Script::from_vec(words(&["wc", "-c"]));

    let script = left | right;
    let expected = r#"#!/bin/bash
set -euo pipefail

echo \
    foo \
| wc \
    -c"#;
    assert_eq!(script.to_string(), expected);
}

#[test]
fn test_redirect() {
    let script = Script::from_vec(words(&["echo", "foobar", ">", "/tmp/test"]));
    let expected = r#"#!/bin/bash
set -euo pipefail

echo \
    foobar \
    > \
    /tmp/test"#;
    assert_eq!(script.to_string(), expected);
}

#[test]
fn test_quoted() {
    let tests = [
        (&String::from("${MY_VAR}"), format!("\"{}\"", "${MY_VAR}")),
        (&String::from(">"), ">".to_string()),
        (&String::from("hello"), "hello".to_string()),
    ];

    for (input, expected) in tests {
        assert_eq!(quoted(input), expected);
    }
}

#[test]
fn sum_of_no_scripts_is_the_empty_command_line() {
    let combined = Script::sum(vec![]);
    assert_eq!(combined.body(), Script::from_vec(vec![]).body());
    assert_eq!(combined.to_string(), "#!/bin/bash\nset -euo pipefail\n\n");
}

#[test]
fn sum_of_one_script_is_that_script() {
    let combined = Script::sum(vec![Script::from_str("true")]);
    assert_eq!(combined.body(), "true");
}

#[test]
fn subshell_wraps_the_body_in_parentheses() {
    let script = Script::from_str("echo a").subshell();
    assert_eq!(script.body(), "(echo a)");
}

#[test]
fn words_with_quotes_are_double_quoted_and_escaped() {
    assert_eq!(quoted(&"it's $HOME".to_string()), "\"it's \\$HOME\"");
    assert_eq!(quoted(&String::new()), "''");
    assert_eq!(quoted(&"a=b".to_string()), "'a=b'");
}
