use std::cell::RefCell;

use daily_ruster_man::command_processor::{CommandOutput, CommandProcessor, CommandToExecute};
use daily_ruster_man::errors::AppError;
use daily_ruster_man::template::{
    parse_commmand_text, replace_template_placeholders, return_dummy_processed_command,
    PlaceholderMap, PlaceholderTemplate,
};

/// A scripted processor: answers with the dummy output for the command and
/// the stderr scripted for it, counting every invocation.
struct ScriptedProcessor {
    stderr_by_command: Vec<(String, String)>,
    calls: RefCell<Vec<String>>,
}

impl ScriptedProcessor {
    fn new(stderr_by_command: Vec<(&str, &str)>) -> Self {
        Self {
            stderr_by_command: stderr_by_command
                .into_iter()
                .map(|(c, e)| (c.to_string(), e.to_string()))
                .collect(),
            calls: RefCell::new(Vec::new()),
        }
    }

    fn calls_of(&self, command: &str) -> usize {
        self.calls.borrow().iter().filter(|c| c.as_str() == command).count()
    }
}

impl CommandProcessor for ScriptedProcessor {
    fn process(&self, command_text: &str) -> CommandOutput {
        self.calls.borrow_mut().push(command_text.to_string());
        let stderr = self
            .stderr_by_command
            .iter()
            .find(|(c, _)| c == command_text)
            .map(|(_, e)| e.clone());
        CommandOutput::new(return_dummy_processed_command(command_text), stderr)
    }
}

fn direct(text: &str) -> PlaceholderTemplate {
    PlaceholderTemplate::DirectValue(text.to_string())
}

fn command(text: &str) -> PlaceholderTemplate {
    PlaceholderTemplate::Commmand(CommandToExecute::new(text.to_string()))
}

fn sorted_errors(replacement: &daily_ruster_man::template::TemplateReplacement) -> Vec<(String, String)> {
    let mut errors: Vec<(String, String)> = replacement.errors().clone();
    errors.sort_by(|left, right| left.0.cmp(&right.0));
    errors
}

#[test]
fn should_complement_template_with_command_processor() {
    let given_templa = r#"
# for {hello}
## Uptime is {how_long}
- Uptime is now {how_long_now} and {echo_error}
## Uptime is {how_long} again
more {hello}
### Not {found}

Should inserted {how_long_error} even with errors
"#;
    let mut map = PlaceholderMap::new();
    map.insert("hello".to_string(), direct("world"));
    map.insert("how_long".to_string(), command("uptime"));
    map.insert("not_to_be_inserted".to_string(), command("oh_oh"));
    map.insert("how_long_error".to_string(), command("uptime xxx"));
    map.insert("echo_error".to_string(), command("echo"));
    map.insert("how_long_now".to_string(), command("uptime now"));

    let processor = ScriptedProcessor::new(vec![
        ("uptime xxx", "error"),
        ("echo", "mistake: did something wrong"),
    ]);

    // Act
    let actual = replace_template_placeholders(given_templa, &mut map, &processor);
    let output = actual.replacement();

    let expected = r#"
# for world
## Uptime is Executed_uptime
- Uptime is now Executed_uptime_now and Executed_echo
## Uptime is Executed_uptime again
more world
### Not {found}

Should inserted Executed_uptime_xxx even with errors
"#;
    assert_eq!(expected, output);

    let errors = sorted_errors(&actual);
    assert_eq!(
        errors,
        vec![
            ("echo_error".to_string(), "mistake: did something wrong".to_string()),
            ("how_long_error".to_string(), "error".to_string()),
        ]
    );

    // The doubly referenced command ran once, the unreferenced one never.
    assert_eq!(processor.calls_of("uptime"), 1);
    assert_eq!(processor.calls_of("oh_oh"), 0);
}

#[test]
fn should_invoke_only_once_command() {
    let command_text = "echo 'hello world'";

    let expected_error = "Some error";
    let expected_stdout = "Executed_echo_hello world";

    let processor = ScriptedProcessor::new(vec![(command_text, expected_error)]);

    // Act
    let mut actual = CommandToExecute::new(command_text.to_string());

    // Testing if command is executed only once
    let _ = actual.get_std_out(&processor);

    // Assertion
    let actual_stdout = actual.get_std_out(&processor);
    assert_eq!(expected_stdout, actual_stdout);

    let actual_strerr = actual.get_std_err(&processor);
    assert_eq!(
        expected_error,
        actual_strerr.expect("expected stderr should not be none")
    );

    assert_eq!(processor.calls_of(command_text), 1);
}

#[test]
fn substitutes_literals_and_command_output() {
    let template = "# for {hello}\n## Uptime is {how_long}";
    let mut map = PlaceholderMap::new();
    map.insert("hello".to_string(), direct("world"));
    map.insert("how_long".to_string(), command("uptime"));
    let processor = ScriptedProcessor::new(vec![]);

    let actual = replace_template_placeholders(template, &mut map, &processor);

    assert_eq!(actual.replacement(), "# for world\n## Uptime is Executed_uptime");
    assert!(actual.errors().is_empty());
}

#[test]
fn unknown_placeholder_passes_through_verbatim() {
    let template = "keep {not_in_map} and { also_this } as they are";
    let mut map = PlaceholderMap::new();
    map.insert("other".to_string(), direct("value"));
    let processor = ScriptedProcessor::new(vec![]);

    let actual = replace_template_placeholders(template, &mut map, &processor);

    assert_eq!(actual.replacement(), template);
    assert!(actual.errors().is_empty());
}

#[test]
fn whitespace_inside_braces_is_ignored() {
    let template = "a { hello } b {\thello\t} c";
    let mut map = PlaceholderMap::new();
    map.insert("hello".to_string(), direct("world"));
    let processor = ScriptedProcessor::new(vec![]);

    let actual = replace_template_placeholders(template, &mut map, &processor);
    assert_eq!(actual.replacement(), "a world b world c");
}

#[test]
fn command_referenced_twice_runs_once() {
    let template = "{tick} and {tick}";
    let mut map = PlaceholderMap::new();
    map.insert("tick".to_string(), command("uptime"));
    let processor = ScriptedProcessor::new(vec![]);

    let actual = replace_template_placeholders(template, &mut map, &processor);

    assert_eq!(actual.replacement(), "Executed_uptime and Executed_uptime");
    assert_eq!(processor.calls_of("uptime"), 1);
}

#[test]
fn erring_command_still_substitutes_and_reports_once() {
    let template = "{noisy} again {noisy}";
    let mut map = PlaceholderMap::new();
    map.insert("noisy".to_string(), command("uptime"));
    let processor = ScriptedProcessor::new(vec![("uptime", "boom")]);

    let actual = replace_template_placeholders(template, &mut map, &processor);

    assert_eq!(actual.replacement(), "Executed_uptime again Executed_uptime");
    assert_eq!(
        actual.errors().clone(),
        vec![("noisy".to_string(), "boom".to_string())]
    );
}

#[test]
fn command_text_parses_by_shell_word_rules() {
    assert_eq!(
        parse_commmand_text("echo 'hello world' now").unwrap(),
        vec!["echo", "hello world", "now"]
    );
    assert_eq!(
        parse_commmand_text("echo 'oops").unwrap_err(),
        AppError::MismatchedQuotes
    );
    assert_eq!(
        daily_ruster_man::template::dummy_processed_command("echo 'oops"),
        None
    );
    assert_eq!(
        daily_ruster_man::template::dummy_processed_command("uptime now").unwrap(),
        "Executed_uptime_now"
    );
}
