use terminal_panel::dock::IconName;
use terminal_panel::slash_command::{
    prompt_text, DefaultSlashCommand, SlashCommandError, SlashCommandEvent,
};

fn titles(list: &[Option<&str>]) -> Vec<Option<String>> {
    list.iter().map(|title| title.map(|t| t.to_string())).collect()
}

#[test]
fn no_default_prompt_gives_one_blank_line() {
    assert_eq!(prompt_text(&Vec::new()), "\n");
}

#[test]
fn two_default_prompts_give_two_lines() {
    assert_eq!(prompt_text(&titles(&[Some("A"), Some("B")])), "/prompt A\n/prompt B");
}

#[test]
fn one_default_prompt_gives_one_line() {
    assert_eq!(prompt_text(&titles(&[Some("Rust style")])), "/prompt Rust style");
}

#[test]
fn prompts_without_a_title_are_passed_over() {
    assert_eq!(prompt_text(&titles(&[None, Some("A"), None, Some("B"), None])), "/prompt A\n/prompt B");
    assert_eq!(prompt_text(&titles(&[None, None])), "\n");
}

#[test]
fn an_empty_title_still_gives_a_line() {
    assert_eq!(prompt_text(&titles(&[Some("")])), "/prompt ");
    assert_eq!(prompt_text(&titles(&[Some(""), Some("B")])), "/prompt \n/prompt B");
}

#[test]
fn the_command_puts_out_one_section() {
    let events = DefaultSlashCommand.run(&Vec::new(), &titles(&[Some("A"), Some("B")]));
    assert_eq!(
        events,
        vec![
            SlashCommandEvent::StartSection {
                icon: IconName::Library,
                label: "Default".to_string()
            },
            SlashCommandEvent::Content {
                text: "/prompt A\n/prompt B".to_string(),
                run_commands_in_text: true
            },
            SlashCommandEvent::EndSection,
        ]
    );
}

#[test]
fn the_command_without_prompts_puts_out_a_blank_line() {
    let events = DefaultSlashCommand.run(&Vec::new(), &Vec::new());
    assert_eq!(events.len(), 3);
    assert_eq!(
        events[1],
        SlashCommandEvent::Content { text: "\n".to_string(), run_commands_in_text: true }
    );
}

#[test]
fn the_command_does_not_read_its_arguments() {
    let with = DefaultSlashCommand.run(&vec!["x".to_string()], &titles(&[Some("A")]));
    let without = DefaultSlashCommand.run(&Vec::new(), &titles(&[Some("A")]));
    assert_eq!(with, without);
}

#[test]
fn the_command_describes_itself() {
    assert_eq!(DefaultSlashCommand.name(), "default");
    assert_eq!(DefaultSlashCommand.description(), "insert default prompt");
    assert_eq!(DefaultSlashCommand.menu_text(), "Insert Default Prompt");
    assert!(!DefaultSlashCommand.requires_argument());
}

#[test]
fn no_argument_is_accepted() {
    assert_eq!(
        DefaultSlashCommand.complete_argument(&Vec::new()),
        Err(SlashCommandError::ArgumentNotAccepted)
    );
    assert_eq!(
        DefaultSlashCommand.complete_argument(&vec!["a".to_string(), "b".to_string()]),
        Err(SlashCommandError::ArgumentNotAccepted)
    );
    assert_eq!(
        SlashCommandError::ArgumentNotAccepted.message(),
        "this command does not require argument"
    );
}
