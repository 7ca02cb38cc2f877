//! The slash command that brings the default prompts into an assistant context.

use crate::dock::IconName;
use crate::text::joined;
use vstd::prelude::*;
use vstd::string::StringExecFns;

verus! {

/// The slash command `default`: it takes no argument and writes one `/prompt` line for each
/// default prompt.
#[derive(Debug, Clone, Copy, PartialEq, Eq, Structural)]
pub struct DefaultSlashCommand;

/// Why a slash command turns a request down.
#[derive(Debug, Clone, Copy, PartialEq, Eq, Structural)]
pub enum SlashCommandError {
    /// The command takes no argument.
    ArgumentNotAccepted,
}

/// A way to complete the argument of a slash command.
#[derive(Debug, Clone, PartialEq, Eq)]
pub struct ArgumentCompletion {
    /// What the menu shows.
    pub label: String,
    /// What the argument becomes.
    pub new_text: String,
    /// Whether the command runs once the completion is taken.
    pub run_command: bool,
}

/// A piece of what a slash command puts out.
#[derive(Debug, Clone, PartialEq, Eq)]
pub enum SlashCommandEvent {
    /// A section begins.
    StartSection { icon: IconName, label: String },
    /// Text inside the section.
    Content { text: String, run_commands_in_text: bool },
    /// The section ends.
    EndSection,
}

/// [`SlashCommandEvent`] as a mathematical value.
pub enum SlashCommandEventView {
    StartSection { icon: IconName, label: Seq<char> },
    Content { text: Seq<char>, run_commands_in_text: bool },
    EndSection,
}

impl View for SlashCommandEvent {
    type V = SlashCommandEventView;

    open spec fn view(&self) -> SlashCommandEventView {
        match self {
            SlashCommandEvent::StartSection { icon, label } => SlashCommandEventView::StartSection {
                icon: *icon,
                label: label@,
            },
            SlashCommandEvent::Content { text, run_commands_in_text } => {
                SlashCommandEventView::Content {
                    text: text@,
                    run_commands_in_text: *run_commands_in_text,
                }
            },
            SlashCommandEvent::EndSection => SlashCommandEventView::EndSection,
        }
    }
}

impl DeepView for SlashCommandEvent {
    type V = SlashCommandEventView;

    open spec fn deep_view(&self) -> SlashCommandEventView {
        self@
    }
}

/// The lines for the default prompts: `/prompt` and the title, for each prompt that has a
/// title, in the order of the prompts.
pub open spec fn prompt_lines(titles: Seq<Option<Seq<char>>>) -> Seq<Seq<char>>
    decreases titles.len(),
{
    if titles.len() == 0 {
        Seq::empty()
    } else {
        match titles.last() {
            Some(title) => prompt_lines(titles.drop_last()).push("/prompt "@ + title),
            None => prompt_lines(titles.drop_last()),
        }
    }
}

/// The text that the command puts out: the lines, each on its own, or one blank line where
/// there are none.
pub open spec fn default_prompt_text(titles: Seq<Option<Seq<char>>>) -> Seq<char> {
    if prompt_lines(titles).len() == 0 {
        "\n"@
    } else {
        joined(prompt_lines(titles), "\n"@)
    }
}

/// What the command puts out for the given titles: one section, labelled `Default`, that
/// holds the text, in which commands are run.
pub open spec fn default_prompt_events(titles: Seq<Option<Seq<char>>>) -> Seq<
    SlashCommandEventView,
> {
    seq![
        SlashCommandEventView::StartSection { icon: IconName::Library, label: "Default"@ },
        SlashCommandEventView::Content {
            text: default_prompt_text(titles),
            run_commands_in_text: true,
        },
        SlashCommandEventView::EndSection,
    ]
}

/// Writes the text for the given titles: see [`default_prompt_text`].
pub fn prompt_text(titles: &Vec<Option<String>>) -> (text: String)
    ensures
        text@ == default_prompt_text(titles.deep_view()),
{
    let ghost all = titles.deep_view();
    let mut text = String::new();
    let mut empty = true;
    let mut i: usize = 0;
    while i < titles.len()
        invariant
            i <= titles.len(),
            all == titles.deep_view(),
            empty == (prompt_lines(all.take(i as int)).len() == 0),
            text@ == joined(prompt_lines(all.take(i as int)), "\n"@),
        decreases titles.len() - i,
    {
        let ghost lines = prompt_lines(all.take(i as int));
        assert(all.take(i + 1).drop_last() =~= all.take(i as int));
        assert(all.take(i + 1).last() == titles[i as int].deep_view());
        match &titles[i] {
            Some(title) => {
                if !empty {
                    text.append("\n");
                }
                text.append("/prompt ");
                text.append(title.as_str());
                empty = false;
                let ghost line = "/prompt "@ + title@;
                assert(prompt_lines(all.take(i + 1)) == lines.push(line));
                assert(lines.push(line).drop_last() =~= lines);
                assert(text@ =~= joined(lines.push(line), "\n"@));
            },
            None => {},
        }
        i += 1;
    }
    assert(all.take(i as int) =~= all);
    if empty {
        text.append("\n");
        assert(text@ =~= "\n"@);
    }
    text
}

impl DefaultSlashCommand {
    /// The name by which the command is called.
    pub fn name(&self) -> (name: String)
        ensures
            name@ == "default"@,
    {
        String::from_str("default")
    }

    /// What the command does, in a few words.
    pub fn description(&self) -> (description: String)
        ensures
            description@ == "insert default prompt"@,
    {
        String::from_str("insert default prompt")
    }

    /// The command's entry in the menu.
    pub fn menu_text(&self) -> (text: String)
        ensures
            text@ == "Insert Default Prompt"@,
    {
        String::from_str("Insert Default Prompt")
    }

    /// The command takes no argument.
    pub fn requires_argument(&self) -> (required: bool)
        ensures
            !required,
    {
        false
    }

    /// There is no argument to complete: whatever was typed, it is not accepted.
    pub fn complete_argument(&self, arguments: &Vec<String>) -> (completions: Result<
        Vec<ArgumentCompletion>,
        SlashCommandError,
    >)
        ensures
            completions matches Err(error) && error == SlashCommandError::ArgumentNotAccepted,
    {
        Err(SlashCommandError::ArgumentNotAccepted)
    }

    /// Runs the command on the titles of the default prompts, `None` standing for a prompt
    /// without a title. The arguments are not read.
    pub fn run(&self, arguments: &Vec<String>, titles: &Vec<Option<String>>) -> (events: Vec<
        SlashCommandEvent,
    >)
        ensures
            events.deep_view() == default_prompt_events(titles.deep_view()),
    {
        let mut events: Vec<SlashCommandEvent> = Vec::new();
        events.push(
            SlashCommandEvent::StartSection {
                icon: IconName::Library,
                label: String::from_str("Default"),
            },
        );
        events.push(
            SlashCommandEvent::Content { text: prompt_text(titles), run_commands_in_text: true },
        );
        events.push(SlashCommandEvent::EndSection);
        assert(events.deep_view() =~= default_prompt_events(titles.deep_view()));
        events
    }
}

impl SlashCommandError {
    /// The error in words.
    pub fn message(&self) -> (message: String)
        ensures
            message@ == "this command does not require argument"@,
    {
        String::from_str("this command does not require argument")
    }
}

} // verus!
