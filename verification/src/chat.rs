use vstd::prelude::*;
use crate::chars::same_text;
use crate::text::{trim, trimmed};

verus! {

/// What the chat shows when it starts.
pub const WELCOME: &'static str =
    "Welcome to Pokidex RAG Agent!\nAsk me anything about Pokemon. Type 'quit' or 'exit' to leave.\n";

/// What the chat shows on `help`.
pub const HELP: &'static str =
    "Ask me questions about Pokemon! Examples:\n  - What are Pikachu's stats?\n  - What type is Charizard?\n  - What moves can Pikachu learn?\n  - You can also run: pokidex identify-image ./pokemon.png\n  - Or open file picker: pokidex select-image\n\nType 'quit' or 'exit' to leave.\n";

/// What the chat shows when it ends.
pub const GOODBYE: &'static str = "Goodbye!";

/// What the chat shows after a question that failed.
pub const RETRY: &'static str = "Please try again or type 'help' for examples.";

/// What a line typed into the chat asks for.
#[derive(Debug, PartialEq, Eq)]
pub enum ChatCommand {
    /// Nothing: the line is empty.
    Skip,
    /// To leave the chat.
    Quit,
    /// To be shown the help.
    Help,
    /// An answer to this question.
    Ask(String),
}

/// A chat command as a mathematical value.
pub enum ChatCommandView {
    Skip,
    Quit,
    Help,
    Ask(Seq<char>),
}

impl View for ChatCommand {
    type V = ChatCommandView;

    open spec fn view(&self) -> ChatCommandView {
        match self {
            ChatCommand::Skip => ChatCommandView::Skip,
            ChatCommand::Quit => ChatCommandView::Quit,
            ChatCommand::Help => ChatCommandView::Help,
            ChatCommand::Ask(question) => ChatCommandView::Ask(question@),
        }
    }
}

/// What `line` asks for, once the white space around it is set aside: `quit`
/// and `exit` leave, `help` shows the help, an empty line does nothing, and
/// anything else is a question.
pub open spec fn chat_command(line: Seq<char>) -> ChatCommandView {
    let words = trimmed(line);
    if words.len() == 0 {
        ChatCommandView::Skip
    } else if words == "quit"@ || words == "exit"@ {
        ChatCommandView::Quit
    } else if words == "help"@ {
        ChatCommandView::Help
    } else {
        ChatCommandView::Ask(words)
    }
}

impl ChatCommand {
    /// Whether the command ends the chat. Only `quit` and `exit` do: after an
    /// empty line, the help or a question, answered or failed, the chat goes
    /// on.
    pub fn leaves(&self) -> (leaves: bool)
        ensures
            leaves == (self@ is Quit),
    {
        match self {
            ChatCommand::Quit => true,
            _ => false,
        }
    }

    /// Reads one line of the chat.
    pub fn parse(line: &str) -> (command: ChatCommand)
        ensures
            command@ == chat_command(line@),
    {
        let words = trim(line);
        if words.as_str().unicode_len() == 0 {
            ChatCommand::Skip
        } else if same_text(words.as_str(), "quit") || same_text(words.as_str(), "exit") {
            ChatCommand::Quit
        } else if same_text(words.as_str(), "help") {
            ChatCommand::Help
        } else {
            ChatCommand::Ask(words)
        }
    }
}

/// What the chat shows after a question: a line on the standard output and,
/// where the question failed, a line on the standard error before it.
#[derive(Debug, PartialEq, Eq)]
pub struct ChatReply {
    pub shown: String,
    pub error: Option<String>,
}

/// A reply as a mathematical value.
pub struct ChatReplyView {
    pub shown: Seq<char>,
    pub error: Option<Seq<char>>,
}

impl View for ChatReply {
    type V = ChatReplyView;

    open spec fn view(&self) -> ChatReplyView {
        ChatReplyView {
            shown: self.shown@,
            error: match self.error {
                Some(e) => Some(e@),
                None => None,
            },
        }
    }
}

/// What the chat shows after a question: the answer, or, where the question
/// failed with `message`, the error and the invitation to try again.
pub open spec fn chat_reply(outcome: Result<Seq<char>, Seq<char>>) -> ChatReplyView {
    match outcome {
        Ok(answer) => ChatReplyView { shown: answer, error: None },
        Err(message) => ChatReplyView { shown: RETRY@, error: Some("Error: "@ + message) },
    }
}

impl ChatReply {
    /// What the chat shows after a question that ended with `outcome`: the
    /// answer, or the message of the failure.
    pub fn after(outcome: Result<String, String>) -> (reply: ChatReply)
        ensures
            reply@ == chat_reply(
                match outcome {
                    Ok(answer) => Ok(answer@),
                    Err(message) => Err(message@),
                },
            ),
    {
        match outcome {
            Ok(answer) => ChatReply { shown: answer, error: None },
            Err(message) => {
                let mut error = String::new();
                error.append("Error: ");
                error.append(message.as_str());
                assert(error@ == "Error: "@ + message@);
                ChatReply { shown: RETRY.to_owned(), error: Some(error) }
            },
        }
    }
}

/// Only a question reaches the engine.
pub proof fn lemma_only_questions_are_asked(line: Seq<char>)
    ensures
        chat_command(line) matches ChatCommandView::Ask(question) ==> {
            &&& question == trimmed(line)
            &&& question.len() > 0
            &&& question != "quit"@
            &&& question != "exit"@
            &&& question != "help"@
        },
{
}

} // verus!
