//! Showing a notification.
//!
//! A notification is shown on a best-effort basis. Where the platform has a
//! way to show one, the command asks the host to launch one process; whatever
//! comes of that, the command ends well. Elsewhere it asks for nothing.

use crate::error::CommandError;
use crate::quoting::{
    is_quote_mark, lemma_quoted_plain, lemma_quoted_reads_back, quote, quoted, read_quoted,
};
use crate::window::CallOutcome;
use vstd::prelude::*;
use vstd::string::*;

verus! {

/// The platform that the host runs on, as far as notifications care.
#[derive(Clone, Copy, Debug, PartialEq, Eq, Structural)]
pub enum Platform {
    /// Notifications are shown by a PowerShell script.
    Windows,
    /// No way to show a notification is known.
    Other,
}

/// A process for the host to launch: the program and its arguments, in order.
#[derive(Debug, PartialEq, Eq)]
pub struct ProcessCommand {
    pub program: String,
    pub arguments: Vec<String>,
}

/// A process launch as plain text.
pub struct CommandLine {
    pub program: Seq<char>,
    pub arguments: Seq<Seq<char>>,
}

impl View for ProcessCommand {
    type V = CommandLine;

    open spec fn view(&self) -> CommandLine {
        CommandLine { program: self.program@, arguments: self.arguments.deep_view() }
    }
}

/// The script that shows a notification: the command, and title and body as
/// two single-quoted texts with a comma between them. Title and body are
/// written with their quote marks doubled, so that each is read as text from
/// its first character to its last.
pub open spec fn toast_script(title: Seq<char>, body: Seq<char>) -> Seq<char> {
    "New-BurntToastNotification -Text '"@ + quoted(title) + "', '"@ + quoted(body) + "'"@
}

/// The two texts that a script hands to the notification, as PowerShell reads
/// them: what stands between the first pair of quotes, and what stands between
/// the second. `None` when the script is anything but the command, a quoted
/// text, a comma, a second quoted text and nothing more.
pub open spec fn operands(script: Seq<char>) -> Option<(Seq<char>, Seq<char>)> {
    let head = "New-BurntToastNotification -Text '"@;
    let between = ", '"@;
    if script.len() >= head.len() && script.take(head.len() as int) == head {
        match read_quoted(script.skip(head.len() as int)) {
            Some((first, rest)) => {
                if rest.len() >= between.len() && rest.take(between.len() as int) == between {
                    match read_quoted(rest.skip(between.len() as int)) {
                        Some((second, end)) => {
                            if end.len() == 0 {
                                Some((first, second))
                            } else {
                                None
                            }
                        },
                        None => None,
                    }
                } else {
                    None
                }
            },
            None => None,
        }
    } else {
        None
    }
}

/// Whatever title and body hold, the script carries them as text and as
/// nothing else: read as PowerShell reads it, the script is the command with
/// two quoted texts, and these are the title and the body, letter for letter.
pub proof fn lemma_script_carries_texts(title: Seq<char>, body: Seq<char>)
    ensures
        operands(toast_script(title, body)) == Some((title, body)),
{
    reveal_strlit("New-BurntToastNotification -Text '");
    reveal_strlit("', '");
    reveal_strlit(", '");
    reveal_strlit("'");
    let head = "New-BurntToastNotification -Text '"@;
    let between = ", '"@;
    let script = toast_script(title, body);
    let last = quoted(body) + seq!['\''];
    let middle = between + last;
    assert("', '"@ =~= seq!['\''] + between);
    assert("'"@ =~= seq!['\'']);
    assert(script =~= head + (quoted(title) + seq!['\''] + middle));
    assert(script.take(head.len() as int) =~= head);
    assert(script.skip(head.len() as int) =~= quoted(title) + seq!['\''] + middle);
    assert(middle[0] == ',');
    lemma_quoted_reads_back(title, middle);
    assert(middle.take(between.len() as int) =~= between);
    assert(middle.skip(between.len() as int) =~= quoted(body) + seq!['\''] + Seq::<char>::empty());
    lemma_quoted_reads_back(body, Seq::<char>::empty());
}

/// A title and a body without a quote mark stand in the script as they are.
pub proof fn lemma_plain_texts_stand_as_given(title: Seq<char>, body: Seq<char>)
    requires
        forall|i: int| 0 <= i < title.len() ==> !is_quote_mark(#[trigger] title[i]),
        forall|i: int| 0 <= i < body.len() ==> !is_quote_mark(#[trigger] body[i]),
    ensures
        toast_script(title, body) == "New-BurntToastNotification -Text '"@ + title + "', '"@ + body
            + "'"@,
{
    lemma_quoted_plain(title);
    lemma_quoted_plain(body);
}

/// The launch that shows a notification: PowerShell, told to run the script.
pub open spec fn toast_command(title: Seq<char>, body: Seq<char>) -> CommandLine {
    CommandLine { program: "powershell"@, arguments: seq!["-Command"@, toast_script(title, body)] }
}

/// What a notification command asks of the host on a platform: the launch of
/// the script on Windows, nothing elsewhere.
pub open spec fn attempt(platform: Platform, title: Seq<char>, body: Seq<char>) -> Option<
    CommandLine,
> {
    match platform {
        Platform::Windows => Some(toast_command(title, body)),
        Platform::Other => None,
    }
}

/// Starts a notification command: gives the process to launch, if the
/// platform has one for it.
pub fn begin(platform: Platform, title: &str, body: &str) -> (launch: Option<ProcessCommand>)
    ensures
        (match launch {
            Some(command) => attempt(platform, title@, body@) == Some(command@),
            None => attempt(platform, title@, body@) is None,
        }),
{
    match platform {
        Platform::Windows => {
            let mut script = String::from_str("New-BurntToastNotification -Text '");
            let quoted_title = quote(title);
            script.append(quoted_title.as_str());
            script.append("', '");
            let quoted_body = quote(body);
            script.append(quoted_body.as_str());
            script.append("'");
            let mut arguments: Vec<String> = Vec::new();
            arguments.push(String::from_str("-Command"));
            arguments.push(script);
            let command = ProcessCommand { program: String::from_str("powershell"), arguments };
            assert(command@.arguments =~= toast_command(title@, body@).arguments);
            Some(command)
        },
        Platform::Other => None,
    }
}

/// Ends a notification command. `outcome` is how the launch went, or `None`
/// where nothing was launched. The command ends well whichever it is: a
/// notification that could not be shown is no error.
pub fn finish(outcome: Option<CallOutcome>) -> (result: Result<(), CommandError>)
    ensures
        result == Ok::<(), CommandError>(()),
{
    match outcome {
        None => Ok(()),
        Some(CallOutcome::Completed) => Ok(()),
        Some(CallOutcome::Failed(_)) => Ok(()),
    }
}

} // verus!
