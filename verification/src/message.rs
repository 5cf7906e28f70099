//! What an installation run reports while it works.

use vstd::prelude::*;

verus! {

/// The progress at which an installation is done, in thousandths.
pub const FULL_PROGRESS: u32 = 1000;

/// A report from an installation run. Progress is counted in thousandths of
/// the whole installation.
#[derive(Debug, PartialEq)]
pub enum InstallMessage {
    Progress(u32),
    Status(String),
    Completed,
    Error(String),
}

/// An [`InstallMessage`] as a mathematical value.
pub enum MessageView {
    Progress(int),
    Status(Seq<char>),
    Completed,
    Error(Seq<char>),
}

impl View for InstallMessage {
    type V = MessageView;

    open spec fn view(&self) -> MessageView {
        match self {
            InstallMessage::Progress(p) => MessageView::Progress(*p as int),
            InstallMessage::Status(s) => MessageView::Status(s@),
            InstallMessage::Completed => MessageView::Completed,
            InstallMessage::Error(e) => MessageView::Error(e@),
        }
    }
}

/// The messages of a list, in order.
pub open spec fn message_views(messages: Seq<InstallMessage>) -> Seq<MessageView> {
    messages.map_values(|m: InstallMessage| m@)
}

/// No message.
pub fn no_messages() -> (messages: Vec<InstallMessage>)
    ensures
        message_views(messages@) == Seq::<MessageView>::empty(),
{
    let messages: Vec<InstallMessage> = Vec::new();
    assert(message_views(messages@) =~= Seq::<MessageView>::empty());
    messages
}

/// Puts `message` behind the others.
pub fn add_message(messages: &mut Vec<InstallMessage>, message: InstallMessage)
    ensures
        message_views(final(messages)@) == message_views(old(messages)@).push(message@),
{
    let ghost before = messages@;
    messages.push(message);
    assert(message_views(messages@) =~= message_views(before).push(message@));
}

} // verus!
