//! Levelled messages and how they are written out.
use vstd::prelude::*;
use vstd::string::*;

verus! {

/// How severe a message is.
#[derive(Clone, Copy, Debug, PartialEq, Eq, Structural)]
pub enum Level {
    /// Development-time detail.
    Debug,
    /// Information for the user.
    Info,
    /// Something went well.
    Success,
    /// A failure may be near.
    Warning,
    /// Something failed.
    Error,
}

impl Level {
    /// The lower-case name under which the level is written out.
    pub open spec fn label(self) -> Seq<char> {
        match self {
            Level::Debug => "debug"@,
            Level::Info => "info"@,
            Level::Success => "success"@,
            Level::Warning => "warning"@,
            Level::Error => "error"@,
        }
    }

    /// The level's lower-case name.
    pub fn as_str(self) -> (name: &'static str)
        ensures
            name@ == self.label(),
    {
        match self {
            Level::Debug => "debug",
            Level::Info => "info",
            Level::Success => "success",
            Level::Warning => "warning",
            Level::Error => "error",
        }
    }
}

/// What a [`Message`] is to a contract: its level and the characters of its
/// text.
pub struct MessageView {
    pub level: Level,
    pub text: Seq<char>,
}

impl MessageView {
    /// The message written out: level, colon, space, text.
    pub open spec fn rendered(self) -> Seq<char> {
        self.level.label() + ": "@ + self.text
    }
}

/// One notification: a level and a text. It is never changed once made.
#[derive(Debug, PartialEq, Eq)]
pub struct Message {
    pub level: Level,
    pub text: String,
}

impl View for Message {
    type V = MessageView;

    open spec fn view(&self) -> MessageView {
        MessageView { level: self.level, text: self.text@ }
    }
}

impl Clone for Message {
    fn clone(&self) -> (copy: Self)
        ensures
            copy@ == self@,
    {
        Message { level: self.level, text: self.text.clone() }
    }
}

impl Message {
    /// A message of the given level with the given text.
    pub fn new(level: Level, text: &str) -> (message: Message)
        ensures
            message@ == (MessageView { level, text: text@ }),
    {
        Message { level, text: String::from_str(text) }
    }

    /// The message written out as `level: text`.
    pub fn render(&self) -> (line: String)
        ensures
            line@ == self@.rendered(),
    {
        let mut line = String::from_str(self.level.as_str());
        line.append(": ");
        line.append(self.text.as_str());
        line
    }
}

/// The views of a run of messages, in the same order.
pub open spec fn views_of(messages: Seq<Message>) -> Seq<MessageView> {
    messages.map_values(|m: Message| m@)
}

/// The messages of `messages`, each written out, with `", "` between
/// neighbours. Empty for no messages.
pub open spec fn joined(messages: Seq<MessageView>) -> Seq<char>
    decreases messages.len(),
{
    if messages.len() == 0 {
        Seq::empty()
    } else if messages.len() == 1 {
        messages[0].rendered()
    } else {
        joined(messages.drop_last()) + ", "@ + messages.last().rendered()
    }
}

/// What is shown when there is nothing to show.
pub open spec fn placeholder() -> Seq<char> {
    "No messages yet!"@
}

/// The text shown for `messages`: the joined list, or the placeholder where
/// the list is empty.
pub open spec fn listing(messages: Seq<MessageView>) -> Seq<char> {
    if messages.len() == 0 {
        placeholder()
    } else {
        joined(messages)
    }
}

/// Writes `messages` out in order, joined by `", "`.
pub fn join_messages(messages: &Vec<Message>) -> (text: String)
    ensures
        text@ == joined(views_of(messages@)),
{
    let ghost views = views_of(messages@);
    let mut text = String::new();
    let mut i: usize = 0;
    while i < messages.len()
        invariant
            i <= messages.len(),
            views == views_of(messages@),
            text@ == joined(views.take(i as int)),
        decreases messages.len() - i,
    {
        let line = messages[i].render();
        proof {
            let next = views.take(i + 1);
            assert(next.drop_last() == views.take(i as int));
            assert(next.last() == messages[i as int]@);
            if i == 0 {
                assert(text@ + line@ == line@);
            }
        }
        if i > 0 {
            text.append(", ");
        }
        text.append(line.as_str());
        i += 1;
    }
    proof {
        assert(views.take(i as int) == views);
    }
    text
}

/// The text shown for `messages`: each as `level: text`, joined by `", "`,
/// or the placeholder where there is none.
pub fn render_listing(messages: &Vec<Message>) -> (text: String)
    ensures
        text@ == listing(views_of(messages@)),
{
    if messages.len() == 0 {
        String::from_str("No messages yet!")
    } else {
        join_messages(messages)
    }
}

} // verus!
