//! The state of the in-game interface and the events that change it.
use crate::text::string_clear;
use std::collections::VecDeque;
use vstd::prelude::*;

verus! {

/// The most chat lines the interface keeps.
pub const MAX_CHAT_LINES: usize = 12;

/// The pages of the menu.
#[derive(Clone, Copy, Debug, PartialEq, Eq, Structural)]
pub enum MenuPage {
    Main,
}

/// What the interface shows, and the chat it holds.
#[derive(Clone, Debug)]
pub struct UiState {
    pub show_fps: bool,
    pub show_version: bool,
    pub show_chat: bool,
    pub show_menu: bool,
    pub menupage: MenuPage,
    /// The received chat lines, as (alias, message), newest first.
    pub chat_lines: VecDeque<(String, String)>,
    /// The chat message being typed.
    pub chat_message: String,
}

/// An event that the interface sends to itself.
pub enum UiInternalEvent {
    /// The chat input now reads this text.
    UpdateChatText(String),
    /// A chat message arrived, from an alias.
    NewChatMessage(String, String),
    /// The typed chat message is to be sent.
    SendChat,
}

/// The chat lines after `line` arrives at `lines`: it goes in front, and the
/// oldest line is dropped when `MAX_CHAT_LINES` are already held.
pub open spec fn spec_receive_line(lines: Seq<(String, String)>, line: (String, String)) -> Seq<
    (String, String),
> {
    if lines.len() >= MAX_CHAT_LINES {
        seq![line] + lines.drop_last()
    } else {
        seq![line] + lines
    }
}

/// The chat lines after the lines of `incoming` arrive at `lines`, in
/// order.
pub open spec fn spec_receive_all(lines: Seq<(String, String)>, incoming: Seq<(String, String)>) -> Seq<
    (String, String),
>
    decreases incoming.len(),
{
    if incoming.len() == 0 {
        lines
    } else {
        spec_receive_all(spec_receive_line(lines, incoming[0]), incoming.drop_first())
    }
}

/// The smaller of `a` and `b`.
pub open spec fn min_int(a: int, b: int) -> int {
    if a <= b {
        a
    } else {
        b
    }
}

/// The chat keeps the newest lines first: after any lines arrive, it holds
/// the newest `MAX_CHAT_LINES` of the arrived lines (newest first) followed
/// by the lines it held.
pub proof fn lemma_chat_newest_first(lines: Seq<(String, String)>, incoming: Seq<(String, String)>)
    requires
        lines.len() <= MAX_CHAT_LINES,
    ensures
        spec_receive_all(lines, incoming) == (incoming.reverse() + lines).take(
            min_int(MAX_CHAT_LINES as int, (incoming.len() + lines.len()) as int),
        ),
    decreases incoming.len(),
{
    if incoming.len() == 0 {
        assert(incoming.reverse() + lines =~= lines);
        assert(lines.take(lines.len() as int) =~= lines);
    } else {
        let first = incoming[0];
        let rest = incoming.drop_first();
        let next = spec_receive_line(lines, first);
        assert(next =~= (seq![first] + lines).take(min_int(MAX_CHAT_LINES as int, (lines.len() + 1) as int)));
        lemma_chat_newest_first(next, rest);
        assert(incoming.reverse() =~= rest.reverse() + seq![first]);
        assert((rest.reverse() + next).take(min_int(MAX_CHAT_LINES as int, (rest.len() + next.len()) as int)) =~= (
        incoming.reverse() + lines).take(min_int(MAX_CHAT_LINES as int, (incoming.len() + lines.len()) as int)));
    }
}

impl UiState {
    /// The state at the start of a game: frame rate and version shown, chat
    /// and menu hidden, no chat lines and nothing typed.
    pub fn normal_game() -> (r: Self)
        ensures
            r.show_fps,
            r.show_version,
            !r.show_chat,
            !r.show_menu,
            r.menupage == MenuPage::Main,
            r.chat_lines@ == Seq::<(String, String)>::empty(),
            r.chat_message@ == Seq::<char>::empty(),
    {
        Self {
            show_fps: true,
            show_version: true,
            show_chat: false,
            show_menu: false,
            menupage: MenuPage::Main,
            chat_lines: VecDeque::with_capacity(MAX_CHAT_LINES),
            chat_message: String::new(),
        }
    }

    /// The interface holds at most `MAX_CHAT_LINES` chat lines.
    pub open spec fn chat_bounded(&self) -> bool {
        self.chat_lines@.len() <= MAX_CHAT_LINES
    }

    /// Applies an internal event. Returns the chat message to send to the
    /// server, if the event sends one.
    pub fn handle_internal_event(&mut self, event: UiInternalEvent) -> (sent: Option<String>)
        ensures
            final(self).show_fps == old(self).show_fps,
            final(self).show_version == old(self).show_version,
            final(self).show_chat == old(self).show_chat,
            final(self).show_menu == old(self).show_menu,
            final(self).menupage == old(self).menupage,
            old(self).chat_bounded() ==> final(self).chat_bounded(),
            match event {
                UiInternalEvent::UpdateChatText(edit) => {
                    &&& sent is None
                    &&& final(self).chat_message == edit
                    &&& final(self).chat_lines@ == old(self).chat_lines@
                },
                UiInternalEvent::NewChatMessage(alias, msg) => {
                    &&& sent is None
                    &&& final(self).chat_message == old(self).chat_message
                    &&& final(self).chat_lines@ == spec_receive_line(
                        old(self).chat_lines@,
                        (alias, msg),
                    )
                },
                UiInternalEvent::SendChat => {
                    &&& final(self).chat_lines@ == old(self).chat_lines@
                    &&& if old(self).chat_message@.len() == 0 {
                        &&& sent is None
                        &&& final(self).chat_message == old(self).chat_message
                    } else {
                        &&& sent == Some(old(self).chat_message)
                        &&& final(self).chat_message@ == Seq::<char>::empty()
                    }
                },
            },
    {
        match event {
            UiInternalEvent::UpdateChatText(edit) => {
                self.chat_message = edit;
                None
            },
            UiInternalEvent::NewChatMessage(alias, msg) => {
                if self.chat_lines.len() >= MAX_CHAT_LINES {
                    self.chat_lines.pop_back();
                }
                self.chat_lines.push_front((alias, msg));
                None
            },
            UiInternalEvent::SendChat => {
                if !self.chat_message.as_str().is_empty() {
                    let msg = self.chat_message.clone();
                    string_clear(&mut self.chat_message);
                    Some(msg)
                } else {
                    None
                }
            },
        }
    }
}

} // verus!
