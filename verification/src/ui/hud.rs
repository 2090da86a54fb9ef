//! The heads-up display: the chat box, the chat input and the events they
//! raise.
use crate::text::{string_clear, string_pop, string_push};
use vstd::prelude::*;

verus! {

/// What the display asks of the game.
pub enum HudEvent {
    /// The player sent a chat message.
    ChatMsgSent { text: String },
}

/// The text a display event carries.
pub open spec fn event_text(e: HudEvent) -> Seq<char> {
    match e {
        HudEvent::ChatMsgSent { text } => text@,
    }
}

/// An input event as the display sees it.
#[derive(Clone, Copy, Debug, PartialEq, Eq, Structural)]
pub enum HudInput {
    /// A character was typed.
    Character(char),
    /// A key went up or down.
    KeyboardInput,
    /// Anything else: the cursor, the mouse, the window.
    Other,
}

/// Enter, as a typed character: a line feed or a carriage return.
pub open spec fn is_return(ch: char) -> bool {
    ch == '\n' || ch == '\r'
}

/// What input changes in the display: whether chat is open, the text
/// typed, and the texts of the pending events.
pub type InputState = (bool, Seq<char>, Seq<Seq<char>>);

/// The display after an input event, and whether it used the event.
pub open spec fn spec_hud_step(s: InputState, e: HudInput) -> (InputState, bool) {
    match e {
        HudInput::Character(ch) => if s.0 {
            (
                (
                    !is_return(ch),
                    spec_typed(s.1, ch),
                    if is_return(ch) {
                        s.2.push(s.1)
                    } else {
                        s.2
                    },
                ),
                true,
            )
        } else {
            ((is_return(ch), s.1, s.2), is_return(ch))
        },
        HudInput::KeyboardInput => (s, s.0),
        HudInput::Other => (s, false),
    }
}

/// The display after the characters of `line` are typed, one after the
/// other.
pub open spec fn spec_hud_type(s: InputState, line: Seq<char>) -> InputState
    decreases line.len(),
{
    if line.len() == 0 {
        s
    } else {
        spec_hud_type(spec_hud_step(s, HudInput::Character(line[0])).0, line.drop_first())
    }
}

/// A character that neither ends nor edits a line.
pub open spec fn plain(c: char) -> bool {
    !is_return(c) && c != '\x08'
}

proof fn lemma_typing(text: Seq<char>, events: Seq<Seq<char>>, line: Seq<char>)
    requires
        forall|i: int| 0 <= i < line.len() ==> plain(#[trigger] line[i]),
    ensures
        spec_hud_type((true, text, events), line) == (true, text + line, events),
    decreases line.len(),
{
    if line.len() == 0 {
        assert(text + line =~= text);
    } else {
        assert(plain(line[0]));
        lemma_typing(text.push(line[0]), events, line.drop_first());
        assert(text.push(line[0]) + line.drop_first() =~= text + line);
    }
}

/// Enter, a line of plain characters, and Enter again, typed into a display
/// with chat closed and nothing typed, send that line and leave chat
/// closed with nothing typed.
pub proof fn lemma_line_is_sent(events: Seq<Seq<char>>, line: Seq<char>)
    requires
        forall|i: int| 0 <= i < line.len() ==> plain(#[trigger] line[i]),
    ensures
        spec_hud_step(
            spec_hud_type(spec_hud_step((false, Seq::empty(), events), HudInput::Character('\n')).0, line),
            HudInput::Character('\n'),
        ).0 == (false, Seq::<char>::empty(), events.push(line)),
{
    lemma_typing(Seq::empty(), events, line);
    assert(Seq::<char>::empty() + line =~= line);
}

/// Backspace takes back a plain character just typed.
pub proof fn lemma_backspace_undoes(text: Seq<char>, c: char)
    requires
        plain(c),
    ensures
        spec_typed(spec_typed(text, c), '\x08') == text,
{
    assert(text.push(c).drop_last() =~= text);
}

/// A line of text being typed.
pub struct TextBox {
    text: String,
}

/// The text of a box after `ch` is typed into it: unchanged on Enter (the
/// box empties after handing the text back), one character shorter on
/// backspace, else with `ch` added.
pub open spec fn spec_typed(text: Seq<char>, ch: char) -> Seq<char> {
    if is_return(ch) {
        Seq::empty()
    } else if ch == '\x08' {
        if text.len() > 0 {
            text.drop_last()
        } else {
            text
        }
    } else {
        text.push(ch)
    }
}

impl TextBox {
    pub closed spec fn spec_text(&self) -> Seq<char> {
        self.text@
    }

    /// An empty box.
    pub fn new() -> (r: TextBox)
        ensures
            r.spec_text() == Seq::<char>::empty(),
    {
        TextBox { text: String::new() }
    }

    /// This box, reading `text`.
    pub fn with_text(self, text: String) -> (r: TextBox)
        ensures
            r.spec_text() == text@,
    {
        TextBox { text }
    }

    pub fn get_text(&self) -> (r: &String)
        ensures
            r@ == self.spec_text(),
    {
        &self.text
    }

    pub fn set_text(&mut self, text: String)
        ensures
            final(self).spec_text() == text@,
    {
        self.text = text;
    }

    /// Takes a typed character. Enter hands back the text typed so far and
    /// empties the box; backspace removes the last character; any other
    /// character is added at the end.
    pub fn handle_char(&mut self, ch: char) -> (entered: Option<String>)
        ensures
            final(self).spec_text() == spec_typed(old(self).spec_text(), ch),
            is_return(ch) ==> (entered matches Some(t) && t@ == old(self).spec_text()),
            !is_return(ch) ==> entered is None,
    {
        if ch == '\n' || ch == '\r' {
            let mut taken = String::new();
            std::mem::swap(&mut taken, &mut self.text);
            string_clear(&mut self.text);
            Some(taken)
        } else if ch == '\x08' {
            string_pop(&mut self.text);
            None
        } else {
            string_push(&mut self.text, ch);
            None
        }
    }
}

impl TextBox {
    /// Takes an input event; answers whether the box used it, and the text
    /// handed back when Enter was typed. Every character and every key
    /// press is used; any other event is not, and leaves the text as it is.
    pub fn handle_event(&mut self, event: &HudInput) -> (r: (bool, Option<String>))
        ensures
            match *event {
                HudInput::Character(ch) => {
                    &&& r.0
                    &&& final(self).spec_text() == spec_typed(old(self).spec_text(), ch)
                    &&& is_return(ch) ==> (r.1 matches Some(t) && t@ == old(self).spec_text())
                    &&& !is_return(ch) ==> r.1 is None
                },
                HudInput::KeyboardInput => r.0 && r.1 is None && final(self).spec_text() == old(
                    self,
                ).spec_text(),
                HudInput::Other => !r.0 && r.1 is None && final(self).spec_text() == old(
                    self,
                ).spec_text(),
            },
    {
        match *event {
            HudInput::Character(ch) => {
                let entered = self.handle_char(ch);
                (true, entered)
            },
            HudInput::KeyboardInput => (true, None),
            HudInput::Other => (false, None),
        }
    }
}

/// The debug box: a header and the labels of the game's version, commit
/// hash, build time, frame rate and position.
pub struct DebugBox {
    pub header: String,
    pub version_label: String,
    pub githash_label: String,
    pub buildtime_label: String,
    pub fps_label: String,
    pub pos_label: String,
}

impl DebugBox {
    /// A box headed "Debug" whose labels are still empty.
    pub fn new() -> (r: DebugBox)
        ensures
            r.header@ == "Debug"@,
            r.version_label@ == Seq::<char>::empty(),
            r.githash_label@ == Seq::<char>::empty(),
            r.buildtime_label@ == Seq::<char>::empty(),
            r.fps_label@ == Seq::<char>::empty(),
            r.pos_label@ == Seq::<char>::empty(),
    {
        DebugBox {
            header: String::from_str("Debug"),
            version_label: String::new(),
            githash_label: String::new(),
            buildtime_label: String::new(),
            fps_label: String::new(),
            pos_label: String::new(),
        }
    }
}

/// The number of messages the chat box shows.
pub const MAX_MSGS: usize = 10;

/// The lines of a chat box after `m` is added to `lines`.
pub open spec fn spec_chat_add(lines: Seq<Seq<char>>, m: Seq<char>) -> Seq<Seq<char>> {
    if lines.len() > 0 {
        lines.drop_first().push(m)
    } else {
        lines.push(m)
    }
}

/// The lines of a chat box after the messages `msgs` are added, in order.
pub open spec fn spec_chat_after(lines: Seq<Seq<char>>, msgs: Seq<Seq<char>>) -> Seq<Seq<char>>
    decreases msgs.len(),
{
    if msgs.len() == 0 {
        lines
    } else {
        spec_chat_after(spec_chat_add(lines, msgs[0]), msgs.drop_first())
    }
}

/// A full chat box keeps showing the last `MAX_MSGS` lines of all it was
/// given: after any messages, it shows the newest lines of its old lines
/// followed by the messages.
pub proof fn lemma_chat_keeps_last(lines: Seq<Seq<char>>, msgs: Seq<Seq<char>>)
    requires
        lines.len() == MAX_MSGS,
    ensures
        spec_chat_after(lines, msgs) == (lines + msgs).subrange(
            msgs.len() as int,
            msgs.len() + MAX_MSGS,
        ),
    decreases msgs.len(),
{
    if msgs.len() == 0 {
        assert((lines + msgs).subrange(0, MAX_MSGS as int) =~= lines);
    } else {
        let m0 = msgs[0];
        let rest = msgs.drop_first();
        let next = spec_chat_add(lines, m0);
        assert(next =~= (lines + seq![m0]).subrange(1, MAX_MSGS + 1));
        lemma_chat_keeps_last(next, rest);
        assert((next + rest).subrange(rest.len() as int, rest.len() + MAX_MSGS) =~= (lines + msgs).subrange(
            msgs.len() as int,
            msgs.len() + MAX_MSGS,
        ));
    }
}

/// The last messages of the chat, oldest first.
pub struct ChatBox {
    msgs: Vec<String>,
}

impl ChatBox {
    /// The lines shown, oldest first.
    pub closed spec fn lines(&self) -> Seq<Seq<char>> {
        self.msgs@.map_values(|m: String| m@)
    }

    /// A chat box of `MAX_MSGS` empty lines.
    pub fn new() -> (r: ChatBox)
        ensures
            r.lines() == Seq::new(MAX_MSGS as nat, |i: int| Seq::<char>::empty()),
    {
        let mut msgs: Vec<String> = Vec::new();
        let mut k: usize = 0;
        while k < MAX_MSGS
            invariant
                k <= MAX_MSGS,
                msgs@.len() == k,
                forall|i: int| 0 <= i < k ==> (#[trigger] msgs@[i])@ == Seq::<char>::empty(),
            decreases MAX_MSGS - k,
        {
            msgs.push(String::new());
            k += 1;
        }
        let r = ChatBox { msgs };
        assert(r.lines() =~= Seq::new(MAX_MSGS as nat, |i: int| Seq::<char>::empty()));
        r
    }

    /// Shows `text` as the newest line; the oldest line goes.
    pub fn add_chat_msg(&mut self, text: String)
        ensures
            final(self).lines() == spec_chat_add(old(self).lines(), text@),
    {
        let ghost before = self.lines();
        if self.msgs.len() > 0 {
            self.msgs.remove(0);
        }
        self.msgs.push(text);
        assert(self.lines() =~= spec_chat_add(before, text@));
    }

    /// The lines shown, oldest first.
    pub fn messages(&self) -> (r: &Vec<String>)
        ensures
            r@.map_values(|m: String| m@) == self.lines(),
    {
        &self.msgs
    }
}

/// The display: the chat box, the chat input, whether chat is being typed,
/// and the events not yet taken by the game.
pub struct Hud {
    debug_box: DebugBox,
    chat_box: ChatBox,
    chatbox_input: TextBox,
    chat_enabled: bool,
    events: Vec<HudEvent>,
}

impl Hud {
    pub closed spec fn spec_debug_box(&self) -> DebugBox {
        self.debug_box
    }

    pub closed spec fn spec_chat_box(&self) -> ChatBox {
        self.chat_box
    }

    pub closed spec fn spec_input(&self) -> Seq<char> {
        self.chatbox_input.spec_text()
    }

    pub closed spec fn spec_chat_enabled(&self) -> bool {
        self.chat_enabled
    }

    /// The texts of the pending events, oldest first.
    pub closed spec fn spec_events(&self) -> Seq<Seq<char>> {
        self.events@.map_values(|e: HudEvent| event_text(e))
    }

    /// A display with an empty debug box, an empty chat, nothing typed,
    /// chat input closed and no pending event.
    pub fn new() -> (r: Hud)
        ensures
            r.spec_debug_box().header@ == "Debug"@,
            r.spec_debug_box().version_label@ == Seq::<char>::empty(),
            r.spec_debug_box().githash_label@ == Seq::<char>::empty(),
            r.spec_debug_box().buildtime_label@ == Seq::<char>::empty(),
            r.spec_debug_box().fps_label@ == Seq::<char>::empty(),
            r.spec_debug_box().pos_label@ == Seq::<char>::empty(),
            r.spec_chat_box().lines() == Seq::new(MAX_MSGS as nat, |i: int| Seq::<char>::empty()),
            r.spec_input() == Seq::<char>::empty(),
            !r.spec_chat_enabled(),
            r.spec_events() == Seq::<Seq<char>>::empty(),
    {
        let r = Hud {
            debug_box: DebugBox::new(),
            chat_box: ChatBox::new(),
            chatbox_input: TextBox::new(),
            chat_enabled: false,
            events: Vec::new(),
        };
        assert(r.spec_events() =~= Seq::<Seq<char>>::empty());
        r
    }

    pub fn debug_box(&self) -> (r: &DebugBox)
        ensures
            *r == self.spec_debug_box(),
    {
        &self.debug_box
    }

    /// Shows the five lines of the debug box; nothing else changes.
    pub fn set_debug_labels(
        &mut self,
        version: String,
        githash: String,
        buildtime: String,
        fps: String,
        pos: String,
    )
        ensures
            final(self).spec_debug_box().header == old(self).spec_debug_box().header,
            final(self).spec_debug_box().version_label@ == version@,
            final(self).spec_debug_box().githash_label@ == githash@,
            final(self).spec_debug_box().buildtime_label@ == buildtime@,
            final(self).spec_debug_box().fps_label@ == fps@,
            final(self).spec_debug_box().pos_label@ == pos@,
            final(self).spec_chat_box() == old(self).spec_chat_box(),
            final(self).input_state() == old(self).input_state(),
    {
        self.debug_box.version_label = version;
        self.debug_box.githash_label = githash;
        self.debug_box.buildtime_label = buildtime;
        self.debug_box.fps_label = fps;
        self.debug_box.pos_label = pos;
    }

    pub fn chat_box(&self) -> (r: &ChatBox)
        ensures
            *r == self.spec_chat_box(),
    {
        &self.chat_box
    }

    pub fn chat_enabled(&self) -> (r: bool)
        ensures
            r == self.spec_chat_enabled(),
    {
        self.chat_enabled
    }

    /// Shows a received chat message.
    pub fn add_chat_msg(&mut self, text: String)
        ensures
            final(self).spec_chat_box().lines() == spec_chat_add(old(self).spec_chat_box().lines(), text@),
            final(self).spec_debug_box() == old(self).spec_debug_box(),
            final(self).spec_input() == old(self).spec_input(),
            final(self).spec_chat_enabled() == old(self).spec_chat_enabled(),
            final(self).spec_events() == old(self).spec_events(),
    {
        self.chat_box.add_chat_msg(text);
    }

    /// Takes the pending events, oldest first, leaving none.
    pub fn get_events(&mut self) -> (r: Vec<HudEvent>)
        ensures
            r@.map_values(|e: HudEvent| event_text(e)) == old(self).spec_events(),
            final(self).spec_events() == Seq::<Seq<char>>::empty(),
            final(self).spec_chat_box() == old(self).spec_chat_box(),
            final(self).spec_debug_box() == old(self).spec_debug_box(),
            final(self).spec_input() == old(self).spec_input(),
            final(self).spec_chat_enabled() == old(self).spec_chat_enabled(),
    {
        let mut events: Vec<HudEvent> = Vec::new();
        std::mem::swap(&mut events, &mut self.events);
        assert(self.spec_events() =~= Seq::<Seq<char>>::empty());
        events
    }

    /// What input changes: whether chat is open, the text typed, and the
    /// texts of the pending events.
    pub open spec fn input_state(&self) -> InputState {
        (self.spec_chat_enabled(), self.spec_input(), self.spec_events())
    }

    /// Takes an input event; answers whether the display used it. While
    /// chat is closed, Enter opens it and other input passes through; while
    /// it is open, characters and keys go to the chat input, and Enter sends
    /// what was typed and closes it. Any other event goes to the widgets,
    /// none of which uses it.
    pub fn handle_event(&mut self, event: &HudInput) -> (used: bool)
        ensures
            final(self).spec_chat_box() == old(self).spec_chat_box(),
            final(self).spec_debug_box() == old(self).spec_debug_box(),
            (final(self).input_state(), used) == spec_hud_step(old(self).input_state(), *event),
    {
        match *event {
            HudInput::Character(ch) => {
                if self.chat_enabled {
                    let ghost before = self.spec_events();
                    let (_, entered) = self.chatbox_input.handle_event(event);
                    match entered {
                        Some(text) => {
                            self.events.push(HudEvent::ChatMsgSent { text });
                            self.chat_enabled = false;
                            assert(self.spec_events() =~= before.push(old(self).spec_input()));
                        },
                        None => {},
                    }
                    true
                } else if ch == '\n' || ch == '\r' {
                    self.chat_enabled = true;
                    true
                } else {
                    false
                }
            },
            HudInput::KeyboardInput => if self.chat_enabled {
                self.chatbox_input.handle_event(event).0
            } else {
                false
            },
            HudInput::Other => self.chatbox_input.handle_event(event).0,
        }
    }
}

} // verus!
