//! Conversation history and its rendering into an engine prompt.
//!
//! Role markers and the terminator are structural tokens understood by the
//! engine's tokenizer. They are written verbatim around each turn and are
//! never escaped in, or stripped from, the content of a turn: content that
//! itself holds a marker reaches the engine as it is.
use vstd::prelude::*;

verus! {

/// Marker that opens the system turn.
pub const SYSTEM_HEADER: &'static str = "<|system|>\n";

/// Marker that opens a user turn.
pub const USER_HEADER: &'static str = "<|user|>\n";

/// Marker that opens an assistant turn.
pub const ASSISTANT_HEADER: &'static str = "<|assistant|>\n";

/// Closes every turn.
pub const TERMINATOR: &'static str = "</s>\n";

/// Ends every rendered prompt: the assistant marker without its line break,
/// so that the engine goes on as the assistant.
pub const ASSISTANT_PROMPT: &'static str = "<|assistant|>";

/// First assistant turn of a fresh conversation.
pub const GREETING: &'static str = "Hello, how may I help you today?";

/// The speaker of a turn.
#[derive(Debug, Clone, Copy, PartialEq, Eq, Structural)]
pub enum MessageType {
    System,
    User,
    Assistant,
}

/// The marker that opens a turn of the given role.
pub open spec fn header_of(role: MessageType) -> Seq<char> {
    match role {
        MessageType::System => SYSTEM_HEADER@,
        MessageType::User => USER_HEADER@,
        MessageType::Assistant => ASSISTANT_HEADER@,
    }
}

impl MessageType {
    /// The marker that opens a turn of this role.
    pub fn header(&self) -> (r: &'static str)
        ensures
            r@ == header_of(*self),
    {
        match self {
            MessageType::System => SYSTEM_HEADER,
            MessageType::User => USER_HEADER,
            MessageType::Assistant => ASSISTANT_HEADER,
        }
    }
}

/// A turn as a value: its role and its content.
pub struct Turn {
    pub role: MessageType,
    pub content: Seq<char>,
}

/// The text of one turn: marker, content, terminator.
pub open spec fn turn_text(t: Turn) -> Seq<char> {
    header_of(t.role) + t.content + TERMINATOR@
}

/// The texts of a sequence of turns, in order.
pub open spec fn turns_text(ts: Seq<Turn>) -> Seq<char>
    decreases ts.len(),
{
    if ts.len() == 0 {
        Seq::empty()
    } else {
        turns_text(ts.drop_last()) + turn_text(ts.last())
    }
}

/// The prompt built from a system turn and the turns after it.
pub open spec fn render_with(system: Turn, turns: Seq<Turn>) -> Seq<char> {
    turn_text(system) + turns_text(turns) + ASSISTANT_PROMPT@
}

/// One turn of a conversation. It cannot be changed once made.
#[derive(Debug, Clone)]
pub struct Message {
    message_type: MessageType,
    content: String,
}

impl View for Message {
    type V = Turn;

    closed spec fn view(&self) -> Turn {
        Turn { role: self.message_type, content: self.content@ }
    }
}

impl Message {
    /// A turn of the given role and content.
    pub fn new(message_type: MessageType, content: String) -> (r: Message)
        ensures
            r@ == (Turn { role: message_type, content: content@ }),
    {
        Message { message_type, content }
    }

    /// The role of this turn.
    pub fn message_type(&self) -> (r: MessageType)
        ensures
            r == self@.role,
    {
        self.message_type
    }

    /// The text of this turn as the engine reads it.
    pub fn get(&self) -> (r: String)
        ensures
            r@ == turn_text(self@),
    {
        let mut text = String::from_str(self.message_type.header());
        text.append(self.content.as_str());
        text.append(TERMINATOR);
        text
    }
}

/// A conversation as a value: the system turn and the turns after it.
pub struct Conversation {
    pub system: Turn,
    pub turns: Seq<Turn>,
}

/// The prompt that a conversation renders to.
pub open spec fn rendered(c: Conversation) -> Seq<char> {
    render_with(c.system, c.turns)
}

/// The conversation that a history starts as.
pub open spec fn seeded(system_content: Seq<char>) -> Conversation {
    Conversation {
        system: Turn { role: MessageType::System, content: system_content },
        turns: seq![Turn { role: MessageType::Assistant, content: GREETING@ }],
    }
}

/// A conversation with one more turn at its end.
pub open spec fn appended(c: Conversation, role: MessageType, content: Seq<char>) -> Conversation {
    Conversation { system: c.system, turns: c.turns.push(Turn { role, content }) }
}

/// A conversation with only its system turn left.
pub open spec fn cleared(c: Conversation) -> Conversation {
    Conversation { system: c.system, turns: Seq::empty() }
}

/// The history of one conversation: a system turn, logically first, and the
/// turns after it in the order they were added.
#[derive(Debug, Clone)]
pub struct History {
    system: Message,
    history: Vec<Message>,
}

impl View for History {
    type V = Conversation;

    closed spec fn view(&self) -> Conversation {
        Conversation { system: self.system@, turns: self.history@.map_values(|m: Message| m@) }
    }
}

impl History {
    /// A history of the given system turn and the assistant's greeting.
    pub fn new(system_content: String) -> (r: History)
        ensures
            r@ == seeded(system_content@),
    {
        let greeting = Message::new(MessageType::Assistant, String::from_str(GREETING));
        let history = vec![greeting];
        let r = History { system: Message::new(MessageType::System, system_content), history };
        assert(r@.turns =~= seeded(system_content@).turns);
        r
    }

    /// Appends the text of every turn and the closing assistant marker to
    /// `prompt`, which holds the text of the system turn.
    fn get_inner(&self, prompt: String) -> (r: String)
        ensures
            r@ == prompt@ + turns_text(self@.turns) + ASSISTANT_PROMPT@,
    {
        let mut prompt = prompt;
        let ghost start = prompt@;
        let mut i: usize = 0;
        while i < self.history.len()
            invariant
                i <= self.history@.len(),
                self@.turns.len() == self.history@.len(),
                prompt@ == start + turns_text(self@.turns.take(i as int)),
            decreases self.history@.len() - i,
        {
            let piece = self.history[i].get();
            prompt.append(piece.as_str());
            proof {
                let ts = self@.turns;
                assert(ts.take(i + 1).drop_last() =~= ts.take(i as int));
                assert(ts[i as int] == self.history@[i as int]@);
            }
            i = i + 1;
        }
        proof {
            assert(self@.turns.take(i as int) =~= self@.turns);
        }
        prompt.append(ASSISTANT_PROMPT);
        prompt
    }

    /// The prompt this history renders to.
    pub fn get(&self) -> (r: String)
        ensures
            r@ == rendered(self@),
    {
        self.get_inner(self.system.get())
    }

    /// The prompt this history renders to with `system_content` in place of
    /// the content of the system turn. The history is not changed.
    pub fn get_with_system(&self, system_content: String) -> (r: String)
        ensures
            r@ == render_with(
                Turn { role: MessageType::System, content: system_content@ },
                self@.turns,
            ),
    {
        self.get_inner(Message::new(MessageType::System, system_content).get())
    }

    /// Adds one turn at the end.
    pub fn push(&mut self, message_type: MessageType, content: String)
        ensures
            final(self)@ == appended(old(self)@, message_type, content@),
    {
        self.history.push(Message::new(message_type, content));
        proof {
            assert(self@.turns =~= appended(old(self)@, message_type, content@).turns);
        }
    }

    /// Removes every turn but the system turn.
    pub fn clear(&mut self)
        ensures
            final(self)@ == cleared(old(self)@),
    {
        self.history.clear();
        proof {
            assert(self@.turns =~= Seq::<Turn>::empty());
        }
    }
}

/// Rendering is deterministic: conversations that are equal render to
/// equal prompts, so two renderings of an unchanged history agree.
pub proof fn lemma_render_deterministic(a: Conversation, b: Conversation)
    requires
        a == b,
    ensures
        rendered(a) == rendered(b),
{
}

/// After a clear, the prompt is the system turn and the closing assistant
/// marker, whatever turns there were.
pub proof fn lemma_cleared_render(c: Conversation)
    ensures
        rendered(cleared(c)) == turn_text(c.system) + ASSISTANT_PROMPT@,
{
    assert(turns_text(Seq::<Turn>::empty()) == Seq::<char>::empty());
    assert(turn_text(c.system) + Seq::<char>::empty() =~= turn_text(c.system));
}

} // verus!
