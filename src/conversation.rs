use vstd::prelude::*;

use crate::lines::{lemma_pieces_extend, lemma_pieces_new_line, pieces};

verus! {

/// Who wrote a message.
#[derive(Clone, Copy, Debug, PartialEq, Eq, Structural)]
pub enum Role {
    User,
    Assistant,
}

/// The name of a role as it appears in a rendered context line.
pub open spec fn role_name(role: Role) -> Seq<char> {
    match role {
        Role::User => "user"@,
        Role::Assistant => "assistant"@,
    }
}

impl Role {
    pub fn name(&self) -> (r: &'static str)
        ensures
            r@ == role_name(*self),
    {
        match self {
            Role::User => "user",
            Role::Assistant => "assistant",
        }
    }
}

/// The mathematical content of one message.
pub struct MessageView {
    pub id: Seq<char>,
    pub role: Role,
    pub content: Seq<char>,
    pub timestamp: u64,
}

/// One entry of the conversation log. Immutable once created.
#[derive(Debug)]
pub struct ConversationMessage {
    pub id: String,
    pub role: Role,
    pub content: String,
    pub timestamp: u64,
}

impl View for ConversationMessage {
    type V = MessageView;

    open spec fn view(&self) -> MessageView {
        MessageView { id: self.id@, role: self.role, content: self.content@, timestamp: self.timestamp }
    }
}

impl ConversationMessage {
    pub fn duplicate(&self) -> (r: ConversationMessage)
        ensures
            r@ == self@,
    {
        ConversationMessage {
            id: self.id.clone(),
            role: self.role,
            content: self.content.clone(),
            timestamp: self.timestamp,
        }
    }
}

/// Views of a sequence of messages.
pub open spec fn views(ms: Seq<ConversationMessage>) -> Seq<MessageView> {
    ms.map_values(|m: ConversationMessage| m@)
}

/// The last `cap` elements of `s` (all of `s` when it is no longer).
pub open spec fn keep_last<A>(s: Seq<A>, cap: nat) -> Seq<A> {
    if s.len() > cap {
        s.subrange(s.len() - cap, s.len() as int)
    } else {
        s
    }
}

/// The default bound on the number of retained messages.
pub const DEFAULT_CAPACITY: usize = 20;

/// A bounded, chronologically ordered message log with FIFO eviction.
pub struct Conversation {
    messages: Vec<ConversationMessage>,
    max_messages: usize,
}

impl View for Conversation {
    type V = Seq<MessageView>;

    closed spec fn view(&self) -> Seq<MessageView> {
        views(self.messages@)
    }
}

impl Conversation {
    pub closed spec fn capacity(&self) -> nat {
        self.max_messages as nat
    }

    pub closed spec fn wf(&self) -> bool {
        self.messages@.len() <= self.max_messages
    }

    /// A well-formed store never holds more messages than its capacity.
    pub proof fn lemma_within_capacity(&self)
        requires
            self.wf(),
        ensures
            self@.len() <= self.capacity(),
    {
    }

    /// An empty store with the default capacity.
    pub fn new() -> (r: Conversation)
        ensures
            r.wf(),
            r@ == Seq::<MessageView>::empty(),
            r.capacity() == DEFAULT_CAPACITY,
    {
        Conversation::with_capacity(DEFAULT_CAPACITY)
    }

    /// An empty store that keeps at most `max_messages` messages.
    pub fn with_capacity(max_messages: usize) -> (r: Conversation)
        ensures
            r.wf(),
            r@ == Seq::<MessageView>::empty(),
            r.capacity() == max_messages,
    {
        let r = Conversation { messages: Vec::new(), max_messages };
        assert(r@ =~= Seq::<MessageView>::empty());
        r
    }

    pub fn max_messages(&self) -> (r: usize)
        ensures
            r == self.capacity(),
    {
        self.max_messages
    }

    pub fn len(&self) -> (r: usize)
        ensures
            r == self@.len(),
            self.wf() ==> r <= self.capacity(),
    {
        self.messages.len()
    }

    /// Appends `message` at the tail, evicting the oldest entry when the
    /// store would otherwise exceed its capacity.
    pub fn push_message(&mut self, message: ConversationMessage)
        requires
            old(self).wf(),
        ensures
            final(self).wf(),
            final(self).capacity() == old(self).capacity(),
            final(self)@ == keep_last(old(self)@.push(message@), old(self).capacity()),
    {
        let ghost before = self.messages@;
        self.messages.push(message);
        assert(views(self.messages@) =~= views(before).push(message@));
        if self.messages.len() > self.max_messages {
            let ghost pushed = self.messages@;
            self.messages.remove(0);
            assert(views(self.messages@) =~= keep_last(views(pushed), self.max_messages as nat));
        }
    }

    /// Appends a message with a fresh identifier and returns that identifier.
    pub fn add_message(&mut self, role: Role, content: String, timestamp: u64) -> (r: String)
        requires
            old(self).wf(),
        ensures
            final(self).wf(),
            final(self).capacity() == old(self).capacity(),
            final(self)@ == keep_last(
                old(self)@.push(MessageView { id: r@, role, content: content@, timestamp }),
                old(self).capacity(),
            ),
    {
        let id = fresh_id();
        let message = ConversationMessage { id: id.clone(), role, content, timestamp };
        self.push_message(message);
        id
    }

    /// The context text: one `role: content` line per message, in order,
    /// joined by newlines.
    pub fn get_context(&self) -> (r: String)
        ensures
            r@ == render(self@),
    {
        let mut out = String::new();
        let mut i: usize = 0;
        while i < self.messages.len()
            invariant
                i <= self.messages@.len(),
                out@ == render(self@.take(i as int)),
            decreases self.messages@.len() - i,
        {
            let m = &self.messages[i];
            proof {
                assert(self@.take(i as int + 1).drop_last() =~= self@.take(i as int));
            }
            if i > 0 {
                out.append("\n");
            }
            out.append(m.role.name());
            out.append(": ");
            out.append(m.content.as_str());
            proof {
                if i > 0 {
                    assert(out@ =~= render(self@.take(i as int)) + "\n"@ + line_of(self@[i as int]));
                } else {
                    assert(out@ =~= line_of(self@[i as int]));
                }
            }
            i = i + 1;
        }
        assert(self@.take(i as int) =~= self@);
        out
    }

    /// A snapshot copy of the messages, oldest first.
    pub fn history(&self) -> (r: Vec<ConversationMessage>)
        ensures
            views(r@) == self@,
    {
        let mut out: Vec<ConversationMessage> = Vec::new();
        let mut i: usize = 0;
        while i < self.messages.len()
            invariant
                i <= self.messages@.len(),
                views(out@) =~= self@.take(i as int),
            decreases self.messages@.len() - i,
        {
            let ghost prev = out@;
            out.push(self.messages[i].duplicate());
            assert(views(out@) =~= views(prev).push(self@[i as int]));
            assert(self@.take(i as int + 1) =~= self@.take(i as int).push(self@[i as int]));
            i = i + 1;
        }
        assert(self@.take(i as int) =~= self@);
        out
    }

    /// Empties the store.
    pub fn clear(&mut self)
        requires
            old(self).wf(),
        ensures
            final(self).wf(),
            final(self).capacity() == old(self).capacity(),
            final(self)@ == Seq::<MessageView>::empty(),
    {
        self.messages.clear();
        assert(self@ =~= Seq::<MessageView>::empty());
    }
}

/// One rendered context line.
pub open spec fn line_of(m: MessageView) -> Seq<char> {
    role_name(m.role) + ": "@ + m.content
}

/// The rendered context of a message sequence: its lines joined by newlines.
pub open spec fn render(ms: Seq<MessageView>) -> Seq<char>
    decreases ms.len(),
{
    if ms.len() == 0 {
        Seq::empty()
    } else if ms.len() == 1 {
        line_of(ms[0])
    } else {
        render(ms.drop_last()) + "\n"@ + line_of(ms.last())
    }
}

/// Relies on uuid's `Uuid::new_v4` for a random identifier and its `Display`
/// impl for the hyphenated text form.
#[verifier::external_body]
fn fresh_id() -> (r: String) {
    uuid::Uuid::new_v4().to_string()
}

/// The store's contents after appending each of `xs` in turn to contents
/// `s`, at capacity `cap`.
pub open spec fn append_all(s: Seq<MessageView>, xs: Seq<MessageView>, cap: nat) -> Seq<MessageView>
    decreases xs.len(),
{
    if xs.len() == 0 {
        s
    } else {
        append_all(keep_last(s.push(xs[0]), cap), xs.drop_first(), cap)
    }
}

proof fn lemma_keep_last_twice(t: Seq<MessageView>, r: Seq<MessageView>, cap: nat)
    ensures
        keep_last(keep_last(t, cap) + r, cap) == keep_last(t + r, cap),
{
    if t.len() > cap {
        let k = keep_last(t, cap);
        assert(k.len() == cap);
        assert(keep_last(k + r, cap) =~= keep_last(t + r, cap));
    }
}

/// FIFO eviction: whatever messages are appended, one by one, to a store
/// within its capacity, it ends holding exactly the most recent `cap` of all
/// messages, oldest first, and never more than `cap`.
pub proof fn lemma_fifo_eviction(s: Seq<MessageView>, xs: Seq<MessageView>, cap: nat)
    requires
        s.len() <= cap,
    ensures
        append_all(s, xs, cap) == keep_last(s + xs, cap),
        append_all(s, xs, cap).len() <= cap,
    decreases xs.len(),
{
    if xs.len() == 0 {
        assert(s + xs =~= s);
    } else {
        let t = s.push(xs[0]);
        let rest = xs.drop_first();
        lemma_fifo_eviction(keep_last(t, cap), rest, cap);
        lemma_keep_last_twice(t, rest, cap);
        assert(t + rest =~= s + xs);
    }
}

/// The rendered context of no messages is empty, and, when no content holds
/// a newline, that of `n > 0` messages splits at newlines into exactly `n`
/// lines, the lines of the messages in order.
pub proof fn lemma_render_lines(ms: Seq<MessageView>)
    requires
        forall|i: int| 0 <= i < ms.len() ==> !(#[trigger] ms[i]).content.contains('\n'),
    ensures
        ms.len() == 0 ==> render(ms) == Seq::<char>::empty(),
        ms.len() > 0 ==> pieces(render(ms)) == ms.map_values(|m: MessageView| line_of(m)),
    decreases ms.len(),
{
    if ms.len() > 0 {
        let m = ms.last();
        assert(!line_of(m).contains('\n')) by {
            reveal_strlit("user");
            reveal_strlit("assistant");
            reveal_strlit(": ");
            assert(ms[ms.len() - 1] == m);
            if line_of(m).contains('\n') {
                let i = choose|i: int| 0 <= i < line_of(m).len() && line_of(m)[i] == '\n';
                let head = role_name(m.role) + ": "@;
                if i >= head.len() {
                    assert(m.content[i - head.len()] == '\n');
                }
            }
        }
        if ms.len() == 1 {
            lemma_pieces_extend(Seq::empty(), line_of(m));
            assert(Seq::<char>::empty() + line_of(m) =~= line_of(m));
            assert(pieces(Seq::<char>::empty()).update(0, Seq::<char>::empty() + line_of(m)) =~= seq![line_of(m)]);
            assert(ms.map_values(|m: MessageView| line_of(m)) =~= seq![line_of(m)]);
        } else {
            let init = ms.drop_last();
            assert forall|i: int| 0 <= i < init.len() implies !(#[trigger] init[i]).content.contains('\n') by {
                assert(init[i] == ms[i]);
            }
            lemma_render_lines(init);
            reveal_strlit("\n");
            assert(render(init) + "\n"@ + line_of(m) =~= render(init).push('\n') + line_of(m));
            lemma_pieces_new_line(render(init), line_of(m));
            assert(ms.map_values(|m: MessageView| line_of(m)) =~= init.map_values(|m: MessageView| line_of(m)).push(line_of(m)));
        }
    }
}

} // verus!
