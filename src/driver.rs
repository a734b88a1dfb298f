use vstd::prelude::*;

use crate::conversation::{render, Conversation, MessageView, Role, keep_last};
use crate::provider::{
    build_request, chunk_views, chunks_of_lines, parse_text, provider_for, request_body,
    request_url, select_provider, ChunkView, OutboundRequest, Provider,
};
use crate::lines::lines_of;

verus! {

/// The text that `bytes` decodes to, with each invalid UTF-8 sequence
/// replaced by U+FFFD.
pub uninterp spec fn lossy_text(bytes: Seq<u8>) -> Seq<char>;

/// Relies on std's `String::from_utf8_lossy`: decodes UTF-8, replacing
/// invalid sequences.
#[verifier::external_body]
fn decode_lossy(bytes: &[u8]) -> (r: String)
    ensures
        r@ == lossy_text(bytes@),
{
    String::from_utf8_lossy(bytes).into_owned()
}

/// Where one invocation stands.
#[derive(Clone, Copy, Debug, PartialEq, Eq, Structural)]
pub enum StreamState {
    Requesting,
    Streaming,
    Completed,
    Cancelled,
    Failed,
}

pub open spec fn is_final(s: StreamState) -> bool {
    s == StreamState::Completed || s == StreamState::Cancelled || s == StreamState::Failed
}

/// What the user interface is told.
#[derive(Debug, PartialEq, Eq)]
pub enum StreamEvent {
    /// One text delta.
    Chunk(String),
    /// The stream completed; carries the full text.
    Done(String),
    /// The user's stop request was honoured.
    Cancelled(String),
    /// The stream was aborted.
    Error(String),
}

pub enum EventView {
    Chunk(Seq<char>),
    Done(Seq<char>),
    Cancelled(Seq<char>),
    Error(Seq<char>),
}

impl View for StreamEvent {
    type V = EventView;

    open spec fn view(&self) -> EventView {
        match self {
            StreamEvent::Chunk(s) => EventView::Chunk(s@),
            StreamEvent::Done(s) => EventView::Done(s@),
            StreamEvent::Cancelled(s) => EventView::Cancelled(s@),
            StreamEvent::Error(s) => EventView::Error(s@),
        }
    }
}

pub open spec fn event_views(es: Seq<StreamEvent>) -> Seq<EventView> {
    es.map_values(|e: StreamEvent| e@)
}

/// How a run over chunks ends: still open with the text so far, finished
/// with the full text, or failed with the error the backend reported.
pub enum Outcome {
    Open(Seq<char>),
    Finished(Seq<char>),
    Failed(Seq<char>),
}

/// The events that `cs` produces after `acc` was accumulated, and how the
/// run ends. Each delta is reported and accumulated; a terminal chunk
/// completes the stream, an error chunk aborts it.
pub open spec fn run(acc: Seq<char>, cs: Seq<ChunkView>) -> (Seq<EventView>, Outcome)
    decreases cs.len(),
{
    if cs.len() == 0 {
        (Seq::empty(), Outcome::Open(acc))
    } else {
        let c = cs[0];
        match c.error {
            Some(e) => (seq![EventView::Error(e)], Outcome::Failed(e)),
            None => {
                let acc2 = acc + c.text;
                let shown = if c.is_terminal && c.text.len() == 0 {
                    Seq::<EventView>::empty()
                } else {
                    seq![EventView::Chunk(c.text)]
                };
                if c.is_terminal {
                    (shown.push(EventView::Done(acc2)), Outcome::Finished(acc2))
                } else {
                    let (rest, out) = run(acc2, cs.drop_first());
                    (shown + rest, out)
                }
            },
        }
    }
}

/// The prompt sent upstream: the prompt itself when there is no context,
/// else the context followed by the prompt.
pub open spec fn contextual_prompt(context: Seq<char>, prompt: Seq<char>) -> Seq<char> {
    if context.len() == 0 {
        prompt
    } else {
        "Previous conversation:\n"@ + context + "\n\nUser: "@ + prompt
    }
}

/// Whether `after` is `before` with one message of `role`, `content` and
/// `timestamp` appended under some identifier, at capacity `cap`.
pub open spec fn appended(
    before: Seq<MessageView>,
    after: Seq<MessageView>,
    cap: nat,
    role: Role,
    content: Seq<char>,
    timestamp: u64,
) -> bool {
    exists|id: Seq<char>|
        after == keep_last(before.push(MessageView { id, role, content, timestamp }), cap)
}

/// The message for a response whose status is not a success.
pub open spec fn status_error_text(status: Seq<char>, body: Seq<char>) -> Seq<char> {
    "Proxy server returned error: "@ + status + " - "@ + body
}

/// The message for a transport failure in state `s`.
pub open spec fn transport_error_text(p: Provider, s: StreamState, detail: Seq<char>) -> Seq<char> {
    if s == StreamState::Requesting {
        if p == Provider::Local {
            "Failed to connect to the local model server (is it running?): "@ + detail
        } else {
            "Failed to connect to proxy server: "@ + detail
        }
    } else {
        "Stream error: "@ + detail
    }
}

/// What the command reports when the backend sends an error in the stream.
pub open spec fn payload_error_text(e: Seq<char>) -> Seq<char> {
    "Proxy server error: "@ + e
}

pub const CANCELLED_MESSAGE: &'static str = "Response cancelled by user";

/// One streamed answer: the chosen provider, the state, and the text
/// accumulated so far.
pub struct StreamDriver {
    provider: Provider,
    state: StreamState,
    accumulated: String,
    failure: String,
}

impl StreamDriver {
    pub closed spec fn spec_provider(&self) -> Provider {
        self.provider
    }

    pub closed spec fn spec_state(&self) -> StreamState {
        self.state
    }

    pub closed spec fn spec_accumulated(&self) -> Seq<char> {
        self.accumulated@
    }

    /// What the command reports once the stream has failed.
    pub closed spec fn spec_failure(&self) -> Seq<char> {
        self.failure@
    }

    /// What the command returns: success unless the stream failed, and then
    /// the failure's text.
    pub fn command_result(&self) -> (r: Result<(), String>)
        ensures
            r is Ok <==> self.spec_state() != StreamState::Failed,
            match r {
                Ok(_) => true,
                Err(e) => e@ == self.spec_failure(),
            },
    {
        if self.state == StreamState::Failed {
            Err(self.failure.clone())
        } else {
            Ok(())
        }
    }

    pub fn provider(&self) -> (r: Provider)
        ensures
            r == self.spec_provider(),
    {
        self.provider
    }

    pub fn state(&self) -> (r: StreamState)
        ensures
            r == self.spec_state(),
    {
        self.state
    }

    pub fn accumulated(&self) -> (r: &str)
        ensures
            r@ == self.spec_accumulated(),
    {
        self.accumulated.as_str()
    }

    /// Starts an invocation: records the user's prompt, renders the context,
    /// and selects the backend for `model`. An unknown model fails with no
    /// request to issue.
    pub fn start(
        conv: &mut Conversation,
        prompt: String,
        model: &str,
        base_url: &str,
        now: u64,
    ) -> (r: Result<(StreamDriver, OutboundRequest), String>)
        requires
            old(conv).wf(),
        ensures
            final(conv).wf(),
            final(conv).capacity() == old(conv).capacity(),
            appended(old(conv)@, final(conv)@, old(conv).capacity(), Role::User, prompt@, now),
            r is Ok <==> provider_for(model@) is Some,
            match r {
                Ok((d, req)) => {
                    let p = provider_for(model@)->0;
                    let full = contextual_prompt(render(final(conv)@), prompt@);
                    &&& d.spec_provider() == p
                    &&& d.spec_state() == StreamState::Requesting
                    &&& d.spec_accumulated() == Seq::<char>::empty()
                &&& d.spec_failure() == Seq::<char>::empty()
                    &&& req.url@ == request_url(p, base_url@)
                    &&& req.body@ == request_body(p, model@, full)
                },
                Err(e) => e@ == "Unsupported model: "@ + model@,
            },
    {
        let ghost prompt_text = prompt@;
        let ghost before = conv@;
        let prompt_copy = prompt.clone();
        let id = conv.add_message(Role::User, prompt, now);
        assert(appended(before, conv@, conv.capacity(), Role::User, prompt_text, now));
        let context = conv.get_context();
        let full = if context.unicode_len() == 0 {
            prompt_copy
        } else {
            String::from_str("Previous conversation:\n").concat(context.as_str()).concat(
                "\n\nUser: ",
            ).concat(prompt_copy.as_str())
        };
        match select_provider(model) {
            None => Err(String::from_str("Unsupported model: ").concat(model)),
            Some(p) => {
                let req = build_request(p, base_url, model, full.as_str());
                let d = StreamDriver {
                    provider: p,
                    state: StreamState::Requesting,
                    accumulated: String::new(),
                    failure: String::new(),
                };
                Ok((d, req))
            },
        }
    }

    /// The response's status line arrived. A success starts streaming; any
    /// other status fails with a message carrying the status and the body.
    pub fn on_status(&mut self, success: bool, status: &str, body: &str) -> (r: Vec<StreamEvent>)
        ensures
            final(self).spec_provider() == old(self).spec_provider(),
            final(self).spec_state() == old(self).spec_state() ==> final(self).spec_failure()
                == old(self).spec_failure(),
            final(self).spec_accumulated() == old(self).spec_accumulated(),
            old(self).spec_state() != StreamState::Requesting ==> final(self).spec_state()
                == old(self).spec_state() && r@.len() == 0,
            old(self).spec_state() == StreamState::Requesting && success ==> final(self).spec_state()
                == StreamState::Streaming && r@.len() == 0,
            old(self).spec_state() == StreamState::Requesting && !success ==> final(self).spec_state()
                == StreamState::Failed && final(self).spec_failure() == status_error_text(status@, body@)
                && event_views(r@) == seq![EventView::Error(status_error_text(status@, body@))],
    {
        if self.state != StreamState::Requesting {
            return Vec::new();
        }
        if success {
            self.state = StreamState::Streaming;
            Vec::new()
        } else {
            self.state = StreamState::Failed;
            let msg = String::from_str("Proxy server returned error: ").concat(status).concat(
                " - ",
            ).concat(body);
            self.failure = msg.clone();
            let r = vec![StreamEvent::Error(msg)];
            assert(event_views(r@) =~= seq![EventView::Error(status_error_text(status@, body@))]);
            r
        }
    }

    /// The transport failed: before the response, the connection could not
    /// be made; while streaming, the body could not be read. Either fails
    /// the stream with a message that carries `detail`.
    pub fn on_transport_error(&mut self, detail: &str) -> (r: Vec<StreamEvent>)
        ensures
            final(self).spec_provider() == old(self).spec_provider(),
            final(self).spec_state() == old(self).spec_state() ==> final(self).spec_failure()
                == old(self).spec_failure(),
            final(self).spec_accumulated() == old(self).spec_accumulated(),
            is_final(old(self).spec_state()) ==> final(self).spec_state() == old(self).spec_state()
                && r@.len() == 0,
            !is_final(old(self).spec_state()) ==> final(self).spec_state() == StreamState::Failed
                && final(self).spec_failure() == transport_error_text(
                old(self).spec_provider(),
                old(self).spec_state(),
                detail@,
            ) && event_views(r@) == seq![
                EventView::Error(
                    transport_error_text(old(self).spec_provider(), old(self).spec_state(), detail@),
                ),
            ],
    {
        let msg = match self.state {
            StreamState::Requesting => match self.provider {
                Provider::Local => String::from_str(
                    "Failed to connect to the local model server (is it running?): ",
                ).concat(detail),
                _ => String::from_str("Failed to connect to proxy server: ").concat(detail),
            },
            StreamState::Streaming => String::from_str("Stream error: ").concat(detail),
            _ => {
                return Vec::new();
            },
        };
        self.state = StreamState::Failed;
        self.failure = msg.clone();
        let r = vec![StreamEvent::Error(msg)];
        assert(event_views(r@) =~= seq![
            EventView::Error(transport_error_text(self.provider, old(self).state, detail@)),
        ]);
        r
    }

    /// Commits the accumulated text as the assistant's turn and completes.
    fn complete(&mut self, conv: &mut Conversation, now: u64) -> (r: StreamEvent)
        requires
            old(conv).wf(),
        ensures
            final(conv).wf(),
            final(conv).capacity() == old(conv).capacity(),
            appended(
                old(conv)@,
                final(conv)@,
                old(conv).capacity(),
                Role::Assistant,
                old(self).spec_accumulated(),
                now,
            ),
            final(self).spec_provider() == old(self).spec_provider(),
            final(self).spec_state() == old(self).spec_state() ==> final(self).spec_failure()
                == old(self).spec_failure(),
            final(self).spec_accumulated() == old(self).spec_accumulated(),
            final(self).spec_state() == StreamState::Completed,
            r@ == EventView::Done(old(self).spec_accumulated()),
    {
        let ghost before = conv@;
        let id = conv.add_message(Role::Assistant, self.accumulated.clone(), now);
        assert(appended(before, conv@, conv.capacity(), Role::Assistant, self.accumulated@, now));
        self.state = StreamState::Completed;
        StreamEvent::Done(self.accumulated.clone())
    }

    /// A block of response text arrived. A set cancellation flag cancels the
    /// stream and discards the text accumulated so far. Otherwise the text
    /// is parsed in the provider's wire format and each chunk is reported
    /// and accumulated; a terminal chunk commits the full text as the
    /// assistant's turn, an error chunk fails the stream. Outside streaming
    /// nothing changes.
    pub fn on_text(&mut self, conv: &mut Conversation, cancelled: bool, text: &str, now: u64) -> (r:
        Vec<StreamEvent>)
        requires
            old(conv).wf(),
        ensures
            final(conv).wf(),
            final(conv).capacity() == old(conv).capacity(),
            final(self).spec_provider() == old(self).spec_provider(),
            final(self).spec_state() == old(self).spec_state() ==> final(self).spec_failure()
                == old(self).spec_failure(),
            old(self).spec_state() != StreamState::Streaming ==> {
                &&& final(self).spec_state() == old(self).spec_state()
                &&& final(self).spec_accumulated() == old(self).spec_accumulated()
                &&& final(conv)@ == old(conv)@
                &&& r@.len() == 0
            },
            old(self).spec_state() == StreamState::Streaming && cancelled ==> {
                &&& final(self).spec_state() == StreamState::Cancelled
                &&& final(self).spec_accumulated() == Seq::<char>::empty()
                &&& final(conv)@ == old(conv)@
                &&& event_views(r@) == seq![EventView::Cancelled(CANCELLED_MESSAGE@)]
            },
            old(self).spec_state() == StreamState::Streaming && !cancelled ==> {
                let (evs, out) = run(
                    old(self).spec_accumulated(),
                    chunks_of_lines(old(self).spec_provider(), lines_of(text@)),
                );
                &&& event_views(r@) == evs
                &&& match out {
                    Outcome::Open(a) => {
                        &&& final(self).spec_state() == StreamState::Streaming
                        &&& final(self).spec_accumulated() == a
                        &&& final(conv)@ == old(conv)@
                    },
                    Outcome::Finished(a) => {
                        &&& final(self).spec_state() == StreamState::Completed
                        &&& final(self).spec_accumulated() == a
                        &&& appended(
                            old(conv)@,
                            final(conv)@,
                            old(conv).capacity(),
                            Role::Assistant,
                            a,
                            now,
                        )
                    },
                    Outcome::Failed(e) => {
                        &&& final(self).spec_state() == StreamState::Failed
                        &&& final(self).spec_failure() == payload_error_text(e)
                        &&& final(conv)@ == old(conv)@
                    },
                }
            },
    {
        if self.state != StreamState::Streaming {
            return Vec::new();
        }
        if cancelled {
            self.state = StreamState::Cancelled;
            self.accumulated = String::new();
            let r = vec![StreamEvent::Cancelled(String::from_str(CANCELLED_MESSAGE))];
            assert(event_views(r@) =~= seq![EventView::Cancelled(CANCELLED_MESSAGE@)]);
            return r;
        }
        let chunks = parse_text(self.provider, text);
        let ghost cs = chunk_views(chunks@);
        let ghost acc0 = self.accumulated@;
        let mut out: Vec<StreamEvent> = Vec::new();
        let mut k: usize = 0;
        assert(cs.skip(0) =~= cs);
        assert(event_views(out@) + run(acc0, cs).0 =~= run(acc0, cs).0);
        while k < chunks.len()
            invariant
                k <= chunks@.len(),
                cs == chunk_views(chunks@),
                cs == chunks_of_lines(old(self).provider, lines_of(text@)),
                cs.len() == chunks@.len(),
                self.state == StreamState::Streaming,
                old(self).state == StreamState::Streaming,
                !cancelled,
                acc0 == old(self).accumulated@,
                self.provider == old(self).provider,
                self.failure@ == old(self).failure@,
                conv@ == old(conv)@,
                conv.wf(),
                conv.capacity() == old(conv).capacity(),
                event_views(out@) + run(self.accumulated@, cs.skip(k as int)).0 == run(acc0, cs).0,
                run(self.accumulated@, cs.skip(k as int)).1 == run(acc0, cs).1,
            decreases chunks@.len() - k,
        {
            let ghost suffix = cs.skip(k as int);
            let ghost acc = self.accumulated@;
            let ghost prev = out@;
            proof {
                assert(suffix[0] == chunks@[k as int]@);
                assert(suffix.drop_first() =~= cs.skip(k as int + 1));
            }
            let c = &chunks[k];
            match &c.error {
                Some(e) => {
                    self.state = StreamState::Failed;
                    self.failure = String::from_str("Proxy server error: ").concat(e.as_str());
                    out.push(StreamEvent::Error(e.clone()));
                    assert(event_views(out@) =~= event_views(prev) + seq![EventView::Error(e@)]);
                    assert(c@.error == Some(e@));
                    assert(run(acc, suffix) == (seq![EventView::Error(e@)], Outcome::Failed(e@)));
                    assert(event_views(out@) =~= run(acc0, cs).0);
                    assert(run(acc0, cs).1 == Outcome::Failed(e@));
                    return out;
                },
                None => {},
            }
            if !(c.is_terminal && c.text.unicode_len() == 0) {
                out.push(StreamEvent::Chunk(c.text.clone()));
            }
            let ghost shown = if c@.is_terminal && c@.text.len() == 0 {
                Seq::<EventView>::empty()
            } else {
                seq![EventView::Chunk(c@.text)]
            };
            assert(event_views(out@) =~= event_views(prev) + shown);
            self.accumulated.append(c.text.as_str());
            if c.is_terminal {
                let done = self.complete(conv, now);
                let ghost mid = out@;
                out.push(done);
                assert(event_views(out@) =~= event_views(mid).push(done@));
                assert(event_views(out@) =~= event_views(prev) + shown.push(done@));
                assert(c@.error is None);
                assert(run(acc, suffix) == (
                    shown.push(EventView::Done(acc + c@.text)),
                    Outcome::Finished(acc + c@.text),
                ));
                assert(event_views(out@) =~= run(acc0, cs).0);
                assert(run(acc0, cs).1 == Outcome::Finished(self.accumulated@));
                return out;
            }
            proof {
                assert(c@.error is None);
                let (rest, o) = run(acc + c@.text, suffix.drop_first());
                assert(run(acc, suffix) == (shown + rest, o));
                assert(event_views(out@) + rest =~= event_views(prev) + (shown + rest));
            }
            k = k + 1;
        }
        assert(cs.skip(k as int) =~= Seq::<ChunkView>::empty());
        assert(event_views(out@) + Seq::<EventView>::empty() =~= event_views(out@));
        out
    }

    /// A block of response bytes arrived: decoded, then handled as text.
    pub fn on_bytes(&mut self, conv: &mut Conversation, cancelled: bool, bytes: &[u8], now: u64) -> (r:
        Vec<StreamEvent>)
        requires
            old(conv).wf(),
        ensures
            final(conv).wf(),
            final(conv).capacity() == old(conv).capacity(),
            final(self).spec_provider() == old(self).spec_provider(),
            final(self).spec_state() == old(self).spec_state() ==> final(self).spec_failure()
                == old(self).spec_failure(),
            old(self).spec_state() != StreamState::Streaming ==> {
                &&& final(self).spec_state() == old(self).spec_state()
                &&& final(self).spec_accumulated() == old(self).spec_accumulated()
                &&& final(conv)@ == old(conv)@
                &&& r@.len() == 0
            },
            old(self).spec_state() == StreamState::Streaming && cancelled ==> {
                &&& final(self).spec_state() == StreamState::Cancelled
                &&& final(self).spec_accumulated() == Seq::<char>::empty()
                &&& final(conv)@ == old(conv)@
                &&& event_views(r@) == seq![EventView::Cancelled(CANCELLED_MESSAGE@)]
            },
            old(self).spec_state() == StreamState::Streaming && !cancelled ==> {
                let (evs, out) = run(
                    old(self).spec_accumulated(),
                    chunks_of_lines(old(self).spec_provider(), lines_of(lossy_text(bytes@))),
                );
                &&& event_views(r@) == evs
                &&& match out {
                    Outcome::Open(a) => final(self).spec_state() == StreamState::Streaming
                        && final(self).spec_accumulated() == a && final(conv)@ == old(conv)@,
                    Outcome::Finished(a) => final(self).spec_state() == StreamState::Completed
                        && appended(
                        old(conv)@,
                        final(conv)@,
                        old(conv).capacity(),
                        Role::Assistant,
                        a,
                        now,
                    ),
                    Outcome::Failed(e) => final(self).spec_state() == StreamState::Failed
                        && final(self).spec_failure() == payload_error_text(e) && final(conv)@
                        == old(conv)@,
                }
            },
    {
        let text = decode_lossy(bytes);
        self.on_text(conv, cancelled, text.as_str(), now)
    }

    /// The response body ended. A stream that saw no terminal signal
    /// completes with what it accumulated, which becomes the assistant's
    /// turn. Outside streaming nothing changes.
    pub fn on_end(&mut self, conv: &mut Conversation, now: u64) -> (r: Vec<StreamEvent>)
        requires
            old(conv).wf(),
        ensures
            final(conv).wf(),
            final(conv).capacity() == old(conv).capacity(),
            final(self).spec_provider() == old(self).spec_provider(),
            final(self).spec_state() == old(self).spec_state() ==> final(self).spec_failure()
                == old(self).spec_failure(),
            final(self).spec_accumulated() == old(self).spec_accumulated(),
            old(self).spec_state() != StreamState::Streaming ==> {
                &&& final(self).spec_state() == old(self).spec_state()
                &&& final(conv)@ == old(conv)@
                &&& r@.len() == 0
            },
            old(self).spec_state() == StreamState::Streaming ==> {
                &&& final(self).spec_state() == StreamState::Completed
                &&& appended(
                    old(conv)@,
                    final(conv)@,
                    old(conv).capacity(),
                    Role::Assistant,
                    old(self).spec_accumulated(),
                    now,
                )
                &&& event_views(r@) == seq![EventView::Done(old(self).spec_accumulated())]
            },
    {
        if self.state != StreamState::Streaming {
            return Vec::new();
        }
        let done = self.complete(conv, now);
        let r = vec![done];
        assert(event_views(r@) =~= seq![done@]);
        r
    }
}

} // verus!
