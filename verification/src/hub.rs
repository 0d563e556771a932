//! The canvas hub: the single serialized authority over the shared canvas and
//! the connection registry. It processes Connect, Disconnect and Stroke
//! events one at a time, in arrival order, applies each accepted stroke to
//! the canvas, fans it out to every registered connection, and on each
//! persistence tick hands out a settled encoding of the canvas to persist.

use crate::canvas::{load_result, png_decoded, png_of, Canvas, LoadError};
use crate::color::Rgba;
use crate::geom::{stroke_effect, Draw};
use crate::registry::Registry;
use vstd::prelude::*;
use vstd::string::StringExecFns;

verus! {

/// A new client connected; `client` identifies its output channel.
#[derive(Clone, Copy, PartialEq, Eq, Structural, Debug)]
pub struct Connect {
    pub client: u64,
}

/// A client's output channel is gone and must be unregistered.
#[derive(Clone, Copy, PartialEq, Eq, Structural, Debug)]
pub struct Disconnect {
    pub client: u64,
}

/// Configures the fixed interval, in milliseconds, at which the transport
/// layer fires persistence ticks at the hub.
#[derive(Clone, Copy, PartialEq, Eq, Structural, Debug)]
pub struct ScheduleBackups {
    pub freq_ms: u64,
}

/// One event the hub can process.
#[derive(Clone, Copy, PartialEq, Eq, Structural, Debug)]
pub enum Event {
    Connect { client: u64 },
    Disconnect { client: u64 },
    Stroke(Draw),
    Tick,
}

/// The hub's abstract state: who is connected, and the canvas contents.
#[verifier::ext_equal]
pub ghost struct HubView {
    pub clients: Set<u64>,
    pub width: u32,
    pub height: u32,
    pub buf: Seq<u8>,
}

/// How one event transforms the hub state. Connection churn never touches
/// the canvas; a stroke never touches the connection set; a tick reads but
/// changes nothing.
pub open spec fn hub_step(s: HubView, e: Event) -> HubView {
    match e {
        Event::Connect { client } => HubView { clients: s.clients.insert(client), ..s },
        Event::Disconnect { client } => HubView { clients: s.clients.remove(client), ..s },
        Event::Stroke(d) => HubView { buf: stroke_effect(s.width, s.height, s.buf, d), ..s },
        Event::Tick => s,
    }
}

/// The hub state after processing a sequence of events, one at a time, in
/// arrival order.
pub open spec fn hub_run(s: HubView, es: Seq<Event>) -> HubView
    decreases es.len(),
{
    if es.len() == 0 {
        s
    } else {
        hub_run(hub_step(s, es[0]), es.drop_first())
    }
}

/// The strokes among a sequence of events, in arrival order.
pub open spec fn strokes_of(es: Seq<Event>) -> Seq<Draw>
    decreases es.len(),
{
    if es.len() == 0 {
        Seq::empty()
    } else {
        match es[0] {
            Event::Stroke(d) => seq![d] + strokes_of(es.drop_first()),
            _ => strokes_of(es.drop_first()),
        }
    }
}

/// The canvas buffer after applying a sequence of strokes in order.
pub open spec fn canvas_after(width: u32, height: u32, buf: Seq<u8>, ss: Seq<Draw>) -> Seq<u8>
    decreases ss.len(),
{
    if ss.len() == 0 {
        buf
    } else {
        canvas_after(width, height, stroke_effect(width, height, buf, ss[0]), ss.drop_first())
    }
}

/// The broadcast log of a run: one entry per stroke, in arrival order, with
/// the set of connections it was delivered to — exactly those registered at
/// the moment the stroke was accepted, the originator included.
pub open spec fn hub_log(s: HubView, es: Seq<Event>) -> Seq<(Draw, Set<u64>)>
    decreases es.len(),
{
    if es.len() == 0 {
        Seq::empty()
    } else {
        let rest = hub_log(hub_step(s, es[0]), es.drop_first());
        match es[0] {
            Event::Stroke(d) => seq![(d, s.clients)] + rest,
            _ => rest,
        }
    }
}

/// The final canvas depends only on the strokes processed, in their order:
/// interleaved connection churn and ticks never change what the canvas
/// becomes, and the dimensions never change at all.
pub proof fn lemma_canvas_independent_of_churn(s: HubView, es: Seq<Event>)
    ensures
        hub_run(s, es).width == s.width,
        hub_run(s, es).height == s.height,
        hub_run(s, es).buf == canvas_after(s.width, s.height, s.buf, strokes_of(es)),
    decreases es.len(),
{
    if es.len() > 0 {
        let s2 = hub_step(s, es[0]);
        lemma_canvas_independent_of_churn(s2, es.drop_first());
        match es[0] {
            Event::Stroke(d) => {
                let tail = strokes_of(es.drop_first());
                assert((seq![d] + tail).drop_first() =~= tail);
                assert((seq![d] + tail)[0] == d);
            },
            _ => {},
        }
    }
}

/// Processing a sequence of events splits: running a prefix and then the
/// rest is the same run, and the broadcast log concatenates likewise.
pub proof fn lemma_hub_run_append(s: HubView, es1: Seq<Event>, es2: Seq<Event>)
    ensures
        hub_run(s, es1 + es2) == hub_run(hub_run(s, es1), es2),
        hub_log(s, es1 + es2) == hub_log(s, es1) + hub_log(hub_run(s, es1), es2),
    decreases es1.len(),
{
    if es1.len() == 0 {
        assert(es1 + es2 =~= es2);
        assert(hub_log(s, es1) + hub_log(s, es2) =~= hub_log(s, es2));
    } else {
        let s2 = hub_step(s, es1[0]);
        assert((es1 + es2)[0] == es1[0]);
        assert((es1 + es2).drop_first() =~= es1.drop_first() + es2);
        lemma_hub_run_append(s2, es1.drop_first(), es2);
        match es1[0] {
            Event::Stroke(d) => {
                assert(hub_log(s, es1 + es2) =~= hub_log(s, es1) + hub_log(
                    hub_run(s, es1),
                    es2,
                ));
            },
            _ => {},
        }
    }
}

/// A connection registered now, and never disconnected during the events
/// that follow, is delivered every stroke accepted among them: none of the
/// strokes accepted after its registration is missing from its stream.
pub proof fn lemma_connected_receives_every_stroke(s: HubView, es: Seq<Event>, client: u64)
    requires
        s.clients.contains(client),
        forall|i: int|
            0 <= i < es.len() ==> es[i] != (Event::Disconnect { client }),
    ensures
        forall|j: int|
            0 <= j < hub_log(s, es).len() ==> (#[trigger] hub_log(s, es)[j]).1.contains(client),
    decreases es.len(),
{
    if es.len() > 0 {
        let s2 = hub_step(s, es[0]);
        assert(es[0] != (Event::Disconnect { client }));
        assert(s2.clients.contains(client));
        assert forall|i: int| 0 <= i < es.drop_first().len() implies es.drop_first()[i] != (
        Event::Disconnect { client }) by {
            assert(es.drop_first()[i] == es[i + 1]);
        }
        lemma_connected_receives_every_stroke(s2, es.drop_first(), client);
        let rest = hub_log(s2, es.drop_first());
        match es[0] {
            Event::Stroke(d) => {
                assert forall|j: int| 0 <= j < hub_log(s, es).len() implies (#[trigger] hub_log(
                    s,
                    es,
                )[j]).1.contains(client) by {
                    if j > 0 {
                        assert(hub_log(s, es)[j] == rest[j - 1]);
                    }
                }
            },
            _ => {},
        }
    }
}

/// A connection not registered, and never connected during the events that
/// follow, is delivered nothing: no stroke accepted before its eventual
/// registration can reach it (it receives that history in its connect-time
/// snapshot instead, so nothing is delivered twice).
pub proof fn lemma_stranger_receives_no_stroke(s: HubView, es: Seq<Event>, client: u64)
    requires
        !s.clients.contains(client),
        forall|i: int|
            0 <= i < es.len() ==> es[i] != (Event::Connect { client }),
    ensures
        forall|j: int|
            0 <= j < hub_log(s, es).len() ==> !(#[trigger] hub_log(s, es)[j]).1.contains(client),
    decreases es.len(),
{
    if es.len() > 0 {
        let s2 = hub_step(s, es[0]);
        assert(es[0] != (Event::Connect { client }));
        assert(!s2.clients.contains(client));
        assert forall|i: int| 0 <= i < es.drop_first().len() implies es.drop_first()[i] != (
        Event::Connect { client }) by {
            assert(es.drop_first()[i] == es[i + 1]);
        }
        lemma_stranger_receives_no_stroke(s2, es.drop_first(), client);
        let rest = hub_log(s2, es.drop_first());
        match es[0] {
            Event::Stroke(d) => {
                assert forall|j: int| 0 <= j < hub_log(s, es).len() implies !(#[trigger] hub_log(
                    s,
                    es,
                )[j]).1.contains(client) by {
                    if j > 0 {
                        assert(hub_log(s, es)[j] == rest[j - 1]);
                    }
                }
            },
            _ => {},
        }
    }
}

/// Disconnecting the same connection twice has the same observable effect as
/// disconnecting it once.
pub proof fn lemma_disconnect_idempotent(s: HubView, client: u64)
    ensures
        hub_step(hub_step(s, Event::Disconnect { client }), Event::Disconnect { client })
            == hub_step(s, Event::Disconnect { client }),
{
    assert(s.clients.remove(client).remove(client) =~= s.clients.remove(client));
    assert(hub_step(hub_step(s, Event::Disconnect { client }), Event::Disconnect { client })
        =~= hub_step(s, Event::Disconnect { client }));
}

/// What a persistence tick writes after any sequence of events: the encoding
/// of the canvas with every previously accepted stroke applied whole — a
/// settled state, never a torn mixture of a stroke mid-application.
pub proof fn lemma_tick_persists_settled(s: HubView, es: Seq<Event>)
    ensures
        png_of(hub_run(s, es).width, hub_run(s, es).height, hub_run(s, es).buf) == png_of(
            s.width,
            s.height,
            canvas_after(s.width, s.height, s.buf, strokes_of(es)),
        ),
{
    lemma_canvas_independent_of_churn(s, es);
}

/// The standard-alphabet base64 text of a byte string.
pub uninterp spec fn base64_of(data: Seq<u8>) -> Seq<char>;

/// Relies on base64's `Engine::encode` with the standard alphabet: the
/// output text depends only on the input bytes.
#[verifier::external_body]
fn base64_standard(data: &Vec<u8>) -> (r: String)
    ensures
        r@ == base64_of(data@),
{
    base64::Engine::encode(&base64::engine::general_purpose::STANDARD, data.as_slice())
}

/// The connect acknowledgment for a canvas: its PNG encoding as a base64
/// data URL, ready for a newly connecting client to seed its local canvas.
pub open spec fn snapshot_view(width: u32, height: u32, buf: Seq<u8>) -> Seq<char> {
    "data:image/png;base64,"@ + base64_of(png_of(width, height, buf))
}

/// The hub itself: the connection registry and the shared canvas, both
/// mutated only here, one event at a time.
pub struct Server {
    pub clients: Registry,
    pub canvas: Canvas,
}

impl View for Server {
    type V = HubView;

    open spec fn view(&self) -> HubView {
        HubView {
            clients: self.clients.as_set(),
            width: self.canvas.width,
            height: self.canvas.height,
            buf: self.canvas.buf@,
        }
    }
}

impl Server {
    /// The hub invariant: a well-formed registry and canvas.
    pub open spec fn wf(self) -> bool {
        self.clients.wf() && self.canvas.wf()
    }

    /// A hub with no connections, over the persisted canvas when acceptable
    /// persisted bytes are supplied, over a blank `background` canvas when
    /// none are, and a fatal startup error when they are corrupt.
    pub fn new(
        width: u32,
        height: u32,
        background: Rgba,
        persisted: Option<Vec<u8>>,
    ) -> (r: Result<Server, LoadError>)
        requires
            width >= 1,
            height >= 1,
            width as nat * height as nat * 4 <= usize::MAX as nat,
        ensures
            (match r {
                Ok(s) => s.wf() && s@.clients == Set::<u64>::empty() && s@.width == width
                    && s@.height == height && load_result(
                    width,
                    height,
                    background,
                    match persisted {
                        Some(b) => Some(b@),
                        None => None,
                    },
                ) == Ok::<Seq<u8>, LoadError>(s@.buf),
                Err(e) => load_result(
                    width,
                    height,
                    background,
                    match persisted {
                        Some(b) => Some(b@),
                        None => None,
                    },
                ) == Err::<Seq<u8>, LoadError>(e),
            }),
    {
        match Canvas::load_or_init(width, height, background, persisted) {
            Ok(canvas) => Ok(Server { clients: Registry::new(), canvas }),
            Err(e) => Err(e),
        }
    }

    /// Register a connection and return the current canvas snapshot as the
    /// connect acknowledgment: the snapshot reflects the canvas exactly at
    /// the moment of registration, before any later stroke.
    pub fn handle_connect(&mut self, msg: Connect) -> (snapshot: String)
        requires
            old(self).wf(),
        ensures
            final(self).wf(),
            final(self)@ == hub_step(old(self)@, Event::Connect { client: msg.client }),
            snapshot@ == snapshot_view(old(self)@.width, old(self)@.height, old(self)@.buf),
    {
        self.clients.insert(msg.client);
        let png = self.canvas.encode_png();
        let b64 = base64_standard(&png);
        let mut ack = String::from_str("data:image/png;base64,");
        ack.append(b64.as_str());
        ack
    }

    /// Unregister a connection. Idempotent: unregistering a connection not
    /// currently registered is a no-op, not an error.
    pub fn handle_disconnect(&mut self, msg: Disconnect)
        requires
            old(self).wf(),
        ensures
            final(self).wf(),
            final(self)@ == hub_step(old(self)@, Event::Disconnect { client: msg.client }),
    {
        self.clients.remove(msg.client);
    }

    /// Apply one stroke to the canvas, then hand back the connections the
    /// stroke is broadcast to: every currently registered one, the
    /// originator included, each exactly once.
    pub fn handle_draw(&mut self, msg: Draw) -> (recipients: Vec<u64>)
        requires
            old(self).wf(),
        ensures
            final(self).wf(),
            final(self)@ == hub_step(old(self)@, Event::Stroke(msg)),
            recipients@.to_set() == old(self)@.clients,
            recipients@ == final(self).clients.conns@,
    {
        self.canvas.apply_stroke(&msg);
        self.clients.members()
    }

    /// The bytes a persistence tick writes: a settled encoding of the
    /// current canvas, read outside any stroke application.
    pub fn backup(&self) -> (png: Vec<u8>)
        requires
            self.wf(),
        ensures
            png@ == png_of(self@.width, self@.height, self@.buf),
            png_decoded(png@) == Some((self.canvas.width, self.canvas.height, self.canvas.buf@)),
    {
        self.canvas.encode_png()
    }
}

} // verus!
