use vstd::prelude::*;

use crate::protocol::http::{HttpCtxView, ProtoHttpCtx};
use crate::protocol::icap::{IcapCtxView, ProtoIcapCtx, ICAP_NO_CHANGE, ICAP_REPLACE};

verus! {

/// A direction of a connection, and of the bodies submitted for adaptation.
#[derive(Clone, Copy, Debug, PartialEq, Eq, Structural)]
pub enum Direction {
    /// Client to origin: the request.
    Down,
    /// Origin to client: the response.
    Up,
}

/// The legs a session writes to.
pub enum Leg {
    Origin,
    Client,
    Adaptation,
}

/// Bytes for one leg of a session.
pub enum WriteBuffer {
    /// For the origin.
    UP(Vec<u8>),
    /// For the client.
    DOWN(Vec<u8>),
    /// For the adaptation service.
    ICAP(Vec<u8>),
}

impl View for WriteBuffer {
    type V = (Leg, Seq<u8>);

    open spec fn view(&self) -> (Leg, Seq<u8>) {
        match self {
            WriteBuffer::UP(b) => (Leg::Origin, b@),
            WriteBuffer::DOWN(b) => (Leg::Client, b@),
            WriteBuffer::ICAP(b) => (Leg::Adaptation, b@),
        }
    }
}

/// The leg that the bytes of a direction are bound for.
pub open spec fn target(d: Direction) -> Leg {
    match d {
        Direction::Down => Leg::Origin,
        Direction::Up => Leg::Client,
    }
}

pub open spec fn bytes_view(o: Option<Vec<u8>>) -> Option<Seq<u8>> {
    match o {
        Some(v) => Some(v@),
        None => None,
    }
}

pub open spec fn write_view(o: Option<WriteBuffer>) -> Option<(Leg, Seq<u8>)> {
    match o {
        Some(w) => Some(w@),
        None => None,
    }
}

/// Per-connection buffers and parsing state.
pub struct Http {
    /// Client bytes of a request head not yet forwarded.
    pub head_down_buffer: Vec<u8>,
    /// Client bytes after the request head, held for adaptation.
    pub body_down_buffer: Vec<u8>,
    /// Origin bytes of a response head not yet forwarded.
    pub head_up_buffer: Vec<u8>,
    /// Origin bytes after the response head, held for adaptation.
    pub body_up_buffer: Vec<u8>,
    /// Adaptation-service bytes of the current exchange.
    pub icap_buffer: Vec<u8>,
    /// The body most recently submitted for adaptation.
    pub submitted_buffer: Vec<u8>,
    /// The direction whose body is out for adaptation, if any.
    pub exchange: Option<Direction>,
    pub http_ctx: ProtoHttpCtx,
    pub icap_ctx: ProtoIcapCtx,
}

/// The abstract state of an [`Http`] session.
pub struct SessionView {
    pub head_down: Seq<u8>,
    pub body_down: Seq<u8>,
    pub head_up: Seq<u8>,
    pub body_up: Seq<u8>,
    pub icap: Seq<u8>,
    pub submitted: Seq<u8>,
    pub exchange: Option<Direction>,
    pub ctx: HttpCtxView,
    pub icap_ctx: IcapCtxView,
}

impl View for Http {
    type V = SessionView;

    open spec fn view(&self) -> SessionView {
        SessionView {
            head_down: self.head_down_buffer@,
            body_down: self.body_down_buffer@,
            head_up: self.head_up_buffer@,
            body_up: self.body_up_buffer@,
            icap: self.icap_buffer@,
            submitted: self.submitted_buffer@,
            exchange: self.exchange,
            ctx: self.http_ctx@,
            icap_ctx: self.icap_ctx@,
        }
    }
}

impl SessionView {
    /// The state of a session that has just been opened.
    pub open spec fn initial() -> SessionView {
        SessionView {
            head_down: Seq::empty(),
            body_down: Seq::empty(),
            head_up: Seq::empty(),
            body_up: Seq::empty(),
            icap: Seq::empty(),
            submitted: Seq::empty(),
            exchange: None,
            ctx: HttpCtxView::initial(),
            icap_ctx: IcapCtxView::initial(),
        }
    }

    /// A chunk read from the client: the next state, and what goes to the origin now.
    pub open spec fn read_down(self, chunk: Seq<u8>) -> (SessionView, Option<Seq<u8>>) {
        if !self.ctx.valid {
            (self, Some(chunk))
        } else if self.ctx.req_seen {
            (
                SessionView {
                    ctx: HttpCtxView { req_bytes: (self.ctx.req_bytes + chunk.len()) as u64, ..self.ctx },
                    body_down: self.body_down + chunk,
                    ..self
                },
                None,
            )
        } else {
            let head = self.head_down + chunk;
            let (ctx, end) = self.ctx.after_request_head(head);
            if !ctx.valid {
                (SessionView { ctx: ctx, head_down: Seq::empty(), ..self }, Some(head))
            } else if ctx.req_seen {
                (
                    SessionView {
                        ctx: ctx,
                        head_down: head.subrange(0, end as int),
                        body_down: self.body_down + head.subrange(end as int, head.len() as int),
                        ..self
                    },
                    None,
                )
            } else {
                (SessionView { ctx: ctx, head_down: head, ..self }, None)
            }
        }
    }

    /// A chunk read from the origin: the next state, and what goes to the client now.
    pub open spec fn read_up(self, chunk: Seq<u8>) -> (SessionView, Option<Seq<u8>>) {
        if !self.ctx.valid {
            (self, Some(chunk))
        } else if self.ctx.resp_seen {
            (
                SessionView {
                    ctx: HttpCtxView { resp_bytes: (self.ctx.resp_bytes + chunk.len()) as u64, ..self.ctx },
                    body_up: self.body_up + chunk,
                    ..self
                },
                None,
            )
        } else {
            let head = self.head_up + chunk;
            let (ctx, end) = self.ctx.after_response_head(head);
            if !ctx.valid {
                (SessionView { ctx: ctx, head_up: Seq::empty(), ..self }, Some(head))
            } else if ctx.resp_seen {
                (
                    SessionView {
                        ctx: ctx,
                        head_up: head.subrange(0, end as int),
                        body_up: self.body_up + head.subrange(end as int, head.len() as int),
                        ..self
                    },
                    None,
                )
            } else {
                (SessionView { ctx: ctx, head_up: head, ..self }, None)
            }
        }
    }

    /// What a verdict hands to the direction that submitted the body, if any did.
    pub open spec fn to_owner(self, bytes: Seq<u8>) -> Option<(Leg, Seq<u8>)> {
        match self.exchange {
            Some(d) => Some((target(d), bytes)),
            None => None,
        }
    }

    /// A chunk read from the adaptation service: the next state, and what is written now.
    pub open spec fn read_icap(self, chunk: Seq<u8>) -> (SessionView, Option<(Leg, Seq<u8>)>) {
        let buf = self.icap + chunk;
        let (ictx, end) = self.icap_ctx.after_icap_head(buf);
        if !ictx.valid {
            (
                SessionView {
                    ctx: HttpCtxView { valid: false, ..self.ctx },
                    icap_ctx: ictx,
                    icap: Seq::empty(),
                    submitted: Seq::empty(),
                    exchange: None,
                    ..self
                },
                self.to_owner(buf),
            )
        } else if !ictx.seen {
            (SessionView { icap_ctx: ictx, icap: buf, ..self }, None)
        } else if ictx.code == ICAP_NO_CHANGE {
            (
                SessionView {
                    icap_ctx: IcapCtxView::initial(),
                    icap: Seq::empty(),
                    submitted: Seq::empty(),
                    exchange: None,
                    ..self
                },
                self.to_owner(self.submitted),
            )
        } else if ictx.code == ICAP_REPLACE {
            (
                SessionView {
                    icap_ctx: IcapCtxView::initial(),
                    icap: Seq::empty(),
                    submitted: Seq::empty(),
                    exchange: None,
                    ..self
                },
                self.to_owner(ictx.body),
            )
        } else {
            (SessionView { icap_ctx: IcapCtxView::initial(), icap: ictx.body, ..self }, None)
        }
    }

    /// The pending check: flush a head buffer whose head has been parsed (any held
    /// bytes once adaptation is given up), else submit a held body for adaptation when
    /// no exchange is out.
    pub open spec fn pending(self) -> (SessionView, Option<(Leg, Seq<u8>)>) {
        if self.head_down.len() > 0 && (self.ctx.req_seen || !self.ctx.valid) {
            (SessionView { head_down: Seq::empty(), ..self }, Some((Leg::Origin, self.head_down)))
        } else if self.head_up.len() > 0 && (self.ctx.resp_seen || !self.ctx.valid) {
            (SessionView { head_up: Seq::empty(), ..self }, Some((Leg::Client, self.head_up)))
        } else if !self.ctx.valid && self.body_down.len() > 0 {
            (SessionView { body_down: Seq::empty(), ..self }, Some((Leg::Origin, self.body_down)))
        } else if !self.ctx.valid && self.body_up.len() > 0 {
            (SessionView { body_up: Seq::empty(), ..self }, Some((Leg::Client, self.body_up)))
        } else if self.ctx.valid && self.exchange is None && self.body_down.len() > 0 {
            (
                SessionView {
                    body_down: Seq::empty(),
                    submitted: self.body_down,
                    exchange: Some(Direction::Down),
                    ..self
                },
                Some((Leg::Adaptation, self.body_down)),
            )
        } else if self.ctx.valid && self.exchange is None && self.body_up.len() > 0 {
            (
                SessionView {
                    body_up: Seq::empty(),
                    submitted: self.body_up,
                    exchange: Some(Direction::Up),
                    ..self
                },
                Some((Leg::Adaptation, self.body_up)),
            )
        } else {
            (self, None)
        }
    }
}

/// Appends the first `n` bytes of `src` to `dst`.
fn push_prefix(dst: &mut Vec<u8>, src: &[u8], n: usize)
    requires
        n <= src@.len(),
    ensures
        final(dst)@ == old(dst)@ + src@.subrange(0, n as int),
{
    let mut i: usize = 0;
    while i < n
        invariant
            i <= n <= src@.len(),
            dst@ == old(dst)@ + src@.subrange(0, i as int),
        decreases n - i,
    {
        dst.push(src[i]);
        proof {
            assert(src@.subrange(0, i + 1) == src@.subrange(0, i as int).push(src@[i as int]));
        }
        i = i + 1;
    }
}

/// Moves every byte out of `v`.
fn take_all(v: &mut Vec<u8>) -> (r: Vec<u8>)
    ensures
        r@ == old(v)@,
        final(v)@ == Seq::<u8>::empty(),
{
    v.split_off(0)
}

/// Bytes of direction `d` bound for its target leg.
fn for_target(d: Direction, bytes: Vec<u8>) -> (r: WriteBuffer)
    ensures
        r@ == (target(d), bytes@),
{
    match d {
        Direction::Down => WriteBuffer::UP(bytes),
        Direction::Up => WriteBuffer::DOWN(bytes),
    }
}

impl Http {
    pub fn new() -> (r: Self)
        ensures
            r@ == SessionView::initial(),
    {
        Self {
            head_down_buffer: Vec::new(),
            body_down_buffer: Vec::new(),
            head_up_buffer: Vec::new(),
            body_up_buffer: Vec::new(),
            icap_buffer: Vec::new(),
            submitted_buffer: Vec::new(),
            exchange: None,
            http_ctx: ProtoHttpCtx::new(),
            icap_ctx: ProtoIcapCtx::new(),
        }
    }

    /// Hands a verdict's bytes to the direction that submitted the body, and closes the
    /// exchange.
    fn settle_exchange(&mut self, bytes: Vec<u8>) -> (r: Option<WriteBuffer>)
        ensures
            write_view(r) == old(self)@.to_owner(bytes@),
            final(self)@ == (SessionView { submitted: Seq::empty(), exchange: None, ..old(self)@ }),
    {
        self.submitted_buffer.clear();
        let owner = self.exchange;
        self.exchange = None;
        match owner {
            Some(d) => Some(for_target(d, bytes)),
            None => None,
        }
    }

    /// Takes a chunk, the first `size` bytes of `buffer`, read from the client. Returns
    /// what is to be written to the origin now: the chunk itself once adaptation has
    /// been given up, the whole held head when this chunk makes it malformed, else
    /// nothing (the bytes are held as head or body).
    pub fn read_service_down(&mut self, buffer: &mut [u8], size: usize) -> (r: Option<Vec<u8>>)
        requires
            size <= old(buffer)@.len(),
            old(self).http_ctx@.req_bytes + old(self).head_down_buffer@.len() + size <= u64::MAX,
        ensures
            final(buffer)@ == old(buffer)@,
            (final(self)@, bytes_view(r)) == old(self)@.read_down(old(buffer)@.subrange(0, size as int)),
            !old(self)@.ctx.valid ==> !final(self)@.ctx.valid,
    {
        if !self.http_ctx.is_valid() {
            let mut out: Vec<u8> = Vec::new();
            push_prefix(&mut out, buffer, size);
            return Some(out);
        }
        if self.http_ctx.req_seen_head() {
            self.http_ctx.req_seen_bytes_inc(size as u64);
            push_prefix(&mut self.body_down_buffer, buffer, size);
            return None;
        }
        push_prefix(&mut self.head_down_buffer, buffer, size);
        let head_size = self.http_ctx.parse_http_req_header(self.head_down_buffer.as_slice());
        if !self.http_ctx.is_valid() {
            return Some(take_all(&mut self.head_down_buffer));
        }
        if self.http_ctx.req_seen_head() {
            let mut tail = self.head_down_buffer.split_off(head_size);
            self.body_down_buffer.append(&mut tail);
            return None;
        }
        None
    }

    /// Takes a chunk, the first `size` bytes of `buffer`, read from the origin, as
    /// [`Self::read_service_down`] does for the client; what it returns goes to the client.
    pub fn read_service_up(&mut self, buffer: &mut [u8], size: usize) -> (r: Option<Vec<u8>>)
        requires
            size <= old(buffer)@.len(),
            old(self).http_ctx@.resp_bytes + old(self).head_up_buffer@.len() + size <= u64::MAX,
        ensures
            final(buffer)@ == old(buffer)@,
            (final(self)@, bytes_view(r)) == old(self)@.read_up(old(buffer)@.subrange(0, size as int)),
            !old(self)@.ctx.valid ==> !final(self)@.ctx.valid,
    {
        if !self.http_ctx.is_valid() {
            let mut out: Vec<u8> = Vec::new();
            push_prefix(&mut out, buffer, size);
            return Some(out);
        }
        if self.http_ctx.resp_seen_head() {
            self.http_ctx.resp_seen_bytes_inc(size as u64);
            push_prefix(&mut self.body_up_buffer, buffer, size);
            return None;
        }
        push_prefix(&mut self.head_up_buffer, buffer, size);
        let head_size = self.http_ctx.parse_http_resp_header(self.head_up_buffer.as_slice());
        if !self.http_ctx.is_valid() {
            return Some(take_all(&mut self.head_up_buffer));
        }
        if self.http_ctx.resp_seen_head() {
            let mut tail = self.head_up_buffer.split_off(head_size);
            self.body_up_buffer.append(&mut tail);
            return None;
        }
        None
    }

    /// Takes a chunk, the first `size` bytes of `buffer`, read from the adaptation
    /// service. A malformed response gives up adaptation for the connection and sends
    /// the raw response bytes toward the submitting direction; a 204 verdict releases
    /// the submitted body unchanged, a 200 verdict the adapted body in its place; any
    /// other code waits for more.
    pub fn read_service_icap(&mut self, buffer: &mut [u8], size: usize) -> (r: Option<WriteBuffer>)
        requires
            size <= old(buffer)@.len(),
        ensures
            final(buffer)@ == old(buffer)@,
            (final(self)@, write_view(r)) == old(self)@.read_icap(old(buffer)@.subrange(0, size as int)),
            !old(self)@.ctx.valid ==> !final(self)@.ctx.valid,
    {
        push_prefix(&mut self.icap_buffer, buffer, size);
        let _ = self.icap_ctx.parse_icap_resp(self.icap_buffer.as_slice());
        if !self.icap_ctx.get_vaild() {
            self.http_ctx.invalidate();
            let raw = take_all(&mut self.icap_buffer);
            return self.settle_exchange(raw);
        }
        if !self.icap_ctx.get_seen_head() {
            return None;
        }
        let code = self.icap_ctx.get_code();
        let body = self.icap_ctx.get_body();
        self.icap_ctx.reset();
        if code == ICAP_NO_CHANGE {
            self.icap_buffer.clear();
            let original = take_all(&mut self.submitted_buffer);
            self.settle_exchange(original)
        } else if code == ICAP_REPLACE {
            self.icap_buffer.clear();
            self.settle_exchange(body)
        } else {
            self.icap_buffer = body;
            None
        }
    }

    /// The pending check, run until it returns nothing before each wait on the legs:
    /// see [`SessionView::pending`].
    pub fn pending_service(&mut self) -> (r: Option<WriteBuffer>)
        ensures
            (final(self)@, write_view(r)) == old(self)@.pending(),
            !old(self)@.ctx.valid ==> !final(self)@.ctx.valid,
    {
        let valid = self.http_ctx.is_valid();
        if self.head_down_buffer.len() > 0 && (self.http_ctx.req_seen_head() || !valid) {
            return Some(WriteBuffer::UP(take_all(&mut self.head_down_buffer)));
        }
        if self.head_up_buffer.len() > 0 && (self.http_ctx.resp_seen_head() || !valid) {
            return Some(WriteBuffer::DOWN(take_all(&mut self.head_up_buffer)));
        }
        if !valid && self.body_down_buffer.len() > 0 {
            return Some(WriteBuffer::UP(take_all(&mut self.body_down_buffer)));
        }
        if !valid && self.body_up_buffer.len() > 0 {
            return Some(WriteBuffer::DOWN(take_all(&mut self.body_up_buffer)));
        }
        if valid && self.exchange.is_none() && self.body_down_buffer.len() > 0 {
            let body = take_all(&mut self.body_down_buffer);
            self.submitted_buffer = body.clone();
            self.exchange = Some(Direction::Down);
            return Some(WriteBuffer::ICAP(body));
        }
        if valid && self.exchange.is_none() && self.body_up_buffer.len() > 0 {
            let body = take_all(&mut self.body_up_buffer);
            self.submitted_buffer = body.clone();
            self.exchange = Some(Direction::Up);
            return Some(WriteBuffer::ICAP(body));
        }
        None
    }
}

} // verus!
