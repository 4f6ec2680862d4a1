use vstd::prelude::*;

use crate::protocol::head::{
    ends_within, icap_head_of, request_head_of, response_head_of, HeadStatus, MAX_HEADERS, MAX_ICAP_HEADERS,
};
use crate::protocol::http::HttpCtxView;
use crate::protocol::icap::{IcapCtxView, ICAP_NO_CHANGE, ICAP_REPLACE};
use crate::proxy::http::{target, Direction, SessionView};

verus! {

/// The bytes of `chunks`, one after another.
pub open spec fn concat(chunks: Seq<Seq<u8>>) -> Seq<u8>
    decreases chunks.len(),
{
    if chunks.len() == 0 {
        Seq::empty()
    } else {
        concat(chunks.drop_last()) + chunks.last()
    }
}

/// The session after reading `chunks` from the client, one read per chunk.
pub open spec fn feed_down(s: SessionView, chunks: Seq<Seq<u8>>) -> SessionView
    decreases chunks.len(),
{
    if chunks.len() == 0 {
        s
    } else {
        feed_down(s, chunks.drop_last()).read_down(chunks.last()).0
    }
}

/// The session after reading `chunks` from the origin, one read per chunk.
pub open spec fn feed_up(s: SessionView, chunks: Seq<Seq<u8>>) -> SessionView
    decreases chunks.len(),
{
    if chunks.len() == 0 {
        s
    } else {
        feed_up(s, chunks.drop_last()).read_up(chunks.last()).0
    }
}

/// How many of those reads completed the request head.
pub open spec fn head_events_down(s: SessionView, chunks: Seq<Seq<u8>>) -> nat
    decreases chunks.len(),
{
    if chunks.len() == 0 {
        0
    } else {
        let before = feed_down(s, chunks.drop_last());
        let event: nat = if !before.ctx.req_seen && before.read_down(chunks.last()).0.ctx.req_seen {
            1
        } else {
            0
        };
        head_events_down(s, chunks.drop_last()) + event
    }
}

/// One event of a session's relay loop.
pub enum SessionEvent {
    FromClient(Seq<u8>),
    FromOrigin(Seq<u8>),
    FromAdaptation(Seq<u8>),
    Pending,
}

/// The session after one event.
pub open spec fn step(s: SessionView, e: SessionEvent) -> SessionView {
    match e {
        SessionEvent::FromClient(c) => s.read_down(c).0,
        SessionEvent::FromOrigin(c) => s.read_up(c).0,
        SessionEvent::FromAdaptation(c) => s.read_icap(c).0,
        SessionEvent::Pending => s.pending().0,
    }
}

/// The session after a run of events.
pub open spec fn run(s: SessionView, events: Seq<SessionEvent>) -> SessionView
    decreases events.len(),
{
    if events.len() == 0 {
        s
    } else {
        step(run(s, events.drop_last()), events.last())
    }
}

/// Once a session has given up adaptation, no sequence of reads and pending checks makes
/// it valid again.
pub proof fn lemma_fallback_is_final(s: SessionView, events: Seq<SessionEvent>)
    requires
        !s.ctx.valid,
    ensures
        !run(s, events).ctx.valid,
    decreases events.len(),
{
    if events.len() > 0 {
        lemma_fallback_is_final(s, events.drop_last());
    }
}

/// With a body of direction `d` out for adaptation, a response head with code 204
/// releases the submitted body, unchanged, toward that direction's target; one with code
/// 200 sends the bytes after the response head there in its place. Either way the
/// exchange closes and the adaptation state is back at its defaults.
pub proof fn lemma_verdict(s: SessionView, chunk: Seq<u8>, d: Direction)
    requires
        s.exchange == Some(d),
        s.icap_ctx.valid,
        !s.icap_ctx.seen,
    ensures
        ({
            let buf = s.icap + chunk;
            let (next, out) = s.read_icap(chunk);
            match icap_head_of(buf, MAX_ICAP_HEADERS) {
                HeadStatus::Complete(end, code) => {
                    &&& code == ICAP_NO_CHANGE ==> out == Some((target(d), s.submitted))
                    &&& code == ICAP_REPLACE ==> out == Some(
                        (target(d), buf.subrange(end as int, buf.len() as int)),
                    )
                    &&& (code == ICAP_NO_CHANGE || code == ICAP_REPLACE) ==> next.exchange is None
                        && next.icap_ctx == IcapCtxView::initial()
                }
                HeadStatus::Partial => out is None && next.exchange == s.exchange,
                HeadStatus::Malformed => !next.ctx.valid && out == Some((target(d), buf)),
            }
        }),
{
}

/// Reading a request from the client in any number of chunks completes the head at most
/// once, in exactly one read if it is complete at the end; the request byte count is
/// then the number of bytes read, and 0 before.
pub proof fn lemma_request_byte_count(chunks: Seq<Seq<u8>>)
    requires
        concat(chunks).len() <= u64::MAX,
    ensures
        head_events_down(SessionView::initial(), chunks) == if feed_down(
            SessionView::initial(),
            chunks,
        ).ctx.req_seen {
            1nat
        } else {
            0nat
        },
        feed_down(SessionView::initial(), chunks).ctx.req_bytes == if feed_down(
            SessionView::initial(),
            chunks,
        ).ctx.req_seen {
            concat(chunks).len()
        } else {
            0
        },
{
    lemma_request_count_shape(chunks);
}

/// What holds of the session after any chunking of client reads.
proof fn lemma_request_count_shape(chunks: Seq<Seq<u8>>)
    requires
        concat(chunks).len() <= u64::MAX,
    ensures
        ({
            let s = feed_down(SessionView::initial(), chunks);
            &&& !s.ctx.req_seen ==> s.ctx.req_bytes == 0
            &&& s.ctx.valid && !s.ctx.req_seen ==> s.head_down == concat(chunks)
            &&& s.ctx.req_seen ==> s.ctx.valid && s.ctx.req_bytes == concat(chunks).len()
            &&& head_events_down(SessionView::initial(), chunks) == if s.ctx.req_seen {
                1nat
            } else {
                0nat
            }
        }),
    decreases chunks.len(),
{
    if chunks.len() > 0 {
        let pre = chunks.drop_last();
        assert(concat(chunks) == concat(pre) + chunks.last());
        lemma_request_count_shape(pre);
    }
}

/// The request-head parser is undecided on no bytes; once it has decided on a prefix of
/// `all` (complete or malformed), it decides the same on every longer prefix; and a
/// complete head ends within the prefix scanned.
pub open spec fn request_head_settles(all: Seq<u8>) -> bool {
    &&& request_head_of(Seq::empty(), MAX_HEADERS) is Partial
    &&& forall|i: int, j: int|
        #![trigger request_head_of(all.subrange(0, i), MAX_HEADERS), request_head_of(all.subrange(0, j), MAX_HEADERS)]
        0 <= i <= j <= all.len() && !(request_head_of(all.subrange(0, i), MAX_HEADERS) is Partial)
            ==> request_head_of(all.subrange(0, j), MAX_HEADERS) == request_head_of(
            all.subrange(0, i),
            MAX_HEADERS,
        )
    &&& forall|i: int|
        0 <= i <= all.len() ==> ends_within(#[trigger] request_head_of(all.subrange(0, i), MAX_HEADERS), i)
}

/// Where the client's bytes `all` stand in a session that has read exactly them.
pub open spec fn down_shape(s: SessionView, all: Seq<u8>) -> bool {
    &&& s.ctx == HttpCtxView::initial().after_request_head(all).0
    &&& match request_head_of(all, MAX_HEADERS) {
        HeadStatus::Complete(end, _) => s.head_down == all.subrange(0, end as int) && s.body_down
            == all.subrange(end as int, all.len() as int),
        HeadStatus::Partial => s.head_down == all && s.body_down == Seq::<u8>::empty(),
        HeadStatus::Malformed => s.head_down == Seq::<u8>::empty() && s.body_down == Seq::<u8>::empty(),
    }
}

proof fn lemma_settles_prefix(all: Seq<u8>, n: int)
    requires
        0 <= n <= all.len(),
        request_head_settles(all),
    ensures
        request_head_settles(all.subrange(0, n)),
{
    let a = all.subrange(0, n);
    assert forall|i: int| 0 <= i <= a.len() implies a.subrange(0, i) == all.subrange(0, i) by {
        assert(a.subrange(0, i) =~= all.subrange(0, i));
    }
    assert forall|i: int, j: int|
        0 <= i <= j <= a.len() && !(request_head_of(a.subrange(0, i), MAX_HEADERS) is Partial) implies
        request_head_of(a.subrange(0, j), MAX_HEADERS) == request_head_of(a.subrange(0, i), MAX_HEADERS) by {
        assert(a.subrange(0, i) == all.subrange(0, i));
        assert(a.subrange(0, j) == all.subrange(0, j));
        assert(request_head_of(all.subrange(0, j), MAX_HEADERS) == request_head_of(all.subrange(0, i), MAX_HEADERS));
    }
    assert forall|i: int| 0 <= i <= a.len() implies ends_within(request_head_of(a.subrange(0, i), MAX_HEADERS), i) by {
        assert(a.subrange(0, i) == all.subrange(0, i));
        assert(ends_within(request_head_of(all.subrange(0, i), MAX_HEADERS), i));
    }
}

proof fn lemma_down_shape(chunks: Seq<Seq<u8>>)
    requires
        concat(chunks).len() <= u64::MAX,
        request_head_settles(concat(chunks)),
    ensures
        down_shape(feed_down(SessionView::initial(), chunks), concat(chunks)),
    decreases chunks.len(),
{
    let all = concat(chunks);
    if chunks.len() == 0 {
        assert(all == Seq::<u8>::empty());
    } else {
        let pre = chunks.drop_last();
        let c = chunks.last();
        let a = concat(pre);
        assert(all == a + c);
        assert(all.subrange(0, a.len() as int) == a);
        assert(all.subrange(0, all.len() as int) == all);
        lemma_settles_prefix(all, a.len() as int);
        lemma_down_shape(pre);
        let s = feed_down(SessionView::initial(), pre);
        assert(ends_within(request_head_of(all.subrange(0, all.len() as int), MAX_HEADERS), all.len() as int));
        assert(ends_within(request_head_of(all.subrange(0, a.len() as int), MAX_HEADERS), a.len() as int));
        match request_head_of(a, MAX_HEADERS) {
            HeadStatus::Complete(end, _) => {
                assert(request_head_of(all.subrange(0, all.len() as int), MAX_HEADERS)
                    == request_head_of(all.subrange(0, a.len() as int), MAX_HEADERS));
                assert(all.subrange(0, end as int) == a.subrange(0, end as int));
                assert(a.subrange(end as int, a.len() as int) + c == all.subrange(end as int, all.len() as int));
            },
            HeadStatus::Partial => {
                assert(s.head_down + c == all);
                assert(Seq::<u8>::empty() + all.subrange(0, all.len() as int) == all);
                match request_head_of(all, MAX_HEADERS) {
                    HeadStatus::Complete(end, _) => {
                        assert(Seq::<u8>::empty() + all.subrange(end as int, all.len() as int)
                            == all.subrange(end as int, all.len() as int));
                    },
                    _ => {},
                }
            },
            HeadStatus::Malformed => {
                assert(request_head_of(all.subrange(0, all.len() as int), MAX_HEADERS)
                    == request_head_of(all.subrange(0, a.len() as int), MAX_HEADERS));
            },
        }
    }
}

/// Chunk-boundary independence: reading a request from the client in any chunking gives
/// the same parsing state (method, validity, byte count) as scanning all its bytes in one
/// call, and splits head from body at the offset that scan reports. Of the parser it
/// needs only what [`request_head_settles`] states.
pub proof fn lemma_request_chunking(chunks: Seq<Seq<u8>>)
    requires
        concat(chunks).len() <= u64::MAX,
        request_head_settles(concat(chunks)),
    ensures
        ({
            let s = feed_down(SessionView::initial(), chunks);
            let all = concat(chunks);
            let (one, end) = HttpCtxView::initial().after_request_head(all);
            &&& s.ctx == one
            &&& one.req_seen ==> s.head_down == all.subrange(0, end as int) && s.body_down
                == all.subrange(end as int, all.len() as int)
        }),
{
    lemma_down_shape(chunks);
}

/// The response-head parser is undecided on no bytes; once it has decided on a prefix of
/// `all` (complete or malformed), it decides the same on every longer prefix; and a
/// complete head ends within the prefix scanned.
pub open spec fn response_head_settles(all: Seq<u8>) -> bool {
    &&& response_head_of(Seq::empty(), MAX_HEADERS) is Partial
    &&& forall|i: int, j: int|
        #![trigger response_head_of(all.subrange(0, i), MAX_HEADERS), response_head_of(all.subrange(0, j), MAX_HEADERS)]
        0 <= i <= j <= all.len() && !(response_head_of(all.subrange(0, i), MAX_HEADERS) is Partial)
            ==> response_head_of(all.subrange(0, j), MAX_HEADERS) == response_head_of(
            all.subrange(0, i),
            MAX_HEADERS,
        )
    &&& forall|i: int|
        0 <= i <= all.len() ==> ends_within(#[trigger] response_head_of(all.subrange(0, i), MAX_HEADERS), i)
}

/// Where the origin's bytes `all` stand in a session that has read exactly them.
pub open spec fn up_shape(s: SessionView, all: Seq<u8>) -> bool {
    &&& s.ctx == HttpCtxView::initial().after_response_head(all).0
    &&& match response_head_of(all, MAX_HEADERS) {
        HeadStatus::Complete(end, _) => s.head_up == all.subrange(0, end as int) && s.body_up
            == all.subrange(end as int, all.len() as int),
        HeadStatus::Partial => s.head_up == all && s.body_up == Seq::<u8>::empty(),
        HeadStatus::Malformed => s.head_up == Seq::<u8>::empty() && s.body_up == Seq::<u8>::empty(),
    }
}

proof fn lemma_response_settles_prefix(all: Seq<u8>, n: int)
    requires
        0 <= n <= all.len(),
        response_head_settles(all),
    ensures
        response_head_settles(all.subrange(0, n)),
{
    let a = all.subrange(0, n);
    assert forall|i: int| 0 <= i <= a.len() implies a.subrange(0, i) == all.subrange(0, i) by {
        assert(a.subrange(0, i) =~= all.subrange(0, i));
    }
    assert forall|i: int, j: int|
        0 <= i <= j <= a.len() && !(response_head_of(a.subrange(0, i), MAX_HEADERS) is Partial) implies
        response_head_of(a.subrange(0, j), MAX_HEADERS) == response_head_of(a.subrange(0, i), MAX_HEADERS) by {
        assert(a.subrange(0, i) == all.subrange(0, i));
        assert(a.subrange(0, j) == all.subrange(0, j));
        assert(response_head_of(all.subrange(0, j), MAX_HEADERS) == response_head_of(all.subrange(0, i), MAX_HEADERS));
    }
    assert forall|i: int| 0 <= i <= a.len() implies ends_within(response_head_of(a.subrange(0, i), MAX_HEADERS), i) by {
        assert(a.subrange(0, i) == all.subrange(0, i));
        assert(ends_within(response_head_of(all.subrange(0, i), MAX_HEADERS), i));
    }
}

proof fn lemma_up_shape(chunks: Seq<Seq<u8>>)
    requires
        concat(chunks).len() <= u64::MAX,
        response_head_settles(concat(chunks)),
    ensures
        up_shape(feed_up(SessionView::initial(), chunks), concat(chunks)),
    decreases chunks.len(),
{
    let all = concat(chunks);
    if chunks.len() == 0 {
        assert(all == Seq::<u8>::empty());
    } else {
        let pre = chunks.drop_last();
        let c = chunks.last();
        let a = concat(pre);
        assert(all == a + c);
        assert(all.subrange(0, a.len() as int) == a);
        assert(all.subrange(0, all.len() as int) == all);
        lemma_response_settles_prefix(all, a.len() as int);
        lemma_up_shape(pre);
        let s = feed_up(SessionView::initial(), pre);
        assert(ends_within(response_head_of(all.subrange(0, all.len() as int), MAX_HEADERS), all.len() as int));
        assert(ends_within(response_head_of(all.subrange(0, a.len() as int), MAX_HEADERS), a.len() as int));
        match response_head_of(a, MAX_HEADERS) {
            HeadStatus::Complete(end, _) => {
                assert(response_head_of(all.subrange(0, all.len() as int), MAX_HEADERS)
                    == response_head_of(all.subrange(0, a.len() as int), MAX_HEADERS));
                assert(all.subrange(0, end as int) == a.subrange(0, end as int));
                assert(a.subrange(end as int, a.len() as int) + c == all.subrange(end as int, all.len() as int));
            },
            HeadStatus::Partial => {
                assert(s.head_up + c == all);
                assert(Seq::<u8>::empty() + all.subrange(0, all.len() as int) == all);
                match response_head_of(all, MAX_HEADERS) {
                    HeadStatus::Complete(end, _) => {
                        assert(Seq::<u8>::empty() + all.subrange(end as int, all.len() as int)
                            == all.subrange(end as int, all.len() as int));
                    },
                    _ => {},
                }
            },
            HeadStatus::Malformed => {
                assert(response_head_of(all.subrange(0, all.len() as int), MAX_HEADERS)
                    == response_head_of(all.subrange(0, a.len() as int), MAX_HEADERS));
            },
        }
    }
}

/// Chunk-boundary independence: reading a response from the origin in any chunking gives
/// the same parsing state (status code, validity, byte count) as scanning all its bytes in one
/// call, and splits head from body at the offset that scan reports. Of the parser it
/// needs only what [`response_head_settles`] states.
pub proof fn lemma_response_chunking(chunks: Seq<Seq<u8>>)
    requires
        concat(chunks).len() <= u64::MAX,
        response_head_settles(concat(chunks)),
    ensures
        ({
            let s = feed_up(SessionView::initial(), chunks);
            let all = concat(chunks);
            let (one, end) = HttpCtxView::initial().after_response_head(all);
            &&& s.ctx == one
            &&& one.resp_seen ==> s.head_up == all.subrange(0, end as int) && s.body_up
                == all.subrange(end as int, all.len() as int)
        }),
{
    lemma_up_shape(chunks);
}

} // verus!
