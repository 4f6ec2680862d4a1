use vstd::prelude::*;

use crate::protocol::head::{
    request_head_of, response_head_of, scan_request_head, scan_response_head, HeadStatus,
    MAX_HEADERS,
};

verus! {

/// Parsing state of the client-to-origin direction.
pub struct ProtoHttpReq {
    pub seen_header: bool,
    pub http_method: String,
    pub seen_bytes: u64,
}

/// Parsing state of the origin-to-client direction.
pub struct ProtoHttpResp {
    pub seen_header: bool,
    pub http_status_code: u16,
    pub seen_bytes: u64,
}

/// Per-connection HTTP parsing state covering both directions, with the fail-open flag.
pub struct ProtoHttpCtx {
    not_valid: bool,
    req: ProtoHttpReq,
    resp: ProtoHttpResp,
}

/// The abstract state of a [`ProtoHttpCtx`].
pub struct HttpCtxView {
    /// False once adaptation has been given up for the connection.
    pub valid: bool,
    pub req_seen: bool,
    pub method: Seq<char>,
    pub req_bytes: u64,
    pub resp_seen: bool,
    pub status: u16,
    pub resp_bytes: u64,
}

impl HttpCtxView {
    /// The state of a connection that has just been accepted.
    pub open spec fn initial() -> HttpCtxView {
        HttpCtxView {
            valid: true,
            req_seen: false,
            method: Seq::empty(),
            req_bytes: 0,
            resp_seen: false,
            status: 0,
            resp_bytes: 0,
        }
    }

    /// The state after a request-head scan of `len` accumulated bytes found `scan`, and
    /// the offset to return.
    pub open spec fn after_request_scan(self, scan: HeadStatus<Seq<char>>, len: nat) -> (HttpCtxView, usize) {
        match scan {
            HeadStatus::Complete(end, method) => (
                HttpCtxView {
                    req_seen: true,
                    method: method,
                    req_bytes: (self.req_bytes + len) as u64,
                    ..self
                },
                end,
            ),
            HeadStatus::Partial => (self, 0),
            HeadStatus::Malformed => (HttpCtxView { valid: false, ..self }, 0),
        }
    }

    /// The state after a response-head scan of `len` accumulated bytes found `scan`, and
    /// the offset to return.
    pub open spec fn after_response_scan(self, scan: HeadStatus<u16>, len: nat) -> (HttpCtxView, usize) {
        match scan {
            HeadStatus::Complete(end, code) => (
                HttpCtxView {
                    resp_seen: true,
                    status: code,
                    resp_bytes: (self.resp_bytes + len) as u64,
                    ..self
                },
                end,
            ),
            HeadStatus::Partial => (self, 0),
            HeadStatus::Malformed => (HttpCtxView { valid: false, ..self }, 0),
        }
    }

    /// The state after `data`, the whole accumulated request-head buffer, has been scanned,
    /// and the offset that the scan reports.
    pub open spec fn after_request_head(self, data: Seq<u8>) -> (HttpCtxView, usize) {
        self.after_request_scan(request_head_of(data, MAX_HEADERS), data.len())
    }

    /// The state after `data`, the whole accumulated response-head buffer, has been scanned,
    /// and the offset that the scan reports.
    pub open spec fn after_response_head(self, data: Seq<u8>) -> (HttpCtxView, usize) {
        self.after_response_scan(response_head_of(data, MAX_HEADERS), data.len())
    }
}

impl View for ProtoHttpCtx {
    type V = HttpCtxView;

    closed spec fn view(&self) -> HttpCtxView {
        HttpCtxView {
            valid: !self.not_valid,
            req_seen: self.req.seen_header,
            method: self.req.http_method@,
            req_bytes: self.req.seen_bytes,
            resp_seen: self.resp.seen_header,
            status: self.resp.http_status_code,
            resp_bytes: self.resp.seen_bytes,
        }
    }
}

impl ProtoHttpReq {
    pub fn new() -> (r: Self)
        ensures
            !r.seen_header,
            r.http_method@ == Seq::<char>::empty(),
            r.seen_bytes == 0,
    {
        Self { seen_header: false, http_method: String::new(), seen_bytes: 0 }
    }
}

impl ProtoHttpResp {
    pub fn new() -> (r: Self)
        ensures
            !r.seen_header,
            r.http_status_code == 0,
            r.seen_bytes == 0,
    {
        Self { seen_header: false, http_status_code: 0, seen_bytes: 0 }
    }
}

impl ProtoHttpCtx {
    pub fn new() -> (r: Self)
        ensures
            r@ == HttpCtxView::initial(),
    {
        Self { not_valid: false, req: ProtoHttpReq::new(), resp: ProtoHttpResp::new() }
    }

    pub fn req_seen_bytes_inc(&mut self, size: u64)
        requires
            old(self)@.req_bytes + size <= u64::MAX,
        ensures
            final(self)@ == (HttpCtxView { req_bytes: (old(self)@.req_bytes + size) as u64, ..old(self)@ }),
    {
        self.req.seen_bytes = self.req.seen_bytes + size;
    }

    pub fn _req_seen_bytes(&self) -> (r: u64)
        ensures
            r == self@.req_bytes,
    {
        self.req.seen_bytes
    }

    pub fn req_seen_head_set(&mut self, seen: bool)
        ensures
            final(self)@ == (HttpCtxView { req_seen: seen, ..old(self)@ }),
    {
        self.req.seen_header = seen;
    }

    pub fn req_seen_head(&self) -> (r: bool)
        ensures
            r == self@.req_seen,
    {
        self.req.seen_header
    }

    pub fn resp_seen_bytes_inc(&mut self, size: u64)
        requires
            old(self)@.resp_bytes + size <= u64::MAX,
        ensures
            final(self)@ == (HttpCtxView { resp_bytes: (old(self)@.resp_bytes + size) as u64, ..old(self)@ }),
    {
        self.resp.seen_bytes = self.resp.seen_bytes + size;
    }

    pub fn _resp_seen_bytes(&self) -> (r: u64)
        ensures
            r == self@.resp_bytes,
    {
        self.resp.seen_bytes
    }

    pub fn resp_seen_head_set(&mut self, seen: bool)
        ensures
            final(self)@ == (HttpCtxView { resp_seen: seen, ..old(self)@ }),
    {
        self.resp.seen_header = seen;
    }

    pub fn resp_seen_head(&self) -> (r: bool)
        ensures
            r == self@.resp_seen,
    {
        self.resp.seen_header
    }

    pub fn _req_method(&self) -> (r: String)
        ensures
            r@ == self@.method,
    {
        self.req.http_method.clone()
    }

    pub fn resp_status_code(&self) -> (r: u16)
        ensures
            r == self@.status,
    {
        self.resp.http_status_code
    }

    pub fn is_valid(&self) -> (r: bool)
        ensures
            r == self@.valid,
    {
        !self.not_valid
    }

    /// Gives up adaptation for the connection; nothing makes it valid again.
    pub fn invalidate(&mut self)
        ensures
            final(self)@ == (HttpCtxView { valid: false, ..old(self)@ }),
    {
        self.not_valid = true;
    }

    /// Records what a scan of the `len` accumulated client-to-origin head bytes found: a
    /// complete head records the method, marks the request head seen, adds `len` to the
    /// request byte count, and returns the offset just past the head; an incomplete head
    /// changes nothing and returns 0; a malformed one returns 0 and makes the context
    /// invalid for good.
    pub fn apply_request_head(&mut self, scan: HeadStatus<String>, len: usize) -> (r: usize)
        requires
            old(self)@.req_bytes + len <= u64::MAX,
        ensures
            (final(self)@, r) == old(self)@.after_request_scan(scan@, len as nat),
    {
        match scan {
            HeadStatus::Complete(end, method) => {
                self.req.http_method = method;
                self.req.seen_header = true;
                self.req.seen_bytes = self.req.seen_bytes + len as u64;
                end
            },
            HeadStatus::Partial => 0,
            HeadStatus::Malformed => {
                self.not_valid = true;
                0
            },
        }
    }

    /// Records what a scan of the `len` accumulated origin-to-client head bytes found, as
    /// [`Self::apply_request_head`] does for requests, with the status code.
    pub fn apply_response_head(&mut self, scan: HeadStatus<u16>, len: usize) -> (r: usize)
        requires
            old(self)@.resp_bytes + len <= u64::MAX,
        ensures
            (final(self)@, r) == old(self)@.after_response_scan(scan@, len as nat),
    {
        match scan {
            HeadStatus::Complete(end, code) => {
                self.resp.http_status_code = code;
                self.resp.seen_header = true;
                self.resp.seen_bytes = self.resp.seen_bytes + len as u64;
                end
            },
            HeadStatus::Partial => 0,
            HeadStatus::Malformed => {
                self.not_valid = true;
                0
            },
        }
    }

    /// Scans `data`, the whole accumulated client-to-origin head buffer, with room for 16
    /// header fields, and records the outcome (see [`Self::apply_request_head`]).
    pub fn parse_http_req_header(&mut self, data: &[u8]) -> (r: usize)
        requires
            old(self)@.req_bytes + data@.len() <= u64::MAX,
        ensures
            (final(self)@, r) == old(self)@.after_request_head(data@),
            r <= data@.len(),
    {
        let scan = scan_request_head(data, MAX_HEADERS);
        self.apply_request_head(scan, data.len())
    }

    /// Scans `data`, the whole accumulated origin-to-client head buffer, with room for 16
    /// header fields, and records the outcome (see [`Self::apply_response_head`]).
    pub fn parse_http_resp_header(&mut self, data: &[u8]) -> (r: usize)
        requires
            old(self)@.resp_bytes + data@.len() <= u64::MAX,
        ensures
            (final(self)@, r) == old(self)@.after_response_head(data@),
            r <= data@.len(),
    {
        let scan = scan_response_head(data, MAX_HEADERS);
        self.apply_response_head(scan, data.len())
    }
}

} // verus!
