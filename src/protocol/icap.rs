use vstd::prelude::*;

use crate::protocol::head::{ends_within, icap_head_of, scan_icap_head, HeadStatus, MAX_ICAP_HEADERS};

verus! {

/// The code of an adaptation response that leaves the content unchanged.
pub const ICAP_NO_CHANGE: u16 = 204;

/// The code of an adaptation response that replaces the content.
pub const ICAP_REPLACE: u16 = 200;

/// Per-connection state of one exchange with the adaptation service.
pub struct ProtoIcapCtx {
    body: Vec<u8>,
    code: u16,
    seen_header: bool,
    not_vaild: bool,
}

/// The abstract state of a [`ProtoIcapCtx`].
pub struct IcapCtxView {
    pub body: Seq<u8>,
    pub code: u16,
    pub seen: bool,
    pub valid: bool,
}

impl IcapCtxView {
    /// The state before an exchange, and after `reset`.
    pub open spec fn initial() -> IcapCtxView {
        IcapCtxView { body: Seq::empty(), code: ICAP_NO_CHANGE, seen: false, valid: true }
    }

    /// The state after a scan of the accumulated response bytes `data` found `scan`, and
    /// the offset to return.
    pub open spec fn after_icap_scan(self, scan: HeadStatus<u16>, data: Seq<u8>) -> (IcapCtxView, usize) {
        match scan {
            HeadStatus::Complete(end, code) => (
                IcapCtxView {
                    body: data.subrange(end as int, data.len() as int),
                    code: code,
                    seen: true,
                    valid: self.valid,
                },
                end,
            ),
            HeadStatus::Partial => (self, 0),
            HeadStatus::Malformed => (IcapCtxView { valid: false, ..self }, 0),
        }
    }

    /// The state after `data`, the whole accumulated response buffer, has been scanned,
    /// and the offset that the scan reports.
    pub open spec fn after_icap_head(self, data: Seq<u8>) -> (IcapCtxView, usize) {
        self.after_icap_scan(icap_head_of(data, MAX_ICAP_HEADERS), data)
    }
}

impl View for ProtoIcapCtx {
    type V = IcapCtxView;

    closed spec fn view(&self) -> IcapCtxView {
        IcapCtxView {
            body: self.body@,
            code: self.code,
            seen: self.seen_header,
            valid: !self.not_vaild,
        }
    }
}

impl ProtoIcapCtx {
    pub fn new() -> (r: Self)
        ensures
            r@ == IcapCtxView::initial(),
    {
        Self { body: Vec::new(), code: ICAP_NO_CHANGE, seen_header: false, not_vaild: false }
    }

    pub fn set_body(&mut self, body: Vec<u8>)
        ensures
            final(self)@ == (IcapCtxView { body: body@, ..old(self)@ }),
    {
        self.body = body;
    }

    pub fn get_body(&self) -> (r: Vec<u8>)
        ensures
            r@ == self@.body,
    {
        self.body.clone()
    }

    pub fn set_code(&mut self, code: u16)
        ensures
            final(self)@ == (IcapCtxView { code: code, ..old(self)@ }),
    {
        self.code = code;
    }

    pub fn get_code(&self) -> (r: u16)
        ensures
            r == self@.code,
    {
        self.code
    }

    pub fn set_seen_head(&mut self, seen: bool)
        ensures
            final(self)@ == (IcapCtxView { seen: seen, ..old(self)@ }),
    {
        self.seen_header = seen;
    }

    pub fn get_seen_head(&self) -> (r: bool)
        ensures
            r == self@.seen,
    {
        self.seen_header
    }

    pub fn get_vaild(&self) -> (r: bool)
        ensures
            r == self@.valid,
    {
        !self.not_vaild
    }

    pub fn set_valid(&mut self, valid: bool)
        ensures
            final(self)@ == (IcapCtxView { valid: valid, ..old(self)@ }),
    {
        self.not_vaild = !valid;
    }

    /// Restores the state that precedes an exchange: code 204, no body, no head seen, valid.
    pub fn reset(&mut self)
        ensures
            final(self)@ == IcapCtxView::initial(),
    {
        self.body.clear();
        self.code = ICAP_NO_CHANGE;
        self.seen_header = false;
        self.not_vaild = false;
    }

    /// Records what a scan of the accumulated adaptation-response bytes `data` found: a
    /// complete head records its status code, takes every byte after the head as the
    /// body, marks the head seen and returns the head's length; an incomplete head
    /// changes nothing and returns 0; a malformed one returns 0 and makes the context
    /// invalid.
    pub fn apply_icap_head(&mut self, scan: HeadStatus<u16>, data: &[u8]) -> (r: usize)
        requires
            ends_within(scan@, data@.len() as int),
        ensures
            (final(self)@, r) == old(self)@.after_icap_scan(scan@, data@),
            r <= data@.len(),
    {
        match scan {
            HeadStatus::Complete(end, code) => {
                let mut body: Vec<u8> = Vec::new();
                let mut i: usize = end;
                while i < data.len()
                    invariant
                        end <= i <= data@.len(),
                        body@ == data@.subrange(end as int, i as int),
                    decreases data@.len() - i,
                {
                    body.push(data[i]);
                    proof {
                        assert(data@.subrange(end as int, i + 1) == data@.subrange(end as int, i as int).push(data@[i as int]));
                    }
                    i = i + 1;
                }
                self.set_code(code);
                self.set_body(body);
                self.set_seen_head(true);
                end
            },
            HeadStatus::Partial => 0,
            HeadStatus::Malformed => {
                self.set_valid(false);
                0
            },
        }
    }

    /// Scans `data`, the whole accumulated adaptation-response buffer, with room for 32
    /// header fields, and records the outcome (see [`Self::apply_icap_head`]).
    pub fn parse_icap_resp(&mut self, data: &[u8]) -> (r: usize)
        ensures
            (final(self)@, r) == old(self)@.after_icap_head(data@),
            r <= data@.len(),
    {
        let scan = scan_icap_head(data, MAX_ICAP_HEADERS);
        self.apply_icap_head(scan, data)
    }
}

} // verus!
