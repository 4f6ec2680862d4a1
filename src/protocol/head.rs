use vstd::prelude::*;

verus! {

/// Header fields accepted in one head block; a head with more is malformed.
pub const MAX_HEADERS: usize = 16;

/// Header fields accepted in one adaptation-service response head.
pub const MAX_ICAP_HEADERS: usize = 32;

/// What scanning an accumulating buffer for one complete head block found.
pub enum HeadStatus<T> {
    /// A complete head block ends at this offset; `T` is what its first line carries
    /// (a request method, or a status code).
    Complete(usize, T),
    /// The buffer holds the start of a head block that is not yet complete.
    Partial,
    /// The buffer cannot start a well-formed head block.
    Malformed,
}

impl<T: View> View for HeadStatus<T> {
    type V = HeadStatus<T::V>;

    open spec fn view(&self) -> HeadStatus<T::V> {
        match self {
            HeadStatus::Complete(end, t) => HeadStatus::Complete(*end, t@),
            HeadStatus::Partial => HeadStatus::Partial,
            HeadStatus::Malformed => HeadStatus::Malformed,
        }
    }
}

/// A complete head never ends beyond the scanned bytes.
pub open spec fn ends_within<T>(s: HeadStatus<T>, len: int) -> bool {
    match s {
        HeadStatus::Complete(end, _) => end <= len,
        _ => true,
    }
}

/// What the HTTP request-head parser finds in `data`, with room for `max_headers` fields.
pub uninterp spec fn request_head_of(data: Seq<u8>, max_headers: usize) -> HeadStatus<Seq<char>>;

/// What the HTTP response-head parser finds in `data`, with room for `max_headers` fields.
pub uninterp spec fn response_head_of(data: Seq<u8>, max_headers: usize) -> HeadStatus<u16>;

/// What the ICAP response-head parser finds in `data`, with room for `max_headers` fields.
pub uninterp spec fn icap_head_of(data: Seq<u8>, max_headers: usize) -> HeadStatus<u16>;

/// Relies on `httparse::Request::parse`: `Complete(n)` gives the offset just past the
/// head block (never past the buffer) and sets the method; `Partial` asks for more
/// bytes; an error marks the bytes malformed (also when more than `max_headers` fields
/// come). The outcome depends on the bytes and the field capacity alone.
#[verifier::external_body]
pub(crate) fn scan_request_head(data: &[u8], max_headers: usize) -> (r: HeadStatus<String>)
    ensures
        r@ == request_head_of(data@, max_headers),
        ends_within(r@, data@.len() as int),
{
    let mut headers = vec![httparse::EMPTY_HEADER; max_headers];
    let mut req = httparse::Request::new(&mut headers);
    match req.parse(data) {
        Ok(httparse::Status::Complete(end)) => {
            HeadStatus::Complete(end, req.method.unwrap_or_default().to_string())
        },
        Ok(httparse::Status::Partial) => HeadStatus::Partial,
        Err(_) => HeadStatus::Malformed,
    }
}

/// Relies on `httparse::Response::parse`: `Complete(n)` gives the offset just past the
/// head block (never past the buffer) and sets the three-digit status code; `Partial`
/// asks for more bytes; an error marks the bytes malformed. The outcome depends on the
/// bytes and the field capacity alone.
#[verifier::external_body]
pub(crate) fn scan_response_head(data: &[u8], max_headers: usize) -> (r: HeadStatus<u16>)
    ensures
        r@ == response_head_of(data@, max_headers),
        ends_within(r@, data@.len() as int),
{
    let mut headers = vec![httparse::EMPTY_HEADER; max_headers];
    let mut res = httparse::Response::new(&mut headers);
    match res.parse(data) {
        Ok(httparse::Status::Complete(end)) => HeadStatus::Complete(end, res.code.unwrap_or_default()),
        Ok(httparse::Status::Partial) => HeadStatus::Partial,
        Err(_) => HeadStatus::Malformed,
    }
}

/// Relies on `icaparse::Response::parse`: `Complete(n)` gives the offset just past the
/// ICAP status line and headers (never past the buffer) and sets the status code;
/// `Partial` asks for more bytes; an error marks the bytes malformed. The outcome
/// depends on the bytes and the field capacity alone.
#[verifier::external_body]
pub(crate) fn scan_icap_head(data: &[u8], max_headers: usize) -> (r: HeadStatus<u16>)
    ensures
        r@ == icap_head_of(data@, max_headers),
        ends_within(r@, data@.len() as int),
{
    let mut headers = vec![icaparse::EMPTY_HEADER; max_headers];
    let mut res = icaparse::Response::new(&mut headers);
    match res.parse(data) {
        Ok(icaparse::Status::Complete(end)) => HeadStatus::Complete(end, res.code.unwrap_or_default()),
        Ok(icaparse::Status::Partial) => HeadStatus::Partial,
        Err(_) => HeadStatus::Malformed,
    }
}

} // verus!
