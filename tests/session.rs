use ndlp_proxy::proxy::http::{Direction, Http, WriteBuffer};

fn down(http: &mut Http, bytes: &[u8]) -> Option<Vec<u8>> {
    let mut b = bytes.to_vec();
    let n = b.len();
    http.read_service_down(&mut b, n)
}

fn up(http: &mut Http, bytes: &[u8]) -> Option<Vec<u8>> {
    let mut b = bytes.to_vec();
    let n = b.len();
    http.read_service_up(&mut b, n)
}

fn icap(http: &mut Http, bytes: &[u8]) -> Option<WriteBuffer> {
    let mut b = bytes.to_vec();
    let n = b.len();
    http.read_service_icap(&mut b, n)
}

fn leg(w: Option<WriteBuffer>) -> Option<(&'static str, Vec<u8>)> {
    w.map(|w| match w {
        WriteBuffer::UP(b) => ("origin", b),
        WriteBuffer::DOWN(b) => ("client", b),
        WriteBuffer::ICAP(b) => ("adaptation", b),
    })
}

const HEAD: &[u8] = b"POST /up HTTP/1.1\r\nHost: a\r\nContent-Length: 3\r\n\r\n";

#[test]
fn request_without_body_forwarded_unchanged_on_no_change() {
    let req = b"GET / HTTP/1.1\r\nHost: a\r\n\r\n";
    let mut http = Http::new();
    assert!(down(&mut http, req).is_none());
    assert_eq!(leg(http.pending_service()), Some(("origin", req.to_vec())));
    assert!(leg(http.pending_service()).is_none());
    assert!(leg(icap(&mut http, b"ICAP/1.0 204 No Content\r\n\r\n")).is_none());
    assert!(http.http_ctx.is_valid());
}

#[test]
fn no_change_verdict_releases_original_body() {
    let mut http = Http::new();
    let mut req = HEAD.to_vec();
    req.extend_from_slice(b"abc");
    assert!(down(&mut http, &req).is_none());
    assert_eq!(leg(http.pending_service()), Some(("origin", HEAD.to_vec())));
    assert_eq!(leg(http.pending_service()), Some(("adaptation", b"abc".to_vec())));
    assert_eq!(http.exchange, Some(Direction::Down));
    assert!(leg(icap(&mut http, b"ICAP/1.0 204 No Conte")).is_none());
    assert_eq!(
        leg(icap(&mut http, b"nt\r\nISTag: \"1\"\r\n\r\n")),
        Some(("origin", b"abc".to_vec()))
    );
    assert_eq!(http.exchange, None);
    assert!(http.icap_buffer.is_empty());
    assert!(http.submitted_buffer.is_empty());
}

#[test]
fn replace_verdict_forwards_adapted_body() {
    let mut http = Http::new();
    assert!(down(&mut http, HEAD).is_none());
    assert!(down(&mut http, b"abc").is_none());
    assert_eq!(leg(http.pending_service()), Some(("origin", HEAD.to_vec())));
    assert_eq!(leg(http.pending_service()), Some(("adaptation", b"abc".to_vec())));
    assert_eq!(
        leg(icap(&mut http, b"ICAP/1.0 200 OK\r\nISTag: \"1\"\r\n\r\nXYZ!")),
        Some(("origin", b"XYZ!".to_vec()))
    );
    assert!(http.icap_ctx.get_vaild());
    assert_eq!(http.icap_ctx.get_code(), 204);
}

#[test]
fn response_body_verdict_goes_to_client() {
    let mut http = Http::new();
    let head = b"HTTP/1.1 200 OK\r\nContent-Length: 4\r\n\r\n";
    let mut resp = head.to_vec();
    resp.extend_from_slice(b"data");
    assert!(up(&mut http, &resp).is_none());
    assert_eq!(http.http_ctx.resp_status_code(), 200);
    assert_eq!(leg(http.pending_service()), Some(("client", head.to_vec())));
    assert_eq!(leg(http.pending_service()), Some(("adaptation", b"data".to_vec())));
    assert_eq!(http.exchange, Some(Direction::Up));
    assert_eq!(
        leg(icap(&mut http, b"ICAP/1.0 200 OK\r\n\r\nsafe")),
        Some(("client", b"safe".to_vec()))
    );
}

#[test]
fn interim_code_waits_for_final_verdict() {
    let mut http = Http::new();
    assert!(down(&mut http, HEAD).is_none());
    assert!(down(&mut http, b"abc").is_none());
    http.pending_service();
    http.pending_service();
    assert!(leg(icap(&mut http, b"ICAP/1.0 100 Continue\r\n\r\n")).is_none());
    assert_eq!(http.exchange, Some(Direction::Down));
    assert_eq!(
        leg(icap(&mut http, b"ICAP/1.0 204 No Content\r\n\r\n")),
        Some(("origin", b"abc".to_vec()))
    );
}

#[test]
fn malformed_request_head_is_forwarded_verbatim() {
    let mut http = Http::new();
    assert_eq!(down(&mut http, b"GARBAGE\r\n\r\n"), Some(b"GARBAGE\r\n\r\n".to_vec()));
    assert!(!http.http_ctx.is_valid());
    assert!(http.head_down_buffer.is_empty());
    assert_eq!(down(&mut http, b"more bytes"), Some(b"more bytes".to_vec()));
    assert_eq!(up(&mut http, b"HTTP/1.1 200 OK\r\n\r\n"), Some(b"HTTP/1.1 200 OK\r\n\r\n".to_vec()));
    assert!(leg(http.pending_service()).is_none());
}

#[test]
fn malformed_head_split_across_reads_forwards_all_held_bytes() {
    let mut http = Http::new();
    assert!(down(&mut http, b"GARB").is_none());
    assert_eq!(down(&mut http, b"AGE\r\n"), Some(b"GARBAGE\r\n".to_vec()));
}

#[test]
fn only_prefix_of_read_buffer_is_used() {
    let mut http = Http::new();
    let mut b = b"GARBAGE\r\n\r\nignored".to_vec();
    assert_eq!(http.read_service_down(&mut b, 11), Some(b"GARBAGE\r\n\r\n".to_vec()));
    assert_eq!(b, b"GARBAGE\r\n\r\nignored".to_vec());
    let mut c = b"abcdef".to_vec();
    assert_eq!(http.read_service_down(&mut c, 2), Some(b"ab".to_vec()));
}

#[test]
fn malformed_adaptation_reply_gives_up_adaptation() {
    let mut http = Http::new();
    assert!(down(&mut http, HEAD).is_none());
    assert!(down(&mut http, b"abc").is_none());
    http.pending_service();
    http.pending_service();
    assert_eq!(
        leg(icap(&mut http, b"BOGUS 200\r\n\r\n")),
        Some(("origin", b"BOGUS 200\r\n\r\n".to_vec()))
    );
    assert!(!http.http_ctx.is_valid());
    assert_eq!(http.exchange, None);
    assert_eq!(down(&mut http, b"tail"), Some(b"tail".to_vec()));
}

#[test]
fn fallback_flushes_held_bytes() {
    let mut http = Http::new();
    assert!(down(&mut http, HEAD).is_none());
    assert!(down(&mut http, b"abc").is_none());
    assert!(up(&mut http, b"HTTP/1.1 20").is_none());
    http.http_ctx.invalidate();
    assert_eq!(leg(http.pending_service()), Some(("origin", HEAD.to_vec())));
    assert_eq!(leg(http.pending_service()), Some(("client", b"HTTP/1.1 20".to_vec())));
    assert_eq!(leg(http.pending_service()), Some(("origin", b"abc".to_vec())));
    assert!(leg(http.pending_service()).is_none());
}

#[test]
fn body_over_many_reads_counts_every_byte() {
    let mut http = Http::new();
    let body = vec![b'x'; 20000];
    let mut stream = HEAD.to_vec();
    stream.extend_from_slice(&body);
    let mut events = 0;
    for chunk in stream.chunks(8192) {
        let before = http.http_ctx.req_seen_head();
        let mut b = chunk.to_vec();
        let n = b.len();
        assert!(http.read_service_down(&mut b, n).is_none());
        if !before && http.http_ctx.req_seen_head() {
            events += 1;
        }
    }
    assert_eq!(events, 1);
    assert_eq!(http.http_ctx._req_seen_bytes(), stream.len() as u64);
    assert_eq!(http.body_down_buffer, body);
}

#[test]
fn head_split_byte_by_byte_parses_once() {
    let mut http = Http::new();
    let mut events = 0;
    for byte in HEAD.iter() {
        let before = http.http_ctx.req_seen_head();
        assert!(down(&mut http, &[*byte]).is_none());
        if !before && http.http_ctx.req_seen_head() {
            events += 1;
        }
    }
    assert_eq!(events, 1);
    assert_eq!(http.http_ctx._req_seen_bytes(), HEAD.len() as u64);
    assert_eq!(http.http_ctx._req_method(), "POST");
}

#[test]
fn no_verdict_without_submitted_body() {
    let mut http = Http::new();
    assert!(leg(icap(&mut http, b"ICAP/1.0 200 OK\r\n\r\nx")).is_none());
    assert!(http.http_ctx.is_valid());
}
