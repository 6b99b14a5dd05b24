use dsh_desktop::readiness::{
    http_request, index_is_up, is_web_ready, looks_like_dsh_api, looks_like_dsh_index, poll_event,
    poll_step, take_reply, url, PollStep, ReadAction, ReadEvent, EVENTS_ROUTE, INDEX_ROUTE,
    POLL_INTERVAL_MS, PORT, READY_DEADLINE_MS, REPLY_LIMIT,
};

#[test]
fn looks_like_dsh_index_accepts_boot_html() {
    let res = "HTTP/1.1 200 OK\r\nContent-Type: text/html\r\n\r\n<html><script>window.__DSH_BOOT__={}</script></html>";
    assert!(looks_like_dsh_index(res.as_bytes()));
}

#[test]
fn looks_like_dsh_index_rejects_startup_404() {
    let res = "HTTP/1.1 404 Not Found\r\nConnection: close\r\n\r\n";
    assert!(!looks_like_dsh_index(res.as_bytes()));
}

#[test]
fn looks_like_dsh_api_accepts_upgrade_required() {
    let res = "HTTP/1.1 426 Upgrade Required\r\nConnection: close\r\n\r\nupgrade required";
    assert!(looks_like_dsh_api(res.as_bytes()));
    assert!(!looks_like_dsh_api(b"HTTP/1.1 404 Not Found\r\n\r\n"));
}

#[test]
fn is_web_ready_requires_boot_html_and_api_route() {
    let not_found = b"HTTP/1.1 404 Not Found\r\nConnection: close\r\n\r\n".to_vec();
    let api = b"HTTP/1.1 426 Upgrade Required\r\nConnection: close\r\n\r\nupgrade required".to_vec();
    let index = b"HTTP/1.1 200 OK\r\nConnection: close\r\n\r\n<html>window.__DSH_BOOT__={}</html>".to_vec();
    assert!(
        !is_web_ready(&Some(not_found.clone()), &Some(api.clone())),
        "404 during plugin mount must not count as ready"
    );
    assert!(
        is_web_ready(&Some(index.clone()), &Some(api.clone())),
        "boot HTML plus /api/events.host 426 must count as ready"
    );
    assert!(!is_web_ready(&Some(index.clone()), &Some(not_found)));
    assert!(!is_web_ready(&Some(index.clone()), &None));
    assert!(!is_web_ready(&None, &Some(api.clone())));
    assert!(!is_web_ready(&Some(api), &Some(index)));
}

#[test]
fn older_http_counts_too() {
    assert!(looks_like_dsh_index(b"HTTP/1.0 200 OK\r\n\r\n__DSH_BOOT__"));
    assert!(looks_like_dsh_api(b"HTTP/1.0 426 Upgrade Required\r\n\r\n"));
    assert!(!looks_like_dsh_index(b"HTTP/2.0 200 OK\r\n\r\n__DSH_BOOT__"));
    assert!(!looks_like_dsh_index(b" HTTP/1.1 200 OK\r\n\r\n__DSH_BOOT__"));
}

#[test]
fn a_page_without_the_boot_script_is_not_the_index() {
    assert!(!looks_like_dsh_index(b"HTTP/1.1 200 OK\r\n\r\n<html>__DSH_BOOT_</html>"));
    assert!(!looks_like_dsh_index(b"HTTP/1.1 200"));
    assert!(!looks_like_dsh_index(b""));
    assert!(!looks_like_dsh_api(b""));
}

#[test]
fn bytes_that_are_not_text_do_not_hide_the_boot_script() {
    let mut page = b"HTTP/1.1 200 OK\r\n\r\n\xff\xe4".to_vec();
    page.extend_from_slice(b"__DSH_BOOT__\xf0");
    assert!(looks_like_dsh_index(&page));
    assert!(!looks_like_dsh_index(b"HTTP/1.1 200 OK\r\n\r\n__DSH\xff_BOOT__"));
}

#[test]
fn the_event_route_is_asked_only_behind_a_real_index() {
    assert!(!index_is_up(&None));
    assert!(!index_is_up(&Some(b"HTTP/1.1 404 Not Found\r\n\r\n__DSH_BOOT__".to_vec())));
    assert!(index_is_up(&Some(b"HTTP/1.1 200 OK\r\n\r\n__DSH_BOOT__".to_vec())));
}

#[test]
fn the_address_names_the_port() {
    assert_eq!(url(), "http://127.0.0.1:3080");
    assert_eq!(PORT, 3080);
}

#[test]
fn requests_have_the_form_that_the_server_expects() {
    assert_eq!(
        http_request(3080, INDEX_ROUTE),
        "GET / HTTP/1.1\r\nHost: 127.0.0.1:3080\r\nConnection: close\r\n\r\n"
    );
    assert_eq!(
        http_request(65535, EVENTS_ROUTE),
        "GET /api/events.host HTTP/1.1\r\nHost: 127.0.0.1:65535\r\nConnection: close\r\n\r\n"
    );
    assert_eq!(
        http_request(0, "x"),
        "GET x HTTP/1.1\r\nHost: 127.0.0.1:0\r\nConnection: close\r\n\r\n"
    );
}

#[test]
fn replies_are_read_up_to_the_limit() {
    let mut buf = Vec::new();
    assert_eq!(take_reply(&mut buf, &ReadEvent::Chunk(b"ab".to_vec())), ReadAction::Continue);
    assert_eq!(take_reply(&mut buf, &ReadEvent::Chunk(b"cd".to_vec())), ReadAction::Continue);
    assert_eq!(buf, b"abcd".to_vec());
    assert_eq!(take_reply(&mut buf, &ReadEvent::Chunk(Vec::new())), ReadAction::Stop);
    assert_eq!(take_reply(&mut buf, &ReadEvent::Closed), ReadAction::Stop);
    assert_eq!(take_reply(&mut buf, &ReadEvent::Failed), ReadAction::Stop);
    assert_eq!(buf, b"abcd".to_vec());
    let fill = vec![7u8; REPLY_LIMIT - 4];
    assert_eq!(take_reply(&mut buf, &ReadEvent::Chunk(fill)), ReadAction::Continue);
    assert_eq!(buf.len(), 64 * 1024);
    assert_eq!(take_reply(&mut buf, &ReadEvent::Chunk(vec![8u8])), ReadAction::Stop);
    assert_eq!(buf.len(), 64 * 1024 + 1);
    assert_eq!(buf[64 * 1024], 8);
}

#[test]
fn the_wait_ends_as_it_should() {
    assert_eq!(poll_step(true, true, false, 100000), PollStep::Ready);
    assert_eq!(poll_step(false, true, false, 0), PollStep::Abandoned);
    assert_eq!(poll_step(false, false, false, 0), PollStep::Wait);
    assert_eq!(poll_step(false, true, true, 89999), PollStep::Wait);
    assert_eq!(poll_step(false, true, true, 90000), PollStep::TimedOut);
    assert_eq!(poll_event(PollStep::Ready), Some("server:ready"));
    assert_eq!(poll_event(PollStep::TimedOut), Some("server:timeout"));
    assert_eq!(poll_event(PollStep::Abandoned), None);
    assert_eq!(poll_event(PollStep::Wait), None);
}

#[test]
fn the_wait_pauses_a_bounded_number_of_times() {
    let mut elapsed = 0;
    let mut pauses = 0;
    while poll_step(false, false, false, elapsed) == PollStep::Wait {
        elapsed += POLL_INTERVAL_MS;
        pauses += 1;
    }
    assert_eq!(POLL_INTERVAL_MS, 300);
    assert!(pauses * POLL_INTERVAL_MS <= READY_DEADLINE_MS);
}

#[test]
fn bytes_decide_as_the_text_of_a_reply_does() {
    let replies: Vec<Vec<u8>> = vec![
        "HTTP/1.1 200 OK\r\n\r\n汉字__DSH_BOOT__é".as_bytes().to_vec(),
        "HTTP/1.0 200 OK\r\n\r\n__DSH_ß_BOOT__".as_bytes().to_vec(),
        "é HTTP/1.1 200 OK\r\n\r\n__DSH_BOOT__".as_bytes().to_vec(),
        b"HTTP/1.1 200 \xe6\xb1__DSH_BOOT__\xff".to_vec(),
        b"HTTP/1.1 \xff200 OK __DSH_BOOT__".to_vec(),
        b"\xefHTTP/1.1 426".to_vec(),
        b"HTTP/1.0 426\xc3".to_vec(),
        Vec::new(),
    ];
    let mut up = 0;
    for reply in &replies {
        let text = String::from_utf8_lossy(reply);
        let ok = text.starts_with("HTTP/1.1 200") || text.starts_with("HTTP/1.0 200");
        let index = ok && text.contains("__DSH_BOOT__");
        let api = text.starts_with("HTTP/1.1 426") || text.starts_with("HTTP/1.0 426");
        assert_eq!(looks_like_dsh_index(reply), index);
        assert_eq!(looks_like_dsh_api(reply), api);
        up += usize::from(index) + usize::from(api);
    }
    assert_eq!(up, 3);
}

fn read_all(chunks: &[Vec<u8>]) -> Vec<u8> {
    let mut reply = Vec::new();
    for chunk in chunks {
        if take_reply(&mut reply, &ReadEvent::Chunk(chunk.clone())) == ReadAction::Stop {
            return reply;
        }
    }
    take_reply(&mut reply, &ReadEvent::Closed);
    reply
}

#[test]
fn a_reply_is_the_beginning_of_what_was_sent() {
    let short: Vec<Vec<u8>> = (0..16u8).map(|i| vec![i; 4096]).collect();
    assert_eq!(read_all(&short), short.concat());
    assert_eq!(read_all(&short).len(), REPLY_LIMIT);
    let long: Vec<Vec<u8>> = (0..40u8).map(|i| vec![i; 4000]).collect();
    let reply = read_all(&long);
    assert_eq!(reply.len(), 68000);
    assert!(reply.len() > REPLY_LIMIT && reply.len() <= REPLY_LIMIT + 4000);
    assert_eq!(reply[..], long.concat()[..reply.len()]);
    assert!(read_all(&[]).is_empty());
}
