use tii::{
    allowed_methods, chunked_byte, chunked_data, chunked_need, default_fallback,
    default_method_not_allowed_handler, is_websocket_upgrade, keep_alive_requested, parse_chunk_size,
    prepare_response, select_route, write_chunk, write_last_chunk, apply_route, ChunkedError, ChunkedNeed,
    ChunkedReadState, HttpMethod, HttpVersion, RequestContext, RequestHead, Response, ResponseBody,
    ResponseContext, TiiError, TiiMimeType, TiiRouteable, TiiRoutingDecision,
};

fn head(start: &str, headers: &[&str]) -> RequestHead {
    let mut lines: Vec<Vec<u8>> = headers.iter().map(|h| format!("{h}\r\n").into_bytes()).collect();
    lines.push(b"\r\n".to_vec());
    RequestHead::new(format!("{start}\r\n").as_bytes(), &lines).expect("valid head")
}

fn context(start: &str, headers: &[&str]) -> RequestContext {
    RequestContext::new(1, 0, "peer", "local", head(start, headers))
}

/// Feeds the bytes through the chunked state machine and collects the data.
fn decode_chunked(bytes: &[u8]) -> Result<Vec<u8>, ChunkedError> {
    let mut state = ChunkedReadState::Size(Vec::new());
    let mut out = Vec::new();
    let mut pos = 0;
    loop {
        match chunked_need(&state)? {
            ChunkedNeed::End => return Ok(out),
            ChunkedNeed::Byte => {
                if pos >= bytes.len() {
                    return Err(ChunkedError::UnexpectedEof);
                }
                state = chunked_byte(state, bytes[pos])?;
                pos += 1;
            }
            ChunkedNeed::Data(n) => {
                let take = (n as usize).min(bytes.len() - pos).min(3);
                out.extend_from_slice(&bytes[pos..pos + take]);
                pos += take;
                state = chunked_data(&state, take as u64)?;
            }
        }
    }
}

#[test]
fn chunk_writer_format() {
    let mut out = Vec::new();
    write_chunk(&mut out, b"hello world, this is data");
    write_chunk(&mut out, b"");
    write_last_chunk(&mut out);
    assert_eq!(out, b"19\r\nhello world, this is data\r\n0\r\n\r\n".to_vec());
}

#[test]
fn chunk_round_trip() {
    let data: Vec<u8> = (0..300u32).map(|i| (i % 251) as u8).collect();
    let mut out = Vec::new();
    write_chunk(&mut out, &data);
    write_chunk(&mut out, b"tail");
    write_last_chunk(&mut out);
    let mut expected = data.clone();
    expected.extend_from_slice(b"tail");
    assert_eq!(decode_chunked(&out), Ok(expected));
}

#[test]
fn chunk_size_parsing() {
    assert_eq!(parse_chunk_size(b"1A"), Some(26));
    assert_eq!(parse_chunk_size(b"ff"), Some(255));
    assert_eq!(parse_chunk_size(b"+f"), Some(15));
    assert_eq!(parse_chunk_size(b""), None);
    assert_eq!(parse_chunk_size(b"+"), None);
    assert_eq!(parse_chunk_size(b"1g"), None);
    assert_eq!(parse_chunk_size(b"FFFFFFFFFFFFFFFF"), Some(u64::MAX));
    assert_eq!(parse_chunk_size(b"10000000000000000"), None);
}

#[test]
fn chunk_reader_errors() {
    assert_eq!(decode_chunked(b"zz\r\n"), Err(ChunkedError::SizeMalformed));
    assert_eq!(decode_chunked(b"\r\n"), Err(ChunkedError::SizeMalformed));
    assert_eq!(decode_chunked(b"3\r\nabcX\n"), Err(ChunkedError::TrailerMalformed));
    assert_eq!(decode_chunked(b"0\r\nX"), Err(ChunkedError::TrailerMalformed));
    assert_eq!(decode_chunked(b"00000000000000000001\r\n"), Err(ChunkedError::SizeTooLong));
    let state = ChunkedReadState::Data(5);
    assert_eq!(chunked_data(&state, 0).unwrap_err(), ChunkedError::UnexpectedEof);
}

#[test]
fn route_selection_prefers_matches() {
    let routes = vec![
        TiiRouteable::new("/a", HttpMethod::Post, vec![], vec![]).unwrap(),
        TiiRouteable::new("/a", HttpMethod::Get, vec![], vec![]).unwrap(),
        TiiRouteable::new("/{x}", HttpMethod::Get, vec![], vec![]).unwrap(),
    ];
    let ctx = context("GET /a HTTP/1.1", &[]);
    let (d, i) = select_route(&routes, &ctx);
    assert_eq!(i, Some(1));
    assert!(matches!(d, TiiRoutingDecision::Match(_, _)));
    let ctx = context("PUT /a HTTP/1.1", &[]);
    let (d, i) = select_route(&routes, &ctx);
    assert_eq!(i, None);
    assert!(matches!(d, TiiRoutingDecision::MethodMismatch));
    let ctx = context("GET /a/b HTTP/1.1", &[]);
    let (d, i) = select_route(&routes, &ctx);
    assert_eq!(i, None);
    assert!(matches!(d, TiiRoutingDecision::PathMismatch));
}

#[test]
fn route_application_sets_params() {
    let routes = vec![TiiRouteable::new("/u/{id}", HttpMethod::Get, vec![], vec![]).unwrap()];
    let mut ctx = context("GET /u/42 HTTP/1.1", &[]);
    let (d, i) = select_route(&routes, &ctx);
    if let TiiRoutingDecision::Match(_, params) = &d {
        apply_route(&mut ctx, &routes[i.unwrap()], params);
    }
    assert_eq!(ctx.routed_path(), "/u/{id}");
    assert_eq!(ctx.get_path_param("id"), Some("42"));
}

#[test]
fn method_not_allowed_lists_sorted_methods() {
    let routes = vec![
        TiiRouteable::new("/a", HttpMethod::Put, vec![], vec![]).unwrap(),
        TiiRouteable::new("/a", HttpMethod::Custom("ZAP".to_string()), vec![], vec![]).unwrap(),
        TiiRouteable::new("/a", HttpMethod::Get, vec![], vec![]).unwrap(),
        TiiRouteable::new("/a", HttpMethod::Custom("BAR".to_string()), vec![], vec![]).unwrap(),
        TiiRouteable::new("/a", HttpMethod::Put, vec![], vec![]).unwrap(),
        TiiRouteable::new("/b", HttpMethod::Delete, vec![], vec![]).unwrap(),
    ];
    let ctx = context("POST /a HTTP/1.1", &[]);
    let methods = allowed_methods(&ctx, &routes);
    assert_eq!(
        methods,
        vec![
            HttpMethod::Get,
            HttpMethod::Put,
            HttpMethod::Custom("BAR".to_string()),
            HttpMethod::Custom("ZAP".to_string())
        ]
    );
    let r = default_method_not_allowed_handler(&ctx, &routes).unwrap();
    assert_eq!(r.get_header("Allow"), Some("GET, PUT, BAR, ZAP"));
    let r = default_fallback(&ctx, &routes, &TiiRoutingDecision::AcceptMismatch).unwrap();
    let mut out = Vec::new();
    r.write_to(HttpVersion::Http11, &mut out);
    assert!(out.starts_with(b"HTTP/1.1 406 Not Acceptable"));
}

#[test]
fn keep_alive_decision() {
    let h = head("GET / HTTP/1.1", &["Connection: Keep-Alive"]);
    assert!(keep_alive_requested(&h, false, true));
    assert!(!keep_alive_requested(&h, true, true));
    assert!(!keep_alive_requested(&h, false, false));
    let h = head("GET / HTTP/1.0", &["Connection: keep-alive"]);
    assert!(!keep_alive_requested(&h, false, true));
    let h = head("GET / HTTP/1.1", &[]);
    assert!(!keep_alive_requested(&h, false, true));
}

#[test]
fn websocket_upgrade_detection() {
    assert!(is_websocket_upgrade(&head("GET / HTTP/1.1", &["Upgrade: websocket"])));
    assert!(!is_websocket_upgrade(&head("GET / HTTP/1.1", &["Upgrade: WebSocket"])));
    assert!(!is_websocket_upgrade(&head("GET / HTTP/1.0", &["Upgrade: websocket"])));
}

#[test]
fn prepare_response_sets_connection() {
    let mut r = Response::no_content();
    prepare_response(&mut r, HttpVersion::Http11, true).unwrap();
    assert_eq!(r.get_headers("Connection"), vec!["Keep-Alive"]);
    let mut r = Response::no_content();
    prepare_response(&mut r, HttpVersion::Http10, false).unwrap();
    assert_eq!(r.get_header("Connection"), None);
    let mut r = Response::no_content();
    r.add_header("Connection", "upgrade").unwrap();
    assert!(matches!(prepare_response(&mut r, HttpVersion::Http11, false), Err(TiiError::IO(_))));
    assert_eq!(r.get_headers("Connection"), vec!["Close"]);
    assert!(r.is_well_formed());
}

#[test]
fn response_context_swaps_response() {
    let mut ctx = context("GET / HTTP/1.1", &[]);
    let mut rc = ResponseContext::new(&mut ctx, Response::ok(ResponseBody::from_string("a"), TiiMimeType::TextPlain));
    let old = rc.set_response(Response::not_found_no_body());
    assert_eq!(old.get_header("Content-Type"), Some("text/plain"));
    rc.get_request_mut().set_routed_path("/x");
    assert_eq!(rc.get_request().routed_path(), "/x");
    let (req, resp) = rc.unwrap();
    assert_eq!(req.routed_path(), "/x");
    assert_eq!(resp.get_header("Content-Type"), None);
}

#[test]
fn file_paths_below_directories() {
    assert_eq!(tii::file_path("./static/", "/images/ferris.png"), "./static/images/ferris.png");
    assert_eq!(tii::file_path(".", "a.txt"), "./a.txt");
    assert_eq!(tii::path_below("/static/css/x.css", "/static/*"), "css/x.css");
    assert_eq!(tii::path_below("/other", "/static/*"), "/static/*");
}

#[test]
fn candidates_refuse_traversal() {
    assert_eq!(tii::find_candidates("/srv", "../etc/passwd", &["index.html"]), None);
    assert_eq!(tii::find_candidates("/srv", "/a:b", &["index.html"]), None);
    assert_eq!(tii::find_candidates("/srv//", "//a/b.txt", &["index.html"]), Some(tii::PathCandidates::Plain("/srv/a/b.txt".to_string())));
    assert_eq!(
        tii::find_candidates("/srv", "docs/", &["index.html", "index.htm"]),
        Some(tii::PathCandidates::IndexFiles(vec!["/srv/docs/index.html".to_string(), "/srv/docs/index.htm".to_string()]))
    );
    assert_eq!(
        tii::find_candidates("/srv", "", &["index.html"]),
        Some(tii::PathCandidates::IndexFiles(vec!["/srv/index.html".to_string()]))
    );
}
