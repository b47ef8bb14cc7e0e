//! Asset Delivery configuration, access descriptors and HTTP exchanges.

use orbitrelay::access::{
    asset_url, AccessDecision, AccessFacts, AssetAccessAuthorization,
    AssetAccessDescriptor, AssetAccessQueryHandler, AssetDeliveryService, GrantError, IssuedGrant,
    Lookup, ResolvedDocument,
};
use orbitrelay::address::SocketAddress;
use orbitrelay::delivery_config::{validate_public_base_url, AssetDeliveryConfig};
use orbitrelay::error::ServerError;
use orbitrelay::grants::{AssetAccessGrantIssuer, Grantee};
use orbitrelay::http::{
    bearer_token, connection_refused, handle_connection, parse_request, reason, unreadable_request,
    AssetLookup, AssetMetadata, AssetStream, Decision, ExchangeFacts, Header, HttpRequest,
    HttpTaskError, ReadProgress, RequestReader, Response, MAX_HEADER_BYTES,
};
use orbitrelay::query::{QueryHandlerError, ReadAuthorizationError};

#[test]
fn loopback_port_zero_can_derive_public_url_after_bind() {
    let config = AssetDeliveryConfig::default()
        .with_enabled(true)
        .with_listen_addr(SocketAddress::v4(0x7f00_0001, 0));
    assert!(config.validate().is_ok());
    assert!(config.public_base_url().is_none());

    let mut service = AssetDeliveryService::new(&config).expect("service");
    assert_eq!(service.public_base_url(), None);
    service.set_bound_public_base_url(49152);
    assert_eq!(service.public_base_url().as_deref(), Some("http://127.0.0.1:49152"));
    service.set_bound_public_base_url(1);
    assert_eq!(service.public_base_url().as_deref(), Some("http://127.0.0.1:49152"));
    assert_eq!(service.grant_ttl_seconds(), 600);
    assert_eq!(service.max_grants(), 4096);
}

#[test]
fn non_loopback_bind_requires_explicit_non_unspecified_public_host() {
    let config = AssetDeliveryConfig::default()
        .with_enabled(true)
        .with_listen_addr(SocketAddress::v4(0, 8081));
    assert!(config.validate().is_err());
    assert!(AssetDeliveryConfig::default()
        .with_enabled(true)
        .with_listen_addr(SocketAddress::v4(0, 8081))
        .with_public_base_url("http://192.168.1.10:8081".to_owned())
        .validate()
        .is_ok());
    assert!(AssetDeliveryConfig::default()
        .with_enabled(true)
        .with_public_base_url("http://0.0.0.0:8081".to_owned())
        .validate()
        .is_err());
    assert!(AssetDeliveryConfig::default()
        .with_public_base_url("http://localhost:not-a-port".to_owned())
        .validate()
        .is_err());
    assert!(AssetDeliveryConfig::default()
        .with_public_base_url("http://localhost/prefix".to_owned())
        .validate()
        .is_err());
}

fn url_problem(url: &str) -> Option<String> {
    match validate_public_base_url(url) {
        Ok(()) => None,
        Err(ServerError::Config { message }) => Some(message),
        Err(error) => panic!("unexpected {error:?}"),
    }
}

#[test]
fn advertised_urls_are_checked_part_by_part() {
    for url in [
        "http://localhost",
        "https://localhost/",
        "http://[::1]:8081",
        "http://[::1]",
        "http://relay.example:65535/",
        "http://0.0.0.1",
        "http://[::ffff:0.0.0.0]",
        "http://[0:0:0:0:0:0:0]",
        "http://[00000::]",
        "http://user@host",
    ] {
        assert_eq!(url_problem(url), None, "{url}");
    }
    let cases = [
        ("localhost:80", "asset public base URL must be absolute"),
        ("ftp://localhost", "asset public base URL must use http or https"),
        ("http://local host", "asset public base URL must use http or https"),
        ("http://local\u{00a0}host", "asset public base URL must use http or https"),
        (
            "http://",
            "asset public base URL must include a host without query or fragment",
        ),
        (
            "http:///",
            "asset public base URL must include a host without query or fragment",
        ),
        (
            "http://host/a",
            "asset public base URL must include a host without query or fragment",
        ),
        (
            "http://host?q",
            "asset public base URL must include a host without query or fragment",
        ),
        (
            "http://host#f",
            "asset public base URL must include a host without query or fragment",
        ),
        ("http://[::1", "asset public base URL has an invalid IPv6 authority"),
        ("http://::1", "asset public base URL has an invalid IPv6 authority"),
        ("http://[::1]8081", "asset public base URL has an invalid port"),
        ("http://[::1]:", "asset public base URL has an invalid port"),
        ("http://host:65536", "asset public base URL has an invalid port"),
        ("http://host:", "asset public base URL has an invalid port"),
        ("http://:80", "asset public base URL has an invalid port"),
        ("http://[]", "asset public base URL must include a host"),
    ];
    for (url, message) in cases {
        assert_eq!(url_problem(url).as_deref(), Some(message), "{url}");
    }
}

#[test]
fn unspecified_hosts_are_never_advertised() {
    for host in [
        "0.0.0.0",
        "0.0.0.0:80",
        "[::]",
        "[::]:80",
        "[0:0:0:0:0:0:0:0]",
        "[0000::0]",
        "[0::]",
        "[::0.0.0.0]",
        "[0:0:0:0:0:0:0.0.0.0]",
        "[0:0:0:0:0:0:0::]",
        "[[::]",
    ] {
        assert_eq!(
            url_problem(&format!("http://{host}")).as_deref(),
            Some("asset public base URL must not advertise an unspecified host"),
            "{host}"
        );
    }
    for host in ["[0:0:0:0:0:0:0:0::]", "[:::]", "[::0.0.0.0:0]", "00.0.0.0", "[::1]"] {
        assert_eq!(url_problem(&format!("http://{host}")), None, "{host}");
    }
}

#[test]
fn descriptor_has_explicit_bearer_wire_shape() {
    let descriptor = AssetAccessDescriptor::http_bearer(
        "asset-1".to_owned(),
        "http://127.0.0.1:8081/assets/a".to_owned(),
        "token".to_owned(),
        "2023-11-14T22:13:20Z".to_owned(),
    );
    assert_eq!(descriptor.delivery_kind(), "http");
    assert!(matches!(
        descriptor.authorization(),
        AssetAccessAuthorization::Bearer { .. }
    ));
    assert!(!descriptor.url().contains("?token="));
    assert_eq!(descriptor.authorization().bearer_token(), Some("token"));
    assert_eq!(descriptor.asset_id(), "asset-1");
    assert_eq!(descriptor.expires_at(), "2023-11-14T22:13:20Z");
    assert!(descriptor.supports_range());
}

#[test]
fn asset_urls_have_one_slash_after_the_base() {
    assert_eq!(asset_url("http://h", "a"), "http://h/assets/a");
    assert_eq!(asset_url("http://h//", "a"), "http://h/assets/a");
    assert_eq!(asset_url("", "a"), "/assets/a");
}

fn access_facts() -> AccessFacts {
    AccessFacts {
        document: None,
        authorization: None,
        asset: None,
        base_url: Some("http://127.0.0.1:8081/".to_owned()),
        grant: None,
        encoded: None,
    }
}

fn resolved_document() -> ResolvedDocument {
    ResolvedDocument {
        document_id: "document-1".to_owned(),
        session_id: "session-1".to_owned(),
        source_asset_id: "asset-1".to_owned(),
    }
}

#[test]
fn access_is_resolved_then_authorized_then_granted() {
    let mut facts = access_facts();
    assert_eq!(
        AssetAccessQueryHandler.execute(false, &facts),
        AccessDecision::Fail(QueryHandlerError::InvalidQuery)
    );
    assert_eq!(AssetAccessQueryHandler.execute(true, &facts), AccessDecision::GetDocument);
    facts.document = Some(Lookup::Found(resolved_document()));
    assert_eq!(
        AssetAccessQueryHandler.execute(true, &facts),
        AccessDecision::Authorize("session-1".to_owned())
    );
    facts.authorization = Some(Ok(()));
    assert_eq!(
        AssetAccessQueryHandler.execute(true, &facts),
        AccessDecision::GetAsset("asset-1".to_owned())
    );
    facts.asset = Some(Lookup::Found("asset-1".to_owned()));
    assert_eq!(
        AssetAccessQueryHandler.execute(true, &facts),
        AccessDecision::IssueGrant {
            asset_id: "asset-1".to_owned(),
            session_id: "session-1".to_owned(),
            document_id: "document-1".to_owned(),
        }
    );
    facts.grant = Some(Ok(IssuedGrant {
        token: "secret".to_owned(),
        asset_id: "asset-1".to_owned(),
        expires_at: "later".to_owned(),
    }));
    match AssetAccessQueryHandler.execute(true, &facts) {
        AccessDecision::Encode(descriptor) => {
            assert_eq!(descriptor.url(), "http://127.0.0.1:8081/assets/asset-1");
            assert_eq!(descriptor.authorization().bearer_token(), Some("secret"));
        }
        other => panic!("unexpected {other:?}"),
    }
    facts.encoded = Some(true);
    assert_eq!(AssetAccessQueryHandler.execute(true, &facts), AccessDecision::Answer);
    facts.encoded = Some(false);
    assert_eq!(
        AssetAccessQueryHandler.execute(true, &facts),
        AccessDecision::Fail(QueryHandlerError::Internal)
    );
}

#[test]
fn access_failures_are_told_apart() {
    let fail = |facts: &AccessFacts| match AssetAccessQueryHandler.execute(true, facts) {
        AccessDecision::Fail(error) => error,
        other => panic!("unexpected {other:?}"),
    };
    let mut facts = access_facts();
    facts.document = Some(Lookup::Failed);
    assert_eq!(fail(&facts), QueryHandlerError::Unavailable);
    facts.document = Some(Lookup::Missing);
    assert_eq!(fail(&facts), QueryHandlerError::NotFound);
    facts.document = Some(Lookup::Found(resolved_document()));
    for (error, expected) in [
        (ReadAuthorizationError::Unauthorized, QueryHandlerError::Unauthorized),
        (ReadAuthorizationError::Unavailable, QueryHandlerError::Unavailable),
        (ReadAuthorizationError::Internal, QueryHandlerError::Internal),
    ] {
        facts.authorization = Some(Err(error));
        assert_eq!(fail(&facts), expected);
    }
    facts.authorization = Some(Ok(()));
    facts.asset = Some(Lookup::Failed);
    assert_eq!(fail(&facts), QueryHandlerError::Unavailable);
    facts.asset = Some(Lookup::Missing);
    assert_eq!(fail(&facts), QueryHandlerError::Internal);
    facts.asset = Some(Lookup::Found("asset-2".to_owned()));
    assert_eq!(fail(&facts), QueryHandlerError::Internal);
    facts.asset = Some(Lookup::Found("asset-1".to_owned()));
    for (error, expected) in [
        (GrantError::Unavailable, QueryHandlerError::Unavailable),
        (GrantError::Randomness, QueryHandlerError::Internal),
        (GrantError::Unauthorized, QueryHandlerError::Unauthorized),
    ] {
        facts.grant = Some(Err(error));
        assert_eq!(fail(&facts), expected);
    }
    facts.base_url = None;
    assert_eq!(fail(&facts), QueryHandlerError::Unavailable);
}

fn request(method: &str, target: &str, headers: &[(&str, &str)]) -> HttpRequest {
    HttpRequest {
        method: method.to_owned(),
        target: target.to_owned(),
        headers: headers
            .iter()
            .map(|(name, value)| Header { name: (*name).to_owned(), value: (*value).to_owned() })
            .collect(),
    }
}

#[test]
fn request_heads_are_parsed() {
    let parsed = parse_request(
        b"GET /assets/a HTTP/1.1\r\nHost: relay\r\nRange:  bytes=0-3 \r\nX-Twice: 1\r\nx-twice: 2\r\n\r\nbody",
    )
    .expect("request");
    assert_eq!(parsed.method, "GET");
    assert_eq!(parsed.target, "/assets/a");
    assert_eq!(parsed.header("host").as_deref(), Some("relay"));
    assert_eq!(parsed.header("range").as_deref(), Some("bytes=0-3"));
    assert_eq!(parsed.header("x-twice").as_deref(), Some("2"));
    assert_eq!(parsed.header("Host"), None);
    let accented = parse_request("GET /é HTTP/1.0\r\nContent-Length: 0\r\n\r\n".as_bytes())
        .expect("request");
    assert_eq!(accented.target, "/é");
}

#[test]
fn malformed_request_heads_are_refused() {
    for bytes in [
        b"\r\n\r\n".as_slice(),
        b"GET /\r\n\r\n",
        b"GET / HTTP/1.1 extra\r\n\r\n",
        b"GET / HTTP/2.0\r\n\r\n",
        b"GET / HTTP/1.1\r\nno colon\r\n\r\n",
        b"GET / HTTP/1.1\r\n: empty\r\n\r\n",
        b"GET / HTTP/1.1\r\nA: b\rc\r\n\r\n",
        b"GET / HTTP/1.1\r\nA: b\nc\r\n\r\n",
        b"POST / HTTP/1.1\r\nContent-Length: 4\r\n\r\nbody",
        b"GET /\xff HTTP/1.1\r\n\r\n",
    ] {
        assert_eq!(parse_request(bytes), Err(HttpTaskError::Request));
    }
}

#[test]
fn request_heads_arrive_in_pieces() {
    let mut reader = RequestReader::new();
    assert_eq!(reader.receive(b"GET / HTTP/1.1\r\n"), ReadProgress::Incomplete);
    assert_eq!(reader.receive(b"A: b\r"), ReadProgress::Incomplete);
    match reader.receive(b"\n\r\n") {
        ReadProgress::Complete(request) => assert_eq!(request.header("a").as_deref(), Some("b")),
        other => panic!("unexpected {other:?}"),
    }
    let mut closed = RequestReader::new();
    assert_eq!(closed.receive(b""), ReadProgress::Rejected);
    let mut large = RequestReader::new();
    assert_eq!(
        large.receive(&vec![b'a'; MAX_HEADER_BYTES - 1]),
        ReadProgress::Incomplete
    );
    assert_eq!(large.receive(b"a"), ReadProgress::Rejected);
}

#[test]
fn bearer_tokens_are_read_strictly() {
    let token = |value: &str| bearer_token(Some(&value.to_owned()));
    assert_eq!(token("Bearer abc").as_deref(), Some("abc"));
    assert_eq!(token("bEARER abc").as_deref(), Some("abc"));
    assert_eq!(token("Bearer"), None);
    assert_eq!(token("Bearer "), None);
    assert_eq!(token("Bearer a b"), None);
    assert_eq!(token("Bearer  a"), None);
    assert_eq!(token("Bearer a\u{2003}"), None);
    assert_eq!(token("Basic abc"), None);
    assert_eq!(bearer_token(None), None);
}

fn metadata(byte_length: u64) -> AssetMetadata {
    AssetMetadata {
        media_type: "application/pdf".to_owned(),
        byte_length,
        content_hash: "cafe".to_owned(),
    }
}

fn granted(byte_length: u64) -> ExchangeFacts {
    ExchangeFacts {
        identity: Some(true),
        grant: Some(true),
        asset: Some(AssetLookup::Found(metadata(byte_length))),
        download: Some(true),
    }
}

fn header_of(response: &Response, name: &str) -> Option<String> {
    response
        .headers
        .iter()
        .find(|header| header.name == name)
        .map(|header| header.value.clone())
}

fn status(decision: &Decision) -> u16 {
    match decision {
        Decision::Respond(response) => response.status,
        Decision::Stream { head, .. } => head.status,
        other => panic!("unexpected {other:?}"),
    }
}

const AUTHORIZED: (&str, &str) = ("authorization", "Bearer token");

#[test]
fn an_authorized_download_forms_a_closed_loop() {
    let get = request("GET", "/assets/a", &[AUTHORIZED]);
    let mut facts = ExchangeFacts::new();
    assert_eq!(handle_connection(&[], &get, &facts), Decision::Identify("a".to_owned()));
    facts.identity = Some(true);
    assert_eq!(handle_connection(&[], &get, &facts), Decision::ValidateGrant("token".to_owned()));
    facts.grant = Some(true);
    assert_eq!(handle_connection(&[], &get, &facts), Decision::LookUpAsset);
    facts.asset = Some(AssetLookup::Found(metadata(20)));
    assert_eq!(handle_connection(&[], &get, &facts), Decision::AcquireDownload);
    facts.download = Some(true);
    match handle_connection(&[], &get, &facts) {
        Decision::Stream { head, start, length } => {
            assert_eq!((start, length), (0, 20));
            assert_eq!(
                head.render_head().expect("head"),
                "HTTP/1.1 200 OK\r\nContent-Type: application/pdf\r\nContent-Length: 20\r\n\
                 Accept-Ranges: bytes\r\nETag: \"sha256-cafe\"\r\nConnection: close\r\n\r\n"
            );
        }
        other => panic!("unexpected {other:?}"),
    }
}

#[test]
fn ranges_are_served_or_refused() {
    let ranged = |method: &str, range: &str| {
        handle_connection(
            &[],
            &request(method, "/assets/a", &[AUTHORIZED, ("range", range)]),
            &granted(20),
        )
    };
    match ranged("GET", "bytes=-16") {
        Decision::Stream { head, start, length } => {
            assert_eq!((head.status, start, length), (206, 4, 16));
            assert_eq!(
                header_of(&head, "Content-Range").as_deref(),
                Some("bytes 4-19/20")
            );
            assert_eq!(header_of(&head, "Content-Length").as_deref(), Some("16"));
        }
        other => panic!("unexpected {other:?}"),
    }
    match ranged("GET", "bytes=999999-") {
        Decision::Respond(response) => {
            assert_eq!(response.status, 416);
            assert_eq!(
                header_of(&response, "Content-Range").as_deref(),
                Some("bytes */20")
            );
        }
        other => panic!("unexpected {other:?}"),
    }
    assert_eq!(status(&ranged("GET", "bytes=0-1,2-3")), 416);
    assert_eq!(status(&ranged("GET", "bytes=a-b")), 400);
    match ranged("HEAD", "bytes=0-1") {
        Decision::Respond(response) => {
            assert_eq!(response.status, 200);
            assert_eq!(response.body, None);
            assert_eq!(header_of(&response, "Content-Length").as_deref(), Some("20"));
        }
        other => panic!("unexpected {other:?}"),
    }
}

#[test]
fn an_empty_asset_needs_no_download_slot() {
    let mut facts = granted(0);
    facts.download = None;
    match handle_connection(&[], &request("GET", "/assets/a", &[AUTHORIZED]), &facts) {
        Decision::Respond(response) => {
            assert_eq!(response.status, 200);
            assert_eq!(header_of(&response, "Content-Length").as_deref(), Some("0"));
        }
        other => panic!("unexpected {other:?}"),
    }
}

#[test]
fn refused_requests_are_answered_in_order() {
    let answer = |method: &str, target: &str, headers: &[(&str, &str)], facts: &ExchangeFacts| {
        status(&handle_connection(
            &["https://app.example".to_owned()],
            &request(method, target, headers),
            facts,
        ))
    };
    let all = granted(20);
    assert_eq!(answer("GET", "/assets/a", &[("origin", "https://other"), AUTHORIZED], &all), 403);
    assert_eq!(answer("POST", "/assets/a", &[AUTHORIZED], &all), 405);
    assert_eq!(answer("GET", "/assets/a?token=x", &[AUTHORIZED], &all), 400);
    assert_eq!(answer("GET", "/assets/a#x", &[AUTHORIZED], &all), 400);
    assert_eq!(answer("GET", "/other", &[AUTHORIZED], &all), 404);
    assert_eq!(answer("GET", "/assets/", &[AUTHORIZED], &all), 400);
    assert_eq!(answer("GET", "/assets/a/b", &[AUTHORIZED], &all), 400);
    assert_eq!(answer("GET", "/assets/a", &[], &all), 401);
    let mut facts = granted(20);
    facts.identity = Some(false);
    assert_eq!(answer("GET", "/assets/a", &[AUTHORIZED], &facts), 400);
    let mut facts = granted(20);
    facts.grant = Some(false);
    assert_eq!(answer("GET", "/assets/a", &[AUTHORIZED], &facts), 401);
    let mut facts = granted(20);
    facts.asset = Some(AssetLookup::Failed);
    assert_eq!(answer("GET", "/assets/a", &[AUTHORIZED], &facts), 503);
    facts.asset = Some(AssetLookup::Missing);
    assert_eq!(answer("GET", "/assets/a", &[AUTHORIZED], &facts), 404);
    facts.asset = Some(AssetLookup::Found(AssetMetadata {
        media_type: "text/plain\r\nX: y".to_owned(),
        ..metadata(1)
    }));
    assert_eq!(answer("GET", "/assets/a", &[AUTHORIZED], &facts), 500);
    let mut facts = granted(20);
    facts.download = Some(false);
    assert_eq!(answer("GET", "/assets/a", &[AUTHORIZED], &facts), 503);
}

#[test]
fn preflight_requests_name_the_listed_origin() {
    match handle_connection(
        &["https://app.example".to_owned()],
        &request("OPTIONS", "*", &[("origin", "https://app.example")]),
        &ExchangeFacts::new(),
    ) {
        Decision::Respond(response) => {
            assert_eq!(
                response.render_head().expect("head"),
                "HTTP/1.1 204 No Content\r\n\
                 Access-Control-Allow-Origin: https://app.example\r\n\
                 Access-Control-Allow-Methods: GET, HEAD, OPTIONS\r\n\
                 Access-Control-Allow-Headers: Authorization, Range\r\n\
                 Access-Control-Expose-Headers: Content-Length, Content-Range, ETag, Accept-Ranges\r\n\
                 Vary: Origin\r\nContent-Length: 0\r\n\r\n"
            );
        }
        other => panic!("unexpected {other:?}"),
    }
}

#[test]
fn short_responses_are_rendered_with_their_length() {
    let response = unreadable_request();
    assert_eq!(
        response.render_head().expect("head"),
        "HTTP/1.1 400 Bad Request\r\nContent-Type: text/plain; charset=utf-8\r\n\
         Content-Length: 12\r\nConnection: close\r\n\r\n"
    );
    assert_eq!(response.body.as_deref(), Some("bad request\n"));
    assert_eq!(connection_refused().body.as_deref(), Some("server busy\n"));
    assert_eq!(reason(416), "Range Not Satisfiable");
    assert_eq!(reason(500), "Internal Server Error");
    assert_eq!(HttpTaskError::Request.message(), "HTTP request failed");
    assert_eq!(HttpTaskError::Backend.message(), "Asset backend failed while streaming");
}

#[test]
fn a_header_value_that_breaks_its_line_is_never_written() {
    for value in ["a\rb", "a\nb"] {
        let response = Response {
            status: 200,
            headers: vec![Header { name: "X".to_owned(), value: value.to_owned() }],
            body: None,
        };
        assert_eq!(response.render_head(), Err(HttpTaskError::Request));
    }
}

#[test]
fn streams_give_exactly_the_requested_slice() {
    let content: Vec<u8> = (0_u8..100).collect();
    let mut stream = AssetStream::new(10, 50);
    let mut sent = Vec::new();
    while let Some((offset, length)) = stream.next_read(16) {
        let start = usize::try_from(offset).unwrap();
        let end = start + usize::try_from(length).unwrap().min(7);
        let chunk = &content[start..end];
        stream.check_chunk(16, offset, chunk).expect("chunk");
        sent.extend_from_slice(chunk);
        stream.advance(chunk.len() as u64).expect("advance");
    }
    assert_eq!(sent, content[10..60]);
    let mut stream = AssetStream::new(0, 4);
    assert_eq!(stream.next_read(2), Some((0, 2)));
    assert_eq!(stream.check_chunk(2, 1, b"ab"), Err(HttpTaskError::Backend));
    assert_eq!(stream.check_chunk(2, 0, b""), Err(HttpTaskError::Backend));
    assert_eq!(stream.check_chunk(2, 0, b"abc"), Err(HttpTaskError::Backend));
    assert_eq!(stream.check_chunk(8, 0, b"abcde"), Err(HttpTaskError::Backend));
    stream.advance(4).expect("advance");
    assert_eq!(stream.next_read(2), None);
    assert_eq!(AssetStream::new(u64::MAX, 1).advance(1), Err(HttpTaskError::Backend));
}

#[test]
fn grants_open_their_asset_until_they_are_over() {
    let grantee = |asset: &str| Grantee {
        asset_id: asset.to_owned(),
        actor_id: "actor".to_owned(),
        session_id: "session".to_owned(),
        document_id: "document".to_owned(),
    };
    let token = |text: &str| Some(text.to_owned());
    let mut issuer = AssetAccessGrantIssuer::new(10, 2);
    assert_eq!(
        issuer.issue(Some(100), token("t1"), grantee("a1")),
        Ok(("t1".to_owned(), 110))
    );
    assert_eq!(issuer.validate(Some(100), "t1", "a1"), Ok(()));
    assert_eq!(issuer.validate(Some(109), "t1", "a1"), Ok(()));
    assert_eq!(issuer.validate(Some(110), "t1", "a1"), Err(GrantError::Unauthorized));
    assert_eq!(issuer.validate(Some(100), "t1", "a2"), Err(GrantError::Unauthorized));
    assert_eq!(issuer.validate(Some(100), "t2", "a1"), Err(GrantError::Unauthorized));
    assert_eq!(issuer.validate(None, "t1", "a1"), Err(GrantError::Unauthorized));

    assert_eq!(
        issuer.issue(Some(105), token("t2"), grantee("a2")),
        Ok(("t2".to_owned(), 115))
    );
    assert_eq!(issuer.validate(Some(105), "t1", "a1"), Ok(()));
    assert_eq!(
        issuer.issue(Some(109), token("t3"), grantee("a3")),
        Err(GrantError::Unavailable)
    );
    assert_eq!(
        issuer.issue(Some(110), token("t3"), grantee("a3")),
        Ok(("t3".to_owned(), 120))
    );
    assert_eq!(issuer.validate(Some(110), "t2", "a2"), Ok(()));
    assert_eq!(issuer.validate(Some(110), "t3", "a3"), Ok(()));

    assert_eq!(issuer.issue(None, token("t4"), grantee("a4")), Err(GrantError::Unavailable));
    assert_eq!(
        issuer.issue(Some(i64::MAX), token("t4"), grantee("a4")),
        Err(GrantError::Unavailable)
    );
    assert_eq!(issuer.issue(Some(200), None, grantee("a4")), Err(GrantError::Randomness));
}
