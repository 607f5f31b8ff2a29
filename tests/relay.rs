use hls_relay::codec::{decode, encode, DecodeError};
use hls_relay::headers::HeaderSet;
use hls_relay::manifest::{is_manifest, maybe_rewrite, RewriteError, RewriteOutcome};
use hls_relay::proxy::{proxify, proxy_url, ProxifyError, PROXY_PORT};
use hls_relay::relay::{accept, error_status, failure, respond, upstream_failure, RelayError, Upstream};

const PREFIX: &str = "http://127.0.0.1:63510/proxy/";

fn split_proxy(u: &str) -> (String, String) {
    assert!(u.starts_with(PREFIX), "not a proxy URL: {}", u);
    let rest = &u[PREFIX.len()..];
    match rest.find('?') {
        Some(i) => (rest[..i].to_string(), rest[i + 1..].to_string()),
        None => (rest.to_string(), String::new()),
    }
}

fn headers_of(pairs: &[(&str, &str)]) -> HeaderSet {
    let mut h = HeaderSet::new();
    for (k, v) in pairs {
        h.insert(k.to_string(), v.to_string());
    }
    h
}

fn uri_lines(text: &str) -> Vec<String> {
    text.lines().filter(|l| !l.is_empty() && !l.starts_with('#')).map(|l| l.to_string()).collect()
}

const MASTER: &str = "#EXTM3U\n#EXT-X-VERSION:3\n#EXT-X-STREAM-INF:BANDWIDTH=800000,RESOLUTION=854x480\n480p/stream.m3u8\n#EXT-X-STREAM-INF:BANDWIDTH=2000000,RESOLUTION=1280x720\nhttps://other.example/720p/stream.m3u8\n";

const MEDIA: &str = "#EXTM3U\n#EXT-X-VERSION:3\n#EXT-X-TARGETDURATION:10\n#EXT-X-MEDIA-SEQUENCE:0\n#EXTINF:9.009,\nseg001.ts\n#EXTINF:9.009,\nseg002.ts\n#EXT-X-ENDLIST\n";

#[test]
fn round_trip_of_urls() {
    for u in [
        "https://cdn.example/video/master.m3u8",
        "http://a.example/p?q=1&r=%20x#frag",
        "https://\u{00e9}x.example/\u{65e5}\u{672c}",
        "",
    ] {
        assert_eq!(decode(&encode(u)).unwrap(), u);
    }
}

#[test]
fn tokens_are_base58() {
    let t = encode("https://cdn.example/video/master.m3u8?a=b&c=d");
    assert!(!t.is_empty());
    assert!(t.chars().all(|c| c.is_ascii_alphanumeric() && !"0OIl".contains(c)));
    assert_eq!(encode("a"), "2g");
}

#[test]
fn decode_rejects_non_base58() {
    assert_eq!(decode("abc0"), Err(DecodeError::NotBase58));
    assert_eq!(decode("http://x"), Err(DecodeError::NotBase58));
    assert_eq!(decode("0OIl"), Err(DecodeError::NotBase58));
    assert_eq!(accept("0OIl", "").unwrap_err(), RelayError::Decode(DecodeError::NotBase58));
}

#[test]
fn decode_rejects_invalid_utf8() {
    let token = bs58::encode([0xffu8, 0xfe]).into_string();
    assert_eq!(decode(&token), Err(DecodeError::NotUtf8));
}

#[test]
fn scenario_a_proxify() {
    let p = proxify("https://cdn.example/video/master.m3u8").unwrap();
    assert_eq!(PROXY_PORT, 63510);
    let (token, query) = split_proxy(&p);
    assert!(query.is_empty());
    assert!(!p.contains('?'));
    assert_eq!(decode(&token).unwrap(), "https://cdn.example/video/master.m3u8");
}

#[test]
fn proxify_rejects_relative_urls() {
    assert_eq!(proxify("video/master.m3u8"), Err(ProxifyError::InvalidUrl));
    assert_eq!(proxify(""), Err(ProxifyError::InvalidUrl));
}

#[test]
fn proxify_encodes_the_url_as_given() {
    let p = proxify("HTTPS://CDN.example/a/../b").unwrap();
    let (token, _) = split_proxy(&p);
    assert_eq!(token, bs58::encode("HTTPS://CDN.example/a/../b".as_bytes()).into_string());
    assert_eq!(decode(&token).unwrap(), "HTTPS://CDN.example/a/../b");
    assert_ne!(p, proxify("https://cdn.example/b").unwrap());
}

#[test]
fn scenario_b_master_rewrite() {
    let base = "https://cdn.example/video/master.m3u8";
    let out = maybe_rewrite(base, MASTER.as_bytes().to_vec(), &HeaderSet::new()).unwrap();
    let RewriteOutcome::Rewritten(bytes) = out else { panic!("not rewritten") };
    let text = String::from_utf8(bytes).unwrap();
    let uris = uri_lines(&text);
    assert_eq!(uris.len(), 2);
    let (t0, q0) = split_proxy(&uris[0]);
    assert!(q0.is_empty());
    assert_eq!(decode(&t0).unwrap(), "https://cdn.example/video/480p/stream.m3u8");
    let (t1, _) = split_proxy(&uris[1]);
    assert_eq!(decode(&t1).unwrap(), "https://other.example/720p/stream.m3u8");
}

#[test]
fn scenario_c_media_rewrite() {
    let base = "https://cdn.example/video/480p/index.m3u8";
    let out = maybe_rewrite(base, MEDIA.as_bytes().to_vec(), &HeaderSet::new()).unwrap();
    let RewriteOutcome::Rewritten(bytes) = out else { panic!("not rewritten") };
    let text = String::from_utf8(bytes).unwrap();
    let uris = uri_lines(&text);
    assert_eq!(uris.len(), 2);
    assert_eq!(decode(&split_proxy(&uris[0]).0).unwrap(), "https://cdn.example/video/480p/seg001.ts");
    assert_eq!(decode(&split_proxy(&uris[1]).0).unwrap(), "https://cdn.example/video/480p/seg002.ts");
}

#[test]
fn scenario_d_invalid_utf8_token_is_client_error() {
    let token = bs58::encode([0xc3u8, 0x28]).into_string();
    let e = accept(&token, "").unwrap_err();
    assert_eq!(e, RelayError::Decode(DecodeError::NotUtf8));
    let reply = failure(e);
    assert!((400..500).contains(&reply.status));
}

#[test]
fn scenario_e_upstream_failure_then_valid_request() {
    let reply = upstream_failure();
    assert!((500..600).contains(&reply.status));
    let p = proxify("https://cdn.example/video/master.m3u8").unwrap();
    let (token, query) = split_proxy(&p);
    let target = accept(&token, &query).unwrap();
    assert_eq!(target.url, "https://cdn.example/video/master.m3u8");
    assert!(target.headers.is_empty());
}

#[test]
fn malformed_token_then_valid_request() {
    let e = accept("not-base58!", "").unwrap_err();
    assert_eq!(error_status(e), 400);
    let token = encode("https://cdn.example/x.ts");
    assert_eq!(accept(&token, "").unwrap().url, "https://cdn.example/x.ts");
}

#[test]
fn token_of_non_url_is_bad_target() {
    let token = encode("no url here");
    assert_eq!(accept(&token, "").unwrap_err(), RelayError::BadTarget);
    assert_eq!(error_status(RelayError::BadTarget), 400);
    assert_eq!(error_status(RelayError::BadHeader), 400);
    assert_eq!(error_status(RelayError::Upstream), 502);
    assert_eq!(error_status(RelayError::Parse), 500);
    assert_eq!(error_status(RelayError::Serialize), 500);
}

#[test]
fn passthrough_without_m3u8() {
    let body: Vec<u8> = vec![0, 1, 2, 0xff, b'#', b'E'];
    let out = maybe_rewrite("https://cdn.example/video/seg001.ts", body.clone(), &HeaderSet::new()).unwrap();
    assert_eq!(out, RewriteOutcome::Unchanged(body.clone()));
    let up = Upstream {
        status: 200,
        url: "https://cdn.example/video/seg001.ts".to_string(),
        content_type: Some("video/mp2t".to_string()),
        body: body.clone(),
    };
    let reply = respond(up, &HeaderSet::new());
    assert_eq!(reply.status, 200);
    assert_eq!(reply.body, body);
    assert_eq!(reply.content_type, "video/mp2t");
}

#[test]
fn passthrough_without_content_type() {
    let up = Upstream {
        status: 200,
        url: "https://cdn.example/a.bin".to_string(),
        content_type: None,
        body: vec![7, 8],
    };
    let reply = respond(up, &HeaderSet::new());
    assert_eq!(reply.content_type, "application/octet-stream");
    assert_eq!(reply.body, vec![7, 8]);
}

#[test]
fn non_success_status_passes_through() {
    let up = Upstream {
        status: 302,
        url: "https://cdn.example/video/master.m3u8".to_string(),
        content_type: None,
        body: b"moved".to_vec(),
    };
    let reply = respond(up, &HeaderSet::new());
    assert_eq!(reply.status, 302);
    assert_eq!(reply.body, b"moved".to_vec());
}

#[test]
fn upstream_error_status_is_gateway_error() {
    for status in [404u16, 500, 503, 101] {
        let up = Upstream {
            status,
            url: "https://cdn.example/video/master.m3u8".to_string(),
            content_type: Some("text/html".to_string()),
            body: b"<html>not a playlist</html>".to_vec(),
        };
        let reply = respond(up, &HeaderSet::new());
        assert_eq!(reply.status, 502);
        assert!(reply.body.is_empty());
    }
}

#[test]
fn unparsable_manifest_is_server_error() {
    let body = b"<html>not a playlist</html>".to_vec();
    let h = HeaderSet::new();
    assert_eq!(maybe_rewrite("https://cdn.example/master.m3u8", body.clone(), &h), Err(RewriteError::Parse));
    let up = Upstream {
        status: 200,
        url: "https://cdn.example/master.m3u8".to_string(),
        content_type: Some("application/vnd.apple.mpegurl".to_string()),
        body,
    };
    let reply = respond(up, &h);
    assert_eq!(reply.status, 500);
    assert!(reply.body.is_empty());
}

#[test]
fn rewritten_reply_is_labelled_as_manifest() {
    let up = Upstream {
        status: 200,
        url: "https://cdn.example/video/master.m3u8".to_string(),
        content_type: Some("text/plain".to_string()),
        body: MASTER.as_bytes().to_vec(),
    };
    let reply = respond(up, &HeaderSet::new());
    assert_eq!(reply.status, 200);
    assert_eq!(reply.content_type, "application/vnd.apple.mpegurl");
    assert!(String::from_utf8(reply.body).unwrap().contains(PREFIX));
}

#[test]
fn header_fidelity() {
    let h = headers_of(&[("Referer", "https://site.example/a b"), ("X-Key", "a&b=c+d"), ("Origin", "")]);
    let base = "https://cdn.example/video/master.m3u8";
    let RewriteOutcome::Rewritten(bytes) = maybe_rewrite(base, MASTER.as_bytes().to_vec(), &h).unwrap() else {
        panic!("not rewritten")
    };
    let text = String::from_utf8(bytes).unwrap();
    for u in uri_lines(&text) {
        let (token, query) = split_proxy(&u);
        assert!(!query.is_empty());
        let back = HeaderSet::from_query(&query);
        assert_eq!(back.pairs(), h.pairs());
        let target = accept(&token, &query).unwrap();
        assert_eq!(target.headers.pairs(), h.pairs());
    }
}

#[test]
fn structural_preservation() {
    let base = "https://cdn.example/video/master.m3u8";
    let h = headers_of(&[("Referer", "https://site.example/")]);
    let RewriteOutcome::Rewritten(bytes) = maybe_rewrite(base, MASTER.as_bytes().to_vec(), &h).unwrap() else {
        panic!("not rewritten")
    };
    let (_, before) = m3u8_rs::parse_master_playlist(MASTER.as_bytes()).unwrap();
    let (_, after) = m3u8_rs::parse_master_playlist(&bytes).unwrap();
    assert_eq!(before.variants.len(), after.variants.len());
    for (a, b) in before.variants.iter().zip(after.variants.iter()) {
        let mut b2 = b.clone();
        b2.uri = a.uri.clone();
        assert_eq!(a, &b2);
    }
    assert_eq!(before.version, after.version);

    let base = "https://cdn.example/video/480p/index.m3u8";
    let RewriteOutcome::Rewritten(bytes) = maybe_rewrite(base, MEDIA.as_bytes().to_vec(), &h).unwrap() else {
        panic!("not rewritten")
    };
    let (_, before) = m3u8_rs::parse_media_playlist(MEDIA.as_bytes()).unwrap();
    let (_, after) = m3u8_rs::parse_media_playlist(&bytes).unwrap();
    assert_eq!(before.segments.len(), after.segments.len());
    for (a, b) in before.segments.iter().zip(after.segments.iter()) {
        let mut b2 = b.clone();
        b2.uri = a.uri.clone();
        assert_eq!(a, &b2);
    }
    assert_eq!(before.target_duration, after.target_duration);
    assert_eq!(before.end_list, after.end_list);
}

#[test]
fn unresolvable_entries_leave_body_unchanged() {
    let body = MEDIA.as_bytes().to_vec();
    let out = maybe_rewrite("mailto:m3u8@example.com", body.clone(), &HeaderSet::new()).unwrap();
    assert_eq!(out, RewriteOutcome::Unchanged(body));
}

#[test]
fn empty_playlist_rewrites_to_itself() {
    let body = b"#EXTM3U\n#EXT-X-TARGETDURATION:10\n#EXT-X-ENDLIST\n".to_vec();
    let out = maybe_rewrite("https://cdn.example/e.m3u8", body, &HeaderSet::new()).unwrap();
    assert!(matches!(out, RewriteOutcome::Rewritten(_)));
}

#[test]
fn manifest_detection() {
    assert!(is_manifest("https://cdn.example/video/master.m3u8"));
    assert!(is_manifest("https://cdn.example/x?format=m3u8"));
    assert!(!is_manifest("https://cdn.example/video/seg.ts"));
    assert!(!is_manifest("https://cdn.example/m3u"));
}

#[test]
fn proxy_url_with_and_without_headers() {
    let none = proxy_url("https://cdn.example/a.ts", &HeaderSet::new());
    assert_eq!(none, format!("{}{}", PREFIX, encode("https://cdn.example/a.ts")));
    let h = headers_of(&[("a", "1"), ("b c", "2")]);
    let with = proxy_url("https://cdn.example/a.ts", &h);
    assert_eq!(with, format!("{}{}?a=1&b+c=2", PREFIX, encode("https://cdn.example/a.ts")));
}

#[test]
fn header_set_insert_replaces() {
    let mut h = HeaderSet::new();
    assert!(h.is_empty());
    h.insert("a".to_string(), "1".to_string());
    h.insert("b".to_string(), "2".to_string());
    h.insert("a".to_string(), "3".to_string());
    assert_eq!(h.len(), 2);
    assert_eq!(h.pairs(), &vec![("a".to_string(), "3".to_string()), ("b".to_string(), "2".to_string())]);
}

#[test]
fn query_with_repeated_name_keeps_last_value() {
    let h = HeaderSet::from_query("a=1&b=2&a=3");
    assert_eq!(h.pairs(), &vec![("a".to_string(), "3".to_string()), ("b".to_string(), "2".to_string())]);
    let e = HeaderSet::from_query("");
    assert!(e.is_empty());
    assert_eq!(HeaderSet::from_query("x=%41+b").pairs(), &vec![("x".to_string(), "A b".to_string())]);
}

#[test]
fn header_query_round_trip() {
    let h = headers_of(&[("User-Agent", "Mozilla/5.0 (X11)"), ("k", "=&?#%")]);
    let q = h.to_query();
    assert_eq!(HeaderSet::from_query(&q).pairs(), h.pairs());
}

#[test]
fn media_rewrite_carries_headers_and_keeps_tags() {
    let h = headers_of(&[("Referer", "https://site.example/")]);
    let base = "https://cdn.example/video/480p/index.m3u8";
    let body = b"#EXTM3U\n#EXT-X-TARGETDURATION:10\n#EXTINF:10,\nseg001.ts\n#EXT-X-ENDLIST\n".to_vec();
    let up = Upstream { status: 200, url: base.to_string(), content_type: None, body };
    let reply = respond(up, &h);
    assert_eq!(reply.status, 200);
    assert_eq!(reply.content_type, "application/vnd.apple.mpegurl");
    let text = String::from_utf8(reply.body).unwrap();
    assert!(text.contains("#EXT-X-TARGETDURATION:10"));
    assert!(text.contains("#EXT-X-ENDLIST"));
    let uris = uri_lines(&text);
    assert_eq!(uris.len(), 1);
    let (token, query) = split_proxy(&uris[0]);
    assert_eq!(decode(&token).unwrap(), "https://cdn.example/video/480p/seg001.ts");
    assert_eq!(HeaderSet::from_query(&query).pairs(), h.pairs());
}
