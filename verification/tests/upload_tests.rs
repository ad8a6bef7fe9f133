use giggles::http::{
    client_token_endpoint, import_tweet_endpoint, is_client_error_status, is_success_status,
    is_unauthorized_status, login_poll_endpoint, login_request_endpoint, prepare_endpoint,
    whoami_endpoint, whoami_label,
};
use giggles::upload::{
    batch_summary, blob_headers, blob_pathname, blob_request, blob_request_from, blob_upload_url, clean_tags,
    download_status, failure_lines, format_elapsed, import_tweet_status, item_outcome,
    item_reason_line, no_media_reason, pipeline_error_message, rejection, split_chunks, tally,
    Failure, ImportTweetStatus, ItemOutcome, PipelineError, ServerStep, CHUNK_SIZE,
};

#[test]
fn status_classes() {
    assert!(is_success_status(200));
    assert!(is_success_status(299));
    assert!(!is_success_status(300));
    assert!(is_client_error_status(404));
    assert!(!is_client_error_status(500));
    assert!(is_unauthorized_status(401));
    assert!(!is_unauthorized_status(403));
}

#[test]
fn endpoints() {
    assert_eq!(import_tweet_endpoint("https://gggl.es"), "https://gggl.es/api/gifs/import-tweet");
    assert_eq!(prepare_endpoint("https://gggl.es"), "https://gggl.es/api/upload/prepare");
    assert_eq!(client_token_endpoint("https://gggl.es"), "https://gggl.es/api/upload");
    assert_eq!(whoami_endpoint("s"), "s/api/cli/auth/whoami");
    assert_eq!(login_request_endpoint("s"), "s/api/cli/auth/request");
    assert_eq!(login_poll_endpoint("s"), "s/api/cli/auth/poll");
    assert_eq!(whoami_label(Some("a@b.c".to_string())), "a@b.c");
    assert_eq!(whoami_label(None), "unknown");
}

#[test]
fn import_tweet_status_decides() {
    assert!(matches!(import_tweet_status(404, "404 Not Found"), ImportTweetStatus::NoMedia));
    assert!(matches!(import_tweet_status(200, "200 OK"), ImportTweetStatus::Found));
    match import_tweet_status(502, "502 Bad Gateway") {
        ImportTweetStatus::Failed(f) => assert_eq!(f.message(), "Server error 502 Bad Gateway"),
        _ => panic!("expected a failure"),
    }
}

#[test]
fn no_media_reason_defaults() {
    assert_eq!(pipeline_error_message(&no_media_reason(None)), "Skipped: no animated GIF");
    assert_eq!(pipeline_error_message(&no_media_reason(Some("private".to_string()))), "Skipped: private");
}

#[test]
fn download_status_messages() {
    assert!(download_status(200, "200 OK", false).is_ok());
    assert_eq!(download_status(404, "404 Not Found", false).err().unwrap().message(), "Failed to download: 404 Not Found");
    assert_eq!(download_status(500, "500 X", true).err().unwrap().message(), "Failed to download video: 500 X");
}

#[test]
fn rejection_messages() {
    assert_eq!(rejection(ServerStep::Prepare, "403 Forbidden", None).message(), "Prepare failed 403 Forbidden: unknown");
    assert_eq!(
        rejection(ServerStep::ClientToken, "400 Bad Request", Some("bad tags".to_string())).message(),
        "Token generation failed 400 Bad Request: bad tags"
    );
}

#[test]
fn failure_messages() {
    let cases: Vec<(Failure, &str)> = vec![
        (Failure::ImportTweetUnreachable("e".into()), "Failed to call import-tweet: e"),
        (Failure::ImportTweetInvalid("e".into()), "Invalid import-tweet response: e"),
        (Failure::TweetVideoUnreachable("e".into()), "Failed to download tweet video: e"),
        (Failure::BodyUnreadable("e".into()), "e"),
        (Failure::DownloadUnreachable("e".into()), "Failed to download URL: e"),
        (Failure::FileNotFound("a.gif".into()), "File not found: a.gif"),
        (Failure::FileUnreadable("a.gif".into(), "denied".into()), "Failed to read file a.gif: denied"),
        (Failure::PrepareUnreachable, "Failed to call /api/upload/prepare"),
        (Failure::PrepareInvalid, "Invalid prepare response"),
        (Failure::TokenUnreachable, "Failed to get client token"),
        (Failure::TokenInvalid, "Invalid token response"),
        (Failure::BlobUnreachable, "Failed to upload to Vercel Blob"),
        (Failure::BlobRejected("413 Payload Too Large".into(), "too big".into()), "Blob upload failed 413 Payload Too Large: too big"),
        (Failure::RandomUnavailable, "could not retrieve random bytes for uuid"),
    ];
    for (f, m) in cases {
        assert_eq!(f.message(), m);
    }
    assert_eq!(pipeline_error_message(&PipelineError::Fail(Failure::PrepareInvalid)), "Invalid prepare response");
}

#[test]
fn blob_request_framing() {
    assert_eq!(blob_pathname("abc123", "original.gif"), "abc123/original.gif");
    assert_eq!(blob_upload_url("abc/original.gif"), "https://vercel.com/api/blob/?pathname=abc/original.gif");
    let h = blob_headers("tok", "rid", "image/gif", 1234);
    let expected: Vec<(String, String)> = vec![
        ("authorization", "Bearer tok"),
        ("x-api-version", "12"),
        ("x-api-blob-request-id", "rid"),
        ("x-api-blob-request-attempt", "0"),
        ("x-vercel-blob-access", "private"),
        ("x-content-type", "image/gif"),
        ("x-add-random-suffix", "0"),
        ("x-content-length", "1234"),
    ]
    .into_iter()
    .map(|(a, b)| (a.to_string(), b.to_string()))
    .collect();
    assert_eq!(h, expected);
}

#[test]
fn blob_request_draws_fresh_ids() {
    let a = blob_request("p/original.gif", "image/gif", 5, "tok").unwrap();
    let b = blob_request("p/original.gif", "image/gif", 5, "tok").unwrap();
    assert_eq!(a.url, "https://vercel.com/api/blob/?pathname=p/original.gif");
    assert_eq!(a.headers[2].0, "x-api-blob-request-id");
    let id: Vec<char> = a.headers[2].1.chars().collect();
    assert_eq!(id.len(), 36);
    for (i, c) in id.iter().enumerate() {
        if [8, 13, 18, 23].contains(&i) {
            assert_eq!(*c, '-');
        } else {
            assert!(c.is_ascii_digit() || ('a'..='f').contains(c));
        }
    }
    assert_eq!(id[14], '4');
    assert!(['8', '9', 'a', 'b'].contains(&id[19]));
    assert_ne!(a.headers[2].1, b.headers[2].1);
    assert_eq!(a.headers[7].1, "5");
}

#[test]
fn blob_request_from_fixed_bytes() {
    let random: [u8; 16] = [0xff, 0x00, 0x12, 0x34, 0x56, 0x78, 0x9a, 0xbc, 0xde, 0xf0, 0x01, 0x23, 0x45, 0x67, 0x89, 0xab];
    let q = blob_request_from("id/original.mp4", "video/mp4", 42, "tok", random);
    assert_eq!(q.url, "https://vercel.com/api/blob/?pathname=id/original.mp4");
    let id = "ff001234-5678-4abc-9ef0-0123456789ab";
    assert_eq!(id, uuid::Builder::from_random_bytes(random).into_uuid().to_string());
    assert_eq!(q.headers, blob_headers("tok", id, "video/mp4", 42));
    let zeros = blob_request_from("p", "image/gif", 0, "t", [0u8; 16]);
    assert_eq!(zeros.headers[2].1, "00000000-0000-4000-8000-000000000000");
}

#[test]
fn chunks_cover_bytes() {
    let bytes: Vec<u8> = (0..(2 * CHUNK_SIZE + 10)).map(|i| (i % 251) as u8).collect();
    let chunks = split_chunks(&bytes);
    assert_eq!(chunks.len(), 3);
    assert_eq!(chunks[0].len(), CHUNK_SIZE);
    assert_eq!(chunks[2].len(), 10);
    assert_eq!(chunks.concat(), bytes);
    assert!(split_chunks(&Vec::new()).is_empty());
    assert_eq!(split_chunks(&vec![1u8; CHUNK_SIZE]).len(), 1);
}

#[test]
fn batch_tally_and_lines() {
    let results = vec![
        ("a".to_string(), item_outcome(Ok("id".to_string()))),
        ("b".to_string(), item_outcome(Err(PipelineError::Skip("no media".to_string())))),
        ("c".to_string(), item_outcome(Err(PipelineError::Fail(Failure::PrepareInvalid)))),
        ("d".to_string(), ItemOutcome::Failed("boom".to_string())),
    ];
    let t = tally(&results);
    assert_eq!((t.uploaded, t.skipped, t.failed), (1, 1, 2));
    assert_eq!(failure_lines(&results), vec!["c: Invalid prepare response".to_string(), "d: boom".to_string()]);
    assert_eq!(item_reason_line("b", "no media"), "b: no media");
    assert_eq!(batch_summary("1m 5s", &t), "in 1m 5s — 1 uploaded, 1 skipped, 2 failed");
}

#[test]
fn elapsed_formatting() {
    assert_eq!(format_elapsed(0), "0s");
    assert_eq!(format_elapsed(59), "59s");
    assert_eq!(format_elapsed(60), "1m 0s");
    assert_eq!(format_elapsed(125), "2m 5s");
}

#[test]
fn tags_are_cleaned() {
    let tags = vec![" funny ".to_string(), "".to_string(), "  ".to_string(), "cat".to_string()];
    assert_eq!(clean_tags(&tags).ok().unwrap(), vec!["funny".to_string(), "cat".to_string()]);
    assert_eq!(clean_tags(&vec![" ".to_string()]).err().unwrap(), "At least one tag is required");
    assert_eq!(clean_tags(&vec![]).err().unwrap(), "At least one tag is required");
}

#[test]
fn client_payload_matches_serde_json() {
    for (id, size) in [("abc123", 1024usize), ("we\"ird\\id", 0), ("ünï", 65537), ("\u{1}\u{8}\t\n\u{c}\r\u{1f}/\u{7f}", 3)] {
        let mut fields = serde_json::Map::new();
        fields.insert("shortId".to_string(), serde_json::Value::from(id));
        fields.insert("size".to_string(), serde_json::Value::from(size));
        let expected = serde_json::to_string(&serde_json::Value::Object(fields)).unwrap();
        assert_eq!(giggles::upload::client_payload(id, size), expected);
    }
    assert_eq!(giggles::upload::client_payload("x", 7), "{\"shortId\":\"x\",\"size\":7}");
}

#[test]
fn import_tweet_body_matches_serde_json() {
    for url in ["https://x.com/a/status/1", "https://x.com/\"q\"\\"] {
        let mut fields = serde_json::Map::new();
        fields.insert("tweetUrl".to_string(), serde_json::Value::from(url));
        let expected = serde_json::to_string(&serde_json::Value::Object(fields)).unwrap();
        assert_eq!(giggles::upload::import_tweet_body(url), expected);
    }
    assert_eq!(giggles::upload::import_tweet_body("u"), "{\"tweetUrl\":\"u\"}");
}

#[test]
fn prepare_body_matches_serde_json() {
    let tags = vec!["funny".to_string(), "ca\"t".to_string(), "ü\n".to_string()];
    let array = serde_json::Value::Array(tags.iter().map(|t| serde_json::Value::from(t.as_str())).collect());
    for source in [Some("https://m/a.gif"), None] {
        let src = match source {
            Some(s) => serde_json::to_string(s).unwrap(),
            None => "null".to_string(),
        };
        let expected = format!("{{\"tags\":{},\"source\":{}}}", serde_json::to_string(&array).unwrap(), src);
        assert_eq!(giggles::upload::prepare_body(&tags, source), expected);
    }
    assert_eq!(giggles::upload::prepare_body(&vec!["a".to_string()], None), "{\"tags\":[\"a\"],\"source\":null}");
    assert_eq!(giggles::upload::prepare_body(&vec![], Some("s")), "{\"tags\":[],\"source\":\"s\"}");
}

#[test]
fn client_token_body_matches_serde_json() {
    let payload_text = "{\"shortId\":\"abc\",\"size\":10}";
    let mut payload = serde_json::Map::new();
    payload.insert("pathname".to_string(), serde_json::Value::from("abc/original.gif"));
    payload.insert("clientPayload".to_string(), serde_json::Value::from(payload_text));
    payload.insert("multipart".to_string(), serde_json::Value::from(false));
    let mut body = serde_json::Map::new();
    body.insert("type".to_string(), serde_json::Value::from("blob.generate-client-token"));
    body.insert("payload".to_string(), serde_json::Value::Object(payload));
    let expected = serde_json::to_string(&serde_json::Value::Object(body)).unwrap();
    assert_eq!(giggles::upload::client_token_body("abc/original.gif", payload_text), expected);
}
