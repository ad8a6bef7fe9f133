use giggles::flow::{
    Pipeline, PipelineAction, PipelineEvent, Resolution, ResolveAction, ResolveEvent,
};
use giggles::resolve::MediaInfo;
use giggles::upload::{Failure, PipelineError};

fn resolved(action: ResolveAction) -> MediaInfo {
    match action {
        ResolveAction::Resolved(m) => m,
        _ => panic!("expected resolved media"),
    }
}

fn failed(action: ResolveAction) -> Failure {
    match action {
        ResolveAction::Fail(f) => f,
        _ => panic!("expected a failure"),
    }
}

#[test]
fn tweet_refused_is_skipped() {
    let (r, a) = Resolution::start("https://x.com/someone/status/1");
    assert!(matches!(a, ResolveAction::PostImportTweet));
    let (r, a) = r.step(ResolveEvent::Answered(404, "404 Not Found".into(), None));
    assert!(matches!(a, ResolveAction::ReadRefusal));
    let (r, a) = r.step(ResolveEvent::RefusalRead(None));
    match a {
        ResolveAction::Skip(reason) => assert_eq!(reason, "no animated GIF"),
        _ => panic!("expected a skip"),
    }
    let (_, a) = r.step(ResolveEvent::FileFound(true));
    assert!(matches!(a, ResolveAction::Ignored));
}

#[test]
fn tweet_refusal_reason_is_the_error_field() {
    let (r, _) = Resolution::start("https://vxtwitter.com/a/status/2");
    let (r, _) = r.step(ResolveEvent::Answered(422, "422 Unprocessable Entity".into(), None));
    let (_, a) = r.step(ResolveEvent::RefusalRead(Some("tweet has no video".into())));
    match a {
        ResolveAction::Skip(reason) => assert_eq!(reason, "tweet has no video"),
        _ => panic!("expected a skip"),
    }
}

#[test]
fn tweet_video_is_resolved() {
    let input = "https://twitter.com/a/status/3";
    let (r, _) = Resolution::start(input);
    let (r, a) = r.step(ResolveEvent::Answered(200, "200 OK".into(), Some("application/json".into())));
    assert!(matches!(a, ResolveAction::ReadTweetAnswer));
    let (r, a) = r.step(ResolveEvent::AnswerRead(Ok("https://video.example/v.mp4".into())));
    match &a {
        ResolveAction::FetchVideo(url) => assert_eq!(url, "https://video.example/v.mp4"),
        _ => panic!("expected a video download"),
    }
    let (r, a) = r.step(ResolveEvent::Answered(200, "200 OK".into(), Some("video/mp4".into())));
    assert!(matches!(a, ResolveAction::ReadBody));
    let (_, a) = r.step(ResolveEvent::BodyRead(Ok(())));
    let m = resolved(a);
    assert_eq!(m.filename, "original.mp4");
    assert_eq!(m.content_type, "video/mp4");
    assert_eq!(m.source, Some(input.to_string()));
}

#[test]
fn tweet_server_error_fails() {
    let (r, _) = Resolution::start("https://x.com/a/status/4");
    let (_, a) = r.step(ResolveEvent::Answered(500, "500 Internal Server Error".into(), None));
    assert_eq!(failed(a).message(), "Server error 500 Internal Server Error");
}

#[test]
fn tweet_video_failures() {
    let (r, _) = Resolution::start("https://x.com/a/status/5");
    let (r, _) = r.step(ResolveEvent::Answered(200, "200 OK".into(), None));
    let (_, a) = r.step(ResolveEvent::AnswerRead(Err("missing field `videoUrl`".into())));
    assert_eq!(failed(a).message(), "Invalid import-tweet response: missing field `videoUrl`");

    let (r, _) = Resolution::start("https://x.com/a/status/6");
    let (r, _) = r.step(ResolveEvent::Answered(200, "200 OK".into(), None));
    let (r, _) = r.step(ResolveEvent::AnswerRead(Ok("https://v/x.mp4".into())));
    let (_, a) = r.step(ResolveEvent::Answered(403, "403 Forbidden".into(), None));
    assert_eq!(failed(a).message(), "Failed to download video: 403 Forbidden");
}

#[test]
fn remote_download_is_resolved() {
    let input = "https://media.example/cat.gif";
    let (r, a) = Resolution::start(input);
    assert!(matches!(a, ResolveAction::FetchInput));
    let (r, a) = r.step(ResolveEvent::Answered(200, "200 OK".into(), Some("image/gif".into())));
    assert!(matches!(a, ResolveAction::ReadBody));
    let (_, a) = r.step(ResolveEvent::BodyRead(Ok(())));
    let m = resolved(a);
    assert_eq!(m.filename, "original.gif");
    assert_eq!(m.content_type, "image/gif");
    assert_eq!(m.source, Some(input.to_string()));
}

#[test]
fn remote_download_without_content_type() {
    let (r, _) = Resolution::start("http://media.example/clip");
    let (r, _) = r.step(ResolveEvent::Answered(200, "200 OK".into(), None));
    let m = resolved(r.step(ResolveEvent::BodyRead(Ok(()))).1);
    assert_eq!(m.filename, "original.mp4");
    assert_eq!(m.content_type, "application/octet-stream");
}

#[test]
fn remote_download_failures() {
    let (r, _) = Resolution::start("https://media.example/a.webm");
    let (_, a) = r.step(ResolveEvent::Unreachable("dns error".into()));
    assert_eq!(failed(a).message(), "Failed to download URL: dns error");

    let (r, _) = Resolution::start("https://media.example/a.webm");
    let (_, a) = r.step(ResolveEvent::Answered(404, "404 Not Found".into(), None));
    assert_eq!(failed(a).message(), "Failed to download: 404 Not Found");

    let (r, _) = Resolution::start("https://media.example/a.webm");
    let (r, _) = r.step(ResolveEvent::Answered(200, "200 OK".into(), Some("video/webm".into())));
    let (_, a) = r.step(ResolveEvent::BodyRead(Err("connection reset".into())));
    assert_eq!(failed(a).message(), "connection reset");
}

#[test]
fn local_file_is_resolved() {
    let (r, a) = Resolution::start("clips/dance.webm");
    assert!(matches!(a, ResolveAction::CheckFile));
    let (r, a) = r.step(ResolveEvent::FileFound(true));
    assert!(matches!(a, ResolveAction::ReadFile));
    let m = resolved(r.step(ResolveEvent::BodyRead(Ok(()))).1);
    assert_eq!(m.filename, "original.webm");
    assert_eq!(m.content_type, "video/webm");
    assert_eq!(m.source, None);
}

#[test]
fn local_file_without_extension_is_a_gif() {
    let (r, _) = Resolution::start("clips/noext");
    let (r, _) = r.step(ResolveEvent::FileFound(true));
    let m = resolved(r.step(ResolveEvent::BodyRead(Ok(()))).1);
    assert_eq!(m.filename, "original.gif");
    assert_eq!(m.content_type, "image/gif");
}

#[test]
fn local_file_failures() {
    let (r, _) = Resolution::start("missing/clip.webm");
    let (_, a) = r.step(ResolveEvent::FileFound(false));
    assert_eq!(failed(a).message(), "File not found: missing/clip.webm");

    let (r, _) = Resolution::start("locked.gif");
    let (r, _) = r.step(ResolveEvent::FileFound(true));
    let (_, a) = r.step(ResolveEvent::BodyRead(Err("permission denied".into())));
    assert_eq!(failed(a).message(), "Failed to read file locked.gif: permission denied");
}

#[test]
fn resolution_ignores_foreign_events() {
    let (r, _) = Resolution::start("a.gif");
    let (r, a) = r.step(ResolveEvent::Answered(200, "200 OK".into(), None));
    assert!(matches!(a, ResolveAction::Ignored));
    let (_, a) = r.step(ResolveEvent::FileFound(true));
    assert!(matches!(a, ResolveAction::ReadFile));
}

fn gif_media(source: Option<&str>) -> MediaInfo {
    MediaInfo {
        filename: "original.gif".to_string(),
        content_type: "image/gif".to_string(),
        source: source.map(|s| s.to_string()),
    }
}

fn stopped(action: PipelineAction) -> PipelineError {
    match action {
        PipelineAction::Stop(e) => e,
        _ => panic!("expected the upload to stop"),
    }
}

#[test]
fn pipeline_runs_to_the_stored_blob() {
    let (p, a) = Pipeline::start();
    assert!(matches!(a, PipelineAction::Resolve));
    let (p, a) = p.step(PipelineEvent::Resolved(gif_media(Some("https://m/a.gif")), 10));
    match &a {
        PipelineAction::Prepare(source) => assert_eq!(source.as_deref(), Some("https://m/a.gif")),
        _ => panic!("expected the prepare request"),
    }
    let (p, a) = p.step(PipelineEvent::Answered(200, "200 OK".into()));
    assert!(matches!(a, PipelineAction::ReadAnswer));
    let (p, a) = p.step(PipelineEvent::AnswerRead(Some("abc".into())));
    match &a {
        PipelineAction::Authorize(pathname, payload) => {
            assert_eq!(pathname, "abc/original.gif");
            assert_eq!(payload, "{\"shortId\":\"abc\",\"size\":10}");
        }
        _ => panic!("expected the token request"),
    }
    let (p, a) = p.step(PipelineEvent::Answered(200, "200 OK".into()));
    assert!(matches!(a, PipelineAction::ReadAnswer));
    let (p, a) = p.step(PipelineEvent::AnswerRead(Some("tok".into())));
    match &a {
        PipelineAction::Upload(q) => {
            assert_eq!(q.url, "https://vercel.com/api/blob/?pathname=abc/original.gif");
            assert_eq!(q.headers[0], ("authorization".to_string(), "Bearer tok".to_string()));
            assert_eq!(q.headers[5], ("x-content-type".to_string(), "image/gif".to_string()));
            assert_eq!(q.headers[7], ("x-content-length".to_string(), "10".to_string()));
        }
        _ => panic!("expected the blob upload"),
    }
    let (p, a) = p.step(PipelineEvent::Answered(201, "201 Created".into()));
    match a {
        PipelineAction::Finished(id) => assert_eq!(id, "abc"),
        _ => panic!("expected the upload to finish"),
    }
    let (_, a) = p.step(PipelineEvent::Answered(200, "200 OK".into()));
    assert!(matches!(a, PipelineAction::Ignored));
}

#[test]
fn pipeline_local_media_has_no_source() {
    let (p, _) = Pipeline::start();
    let (_, a) = p.step(PipelineEvent::Resolved(gif_media(None), 3));
    match a {
        PipelineAction::Prepare(source) => assert_eq!(source, None),
        _ => panic!("expected the prepare request"),
    }
}

#[test]
fn pipeline_passes_a_skip_on() {
    let (p, _) = Pipeline::start();
    let (_, a) = p.step(PipelineEvent::NotResolved(PipelineError::Skip("no animated GIF".into())));
    match stopped(a) {
        PipelineError::Skip(reason) => assert_eq!(reason, "no animated GIF"),
        PipelineError::Fail(_) => panic!("expected a skip"),
    }
    let (p, _) = Pipeline::start();
    let (_, a) = p.step(PipelineEvent::NotResolved(PipelineError::Fail(Failure::FileNotFound("x".into()))));
    match stopped(a) {
        PipelineError::Fail(f) => assert_eq!(f.message(), "File not found: x"),
        PipelineError::Skip(_) => panic!("expected a failure"),
    }
}

fn prepared() -> Pipeline {
    let (p, _) = Pipeline::start();
    let (p, _) = p.step(PipelineEvent::Resolved(gif_media(None), 4));
    p
}

fn failure_of(action: PipelineAction) -> String {
    match stopped(action) {
        PipelineError::Fail(f) => f.message(),
        PipelineError::Skip(_) => panic!("expected a failure"),
    }
}

#[test]
fn pipeline_prepare_failures() {
    let (_, a) = prepared().step(PipelineEvent::Unreachable);
    assert_eq!(failure_of(a), "Failed to call /api/upload/prepare");

    let (p, a) = prepared().step(PipelineEvent::Answered(403, "403 Forbidden".into()));
    assert!(matches!(a, PipelineAction::ReadRefusal));
    let (_, a) = p.step(PipelineEvent::RefusalRead(Some("banned".into())));
    assert_eq!(failure_of(a), "Prepare failed 403 Forbidden: banned");

    let (p, _) = prepared().step(PipelineEvent::Answered(200, "200 OK".into()));
    let (_, a) = p.step(PipelineEvent::AnswerRead(None));
    assert_eq!(failure_of(a), "Invalid prepare response");
}

fn authorizing() -> Pipeline {
    let (p, _) = prepared().step(PipelineEvent::Answered(200, "200 OK".into()));
    let (p, _) = p.step(PipelineEvent::AnswerRead(Some("id9".into())));
    p
}

#[test]
fn pipeline_token_failures() {
    let (_, a) = authorizing().step(PipelineEvent::Unreachable);
    assert_eq!(failure_of(a), "Failed to get client token");

    let (p, _) = authorizing().step(PipelineEvent::Answered(500, "500 Internal Server Error".into()));
    let (_, a) = p.step(PipelineEvent::RefusalRead(None));
    assert_eq!(failure_of(a), "Token generation failed 500 Internal Server Error: unknown");

    let (p, _) = authorizing().step(PipelineEvent::Answered(200, "200 OK".into()));
    let (_, a) = p.step(PipelineEvent::AnswerRead(None));
    assert_eq!(failure_of(a), "Invalid token response");
}

#[test]
fn pipeline_blob_failures() {
    let (p, _) = authorizing().step(PipelineEvent::Answered(200, "200 OK".into()));
    let (p, _) = p.step(PipelineEvent::AnswerRead(Some("tok".into())));
    let (_, a) = p.step(PipelineEvent::Unreachable);
    assert_eq!(failure_of(a), "Failed to upload to Vercel Blob");

    let (p, _) = authorizing().step(PipelineEvent::Answered(200, "200 OK".into()));
    let (p, _) = p.step(PipelineEvent::AnswerRead(Some("tok".into())));
    let (p, a) = p.step(PipelineEvent::Answered(413, "413 Payload Too Large".into()));
    assert!(matches!(a, PipelineAction::ReadRefusal));
    let (_, a) = p.step(PipelineEvent::BodyRead("too big".into()));
    assert_eq!(failure_of(a), "Blob upload failed 413 Payload Too Large: too big");
}
