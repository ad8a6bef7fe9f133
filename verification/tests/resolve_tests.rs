use giggles::resolve::{
    classify_input, content_type_from_ext, ext_from_content_type, is_http_scheme, is_tweet_host,
    is_tweet_url, is_url, local_media, remote_media, tweet_media, InputKind,
};

#[test]
fn ext_from_content_type_picks_gif_webm_or_mp4() {
    assert_eq!(ext_from_content_type("image/gif"), "gif");
    assert_eq!(ext_from_content_type("video/webm; codecs=vp9"), "webm");
    assert_eq!(ext_from_content_type("video/mp4"), "mp4");
    assert_eq!(ext_from_content_type("application/octet-stream"), "mp4");
    assert_eq!(ext_from_content_type(""), "mp4");
    assert_eq!(ext_from_content_type("gifwebm"), "gif");
}

#[test]
fn tweet_hosts_and_subdomains() {
    assert!(is_tweet_host("twitter.com"));
    assert!(is_tweet_host("x.com"));
    assert!(is_tweet_host("mobile.twitter.com"));
    assert!(is_tweet_host("fxtwitter.com"));
    assert!(is_tweet_host("a.b.vxtwitter.com"));
    assert!(!is_tweet_host("notx.com"));
    assert!(!is_tweet_host("x.com.evil"));
    assert!(!is_tweet_host("com"));
}

#[test]
fn tweet_urls_are_recognised() {
    assert!(is_tweet_url("https://x.com/user/status/1"));
    assert!(is_tweet_url("https://twitter.com/user/status/1"));
    assert!(is_tweet_url("HTTPS://MOBILE.TWITTER.COM/u"));
    assert!(!is_tweet_url("https://example.com/x.com"));
    assert!(!is_tweet_url("x.com/user/status/1"));
    assert!(!is_tweet_url("./clip.gif"));
}

#[test]
fn urls_must_be_http() {
    assert!(is_url("https://example.com/a.gif"));
    assert!(is_url("http://example.com"));
    assert!(!is_url("ftp://example.com/a.gif"));
    assert!(!is_url("/tmp/a.gif"));
    assert!(is_http_scheme("https"));
    assert!(!is_http_scheme("file"));
}

#[test]
fn classify_prefers_tweet_then_url() {
    assert!(matches!(classify_input("https://x.com/a/status/1"), InputKind::Tweet));
    assert!(matches!(classify_input("https://example.com/a.gif"), InputKind::Remote));
    assert!(matches!(classify_input("clips/a.gif"), InputKind::LocalFile));
}

#[test]
fn local_file_types() {
    assert_eq!(content_type_from_ext("gif"), "image/gif");
    assert_eq!(content_type_from_ext("mp4"), "video/mp4");
    assert_eq!(content_type_from_ext("webm"), "video/webm");
    assert_eq!(content_type_from_ext("mov"), "application/octet-stream");
}

#[test]
fn local_media_uses_extension() {
    let m = local_media("clips/funny.webm");
    assert_eq!(m.filename, "original.webm");
    assert_eq!(m.content_type, "video/webm");
    assert!(m.source.is_none());
    let m = local_media("clips/noext");
    assert_eq!(m.filename, "original.gif");
    assert_eq!(m.content_type, "image/gif");
    let m = local_media("a.MOV");
    assert_eq!(m.filename, "original.MOV");
    assert_eq!(m.content_type, "application/octet-stream");
}

#[test]
fn remote_media_uses_header() {
    let m = remote_media("https://e.com/a", Some("image/gif".to_string()));
    assert_eq!(m.filename, "original.gif");
    assert_eq!(m.content_type, "image/gif");
    assert_eq!(m.source.as_deref(), Some("https://e.com/a"));
    let m = remote_media("https://e.com/a", None);
    assert_eq!(m.filename, "original.mp4");
    assert_eq!(m.content_type, "application/octet-stream");
}

#[test]
fn tweet_media_is_mp4() {
    let m = tweet_media("https://x.com/a/status/1");
    assert_eq!(m.filename, "original.mp4");
    assert_eq!(m.content_type, "video/mp4");
    assert_eq!(m.source.as_deref(), Some("https://x.com/a/status/1"));
}

#[test]
fn media_for_local_ext_defaults_to_gif() {
    let m = giggles::resolve::media_for_local_ext(None);
    assert_eq!(m.filename, "original.gif");
    assert_eq!(m.content_type, "image/gif");
    let m = giggles::resolve::media_for_local_ext(Some("mp4".to_string()));
    assert_eq!(m.filename, "original.mp4");
    assert_eq!(m.content_type, "video/mp4");
}

#[test]
fn subdomain_of_tweet_host_is_tweet_host() {
    for host in ["twitter.com", "x.com", "fxtwitter.com", "vxtwitter.com", "m.x.com"] {
        assert!(is_tweet_host(&format!("www.{host}")));
    }
}

#[test]
fn display_name_is_file_name_or_input() {
    assert_eq!(giggles::resolve::display_name("clips/funny.gif"), "funny.gif");
    assert_eq!(giggles::resolve::display_name("https://e.com/a/b.gif"), "b.gif");
    assert_eq!(giggles::resolve::display_name(".."), "..");
    assert_eq!(giggles::resolve::name_or_input(None, "x"), "x");
    assert_eq!(giggles::resolve::name_or_input(Some("n".to_string()), "x"), "n");
}
