//! Deciding what an input names (a tweet, a remote file, a local file) and
//! what the media taken from it is called.

use vstd::prelude::*;
use crate::text::{concat, contains_seq, contains_str, ends_with_seq, ends_with_str, opt_view, str_eq};

verus! {

/// What `url::Url::parse` makes of `input`, by scheme and host: `None`
/// when it is no absolute URL.
pub uninterp spec fn url_parts(input: Seq<char>) -> Option<(Seq<char>, Option<Seq<char>>)>;

/// The scheme and host of a parsed URL.
pub struct UrlParts {
    pub scheme: String,
    pub host: Option<String>,
}

/// Calls `url::Url::parse` and reads the scheme and host of the result.
/// The contract claims only that the outcome is a function of `input`,
/// named `url_parts`; how the URL is parsed is left unsaid.
#[verifier::external_body]
fn parse_url(input: &str) -> (parts: Option<UrlParts>)
    ensures
        match parts {
            Some(p) => url_parts(input@) == Some((p.scheme@, opt_view(p.host))),
            None => url_parts(input@) is None,
        },
{
    match url::Url::parse(input) {
        Ok(u) => Some(UrlParts { scheme: u.scheme().to_string(), host: u.host_str().map(|h| h.to_string()) }),
        Err(_) => None,
    }
}

/// `host` is `known` or a subdomain of it.
pub open spec fn host_matches(host: Seq<char>, known: Seq<char>) -> bool {
    host == known || ends_with_seq(host, seq!['.'] + known)
}

/// `host` belongs to one of the sites whose links are tweets.
pub open spec fn is_tweet_host_spec(host: Seq<char>) -> bool {
    ||| host_matches(host, "twitter.com"@)
    ||| host_matches(host, "x.com"@)
    ||| host_matches(host, "fxtwitter.com"@)
    ||| host_matches(host, "vxtwitter.com"@)
}

fn host_matches_exec(host: &str, known: &str) -> (b: bool)
    ensures
        b == host_matches(host@, known@),
{
    if str_eq(host, known) {
        return true;
    }
    proof {
        reveal_strlit(".");
    }
    let dotted = concat(".", known);
    assert(dotted@ == seq!['.'] + known@);
    ends_with_str(host, dotted.as_str())
}

/// Whether `host` is one of the tweet sites or a subdomain of one.
pub fn is_tweet_host(host: &str) -> (b: bool)
    ensures
        b == is_tweet_host_spec(host@),
{
    host_matches_exec(host, "twitter.com") || host_matches_exec(host, "x.com")
        || host_matches_exec(host, "fxtwitter.com") || host_matches_exec(host, "vxtwitter.com")
}

/// `input` is a URL whose host is a tweet site.
pub open spec fn is_tweet_url_spec(input: Seq<char>) -> bool {
    match url_parts(input) {
        Some((_, Some(host))) => is_tweet_host_spec(host),
        _ => false,
    }
}

/// Whether `input` is a link to a tweet.
pub fn is_tweet_url(input: &str) -> (b: bool)
    ensures
        b == is_tweet_url_spec(input@),
{
    match parse_url(input) {
        Some(p) => match p.host {
            Some(h) => is_tweet_host(h.as_str()),
            None => false,
        },
        None => false,
    }
}

/// `scheme` is fetched over HTTP.
pub open spec fn is_http_scheme_spec(scheme: Seq<char>) -> bool {
    scheme == "http"@ || scheme == "https"@
}

/// Whether `scheme` is `http` or `https`.
pub fn is_http_scheme(scheme: &str) -> (b: bool)
    ensures
        b == is_http_scheme_spec(scheme@),
{
    str_eq(scheme, "http") || str_eq(scheme, "https")
}

/// `input` is an HTTP or HTTPS URL.
pub open spec fn is_url_spec(input: Seq<char>) -> bool {
    match url_parts(input) {
        Some((scheme, _)) => is_http_scheme_spec(scheme),
        None => false,
    }
}

/// Whether `input` is an HTTP or HTTPS URL.
pub fn is_url(input: &str) -> (b: bool)
    ensures
        b == is_url_spec(input@),
{
    match parse_url(input) {
        Some(p) => is_http_scheme(p.scheme.as_str()),
        None => false,
    }
}

/// The file extension for media of content type `ct`.
pub open spec fn ext_for_content_type(ct: Seq<char>) -> Seq<char> {
    if contains_seq(ct, "gif"@) {
        "gif"@
    } else if contains_seq(ct, "webm"@) {
        "webm"@
    } else {
        "mp4"@
    }
}

/// The file extension for media downloaded with content type `ct`: `gif`
/// or `webm` when the type names them, `mp4` otherwise.
pub fn ext_from_content_type(ct: &str) -> (ext: &'static str)
    ensures
        ext@ == ext_for_content_type(ct@),
        contains_seq(ct@, "gif"@) ==> ext@ == "gif"@,
        !contains_seq(ct@, "gif"@) && contains_seq(ct@, "webm"@) ==> ext@ == "webm"@,
        !contains_seq(ct@, "gif"@) && !contains_seq(ct@, "webm"@) ==> ext@ == "mp4"@,
{
    if contains_str(ct, "gif") {
        "gif"
    } else if contains_str(ct, "webm") {
        "webm"
    } else {
        "mp4"
    }
}

/// What an input names.
pub enum InputKind {
    /// A link to a tweet, whose video is fetched through the server.
    Tweet,
    /// An HTTP or HTTPS URL to download.
    Remote,
    /// A path on this machine.
    LocalFile,
}

/// What `input` names: a tweet link first, then any HTTP URL, else a path.
pub fn classify_input(input: &str) -> (k: InputKind)
    ensures
        is_tweet_url_spec(input@) ==> k is Tweet,
        !is_tweet_url_spec(input@) && is_url_spec(input@) ==> k is Remote,
        !is_tweet_url_spec(input@) && !is_url_spec(input@) ==> k is LocalFile,
{
    if is_tweet_url(input) {
        InputKind::Tweet
    } else if is_url(input) {
        InputKind::Remote
    } else {
        InputKind::LocalFile
    }
}

/// The extension that `std::path::Path::extension` finds in `path`.
pub uninterp spec fn path_extension_of(path: Seq<char>) -> Option<Seq<char>>;

/// Calls `std::path::Path::extension` on `path`. The contract claims only
/// that the outcome is a function of `path`, named `path_extension_of`.
#[verifier::external_body]
fn path_extension(path: &str) -> (ext: Option<String>)
    ensures
        match ext {
            Some(e) => path_extension_of(path@) == Some(e@),
            None => path_extension_of(path@) is None,
        },
{
    std::path::Path::new(path).extension().and_then(|e| e.to_str()).map(|e| e.to_string())
}

/// The name, content type and source of the media taken from an input.
pub struct MediaInfo {
    pub filename: String,
    pub content_type: String,
    pub source: Option<String>,
}

/// The content type of a local file with extension `ext`.
pub open spec fn content_type_for_ext(ext: Seq<char>) -> Seq<char> {
    if ext == "gif"@ {
        "image/gif"@
    } else if ext == "mp4"@ {
        "video/mp4"@
    } else if ext == "webm"@ {
        "video/webm"@
    } else {
        "application/octet-stream"@
    }
}

/// A local file's content type follows its extension: `image/gif` for
/// `gif`, `video/mp4` for `mp4`, `video/webm` for `webm`, and
/// `application/octet-stream` for anything else.
pub proof fn lemma_local_content_types(ext: Seq<char>)
    ensures
        content_type_for_ext("gif"@) == "image/gif"@,
        content_type_for_ext("mp4"@) == "video/mp4"@,
        content_type_for_ext("webm"@) == "video/webm"@,
        ext != "gif"@ && ext != "mp4"@ && ext != "webm"@ ==> content_type_for_ext(ext)
            == "application/octet-stream"@,
{
    reveal_strlit("gif");
    reveal_strlit("mp4");
    reveal_strlit("webm");
    assert("gif"@ != "mp4"@ && "gif"@ != "webm"@ && "mp4"@ != "webm"@) by {
        assert("gif"@[0] != "mp4"@[0] && "gif"@[0] != "webm"@[0] && "mp4"@[0] != "webm"@[0]);
    }
}

/// The content type of a local file with extension `ext`.
pub fn content_type_from_ext(ext: &str) -> (ct: &'static str)
    ensures
        ct@ == content_type_for_ext(ext@),
        ext@ == "gif"@ ==> ct@ == "image/gif"@,
        ext@ == "mp4"@ ==> ct@ == "video/mp4"@,
        ext@ == "webm"@ ==> ct@ == "video/webm"@,
        ext@ != "gif"@ && ext@ != "mp4"@ && ext@ != "webm"@ ==> ct@ == "application/octet-stream"@,
{
    proof {
        lemma_local_content_types(ext@);
    }
    if str_eq(ext, "gif") {
        "image/gif"
    } else if str_eq(ext, "mp4") {
        "video/mp4"
    } else if str_eq(ext, "webm") {
        "video/webm"
    } else {
        "application/octet-stream"
    }
}

/// The media of a tweet: the video the server found for it.
pub fn tweet_media(input: &str) -> (m: MediaInfo)
    ensures
        m.filename@ == "original.mp4"@,
        m.content_type@ == "video/mp4"@,
        m.source matches Some(s) && s@ == input@,
{
    MediaInfo {
        filename: String::from_str("original.mp4"),
        content_type: String::from_str("video/mp4"),
        source: Some(String::from_str(input)),
    }
}

/// The content type a download is taken to have: the `content-type`
/// header when it is present and readable, `application/octet-stream`
/// otherwise.
pub open spec fn download_content_type(header: Option<Seq<char>>) -> Seq<char> {
    match header {
        Some(h) => h,
        None => "application/octet-stream"@,
    }
}

/// Downloaded media keeps the content type the server sent, or
/// `application/octet-stream` when it sent none; its file is named
/// `original.gif` when that type mentions gif, else `original.webm` when it
/// mentions webm, else `original.mp4`.
pub proof fn lemma_remote_media_naming(header: Option<Seq<char>>)
    ensures
        header matches Some(h) ==> download_content_type(header) == h,
        header is None ==> download_content_type(header) == "application/octet-stream"@,
        contains_seq(download_content_type(header), "gif"@) ==> "original."@ + ext_for_content_type(
            download_content_type(header),
        ) == "original.gif"@,
        !contains_seq(download_content_type(header), "gif"@) && contains_seq(
            download_content_type(header),
            "webm"@,
        ) ==> "original."@ + ext_for_content_type(download_content_type(header)) == "original.webm"@,
        !contains_seq(download_content_type(header), "gif"@) && !contains_seq(
            download_content_type(header),
            "webm"@,
        ) ==> "original."@ + ext_for_content_type(download_content_type(header)) == "original.mp4"@,
{
    reveal_strlit("original.");
    reveal_strlit("original.gif");
    reveal_strlit("original.webm");
    reveal_strlit("original.mp4");
    reveal_strlit("gif");
    reveal_strlit("webm");
    reveal_strlit("mp4");
    assert("original."@ + "gif"@ =~= "original.gif"@);
    assert("original."@ + "webm"@ =~= "original.webm"@);
    assert("original."@ + "mp4"@ =~= "original.mp4"@);
}

/// The media downloaded from the URL `input`, whose response carried the
/// `content-type` header `header` (`None` when absent or not readable text).
pub fn remote_media(input: &str, header: Option<String>) -> (m: MediaInfo)
    ensures
        m.content_type@ == download_content_type(opt_view(header)),
        m.filename@ == "original."@ + ext_for_content_type(m.content_type@),
        m.source matches Some(s) && s@ == input@,
        header matches Some(h) ==> m.content_type@ == h@,
        header is None ==> m.content_type@ == "application/octet-stream"@,
        contains_seq(m.content_type@, "gif"@) ==> m.filename@ == "original.gif"@,
        !contains_seq(m.content_type@, "gif"@) && contains_seq(m.content_type@, "webm"@)
            ==> m.filename@ == "original.webm"@,
        !contains_seq(m.content_type@, "gif"@) && !contains_seq(m.content_type@, "webm"@)
            ==> m.filename@ == "original.mp4"@,
{
    proof {
        lemma_remote_media_naming(opt_view(header));
    }
    let content_type = match header {
        Some(h) => h,
        None => String::from_str("application/octet-stream"),
    };
    let ext = ext_from_content_type(content_type.as_str());
    MediaInfo { filename: concat("original.", ext), content_type, source: Some(String::from_str(input)) }
}

/// The extension a local file is taken to have: its own (`ext`), or `gif`
/// when it has none.
pub open spec fn local_ext_or_gif(ext: Option<Seq<char>>) -> Seq<char> {
    match ext {
        Some(e) => e,
        None => "gif"@,
    }
}

/// The media read from a local file whose path has the extension `ext`.
pub fn media_for_local_ext(ext: Option<String>) -> (m: MediaInfo)
    ensures
        m.filename@ == "original."@ + local_ext_or_gif(opt_view(ext)),
        m.content_type@ == content_type_for_ext(local_ext_or_gif(opt_view(ext))),
        m.source is None,
{
    let ext = match ext {
        Some(e) => e,
        None => String::from_str("gif"),
    };
    let content_type = content_type_from_ext(ext.as_str());
    MediaInfo { filename: concat("original.", ext.as_str()), content_type: String::from_str(content_type), source: None }
}

/// The media read from the local file at `path`.
pub fn local_media(path: &str) -> (m: MediaInfo)
    ensures
        m.filename@ == "original."@ + local_ext_or_gif(path_extension_of(path@)),
        m.content_type@ == content_type_for_ext(local_ext_or_gif(path_extension_of(path@))),
        m.source is None,
        path_extension_of(path@) matches Some(e) ==> m.filename@ == "original."@ + e,
        path_extension_of(path@) is None ==> m.filename@ == "original."@ + "gif"@ && m.content_type@
            == "image/gif"@,
{
    proof {
        lemma_local_content_types("gif"@);
    }
    media_for_local_ext(path_extension(path))
}

/// The last component that `std::path::Path::file_name` finds in `path`.
pub uninterp spec fn path_file_name_of(path: Seq<char>) -> Option<Seq<char>>;

/// Calls `std::path::Path::file_name` on `path`. The contract claims only
/// that the outcome is a function of `path`, named `path_file_name_of`.
#[verifier::external_body]
fn path_file_name(path: &str) -> (name: Option<String>)
    ensures
        opt_view(name) == path_file_name_of(path@),
{
    std::path::Path::new(path).file_name().and_then(|n| n.to_str()).map(|n| n.to_string())
}

/// The name an uploaded input is reported under: its file name, or the
/// input itself when it has none.
pub fn name_or_input(file_name: Option<String>, input: &str) -> (s: String)
    ensures
        s@ == match opt_view(file_name) {
            Some(n) => n,
            None => input@,
        },
{
    match file_name {
        Some(n) => n,
        None => String::from_str(input),
    }
}

/// The name a single uploaded input is reported under.
pub fn display_name(input: &str) -> (s: String)
    ensures
        s@ == match path_file_name_of(input@) {
            Some(n) => n,
            None => input@,
        },
{
    name_or_input(path_file_name(input), input)
}

/// The four tweet sites are tweet hosts, and every tweet host ends with
/// `twitter.com` or `x.com`.
pub proof fn lemma_tweet_hosts(host: Seq<char>)
    ensures
        is_tweet_host_spec("twitter.com"@),
        is_tweet_host_spec("x.com"@),
        is_tweet_host_spec("fxtwitter.com"@),
        is_tweet_host_spec("vxtwitter.com"@),
        is_tweet_host_spec(host) ==> ends_with_seq(host, "twitter.com"@) || ends_with_seq(host, "x.com"@),
{
    reveal_strlit("twitter.com");
    reveal_strlit("x.com");
    reveal_strlit("fxtwitter.com");
    reveal_strlit("vxtwitter.com");
    assert forall|known: Seq<char>, tail: Seq<char>|
        host_matches(host, known) && ends_with_seq(known, tail) implies ends_with_seq(host, tail) by {
        if host != known {
            let suffix = seq!['.'] + known;
            assert(host.subrange(host.len() - tail.len(), host.len() as int) =~= suffix.subrange(
                suffix.len() - tail.len(),
                suffix.len() as int,
            ));
            assert(suffix.subrange(suffix.len() - tail.len(), suffix.len() as int) =~= known.subrange(
                known.len() - tail.len(),
                known.len() as int,
            ));
        }
    }
    assert(ends_with_seq("twitter.com"@, "twitter.com"@)) by {
        assert("twitter.com"@.subrange(0, 11) =~= "twitter.com"@);
    }
    assert(ends_with_seq("x.com"@, "x.com"@)) by {
        assert("x.com"@.subrange(0, 5) =~= "x.com"@);
    }
    assert(ends_with_seq("fxtwitter.com"@, "twitter.com"@)) by {
        assert("fxtwitter.com"@.subrange(2, 13) =~= "twitter.com"@);
    }
    assert(ends_with_seq("vxtwitter.com"@, "twitter.com"@)) by {
        assert("vxtwitter.com"@.subrange(2, 13) =~= "twitter.com"@);
    }
}

/// A subdomain of a tweet site is a tweet site too.
pub proof fn lemma_subdomain_of_tweet_host(host: Seq<char>, label: Seq<char>)
    requires
        is_tweet_host_spec(host),
    ensures
        is_tweet_host_spec(label + seq!['.'] + host),
{
    let full = label + seq!['.'] + host;
    assert forall|known: Seq<char>| host_matches(host, known) implies host_matches(full, known) by {
        let suffix = seq!['.'] + known;
        if host == known {
            assert(full.subrange(full.len() - suffix.len(), full.len() as int) =~= suffix);
        } else {
            assert(full.subrange(full.len() - suffix.len(), full.len() as int) =~= host.subrange(
                host.len() - suffix.len(),
                host.len() as int,
            ));
        }
    }
}

} // verus!
