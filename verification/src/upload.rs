//! The upload pipeline: what each step decides, how the blob request is
//! framed, and how a batch is reported.

use vstd::prelude::*;
use crate::http::{is_client_error_spec, is_client_error_status, is_success_spec, is_success_status};
use crate::text::{
    concat, concat3, contains_seq, decimal, decimal_seq, decimal_value, lemma_decimal_roundtrip,
    lemma_trim_idempotent, trim, trim_seq,
};

verus! {

/// The size of the pieces in which media is streamed to the blob store.
pub const CHUNK_SIZE: usize = 65536;

/// Why a step of the pipeline failed.
pub enum Failure {
    /// The import-tweet endpoint could not be reached.
    ImportTweetUnreachable(String),
    /// The import-tweet endpoint answered with this non-client-error,
    /// non-success status.
    ImportTweetStatus(String),
    /// The import-tweet answer could not be read.
    ImportTweetInvalid(String),
    /// The tweet's video could not be fetched.
    TweetVideoUnreachable(String),
    /// The tweet's video was answered with this failing status.
    TweetVideoStatus(String),
    /// A downloaded body could not be read.
    BodyUnreadable(String),
    /// The URL could not be fetched.
    DownloadUnreachable(String),
    /// The URL was answered with this failing status.
    DownloadStatus(String),
    /// No file exists at this path.
    FileNotFound(String),
    /// The file at this path could not be read, for this reason.
    FileUnreadable(String, String),
    /// The prepare endpoint could not be reached.
    PrepareUnreachable,
    /// The prepare endpoint refused with this status and error field.
    PrepareRejected(String, Option<String>),
    /// The prepare answer could not be read.
    PrepareInvalid,
    /// The client-token endpoint could not be reached.
    TokenUnreachable,
    /// The client-token endpoint refused with this status and error field.
    TokenRejected(String, Option<String>),
    /// The client-token answer could not be read.
    TokenInvalid,
    /// The blob store could not be reached.
    BlobUnreachable,
    /// The blob store refused with this status and body.
    BlobRejected(String, String),
    /// No random bytes could be drawn for the blob request id.
    RandomUnavailable,
}

/// The error field of a refusal, or `unknown` when it had none.
pub open spec fn error_field_or_unknown(e: Option<String>) -> Seq<char> {
    match e {
        Some(s) => s@,
        None => "unknown"@,
    }
}

/// The message shown for a failure.
pub open spec fn failure_text(f: Failure) -> Seq<char> {
    match f {
        Failure::ImportTweetUnreachable(e) => "Failed to call import-tweet: "@ + e@,
        Failure::ImportTweetStatus(s) => "Server error "@ + s@,
        Failure::ImportTweetInvalid(e) => "Invalid import-tweet response: "@ + e@,
        Failure::TweetVideoUnreachable(e) => "Failed to download tweet video: "@ + e@,
        Failure::TweetVideoStatus(s) => "Failed to download video: "@ + s@,
        Failure::BodyUnreadable(e) => e@,
        Failure::DownloadUnreachable(e) => "Failed to download URL: "@ + e@,
        Failure::DownloadStatus(s) => "Failed to download: "@ + s@,
        Failure::FileNotFound(p) => "File not found: "@ + p@,
        Failure::FileUnreadable(p, e) => "Failed to read file "@ + p@ + ": "@ + e@,
        Failure::PrepareUnreachable => "Failed to call /api/upload/prepare"@,
        Failure::PrepareRejected(s, e) => "Prepare failed "@ + s@ + ": "@ + error_field_or_unknown(e),
        Failure::PrepareInvalid => "Invalid prepare response"@,
        Failure::TokenUnreachable => "Failed to get client token"@,
        Failure::TokenRejected(s, e) => "Token generation failed "@ + s@ + ": "@
            + error_field_or_unknown(e),
        Failure::TokenInvalid => "Invalid token response"@,
        Failure::BlobUnreachable => "Failed to upload to Vercel Blob"@,
        Failure::BlobRejected(s, b) => "Blob upload failed "@ + s@ + ": "@ + b@,
        Failure::RandomUnavailable => "could not retrieve random bytes for uuid"@,
    }
}

fn error_field_text(e: &Option<String>) -> (s: String)
    ensures
        s@ == error_field_or_unknown(*e),
{
    match e {
        Some(s) => s.clone(),
        None => String::from_str("unknown"),
    }
}

impl Failure {
    /// The message shown for this failure.
    pub fn message(&self) -> (m: String)
        ensures
            m@ == failure_text(*self),
    {
        match self {
            Failure::ImportTweetUnreachable(e) => concat("Failed to call import-tweet: ", e.as_str()),
            Failure::ImportTweetStatus(s) => concat("Server error ", s.as_str()),
            Failure::ImportTweetInvalid(e) => concat("Invalid import-tweet response: ", e.as_str()),
            Failure::TweetVideoUnreachable(e) => concat("Failed to download tweet video: ", e.as_str()),
            Failure::TweetVideoStatus(s) => concat("Failed to download video: ", s.as_str()),
            Failure::BodyUnreadable(e) => e.clone(),
            Failure::DownloadUnreachable(e) => concat("Failed to download URL: ", e.as_str()),
            Failure::DownloadStatus(s) => concat("Failed to download: ", s.as_str()),
            Failure::FileNotFound(p) => concat("File not found: ", p.as_str()),
            Failure::FileUnreadable(p, e) => {
                let mut m = concat3("Failed to read file ", p.as_str(), ": ");
                m.append(e.as_str());
                m
            },
            Failure::PrepareUnreachable => String::from_str("Failed to call /api/upload/prepare"),
            Failure::PrepareRejected(s, e) => {
                let mut m = concat3("Prepare failed ", s.as_str(), ": ");
                let t = error_field_text(e);
                m.append(t.as_str());
                m
            },
            Failure::PrepareInvalid => String::from_str("Invalid prepare response"),
            Failure::TokenUnreachable => String::from_str("Failed to get client token"),
            Failure::TokenRejected(s, e) => {
                let mut m = concat3("Token generation failed ", s.as_str(), ": ");
                let t = error_field_text(e);
                m.append(t.as_str());
                m
            },
            Failure::TokenInvalid => String::from_str("Invalid token response"),
            Failure::BlobUnreachable => String::from_str("Failed to upload to Vercel Blob"),
            Failure::BlobRejected(s, b) => {
                let mut m = concat3("Blob upload failed ", s.as_str(), ": ");
                m.append(b.as_str());
                m
            },
            Failure::RandomUnavailable => String::from_str("could not retrieve random bytes for uuid"),
        }
    }
}

/// Why an input was not uploaded.
pub enum PipelineError {
    /// The input has nothing to upload (a tweet without usable media),
    /// for this reason.
    Skip(String),
    /// A step failed.
    Fail(Failure),
}

/// The message of a pipeline error when a single input was uploaded.
pub open spec fn pipeline_error_text(e: PipelineError) -> Seq<char> {
    match e {
        PipelineError::Skip(reason) => "Skipped: "@ + reason@,
        PipelineError::Fail(f) => failure_text(f),
    }
}

/// The message reported when uploading a single input failed.
pub fn pipeline_error_message(e: &PipelineError) -> (m: String)
    ensures
        m@ == pipeline_error_text(*e),
{
    match e {
        PipelineError::Skip(reason) => concat("Skipped: ", reason.as_str()),
        PipelineError::Fail(f) => f.message(),
    }
}

/// What the import-tweet answer's status decides.
pub enum ImportTweetStatus {
    /// 4xx: the tweet has no usable media; the input is skipped.
    NoMedia,
    /// Any other failing status.
    Failed(Failure),
    /// 2xx: the answer names the video.
    Found,
}

/// What the import-tweet endpoint's status `code` (shown as `status_text`)
/// decides.
pub fn import_tweet_status(code: u16, status_text: &str) -> (d: ImportTweetStatus)
    ensures
        is_client_error_spec(code) ==> d is NoMedia,
        !is_client_error_spec(code) && !is_success_spec(code) ==> (d matches ImportTweetStatus::Failed(
            Failure::ImportTweetStatus(s),
        ) && s@ == status_text@),
        is_success_spec(code) ==> d is Found,
{
    if is_client_error_status(code) {
        ImportTweetStatus::NoMedia
    } else if !is_success_status(code) {
        ImportTweetStatus::Failed(Failure::ImportTweetStatus(String::from_str(status_text)))
    } else {
        ImportTweetStatus::Found
    }
}

/// The reason a tweet without media is skipped: the `error` field of the
/// answer when it is a string, `no animated GIF` otherwise.
pub fn no_media_reason(error_field: Option<String>) -> (r: PipelineError)
    ensures
        r matches PipelineError::Skip(s) && s@ == match error_field {
            Some(e) => e@,
            None => "no animated GIF"@,
        },
{
    match error_field {
        Some(e) => PipelineError::Skip(e),
        None => PipelineError::Skip(String::from_str("no animated GIF")),
    }
}

/// Whether a download answered with `code` failed; the failure names the
/// status `status_text`, as a tweet-video or a plain download failure.
pub fn download_status(code: u16, status_text: &str, tweet_video: bool) -> (r: Result<(), Failure>)
    ensures
        is_success_spec(code) ==> r is Ok,
        !is_success_spec(code) && tweet_video ==> (r matches Err(Failure::TweetVideoStatus(s))
            && s@ == status_text@),
        !is_success_spec(code) && !tweet_video ==> (r matches Err(Failure::DownloadStatus(s))
            && s@ == status_text@),
{
    if is_success_status(code) {
        Ok(())
    } else if tweet_video {
        Err(Failure::TweetVideoStatus(String::from_str(status_text)))
    } else {
        Err(Failure::DownloadStatus(String::from_str(status_text)))
    }
}

/// The two requests to the server that can be refused.
pub enum ServerStep {
    /// Registering the upload.
    Prepare,
    /// Asking for a blob-store client token.
    ClientToken,
}

/// The failure reported when `step` was refused with the status
/// `status_text` and the answer's `error` field `error_field`.
pub fn rejection(step: ServerStep, status_text: &str, error_field: Option<String>) -> (f: Failure)
    ensures
        step is Prepare ==> (f matches Failure::PrepareRejected(s, e) && s@ == status_text@ && e
            == error_field),
        step is ClientToken ==> (f matches Failure::TokenRejected(s, e) && s@ == status_text@ && e
            == error_field),
{
    match step {
        ServerStep::Prepare => Failure::PrepareRejected(String::from_str(status_text), error_field),
        ServerStep::ClientToken => Failure::TokenRejected(String::from_str(status_text), error_field),
    }
}

/// Where in the blob store the media of upload `short_id` is put.
pub fn blob_pathname(short_id: &str, filename: &str) -> (p: String)
    ensures
        p@ == short_id@ + "/"@ + filename@,
{
    concat3(short_id, "/", filename)
}

/// The blob store's upload URL for `pathname`.
pub fn blob_upload_url(pathname: &str) -> (u: String)
    ensures
        u@ == "https://vercel.com/api/blob"@ + "/?pathname="@ + pathname@,
{
    concat3("https://vercel.com/api/blob", "/?pathname=", pathname)
}

/// The headers of a blob upload, in the order they are sent.
pub open spec fn blob_headers_spec(
    client_token: Seq<char>,
    request_id: Seq<char>,
    content_type: Seq<char>,
    size: nat,
) -> Seq<(Seq<char>, Seq<char>)> {
    seq![
        ("authorization"@, "Bearer "@ + client_token),
        ("x-api-version"@, "12"@),
        ("x-api-blob-request-id"@, request_id),
        ("x-api-blob-request-attempt"@, "0"@),
        ("x-vercel-blob-access"@, "private"@),
        ("x-content-type"@, content_type),
        ("x-add-random-suffix"@, "0"@),
        ("x-content-length"@, decimal_seq(size)),
    ]
}

/// The view of a list of headers.
pub open spec fn headers_view(h: Seq<(String, String)>) -> Seq<(Seq<char>, Seq<char>)> {
    h.map_values(|p: (String, String)| (p.0@, p.1@))
}

/// Among the headers `hs` there is one named `name`, and every header so
/// named has the value `value`.
pub open spec fn carries(hs: Seq<(Seq<char>, Seq<char>)>, name: Seq<char>, value: Seq<char>) -> bool {
    &&& exists|i: int| 0 <= i < hs.len() && #[trigger] hs[i].0 == name
    &&& forall|i: int| 0 <= i < hs.len() && #[trigger] hs[i].0 == name ==> hs[i].1 == value
}

/// A blob upload carries its inputs unchanged: the content type under
/// `x-content-type`, the token after `Bearer ` under `authorization`, the
/// request id under `x-api-blob-request-id`, and the size in decimal under
/// `x-content-length`.
pub proof fn lemma_blob_headers_carry_inputs(
    client_token: Seq<char>,
    request_id: Seq<char>,
    content_type: Seq<char>,
    size: nat,
)
    ensures
        carries(blob_headers_spec(client_token, request_id, content_type, size), "x-content-type"@, content_type),
        carries(
            blob_headers_spec(client_token, request_id, content_type, size),
            "authorization"@,
            "Bearer "@ + client_token,
        ),
        carries(
            blob_headers_spec(client_token, request_id, content_type, size),
            "x-api-blob-request-id"@,
            request_id,
        ),
        carries(
            blob_headers_spec(client_token, request_id, content_type, size),
            "x-content-length"@,
            decimal_seq(size),
        ),
{
    reveal_strlit("authorization");
    reveal_strlit("x-api-version");
    reveal_strlit("x-api-blob-request-id");
    reveal_strlit("x-api-blob-request-attempt");
    reveal_strlit("x-vercel-blob-access");
    reveal_strlit("x-content-type");
    reveal_strlit("x-add-random-suffix");
    reveal_strlit("x-content-length");
    let hs = blob_headers_spec(client_token, request_id, content_type, size);
    assert(hs.len() == 8);
    assert(hs[0].0.len() == 13 && hs[1].0.len() == 13 && hs[2].0.len() == 21 && hs[3].0.len() == 26);
    assert(hs[4].0.len() == 20 && hs[5].0.len() == 14 && hs[6].0.len() == 19 && hs[7].0.len() == 16);
    assert(hs[0].0[1] == 'u' && hs[1].0[1] == '-');
    assert(hs[0].0 != hs[1].0);
    assert(hs[5].0 == "x-content-type"@);
    assert(hs[0].0 == "authorization"@);
    assert(hs[2].0 == "x-api-blob-request-id"@);
    assert(hs[7].0 == "x-content-length"@);
}

fn header(name: &str, value: String) -> (h: (String, String))
    ensures
        h.0@ == name@,
        h.1@ == value@,
{
    (String::from_str(name), value)
}

/// The headers of a blob upload of `size` bytes of type `content_type`,
/// authorized by `client_token` and tagged with `request_id`.
pub fn blob_headers(client_token: &str, request_id: &str, content_type: &str, size: u64) -> (h: Vec<(String, String)>)
    ensures
        headers_view(h@) == blob_headers_spec(client_token@, request_id@, content_type@, size as nat),
        carries(headers_view(h@), "x-content-type"@, content_type@),
        carries(headers_view(h@), "authorization"@, "Bearer "@ + client_token@),
        carries(headers_view(h@), "x-api-blob-request-id"@, request_id@),
        carries(headers_view(h@), "x-content-length"@, decimal_seq(size as nat)),
{
    let mut h: Vec<(String, String)> = Vec::new();
    h.push(header("authorization", concat("Bearer ", client_token)));
    h.push(header("x-api-version", String::from_str("12")));
    h.push(header("x-api-blob-request-id", String::from_str(request_id)));
    h.push(header("x-api-blob-request-attempt", String::from_str("0")));
    h.push(header("x-vercel-blob-access", String::from_str("private")));
    h.push(header("x-content-type", String::from_str(content_type)));
    h.push(header("x-add-random-suffix", String::from_str("0")));
    h.push(header("x-content-length", decimal(size)));
    assert(headers_view(h@) =~= blob_headers_spec(client_token@, request_id@, content_type@, size as nat));
    proof {
        lemma_blob_headers_carry_inputs(client_token@, request_id@, content_type@, size as nat);
    }
    h
}

/// A lowercase hexadecimal digit.
pub open spec fn is_lower_hex(c: char) -> bool {
    ('0' <= c <= '9') || ('a' <= c <= 'f')
}

/// `s` is a random (version 4) UUID in hyphenated lowercase form: hex
/// digits in groups of 8, 4, 4, 4 and 12, version digit `4`, variant digit
/// one of `8`, `9`, `a`, `b`.
pub open spec fn is_v4_uuid_text(s: Seq<char>) -> bool {
    &&& s.len() == 36
    &&& forall|i: int|
        0 <= i < 36 ==> if i == 8 || i == 13 || i == 18 || i == 23 {
            #[trigger] s[i] == '-'
        } else {
            is_lower_hex(s[i])
        }
    &&& s[14] == '4'
    &&& (s[19] == '8' || s[19] == '9' || s[19] == 'a' || s[19] == 'b')
}

/// The bytes of the version 4 UUID made from the random bytes `r`: the high
/// four bits of byte 6 set to `0100` (`(x & 0x0f) | 0x40`) and the high two
/// bits of byte 8 set to `10` (`(x & 0x3f) | 0x80`).
pub open spec fn v4_bytes(r: Seq<u8>) -> Seq<u8> {
    r.update(6, (r[6] % 16 + 64) as u8).update(8, (r[8] % 64 + 128) as u8)
}

/// How many hyphens the hyphenated form of a UUID has before position `i`.
pub open spec fn hyphens_before(i: int) -> int {
    if i < 8 {
        0
    } else if i < 13 {
        1
    } else if i < 18 {
        2
    } else if i < 23 {
        3
    } else {
        4
    }
}

/// The hyphenated lowercase text of the 16 bytes `b`: two hex digits per
/// byte, high digit first, in groups of 8, 4, 4, 4 and 12 digits.
pub open spec fn uuid_text(b: Seq<u8>) -> Seq<char> {
    Seq::new(
        36,
        |i: int|
            if i == 8 || i == 13 || i == 18 || i == 23 {
                '-'
            } else {
                let k = i - hyphens_before(i);
                if k % 2 == 0 {
                    hex_digit_lower((b[k / 2] / 16) as nat)
                } else {
                    hex_digit_lower((b[k / 2] % 16) as nat)
                }
            },
    )
}

/// The text made from any 16 random bytes is a version 4 UUID.
pub proof fn lemma_uuid_text_is_v4(r: Seq<u8>)
    requires
        r.len() == 16,
    ensures
        is_v4_uuid_text(uuid_text(v4_bytes(r))),
{
    let b = v4_bytes(r);
    let t = uuid_text(b);
    assert forall|i: int| 0 <= i < 36 implies if i == 8 || i == 13 || i == 18 || i == 23 {
        #[trigger] t[i] == '-'
    } else {
        is_lower_hex(t[i])
    } by {
        if !(i == 8 || i == 13 || i == 18 || i == 23) {
            let k = i - hyphens_before(i);
            assert(0 <= k / 2 < 16);
            let x = b[k / 2];
            assert(x / 16 < 16 && x % 16 < 16);
        }
    }
    assert(b[6] == (r[6] % 16 + 64) as u8);
    assert(t[14] == hex_digit_lower((b[6] / 16) as nat));
    assert(b[8] == (r[8] % 64 + 128) as u8);
    assert(t[19] == hex_digit_lower((b[8] / 16) as nat));
}

/// Draws 16 bytes from the operating system's random source with
/// `getrandom::fill`; `None` when the source fails. They are random: the
/// contract claims nothing of them.
#[verifier::external_body]
fn random_bytes() -> (r: Option<[u8; 16]>) {
    let mut bytes = [0u8; 16];
    match getrandom::fill(&mut bytes) {
        Ok(()) => Some(bytes),
        Err(_) => None,
    }
}

/// Calls `uuid::Builder::from_random_bytes` on `random` and writes the UUID
/// out. Its source sets the version and variant bits as `v4_bytes` says,
/// and the UUID's `Display` writes the hyphenated lowercase form.
#[verifier::external_body]
fn uuid_v4_text(random: [u8; 16]) -> (s: String)
    ensures
        s@ == uuid_text(v4_bytes(random@)),
{
    uuid::Builder::from_random_bytes(random).into_uuid().to_string()
}

/// A blob upload request: where it goes and the headers it carries.
pub struct BlobRequest {
    pub url: String,
    pub headers: Vec<(String, String)>,
}

/// The blob upload request for `size` bytes of type `content_type` at
/// `pathname`, tagged with the request id made from the random bytes
/// `random`.
pub fn blob_request_from(
    pathname: &str,
    content_type: &str,
    size: u64,
    client_token: &str,
    random: [u8; 16],
) -> (r: BlobRequest)
    ensures
        r.url@ == "https://vercel.com/api/blob"@ + "/?pathname="@ + pathname@,
        headers_view(r.headers@) == blob_headers_spec(
            client_token@,
            uuid_text(v4_bytes(random@)),
            content_type@,
            size as nat,
        ),
{
    let id = uuid_v4_text(random);
    let headers = blob_headers(client_token, id.as_str(), content_type, size);
    BlobRequest { url: blob_upload_url(pathname), headers }
}

/// The blob upload request for `size` bytes of type `content_type` at
/// `pathname`, under a fresh random version 4 request id; `None` when no
/// random bytes could be drawn.
pub fn blob_request(pathname: &str, content_type: &str, size: u64, client_token: &str) -> (r: Option<BlobRequest>)
    ensures
        r matches Some(q) ==> q.url@ == "https://vercel.com/api/blob"@ + "/?pathname="@ + pathname@
            && exists|random: Seq<u8>|
            random.len() == 16 && is_v4_uuid_text(uuid_text(v4_bytes(random))) && headers_view(
                q.headers@,
            ) == blob_headers_spec(
                client_token@,
                uuid_text(v4_bytes(random)),
                content_type@,
                size as nat,
            ),
{
    match random_bytes() {
        Some(random) => {
            proof {
                broadcast use vstd::array::group_array_axioms;
                assert(random@.len() == 16);
                lemma_uuid_text_is_v4(random@);
            }
            Some(blob_request_from(pathname, content_type, size, client_token, random))
        },
        None => None,
    }
}

/// The lowercase hexadecimal digit for `d`, where `d < 16`.
pub open spec fn hex_digit_lower(d: nat) -> char {
    if d < 10 {
        (48 + d) as char
    } else {
        (87 + d) as char
    }
}

/// How serde_json writes `c` inside a JSON string: quote and backslash
/// behind a backslash, the control characters below U+0020 as `\b`, `\t`,
/// `\n`, `\f`, `\r` or `\u00XX` with lowercase hex, everything else as is.
pub open spec fn json_escaped_char(c: char) -> Seq<char> {
    let n = c as u32;
    if c == '"' {
        seq!['\\', '"']
    } else if c == '\\' {
        seq!['\\', '\\']
    } else if n == 0x08 {
        seq!['\\', 'b']
    } else if n == 0x09 {
        seq!['\\', 't']
    } else if n == 0x0a {
        seq!['\\', 'n']
    } else if n == 0x0c {
        seq!['\\', 'f']
    } else if n == 0x0d {
        seq!['\\', 'r']
    } else if n < 0x20 {
        seq!['\\', 'u', '0', '0', hex_digit_lower((n / 16) as nat), hex_digit_lower((n % 16) as nat)]
    } else {
        seq![c]
    }
}

/// The JSON string literal that serde_json writes for `s`.
pub open spec fn json_quoted(s: Seq<char>) -> Seq<char> {
    seq!['"'] + s.map_values(|c: char| json_escaped_char(c)).flatten() + seq!['"']
}

/// Calls `serde_json::to_string` on a string slice. Its source writes the
/// slice between quotes with the escapes of its table, into a vector, where
/// nothing can fail: the contract claims that it gives `Ok` with
/// `json_quoted(s)`.
#[verifier::external_body]
fn json_string(s: &str) -> (r: Result<String, String>)
    ensures
        r is Ok,
        r.unwrap()@ == json_quoted(s@),
{
    serde_json::to_string(s).map_err(|e| e.to_string())
}

/// The client payload for upload `short_id` of `size` bytes: an object
/// with the keys in sorted order, as compact JSON.
pub open spec fn client_payload_text(short_id: Seq<char>, size: nat) -> Seq<char> {
    "{\"shortId\":"@ + json_quoted(short_id) + ",\"size\":"@ + decimal_seq(size) + "}"@
}

/// The JSON client payload that names upload `short_id` and its `size`.
pub fn client_payload(short_id: &str, size: usize) -> (p: String)
    ensures
        p@ == client_payload_text(short_id@, size as nat),
{
    let quoted = match json_string(short_id) {
        Ok(q) => q,
        Err(e) => {
            proof {
                assert(false);
            }
            e
        },
    };
    let digits = decimal(size as u64);
    let mut p = concat3("{\"shortId\":", quoted.as_str(), ",\"size\":");
    p.append(digits.as_str());
    p.append("}");
    p
}

/// The quoted JSON string for `s`, as `json_string` gives it.
fn quoted(s: &str) -> (q: String)
    ensures
        q@ == json_quoted(s@),
{
    match json_string(s) {
        Ok(q) => q,
        Err(e) => {
            proof {
                assert(false);
            }
            e
        },
    }
}

/// The body of an import-tweet request for `tweet_url`, as compact JSON.
pub open spec fn import_tweet_body_text(tweet_url: Seq<char>) -> Seq<char> {
    "{\"tweetUrl\":"@ + json_quoted(tweet_url) + "}"@
}

/// The JSON body that asks the server to import the tweet at `tweet_url`.
pub fn import_tweet_body(tweet_url: &str) -> (b: String)
    ensures
        b@ == import_tweet_body_text(tweet_url@),
{
    let q = quoted(tweet_url);
    concat3("{\"tweetUrl\":", q.as_str(), "}")
}

/// The elements of a JSON array of the strings `items`, comma-separated.
pub open spec fn json_list_items(items: Seq<Seq<char>>) -> Seq<char>
    decreases items.len(),
{
    if items.len() == 0 {
        Seq::empty()
    } else if items.len() == 1 {
        json_quoted(items[0])
    } else {
        json_list_items(items.drop_last()) + ","@ + json_quoted(items.last())
    }
}

/// The views of a list of strings.
pub open spec fn string_views(v: Seq<String>) -> Seq<Seq<char>> {
    v.map_values(|s: String| s@)
}

/// The view of an optional string slice.
pub open spec fn opt_str_view(o: Option<&str>) -> Option<Seq<char>> {
    match o {
        Some(s) => Some(s@),
        None => None,
    }
}

/// The body of a prepare request: the tags as an array of strings, then
/// the source as a string or `null`, as compact JSON.
pub open spec fn prepare_body_text(tags: Seq<Seq<char>>, source: Option<Seq<char>>) -> Seq<char> {
    "{\"tags\":["@ + json_list_items(tags) + "],\"source\":"@ + match source {
        Some(s) => json_quoted(s),
        None => "null"@,
    } + "}"@
}

/// The JSON body that registers an upload with `tags`, naming `source`.
pub fn prepare_body(tags: &Vec<String>, source: Option<&str>) -> (b: String)
    ensures
        b@ == prepare_body_text(string_views(tags@), opt_str_view(source)),
{
    let mut items = String::new();
    let mut i: usize = 0;
    while i < tags.len()
        invariant
            i <= tags@.len(),
            items@ == json_list_items(string_views(tags@).take(i as int)),
        decreases tags@.len() - i,
    {
        let q = quoted(tags[i].as_str());
        proof {
            let views = string_views(tags@);
            assert(views.take(i as int + 1).drop_last() == views.take(i as int));
            assert(views.take(i as int + 1).last() == tags@[i as int]@);
        }
        if i > 0 {
            items.append(",");
        }
        items.append(q.as_str());
        i = i + 1;
    }
    proof {
        assert(string_views(tags@).take(tags@.len() as int) == string_views(tags@));
    }
    let mut b = concat3("{\"tags\":[", items.as_str(), "],\"source\":");
    match source {
        Some(s) => {
            let q = quoted(s);
            b.append(q.as_str());
        },
        None => {
            b.append("null");
        },
    }
    b.append("}");
    b
}

/// The body of a client token request for the blob at `pathname` with the
/// client payload `payload`: an object with its keys in sorted order, as
/// compact JSON.
pub open spec fn client_token_body_text(pathname: Seq<char>, payload: Seq<char>) -> Seq<char> {
    "{\"payload\":{\"clientPayload\":"@ + json_quoted(payload) + ",\"multipart\":false,\"pathname\":"@
        + json_quoted(pathname) + "},\"type\":\"blob.generate-client-token\"}"@
}

/// The JSON body that asks for a client token to store the blob at
/// `pathname`, carrying `payload`.
pub fn client_token_body(pathname: &str, payload: &str) -> (b: String)
    ensures
        b@ == client_token_body_text(pathname@, payload@),
{
    let qp = quoted(payload);
    let qn = quoted(pathname);
    let mut b = concat3("{\"payload\":{\"clientPayload\":", qp.as_str(), ",\"multipart\":false,\"pathname\":");
    b.append(qn.as_str());
    b.append("},\"type\":\"blob.generate-client-token\"}");
    b
}

/// The views of a list of byte vectors.
pub open spec fn chunk_views(chunks: Seq<Vec<u8>>) -> Seq<Seq<u8>> {
    chunks.map_values(|c: Vec<u8>| c@)
}

/// The `i`-th piece of `len` bytes cut into pieces of `CHUNK_SIZE`.
pub open spec fn chunk_end(i: int, len: int) -> int {
    if i * 65536 + 65536 <= len {
        i * 65536 + 65536
    } else {
        len
    }
}

/// Cuts `bytes` into consecutive pieces of `CHUNK_SIZE` bytes, the last of
/// which may be shorter; together they are `bytes`.
pub fn split_chunks(bytes: &Vec<u8>) -> (chunks: Vec<Vec<u8>>)
    ensures
        forall|i: int|
            0 <= i < chunks@.len() ==> (#[trigger] chunks@[i])@ == bytes@.subrange(
                i * 65536,
                chunk_end(i, bytes@.len() as int),
            ),
        chunks@.len() * 65536 >= bytes@.len(),
        chunks@.len() == 0 || (chunks@.len() - 1) * 65536 < bytes@.len(),
        forall|i: int| 0 <= i < chunks@.len() ==> 0 < (#[trigger] chunks@[i])@.len() <= CHUNK_SIZE,
        chunk_views(chunks@).flatten() == bytes@,
{
    let len = bytes.len();
    let mut chunks: Vec<Vec<u8>> = Vec::new();
    let mut start: usize = 0;
    while start < len
        invariant
            len == bytes@.len(),
            start <= len,
            start == chunks@.len() * 65536,
            forall|i: int|
                0 <= i < chunks@.len() ==> (#[trigger] chunks@[i])@ == bytes@.subrange(
                    i * 65536,
                    chunk_end(i, len as int),
                ),
            forall|i: int| 0 <= i < chunks@.len() ==> (#[trigger] chunks@[i])@.len() == CHUNK_SIZE,
            chunk_views(chunks@).flatten() == bytes@.subrange(0, start as int),
        decreases len - start,
    {
        let end = if len - start > CHUNK_SIZE {
            start + CHUNK_SIZE
        } else {
            len
        };
        let piece = vstd::slice::slice_to_vec(vstd::slice::slice_subrange(bytes.as_slice(), start, end));
        let ghost before = chunks@;
        chunks.push(piece);
        proof {
            assert(chunk_views(chunks@) =~= chunk_views(before).push(piece@));
            chunk_views(before).lemma_flatten_push(piece@);
            assert(bytes@.subrange(0, end as int) =~= bytes@.subrange(0, start as int) + piece@);
        }
        if end < len {
            start = end;
        } else {
            proof {
                assert(chunks@.len() * 65536 >= len);
                assert forall|i: int| 0 <= i < chunks@.len() implies 0 < (#[trigger] chunks@[i])@.len() <= CHUNK_SIZE by {
                    if i < chunks@.len() - 1 {
                        assert(chunks@[i] == before[i]);
                    }
                }
                assert(bytes@.subrange(0, len as int) =~= bytes@);
            }
            return chunks;
        }
    }
    assert(bytes@.subrange(0, start as int) =~= bytes@);
    chunks
}

/// What became of one input of a batch.
pub enum ItemOutcome {
    Uploaded,
    Skipped(String),
    Failed(String),
}

/// The outcome of an input whose pipeline gave `result`.
pub fn item_outcome(result: Result<String, PipelineError>) -> (o: ItemOutcome)
    ensures
        match result {
            Ok(_) => o is Uploaded,
            Err(PipelineError::Skip(s)) => o matches ItemOutcome::Skipped(r) && r@ == s@,
            Err(PipelineError::Fail(f)) => o matches ItemOutcome::Failed(r) && r@ == failure_text(f),
        },
{
    match result {
        Ok(_) => ItemOutcome::Uploaded,
        Err(PipelineError::Skip(s)) => ItemOutcome::Skipped(s),
        Err(PipelineError::Fail(f)) => ItemOutcome::Failed(f.message()),
    }
}

/// The line reported for a skipped or failed input: the input, then why.
pub fn item_reason_line(input: &str, reason: &str) -> (l: String)
    ensures
        l@ == input@ + ": "@ + reason@,
{
    concat3(input, ": ", reason)
}

/// How many outcomes of `s` are uploads, skips and failures.
pub open spec fn count_uploaded(s: Seq<ItemOutcome>) -> nat
    decreases s.len(),
{
    if s.len() == 0 {
        0
    } else {
        count_uploaded(s.drop_last()) + if s.last() is Uploaded {
            1nat
        } else {
            0nat
        }
    }
}

/// How many outcomes of `s` are skips.
pub open spec fn count_skipped(s: Seq<ItemOutcome>) -> nat
    decreases s.len(),
{
    if s.len() == 0 {
        0
    } else {
        count_skipped(s.drop_last()) + if s.last() is Skipped {
            1nat
        } else {
            0nat
        }
    }
}

/// How many outcomes of `s` are failures.
pub open spec fn count_failed(s: Seq<ItemOutcome>) -> nat
    decreases s.len(),
{
    if s.len() == 0 {
        0
    } else {
        count_failed(s.drop_last()) + if s.last() is Failed {
            1nat
        } else {
            0nat
        }
    }
}

/// The outcomes of the inputs of `results`.
pub open spec fn outcomes(results: Seq<(String, ItemOutcome)>) -> Seq<ItemOutcome> {
    results.map_values(|r: (String, ItemOutcome)| r.1)
}

/// The counts that close a batch.
pub struct BatchTally {
    pub uploaded: usize,
    pub skipped: usize,
    pub failed: usize,
}

/// Counts the uploads, skips and failures among `results`.
pub fn tally(results: &Vec<(String, ItemOutcome)>) -> (t: BatchTally)
    ensures
        t.uploaded == count_uploaded(outcomes(results@)),
        t.skipped == count_skipped(outcomes(results@)),
        t.failed == count_failed(outcomes(results@)),
{
    let mut t = BatchTally { uploaded: 0, skipped: 0, failed: 0 };
    let mut i: usize = 0;
    while i < results.len()
        invariant
            i <= results@.len(),
            t.uploaded == count_uploaded(outcomes(results@).subrange(0, i as int)),
            t.skipped == count_skipped(outcomes(results@).subrange(0, i as int)),
            t.failed == count_failed(outcomes(results@).subrange(0, i as int)),
            t.uploaded + t.skipped + t.failed == i,
        decreases results@.len() - i,
    {
        let ghost prefix = outcomes(results@).subrange(0, i + 1);
        assert(prefix.drop_last() =~= outcomes(results@).subrange(0, i as int));
        match &results[i].1 {
            ItemOutcome::Uploaded => {
                t.uploaded = t.uploaded + 1;
            },
            ItemOutcome::Skipped(_) => {
                t.skipped = t.skipped + 1;
            },
            ItemOutcome::Failed(_) => {
                t.failed = t.failed + 1;
            },
        }
        i = i + 1;
    }
    assert(outcomes(results@).subrange(0, results@.len() as int) =~= outcomes(results@));
    t
}

/// Every outcome is counted exactly once.
pub proof fn lemma_tally_covers_all(s: Seq<ItemOutcome>)
    ensures
        count_uploaded(s) + count_skipped(s) + count_failed(s) == s.len(),
    decreases s.len(),
{
    if s.len() > 0 {
        lemma_tally_covers_all(s.drop_last());
    }
}

/// Each count is the number of outcomes of its kind: the uploads, the skips
/// and the failures among `s`.
pub proof fn lemma_counts_are_filters(s: Seq<ItemOutcome>)
    ensures
        count_uploaded(s) == s.filter(|o: ItemOutcome| o is Uploaded).len(),
        count_skipped(s) == s.filter(|o: ItemOutcome| o is Skipped).len(),
        count_failed(s) == s.filter(|o: ItemOutcome| o is Failed).len(),
    decreases s.len(),
{
    reveal_with_fuel(Seq::filter, 1);
    if s.len() > 0 {
        lemma_counts_are_filters(s.drop_last());
    }
}

/// The lines that list the failed inputs, in order: each input, then why.
pub open spec fn failure_lines_spec(results: Seq<(String, ItemOutcome)>) -> Seq<Seq<char>>
    decreases results.len(),
{
    if results.len() == 0 {
        Seq::empty()
    } else {
        let rest = failure_lines_spec(results.drop_last());
        match results.last().1 {
            ItemOutcome::Failed(err) => rest.push(results.last().0@ + ": "@ + err@),
            _ => rest,
        }
    }
}

/// The lines that list the failed inputs of a batch, in order.
pub fn failure_lines(results: &Vec<(String, ItemOutcome)>) -> (lines: Vec<String>)
    ensures
        lines@.map_values(|l: String| l@) == failure_lines_spec(results@),
{
    let mut lines: Vec<String> = Vec::new();
    let mut i: usize = 0;
    while i < results.len()
        invariant
            i <= results@.len(),
            lines@.map_values(|l: String| l@) == failure_lines_spec(results@.subrange(0, i as int)),
        decreases results@.len() - i,
    {
        let ghost before = lines@;
        assert(results@.subrange(0, i + 1).drop_last() =~= results@.subrange(0, i as int));
        match &results[i].1 {
            ItemOutcome::Failed(err) => {
                lines.push(item_reason_line(results[i].0.as_str(), err.as_str()));
                assert(lines@.map_values(|l: String| l@) =~= before.map_values(|l: String| l@).push(
                    lines@.last()@,
                ));
            },
            _ => {},
        }
        i = i + 1;
    }
    assert(results@.subrange(0, results@.len() as int) =~= results@);
    lines
}

/// How long a batch took, in whole seconds: minutes and seconds from a
/// minute on, seconds alone before.
pub open spec fn elapsed_text(secs: nat) -> Seq<char> {
    if secs >= 60 {
        decimal_seq(secs / 60) + "m "@ + decimal_seq(secs % 60) + "s"@
    } else {
        decimal_seq(secs) + "s"@
    }
}

/// The elapsed time reads back as the number of seconds: under a minute as
/// that many seconds, otherwise as minutes and the seconds (under 60) left.
pub proof fn lemma_elapsed_reads_back(secs: nat)
    ensures
        secs < 60 ==> exists|d: Seq<char>|
            #![trigger decimal_value(d)]
            elapsed_text(secs) == d + "s"@ && decimal_value(d) == secs,
        secs >= 60 ==> exists|m: Seq<char>, r: Seq<char>|
            #![trigger decimal_value(m), decimal_value(r)]
            elapsed_text(secs) == m + "m "@ + r + "s"@ && decimal_value(m) * 60 + decimal_value(r)
                == secs && decimal_value(r) < 60,
{
    if secs < 60 {
        lemma_decimal_roundtrip(secs);
        let d = decimal_seq(secs);
        assert(elapsed_text(secs) == d + "s"@ && decimal_value(d) == secs);
    } else {
        lemma_decimal_roundtrip(secs / 60);
        lemma_decimal_roundtrip(secs % 60);
        let m = decimal_seq(secs / 60);
        let r = decimal_seq(secs % 60);
        assert((secs / 60) * 60 + secs % 60 == secs) by (nonlinear_arith);
        assert(elapsed_text(secs) == m + "m "@ + r + "s"@ && decimal_value(m) * 60 + decimal_value(r)
            == secs && decimal_value(r) < 60);
    }
}

/// Writes out how long a batch took.
pub fn format_elapsed(secs: u64) -> (s: String)
    ensures
        s@ == elapsed_text(secs as nat),
{
    if secs >= 60 {
        let m = decimal(secs / 60);
        let r = decimal(secs % 60);
        let mut s = concat(m.as_str(), "m ");
        s.append(r.as_str());
        s.append("s");
        s
    } else {
        let d = decimal(secs);
        concat(d.as_str(), "s")
    }
}

/// The closing line of a batch.
pub open spec fn batch_summary_text(time: Seq<char>, uploaded: nat, skipped: nat, failed: nat) -> Seq<char> {
    "in "@ + time + " — "@ + decimal_seq(uploaded) + " uploaded, "@ + decimal_seq(skipped)
        + " skipped, "@ + decimal_seq(failed) + " failed"@
}

/// The closing line of a batch reads back its counts: the number before
/// ` uploaded` is the uploads, the one before ` skipped` the skips and the
/// one before ` failed` the failures, each in decimal.
pub proof fn lemma_batch_summary_reads_back(time: Seq<char>, uploaded: nat, skipped: nat, failed: nat)
    ensures
        exists|u: Seq<char>, k: Seq<char>, f: Seq<char>|
            #![trigger decimal_value(u), decimal_value(k), decimal_value(f)]
            batch_summary_text(time, uploaded, skipped, failed) == "in "@ + time + " — "@ + u
                + " uploaded, "@ + k + " skipped, "@ + f + " failed"@ && decimal_value(u) == uploaded
                && decimal_value(k) == skipped && decimal_value(f) == failed,
{
    lemma_decimal_roundtrip(uploaded);
    lemma_decimal_roundtrip(skipped);
    lemma_decimal_roundtrip(failed);
    let u = decimal_seq(uploaded);
    let k = decimal_seq(skipped);
    let f = decimal_seq(failed);
    assert(batch_summary_text(time, uploaded, skipped, failed) == "in "@ + time + " — "@ + u
        + " uploaded, "@ + k + " skipped, "@ + f + " failed"@ && decimal_value(u) == uploaded
        && decimal_value(k) == skipped && decimal_value(f) == failed);
}

/// The closing line of a batch that took `time` and ended with `t`.
pub fn batch_summary(time: &str, t: &BatchTally) -> (s: String)
    ensures
        s@ == batch_summary_text(time@, t.uploaded as nat, t.skipped as nat, t.failed as nat),
        s@ == "in "@ + time@ + " — "@ + decimal_seq(t.uploaded as nat) + " uploaded, "@ + decimal_seq(
            t.skipped as nat,
        ) + " skipped, "@ + decimal_seq(t.failed as nat) + " failed"@,
{
    let u = decimal(t.uploaded as u64);
    let k = decimal(t.skipped as u64);
    let f = decimal(t.failed as u64);
    let mut s = concat3("in ", time, " — ");
    s.append(u.as_str());
    s.append(" uploaded, ");
    s.append(k.as_str());
    s.append(" skipped, ");
    s.append(f.as_str());
    s.append(" failed");
    s
}

/// The tags of `tags` trimmed of surrounding whitespace, blank ones dropped.
pub open spec fn clean_tags_spec(tags: Seq<String>) -> Seq<Seq<char>>
    decreases tags.len(),
{
    if tags.len() == 0 {
        Seq::empty()
    } else {
        let rest = clean_tags_spec(tags.drop_last());
        let t = trim_seq(tags.last()@);
        if t.len() == 0 {
            rest
        } else {
            rest.push(t)
        }
    }
}

/// The tags, each trimmed of surrounding whitespace.
pub open spec fn trimmed_tags(tags: Seq<String>) -> Seq<Seq<char>> {
    tags.map_values(|t: String| trim_seq(t@))
}

/// The cleaned tags are exactly the trimmed tags that are not empty, in
/// their order: every tag that is not blank is kept, and nothing else.
pub proof fn lemma_clean_tags_keeps_non_blank(tags: Seq<String>)
    ensures
        clean_tags_spec(tags) == trimmed_tags(tags).filter(|t: Seq<char>| t.len() > 0),
        clean_tags_spec(tags).len() == trimmed_tags(tags).filter(|t: Seq<char>| t.len() > 0).len(),
        forall|i: int|
            0 <= i < tags.len() && trim_seq(tags[i]@).len() > 0 ==> clean_tags_spec(tags).contains(
                #[trigger] trim_seq(tags[i]@),
            ),
    decreases tags.len(),
{
    reveal_with_fuel(Seq::filter, 1);
    assert forall|i: int| 0 <= i < tags.len() && trim_seq(tags[i]@).len() > 0 implies trimmed_tags(
        tags,
    ).filter(|t: Seq<char>| t.len() > 0).contains(#[trigger] trim_seq(tags[i]@)) by {
        trimmed_tags(tags).lemma_filter_contains(|t: Seq<char>| t.len() > 0, i);
    }
    if tags.len() > 0 {
        lemma_clean_tags_keeps_non_blank(tags.drop_last());
        assert(trimmed_tags(tags).drop_last() =~= trimmed_tags(tags.drop_last()));
        assert(trimmed_tags(tags).last() == trim_seq(tags.last()@));
    } else {
        assert(trimmed_tags(tags) =~= Seq::<Seq<char>>::empty());
    }
}

/// The tags to upload with: each trimmed, blank ones dropped; refused when
/// none is left.
pub fn clean_tags(tags: &Vec<String>) -> (r: Result<Vec<String>, String>)
    ensures
        clean_tags_spec(tags@).len() > 0 ==> (r matches Ok(v) && v@.map_values(|t: String| t@)
            == clean_tags_spec(tags@)),
        clean_tags_spec(tags@).len() == 0 ==> (r matches Err(m) && m@
            == "At least one tag is required"@),
        r matches Ok(v) ==> v@.map_values(|t: String| t@) == trimmed_tags(tags@).filter(
            |t: Seq<char>| t.len() > 0,
        ),
        r is Err <==> trimmed_tags(tags@).filter(|t: Seq<char>| t.len() > 0).len() == 0,
{
    proof {
        lemma_clean_tags_keeps_non_blank(tags@);
    }
    let mut out: Vec<String> = Vec::new();
    let mut i: usize = 0;
    while i < tags.len()
        invariant
            i <= tags@.len(),
            out@.map_values(|t: String| t@) == clean_tags_spec(tags@.subrange(0, i as int)),
        decreases tags@.len() - i,
    {
        let ghost before = out@;
        assert(tags@.subrange(0, i + 1).drop_last() =~= tags@.subrange(0, i as int));
        let t = trim(tags[i].as_str());
        if t.unicode_len() > 0 {
            out.push(t);
            assert(out@.map_values(|t: String| t@) =~= before.map_values(|t: String| t@).push(
                out@.last()@,
            ));
        }
        i = i + 1;
    }
    assert(tags@.subrange(0, tags@.len() as int) =~= tags@);
    if out.len() == 0 {
        Err(String::from_str("At least one tag is required"))
    } else {
        Ok(out)
    }
}

/// Every tag kept is non-empty and has no surrounding whitespace.
pub proof fn lemma_clean_tags_are_trimmed(tags: Seq<String>)
    ensures
        forall|i: int|
            0 <= i < clean_tags_spec(tags).len() ==> (#[trigger] clean_tags_spec(tags)[i]).len() > 0
                && trim_seq(clean_tags_spec(tags)[i]) == clean_tags_spec(tags)[i],
    decreases tags.len(),
{
    if tags.len() > 0 {
        lemma_clean_tags_are_trimmed(tags.drop_last());
        lemma_trim_idempotent(tags.last()@);
        let rest = clean_tags_spec(tags.drop_last());
        assert forall|i: int|
            0 <= i < clean_tags_spec(tags).len() implies (#[trigger] clean_tags_spec(tags)[i]).len() > 0
                && trim_seq(clean_tags_spec(tags)[i]) == clean_tags_spec(tags)[i] by {
            if i < rest.len() {
                assert(clean_tags_spec(tags)[i] == rest[i]);
            }
        }
    }
}

} // verus!
