//! The order of the steps of an upload: resolving an input to media, then
//! registering, authorizing and storing it. Each is a step function from
//! what just happened to what to do next; the caller performs the requests.

use vstd::prelude::*;
use crate::http::{is_client_error_spec, is_success_spec, is_success_status};
use crate::resolve::{
    classify_input, content_type_for_ext, download_content_type, ext_for_content_type,
    is_tweet_url_spec, is_url_spec, local_ext_or_gif, local_media, path_extension_of, remote_media,
    tweet_media, InputKind, MediaInfo,
};
use crate::text::opt_view;
use crate::upload::{
    blob_headers_spec, blob_pathname, blob_request, client_payload, client_payload_text,
    download_status, headers_view, import_tweet_status, is_v4_uuid_text,
    no_media_reason, rejection, uuid_text, v4_bytes, BlobRequest, Failure, ImportTweetStatus,
    PipelineError, ServerStep,
};

verus! {

/// What kind of input `input` is: a tweet link first, then an HTTP URL,
/// else a local path.
pub open spec fn input_kind(input: Seq<char>) -> InputKind {
    if is_tweet_url_spec(input) {
        InputKind::Tweet
    } else if is_url_spec(input) {
        InputKind::Remote
    } else {
        InputKind::LocalFile
    }
}

/// Where the resolution of an input stands; each stage holds the input.
pub enum ResolveStage {
    /// The import-tweet request was sent.
    Importing(String),
    /// The body of a 4xx import-tweet answer is being read.
    ReadingRefusal(String),
    /// The body of a successful import-tweet answer is being read.
    ReadingTweetAnswer(String),
    /// The tweet's video was requested.
    FetchingVideo(String),
    /// The tweet's video is being read.
    ReadingVideo(String),
    /// The input URL was requested.
    Fetching(String),
    /// The download is being read; it came with this content type header.
    ReadingDownload(String, Option<String>),
    /// Whether the local file exists is being checked.
    CheckingFile(String),
    /// The local file is being read.
    ReadingFile(String),
    /// The resolution is over.
    Done,
}

/// The input that a stage resolves (empty once it is over).
pub open spec fn stage_input(st: ResolveStage) -> Seq<char> {
    match st {
        ResolveStage::Importing(i) => i@,
        ResolveStage::ReadingRefusal(i) => i@,
        ResolveStage::ReadingTweetAnswer(i) => i@,
        ResolveStage::FetchingVideo(i) => i@,
        ResolveStage::ReadingVideo(i) => i@,
        ResolveStage::Fetching(i) => i@,
        ResolveStage::ReadingDownload(i, _) => i@,
        ResolveStage::CheckingFile(i) => i@,
        ResolveStage::ReadingFile(i) => i@,
        ResolveStage::Done => Seq::empty(),
    }
}

/// A stage is only ever reached for an input of its kind.
pub open spec fn stage_fits(st: ResolveStage) -> bool {
    match st {
        ResolveStage::Importing(i) => input_kind(i@) is Tweet,
        ResolveStage::ReadingRefusal(i) => input_kind(i@) is Tweet,
        ResolveStage::ReadingTweetAnswer(i) => input_kind(i@) is Tweet,
        ResolveStage::FetchingVideo(i) => input_kind(i@) is Tweet,
        ResolveStage::ReadingVideo(i) => input_kind(i@) is Tweet,
        ResolveStage::Fetching(i) => input_kind(i@) is Remote,
        ResolveStage::ReadingDownload(i, _) => input_kind(i@) is Remote,
        ResolveStage::CheckingFile(i) => input_kind(i@) is LocalFile,
        ResolveStage::ReadingFile(i) => input_kind(i@) is LocalFile,
        ResolveStage::Done => true,
    }
}

/// The resolution of one input, from its kind to its media.
pub struct Resolution {
    stage: ResolveStage,
}

/// What happened since the last step of a resolution.
pub enum ResolveEvent {
    /// The request could not be sent, for this reason.
    Unreachable(String),
    /// The request was answered with this status code, status text and
    /// `content-type` header (`None` when absent or not readable text).
    Answered(u16, String, Option<String>),
    /// A refusal's body was read: its `error` field, when it is a string.
    RefusalRead(Option<String>),
    /// The import-tweet answer was read: the video's URL, or why it could
    /// not be read.
    AnswerRead(Result<String, String>),
    /// The media's bytes were read, or could not be, for this reason.
    BodyRead(Result<(), String>),
    /// Whether the local file exists.
    FileFound(bool),
}

/// What to do next to resolve an input.
pub enum ResolveAction {
    /// Ask the server for the tweet's video.
    PostImportTweet,
    /// Read the refusal's body.
    ReadRefusal,
    /// Read the import-tweet answer.
    ReadTweetAnswer,
    /// Download the video at this URL.
    FetchVideo(String),
    /// Download the input URL.
    FetchInput,
    /// Read the bytes of what was fetched or opened.
    ReadBody,
    /// Check that the local file exists.
    CheckFile,
    /// Read the local file.
    ReadFile,
    /// The input is resolved to this media.
    Resolved(MediaInfo),
    /// The input has nothing to upload, for this reason.
    Skip(String),
    /// Resolving failed.
    Fail(Failure),
    /// The event does not belong to this stage; nothing changed.
    Ignored,
}

impl Resolution {
    #[verifier::type_invariant]
    spec fn fits(self) -> bool {
        stage_fits(self.stage)
    }

    /// Where this resolution stands.
    pub closed spec fn stage(self) -> ResolveStage {
        self.stage
    }

    /// Starts resolving `input`: a tweet link is sent to the import-tweet
    /// endpoint, an HTTP URL is downloaded, anything else is a local file
    /// whose existence is checked first.
    pub fn start(input: &str) -> (r: (Resolution, ResolveAction))
        ensures
            input_kind(input@) is Tweet ==> (r.0.stage() matches ResolveStage::Importing(i) && i@
                == input@ && r.1 is PostImportTweet),
            input_kind(input@) is Remote ==> (r.0.stage() matches ResolveStage::Fetching(i) && i@
                == input@ && r.1 is FetchInput),
            input_kind(input@) is LocalFile ==> (r.0.stage() matches ResolveStage::CheckingFile(i)
                && i@ == input@ && r.1 is CheckFile),
    {
        let i = String::from_str(input);
        match classify_input(input) {
            InputKind::Tweet => (Resolution { stage: ResolveStage::Importing(i) }, ResolveAction::PostImportTweet),
            InputKind::Remote => (Resolution { stage: ResolveStage::Fetching(i) }, ResolveAction::FetchInput),
            InputKind::LocalFile => (Resolution { stage: ResolveStage::CheckingFile(i) }, ResolveAction::CheckFile),
        }
    }

    /// The next stage and action after `event`.
    pub fn step(self, event: ResolveEvent) -> (r: (Resolution, ResolveAction))
        ensures
            match (self.stage(), event) {
                (ResolveStage::Importing(i), ResolveEvent::Unreachable(e)) => (r.1 matches ResolveAction::Fail(
                    Failure::ImportTweetUnreachable(m),
                ) && m@ == e@ && r.0.stage() is Done),
                (ResolveStage::Importing(i), ResolveEvent::Answered(code, st, _)) => if is_client_error_spec(code) {
                    r.0.stage() matches ResolveStage::ReadingRefusal(j) && j@ == i@ && r.1 is ReadRefusal
                } else if !is_success_spec(code) {
                    r.0.stage() is Done && (r.1 matches ResolveAction::Fail(
                        Failure::ImportTweetStatus(m),
                    ) && m@ == st@)
                } else {
                    r.0.stage() matches ResolveStage::ReadingTweetAnswer(j) && j@ == i@ && r.1 is ReadTweetAnswer
                },
                (ResolveStage::ReadingRefusal(i), ResolveEvent::RefusalRead(f)) => r.0.stage() is Done
                    && (r.1 matches ResolveAction::Skip(m) && m@ == match f {
                    Some(e) => e@,
                    None => "no animated GIF"@,
                }),
                (ResolveStage::ReadingTweetAnswer(i), ResolveEvent::AnswerRead(Ok(url))) => (r.0.stage() matches ResolveStage::FetchingVideo(j)
                    && j@ == i@ && (r.1 matches ResolveAction::FetchVideo(u) && u@ == url@)),
                (ResolveStage::ReadingTweetAnswer(i), ResolveEvent::AnswerRead(Err(e))) => r.0.stage() is Done
                    && (r.1 matches ResolveAction::Fail(Failure::ImportTweetInvalid(m)) && m@ == e@),
                (ResolveStage::FetchingVideo(i), ResolveEvent::Unreachable(e)) => r.0.stage() is Done
                    && (r.1 matches ResolveAction::Fail(Failure::TweetVideoUnreachable(m)) && m@ == e@),
                (ResolveStage::FetchingVideo(i), ResolveEvent::Answered(code, st, _)) => if is_success_spec(code) {
                    r.0.stage() matches ResolveStage::ReadingVideo(j) && j@ == i@ && r.1 is ReadBody
                } else {
                    r.0.stage() is Done && (r.1 matches ResolveAction::Fail(
                        Failure::TweetVideoStatus(m),
                    ) && m@ == st@)
                },
                (ResolveStage::ReadingVideo(i), ResolveEvent::BodyRead(Ok(()))) => r.0.stage() is Done
                    && (r.1 matches ResolveAction::Resolved(m) && m.filename@ == "original.mp4"@
                    && m.content_type@ == "video/mp4"@ && (m.source matches Some(s) && s@ == i@)),
                (ResolveStage::ReadingVideo(i), ResolveEvent::BodyRead(Err(e))) => r.0.stage() is Done
                    && (r.1 matches ResolveAction::Fail(Failure::BodyUnreadable(m)) && m@ == e@),
                (ResolveStage::Fetching(i), ResolveEvent::Unreachable(e)) => r.0.stage() is Done
                    && (r.1 matches ResolveAction::Fail(Failure::DownloadUnreachable(m)) && m@ == e@),
                (ResolveStage::Fetching(i), ResolveEvent::Answered(code, st, ct)) => if is_success_spec(code) {
                    r.0.stage() matches ResolveStage::ReadingDownload(j, c) && j@ == i@ && c == ct
                        && r.1 is ReadBody
                } else {
                    r.0.stage() is Done && (r.1 matches ResolveAction::Fail(
                        Failure::DownloadStatus(m),
                    ) && m@ == st@)
                },
                (ResolveStage::ReadingDownload(i, ct), ResolveEvent::BodyRead(Ok(()))) => r.0.stage() is Done
                    && (r.1 matches ResolveAction::Resolved(m) && m.content_type@ == download_content_type(
                    opt_view(ct),
                ) && m.filename@ == "original."@ + ext_for_content_type(m.content_type@)
                    && (m.source matches Some(s) && s@ == i@)),
                (ResolveStage::ReadingDownload(i, _), ResolveEvent::BodyRead(Err(e))) => r.0.stage() is Done
                    && (r.1 matches ResolveAction::Fail(Failure::BodyUnreadable(m)) && m@ == e@),
                (ResolveStage::CheckingFile(i), ResolveEvent::FileFound(found)) => if found {
                    r.0.stage() matches ResolveStage::ReadingFile(j) && j@ == i@ && r.1 is ReadFile
                } else {
                    r.0.stage() is Done && (r.1 matches ResolveAction::Fail(Failure::FileNotFound(m))
                        && m@ == i@)
                },
                (ResolveStage::ReadingFile(i), ResolveEvent::BodyRead(Ok(()))) => r.0.stage() is Done
                    && (r.1 matches ResolveAction::Resolved(m) && m.filename@ == "original."@
                    + local_ext_or_gif(path_extension_of(i@)) && m.content_type@ == content_type_for_ext(
                    local_ext_or_gif(path_extension_of(i@)),
                ) && m.source is None),
                (ResolveStage::ReadingFile(i), ResolveEvent::BodyRead(Err(e))) => r.0.stage() is Done
                    && (r.1 matches ResolveAction::Fail(Failure::FileUnreadable(p, m)) && p@ == i@ && m@
                    == e@),
                _ => r.1 is Ignored && r.0.stage() == self.stage(),
            },
            // The server's refusal of a tweet is read exactly when it answered
            // the import with a client error, and once read the input is
            // skipped.
            (r.1 is ReadRefusal) <==> (self.stage() is Importing && (event matches ResolveEvent::Answered(
                code,
                _,
                _,
            ) && is_client_error_spec(code))),
            (self.stage() is ReadingRefusal && event is RefusalRead) ==> r.1 is Skip,
            // An input is skipped only after the server refused to import it
            // as a tweet, and nothing follows a skip.
            r.1 is Skip ==> self.stage() is ReadingRefusal && is_tweet_url_spec(stage_input(self.stage()))
                && r.0.stage() is Done,
            // Resolved media is named `original.*`; it records the input as its
            // source exactly when the input is a URL.
            r.1 matches ResolveAction::Resolved(m) ==> m.filename@.len() >= 9 && m.filename@.subrange(0, 9)
                == "original."@ && (m.source is Some <==> (is_tweet_url_spec(stage_input(self.stage()))
                || is_url_spec(stage_input(self.stage())))) && (m.source matches Some(s) ==> s@
                == stage_input(self.stage())),
            // Once over, a resolution ignores everything.
            self.stage() is Done ==> r.1 is Ignored && r.0.stage() is Done,
    {
        proof {
            use_type_invariant(&self);
            reveal_strlit("original.");
            reveal_strlit("original.mp4");
        }
        match (self.stage, event) {
            (ResolveStage::Importing(i), ResolveEvent::Unreachable(e)) => {
                (Resolution { stage: ResolveStage::Done }, ResolveAction::Fail(Failure::ImportTweetUnreachable(e)))
            },
            (ResolveStage::Importing(i), ResolveEvent::Answered(code, st, _)) => {
                match import_tweet_status(code, st.as_str()) {
                    ImportTweetStatus::NoMedia => (Resolution { stage: ResolveStage::ReadingRefusal(i) }, ResolveAction::ReadRefusal),
                    ImportTweetStatus::Failed(f) => (Resolution { stage: ResolveStage::Done }, ResolveAction::Fail(f)),
                    ImportTweetStatus::Found => (Resolution { stage: ResolveStage::ReadingTweetAnswer(i) }, ResolveAction::ReadTweetAnswer),
                }
            },
            (ResolveStage::ReadingRefusal(i), ResolveEvent::RefusalRead(f)) => {
                match no_media_reason(f) {
                    PipelineError::Skip(m) => (Resolution { stage: ResolveStage::Done }, ResolveAction::Skip(m)),
                    PipelineError::Fail(x) => (Resolution { stage: ResolveStage::Done }, ResolveAction::Fail(x)),
                }
            },
            (ResolveStage::ReadingTweetAnswer(i), ResolveEvent::AnswerRead(Ok(url))) => {
                (Resolution { stage: ResolveStage::FetchingVideo(i) }, ResolveAction::FetchVideo(url))
            },
            (ResolveStage::ReadingTweetAnswer(i), ResolveEvent::AnswerRead(Err(e))) => {
                (Resolution { stage: ResolveStage::Done }, ResolveAction::Fail(Failure::ImportTweetInvalid(e)))
            },
            (ResolveStage::FetchingVideo(i), ResolveEvent::Unreachable(e)) => {
                (Resolution { stage: ResolveStage::Done }, ResolveAction::Fail(Failure::TweetVideoUnreachable(e)))
            },
            (ResolveStage::FetchingVideo(i), ResolveEvent::Answered(code, st, _)) => {
                match download_status(code, st.as_str(), true) {
                    Ok(()) => (Resolution { stage: ResolveStage::ReadingVideo(i) }, ResolveAction::ReadBody),
                    Err(f) => (Resolution { stage: ResolveStage::Done }, ResolveAction::Fail(f)),
                }
            },
            (ResolveStage::ReadingVideo(i), ResolveEvent::BodyRead(Ok(()))) => {
                (Resolution { stage: ResolveStage::Done }, ResolveAction::Resolved(tweet_media(i.as_str())))
            },
            (ResolveStage::ReadingVideo(i), ResolveEvent::BodyRead(Err(e))) => {
                (Resolution { stage: ResolveStage::Done }, ResolveAction::Fail(Failure::BodyUnreadable(e)))
            },
            (ResolveStage::Fetching(i), ResolveEvent::Unreachable(e)) => {
                (Resolution { stage: ResolveStage::Done }, ResolveAction::Fail(Failure::DownloadUnreachable(e)))
            },
            (ResolveStage::Fetching(i), ResolveEvent::Answered(code, st, ct)) => {
                match download_status(code, st.as_str(), false) {
                    Ok(()) => (Resolution { stage: ResolveStage::ReadingDownload(i, ct) }, ResolveAction::ReadBody),
                    Err(f) => (Resolution { stage: ResolveStage::Done }, ResolveAction::Fail(f)),
                }
            },
            (ResolveStage::ReadingDownload(i, ct), ResolveEvent::BodyRead(Ok(()))) => {
                let m = remote_media(i.as_str(), ct);
                (Resolution { stage: ResolveStage::Done }, ResolveAction::Resolved(m))
            },
            (ResolveStage::ReadingDownload(i, _), ResolveEvent::BodyRead(Err(e))) => {
                (Resolution { stage: ResolveStage::Done }, ResolveAction::Fail(Failure::BodyUnreadable(e)))
            },
            (ResolveStage::CheckingFile(i), ResolveEvent::FileFound(found)) => {
                if found {
                    (Resolution { stage: ResolveStage::ReadingFile(i) }, ResolveAction::ReadFile)
                } else {
                    (Resolution { stage: ResolveStage::Done }, ResolveAction::Fail(Failure::FileNotFound(i)))
                }
            },
            (ResolveStage::ReadingFile(i), ResolveEvent::BodyRead(Ok(()))) => {
                let m = local_media(i.as_str());
                (Resolution { stage: ResolveStage::Done }, ResolveAction::Resolved(m))
            },
            (ResolveStage::ReadingFile(i), ResolveEvent::BodyRead(Err(e))) => {
                (Resolution { stage: ResolveStage::Done }, ResolveAction::Fail(Failure::FileUnreadable(i, e)))
            },
            (stage, _) => (Resolution { stage }, ResolveAction::Ignored),
        }
    }
}

/// Where an upload stands after its input was resolved.
pub enum PipelineStage {
    /// The input is being resolved.
    Resolving,
    /// The upload of this media of this many bytes is being registered.
    Preparing(MediaInfo, usize),
    /// The body of a refused registration, answered with this status, is
    /// being read.
    ReadingPrepareRefusal(String),
    /// The registration's answer is being read.
    ReadingPrepareAnswer(MediaInfo, usize),
    /// A client token was asked for: media, size, short id, blob pathname.
    Authorizing(MediaInfo, usize, String, String),
    /// The body of a refused token request, answered with this status, is
    /// being read.
    ReadingTokenRefusal(String),
    /// The token answer is being read: media, size, short id, blob pathname.
    ReadingTokenAnswer(MediaInfo, usize, String, String),
    /// The media is being stored under this short id.
    Uploading(String),
    /// The body of a refused blob upload, answered with this status, is
    /// being read.
    ReadingBlobRefusal(String),
    /// The upload is over.
    Done,
}

/// One upload, from the resolved input to the stored blob.
pub struct Pipeline {
    stage: PipelineStage,
}

/// What happened since the last step of an upload.
pub enum PipelineEvent {
    /// The input was resolved to this media of this many bytes.
    Resolved(MediaInfo, usize),
    /// The input was skipped or could not be resolved.
    NotResolved(PipelineError),
    /// The request could not be sent.
    Unreachable,
    /// The request was answered with this status code and status text.
    Answered(u16, String),
    /// A refusal's body was read: its `error` field, when it is a string.
    RefusalRead(Option<String>),
    /// A successful answer was read: the short id or the client token it
    /// carries, `None` when it could not be read.
    AnswerRead(Option<String>),
    /// The body of a refused blob upload was read.
    BodyRead(String),
}

/// What to do next for an upload.
pub enum PipelineAction {
    /// Resolve the input.
    Resolve,
    /// Register the upload, naming this source.
    Prepare(Option<String>),
    /// Read the refusal's body.
    ReadRefusal,
    /// Read the successful answer.
    ReadAnswer,
    /// Ask for a client token for this blob pathname, with this payload.
    Authorize(String, String),
    /// Store the media with this request.
    Upload(BlobRequest),
    /// The upload is stored under this short id.
    Finished(String),
    /// The upload stopped with this error.
    Stop(PipelineError),
    /// The event does not belong to this stage; nothing changed.
    Ignored,
}

impl Pipeline {
    /// Where this upload stands.
    pub closed spec fn stage(self) -> PipelineStage {
        self.stage
    }

    /// Starts an upload: its input is resolved first.
    pub fn start() -> (r: (Pipeline, PipelineAction))
        ensures
            r.0.stage() is Resolving,
            r.1 is Resolve,
    {
        (Pipeline { stage: PipelineStage::Resolving }, PipelineAction::Resolve)
    }

    /// The next stage and action after `event`.
    pub fn step(self, event: PipelineEvent) -> (r: (Pipeline, PipelineAction))
        ensures
            match (self.stage(), event) {
                (PipelineStage::Resolving, PipelineEvent::Resolved(m, size)) => (r.0.stage() matches PipelineStage::Preparing(
                    n,
                    z,
                ) && n == m && z == size && (r.1 matches PipelineAction::Prepare(src) && opt_view(src)
                    == opt_view(m.source))),
                (PipelineStage::Resolving, PipelineEvent::NotResolved(e)) => r.0.stage() is Done && (r.1 matches PipelineAction::Stop(x) && x == e),
                (PipelineStage::Preparing(_, _), PipelineEvent::Unreachable) => r.0.stage() is Done
                    && r.1 matches PipelineAction::Stop(PipelineError::Fail(Failure::PrepareUnreachable)),
                (PipelineStage::Preparing(m, size), PipelineEvent::Answered(code, st)) => if is_success_spec(code) {
                    r.0.stage() matches PipelineStage::ReadingPrepareAnswer(n, z) && n == m && z == size
                        && r.1 is ReadAnswer
                } else {
                    r.0.stage() matches PipelineStage::ReadingPrepareRefusal(t) && t@ == st@ && r.1 is ReadRefusal
                },
                (PipelineStage::ReadingPrepareRefusal(st), PipelineEvent::RefusalRead(f)) => r.0.stage() is Done
                    && (r.1 matches PipelineAction::Stop(PipelineError::Fail(Failure::PrepareRejected(t, g)))
                    && t@ == st@ && g == f),
                (PipelineStage::ReadingPrepareAnswer(_, _), PipelineEvent::AnswerRead(None)) => r.0.stage() is Done
                    && r.1 matches PipelineAction::Stop(PipelineError::Fail(Failure::PrepareInvalid)),
                (PipelineStage::ReadingPrepareAnswer(m, size), PipelineEvent::AnswerRead(Some(id))) => (r.0.stage() matches PipelineStage::Authorizing(
                    n,
                    z,
                    sid,
                    path,
                ) && n == m && z == size && sid@ == id@ && path@ == id@ + "/"@ + m.filename@ && (r.1 matches PipelineAction::Authorize(
                    p,
                    payload,
                ) && p@ == path@ && payload@ == client_payload_text(id@, size as nat))),
                (PipelineStage::Authorizing(_, _, _, _), PipelineEvent::Unreachable) => r.0.stage() is Done
                    && r.1 matches PipelineAction::Stop(PipelineError::Fail(Failure::TokenUnreachable)),
                (PipelineStage::Authorizing(m, size, id, path), PipelineEvent::Answered(code, st)) => if is_success_spec(code) {
                    r.0.stage() matches PipelineStage::ReadingTokenAnswer(n, z, i2, p2) && n == m && z == size
                        && i2 == id && p2 == path && r.1 is ReadAnswer
                } else {
                    r.0.stage() matches PipelineStage::ReadingTokenRefusal(t) && t@ == st@ && r.1 is ReadRefusal
                },
                (PipelineStage::ReadingTokenRefusal(st), PipelineEvent::RefusalRead(f)) => r.0.stage() is Done
                    && (r.1 matches PipelineAction::Stop(PipelineError::Fail(Failure::TokenRejected(t, g)))
                    && t@ == st@ && g == f),
                (PipelineStage::ReadingTokenAnswer(_, _, _, _), PipelineEvent::AnswerRead(None)) => r.0.stage() is Done
                    && r.1 matches PipelineAction::Stop(PipelineError::Fail(Failure::TokenInvalid)),
                (PipelineStage::ReadingTokenAnswer(m, size, id, path), PipelineEvent::AnswerRead(Some(token))) => {
                    ||| (r.0.stage() matches PipelineStage::Uploading(i2) && i2@ == id@ && (r.1 matches PipelineAction::Upload(
                        q,
                    ) && q.url@ == "https://vercel.com/api/blob"@ + "/?pathname="@ + path@ && exists|random: Seq<u8>|
                        random.len() == 16 && is_v4_uuid_text(uuid_text(v4_bytes(random))) && headers_view(
                            q.headers@,
                        ) == blob_headers_spec(
                            token@,
                            uuid_text(v4_bytes(random)),
                            m.content_type@,
                            size as nat,
                        )))
                    ||| (r.0.stage() is Done && r.1 matches PipelineAction::Stop(
                        PipelineError::Fail(Failure::RandomUnavailable),
                    ))
                },
                (PipelineStage::Uploading(_), PipelineEvent::Unreachable) => r.0.stage() is Done
                    && r.1 matches PipelineAction::Stop(PipelineError::Fail(Failure::BlobUnreachable)),
                (PipelineStage::Uploading(id), PipelineEvent::Answered(code, st)) => if is_success_spec(code) {
                    r.0.stage() is Done && (r.1 matches PipelineAction::Finished(i2) && i2@ == id@)
                } else {
                    r.0.stage() matches PipelineStage::ReadingBlobRefusal(t) && t@ == st@ && r.1 is ReadRefusal
                },
                (PipelineStage::ReadingBlobRefusal(st), PipelineEvent::BodyRead(b)) => r.0.stage() is Done
                    && (r.1 matches PipelineAction::Stop(PipelineError::Fail(Failure::BlobRejected(t, c)))
                    && t@ == st@ && c@ == b@),
                _ => r.1 is Ignored && r.0.stage() == self.stage(),
            },
            // An upload is skipped exactly when its input was skipped, and for
            // the same reason.
            (r.1 matches PipelineAction::Stop(e) && e is Skip) <==> (self.stage() is Resolving
                && (event matches PipelineEvent::NotResolved(x) && x is Skip)),
            r.1 matches PipelineAction::Stop(PipelineError::Skip(s)) ==> (event matches PipelineEvent::NotResolved(
                PipelineError::Skip(t),
            ) && t == s),
            // An upload finishes exactly when the blob store accepts it.
            (r.1 is Finished) <==> (self.stage() is Uploading && (event matches PipelineEvent::Answered(
                code,
                _,
            ) && is_success_spec(code))),
            // Once over, an upload ignores everything.
            self.stage() is Done ==> r.1 is Ignored && r.0.stage() is Done,
    {
        proof {
            reveal_strlit("/");
        }
        match (self.stage, event) {
            (PipelineStage::Resolving, PipelineEvent::Resolved(m, size)) => {
                let source = match &m.source {
                    Some(s) => Some(s.clone()),
                    None => None,
                };
                (Pipeline { stage: PipelineStage::Preparing(m, size) }, PipelineAction::Prepare(source))
            },
            (PipelineStage::Resolving, PipelineEvent::NotResolved(e)) => {
                (Pipeline { stage: PipelineStage::Done }, PipelineAction::Stop(e))
            },
            (PipelineStage::Preparing(_, _), PipelineEvent::Unreachable) => {
                (Pipeline { stage: PipelineStage::Done }, PipelineAction::Stop(PipelineError::Fail(Failure::PrepareUnreachable)))
            },
            (PipelineStage::Preparing(m, size), PipelineEvent::Answered(code, st)) => {
                if is_success_status(code) {
                    (Pipeline { stage: PipelineStage::ReadingPrepareAnswer(m, size) }, PipelineAction::ReadAnswer)
                } else {
                    (Pipeline { stage: PipelineStage::ReadingPrepareRefusal(st) }, PipelineAction::ReadRefusal)
                }
            },
            (PipelineStage::ReadingPrepareRefusal(st), PipelineEvent::RefusalRead(f)) => {
                let failure = rejection(ServerStep::Prepare, st.as_str(), f);
                (Pipeline { stage: PipelineStage::Done }, PipelineAction::Stop(PipelineError::Fail(failure)))
            },
            (PipelineStage::ReadingPrepareAnswer(_, _), PipelineEvent::AnswerRead(None)) => {
                (Pipeline { stage: PipelineStage::Done }, PipelineAction::Stop(PipelineError::Fail(Failure::PrepareInvalid)))
            },
            (PipelineStage::ReadingPrepareAnswer(m, size), PipelineEvent::AnswerRead(Some(id))) => {
                let path = blob_pathname(id.as_str(), m.filename.as_str());
                let payload = client_payload(id.as_str(), size);
                let action = PipelineAction::Authorize(path.clone(), payload);
                (Pipeline { stage: PipelineStage::Authorizing(m, size, id, path) }, action)
            },
            (PipelineStage::Authorizing(_, _, _, _), PipelineEvent::Unreachable) => {
                (Pipeline { stage: PipelineStage::Done }, PipelineAction::Stop(PipelineError::Fail(Failure::TokenUnreachable)))
            },
            (PipelineStage::Authorizing(m, size, id, path), PipelineEvent::Answered(code, st)) => {
                if is_success_status(code) {
                    (Pipeline { stage: PipelineStage::ReadingTokenAnswer(m, size, id, path) }, PipelineAction::ReadAnswer)
                } else {
                    (Pipeline { stage: PipelineStage::ReadingTokenRefusal(st) }, PipelineAction::ReadRefusal)
                }
            },
            (PipelineStage::ReadingTokenRefusal(st), PipelineEvent::RefusalRead(f)) => {
                let failure = rejection(ServerStep::ClientToken, st.as_str(), f);
                (Pipeline { stage: PipelineStage::Done }, PipelineAction::Stop(PipelineError::Fail(failure)))
            },
            (PipelineStage::ReadingTokenAnswer(_, _, _, _), PipelineEvent::AnswerRead(None)) => {
                (Pipeline { stage: PipelineStage::Done }, PipelineAction::Stop(PipelineError::Fail(Failure::TokenInvalid)))
            },
            (PipelineStage::ReadingTokenAnswer(m, size, id, path), PipelineEvent::AnswerRead(Some(token))) => {
                match blob_request(path.as_str(), m.content_type.as_str(), size as u64, token.as_str()) {
                    Some(q) => (Pipeline { stage: PipelineStage::Uploading(id) }, PipelineAction::Upload(q)),
                    None => (Pipeline { stage: PipelineStage::Done }, PipelineAction::Stop(PipelineError::Fail(Failure::RandomUnavailable))),
                }
            },
            (PipelineStage::Uploading(_), PipelineEvent::Unreachable) => {
                (Pipeline { stage: PipelineStage::Done }, PipelineAction::Stop(PipelineError::Fail(Failure::BlobUnreachable)))
            },
            (PipelineStage::Uploading(id), PipelineEvent::Answered(code, st)) => {
                if is_success_status(code) {
                    (Pipeline { stage: PipelineStage::Done }, PipelineAction::Finished(id))
                } else {
                    (Pipeline { stage: PipelineStage::ReadingBlobRefusal(st) }, PipelineAction::ReadRefusal)
                }
            },
            (PipelineStage::ReadingBlobRefusal(st), PipelineEvent::BodyRead(b)) => {
                (Pipeline { stage: PipelineStage::Done }, PipelineAction::Stop(PipelineError::Fail(Failure::BlobRejected(st, b))))
            },
            (stage, _) => (Pipeline { stage }, PipelineAction::Ignored),
        }
    }
}

} // verus!
