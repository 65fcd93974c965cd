use vstd::prelude::*;

use crate::duration::{parse_duration, spec_parse_duration};
use crate::errors::CmdError;
use crate::http::HttpOutcome;
use crate::token::{token_of_lookup, Lookup};

verus! {

/// The body of POST {base}/api/upload: the sizes of the video and of the
/// freshly extracted thumbnail.
#[derive(Debug)]
pub struct UploadRequest {
    pub video_size: u64,
    pub thumbnail_size: u64,
}

/// What the service answers with: the new video's id and two signed URLs to
/// PUT the raw video and thumbnail bytes to.
#[derive(Debug)]
pub struct UploadUrls {
    pub video_id: String,
    pub video_upload_url: String,
    pub thumbnail_upload_url: String,
}

/// The body of POST {base}/api/insert, sent after both raw uploads are done.
#[derive(Debug)]
pub struct InsertPayload {
    pub video_id: String,
    pub file_name: String,
    pub duration: u64,
    pub size: u64,
}

/// What a finished upload yields: the public URL the clipboard receives and
/// the message to print, which carries that URL.
#[derive(Debug)]
pub struct InsertOk {
    pub video_url: String,
    pub message: String,
}

/// The videoId, videoUploadUrl and thumbnailUploadUrl fields of an upload
/// response body, when the body is a JSON object carrying all three as
/// strings.
pub uninterp spec fn upload_urls_of(body: Seq<char>) -> Option<
    (Seq<char>, Seq<char>, Seq<char>),
>;

/// Relies on serde_json::from_str and Value::get/as_str: reads the videoId,
/// videoUploadUrl and thumbnailUploadUrl string fields of the response body;
/// the result depends on the body alone.
#[verifier::external_body]
fn parse_upload_urls_body(body: &str) -> (r: Option<(String, String, String)>)
    ensures
        r is Some <==> upload_urls_of(body@) is Some,
        r matches Some(f) ==> upload_urls_of(body@) == Some((f.0@, f.1@, f.2@)),
{
    let v: serde_json::Value = serde_json::from_str(body).ok()?;
    let id = v.get("videoId")?.as_str()?;
    let video = v.get("videoUploadUrl")?.as_str()?;
    let thumbnail = v.get("thumbnailUploadUrl")?.as_str()?;
    Some((id.to_string(), video.to_string(), thumbnail.to_string()))
}

/// The videoUrl field of an insert response body, when the body is a JSON
/// object carrying it as a string.
pub uninterp spec fn insert_url_of(body: Seq<char>) -> Option<Seq<char>>;

/// Relies on serde_json::from_str and Value::get/as_str: reads the videoUrl
/// string field of the response body; the result depends on the body alone.
#[verifier::external_body]
fn parse_insert_body(body: &str) -> (r: Option<String>)
    ensures
        r is Some <==> insert_url_of(body@) is Some,
        r matches Some(u) ==> insert_url_of(body@) == Some(u@),
{
    let v: serde_json::Value = serde_json::from_str(body).ok()?;
    let url = v.get("videoUrl")?.as_str()?;
    Some(url.to_string())
}

/// Build the request for the two signed upload URLs.
pub fn upload_request(video_size: u64, thumbnail_size: u64) -> (r: UploadRequest)
    ensures
        r.video_size == video_size,
        r.thumbnail_size == thumbnail_size,
{
    UploadRequest { video_size, thumbnail_size }
}

/// Judge the response to the upload-URL request: 200 with a well-formed body
/// yields the video id and the two signed URLs; any other status is an
/// upstream error; transport failures are classified by kind.
pub fn upload_urls_conclude(outcome: HttpOutcome) -> (r: Result<UploadUrls, CmdError>)
    ensures
        outcome is TimedOut ==> r == Err::<UploadUrls, CmdError>(CmdError::NetworkTimeout),
        outcome is ConnectFailed ==> r == Err::<UploadUrls, CmdError>(
            CmdError::NetworkUnreachable,
        ),
        outcome matches HttpOutcome::Response(status, body) ==> {
            if status == 200 {
                match upload_urls_of(body@) {
                    Some(f) => r matches Ok(u) && u.video_id@ == f.0 && u.video_upload_url@ == f.1
                        && u.thumbnail_upload_url@ == f.2,
                    None => r == Err::<UploadUrls, CmdError>(CmdError::Serialization),
                }
            } else {
                r == Err::<UploadUrls, CmdError>(CmdError::UpstreamError(status))
            }
        },
{
    match outcome {
        HttpOutcome::TimedOut => Err(CmdError::NetworkTimeout),
        HttpOutcome::ConnectFailed => Err(CmdError::NetworkUnreachable),
        HttpOutcome::Response(status, body) => {
            if status == 200 {
                match parse_upload_urls_body(body.as_str()) {
                    Some((video_id, video_upload_url, thumbnail_upload_url)) => Ok(UploadUrls {
                        video_id,
                        video_upload_url,
                        thumbnail_upload_url,
                    }),
                    None => Err(CmdError::Serialization),
                }
            } else {
                Err(CmdError::UpstreamError(status))
            }
        },
    }
}

/// Build the payload that registers the uploaded video as a complete record.
pub fn insert_payload(video_id: String, file_name: String, duration: u64, size: u64) -> (r:
    InsertPayload)
    ensures
        r.video_id == video_id,
        r.file_name == file_name,
        r.duration == duration,
        r.size == size,
{
    InsertPayload { video_id, file_name, duration, size }
}

/// The message a finished upload prints: it carries the public URL.
pub open spec fn insert_message(url: Seq<char>) -> Seq<char> {
    "Link copied to clipboard\n"@ + url
}

/// Judge the response to the insert request: 200 with a well-formed body
/// yields the public URL and the message carrying it; any other status is an
/// upstream error; transport failures are classified by kind.
pub fn insert_conclude(outcome: HttpOutcome) -> (r: Result<InsertOk, CmdError>)
    ensures
        outcome is TimedOut ==> r == Err::<InsertOk, CmdError>(CmdError::NetworkTimeout),
        outcome is ConnectFailed ==> r == Err::<InsertOk, CmdError>(CmdError::NetworkUnreachable),
        outcome matches HttpOutcome::Response(status, body) ==> {
            if status == 200 {
                match insert_url_of(body@) {
                    Some(u) => r matches Ok(ok) && ok.video_url@ == u && ok.message@
                        == insert_message(u),
                    None => r == Err::<InsertOk, CmdError>(CmdError::Serialization),
                }
            } else {
                r == Err::<InsertOk, CmdError>(CmdError::UpstreamError(status))
            }
        },
{
    match outcome {
        HttpOutcome::TimedOut => Err(CmdError::NetworkTimeout),
        HttpOutcome::ConnectFailed => Err(CmdError::NetworkUnreachable),
        HttpOutcome::Response(status, body) => {
            if status == 200 {
                match parse_insert_body(body.as_str()) {
                    Some(video_url) => {
                        let message = String::from_str("Link copied to clipboard\n").concat(
                            video_url.as_str(),
                        );
                        Ok(InsertOk { video_url, message })
                    },
                    None => Err(CmdError::Serialization),
                }
            } else {
                Err(CmdError::UpstreamError(status))
            }
        },
    }
}

/// The stages of an upload, in the order the command performs them. Each
/// stage carries what the later stages still need; the surrounding program
/// performs the stage's outside work and feeds the outcome back as an event.
#[derive(Debug)]
pub enum UploadState {
    /// Nothing has happened yet: the stored token is resolved first, before
    /// the filesystem or the network is touched.
    Start,
    /// The token is resolved; the file's size and its thumbnail come next.
    Probing { token: String },
    /// Sizes are known; the two signed upload URLs are being requested.
    AwaitUrls { token: String, video_size: u64, thumbnail_size: u64 },
    /// The raw video bytes are being PUT to the signed video URL.
    AwaitVideoPut { token: String, urls: UploadUrls, video_size: u64 },
    /// The thumbnail bytes are being PUT to the signed thumbnail URL.
    AwaitThumbnailPut { token: String, urls: UploadUrls, video_size: u64 },
    /// The media tool is probing the file's duration.
    AwaitDuration { token: String, video_id: String, video_size: u64 },
    /// The insert call is registering the video as a complete record.
    AwaitInsert { token: String, payload: InsertPayload },
    /// The upload is complete: the public URL and the message to print.
    Done { result: InsertOk },
    /// The upload failed; the remaining stages are abandoned.
    Failed { error: CmdError },
}

/// What the outside world answers at each stage.
#[derive(Debug)]
pub enum UploadEvent {
    /// What the credential store found.
    TokenLookedUp(Lookup),
    /// The file's size and the extracted thumbnail's size.
    Probed { video_size: u64, thumbnail_size: u64 },
    /// The response to the upload-URL request.
    UrlsResponse(HttpOutcome),
    /// The response to the video PUT.
    VideoPutResponse(HttpOutcome),
    /// The response to the thumbnail PUT.
    ThumbnailPutResponse(HttpOutcome),
    /// The media tool's raw duration output, with the file's name.
    DurationProbed { stdout: Vec<u8>, file_name: String },
    /// The response to the insert call.
    InsertResponse(HttpOutcome),
}

/// Whether an event answers what the stage is waiting for.
pub open spec fn expects(state: UploadState, event: UploadEvent) -> bool {
    match (state, event) {
        (UploadState::Start, UploadEvent::TokenLookedUp(_)) => true,
        (UploadState::Probing { .. }, UploadEvent::Probed { .. }) => true,
        (UploadState::AwaitUrls { .. }, UploadEvent::UrlsResponse(_)) => true,
        (UploadState::AwaitVideoPut { .. }, UploadEvent::VideoPutResponse(_)) => true,
        (UploadState::AwaitThumbnailPut { .. }, UploadEvent::ThumbnailPutResponse(_)) => true,
        (UploadState::AwaitDuration { .. }, UploadEvent::DurationProbed { .. }) => true,
        (UploadState::AwaitInsert { .. }, UploadEvent::InsertResponse(_)) => true,
        _ => false,
    }
}

/// Advance the upload by one stage. A missing credential stops the upload at
/// the very first stage, before any filesystem or network work; a failure at
/// any later stage abandons the rest. Everything carried forward — token,
/// urls, sizes, the parsed duration — is pinned by the stage it came from.
pub fn upload_step(state: UploadState, event: UploadEvent) -> (r: UploadState)
    requires
        expects(state, event),
    ensures
        state is Start ==> (event matches UploadEvent::TokenLookedUp(l) && match l {
            Lookup::Found(t) => r matches UploadState::Probing { token } && token == t,
            Lookup::Missing => r matches UploadState::Failed { error } && error
                is NotAuthenticated,
            Lookup::StoreError(m) => r matches UploadState::Failed { error } && error
                == CmdError::LocalIo(m),
        }),
        state matches UploadState::Probing { token } ==> (event matches UploadEvent::Probed {
            video_size,
            thumbnail_size,
        } && r == (UploadState::AwaitUrls { token, video_size, thumbnail_size })),
        state matches UploadState::AwaitUrls { token, video_size, thumbnail_size } ==> (event
            matches UploadEvent::UrlsResponse(o) && match o {
            HttpOutcome::TimedOut => r matches UploadState::Failed { error } && error
                is NetworkTimeout,
            HttpOutcome::ConnectFailed => r matches UploadState::Failed { error } && error
                is NetworkUnreachable,
            HttpOutcome::Response(status, body) => {
                if status == 200 {
                    match upload_urls_of(body@) {
                        Some(f) => r matches UploadState::AwaitVideoPut {
                            token: t2,
                            urls,
                            video_size: v2,
                        } && t2 == token && v2 == video_size && urls.video_id@ == f.0
                            && urls.video_upload_url@ == f.1 && urls.thumbnail_upload_url@ == f.2,
                        None => r matches UploadState::Failed { error } && error is Serialization,
                    }
                } else {
                    r matches UploadState::Failed { error } && error == CmdError::UpstreamError(
                        status,
                    )
                }
            },
        }),
        state matches UploadState::AwaitVideoPut { token, urls, video_size } ==> (event matches
            UploadEvent::VideoPutResponse(o) && match o {
            HttpOutcome::TimedOut => r matches UploadState::Failed { error } && error
                is NetworkTimeout,
            HttpOutcome::ConnectFailed => r matches UploadState::Failed { error } && error
                is NetworkUnreachable,
            HttpOutcome::Response(status, _) => {
                if status == 200 {
                    r == (UploadState::AwaitThumbnailPut { token, urls, video_size })
                } else {
                    r matches UploadState::Failed { error } && error == CmdError::UpstreamError(
                        status,
                    )
                }
            },
        }),
        state matches UploadState::AwaitThumbnailPut { token, urls, video_size } ==> (event
            matches UploadEvent::ThumbnailPutResponse(o) && match o {
            HttpOutcome::TimedOut => r matches UploadState::Failed { error } && error
                is NetworkTimeout,
            HttpOutcome::ConnectFailed => r matches UploadState::Failed { error } && error
                is NetworkUnreachable,
            HttpOutcome::Response(status, _) => {
                if status == 200 {
                    r == (UploadState::AwaitDuration {
                        token,
                        video_id: urls.video_id,
                        video_size,
                    })
                } else {
                    r matches UploadState::Failed { error } && error == CmdError::UpstreamError(
                        status,
                    )
                }
            },
        }),
        state matches UploadState::AwaitDuration { token, video_id, video_size } ==> (event
            matches UploadEvent::DurationProbed { stdout, file_name } && match spec_parse_duration(
            stdout@,
        ) {
            Some(v) => r matches UploadState::AwaitInsert { token: t2, payload } && t2 == token
                && payload.video_id == video_id && payload.file_name == file_name
                && payload.duration == v && payload.size == video_size,
            None => r matches UploadState::Failed { error } && error is MediaTool,
        }),
        state matches UploadState::AwaitInsert { token, payload } ==> (event matches
            UploadEvent::InsertResponse(o) && match o {
            HttpOutcome::TimedOut => r matches UploadState::Failed { error } && error
                is NetworkTimeout,
            HttpOutcome::ConnectFailed => r matches UploadState::Failed { error } && error
                is NetworkUnreachable,
            HttpOutcome::Response(status, body) => {
                if status == 200 {
                    match insert_url_of(body@) {
                        Some(u) => r matches UploadState::Done { result } && result.video_url@
                            == u && result.message@ == insert_message(u),
                        None => r matches UploadState::Failed { error } && error is Serialization,
                    }
                } else {
                    r matches UploadState::Failed { error } && error == CmdError::UpstreamError(
                        status,
                    )
                }
            },
        }),
{
    match (state, event) {
        (UploadState::Start, UploadEvent::TokenLookedUp(l)) => match token_of_lookup(l) {
            Ok(token) => UploadState::Probing { token },
            Err(error) => UploadState::Failed { error },
        },
        (
            UploadState::Probing { token },
            UploadEvent::Probed { video_size, thumbnail_size },
        ) => UploadState::AwaitUrls { token, video_size, thumbnail_size },
        (
            UploadState::AwaitUrls { token, video_size, thumbnail_size: _ },
            UploadEvent::UrlsResponse(o),
        ) => match upload_urls_conclude(o) {
            Ok(urls) => UploadState::AwaitVideoPut { token, urls, video_size },
            Err(error) => UploadState::Failed { error },
        },
        (
            UploadState::AwaitVideoPut { token, urls, video_size },
            UploadEvent::VideoPutResponse(o),
        ) => match crate::http::require_ok(&o) {
            Ok(_) => UploadState::AwaitThumbnailPut { token, urls, video_size },
            Err(error) => UploadState::Failed { error },
        },
        (
            UploadState::AwaitThumbnailPut { token, urls, video_size },
            UploadEvent::ThumbnailPutResponse(o),
        ) => match crate::http::require_ok(&o) {
            Ok(_) => UploadState::AwaitDuration { token, video_id: urls.video_id, video_size },
            Err(error) => UploadState::Failed { error },
        },
        (
            UploadState::AwaitDuration { token, video_id, video_size },
            UploadEvent::DurationProbed { stdout, file_name },
        ) => match parse_duration(stdout.as_slice()) {
            Ok(duration) => UploadState::AwaitInsert {
                token,
                payload: InsertPayload { video_id, file_name, duration, size: video_size },
            },
            Err(error) => UploadState::Failed { error },
        },
        (
            UploadState::AwaitInsert { token: _, payload: _ },
            UploadEvent::InsertResponse(o),
        ) => match insert_conclude(o) {
            Ok(result) => UploadState::Done { result },
            Err(error) => UploadState::Failed { error },
        },
        _ => {
            proof {
                assert(false);
            }
            UploadState::Start
        },
    }
}

} // verus!
