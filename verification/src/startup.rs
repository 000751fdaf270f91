//! How a session comes to be: the server is reached, the bucket is made
//! sure of, and only then are events accepted.

use vstd::prelude::*;

verus! {

/// The name under which this client reports.
pub const CLIENT_NAME: &'static str = "aw-watcher-zed";

/// The kind of events that the bucket holds.
pub const BUCKET_EVENT_TYPE: &'static str = "app.editor.activity";

/// The host of the server where none is given.
pub const DEFAULT_HOST: &'static str = "localhost";

/// The port of the server where none is given.
pub const DEFAULT_PORT: u16 = 5600;

/// The bucket of the client `client` on the machine `hostname`.
pub open spec fn bucket_name(client: Seq<char>, hostname: Seq<char>) -> Seq<char> {
    client + "-bucket_"@ + hostname
}

/// Names the bucket of the client `client` on the machine `hostname`.
pub fn bucket_id(client: &str, hostname: &str) -> (id: String)
    ensures
        id@ == bucket_name(client@, hostname@),
{
    let mut id: String = client.to_string();
    id.append("-bucket_");
    id.append(hostname);
    id
}

/// Why a session did not start.
#[derive(Clone, Debug)]
pub enum StartupError {
    /// The server could not be reached.
    Connect(String),
    /// The bucket could not be made sure of.
    CreateBucket(String),
}

/// The line that tells an operator why no session started.
pub open spec fn diagnostic_line(error: StartupError) -> Seq<char> {
    match error {
        StartupError::Connect(detail) => "Could not connect to ActivityWatch Server, received error "@
            + detail@,
        StartupError::CreateBucket(detail) => "Could not create ActivityWatch bucket, received error "@
            + detail@,
    }
}

impl StartupError {
    /// The line that tells an operator why no session started.
    pub fn diagnostic(&self) -> (line: String)
        ensures
            line@ == diagnostic_line(*self),
    {
        match self {
            StartupError::Connect(detail) => {
                let mut line: String =
                    "Could not connect to ActivityWatch Server, received error ".to_string();
                line.append(detail.as_str());
                line
            },
            StartupError::CreateBucket(detail) => {
                let mut line: String =
                    "Could not create ActivityWatch bucket, received error ".to_string();
                line.append(detail.as_str());
                line
            },
        }
    }
}

/// The request to make sure of a bucket.
#[derive(Clone, Debug)]
pub struct BucketRequest {
    /// The bucket's name.
    pub bucket_id: String,
    /// The kind of events it holds.
    pub event_type: String,
}

/// The step that follows the attempt to reach the server. `connected` holds
/// the name of this machine as the client learned it, or why the server was
/// not reached. A failure ends the startup; a success asks for the bucket of
/// this client on this machine.
pub fn after_connect(
    connected: Result<String, String>,
) -> (next: Result<BucketRequest, StartupError>)
    ensures
        match connected {
            Ok(hostname) => next matches Ok(request) && request.bucket_id@ == bucket_name(
                CLIENT_NAME@,
                hostname@,
            ) && request.event_type@ == BUCKET_EVENT_TYPE@,
            Err(detail) => next matches Err(StartupError::Connect(reason)) && reason@ == detail@,
        },
{
    match connected {
        Ok(hostname) => Ok(
            BucketRequest {
                bucket_id: bucket_id(CLIENT_NAME, hostname.as_str()),
                event_type: BUCKET_EVENT_TYPE.to_string(),
            },
        ),
        Err(detail) => Err(StartupError::Connect(detail)),
    }
}

/// The step that follows the attempt to make sure of the bucket. A failure
/// ends the startup; a success yields the bucket that the session reports
/// to, and events may be accepted.
pub fn after_create_bucket(
    request: BucketRequest,
    created: Result<(), String>,
) -> (ready: Result<String, StartupError>)
    ensures
        match created {
            Ok(_) => ready matches Ok(bucket) && bucket@ == request.bucket_id@,
            Err(detail) => ready matches Err(StartupError::CreateBucket(reason)) && reason@
                == detail@,
        },
{
    match created {
        Ok(_) => Ok(request.bucket_id),
        Err(detail) => Err(StartupError::CreateBucket(detail)),
    }
}

} // verus!
