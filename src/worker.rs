//! One fetch: where it is read from, where it is written, and how its
//! transfer results become an outcome.
use vstd::prelude::*;

use crate::path::{
    has_parent_component, normalized, path_accepted, sanitize_path, trim_base_url, trimmed_base,
};

verus! {

/// How the host asked for a file to be transferred.
#[derive(Debug, Clone, Copy, PartialEq, Eq, Structural)]
pub struct TransportFlags {
    /// The host would fetch the file over HTTP.
    pub dispatch_via_http: bool,
    /// The server holds the file bzip2-compressed under a suffixed name.
    pub compressed: bool,
}

/// A validated request for one remote asset.
#[derive(Debug)]
pub struct DownloadRequest {
    /// Base URL without a trailing separator.
    pub remote_base_url: String,
    /// Normalized relative path, free of parent-directory components.
    pub relative_path: String,
    pub transport_flags: TransportFlags,
}

/// Why a fetch produced no file.
#[derive(Debug)]
pub enum FetchError {
    /// The server answered with a non-success status.
    RemoteFileNotFound { path: String, base_url: String },
    /// The request could not be carried out; holds the transport's description.
    Transport(String),
    /// The compressed body of the named file could not be decoded.
    Decompress(String),
    /// The named file exists already and is left as it is.
    AlreadyExists(String),
    /// Writing the file failed; holds the description of the failure.
    Io(String),
}

impl FetchError {
    /// The text that describes this error.
    pub open spec fn spec_message(&self) -> Seq<char> {
        match self {
            FetchError::RemoteFileNotFound { path, base_url } => "remote file `"@ + path@
                + "` not found at "@ + base_url@,
            FetchError::Transport(m) => "request failed: "@ + m@,
            FetchError::Decompress(p) => "could not decompress `"@ + p@ + "`"@,
            FetchError::AlreadyExists(p) => "file `"@ + p@ + "` exists already"@,
            FetchError::Io(m) => "write failed: "@ + m@,
        }
    }

    /// Describes this error in words.
    pub fn message(&self) -> (r: String)
        ensures
            r@ == self.spec_message(),
    {
        match self {
            FetchError::RemoteFileNotFound { path, base_url } => {
                let mut r = String::from_str("remote file `");
                r.append(path.as_str());
                r.append("` not found at ");
                r.append(base_url.as_str());
                r
            },
            FetchError::Transport(m) => {
                let mut r = String::from_str("request failed: ");
                r.append(m.as_str());
                r
            },
            FetchError::Decompress(p) => {
                let mut r = String::from_str("could not decompress `");
                r.append(p.as_str());
                r.append("`");
                r
            },
            FetchError::AlreadyExists(p) => {
                let mut r = String::from_str("file `");
                r.append(p.as_str());
                r.append("` exists already");
                r
            },
            FetchError::Io(m) => {
                let mut r = String::from_str("write failed: ");
                r.append(m.as_str());
                r
            },
        }
    }
}

/// What came of writing a fetched body to its local file.
#[derive(Debug)]
pub enum WriteStatus {
    Written,
    AlreadyExists,
    Failed(String),
}

/// The suffix under which servers store compressed assets.
pub open spec fn compressed_suffix() -> Seq<char> {
    seq!['.', 'b', 'z', '2']
}

/// The path of the asset on the server, relative to the base URL.
pub open spec fn remote_path_of(path: Seq<char>, compressed: bool) -> Seq<char> {
    if compressed {
        path + compressed_suffix()
    } else {
        path
    }
}

/// Status codes that count as success.
pub open spec fn is_success_status(status: u16) -> bool {
    200 <= status <= 299
}

/// What the bzip2 decoder yields for a compressed stream, or `None` where the
/// bytes are no valid stream.
pub uninterp spec fn bz2_decoded(data: Seq<u8>) -> Option<Seq<u8>>;

/// Relies on `bzip2::read::BzDecoder`: reading it to the end decodes the
/// bytes, or fails on data that is no valid bzip2 stream. The outcome depends
/// on the bytes alone.
#[verifier::external_body]
fn bz2_decode(data: &[u8]) -> (r: Option<Vec<u8>>)
    ensures
        r matches Some(v) ==> bz2_decoded(data@) == Some(v@),
        r is None ==> bz2_decoded(data@) is None,
{
    let mut out: Vec<u8> = Vec::new();
    let mut decoder = bzip2::read::BzDecoder::new(data);
    std::io::Read::read_to_end(&mut decoder, &mut out).ok().map(|_| out)
}

impl DownloadRequest {
    /// The relative path stays inside the download directory.
    pub open spec fn wf(&self) -> bool {
        !has_parent_component(self.relative_path@)
    }

    /// Builds a request from the host's raw strings, or `None` where the path
    /// would climb out of the download directory.
    pub fn from_raw(url: &str, path: &str, transport_flags: TransportFlags) -> (r: Option<
        DownloadRequest,
    >)
        ensures
            r is Some <==> path_accepted(path@),
            r matches Some(req) ==> {
                &&& req.wf()
                &&& req.remote_base_url@ == trimmed_base(url@)
                &&& req.relative_path@ == normalized(path@)
                &&& req.transport_flags == transport_flags
            },
    {
        match sanitize_path(path) {
            Some(relative_path) => Some(
                DownloadRequest { remote_base_url: trim_base_url(url), relative_path, transport_flags },
            ),
            None => None,
        }
    }

    /// The full URL to fetch.
    pub open spec fn spec_remote_url(&self) -> Seq<char> {
        self.remote_base_url@ + seq!['/'] + remote_path_of(
            self.relative_path@,
            self.transport_flags.compressed,
        )
    }

    /// The URL that the asset is fetched from.
    pub fn remote_url(&self) -> (r: String)
        ensures
            r@ == self.spec_remote_url(),
    {
        proof {
            reveal_strlit("/");
            reveal_strlit(".bz2");
        }
        let mut r = String::from_str(self.remote_base_url.as_str());
        r.append("/");
        r.append(self.relative_path.as_str());
        if self.transport_flags.compressed {
            r.append(".bz2");
        }
        r
    }

    /// Where the fetched asset is stored under the sandbox root.
    pub open spec fn spec_local_path(&self, root: Seq<char>) -> Seq<char> {
        root + seq!['/'] + self.relative_path@
    }

    /// The local file that the asset is written to: the relative path under
    /// `root`, without the compression suffix.
    pub fn local_path(&self, root: &str) -> (r: String)
        ensures
            r@ == self.spec_local_path(root@),
    {
        proof {
            reveal_strlit("/");
        }
        let mut r = String::from_str(root);
        r.append("/");
        r.append(self.relative_path.as_str());
        r
    }

    /// The error for a non-success answer of the server.
    pub fn not_found(&self) -> (r: FetchError)
        ensures
            r matches FetchError::RemoteFileNotFound { path, base_url } && path@
                == self.relative_path@ && base_url@ == self.remote_base_url@,
    {
        FetchError::RemoteFileNotFound {
            path: String::from_str(self.relative_path.as_str()),
            base_url: String::from_str(self.remote_base_url.as_str()),
        }
    }

    /// What the result of decoding a compressed body makes of this fetch.
    pub open spec fn decoded_ok(&self, decoded: Option<Seq<u8>>, r: Result<Vec<u8>, FetchError>) -> bool {
        match decoded {
            Some(d) => r matches Ok(content) && content@ == d,
            None => r matches Err(FetchError::Decompress(p)) && p@ == self.relative_path@,
        }
    }

    /// Turns the result of decoding a compressed body into the content to
    /// write, or a decompression error naming this request's path.
    pub fn decoded_content(&self, decoded: Option<Vec<u8>>) -> (r: Result<Vec<u8>, FetchError>)
        ensures
            self.decoded_ok(
                match decoded {
                    Some(v) => Some(v@),
                    None => None,
                },
                r,
            ),
    {
        match decoded {
            Some(content) => Ok(content),
            None => Err(FetchError::Decompress(String::from_str(self.relative_path.as_str()))),
        }
    }

    /// Decides what to write for the server's answer: nothing on a
    /// non-success status, the decoded body of a compressed transfer, the
    /// body itself otherwise.
    pub fn received_content(&self, status: u16, body: Vec<u8>) -> (r: Result<Vec<u8>, FetchError>)
        ensures
            !is_success_status(status) ==> (r matches Err(FetchError::RemoteFileNotFound { path, base_url })
                && path@ == self.relative_path@ && base_url@ == self.remote_base_url@),
            is_success_status(status) && !self.transport_flags.compressed ==> (r matches Ok(content)
                && content@ == body@),
            is_success_status(status) && self.transport_flags.compressed ==> self.decoded_ok(
                bz2_decoded(body@),
                r,
            ),
    {
        if status < 200 || status > 299 {
            Err(self.not_found())
        } else if self.transport_flags.compressed {
            self.decoded_content(bz2_decode(body.as_slice()))
        } else {
            Ok(body)
        }
    }

    /// The outcome of this fetch once its content was handed to the file
    /// system: the relative path on success.
    pub fn write_outcome(&self, status: WriteStatus) -> (r: Result<String, FetchError>)
        ensures
            status is Written ==> (r matches Ok(p) && p@ == self.relative_path@),
            status is AlreadyExists ==> (r matches Err(FetchError::AlreadyExists(p)) && p@
                == self.relative_path@),
            status matches WriteStatus::Failed(m) ==> (r matches Err(FetchError::Io(e)) && e@ == m@),
    {
        match status {
            WriteStatus::Written => Ok(String::from_str(self.relative_path.as_str())),
            WriteStatus::AlreadyExists => Err(
                FetchError::AlreadyExists(String::from_str(self.relative_path.as_str())),
            ),
            WriteStatus::Failed(m) => Err(FetchError::Io(m)),
        }
    }
}

} // verus!
