//! Handling one request, as decisions between the storage round trips:
//! parse the path, turn the fetched source into a derivative and its key,
//! then turn the stored derivative into the redirect location. The caller
//! performs each fetch and store and hands back what storage answered.

use vstd::prelude::*;
use crate::error::{parse_error_class, Error, Internal};
use crate::pipeline::{resize, sniffed_format, PipelineError, Resized};
use crate::request::{
    allowed_view, derived_key, parse_outcome, storage_key, ImageResizeRequest, Resolution,
};

verus! {

/// The location that joining `reference` onto the URL `base` yields, if both
/// are valid.
pub uninterp spec fn joined_url(base: Seq<char>, reference: Seq<char>) -> Option<Seq<char>>;

/// Relies on `url::Url::parse` of the base and `Url::join` of the reference
/// onto it; fails where either fails. The text is the joined URL's
/// serialisation.
#[verifier::external_body]
fn join_url(base: &str, reference: &str) -> (r: Option<String>)
    ensures
        r matches Some(u) ==> joined_url(base@, reference@) == Some(u@),
        r is None ==> joined_url(base@, reference@) is None,
{
    match url::Url::parse(base).and_then(|b| b.join(reference)) {
        Ok(u) => Some(String::from(u)),
        Err(_) => None,
    }
}

/// What storage answered when asked for the source image.
#[derive(Debug)]
pub enum Fetched {
    Found(Vec<u8>),
    /// No object under the key.
    Missing,
    /// Any other storage failure.
    Failed,
}

/// A derivative ready to be written to storage.
#[derive(Debug)]
pub struct Upload {
    pub key: String,
    pub bytes: Vec<u8>,
}

/// First step: the request that `path` asks for, or the classified reason
/// it is refused.
pub fn start(path: &str, allowed: &Option<Vec<Resolution>>) -> (r: Result<
    ImageResizeRequest,
    Error,
>)
    ensures
        match parse_outcome(path@, allowed_view(allowed)) {
            Ok(q) => r matches Ok(req) && req@ == q,
            Err(e) => r == Err::<ImageResizeRequest, Error>(parse_error_class(e)),
        },
{
    match ImageResizeRequest::parse(path, allowed) {
        Ok(req) => Ok(req),
        Err(e) => Err(Error::from_parse(e)),
    }
}

/// The derivative to store for `request`, from what the pipeline returned:
/// its bytes under the request's storage key, or the pipeline's error.
pub fn on_resized(request: &ImageResizeRequest, resized: Result<Resized, PipelineError>) -> (r:
    Result<Upload, Error>)
    ensures
        resized matches Ok(out) ==> r matches Ok(u) && u.bytes@ == out.bytes@ && u.key@
            == storage_key(request.resolution, request.image_key@),
        resized matches Err(e) ==> r == Err::<Upload, Error>(Error::Other(Internal::Pipeline(e))),
{
    match resized {
        Err(e) => Err(Error::Other(Internal::Pipeline(e))),
        Ok(out) => {
            let key = derived_key(request.resolution, request.image_key.as_str());
            Ok(Upload { key, bytes: out.bytes })
        },
    }
}

/// Second step: from what storage answered for the source image, the
/// derivative to store and its key. The source is resized to the requested
/// resolution; what is stored is in the source's format.
pub fn on_fetched(request: &ImageResizeRequest, fetched: Fetched) -> (r: Result<Upload, Error>)
    ensures
        fetched is Missing ==> r == Err::<Upload, Error>(Error::NotFound),
        fetched is Failed ==> r == Err::<Upload, Error>(Error::Other(Internal::StorageRead)),
        fetched matches Fetched::Found(b) ==> (sniffed_format(b@) is None <==> r == Err::<
            Upload,
            Error,
        >(Error::Other(Internal::Pipeline(PipelineError::UnknownFormat)))),
        fetched matches Fetched::Found(b) ==> (r is Ok || r == Err::<Upload, Error>(
            Error::Other(Internal::Pipeline(PipelineError::UnknownFormat)),
        ) || r == Err::<Upload, Error>(Error::Other(Internal::Pipeline(PipelineError::Decode)))
            || r == Err::<Upload, Error>(Error::Other(Internal::Pipeline(PipelineError::Encode)))),
        fetched matches Fetched::Found(b) ==> (r matches Ok(u) ==> sniffed_format(b@) is Some
            && sniffed_format(u.bytes@) == sniffed_format(b@)),
        r matches Ok(u) ==> fetched is Found && u.key@ == storage_key(
            request.resolution,
            request.image_key@,
        ),
{
    match fetched {
        Fetched::Missing => Err(Error::NotFound),
        Fetched::Failed => Err(Error::Other(Internal::StorageRead)),
        Fetched::Found(bytes) => {
            let resized = resize(
                bytes.as_slice(),
                request.resolution.width,
                request.resolution.height,
            );
            on_resized(request, resized)
        },
    }
}

/// Last step: from whether storage took the derivative under `key`, the
/// location to redirect to, which is `key` joined onto `base_url`.
pub fn on_stored(base_url: &str, key: &str, stored: bool) -> (r: Result<String, Error>)
    ensures
        !stored ==> r == Err::<String, Error>(Error::Other(Internal::StorageWrite)),
        stored ==> match joined_url(base_url@, key@) {
            None => r == Err::<String, Error>(Error::Other(Internal::UrlJoin)),
            Some(u) => r matches Ok(loc) && loc@ == u,
        },
{
    if !stored {
        return Err(Error::Other(Internal::StorageWrite));
    }
    match join_url(base_url, key) {
        None => Err(Error::Other(Internal::UrlJoin)),
        Some(u) => Ok(u),
    }
}

/// The HTTP answer to a request.
#[derive(Debug)]
pub struct Reply {
    pub status: u16,
    /// The `location` header, set on a redirect.
    pub location: Option<String>,
    pub body: String,
}

/// The status, header and body that each outcome is answered with: a
/// redirect to the derivative, or an error status whose body tells nothing
/// of internal failures.
pub fn reply_for(outcome: &Result<String, Error>) -> (r: Reply)
    ensures
        match outcome {
            Ok(u) => r.status == 301 && (r.location matches Some(l) && l@ == u@) && r.body@
                == Seq::<char>::empty(),
            Err(Error::NotFound) => r.status == 404 && r.location is None && r.body@ == Seq::<
                char,
            >::empty(),
            Err(Error::UnsupportedResolution) => r.status == 400 && r.location is None && r.body@
                == "Unsupported resolution"@,
            Err(Error::Malformed(_)) => r.status == 400 && r.location is None && r.body@
                == "Malformed request"@,
            Err(Error::Other(_)) => r.status == 500 && r.location is None && r.body@
                == "Internal Server Error"@,
        },
{
    match outcome {
        Ok(u) => Reply { status: 301, location: Some(u.clone()), body: String::new() },
        Err(Error::NotFound) => Reply { status: 404, location: None, body: String::new() },
        Err(Error::UnsupportedResolution) => Reply {
            status: 400,
            location: None,
            body: String::from_str("Unsupported resolution"),
        },
        Err(Error::Malformed(_)) => Reply {
            status: 400,
            location: None,
            body: String::from_str("Malformed request"),
        },
        Err(Error::Other(_)) => Reply {
            status: 500,
            location: None,
            body: String::from_str("Internal Server Error"),
        },
    }
}

} // verus!
