//! The interception policy: what becomes of each request that a tab makes.

use vstd::prelude::*;
use vstd::string::*;

verus! {

/// The kind of resource that a request asks for.
#[derive(Clone, Copy, Debug, PartialEq, Eq, Structural)]
pub enum ResourceKind {
    Document,
    Stylesheet,
    Image,
    Media,
    Font,
    Script,
    Other,
}

/// What becomes of a request.
#[derive(Clone, Copy, Debug, PartialEq, Eq, Structural)]
pub enum Verdict {
    /// The request goes on unchanged.
    Continue,
    /// The request is aborted.
    Abort,
    /// The request goes on as one that carries the session's body.
    SendBody,
}

/// The policy on images: with `block_images` set, requests for images are
/// aborted; every other request goes on, and without it every request does.
pub open spec fn verdict_of(block_images: bool, kind: ResourceKind) -> Verdict {
    if block_images && kind == ResourceKind::Image {
        Verdict::Abort
    } else {
        Verdict::Continue
    }
}

/// The whole policy: the policy on images first; of the requests that go
/// on, the one for `target`, the address that a body is to be sent to,
/// carries the body.
pub open spec fn request_verdict(
    block_images: bool,
    target: Option<Seq<char>>,
    kind: ResourceKind,
    url: Seq<char>,
) -> Verdict {
    if verdict_of(block_images, kind) == Verdict::Abort {
        Verdict::Abort
    } else if target == Some(url) {
        Verdict::SendBody
    } else {
        Verdict::Continue
    }
}

/// Decides on a request by its kind alone.
pub fn filter_resource(block_images: bool, kind: ResourceKind) -> (verdict: Verdict)
    ensures
        verdict == verdict_of(block_images, kind),
{
    if block_images {
        match kind {
            ResourceKind::Image => Verdict::Abort,
            _ => Verdict::Continue,
        }
    } else {
        Verdict::Continue
    }
}

/// Decides on a request for `url` of kind `kind`. `target` is the address
/// that the session's body is to be sent to, if it has a body.
pub fn filter_request(
    block_images: bool,
    target: Option<&str>,
    kind: ResourceKind,
    url: &str,
) -> (verdict: Verdict)
    ensures
        verdict == request_verdict(block_images, target.deep_view(), kind, url@),
{
    match filter_resource(block_images, kind) {
        Verdict::Abort => Verdict::Abort,
        _ => match target {
            Some(address) => {
                let wanted: String = String::from_str(address);
                let asked: String = String::from_str(url);
                if wanted == asked {
                    Verdict::SendBody
                } else {
                    Verdict::Continue
                }
            },
            None => Verdict::Continue,
        },
    }
}

} // verus!
