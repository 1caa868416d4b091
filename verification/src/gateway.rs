//! The share gateway: parses an inbound request path, resolves the
//! embedded share id against the registry, enforces the access
//! policy, and fixes the response headers for a public share.
//!
//! The gateway never reads bytes itself: on success it hands back a
//! plan naming the path to read and the two headers to attach.

use vstd::prelude::*;
use crate::AuthScheme;
use crate::paths::{last_component_of, last_component, str_eq};
use crate::share::{spec_resolve, ShareRegistry};

verus! {

/// The verdict of the gateway on a request it accepts: which path's
/// bytes to serve and the response headers to attach.
#[derive(Debug)]
pub struct ServePlan {
    pub path: String,
    pub content_type: String,
    pub content_disposition: String,
}

/// Whether a request path begins with the fixed share route.
pub open spec fn has_shared_prefix(s: Seq<char>) -> bool {
    s.len() >= "/shared/"@.len() && s.subrange(0, "/shared/"@.len() as int) == "/shared/"@
}

/// The share id carried by a well-formed request: what follows the
/// fixed route prefix.
pub open spec fn shared_id_part(s: Seq<char>) -> Seq<char> {
    s.skip("/shared/"@.len() as int)
}

/// Splits the share id off a request path, if the path matches the
/// fixed share route.
pub fn strip_shared_prefix(request: &str) -> (r: Option<String>)
    ensures
        r is Some <==> has_shared_prefix(request@),
        r matches Some(id) ==> id@ == shared_id_part(request@),
{
    proof {
        reveal_strlit("/shared/");
    }
    let len = request.unicode_len();
    if len < 8 {
        return None;
    }
    let head = request.substring_char(0, 8);
    if str_eq(head, "/shared/") {
        let id = request.substring_char(8, len).to_owned();
        Some(id)
    } else {
        None
    }
}

/// The content type inferred from a file-name extension: a fixed
/// lookup table with `application/octet-stream` as the default.
pub open spec fn spec_content_type(ext: Seq<char>) -> Seq<char> {
    if ext == "txt"@ {
        "text/plain"@
    } else if ext == "html"@ || ext == "htm"@ {
        "text/html"@
    } else if ext == "css"@ {
        "text/css"@
    } else if ext == "js"@ {
        "application/javascript"@
    } else if ext == "json"@ {
        "application/json"@
    } else if ext == "png"@ {
        "image/png"@
    } else if ext == "jpg"@ || ext == "jpeg"@ {
        "image/jpeg"@
    } else if ext == "gif"@ {
        "image/gif"@
    } else if ext == "pdf"@ {
        "application/pdf"@
    } else if ext == "zip"@ {
        "application/zip"@
    } else {
        "application/octet-stream"@
    }
}

/// Looks an extension up in the content-type table.
pub fn content_type_for(ext: &str) -> (r: String)
    ensures
        r@ == spec_content_type(ext@),
{
    let r = if str_eq(ext, "txt") {
        "text/plain"
    } else if str_eq(ext, "html") || str_eq(ext, "htm") {
        "text/html"
    } else if str_eq(ext, "css") {
        "text/css"
    } else if str_eq(ext, "js") {
        "application/javascript"
    } else if str_eq(ext, "json") {
        "application/json"
    } else if str_eq(ext, "png") {
        "image/png"
    } else if str_eq(ext, "jpg") || str_eq(ext, "jpeg") {
        "image/jpeg"
    } else if str_eq(ext, "gif") {
        "image/gif"
    } else if str_eq(ext, "pdf") {
        "application/pdf"
    } else if str_eq(ext, "zip") {
        "application/zip"
    } else {
        "application/octet-stream"
    };
    r.to_owned()
}

/// The attachment header carrying the original file name.
pub open spec fn spec_disposition(name: Seq<char>) -> Seq<char> {
    "attachment; filename=\""@ + name + "\""@
}

/// Builds the attachment header for a file name.
pub fn disposition_for(name: &str) -> (r: String)
    ensures
        r@ == spec_disposition(name@),
{
    let mut r = "attachment; filename=\"".to_owned();
    r.append(name);
    r.append("\"");
    r
}

/// What serving a request yields, over the registry's entries: either
/// the served path with its two headers, or the error text.
pub open spec fn spec_serve(
    s: Seq<(Seq<char>, AuthScheme)>,
    request: Option<Seq<char>>,
) -> Result<(Seq<char>, Seq<char>, Seq<char>), Seq<char>> {
    match request {
        None => Err("No request path provided"@),
        Some(req) => if !has_shared_prefix(req) {
            Err("Invalid shared file path"@)
        } else {
            match spec_resolve(s, shared_id_part(req)) {
                None => Err("File not found or not shared"@),
                Some((p, a)) => if a == AuthScheme::Private {
                    Err("Access denied: Private file"@)
                } else {
                    ({
                        let name = last_component_of(p, '/');
                        Ok(
                            (
                                p,
                                spec_content_type(last_component_of(name, '.')),
                                spec_disposition(name),
                            ),
                        )
                    })
                },
            }
        },
    }
}

/// Decides a share request: parse, resolve, gate on the policy, and
/// fix the headers. Only `Public` entries ever produce a plan.
pub fn plan_serve(registry: &ShareRegistry, request: Option<String>) -> (r: Result<
    ServePlan,
    String,
>)
    ensures
        ({
            let rq = match request {
                Some(q) => Some(q@),
                None => None,
            };
            match r {
                Ok(plan) => spec_serve(registry.view(), rq) == Ok::<
                    (Seq<char>, Seq<char>, Seq<char>),
                    Seq<char>,
                >((plan.path@, plan.content_type@, plan.content_disposition@)),
                Err(e) => spec_serve(registry.view(), rq) == Err::<
                    (Seq<char>, Seq<char>, Seq<char>),
                    Seq<char>,
                >(e@),
            }
        }),
{
    match request {
        None => Err("No request path provided".to_owned()),
        Some(req) => {
            match strip_shared_prefix(req.as_str()) {
                None => Err("Invalid shared file path".to_owned()),
                Some(id) => {
                    match registry.resolve(id.as_str()) {
                        None => Err("File not found or not shared".to_owned()),
                        Some((path, auth)) => {
                            match auth {
                                AuthScheme::Private => Err(
                                    "Access denied: Private file".to_owned(),
                                ),
                                AuthScheme::Public => {
                                    let name = last_component(path.as_str(), '/');
                                    let ext = last_component(name.as_str(), '.');
                                    let content_type = content_type_for(ext.as_str());
                                    let content_disposition = disposition_for(name.as_str());
                                    Ok(ServePlan { path, content_type, content_disposition })
                                },
                            }
                        },
                    }
                },
            }
        },
    }
}

/// A path shared as `Private` is never served: whenever the id of a
/// well-formed request resolves to a private entry, serving yields
/// exactly the access-denied error, whatever the request was.
pub proof fn lemma_private_never_served(
    s: Seq<(Seq<char>, AuthScheme)>,
    req: Seq<char>,
    p: Seq<char>,
)
    requires
        has_shared_prefix(req),
        spec_resolve(s, shared_id_part(req)) == Some((p, AuthScheme::Private)),
    ensures
        spec_serve(s, Some(req)) == Err::<(Seq<char>, Seq<char>, Seq<char>), Seq<char>>(
            "Access denied: Private file"@,
        ),
{
}

/// Serving succeeds only through a `Public` entry: an `Ok` answer
/// means the request was well formed and its id resolved to a path
/// stored as `Public`, and the bytes served are that path's.
pub proof fn lemma_served_path_is_public(
    s: Seq<(Seq<char>, AuthScheme)>,
    req: Seq<char>,
    plan: (Seq<char>, Seq<char>, Seq<char>),
)
    requires
        spec_serve(s, Some(req)) == Ok::<(Seq<char>, Seq<char>, Seq<char>), Seq<char>>(plan),
    ensures
        has_shared_prefix(req),
        spec_resolve(s, shared_id_part(req)) == Some((plan.0, AuthScheme::Public)),
{
    if has_shared_prefix(req) {
        match spec_resolve(s, shared_id_part(req)) {
            None => {},
            Some((p, a)) => {
                assert(a != AuthScheme::Private ==> a == AuthScheme::Public);
            },
        }
    }
}

} // verus!
