//! The resolution step: what the server answers once the filesystem
//! has been asked about the resolved target.
//!
//! The caller first computes the target with
//! [`crate::paths::resolve_target`], then probes the filesystem at
//! that target — is it a directory, does it hold an `index.html`,
//! what did reading yield — and hands the answers in as a
//! [`TargetProbe`]. Everything from there on is a pure function of
//! the target and the probe.

use crate::paths::lemma_resolved_rooted;
use crate::paths::spec_resolved;
use crate::response::file_response;
use crate::response::internal_error_model;
use crate::response::internal_error_response;
use crate::response::listing_model;
use crate::response::listing_response;
use crate::response::not_found_model;
use crate::response::not_found_response;
use crate::response::ok_file_model;
use crate::response::BodyModel;
use crate::response::ResponseDescriptor;
use crate::response::ResponseModel;
use vstd::prelude::*;
use vstd::string::StringExecFns;

verus! {

/// What enumerating a directory yielded: its entry names in
/// enumeration order, or the reason it could not be read.
pub enum DirReadOutcome {
    Entries(Vec<String>),
    NotFound,
    OtherError,
}

/// The filesystem's answers about the resolved target.
pub enum TargetProbe {
    /// The target is not a directory; the payload is what reading it
    /// as a file yielded.
    NotDirectory(Option<Vec<u8>>),
    /// The target is a directory holding an `index.html`; the payload
    /// is what reading that index file yielded.
    DirWithIndex(Option<Vec<u8>>),
    /// The target is a directory without an `index.html`; the payload
    /// is what enumerating it yielded.
    DirNoIndex(DirReadOutcome),
}

/// The file name appended to a directory target when its index file
/// is served.
pub open spec fn index_file_suffix() -> Seq<char> {
    "/index.html"@
}

/// The response for target `target` given the filesystem's answers:
/// a file is served byte-for-byte under its path's MIME type; a
/// directory is served through its index file, or as a plain-text
/// listing of its entries; everything missing is 404, and a directory
/// unreadable for another reason is 500.
pub open spec fn spec_resolve(target: Seq<char>, probe: TargetProbe) -> ResponseModel {
    match probe {
        TargetProbe::NotDirectory(read) => match read {
            Some(d) => ok_file_model(target, d@),
            None => not_found_model(),
        },
        TargetProbe::DirWithIndex(read) => match read {
            Some(d) => ok_file_model(target + index_file_suffix(), d@),
            None => not_found_model(),
        },
        TargetProbe::DirNoIndex(outcome) => match outcome {
            DirReadOutcome::Entries(names) => listing_model(names.deep_view()),
            DirReadOutcome::NotFound => not_found_model(),
            DirReadOutcome::OtherError => internal_error_model(),
        },
    }
}

/// Turns the filesystem's answers about `target` into the response,
/// exactly as [`spec_resolve`] describes.
pub fn resolve_response(target: &str, probe: TargetProbe) -> (r: ResponseDescriptor)
    ensures
        r@ == spec_resolve(target@, probe),
{
    match probe {
        TargetProbe::NotDirectory(read) => file_response(target, read),
        TargetProbe::DirWithIndex(read) => {
            let mut index_path = String::from_str(target);
            index_path.append("/index.html");
            file_response(index_path.as_str(), read)
        },
        TargetProbe::DirNoIndex(DirReadOutcome::Entries(names)) => listing_response(&names),
        TargetProbe::DirNoIndex(DirReadOutcome::NotFound) => not_found_response(),
        TargetProbe::DirNoIndex(DirReadOutcome::OtherError) => internal_error_response(),
    }
}

/// A directory served through its index file answers exactly as the
/// index file does when its own path is the target.
pub proof fn lemma_index_equivalence(target: Seq<char>, read: Option<Vec<u8>>)
    ensures
        spec_resolve(target, TargetProbe::DirWithIndex(read)) == spec_resolve(
            target + index_file_suffix(),
            TargetProbe::NotDirectory(read),
        ),
{
}

/// Requesting a directory path `p` that holds an index file answers
/// exactly as requesting `p + "/index.html"` itself, whatever the
/// read of that index file yields.
pub proof fn lemma_index_request_equivalence(base: Seq<char>, p: Seq<char>, read: Option<Vec<u8>>)
    requires
        p.len() > 0,
        p[0] == '/',
    ensures
        spec_resolve(spec_resolved(base, p), TargetProbe::DirWithIndex(read)) == spec_resolve(
            spec_resolved(base, p + index_file_suffix()),
            TargetProbe::NotDirectory(read),
        ),
{
    lemma_resolved_rooted(base, p);
    lemma_resolved_rooted(base, p + index_file_suffix());
    assert(base + (p + index_file_suffix()) =~= (base + p) + index_file_suffix());
    lemma_index_equivalence(base + p, read);
}

/// For a directory path written with a trailing slash, serving the
/// directory through its index file and requesting `p + "index.html"`
/// directly agree on status and body. The two spell the index file's
/// path differently (`.../dir//index.html` against
/// `.../dir/index.html`), and the abstract MIME mapping does not
/// identify the two spellings, so the content type is not related
/// here.
pub proof fn lemma_index_request_equivalence_trailing_slash(
    base: Seq<char>,
    p: Seq<char>,
    read: Option<Vec<u8>>,
)
    requires
        p.len() > 0,
        p[0] == '/',
        p[p.len() - 1] == '/',
    ensures
        spec_resolve(spec_resolved(base, p), TargetProbe::DirWithIndex(read)).status
            == spec_resolve(
            spec_resolved(base, p + "index.html"@),
            TargetProbe::NotDirectory(read),
        ).status,
        spec_resolve(spec_resolved(base, p), TargetProbe::DirWithIndex(read)).body == spec_resolve(
            spec_resolved(base, p + "index.html"@),
            TargetProbe::NotDirectory(read),
        ).body,
{
}

/// Resolution is a pure function of the target and of the
/// filesystem's answers: two identical requests against an unchanged
/// filesystem are answered identically.
pub proof fn lemma_resolution_deterministic(
    target: Seq<char>,
    probe: TargetProbe,
    r1: ResponseModel,
    r2: ResponseModel,
)
    requires
        r1 == spec_resolve(target, probe),
        r2 == spec_resolve(target, probe),
    ensures
        r1 == r2,
{
}

/// Every failed lookup is answered 404 with a non-empty plain-text
/// body.
pub proof fn lemma_not_found_body_nonempty()
    ensures
        not_found_model().status == 404,
        not_found_model().body matches BodyModel::Text(t) && t.len() > 0,
{
    reveal_strlit("Not Found");
}

} // verus!
