//! Response descriptors: what the server hands the transport layer
//! for each request, and the mathematical model each descriptor is
//! specified against.

use crate::mime::mime_of;
use vstd::prelude::*;
use vstd::string::StringExecFns;

verus! {

/// A response body: raw file bytes, or text the server assembled
/// itself (error messages, directory listings).
#[derive(Debug, PartialEq, Eq)]
pub enum ResponseBody {
    Bytes(Vec<u8>),
    Text(String),
}

/// The mathematical value of a response body.
pub enum BodyModel {
    Bytes(Seq<u8>),
    Text(Seq<char>),
}

impl View for ResponseBody {
    type V = BodyModel;

    open spec fn view(&self) -> BodyModel {
        match self {
            ResponseBody::Bytes(b) => BodyModel::Bytes(b@),
            ResponseBody::Text(t) => BodyModel::Text(t@),
        }
    }
}

/// What the server answers: a status code, an optional `Content-Type`
/// header value, and the body.
#[derive(Debug, PartialEq, Eq)]
pub struct ResponseDescriptor {
    pub status: u16,
    pub content_type: Option<String>,
    pub body: ResponseBody,
}

/// The mathematical value of a response.
pub struct ResponseModel {
    pub status: int,
    pub content_type: Option<Seq<char>>,
    pub body: BodyModel,
}

impl View for ResponseDescriptor {
    type V = ResponseModel;

    open spec fn view(&self) -> ResponseModel {
        ResponseModel {
            status: self.status as int,
            content_type: self.content_type.deep_view(),
            body: self.body@,
        }
    }
}

/// The answer for a path with no corresponding file or directory.
pub open spec fn not_found_model() -> ResponseModel {
    ResponseModel { status: 404, content_type: None, body: BodyModel::Text("Not Found"@) }
}

/// The answer when a directory could not be read for a reason other
/// than absence.
pub open spec fn internal_error_model() -> ResponseModel {
    ResponseModel {
        status: 500,
        content_type: None,
        body: BodyModel::Text("Internal Server Error"@),
    }
}

/// The answer for a regular file at `path` whose contents are `data`:
/// the exact bytes, under the content type the MIME table assigns to
/// `path`.
pub open spec fn ok_file_model(path: Seq<char>, data: Seq<u8>) -> ResponseModel {
    ResponseModel {
        status: 200,
        content_type: Some(mime_of(path)),
        body: BodyModel::Bytes(data),
    }
}

/// One line per directory entry, in the order the entries were
/// enumerated: the entry's name followed by a newline.
pub open spec fn spec_listing(entries: Seq<Seq<char>>) -> Seq<char>
    decreases entries.len(),
{
    if entries.len() == 0 {
        Seq::empty()
    } else {
        entries[0] + seq!['\n'] + spec_listing(entries.skip(1))
    }
}

/// The answer for a directory without an index file: a plain-text
/// listing of its entries.
pub open spec fn listing_model(entries: Seq<Seq<char>>) -> ResponseModel {
    ResponseModel {
        status: 200,
        content_type: Some("text/plain"@),
        body: BodyModel::Text(spec_listing(entries)),
    }
}

/// Appending one entry to the listed sequence appends its line.
pub proof fn lemma_spec_listing_push(entries: Seq<Seq<char>>, e: Seq<char>)
    ensures
        spec_listing(entries.push(e)) == spec_listing(entries) + e + seq!['\n'],
    decreases entries.len(),
{
    if entries.len() == 0 {
        assert(entries.push(e)[0] == e);
        assert(entries.push(e).skip(1) =~= Seq::<Seq<char>>::empty());
        assert(spec_listing(entries.push(e).skip(1)) == Seq::<char>::empty());
        assert(spec_listing(entries.push(e)) == e + seq!['\n'] + Seq::<char>::empty());
        assert(spec_listing(entries) == Seq::<char>::empty());
        assert(e + seq!['\n'] + Seq::<char>::empty() =~= Seq::<char>::empty() + e + seq!['\n']);
    } else {
        assert(entries.push(e)[0] == entries[0]);
        assert(entries.push(e).skip(1) =~= entries.skip(1).push(e));
        lemma_spec_listing_push(entries.skip(1), e);
        assert(spec_listing(entries.push(e)) == entries[0] + seq!['\n'] + (spec_listing(
            entries.skip(1),
        ) + e + seq!['\n']));
        assert(entries[0] + seq!['\n'] + (spec_listing(entries.skip(1)) + e + seq!['\n']) =~= (
        entries[0] + seq!['\n'] + spec_listing(entries.skip(1))) + e + seq!['\n']);
    }
}

/// Builds the listing body: each entry name followed by a newline, in
/// the given order.
pub fn listing_body(entries: &Vec<String>) -> (r: String)
    ensures
        r@ == spec_listing(entries.deep_view()),
{
    let ghost all = entries.deep_view();
    let mut out = String::new();
    let mut k: usize = 0;
    while k < entries.len()
        invariant
            0 <= k <= entries@.len(),
            all == entries.deep_view(),
            out@ == spec_listing(all.take(k as int)),
        decreases entries@.len() - k,
    {
        out.append(entries[k].as_str());
        out.append("\n");
        proof {
            reveal_strlit("\n");
            assert("\n"@ =~= seq!['\n']);
            assert(all[k as int] == entries@[k as int]@);
            lemma_spec_listing_push(all.take(k as int), all[k as int]);
            assert(all.take(k as int).push(all[k as int]) =~= all.take(k + 1 as int));
        }
        k = k + 1;
    }
    proof {
        assert(all.take(entries@.len() as int) =~= all);
    }
    out
}

/// The 404 response: status, no content type, "Not Found".
pub fn not_found_response() -> (r: ResponseDescriptor)
    ensures
        r@ == not_found_model(),
{
    ResponseDescriptor {
        status: 404,
        content_type: None,
        body: ResponseBody::Text(String::from_str("Not Found")),
    }
}

/// The 500 response: status, no content type, "Internal Server Error".
pub fn internal_error_response() -> (r: ResponseDescriptor)
    ensures
        r@ == internal_error_model(),
{
    ResponseDescriptor {
        status: 500,
        content_type: None,
        body: ResponseBody::Text(String::from_str("Internal Server Error")),
    }
}

/// The response for reading the file at `path`: its bytes under the
/// path's MIME type when the read succeeded, 404 otherwise.
pub fn file_response(path: &str, read: Option<Vec<u8>>) -> (r: ResponseDescriptor)
    ensures
        read matches Some(d) ==> r@ == ok_file_model(path@, d@),
        read is None ==> r@ == not_found_model(),
{
    match read {
        Some(data) => {
            let ct = crate::mime::guess_mime(path);
            ResponseDescriptor {
                status: 200,
                content_type: Some(ct),
                body: ResponseBody::Bytes(data),
            }
        },
        None => not_found_response(),
    }
}

/// The response for a directory without an index file: a plain-text
/// listing of the given entry names.
pub fn listing_response(entries: &Vec<String>) -> (r: ResponseDescriptor)
    ensures
        r@ == listing_model(entries.deep_view()),
{
    ResponseDescriptor {
        status: 200,
        content_type: Some(String::from_str("text/plain")),
        body: ResponseBody::Text(listing_body(entries)),
    }
}

} // verus!
