//! How stored pictures are served.

use vstd::prelude::*;

use crate::links;
use crate::pages;
use crate::status::Status;

verus! {

/// A picture, with the headers that it is sent under.
#[derive(Debug)]
pub struct PngResponse {
    pub content_type: &'static str,
    pub cache_control: &'static str,
    pub body: Vec<u8>,
}

/// The body of the answer to a request for a picture, given what its file
/// holds, if it could be read.
pub open spec fn png_answer(read: Option<Seq<u8>>) -> Result<Seq<u8>, Status> {
    match read {
        Some(bytes) => Ok(bytes),
        None => Err(Status::NotFound),
    }
}

/// The answer to a request for the share page of a picture, given whether the
/// picture is stored.
pub open spec fn og_answer(id: Seq<char>, exists: bool) -> Result<Seq<char>, Status> {
    if exists {
        Ok(pages::share_text(links::png_address(id)))
    } else {
        Err(Status::NotFound)
    }
}

/// Answers a request for a picture, given what its file holds, if it could be
/// read. A picture never changes under its address, and may be cached for a
/// year.
pub fn get_png(read: Option<Vec<u8>>) -> (answer: Result<PngResponse, Status>)
    ensures
        match (read, answer) {
            (Some(bytes), Ok(response)) => {
                &&& response.body == bytes
                &&& response.content_type@ == "image/png"@
                &&& response.cache_control@ == "public, max-age=31536000, immutable"@
                &&& png_answer(Some(bytes@)) == Ok::<Seq<u8>, Status>(response.body@)
            },
            (None, Err(status)) => {
                &&& status == Status::NotFound
                &&& png_answer(None) == Err::<Seq<u8>, Status>(status)
            },
            _ => false,
        },
{
    match read {
        Some(body) => Ok(
            PngResponse {
                content_type: "image/png",
                cache_control: "public, max-age=31536000, immutable",
                body,
            },
        ),
        None => Err(Status::NotFound),
    }
}

/// Answers a request for the share page of a picture, given whether the picture
/// is stored.
pub fn og_page(id: &str, exists: bool) -> (answer: Result<String, Status>)
    ensures
        match answer {
            Ok(page) => og_answer(id@, exists) == Ok::<Seq<char>, Status>(page@),
            Err(status) => og_answer(id@, exists) == Err::<Seq<char>, Status>(status),
        },
        match answer {
            Ok(page) => {
                let png_url = "/p/"@ + id@ + "/png"@;
                &&& exists
                &&& page@ == pages::SHARE_HEAD@ + png_url + pages::SHARE_BODY@ + png_url
                    + pages::SHARE_TAIL@
            },
            Err(status) => !exists && status == Status::NotFound,
        },
{
    if !exists {
        return Err(Status::NotFound);
    }
    let png_url = links::png_url(id);
    Ok(pages::share_page(png_url.as_str()))
}

/// A picture is served as it was read, and the share page of a stored picture
/// points, in its metadata and in its image, at the address of the whole
/// identifier that was asked for. What is not stored is not found.
pub proof fn law_answers(id: Seq<char>, bytes: Seq<u8>)
    ensures
        png_answer(Some(bytes)) == Ok::<Seq<u8>, Status>(bytes),
        png_answer(None) == Err::<Seq<u8>, Status>(Status::NotFound),
        og_answer(id, true) == Ok::<Seq<char>, Status>(
            pages::SHARE_HEAD@ + ("/p/"@ + id + "/png"@) + pages::SHARE_BODY@ + ("/p/"@ + id
                + "/png"@) + pages::SHARE_TAIL@,
        ),
        og_answer(id, false) == Err::<Seq<char>, Status>(Status::NotFound),
{
}

} // verus!
