//! How an upload is handled: a state machine that says what to do next, and
//! takes in what came of it.

use vstd::prelude::*;

use crate::frame::Frame;
use crate::ident;
use crate::links;
use crate::links::{Directory, FileKey, StoredFile, UploadResponse};
use crate::pages;
use crate::status::Status;

verus! {

/// The size of the largest file that is accepted, in bytes.
pub const MAX_SIZE: usize = 5 * 1024 * 1024;

/// The page that answers a finished upload of a file with these contents.
pub open spec fn completion_of(file: Seq<u8>) -> Seq<char> {
    let id = ident::id_of(file);
    pages::completion_text(links::png_address(id), links::og_address(id))
}

/// An accepted file, with its identifier.
#[derive(Debug)]
pub struct Submission {
    id: String,
    file: Vec<u8>,
}

impl Submission {
    #[verifier::type_invariant]
    closed spec fn id_matches(self) -> bool {
        self.id@ == ident::id_of(self.file@)
    }

    /// What the file holds.
    pub closed spec fn contents(self) -> Seq<u8> {
        self.file@
    }

    /// The identifier of the file.
    pub fn id(&self) -> (id: &str)
        ensures
            id@ == ident::id_of(self.contents()),
            id@ == ident::hex_lower(ident::sha256(self.contents())),
    {
        proof {
            use_type_invariant(self);
        }
        self.id.as_str()
    }

    /// What the file holds.
    pub fn file(&self) -> (file: &[u8])
        ensures
            file@ == self.contents(),
    {
        self.file.as_slice()
    }

    /// Where the file is to be kept.
    pub fn nodes_file(&self) -> (stored: StoredFile)
        ensures
            stored@ == links::nodes_key(ident::id_of(self.contents())),
            stored.directory == Directory::Nodes,
            stored.name@ == ident::hex_lower(ident::sha256(self.contents())) + ".nodes"@,
    {
        links::nodes_file(self.id())
    }

    /// Where the picture of the file is to be kept.
    pub fn png_file(&self) -> (stored: StoredFile)
        ensures
            stored@ == links::png_key(ident::id_of(self.contents())),
            stored.directory == Directory::Png,
            stored.name@ == ident::hex_lower(ident::sha256(self.contents())) + ".png"@,
    {
        links::png_file(self.id())
    }

    fn completion_page(&self) -> (page: String)
        ensures
            page@ == completion_of(self.contents()),
    {
        let response = UploadResponse::new(self.id());
        pages::completion_page(response.png_url.as_str(), response.og_url.as_str())
    }
}

/// What an upload waits for.
#[derive(Debug)]
pub enum UploadStep {
    /// Find out whether the picture of the file is stored.
    CheckPng(Submission),
    /// Read the file as a stick figure and compile it.
    Compile(Submission),
    /// Render the compiled frame to a PNG.
    Render(Submission, Frame),
    /// Store the file. The PNG is at hand.
    WriteNodes(Submission, Vec<u8>),
    /// Store the PNG.
    WritePng(Submission, Vec<u8>),
    /// Answer the request, with a page or with a refusal.
    Done(Result<String, Status>),
}

/// What came of what an upload waited for.
#[derive(Debug)]
pub enum UploadEvent {
    /// Whether the picture is stored.
    PngChecked(bool),
    /// The frame, unless the file is not a stick figure.
    Compiled(Option<Frame>),
    /// The PNG, unless rendering failed.
    Rendered(Option<Vec<u8>>),
    /// Whether the file was stored.
    NodesWritten(bool),
    /// Whether the PNG was stored.
    PngWritten(bool),
}

/// An `UploadStep`, as a value.
pub enum UploadState {
    CheckPng { file: Seq<u8> },
    Compile { file: Seq<u8> },
    Render { file: Seq<u8>, frame: Frame },
    WriteNodes { file: Seq<u8>, png: Seq<u8> },
    WritePng { file: Seq<u8>, png: Seq<u8> },
    Done { answer: Result<Seq<char>, Status> },
}

/// An `UploadEvent`, as a value.
pub enum Outcome {
    PngChecked(bool),
    Compiled(Option<Frame>),
    Rendered(Option<Seq<u8>>),
    NodesWritten(bool),
    PngWritten(bool),
}

impl View for UploadStep {
    type V = UploadState;

    open spec fn view(&self) -> UploadState {
        match *self {
            UploadStep::CheckPng(s) => UploadState::CheckPng { file: s.contents() },
            UploadStep::Compile(s) => UploadState::Compile { file: s.contents() },
            UploadStep::Render(s, frame) => UploadState::Render { file: s.contents(), frame },
            UploadStep::WriteNodes(s, png) => UploadState::WriteNodes {
                file: s.contents(),
                png: png@,
            },
            UploadStep::WritePng(s, png) => UploadState::WritePng {
                file: s.contents(),
                png: png@,
            },
            UploadStep::Done(Ok(page)) => UploadState::Done { answer: Ok(page@) },
            UploadStep::Done(Err(status)) => UploadState::Done { answer: Err(status) },
        }
    }
}

impl View for UploadEvent {
    type V = Outcome;

    open spec fn view(&self) -> Outcome {
        match *self {
            UploadEvent::PngChecked(exists) => Outcome::PngChecked(exists),
            UploadEvent::Compiled(frame) => Outcome::Compiled(frame),
            UploadEvent::Rendered(Some(png)) => Outcome::Rendered(Some(png@)),
            UploadEvent::Rendered(None) => Outcome::Rendered(None),
            UploadEvent::NodesWritten(written) => Outcome::NodesWritten(written),
            UploadEvent::PngWritten(written) => Outcome::PngWritten(written),
        }
    }
}

/// The first state of an upload of a file with these contents. An upload
/// without a file is one of an empty file.
pub open spec fn first(file: Seq<u8>) -> UploadState {
    if file.len() == 0 {
        UploadState::Done { answer: Err(Status::BadRequest) }
    } else if file.len() > MAX_SIZE {
        UploadState::Done { answer: Err(Status::PayloadTooLarge) }
    } else {
        UploadState::CheckPng { file }
    }
}

/// Whether the outcome is of what the state waits for.
pub open spec fn awaits(state: UploadState, outcome: Outcome) -> bool {
    match state {
        UploadState::CheckPng { .. } => outcome is PngChecked,
        UploadState::Compile { .. } => outcome is Compiled,
        UploadState::Render { .. } => outcome is Rendered,
        UploadState::WriteNodes { .. } => outcome is NodesWritten,
        UploadState::WritePng { .. } => outcome is PngWritten,
        UploadState::Done { .. } => false,
    }
}

/// The state after an outcome. A picture that is stored is not rendered again.
/// The file is stored before its picture is, and neither before there is a
/// picture. An answer stays as it is. What went wrong, or was not waited for, is
/// answered with `InternalServerError`.
pub open spec fn next(state: UploadState, outcome: Outcome) -> UploadState {
    match (state, outcome) {
        (UploadState::Done { answer }, _) => UploadState::Done { answer },
        (UploadState::CheckPng { file }, Outcome::PngChecked(true)) => UploadState::Done {
            answer: Ok(completion_of(file)),
        },
        (UploadState::CheckPng { file }, Outcome::PngChecked(false)) => UploadState::Compile {
            file,
        },
        (UploadState::Compile { file }, Outcome::Compiled(Some(frame))) => UploadState::Render {
            file,
            frame,
        },
        (UploadState::Compile { file }, Outcome::Compiled(None)) => UploadState::Done {
            answer: Err(Status::BadRequest),
        },
        (
            UploadState::Render { file, frame },
            Outcome::Rendered(Some(png)),
        ) => UploadState::WriteNodes { file, png },
        (UploadState::WriteNodes { file, png }, Outcome::NodesWritten(true)) => {
            UploadState::WritePng { file, png }
        },
        (UploadState::WritePng { file, png }, Outcome::PngWritten(true)) => UploadState::Done {
            answer: Ok(completion_of(file)),
        },
        _ => UploadState::Done { answer: Err(Status::InternalServerError) },
    }
}

/// What a state waits to be stored: where, and the contents.
pub open spec fn write_of(state: UploadState) -> Option<(FileKey, Seq<u8>)> {
    match state {
        UploadState::WriteNodes { file, png } => Some(
            (links::nodes_key(ident::id_of(file)), file),
        ),
        UploadState::WritePng { file, png } => Some((links::png_key(ident::id_of(file)), png)),
        _ => None,
    }
}

/// Starts an upload of a file. Where the form carried no file, the file is
/// empty.
pub fn upload_nodes(file: Vec<u8>) -> (step: UploadStep)
    ensures
        step@ == first(file@),
        file@.len() == 0 ==> step == UploadStep::Done(Err(Status::BadRequest)),
        file@.len() > 5 * 1024 * 1024 ==> step == UploadStep::Done(Err(Status::PayloadTooLarge)),
        0 < file@.len() <= 5 * 1024 * 1024 ==> (step matches UploadStep::CheckPng(submission)
            && submission.contents() == file@),
{
    if file.is_empty() {
        return UploadStep::Done(Err(Status::BadRequest));
    }
    if file.len() > MAX_SIZE {
        return UploadStep::Done(Err(Status::PayloadTooLarge));
    }
    let id = ident::file_id(file.as_slice());
    UploadStep::CheckPng(Submission { id, file })
}

impl UploadStep {
    /// Takes in what came of what the upload waited for. An answer stays as it
    /// is; an event of something else that the upload did not wait for ends it
    /// with `InternalServerError`.
    pub fn advance(self, event: UploadEvent) -> (step: UploadStep)
        ensures
            step@ == next(self@, event@),
            match (self, event) {
                (UploadStep::Done(answer), _) => step == UploadStep::Done(answer),
                (UploadStep::CheckPng(submission), UploadEvent::PngChecked(true)) => {
                    &&& step matches UploadStep::Done(Ok(page))
                    &&& page@ == completion_of(submission.contents())
                },
                (UploadStep::CheckPng(submission), UploadEvent::PngChecked(false)) => step
                    == UploadStep::Compile(submission),
                (UploadStep::Compile(submission), UploadEvent::Compiled(Some(frame))) => step
                    == UploadStep::Render(submission, frame),
                (UploadStep::Compile(_), UploadEvent::Compiled(None)) => step
                    == UploadStep::Done(Err(Status::BadRequest)),
                (UploadStep::Render(submission, _), UploadEvent::Rendered(Some(png))) => step
                    == UploadStep::WriteNodes(submission, png),
                (UploadStep::WriteNodes(submission, png), UploadEvent::NodesWritten(true)) => step
                    == UploadStep::WritePng(submission, png),
                (UploadStep::WritePng(submission, _), UploadEvent::PngWritten(true)) => {
                    &&& step matches UploadStep::Done(Ok(page))
                    &&& page@ == completion_of(submission.contents())
                },
                _ => step == UploadStep::Done(Err(Status::InternalServerError)),
            },
    {
        match (self, event) {
            (UploadStep::Done(answer), _) => UploadStep::Done(answer),
            (UploadStep::CheckPng(submission), UploadEvent::PngChecked(exists)) => {
                if exists {
                    UploadStep::Done(Ok(submission.completion_page()))
                } else {
                    UploadStep::Compile(submission)
                }
            },
            (UploadStep::Compile(submission), UploadEvent::Compiled(Some(frame))) => {
                UploadStep::Render(submission, frame)
            },
            (UploadStep::Compile(_), UploadEvent::Compiled(None)) => {
                UploadStep::Done(Err(Status::BadRequest))
            },
            (UploadStep::Render(submission, _), UploadEvent::Rendered(Some(png))) => {
                UploadStep::WriteNodes(submission, png)
            },
            (UploadStep::WriteNodes(submission, png), UploadEvent::NodesWritten(true)) => {
                UploadStep::WritePng(submission, png)
            },
            (UploadStep::WritePng(submission, _), UploadEvent::PngWritten(true)) => {
                UploadStep::Done(Ok(submission.completion_page()))
            },
            _ => UploadStep::Done(Err(Status::InternalServerError)),
        }
    }

    /// What the upload waits to be stored, if it waits for that: where, and the
    /// contents.
    pub fn pending_write(&self) -> (write: Option<(StoredFile, &[u8])>)
        ensures
            match write {
                Some((stored, contents)) => write_of(self@) == Some((stored@, contents@)),
                None => write_of(self@) is None,
            },
            match *self {
                UploadStep::WriteNodes(submission, _) => {
                    &&& write matches Some((stored, contents))
                    &&& stored.directory == Directory::Nodes
                    &&& stored.name@ == ident::hex_lower(ident::sha256(submission.contents()))
                        + ".nodes"@
                    &&& contents@ == submission.contents()
                },
                UploadStep::WritePng(submission, png) => {
                    &&& write matches Some((stored, contents))
                    &&& stored.directory == Directory::Png
                    &&& stored.name@ == ident::hex_lower(ident::sha256(submission.contents()))
                        + ".png"@
                    &&& contents@ == png@
                },
                _ => write is None,
            },
    {
        match self {
            UploadStep::WriteNodes(submission, _) => Some(
                (submission.nodes_file(), submission.file()),
            ),
            UploadStep::WritePng(submission, png) => Some((submission.png_file(), png.as_slice())),
            _ => None,
        }
    }
}

/// A file is accepted exactly if it is not empty and has at most five mebibytes,
/// and is then carried on whole.
pub proof fn law_accepted_sizes(file: Seq<u8>)
    ensures
        file.len() == 0 ==> first(file) == (UploadState::Done { answer: Err(Status::BadRequest) }),
        file.len() > 5 * 1024 * 1024 ==> first(file) == (UploadState::Done {
            answer: Err(Status::PayloadTooLarge),
        }),
        0 < file.len() <= 5 * 1024 * 1024 ==> first(file) == (UploadState::CheckPng { file }),
{
}

/// What was uploaded is what is compiled and stored, what was compiled is what is
/// rendered, with its vertices, indices and bounds, and what was rendered is what
/// is stored: each step hands on what it got, whole.
pub proof fn law_upload_hands_on_what_it_got(file: Seq<u8>, frame: Frame, png: Seq<u8>)
    ensures
        next(UploadState::CheckPng { file }, Outcome::PngChecked(false)) == (UploadState::Compile {
            file,
        }),
        next(UploadState::Compile { file }, Outcome::Compiled(Some(frame))) == (
        UploadState::Render { file, frame }),
        next(UploadState::Render { file, frame }, Outcome::Rendered(Some(png))) == (
        UploadState::WriteNodes { file, png }),
        next(UploadState::WriteNodes { file, png }, Outcome::NodesWritten(true)) == (
        UploadState::WritePng { file, png }),
        write_of(UploadState::WriteNodes { file, png }) == Some(
            (
                FileKey {
                    directory: Directory::Nodes,
                    name: ident::hex_lower(ident::sha256(file)) + ".nodes"@,
                },
                file,
            ),
        ),
        write_of(UploadState::WritePng { file, png }) == Some(
            (
                FileKey {
                    directory: Directory::Png,
                    name: ident::hex_lower(ident::sha256(file)) + ".png"@,
                },
                png,
            ),
        ),
{
}

/// A file that is no stick figure is a bad request; rendering or storing that
/// fails is an error of the server; and before there is a picture nothing is
/// stored.
pub proof fn law_upload_failures(file: Seq<u8>, frame: Frame, png: Seq<u8>)
    ensures
        next(UploadState::Compile { file }, Outcome::Compiled(None)) == (UploadState::Done {
            answer: Err(Status::BadRequest),
        }),
        next(UploadState::Render { file, frame }, Outcome::Rendered(None)) == (UploadState::Done {
            answer: Err(Status::InternalServerError),
        }),
        next(UploadState::WriteNodes { file, png }, Outcome::NodesWritten(false)) == (
        UploadState::Done { answer: Err(Status::InternalServerError) }),
        next(UploadState::WritePng { file, png }, Outcome::PngWritten(false)) == (
        UploadState::Done { answer: Err(Status::InternalServerError) }),
        write_of(UploadState::CheckPng { file }) is None,
        write_of(UploadState::Compile { file }) is None,
        write_of(UploadState::Render { file, frame }) is None,
{
}

/// A finished upload, and one whose picture is stored already, are answered with
/// the page for the addresses made of the whole digest of all of the file, in
/// hexadecimal.
pub proof fn law_answer_gives_the_addresses_of_the_digest(file: Seq<u8>, png: Seq<u8>)
    ensures
        ({
            let og_url = "/p/"@ + ident::hex_lower(ident::sha256(file));
            let png_url = og_url + "/png"@;
            let page = pages::COMPLETE_HEAD@ + png_url + pages::COMPLETE_PNG_BOX@ + png_url
                + pages::COPY_BUTTON@ + png_url + pages::COMPLETE_SHARE_BOX@ + og_url
                + pages::COPY_BUTTON@ + og_url + pages::COMPLETE_TAIL@;
            &&& completion_of(file) == page
            &&& next(UploadState::CheckPng { file }, Outcome::PngChecked(true)) == (
            UploadState::Done { answer: Ok(page) })
            &&& next(UploadState::WritePng { file, png }, Outcome::PngWritten(true)) == (
            UploadState::Done { answer: Ok(page) })
        }),
{
}

} // verus!
