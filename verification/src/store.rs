//! What the service promises across requests, stated over the files that it
//! keeps. Requests are taken one after another here, and nothing else writes to
//! the files.
//!
//! A file is told by its directory and its name there. That is so for names
//! without a slash, such as those made of the identifiers of uploads. An
//! identifier in a request may hold a slash, and then lead by another way to a
//! file that has a name of its own, or out of the store: which file that is, and
//! so what becomes of it, is left out here.

use vstd::prelude::*;

use crate::frame::Frame;
use crate::ident;
use crate::links;
use crate::links::{Directory, FileKey};
use crate::pages;
use crate::serve;
use crate::status::Status;
use crate::upload;
use crate::upload::{Outcome, UploadState};

verus! {

/// The files of the service and what they hold.
pub type Store = Map<FileKey, Seq<u8>>;

/// What came of writing a file. A write that fails may leave the file as it
/// was, absent, or with any part of the contents.
pub enum WriteResult {
    Written,
    Failed { left: Option<Seq<u8>> },
}

/// What an upload meets with: what a file compiles to, what a frame renders to,
/// and what comes of writing the file and the picture.
pub struct Surroundings {
    pub frame: spec_fn(Seq<u8>) -> Option<Frame>,
    pub png: spec_fn(Frame) -> Option<Seq<u8>>,
    pub nodes_write: WriteResult,
    pub png_write: WriteResult,
}

/// The store after a write.
pub open spec fn after_write(
    store: Store,
    key: FileKey,
    contents: Seq<u8>,
    result: WriteResult,
) -> Store {
    match result {
        WriteResult::Written => store.insert(key, contents),
        WriteResult::Failed { left: Some(rest) } => store.insert(key, rest),
        WriteResult::Failed { left: None } => store.remove(key),
    }
}

/// What a file of the store holds, if it is there.
pub open spec fn read(store: Store, key: FileKey) -> Option<Seq<u8>> {
    if store.contains_key(key) {
        Some(store[key])
    } else {
        None
    }
}

/// What comes of what a state waits for.
pub open spec fn outcome(store: Store, state: UploadState, around: Surroundings) -> Outcome {
    match state {
        UploadState::CheckPng { file } => Outcome::PngChecked(
            store.contains_key(links::png_key(ident::id_of(file))),
        ),
        UploadState::Compile { file } => Outcome::Compiled((around.frame)(file)),
        UploadState::Render { file, frame } => Outcome::Rendered((around.png)(frame)),
        UploadState::WriteNodes { .. } => Outcome::NodesWritten(around.nodes_write is Written),
        UploadState::WritePng { .. } => Outcome::PngWritten(around.png_write is Written),
        UploadState::Done { .. } => Outcome::PngChecked(true),
    }
}

/// The store once what a state waits for has been done.
pub open spec fn store_after(store: Store, state: UploadState, around: Surroundings) -> Store {
    match upload::write_of(state) {
        Some((key, contents)) => after_write(
            store,
            key,
            contents,
            if state is WriteNodes {
                around.nodes_write
            } else {
                around.png_write
            },
        ),
        None => store,
    }
}

/// How many steps a state is away from the answer, at most.
pub open spec fn steps_left(state: UploadState) -> nat {
    match state {
        UploadState::CheckPng { .. } => 5,
        UploadState::Compile { .. } => 4,
        UploadState::Render { .. } => 3,
        UploadState::WriteNodes { .. } => 2,
        UploadState::WritePng { .. } => 1,
        UploadState::Done { .. } => 0,
    }
}

/// Does what the state waits for and goes on with what came of it, until there
/// is an answer; gives the store then, and the answer.
pub open spec fn run(store: Store, state: UploadState, around: Surroundings) -> (
    Store,
    Result<Seq<char>, Status>,
)
    decreases steps_left(state),
{
    match state {
        UploadState::Done { answer } => (store, answer),
        _ => run(
            store_after(store, state, around),
            upload::next(state, outcome(store, state, around)),
            around,
        ),
    }
}

/// An upload of a file: the store after it, and the answer.
pub open spec fn upload_to(store: Store, file: Seq<u8>, around: Surroundings) -> (
    Store,
    Result<Seq<char>, Status>,
) {
    run(store, upload::first(file), around)
}

/// A request for the picture with this identifier.
pub open spec fn get_png_from(store: Store, id: Seq<char>) -> Result<Seq<u8>, Status> {
    serve::png_answer(read(store, links::png_key(id)))
}

/// A request for the share page of the picture with this identifier.
pub open spec fn og_page_from(store: Store, id: Seq<char>) -> Result<Seq<char>, Status> {
    serve::og_answer(id, store.contains_key(links::png_key(id)))
}

/// The states of an upload follow one another: as long as there is no answer,
/// what comes of what the state waits for is what it awaits, and the next state
/// is closer to an answer.
pub proof fn law_upload_goes_on_to_an_answer(
    store: Store,
    state: UploadState,
    around: Surroundings,
)
    requires
        !(state is Done),
    ensures
        upload::awaits(state, outcome(store, state, around)),
        steps_left(upload::next(state, outcome(store, state, around))) < steps_left(state),
{
}

/// The answer to an upload, and the store after it, told in one piece.
pub proof fn law_upload_answer(store: Store, file: Seq<u8>, around: Surroundings)
    ensures
        ({
            let id = ident::hex_lower(ident::sha256(file));
            let nodes_key = FileKey { directory: Directory::Nodes, name: id + ".nodes"@ };
            let png_key = FileKey { directory: Directory::Png, name: id + ".png"@ };
            let frame = (around.frame)(file);
            let png = (around.png)(frame->0);
            let (after, answer) = upload_to(store, file, around);
            let with_nodes = after_write(store, nodes_key, file, around.nodes_write);
            if file.len() == 0 {
                answer == Err::<Seq<char>, Status>(Status::BadRequest) && after == store
            } else if file.len() > 5 * 1024 * 1024 {
                answer == Err::<Seq<char>, Status>(Status::PayloadTooLarge) && after == store
            } else if store.contains_key(png_key) {
                answer == Ok::<Seq<char>, Status>(upload::completion_of(file)) && after == store
            } else if frame is None {
                answer == Err::<Seq<char>, Status>(Status::BadRequest) && after == store
            } else if png is None {
                answer == Err::<Seq<char>, Status>(Status::InternalServerError) && after == store
            } else if !(around.nodes_write is Written) {
                answer == Err::<Seq<char>, Status>(Status::InternalServerError) && after
                    == with_nodes
            } else {
                &&& after == after_write(with_nodes, png_key, png->0, around.png_write)
                &&& answer == if around.png_write is Written {
                    Ok::<Seq<char>, Status>(upload::completion_of(file))
                } else {
                    Err(Status::InternalServerError)
                }
            }
        }),
{
    reveal_with_fuel(run, 6);
}

/// The first upload of a file stores, under the digest of all that it holds, the
/// picture that its own frame renders to, and the file itself; and a request for
/// the picture gives just that picture.
pub proof fn law_first_upload_stores_what_it_rendered(
    store: Store,
    file: Seq<u8>,
    around: Surroundings,
)
    requires
        upload_to(store, file, around).1 is Ok,
        !store.contains_key(
            FileKey {
                directory: Directory::Png,
                name: ident::hex_lower(ident::sha256(file)) + ".png"@,
            },
        ),
    ensures
        ({
            let id = ident::hex_lower(ident::sha256(file));
            let nodes_key = FileKey { directory: Directory::Nodes, name: id + ".nodes"@ };
            let png_key = FileKey { directory: Directory::Png, name: id + ".png"@ };
            let frame = (around.frame)(file);
            let png = (around.png)(frame->0);
            let after = upload_to(store, file, around).0;
            &&& frame is Some && png is Some
            &&& after.contains_key(png_key) && after[png_key] == png->0
            &&& after.contains_key(nodes_key) && after[nodes_key] == file
            &&& get_png_from(after, id) == Ok::<Seq<u8>, Status>(png->0)
        }),
{
    law_upload_answer(store, file, around);
}

/// Two files with different digests keep apart: after both were uploaded for the
/// first time, each identifier gives the picture of its own file.
pub proof fn law_two_uploads_keep_apart(
    store: Store,
    a: Seq<u8>,
    b: Seq<u8>,
    around_a: Surroundings,
    around_b: Surroundings,
)
    requires
        ident::sha256(a) != ident::sha256(b),
        get_png_from(store, ident::hex_lower(ident::sha256(a))) is Err,
        get_png_from(store, ident::hex_lower(ident::sha256(b))) is Err,
        upload_to(store, a, around_a).1 is Ok,
        upload_to(upload_to(store, a, around_a).0, b, around_b).1 is Ok,
    ensures
        ({
            let after = upload_to(upload_to(store, a, around_a).0, b, around_b).0;
            let png_a = (around_a.png)((around_a.frame)(a)->0);
            let png_b = (around_b.png)((around_b.frame)(b)->0);
            &&& get_png_from(after, ident::hex_lower(ident::sha256(a))) == Ok::<Seq<u8>, Status>(
                png_a->0,
            )
            &&& get_png_from(after, ident::hex_lower(ident::sha256(b))) == Ok::<Seq<u8>, Status>(
                png_b->0,
            )
        }),
{
    let between = upload_to(store, a, around_a).0;
    ident::law_identifiers_tell_digests_apart(a, b);
    ident::law_identifiers_tell_digests_apart(b, a);
    links::law_names_are_distinct(ident::id_of(a), ident::id_of(b));
    links::law_names_are_distinct(ident::id_of(b), ident::id_of(a));
    law_upload_answer(store, a, around_a);
    law_upload_answer(between, b, around_b);
}

/// A request for a picture gives what the file named after the whole identifier
/// holds, and where there is no such file, is not found.
pub proof fn law_picture_request(store: Store, id: Seq<char>)
    ensures
        ({
            let png_key = FileKey { directory: Directory::Png, name: id + ".png"@ };
            get_png_from(store, id) == if store.contains_key(png_key) {
                Ok::<Seq<u8>, Status>(store[png_key])
            } else {
                Err(Status::NotFound)
            }
        }),
{
}

/// The share page of a stored picture points, in its metadata and in its image,
/// at the address that fills the route of the pictures with the identifier that
/// was asked for, so what it points at is what a request for the picture with
/// that identifier gives.
pub proof fn law_share_page_points_at_the_picture(store: Store, id: Seq<char>)
    requires
        og_page_from(store, id) is Ok,
    ensures
        ({
            let png_url = "/p/"@ + id + "/png"@;
            let png_key = FileKey { directory: Directory::Png, name: id + ".png"@ };
            &&& og_page_from(store, id) == Ok::<Seq<char>, Status>(
                pages::SHARE_HEAD@ + png_url + pages::SHARE_BODY@ + png_url + pages::SHARE_TAIL@,
            )
            &&& links::PNG_ROUTE@ == "/p/"@ + ":id"@ + "/png"@
            &&& get_png_from(store, id) == Ok::<Seq<u8>, Status>(store[png_key])
        }),
{
    reveal_strlit("/p/:id/png");
    reveal_strlit("/p/");
    reveal_strlit(":id");
    reveal_strlit("/png");
    assert(links::PNG_ROUTE@ =~= "/p/"@ + ":id"@ + "/png"@);
}

/// What an upload is answered with can be had: after an upload that is answered
/// with a page, a request for the picture under the identifier of the file gives
/// the picture that was stored, or else the one that was rendered, and the
/// share page is there.
pub proof fn law_upload_can_be_read_back(store: Store, file: Seq<u8>, around: Surroundings)
    requires
        upload_to(store, file, around).1 is Ok,
    ensures
        upload_to(store, file, around).1 == Ok::<Seq<char>, Status>(upload::completion_of(file)),
        get_png_from(upload_to(store, file, around).0, ident::id_of(file)) == match read(
            store,
            links::png_key(ident::id_of(file)),
        ) {
            Some(stored) => Ok::<Seq<u8>, Status>(stored),
            None => Ok((around.png)((around.frame)(file)->0)->0),
        },
        og_page_from(upload_to(store, file, around).0, ident::id_of(file)) is Ok,
{
    law_upload_answer(store, file, around);
}

/// After an upload that stored its picture, the file itself is stored too, byte
/// for byte.
pub proof fn law_upload_keeps_the_file(store: Store, file: Seq<u8>, around: Surroundings)
    requires
        upload_to(store, file, around).1 is Ok,
        !store.contains_key(links::png_key(ident::id_of(file))),
    ensures
        read(upload_to(store, file, around).0, links::nodes_key(ident::id_of(file))) == Some(file),
{
    law_upload_answer(store, file, around);
}

/// An upload of the same file again is answered with the same page, whatever it
/// would meet with, and changes nothing: nothing is rendered or written.
pub proof fn law_upload_again_changes_nothing(
    store: Store,
    file: Seq<u8>,
    around: Surroundings,
    around_again: Surroundings,
)
    requires
        upload_to(store, file, around).1 is Ok,
    ensures
        upload_to(upload_to(store, file, around).0, file, around_again) == upload_to(
            store,
            file,
            around,
        ),
{
    law_upload_answer(store, file, around);
    law_upload_answer(upload_to(store, file, around).0, file, around_again);
}

/// An upload that is refused for what was sent changes nothing.
pub proof fn law_refusal_changes_nothing(store: Store, file: Seq<u8>, around: Surroundings)
    requires
        upload_to(store, file, around).1 matches Err(status) && (status == Status::BadRequest
            || status == Status::PayloadTooLarge),
    ensures
        upload_to(store, file, around).0 == store,
{
    law_upload_answer(store, file, around);
}

/// An upload is never answered with `NotFound`.
pub proof fn law_upload_is_never_not_found(store: Store, file: Seq<u8>, around: Surroundings)
    ensures
        upload_to(store, file, around).1 != Err::<Seq<char>, Status>(Status::NotFound),
{
    law_upload_answer(store, file, around);
}

/// An upload touches no file but its own two, so no upload changes what is
/// served under another identifier without a slash.
pub proof fn law_upload_touches_only_its_own(
    store: Store,
    file: Seq<u8>,
    around: Surroundings,
    id: Seq<char>,
    key: FileKey,
)
    ensures
        !key.name.contains('/') && key != links::nodes_key(ident::id_of(file)) && key
            != links::png_key(ident::id_of(file)) ==> read(upload_to(store, file, around).0, key)
            == read(store, key),
        !id.contains('/') && id != ident::id_of(file) ==> get_png_from(
            upload_to(store, file, around).0,
            id,
        ) == get_png_from(store, id) && og_page_from(upload_to(store, file, around).0, id)
            == og_page_from(store, id),
{
    law_upload_answer(store, file, around);
    links::law_names_are_distinct(id, ident::id_of(file));
    links::law_names_are_distinct(ident::id_of(file), id);
}

/// A stored picture stays as it is, whatever is uploaded.
pub proof fn law_stored_picture_never_changes(
    store: Store,
    file: Seq<u8>,
    around: Surroundings,
    id: Seq<char>,
)
    requires
        !id.contains('/'),
        store.contains_key(links::png_key(id)),
    ensures
        read(upload_to(store, file, around).0, links::png_key(id)) == read(
            store,
            links::png_key(id),
        ),
{
    law_upload_answer(store, file, around);
    links::law_names_are_distinct(id, ident::id_of(file));
    links::law_names_are_distinct(ident::id_of(file), id);
}

/// Whether each stored picture has a file stored beside it that the picture is
/// named after: one whose contents have the identifier of the picture.
pub open spec fn pictures_have_files(store: Store) -> bool {
    forall|id: Seq<char>|
        !id.contains('/') && #[trigger] store.contains_key(links::png_key(id)) ==> {
            &&& store.contains_key(links::nodes_key(id))
            &&& ident::id_of(store[links::nodes_key(id)]) == id
        }
}

/// Every upload, also one that fails half way, leaves a store in which each
/// picture has beside it the file that it is named after, if it was one before.
pub proof fn law_pictures_keep_their_files(store: Store, file: Seq<u8>, around: Surroundings)
    requires
        pictures_have_files(store),
    ensures
        pictures_have_files(upload_to(store, file, around).0),
{
    let after = upload_to(store, file, around).0;
    let own = ident::id_of(file);
    law_upload_answer(store, file, around);
    assert forall|id: Seq<char>|
        !id.contains('/') && #[trigger] after.contains_key(links::png_key(id)) implies {
        &&& after.contains_key(links::nodes_key(id))
        &&& ident::id_of(after[links::nodes_key(id)]) == id
    } by {
        links::law_names_are_distinct(id, own);
        links::law_names_are_distinct(own, id);
        if id != own {
            assert(store.contains_key(links::png_key(id)));
        }
    }
}

/// The share page of a picture is there exactly when the picture is. Both
/// requests look for the same file, so this is so for every identifier.
pub proof fn law_share_page_goes_with_picture(store: Store, id: Seq<char>)
    ensures
        og_page_from(store, id) is Ok <==> get_png_from(store, id) is Ok,
        og_page_from(store, id) matches Err(status) ==> status == Status::NotFound,
        get_png_from(store, id) matches Err(status) ==> status == Status::NotFound,
{
}

} // verus!
