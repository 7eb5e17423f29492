use std::collections::HashMap;

use render_service::frame::{Bounds, Frame};
use render_service::ident::file_id;
use render_service::pages::completion_page;
use render_service::serve::{get_png, og_page};
use render_service::status::Status;
use render_service::upload::{upload_nodes, UploadEvent, UploadStep, MAX_SIZE};

fn frame() -> Frame {
    Frame {
        vertices: vec![],
        indices: vec![7],
        bounds: Bounds {
            min: [1, 2],
            max: [3, 4],
        },
    }
}

fn page_for(file: &[u8]) -> String {
    let id = file_id(file);
    completion_page(&format!("/p/{id}/png"), &format!("/p/{id}"))
}

/// Stores in memory, and what an upload meets with there.
struct Server {
    files: HashMap<String, Vec<u8>>,
    compiles: bool,
    renders: bool,
    writes: Vec<&'static str>,
    log: Vec<&'static str>,
}

impl Server {
    fn new() -> Server {
        Server {
            files: HashMap::new(),
            compiles: true,
            renders: true,
            writes: vec!["nodes", "png"],
            log: vec![],
        }
    }

    fn write(&mut self, step: &UploadStep) -> bool {
        let (file, contents) = step.pending_write().unwrap();
        let directory = file.directory.name();
        self.log.push(directory);
        if !self.writes.contains(&directory) {
            return false;
        }
        self.files.insert(format!("{directory}/{}", file.name), contents.to_vec());
        true
    }

    fn upload(&mut self, file: &[u8]) -> Result<String, Status> {
        let mut step = upload_nodes(file.to_vec());
        loop {
            let event = match &step {
                UploadStep::CheckPng(submission) => {
                    assert!(step.pending_write().is_none());
                    assert_eq!(submission.id(), file_id(file));
                    let png = submission.png_file();
                    UploadEvent::PngChecked(self.files.contains_key(&format!("png/{}", png.name)))
                }
                UploadStep::Compile(submission) => {
                    assert_eq!(submission.file(), file);
                    self.log.push("compile");
                    UploadEvent::Compiled(if self.compiles { Some(frame()) } else { None })
                }
                UploadStep::Render(_, compiled) => {
                    assert_eq!(*compiled, frame());
                    self.log.push("render");
                    UploadEvent::Rendered(if self.renders { Some(vec![9, 9]) } else { None })
                }
                UploadStep::WriteNodes(..) => UploadEvent::NodesWritten(self.write(&step)),
                UploadStep::WritePng(..) => UploadEvent::PngWritten(self.write(&step)),
                UploadStep::Done(_) => break,
            };
            step = step.advance(event);
        }
        match step {
            UploadStep::Done(answer) => answer,
            other => panic!("{other:?}"),
        }
    }
}

#[test]
fn an_empty_upload_is_a_bad_request() {
    let mut server = Server::new();
    assert_eq!(server.upload(&[]), Err(Status::BadRequest));
    assert!(server.log.is_empty() && server.files.is_empty());
}

#[test]
fn a_large_upload_is_too_large() {
    assert_eq!(MAX_SIZE, 5_242_880);
    let mut server = Server::new();
    assert_eq!(server.upload(&vec![0; MAX_SIZE + 1]), Err(Status::PayloadTooLarge));
    assert!(server.log.is_empty() && server.files.is_empty());
    assert!(server.upload(&vec![0; MAX_SIZE]).is_ok());
}

#[test]
fn an_upload_is_rendered_and_stored() {
    let mut server = Server::new();
    assert_eq!(server.upload(b"abc"), Ok(page_for(b"abc")));
    assert_eq!(server.log, vec!["compile", "render", "nodes", "png"]);
    let id = "ba7816bf8f01cfea414140de5dae2223b00361a396177a9cb410ff61f20015ad";
    assert_eq!(server.files.len(), 2);
    assert_eq!(server.files[&format!("nodes/{id}.nodes")], b"abc");
    assert_eq!(server.files[&format!("png/{id}.png")], vec![9, 9]);
}

#[test]
fn an_upload_can_be_read_back() {
    let mut server = Server::new();
    server.upload(b"abc").unwrap();
    let stored = server.files.get(&format!("png/{}.png", file_id(b"abc")));
    assert_eq!(get_png(stored.cloned()).unwrap().body, vec![9, 9]);
    assert!(og_page(&file_id(b"abc"), stored.is_some()).is_ok());
}

#[test]
fn a_second_upload_renders_nothing() {
    let mut server = Server::new();
    let first = server.upload(b"abc");
    server.log.clear();
    server.compiles = false;
    server.renders = false;
    server.writes.clear();
    let files = server.files.clone();
    assert_eq!(server.upload(b"abc"), first);
    assert!(server.log.is_empty());
    assert_eq!(server.files, files);
}

#[test]
fn another_upload_leaves_the_first_alone() {
    let mut server = Server::new();
    server.upload(b"abc").unwrap();
    let files = server.files.clone();
    server.upload(b"abd").unwrap();
    assert_eq!(server.files.len(), 4);
    for (name, contents) in &files {
        assert_eq!(&server.files[name], contents);
    }
}

#[test]
fn a_file_that_is_no_stick_figure_is_a_bad_request() {
    let mut server = Server::new();
    server.compiles = false;
    assert_eq!(server.upload(b"abc"), Err(Status::BadRequest));
    assert_eq!(server.log, vec!["compile"]);
    assert!(server.files.is_empty());
}

#[test]
fn failed_rendering_is_a_server_error() {
    let mut server = Server::new();
    server.renders = false;
    assert_eq!(server.upload(b"abc"), Err(Status::InternalServerError));
    assert_eq!(server.log, vec!["compile", "render"]);
    assert!(server.files.is_empty());
}

#[test]
fn a_file_that_cannot_be_stored_is_a_server_error() {
    let mut server = Server::new();
    server.writes = vec!["png"];
    assert_eq!(server.upload(b"abc"), Err(Status::InternalServerError));
    assert_eq!(server.log, vec!["compile", "render", "nodes"]);
    assert!(server.files.is_empty());
}

#[test]
fn a_picture_that_cannot_be_stored_is_a_server_error() {
    let mut server = Server::new();
    server.writes = vec!["nodes"];
    assert_eq!(server.upload(b"abc"), Err(Status::InternalServerError));
    assert_eq!(server.log, vec!["compile", "render", "nodes", "png"]);
    assert_eq!(server.files.len(), 1);
}

#[test]
fn an_event_that_was_not_waited_for_is_a_server_error() {
    let step = upload_nodes(b"abc".to_vec()).advance(UploadEvent::PngWritten(true));
    assert!(matches!(step, UploadStep::Done(Err(Status::InternalServerError))));
}

#[test]
fn an_answer_stays() {
    let refused = upload_nodes(vec![]).advance(UploadEvent::PngChecked(false));
    assert!(matches!(refused, UploadStep::Done(Err(Status::BadRequest))));
    let answered = upload_nodes(b"abc".to_vec())
        .advance(UploadEvent::PngChecked(true))
        .advance(UploadEvent::Rendered(None));
    match answered {
        UploadStep::Done(Ok(page)) => assert_eq!(page, page_for(b"abc")),
        other => panic!("{other:?}"),
    }
}
