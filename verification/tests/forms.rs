use render_service::form::{on_form, FormEvent, FormStep};
use render_service::status::Status;
use render_service::upload::{UploadStep, MAX_SIZE};

/// Goes through a form, and gives the step that the upload starts with, and how
/// many fields were seen.
fn submit(fields: &[(Option<&str>, &[u8])]) -> (UploadStep, usize) {
    let mut seen = 0;
    for (name, contents) in fields {
        seen += 1;
        match on_form(FormEvent::Field(*name)) {
            FormStep::NextField => {}
            FormStep::ReadField => match on_form(FormEvent::Read(contents.to_vec())) {
                FormStep::Start(step) => return (step, seen),
                other => panic!("{other:?}"),
            },
            FormStep::Start(step) => return (step, seen),
        }
    }
    match on_form(FormEvent::Ended) {
        FormStep::Start(step) => (step, seen),
        other => panic!("{other:?}"),
    }
}

fn submitted(step: UploadStep) -> Vec<u8> {
    match step {
        UploadStep::CheckPng(submission) => submission.file().to_vec(),
        other => panic!("{other:?}"),
    }
}

fn refused(step: UploadStep) -> Status {
    match step {
        UploadStep::Done(Err(status)) => status,
        other => panic!("{other:?}"),
    }
}

#[test]
fn only_the_field_named_file_is_read() {
    assert!(matches!(on_form(FormEvent::Field(Some("file"))), FormStep::ReadField));
    for name in [Some("File"), Some("file2"), Some("fil"), Some(""), None] {
        assert!(matches!(on_form(FormEvent::Field(name)), FormStep::NextField));
    }
}

#[test]
fn the_first_field_named_file_counts() {
    let (step, seen) = submit(&[
        (None, b"x"),
        (Some("name"), b"y"),
        (Some("file"), b"first"),
        (Some("file"), b"second"),
    ]);
    assert_eq!(submitted(step), b"first");
    assert_eq!(seen, 3);
}

#[test]
fn an_empty_first_file_counts_too() {
    let (step, seen) = submit(&[(Some("file"), b""), (Some("file"), b"second")]);
    assert_eq!(refused(step), Status::BadRequest);
    assert_eq!(seen, 1);
}

#[test]
fn a_form_without_a_file_is_a_bad_request() {
    assert_eq!(refused(submit(&[]).0), Status::BadRequest);
    assert_eq!(refused(submit(&[(Some("other"), b"abc")]).0), Status::BadRequest);
}

#[test]
fn a_large_file_in_a_form_is_too_large() {
    let large = vec![1u8; MAX_SIZE + 1];
    assert_eq!(refused(submit(&[(Some("file"), &large)]).0), Status::PayloadTooLarge);
}
