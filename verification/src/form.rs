//! How the file is found in a submitted form: the fields are gone through in
//! order, and the first one with the right name carries the file.

use vstd::prelude::*;

use crate::status::Status;
use crate::upload;
use crate::upload::{UploadState, UploadStep};

verus! {

/// What came up while a form was gone through.
#[derive(Debug)]
pub enum FormEvent<'a> {
    /// A field, with its name, if it has one.
    Field(Option<&'a str>),
    /// The contents of the field that was to be read.
    Read(Vec<u8>),
    /// The form has no more fields.
    Ended,
}

/// What to do next with a form.
#[derive(Debug)]
pub enum FormStep {
    /// Go on to the next field.
    NextField,
    /// Read the contents of this field.
    ReadField,
    /// Leave the form, and go on with the upload of what it carried.
    Start(UploadStep),
}

/// A `FormEvent`, as a value.
pub enum FormOutcome {
    Field(Option<Seq<char>>),
    Read(Seq<u8>),
    Ended,
}

/// A `FormStep`, as a value.
pub enum FormState {
    NextField,
    ReadField,
    Start(UploadState),
}

impl<'a> View for FormEvent<'a> {
    type V = FormOutcome;

    open spec fn view(&self) -> FormOutcome {
        match *self {
            FormEvent::Field(Some(name)) => FormOutcome::Field(Some(name@)),
            FormEvent::Field(None) => FormOutcome::Field(None),
            FormEvent::Read(contents) => FormOutcome::Read(contents@),
            FormEvent::Ended => FormOutcome::Ended,
        }
    }
}

impl View for FormStep {
    type V = FormState;

    open spec fn view(&self) -> FormState {
        match *self {
            FormStep::NextField => FormState::NextField,
            FormStep::ReadField => FormState::ReadField,
            FormStep::Start(step) => FormState::Start(step@),
        }
    }
}

/// Whether a field with this name, if it has one, carries the file.
pub open spec fn carries_file(name: Option<Seq<char>>) -> bool {
    name == Some("file"@)
}

/// What to do next with a form. A form without a field for the file stands for
/// an upload of an empty file.
pub open spec fn form_next(outcome: FormOutcome) -> FormState {
    match outcome {
        FormOutcome::Field(name) => if carries_file(name) {
            FormState::ReadField
        } else {
            FormState::NextField
        },
        FormOutcome::Read(contents) => FormState::Start(upload::first(contents)),
        FormOutcome::Ended => FormState::Start(upload::first(Seq::empty())),
    }
}

/// Takes in what came up in a form, and says what to do next.
pub fn on_form(event: FormEvent<'_>) -> (step: FormStep)
    ensures
        step@ == form_next(event@),
        match event {
            FormEvent::Field(Some(name)) => if name@ == "file"@ {
                step == FormStep::ReadField
            } else {
                step == FormStep::NextField
            },
            FormEvent::Field(None) => step == FormStep::NextField,
            FormEvent::Read(contents) => {
                &&& step matches FormStep::Start(upload_step)
                &&& contents@.len() == 0 ==> upload_step == UploadStep::Done(
                    Err(Status::BadRequest),
                )
                &&& contents@.len() > 5 * 1024 * 1024 ==> upload_step == UploadStep::Done(
                    Err(Status::PayloadTooLarge),
                )
                &&& 0 < contents@.len() <= 5 * 1024 * 1024 ==> (
                upload_step matches UploadStep::CheckPng(submission) && submission.contents()
                    == contents@)
            },
            FormEvent::Ended => {
                &&& step matches FormStep::Start(upload_step)
                &&& upload_step == UploadStep::Done(Err(Status::BadRequest))
            },
        },
{
    match event {
        FormEvent::Field(Some(name)) => {
            if name.to_owned() == "file".to_owned() {
                FormStep::ReadField
            } else {
                FormStep::NextField
            }
        },
        FormEvent::Field(None) => FormStep::NextField,
        FormEvent::Read(contents) => FormStep::Start(upload::upload_nodes(contents)),
        FormEvent::Ended => FormStep::Start(upload::upload_nodes(Vec::new())),
    }
}

/// A field of a form: its name, if it has one, and its contents.
pub struct FormField {
    pub name: Option<Seq<char>>,
    pub contents: Seq<u8>,
}

/// Goes through the fields of a form in order, does with each what is to be
/// done next, and gives the state that the upload starts in.
pub open spec fn run_form(fields: Seq<FormField>) -> UploadState
    decreases fields.len(),
{
    if fields.len() == 0 {
        form_next(FormOutcome::Ended)->Start_0
    } else {
        match form_next(FormOutcome::Field(fields[0].name)) {
            FormState::NextField => run_form(fields.drop_first()),
            FormState::ReadField => form_next(FormOutcome::Read(fields[0].contents))->Start_0,
            FormState::Start(state) => state,
        }
    }
}

/// A field is read exactly if its name is `file`; every other one, and one
/// without a name, is passed over.
pub proof fn law_only_the_file_field_is_read(name: Seq<char>)
    ensures
        form_next(FormOutcome::Field(Some(name))) == (if name == "file"@ {
            FormState::ReadField
        } else {
            FormState::NextField
        }),
        form_next(FormOutcome::Field(None)) == FormState::NextField,
{
}

/// A field that does not carry the file makes no difference, wherever it stands
/// before the one that does.
pub proof fn law_other_fields_make_no_difference(fields: Seq<FormField>, other: FormField)
    requires
        other.name != Some("file"@),
    ensures
        run_form(seq![other] + fields) == run_form(fields),
{
    assert((seq![other] + fields).drop_first() =~= fields);
}

/// The first field with the right name counts, whatever it holds, and whatever
/// follows.
pub proof fn law_first_file_field_counts(fields: Seq<FormField>, k: int)
    requires
        0 <= k < fields.len(),
        fields[k].name == Some("file"@),
        forall|j: int| 0 <= j < k ==> #[trigger] fields[j].name != Some("file"@),
    ensures
        run_form(fields) == upload::first(fields[k].contents),
        0 < fields[k].contents.len() <= 5 * 1024 * 1024 ==> run_form(fields) == (
        UploadState::CheckPng { file: fields[k].contents }),
    decreases fields.len(),
{
    if k > 0 {
        assert(fields[0].name != Some("file"@));
        let rest = fields.drop_first();
        assert forall|j: int| 0 <= j < k - 1 implies #[trigger] rest[j].name != Some("file"@) by {
            assert(rest[j] == fields[j + 1]);
        }
        law_first_file_field_counts(rest, k - 1);
    }
}

/// A form without such a field is refused like one with an empty file.
pub proof fn law_form_without_file_is_empty(fields: Seq<FormField>)
    requires
        forall|j: int| 0 <= j < fields.len() ==> #[trigger] fields[j].name != Some("file"@),
    ensures
        run_form(fields) == upload::first(Seq::empty()),
        run_form(fields) == (UploadState::Done { answer: Err(Status::BadRequest) }),
    decreases fields.len(),
{
    if fields.len() > 0 {
        assert(fields[0].name != Some("file"@));
        let rest = fields.drop_first();
        assert forall|j: int| 0 <= j < rest.len() implies #[trigger] rest[j].name != Some(
            "file"@,
        ) by {
            assert(rest[j] == fields[j + 1]);
        }
        law_form_without_file_is_empty(rest);
    }
}

} // verus!
