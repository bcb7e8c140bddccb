//! The lifecycle of contents and objects: the states, their names in the
//! database, and the guards on uploads and downloads.
//!
//! There is no deleted state: a soft delete leaves the state as it was.

use vstd::prelude::*;
use vstd::string::StringExecFns;

use crate::error::ContentError;
use crate::ext::str_eq;

verus! {

/// The state of a content. `Uploaded` ends the life of an original, `Processed`
/// that of a derived content.
#[derive(Clone, Copy, Debug, PartialEq, Eq, Structural)]
pub enum ContentStatus {
    Created,
    Uploading,
    Uploaded,
    Processing,
    Processed,
    Failed,
    Archived,
}

/// The state of an object. Archiving is a matter of contents alone.
#[derive(Clone, Copy, Debug, PartialEq, Eq, Structural)]
pub enum ObjectStatus {
    Created,
    Uploading,
    Uploaded,
    Processing,
    Processed,
    Failed,
}

impl ContentStatus {
    /// The name of the state in the database.
    pub open spec fn name(self) -> Seq<char> {
        match self {
            ContentStatus::Created => "created"@,
            ContentStatus::Uploading => "uploading"@,
            ContentStatus::Uploaded => "uploaded"@,
            ContentStatus::Processing => "processing"@,
            ContentStatus::Processed => "processed"@,
            ContentStatus::Failed => "failed"@,
            ContentStatus::Archived => "archived"@,
        }
    }

    /// The state of a name, if it is the name of one.
    pub open spec fn of_name(s: Seq<char>) -> Option<ContentStatus> {
        if exists|status: ContentStatus| #[trigger] status.name() == s {
            Some(choose|status: ContentStatus| #[trigger] status.name() == s)
        } else {
            None
        }
    }

    /// Whether a content in this state can be downloaded.
    pub open spec fn downloadable(self) -> bool {
        self is Uploaded || self is Processed || self is Archived
    }

    /// Whether a content in this state can be uploaded.
    pub open spec fn uploadable(self) -> bool {
        self is Created || self is Failed
    }

    /// The name of the state.
    pub fn as_str(self) -> (s: &'static str)
        ensures
            s@ == self.name(),
    {
        match self {
            ContentStatus::Created => "created",
            ContentStatus::Uploading => "uploading",
            ContentStatus::Uploaded => "uploaded",
            ContentStatus::Processing => "processing",
            ContentStatus::Processed => "processed",
            ContentStatus::Failed => "failed",
            ContentStatus::Archived => "archived",
        }
    }

    /// The state of a name; `InvalidStatus`, with the name, where no state has it.
    pub fn from_db(s: &str) -> (r: Result<Self, ContentError>)
        ensures
            match ContentStatus::of_name(s@) {
                Some(status) => r == Ok::<ContentStatus, ContentError>(status),
                None => r matches Err(ContentError::InvalidStatus(name)) && name@ == s@,
            },
    {
        proof {
            law_content_status_names();
        }
        if str_eq(s, "created") {
            assert(ContentStatus::Created.name() == s@);
            Ok(ContentStatus::Created)
        } else if str_eq(s, "uploading") {
            assert(ContentStatus::Uploading.name() == s@);
            Ok(ContentStatus::Uploading)
        } else if str_eq(s, "uploaded") {
            assert(ContentStatus::Uploaded.name() == s@);
            Ok(ContentStatus::Uploaded)
        } else if str_eq(s, "processing") {
            assert(ContentStatus::Processing.name() == s@);
            Ok(ContentStatus::Processing)
        } else if str_eq(s, "processed") {
            assert(ContentStatus::Processed.name() == s@);
            Ok(ContentStatus::Processed)
        } else if str_eq(s, "failed") {
            assert(ContentStatus::Failed.name() == s@);
            Ok(ContentStatus::Failed)
        } else if str_eq(s, "archived") {
            assert(ContentStatus::Archived.name() == s@);
            Ok(ContentStatus::Archived)
        } else {
            Err(ContentError::InvalidStatus(s.to_owned()))
        }
    }
}

impl ObjectStatus {
    /// The name of the state in the database.
    pub open spec fn name(self) -> Seq<char> {
        match self {
            ObjectStatus::Created => "created"@,
            ObjectStatus::Uploading => "uploading"@,
            ObjectStatus::Uploaded => "uploaded"@,
            ObjectStatus::Processing => "processing"@,
            ObjectStatus::Processed => "processed"@,
            ObjectStatus::Failed => "failed"@,
        }
    }

    /// The state of a name, if it is the name of one.
    pub open spec fn of_name(s: Seq<char>) -> Option<ObjectStatus> {
        if exists|status: ObjectStatus| #[trigger] status.name() == s {
            Some(choose|status: ObjectStatus| #[trigger] status.name() == s)
        } else {
            None
        }
    }

    /// Whether an object in this state can be downloaded.
    pub open spec fn downloadable(self) -> bool {
        self is Uploaded || self is Processed
    }

    /// Whether an object in this state can be uploaded.
    pub open spec fn uploadable(self) -> bool {
        self is Created || self is Failed
    }

    /// The name of the state.
    pub fn as_str(self) -> (s: &'static str)
        ensures
            s@ == self.name(),
    {
        match self {
            ObjectStatus::Created => "created",
            ObjectStatus::Uploading => "uploading",
            ObjectStatus::Uploaded => "uploaded",
            ObjectStatus::Processing => "processing",
            ObjectStatus::Processed => "processed",
            ObjectStatus::Failed => "failed",
        }
    }

    /// The state of a name; `InvalidStatus`, with the name, where no state has it.
    pub fn from_db(s: &str) -> (r: Result<Self, ContentError>)
        ensures
            match ObjectStatus::of_name(s@) {
                Some(status) => r == Ok::<ObjectStatus, ContentError>(status),
                None => r matches Err(ContentError::InvalidStatus(name)) && name@ == s@,
            },
    {
        proof {
            law_object_status_names();
        }
        if str_eq(s, "created") {
            assert(ObjectStatus::Created.name() == s@);
            Ok(ObjectStatus::Created)
        } else if str_eq(s, "uploading") {
            assert(ObjectStatus::Uploading.name() == s@);
            Ok(ObjectStatus::Uploading)
        } else if str_eq(s, "uploaded") {
            assert(ObjectStatus::Uploaded.name() == s@);
            Ok(ObjectStatus::Uploaded)
        } else if str_eq(s, "processing") {
            assert(ObjectStatus::Processing.name() == s@);
            Ok(ObjectStatus::Processing)
        } else if str_eq(s, "processed") {
            assert(ObjectStatus::Processed.name() == s@);
            Ok(ObjectStatus::Processed)
        } else if str_eq(s, "failed") {
            assert(ObjectStatus::Failed.name() == s@);
            Ok(ObjectStatus::Failed)
        } else {
            Err(ContentError::InvalidStatus(s.to_owned()))
        }
    }
}

/// The detail of a refusal: what was refused, and the state that refused it.
pub open spec fn refusal(what: Seq<char>, status: Seq<char>) -> Seq<char> {
    what + " (status: "@ + status + ")"@
}

fn refusal_text(what: &str, status: &str) -> (s: String)
    ensures
        s@ == refusal(what@, status@),
{
    what.to_owned().concat(" (status: ").concat(status).concat(")")
}

/// Lets a download of a content pass from `Uploaded`, `Processed` and
/// `Archived`; `NotReady` from any other state.
pub fn can_download_content(status: ContentStatus) -> (r: Result<(), ContentError>)
    ensures
        r is Ok <==> status.downloadable(),
        r matches Err(e) ==> (e matches ContentError::NotReady(detail) && detail@ == refusal(
            "content not downloadable"@,
            status.name(),
        )),
{
    match status {
        ContentStatus::Uploaded | ContentStatus::Processed | ContentStatus::Archived => Ok(()),
        other => Err(
            ContentError::NotReady(refusal_text("content not downloadable", other.as_str())),
        ),
    }
}

/// Lets a download of an object pass from `Uploaded` and `Processed`;
/// `NotReady` from any other state.
pub fn can_download_object(status: ObjectStatus) -> (r: Result<(), ContentError>)
    ensures
        r is Ok <==> status.downloadable(),
        r matches Err(e) ==> (e matches ContentError::NotReady(detail) && detail@ == refusal(
            "object not downloadable"@,
            status.name(),
        )),
{
    match status {
        ObjectStatus::Uploaded | ObjectStatus::Processed => Ok(()),
        other => Err(
            ContentError::NotReady(refusal_text("object not downloadable", other.as_str())),
        ),
    }
}

/// Lets an upload of a content pass from `Created` and `Failed`;
/// `InvalidState` from any other state.
pub fn can_upload_content(status: ContentStatus) -> (r: Result<(), ContentError>)
    ensures
        r is Ok <==> status.uploadable(),
        r matches Err(e) ==> (e matches ContentError::InvalidState(detail) && detail@ == refusal(
            "content not in an uploadable state"@,
            status.name(),
        )),
{
    match status {
        ContentStatus::Created | ContentStatus::Failed => Ok(()),
        other => Err(
            ContentError::InvalidState(
                refusal_text("content not in an uploadable state", other.as_str()),
            ),
        ),
    }
}

/// Lets an upload of an object pass from `Created` and `Failed`;
/// `InvalidState` from any other state.
pub fn can_upload_object(status: ObjectStatus) -> (r: Result<(), ContentError>)
    ensures
        r is Ok <==> status.uploadable(),
        r matches Err(e) ==> (e matches ContentError::InvalidState(detail) && detail@ == refusal(
            "object not in an uploadable state"@,
            status.name(),
        )),
{
    match status {
        ObjectStatus::Created | ObjectStatus::Failed => Ok(()),
        other => Err(
            ContentError::InvalidState(
                refusal_text("object not in an uploadable state", other.as_str()),
            ),
        ),
    }
}

/// The names of the states of a content differ, and each is read back as the
/// state that it names.
pub proof fn law_content_status_names()
    ensures
        forall|a: ContentStatus, b: ContentStatus|
            #![trigger a.name(), b.name()]
            a.name() == b.name() ==> a == b,
        forall|a: ContentStatus|
            #[trigger] ContentStatus::of_name(a.name()) == Some(a),
{
    reveal_strlit("created");
    reveal_strlit("uploading");
    reveal_strlit("uploaded");
    reveal_strlit("processing");
    reveal_strlit("processed");
    reveal_strlit("failed");
    reveal_strlit("archived");
    assert forall|a: ContentStatus, b: ContentStatus|
        #![trigger a.name(), b.name()]
        a.name() == b.name() implies a == b by {
        assert(a.name().len() == b.name().len());
        assert(a.name()[0] == b.name()[0]);
    }
}

/// The names of the states of an object differ, and each is read back as the
/// state that it names.
pub proof fn law_object_status_names()
    ensures
        forall|a: ObjectStatus, b: ObjectStatus|
            #![trigger a.name(), b.name()]
            a.name() == b.name() ==> a == b,
        forall|a: ObjectStatus|
            #[trigger] ObjectStatus::of_name(a.name()) == Some(a),
{
    reveal_strlit("created");
    reveal_strlit("uploading");
    reveal_strlit("uploaded");
    reveal_strlit("processing");
    reveal_strlit("processed");
    reveal_strlit("failed");
    assert forall|a: ObjectStatus, b: ObjectStatus|
        #![trigger a.name(), b.name()]
        a.name() == b.name() implies a == b by {
        assert(a.name().len() == b.name().len());
        assert(a.name()[0] == b.name()[0]);
    }
}

/// No state lets a content be downloaded and uploaded, nor an object.
pub proof fn law_guards_exclude_each_other(content: ContentStatus, object: ObjectStatus)
    ensures
        !(content.downloadable() && content.uploadable()),
        !(object.downloadable() && object.uploadable()),
{
}

} // verus!
