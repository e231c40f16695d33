//! Anonymous uploads: random names and the steps that store a file under one.
use vstd::prelude::*;

use rand::Rng;

verus! {

/// The symbols an upload id is drawn from: digits, then upper and lower case letters.
pub open spec fn base62() -> Seq<char> {
    "0123456789ABCDEFGHIJKLMNOPQRSTUVWXYZabcdefghijklmnopqrstuvwxyz"@
}

/// An ASCII digit or letter.
pub open spec fn is_ascii_alphanumeric(c: char) -> bool {
    ('0' <= c && c <= '9') || ('A' <= c && c <= 'Z') || ('a' <= c && c <= 'z')
}

/// Every symbol of the alphabet is an ASCII digit or letter, and there are 62 of them.
pub proof fn lemma_base62_alphanumeric()
    ensures
        base62().len() == 62,
        forall|k: int| 0 <= k < 62 ==> is_ascii_alphanumeric(#[trigger] base62()[k]),
{
    reveal_strlit("0123456789ABCDEFGHIJKLMNOPQRSTUVWXYZabcdefghijklmnopqrstuvwxyz");
    assert(base62() =~= seq![
        '0', '1', '2', '3', '4', '5', '6', '7', '8', '9',
        'A', 'B', 'C', 'D', 'E', 'F', 'G', 'H', 'I', 'J', 'K', 'L', 'M',
        'N', 'O', 'P', 'Q', 'R', 'S', 'T', 'U', 'V', 'W', 'X', 'Y', 'Z',
        'a', 'b', 'c', 'd', 'e', 'f', 'g', 'h', 'i', 'j', 'k', 'l', 'm',
        'n', 'o', 'p', 'q', 'r', 's', 't', 'u', 'v', 'w', 'x', 'y', 'z',
    ]);
}

/// Relies on `rand::rng` and `Rng::random_range`: a value drawn from `0..n`;
/// `random_range` panics on an empty range, which `requires` leaves out.
#[verifier::external_body]
fn random_below(n: usize) -> (r: usize)
    requires
        n > 0,
    ensures
        r < n,
{
    rand::rng().random_range(0..n)
}

/// A _probably_ unique upload id.
pub struct UploadId(pub String);

impl UploadId {
    /// A fresh id of `size` symbols, each drawn at random from the 62 of `base62`.
    pub fn new(size: usize) -> (r: UploadId)
        ensures
            r.0@.len() == size,
            forall|k: int| 0 <= k < size ==> base62().contains(#[trigger] r.0@[k]),
            forall|k: int| 0 <= k < size ==> is_ascii_alphanumeric(#[trigger] r.0@[k]),
    {
        let alphabet = "0123456789ABCDEFGHIJKLMNOPQRSTUVWXYZabcdefghijklmnopqrstuvwxyz";
        proof {
            lemma_base62_alphanumeric();
        }
        let mut id = String::new();
        let mut i: usize = 0;
        while i < size
            invariant
                i <= size,
                alphabet@ == base62(),
                base62().len() == 62,
                id@.len() == i,
                forall|k: int| 0 <= k < i ==> base62().contains(#[trigger] id@[k]),
            decreases size - i,
        {
            let pick = random_below(62);
            let symbol = alphabet.substring_char(pick, pick + 1);
            let ghost before = id@;
            id.append(symbol);
            assert(id@[i as int] == base62()[pick as int]);
            assert forall|k: int| 0 <= k < i + 1 implies base62().contains(#[trigger] id@[k]) by {
                if k < i {
                    assert(id@[k] == before[k]);
                } else {
                    assert(id@[k] == base62()[pick as int]);
                }
            }
            i = i + 1;
        }
        assert forall|k: int| 0 <= k < size implies is_ascii_alphanumeric(#[trigger] id@[k]) by {
            assert(base62().contains(id@[k]));
            let j = choose|j: int| 0 <= j < base62().len() && base62()[j] == id@[k];
            assert(is_ascii_alphanumeric(base62()[j]));
        }
        UploadId(id)
    }

    /// The file name for this id: the id itself, or the id, a `.` and `extension`.
    pub fn file_name(&self, extension: Option<&str>) -> (r: String)
        ensures
            r@ == match extension {
                None => self.0@,
                Some(ext) => self.0@ + seq!['.'] + ext@,
            },
    {
        match extension {
            None => self.0.clone(),
            Some(ext) => {
                let mut name = self.0.clone();
                name.append(".");
                proof {
                    reveal_strlit(".");
                }
                assert("."@ =~= seq!['.']);
                name.append(ext);
                name
            },
        }
    }
}


/// Symbols in the id of an anonymous upload.
pub const ID_LENGTH: usize = 8;

/// How many taken names an upload meets before it gives up.
pub const MAX_NAME_TRIES: u32 = 32;

/// The name a file gets from `id` and, if it has one, its extension.
pub open spec fn name_for(id: Seq<char>, extension: Option<String>) -> Seq<char> {
    match extension {
        None => id,
        Some(ext) => id + seq!['.'] + ext@,
    }
}

/// An id as `UploadId::new` draws them for uploads.
pub open spec fn is_upload_id(id: Seq<char>) -> bool {
    id.len() == ID_LENGTH && forall|k: int| 0 <= k < id.len() ==> base62().contains(#[trigger] id[k])
}

/// Where a stored upload can be fetched.
pub open spec fn location_of(name: Seq<char>) -> Seq<char> {
    "/files/"@ + name
}

/// The body of a reply to an upload.
pub struct UploadResponse {
    message: String,
}

impl View for UploadResponse {
    type V = Seq<char>;

    closed spec fn view(&self) -> Seq<char> {
        self.message@
    }
}

impl UploadResponse {
    pub fn new(message: String) -> (r: UploadResponse)
        ensures
            r@ == message@,
    {
        UploadResponse { message }
    }

    pub fn message(&self) -> (r: &str)
        ensures
            r@ == self@,
    {
        self.message.as_str()
    }
}

/// The reply to an upload: its status, where the file is on success, and a body.
pub struct UploadReply {
    pub status: u16,
    pub location: Option<String>,
    pub body: UploadResponse,
}

/// How far an upload has come.
#[derive(PartialEq, Eq, Structural, Clone, Copy, Debug)]
pub enum UploadStage {
    /// Looking for a free name; `tries` names have been drawn.
    Naming { tries: u32 },
    /// Writing the content under the chosen name.
    Storing,
    /// Registering the expiry of the stored file.
    Scheduling,
    /// The reply has been given.
    Done,
}

/// What the filesystem or the scheduler reported.
pub enum UploadEvent {
    /// Whether the drawn name is taken already.
    NameChecked { taken: bool },
    /// The write finished, with the failure's cause if it failed.
    Stored { failure: Option<String> },
    /// The expiry was registered, with the failure's cause if it was not.
    ExpiryRegistered { failure: Option<String> },
}

/// What the caller is to do next.
pub enum UploadAction {
    /// See whether a file of this name exists.
    CheckName { file_name: String },
    /// Write the content under this name.
    Store { file_name: String },
    /// Register the deletion of this file after `ttl_ms`.
    RegisterExpiry { file_name: String, ttl_ms: u64 },
    /// Answer the request.
    Respond { reply: UploadReply },
    /// Nothing to do.
    Idle,
}

/// An anonymous upload in progress.
pub struct Upload {
    pub id: UploadId,
    pub extension: Option<String>,
    pub ttl_ms: Option<u64>,
    pub stage: UploadStage,
}

/// A reply of 201 with the file's location.
pub open spec fn is_success_reply(r: UploadReply, name: Seq<char>) -> bool {
    &&& r.status == 201
    &&& r.location matches Some(loc) && loc@ == location_of(name)
    &&& r.body@ == "file uploaded successfully"@
}

/// A reply of 500 with `message` and no location.
pub open spec fn is_failure_reply(r: UploadReply, message: Seq<char>) -> bool {
    &&& r.status == 500
    &&& r.location is None
    &&& r.body@ == message
}

fn success_reply(name: &str) -> (r: UploadReply)
    ensures
        is_success_reply(r, name@),
{
    let mut location = String::from_str("/files/");
    location.append(name);
    UploadReply {
        status: 201,
        location: Some(location),
        body: UploadResponse::new(String::from_str("file uploaded successfully")),
    }
}

fn failure_reply(prefix: &str, cause: &str) -> (r: UploadReply)
    ensures
        is_failure_reply(r, prefix@ + cause@),
{
    let mut message = String::from_str(prefix);
    message.append(cause);
    UploadReply { status: 500, location: None, body: UploadResponse::new(message) }
}

impl Upload {
    pub open spec fn wf(&self) -> bool {
        &&& is_upload_id(self.id.0@)
        &&& self.stage matches UploadStage::Naming { tries } ==> 1 <= tries <= MAX_NAME_TRIES
    }

    /// The name the file is stored under.
    pub open spec fn name(&self) -> Seq<char> {
        name_for(self.id.0@, self.extension)
    }

    /// The name the file is stored under.
    pub fn file_name(&self) -> (r: String)
        ensures
            r@ == self.name(),
    {
        match &self.extension {
            None => self.id.file_name(None),
            Some(ext) => self.id.file_name(Some(ext.as_str())),
        }
    }

    /// Starts an upload of a file with `extension`, to expire after `ttl_ms` if
    /// given: draws a first name and asks whether it is taken.
    pub fn start(extension: Option<String>, ttl_ms: Option<u64>) -> (r: (Upload, UploadAction))
        ensures
            r.0.wf(),
            r.0.extension == extension,
            r.0.ttl_ms == ttl_ms,
            r.0.stage == (UploadStage::Naming { tries: 1 }),
            r.1 matches UploadAction::CheckName { file_name } && file_name@ == r.0.name(),
    {
        let upload = Upload { id: UploadId::new(ID_LENGTH), extension, ttl_ms, stage: UploadStage::Naming { tries: 1 } };
        let file_name = upload.file_name();
        (upload, UploadAction::CheckName { file_name })
    }

    /// Takes what the last action brought about and says what to do next.
    ///
    /// A taken name is replaced by a fresh one, up to `MAX_NAME_TRIES` names; a
    /// free one is written. A stored file with a time to live gets its expiry
    /// registered, and the upload fails if that fails. Every path ends in a reply.
    pub fn on_event(&mut self, event: UploadEvent) -> (a: UploadAction)
        requires
            old(self).wf(),
        ensures
            final(self).wf(),
            final(self).extension == old(self).extension,
            final(self).ttl_ms == old(self).ttl_ms,
            match (old(self).stage, event) {
                (UploadStage::Naming { tries }, UploadEvent::NameChecked { taken }) => if !taken {
                    &&& final(self).stage == UploadStage::Storing
                    &&& final(self).id == old(self).id
                    &&& a matches UploadAction::Store { file_name } && file_name@ == old(self).name()
                } else if tries < MAX_NAME_TRIES {
                    &&& final(self).stage == (UploadStage::Naming { tries: (tries + 1) as u32 })
                    &&& a matches UploadAction::CheckName { file_name } && file_name@ == final(self).name()
                } else {
                    &&& final(self).stage == UploadStage::Done
                    &&& a matches UploadAction::Respond { reply } && is_failure_reply(
                        reply,
                        "no free file name found"@,
                    )
                },
                (UploadStage::Storing, UploadEvent::Stored { failure }) => {
                    &&& final(self).id == old(self).id
                    &&& match failure {
                        Some(cause) => {
                            &&& final(self).stage == UploadStage::Done
                            &&& a matches UploadAction::Respond { reply } && is_failure_reply(
                                reply,
                                "failed to save file: "@ + cause@,
                            )
                        },
                        None => match old(self).ttl_ms {
                            Some(ttl) => {
                                &&& final(self).stage == UploadStage::Scheduling
                                &&& a matches UploadAction::RegisterExpiry { file_name, ttl_ms }
                                    && file_name@ == old(self).name() && ttl_ms == ttl
                            },
                            None => {
                                &&& final(self).stage == UploadStage::Done
                                &&& a matches UploadAction::Respond { reply } && is_success_reply(
                                    reply,
                                    old(self).name(),
                                )
                            },
                        },
                    }
                },
                (UploadStage::Scheduling, UploadEvent::ExpiryRegistered { failure }) => {
                    &&& final(self).id == old(self).id
                    &&& final(self).stage == UploadStage::Done
                    &&& match failure {
                        Some(cause) => a matches UploadAction::Respond { reply } && is_failure_reply(
                            reply,
                            "failed to schedule expiry: "@ + cause@,
                        ),
                        None => a matches UploadAction::Respond { reply } && is_success_reply(
                            reply,
                            old(self).name(),
                        ),
                    }
                },
                _ => final(self).stage == old(self).stage && final(self).id == old(self).id && a is Idle,
            },
    {
        match (self.stage, event) {
            (UploadStage::Naming { tries }, UploadEvent::NameChecked { taken }) => {
                if !taken {
                    self.stage = UploadStage::Storing;
                    UploadAction::Store { file_name: self.file_name() }
                } else if tries < MAX_NAME_TRIES {
                    self.id = UploadId::new(ID_LENGTH);
                    self.stage = UploadStage::Naming { tries: tries + 1 };
                    UploadAction::CheckName { file_name: self.file_name() }
                } else {
                    self.stage = UploadStage::Done;
                    UploadAction::Respond {
                        reply: UploadReply {
                            status: 500,
                            location: None,
                            body: UploadResponse::new(String::from_str("no free file name found")),
                        },
                    }
                }
            },
            (UploadStage::Storing, UploadEvent::Stored { failure }) => match failure {
                Some(cause) => {
                    self.stage = UploadStage::Done;
                    UploadAction::Respond { reply: failure_reply("failed to save file: ", cause.as_str()) }
                },
                None => match self.ttl_ms {
                    Some(ttl) => {
                        self.stage = UploadStage::Scheduling;
                        UploadAction::RegisterExpiry { file_name: self.file_name(), ttl_ms: ttl }
                    },
                    None => {
                        self.stage = UploadStage::Done;
                        let name = self.file_name();
                        UploadAction::Respond { reply: success_reply(name.as_str()) }
                    },
                },
            },
            (UploadStage::Scheduling, UploadEvent::ExpiryRegistered { failure }) => {
                self.stage = UploadStage::Done;
                match failure {
                    Some(cause) => UploadAction::Respond {
                        reply: failure_reply("failed to schedule expiry: ", cause.as_str()),
                    },
                    None => {
                        let name = self.file_name();
                        UploadAction::Respond { reply: success_reply(name.as_str()) }
                    },
                }
            },
            _ => UploadAction::Idle,
        }
    }
}

} // verus!
