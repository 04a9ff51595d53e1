use vstd::prelude::*;

verus! {

use vstd::string::StringExecFns;
use crate::assets::{generate_asset_name, asset_reference, is_generated_name};
use crate::demux::{classify_part, part_action_of, PartAction, TextField};
use crate::errors::BlogError;
use crate::models::{PostDraft, PostRecord};

/// Where the pipeline stands between two I/O completions: which answer it is
/// waiting for, and what it still remembers about the operation in flight.
pub enum Phase {
    /// Ready for the next part of the submission, or for its end.
    AwaitingPart,
    /// A part body is being decoded as text for this field.
    ReadingText(TextField),
    /// The image attachment's bytes are being read.
    ReadingImage,
    /// The avatar is being fetched from the submitted URL.
    AwaitingAvatar,
    /// The image bytes are being written under this generated file name.
    AwaitingImageWrite(String),
    /// The fetched avatar bytes are being written under this generated name.
    AwaitingAvatarWrite(String),
    /// All parts are consumed and the single insert is being executed.
    AwaitingInsert,
    /// A response was issued; the pipeline accepts no further event.
    Finished,
}

/// One completed piece of outside work, handed back by the driver.
pub enum Event {
    /// The next part arrived, with its declared field and file names.
    Part { name: Option<String>, file_name: Option<String> },
    /// The part sequence is exhausted.
    End,
    /// The current part's body decoded as text, or the decode failure.
    Text(Result<String, String>),
    /// The image attachment's bytes, or the read failure.
    Image(Result<Vec<u8>, String>),
    /// The fetched avatar body, or the transport failure.
    Fetched(Result<Vec<u8>, String>),
    /// The outcome of the asset write.
    Written(Result<(), String>),
    /// The outcome of the insert.
    Inserted(Result<(), String>),
}

/// What the driver must do next. Every piece of I/O the request performs
/// is commanded here; the pipeline itself touches nothing outside.
pub enum Command {
    /// Read the next part's header, or report the end of the stream.
    NextPart,
    /// Decode the current part's body as text.
    ReadText,
    /// Read the current part's body as bytes.
    ReadImage,
    /// Issue one HTTP GET for this URL and hand back the body.
    FetchAvatar(String),
    /// Write these bytes under this file name in the upload directory.
    WriteAsset(String, Vec<u8>),
    /// Execute the single insert committing this record.
    Insert(PostRecord),
    /// Answer the client; the request is over.
    Respond(Outcome),
}

/// The terminal answer of one submission.
pub enum Outcome {
    /// Success: redirect the client to this location.
    Redirect(String),
    /// Failure: the whole submission is discarded.
    Failure(BlogError),
}

/// The ingestion pipeline of one submission: demultiplexes the parts into a
/// draft, materializes assets before the record that references them, and
/// commits exactly one insert once the stream is exhausted and validated.
pub struct Pipeline {
    /// The directory assets are served from; fixed for the whole request.
    pub upload_dir: String,
    pub draft: PostDraft,
    pub phase: Phase,
}

/// The decode-failure message for each text field.
pub open spec fn text_error_prefix(f: TextField) -> Seq<char> {
    match f {
        TextField::Username => "Failed to read username: "@,
        TextField::PostContent => "Failed to read post content: "@,
        TextField::AvatarUrl => "Failed to read avatar_url: "@,
    }
}

/// The complete transition relation of the pipeline: from the state before
/// the event and the event itself, it pins the state after and the command
/// issued.
pub open spec fn transition(pre: Pipeline, event: Event, post: Pipeline, cmd: Command) -> bool {
    &&& post.upload_dir == pre.upload_dir
    &&& match event {
        Event::Part { name, file_name } => {
            &&& pre.phase is AwaitingPart
            &&& post.draft == pre.draft
            &&& match part_action_of(name.deep_view(), file_name.deep_view()) {
                PartAction::ReadText(f) => post.phase == Phase::ReadingText(f) && cmd is ReadText,
                PartAction::ReadImage => post.phase is ReadingImage && cmd is ReadImage,
                PartAction::Skip => post.phase is AwaitingPart && cmd is NextPart,
            }
        },
        Event::End => {
            &&& pre.phase is AwaitingPart
            &&& post.draft == pre.draft
            &&& if pre.draft.username is None {
                &&& post.phase is Finished
                &&& cmd matches Command::Respond(Outcome::Failure(BlogError::Validation(m)))
                    && m@ == "Username is required"@
            } else if pre.draft.content is None {
                &&& post.phase is Finished
                &&& cmd matches Command::Respond(Outcome::Failure(BlogError::Validation(m)))
                    && m@ == "Content is required"@
            } else {
                &&& post.phase is AwaitingInsert
                &&& cmd matches Command::Insert(r)
                    && Some(r.username) == pre.draft.username
                    && Some(r.content) == pre.draft.content
                    && r.image_path == pre.draft.image_path
                    && r.avatar_url == pre.draft.avatar_url
            }
        },
        Event::Text(res) => {
            &&& pre.phase matches Phase::ReadingText(f)
            &&& match res {
                Result::Ok(s) => match f {
                    TextField::Username => {
                        &&& post.draft.username == Some(s)
                        &&& post.draft.content == pre.draft.content
                        &&& post.draft.image_path == pre.draft.image_path
                        &&& post.draft.avatar_url == pre.draft.avatar_url
                        &&& post.phase is AwaitingPart
                        &&& cmd is NextPart
                    },
                    TextField::PostContent => {
                        &&& post.draft.content == Some(s)
                        &&& post.draft.username == pre.draft.username
                        &&& post.draft.image_path == pre.draft.image_path
                        &&& post.draft.avatar_url == pre.draft.avatar_url
                        &&& post.phase is AwaitingPart
                        &&& cmd is NextPart
                    },
                    TextField::AvatarUrl => {
                        &&& post.draft == pre.draft
                        &&& if s@.len() == 0 {
                            post.phase is AwaitingPart && cmd is NextPart
                        } else {
                            &&& post.phase is AwaitingAvatar
                            &&& cmd matches Command::FetchAvatar(u) && u == s
                        }
                    },
                },
                Result::Err(e) => {
                    &&& post.draft == pre.draft
                    &&& post.phase is Finished
                    &&& cmd matches Command::Respond(Outcome::Failure(BlogError::Form(m)))
                        && m@ == text_error_prefix(f) + e@
                },
            }
        },
        Event::Image(res) => {
            &&& pre.phase is ReadingImage
            &&& post.draft == pre.draft
            &&& match res {
                Result::Ok(b) => {
                    if b@.len() == 0 {
                        post.phase is AwaitingPart && cmd is NextPart
                    } else {
                        &&& cmd matches Command::WriteAsset(n, data)
                            && data == b
                            && is_generated_name(n@, "png"@)
                            && (post.phase matches Phase::AwaitingImageWrite(m) && m@ == n@)
                    }
                },
                Result::Err(e) => {
                    &&& post.phase is Finished
                    &&& cmd matches Command::Respond(Outcome::Failure(BlogError::Form(m)))
                        && m@ == "Failed to read image data: "@ + e@
                },
            }
        },
        Event::Fetched(res) => {
            &&& pre.phase is AwaitingAvatar
            &&& post.draft == pre.draft
            &&& match res {
                Result::Ok(b) => {
                    &&& cmd matches Command::WriteAsset(n, data)
                        && data == b
                        && is_generated_name(n@, "png"@)
                        && (post.phase matches Phase::AwaitingAvatarWrite(m) && m@ == n@)
                },
                Result::Err(e) => {
                    &&& post.phase is Finished
                    &&& cmd matches Command::Respond(Outcome::Failure(BlogError::Network(m)))
                        && m@ == "Failed to save avatar: "@ + e@
                },
            }
        },
        Event::Written(res) => {
            match pre.phase {
                Phase::AwaitingImageWrite(n) => match res {
                    Result::Ok(_) => {
                        &&& post.draft.username == pre.draft.username
                        &&& post.draft.content == pre.draft.content
                        &&& post.draft.avatar_url == pre.draft.avatar_url
                        &&& post.draft.image_path matches Some(p)
                            && p@ == pre.upload_dir@ + seq!['/'] + n@
                        &&& post.phase is AwaitingPart
                        &&& cmd is NextPart
                    },
                    Result::Err(e) => {
                        &&& post.draft == pre.draft
                        &&& post.phase is Finished
                        &&& cmd matches Command::Respond(Outcome::Failure(BlogError::FileOperation(m)))
                            && m@ == "Failed to save file: "@ + e@
                    },
                },
                Phase::AwaitingAvatarWrite(n) => match res {
                    Result::Ok(_) => {
                        &&& post.draft.username == pre.draft.username
                        &&& post.draft.content == pre.draft.content
                        &&& post.draft.image_path == pre.draft.image_path
                        &&& post.draft.avatar_url matches Some(p)
                            && p@ == pre.upload_dir@ + seq!['/'] + n@
                        &&& post.phase is AwaitingPart
                        &&& cmd is NextPart
                    },
                    Result::Err(e) => {
                        &&& post.draft == pre.draft
                        &&& post.phase is Finished
                        &&& cmd matches Command::Respond(Outcome::Failure(BlogError::FileOperation(m)))
                            && m@ == "Failed to save avatar to fs: "@ + e@
                    },
                },
                _ => false,
            }
        },
        Event::Inserted(res) => {
            &&& pre.phase is AwaitingInsert
            &&& post.draft == pre.draft
            &&& post.phase is Finished
            &&& match res {
                Result::Ok(_) => cmd matches Command::Respond(Outcome::Redirect(t))
                    && t@ == "/home"@,
                Result::Err(e) => cmd matches Command::Respond(Outcome::Failure(BlogError::Database(m)))
                    && m == e,
            }
        },
    }
}

impl Pipeline {
    /// A fresh pipeline for one request: an empty draft, ready for the
    /// first part.
    pub fn new(upload_dir: String) -> (r: Pipeline)
        ensures
            r.upload_dir == upload_dir,
            r.draft.is_empty_draft(),
            r.phase is AwaitingPart,
    {
        Pipeline { upload_dir, draft: PostDraft::new(), phase: Phase::AwaitingPart }
    }

    /// The event the pipeline is prepared to take in its current phase.
    /// `step` demands this of its caller; a driver that answers each command
    /// with the matching event satisfies it by construction.
    pub open spec fn expects_spec(&self, event: &Event) -> bool {
        match self.phase {
            Phase::AwaitingPart => event is Part || event is End,
            Phase::ReadingText(_) => event is Text,
            Phase::ReadingImage => event is Image,
            Phase::AwaitingAvatar => event is Fetched,
            Phase::AwaitingImageWrite(_) => event is Written,
            Phase::AwaitingAvatarWrite(_) => event is Written,
            Phase::AwaitingInsert => event is Inserted,
            Phase::Finished => false,
        }
    }

    /// Runtime mirror of `expects_spec`, for a driver that wants to check
    /// before calling `step`.
    pub fn expects(&self, event: &Event) -> (r: bool)
        ensures
            r == self.expects_spec(event),
    {
        match &self.phase {
            Phase::AwaitingPart => matches!(event, Event::Part { .. } | Event::End),
            Phase::ReadingText(_) => matches!(event, Event::Text(_)),
            Phase::ReadingImage => matches!(event, Event::Image(_)),
            Phase::AwaitingAvatar => matches!(event, Event::Fetched(_)),
            Phase::AwaitingImageWrite(_) => matches!(event, Event::Written(_)),
            Phase::AwaitingAvatarWrite(_) => matches!(event, Event::Written(_)),
            Phase::AwaitingInsert => matches!(event, Event::Inserted(_)),
            Phase::Finished => false,
        }
    }

    /// One decision of the pipeline: takes the completed piece of outside
    /// work and answers with the next command. The full behaviour is the
    /// `transition` relation.
    pub fn step(&mut self, event: Event) -> (cmd: Command)
        requires
            old(self).expects_spec(&event),
        ensures
            transition(*old(self), event, *final(self), cmd),
    {
        match event {
            Event::Part { name, file_name } => {
                match classify_part(&name, &file_name) {
                    PartAction::ReadText(f) => {
                        self.phase = Phase::ReadingText(f);
                        Command::ReadText
                    },
                    PartAction::ReadImage => {
                        self.phase = Phase::ReadingImage;
                        Command::ReadImage
                    },
                    PartAction::Skip => {
                        self.phase = Phase::AwaitingPart;
                        Command::NextPart
                    },
                }
            },
            Event::End => {
                match crate::feed::finalize(&self.draft) {
                    Result::Ok(rec) => {
                        self.phase = Phase::AwaitingInsert;
                        Command::Insert(rec)
                    },
                    Result::Err(e) => {
                        self.phase = Phase::Finished;
                        Command::Respond(Outcome::Failure(e))
                    },
                }
            },
            Event::Text(res) => {
                let f = match &self.phase {
                    Phase::ReadingText(f) => *f,
                    _ => vstd::pervasive::unreached(),
                };
                match res {
                    Result::Ok(s) => match f {
                        TextField::Username => {
                            self.draft.username = Some(s);
                            self.phase = Phase::AwaitingPart;
                            Command::NextPart
                        },
                        TextField::PostContent => {
                            self.draft.content = Some(s);
                            self.phase = Phase::AwaitingPart;
                            Command::NextPart
                        },
                        TextField::AvatarUrl => {
                            if s.as_str().is_empty() {
                                self.phase = Phase::AwaitingPart;
                                Command::NextPart
                            } else {
                                self.phase = Phase::AwaitingAvatar;
                                Command::FetchAvatar(s)
                            }
                        },
                    },
                    Result::Err(e) => {
                        let mut m = match f {
                            TextField::Username => "Failed to read username: ".to_owned(),
                            TextField::PostContent => "Failed to read post content: ".to_owned(),
                            TextField::AvatarUrl => "Failed to read avatar_url: ".to_owned(),
                        };
                        m.append(e.as_str());
                        self.phase = Phase::Finished;
                        Command::Respond(Outcome::Failure(BlogError::Form(m)))
                    },
                }
            },
            Event::Image(res) => {
                match res {
                    Result::Ok(b) => {
                        if b.len() == 0 {
                            self.phase = Phase::AwaitingPart;
                            Command::NextPart
                        } else {
                            let n = generate_asset_name("png");
                            let pending = n.clone();
                            self.phase = Phase::AwaitingImageWrite(pending);
                            Command::WriteAsset(n, b)
                        }
                    },
                    Result::Err(e) => {
                        let mut m = "Failed to read image data: ".to_owned();
                        m.append(e.as_str());
                        self.phase = Phase::Finished;
                        Command::Respond(Outcome::Failure(BlogError::Form(m)))
                    },
                }
            },
            Event::Fetched(res) => {
                match res {
                    Result::Ok(b) => {
                        let n = generate_asset_name("png");
                        let pending = n.clone();
                        self.phase = Phase::AwaitingAvatarWrite(pending);
                        Command::WriteAsset(n, b)
                    },
                    Result::Err(e) => {
                        let mut m = "Failed to save avatar: ".to_owned();
                        m.append(e.as_str());
                        self.phase = Phase::Finished;
                        Command::Respond(Outcome::Failure(BlogError::Network(m)))
                    },
                }
            },
            Event::Written(res) => {
                match res {
                    Result::Ok(_) => {
                        match &self.phase {
                            Phase::AwaitingImageWrite(n) => {
                                let p = asset_reference(self.upload_dir.as_str(), n.as_str());
                                self.draft.image_path = Some(p);
                                self.phase = Phase::AwaitingPart;
                                Command::NextPart
                            },
                            Phase::AwaitingAvatarWrite(n) => {
                                let p = asset_reference(self.upload_dir.as_str(), n.as_str());
                                self.draft.avatar_url = Some(p);
                                self.phase = Phase::AwaitingPart;
                                Command::NextPart
                            },
                            _ => vstd::pervasive::unreached(),
                        }
                    },
                    Result::Err(e) => {
                        match &self.phase {
                            Phase::AwaitingImageWrite(_) => {
                                let mut m = "Failed to save file: ".to_owned();
                                m.append(e.as_str());
                                self.phase = Phase::Finished;
                                Command::Respond(Outcome::Failure(BlogError::FileOperation(m)))
                            },
                            Phase::AwaitingAvatarWrite(_) => {
                                let mut m = "Failed to save avatar to fs: ".to_owned();
                                m.append(e.as_str());
                                self.phase = Phase::Finished;
                                Command::Respond(Outcome::Failure(BlogError::FileOperation(m)))
                            },
                            _ => vstd::pervasive::unreached(),
                        }
                    },
                }
            },
            Event::Inserted(res) => {
                self.phase = Phase::Finished;
                match res {
                    Result::Ok(_) => Command::Respond(Outcome::Redirect("/home".to_owned())),
                    Result::Err(e) => Command::Respond(Outcome::Failure(BlogError::Database(e))),
                }
            },
        }
    }
}

/// A stored-asset reference: the serving directory joined with some
/// generated `.png` file name.
pub open spec fn is_asset_ref(r: Seq<char>, dir: Seq<char>) -> bool {
    exists|n: Seq<char>| is_generated_name(n, "png"@) && r == dir + seq!['/'] + n
}

/// Every asset name the pipeline is waiting on, and every asset reference
/// already folded into the draft, carries a generated `.png` name — the
/// references under the upload directory.
pub open spec fn assets_well_formed(p: Pipeline) -> bool {
    &&& (p.phase matches Phase::AwaitingImageWrite(n) ==> is_generated_name(n@, "png"@))
    &&& (p.phase matches Phase::AwaitingAvatarWrite(n) ==> is_generated_name(n@, "png"@))
    &&& (p.draft.image_path matches Some(r) ==> is_asset_ref(r@, p.upload_dir@))
    &&& (p.draft.avatar_url matches Some(r) ==> is_asset_ref(r@, p.upload_dir@))
}

/// A fresh pipeline trivially satisfies the asset-reference invariant.
pub proof fn lemma_new_pipeline_assets_well_formed(p: Pipeline)
    requires
        p.draft.is_empty_draft(),
        p.phase is AwaitingPart,
    ensures
        assets_well_formed(p),
{
}

/// The asset-reference invariant is preserved by every transition: a name
/// enters the pending phase only freshly generated, and enters the draft
/// only as the upload directory joined with that pending name.
pub proof fn lemma_assets_well_formed_preserved(
    pre: Pipeline,
    event: Event,
    post: Pipeline,
    cmd: Command,
)
    requires
        transition(pre, event, post, cmd),
        assets_well_formed(pre),
    ensures
        assets_well_formed(post),
{
    if event matches Event::Written(res) && res is Ok {
        match pre.phase {
            Phase::AwaitingImageWrite(n) => {
                assert(post.draft.image_path matches Some(p) && p@ == pre.upload_dir@ + seq!['/']
                    + n@);
                assert(is_asset_ref(pre.upload_dir@ + seq!['/'] + n@, post.upload_dir@));
            },
            Phase::AwaitingAvatarWrite(n) => {
                assert(post.draft.avatar_url matches Some(p) && p@ == pre.upload_dir@ + seq!['/']
                    + n@);
                assert(is_asset_ref(pre.upload_dir@ + seq!['/'] + n@, post.upload_dir@));
            },
            _ => {},
        }
    }
}

/// The reference invariant at the commit point: the record handed to the
/// single insert references assets only through generated names under the
/// request's upload directory — each one the subject of a write commanded
/// earlier in the same request.
pub proof fn lemma_insert_references_are_stored_assets(
    pre: Pipeline,
    event: Event,
    post: Pipeline,
    cmd: Command,
    rec: PostRecord,
)
    requires
        transition(pre, event, post, cmd),
        assets_well_formed(pre),
        cmd == Command::Insert(rec),
    ensures
        rec.image_path matches Some(r) ==> is_asset_ref(r@, pre.upload_dir@),
        rec.avatar_url matches Some(r) ==> is_asset_ref(r@, pre.upload_dir@),
{
}

/// Required-field law: when the part stream ends while either required
/// field is missing, the pipeline answers with a validation failure and the
/// request is over — in particular no insert is commanded, so no row is
/// persisted for such a submission.
pub proof fn lemma_missing_required_field_rejected(pre: Pipeline, post: Pipeline, cmd: Command)
    requires
        transition(pre, Event::End, post, cmd),
        !pre.draft.is_complete(),
    ensures
        cmd matches Command::Respond(Outcome::Failure(BlogError::Validation(_))),
        !(cmd is Insert),
        post.phase is Finished,
{
}

/// A row can be committed only for a complete draft: whatever the event,
/// an insert command arises solely at the end of the stream, with both
/// required fields present, and carries exactly the draft's fields.
pub proof fn lemma_insert_only_for_complete_draft(
    pre: Pipeline,
    event: Event,
    post: Pipeline,
    cmd: Command,
    rec: PostRecord,
)
    requires
        transition(pre, event, post, cmd),
        cmd == Command::Insert(rec),
    ensures
        event is End,
        pre.draft.is_complete(),
        Some(rec.username) == pre.draft.username,
        Some(rec.content) == pre.draft.content,
        rec.image_path == pre.draft.image_path,
        rec.avatar_url == pre.draft.avatar_url,
{
}

/// Unrecognized-field tolerance: a part whose name is unknown or absent —
/// or a `post_image` part without a `.png` file name — leaves the pipeline
/// exactly as it was and merely asks for the next part, so the submission
/// proceeds identically to one without that part.
pub proof fn lemma_unknown_part_inert(
    pre: Pipeline,
    name: Option<String>,
    file_name: Option<String>,
    post: Pipeline,
    cmd: Command,
)
    requires
        transition(pre, Event::Part { name, file_name }, post, cmd),
        part_action_of(name.deep_view(), file_name.deep_view()) is Skip,
    ensures
        post == pre,
        cmd is NextPart,
{
}

/// Avatar round trip, storage half: the fetched body is handed to the
/// write command byte for byte, under a fresh generated `.png` name, and
/// that very name is what the pipeline remembers for the draft's
/// reference.
pub proof fn lemma_avatar_bytes_stored_unchanged(
    pre: Pipeline,
    b: Vec<u8>,
    post: Pipeline,
    cmd: Command,
)
    requires
        transition(pre, Event::Fetched(Result::Ok(b)), post, cmd),
    ensures
        cmd matches Command::WriteAsset(n, data) && data@ == b@ && is_generated_name(n@, "png"@)
            && (post.phase matches Phase::AwaitingAvatarWrite(m) && m@ == n@),
{
}

/// Avatar round trip, reference half: once the write under the pending
/// name succeeds, the draft's avatar reference is the upload directory
/// joined with exactly that name, and nothing else of the draft moves.
pub proof fn lemma_avatar_reference_resolves(
    pre: Pipeline,
    n: String,
    post: Pipeline,
    cmd: Command,
)
    requires
        pre.phase == Phase::AwaitingAvatarWrite(n),
        transition(pre, Event::Written(Result::Ok(())), post, cmd),
    ensures
        post.draft.avatar_url matches Some(p) && p@ == pre.upload_dir@ + seq!['/'] + n@,
        post.draft.username == pre.draft.username,
        post.draft.content == pre.draft.content,
        post.draft.image_path == pre.draft.image_path,
        cmd is NextPart,
{
}

/// Image upload, storage half: a non-empty image body is handed to the
/// write command byte for byte, under a fresh generated `.png` name that
/// the pipeline remembers for the draft's reference.
pub proof fn lemma_image_bytes_stored_unchanged(
    pre: Pipeline,
    b: Vec<u8>,
    post: Pipeline,
    cmd: Command,
)
    requires
        transition(pre, Event::Image(Result::Ok(b)), post, cmd),
        b@.len() > 0,
    ensures
        cmd matches Command::WriteAsset(n, data) && data@ == b@ && is_generated_name(n@, "png"@)
            && (post.phase matches Phase::AwaitingImageWrite(m) && m@ == n@),
{
}

/// Image upload, reference half: once the write under the pending name
/// succeeds, the draft's image reference is the upload directory joined
/// with exactly that name, and nothing else of the draft moves.
pub proof fn lemma_image_reference_resolves(pre: Pipeline, n: String, post: Pipeline, cmd: Command)
    requires
        pre.phase == Phase::AwaitingImageWrite(n),
        transition(pre, Event::Written(Result::Ok(())), post, cmd),
    ensures
        post.draft.image_path matches Some(p) && p@ == pre.upload_dir@ + seq!['/'] + n@,
        post.draft.username == pre.draft.username,
        post.draft.content == pre.draft.content,
        post.draft.avatar_url == pre.draft.avatar_url,
        cmd is NextPart,
{
}

/// A field, once seen, is never dropped back to absent: every transition
/// keeps a present draft field present (a repeated text part overwrites the
/// value — last write wins — but never clears it).
pub proof fn lemma_draft_fields_persist(pre: Pipeline, event: Event, post: Pipeline, cmd: Command)
    requires
        transition(pre, event, post, cmd),
    ensures
        pre.draft.username is Some ==> post.draft.username is Some,
        pre.draft.content is Some ==> post.draft.content is Some,
        pre.draft.image_path is Some ==> post.draft.image_path is Some,
        pre.draft.avatar_url is Some ==> post.draft.avatar_url is Some,
{
}

/// Failure atomicity: when the insert fails, the pipeline reports the
/// database failure and stops — the command vocabulary holds no deletion,
/// and a finished pipeline admits no further transition, so an asset file
/// written earlier in the request stays in place, referenced by no row.
pub proof fn lemma_insert_failure_is_terminal(
    pre: Pipeline,
    e: String,
    post: Pipeline,
    cmd: Command,
)
    requires
        transition(pre, Event::Inserted(Result::Err(e)), post, cmd),
    ensures
        cmd matches Command::Respond(Outcome::Failure(BlogError::Database(m))) && m == e,
        post.phase is Finished,
        post.draft == pre.draft,
        forall|ev: Event, q: Pipeline, c: Command| !transition(post, ev, q, c),
{
}

} // verus!
