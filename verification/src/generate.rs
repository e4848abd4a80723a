//! The generation pipeline as a state machine. The machine decides; its
//! driver does the input and output that each [`Action`] names and hands the
//! result back as an [`Event`].

use vstd::prelude::*;

use crate::error::ThumbnailError;
use crate::file::{
    failed_dir, failed_path, file_uri, get_failed_dir, get_failed_thumbnail_output, get_file_uri,
    get_thumbnail_dir, get_thumbnail_hash_output, thumbnail_dir, thumbnail_path,
};
use crate::hash::{compute_hash, fingerprint};
use crate::provenance::{
    add_thumbnail_metadata, chunks_fresh, encoded, fail_marker, first_text, has_provenance,
    lemma_artifacts_fresh, lemma_fresh_after_metadata, lemma_provenance_texts, png_decoding,
    png_text, with_provenance, write_failed_thumbnail, PngImage, PngModel, SourceMeta,
};
use crate::sizes::ThumbnailSize;
use crate::text::{decimal, lemma_decimal_round_trip, option_view, strings_view};
use crate::thumbnail::{
    buffer_view, checked_image, decoded_rgba, is_fresh, is_thumbnail_up_to_date,
    lemma_rendered_artifact, render_thumbnail, rendered_for,
};
use crate::thumbnailer::{
    build_command_args, codec_handles, codec_reads, command_args, command_line, find_thumbnailer,
    guess_mime, guessed_mime, helper_command, lemma_sandbox_keeps_command, select_helper,
    shell_words, ConfigModel, SandboxModel, SandboxProbe, ThumbnailerConfig,
};

verus! {

/// A request for the thumbnail of one source file at one size.
#[derive(Debug)]
pub struct Request {
    /// The source file, as the caller names it.
    pub source_path: String,
    pub size: ThumbnailSize,
    /// The cache root.
    pub cache_root: String,
}

/// The mathematical value of a [`Request`].
pub struct RequestModel {
    pub source_path: Seq<char>,
    pub size: ThumbnailSize,
    pub cache_root: Seq<char>,
}

impl View for Request {
    type V = RequestModel;

    open spec fn view(&self) -> RequestModel {
        RequestModel {
            source_path: self.source_path@,
            size: self.size,
            cache_root: self.cache_root@,
        }
    }
}

/// A request whose source is resolved: the path as the caller gave it, the
/// canonical absolute path, its file URI and the fingerprint of that URI.
#[derive(Debug)]
pub struct Context {
    pub given: String,
    pub source: String,
    pub uri: String,
    pub hash: String,
    pub size: ThumbnailSize,
    pub cache_root: String,
}

/// The mathematical value of a [`Context`].
pub struct ContextModel {
    pub given: Seq<char>,
    pub source: Seq<char>,
    pub uri: Seq<char>,
    pub hash: Seq<char>,
    pub size: ThumbnailSize,
    pub cache_root: Seq<char>,
}

impl ContextModel {
    /// Where the thumbnail of this request belongs.
    pub open spec fn thumb_path(self) -> Seq<char> {
        thumbnail_path(self.cache_root, self.hash, self.size)
    }

    /// The directory of that thumbnail.
    pub open spec fn thumb_dir(self) -> Seq<char> {
        thumbnail_dir(self.cache_root, self.size)
    }

    /// Where the fail marker of this request belongs.
    pub open spec fn fail_path(self) -> Seq<char> {
        failed_path(self.cache_root, self.hash)
    }

    /// The directory of that fail marker.
    pub open spec fn fail_dir(self) -> Seq<char> {
        failed_dir(self.cache_root)
    }

    /// Whether the URI is that of the source and the hash that of the URI.
    pub open spec fn consistent(self) -> bool {
        file_uri(self.source) == Some(self.uri) && self.hash == fingerprint(self.uri)
    }
}

impl View for Context {
    type V = ContextModel;

    open spec fn view(&self) -> ContextModel {
        ContextModel {
            given: self.given@,
            source: self.source@,
            uri: self.uri@,
            hash: self.hash@,
            size: self.size,
            cache_root: self.cache_root@,
        }
    }
}

impl Context {
    /// Where the thumbnail of this request belongs.
    pub fn thumb_path(&self) -> (path: String)
        ensures
            path@ == self@.thumb_path(),
    {
        get_thumbnail_hash_output(self.cache_root.as_str(), self.hash.as_str(), self.size)
    }

    /// The directory of that thumbnail.
    pub fn thumb_dir(&self) -> (dir: String)
        ensures
            dir@ == self@.thumb_dir(),
    {
        get_thumbnail_dir(self.cache_root.as_str(), self.size)
    }

    /// Where the fail marker of this request belongs.
    pub fn fail_path(&self) -> (path: String)
        ensures
            path@ == self@.fail_path(),
    {
        get_failed_thumbnail_output(self.cache_root.as_str(), self.hash.as_str())
    }

    /// The directory of that fail marker.
    pub fn fail_dir(&self) -> (dir: String)
        ensures
            dir@ == self@.fail_dir(),
    {
        get_failed_dir(self.cache_root.as_str())
    }
}

/// What the driver prepared for a helper run: the temporary file that the
/// helper is to write, made in the thumbnail directory, and the sandbox, if
/// the machine has one.
#[derive(Debug)]
pub struct Workspace {
    pub output: String,
    pub sandbox: Option<SandboxProbe>,
}

/// The mathematical value of a [`Workspace`].
pub struct WorkspaceModel {
    pub output: Seq<char>,
    pub sandbox: Option<SandboxModel>,
}

impl View for Workspace {
    type V = WorkspaceModel;

    open spec fn view(&self) -> WorkspaceModel {
        WorkspaceModel {
            output: self.output@,
            sandbox: match self.sandbox {
                Some(p) => Some(p@),
                None => None,
            },
        }
    }
}

/// How an attempt to store an artifact ended.
#[derive(Clone, Copy, Debug, PartialEq, Eq, Structural)]
pub enum StoreStatus {
    /// The artifact stands at its final path.
    Stored,
    /// The directory or the temporary file could not be written.
    WriteFailed,
    /// The temporary file could not be renamed to the final path.
    RenameFailed,
}

/// What the driver reports back.
#[derive(Debug)]
pub enum Event {
    /// The canonical absolute path of the source, or `None` if it cannot be
    /// resolved.
    Resolved(Option<String>),
    /// The bytes of a cached artifact, if it exists and can be read, and the
    /// source's metadata, if it can be obtained.
    Entry { artifact: Option<Vec<u8>>, source: Option<SourceMeta> },
    /// The texts of the helper descriptors in order of priority, or `None`
    /// if a directory could not be read.
    Helpers(Option<Vec<String>>),
    /// Whether the program is on the search path.
    Executable(bool),
    /// The workspace for a helper run, or `None` if it could not be made.
    Prepared(Option<Workspace>),
    /// The helper's command could not be started.
    Unstarted,
    /// How the helper ended, what it left in its output file, and the
    /// source's metadata.
    Exited { success: bool, output: Option<Vec<u8>>, source: Option<SourceMeta> },
    /// The bytes of the source, if it can be read, and its metadata.
    Source { bytes: Option<Vec<u8>>, source: Option<SourceMeta> },
    /// How storing an artifact ended.
    Stored(StoreStatus),
}

/// The mathematical value of an [`Event`].
pub enum EventModel {
    Resolved(Option<Seq<char>>),
    Entry { artifact: Option<Seq<u8>>, source: Option<SourceMeta> },
    Helpers(Option<Seq<Seq<char>>>),
    Executable(bool),
    Prepared(Option<WorkspaceModel>),
    Unstarted,
    Exited { success: bool, output: Option<Seq<u8>>, source: Option<SourceMeta> },
    Source { bytes: Option<Seq<u8>>, source: Option<SourceMeta> },
    Stored(StoreStatus),
}

impl View for Event {
    type V = EventModel;

    open spec fn view(&self) -> EventModel {
        match *self {
            Event::Resolved(path) => EventModel::Resolved(option_view(path)),
            Event::Entry { artifact, source } => EventModel::Entry {
                artifact: buffer_view(artifact),
                source,
            },
            Event::Helpers(texts) => EventModel::Helpers(
                match texts {
                    Some(t) => Some(strings_view(t@)),
                    None => None,
                },
            ),
            Event::Executable(found) => EventModel::Executable(found),
            Event::Prepared(workspace) => EventModel::Prepared(
                match workspace {
                    Some(w) => Some(w@),
                    None => None,
                },
            ),
            Event::Unstarted => EventModel::Unstarted,
            Event::Exited { success, output, source } => EventModel::Exited {
                success,
                output: buffer_view(output),
                source,
            },
            Event::Source { bytes, source } => EventModel::Source {
                bytes: buffer_view(bytes),
                source,
            },
            Event::Stored(status) => EventModel::Stored(status),
        }
    }
}

/// What the driver is to do next.
#[derive(Debug)]
pub enum Action {
    /// Resolve the path to the canonical absolute path of the source.
    Resolve { path: String },
    /// Read the artifact if it exists, and the metadata of the source.
    ReadEntry { artifact: String, source: String },
    /// Read the helper descriptors of the search directories.
    ListHelpers,
    /// Look for the program on the search path.
    FindExecutable { name: String },
    /// Make the directory, a temporary file in it, and probe for the sandbox.
    Prepare { dir: String },
    /// Run the command, then read the output file and the metadata of the
    /// source.
    Run { argv: Vec<String>, output: String, source: String },
    /// Read the source and its metadata.
    ReadSource { source: String },
    /// Make the directory, write the bytes to a temporary file in it, and
    /// rename that file to the path.
    Store { dir: String, path: String, bytes: Vec<u8> },
    /// The request is answered: the thumbnail stands at the path.
    Ready { path: String },
    /// The request failed. `marker` is the fail marker that records the
    /// failure, where there is one.
    Failed { error: ThumbnailError, marker: Option<String> },
}

/// The mathematical value of an [`Action`].
pub enum ActionModel {
    Resolve { path: Seq<char> },
    ReadEntry { artifact: Seq<char>, source: Seq<char> },
    ListHelpers,
    FindExecutable { name: Seq<char> },
    Prepare { dir: Seq<char> },
    Run { argv: Seq<Seq<char>>, output: Seq<char>, source: Seq<char> },
    ReadSource { source: Seq<char> },
    Store { dir: Seq<char>, path: Seq<char>, bytes: Seq<u8> },
    Ready { path: Seq<char> },
    Failed { error: ThumbnailError, marker: Option<Seq<char>> },
}

impl View for Action {
    type V = ActionModel;

    open spec fn view(&self) -> ActionModel {
        match *self {
            Action::Resolve { path } => ActionModel::Resolve { path: path@ },
            Action::ReadEntry { artifact, source } => ActionModel::ReadEntry {
                artifact: artifact@,
                source: source@,
            },
            Action::ListHelpers => ActionModel::ListHelpers,
            Action::FindExecutable { name } => ActionModel::FindExecutable { name: name@ },
            Action::Prepare { dir } => ActionModel::Prepare { dir: dir@ },
            Action::Run { argv, output, source } => ActionModel::Run {
                argv: strings_view(argv@),
                output: output@,
                source: source@,
            },
            Action::ReadSource { source } => ActionModel::ReadSource { source: source@ },
            Action::Store { dir, path, bytes } => ActionModel::Store {
                dir: dir@,
                path: path@,
                bytes: bytes@,
            },
            Action::Ready { path } => ActionModel::Ready { path: path@ },
            Action::Failed { error, marker } => ActionModel::Failed {
                error,
                marker: option_view(marker),
            },
        }
    }
}

/// Where a request stands.
#[derive(Debug)]
pub enum State {
    /// Waiting for the source to be resolved.
    Resolving(Request),
    /// Waiting for the fail marker.
    CheckingFail(Context),
    /// Waiting for the cached thumbnail.
    CheckingThumb(Context),
    /// Waiting for the helper descriptors.
    Selecting(Context),
    /// Waiting to learn whether the helper's program is installed.
    Probing(Context, ThumbnailerConfig),
    /// Waiting for the helper's workspace.
    Preparing(Context, ThumbnailerConfig),
    /// Waiting for the helper to end.
    Running(Context),
    /// Waiting for the bytes of the source.
    Rendering(Context),
    /// Waiting for the thumbnail to be stored.
    Committing(Context),
    /// Waiting for the fail marker to be stored; the error is the failure
    /// that it records.
    Failing(Context, ThumbnailError),
    /// The request is answered.
    Finished,
}

/// The mathematical value of a [`State`].
pub enum StateModel {
    Resolving(RequestModel),
    CheckingFail(ContextModel),
    CheckingThumb(ContextModel),
    Selecting(ContextModel),
    Probing(ContextModel, ConfigModel),
    Preparing(ContextModel, ConfigModel),
    Running(ContextModel),
    Rendering(ContextModel),
    Committing(ContextModel),
    Failing(ContextModel, ThumbnailError),
    Finished,
}

impl View for State {
    type V = StateModel;

    open spec fn view(&self) -> StateModel {
        match *self {
            State::Resolving(r) => StateModel::Resolving(r@),
            State::CheckingFail(c) => StateModel::CheckingFail(c@),
            State::CheckingThumb(c) => StateModel::CheckingThumb(c@),
            State::Selecting(c) => StateModel::Selecting(c@),
            State::Probing(c, h) => StateModel::Probing(c@, h@),
            State::Preparing(c, h) => StateModel::Preparing(c@, h@),
            State::Running(c) => StateModel::Running(c@),
            State::Rendering(c) => StateModel::Rendering(c@),
            State::Committing(c) => StateModel::Committing(c@),
            State::Failing(c, e) => StateModel::Failing(c@, e),
            State::Finished => StateModel::Finished,
        }
    }
}

/// The request ends with an error that no fail marker records.
pub open spec fn finish(error: ThumbnailError) -> (StateModel, ActionModel) {
    (StateModel::Finished, ActionModel::Failed { error, marker: None })
}

/// The first step: the source is to be resolved.
pub open spec fn initial(request: RequestModel) -> (StateModel, ActionModel) {
    (StateModel::Resolving(request), ActionModel::Resolve { path: request.source_path })
}

/// Whether a cached artifact may stand for the source as it is now.
pub open spec fn entry_fresh(artifact: Option<Seq<u8>>, source: Option<SourceMeta>) -> bool {
    is_fresh(
        match artifact {
            Some(bytes) => png_text(bytes),
            None => None,
        },
        source,
    )
}

/// Once the source is resolved: a source that cannot be resolved is missing;
/// a path without a file URI is an I/O error; else the fail marker is looked
/// at first.
pub open spec fn after_resolve(request: RequestModel, resolved: Option<Seq<char>>) -> (
    StateModel,
    ActionModel,
) {
    match resolved {
        None => finish(ThumbnailError::MissingSource),
        Some(source) => match file_uri(source) {
            None => finish(ThumbnailError::Io),
            Some(uri) => {
                let context = ContextModel {
                    given: request.source_path,
                    source,
                    uri,
                    hash: fingerprint(uri),
                    size: request.size,
                    cache_root: request.cache_root,
                };
                (
                    StateModel::CheckingFail(context),
                    ActionModel::ReadEntry { artifact: context.fail_path(), source },
                )
            },
        },
    }
}

/// Once the fail marker is read: a fresh one answers the request with
/// `NegativeCached`; else the cached thumbnail is looked at.
pub open spec fn after_fail_check(
    context: ContextModel,
    artifact: Option<Seq<u8>>,
    source: Option<SourceMeta>,
) -> (StateModel, ActionModel) {
    if entry_fresh(artifact, source) {
        (
            StateModel::Finished,
            ActionModel::Failed {
                error: ThumbnailError::NegativeCached,
                marker: Some(context.fail_path()),
            },
        )
    } else {
        (
            StateModel::CheckingThumb(context),
            ActionModel::ReadEntry { artifact: context.thumb_path(), source: context.source },
        )
    }
}

/// Once the cached thumbnail is read: a fresh one answers the request; else
/// a helper is looked for.
pub open spec fn after_thumb_check(
    context: ContextModel,
    artifact: Option<Seq<u8>>,
    source: Option<SourceMeta>,
) -> (StateModel, ActionModel) {
    if entry_fresh(artifact, source) {
        (StateModel::Finished, ActionModel::Ready { path: context.thumb_path() })
    } else {
        (StateModel::Selecting(context), ActionModel::ListHelpers)
    }
}

/// The next step once a helper is chosen: its `TryExec` program, if it names
/// one, is looked for first; else its workspace is prepared.
pub open spec fn with_helper(context: ContextModel, helper: ConfigModel) -> (
    StateModel,
    ActionModel,
) {
    match helper.try_exec {
        Some(name) => (StateModel::Probing(context, helper), ActionModel::FindExecutable { name }),
        None => (
            StateModel::Preparing(context, helper),
            ActionModel::Prepare { dir: context.thumb_dir() },
        ),
    }
}

/// Once the descriptors are read: with a helper for the source's MIME type
/// the request goes the external way; without one it goes the in-process
/// way if the codec reads that type, and fails with `NoHelper` if not. The
/// MIME type is guessed from the path as the caller gave it.
pub open spec fn after_helpers(context: ContextModel, descriptors: Option<Seq<Seq<char>>>) -> (
    StateModel,
    ActionModel,
) {
    match descriptors {
        None => finish(ThumbnailError::Io),
        Some(texts) => match select_helper(texts, guessed_mime(context.given), false) {
            Err(e) => finish(e),
            Ok(Some(helper)) => with_helper(context, helper),
            Ok(None) => if codec_handles(guessed_mime(context.given)) {
                (
                    StateModel::Rendering(context),
                    ActionModel::ReadSource { source: context.source },
                )
            } else {
                finish(ThumbnailError::NoHelper)
            },
        },
    }
}

/// Once the helper's program is looked for: without it the request fails
/// with `HelperMissing`.
pub open spec fn after_probe(context: ContextModel, helper: ConfigModel, found: bool) -> (
    StateModel,
    ActionModel,
) {
    if found {
        (StateModel::Preparing(context, helper), ActionModel::Prepare { dir: context.thumb_dir() })
    } else {
        finish(ThumbnailError::HelperMissing)
    }
}

/// Once the workspace is made: the helper's command is built from its
/// template and wrapped in the sandbox, where there is one.
pub open spec fn after_prepare(
    context: ContextModel,
    helper: ConfigModel,
    workspace: Option<WorkspaceModel>,
) -> (StateModel, ActionModel) {
    match workspace {
        None => finish(ThumbnailError::Io),
        Some(w) => match command_args(
            shell_words(helper.exec_line),
            context.size.dimension() as u32,
            context.uri,
            context.source,
            w.output,
        ) {
            Err(e) => finish(e),
            Ok(args) => if args.len() == 0 {
                finish(ThumbnailError::BadConfig)
            } else {
                (
                    StateModel::Running(context),
                    ActionModel::Run {
                        argv: command_line(w.sandbox, context.thumb_dir(), context.source, args),
                        output: w.output,
                        source: context.source,
                    },
                )
            },
        },
    }
}

/// A thumbnail is to be stored at the thumbnail path.
pub open spec fn store_thumbnail(context: ContextModel, image: PngModel) -> (
    StateModel,
    ActionModel,
) {
    match encoded(image) {
        None => finish(ThumbnailError::Provenance),
        Some(bytes) => (
            StateModel::Committing(context),
            ActionModel::Store { dir: context.thumb_dir(), path: context.thumb_path(), bytes },
        ),
    }
}

/// A failure is to be recorded: the fail marker is to be stored at the fail
/// path.
pub open spec fn store_marker(context: ContextModel, error: ThumbnailError, meta: SourceMeta) -> (
    StateModel,
    ActionModel,
) {
    match encoded(fail_marker(context.uri, meta)) {
        None => finish(ThumbnailError::Provenance),
        Some(bytes) => (
            StateModel::Failing(context, error),
            ActionModel::Store { dir: context.fail_dir(), path: context.fail_path(), bytes },
        ),
    }
}

/// The image that a helper left, if it ended well and left a PNG file.
pub open spec fn helper_image(success: bool, output: Option<Seq<u8>>) -> Option<PngModel> {
    if success {
        match output {
            Some(bytes) => png_decoding(bytes),
            None => None,
        }
    } else {
        None
    }
}

/// Once the helper has ended: its image gets the provenance chunks and is
/// stored; a helper that failed or left no usable PNG is recorded by a fail
/// marker.
pub open spec fn after_helper(
    context: ContextModel,
    success: bool,
    output: Option<Seq<u8>>,
    source: Option<SourceMeta>,
) -> (StateModel, ActionModel) {
    match source {
        None => finish(ThumbnailError::MissingSource),
        Some(meta) => match helper_image(success, output) {
            Some(image) => store_thumbnail(context, with_provenance(image, context.uri, meta)),
            None => store_marker(context, ThumbnailError::HelperFailed, meta),
        },
    }
}

/// Once the source is read: it is rendered in this process and stored; a
/// source that cannot be rendered is recorded by a fail marker.
pub open spec fn after_source(
    context: ContextModel,
    bytes: Option<Seq<u8>>,
    source: Option<SourceMeta>,
) -> (StateModel, ActionModel) {
    match source {
        None => finish(ThumbnailError::MissingSource),
        Some(meta) => match bytes {
            None => finish(ThumbnailError::Io),
            Some(b) => match rendered_for(
                checked_image(decoded_rgba(b)),
                context.size,
                context.uri,
                meta,
            ) {
                Ok(image) => store_thumbnail(context, image),
                Err(e) => store_marker(context, e, meta),
            },
        },
    }
}

/// The error for a store that did not succeed.
pub open spec fn store_error(status: StoreStatus) -> ThumbnailError {
    match status {
        StoreStatus::RenameFailed => ThumbnailError::Commit,
        _ => ThumbnailError::Io,
    }
}

/// Once the thumbnail is stored, the request is answered.
pub open spec fn after_store(context: ContextModel, status: StoreStatus) -> (
    StateModel,
    ActionModel,
) {
    match status {
        StoreStatus::Stored => (
            StateModel::Finished,
            ActionModel::Ready { path: context.thumb_path() },
        ),
        _ => finish(store_error(status)),
    }
}

/// Once the fail marker is stored, the request fails with the error that the
/// marker records.
pub open spec fn after_marker(context: ContextModel, error: ThumbnailError, status: StoreStatus) -> (
    StateModel,
    ActionModel,
) {
    match status {
        StoreStatus::Stored => (
            StateModel::Finished,
            ActionModel::Failed { error, marker: Some(context.fail_path()) },
        ),
        _ => finish(store_error(status)),
    }
}

/// The machine: the next state and the next action, for each state and
/// event. A helper that could not be started, and an event that the state
/// does not wait for, end the request with an I/O error.
pub open spec fn transition(state: StateModel, event: EventModel) -> (StateModel, ActionModel) {
    match state {
        StateModel::Resolving(request) => match event {
            EventModel::Resolved(path) => after_resolve(request, path),
            _ => finish(ThumbnailError::Io),
        },
        StateModel::CheckingFail(context) => match event {
            EventModel::Entry { artifact, source } => after_fail_check(context, artifact, source),
            _ => finish(ThumbnailError::Io),
        },
        StateModel::CheckingThumb(context) => match event {
            EventModel::Entry { artifact, source } => after_thumb_check(context, artifact, source),
            _ => finish(ThumbnailError::Io),
        },
        StateModel::Selecting(context) => match event {
            EventModel::Helpers(texts) => after_helpers(context, texts),
            _ => finish(ThumbnailError::Io),
        },
        StateModel::Probing(context, helper) => match event {
            EventModel::Executable(found) => after_probe(context, helper, found),
            _ => finish(ThumbnailError::Io),
        },
        StateModel::Preparing(context, helper) => match event {
            EventModel::Prepared(workspace) => after_prepare(context, helper, workspace),
            _ => finish(ThumbnailError::Io),
        },
        StateModel::Running(context) => match event {
            EventModel::Exited { success, output, source } => after_helper(
                context,
                success,
                output,
                source,
            ),
            _ => finish(ThumbnailError::Io),
        },
        StateModel::Rendering(context) => match event {
            EventModel::Source { bytes, source } => after_source(context, bytes, source),
            _ => finish(ThumbnailError::Io),
        },
        StateModel::Committing(context) => match event {
            EventModel::Stored(status) => after_store(context, status),
            _ => finish(ThumbnailError::Io),
        },
        StateModel::Failing(context, error) => match event {
            EventModel::Stored(status) => after_marker(context, error, status),
            _ => finish(ThumbnailError::Io),
        },
        StateModel::Finished => finish(ThumbnailError::Io),
    }
}

fn finished(error: ThumbnailError) -> (step: (State, Action))
    ensures
        (step.0@, step.1@) == finish(error),
{
    (State::Finished, Action::Failed { error, marker: None })
}

fn resolved(request: Request, path: Option<String>) -> (step: (State, Action))
    ensures
        (step.0@, step.1@) == after_resolve(request@, option_view(path)),
{
    let source = match path {
        Some(p) => p,
        None => {
            return finished(ThumbnailError::MissingSource);
        },
    };
    let uri = match get_file_uri(request.source_path.as_str(), Some(source.as_str())) {
        Ok(u) => u,
        Err(e) => {
            return finished(e);
        },
    };
    let hash = compute_hash(uri.as_str());
    let context = Context {
        given: request.source_path,
        source,
        uri,
        hash,
        size: request.size,
        cache_root: request.cache_root,
    };
    let artifact = context.fail_path();
    let source = context.source.clone();
    (State::CheckingFail(context), Action::ReadEntry { artifact, source })
}

fn fresh_entry(artifact: &Option<Vec<u8>>, source: Option<SourceMeta>) -> (fresh: bool)
    ensures
        fresh == entry_fresh(buffer_view(*artifact), source),
{
    match artifact {
        Some(bytes) => is_thumbnail_up_to_date(Some(bytes.as_slice()), source),
        None => is_thumbnail_up_to_date(None, source),
    }
}

fn fail_checked(context: Context, artifact: Option<Vec<u8>>, source: Option<SourceMeta>) -> (step:
    (State, Action))
    ensures
        (step.0@, step.1@) == after_fail_check(context@, buffer_view(artifact), source),
{
    if fresh_entry(&artifact, source) {
        let marker = context.fail_path();
        (
            State::Finished,
            Action::Failed { error: ThumbnailError::NegativeCached, marker: Some(marker) },
        )
    } else {
        let artifact = context.thumb_path();
        let source = context.source.clone();
        (State::CheckingThumb(context), Action::ReadEntry { artifact, source })
    }
}

fn thumb_checked(context: Context, artifact: Option<Vec<u8>>, source: Option<SourceMeta>) -> (step:
    (State, Action))
    ensures
        (step.0@, step.1@) == after_thumb_check(context@, buffer_view(artifact), source),
{
    if fresh_entry(&artifact, source) {
        let path = context.thumb_path();
        (State::Finished, Action::Ready { path })
    } else {
        (State::Selecting(context), Action::ListHelpers)
    }
}

fn chosen(context: Context, helper: ThumbnailerConfig) -> (step: (State, Action))
    ensures
        (step.0@, step.1@) == with_helper(context@, helper@),
{
    let program = match &helper.try_exec {
        Some(name) => Some(name.clone()),
        None => None,
    };
    match program {
        Some(name) => (State::Probing(context, helper), Action::FindExecutable { name }),
        None => {
            let dir = context.thumb_dir();
            (State::Preparing(context, helper), Action::Prepare { dir })
        },
    }
}

fn selected(context: Context, descriptors: Option<Vec<String>>) -> (step: (State, Action))
    ensures
        (step.0@, step.1@) == after_helpers(
            context@,
            match descriptors {
                Some(t) => Some(strings_view(t@)),
                None => None,
            },
        ),
{
    let texts = match descriptors {
        Some(t) => t,
        None => {
            return finished(ThumbnailError::Io);
        },
    };
    let mime = guess_mime(context.given.as_str());
    match find_thumbnailer(mime.as_str(), &texts) {
        Err(e) => finished(e),
        Ok(Some(helper)) => chosen(context, helper),
        Ok(None) => {
            if codec_reads(mime.as_str()) {
                let source = context.source.clone();
                (State::Rendering(context), Action::ReadSource { source })
            } else {
                finished(ThumbnailError::NoHelper)
            }
        },
    }
}

fn probed(context: Context, helper: ThumbnailerConfig, found: bool) -> (step: (State, Action))
    ensures
        (step.0@, step.1@) == after_probe(context@, helper@, found),
{
    if found {
        let dir = context.thumb_dir();
        (State::Preparing(context, helper), Action::Prepare { dir })
    } else {
        finished(ThumbnailError::HelperMissing)
    }
}

fn prepared(context: Context, helper: ThumbnailerConfig, workspace: Option<Workspace>) -> (step:
    (State, Action))
    ensures
        (step.0@, step.1@) == after_prepare(
            context@,
            helper@,
            match workspace {
                Some(w) => Some(w@),
                None => None,
            },
        ),
{
    let w = match workspace {
        Some(w) => w,
        None => {
            return finished(ThumbnailError::Io);
        },
    };
    let args = match build_command_args(
        helper.exec_line.as_str(),
        context.size.to_dimension(),
        context.uri.as_str(),
        context.source.as_str(),
        w.output.as_str(),
    ) {
        Ok(a) => a,
        Err(e) => {
            return finished(e);
        },
    };
    if args.len() == 0 {
        return finished(ThumbnailError::BadConfig);
    }
    let dir = context.thumb_dir();
    let sandbox = match &w.sandbox {
        Some(p) => Some(p),
        None => None,
    };
    let argv = helper_command(sandbox, dir.as_str(), context.source.as_str(), args);
    let source = context.source.clone();
    (State::Running(context), Action::Run { argv, output: w.output, source })
}

fn commit(context: Context, image: PngImage) -> (step: (State, Action))
    ensures
        (step.0@, step.1@) == store_thumbnail(context@, image@),
{
    match image.encode() {
        Ok(bytes) => {
            let dir = context.thumb_dir();
            let path = context.thumb_path();
            (State::Committing(context), Action::Store { dir, path, bytes })
        },
        Err(e) => finished(e),
    }
}

fn record(context: Context, error: ThumbnailError, meta: SourceMeta) -> (step: (State, Action))
    ensures
        (step.0@, step.1@) == store_marker(context@, error, meta),
{
    let marker = write_failed_thumbnail(context.uri.as_str(), meta);
    match marker.encode() {
        Ok(bytes) => {
            let dir = context.fail_dir();
            let path = context.fail_path();
            (State::Failing(context, error), Action::Store { dir, path, bytes })
        },
        Err(e) => finished(e),
    }
}

fn exited(
    context: Context,
    success: bool,
    output: Option<Vec<u8>>,
    source: Option<SourceMeta>,
) -> (step: (State, Action))
    ensures
        (step.0@, step.1@) == after_helper(context@, success, buffer_view(output), source),
{
    let meta = match source {
        Some(m) => m,
        None => {
            return finished(ThumbnailError::MissingSource);
        },
    };
    let image = if success {
        match &output {
            Some(bytes) => match PngImage::decode(bytes.as_slice()) {
                Ok(i) => Some(i),
                Err(_) => None,
            },
            None => None,
        }
    } else {
        None
    };
    match image {
        Some(i) => {
            let full = add_thumbnail_metadata(i, context.uri.as_str(), meta);
            commit(context, full)
        },
        None => record(context, ThumbnailError::HelperFailed, meta),
    }
}

fn loaded(context: Context, bytes: Option<Vec<u8>>, source: Option<SourceMeta>) -> (step: (
    State,
    Action,
))
    ensures
        (step.0@, step.1@) == after_source(context@, buffer_view(bytes), source),
{
    let meta = match source {
        Some(m) => m,
        None => {
            return finished(ThumbnailError::MissingSource);
        },
    };
    let data = match bytes {
        Some(b) => b,
        None => {
            return finished(ThumbnailError::Io);
        },
    };
    match render_thumbnail(data.as_slice(), context.size, context.uri.as_str(), meta) {
        Ok(image) => commit(context, image),
        Err(e) => record(context, e, meta),
    }
}

fn failure_of(status: StoreStatus) -> (error: ThumbnailError)
    ensures
        error == store_error(status),
{
    match status {
        StoreStatus::RenameFailed => ThumbnailError::Commit,
        _ => ThumbnailError::Io,
    }
}

fn stored(context: Context, status: StoreStatus) -> (step: (State, Action))
    ensures
        (step.0@, step.1@) == after_store(context@, status),
{
    match status {
        StoreStatus::Stored => {
            let path = context.thumb_path();
            (State::Finished, Action::Ready { path })
        },
        _ => finished(failure_of(status)),
    }
}

fn marked(context: Context, error: ThumbnailError, status: StoreStatus) -> (step: (State, Action))
    ensures
        (step.0@, step.1@) == after_marker(context@, error, status),
{
    match status {
        StoreStatus::Stored => {
            let marker = context.fail_path();
            (State::Finished, Action::Failed { error, marker: Some(marker) })
        },
        _ => finished(failure_of(status)),
    }
}

/// Starts a request: the first thing to do is to resolve the source.
pub fn begin(request: Request) -> (step: (State, Action))
    ensures
        (step.0@, step.1@) == initial(request@),
{
    let path = request.source_path.clone();
    (State::Resolving(request), Action::Resolve { path })
}

/// Generates a thumbnail, one step at a time: takes the state of a request
/// and what the driver reports, and gives the next state and what the driver
/// is to do next. The request is answered when the action is `Ready` or
/// `Failed`.
pub fn generate_thumbnail(state: State, event: Event) -> (step: (State, Action))
    ensures
        (step.0@, step.1@) == transition(state@, event@),
{
    match state {
        State::Resolving(request) => match event {
            Event::Resolved(path) => resolved(request, path),
            _ => finished(ThumbnailError::Io),
        },
        State::CheckingFail(context) => match event {
            Event::Entry { artifact, source } => fail_checked(context, artifact, source),
            _ => finished(ThumbnailError::Io),
        },
        State::CheckingThumb(context) => match event {
            Event::Entry { artifact, source } => thumb_checked(context, artifact, source),
            _ => finished(ThumbnailError::Io),
        },
        State::Selecting(context) => match event {
            Event::Helpers(texts) => selected(context, texts),
            _ => finished(ThumbnailError::Io),
        },
        State::Probing(context, helper) => match event {
            Event::Executable(found) => probed(context, helper, found),
            _ => finished(ThumbnailError::Io),
        },
        State::Preparing(context, helper) => match event {
            Event::Prepared(workspace) => prepared(context, helper, workspace),
            _ => finished(ThumbnailError::Io),
        },
        State::Running(context) => match event {
            Event::Exited { success, output, source } => exited(context, success, output, source),
            _ => finished(ThumbnailError::Io),
        },
        State::Rendering(context) => match event {
            Event::Source { bytes, source } => loaded(context, bytes, source),
            _ => finished(ThumbnailError::Io),
        },
        State::Committing(context) => match event {
            Event::Stored(status) => stored(context, status),
            _ => finished(ThumbnailError::Io),
        },
        State::Failing(context, error) => match event {
            Event::Stored(status) => marked(context, error, status),
            _ => finished(ThumbnailError::Io),
        },
        State::Finished => finished(ThumbnailError::Io),
    }
}

impl StateModel {
    /// The resolved request that the state belongs to, once there is one.
    pub open spec fn context(self) -> Option<ContextModel> {
        match self {
            StateModel::Resolving(_) => None,
            StateModel::CheckingFail(c) => Some(c),
            StateModel::CheckingThumb(c) => Some(c),
            StateModel::Selecting(c) => Some(c),
            StateModel::Probing(c, _) => Some(c),
            StateModel::Preparing(c, _) => Some(c),
            StateModel::Running(c) => Some(c),
            StateModel::Rendering(c) => Some(c),
            StateModel::Committing(c) => Some(c),
            StateModel::Failing(c, _) => Some(c),
            StateModel::Finished => None,
        }
    }
}

/// A cached thumbnail that is up to date answers the request at once: the
/// machine asks for no source, no helper and no store.
pub proof fn lemma_fresh_thumbnail_is_served(
    context: ContextModel,
    artifact: Option<Seq<u8>>,
    source: Option<SourceMeta>,
)
    requires
        entry_fresh(artifact, source),
    ensures
        transition(StateModel::CheckingThumb(context), EventModel::Entry { artifact, source }) == (
            StateModel::Finished,
            ActionModel::Ready { path: context.thumb_path() },
        ),
{
}

/// A fail marker that is up to date answers the request at once, with
/// `NegativeCached` and the marker's path.
pub proof fn lemma_fresh_marker_short_circuits(
    context: ContextModel,
    artifact: Option<Seq<u8>>,
    source: Option<SourceMeta>,
)
    requires
        entry_fresh(artifact, source),
    ensures
        transition(StateModel::CheckingFail(context), EventModel::Entry { artifact, source }) == (
            StateModel::Finished,
            ActionModel::Failed {
                error: ThumbnailError::NegativeCached,
                marker: Some(context.fail_path()),
            },
        ),
{
}

/// A cached thumbnail whose `Thumb::MTime` is not the source's modification
/// time is not served: the machine goes on to make a new one.
pub proof fn lemma_touched_source_is_regenerated(
    context: ContextModel,
    artifact: Seq<u8>,
    then: SourceMeta,
    now: SourceMeta,
)
    requires
        png_text(artifact) matches Some(chunks) && first_text(chunks, "Thumb::MTime"@) == Some(
            decimal(then.mtime as nat),
        ),
        then.mtime != now.mtime,
    ensures
        transition(
            StateModel::CheckingThumb(context),
            EventModel::Entry { artifact: Some(artifact), source: Some(now) },
        ) == (StateModel::Selecting(context), ActionModel::ListHelpers),
{
    lemma_decimal_round_trip(then.mtime);
}

/// The source's metadata that an event carries, if it is one that follows
/// a helper run or a read of the source.
pub open spec fn event_meta(event: EventModel) -> Option<SourceMeta> {
    match event {
        EventModel::Exited { source, .. } => source,
        EventModel::Source { source, .. } => source,
        _ => None,
    }
}

/// Whatever the machine asks to store is the PNG file of an image that
/// carries all three provenance chunks and is up to date with the source as
/// the event reports it: its `Thumb::MTime` is the source's modification time
/// and its `Thumb::URI` the source's URI, whatever a helper wrote of its own.
/// What goes to the fail path is the fail marker; all else goes to the
/// thumbnail path.
pub proof fn lemma_store_is_fresh(state: StateModel, event: EventModel)
    ensures
        transition(state, event).1 matches ActionModel::Store { path, bytes, .. } ==> {
            &&& state.context() matches Some(c)
            &&& event_meta(event) matches Some(meta)
            &&& exists|image: PngModel|
                {
                    &&& #[trigger] encoded(image) == Some(bytes)
                    &&& has_provenance(image.text)
                    &&& chunks_fresh(image.text, meta)
                    &&& first_text(image.text, "Thumb::MTime"@) == Some(decimal(meta.mtime as nat))
                    &&& first_text(image.text, "Thumb::URI"@) == Some(c.uri)
                    &&& (transition(state, event).0 is Committing && path == c.thumb_path()) || (
                    transition(state, event).0 is Failing && path == c.fail_path() && image
                        == fail_marker(c.uri, meta))
                }
        },
{
    let action = transition(state, event).1;
    if let ActionModel::Store { dir, path, bytes } = action {
        match state {
            StateModel::Running(context) => {
                if let EventModel::Exited { success, output, source } = event {
                    let meta = source->0;
                    match helper_image(success, output) {
                        Some(image) => {
                            let full = with_provenance(image, context.uri, meta);
                            lemma_fresh_after_metadata(image, context.uri, meta);
                            assert(encoded(full) == Some(bytes));
                        },
                        None => {
                            let marker = fail_marker(context.uri, meta);
                            lemma_artifacts_fresh(1, 1, marker.data, context.uri, meta);
                            lemma_provenance_texts(context.uri, meta);
                            assert(encoded(marker) == Some(bytes));
                        },
                    }
                }
            },
            StateModel::Rendering(context) => {
                if let EventModel::Source { bytes: data, source } = event {
                    let meta = source->0;
                    let decoded = checked_image(decoded_rgba(data->0));
                    lemma_rendered_artifact(decoded, context.size, context.uri, meta);
                    lemma_provenance_texts(context.uri, meta);
                    match rendered_for(decoded, context.size, context.uri, meta) {
                        Ok(image) => {
                            lemma_artifacts_fresh(
                                image.width,
                                image.height,
                                image.data,
                                context.uri,
                                meta,
                            );
                            assert(encoded(image) == Some(bytes));
                        },
                        Err(_) => {
                            let marker = fail_marker(context.uri, meta);
                            lemma_artifacts_fresh(1, 1, marker.data, context.uri, meta);
                            assert(encoded(marker) == Some(bytes));
                        },
                    }
                }
            },
            _ => {},
        }
    }
}

/// A request is idempotent while the source stays as it is: once the
/// machine has asked to store an artifact and the artifact stands, the same
/// request for the unchanged source is answered at once, by the thumbnail or
/// by the fail marker, and nothing more is read, run or stored. This rests on
/// the PNG layer handing back the text chunks that it wrote.
pub proof fn lemma_generation_is_idempotent(state: StateModel, event: EventModel)
    requires
        transition(state, event).1 matches ActionModel::Store { bytes, .. } && forall|
            image: PngModel,
        |
            #[trigger] encoded(image) == Some(bytes) ==> png_text(bytes) == Some(image.text),
    ensures
        transition(state, event).0 matches StateModel::Committing(c) ==> {
            &&& transition(StateModel::Committing(c), EventModel::Stored(StoreStatus::Stored)) == (
                StateModel::Finished,
                ActionModel::Ready { path: c.thumb_path() },
            )
            &&& transition(
                StateModel::CheckingThumb(c),
                EventModel::Entry {
                    artifact: Some(transition(state, event).1->Store_bytes),
                    source: event_meta(event),
                },
            ) == (StateModel::Finished, ActionModel::Ready { path: c.thumb_path() })
        },
        transition(state, event).0 matches StateModel::Failing(c, error) ==> {
            &&& transition(StateModel::Failing(c, error), EventModel::Stored(StoreStatus::Stored))
                == (
                StateModel::Finished,
                ActionModel::Failed { error, marker: Some(c.fail_path()) },
            )
            &&& transition(
                StateModel::CheckingFail(c),
                EventModel::Entry {
                    artifact: Some(transition(state, event).1->Store_bytes),
                    source: event_meta(event),
                },
            ) == (
                StateModel::Finished,
                ActionModel::Failed {
                    error: ThumbnailError::NegativeCached,
                    marker: Some(c.fail_path()),
                },
            )
        },
{
    lemma_store_is_fresh(state, event);
    lemma_action_follows_state(state, event);
    let bytes = transition(state, event).1->Store_bytes;
    let meta = event_meta(event)->0;
    let image = choose|image: PngModel|
        #[trigger] encoded(image) == Some(bytes) && chunks_fresh(image.text, meta);
    assert(png_text(bytes) == Some(image.text));
    assert(entry_fresh(Some(bytes), Some(meta)));
}

/// A fail marker is written only for a helper that failed and for a source
/// that cannot be rendered. A missing source, a missing helper, a missing
/// helper program and a malformed descriptor end the request without a store.
pub proof fn lemma_only_cached_failures_are_recorded(state: StateModel, event: EventModel)
    ensures
        transition(state, event).0 matches StateModel::Failing(_, error) ==> {
            &&& error.is_cached()
            &&& state is Running ==> error == ThumbnailError::HelperFailed
            &&& state is Rendering ==> error == ThumbnailError::BadImage
            &&& transition(state, event).1 is Store
        },
        transition(state, event).1 matches ActionModel::Failed { error, marker } ==> {
            &&& transition(state, event).0 is Finished
            &&& marker is Some ==> error == ThumbnailError::NegativeCached || state is Failing
            &&& (error == ThumbnailError::MissingSource || error == ThumbnailError::NoHelper
                || error == ThumbnailError::HelperMissing || error == ThumbnailError::BadConfig)
                && !(state is Failing) ==> marker is None
        },
        transition(state, event).1 is Store ==> state is Running || state is Rendering,
{
    if let StateModel::Rendering(context) = state {
        if let EventModel::Source { bytes, source } = event {
            if source is Some && bytes is Some {
                lemma_rendered_artifact(
                    checked_image(decoded_rgba(bytes->0)),
                    context.size,
                    context.uri,
                    source->0,
                );
            }
        }
    }
}

/// A source that cannot be resolved ends the request with `MissingSource`,
/// and nothing is read or written for it.
pub proof fn lemma_missing_source(request: RequestModel)
    ensures
        transition(StateModel::Resolving(request), EventModel::Resolved(None)) == finish(
            ThumbnailError::MissingSource,
        ),
{
}

/// The cache entry depends on the source's canonical path only: two requests
/// that resolve to the same path, for the same size and cache root, ask for
/// the same entry and keep the same URI and fingerprint, however each named
/// the source. The entry is that of the fingerprint of the path's file URI.
pub proof fn lemma_entry_follows_canonical_path(
    first: RequestModel,
    second: RequestModel,
    resolved: Option<Seq<char>>,
)
    requires
        first.size == second.size,
        first.cache_root == second.cache_root,
    ensures
        after_resolve(first, resolved).1 == after_resolve(second, resolved).1,
        after_resolve(first, resolved).0.context() matches Some(c) ==> {
            &&& c.consistent()
            &&& resolved == Some(c.source)
            &&& c.given == first.source_path
            &&& c.size == first.size
            &&& c.cache_root == first.cache_root
            &&& after_resolve(second, resolved).0.context() == Some(
                ContextModel { given: second.source_path, ..c },
            )
        },
{
}

/// A request keeps the path it was given, its resolved source, its
/// fingerprint, its size and its cache root from step to step.
pub proof fn lemma_context_is_kept(state: StateModel, event: EventModel)
    ensures
        state.context() matches Some(before) ==> (transition(state, event).0.context() matches Some(
            after,
        ) ==> after == before),
{
    match state {
        StateModel::CheckingFail(context) => {
            if let EventModel::Entry { artifact, source } = event {
                assert(transition(state, event) == after_fail_check(context, artifact, source));
            }
        },
        StateModel::CheckingThumb(context) => {
            if let EventModel::Entry { artifact, source } = event {
                assert(transition(state, event) == after_thumb_check(context, artifact, source));
            }
        },
        StateModel::Selecting(context) => {
            if let EventModel::Helpers(texts) = event {
                assert(transition(state, event) == after_helpers(context, texts));
            }
        },
        StateModel::Probing(context, helper) => {
            if let EventModel::Executable(found) = event {
                assert(transition(state, event) == after_probe(context, helper, found));
            }
        },
        StateModel::Preparing(context, helper) => {
            if let EventModel::Prepared(workspace) = event {
                assert(transition(state, event) == after_prepare(context, helper, workspace));
            }
        },
        StateModel::Running(context) => {
            if let EventModel::Exited { success, output, source } = event {
                assert(transition(state, event) == after_helper(context, success, output, source));
            }
        },
        StateModel::Rendering(context) => {
            if let EventModel::Source { bytes, source } = event {
                assert(transition(state, event) == after_source(context, bytes, source));
            }
        },
        StateModel::Committing(context) => {
            if let EventModel::Stored(status) = event {
                assert(transition(state, event) == after_store(context, status));
            }
        },
        StateModel::Failing(context, error) => {
            if let EventModel::Stored(status) = event {
                assert(transition(state, event) == after_marker(context, error, status));
            }
        },
        _ => {},
    }
}

/// Once a request is answered, the machine asks for nothing more.
pub proof fn lemma_finished_is_final(event: EventModel)
    ensures
        transition(StateModel::Finished, event) == finish(ThumbnailError::Io),
{
}

impl StateModel {
    /// How many steps a request in this state can still take at most.
    pub open spec fn steps_left(self) -> nat {
        match self {
            StateModel::Resolving(_) => 8,
            StateModel::CheckingFail(_) => 7,
            StateModel::CheckingThumb(_) => 6,
            StateModel::Selecting(_) => 5,
            StateModel::Probing(_, _) => 4,
            StateModel::Preparing(_, _) => 3,
            StateModel::Running(_) => 2,
            StateModel::Rendering(_) => 2,
            StateModel::Committing(_) => 1,
            StateModel::Failing(_, _) => 1,
            StateModel::Finished => 0,
        }
    }
}

/// Every request comes to an end: each step brings the machine closer to the
/// finished state, which it reaches after eight events at most.
pub proof fn lemma_every_step_makes_progress(state: StateModel, event: EventModel)
    requires
        !(state is Finished),
    ensures
        transition(state, event).0.steps_left() < state.steps_left(),
{
    lemma_action_follows_state(state, event);
}

/// The action says what the next state waits for. The request is answered
/// exactly when the machine is finished; a store goes to the thumbnail path
/// while committing and to the fail path while failing; an entry is read at
/// the fail path first and at the thumbnail path next.
pub proof fn lemma_action_follows_state(state: StateModel, event: EventModel)
    ensures
        ({
            let next = transition(state, event).0;
            let action = transition(state, event).1;
            &&& next is Finished <==> action is Ready || action is Failed
            &&& !(next is Resolving)
            &&& next matches StateModel::CheckingFail(c) ==> state is Resolving && action
                == (ActionModel::ReadEntry { artifact: c.fail_path(), source: c.source })
            &&& next matches StateModel::CheckingThumb(c) ==> state is CheckingFail && action
                == (ActionModel::ReadEntry { artifact: c.thumb_path(), source: c.source })
            &&& next is Selecting ==> state is CheckingThumb && action is ListHelpers
            &&& next matches StateModel::Probing(_, h) ==> state is Selecting && action
                == (ActionModel::FindExecutable { name: h.try_exec->0 }) && h.try_exec is Some
            &&& next matches StateModel::Preparing(c, _) ==> (state is Selecting || state is Probing)
                && action == (ActionModel::Prepare { dir: c.thumb_dir() })
            &&& next matches StateModel::Running(c) ==> state is Preparing && (action matches ActionModel::Run {
                argv,
                source,
                ..
            } && source == c.source && argv.len() > 0)
            &&& next matches StateModel::Rendering(c) ==> state is Selecting && action
                == (ActionModel::ReadSource { source: c.source })
            &&& next matches StateModel::Committing(c) ==> (state is Running || state is Rendering)
                && (action matches ActionModel::Store { dir, path, .. } && dir == c.thumb_dir()
                && path == c.thumb_path())
            &&& next matches StateModel::Failing(c, _) ==> (state is Running || state is Rendering)
                && (action matches ActionModel::Store { dir, path, .. } && dir == c.fail_dir()
                && path == c.fail_path())
            &&& action matches ActionModel::Ready { path } ==> (state matches StateModel::CheckingThumb(
                c,
            ) && path == c.thumb_path()) || (state matches StateModel::Committing(c) && path
                == c.thumb_path())
        }),
{
    match state {
        StateModel::Resolving(request) => {
            if let EventModel::Resolved(path) = event {
                assert(transition(state, event) == after_resolve(request, path));
            }
        },
        StateModel::CheckingFail(context) => {
            if let EventModel::Entry { artifact, source } = event {
                assert(transition(state, event) == after_fail_check(context, artifact, source));
            }
        },
        StateModel::CheckingThumb(context) => {
            if let EventModel::Entry { artifact, source } = event {
                assert(transition(state, event) == after_thumb_check(context, artifact, source));
            }
        },
        StateModel::Selecting(context) => {
            if let EventModel::Helpers(texts) = event {
                assert(transition(state, event) == after_helpers(context, texts));
            }
        },
        StateModel::Probing(context, helper) => {
            if let EventModel::Executable(found) = event {
                assert(transition(state, event) == after_probe(context, helper, found));
            }
        },
        StateModel::Preparing(context, helper) => {
            if let EventModel::Prepared(workspace) = event {
                assert(transition(state, event) == after_prepare(context, helper, workspace));
                if let Some(w) = workspace {
                    if let Ok(args) = command_args(
                        shell_words(helper.exec_line),
                        context.size.dimension() as u32,
                        context.uri,
                        context.source,
                        w.output,
                    ) {
                        if let Some(probe) = w.sandbox {
                            lemma_sandbox_keeps_command(
                                probe,
                                context.thumb_dir(),
                                context.source,
                                args,
                            );
                        }
                    }
                }
            }
        },
        StateModel::Running(context) => {
            if let EventModel::Exited { success, output, source } = event {
                assert(transition(state, event) == after_helper(context, success, output, source));
            }
        },
        StateModel::Rendering(context) => {
            if let EventModel::Source { bytes, source } = event {
                assert(transition(state, event) == after_source(context, bytes, source));
            }
        },
        StateModel::Committing(context) => {
            if let EventModel::Stored(status) = event {
                assert(transition(state, event) == after_store(context, status));
            }
        },
        StateModel::Failing(context, error) => {
            if let EventModel::Stored(status) = event {
                assert(transition(state, event) == after_marker(context, error, status));
            }
        },
        StateModel::Finished => {},
    }
}

} // verus!
