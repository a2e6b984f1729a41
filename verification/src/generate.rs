//! Generating a project: what is probed, read and written, and in what order.
//!
//! The library touches no file. A generation says what it needs done next, the
//! caller does it and reports what came of it, and the generation decides how
//! to go on. The variables are built from the configuration when it begins.
//! It first makes sure that the directory above the project exists, then
//! looks for the directory `templates` in the current directory and above it,
//! lists the templates of the project type in their extended variant, creates
//! the directory of the project, and then takes the templates in the order of
//! the list: each is read, rendered and written to its destination. The first
//! failure ends it.

use crate::config::QuickstartConfig;
use crate::paths::{join, join_path, parent_dir, parent_of};
use crate::template::engine::TemplateEngine;
use crate::template::loader::{
    destination, diff_paths_of, relative_or_own, TemplateLoader,
};
use crate::template::variables::TemplateVariables;
use crate::template::walk::{
    asks, finished, initial_state, next_state, texts, well_formed, DirEntry, TemplateWalk,
    WalkEvent, WalkState, WalkStep,
};
use crate::template::{TemplateError, TemplateVariant};
use crate::text::concat;
use crate::{not_found_text, ProjectType, SearchStep};
use vstd::prelude::*;

verus! {

/// Why a generation failed.
#[derive(Debug)]
pub enum GenerateError {
    /// The directory above the project does not exist.
    MissingParent {
        /// The directory that was looked for.
        parent: String,
    },
    /// There is no directory `templates` in the current directory or above it.
    NoTemplatesDir,
    /// The operating system reported a failure.
    Io(std::io::Error),
    /// A template could not be found, read or rendered.
    Template(TemplateError),
}

/// What a generation asks of the caller, or how it ended.
#[derive(Debug)]
pub enum GenerateStep {
    /// Report whether anything exists at `path`.
    Exists {
        /// The path to probe.
        path: String,
    },
    /// Report whether `path` is a directory.
    IsDir {
        /// The path to probe.
        path: String,
    },
    /// Report the current directory.
    CurrentDir,
    /// Report the entries of the directory at `path`.
    ListDir {
        /// The directory to list.
        path: String,
    },
    /// Create the directory at `path` and those above it that are missing.
    CreateDirAll {
        /// The directory to create.
        path: String,
    },
    /// Report the content of the file at `path`.
    ReadFile {
        /// The file to read.
        path: String,
    },
    /// Write `content` to the file at `path`, replacing what is there.
    WriteFile {
        /// The file to write.
        path: String,
        /// What to write.
        content: String,
    },
    /// The project is generated.
    Done,
    /// The generation failed.
    Failed(GenerateError),
}

/// What the caller reports to a generation.
#[derive(Debug)]
pub enum GenerateEvent {
    /// The answer to a probe.
    Found(bool),
    /// The current directory.
    WorkingDir(String),
    /// The entries of the listed directory, in the order of the listing.
    Entries(Vec<DirEntry>),
    /// The content of the file that was read.
    Content(String),
    /// The directory was created, or the file was written.
    Completed,
    /// What was asked for failed.
    Failed(std::io::Error),
}

/// Where a generation stands.
#[derive(Debug, Clone, Copy, PartialEq, Eq, Structural)]
pub enum GenerateStage {
    /// Waiting to hear whether the directory above the project exists.
    CheckParent,
    /// Waiting for the current directory.
    AskWorkingDir,
    /// Waiting to hear whether the candidate is the template directory.
    SearchRoot,
    /// Listing the templates.
    Listing,
    /// Waiting for the directory of the project to be created.
    CreateOutput,
    /// Waiting for the content of the next template.
    Read,
    /// Waiting for the directory of the next destination to be created.
    MakeParent,
    /// Waiting for the next file to be written.
    Write,
    /// Complete.
    Done,
    /// Failed.
    Failed,
}

/// A generation as contracts speak of it.
pub ghost struct GenerationState {
    /// Where the generation stands.
    pub stage: GenerateStage,
    /// The configuration of the project.
    pub config: QuickstartConfig,
    /// The engine that renders the templates.
    pub engine: TemplateEngine,
    /// The directory in which the template directory is looked for.
    pub search: Seq<char>,
    /// The template directory, once it is found.
    pub base: Seq<char>,
    /// The listing of the templates, while it runs.
    pub walk: Option<WalkState>,
    /// The templates, once they are listed.
    pub records: Seq<Seq<char>>,
    /// How many of the templates are written.
    pub next: nat,
    /// What the template at hand rendered to.
    pub rendered: Seq<char>,
}

/// The name of the template directory.
pub open spec fn corpus_name() -> Seq<char> {
    "templates"@
}

/// The path by which the template at index `i` is read.
pub open spec fn source_of(s: GenerationState, i: int) -> Seq<char> {
    join_path(s.base, relative_or_own(diff_paths_of(s.records[i], s.base), s.records[i]))
}

/// The path to which the template at index `i` is written.
pub open spec fn target_of(s: GenerationState, i: int) -> Seq<char> {
    destination(relative_or_own(diff_paths_of(s.records[i], s.base), s.records[i]), s.config.path@)
}

/// Whether `step` is what a generation in state `s` asks for.
pub open spec fn requests(s: GenerationState, step: GenerateStep) -> bool {
    match s.stage {
        GenerateStage::CheckParent => step matches GenerateStep::Exists { path } && Some(path@)
            == parent_of(s.config.path@),
        GenerateStage::AskWorkingDir => step is CurrentDir,
        GenerateStage::SearchRoot => step matches GenerateStep::IsDir { path } && path@
            == join_path(s.search, corpus_name()),
        GenerateStage::Listing => s.walk matches Some(walk) && match step {
            GenerateStep::Exists { path } => asks(walk, WalkStep::Probe { path }),
            GenerateStep::ListDir { path } => asks(walk, WalkStep::List { path }),
            _ => false,
        },
        GenerateStage::CreateOutput => step matches GenerateStep::CreateDirAll { path } && path@
            == s.config.path@,
        GenerateStage::Read => s.next < s.records.len() && (step matches GenerateStep::ReadFile {
            path,
        } && path@ == source_of(s, s.next as int)),
        GenerateStage::MakeParent => s.next < s.records.len() && (
        step matches GenerateStep::CreateDirAll { path } && Some(path@) == parent_of(
            target_of(s, s.next as int),
        )),
        GenerateStage::Write => s.next < s.records.len() && (step matches GenerateStep::WriteFile {
            path,
            content,
        } && path@ == target_of(s, s.next as int) && content@ == s.rendered),
        GenerateStage::Done => step is Done,
        GenerateStage::Failed => step is Failed,
    }
}

/// Whether the generation has ended, complete or failed.
pub open spec fn ended(s: GenerationState) -> bool {
    s.stage == GenerateStage::Done || s.stage == GenerateStage::Failed
}

/// Whether the engine of a generation is set up for its configuration: its
/// variables are those of the configuration on the date they carry, it is in
/// strict mode with the four helpers, and it holds no templates.
pub open spec fn set_up(s: GenerationState) -> bool {
    &&& s.engine.vars().built_from(s.config, s.engine.vars().date)
    &&& s.engine.vars().one_hot()
    &&& s.engine.configured()
    &&& s.engine.registered() == Set::<Seq<char>>::empty()
}

/// What holds of a generation at every stage: its engine is set up for its
/// configuration; while it lists, the listing is under way, and while it
/// writes, there is a template at hand.
pub open spec fn coherent(s: GenerationState) -> bool {
    &&& set_up(s)
    &&& match s.stage {
        GenerateStage::CheckParent => parent_of(s.config.path@) is Some,
        GenerateStage::Listing => s.walk matches Some(walk) && well_formed(walk) && !finished(walk),
        GenerateStage::Read | GenerateStage::Write => s.next < s.records.len(),
        GenerateStage::MakeParent => s.next < s.records.len() && parent_of(
            target_of(s, s.next as int),
        ) is Some,
        _ => true,
    }
}

/// The stage after a template is written: the next template is read, and
/// after the last one the generation is complete.
pub open spec fn after_write(s: GenerationState) -> GenerationState {
    if s.next + 1 < s.records.len() {
        GenerationState { stage: GenerateStage::Read, next: s.next + 1, ..s }
    } else {
        GenerationState { stage: GenerateStage::Done, next: s.next + 1, ..s }
    }
}

/// Whether `new` may follow `old` on `event`.
///
/// A failure that is reported ends the generation in failure, and so do a
/// missing directory above the project, a search that reaches the top and a
/// listing that fails. A template that is read is rendered by the engine:
/// the text is kept for writing, and where the rendering fails the
/// generation fails. An event that the
/// stage does not wait for changes nothing. Otherwise the generation moves on
/// by one step: from the probe of the parent to the search, up the
/// directories until the template directory is found, through the listing,
/// and then template by template in the order of the list.
pub open spec fn follows(old: GenerationState, event: GenerateEvent, new: GenerationState) -> bool {
    match (old.stage, event) {
        (GenerateStage::CheckParent, GenerateEvent::Found(exists)) => if exists {
            new == (GenerationState { stage: GenerateStage::AskWorkingDir, ..old })
        } else {
            new.stage == GenerateStage::Failed
        },
        (GenerateStage::AskWorkingDir, GenerateEvent::WorkingDir(dir)) => new == (GenerationState {
            stage: GenerateStage::SearchRoot,
            search: dir@,
            ..old
        }),
        (GenerateStage::SearchRoot, GenerateEvent::Found(is_dir)) => if is_dir {
            new == (GenerationState {
                stage: GenerateStage::Listing,
                base: join_path(old.search, corpus_name()),
                walk: Some(
                    initial_state(
                        join_path(old.search, corpus_name()),
                        old.config.project_type,
                        TemplateVariant::Extended,
                    ),
                ),
                ..old
            })
        } else {
            match parent_of(old.search) {
                Some(above) => new == (GenerationState { search: above, ..old }),
                None => new.stage == GenerateStage::Failed,
            }
        },
        (GenerateStage::Listing, GenerateEvent::Found(_))
        | (GenerateStage::Listing, GenerateEvent::Entries(_))
        | (GenerateStage::Listing, GenerateEvent::Failed(_)) => {
            let walked = next_state(old.walk->0, walk_event(event));
            if walked.stage is Failed {
                new.stage == GenerateStage::Failed
            } else if walked.stage is Done {
                new == (GenerationState {
                    stage: GenerateStage::CreateOutput,
                    walk: None,
                    records: walked.templates,
                    next: 0,
                    ..old
                })
            } else {
                new == (GenerationState { walk: Some(walked), ..old })
            }
        },
        (GenerateStage::CreateOutput, GenerateEvent::Completed) => if old.records.len() > 0 {
            new == (GenerationState { stage: GenerateStage::Read, next: 0, ..old })
        } else {
            new == (GenerationState { stage: GenerateStage::Done, next: 0, ..old })
        },
        (GenerateStage::Read, GenerateEvent::Content(content)) => {
            match old.engine.renders(content@) {
                Some(text) => new == (GenerationState {
                    stage: if parent_of(target_of(old, old.next as int)) is Some {
                        GenerateStage::MakeParent
                    } else {
                        GenerateStage::Write
                    },
                    rendered: text,
                    ..old
                }),
                None => new.stage == GenerateStage::Failed,
            }
        },
        (GenerateStage::MakeParent, GenerateEvent::Completed) => new == (GenerationState {
            stage: GenerateStage::Write,
            ..old
        }),
        (GenerateStage::Write, GenerateEvent::Completed) => new == after_write(old),
        (GenerateStage::AskWorkingDir, GenerateEvent::Failed(_))
        | (GenerateStage::CreateOutput, GenerateEvent::Failed(_))
        | (GenerateStage::Read, GenerateEvent::Failed(_))
        | (GenerateStage::MakeParent, GenerateEvent::Failed(_))
        | (GenerateStage::Write, GenerateEvent::Failed(_)) => new.stage == GenerateStage::Failed,
        _ => new == old,
    }
}

/// The event of a listing that an event of a generation stands for.
pub open spec fn walk_event(event: GenerateEvent) -> WalkEvent {
    match event {
        GenerateEvent::Found(exists) => WalkEvent::Exists(exists),
        GenerateEvent::Entries(entries) => WalkEvent::Entries(entries),
        GenerateEvent::Failed(cause) => WalkEvent::Unreadable(cause),
        _ => WalkEvent::Exists(false),
    }
}

/// Whether `step` is the failure that `event` causes in state `old`: the
/// missing directory above the project, the search that found nothing, what
/// the operating system reported, or what went wrong with a template.
pub open spec fn blames(old: GenerationState, event: GenerateEvent, step: GenerateStep) -> bool {
    match (old.stage, event) {
        (GenerateStage::CheckParent, _) => step matches GenerateStep::Failed(
            GenerateError::MissingParent { parent },
        ) && Some(parent@) == parent_of(old.config.path@),
        (GenerateStage::SearchRoot, _) => step matches GenerateStep::Failed(
            GenerateError::NoTemplatesDir,
        ),
        (GenerateStage::Listing, _) => step matches GenerateStep::Failed(
            GenerateError::Template(error),
        ) && crate::template::walk::answers(
            old.walk->0,
            walk_event(event),
            WalkStep::Failed(error),
        ),
        (GenerateStage::Read, GenerateEvent::Failed(cause)) => step matches GenerateStep::Failed(
            GenerateError::Template(TemplateError::LoadError { path, source }),
        ) && path@ == relative_or_own(
            diff_paths_of(old.records[old.next as int], old.base),
            old.records[old.next as int],
        ) && source == cause,
        (GenerateStage::Read, _) => step matches GenerateStep::Failed(
            GenerateError::Template(TemplateError::RenderError { name, .. }),
        ) && name@ == crate::template::engine::direct_name(),
        (_, GenerateEvent::Failed(cause)) => step matches GenerateStep::Failed(
            GenerateError::Io(source),
        ) && source == cause,
        _ => step is Failed,
    }
}

/// The generation of one project.
pub struct Generation {
    stage: GenerateStage,
    config: QuickstartConfig,
    engine: TemplateEngine,
    search: String,
    loader: TemplateLoader,
    walk: Option<TemplateWalk>,
    records: Vec<String>,
    next: usize,
    rendered: String,
}

impl View for Generation {
    type V = GenerationState;

    closed spec fn view(&self) -> GenerationState {
        GenerationState {
            stage: self.stage,
            config: self.config,
            engine: self.engine,
            search: self.search@,
            base: self.loader.base(),
            walk: match self.walk {
                Some(walk) => Some(walk@),
                None => None,
            },
            records: texts(self.records@),
            next: self.next as nat,
            rendered: self.rendered@,
        }
    }
}

impl GenerateError {
    /// The message of the error.
    pub fn message(&self) -> (text: String)
        ensures
            self matches GenerateError::MissingParent { parent } ==> text@ == "Parent directory '"@
                + parent@ + "' does not exist. Please create it first."@,
            self is NoTemplatesDir ==> text@ == not_found_text(),
    {
        match self {
            GenerateError::MissingParent { parent } => concat(
                concat("Parent directory '", parent.as_str()).as_str(),
                "' does not exist. Please create it first.",
            ),
            GenerateError::NoTemplatesDir => SearchStep::not_found_message().to_owned(),
            GenerateError::Io(source) => source.to_string(),
            GenerateError::Template(error) => error.message(),
        }
    }
}

impl Generation {
    /// Begins the generation of the project that `config` describes. Where
    /// the path of the project has a directory above it, that directory is
    /// probed first; otherwise the search for the templates begins at once.
    pub fn begin(config: QuickstartConfig) -> (started: (Generation, GenerateStep))
        ensures
            started.0@.config == config,
            started.0@.stage == if parent_of(config.path@) is Some {
                GenerateStage::CheckParent
            } else {
                GenerateStage::AskWorkingDir
            },
            coherent(started.0@),
            requests(started.0@, started.1),
    {
        let parent = parent_dir(config.path.as_str());
        let engine = TemplateEngine::new(TemplateVariables::from_config(&config));
        let mut generation = Generation {
            stage: GenerateStage::AskWorkingDir,
            config,
            engine,
            search: String::new(),
            loader: TemplateLoader::new(""),
            walk: None,
            records: Vec::new(),
            next: 0,
            rendered: String::new(),
        };
        match parent {
            Some(path) => {
                generation.stage = GenerateStage::CheckParent;
                (generation, GenerateStep::Exists { path })
            },
            None => (generation, GenerateStep::CurrentDir),
        }
    }

    /// Where the generation stands.
    pub fn stage(&self) -> (stage: GenerateStage)
        ensures
            stage == self@.stage,
    {
        self.stage
    }

    /// Whether the generation has ended, complete or failed, and takes no
    /// more events.
    pub fn is_finished(&self) -> (over: bool)
        ensures
            over == ended(self@),
    {
        self.stage == GenerateStage::Done || self.stage == GenerateStage::Failed
    }

    /// The templates, once they are listed, in the order in which they are
    /// written.
    pub fn records(&self) -> (records: &Vec<String>)
        ensures
            texts(records@) == self@.records,
    {
        &self.records
    }

    /// How many of the templates are written.
    pub fn written(&self) -> (count: usize)
        ensures
            count == self@.next,
    {
        self.next
    }

    fn fail(&mut self)
        ensures
            final(self)@.stage == GenerateStage::Failed,
            set_up(old(self)@) ==> set_up(final(self)@),
    {
        self.stage = GenerateStage::Failed;
    }

    fn candidate(&self) -> (path: String)
        ensures
            path@ == join_path(self@.search, corpus_name()),
    {
        join(self.search.as_str(), "templates")
    }

    fn read_next(&mut self) -> (step: GenerateStep)
        requires
            old(self)@.next < old(self)@.records.len(),
        ensures
            final(self)@ == (GenerationState { stage: GenerateStage::Read, ..old(self)@ }),
            requests(final(self)@, step),
    {
        self.stage = GenerateStage::Read;
        let rel = self.loader.template_source(self.records[self.next].as_str());
        GenerateStep::ReadFile { path: self.loader.template_file(rel.as_str()) }
    }

    fn write_next(&mut self) -> (step: GenerateStep)
        requires
            old(self)@.next < old(self)@.records.len(),
        ensures
            final(self)@ == (GenerationState { stage: GenerateStage::Write, ..old(self)@ }),
            requests(final(self)@, step),
    {
        self.stage = GenerateStage::Write;
        let path = self.loader.get_destination_path(
            self.records[self.next].as_str(),
            self.config.path.as_str(),
        );
        GenerateStep::WriteFile { path, content: self.rendered.clone() }
    }

    fn request(&mut self) -> (step: GenerateStep)
        requires
            coherent(old(self)@),
            !ended(old(self)@),
        ensures
            final(self)@ == old(self)@,
            requests(final(self)@, step),
    {
        match self.stage {
            GenerateStage::CheckParent => match parent_dir(self.config.path.as_str()) {
                Some(path) => GenerateStep::Exists { path },
                None => GenerateStep::Exists { path: String::new() },
            },
            GenerateStage::AskWorkingDir => GenerateStep::CurrentDir,
            GenerateStage::SearchRoot => GenerateStep::IsDir { path: self.candidate() },
            GenerateStage::Listing => {
                let walk = self.walk.take().unwrap();
                let step = match walk.request() {
                    WalkStep::Probe { path } => GenerateStep::Exists { path },
                    WalkStep::List { path } => GenerateStep::ListDir { path },
                    _ => GenerateStep::CurrentDir,
                };
                self.walk = Some(walk);
                step
            },
            GenerateStage::CreateOutput => GenerateStep::CreateDirAll {
                path: self.config.path.clone(),
            },
            GenerateStage::Read => self.read_next(),
            GenerateStage::MakeParent => {
                let target = self.loader.get_destination_path(
                    self.records[self.next].as_str(),
                    self.config.path.as_str(),
                );
                match parent_dir(target.as_str()) {
                    Some(path) => GenerateStep::CreateDirAll { path },
                    None => GenerateStep::CreateDirAll { path: String::new() },
                }
            },
            _ => self.write_next(),
        }
    }

    fn listed(&mut self, walk: TemplateWalk, walk_step: WalkStep) -> (step: GenerateStep)
        requires
            old(self)@.stage == GenerateStage::Listing,
            set_up(old(self)@),
            well_formed(walk@),
            walk_step is Failed <==> walk@.stage is Failed,
            !(walk_step is Failed) ==> asks(walk@, walk_step),
        ensures
            walk@.stage is Failed ==> final(self)@.stage == GenerateStage::Failed
                && (step matches GenerateStep::Failed(GenerateError::Template(error))
                && WalkStep::Failed(error) == walk_step),
            walk@.stage is Done ==> final(self)@ == (GenerationState {
                stage: GenerateStage::CreateOutput,
                walk: None,
                records: walk@.templates,
                next: 0,
                ..old(self)@
            }),
            !finished(walk@) ==> final(self)@ == (GenerationState {
                walk: Some(walk@),
                ..old(self)@
            }),
            !(walk@.stage is Failed) ==> requests(final(self)@, step),
            coherent(final(self)@),
    {
        match walk_step {
            WalkStep::Probe { path } => {
                self.walk = Some(walk);
                GenerateStep::Exists { path }
            },
            WalkStep::List { path } => {
                self.walk = Some(walk);
                GenerateStep::ListDir { path }
            },
            WalkStep::Done => {
                self.walk = None;
                self.records = walk.into_templates();
                self.next = 0;
                self.stage = GenerateStage::CreateOutput;
                GenerateStep::CreateDirAll { path: self.config.path.clone() }
            },
            WalkStep::Failed(error) => {
                self.walk = None;
                self.fail();
                GenerateStep::Failed(GenerateError::Template(error))
            },
        }
    }

    /// Takes what the caller reports and says what to do next.
    pub fn advance(&mut self, event: GenerateEvent) -> (step: GenerateStep)
        requires
            coherent(old(self)@),
            !ended(old(self)@),
        ensures
            follows(old(self)@, event, final(self)@),
            coherent(final(self)@),
            requests(final(self)@, step),
            final(self)@.stage == GenerateStage::Failed ==> blames(old(self)@, event, step),
    {
        match (self.stage, event) {
            (GenerateStage::CheckParent, GenerateEvent::Found(exists)) => {
                if exists {
                    self.stage = GenerateStage::AskWorkingDir;
                    GenerateStep::CurrentDir
                } else {
                    match parent_dir(self.config.path.as_str()) {
                        Some(parent) => {
                            self.fail();
                            GenerateStep::Failed(GenerateError::MissingParent { parent })
                        },
                        None => self.request(),
                    }
                }
            },
            (GenerateStage::AskWorkingDir, GenerateEvent::WorkingDir(dir)) => {
                self.search = dir;
                self.stage = GenerateStage::SearchRoot;
                GenerateStep::IsDir { path: self.candidate() }
            },
            (GenerateStage::SearchRoot, GenerateEvent::Found(is_dir)) => {
                if is_dir {
                    let base = self.candidate();
                    self.loader = TemplateLoader::new(base.as_str());
                    let (walk, walk_step) = self.loader.list_templates(
                        self.config.project_type,
                        TemplateVariant::Extended,
                    );
                    self.stage = GenerateStage::Listing;
                    self.listed(walk, walk_step)
                } else {
                    match parent_dir(self.search.as_str()) {
                        Some(above) => {
                            self.search = above;
                            GenerateStep::IsDir { path: self.candidate() }
                        },
                        None => {
                            self.fail();
                            GenerateStep::Failed(GenerateError::NoTemplatesDir)
                        },
                    }
                }
            },
            (GenerateStage::Listing, GenerateEvent::Found(exists)) => {
                let mut walk = self.walk.take().unwrap();
                let walk_step = walk.advance(WalkEvent::Exists(exists));
                self.listed(walk, walk_step)
            },
            (GenerateStage::Listing, GenerateEvent::Entries(entries)) => {
                let mut walk = self.walk.take().unwrap();
                let walk_step = walk.advance(WalkEvent::Entries(entries));
                self.listed(walk, walk_step)
            },
            (GenerateStage::Listing, GenerateEvent::Failed(cause)) => {
                let mut walk = self.walk.take().unwrap();
                let walk_step = walk.advance(WalkEvent::Unreadable(cause));
                self.listed(walk, walk_step)
            },
            (GenerateStage::CreateOutput, GenerateEvent::Completed) => {
                self.next = 0;
                if self.records.len() > 0 {
                    self.read_next()
                } else {
                    self.stage = GenerateStage::Done;
                    GenerateStep::Done
                }
            },
            (GenerateStage::Read, GenerateEvent::Content(content)) => {
                match self.engine.render_template(content.as_str()) {
                    Ok(text) => {
                        self.rendered = text;
                        let target = self.loader.get_destination_path(
                            self.records[self.next].as_str(),
                            self.config.path.as_str(),
                        );
                        match parent_dir(target.as_str()) {
                            Some(path) => {
                                self.stage = GenerateStage::MakeParent;
                                GenerateStep::CreateDirAll { path }
                            },
                            None => self.write_next(),
                        }
                    },
                    Err(error) => {
                        self.fail();
                        GenerateStep::Failed(GenerateError::Template(error))
                    },
                }
            },
            (GenerateStage::Read, GenerateEvent::Failed(source)) => {
                let path = self.loader.template_source(self.records[self.next].as_str());
                self.fail();
                GenerateStep::Failed(
                    GenerateError::Template(TemplateError::LoadError { path, source }),
                )
            },
            (GenerateStage::MakeParent, GenerateEvent::Completed) => self.write_next(),
            (GenerateStage::Write, GenerateEvent::Completed) => {
                let total = self.records.len();
                assert(self.next < total);
                self.next = self.next + 1;
                if self.next < total {
                    self.read_next()
                } else {
                    self.stage = GenerateStage::Done;
                    GenerateStep::Done
                }
            },
            (GenerateStage::AskWorkingDir, GenerateEvent::Failed(source)) => {
                self.fail();
                GenerateStep::Failed(GenerateError::Io(source))
            },
            (GenerateStage::CreateOutput, GenerateEvent::Failed(source)) => {
                self.fail();
                GenerateStep::Failed(GenerateError::Io(source))
            },
            (GenerateStage::MakeParent, GenerateEvent::Failed(source)) => {
                self.fail();
                GenerateStep::Failed(GenerateError::Io(source))
            },
            (GenerateStage::Write, GenerateEvent::Failed(source)) => {
                self.fail();
                GenerateStep::Failed(GenerateError::Io(source))
            },
            _ => self.request(),
        }
    }
}

} // verus!
