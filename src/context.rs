//! Discovery of the project directory and of the active environment.
//!
//! Resolution walks from a starting directory up through its ancestors,
//! nearest first, until one holds the project file. The environment is the
//! one named on the builder, or else the default named in the project's
//! stored configuration. Every filesystem access is a [`Request`] answered by
//! the caller with a [`Reply`].

use crate::error::{error_view, Error, ErrorKind, ErrorView};
use crate::json::{decode_member, decoded_member};
use crate::path::{ancestor, join, join_spec, parent, parent_of};
use vstd::prelude::*;

verus! {

/// The file whose presence marks a directory as a project root.
pub const PROJECT_FILE_NAME: &'static str = "azure.yaml";

/// The directory under the project root that holds the environments.
pub const ENVIRONMENT_DIR_NAME: &'static str = ".azure";

/// The stored configuration under the environments directory.
pub const CONFIG_FILE_NAME: &'static str = "config.json";

/// The variable file under an environment's directory.
pub const ENVIRONMENT_FILE_NAME: &'static str = ".env";

/// The member of the stored configuration that names the default environment.
pub const DEFAULT_ENVIRONMENT_KEY: &'static str = "defaultEnvironment";

/// The message of the error raised when no directory holds the project file.
pub const NO_PROJECT_MESSAGE: &'static str = "no project exists; to create a new project, run `azd init`";

/// The message of the error raised for an empty environment name.
pub const EMPTY_NAME_MESSAGE: &'static str = "name cannot be empty";

/// Follows the path in the message for a starting directory that does not
/// exist.
pub const MISSING_PATH_SUFFIX: &'static str = " does not exist";

/// Opens the quoted path in the message for a configuration without a
/// default environment.
pub const QUOTE: &'static str = "'";

/// Closes the quoted path in the message for a configuration without a
/// default environment.
pub const NO_DEFAULT_SUFFIX: &'static str = "' does not define `defaultEnvironment`";

/// The project file's path in `dir`.
pub open spec fn marker_path(dir: Seq<char>) -> Seq<char> {
    join_spec(dir, PROJECT_FILE_NAME@)
}

/// The environments directory of the project rooted at `dir`.
pub open spec fn environment_dir_of(dir: Seq<char>) -> Seq<char> {
    join_spec(dir, ENVIRONMENT_DIR_NAME@)
}

/// The stored configuration's path in the project rooted at `dir`.
pub open spec fn config_path_of(dir: Seq<char>) -> Seq<char> {
    join_spec(environment_dir_of(dir), CONFIG_FILE_NAME@)
}

/// The message for a stored configuration at `path` that names no default.
pub open spec fn no_default_message(path: Seq<char>) -> Seq<char> {
    QUOTE@ + path + NO_DEFAULT_SUFFIX@
}

/// The mathematical value of an [`AzdContext`].
pub ghost struct ContextView {
    pub project_dir: Seq<char>,
    pub environment_name: Seq<char>,
}

/// The directory of the active environment.
pub open spec fn environment_root_of(c: ContextView) -> Seq<char> {
    join_spec(environment_dir_of(c.project_dir), c.environment_name)
}

/// The variable file of the active environment.
pub open spec fn environment_file_of(c: ContextView) -> Seq<char> {
    join_spec(environment_root_of(c), ENVIRONMENT_FILE_NAME@)
}

/// Project information for the Azure Developer CLI: the directory holding the
/// project file, and the name of the active environment, which is never
/// empty.
#[derive(Debug)]
pub struct AzdContext {
    project_dir: String,
    environment_name: String,
}

impl View for AzdContext {
    type V = ContextView;

    closed spec fn view(&self) -> ContextView {
        ContextView { project_dir: self.project_dir@, environment_name: self.environment_name@ }
    }
}

impl Clone for AzdContext {
    fn clone(&self) -> (r: Self) {
        proof {
            use_type_invariant(self);
        }
        AzdContext {
            project_dir: self.project_dir.clone(),
            environment_name: self.environment_name.clone(),
        }
    }
}

impl AzdContext {
    #[verifier::type_invariant]
    spec fn inv(&self) -> bool {
        self.environment_name@.len() > 0
    }

    /// Gets an [`AzdContextBuilder`] with neither a directory nor a name set.
    pub fn builder() -> (r: AzdContextBuilder)
        ensures
            r@ == (BuilderView { current_dir: None, environment_name: None }),
    {
        AzdContextBuilder { current_dir: None, environment_name: None }
    }

    /// Gets the directory containing the project file.
    pub fn project_dir(&self) -> (r: &str)
        ensures
            r@ == self@.project_dir,
    {
        self.project_dir.as_str()
    }

    /// Gets the path to the project file.
    pub fn project_path(&self) -> (r: String)
        ensures
            r@ == marker_path(self@.project_dir),
    {
        join(self.project_dir.as_str(), PROJECT_FILE_NAME)
    }

    /// Gets the path to the directory that holds the environments.
    pub fn environment_dir(&self) -> (r: String)
        ensures
            r@ == environment_dir_of(self@.project_dir),
    {
        join(self.project_dir.as_str(), ENVIRONMENT_DIR_NAME)
    }

    /// Gets the name of the environment.
    pub fn environment_name(&self) -> (r: &str)
        ensures
            r@ == self@.environment_name,
            r@.len() > 0,
    {
        proof {
            use_type_invariant(self);
        }
        self.environment_name.as_str()
    }

    /// Gets the path to this environment's directory under
    /// [`AzdContext::environment_dir()`].
    pub fn environment_root(&self) -> (r: String)
        ensures
            r@ == environment_root_of(self@),
    {
        let dir = self.environment_dir();
        join(dir.as_str(), self.environment_name.as_str())
    }

    /// Gets the path to the variable file under
    /// [`AzdContext::environment_root()`].
    pub fn environment_file(&self) -> (r: String)
        ensures
            r@ == environment_file_of(self@),
    {
        let root = self.environment_root();
        join(root.as_str(), ENVIRONMENT_FILE_NAME)
    }
}

/// The mathematical value of an [`AzdContextBuilder`].
pub ghost struct BuilderView {
    pub current_dir: Option<Seq<char>>,
    pub environment_name: Option<Seq<char>>,
}

/// The value of an optional string.
pub open spec fn option_view(o: Option<String>) -> Option<Seq<char>> {
    match o {
        Some(s) => Some(s@),
        None => None,
    }
}

/// A builder to construct an [`AzdContext`]: an optional starting directory
/// (the working directory when absent) and an optional, non-empty
/// environment name (the stored default when absent).
#[derive(Debug)]
pub struct AzdContextBuilder {
    current_dir: Option<String>,
    environment_name: Option<String>,
}

impl View for AzdContextBuilder {
    type V = BuilderView;

    closed spec fn view(&self) -> BuilderView {
        BuilderView {
            current_dir: option_view(self.current_dir),
            environment_name: option_view(self.environment_name),
        }
    }
}

impl AzdContextBuilder {
    #[verifier::type_invariant]
    spec fn inv(&self) -> bool {
        match self.environment_name {
            Some(n) => n@.len() > 0,
            None => true,
        }
    }

    /// Sets the starting directory, which must exist: `path_exists` tells
    /// whether it does.
    pub fn current_dir(self, path: String, path_exists: bool) -> (r: Result<Self, Error>)
        ensures
            match r {
                Ok(b) => path_exists && b@ == (BuilderView { current_dir: Some(path@), ..self@ }),
                Err(e) => !path_exists && e@ == error_view(ErrorKind::Io, path@ + MISSING_PATH_SUFFIX@),
            },
    {
        proof {
            use_type_invariant(&self);
        }
        if !path_exists {
            return Err(Error::new(ErrorKind::Io, path.concat(MISSING_PATH_SUFFIX)));
        }
        Ok(AzdContextBuilder { current_dir: Some(path), environment_name: self.environment_name })
    }

    /// Sets the environment name, which must not be empty.
    pub fn environment_name(self, name: String) -> (r: Result<Self, Error>)
        ensures
            match r {
                Ok(b) => name@.len() > 0 && b@ == (BuilderView {
                    environment_name: Some(name@),
                    ..self@
                }),
                Err(e) => name@.len() == 0 && e@ == error_view(
                    ErrorKind::InvalidData,
                    EMPTY_NAME_MESSAGE@,
                ),
            },
    {
        if name.as_str().is_empty() {
            return Err(Error::new(ErrorKind::InvalidData, String::from_str(EMPTY_NAME_MESSAGE)));
        }
        Ok(AzdContextBuilder { current_dir: self.current_dir, environment_name: Some(name) })
    }

    /// Starts resolving an [`AzdContext`]; the caller answers each request
    /// until the resolution is done.
    pub fn build(self) -> (r: BuildStep)
        ensures
            r@ == build_start(self@),
    {
        match &self.current_dir {
            Some(d) => {
                let dir = d.clone();
                ContextResolver::walk(self, dir)
            },
            None => BuildStep::Pending(
                ContextResolver { builder: self, phase: Phase::Start },
                Request::CurrentDir,
            ),
        }
    }
}

/// Filesystem and process-environment work that discovery and loading ask
/// the caller to do.
#[derive(Debug)]
pub enum Request {
    /// Get the process's working directory.
    CurrentDir,
    /// Tell whether a file exists at this path.
    MarkerExists(String),
    /// Read the stored configuration at this path.
    ReadConfig(String),
    /// Apply the variable file at this path to the process environment;
    /// with `true`, variables already set are replaced.
    LoadEnvFile(String, bool),
}

/// The outcome of a [`Request`].
#[derive(Debug)]
pub enum Reply {
    CurrentDir(Result<String, Error>),
    MarkerExists(bool),
    ReadConfig(Result<Vec<u8>, Error>),
    LoadEnvFile(Result<(), Error>),
}

/// The mathematical value of a [`Request`].
pub ghost enum RequestView {
    CurrentDir,
    MarkerExists(Seq<char>),
    ReadConfig(Seq<char>),
    LoadEnvFile(Seq<char>, bool),
}

/// The mathematical value of a [`Reply`].
pub ghost enum ReplyView {
    CurrentDir(Result<Seq<char>, ErrorView>),
    MarkerExists(bool),
    ReadConfig(Result<Seq<u8>, ErrorView>),
    LoadEnvFile(Result<(), ErrorView>),
}

impl View for Request {
    type V = RequestView;

    open spec fn view(&self) -> RequestView {
        match self {
            Request::CurrentDir => RequestView::CurrentDir,
            Request::MarkerExists(p) => RequestView::MarkerExists(p@),
            Request::ReadConfig(p) => RequestView::ReadConfig(p@),
            Request::LoadEnvFile(p, replace) => RequestView::LoadEnvFile(p@, *replace),
        }
    }
}

impl View for Reply {
    type V = ReplyView;

    open spec fn view(&self) -> ReplyView {
        match self {
            Reply::CurrentDir(Ok(d)) => ReplyView::CurrentDir(Ok(d@)),
            Reply::CurrentDir(Err(e)) => ReplyView::CurrentDir(Err(e@)),
            Reply::MarkerExists(b) => ReplyView::MarkerExists(*b),
            Reply::ReadConfig(Ok(bytes)) => ReplyView::ReadConfig(Ok(bytes@)),
            Reply::ReadConfig(Err(e)) => ReplyView::ReadConfig(Err(e@)),
            Reply::LoadEnvFile(Ok(())) => ReplyView::LoadEnvFile(Ok(())),
            Reply::LoadEnvFile(Err(e)) => ReplyView::LoadEnvFile(Err(e@)),
        }
    }
}

#[derive(Debug)]
enum Phase {
    Start,
    Walking(String),
    Reading(String),
}

pub ghost enum PhaseView {
    /// Waiting for the working directory.
    Start,
    /// Waiting to learn whether this directory holds the project file.
    Walking(Seq<char>),
    /// The project is rooted here; waiting for its stored configuration.
    Reading(Seq<char>),
}

/// The mathematical value of a [`ContextResolver`].
pub ghost struct ResolverView {
    pub builder: BuilderView,
    pub phase: PhaseView,
}

/// A resolution of an [`AzdContext`] that waits for a [`Reply`].
#[derive(Debug)]
pub struct ContextResolver {
    builder: AzdContextBuilder,
    phase: Phase,
}

impl View for ContextResolver {
    type V = ResolverView;

    closed spec fn view(&self) -> ResolverView {
        ResolverView {
            builder: self.builder@,
            phase: match self.phase {
                Phase::Start => PhaseView::Start,
                Phase::Walking(d) => PhaseView::Walking(d@),
                Phase::Reading(d) => PhaseView::Reading(d@),
            },
        }
    }
}

/// Where a resolution stands: a request to answer, or its result.
#[derive(Debug)]
pub enum BuildStep {
    Pending(ContextResolver, Request),
    Done(Result<AzdContext, Error>),
}

/// The mathematical value of a [`BuildStep`].
pub ghost enum BuildStepView {
    Pending(ResolverView, RequestView),
    Done(Result<ContextView, ErrorView>),
}

impl View for BuildStep {
    type V = BuildStepView;

    open spec fn view(&self) -> BuildStepView {
        match self {
            BuildStep::Pending(r, q) => BuildStepView::Pending(r@, q@),
            BuildStep::Done(Ok(c)) => BuildStepView::Done(Ok(c@)),
            BuildStep::Done(Err(e)) => BuildStepView::Done(Err(e@)),
        }
    }
}

/// Asks whether `dir` holds the project file.
pub open spec fn walk_from(b: BuilderView, dir: Seq<char>) -> BuildStepView {
    BuildStepView::Pending(
        ResolverView { builder: b, phase: PhaseView::Walking(dir) },
        RequestView::MarkerExists(marker_path(dir)),
    )
}

/// The first step of a resolution: walk from the builder's directory, or
/// ask for the working directory.
pub open spec fn build_start(b: BuilderView) -> BuildStepView {
    match b.current_dir {
        Some(d) => walk_from(b, d),
        None => BuildStepView::Pending(
            ResolverView { builder: b, phase: PhaseView::Start },
            RequestView::CurrentDir,
        ),
    }
}

/// The project is rooted at `dir`: done when the builder names the
/// environment, otherwise ask for the stored configuration.
pub open spec fn found_at(b: BuilderView, dir: Seq<char>) -> BuildStepView {
    match b.environment_name {
        Some(n) => BuildStepView::Done(Ok(ContextView { project_dir: dir, environment_name: n })),
        None => BuildStepView::Pending(
            ResolverView { builder: b, phase: PhaseView::Reading(dir) },
            RequestView::ReadConfig(config_path_of(dir)),
        ),
    }
}

/// The context of the project rooted at `dir` whose stored configuration
/// decodes as `decoded`: a decoding failure and a missing or empty default
/// name are invalid data.
pub open spec fn from_config(
    dir: Seq<char>,
    decoded: Result<Option<Seq<char>>, Seq<char>>,
) -> Result<ContextView, ErrorView> {
    match decoded {
        Ok(Some(n)) => if n.len() > 0 {
            Ok(ContextView { project_dir: dir, environment_name: n })
        } else {
            Err(error_view(ErrorKind::InvalidData, no_default_message(config_path_of(dir))))
        },
        Ok(None) => Err(
            error_view(ErrorKind::InvalidData, no_default_message(config_path_of(dir))),
        ),
        Err(m) => Err(error_view(ErrorKind::InvalidData, m)),
    }
}

/// The step that follows `s` on `reply`. A reply that does not answer the
/// pending request leaves the resolution where it was.
pub open spec fn resolve_next(s: ResolverView, reply: ReplyView) -> BuildStepView {
    match s.phase {
        PhaseView::Start => match reply {
            ReplyView::CurrentDir(Ok(d)) => walk_from(s.builder, d),
            ReplyView::CurrentDir(Err(e)) => BuildStepView::Done(Err(e)),
            _ => BuildStepView::Pending(s, RequestView::CurrentDir),
        },
        PhaseView::Walking(d) => match reply {
            ReplyView::MarkerExists(true) => found_at(s.builder, d),
            ReplyView::MarkerExists(false) => match parent_of(d) {
                Some(p) => walk_from(s.builder, p),
                None => BuildStepView::Done(
                    Err(error_view(ErrorKind::NotFound, NO_PROJECT_MESSAGE@)),
                ),
            },
            _ => BuildStepView::Pending(s, RequestView::MarkerExists(marker_path(d))),
        },
        PhaseView::Reading(d) => match reply {
            ReplyView::ReadConfig(Ok(bytes)) => BuildStepView::Done(
                from_config(d, decoded_member(bytes, DEFAULT_ENVIRONMENT_KEY@)),
            ),
            ReplyView::ReadConfig(Err(e)) => BuildStepView::Done(Err(e)),
            _ => BuildStepView::Pending(s, RequestView::ReadConfig(config_path_of(d))),
        },
    }
}

/// What the filesystem and the process answer, as a model for stating what a
/// whole run of requests and replies comes to.
pub ghost struct World {
    pub cwd: Result<Seq<char>, ErrorView>,
    pub files: Set<Seq<char>>,
    pub read: spec_fn(Seq<char>) -> Result<Seq<u8>, ErrorView>,
    pub apply: spec_fn(Seq<char>, bool) -> Result<(), ErrorView>,
}

/// The reply that `w` gives to `q`.
pub open spec fn answer(q: RequestView, w: World) -> ReplyView {
    match q {
        RequestView::CurrentDir => ReplyView::CurrentDir(w.cwd),
        RequestView::MarkerExists(p) => ReplyView::MarkerExists(w.files.contains(p)),
        RequestView::ReadConfig(p) => ReplyView::ReadConfig((w.read)(p)),
        RequestView::LoadEnvFile(p, replace) => ReplyView::LoadEnvFile((w.apply)(p, replace)),
    }
}

/// Where a resolution stands after `w` answered at most `fuel` requests.
pub open spec fn run_build(s: BuildStepView, w: World, fuel: nat) -> BuildStepView
    decreases fuel,
{
    if fuel == 0 {
        s
    } else {
        match s {
            BuildStepView::Pending(r, q) => run_build(resolve_next(r, answer(q, w)), w, (fuel - 1) as nat),
            BuildStepView::Done(_) => s,
        }
    }
}

proof fn lemma_walk_stops_at_nearest(b: BuilderView, d: Seq<char>, w: World, k: nat)
    requires
        ancestor(d, k) is Some,
        w.files.contains(marker_path(ancestor(d, k)->0)),
        forall|j: nat| j < k ==> !w.files.contains(marker_path(#[trigger] ancestor(d, j)->0)),
    ensures
        run_build(walk_from(b, d), w, k + 1) == found_at(b, ancestor(d, k)->0),
    decreases k,
{
    assert(ancestor(d, 0) == Some(d));
    let s = ResolverView { builder: b, phase: PhaseView::Walking(d) };
    if k == 0 {
        assert(resolve_next(s, ReplyView::MarkerExists(true)) == found_at(b, d));
        assert(run_build(walk_from(b, d), w, 1) == run_build(found_at(b, d), w, 0));
    } else {
        assert(!w.files.contains(marker_path(ancestor(d, 0)->0)));
        let p = parent_of(d)->0;
        assert(resolve_next(s, ReplyView::MarkerExists(false)) == walk_from(b, p));
        assert(run_build(walk_from(b, d), w, k + 1) == run_build(walk_from(b, p), w, k));
        assert forall|j: nat| j < k - 1 implies !w.files.contains(
            marker_path(#[trigger] ancestor(p, j)->0),
        ) by {
            assert(ancestor(d, j + 1) == ancestor(p, j));
        }
        lemma_walk_stops_at_nearest(b, p, w, (k - 1) as nat);
    }
}

/// Discovery from a starting directory `d` settles on its nearest ancestor
/// (`d` itself first) that holds the project file, however deep `d` lies:
/// after one question for each directory from `d` up to that ancestor, the
/// project is rooted there.
pub proof fn lemma_discovery_finds_nearest(b: BuilderView, d: Seq<char>, w: World, k: nat)
    requires
        b.current_dir == Some(d),
        ancestor(d, k) is Some,
        w.files.contains(marker_path(ancestor(d, k)->0)),
        forall|j: nat| j < k ==> !w.files.contains(marker_path(#[trigger] ancestor(d, j)->0)),
    ensures
        run_build(build_start(b), w, k + 1) == found_at(b, ancestor(d, k)->0),
{
    lemma_walk_stops_at_nearest(b, d, w, k);
}

/// Resolution is idempotent: builders of equal value, answered by the same
/// unchanged filesystem, come to the same step, and so to the same project
/// directory and environment name.
pub proof fn lemma_build_idempotent(b1: BuilderView, b2: BuilderView, w: World, fuel: nat)
    requires
        b1 == b2,
    ensures
        run_build(build_start(b1), w, fuel) == run_build(build_start(b2), w, fuel),
{
}

/// The value of an optional string, or of the decoder's message.
pub open spec fn decoded_view(d: Result<Option<String>, String>) -> Result<Option<Seq<char>>, Seq<char>> {
    match d {
        Ok(Some(n)) => Ok(Some(n@)),
        Ok(None) => Ok(None),
        Err(m) => Err(m@),
    }
}

/// The value of a resolved context or of an error.
pub open spec fn context_result_view(r: Result<AzdContext, Error>) -> Result<ContextView, ErrorView> {
    match r {
        Ok(c) => Ok(c@),
        Err(e) => Err(e@),
    }
}

/// The context of the project rooted at `project_dir`, whose stored
/// configuration decoded as `decoded`: the decoder's message, or the
/// default environment's name if the configuration gives one.
pub fn context_from_config(project_dir: String, decoded: Result<Option<String>, String>) -> (r:
    Result<AzdContext, Error>)
    ensures
        context_result_view(r) == from_config(project_dir@, decoded_view(decoded)),
{
    match decoded {
        Ok(Some(name)) => {
            if name.as_str().is_empty() {
                Err(no_default_error(project_dir.as_str()))
            } else {
                Ok(AzdContext { project_dir, environment_name: name })
            }
        },
        Ok(None) => Err(no_default_error(project_dir.as_str())),
        Err(message) => Err(Error::new(ErrorKind::InvalidData, message)),
    }
}

fn config_path(dir: &str) -> (r: String)
    ensures
        r@ == config_path_of(dir@),
{
    let env_dir = join(dir, ENVIRONMENT_DIR_NAME);
    join(env_dir.as_str(), CONFIG_FILE_NAME)
}

fn no_default_error(dir: &str) -> (r: Error)
    ensures
        r@ == error_view(ErrorKind::InvalidData, no_default_message(config_path_of(dir@))),
{
    let message = String::from_str(QUOTE).concat(config_path(dir).as_str()).concat(
        NO_DEFAULT_SUFFIX,
    );
    Error::new(ErrorKind::InvalidData, message)
}

impl ContextResolver {
    fn walk(builder: AzdContextBuilder, dir: String) -> (r: BuildStep)
        ensures
            r@ == walk_from(builder@, dir@),
    {
        let marker = join(dir.as_str(), PROJECT_FILE_NAME);
        BuildStep::Pending(ContextResolver { builder, phase: Phase::Walking(dir) }, Request::MarkerExists(marker))
    }

    fn found(builder: AzdContextBuilder, dir: String) -> (r: BuildStep)
        ensures
            r@ == found_at(builder@, dir@),
    {
        proof {
            use_type_invariant(&builder);
        }
        match &builder.environment_name {
            Some(n) => BuildStep::Done(
                Ok(AzdContext { project_dir: dir, environment_name: n.clone() }),
            ),
            None => {
                let path = config_path(dir.as_str());
                BuildStep::Pending(
                    ContextResolver { builder, phase: Phase::Reading(dir) },
                    Request::ReadConfig(path),
                )
            },
        }
    }

    fn decide(dir: String, bytes: Vec<u8>) -> (r: Result<AzdContext, Error>)
        ensures
            context_result_view(r) == from_config(
                dir@,
                decoded_member(bytes@, DEFAULT_ENVIRONMENT_KEY@),
            ),
    {
        let decoded = decode_member(bytes.as_slice(), DEFAULT_ENVIRONMENT_KEY);
        context_from_config(dir, decoded)
    }

    /// Advances the resolution with the reply to its pending request.
    pub fn resume(self, reply: Reply) -> (r: BuildStep)
        ensures
            r@ == resolve_next(self@, reply@),
    {
        let ContextResolver { builder, phase } = self;
        match phase {
            Phase::Start => match reply {
                Reply::CurrentDir(Ok(d)) => ContextResolver::walk(builder, d),
                Reply::CurrentDir(Err(e)) => BuildStep::Done(Err(e)),
                _ => BuildStep::Pending(
                    ContextResolver { builder, phase: Phase::Start },
                    Request::CurrentDir,
                ),
            },
            Phase::Walking(d) => match reply {
                Reply::MarkerExists(true) => ContextResolver::found(builder, d),
                Reply::MarkerExists(false) => match parent(d.as_str()) {
                    Some(p) => ContextResolver::walk(builder, p),
                    None => BuildStep::Done(
                        Err(Error::new(ErrorKind::NotFound, String::from_str(NO_PROJECT_MESSAGE))),
                    ),
                },
                _ => ContextResolver::walk(builder, d),
            },
            Phase::Reading(d) => match reply {
                Reply::ReadConfig(Ok(bytes)) => BuildStep::Done(ContextResolver::decide(d, bytes)),
                Reply::ReadConfig(Err(e)) => BuildStep::Done(Err(e)),
                _ => {
                    let path = config_path(d.as_str());
                    BuildStep::Pending(
                        ContextResolver { builder, phase: Phase::Reading(d) },
                        Request::ReadConfig(path),
                    )
                },
            },
        }
    }
}

} // verus!
