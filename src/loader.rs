//! The policy for loading an environment's variables.
//!
//! A missing project and a missing variable file are benign: loading then
//! reports that nothing was loaded. Every other failure is an error.

use crate::context::{
    answer, build_start, environment_file_of, marker_path, resolve_next, AzdContext,
    BuildStep, BuildStepView, BuilderView, ContextResolver, ContextView, Reply,
    PhaseView, ReplyView, Request, RequestView, ResolverView, World, walk_from,
};
use crate::error::{Error, ErrorKind, ErrorView};
use crate::path::{ancestor, parent_of};
use vstd::prelude::*;

verus! {

/// The mathematical value of a [`Loader`].
pub ghost struct LoaderView {
    pub context: Option<ContextView>,
    pub replace: bool,
}

/// A builder to customize discovery and loading of environment variables:
/// an optional, already resolved context, and whether variables already set
/// are replaced.
#[derive(Debug)]
pub struct Loader {
    context: Option<AzdContext>,
    replace: bool,
}

impl View for Loader {
    type V = LoaderView;

    closed spec fn view(&self) -> LoaderView {
        LoaderView {
            context: match self.context {
                Some(c) => Some(c@),
                None => None,
            },
            replace: self.replace,
        }
    }
}

#[derive(Debug)]
enum LoadPhase {
    Resolving(ContextResolver),
    Applying(String),
}

pub ghost enum LoadPhaseView {
    /// Resolving the context.
    Resolving(ResolverView),
    /// Waiting for the variable file at this path to be applied.
    Applying(Seq<char>),
}

/// The mathematical value of a [`Loading`].
pub ghost struct LoadingView {
    pub replace: bool,
    pub phase: LoadPhaseView,
}

/// A load that waits for a [`Reply`].
#[derive(Debug)]
pub struct Loading {
    replace: bool,
    phase: LoadPhase,
}

impl View for Loading {
    type V = LoadingView;

    closed spec fn view(&self) -> LoadingView {
        LoadingView {
            replace: self.replace,
            phase: match self.phase {
                LoadPhase::Resolving(r) => LoadPhaseView::Resolving(r@),
                LoadPhase::Applying(p) => LoadPhaseView::Applying(p@),
            },
        }
    }
}

/// Where a load stands: a request to answer, or whether a variable file was
/// loaded.
#[derive(Debug)]
pub enum LoadStep {
    Pending(Loading, Request),
    Done(Result<bool, Error>),
}

/// The mathematical value of a [`LoadStep`].
pub ghost enum LoadStepView {
    Pending(LoadingView, RequestView),
    Done(Result<bool, ErrorView>),
}

impl View for LoadStep {
    type V = LoadStepView;

    open spec fn view(&self) -> LoadStepView {
        match self {
            LoadStep::Pending(l, q) => LoadStepView::Pending(l@, q@),
            LoadStep::Done(Ok(b)) => LoadStepView::Done(Ok(*b)),
            LoadStep::Done(Err(e)) => LoadStepView::Done(Err(e@)),
        }
    }
}

/// An error of kind not-found becomes "nothing loaded"; any other stays an
/// error.
pub open spec fn benign(e: ErrorView) -> LoadStepView {
    if e.kind == ErrorKind::NotFound {
        LoadStepView::Done(Ok(false))
    } else {
        LoadStepView::Done(Err(e))
    }
}

/// Asks to apply the variable file of `c`.
pub open spec fn apply_step(c: ContextView, replace: bool) -> LoadStepView {
    LoadStepView::Pending(
        LoadingView { replace, phase: LoadPhaseView::Applying(environment_file_of(c)) },
        RequestView::LoadEnvFile(environment_file_of(c), replace),
    )
}

/// The load step for the resolution step `s`.
pub open spec fn after_build(replace: bool, s: BuildStepView) -> LoadStepView {
    match s {
        BuildStepView::Pending(r, q) => LoadStepView::Pending(
            LoadingView { replace, phase: LoadPhaseView::Resolving(r) },
            q,
        ),
        BuildStepView::Done(Ok(c)) => apply_step(c, replace),
        BuildStepView::Done(Err(e)) => benign(e),
    }
}

/// The builder that resolves a context when none was given.
pub open spec fn default_builder() -> BuilderView {
    BuilderView { current_dir: None, environment_name: None }
}

/// The first step of a load: apply the given context's variable file, or
/// resolve a context from the working directory first.
pub open spec fn load_start(l: LoaderView) -> LoadStepView {
    match l.context {
        Some(c) => apply_step(c, l.replace),
        None => after_build(l.replace, build_start(default_builder())),
    }
}

/// The step that follows `s` on `reply`. A reply that does not answer the
/// pending request leaves the load where it was.
pub open spec fn load_next(s: LoadingView, reply: ReplyView) -> LoadStepView {
    match s.phase {
        LoadPhaseView::Resolving(r) => after_build(s.replace, resolve_next(r, reply)),
        LoadPhaseView::Applying(p) => match reply {
            ReplyView::LoadEnvFile(Ok(())) => LoadStepView::Done(Ok(true)),
            ReplyView::LoadEnvFile(Err(e)) => benign(e),
            _ => LoadStepView::Pending(s, RequestView::LoadEnvFile(p, s.replace)),
        },
    }
}

/// Where a load stands after `w` answered at most `fuel` requests.
pub open spec fn run_load(s: LoadStepView, w: World, fuel: nat) -> LoadStepView
    decreases fuel,
{
    if fuel == 0 {
        s
    } else {
        match s {
            LoadStepView::Pending(l, q) => run_load(load_next(l, answer(q, w)), w, (fuel - 1) as nat),
            LoadStepView::Done(_) => s,
        }
    }
}

proof fn lemma_walk_without_project(replace: bool, b: BuilderView, d: Seq<char>, w: World, k: nat)
    requires
        ancestor(d, k) is Some,
        parent_of(ancestor(d, k)->0) is None,
        forall|j: nat| j <= k ==> !w.files.contains(marker_path(#[trigger] ancestor(d, j)->0)),
    ensures
        run_load(after_build(replace, walk_from(b, d)), w, k + 1) == LoadStepView::Done(
            Ok::<bool, ErrorView>(false),
        ),
    decreases k,
{
    assert(ancestor(d, 0) == Some(d));
    assert(!w.files.contains(marker_path(ancestor(d, 0)->0)));
    let s = ResolverView { builder: b, phase: PhaseView::Walking(d) };
    let l = LoadingView { replace, phase: LoadPhaseView::Resolving(s) };
    if k == 0 {
        assert(run_load(after_build(replace, walk_from(b, d)), w, 1) == run_load(
            load_next(l, ReplyView::MarkerExists(false)),
            w,
            0,
        ));
    } else {
        let p = parent_of(d)->0;
        assert(resolve_next(s, ReplyView::MarkerExists(false)) == walk_from(b, p));
        assert(ancestor(d, k) == ancestor(p, (k - 1) as nat));
        assert forall|j: nat| j <= k - 1 implies !w.files.contains(
            marker_path(#[trigger] ancestor(p, j)->0),
        ) by {
            assert(ancestor(d, j + 1) == ancestor(p, j));
        }
        lemma_walk_without_project(replace, b, p, w, (k - 1) as nat);
        assert(run_load(after_build(replace, walk_from(b, d)), w, k + 1) == run_load(
            after_build(replace, walk_from(b, p)),
            w,
            k,
        ));
    }
}

/// Loading without a context, from a working directory `d` none of whose
/// ancestors (up to the topmost, `k` levels up) holds the project file, ends
/// in the benign "nothing loaded", not in an error.
pub proof fn lemma_no_project_loads_nothing(replace: bool, d: Seq<char>, w: World, k: nat)
    requires
        w.cwd == Ok::<Seq<char>, ErrorView>(d),
        ancestor(d, k) is Some,
        parent_of(ancestor(d, k)->0) is None,
        forall|j: nat| j <= k ==> !w.files.contains(marker_path(#[trigger] ancestor(d, j)->0)),
    ensures
        run_load(load_start(LoaderView { context: None, replace }), w, k + 2) == LoadStepView::Done(
            Ok::<bool, ErrorView>(false),
        ),
{
    let b = default_builder();
    let s = ResolverView { builder: b, phase: PhaseView::Start };
    assert(resolve_next(s, ReplyView::CurrentDir(Ok(d))) == walk_from(b, d));
    lemma_walk_without_project(replace, b, d, w, k);
    assert(run_load(load_start(LoaderView { context: None, replace }), w, k + 2) == run_load(
        after_build(replace, walk_from(b, d)),
        w,
        k + 1,
    ));
}

/// A load with a given context asks, first and only, to apply that
/// context's variable file under the loader's replace flag; it reports
/// "loaded" when that succeeds, "nothing loaded" when the file is missing,
/// and the failure otherwise.
pub proof fn lemma_load_applies_context_file(l: LoaderView, w: World)
    requires
        l.context is Some,
    ensures
        load_start(l) matches LoadStepView::Pending(_, q) && q == RequestView::LoadEnvFile(
            environment_file_of(l.context->0),
            l.replace,
        ),
        run_load(load_start(l), w, 1) == match (w.apply)(environment_file_of(l.context->0), l.replace) {
            Ok(()) => LoadStepView::Done(Ok::<bool, ErrorView>(true)),
            Err(e) => benign(e),
        },
{
    let f = environment_file_of(l.context->0);
    let s = LoadingView { replace: l.replace, phase: LoadPhaseView::Applying(f) };
    let reply = answer(RequestView::LoadEnvFile(f, l.replace), w);
    assert(run_load(load_start(l), w, 1) == run_load(load_next(s, reply), w, 0));
}

/// Starts loading the environment variables of the project around the
/// working directory, leaving variables that are already set untouched.
///
/// The load ends with `true` if a variable file was found and applied, and
/// with `false` if there is no project or no variable file.
pub fn load() -> (r: LoadStep)
    ensures
        r@ == load_start(LoaderView { context: None, replace: false }),
{
    loader().load()
}

/// Gets a builder to customize discovery and loading of environment
/// variables.
pub fn loader() -> (r: Loader)
    ensures
        r@ == (LoaderView { context: None, replace: false }),
{
    Loader { context: None, replace: false }
}

fn apply(c: AzdContext, replace: bool) -> (r: LoadStep)
    ensures
        r@ == apply_step(c@, replace),
{
    let path = c.environment_file();
    let pending = path.clone();
    LoadStep::Pending(
        Loading { replace, phase: LoadPhase::Applying(path) },
        Request::LoadEnvFile(pending, replace),
    )
}

fn continue_with(replace: bool, s: BuildStep) -> (r: LoadStep)
    ensures
        r@ == after_build(replace, s@),
{
    match s {
        BuildStep::Pending(resolver, q) => LoadStep::Pending(
            Loading { replace, phase: LoadPhase::Resolving(resolver) },
            q,
        ),
        BuildStep::Done(Ok(c)) => apply(c, replace),
        BuildStep::Done(Err(e)) => settle(e),
    }
}

fn settle(e: Error) -> (r: LoadStep)
    ensures
        r@ == benign(e@),
{
    if e.kind == ErrorKind::NotFound {
        LoadStep::Done(Ok(false))
    } else {
        LoadStep::Done(Err(e))
    }
}

impl Loader {
    /// Sets the [`AzdContext`] to use instead of discovering one.
    pub fn context(self, context: AzdContext) -> (r: Self)
        ensures
            r@ == (LoaderView { context: Some(context@), ..self@ }),
    {
        Loader { context: Some(context), replace: self.replace }
    }

    /// Sets whether to replace environment variables that were already set.
    pub fn replace(self, replace: bool) -> (r: Self)
        ensures
            r@ == (LoaderView { replace, ..self@ }),
    {
        Loader { context: self.context, replace }
    }

    /// Starts finding and loading the variable file.
    pub fn load(self) -> (r: LoadStep)
        ensures
            r@ == load_start(self@),
    {
        match self.context {
            Some(c) => apply(c, self.replace),
            None => continue_with(self.replace, AzdContext::builder().build()),
        }
    }
}

impl Loading {
    /// Advances the load with the reply to its pending request.
    pub fn resume(self, reply: Reply) -> (r: LoadStep)
        ensures
            r@ == load_next(self@, reply@),
    {
        let Loading { replace, phase } = self;
        match phase {
            LoadPhase::Resolving(resolver) => continue_with(replace, resolver.resume(reply)),
            LoadPhase::Applying(path) => match reply {
                Reply::LoadEnvFile(Ok(())) => LoadStep::Done(Ok(true)),
                Reply::LoadEnvFile(Err(e)) => settle(e),
                _ => {
                    let pending = path.clone();
                    LoadStep::Pending(
                        Loading { replace, phase: LoadPhase::Applying(path) },
                        Request::LoadEnvFile(pending, replace),
                    )
                },
            },
        }
    }
}

} // verus!
