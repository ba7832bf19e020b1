//! The lifecycle guard over the foreign surface's hidden global state.
//!
//! The surface must be configured exactly once before any calculation or
//! metadata query, and released at most once; outside that window its
//! behaviour is undefined. The guard tracks the three-phase, one-directional
//! lifecycle `Unconfigured -> Ready -> Closed` and decides, for every
//! configure or close request, whether the foreign surface is to be touched
//! at all and with which path. The decisions are pure; the caller performs
//! the foreign call the returned directive names.

use vstd::prelude::*;

verus! {

/// The three lifecycle phases. Transitions are monotonic: once `Ready`,
/// never `Unconfigured` again; once `Closed`, final.
#[derive(Copy, Clone, PartialEq, Eq, Structural, Debug)]
pub enum LifecycleState {
    Unconfigured,
    Ready,
    Closed,
}

/// What a configure step tells the caller to hand the foreign surface.
#[derive(Debug)]
pub enum PathDirective {
    /// Tell the surface to use its own default search behaviour.
    UseDefault,
    /// Tell the surface to search this directory.
    UsePath(String),
}

/// Mathematical model of the guard: its phase and the explicit data path
/// the first configure call recorded, if any.
pub struct GuardModel {
    pub state: LifecycleState,
    pub path: Option<Seq<char>>,
}

/// The foreign-side effect of one configure step, at the model level.
pub enum ConfigEffect {
    /// The surface is not touched.
    NoCall,
    /// The surface is told to use its default path resolution.
    SetDefaultPath,
    /// The surface is told to search the given directory.
    SetExplicitPath(Seq<char>),
}

/// One configure request, at the model level: whether the environment
/// override is present, and the explicitly supplied path, if any.
pub struct ConfigRequest {
    pub env_override: bool,
    pub path: Option<Seq<char>>,
}

/// The transition a configure request makes: the first call wins and moves
/// the guard to `Ready`; any later call leaves everything unchanged and
/// does not touch the foreign surface. The environment override takes
/// precedence over an explicit path.
pub open spec fn spec_configure(m: GuardModel, req: ConfigRequest) -> (GuardModel, ConfigEffect) {
    if m.state != LifecycleState::Unconfigured {
        (m, ConfigEffect::NoCall)
    } else if req.env_override {
        (
            GuardModel { state: LifecycleState::Ready, path: None },
            ConfigEffect::SetDefaultPath,
        )
    } else {
        match req.path {
            Some(p) => (
                GuardModel { state: LifecycleState::Ready, path: Some(p) },
                ConfigEffect::SetExplicitPath(p),
            ),
            None => (
                GuardModel { state: LifecycleState::Ready, path: None },
                ConfigEffect::SetDefaultPath,
            ),
        }
    }
}

/// The transition a close request makes: the first close wins, from any
/// phase, and releases the foreign resources; any later close is a no-op.
/// The boolean says whether the foreign release call is to be made.
pub open spec fn spec_close(m: GuardModel) -> (GuardModel, bool) {
    if m.state == LifecycleState::Closed {
        (m, false)
    } else {
        (GuardModel { state: LifecycleState::Closed, path: m.path }, true)
    }
}

/// The model-level effect a returned directive stands for.
pub open spec fn directive_effect(d: Option<PathDirective>) -> ConfigEffect {
    match d {
        None => ConfigEffect::NoCall,
        Some(PathDirective::UseDefault) => ConfigEffect::SetDefaultPath,
        Some(PathDirective::UsePath(p)) => ConfigEffect::SetExplicitPath(p@),
    }
}

/// The model-level view of an optional path argument.
pub open spec fn opt_path_view(p: Option<&str>) -> Option<Seq<char>> {
    match p {
        Some(s) => Some(s@),
        None => None,
    }
}

/// The process-wide guard. All access to the foreign surface routes its
/// lifecycle decisions through one value of this type.
pub struct Ephemeris {
    state: LifecycleState,
    ephe_path: Option<String>,
}

impl View for Ephemeris {
    type V = GuardModel;

    closed spec fn view(&self) -> GuardModel {
        GuardModel {
            state: self.state,
            path: match self.ephe_path {
                Some(ref p) => Some(p@),
                None => None,
            },
        }
    }
}

impl Ephemeris {
    /// A fresh guard: nothing configured, nothing closed.
    pub fn new() -> (g: Self)
        ensures
            g@.state == LifecycleState::Unconfigured,
            g@.path is None,
    {
        Ephemeris { state: LifecycleState::Unconfigured, ephe_path: None }
    }

    /// Configure the data-file search path: the step `spec_configure`
    /// describes. The returned directive names the foreign call the caller
    /// must now make (`None`: the surface is not to be touched, because an
    /// earlier call already configured it).
    ///
    /// Calling after `close` is a programming error and is excluded, as is
    /// an explicit path that is about to be used but does not name an
    /// existing directory or does not fit the foreign surface's 256-byte
    /// buffer; `path_is_dir` carries the caller's directory check.
    pub fn set_ephe_path(&mut self, path: Option<&str>, env_override: bool, path_is_dir: bool) -> (d: Option<
        PathDirective,
    >)
        requires
            old(self)@.state != LifecycleState::Closed,
            (old(self)@.state == LifecycleState::Unconfigured && !env_override && path is Some)
                ==> path.unwrap()@.len() < 256 && path_is_dir,
        ensures
            final(self)@ == spec_configure(old(self)@, ConfigRequest { env_override, path: opt_path_view(path) }).0,
            directive_effect(d) == spec_configure(
                old(self)@,
                ConfigRequest { env_override, path: opt_path_view(path) },
            ).1,
    {
        match self.state {
            LifecycleState::Unconfigured => {
                self.state = LifecycleState::Ready;
                if env_override {
                    self.ephe_path = None;
                    Some(PathDirective::UseDefault)
                } else {
                    match path {
                        Some(p) => {
                            self.ephe_path = Some(p.to_owned());
                            Some(PathDirective::UsePath(p.to_owned()))
                        },
                        None => {
                            self.ephe_path = None;
                            Some(PathDirective::UseDefault)
                        },
                    }
                }
            },
            _ => None,
        }
    }

    /// Close the surface: the step `spec_close` describes. The first close
    /// wins, from any phase; the result says whether the caller must now
    /// make the foreign release call.
    pub fn close(&mut self) -> (do_release: bool)
        ensures
            final(self)@ == spec_close(old(self)@).0,
            do_release == spec_close(old(self)@).1,
    {
        match self.state {
            LifecycleState::Closed => false,
            _ => {
                self.state = LifecycleState::Closed;
                true
            },
        }
    }

    /// Precondition carrier for every calculation and metadata operation:
    /// the guard must be in its `Ready` window. A call outside it is a
    /// programming error, not a runtime condition, and is excluded here.
    pub fn assert_ephe_ready(&self, fn_name: &str)
        requires
            self@.state == LifecycleState::Ready,
    {
        let _ = fn_name;
    }

    /// Whether the guard is in its `Ready` window.
    pub fn is_ready(&self) -> (b: bool)
        ensures
            b == (self@.state == LifecycleState::Ready),
    {
        match self.state {
            LifecycleState::Ready => true,
            _ => false,
        }
    }

    /// Whether the guard has been closed.
    pub fn is_closed(&self) -> (b: bool)
        ensures
            b == (self@.state == LifecycleState::Closed),
    {
        match self.state {
            LifecycleState::Closed => true,
            _ => false,
        }
    }

    /// Decide where an alternate ephemeris file must be looked for: under
    /// the environment-provided directory when the override is present,
    /// otherwise under the directory the first configure call recorded.
    /// The file's length must fit the foreign buffer, and the caller must
    /// have verified that the file exists there (`file_exists`).
    pub fn set_jpl_file<'a>(&'a self, filename: &str, env_path: &'a Option<String>, file_exists: bool) -> (base: &'a Option<
        String,
    >)
        requires
            self@.state == LifecycleState::Ready,
            filename@.len() < 256,
            file_exists,
        ensures
            env_path is Some ==> base == env_path,
            env_path is None ==> match base {
                Some(b) => self@.path == Some(b@),
                None => self@.path is None,
            },
    {
        match env_path {
            Some(_) => env_path,
            None => &self.ephe_path,
        }
    }
}

/// A run of configure requests, applied in order.
pub open spec fn run_configures(m: GuardModel, reqs: Seq<ConfigRequest>) -> GuardModel
    decreases reqs.len(),
{
    if reqs.len() == 0 {
        m
    } else {
        run_configures(spec_configure(m, reqs.first()).0, reqs.drop_first())
    }
}

/// How many of a run of configure requests reach the foreign surface.
pub open spec fn configure_call_count(m: GuardModel, reqs: Seq<ConfigRequest>) -> int
    decreases reqs.len(),
{
    if reqs.len() == 0 {
        0
    } else {
        (if spec_configure(m, reqs.first()).1 == ConfigEffect::NoCall {
            0int
        } else {
            1int
        }) + configure_call_count(spec_configure(m, reqs.first()).0, reqs.drop_first())
    }
}

/// Law: configuring twice is a no-op the second time. Whatever the first
/// call established — state and recorded foreign path — remains, and the
/// second call does not touch the foreign surface, for every valid
/// first-call input.
pub proof fn lemma_configure_twice_noop(m: GuardModel, first: ConfigRequest, second: ConfigRequest)
    requires
        m.state == LifecycleState::Unconfigured,
    ensures
        spec_configure(spec_configure(m, first).0, second).0 == spec_configure(m, first).0,
        spec_configure(spec_configure(m, first).0, second).1 == ConfigEffect::NoCall,
{
}

/// Law: closing twice is a no-op the second time, and closing is permitted
/// from any phase — before configuring too — and still moves to `Closed`.
/// Only the first close releases the foreign resources.
pub proof fn lemma_close_twice_noop(m: GuardModel)
    ensures
        spec_close(m).0.state == LifecycleState::Closed,
        spec_close(m).1 == (m.state != LifecycleState::Closed),
        spec_close(spec_close(m).0).0 == spec_close(m).0,
        spec_close(spec_close(m).0).1 == false,
{
}

/// Law: however many configure requests race to be first, exactly one
/// foreign-side configuration happens. In any run of requests against an
/// unconfigured guard, precisely the first reaches the foreign surface;
/// against an already configured or closed guard, none does.
pub proof fn lemma_configure_exactly_once(m: GuardModel, reqs: Seq<ConfigRequest>)
    ensures
        m.state == LifecycleState::Unconfigured && reqs.len() > 0 ==> configure_call_count(
            m,
            reqs,
        ) == 1,
        m.state != LifecycleState::Unconfigured ==> configure_call_count(m, reqs) == 0,
    decreases reqs.len(),
{
    if reqs.len() > 0 {
        lemma_configure_exactly_once(spec_configure(m, reqs.first()).0, reqs.drop_first());
    }
}

} // verus!
