//! Container lifecycle planning: for each language, one uniquely named
//! container that must exist, carry its image and be running before a
//! command executes in it.
//!
//! The planners are pure decision functions from an observed lifecycle state
//! to the next state and the action the container engine has to perform;
//! the surrounding process inspects the engine, calls a planner, performs
//! the returned action and reports the observed outcome back.

use vstd::prelude::*;

verus! {

use crate::lang::{Lang, lang_name, lang_name_spec};
use crate::text::{seq_contains, str_contains};

/// Whether the language's image is present on the container engine.
#[derive(Clone, Copy, PartialEq, Eq, Structural, Debug)]
pub enum ImageState {
    Absent,
    Present,
}

/// The container axis of the lifecycle: missing, created but stopped, or
/// running.
#[derive(Clone, Copy, PartialEq, Eq, Structural, Debug)]
pub enum ContainerState {
    Absent,
    Stopped,
    Running,
}

/// The observed lifecycle state of one language's image and container.
#[derive(Clone, Copy, PartialEq, Eq, Structural, Debug)]
pub struct LifecycleState {
    pub image: ImageState,
    pub container: ContainerState,
}

/// Why a lifecycle step cannot be taken.
#[derive(Clone, Copy, PartialEq, Eq, Structural, Debug)]
pub enum LifecycleError {
    /// The container does not exist; the caller must create it first.
    NotFound,
    /// A container of the language's name already exists.
    AlreadyExists,
    /// The image is not present, so no container can be created from it.
    ImageMissing,
}

/// What `plan_start` asks the engine to do.
#[derive(Clone, Copy, PartialEq, Eq, Structural, Debug)]
pub enum StartAction {
    /// The container is already running; nothing is issued.
    NoOp,
    /// Issue a start of the stopped container.
    IssueStart,
}

/// Pulling the image: a no-op when it is already present.
pub open spec fn pull_spec(s: LifecycleState) -> (LifecycleState, bool) {
    (
        LifecycleState { image: ImageState::Present, container: s.container },
        s.image == ImageState::Absent,
    )
}

/// Creating the container: fails when one of the name already exists or the
/// image is missing; otherwise the container exists, stopped.
pub open spec fn create_spec(s: LifecycleState) -> Result<LifecycleState, LifecycleError> {
    if s.container != ContainerState::Absent {
        Err(LifecycleError::AlreadyExists)
    } else if s.image != ImageState::Present {
        Err(LifecycleError::ImageMissing)
    } else {
        Ok(LifecycleState { image: s.image, container: ContainerState::Stopped })
    }
}

/// Starting the container: running stays running with nothing issued, a
/// stopped container is started, a missing one is a not-found error and is
/// never created silently.
pub open spec fn start_spec(s: LifecycleState) -> Result<
    (LifecycleState, StartAction),
    LifecycleError,
> {
    match s.container {
        ContainerState::Absent => Err(LifecycleError::NotFound),
        ContainerState::Stopped => Ok(
            (
                LifecycleState { image: s.image, container: ContainerState::Running },
                StartAction::IssueStart,
            ),
        ),
        ContainerState::Running => Ok((s, StartAction::NoOp)),
    }
}

/// Stopping the container: true and stopped when it was running, false and
/// unchanged otherwise; not an error either way.
pub open spec fn stop_spec(s: LifecycleState) -> (LifecycleState, bool) {
    if s.container == ContainerState::Running {
        (LifecycleState { image: s.image, container: ContainerState::Stopped }, true)
    } else {
        (s, false)
    }
}

/// Removing the container: forced, so the container is gone whatever state
/// it was in; the image stays.
pub open spec fn remove_spec(s: LifecycleState) -> LifecycleState {
    LifecycleState { image: s.image, container: ContainerState::Absent }
}

/// Plans an image pull: the next state and whether a pull must be issued.
pub fn plan_pull(s: LifecycleState) -> (r: (LifecycleState, bool))
    ensures
        r == pull_spec(s),
{
    (
        LifecycleState { image: ImageState::Present, container: s.container },
        matches!(s.image, ImageState::Absent),
    )
}

/// Plans a container creation.
pub fn plan_create(s: LifecycleState) -> (r: Result<LifecycleState, LifecycleError>)
    ensures
        r == create_spec(s),
{
    match s.container {
        ContainerState::Absent => match s.image {
            ImageState::Present => Ok(
                LifecycleState { image: s.image, container: ContainerState::Stopped },
            ),
            ImageState::Absent => Err(LifecycleError::ImageMissing),
        },
        _ => Err(LifecycleError::AlreadyExists),
    }
}

/// Plans a container start.
pub fn plan_start(s: LifecycleState) -> (r: Result<(LifecycleState, StartAction), LifecycleError>)
    ensures
        r == start_spec(s),
{
    match s.container {
        ContainerState::Absent => Err(LifecycleError::NotFound),
        ContainerState::Stopped => Ok(
            (
                LifecycleState { image: s.image, container: ContainerState::Running },
                StartAction::IssueStart,
            ),
        ),
        ContainerState::Running => Ok((s, StartAction::NoOp)),
    }
}

/// Plans a container stop: the next state and whether a stop was issued.
pub fn plan_stop(s: LifecycleState) -> (r: (LifecycleState, bool))
    ensures
        r == stop_spec(s),
{
    match s.container {
        ContainerState::Running => (
            LifecycleState { image: s.image, container: ContainerState::Stopped },
            true,
        ),
        _ => (s, false),
    }
}

/// Plans a forced removal.
pub fn plan_remove(s: LifecycleState) -> (r: LifecycleState)
    ensures
        r == remove_spec(s),
{
    LifecycleState { image: s.image, container: ContainerState::Absent }
}

/// The engine actions that bring a language's container to running, in
/// order: pull the image if it is absent, create the container if it is
/// absent, start it unless it already runs.
#[derive(Clone, Copy, PartialEq, Eq, Structural, Debug)]
pub struct ReadyPlan {
    pub pull_image: bool,
    pub create_container: bool,
    pub issue_start: bool,
}

/// Readiness: whatever the observed state, performing the returned actions
/// in order leaves the image present and the container running, and no
/// action is issued whose work is already done.
pub fn plan_ready(s: LifecycleState) -> (r: (LifecycleState, ReadyPlan))
    ensures
        r.0 == (LifecycleState { image: ImageState::Present, container: ContainerState::Running }),
        r.1.pull_image == (s.image == ImageState::Absent),
        r.1.create_container == (s.container == ContainerState::Absent),
        r.1.issue_start == (s.container != ContainerState::Running),
        ({
            let (pulled, pull_needed) = pull_spec(s);
            let created = if r.1.create_container {
                create_spec(pulled)->Ok_0
            } else {
                pulled
            };
            &&& pull_needed == r.1.pull_image
            &&& (r.1.create_container ==> create_spec(pulled) is Ok)
            &&& start_spec(created) is Ok
            &&& start_spec(created)->Ok_0.0 == r.0
            &&& (start_spec(created)->Ok_0.1 == StartAction::IssueStart) == r.1.issue_start
        }),
{
    let pull_image = matches!(s.image, ImageState::Absent);
    let create_container = matches!(s.container, ContainerState::Absent);
    let issue_start = !matches!(s.container, ContainerState::Running);
    (
        LifecycleState { image: ImageState::Present, container: ContainerState::Running },
        ReadyPlan { pull_image, create_container, issue_start },
    )
}

/// Starting is idempotent: from any state whose container exists, a start
/// succeeds and leaves the container running, and a second start from the
/// resulting state succeeds too, changes nothing and issues nothing.
pub proof fn lemma_start_idempotent(s: LifecycleState)
    requires
        s.container != ContainerState::Absent,
    ensures
        start_spec(s) is Ok,
        start_spec(s)->Ok_0.0.container == ContainerState::Running,
        start_spec(start_spec(s)->Ok_0.0) == Ok::<(LifecycleState, StartAction), LifecycleError>(
            (start_spec(s)->Ok_0.0, StartAction::NoOp),
        ),
{
}

/// Lifecycle ordering: after a removal, a start fails with the not-found
/// error; it never silently creates a container.
pub proof fn lemma_remove_then_start(s: LifecycleState)
    ensures
        start_spec(remove_spec(s)) == Err::<(LifecycleState, StartAction), LifecycleError>(
            LifecycleError::NotFound,
        ),
{
}

/// Some listed image tag mentions the language identifier.
pub open spec fn image_listed(tags: Seq<Seq<char>>, l: Lang) -> bool {
    exists|i: int| 0 <= i < tags.len() && seq_contains(#[trigger] tags[i], lang_name_spec(l))
}

/// Whether any known image tag carries the language's identifier. Matching
/// is by substring, the naming convention the engine relies on; a language
/// name occurring inside an unrelated tag is a known false positive of this
/// rule.
pub fn image_exists(tags: &Vec<String>, l: Lang) -> (r: bool)
    ensures
        r == image_listed(tags.deep_view(), l),
{
    let name = lang_name(l);
    let n = tags.len();
    let mut i: usize = 0;
    while i < n
        invariant
            i <= n,
            n == tags@.len(),
            name@ == lang_name_spec(l),
            forall|j: int| 0 <= j < i ==> !seq_contains(#[trigger] tags.deep_view()[j], lang_name_spec(l)),
        decreases n - i,
    {
        if str_contains(tags[i].as_str(), name.as_str()) {
            proof {
                assert(tags.deep_view()[i as int] == tags@[i as int]@);
            }
            return true;
        }
        proof {
            assert(tags.deep_view()[i as int] == tags@[i as int]@);
        }
        i += 1;
    }
    false
}

} // verus!
