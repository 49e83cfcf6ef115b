//! Tests of the container lifecycle planners and of image matching.

use rustsn::lang::Lang;
use rustsn::lifecycle::{
    image_exists, plan_create, plan_pull, plan_ready, plan_remove, plan_start, plan_stop,
    ContainerState, ImageState, LifecycleError, LifecycleState, StartAction,
};

fn state(image: ImageState, container: ContainerState) -> LifecycleState {
    LifecycleState { image, container }
}

#[test]
fn start_is_idempotent() {
    let stopped = state(ImageState::Present, ContainerState::Stopped);
    let (running, action) = plan_start(stopped).unwrap();
    assert_eq!(action, StartAction::IssueStart);
    assert_eq!(running.container, ContainerState::Running);
    let (still_running, second_action) = plan_start(running).unwrap();
    assert_eq!(second_action, StartAction::NoOp);
    assert_eq!(still_running, running);
}

#[test]
fn start_of_a_missing_container_is_not_found() {
    let absent = state(ImageState::Present, ContainerState::Absent);
    assert_eq!(plan_start(absent), Err(LifecycleError::NotFound));
}

#[test]
fn remove_then_start_fails_and_creates_nothing() {
    let running = state(ImageState::Present, ContainerState::Running);
    let removed = plan_remove(running);
    assert_eq!(removed.container, ContainerState::Absent);
    assert_eq!(plan_start(removed), Err(LifecycleError::NotFound));
}

#[test]
fn pull_is_a_no_op_when_the_image_is_present() {
    let present = state(ImageState::Present, ContainerState::Absent);
    let (next, pull_needed) = plan_pull(present);
    assert!(!pull_needed);
    assert_eq!(next, present);
    let absent = state(ImageState::Absent, ContainerState::Absent);
    let (next, pull_needed) = plan_pull(absent);
    assert!(pull_needed);
    assert_eq!(next.image, ImageState::Present);
}

#[test]
fn create_fails_on_an_existing_container() {
    let stopped = state(ImageState::Present, ContainerState::Stopped);
    assert_eq!(plan_create(stopped), Err(LifecycleError::AlreadyExists));
    let running = state(ImageState::Present, ContainerState::Running);
    assert_eq!(plan_create(running), Err(LifecycleError::AlreadyExists));
}

#[test]
fn create_needs_the_image() {
    let no_image = state(ImageState::Absent, ContainerState::Absent);
    assert_eq!(plan_create(no_image), Err(LifecycleError::ImageMissing));
    let ready = state(ImageState::Present, ContainerState::Absent);
    let created = plan_create(ready).unwrap();
    assert_eq!(created.container, ContainerState::Stopped);
}

#[test]
fn stop_reports_whether_anything_ran() {
    let running = state(ImageState::Present, ContainerState::Running);
    let (next, stopped) = plan_stop(running);
    assert!(stopped);
    assert_eq!(next.container, ContainerState::Stopped);
    let (again, stopped_again) = plan_stop(next);
    assert!(!stopped_again);
    assert_eq!(again, next);
}

#[test]
fn fresh_state_reaches_running_through_pull_create_start() {
    let fresh = state(ImageState::Absent, ContainerState::Absent);
    let (with_image, pull_needed) = plan_pull(fresh);
    assert!(pull_needed);
    let created = plan_create(with_image).unwrap();
    let (running, action) = plan_start(created).unwrap();
    assert_eq!(action, StartAction::IssueStart);
    assert_eq!(running.container, ContainerState::Running);
}

#[test]
fn readiness_plans_only_the_missing_steps() {
    let fresh = state(ImageState::Absent, ContainerState::Absent);
    let (next, plan) = plan_ready(fresh);
    assert_eq!(next, state(ImageState::Present, ContainerState::Running));
    assert!(plan.pull_image && plan.create_container && plan.issue_start);

    let stopped = state(ImageState::Present, ContainerState::Stopped);
    let (next, plan) = plan_ready(stopped);
    assert_eq!(next.container, ContainerState::Running);
    assert!(!plan.pull_image && !plan.create_container && plan.issue_start);

    let running = state(ImageState::Present, ContainerState::Running);
    let (_, plan) = plan_ready(running);
    assert!(!plan.pull_image && !plan.create_container && !plan.issue_start);
}

#[test]
fn image_matching_finds_the_language_tag() {
    let tags = vec![
        "debian:bookworm".to_string(),
        "python:3.12-slim".to_string(),
    ];
    assert!(image_exists(&tags, Lang::Python));
    assert!(!image_exists(&tags, Lang::Java));
    assert!(!image_exists(&Vec::new(), Lang::Python));
}

#[test]
fn image_matching_is_by_substring_with_known_false_positives() {
    // The naming convention matches by substring: a tag of one language
    // that contains another language's identifier is reported as present.
    let tags = vec!["javascript-tools:1".to_string()];
    assert!(image_exists(&tags, Lang::JavaScript));
    assert!(image_exists(&tags, Lang::Java));
}
