use cask::holotree::{Action, BuildFailure, Outcome, Phase, Resolver, Source};

/// Drives a resolver with the given results and returns every action asked for.
fn drive(source: Source, results: &[bool]) -> (Resolver, Vec<Action>) {
    let (mut resolver, first) = Resolver::start(source);
    let mut actions = vec![first];
    for ok in results {
        actions.push(resolver.advance(*ok));
    }
    (resolver, actions)
}

#[test]
fn first_run_from_manifest_builds() {
    let (resolver, actions) = drive(Source::Manifest, &[false, true, true, true, true, true]);
    assert_eq!(
        actions,
        vec![
            Action::CheckCache,
            Action::CreateDir,
            Action::CreateRuntime,
            Action::WriteInstallManifest,
            Action::Install,
            Action::RemoveInstallManifest,
            Action::Stop,
        ]
    );
    assert_eq!(resolver.outcome(), Some(Outcome::Built));
}

#[test]
fn second_run_is_a_hit_without_build() {
    let (resolver, actions) = drive(Source::Manifest, &[true]);
    assert_eq!(actions, vec![Action::CheckCache, Action::Stop]);
    assert_eq!(resolver.outcome(), Some(Outcome::Hit));
}

#[test]
fn resolving_again_after_build_hits() {
    let (built, _) = drive(Source::Lockfile, &[false, true, true, true, true]);
    assert_eq!(built.outcome(), Some(Outcome::Built));
    let (again, actions) = drive(Source::Lockfile, &[true, true, true]);
    assert_eq!(again.outcome(), Some(Outcome::Hit));
    assert!(actions.iter().all(|a| *a == Action::CheckCache || *a == Action::Stop));
}

#[test]
fn lockfile_source_is_installed_directly() {
    let (resolver, actions) = drive(Source::Lockfile, &[false, true, true, true, true]);
    assert_eq!(
        actions,
        vec![
            Action::CheckCache,
            Action::CreateDir,
            Action::CreateRuntime,
            Action::LocateLockfile,
            Action::Install,
            Action::Stop,
        ]
    );
    assert_eq!(resolver.outcome(), Some(Outcome::Built));
}

#[test]
fn failed_install_removes_temp_then_directory() {
    let (resolver, actions) = drive(Source::Manifest, &[false, true, true, true, false, true, true]);
    assert_eq!(
        actions,
        vec![
            Action::CheckCache,
            Action::CreateDir,
            Action::CreateRuntime,
            Action::WriteInstallManifest,
            Action::Install,
            Action::RemoveInstallManifest,
            Action::RemoveDir,
            Action::Stop,
        ]
    );
    assert_eq!(resolver.outcome(), Some(Outcome::Failed(BuildFailure::Install)));
    assert_eq!(BuildFailure::Install.describe(), "Failed to install dependencies");
}

#[test]
fn failed_lockfile_install_removes_directory() {
    let (resolver, actions) = drive(Source::Lockfile, &[false, true, true, true, false, false]);
    assert_eq!(actions[5], Action::RemoveDir);
    assert_eq!(actions[6], Action::Stop);
    assert_eq!(resolver.outcome(), Some(Outcome::Failed(BuildFailure::Install)));
}

#[test]
fn failed_runtime_creation_removes_directory() {
    let (resolver, actions) = drive(Source::Manifest, &[false, true, false, true]);
    assert_eq!(actions[3], Action::RemoveDir);
    assert_eq!(resolver.outcome(), Some(Outcome::Failed(BuildFailure::CreateRuntime)));
    assert_eq!(BuildFailure::CreateRuntime.describe(), "Failed to create venv");
}

#[test]
fn failed_directory_creation_still_cleans_up() {
    let (resolver, actions) = drive(Source::Manifest, &[false, false, false]);
    assert_eq!(actions, vec![Action::CheckCache, Action::CreateDir, Action::RemoveDir, Action::Stop]);
    assert_eq!(resolver.outcome(), Some(Outcome::Failed(BuildFailure::CreateDir)));
}

#[test]
fn failed_install_manifest_removes_directory() {
    let (resolver, actions) = drive(Source::Manifest, &[false, true, true, false, true]);
    assert_eq!(actions[4], Action::RemoveDir);
    assert_eq!(resolver.outcome(), Some(Outcome::Failed(BuildFailure::PrepareInstall)));
}

#[test]
fn unfinished_resolver_has_no_outcome() {
    let (resolver, _) = drive(Source::Manifest, &[false, true]);
    assert_eq!(resolver.phase, Phase::MakingRuntime);
    assert_eq!(resolver.outcome(), None);
}
