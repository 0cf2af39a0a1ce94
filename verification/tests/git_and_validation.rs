use spritecollab::datafiles::{AnimDataXmlOpenError, DatafilesReport};
use spritecollab::git_source::{
    ensure_fresh_step, update_precheck, EnsureFreshState, GitAction, GitEvent,
};
use spritecollab::datamodel::{FormEntry, Tracker, TrackerGroup};
use spritecollab::validator::{try_read_in_anim_data_xml, validation_targets, XmlOutcome};

#[test]
fn present_workdir_is_updated_in_place() {
    let (st, act) = ensure_fresh_step(EnsureFreshState::Start, GitEvent::WorkdirPresent);
    assert_eq!(st, EnsureFreshState::AwaitUpdate);
    assert_eq!(act, GitAction::TryUpdate);
}

#[test]
fn missing_workdir_is_created_and_cloned() {
    let (st, act) = ensure_fresh_step(EnsureFreshState::Start, GitEvent::WorkdirMissing);
    assert_eq!(st, EnsureFreshState::AwaitFreshClone);
    assert_eq!(act, GitAction::CreateDirAndClone);
    let (st2, act2) = ensure_fresh_step(st, GitEvent::StepOk);
    assert_eq!(st2, EnsureFreshState::Done);
    assert_eq!(act2, GitAction::Proceed);
}

#[test]
fn missing_git_metadata_recovers_by_recreation() {
    // the precheck turns missing `.git` metadata into a failed update step
    assert_eq!(update_precheck(false), Err(GitEvent::StepFailed));
    assert!(update_precheck(true).is_ok());
    // a failed update is repaired by deletion and a fresh clone, never fatal
    let (st, act) = ensure_fresh_step(EnsureFreshState::AwaitUpdate, GitEvent::StepFailed);
    assert_eq!(st, EnsureFreshState::AwaitReclone);
    assert_eq!(act, GitAction::DeleteAndClone);
    // the successful re-clone ends the run fresh
    let (st2, act2) = ensure_fresh_step(st, GitEvent::StepOk);
    assert_eq!(st2, EnsureFreshState::Done);
    assert_eq!(act2, GitAction::Proceed);
}

#[test]
fn only_a_failed_clone_aborts() {
    let (st, act) = ensure_fresh_step(EnsureFreshState::AwaitReclone, GitEvent::StepFailed);
    assert_eq!(st, EnsureFreshState::Failed);
    assert_eq!(act, GitAction::Abort);
    let (st2, act2) = ensure_fresh_step(EnsureFreshState::AwaitFreshClone, GitEvent::StepFailed);
    assert_eq!(st2, EnsureFreshState::Failed);
    assert_eq!(act2, GitAction::Abort);
}

fn catalog_a_b_c() -> Tracker {
    Tracker {
        groups: vec![
            TrackerGroup {
                id: 1, // A: complete
                forms: vec![FormEntry { path: vec![], sprite_complete: 1, portrait_complete: 1 }],
            },
            TrackerGroup {
                id: 2, // B: incomplete
                forms: vec![FormEntry { path: vec![], sprite_complete: 0, portrait_complete: 0 }],
            },
            TrackerGroup {
                id: 3, // C: complete, but its file will turn out bad
                forms: vec![FormEntry { path: vec![1], sprite_complete: 2, portrait_complete: 0 }],
            },
        ],
    }
}

#[test]
fn validator_visits_complete_forms_and_never_incomplete_ones() {
    let targets = validation_targets(&catalog_a_b_c());
    let seen: Vec<(i32, Vec<i32>)> =
        targets.iter().map(|t| (t.monster_id, t.form_path.clone())).collect();
    assert_eq!(seen, vec![(1, vec![]), (3, vec![1])]);
}

#[test]
fn one_aggregate_report_names_exactly_the_failing_entity() {
    // A validates; C does not; B was never visited
    let outcomes = vec![
        XmlOutcome::Valid { monster_id: 1, form_path: vec![] },
        XmlOutcome::Invalid {
            monster_id: 3,
            form_path: vec![1],
            error: AnimDataXmlOpenError::Parse(String::from("bad root element")),
        },
    ];
    match try_read_in_anim_data_xml(outcomes) {
        Err(DatafilesReport::AnimDataXmlErrors(fails)) => {
            assert_eq!(fails.len(), 1);
            assert_eq!(fails[0].monster_id, 3);
            assert_eq!(fails[0].form_path, vec![1]);
        }
        _ => panic!("expected one aggregate failure naming the bad entity"),
    }
}

#[test]
fn all_valid_outcomes_mean_success() {
    let outcomes = vec![
        XmlOutcome::Valid { monster_id: 1, form_path: vec![] },
        XmlOutcome::Valid { monster_id: 3, form_path: vec![1] },
    ];
    assert!(try_read_in_anim_data_xml(outcomes).is_ok());
}

#[test]
fn failures_are_collected_not_short_circuited() {
    let outcomes = vec![
        XmlOutcome::Invalid {
            monster_id: 1,
            form_path: vec![],
            error: AnimDataXmlOpenError::Io(String::from("missing")),
        },
        XmlOutcome::Valid { monster_id: 2, form_path: vec![] },
        XmlOutcome::Invalid {
            monster_id: 3,
            form_path: vec![1],
            error: AnimDataXmlOpenError::Parse(String::from("bad")),
        },
    ];
    match try_read_in_anim_data_xml(outcomes) {
        Err(DatafilesReport::AnimDataXmlErrors(fails)) => {
            assert_eq!(fails.len(), 2);
            assert_eq!(fails[0].monster_id, 1);
            assert_eq!(fails[1].monster_id, 3);
        }
        _ => panic!("expected an aggregate with both failures"),
    }
}
