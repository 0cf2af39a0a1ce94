use spritecollab::datamodel::{
    CreditEntry, CreditNames, FormEntry, SpriteCollabData, SpriteConfig, Tracker, TrackerGroup,
};
use spritecollab::sprite_collab::{pre_warm_ids, SpriteCollab, State};

fn config(size: i32) -> SpriteConfig {
    SpriteConfig { portrait_size: size, portrait_tile_x: 5, portrait_tile_y: 8 }
}

fn snapshot(size: i32) -> SpriteCollabData {
    let tracker = Tracker {
        groups: vec![TrackerGroup {
            id: 1,
            forms: vec![FormEntry { path: vec![], sprite_complete: 1, portrait_complete: 0 }],
        }],
    };
    let names = CreditNames {
        entries: vec![CreditEntry {
            credit_id: String::from("1234"),
            name: Some(String::from("Somebody")),
            contact: None,
        }],
    };
    SpriteCollabData::new(config(size), tracker, names)
}

#[test]
fn starts_ready_with_initial_snapshot() {
    let sc = SpriteCollab::new(snapshot(40));
    assert!(matches!(sc.state, State::Ready));
    assert_eq!(sc.data().sprite_config.portrait_size, 40);
}

#[test]
fn second_begin_is_refused_until_complete() {
    let mut sc = SpriteCollab::new(snapshot(40));
    assert!(sc.begin_refresh());
    assert!(matches!(sc.state, State::Refreshing));
    // a concurrent caller observing Refreshing returns immediately
    assert!(!sc.begin_refresh());
    assert!(matches!(sc.state, State::Refreshing));
    sc.complete_refresh(None);
    // after completion a new refresh may begin again
    assert!(sc.begin_refresh());
}

#[test]
fn complete_always_ends_ready() {
    let mut sc = SpriteCollab::new(snapshot(40));
    sc.begin_refresh();
    sc.complete_refresh(None);
    assert!(matches!(sc.state, State::Ready));
    sc.begin_refresh();
    sc.complete_refresh(Some(snapshot(41)));
    assert!(matches!(sc.state, State::Ready));
}

#[test]
fn failed_refresh_keeps_snapshot_and_skips_flush() {
    let mut sc = SpriteCollab::new(snapshot(40));
    sc.begin_refresh();
    let flush = sc.complete_refresh(None);
    assert!(!flush);
    assert_eq!(sc.data().sprite_config.portrait_size, 40);
}

#[test]
fn unchanged_snapshot_skips_flush_changed_flushes() {
    let mut sc = SpriteCollab::new(snapshot(40));
    sc.begin_refresh();
    let flush_same = sc.complete_refresh(Some(snapshot(40)));
    assert!(!flush_same);
    sc.begin_refresh();
    let flush_changed = sc.complete_refresh(Some(snapshot(99)));
    assert!(flush_changed);
    assert_eq!(sc.data().sprite_config.portrait_size, 99);
}

#[test]
fn coalesced_refresh_is_a_no_op() {
    let mut sc = SpriteCollab::new(snapshot(40));
    assert!(sc.begin_refresh());
    // a whole refresh attempt arriving while one is in flight
    let (performed, flush) = sc.refresh(Some(snapshot(77)));
    assert!(!performed);
    assert!(!flush);
    assert!(matches!(sc.state, State::Refreshing));
    assert_eq!(sc.data().sprite_config.portrait_size, 40);
}

#[test]
fn whole_refresh_publishes_and_ends_ready() {
    let mut sc = SpriteCollab::new(snapshot(40));
    let (performed, flush) = sc.refresh(Some(snapshot(41)));
    assert!(performed);
    assert!(flush);
    assert!(matches!(sc.state, State::Ready));
    assert_eq!(sc.data().sprite_config.portrait_size, 41);
}

#[test]
fn pre_warm_ids_keeps_numeric_credit_ids_in_order() {
    let names = CreditNames {
        entries: vec![
            CreditEntry { credit_id: String::from("1234"), name: None, contact: None },
            CreditEntry { credit_id: String::from("abc"), name: None, contact: None },
            CreditEntry { credit_id: String::from("+77"), name: None, contact: None },
            CreditEntry { credit_id: String::from(""), name: None, contact: None },
            CreditEntry { credit_id: String::from("18446744073709551616"), name: None, contact: None },
        ],
    };
    assert_eq!(pre_warm_ids(&names), vec![1234u64, 77u64]);
}
