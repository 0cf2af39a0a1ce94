use spritecollab::datamodel::{
    data_eq, str_eq, CreditEntry, CreditNames, FormEntry, SpriteCollabData, SpriteConfig, Tracker,
    TrackerGroup,
};

fn snapshot(id: i32, complete: i32, name: Option<&str>) -> SpriteCollabData {
    SpriteCollabData::new(
        SpriteConfig { portrait_size: 40, portrait_tile_x: 5, portrait_tile_y: 8 },
        Tracker {
            groups: vec![TrackerGroup {
                id,
                forms: vec![FormEntry {
                    path: vec![0, 1],
                    sprite_complete: complete,
                    portrait_complete: 0,
                }],
            }],
        },
        CreditNames {
            entries: vec![CreditEntry {
                credit_id: String::from("1234"),
                name: name.map(String::from),
                contact: None,
            }],
        },
    )
}

#[test]
fn equal_snapshots_compare_equal() {
    assert!(data_eq(&snapshot(1, 1, Some("A")), &snapshot(1, 1, Some("A"))));
}

#[test]
fn any_field_difference_is_detected() {
    let base = snapshot(1, 1, Some("A"));
    assert!(!data_eq(&base, &snapshot(2, 1, Some("A"))));
    assert!(!data_eq(&base, &snapshot(1, 0, Some("A"))));
    assert!(!data_eq(&base, &snapshot(1, 1, Some("B"))));
    assert!(!data_eq(&base, &snapshot(1, 1, None)));
}

#[test]
fn string_equality_is_character_wise() {
    assert!(str_eq("abc", "abc"));
    assert!(!str_eq("abc", "abd"));
    assert!(!str_eq("abc", "ab"));
    assert!(str_eq("", ""));
}
