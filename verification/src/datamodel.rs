//! The in-memory data model: configuration record, catalog (tracker),
//! credit-name list, and the immutable snapshot aggregating the three.
//!
//! Snapshot equality is structural and is the sole signal used to decide
//! whether downstream cache invalidation is required, so every type here
//! comes with an executable deep-equality function whose contract ties it
//! to spec-level equality of the views.

use std::sync::Arc;
use vstd::prelude::*;
use vstd::string::StrSliceExecFns;

verus! {

/// Character-wise string equality, tied to equality of the views.
pub fn str_eq(a: &str, b: &str) -> (r: bool)
    ensures
        r == (a@ == b@),
{
    let n = a.unicode_len();
    if n != b.unicode_len() {
        return false;
    }
    let mut i: usize = 0;
    while i < n
        invariant
            n == a@.len() == b@.len(),
            i <= n,
            forall|j: int| 0 <= j < i ==> a@[j] == b@[j],
        decreases n - i,
    {
        if a.get_char(i) != b.get_char(i) {
            return false;
        }
        i += 1;
    }
    proof {
        assert(a@ =~= b@);
    }
    true
}

/// Parsed settings from the configuration file.
#[derive(Clone, Copy, PartialEq, Eq, Structural, Debug)]
pub struct SpriteConfig {
    pub portrait_size: i32,
    pub portrait_tile_x: i32,
    pub portrait_tile_y: i32,
}

/// One form variant of a catalog entity. `path` locates the form below
/// its entity; the two completion flags mark whether sprite / portrait
/// auxiliary-asset data is complete (zero means incomplete).
#[derive(Clone, Debug)]
pub struct FormEntry {
    pub path: Vec<i32>,
    pub sprite_complete: i32,
    pub portrait_complete: i32,
}

#[verifier::ext_equal]
pub ghost struct FormEntryView {
    pub path: Seq<i32>,
    pub sprite_complete: i32,
    pub portrait_complete: i32,
}

impl View for FormEntry {
    type V = FormEntryView;

    open spec fn view(&self) -> FormEntryView {
        FormEntryView {
            path: self.path@,
            sprite_complete: self.sprite_complete,
            portrait_complete: self.portrait_complete,
        }
    }
}

/// One entity of the catalog, with all its form variants.
#[derive(Clone, Debug)]
pub struct TrackerGroup {
    pub id: i32,
    pub forms: Vec<FormEntry>,
}

#[verifier::ext_equal]
pub ghost struct TrackerGroupView {
    pub id: i32,
    pub forms: Seq<FormEntryView>,
}

impl View for TrackerGroup {
    type V = TrackerGroupView;

    open spec fn view(&self) -> TrackerGroupView {
        TrackerGroupView { id: self.id, forms: self.forms@.map_values(|f: FormEntry| f@) }
    }
}

/// The catalog: a keyed structure of per-entity, per-form metadata.
#[derive(Clone, Debug)]
pub struct Tracker {
    pub groups: Vec<TrackerGroup>,
}

#[verifier::ext_equal]
pub ghost struct TrackerView {
    pub groups: Seq<TrackerGroupView>,
}

impl View for Tracker {
    type V = TrackerView;

    open spec fn view(&self) -> TrackerView {
        TrackerView { groups: self.groups@.map_values(|g: TrackerGroup| g@) }
    }
}

/// One line of the credit-name list: an external contributor identifier
/// and its optional display data.
#[derive(Clone, Debug)]
pub struct CreditEntry {
    pub credit_id: String,
    pub name: Option<String>,
    pub contact: Option<String>,
}

#[verifier::ext_equal]
pub ghost struct CreditEntryView {
    pub credit_id: Seq<char>,
    pub name: Option<Seq<char>>,
    pub contact: Option<Seq<char>>,
}

impl View for CreditEntry {
    type V = CreditEntryView;

    open spec fn view(&self) -> CreditEntryView {
        CreditEntryView {
            credit_id: self.credit_id@,
            name: match self.name {
                Some(ref n) => Some(n@),
                None => None,
            },
            contact: match self.contact {
                Some(ref c) => Some(c@),
                None => None,
            },
        }
    }
}

/// The credit-name list.
#[derive(Clone, Debug)]
pub struct CreditNames {
    pub entries: Vec<CreditEntry>,
}

#[verifier::ext_equal]
pub ghost struct CreditNamesView {
    pub entries: Seq<CreditEntryView>,
}

impl View for CreditNames {
    type V = CreditNamesView;

    open spec fn view(&self) -> CreditNamesView {
        CreditNamesView { entries: self.entries@.map_values(|e: CreditEntry| e@) }
    }
}

/// The immutable snapshot served to readers: configuration, catalog and
/// credit names. The catalog is held behind a reference-counted read-only
/// handle because it is large and shared between the outgoing and the
/// incoming snapshot during a publish.
#[derive(Clone, Debug)]
pub struct SpriteCollabData {
    pub sprite_config: SpriteConfig,
    pub tracker: Arc<Tracker>,
    pub credit_names: CreditNames,
}

#[verifier::ext_equal]
pub ghost struct SpriteCollabDataView {
    pub sprite_config: SpriteConfig,
    pub tracker: TrackerView,
    pub credit_names: CreditNamesView,
}

impl View for SpriteCollabData {
    type V = SpriteCollabDataView;

    open spec fn view(&self) -> SpriteCollabDataView {
        SpriteCollabDataView {
            sprite_config: self.sprite_config,
            tracker: self.tracker@,
            credit_names: self.credit_names@,
        }
    }
}

impl SpriteCollabData {
    /// Assembles a snapshot from freshly parsed parts.
    pub fn new(
        sprite_config: SpriteConfig,
        tracker: Tracker,
        credit_names: CreditNames,
    ) -> (r: SpriteCollabData)
        ensures
            r@ == (SpriteCollabDataView {
                sprite_config,
                tracker: tracker@,
                credit_names: credit_names@,
            }),
    {
        SpriteCollabData { sprite_config, tracker: Arc::new(tracker), credit_names }
    }
}

/// Deep equality of form-path vectors.
pub fn path_eq(a: &Vec<i32>, b: &Vec<i32>) -> (r: bool)
    ensures
        r == (a@ == b@),
{
    if a.len() != b.len() {
        return false;
    }
    let n = a.len();
    let mut i: usize = 0;
    while i < n
        invariant
            n == a.len() == b.len(),
            i <= n,
            forall|j: int| 0 <= j < i ==> a@[j] == b@[j],
        decreases n - i,
    {
        if a[i] != b[i] {
            return false;
        }
        i += 1;
    }
    proof {
        assert(a@ =~= b@);
    }
    true
}

fn opt_string_eq(a: &Option<String>, b: &Option<String>) -> (r: bool)
    ensures
        r == (match (a, b) {
            (Some(x), Some(y)) => x@ == y@,
            (None, None) => true,
            _ => false,
        }),
{
    match (a, b) {
        (Some(x), Some(y)) => str_eq(x.as_str(), y.as_str()),
        (None, None) => true,
        _ => false,
    }
}

pub fn form_entry_eq(a: &FormEntry, b: &FormEntry) -> (r: bool)
    ensures
        r == (a@ == b@),
{
    let r = a.sprite_complete == b.sprite_complete && a.portrait_complete == b.portrait_complete
        && path_eq(&a.path, &b.path);
    proof {
        if r {
            assert(a@ =~= b@);
        }
    }
    r
}

pub fn tracker_group_eq(a: &TrackerGroup, b: &TrackerGroup) -> (r: bool)
    ensures
        r == (a@ == b@),
{
    if a.id != b.id || a.forms.len() != b.forms.len() {
        proof {
            assert(a@.forms.len() == a.forms@.len());
            assert(b@.forms.len() == b.forms@.len());
        }
        return false;
    }
    let n = a.forms.len();
    let mut i: usize = 0;
    while i < n
        invariant
            n == a.forms.len() == b.forms.len(),
            a.id == b.id,
            i <= n,
            forall|j: int| 0 <= j < i ==> a.forms@[j]@ == b.forms@[j]@,
        decreases n - i,
    {
        if !form_entry_eq(&a.forms[i], &b.forms[i]) {
            proof {
                assert(a@.forms[i as int] == a.forms@[i as int]@);
                assert(b@.forms[i as int] == b.forms@[i as int]@);
            }
            return false;
        }
        i += 1;
    }
    proof {
        assert(a@.forms =~= b@.forms);
        assert(a@ =~= b@);
    }
    true
}

pub fn tracker_eq(a: &Tracker, b: &Tracker) -> (r: bool)
    ensures
        r == (a@ == b@),
{
    if a.groups.len() != b.groups.len() {
        proof {
            assert(a@.groups.len() == a.groups@.len());
            assert(b@.groups.len() == b.groups@.len());
        }
        return false;
    }
    let n = a.groups.len();
    let mut i: usize = 0;
    while i < n
        invariant
            n == a.groups.len() == b.groups.len(),
            i <= n,
            forall|j: int| 0 <= j < i ==> a.groups@[j]@ == b.groups@[j]@,
        decreases n - i,
    {
        if !tracker_group_eq(&a.groups[i], &b.groups[i]) {
            proof {
                assert(a@.groups[i as int] == a.groups@[i as int]@);
                assert(b@.groups[i as int] == b.groups@[i as int]@);
            }
            return false;
        }
        i += 1;
    }
    proof {
        assert(a@.groups =~= b@.groups);
        assert(a@ =~= b@);
    }
    true
}

pub fn credit_entry_eq(a: &CreditEntry, b: &CreditEntry) -> (r: bool)
    ensures
        r == (a@ == b@),
{
    let r = str_eq(a.credit_id.as_str(), b.credit_id.as_str()) && opt_string_eq(&a.name, &b.name)
        && opt_string_eq(&a.contact, &b.contact);
    proof {
        if r {
            assert(a@ =~= b@);
        }
    }
    r
}

pub fn credit_names_eq(a: &CreditNames, b: &CreditNames) -> (r: bool)
    ensures
        r == (a@ == b@),
{
    if a.entries.len() != b.entries.len() {
        proof {
            assert(a@.entries.len() == a.entries@.len());
            assert(b@.entries.len() == b.entries@.len());
        }
        return false;
    }
    let n = a.entries.len();
    let mut i: usize = 0;
    while i < n
        invariant
            n == a.entries.len() == b.entries.len(),
            i <= n,
            forall|j: int| 0 <= j < i ==> a.entries@[j]@ == b.entries@[j]@,
        decreases n - i,
    {
        if !credit_entry_eq(&a.entries[i], &b.entries[i]) {
            proof {
                assert(a@.entries[i as int] == a.entries@[i as int]@);
                assert(b@.entries[i as int] == b.entries@[i as int]@);
            }
            return false;
        }
        i += 1;
    }
    proof {
        assert(a@.entries =~= b@.entries);
        assert(a@ =~= b@);
    }
    true
}

/// Structural snapshot equality: the change-detection signal.
pub fn data_eq(a: &SpriteCollabData, b: &SpriteCollabData) -> (r: bool)
    ensures
        r == (a@ == b@),
{
    let r = a.sprite_config == b.sprite_config && tracker_eq(&a.tracker, &b.tracker)
        && credit_names_eq(&a.credit_names, &b.credit_names);
    proof {
        if r {
            assert(a@ =~= b@);
        }
    }
    r
}

} // verus!
