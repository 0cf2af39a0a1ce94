//! The deep validator: which (entity, form) pairs of the catalog must
//! have their auxiliary per-entity file validated, and the aggregation
//! of the failures into one reportable unit.
//!
//! Failures are collected, never short-circuited: the validator visits
//! every pair whose auxiliary-asset data the catalog marks complete,
//! because the goal is a complete picture of data-quality regressions
//! per refresh cycle. Entities marked incomplete are skipped entirely.
//! The unverified shell opens the files themselves; it asks
//! `validation_targets` what to open and hands every outcome to
//! `try_read_in_anim_data_xml`.

use crate::datafiles::{AnimDataXmlOpenError, DatafilesReport, XmlCheckFailure};
use crate::datamodel::{FormEntryView, Tracker, TrackerGroupView};
use vstd::prelude::*;

verus! {

/// One (entity, form) pair whose auxiliary file must be validated.
pub struct FormRef {
    pub monster_id: i32,
    pub form_path: Vec<i32>,
}

#[verifier::ext_equal]
pub ghost struct FormRefView {
    pub monster_id: i32,
    pub form_path: Seq<i32>,
}

impl View for FormRef {
    type V = FormRefView;

    open spec fn view(&self) -> FormRefView {
        FormRefView { monster_id: self.monster_id, form_path: self.form_path@ }
    }
}

/// The validation targets contributed by one entity's forms, in form
/// order: exactly those forms whose sprite data is marked complete.
pub open spec fn forms_targets(id: i32, forms: Seq<FormEntryView>) -> Seq<FormRefView>
    decreases forms.len(),
{
    if forms.len() == 0 {
        Seq::empty()
    } else {
        forms_targets(id, forms.drop_last()) + if forms.last().sprite_complete != 0 {
            seq![FormRefView { monster_id: id, form_path: forms.last().path }]
        } else {
            Seq::empty()
        }
    }
}

/// All validation targets of the catalog, in catalog order.
pub open spec fn tracker_targets(groups: Seq<TrackerGroupView>) -> Seq<FormRefView>
    decreases groups.len(),
{
    if groups.len() == 0 {
        Seq::empty()
    } else {
        tracker_targets(groups.drop_last()) + forms_targets(
            groups.last().id,
            groups.last().forms,
        )
    }
}

fn clone_path(p: &Vec<i32>) -> (r: Vec<i32>)
    ensures
        r@ == p@,
{
    let r = p.clone();
    proof {
        assert(r@ =~= p@);
    }
    r
}

/// Computes every (entity, form) pair the validator must visit: all
/// pairs marked complete, and no other -- incomplete forms are never
/// even attempted.
pub fn validation_targets(tracker: &Tracker) -> (v: Vec<FormRef>)
    ensures
        v@.map_values(|f: FormRef| f@) == tracker_targets(tracker@.groups),
{
    let mut v: Vec<FormRef> = Vec::new();
    let ng = tracker.groups.len();
    let mut i: usize = 0;
    proof {
        assert(v@.map_values(|f: FormRef| f@) =~= tracker_targets(tracker@.groups.take(0)));
    }
    while i < ng
        invariant
            ng == tracker.groups.len(),
            i <= ng,
            v@.map_values(|f: FormRef| f@) == tracker_targets(tracker@.groups.take(i as int)),
        decreases ng - i,
    {
        let g = &tracker.groups[i];
        proof {
            assert(tracker@.groups[i as int] == tracker.groups@[i as int]@);
        }
        let nf = g.forms.len();
        let mut j: usize = 0;
        proof {
            assert(g@.forms.take(0) =~= Seq::<FormEntryView>::empty());
            assert(forms_targets(g@.id, g@.forms.take(0)) =~= Seq::<FormRefView>::empty());
            assert(v@.map_values(|f: FormRef| f@) =~= tracker_targets(
                tracker@.groups.take(i as int),
            ) + forms_targets(g@.id, g@.forms.take(0)));
        }
        while j < nf
            invariant
                ng == tracker.groups.len(),
                i < ng,
                nf == g.forms.len(),
                j <= nf,
                g == &tracker.groups[i as int],
                g@ == tracker@.groups[i as int],
                v@.map_values(|f: FormRef| f@) == tracker_targets(tracker@.groups.take(i as int))
                    + forms_targets(g@.id, g@.forms.take(j as int)),
            decreases nf - j,
        {
            let form = &g.forms[j];
            proof {
                assert(g@.forms[j as int] == g.forms@[j as int]@);
                assert(g@.forms.take(j as int + 1).drop_last() =~= g@.forms.take(j as int));
                assert(g@.forms.take(j as int + 1).last() == g@.forms[j as int]);
            }
            if form.sprite_complete != 0 {
                let ghost old_map = v@.map_values(|f: FormRef| f@);
                v.push(FormRef { monster_id: g.id, form_path: clone_path(&form.path) });
                proof {
                    assert(v@.map_values(|f: FormRef| f@) =~= old_map.push(
                        FormRefView { monster_id: g@.id, form_path: g@.forms[j as int].path },
                    ));
                    assert(forms_targets(g@.id, g@.forms.take(j as int + 1)) =~= forms_targets(
                        g@.id,
                        g@.forms.take(j as int),
                    ).push(FormRefView { monster_id: g@.id, form_path: g@.forms[j as int].path }));
                    assert(v@.map_values(|f: FormRef| f@) =~= tracker_targets(
                        tracker@.groups.take(i as int),
                    ) + forms_targets(g@.id, g@.forms.take(j as int + 1)));
                }
            } else {
                proof {
                    assert(forms_targets(g@.id, g@.forms.take(j as int + 1)) =~= forms_targets(
                        g@.id,
                        g@.forms.take(j as int),
                    ));
                }
            }
            j += 1;
        }
        proof {
            assert(g@.forms.take(nf as int) =~= g@.forms);
            assert(tracker@.groups.take(i as int + 1).drop_last() =~= tracker@.groups.take(
                i as int,
            ));
            assert(tracker@.groups.take(i as int + 1).last() == tracker@.groups[i as int]);
            assert(v@.map_values(|f: FormRef| f@) =~= tracker_targets(
                tracker@.groups.take(i as int + 1),
            ));
        }
        i += 1;
    }
    proof {
        assert(tracker@.groups.take(ng as int) =~= tracker@.groups);
    }
    v
}

/// The outcome the shell observed for one validation target: the pair
/// it opened and, if opening or validating failed, the failure.
pub enum XmlOutcome {
    /// The auxiliary file opened and validated.
    Valid { monster_id: i32, form_path: Vec<i32> },
    /// It did not.
    Invalid { monster_id: i32, form_path: Vec<i32>, error: AnimDataXmlOpenError },
}

/// The failures among a run's outcomes, in visiting order.
pub open spec fn failures_of(outcomes: Seq<XmlOutcome>) -> Seq<XmlCheckFailure>
    decreases outcomes.len(),
{
    if outcomes.len() == 0 {
        Seq::empty()
    } else {
        let rest = failures_of(outcomes.drop_first());
        match outcomes[0] {
            XmlOutcome::Valid { .. } => rest,
            XmlOutcome::Invalid { monster_id, form_path, error } => seq![
                XmlCheckFailure { monster_id, form_path, error },
            ] + rest,
        }
    }
}

/// Aggregates a validation run: success only when every visited pair
/// validated; otherwise one aggregate report listing every failing
/// (entity, form) pair with its failure, in visiting order.
pub fn try_read_in_anim_data_xml(outcomes: Vec<XmlOutcome>) -> (r: Result<(), DatafilesReport>)
    ensures
        r is Ok <==> failures_of(outcomes@).len() == 0,
        r matches Err(rep) ==> rep matches DatafilesReport::AnimDataXmlErrors(fails) && fails@
            == failures_of(outcomes@),
{
    let ghost orig = outcomes@;
    let mut rest = outcomes;
    let mut fails: Vec<XmlCheckFailure> = Vec::new();
    proof {
        assert(fails@ + failures_of(rest@) =~= failures_of(orig));
    }
    while rest.len() > 0
        invariant
            failures_of(orig) == fails@ + failures_of(rest@),
        decreases rest.len(),
    {
        let ghost prev = rest@;
        let o = rest.remove(0);
        proof {
            assert(rest@ =~= prev.drop_first());
            assert(o == prev[0]);
        }
        match o {
            XmlOutcome::Valid { .. } => {
                proof {
                    assert(fails@ + failures_of(rest@) =~= failures_of(orig));
                }
            },
            XmlOutcome::Invalid { monster_id, form_path, error } => {
                let ghost old_fails = fails@;
                fails.push(XmlCheckFailure { monster_id, form_path, error });
                proof {
                    assert(failures_of(prev) =~= seq![
                        XmlCheckFailure { monster_id, form_path, error },
                    ] + failures_of(prev.drop_first()));
                    assert(fails@ + failures_of(rest@) =~= old_fails + failures_of(prev));
                }
            },
        }
    }
    proof {
        assert(failures_of(rest@) =~= Seq::<XmlCheckFailure>::empty());
        assert(failures_of(orig) =~= fails@);
    }
    if fails.len() == 0 {
        Ok(())
    } else {
        Err(DatafilesReport::AnimDataXmlErrors(fails))
    }
}

} // verus!
