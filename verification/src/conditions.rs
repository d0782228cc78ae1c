//! The conditions of an instance's status: at most one per type, each with
//! the time of its last change of status.

use vstd::prelude::*;
use crate::resources::{AppInstance, AppInstanceCondition, ConditionView, Time};
use crate::text::{
    index_of, is_absent, is_first_at, lemma_index_of_absent, lemma_index_of_found,
    lemma_index_of_sound, str_eq,
};
use crate::Error;

verus! {

/// The types of `conds`, in order.
pub open spec fn condition_types(conds: Seq<ConditionView>) -> Seq<Seq<char>> {
    conds.map_values(|c: ConditionView| c.type_)
}

/// True when no type occurs twice in `conds`.
pub open spec fn types_unique(conds: Seq<ConditionView>) -> bool {
    forall|i: int, j: int| 0 <= i < j < conds.len() ==> conds[i].type_ != conds[j].type_
}

/// The condition that an observation at time `now` leaves behind, given the
/// condition of the same type that was there before, if any: the time of the
/// last transition is kept where the status is the same, and `now` otherwise.
pub open spec fn observed(
    previous: Option<ConditionView>,
    type_: Seq<char>,
    status: Seq<char>,
    reason: Seq<char>,
    message: Option<Seq<char>>,
    now: Time,
) -> ConditionView {
    ConditionView {
        last_transition_time: match previous {
            Some(p) => if p.status == status {
                p.last_transition_time
            } else {
                now
            },
            None => now,
        },
        message: match message {
            Some(m) => m,
            None => Seq::empty(),
        },
        observed_generation: None,
        reason: reason,
        status: status,
        type_: type_,
    }
}

/// The conditions after an observation: the first condition of the type is
/// replaced in its place, or, where there is none, the new one is appended.
pub open spec fn updated_conditions(
    conds: Seq<ConditionView>,
    type_: Seq<char>,
    status: Seq<char>,
    reason: Seq<char>,
    message: Option<Seq<char>>,
    now: Time,
) -> Seq<ConditionView> {
    match index_of(condition_types(conds), type_) {
        Some(i) => conds.update(i, observed(Some(conds[i]), type_, status, reason, message, now)),
        None => conds.push(observed(None, type_, status, reason, message, now)),
    }
}

/// Records an observation made at time `now` in `vec`.
pub fn update_condition_vec_at(
    vec: &mut Vec<AppInstanceCondition>,
    type_: &str,
    status: &str,
    reason: &str,
    message: Option<String>,
    now: Time,
)
    ensures
        final(vec).deep_view() == updated_conditions(
            old(vec).deep_view(),
            type_@,
            status@,
            reason@,
            message.deep_view(),
            now,
        ),
{
    let ghost before = vec.deep_view();
    let ghost types = condition_types(before);
    let mut new_condition = AppInstanceCondition {
        message: match message {
            Some(m) => m,
            None => String::new(),
        },
        reason: String::from_str(reason),
        status: String::from_str(status),
        type_: String::from_str(type_),
        last_transition_time: now,
        observed_generation: None,
    };
    let mut i: usize = 0;
    while i < vec.len()
        invariant
            i <= vec.len(),
            vec.deep_view() == before,
            vec == old(vec),
            types == condition_types(before),
            forall|j: int| 0 <= j < i ==> types[j] != type_@,
            new_condition@ == observed(None, type_@, status@, reason@, message.deep_view(), now),
        decreases vec.len() - i,
    {
        assert(types[i as int] == vec@[i as int].type_@);
        if str_eq(vec[i].type_.as_str(), type_) {
            if str_eq(vec[i].status.as_str(), new_condition.status.as_str()) {
                new_condition.last_transition_time = vec[i].last_transition_time;
            }
            proof {
                assert(is_first_at(types, type_@, i as int));
                lemma_index_of_found(types, type_@, i as int);
                assert(new_condition@ == observed(
                    Some(before[i as int]),
                    type_@,
                    status@,
                    reason@,
                    message.deep_view(),
                    now,
                ));
            }
            vec.set(i, new_condition);
            proof {
                assert(vec.deep_view() =~= before.update(
                    i as int,
                    observed(
                        Some(before[i as int]),
                        type_@,
                        status@,
                        reason@,
                        message.deep_view(),
                        now,
                    ),
                ));
            }
            return ;
        }
        i += 1;
    }
    proof {
        assert(is_absent(types, type_@));
        lemma_index_of_absent(types, type_@);
    }
    vec.push(new_condition);
    proof {
        assert(vec.deep_view() =~= before.push(
            observed(None, type_@, status@, reason@, message.deep_view(), now),
        ));
    }
}

/// Records an observation made now in `vec`: the time of the last transition
/// is the clock's reading unless the status stays what it was.
pub fn update_condition_vec(
    vec: &mut Vec<AppInstanceCondition>,
    type_: &str,
    status: &str,
    reason: &str,
    message: Option<String>,
) -> (r: Result<(), Error>)
    ensures
        r is Ok,
        exists|now: Time|
            final(vec).deep_view() == updated_conditions(
                old(vec).deep_view(),
                type_@,
                status@,
                reason@,
                message.deep_view(),
                now,
            ),
{
    let now = Time::now();
    update_condition_vec_at(vec, type_, status, reason, message, now);
    Ok(())
}

/// The first condition of the given type in the instance's status, if any.
pub fn find_condition(app_instance: &AppInstance, type_: &str) -> (r: Option<AppInstanceCondition>)
    ensures
        match app_instance.status {
            Some(status) => match index_of(condition_types(status.conditions.deep_view()), type_@) {
                Some(i) => r matches Some(c) && c@ == status.conditions.deep_view()[i],
                None => r is None,
            },
            None => r is None,
        },
{
    match &app_instance.status {
        Some(status) => {
            let ghost types = condition_types(status.conditions.deep_view());
            let mut i: usize = 0;
            while i < status.conditions.len()
                invariant
                    i <= status.conditions.len(),
                    app_instance.status == Some(*status),
                    types == condition_types(status.conditions.deep_view()),
                    forall|j: int| 0 <= j < i ==> types[j] != type_@,
                decreases status.conditions.len() - i,
            {
                let c = &status.conditions[i];
                assert(types[i as int] == c.type_@);
                if str_eq(c.type_.as_str(), type_) {
                    proof {
                        assert(is_first_at(types, type_@, i as int));
                        lemma_index_of_found(types, type_@, i as int);
                        assert(status.conditions.deep_view()[i as int] == c@);
                    }
                    let found = AppInstanceCondition {
                        last_transition_time: c.last_transition_time,
                        message: c.message.clone(),
                        observed_generation: c.observed_generation,
                        reason: c.reason.clone(),
                        status: c.status.clone(),
                        type_: c.type_.clone(),
                    };
                    return Some(found);
                }
                i += 1;
            }
            proof {
                assert(is_absent(types, type_@));
                lemma_index_of_absent(types, type_@);
            }
            None
        },
        None => None,
    }
}

/// An observation never reorders the conditions: where the type was there
/// already, the types stay as they are, position by position; where it was
/// not, the new type comes last.
pub proof fn lemma_update_keeps_order(
    conds: Seq<ConditionView>,
    type_: Seq<char>,
    status: Seq<char>,
    reason: Seq<char>,
    message: Option<Seq<char>>,
    now: Time,
)
    ensures
        condition_types(updated_conditions(conds, type_, status, reason, message, now)) == (
        match index_of(condition_types(conds), type_) {
            Some(_) => condition_types(conds),
            None => condition_types(conds).push(type_),
        }),
        forall|k: int|
            0 <= k < conds.len() && index_of(condition_types(conds), type_) != Some(k)
                ==> #[trigger] updated_conditions(conds, type_, status, reason, message, now)[k]
                == conds[k],
{
    let types = condition_types(conds);
    let after = updated_conditions(conds, type_, status, reason, message, now);
    lemma_index_of_sound(types, type_);
    match index_of(types, type_) {
        Some(i) => {
            assert(types[i] == conds[i].type_);
            assert(condition_types(after) =~= types);
        },
        None => {
            assert(condition_types(after) =~= types.push(type_));
        },
    }
}

/// An observation keeps the types of the conditions distinct.
pub proof fn lemma_update_keeps_types_unique(
    conds: Seq<ConditionView>,
    type_: Seq<char>,
    status: Seq<char>,
    reason: Seq<char>,
    message: Option<Seq<char>>,
    now: Time,
)
    requires
        types_unique(conds),
    ensures
        types_unique(updated_conditions(conds, type_, status, reason, message, now)),
{
    let types = condition_types(conds);
    let after = updated_conditions(conds, type_, status, reason, message, now);
    lemma_index_of_sound(types, type_);
    lemma_update_keeps_order(conds, type_, status, reason, message, now);
    assert forall|i: int, j: int| 0 <= i < j < after.len() implies after[i].type_
        != after[j].type_ by {
        assert(condition_types(after)[i] == after[i].type_);
        assert(condition_types(after)[j] == after[j].type_);
        if j < conds.len() {
            assert(types[i] == conds[i].type_);
            assert(types[j] == conds[j].type_);
        } else {
            assert(types[i] == conds[i].type_);
        }
    }
}

/// Observing the same type with the same status a second time leaves the
/// time of the last transition as the first observation set it, and puts the
/// second observation's reason and message in place; nothing else changes.
pub proof fn lemma_same_status_keeps_transition_time(
    conds: Seq<ConditionView>,
    type_: Seq<char>,
    status: Seq<char>,
    reason1: Seq<char>,
    message1: Option<Seq<char>>,
    now1: Time,
    reason2: Seq<char>,
    message2: Option<Seq<char>>,
    now2: Time,
)
    ensures
        ({
            let once = updated_conditions(conds, type_, status, reason1, message1, now1);
            let twice = updated_conditions(once, type_, status, reason2, message2, now2);
            &&& index_of(condition_types(once), type_) matches Some(i)
            &&& twice == once.update(
                i,
                ConditionView {
                    reason: reason2,
                    message: match message2 {
                        Some(m) => m,
                        None => Seq::empty(),
                    },
                    ..once[i]
                },
            )
            &&& twice[i].last_transition_time == once[i].last_transition_time
        }),
{
    let types = condition_types(conds);
    let once = updated_conditions(conds, type_, status, reason1, message1, now1);
    lemma_index_of_sound(types, type_);
    lemma_update_keeps_order(conds, type_, status, reason1, message1, now1);
    let pos = match index_of(types, type_) {
        Some(i) => i,
        None => conds.len() as int,
    };
    assert(condition_types(once)[pos] == type_);
    assert(is_first_at(condition_types(once), type_, pos)) by {
        assert forall|j: int| 0 <= j < pos implies condition_types(once)[j] != type_ by {
            assert(types[j] != type_);
        }
    }
    lemma_index_of_found(condition_types(once), type_, pos);
    assert(once[pos].status == status);
}

/// Observing a type with another status than it had sets the time of the last
/// transition to the time of the observation; where the clock has moved on
/// since the transition before, the time advances strictly.
pub proof fn lemma_changed_status_advances_transition_time(
    conds: Seq<ConditionView>,
    i: int,
    type_: Seq<char>,
    status: Seq<char>,
    reason: Seq<char>,
    message: Option<Seq<char>>,
    now: Time,
)
    requires
        index_of(condition_types(conds), type_) == Some(i),
        conds[i].status != status,
    ensures
        updated_conditions(conds, type_, status, reason, message, now)[i].last_transition_time
            == now,
        conds[i].last_transition_time.is_before(now) ==> conds[i].last_transition_time.is_before(
            updated_conditions(conds, type_, status, reason, message, now)[i].last_transition_time,
        ),
{
    lemma_index_of_sound(condition_types(conds), type_);
}

} // verus!
