//! The order in which the host acts when it sets parameter values.
//!
//! Setting parameters may notify the plugin: the host then calls the
//! begin-instance-changed action, an instance-changed action after
//! each value it sets, and the end-instance-changed action. A name that
//! is not a parameter stops the command there, leaving the values set
//! so far in place.

use vstd::prelude::*;

verus! {

/// One step of setting parameter values.
#[derive(Copy, Clone, Debug, PartialEq, Eq, Structural)]
pub enum SetParamsStep {
    /// Call the begin-instance-changed action.
    BeginChanged,
    /// Store the i-th value in its parameter.
    SetValue(usize),
    /// Call the instance-changed action for the i-th parameter.
    Changed(usize),
    /// Call the end-instance-changed action.
    EndChanged,
    /// Stop: the i-th name is not a parameter.
    NoSuchParam(usize),
}

/// The steps for the values from the `i`-th on, where `known[j]` says
/// whether the j-th name is a parameter and `notify` whether the plugin
/// is told of the changes.
pub open spec fn steps_from(known: Seq<bool>, notify: bool, i: nat) -> Seq<SetParamsStep>
    decreases known.len() - i,
{
    if i >= known.len() {
        if notify {
            seq![SetParamsStep::EndChanged]
        } else {
            seq![]
        }
    } else if !known[i as int] {
        seq![SetParamsStep::NoSuchParam(i as usize)]
    } else if notify {
        seq![SetParamsStep::SetValue(i as usize), SetParamsStep::Changed(i as usize)] + steps_from(
            known,
            notify,
            i + 1,
        )
    } else {
        seq![SetParamsStep::SetValue(i as usize)] + steps_from(known, notify, i + 1)
    }
}

/// All the steps of setting values whose names are parameters where
/// `known` says so: begin (when notifying), then each value in order,
/// stopping at the first unknown name, then end (when notifying and no
/// name was unknown).
pub open spec fn set_params_steps(known: Seq<bool>, notify: bool) -> Seq<SetParamsStep> {
    if notify {
        seq![SetParamsStep::BeginChanged] + steps_from(known, notify, 0)
    } else {
        steps_from(known, notify, 0)
    }
}

/// The steps of setting values whose names are parameters where
/// `known` says so, notifying the plugin when `call_instance_changed`.
pub fn set_params_plan(known: &[bool], call_instance_changed: bool) -> (r: Vec<SetParamsStep>)
    ensures
        r@ == set_params_steps(known@, call_instance_changed),
{
    let ghost full = set_params_steps(known@, call_instance_changed);
    let mut out: Vec<SetParamsStep> = Vec::new();
    if call_instance_changed {
        out.push(SetParamsStep::BeginChanged);
    }
    assert(out@ + steps_from(known@, call_instance_changed, 0) =~= full);
    let mut i: usize = 0;
    while i < known.len()
        invariant
            i <= known@.len(),
            full == set_params_steps(known@, call_instance_changed),
            out@ + steps_from(known@, call_instance_changed, i as nat) == full,
        decreases known@.len() - i,
    {
        let ghost before = out@;
        if !known[i] {
            out.push(SetParamsStep::NoSuchParam(i));
            assert(out@ =~= before + steps_from(known@, call_instance_changed, i as nat));
            return out;
        }
        out.push(SetParamsStep::SetValue(i));
        if call_instance_changed {
            out.push(SetParamsStep::Changed(i));
            assert(out@ + steps_from(known@, call_instance_changed, (i + 1) as nat) =~= before
                + steps_from(known@, call_instance_changed, i as nat));
        } else {
            assert(out@ + steps_from(known@, call_instance_changed, (i + 1) as nat) =~= before
                + steps_from(known@, call_instance_changed, i as nat));
        }
        i = i + 1;
    }
    let ghost before = out@;
    if call_instance_changed {
        out.push(SetParamsStep::EndChanged);
    }
    assert(out@ =~= before + steps_from(known@, call_instance_changed, i as nat));
    out
}

} // verus!
