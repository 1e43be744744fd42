use openfx_driver::steps::{set_params_plan, SetParamsStep};

#[test]
fn plan_notifies_around_each_value() {
    assert_eq!(
        set_params_plan(&[true, true], true),
        vec![
            SetParamsStep::BeginChanged,
            SetParamsStep::SetValue(0),
            SetParamsStep::Changed(0),
            SetParamsStep::SetValue(1),
            SetParamsStep::Changed(1),
            SetParamsStep::EndChanged,
        ]
    );
}

#[test]
fn plan_without_notification_only_sets() {
    assert_eq!(
        set_params_plan(&[true, true, true], false),
        vec![SetParamsStep::SetValue(0), SetParamsStep::SetValue(1), SetParamsStep::SetValue(2)]
    );
    assert_eq!(set_params_plan(&[], false), vec![]);
    assert_eq!(
        set_params_plan(&[], true),
        vec![SetParamsStep::BeginChanged, SetParamsStep::EndChanged]
    );
}

#[test]
fn plan_stops_at_unknown_name() {
    assert_eq!(
        set_params_plan(&[true, false, true], true),
        vec![
            SetParamsStep::BeginChanged,
            SetParamsStep::SetValue(0),
            SetParamsStep::Changed(0),
            SetParamsStep::NoSuchParam(1),
        ]
    );
    assert_eq!(set_params_plan(&[false, true], false), vec![SetParamsStep::NoSuchParam(0)]);
}
