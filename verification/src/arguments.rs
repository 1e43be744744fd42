//! The property sets the host passes to a plugin's actions, and the
//! project properties it sets before asking for regions.

use vstd::prelude::*;
use crate::constants::{
    nul_free,
    CHANGE_USER_EDITED,
    DOUBLE_ONE_BITS,
    DOUBLE_ZERO_BITS,
    IMAGE_CLIP_PROP_ROI_SOURCE,
    IMAGE_EFFECT_PROP_CONTEXT,
    IMAGE_EFFECT_PROP_FIELD_TO_RENDER,
    IMAGE_EFFECT_PROP_INTERACTIVE_RENDER_STATUS,
    IMAGE_EFFECT_PROP_PROJECT_EXTENT,
    IMAGE_EFFECT_PROP_PROJECT_OFFSET,
    IMAGE_EFFECT_PROP_PROJECT_SIZE,
    IMAGE_EFFECT_PROP_REGION_OF_DEFINITION,
    IMAGE_EFFECT_PROP_REGION_OF_INTEREST,
    IMAGE_EFFECT_PROP_RENDER_QUALITY_DRAFT,
    IMAGE_EFFECT_PROP_RENDER_SCALE,
    IMAGE_EFFECT_PROP_RENDER_WINDOW,
    IMAGE_EFFECT_PROP_SEQUENTIAL_RENDER_STATUS,
    IMAGE_FIELD_NONE,
    PROP_CHANGE_REASON,
    PROP_NAME,
    PROP_TIME,
    PROP_TYPE,
    TYPE_PARAMETER,
};
use crate::images::{OfxRectI, rect_values};
use crate::layouts::{double_property, double_value, false_property, text_property, text_value};
use crate::properties::{
    PropertySet,
    Property,
    ValueModel,
    bool_value,
    initial_values,
    entry_models,
};

verus! {

/// Four doubles (x1, y1, x2, y2), by bit pattern.
pub open spec fn rect_doubles(r: [u64; 4]) -> Seq<ValueModel> {
    seq![
        ValueModel::Double(r[0]),
        ValueModel::Double(r[1]),
        ValueModel::Double(r[2]),
        ValueModel::Double(r[3]),
    ]
}

/// Two doubles, by bit pattern.
pub open spec fn pair_doubles(a: u64, b: u64) -> Seq<ValueModel> {
    seq![ValueModel::Double(a), ValueModel::Double(b)]
}

/// The render scale the host always asks for: 1 by 1.
pub open spec fn unit_scale() -> Seq<ValueModel> {
    pair_doubles(DOUBLE_ONE_BITS, DOUBLE_ONE_BITS)
}

/// The window (0, 0, width, height) of integers.
pub open spec fn window_values(width: i32, height: i32) -> Seq<ValueModel> {
    seq![ValueModel::Int(0), ValueModel::Int(0), ValueModel::Int(width), ValueModel::Int(height)]
}

fn rect_property(r: [u64; 4]) -> (p: Property)
    ensures
        p@ == rect_doubles(r),
{
    let p = Property::from_double_bits(&r);
    assert(p@ =~= rect_doubles(r));
    p
}

fn pair_property(a: u64, b: u64) -> (p: Property)
    ensures
        p@ == pair_doubles(a, b),
{
    let p = Property::from_double_bits(&[a, b]);
    assert(p@ =~= pair_doubles(a, b));
    p
}

fn window_property(width: i32, height: i32) -> (p: Property)
    ensures
        p@ == window_values(width, height),
{
    let p = Property::from_ints(&[0, 0, width, height]);
    assert(p@ =~= window_values(width, height));
    p
}

/// The arguments of the render action for the frame whose time has
/// bit pattern `time`, over the window `window`.
pub open spec fn render_entries(time: u64, window: OfxRectI) -> Seq<(Seq<char>, Seq<ValueModel>)> {
    seq![
        (PROP_TIME@, double_value(time)),
        (IMAGE_EFFECT_PROP_FIELD_TO_RENDER@, text_value(IMAGE_FIELD_NONE)),
        (IMAGE_EFFECT_PROP_RENDER_WINDOW@, rect_values(window)),
        (IMAGE_EFFECT_PROP_RENDER_SCALE@, unit_scale()),
        (IMAGE_EFFECT_PROP_SEQUENTIAL_RENDER_STATUS@, seq![bool_value(false)]),
        (IMAGE_EFFECT_PROP_INTERACTIVE_RENDER_STATUS@, seq![bool_value(false)]),
        (IMAGE_EFFECT_PROP_RENDER_QUALITY_DRAFT@, seq![bool_value(false)]),
    ]
}

/// The arguments of the render action: the time, no field, the window,
/// a unit scale, and a final-quality render out of sequence and not
/// interactive.
pub fn render_arguments(time: u64, window: &OfxRectI) -> (r: PropertySet)
    ensures
        r.name_view() == "render_inargs"@,
        r.values() == initial_values(render_entries(time, *window)),
{
    proof {
        crate::constants::lemma_argument_names_nul_free();
    }
    let entries = [
        (PROP_TIME, double_property(time)),
        (IMAGE_EFFECT_PROP_FIELD_TO_RENDER, text_property(IMAGE_FIELD_NONE)),
        (IMAGE_EFFECT_PROP_RENDER_WINDOW, window.to_property()),
        (IMAGE_EFFECT_PROP_RENDER_SCALE, pair_property(DOUBLE_ONE_BITS, DOUBLE_ONE_BITS)),
        (IMAGE_EFFECT_PROP_SEQUENTIAL_RENDER_STATUS, false_property()),
        (IMAGE_EFFECT_PROP_INTERACTIVE_RENDER_STATUS, false_property()),
        (IMAGE_EFFECT_PROP_RENDER_QUALITY_DRAFT, false_property()),
    ];
    let r = PropertySet::new("render_inargs", &entries);
    assert(entry_models(entries@) =~= render_entries(time, *window));
    r
}

/// The arguments of the describe-in-context action.
pub open spec fn context_entries(context: &str) -> Seq<(Seq<char>, Seq<ValueModel>)> {
    seq![(IMAGE_EFFECT_PROP_CONTEXT@, text_value(context))]
}

/// The arguments of the describe-in-context action for `context`.
pub fn context_arguments(context: &str) -> (r: PropertySet)
    requires
        nul_free(context),
    ensures
        r.name_view() == "filter_inargs"@,
        r.values() == initial_values(context_entries(context)),
{
    let entries = [(IMAGE_EFFECT_PROP_CONTEXT, text_property(context))];
    let r = PropertySet::new("filter_inargs", &entries);
    assert(entry_models(entries@) =~= context_entries(context));
    r
}

/// The arguments of the begin- and end-instance-changed actions.
pub open spec fn change_entries() -> Seq<(Seq<char>, Seq<ValueModel>)> {
    seq![(PROP_CHANGE_REASON@, text_value(CHANGE_USER_EDITED))]
}

/// The arguments of the begin- and end-instance-changed actions: the
/// user edited the instance.
pub fn change_arguments() -> (r: PropertySet)
    ensures
        r.name_view() == "begin_instance_changed"@,
        r.values() == initial_values(change_entries()),
{
    proof {
        crate::constants::lemma_argument_names_nul_free();
    }
    let entries = [(PROP_CHANGE_REASON, text_property(CHANGE_USER_EDITED))];
    let r = PropertySet::new("begin_instance_changed", &entries);
    assert(entry_models(entries@) =~= change_entries());
    r
}

/// The arguments of the instance-changed action for the parameter
/// `param`.
pub open spec fn param_change_entries(param: &str) -> Seq<(Seq<char>, Seq<ValueModel>)> {
    seq![
        (PROP_TYPE@, text_value(TYPE_PARAMETER)),
        (PROP_NAME@, text_value(param)),
        (PROP_CHANGE_REASON@, text_value(CHANGE_USER_EDITED)),
        (PROP_TIME@, double_value(DOUBLE_ZERO_BITS)),
        (IMAGE_EFFECT_PROP_RENDER_SCALE@, unit_scale()),
    ]
}

/// The arguments of the instance-changed action: the user edited the
/// parameter `param` at time 0, at unit scale.
pub fn param_change_arguments(param: &str) -> (r: PropertySet)
    requires
        nul_free(param),
    ensures
        r.name_view() == "instance_changed"@,
        r.values() == initial_values(param_change_entries(param)),
{
    proof {
        crate::constants::lemma_argument_names_nul_free();
    }
    let entries = [
        (PROP_TYPE, text_property(TYPE_PARAMETER)),
        (PROP_NAME, text_property(param)),
        (PROP_CHANGE_REASON, text_property(CHANGE_USER_EDITED)),
        (PROP_TIME, double_property(DOUBLE_ZERO_BITS)),
        (IMAGE_EFFECT_PROP_RENDER_SCALE, pair_property(DOUBLE_ONE_BITS, DOUBLE_ONE_BITS)),
    ];
    let r = PropertySet::new("instance_changed", &entries);
    assert(entry_models(entries@) =~= param_change_entries(param));
    r
}

/// The arguments of the regions-of-interest action for the region
/// `roi`, with the render window (0, 0, width, height).
pub open spec fn roi_entries(roi: [u64; 4], width: i32, height: i32) -> Seq<
    (Seq<char>, Seq<ValueModel>),
> {
    seq![
        (PROP_TIME@, double_value(DOUBLE_ZERO_BITS)),
        (IMAGE_EFFECT_PROP_RENDER_SCALE@, unit_scale()),
        (IMAGE_EFFECT_PROP_REGION_OF_INTEREST@, rect_doubles(roi)),
        (IMAGE_EFFECT_PROP_FIELD_TO_RENDER@, text_value(IMAGE_FIELD_NONE)),
        (IMAGE_EFFECT_PROP_RENDER_WINDOW@, window_values(width, height)),
    ]
}

/// The arguments of the regions-of-interest action: time 0, unit
/// scale, the region `roi`, no field, and the window (0, 0, width,
/// height).
pub fn roi_arguments(roi: [u64; 4], width: i32, height: i32) -> (r: PropertySet)
    ensures
        r.name_view() == "getRoI_inargs"@,
        r.values() == initial_values(roi_entries(roi, width, height)),
{
    proof {
        crate::constants::lemma_argument_names_nul_free();
    }
    let entries = [
        (PROP_TIME, double_property(DOUBLE_ZERO_BITS)),
        (IMAGE_EFFECT_PROP_RENDER_SCALE, pair_property(DOUBLE_ONE_BITS, DOUBLE_ONE_BITS)),
        (IMAGE_EFFECT_PROP_REGION_OF_INTEREST, rect_property(roi)),
        (IMAGE_EFFECT_PROP_FIELD_TO_RENDER, text_property(IMAGE_FIELD_NONE)),
        (IMAGE_EFFECT_PROP_RENDER_WINDOW, window_property(width, height)),
    ];
    let r = PropertySet::new("getRoI_inargs", &entries);
    assert(entry_models(entries@) =~= roi_entries(roi, width, height));
    r
}

/// The results of the regions-of-interest action before the plugin
/// answers: the source clip's region is `roi`.
pub fn roi_results(roi: [u64; 4]) -> (r: PropertySet)
    ensures
        r.name_view() == "getRoI_outargs"@,
        r.values() == initial_values(seq![(IMAGE_CLIP_PROP_ROI_SOURCE@, rect_doubles(roi))]),
{
    let entries = [(IMAGE_CLIP_PROP_ROI_SOURCE, rect_property(roi))];
    let r = PropertySet::new("getRoI_outargs", &entries);
    assert(entry_models(entries@) =~= seq![(IMAGE_CLIP_PROP_ROI_SOURCE@, rect_doubles(roi))]);
    r
}

/// The arguments of the region-of-definition action, with the render
/// window (0, 0, width, height).
pub open spec fn rod_entries(width: i32, height: i32) -> Seq<(Seq<char>, Seq<ValueModel>)> {
    seq![
        (PROP_TIME@, double_value(DOUBLE_ZERO_BITS)),
        (IMAGE_EFFECT_PROP_RENDER_SCALE@, unit_scale()),
        (IMAGE_EFFECT_PROP_FIELD_TO_RENDER@, text_value(IMAGE_FIELD_NONE)),
        (IMAGE_EFFECT_PROP_RENDER_WINDOW@, window_values(width, height)),
    ]
}

/// The arguments of the region-of-definition action: time 0, unit
/// scale, no field, and the window (0, 0, width, height).
pub fn rod_arguments(width: i32, height: i32) -> (r: PropertySet)
    ensures
        r.name_view() == "getRoD_inargs"@,
        r.values() == initial_values(rod_entries(width, height)),
{
    proof {
        crate::constants::lemma_argument_names_nul_free();
    }
    let entries = [
        (PROP_TIME, double_property(DOUBLE_ZERO_BITS)),
        (IMAGE_EFFECT_PROP_RENDER_SCALE, pair_property(DOUBLE_ONE_BITS, DOUBLE_ONE_BITS)),
        (IMAGE_EFFECT_PROP_FIELD_TO_RENDER, text_property(IMAGE_FIELD_NONE)),
        (IMAGE_EFFECT_PROP_RENDER_WINDOW, window_property(width, height)),
    ];
    let r = PropertySet::new("getRoD_inargs", &entries);
    assert(entry_models(entries@) =~= rod_entries(width, height));
    r
}

/// The results of the region-of-definition action before the plugin
/// answers: the input's region `rod`.
pub fn rod_results(rod: [u64; 4]) -> (r: PropertySet)
    ensures
        r.name_view() == "getRoD_outargs"@,
        r.values() == initial_values(seq![(IMAGE_EFFECT_PROP_REGION_OF_DEFINITION@, rect_doubles(rod))]),
{
    let entries = [(IMAGE_EFFECT_PROP_REGION_OF_DEFINITION, rect_property(rod))];
    let r = PropertySet::new("getRoD_outargs", &entries);
    assert(entry_models(entries@) =~= seq![(IMAGE_EFFECT_PROP_REGION_OF_DEFINITION@, rect_doubles(rod))]);
    r
}

/// Gives an effect a project of `width` by `height` (bit patterns of
/// doubles) at offset (0, 0): size and extent both become the
/// dimensions; every other property is kept.
pub fn set_project(props: &mut PropertySet, width: u64, height: u64)
    ensures
        final(props).name_view() == old(props).name_view(),
        final(props).values() == old(props).values().insert(
            IMAGE_EFFECT_PROP_PROJECT_SIZE@,
            pair_doubles(width, height),
        ).insert(IMAGE_EFFECT_PROP_PROJECT_OFFSET@, pair_doubles(DOUBLE_ZERO_BITS, DOUBLE_ZERO_BITS)).insert(
            IMAGE_EFFECT_PROP_PROJECT_EXTENT@,
            pair_doubles(width, height),
        ),
{
    props.insert(IMAGE_EFFECT_PROP_PROJECT_SIZE, pair_property(width, height));
    props.insert(IMAGE_EFFECT_PROP_PROJECT_OFFSET, pair_property(DOUBLE_ZERO_BITS, DOUBLE_ZERO_BITS));
    props.insert(IMAGE_EFFECT_PROP_PROJECT_EXTENT, pair_property(width, height));
}

/// Every action the host calls asks for a full-size result: the
/// render, instance-changed, regions-of-interest and
/// region-of-definition arguments all carry the render scale (1.0,
/// 1.0), both values the bits of the double 1.0.
pub proof fn law_actions_render_at_unit_scale(
    time: u64,
    window: OfxRectI,
    param: &str,
    roi: [u64; 4],
    width: i32,
    height: i32,
)
    ensures
        initial_values(render_entries(time, window)).contains_key(IMAGE_EFFECT_PROP_RENDER_SCALE@),
        initial_values(render_entries(time, window))[IMAGE_EFFECT_PROP_RENDER_SCALE@] == seq![ValueModel::Double(0x3FF0000000000000u64), ValueModel::Double(0x3FF0000000000000u64)],
        initial_values(param_change_entries(param)).contains_key(IMAGE_EFFECT_PROP_RENDER_SCALE@),
        initial_values(param_change_entries(param))[IMAGE_EFFECT_PROP_RENDER_SCALE@] == seq![ValueModel::Double(0x3FF0000000000000u64), ValueModel::Double(0x3FF0000000000000u64)],
        initial_values(roi_entries(roi, width, height)).contains_key(IMAGE_EFFECT_PROP_RENDER_SCALE@),
        initial_values(roi_entries(roi, width, height))[IMAGE_EFFECT_PROP_RENDER_SCALE@] == seq![ValueModel::Double(0x3FF0000000000000u64), ValueModel::Double(0x3FF0000000000000u64)],
        initial_values(rod_entries(width, height)).contains_key(IMAGE_EFFECT_PROP_RENDER_SCALE@),
        initial_values(rod_entries(width, height))[IMAGE_EFFECT_PROP_RENDER_SCALE@] == seq![ValueModel::Double(0x3FF0000000000000u64), ValueModel::Double(0x3FF0000000000000u64)],
{
    reveal_with_fuel(initial_values, 8);
    reveal_strlit("OfxImageEffectPropRenderScale");
    reveal_strlit("OfxImageEffectPropSequentialRenderStatus");
    reveal_strlit("OfxImageEffectPropInteractiveRenderStatus");
    reveal_strlit("OfxImageEffectPropRenderQualityDraft");
    reveal_strlit("OfxImageEffectPropRegionOfInterest");
    reveal_strlit("OfxImageEffectPropFieldToRender");
    reveal_strlit("OfxImageEffectPropRenderWindow");
    assert("OfxImageEffectPropRenderScale"@ != "OfxImageEffectPropSequentialRenderStatus"@) by {
        assert("OfxImageEffectPropRenderScale"@.len() != "OfxImageEffectPropSequentialRenderStatus"@.len());
    }
    assert("OfxImageEffectPropRenderScale"@ != "OfxImageEffectPropInteractiveRenderStatus"@) by {
        assert("OfxImageEffectPropRenderScale"@.len() != "OfxImageEffectPropInteractiveRenderStatus"@.len());
    }
    assert("OfxImageEffectPropRenderScale"@ != "OfxImageEffectPropRenderQualityDraft"@) by {
        assert("OfxImageEffectPropRenderScale"@.len() != "OfxImageEffectPropRenderQualityDraft"@.len());
    }
    assert("OfxImageEffectPropRenderScale"@ != "OfxImageEffectPropRegionOfInterest"@) by {
        assert("OfxImageEffectPropRenderScale"@.len() != "OfxImageEffectPropRegionOfInterest"@.len());
    }
    assert("OfxImageEffectPropRenderScale"@ != "OfxImageEffectPropFieldToRender"@) by {
        assert("OfxImageEffectPropRenderScale"@.len() != "OfxImageEffectPropFieldToRender"@.len());
    }
    assert("OfxImageEffectPropRenderScale"@ != "OfxImageEffectPropRenderWindow"@) by {
        assert("OfxImageEffectPropRenderScale"@.len() != "OfxImageEffectPropRenderWindow"@.len());
    }
}

} // verus!
