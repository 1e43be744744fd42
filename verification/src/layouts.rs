//! The property sets the host gives to the objects it creates.

use vstd::prelude::*;
use vstd::string::StringExecFns;
use crate::constants::{
    nul_free,
    FALSE_TEXT,
    HOST_LABEL,
    HOST_NAME,
    IMAGE_EFFECT_CONTEXT_FILTER,
    IMAGE_EFFECT_HOST_PROP_IS_BACKGROUND,
    IMAGE_EFFECT_INSTANCE_PROP_SEQUENTIAL_RENDER,
    IMAGE_EFFECT_PROP_CUDA_RENDER_SUPPORTED,
    IMAGE_EFFECT_PROP_CUDA_STREAM_SUPPORTED,
    IMAGE_EFFECT_PROP_METAL_RENDER_SUPPORTED,
    IMAGE_EFFECT_PROP_OPENCL_RENDER_SUPPORTED,
    IMAGE_EFFECT_PROP_RENDER_QUALITY_DRAFT,
    IMAGE_EFFECT_PROP_SETABLE_FIELDING,
    IMAGE_EFFECT_PROP_SETABLE_FRAME_RATE,
    IMAGE_EFFECT_PROP_SUPPORTED_COMPONENTS,
    IMAGE_EFFECT_PROP_SUPPORTED_CONTEXTS,
    IMAGE_EFFECT_PROP_SUPPORTED_PIXEL_DEPTHS,
    IMAGE_EFFECT_PROP_SUPPORTS_MULTIPLE_CLIP_DEPTHS,
    IMAGE_EFFECT_PROP_SUPPORTS_MULTIPLE_CLIP_PARS,
    IMAGE_EFFECT_PROP_SUPPORTS_MULTI_RESOLUTION,
    IMAGE_EFFECT_PROP_SUPPORTS_OVERLAYS,
    IMAGE_EFFECT_PROP_SUPPORTS_TILES,
    IMAGE_EFFECT_PROP_TEMPORAL_CLIP_ACCESS,
    PARAM_HOST_PROP_MAX_PAGES,
    PARAM_HOST_PROP_MAX_PARAMETERS,
    PARAM_HOST_PROP_PAGE_ROW_COLUMN_COUNT,
    PARAM_HOST_PROP_SUPPORTS_BOOLEAN_ANIMATION,
    PARAM_HOST_PROP_SUPPORTS_CHOICE_ANIMATION,
    PARAM_HOST_PROP_SUPPORTS_CUSTOM_ANIMATION,
    PARAM_HOST_PROP_SUPPORTS_CUSTOM_INTERACT,
    PARAM_HOST_PROP_SUPPORTS_PARAMETRIC_ANIMATION,
    PARAM_HOST_PROP_SUPPORTS_STRING_ANIMATION,
    PARAM_HOST_PROP_SUPPORTS_STR_CHOICE_ANIMATION,
    PROP_API_VERSION,
    PROP_LABEL,
    PROP_VERSION,
    PROP_VERSION_LABEL,
    BIT_DEPTH_FLOAT,
    DOUBLE_24_BITS,
    DOUBLE_ONE_BITS,
    DOUBLE_ZERO_BITS,
    IMAGE_CLIP_PROP_CONNECTED,
    IMAGE_COMPONENT_RGBA,
    IMAGE_EFFECT_INSTANCE_PROP_EFFECT_DURATION,
    IMAGE_EFFECT_PROP_COMPONENTS,
    IMAGE_EFFECT_PROP_CONTEXT,
    IMAGE_EFFECT_PROP_FRAME_RANGE,
    IMAGE_EFFECT_PROP_FRAME_RATE,
    IMAGE_EFFECT_PROP_PIXEL_DEPTH,
    IMAGE_EFFECT_PROP_PRE_MULTIPLICATION,
    IMAGE_EFFECT_PROP_RENDER_SCALE,
    IMAGE_FIELD_NONE,
    IMAGE_PRE_MULTIPLIED,
    IMAGE_PROP_BOUNDS,
    IMAGE_PROP_DATA,
    IMAGE_PROP_FIELD,
    IMAGE_PROP_PIXEL_ASPECT_RATIO,
    IMAGE_PROP_REGION_OF_DEFINITION,
    IMAGE_PROP_ROW_BYTES,
    PARAM_PROP_TYPE,
    PLUGIN_PROP_FILE_PATH,
    PROP_NAME,
    PROP_TYPE,
    TYPE_IMAGE,
};
use crate::images::{OfxRectI, PIXEL_BYTES, rect_values};
use crate::properties::{
    PropertySet,
    Property,
    PropertyValue,
    ValueModel,
    bool_value,
    initial_values,
    entry_models,
};
use crate::strings::OfxStr;
use vstd::string::StringSliceAdditionalSpecFns;

verus! {

/// A string value of a name.
pub open spec fn text_value(s: &str) -> Seq<ValueModel> {
    seq![ValueModel::String(s.spec_bytes().push(0u8))]
}

/// A double value, by bit pattern.
pub open spec fn double_value(bits: u64) -> Seq<ValueModel> {
    seq![ValueModel::Double(bits)]
}

/// The properties of an image whose pixels start at address `data`,
/// with `stride` pixels per row.
pub open spec fn image_entries(bounds: OfxRectI, data: usize, stride: usize) -> Seq<
    (Seq<char>, Seq<ValueModel>),
> {
    seq![
        (PROP_TYPE@, text_value(TYPE_IMAGE)),
        (IMAGE_EFFECT_PROP_PIXEL_DEPTH@, text_value(BIT_DEPTH_FLOAT)),
        (IMAGE_EFFECT_PROP_COMPONENTS@, text_value(IMAGE_COMPONENT_RGBA)),
        (IMAGE_EFFECT_PROP_PRE_MULTIPLICATION@, text_value(IMAGE_PRE_MULTIPLIED)),
        (IMAGE_EFFECT_PROP_RENDER_SCALE@, double_value(DOUBLE_ONE_BITS) + double_value(DOUBLE_ONE_BITS)),
        (IMAGE_PROP_PIXEL_ASPECT_RATIO@, double_value(DOUBLE_ONE_BITS)),
        (IMAGE_PROP_DATA@, seq![ValueModel::Pointer(data)]),
        (IMAGE_PROP_BOUNDS@, rect_values(bounds)),
        (IMAGE_PROP_REGION_OF_DEFINITION@, rect_values(bounds)),
        (IMAGE_PROP_ROW_BYTES@, seq![ValueModel::Int((stride * PIXEL_BYTES) as i32)]),
        (IMAGE_PROP_FIELD@, text_value(IMAGE_FIELD_NONE)),
    ]
}

pub(crate) fn text_property(s: &str) -> (r: Property)
    requires
        nul_free(s),
    ensures
        r@ == text_value(s),
{
    Property::single(PropertyValue::from_str(s))
}

pub(crate) fn double_property(bits: u64) -> (r: Property)
    ensures
        r@ == double_value(bits),
{
    Property::single(PropertyValue::Double(bits))
}

/// The properties of a float RGBA image called `name`.
pub fn image_properties(name: &str, bounds: &OfxRectI, data: usize, stride: usize) -> (r: PropertySet)
    requires
        stride * PIXEL_BYTES <= usize::MAX,
    ensures
        r.name_view() == name@ + "_image"@,
        r.values() == initial_values(image_entries(*bounds, data, stride)),
{
    proof {
        crate::constants::lemma_value_names_nul_free();
    }
    let mut set_name = name.to_owned();
    set_name.append("_image");
    let entries = [
        (PROP_TYPE, text_property(TYPE_IMAGE)),
        (IMAGE_EFFECT_PROP_PIXEL_DEPTH, text_property(BIT_DEPTH_FLOAT)),
        (IMAGE_EFFECT_PROP_COMPONENTS, text_property(IMAGE_COMPONENT_RGBA)),
        (IMAGE_EFFECT_PROP_PRE_MULTIPLICATION, text_property(IMAGE_PRE_MULTIPLIED)),
        (IMAGE_EFFECT_PROP_RENDER_SCALE, Property::from_double_bits(&[DOUBLE_ONE_BITS, DOUBLE_ONE_BITS])),
        (IMAGE_PROP_PIXEL_ASPECT_RATIO, double_property(DOUBLE_ONE_BITS)),
        (IMAGE_PROP_DATA, Property::single(PropertyValue::Pointer(data))),
        (IMAGE_PROP_BOUNDS, bounds.to_property()),
        (IMAGE_PROP_REGION_OF_DEFINITION, bounds.to_property()),
        (IMAGE_PROP_ROW_BYTES, Property::single(PropertyValue::from_usize(stride * PIXEL_BYTES))),
        (IMAGE_PROP_FIELD, text_property(IMAGE_FIELD_NONE)),
    ];
    assert(entries[4].1@ =~= double_value(DOUBLE_ONE_BITS) + double_value(DOUBLE_ONE_BITS));
    let r = PropertySet::new(set_name.as_str(), &entries);
    assert(entry_models(entries@) =~= image_entries(*bounds, data, stride));
    r
}

/// The properties of a clip descriptor.
pub open spec fn clip_entries() -> Seq<(Seq<char>, Seq<ValueModel>)> {
    seq![
        (IMAGE_EFFECT_PROP_PIXEL_DEPTH@, text_value(BIT_DEPTH_FLOAT)),
        (IMAGE_EFFECT_PROP_COMPONENTS@, text_value(IMAGE_COMPONENT_RGBA)),
        (IMAGE_EFFECT_PROP_FRAME_RATE@, double_value(DOUBLE_24_BITS)),
        (IMAGE_PROP_PIXEL_ASPECT_RATIO@, double_value(DOUBLE_ONE_BITS)),
        (IMAGE_EFFECT_PROP_FRAME_RANGE@, double_value(DOUBLE_ZERO_BITS) + double_value(DOUBLE_ONE_BITS)),
        (IMAGE_CLIP_PROP_CONNECTED@, seq![ValueModel::Int(1)]),
    ]
}

/// The properties of a clip called `name`: float RGBA at 24 frames
/// per second, one frame long, connected.
pub fn clip_properties(name: OfxStr) -> (r: PropertySet)
    ensures
        r.name_view() == "clip_"@ + name.text(),
        r.values() == initial_values(clip_entries()),
{
    proof {
        crate::constants::lemma_value_names_nul_free();
    }
    let mut set_name = "clip_".to_owned();
    set_name.append(name.as_str());
    let entries = [
        (IMAGE_EFFECT_PROP_PIXEL_DEPTH, text_property(BIT_DEPTH_FLOAT)),
        (IMAGE_EFFECT_PROP_COMPONENTS, text_property(IMAGE_COMPONENT_RGBA)),
        (IMAGE_EFFECT_PROP_FRAME_RATE, double_property(DOUBLE_24_BITS)),
        (IMAGE_PROP_PIXEL_ASPECT_RATIO, double_property(DOUBLE_ONE_BITS)),
        (IMAGE_EFFECT_PROP_FRAME_RANGE, Property::from_double_bits(&[DOUBLE_ZERO_BITS, DOUBLE_ONE_BITS])),
        (IMAGE_CLIP_PROP_CONNECTED, Property::single(PropertyValue::Int(1))),
    ];
    assert(entries[4].1@ =~= double_value(DOUBLE_ZERO_BITS) + double_value(DOUBLE_ONE_BITS));
    let r = PropertySet::new(set_name.as_str(), &entries);
    assert(entry_models(entries@) =~= clip_entries());
    r
}

/// The properties of an effect instance created in `context` from a
/// descriptor whose file path property is `file_path`.
pub open spec fn instance_entries(context: &str, file_path: Seq<ValueModel>) -> Seq<
    (Seq<char>, Seq<ValueModel>),
> {
    seq![
        (IMAGE_EFFECT_PROP_CONTEXT@, text_value(context)),
        (PLUGIN_PROP_FILE_PATH@, file_path),
        (IMAGE_EFFECT_PROP_FRAME_RATE@, double_value(DOUBLE_24_BITS)),
        (IMAGE_PROP_PIXEL_ASPECT_RATIO@, double_value(DOUBLE_ONE_BITS)),
        (IMAGE_EFFECT_INSTANCE_PROP_EFFECT_DURATION@, double_value(DOUBLE_ONE_BITS)),
    ]
}

/// The properties of a new effect instance: its context, the plugin's
/// file path copied from the descriptor, 24 frames per second, square
/// pixels, one frame long.
pub fn instance_properties(descriptor: &PropertySet, context: &str) -> (r: PropertySet)
    requires
        nul_free(context),
        descriptor.values().contains_key(PLUGIN_PROP_FILE_PATH@),
    ensures
        r.name_view() == "instance"@,
        r.values() == initial_values(
            instance_entries(context, descriptor.values()[PLUGIN_PROP_FILE_PATH@]),
        ),
{
    let file_path = match descriptor.property(PLUGIN_PROP_FILE_PATH) {
        Some(p) => p.duplicate(),
        None => {
            proof {
                assert(false);
            }
            Property::from_values(Vec::new())
        },
    };
    let entries = [
        (IMAGE_EFFECT_PROP_CONTEXT, text_property(context)),
        (PLUGIN_PROP_FILE_PATH, file_path),
        (IMAGE_EFFECT_PROP_FRAME_RATE, double_property(DOUBLE_24_BITS)),
        (IMAGE_PROP_PIXEL_ASPECT_RATIO, double_property(DOUBLE_ONE_BITS)),
        (IMAGE_EFFECT_INSTANCE_PROP_EFFECT_DURATION, double_property(DOUBLE_ONE_BITS)),
    ];
    let r = PropertySet::new("instance", &entries);
    assert(entry_models(entries@) =~= instance_entries(
        context,
        descriptor.values()[PLUGIN_PROP_FILE_PATH@],
    ));
    r
}

/// The properties of a parameter descriptor.
pub open spec fn param_descriptor_entries(kind: OfxStr, name: OfxStr) -> Seq<
    (Seq<char>, Seq<ValueModel>),
> {
    seq![
        (PROP_NAME@, seq![ValueModel::String(name@)]),
        (PARAM_PROP_TYPE@, seq![ValueModel::String(kind@)]),
    ]
}

/// The descriptor of a new parameter called `name` of type `kind`.
pub fn param_descriptor_properties(kind: OfxStr, name: OfxStr) -> (r: PropertySet)
    ensures
        r.name_view() == "param_"@ + name.text(),
        r.values() == initial_values(param_descriptor_entries(kind, name)),
{
    let mut set_name = "param_".to_owned();
    set_name.append(name.as_str());
    let entries = [
        (PROP_NAME, Property::single(PropertyValue::from_ofx_str(name))),
        (PARAM_PROP_TYPE, Property::single(PropertyValue::from_ofx_str(kind))),
    ];
    let r = PropertySet::new(set_name.as_str(), &entries);
    assert(entry_models(entries@) =~= param_descriptor_entries(kind, name));
    r
}

/// The property sets of a host with version `version` (its numbers)
/// labelled `label`: what it is, what it supports and what not.
pub open spec fn host_entries(version: Seq<i32>, label: &str) -> Seq<(Seq<char>, Seq<ValueModel>)> {
    seq![
        (PROP_NAME@, text_value(HOST_NAME)),
        (PROP_LABEL@, text_value(HOST_LABEL)),
        (PROP_VERSION@, version.map_values(|v: i32| ValueModel::Int(v))),
        (PROP_VERSION_LABEL@, text_value(label)),
        (PROP_API_VERSION@, seq![ValueModel::Int(1), ValueModel::Int(4)]),
        (IMAGE_EFFECT_HOST_PROP_IS_BACKGROUND@, seq![bool_value(false)]),
        (IMAGE_EFFECT_PROP_SUPPORTS_OVERLAYS@, seq![bool_value(false)]),
        (IMAGE_EFFECT_PROP_SUPPORTS_MULTI_RESOLUTION@, seq![bool_value(false)]),
        (IMAGE_EFFECT_PROP_SUPPORTS_TILES@, seq![bool_value(false)]),
        (IMAGE_EFFECT_PROP_TEMPORAL_CLIP_ACCESS@, seq![bool_value(false)]),
        (IMAGE_EFFECT_PROP_SUPPORTS_MULTIPLE_CLIP_DEPTHS@, seq![bool_value(false)]),
        (IMAGE_EFFECT_PROP_SUPPORTS_MULTIPLE_CLIP_PARS@, seq![bool_value(false)]),
        (IMAGE_EFFECT_PROP_SETABLE_FRAME_RATE@, seq![bool_value(false)]),
        (IMAGE_EFFECT_PROP_SETABLE_FIELDING@, seq![bool_value(false)]),
        (IMAGE_EFFECT_INSTANCE_PROP_SEQUENTIAL_RENDER@, seq![bool_value(false)]),
        (PARAM_HOST_PROP_SUPPORTS_STRING_ANIMATION@, seq![bool_value(false)]),
        (PARAM_HOST_PROP_SUPPORTS_CUSTOM_INTERACT@, seq![bool_value(false)]),
        (PARAM_HOST_PROP_SUPPORTS_CHOICE_ANIMATION@, seq![bool_value(false)]),
        (PARAM_HOST_PROP_SUPPORTS_STR_CHOICE_ANIMATION@, seq![bool_value(false)]),
        (PARAM_HOST_PROP_SUPPORTS_BOOLEAN_ANIMATION@, seq![bool_value(false)]),
        (PARAM_HOST_PROP_SUPPORTS_CUSTOM_ANIMATION@, seq![bool_value(false)]),
        (PARAM_HOST_PROP_SUPPORTS_PARAMETRIC_ANIMATION@, seq![bool_value(false)]),
        (IMAGE_EFFECT_PROP_OPENCL_RENDER_SUPPORTED@, text_value(FALSE_TEXT)),
        (IMAGE_EFFECT_PROP_CUDA_RENDER_SUPPORTED@, text_value(FALSE_TEXT)),
        (IMAGE_EFFECT_PROP_CUDA_STREAM_SUPPORTED@, text_value(FALSE_TEXT)),
        (IMAGE_EFFECT_PROP_METAL_RENDER_SUPPORTED@, text_value(FALSE_TEXT)),
        (IMAGE_EFFECT_PROP_RENDER_QUALITY_DRAFT@, seq![bool_value(false)]),
        (PARAM_HOST_PROP_MAX_PARAMETERS@, seq![ValueModel::Int(-1i32)]),
        (PARAM_HOST_PROP_MAX_PAGES@, seq![ValueModel::Int(0)]),
        (PARAM_HOST_PROP_PAGE_ROW_COLUMN_COUNT@, seq![ValueModel::Int(0), ValueModel::Int(0)]),
        (IMAGE_EFFECT_PROP_SUPPORTED_COMPONENTS@, text_value(IMAGE_COMPONENT_RGBA)),
        (IMAGE_EFFECT_PROP_SUPPORTED_CONTEXTS@, text_value(IMAGE_EFFECT_CONTEXT_FILTER)),
        (IMAGE_EFFECT_PROP_SUPPORTED_PIXEL_DEPTHS@, text_value(BIT_DEPTH_FLOAT)),
    ]
}

/// A single false flag.
pub(crate) fn false_property() -> (r: Property)
    ensures
        r@ == seq![bool_value(false)],
{
    Property::single(PropertyValue::from_bool(false))
}

fn int_property(i: i32) -> (r: Property)
    ensures
        r@ == seq![ValueModel::Int(i)],
{
    Property::single(PropertyValue::Int(i))
}

/// The host's own properties, for version numbers `version` labelled
/// `label`: a float RGBA host of the filter context, API 1.4, without
/// overlays, tiles, multiple resolutions, GPU rendering or animation.
pub fn host_properties(version: &[i32], label: &str) -> (r: PropertySet)
    requires
        nul_free(label),
    ensures
        r.name_view() == "host"@,
        r.values() == initial_values(host_entries(version@, label)),
{
    proof {
        crate::constants::lemma_host_names_nul_free();
    }
    let version_property = Property::from_ints(version);
    let api_version = Property::from_ints(&[1, 4]);
    let page_count = Property::from_ints(&[0, 0]);
    assert(version_property@ =~= version@.map_values(|v: i32| ValueModel::Int(v)));
    assert(api_version@ =~= seq![ValueModel::Int(1), ValueModel::Int(4)]);
    assert(page_count@ =~= seq![ValueModel::Int(0), ValueModel::Int(0)]);
    let entries = [
        (PROP_NAME, text_property(HOST_NAME)),
        (PROP_LABEL, text_property(HOST_LABEL)),
        (PROP_VERSION, version_property),
        (PROP_VERSION_LABEL, text_property(label)),
        (PROP_API_VERSION, api_version),
        (IMAGE_EFFECT_HOST_PROP_IS_BACKGROUND, false_property()),
        (IMAGE_EFFECT_PROP_SUPPORTS_OVERLAYS, false_property()),
        (IMAGE_EFFECT_PROP_SUPPORTS_MULTI_RESOLUTION, false_property()),
        (IMAGE_EFFECT_PROP_SUPPORTS_TILES, false_property()),
        (IMAGE_EFFECT_PROP_TEMPORAL_CLIP_ACCESS, false_property()),
        (IMAGE_EFFECT_PROP_SUPPORTS_MULTIPLE_CLIP_DEPTHS, false_property()),
        (IMAGE_EFFECT_PROP_SUPPORTS_MULTIPLE_CLIP_PARS, false_property()),
        (IMAGE_EFFECT_PROP_SETABLE_FRAME_RATE, false_property()),
        (IMAGE_EFFECT_PROP_SETABLE_FIELDING, false_property()),
        (IMAGE_EFFECT_INSTANCE_PROP_SEQUENTIAL_RENDER, false_property()),
        (PARAM_HOST_PROP_SUPPORTS_STRING_ANIMATION, false_property()),
        (PARAM_HOST_PROP_SUPPORTS_CUSTOM_INTERACT, false_property()),
        (PARAM_HOST_PROP_SUPPORTS_CHOICE_ANIMATION, false_property()),
        (PARAM_HOST_PROP_SUPPORTS_STR_CHOICE_ANIMATION, false_property()),
        (PARAM_HOST_PROP_SUPPORTS_BOOLEAN_ANIMATION, false_property()),
        (PARAM_HOST_PROP_SUPPORTS_CUSTOM_ANIMATION, false_property()),
        (PARAM_HOST_PROP_SUPPORTS_PARAMETRIC_ANIMATION, false_property()),
        (IMAGE_EFFECT_PROP_OPENCL_RENDER_SUPPORTED, text_property(FALSE_TEXT)),
        (IMAGE_EFFECT_PROP_CUDA_RENDER_SUPPORTED, text_property(FALSE_TEXT)),
        (IMAGE_EFFECT_PROP_CUDA_STREAM_SUPPORTED, text_property(FALSE_TEXT)),
        (IMAGE_EFFECT_PROP_METAL_RENDER_SUPPORTED, text_property(FALSE_TEXT)),
        (IMAGE_EFFECT_PROP_RENDER_QUALITY_DRAFT, false_property()),
        (PARAM_HOST_PROP_MAX_PARAMETERS, int_property(-1)),
        (PARAM_HOST_PROP_MAX_PAGES, int_property(0)),
        (PARAM_HOST_PROP_PAGE_ROW_COLUMN_COUNT, page_count),
        (IMAGE_EFFECT_PROP_SUPPORTED_COMPONENTS, text_property(IMAGE_COMPONENT_RGBA)),
        (IMAGE_EFFECT_PROP_SUPPORTED_CONTEXTS, text_property(IMAGE_EFFECT_CONTEXT_FILTER)),
        (IMAGE_EFFECT_PROP_SUPPORTED_PIXEL_DEPTHS, text_property(BIT_DEPTH_FLOAT)),
    ];
    let r = PropertySet::new("host", &entries);
    assert(entry_models(entries@) =~= host_entries(version@, label));
    r
}

} // verus!
