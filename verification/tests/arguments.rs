use openfx_driver::arguments::{
    change_arguments, context_arguments, param_change_arguments, render_arguments, roi_arguments,
    roi_results, rod_arguments, rod_results, set_project,
};
use openfx_driver::images::OfxRectI;
use openfx_driver::layouts::host_properties;
use openfx_driver::PropertySet;

fn text(s: &str) -> Option<Vec<u8>> {
    let mut v = s.as_bytes().to_vec();
    v.push(0);
    Some(v)
}

#[test]
fn render_arguments_hold_time_window_and_flags() {
    let window = OfxRectI { x1: 1, y1: 2, x2: 30, y2: 40 };
    let p = render_arguments(3.0f64.to_bits(), &window);
    assert_eq!(p.name(), "render_inargs");
    assert_eq!(p.len(), 7);
    assert_eq!(p.get_double("OfxPropTime", 0), Some(3.0f64.to_bits()));
    assert_eq!(p.get_string("OfxImageEffectPropFieldToRender", 0), text("OfxFieldNone"));
    assert_eq!(p.get_int("OfxImageEffectPropRenderWindow", 0), Some(1));
    assert_eq!(p.get_int("OfxImageEffectPropRenderWindow", 3), Some(40));
    assert_eq!(p.get_double("OfxImageEffectPropRenderScale", 1), Some(1.0f64.to_bits()));
    assert_eq!(p.get_bool("OfxImageEffectPropSequentialRenderStatus", 0), Some(false));
    assert_eq!(p.get_bool("OfxImageEffectPropInteractiveRenderStatus", 0), Some(false));
    assert_eq!(p.get_bool("OfxImageEffectPropRenderQualityDraft", 0), Some(false));
}

#[test]
fn change_arguments_name_the_parameter() {
    let begin = change_arguments();
    assert_eq!(begin.name(), "begin_instance_changed");
    assert_eq!(begin.get_string("OfxPropChangeReason", 0), text("OfxChangeUserEdited"));
    let p = param_change_arguments("radius");
    assert_eq!(p.name(), "instance_changed");
    assert_eq!(p.get_string("OfxPropType", 0), text("OfxTypeParameter"));
    assert_eq!(p.get_string("OfxPropName", 0), text("radius"));
    assert_eq!(p.get_double("OfxPropTime", 0), Some(0.0f64.to_bits()));
    assert_eq!(p.dimension("OfxImageEffectPropRenderScale"), Some(2));
}

#[test]
fn context_arguments_name_the_context() {
    let p = context_arguments("OfxImageEffectContextFilter");
    assert_eq!(p.name(), "filter_inargs");
    assert_eq!(p.get_string("OfxImageEffectPropContext", 0), text("OfxImageEffectContextFilter"));
}

#[test]
fn region_arguments_and_results() {
    let r = [0.5f64.to_bits(), 1.5f64.to_bits(), 10.0f64.to_bits(), 20.0f64.to_bits()];
    let a = roi_arguments(r, 64, 48);
    assert_eq!(a.name(), "getRoI_inargs");
    assert_eq!(a.get_double("OfxImageEffectPropRegionOfInterest", 1), Some(1.5f64.to_bits()));
    assert_eq!(a.get_int("OfxImageEffectPropRenderWindow", 0), Some(0));
    assert_eq!(a.get_int("OfxImageEffectPropRenderWindow", 2), Some(64));
    assert_eq!(a.get_int("OfxImageEffectPropRenderWindow", 3), Some(48));
    let out = roi_results(r);
    assert_eq!(out.name(), "getRoI_outargs");
    assert_eq!(out.get_rectd("OfxImageClipPropRoI_Source"), Ok(r));
    let d = rod_arguments(8, 6);
    assert_eq!(d.name(), "getRoD_inargs");
    assert_eq!(d.len(), 4);
    assert_eq!(d.get_int("OfxImageEffectPropRenderWindow", 3), Some(6));
    let dout = rod_results(r);
    assert_eq!(dout.get_rectd("OfxImageEffectPropRegionOfDefinition"), Ok(r));
}

#[test]
fn project_is_set_with_zero_offset() {
    let mut p = PropertySet::new("effect", &[]);
    set_project(&mut p, 1920.0f64.to_bits(), 1080.0f64.to_bits());
    assert_eq!(p.name(), "effect");
    assert_eq!(p.get_double("OfxImageEffectPropProjectSize", 0), Some(1920.0f64.to_bits()));
    assert_eq!(p.get_double("OfxImageEffectPropProjectExtent", 1), Some(1080.0f64.to_bits()));
    assert_eq!(p.get_double("OfxImageEffectPropProjectOffset", 0), Some(0.0f64.to_bits()));
    assert_eq!(p.len(), 3);
}

#[test]
fn host_describes_itself() {
    let h = host_properties(&[0, 1, 0], "0.1.0");
    assert_eq!(h.name(), "host");
    assert_eq!(h.len(), 33);
    assert_eq!(h.get_string("OfxPropName", 0), text("openfx-driver"));
    assert_eq!(h.get_string("OfxPropLabel", 0), text("OpenFX Driver"));
    assert_eq!(h.get_int("OfxPropVersion", 1), Some(1));
    assert_eq!(h.get_string("OfxPropVersionLabel", 0), text("0.1.0"));
    assert_eq!(h.get_int("OfxPropAPIVersion", 1), Some(4));
    assert_eq!(h.get_bool("OfxImageEffectPropSupportsTiles", 0), Some(false));
    assert_eq!(h.get_string("OfxImageEffectPropCudaRenderSupported", 0), text("false"));
    assert_eq!(h.get_int("OfxParamHostPropMaxParameters", 0), Some(-1));
    assert_eq!(h.get_string("OfxImageEffectPropSupportedContexts", 0), text("OfxImageEffectContextFilter"));
    assert_eq!(h.get_string("OfxImageEffectPropSupportedPixelDepths", 0), text("OfxBitDepthFloat"));
}
