use openfx_driver::frames::{frame_digits, frame_file_name, valid_frame_range};
use openfx_driver::host::{
    action_result, check_supported, fetch_suite_kind, image_effect_context_str, is_supported_api,
    CreateError, ImageEffectContext, SuiteKind,
};
use openfx_driver::layouts::{clip_properties, instance_properties};
use openfx_driver::messages::{MessageResponses, MessageSuiteResponses};
use openfx_driver::paths::{
    bundle_path, join_path, library_path, plist_path, BundleError, PlistEntry, PlistInfo, TargetOs,
};
use openfx_driver::status::OfxStatus;
use openfx_driver::strmap::StrMap;
use openfx_driver::{OfxStr, Property, PropertySet, PropertyValue, Timer};

#[test]
fn suites_by_name() {
    assert_eq!(fetch_suite_kind("OfxPropertySuite"), Some(SuiteKind::Property));
    assert_eq!(fetch_suite_kind("OfxMessageSuite"), Some(SuiteKind::Message));
    assert_eq!(fetch_suite_kind("OfxImageEffectSuite"), Some(SuiteKind::ImageEffect));
    assert_eq!(fetch_suite_kind("OfxInteractSuite"), None);
    assert_eq!(fetch_suite_kind("OfxProgressSuite"), None);
}

#[test]
fn context_names() {
    assert_eq!(image_effect_context_str(ImageEffectContext::Filter), "OfxImageEffectContextFilter");
    assert_eq!(image_effect_context_str(ImageEffectContext::Transition), "OfxImageEffectContextTransition");
}

fn descriptor(contexts: &[&str], depths: &[&str]) -> PropertySet {
    let c: Vec<PropertyValue> = contexts.iter().map(|s| PropertyValue::from_str(s)).collect();
    let d: Vec<PropertyValue> = depths.iter().map(|s| PropertyValue::from_str(s)).collect();
    PropertySet::new(
        "descriptor",
        &[
            ("OfxImageEffectPropSupportedContexts", Property::from_values(c)),
            ("OfxImageEffectPropSupportedPixelDepths", Property::from_values(d)),
            ("OfxPluginPropFilePath", Property::single(PropertyValue::from_str("/b"))),
        ],
    )
}

#[test]
fn supported_contexts_and_depths() {
    let d = descriptor(&["OfxImageEffectContextGeneral", "OfxImageEffectContextFilter"], &["OfxBitDepthFloat"]);
    assert_eq!(check_supported(&d, ImageEffectContext::Filter), Ok(()));
    assert_eq!(
        check_supported(&d, ImageEffectContext::Paint),
        Err(CreateError::ContextNotSupported)
    );
    let d = descriptor(&["OfxImageEffectContextFilter"], &["OfxBitDepthByte"]);
    assert_eq!(
        check_supported(&d, ImageEffectContext::Filter),
        Err(CreateError::FloatNotSupported)
    );
    let empty = PropertySet::new("empty", &[]);
    assert_eq!(
        check_supported(&empty, ImageEffectContext::Filter),
        Err(CreateError::ContextNotSupported)
    );
}

#[test]
fn instance_and_clip_properties() {
    let d = descriptor(&[], &[]);
    let p = instance_properties(&d, "OfxImageEffectContextFilter");
    assert_eq!(p.name(), "instance");
    assert_eq!(p.get_string("OfxPluginPropFilePath", 0), Some(b"/b\0".to_vec()));
    assert_eq!(p.get_double("OfxImageEffectPropFrameRate", 0), Some(24.0f64.to_bits()));
    assert_eq!(p.len(), 5);
    let c = clip_properties(OfxStr::from_str("Source\0"));
    assert_eq!(c.name(), "clip_Source");
    assert_eq!(c.get_int("OfxImageClipPropConnected", 0), Some(1));
    assert_eq!(c.get_double("OfxImageEffectPropFrameRange", 1), Some(1.0f64.to_bits()));
}

#[test]
fn supported_api() {
    assert!(is_supported_api("OfxImageEffectPluginAPI"));
    assert!(!is_supported_api("OfxInteractAPI"));
}

#[test]
fn action_results() {
    assert_eq!(action_result(OfxStatus::OK), Ok(()));
    assert_eq!(action_result(OfxStatus::ReplyDefault), Ok(()));
    assert_eq!(action_result(OfxStatus::Failed), Err(OfxStatus::Failed));
    assert_eq!(action_result(OfxStatus::ReplyYes), Err(OfxStatus::ReplyYes));
    assert_eq!(OfxStatus::ErrBadIndex.code(), 10);
    assert_eq!(OfxStatus::from_code(14), Some(OfxStatus::ReplyDefault));
    assert_eq!(OfxStatus::from_code(15), None);
    assert!(OfxStatus::ErrUnknown.failed());
}

#[test]
fn message_replies_in_configured_order() {
    let mut r = MessageResponses::new();
    assert_eq!(r.next(), OfxStatus::ReplyNo);
    assert_eq!(r.next(), OfxStatus::ReplyYes);
    assert_eq!(r.next(), OfxStatus::OK);
    r.configure(&[MessageSuiteResponses::Yes, MessageSuiteResponses::Failed, MessageSuiteResponses::No]);
    assert_eq!(r.len(), 3);
    assert_eq!(r.next(), OfxStatus::ReplyYes);
    assert_eq!(r.next(), OfxStatus::Failed);
    assert_eq!(r.next(), OfxStatus::ReplyNo);
    assert_eq!(r.next(), OfxStatus::OK);
}

#[test]
fn timer_accumulates() {
    let mut t = Timer::new("render".to_string());
    t.record_action("OfxActionLoad", 5);
    t.record_action("OfxImageEffectActionRender", 7);
    t.record_action("OfxActionLoad", 10);
    assert_eq!(t.name(), "render");
    assert_eq!(t.durations().get("OfxActionLoad"), Some(&15));
    assert_eq!(t.durations().get("OfxImageEffectActionRender"), Some(&7));
    assert_eq!(t.durations().len(), 2);
}

#[test]
fn bundle_paths() {
    assert_eq!(bundle_path(TargetOs::Linux, "Blur"), "/usr/OFX/Plugins/Blur.ofx.bundle");
    assert_eq!(bundle_path(TargetOs::MacOs, "Blur"), "/Library/OFX/Plugins/Blur.ofx.bundle");
    assert_eq!(
        bundle_path(TargetOs::Windows, "Blur"),
        "C:/Program Files/Common Files/OFX/Plugins/Blur.ofx.bundle"
    );
    assert_eq!(plist_path(TargetOs::Linux, "test/Empty.ofx.bundle"), "test/Empty.ofx.bundle/Contents/Info.plist");
    assert_eq!(join_path(TargetOs::Linux, "a/", "b"), "a/b");
    assert_eq!(join_path(TargetOs::Linux, "a", "/b"), "/b");
    assert_eq!(join_path(TargetOs::Linux, "", "b"), "b");
    // Windows puts a backslash between parts and knows drives
    assert_eq!(join_path(TargetOs::Windows, "C:/x", "b"), "C:/x\\b");
    assert_eq!(join_path(TargetOs::Windows, "C:/x\\", "b"), "C:/x\\b");
    assert_eq!(join_path(TargetOs::Windows, "C:/x", "D:b"), "D:b");
    assert_eq!(join_path(TargetOs::Linux, "a", "D:b"), "a/D:b");
    // A rooted name keeps the base's drive; a drive alone takes no separator
    assert_eq!(join_path(TargetOs::Windows, "C:/x/y", "\\z"), "C:\\z");
    assert_eq!(join_path(TargetOs::Windows, "x/y", "/z"), "/z");
    assert_eq!(join_path(TargetOs::Windows, "C:", "z"), "C:z");
    assert_eq!(join_path(TargetOs::Windows, "C:/x", "\\\\server\\share"), "\\\\server\\share");
    assert_eq!(join_path(TargetOs::Linux, "/a", "//b"), "//b");
    assert_eq!(
        plist_path(TargetOs::Windows, "C:/OFX/A.ofx.bundle"),
        "C:/OFX/A.ofx.bundle\\Contents/Info.plist"
    );
}

fn plist_with(entry: Option<PlistEntry>) -> PlistInfo {
    let mut d = StrMap::new();
    if let Some(e) = entry {
        d.insert("CFBundleExecutable".to_string(), e);
    }
    d.insert("CFBundleName".to_string(), PlistEntry::String("x".to_string()));
    PlistInfo::Dictionary(d)
}

#[test]
fn library_of_bundle() {
    let p = plist_with(Some(PlistEntry::String("test.ofx".to_string())));
    assert_eq!(
        library_path("test/NoExe.ofx.bundle", TargetOs::Linux, &p).unwrap(),
        "test/NoExe.ofx.bundle/Contents/Linux-x86-64/test.ofx"
    );
    assert_eq!(
        library_path("b", TargetOs::MacOs, &p).unwrap(),
        "b/Contents/MacOS/test.ofx"
    );
}

#[test]
fn no_executable_name() {
    let p = plist_with(None);
    assert_eq!(
        library_path("fake", TargetOs::Linux, &p).unwrap_err().message(),
        "CFBundleExecutable not found in plist"
    );
}

#[test]
fn executable_name_not_a_string() {
    let p = plist_with(Some(PlistEntry::Other));
    assert_eq!(
        library_path("fake", TargetOs::Linux, &p).unwrap_err().message(),
        "CFBundleExecutable is not a string"
    );
}

#[test]
fn plist_not_a_dict() {
    assert_eq!(
        library_path("fake", TargetOs::Linux, &PlistInfo::Other).unwrap_err(),
        BundleError::MalformedPlist
    );
    assert_eq!(BundleError::MalformedPlist.message(), "Malformed plist");
}

#[test]
fn frames() {
    assert!(valid_frame_range(0, 1));
    assert!(!valid_frame_range(3, 3));
    assert!(!valid_frame_range(4, 2));
    assert_eq!(frame_digits(1), 1);
    assert_eq!(frame_digits(10), 2);
    assert_eq!(frame_digits(999), 3);
    assert_eq!(frame_digits(u32::MAX), 10);
    assert_eq!(frame_file_name("out", 7, 3), "out/007.exr");
    assert_eq!(frame_file_name("out", 1234, 2), "out/1234.exr");
    assert_eq!(frame_file_name("o", 0, 1), "o/0.exr");
    assert_ne!(frame_file_name("o", 5, 2), frame_file_name("o", 50, 2));
}
