//! Host-level decisions: which suite a plugin asks for, which
//! contexts it supports, where bundles and their libraries live, and
//! how action results and frame ranges are judged.

use vstd::prelude::*;
use vstd::string::StringSliceAdditionalSpecFns;
use crate::constants::{
    IMAGE_EFFECT_SUITE,
    PROPERTY_SUITE,
    PARAMETER_SUITE,
    MEMORY_SUITE,
    MULTI_THREAD_SUITE,
    MESSAGE_SUITE,
    IMAGE_EFFECT_CONTEXT_FILTER,
    IMAGE_EFFECT_CONTEXT_GENERAL,
    IMAGE_EFFECT_CONTEXT_GENERATOR,
    IMAGE_EFFECT_CONTEXT_PAINT,
    IMAGE_EFFECT_CONTEXT_RETIMER,
    IMAGE_EFFECT_CONTEXT_TRANSITION,
    IMAGE_EFFECT_PROP_SUPPORTED_CONTEXTS,
    IMAGE_EFFECT_PROP_SUPPORTED_PIXEL_DEPTHS,
    BIT_DEPTH_FLOAT,
    IMAGE_EFFECT_PLUGIN_API,
};
use crate::properties::{PropertySet, PropertyValue, ValueModel};
use crate::status::{OfxStatus, status_succeeded};
use crate::strings::text_eq;

verus! {

/// The suites the host provides.
#[derive(Copy, Clone, Debug, PartialEq, Eq, Structural)]
pub enum SuiteKind {
    ImageEffect,
    Property,
    Parameter,
    Memory,
    MultiThread,
    Message,
}

/// The suite named `name`, if the host provides one by that name.
pub open spec fn suite_named(name: Seq<char>) -> Option<SuiteKind> {
    if name == IMAGE_EFFECT_SUITE@ {
        Some(SuiteKind::ImageEffect)
    } else if name == PROPERTY_SUITE@ {
        Some(SuiteKind::Property)
    } else if name == PARAMETER_SUITE@ {
        Some(SuiteKind::Parameter)
    } else if name == MEMORY_SUITE@ {
        Some(SuiteKind::Memory)
    } else if name == MULTI_THREAD_SUITE@ {
        Some(SuiteKind::MultiThread)
    } else if name == MESSAGE_SUITE@ {
        Some(SuiteKind::Message)
    } else {
        None
    }
}

/// The suite a plugin's `fetchSuite` call is answered with; `None`
/// when the host has no suite of that name. (Only version 1 of each
/// suite exists; the caller checks the version asked for.)
pub fn fetch_suite_kind(name: &str) -> (r: Option<SuiteKind>)
    ensures
        r == suite_named(name@),
{
    if text_eq(name, IMAGE_EFFECT_SUITE) {
        Some(SuiteKind::ImageEffect)
    } else if text_eq(name, PROPERTY_SUITE) {
        Some(SuiteKind::Property)
    } else if text_eq(name, PARAMETER_SUITE) {
        Some(SuiteKind::Parameter)
    } else if text_eq(name, MEMORY_SUITE) {
        Some(SuiteKind::Memory)
    } else if text_eq(name, MULTI_THREAD_SUITE) {
        Some(SuiteKind::MultiThread)
    } else if text_eq(name, MESSAGE_SUITE) {
        Some(SuiteKind::Message)
    } else {
        None
    }
}

/// The contexts an image effect can be created in.
#[derive(Copy, Clone, Debug, PartialEq, Eq, Structural)]
pub enum ImageEffectContext {
    Filter,
    General,
    Generator,
    Paint,
    Retimer,
    Transition,
}

/// The OFX name of a context.
pub open spec fn context_name(c: ImageEffectContext) -> &'static str {
    match c {
        ImageEffectContext::Filter => IMAGE_EFFECT_CONTEXT_FILTER,
        ImageEffectContext::General => IMAGE_EFFECT_CONTEXT_GENERAL,
        ImageEffectContext::Generator => IMAGE_EFFECT_CONTEXT_GENERATOR,
        ImageEffectContext::Paint => IMAGE_EFFECT_CONTEXT_PAINT,
        ImageEffectContext::Retimer => IMAGE_EFFECT_CONTEXT_RETIMER,
        ImageEffectContext::Transition => IMAGE_EFFECT_CONTEXT_TRANSITION,
    }
}

/// The OFX name of a context.
pub fn image_effect_context_str(context: ImageEffectContext) -> (r: &'static str)
    ensures
        r == context_name(context),
{
    match context {
        ImageEffectContext::Filter => IMAGE_EFFECT_CONTEXT_FILTER,
        ImageEffectContext::General => IMAGE_EFFECT_CONTEXT_GENERAL,
        ImageEffectContext::Generator => IMAGE_EFFECT_CONTEXT_GENERATOR,
        ImageEffectContext::Paint => IMAGE_EFFECT_CONTEXT_PAINT,
        ImageEffectContext::Retimer => IMAGE_EFFECT_CONTEXT_RETIMER,
        ImageEffectContext::Transition => IMAGE_EFFECT_CONTEXT_TRANSITION,
    }
}

/// Why an effect cannot be instantiated.
#[derive(Copy, Clone, Debug, PartialEq, Eq, Structural)]
pub enum CreateError {
    /// The plugin does not list the context among its supported contexts.
    ContextNotSupported,
    /// The plugin does not list float pixels among its supported depths.
    FloatNotSupported,
}

/// True when the property `key` of `p` holds the string `s`.
pub open spec fn lists(p: PropertySet, key: Seq<char>, s: &str) -> bool {
    p.values().contains_key(key) && p.values()[key].contains(ValueModel::String(s.spec_bytes().push(0u8)))
}

/// Checks that a plugin descriptor supports `context` and float pixels,
/// as required to instantiate it.
pub fn check_supported(descriptor: &PropertySet, context: ImageEffectContext) -> (r: Result<
    (),
    CreateError,
>)
    ensures
        match r {
            Ok(()) => lists(*descriptor, IMAGE_EFFECT_PROP_SUPPORTED_CONTEXTS@, context_name(context))
                && lists(*descriptor, IMAGE_EFFECT_PROP_SUPPORTED_PIXEL_DEPTHS@, BIT_DEPTH_FLOAT),
            Err(CreateError::ContextNotSupported) => !lists(
                *descriptor,
                IMAGE_EFFECT_PROP_SUPPORTED_CONTEXTS@,
                context_name(context),
            ),
            Err(CreateError::FloatNotSupported) => lists(
                *descriptor,
                IMAGE_EFFECT_PROP_SUPPORTED_CONTEXTS@,
                context_name(context),
            ) && !lists(*descriptor, IMAGE_EFFECT_PROP_SUPPORTED_PIXEL_DEPTHS@, BIT_DEPTH_FLOAT),
        },
{
    let context_str = image_effect_context_str(context);
    proof {
        crate::constants::lemma_context_names_nul_free();
    }
    let supported = match descriptor.property(IMAGE_EFFECT_PROP_SUPPORTED_CONTEXTS) {
        Some(p) => p.contains(&PropertyValue::from_str(context_str)),
        None => false,
    };
    if !supported {
        return Err(CreateError::ContextNotSupported);
    }
    let float = match descriptor.property(IMAGE_EFFECT_PROP_SUPPORTED_PIXEL_DEPTHS) {
        Some(p) => p.contains(&PropertyValue::from_str(BIT_DEPTH_FLOAT)),
        None => false,
    };
    if !float {
        return Err(CreateError::FloatNotSupported);
    }
    Ok(())
}

/// True when a plugin implements the image effect API, the only API
/// the host supports.
pub fn is_supported_api(api: &str) -> (r: bool)
    ensures
        r == (api@ == IMAGE_EFFECT_PLUGIN_API@),
{
    text_eq(api, IMAGE_EFFECT_PLUGIN_API)
}

/// The outcome of calling a plugin action: `Ok` when the returned
/// status is a success code, the status itself otherwise.
pub fn action_result(status: OfxStatus) -> (r: Result<(), OfxStatus>)
    ensures
        r is Ok <==> status_succeeded(status),
        r matches Err(s) ==> s == status,
{
    if status.succeeded() {
        Ok(())
    } else {
        Err(status)
    }
}

/// Each suite name of the OFX API is answered with the suite of that
/// name, and a suite is answered for one name only.
pub proof fn law_suites_by_name(a: Seq<char>, b: Seq<char>)
    ensures
        suite_named("OfxImageEffectSuite"@) == Some(SuiteKind::ImageEffect),
        suite_named("OfxPropertySuite"@) == Some(SuiteKind::Property),
        suite_named("OfxParameterSuite"@) == Some(SuiteKind::Parameter),
        suite_named("OfxMemorySuite"@) == Some(SuiteKind::Memory),
        suite_named("OfxMultiThreadSuite"@) == Some(SuiteKind::MultiThread),
        suite_named("OfxMessageSuite"@) == Some(SuiteKind::Message),
        suite_named(a) is Some && suite_named(a) == suite_named(b) ==> a == b,
{
    reveal_strlit("OfxImageEffectSuite");
    reveal_strlit("OfxPropertySuite");
    reveal_strlit("OfxParameterSuite");
    reveal_strlit("OfxMemorySuite");
    reveal_strlit("OfxMultiThreadSuite");
    reveal_strlit("OfxMessageSuite");
    assert("OfxPropertySuite"@ != "OfxImageEffectSuite"@) by {
        assert("OfxPropertySuite"@.len() != "OfxImageEffectSuite"@.len());
    }
    assert("OfxParameterSuite"@ != "OfxImageEffectSuite"@) by {
        assert("OfxParameterSuite"@.len() != "OfxImageEffectSuite"@.len());
    }
    assert("OfxParameterSuite"@ != "OfxPropertySuite"@) by {
        assert("OfxParameterSuite"@.len() != "OfxPropertySuite"@.len());
    }
    assert("OfxMemorySuite"@ != "OfxImageEffectSuite"@) by {
        assert("OfxMemorySuite"@.len() != "OfxImageEffectSuite"@.len());
    }
    assert("OfxMemorySuite"@ != "OfxPropertySuite"@) by {
        assert("OfxMemorySuite"@.len() != "OfxPropertySuite"@.len());
    }
    assert("OfxMemorySuite"@ != "OfxParameterSuite"@) by {
        assert("OfxMemorySuite"@.len() != "OfxParameterSuite"@.len());
    }
    assert("OfxMultiThreadSuite"@ != "OfxImageEffectSuite"@) by {
        assert("OfxMultiThreadSuite"@[3] != "OfxImageEffectSuite"@[3]);
    }
    assert("OfxMultiThreadSuite"@ != "OfxPropertySuite"@) by {
        assert("OfxMultiThreadSuite"@.len() != "OfxPropertySuite"@.len());
    }
    assert("OfxMultiThreadSuite"@ != "OfxParameterSuite"@) by {
        assert("OfxMultiThreadSuite"@.len() != "OfxParameterSuite"@.len());
    }
    assert("OfxMultiThreadSuite"@ != "OfxMemorySuite"@) by {
        assert("OfxMultiThreadSuite"@.len() != "OfxMemorySuite"@.len());
    }
    assert("OfxMessageSuite"@ != "OfxImageEffectSuite"@) by {
        assert("OfxMessageSuite"@.len() != "OfxImageEffectSuite"@.len());
    }
    assert("OfxMessageSuite"@ != "OfxPropertySuite"@) by {
        assert("OfxMessageSuite"@.len() != "OfxPropertySuite"@.len());
    }
    assert("OfxMessageSuite"@ != "OfxParameterSuite"@) by {
        assert("OfxMessageSuite"@.len() != "OfxParameterSuite"@.len());
    }
    assert("OfxMessageSuite"@ != "OfxMemorySuite"@) by {
        assert("OfxMessageSuite"@.len() != "OfxMemorySuite"@.len());
    }
    assert("OfxMessageSuite"@ != "OfxMultiThreadSuite"@) by {
        assert("OfxMessageSuite"@.len() != "OfxMultiThreadSuite"@.len());
    }
}

} // verus!
