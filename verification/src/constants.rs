//! Names defined by the OFX API, as the text of the C constants.

use vstd::prelude::*;
use vstd::string::StringSliceAdditionalSpecFns;

verus! {

pub const PROP_NAME: &'static str = "OfxPropName";
pub const PROP_TYPE: &'static str = "OfxPropType";
pub const PARAM_PROP_TYPE: &'static str = "OfxParamPropType";
pub const PARAM_PROP_DEFAULT: &'static str = "OfxParamPropDefault";

pub const PARAM_TYPE_BOOLEAN: &'static str = "OfxParamTypeBoolean";
pub const PARAM_TYPE_CHOICE: &'static str = "OfxParamTypeChoice";
pub const PARAM_TYPE_CUSTOM: &'static str = "OfxParamTypeCustom";
pub const PARAM_TYPE_DOUBLE: &'static str = "OfxParamTypeDouble";
pub const PARAM_TYPE_DOUBLE_2D: &'static str = "OfxParamTypeDouble2D";
pub const PARAM_TYPE_DOUBLE_3D: &'static str = "OfxParamTypeDouble3D";
pub const PARAM_TYPE_GROUP: &'static str = "OfxParamTypeGroup";
pub const PARAM_TYPE_INTEGER: &'static str = "OfxParamTypeInteger";
pub const PARAM_TYPE_INTEGER_2D: &'static str = "OfxParamTypeInteger2D";
pub const PARAM_TYPE_INTEGER_3D: &'static str = "OfxParamTypeInteger3D";
pub const PARAM_TYPE_PAGE: &'static str = "OfxParamTypePage";
pub const PARAM_TYPE_PARAMETRIC: &'static str = "OfxParamTypeParametric";
pub const PARAM_TYPE_PUSH_BUTTON: &'static str = "OfxParamTypePushButton";
pub const PARAM_TYPE_RGB: &'static str = "OfxParamTypeRGB";
pub const PARAM_TYPE_RGBA: &'static str = "OfxParamTypeRGBA";
pub const PARAM_TYPE_STRING: &'static str = "OfxParamTypeString";

pub const IMAGE_EFFECT_SUITE: &'static str = "OfxImageEffectSuite";
pub const PROPERTY_SUITE: &'static str = "OfxPropertySuite";
pub const PARAMETER_SUITE: &'static str = "OfxParameterSuite";
pub const MEMORY_SUITE: &'static str = "OfxMemorySuite";
pub const MULTI_THREAD_SUITE: &'static str = "OfxMultiThreadSuite";
pub const MESSAGE_SUITE: &'static str = "OfxMessageSuite";

pub const IMAGE_EFFECT_CONTEXT_FILTER: &'static str = "OfxImageEffectContextFilter";
pub const IMAGE_EFFECT_CONTEXT_GENERAL: &'static str = "OfxImageEffectContextGeneral";
pub const IMAGE_EFFECT_CONTEXT_GENERATOR: &'static str = "OfxImageEffectContextGenerator";
pub const IMAGE_EFFECT_CONTEXT_PAINT: &'static str = "OfxImageEffectContextPaint";
pub const IMAGE_EFFECT_CONTEXT_RETIMER: &'static str = "OfxImageEffectContextRetimer";
pub const IMAGE_EFFECT_CONTEXT_TRANSITION: &'static str = "OfxImageEffectContextTransition";

pub const IMAGE_EFFECT_PROP_SUPPORTED_CONTEXTS: &'static str = "OfxImageEffectPropSupportedContexts";
pub const IMAGE_EFFECT_PROP_SUPPORTED_PIXEL_DEPTHS: &'static str = "OfxImageEffectPropSupportedPixelDepths";
pub const BIT_DEPTH_FLOAT: &'static str = "OfxBitDepthFloat";
pub const IMAGE_EFFECT_PLUGIN_API: &'static str = "OfxImageEffectPluginAPI";

pub const IMAGE_PROP_BOUNDS: &'static str = "OfxImagePropBounds";
pub const IMAGE_PROP_DATA: &'static str = "OfxImagePropData";

pub const PLUGIN_PROP_FILE_PATH: &'static str = "OfxPluginPropFilePath";
pub const TYPE_IMAGE: &'static str = "OfxTypeImage";
pub const IMAGE_EFFECT_PROP_PIXEL_DEPTH: &'static str = "OfxImageEffectPropPixelDepth";
pub const IMAGE_EFFECT_PROP_COMPONENTS: &'static str = "OfxImageEffectPropComponents";
pub const IMAGE_EFFECT_PROP_PRE_MULTIPLICATION: &'static str = "OfxImageEffectPropPreMultiplication";
pub const IMAGE_EFFECT_PROP_RENDER_SCALE: &'static str = "OfxImageEffectPropRenderScale";
pub const IMAGE_EFFECT_PROP_FRAME_RATE: &'static str = "OfxImageEffectPropFrameRate";
pub const IMAGE_EFFECT_PROP_FRAME_RANGE: &'static str = "OfxImageEffectPropFrameRange";
pub const IMAGE_EFFECT_PROP_CONTEXT: &'static str = "OfxImageEffectPropContext";
pub const IMAGE_EFFECT_INSTANCE_PROP_EFFECT_DURATION: &'static str = "OfxImageEffectInstancePropEffectDuration";
pub const IMAGE_CLIP_PROP_CONNECTED: &'static str = "OfxImageClipPropConnected";
pub const IMAGE_PROP_PIXEL_ASPECT_RATIO: &'static str = "OfxImagePropPixelAspectRatio";
pub const IMAGE_PROP_REGION_OF_DEFINITION: &'static str = "OfxImagePropRegionOfDefinition";
pub const IMAGE_PROP_ROW_BYTES: &'static str = "OfxImagePropRowBytes";
pub const IMAGE_PROP_FIELD: &'static str = "OfxImagePropField";
pub const IMAGE_COMPONENT_RGBA: &'static str = "OfxImageComponentRGBA";
pub const IMAGE_PRE_MULTIPLIED: &'static str = "OfxImageAlphaPremultiplied";
pub const IMAGE_FIELD_NONE: &'static str = "OfxFieldNone";

pub const PROP_TIME: &'static str = "OfxPropTime";
pub const PROP_CHANGE_REASON: &'static str = "OfxPropChangeReason";
pub const CHANGE_USER_EDITED: &'static str = "OfxChangeUserEdited";
pub const TYPE_PARAMETER: &'static str = "OfxTypeParameter";
pub const IMAGE_EFFECT_PROP_FIELD_TO_RENDER: &'static str = "OfxImageEffectPropFieldToRender";
pub const IMAGE_EFFECT_PROP_RENDER_WINDOW: &'static str = "OfxImageEffectPropRenderWindow";
pub const IMAGE_EFFECT_PROP_SEQUENTIAL_RENDER_STATUS: &'static str = "OfxImageEffectPropSequentialRenderStatus";
pub const IMAGE_EFFECT_PROP_INTERACTIVE_RENDER_STATUS: &'static str = "OfxImageEffectPropInteractiveRenderStatus";
pub const IMAGE_EFFECT_PROP_RENDER_QUALITY_DRAFT: &'static str = "OfxImageEffectPropRenderQualityDraft";
pub const IMAGE_EFFECT_PROP_REGION_OF_INTEREST: &'static str = "OfxImageEffectPropRegionOfInterest";
pub const IMAGE_EFFECT_PROP_REGION_OF_DEFINITION: &'static str = "OfxImageEffectPropRegionOfDefinition";
pub const IMAGE_EFFECT_PROP_PROJECT_SIZE: &'static str = "OfxImageEffectPropProjectSize";
pub const IMAGE_EFFECT_PROP_PROJECT_OFFSET: &'static str = "OfxImageEffectPropProjectOffset";
pub const IMAGE_EFFECT_PROP_PROJECT_EXTENT: &'static str = "OfxImageEffectPropProjectExtent";
pub const IMAGE_CLIP_PROP_ROI_SOURCE: &'static str = "OfxImageClipPropRoI_Source";

pub const PROP_LABEL: &'static str = "OfxPropLabel";
pub const PROP_VERSION: &'static str = "OfxPropVersion";
pub const PROP_VERSION_LABEL: &'static str = "OfxPropVersionLabel";
pub const PROP_API_VERSION: &'static str = "OfxPropAPIVersion";
pub const IMAGE_EFFECT_HOST_PROP_IS_BACKGROUND: &'static str = "OfxImageEffectHostPropIsBackground";
pub const IMAGE_EFFECT_PROP_SUPPORTS_OVERLAYS: &'static str = "OfxImageEffectPropSupportsOverlays";
pub const IMAGE_EFFECT_PROP_SUPPORTS_MULTI_RESOLUTION: &'static str = "OfxImageEffectPropSupportsMultiResolution";
pub const IMAGE_EFFECT_PROP_SUPPORTS_TILES: &'static str = "OfxImageEffectPropSupportsTiles";
pub const IMAGE_EFFECT_PROP_TEMPORAL_CLIP_ACCESS: &'static str = "OfxImageEffectPropTemporalClipAccess";
pub const IMAGE_EFFECT_PROP_SUPPORTS_MULTIPLE_CLIP_DEPTHS: &'static str = "OfxImageEffectPropMultipleClipDepths";
pub const IMAGE_EFFECT_PROP_SUPPORTS_MULTIPLE_CLIP_PARS: &'static str = "OfxImageEffectPropMultipleClipPARs";
pub const IMAGE_EFFECT_PROP_SETABLE_FRAME_RATE: &'static str = "OfxImageEffectPropSetableFrameRate";
pub const IMAGE_EFFECT_PROP_SETABLE_FIELDING: &'static str = "OfxImageEffectPropSetableFielding";
pub const IMAGE_EFFECT_INSTANCE_PROP_SEQUENTIAL_RENDER: &'static str = "OfxImageEffectInstancePropSequentialRender";
pub const PARAM_HOST_PROP_SUPPORTS_STRING_ANIMATION: &'static str = "OfxParamHostPropSupportsStringAnimation";
pub const PARAM_HOST_PROP_SUPPORTS_CUSTOM_INTERACT: &'static str = "OfxParamHostPropSupportsCustomInteract";
pub const PARAM_HOST_PROP_SUPPORTS_CHOICE_ANIMATION: &'static str = "OfxParamHostPropSupportsChoiceAnimation";
pub const PARAM_HOST_PROP_SUPPORTS_STR_CHOICE_ANIMATION: &'static str = "OfxParamHostPropSupportsStrChoiceAnimation";
pub const PARAM_HOST_PROP_SUPPORTS_BOOLEAN_ANIMATION: &'static str = "OfxParamHostPropSupportsBooleanAnimation";
pub const PARAM_HOST_PROP_SUPPORTS_CUSTOM_ANIMATION: &'static str = "OfxParamHostPropSupportsCustomAnimation";
pub const PARAM_HOST_PROP_SUPPORTS_PARAMETRIC_ANIMATION: &'static str = "OfxParamHostPropSupportsParametricAnimation";
pub const IMAGE_EFFECT_PROP_OPENCL_RENDER_SUPPORTED: &'static str = "OfxImageEffectPropOpenCLRenderSupported";
pub const IMAGE_EFFECT_PROP_CUDA_RENDER_SUPPORTED: &'static str = "OfxImageEffectPropCudaRenderSupported";
pub const IMAGE_EFFECT_PROP_CUDA_STREAM_SUPPORTED: &'static str = "OfxImageEffectPropCudaStreamSupported";
pub const IMAGE_EFFECT_PROP_METAL_RENDER_SUPPORTED: &'static str = "OfxImageEffectPropMetalRenderSupported";
pub const PARAM_HOST_PROP_MAX_PARAMETERS: &'static str = "OfxParamHostPropMaxParameters";
pub const PARAM_HOST_PROP_MAX_PAGES: &'static str = "OfxParamHostPropMaxPages";
pub const PARAM_HOST_PROP_PAGE_ROW_COLUMN_COUNT: &'static str = "OfxParamHostPropPageRowColumnCount";
pub const IMAGE_EFFECT_PROP_SUPPORTED_COMPONENTS: &'static str = "OfxImageEffectPropSupportedComponents";

/// The host's name, as it reports it to plugins.
pub const HOST_NAME: &'static str = "openfx-driver";
/// The host's label, as it reports it to plugins.
pub const HOST_LABEL: &'static str = "OpenFX Driver";
/// The text some GPU extensions use for a false flag.
pub const FALSE_TEXT: &'static str = "false";

/// The bit pattern of the double 1.0.
pub const DOUBLE_ONE_BITS: u64 = 0x3FF0000000000000;
/// The bit pattern of the double 24.0.
pub const DOUBLE_24_BITS: u64 = 0x4038000000000000;
/// The bit pattern of the double 0.0.
pub const DOUBLE_ZERO_BITS: u64 = 0;

/// True when `s` holds no NUL byte, so that it can be a C string.
pub open spec fn nul_free(s: &str) -> bool {
    !s.spec_bytes().contains(0u8)
}

/// The context and pixel-depth names hold no NUL byte.
pub proof fn lemma_context_names_nul_free()
    ensures
        nul_free(IMAGE_EFFECT_CONTEXT_FILTER),
        nul_free(IMAGE_EFFECT_CONTEXT_GENERAL),
        nul_free(IMAGE_EFFECT_CONTEXT_GENERATOR),
        nul_free(IMAGE_EFFECT_CONTEXT_PAINT),
        nul_free(IMAGE_EFFECT_CONTEXT_RETIMER),
        nul_free(IMAGE_EFFECT_CONTEXT_TRANSITION),
        nul_free(BIT_DEPTH_FLOAT),
{
    reveal_strlit("OfxImageEffectContextFilter");
    vstd::string::is_ascii_spec_bytes(IMAGE_EFFECT_CONTEXT_FILTER);
    assert(vstd::string::is_ascii(IMAGE_EFFECT_CONTEXT_FILTER));
    reveal_strlit("OfxImageEffectContextGeneral");
    vstd::string::is_ascii_spec_bytes(IMAGE_EFFECT_CONTEXT_GENERAL);
    assert(vstd::string::is_ascii(IMAGE_EFFECT_CONTEXT_GENERAL));
    reveal_strlit("OfxImageEffectContextGenerator");
    vstd::string::is_ascii_spec_bytes(IMAGE_EFFECT_CONTEXT_GENERATOR);
    assert(vstd::string::is_ascii(IMAGE_EFFECT_CONTEXT_GENERATOR));
    reveal_strlit("OfxImageEffectContextPaint");
    vstd::string::is_ascii_spec_bytes(IMAGE_EFFECT_CONTEXT_PAINT);
    assert(vstd::string::is_ascii(IMAGE_EFFECT_CONTEXT_PAINT));
    reveal_strlit("OfxImageEffectContextRetimer");
    vstd::string::is_ascii_spec_bytes(IMAGE_EFFECT_CONTEXT_RETIMER);
    assert(vstd::string::is_ascii(IMAGE_EFFECT_CONTEXT_RETIMER));
    reveal_strlit("OfxImageEffectContextTransition");
    vstd::string::is_ascii_spec_bytes(IMAGE_EFFECT_CONTEXT_TRANSITION);
    assert(vstd::string::is_ascii(IMAGE_EFFECT_CONTEXT_TRANSITION));
    reveal_strlit("OfxBitDepthFloat");
    vstd::string::is_ascii_spec_bytes(BIT_DEPTH_FLOAT);
    assert(vstd::string::is_ascii(BIT_DEPTH_FLOAT));
}

/// The names stored as values in standard property sets hold no NUL byte.
pub proof fn lemma_value_names_nul_free()
    ensures
        nul_free(TYPE_IMAGE),
        nul_free(IMAGE_COMPONENT_RGBA),
        nul_free(IMAGE_PRE_MULTIPLIED),
        nul_free(IMAGE_FIELD_NONE),
        nul_free(BIT_DEPTH_FLOAT),
{
    reveal_strlit("OfxTypeImage");
    vstd::string::is_ascii_spec_bytes(TYPE_IMAGE);
    assert(vstd::string::is_ascii(TYPE_IMAGE));
    reveal_strlit("OfxImageComponentRGBA");
    vstd::string::is_ascii_spec_bytes(IMAGE_COMPONENT_RGBA);
    assert(vstd::string::is_ascii(IMAGE_COMPONENT_RGBA));
    reveal_strlit("OfxImageAlphaPremultiplied");
    vstd::string::is_ascii_spec_bytes(IMAGE_PRE_MULTIPLIED);
    assert(vstd::string::is_ascii(IMAGE_PRE_MULTIPLIED));
    reveal_strlit("OfxFieldNone");
    vstd::string::is_ascii_spec_bytes(IMAGE_FIELD_NONE);
    assert(vstd::string::is_ascii(IMAGE_FIELD_NONE));
    reveal_strlit("OfxBitDepthFloat");
    vstd::string::is_ascii_spec_bytes(BIT_DEPTH_FLOAT);
    assert(vstd::string::is_ascii(BIT_DEPTH_FLOAT));
}

/// The names the action arguments hold as values have no NUL byte.
pub proof fn lemma_argument_names_nul_free()
    ensures
        nul_free(IMAGE_FIELD_NONE),
        nul_free(CHANGE_USER_EDITED),
        nul_free(TYPE_PARAMETER),
{
    reveal_strlit("OfxFieldNone");
    vstd::string::is_ascii_spec_bytes(IMAGE_FIELD_NONE);
    assert(vstd::string::is_ascii(IMAGE_FIELD_NONE));
    reveal_strlit("OfxChangeUserEdited");
    vstd::string::is_ascii_spec_bytes(CHANGE_USER_EDITED);
    assert(vstd::string::is_ascii(CHANGE_USER_EDITED));
    reveal_strlit("OfxTypeParameter");
    vstd::string::is_ascii_spec_bytes(TYPE_PARAMETER);
    assert(vstd::string::is_ascii(TYPE_PARAMETER));
}

/// The texts the host reports about itself hold no NUL byte.
pub proof fn lemma_host_names_nul_free()
    ensures
        nul_free(HOST_NAME),
        nul_free(HOST_LABEL),
        nul_free(FALSE_TEXT),
        nul_free(IMAGE_COMPONENT_RGBA),
        nul_free(IMAGE_EFFECT_CONTEXT_FILTER),
        nul_free(BIT_DEPTH_FLOAT),
{
    reveal_strlit("openfx-driver");
    vstd::string::is_ascii_spec_bytes(HOST_NAME);
    assert(vstd::string::is_ascii(HOST_NAME));
    reveal_strlit("OpenFX Driver");
    vstd::string::is_ascii_spec_bytes(HOST_LABEL);
    assert(vstd::string::is_ascii(HOST_LABEL));
    reveal_strlit("false");
    vstd::string::is_ascii_spec_bytes(FALSE_TEXT);
    assert(vstd::string::is_ascii(FALSE_TEXT));
    lemma_value_names_nul_free();
    lemma_context_names_nul_free();
}

} // verus!
