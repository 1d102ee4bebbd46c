//! Simplified/Traditional Chinese conversion with OpenCC.

use vstd::prelude::*;

use crate::text::str_eq;
use ferrous_opencc::error::OpenCCError;
use ferrous_opencc::OpenCC;

verus! {

/// `ferrous_opencc::OpenCC`, a loaded converter, carried through opaquely.
#[verifier::external_type_specification]
#[verifier::external_body]
pub struct ExOpenCC(OpenCC);

/// `ferrous_opencc::error::OpenCCError`, carried through opaquely.
#[verifier::external_type_specification]
#[verifier::external_body]
pub struct ExOpenCCError(OpenCCError);

/// The conversion applied to recognised text.
#[derive(Debug, Clone, Copy, PartialEq, Eq, Structural)]
pub enum ConversionMode {
    /// Simplified to Traditional, Taiwan standard with Taiwanese phrasing.
    ZhTW,
    /// Simplified to Traditional, Hong Kong standard.
    ZhHK,
    /// Traditional (Taiwan) to Simplified with mainland phrasing.
    ZhCN,
    /// No conversion.
    Raw,
}

impl Default for ConversionMode {
    fn default() -> (r: Self)
        ensures
            r == ConversionMode::ZhTW,
    {
        ConversionMode::ZhTW
    }
}

/// The built-in OpenCC configurations the modes use.
#[derive(Debug, Clone, Copy, PartialEq, Eq, Structural)]
pub enum OpenCCProfile {
    /// `s2twp`: Simplified to Traditional (Taiwan) with phrases.
    S2twp,
    /// `s2hk`: Simplified to Traditional (Hong Kong).
    S2hk,
    /// `tw2sp`: Traditional (Taiwan) to Simplified with phrases.
    Tw2sp,
}


/// A converter loaded from a built-in OpenCC configuration, together with
/// the profile it was loaded from. Only [`load_builtin`] builds one.
pub struct LoadedConverter {
    profile: OpenCCProfile,
    inner: OpenCC,
}

impl View for LoadedConverter {
    type V = OpenCCProfile;

    /// The profile the converter was loaded from.
    closed spec fn view(&self) -> OpenCCProfile {
        self.profile
    }
}

/// `OpenCC::convert` of a converter loaded from the built-in configuration
/// `profile`: the text run through that configuration's dictionaries.
pub uninterp spec fn opencc_converted(profile: OpenCCProfile, text: Seq<char>) -> Seq<char>;

/// Whether `OpenCC::from_config` loads the built-in configuration `profile`
/// (its embedded configuration and dictionaries parse).
pub uninterp spec fn opencc_loads(profile: OpenCCProfile) -> bool;

/// `OpenCC::from_config` (ferrous-opencc) on the built-in configuration of
/// `profile`. It succeeds exactly when `opencc_loads(profile)`, which depends
/// on the embedded configuration alone; a converter that loads remembers
/// `profile`.
#[verifier::external_body]
fn load_builtin(profile: OpenCCProfile) -> (r: Result<LoadedConverter, OpenCCError>)
    ensures
        r is Ok <==> opencc_loads(profile),
        r matches Ok(c) ==> c@ == profile,
{
    let config = match profile {
        OpenCCProfile::S2twp => ferrous_opencc::config::BuiltinConfig::S2twp,
        OpenCCProfile::S2hk => ferrous_opencc::config::BuiltinConfig::S2hk,
        OpenCCProfile::Tw2sp => ferrous_opencc::config::BuiltinConfig::Tw2sp,
    };
    match OpenCC::from_config(config) {
        Ok(inner) => Ok(LoadedConverter { profile, inner }),
        Err(e) => Err(e),
    }
}

/// `OpenCC::convert` (ferrous-opencc): the text converted by the built-in
/// configuration the converter was loaded from, named `opencc_converted`;
/// the dictionaries themselves are not restated.
#[verifier::external_body]
fn convert_with(converter: &LoadedConverter, text: &str) -> (r: String)
    ensures
        r@ == opencc_converted(converter@, text@),
{
    converter.inner.convert(text)
}

/// The built-in configuration a mode converts with; none for raw output.
pub open spec fn profile_of(mode: ConversionMode) -> Option<OpenCCProfile> {
    match mode {
        ConversionMode::ZhTW => Some(OpenCCProfile::S2twp),
        ConversionMode::ZhHK => Some(OpenCCProfile::S2hk),
        ConversionMode::ZhCN => Some(OpenCCProfile::Tw2sp),
        ConversionMode::Raw => None,
    }
}

/// Whether a mode's configuration loads (raw output needs none).
pub open spec fn mode_loads(mode: ConversionMode) -> bool {
    match profile_of(mode) {
        Some(p) => opencc_loads(p),
        None => true,
    }
}

/// The configuration a processor for `mode` converts with once set up: the
/// mode's own when it loads, none otherwise.
pub open spec fn effective_profile(mode: ConversionMode) -> Option<OpenCCProfile> {
    if mode_loads(mode) {
        profile_of(mode)
    } else {
        None
    }
}

/// `text` converted with the configuration `profile`, or unchanged without one.
pub open spec fn converted_with(profile: Option<OpenCCProfile>, text: Seq<char>) -> Seq<char> {
    match profile {
        Some(p) => opencc_converted(p, text),
        None => text,
    }
}

/// Converts text between Chinese scripts; without a converter it copies.
pub struct OpenCCProcessor {
    pub converter: Option<LoadedConverter>,
}

/// Errors of the Chinese conversion.
#[derive(Debug)]
pub enum ConversionError {
    /// The OpenCC configuration could not be loaded.
    Load(OpenCCError),
}

fn converter_for_mode(mode: ConversionMode) -> (r: Result<Option<LoadedConverter>, ConversionError>)
    ensures
        r is Ok <==> mode_loads(mode),
        r matches Ok(c) ==> profile_of_converter(c) == profile_of(mode),
{
    let profile = match mode {
        ConversionMode::Raw => {
            return Ok(None);
        },
        ConversionMode::ZhTW => OpenCCProfile::S2twp,
        ConversionMode::ZhHK => OpenCCProfile::S2hk,
        ConversionMode::ZhCN => OpenCCProfile::Tw2sp,
    };
    match load_builtin(profile) {
        Ok(c) => Ok(Some(c)),
        Err(e) => Err(ConversionError::Load(e)),
    }
}

/// The configuration an optional converter was loaded from.
pub open spec fn profile_of_converter(c: Option<LoadedConverter>) -> Option<OpenCCProfile> {
    match c {
        Some(conv) => Some(conv@),
        None => None,
    }
}

impl OpenCCProcessor {
    /// The configuration the processor converts with; none when it copies.
    pub open spec fn profile(&self) -> Option<OpenCCProfile> {
        profile_of_converter(self.converter)
    }

    /// A processor for `mode`; fails exactly when OpenCC cannot load the
    /// mode's configuration.
    pub fn new(mode: ConversionMode) -> (r: Result<Self, ConversionError>)
        ensures
            r is Ok <==> mode_loads(mode),
            mode == ConversionMode::Raw ==> r is Ok,
            r matches Ok(p) ==> p.profile() == profile_of(mode),
    {
        match converter_for_mode(mode) {
            Ok(converter) => Ok(OpenCCProcessor { converter }),
            Err(e) => Err(e),
        }
    }

    /// `text` converted by the processor's configuration; unchanged without one.
    pub fn convert(&self, text: &str) -> (r: String)
        ensures
            r@ == converted_with(self.profile(), text@),
    {
        match &self.converter {
            Some(converter) => convert_with(converter, text),
            None => text.to_owned(),
        }
    }

    /// Switches to `mode`; when its configuration cannot be loaded the
    /// processor stops converting.
    pub fn set_mode(&mut self, mode: ConversionMode)
        ensures
            final(self).profile() == effective_profile(mode),
    {
        self.converter = match converter_for_mode(mode) {
            Ok(c) => c,
            Err(_) => None,
        };
    }
}

/// The mode named by a settings string: `"zh-HK"`, `"zh-CN"`, `"raw"`, and
/// Taiwan for anything else.
pub open spec fn mode_named(s: Seq<char>) -> ConversionMode {
    if s == "zh-HK"@ {
        ConversionMode::ZhHK
    } else if s == "zh-CN"@ {
        ConversionMode::ZhCN
    } else if s == "raw"@ {
        ConversionMode::Raw
    } else {
        ConversionMode::ZhTW
    }
}

/// Executable [`mode_named`].
pub fn conversion_mode_from_str(mode: &str) -> (r: ConversionMode)
    ensures
        r == mode_named(mode@),
{
    if str_eq(mode, "zh-HK") {
        ConversionMode::ZhHK
    } else if str_eq(mode, "zh-CN") {
        ConversionMode::ZhCN
    } else if str_eq(mode, "raw") {
        ConversionMode::Raw
    } else {
        ConversionMode::ZhTW
    }
}

/// `text` as delivered after the script conversion step: converted per the
/// named mode when conversion is enabled and its configuration loads, the
/// text itself otherwise.
pub open spec fn chinese_text_of(text: Seq<char>, opencc_enabled: bool, conversion_mode: Seq<char>) -> Seq<char> {
    if opencc_enabled {
        converted_with(effective_profile(mode_named(conversion_mode)), text)
    } else {
        text
    }
}

/// `text` converted per the named mode when conversion is enabled; the text
/// itself when it is disabled, the mode is raw, or OpenCC cannot load.
pub fn convert_chinese_text(text: &str, opencc_enabled: bool, conversion_mode: &str) -> (r: String)
    ensures
        r@ == chinese_text_of(text@, opencc_enabled, conversion_mode@),
        !opencc_enabled ==> r@ == text@,
        mode_named(conversion_mode@) == ConversionMode::Raw ==> r@ == text@,
{
    if !opencc_enabled {
        return text.to_owned();
    }
    let mode = conversion_mode_from_str(conversion_mode);
    match OpenCCProcessor::new(mode) {
        Ok(processor) => processor.convert(text),
        Err(_) => text.to_owned(),
    }
}

} // verus!
