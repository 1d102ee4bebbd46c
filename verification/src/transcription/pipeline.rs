//! From a recognition result to delivered text.

use vstd::prelude::*;

use super::opencc::{converted_with, effective_profile, mode_loads, profile_of, ConversionError, ConversionMode, OpenCCProcessor};
use super::postprocess::{processed_with, PostProcessSettings, PostProcessor};
use super::ProcessedText;
use crate::context_templates::templates::{builtin_templates, default_fillers, TemplateRegistry};
use crate::context_templates::{display_name_of, TemplateId};
use crate::whisper::TranscriptResult;

verus! {

/// Whether some built-in template is registered under the display name of `id`.
pub open spec fn has_builtin_named(id: TemplateId) -> bool {
    exists|i: int| 0 <= i < 5 && display_name_of(#[trigger] builtin_templates()[i].id) == display_name_of(id)
}

/// The punctuation switch and fillers used for the template named like `id`;
/// the default settings when there is none.
pub open spec fn cleanup_for(id: TemplateId) -> (bool, Seq<Seq<char>>) {
    if has_builtin_named(id) {
        let t = builtin_templates()[choose|i: int|
            0 <= i < 5 && display_name_of(#[trigger] builtin_templates()[i].id) == display_name_of(id)];
        (t.add_punctuation, t.fillers)
    } else {
        (true, default_fillers())
    }
}

/// Post-processing by template, then script conversion.
pub struct TranscriptionPipeline {
    pub opencc: OpenCCProcessor,
    pub template_registry: TemplateRegistry,
}

impl TranscriptionPipeline {
    /// A pipeline converting to `conversion_mode` with the templates of
    /// `template_registry`; fails only when OpenCC cannot load the mode.
    pub fn new(conversion_mode: ConversionMode, template_registry: TemplateRegistry) -> (r: Result<
        Self,
        ConversionError,
    >)
        ensures
            r is Ok <==> mode_loads(conversion_mode),
            conversion_mode == ConversionMode::Raw ==> r is Ok,
            r matches Ok(p) ==> p.opencc.profile() == profile_of(conversion_mode)
                && p.template_registry == template_registry,
    {
        match OpenCCProcessor::new(conversion_mode) {
            Ok(opencc) => Ok(TranscriptionPipeline { opencc, template_registry }),
            Err(e) => Err(e),
        }
    }

    /// Converts the script of `result.text`, then cleans it with the
    /// settings of the template registered under the name of `template_id`
    /// (the defaults when there is none). The raw text and language are kept.
    pub fn process(&self, result: TranscriptResult, template_id: &TemplateId) -> (r: ProcessedText)
        ensures
            r.raw_text == result.text,
            r.language == result.language,
            r.text@ == processed_with(
                cleanup_for(*template_id).0,
                cleanup_for(*template_id).1,
                converted_with(self.opencc.profile(), result.text@),
            ),
    {
        let template = self.template_registry.get(template_id);
        let post_settings = match template {
            Some(t) => t.postprocess.clone(),
            None => PostProcessSettings::default(),
        };
        proof {
            if let Some(t) = template {
                let i = choose|i: int|
                    0 <= i < self.template_registry@.len() && crate::context_templates::templates::template_view(*t)
                        == #[trigger] self.template_registry@[i] && display_name_of(self.template_registry@[i].id)
                        == display_name_of(*template_id);
                assert(display_name_of(builtin_templates()[i].id) == display_name_of(*template_id));
                let j = choose|j: int|
                    0 <= j < 5 && display_name_of(#[trigger] builtin_templates()[j].id) == display_name_of(*template_id);
                if i != j {
                    crate::context_templates::templates::lemma_builtin_names_distinct(i, j);
                }
            } else {
                if has_builtin_named(*template_id) {
                    let j = choose|j: int|
                        0 <= j < 5 && display_name_of(#[trigger] builtin_templates()[j].id) == display_name_of(*template_id);
                    assert(display_name_of(self.template_registry@[j].id) == display_name_of(*template_id));
                }
            }
        }
        let converted = self.opencc.convert(result.text.as_str());
        let proc = PostProcessor::new(post_settings);
        let final_text = proc.process(converted.as_str());
        ProcessedText { text: final_text, raw_text: result.text, language: result.language }
    }

    /// Switches the script conversion; the templates stay.
    pub fn set_conversion_mode(&mut self, mode: ConversionMode)
        ensures
            final(self).opencc.profile() == effective_profile(mode),
            final(self).template_registry == old(self).template_registry,
    {
        self.opencc.set_mode(mode);
    }
}

} // verus!
