//! Context templates: prompts and post-processing presets per scenario.

pub mod custom;
pub mod detector;
pub mod templates;

pub use custom::CustomTemplateStore;
pub use detector::ContextDetector;
pub use templates::{ContextTemplate, TemplateRegistry};

use vstd::prelude::*;
use vstd::std_specs::cmp::PartialEqSpecImpl;

verus! {

/// The scenario a template is for.
#[derive(Debug, Hash)]
pub enum TemplateId {
    Meeting,
    Casual,
    Technical,
    Medical,
    Legal,
    Custom(String),
}

/// Two template ids name the same template.
pub open spec fn same_template(a: TemplateId, b: TemplateId) -> bool {
    match (a, b) {
        (TemplateId::Meeting, TemplateId::Meeting) => true,
        (TemplateId::Casual, TemplateId::Casual) => true,
        (TemplateId::Technical, TemplateId::Technical) => true,
        (TemplateId::Medical, TemplateId::Medical) => true,
        (TemplateId::Legal, TemplateId::Legal) => true,
        (TemplateId::Custom(x), TemplateId::Custom(y)) => x@ == y@,
        _ => false,
    }
}

impl PartialEq for TemplateId {
    fn eq(&self, other: &Self) -> (r: bool) {
        match (self, other) {
            (TemplateId::Meeting, TemplateId::Meeting) => true,
            (TemplateId::Casual, TemplateId::Casual) => true,
            (TemplateId::Technical, TemplateId::Technical) => true,
            (TemplateId::Medical, TemplateId::Medical) => true,
            (TemplateId::Legal, TemplateId::Legal) => true,
            (TemplateId::Custom(x), TemplateId::Custom(y)) => crate::text::str_eq(x.as_str(), y.as_str()),
            _ => false,
        }
    }
}

impl PartialEqSpecImpl for TemplateId {
    open spec fn obeys_eq_spec() -> bool {
        true
    }

    open spec fn eq_spec(&self, other: &TemplateId) -> bool {
        same_template(*self, *other)
    }
}

impl Eq for TemplateId {}

impl Clone for TemplateId {
    fn clone(&self) -> (r: Self)
        ensures
            r == *self,
    {
        match self {
            TemplateId::Meeting => TemplateId::Meeting,
            TemplateId::Casual => TemplateId::Casual,
            TemplateId::Technical => TemplateId::Technical,
            TemplateId::Medical => TemplateId::Medical,
            TemplateId::Legal => TemplateId::Legal,
            TemplateId::Custom(name) => TemplateId::Custom(name.clone()),
        }
    }
}

/// The name shown for a template; a custom template shows its own name.
pub open spec fn display_name_of(id: TemplateId) -> Seq<char> {
    match id {
        TemplateId::Meeting => "會議記錄"@,
        TemplateId::Casual => "口語對話"@,
        TemplateId::Technical => "技術討論"@,
        TemplateId::Medical => "醫療紀錄"@,
        TemplateId::Legal => "法律文書"@,
        TemplateId::Custom(name) => name@,
    }
}

/// The icon shown for a template.
pub open spec fn icon_of(id: TemplateId) -> Seq<char> {
    match id {
        TemplateId::Meeting => "🏢"@,
        TemplateId::Casual => "💬"@,
        TemplateId::Technical => "💻"@,
        TemplateId::Medical => "🏥"@,
        TemplateId::Legal => "\u{2696}\u{fe0f}"@,
        TemplateId::Custom(_) => "📝"@,
    }
}

impl TemplateId {
    /// The name shown for the template.
    pub fn display_name(&self) -> (r: &str)
        ensures
            r@ == display_name_of(*self),
    {
        match self {
            TemplateId::Meeting => "會議記錄",
            TemplateId::Casual => "口語對話",
            TemplateId::Technical => "技術討論",
            TemplateId::Medical => "醫療紀錄",
            TemplateId::Legal => "法律文書",
            TemplateId::Custom(name) => name.as_str(),
        }
    }

    /// The icon shown for the template.
    pub fn icon(&self) -> (r: &str)
        ensures
            r@ == icon_of(*self),
    {
        match self {
            TemplateId::Meeting => "🏢",
            TemplateId::Casual => "💬",
            TemplateId::Technical => "💻",
            TemplateId::Medical => "🏥",
            TemplateId::Legal => "\u{2696}\u{fe0f}",
            TemplateId::Custom(_) => "📝",
        }
    }
}

} // verus!
