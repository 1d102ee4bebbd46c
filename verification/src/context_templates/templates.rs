//! Template data: the five built-in scenario templates and their registry.

use vstd::prelude::*;
use vstd::string::StringExecFns;

use super::{display_name_of, TemplateId};
use crate::text::str_eq;
use crate::whisper::params::WhisperParams;

verus! {

/// How a transcript is cleaned up after recognition.
pub struct PostProcessSettings {
    pub add_punctuation: bool,
    pub formal_style: bool,
    pub remove_fillers: Vec<String>,
    pub preserve_english_terms: bool,
}

/// The filler words as character sequences.
pub open spec fn fillers_view(v: Seq<String>) -> Seq<Seq<char>> {
    v.map_values(|f: String| f@)
}

impl Default for PostProcessSettings {
    fn default() -> (r: Self)
        ensures
            r.add_punctuation,
            !r.formal_style,
            !r.preserve_english_terms,
            fillers_view(r.remove_fillers@) == seq!["嗯"@, "啊"@, "那個"@, "就是說"@],
    {
        let r = PostProcessSettings {
            add_punctuation: true,
            formal_style: false,
            remove_fillers: vec![
                String::from_str("嗯"),
                String::from_str("啊"),
                String::from_str("那個"),
                String::from_str("就是說"),
            ],
            preserve_english_terms: false,
        };
        assert(fillers_view(r.remove_fillers@) =~= seq!["嗯"@, "啊"@, "那個"@, "就是說"@]);
        r
    }
}

impl Clone for PostProcessSettings {
    fn clone(&self) -> (r: Self)
        ensures
            r.add_punctuation == self.add_punctuation,
            r.formal_style == self.formal_style,
            r.preserve_english_terms == self.preserve_english_terms,
            fillers_view(r.remove_fillers@) == fillers_view(self.remove_fillers@),
    {
        let mut fillers: Vec<String> = Vec::new();
        let mut i: usize = 0;
        while i < self.remove_fillers.len()
            invariant
                i <= self.remove_fillers.len(),
                fillers@.len() == i,
                forall|k: int| 0 <= k < i ==> #[trigger] fillers@[k]@ == self.remove_fillers@[k]@,
            decreases self.remove_fillers.len() - i,
        {
            fillers.push(self.remove_fillers[i].clone());
            i = i + 1;
        }
        assert(fillers_view(fillers@) =~= fillers_view(self.remove_fillers@));
        PostProcessSettings {
            add_punctuation: self.add_punctuation,
            formal_style: self.formal_style,
            remove_fillers: fillers,
            preserve_english_terms: self.preserve_english_terms,
        }
    }
}

/// A scenario template: the recognition prompt and overrides it brings, how
/// its transcripts are cleaned up, and the keywords that suggest it.
pub struct ContextTemplate {
    pub id: TemplateId,
    pub initial_prompt: String,
    pub language_override: Option<String>,
    /// Decoding temperature override, in thousandths.
    pub temperature_override_milli: Option<i32>,
    pub postprocess: PostProcessSettings,
    pub keywords: Vec<String>,
}

/// A template's contents as plain values.
pub struct TemplateSpec {
    pub id: TemplateId,
    pub prompt: Seq<char>,
    pub language: Option<Seq<char>>,
    pub temperature_milli: Option<i32>,
    pub add_punctuation: bool,
    pub formal_style: bool,
    pub fillers: Seq<Seq<char>>,
    pub preserve_english_terms: bool,
    pub keywords: Seq<Seq<char>>,
}

/// An optional string as an optional character sequence.
pub open spec fn opt_view(o: Option<String>) -> Option<Seq<char>> {
    match o {
        Some(s) => Some(s@),
        None => None,
    }
}

/// The contents of `t`.
pub open spec fn template_view(t: ContextTemplate) -> TemplateSpec {
    TemplateSpec {
        id: t.id,
        prompt: t.initial_prompt@,
        language: opt_view(t.language_override),
        temperature_milli: t.temperature_override_milli,
        add_punctuation: t.postprocess.add_punctuation,
        formal_style: t.postprocess.formal_style,
        fillers: fillers_view(t.postprocess.remove_fillers@),
        preserve_english_terms: t.postprocess.preserve_english_terms,
        keywords: t.keywords@.map_values(|k: String| k@),
    }
}

/// What applying a template does to recognition parameters: a non-empty
/// prompt replaces the prompt, and the language and temperature overrides
/// replace their parameters; everything else stays.
pub open spec fn applied(t: TemplateSpec, p: WhisperParams, q: WhisperParams) -> bool {
    &&& opt_view(q.initial_prompt) == (if t.prompt.len() > 0 {
        Some(t.prompt)
    } else {
        opt_view(p.initial_prompt)
    })
    &&& opt_view(q.language) == (match t.language {
        Some(l) => Some(l),
        None => opt_view(p.language),
    })
    &&& q.temperature_milli == (match t.temperature_milli {
        Some(v) => v,
        None => p.temperature_milli,
    })
    &&& q.same_except_prompt_language_temperature(p)
}

fn clone_string(s: &String) -> (r: String)
    ensures
        r@ == s@,
{
    s.clone()
}

fn clone_strings(v: &Vec<String>) -> (r: Vec<String>)
    ensures
        r@.map_values(|k: String| k@) == v@.map_values(|k: String| k@),
{
    let mut out: Vec<String> = Vec::new();
    let mut i: usize = 0;
    while i < v.len()
        invariant
            i <= v.len(),
            out@.len() == i,
            forall|k: int| 0 <= k < i ==> #[trigger] out@[k]@ == v@[k]@,
        decreases v.len() - i,
    {
        out.push(clone_string(&v[i]));
        i = i + 1;
    }
    assert(out@.map_values(|k: String| k@) =~= v@.map_values(|k: String| k@));
    out
}

impl Clone for ContextTemplate {
    fn clone(&self) -> (r: Self)
        ensures
            template_view(r) == template_view(*self),
    {
        let language_override = match &self.language_override {
            Some(l) => Some(clone_string(l)),
            None => None,
        };
        ContextTemplate {
            id: self.id.clone(),
            initial_prompt: clone_string(&self.initial_prompt),
            language_override,
            temperature_override_milli: self.temperature_override_milli,
            postprocess: self.postprocess.clone(),
            keywords: clone_strings(&self.keywords),
        }
    }
}

impl ContextTemplate {
    /// Puts the template's prompt, language and temperature into `params`.
    pub fn apply_to_params(&self, params: &mut WhisperParams)
        ensures
            applied(template_view(*self), *old(params), *final(params)),
    {
        let ghost p0 = *params;
        if !self.initial_prompt.as_str().is_empty() {
            params.initial_prompt = Some(clone_string(&self.initial_prompt));
        }
        if let Some(lang) = &self.language_override {
            params.language = Some(clone_string(lang));
        }
        if let Some(temp) = self.temperature_override_milli {
            params.temperature_milli = temp;
        }
    }
}

/// The keywords of the meeting template.
pub open spec fn meeting_keywords() -> Seq<Seq<char>> {
    seq!["議程"@, "會議"@, "決議"@, "報告"@, "預算"@, "季度"@, "目標"@]
}

/// The keywords of the technical template.
pub open spec fn technical_keywords() -> Seq<Seq<char>> {
    seq!["程式"@, "函式"@, "API"@, "bug"@, "資料庫"@, "伺服器"@, "版本"@, "部署"@]
}

/// The keywords of the medical template.
pub open spec fn medical_keywords() -> Seq<Seq<char>> {
    seq!["症狀"@, "診斷"@, "治療"@, "藥物"@, "手術"@, "檢查"@, "病患"@, "醫師"@]
}

/// The keywords of the legal template.
pub open spec fn legal_keywords() -> Seq<Seq<char>> {
    seq!["合約"@, "條款"@, "法律"@, "訴訟"@, "判決"@, "法院"@, "律師"@, "被告"@]
}

/// The default filler list.
pub open spec fn default_fillers() -> Seq<Seq<char>> {
    seq!["嗯"@, "啊"@, "那個"@, "就是說"@]
}

/// The built-in templates, in the order meeting, casual, technical,
/// medical, legal.
pub open spec fn builtin_templates() -> Seq<TemplateSpec> {
    seq![
        TemplateSpec {
            id: TemplateId::Meeting,
            prompt: "這是一段商業會議的記錄，包含專業術語、人名和公司名稱。請準確轉錄所有內容。"@,
            language: Some("zh"@),
            temperature_milli: Some(0),
            add_punctuation: true,
            formal_style: true,
            fillers: default_fillers(),
            preserve_english_terms: false,
            keywords: meeting_keywords(),
        },
        TemplateSpec {
            id: TemplateId::Casual,
            prompt: "這是一段日常對話。"@,
            language: Some("zh"@),
            temperature_milli: Some(200),
            add_punctuation: true,
            formal_style: false,
            fillers: default_fillers(),
            preserve_english_terms: false,
            keywords: Seq::<Seq<char>>::empty(),
        },
        TemplateSpec {
            id: TemplateId::Technical,
            prompt: "This is a technical discussion about software engineering, including programming terms, API names, and technical concepts. 程式碼、函式名稱、技術術語請保留英文原文。"@,
            language: Some("zh"@),
            temperature_milli: Some(0),
            add_punctuation: true,
            formal_style: false,
            fillers: default_fillers(),
            preserve_english_terms: true,
            keywords: technical_keywords(),
        },
        TemplateSpec {
            id: TemplateId::Medical,
            prompt: "這是醫療診療的對話，包含醫學術語、藥品名稱和診斷名稱。"@,
            language: Some("zh"@),
            temperature_milli: Some(0),
            add_punctuation: true,
            formal_style: true,
            fillers: default_fillers(),
            preserve_english_terms: false,
            keywords: medical_keywords(),
        },
        TemplateSpec {
            id: TemplateId::Legal,
            prompt: "這是法律相關的對話，包含法律術語和條文引用。"@,
            language: Some("zh"@),
            temperature_milli: Some(0),
            add_punctuation: true,
            formal_style: true,
            fillers: default_fillers(),
            preserve_english_terms: false,
            keywords: legal_keywords(),
        },
    ]
}

/// The built-in templates, looked up by their display name.
pub struct TemplateRegistry {
    templates: Vec<ContextTemplate>,
}

fn strings(items: &[&str]) -> (r: Vec<String>)
    ensures
        r@.map_values(|k: String| k@) == items@.map_values(|k: &str| k@),
{
    let mut out: Vec<String> = Vec::new();
    let mut i: usize = 0;
    while i < items.len()
        invariant
            i <= items.len(),
            out@.len() == i,
            forall|k: int| 0 <= k < i ==> #[trigger] out@[k]@ == items@[k]@,
        decreases items.len() - i,
    {
        out.push(String::from_str(items[i]));
        i = i + 1;
    }
    assert(out@.map_values(|k: String| k@) =~= items@.map_values(|k: &str| k@));
    out
}

impl TemplateRegistry {
    #[verifier::type_invariant]
    spec fn well_formed(self) -> bool {
        self.templates@.map_values(|t: ContextTemplate| template_view(t)) == builtin_templates()
    }

    /// The registered templates, in registration order.
    pub closed spec fn view(&self) -> Seq<TemplateSpec> {
        self.templates@.map_values(|t: ContextTemplate| template_view(t))
    }

    /// A registry holding the five built-in templates.
    pub fn new() -> (r: Self)
        ensures
            r@ == builtin_templates(),
    {
        let mut templates: Vec<ContextTemplate> = Vec::new();
        templates.push(Self::meeting_template());
        templates.push(Self::casual_template());
        templates.push(Self::technical_template());
        templates.push(Self::medical_template());
        templates.push(Self::legal_template());
        assert(templates@.map_values(|t: ContextTemplate| template_view(t)) =~= builtin_templates());
        TemplateRegistry { templates }
    }

    fn meeting_template() -> (r: ContextTemplate)
        ensures
            template_view(r) == builtin_templates()[0],
    {
        let fillers = strings(&["嗯", "啊", "那個", "就是說"]);
        let keywords = strings(&["議程", "會議", "決議", "報告", "預算", "季度", "目標"]);
        let r = ContextTemplate {
            id: TemplateId::Meeting,
            initial_prompt: String::from_str(
                "這是一段商業會議的記錄，包含專業術語、人名和公司名稱。請準確轉錄所有內容。",
            ),
            language_override: Some(String::from_str("zh")),
            temperature_override_milli: Some(0),
            postprocess: PostProcessSettings {
                add_punctuation: true,
                formal_style: true,
                remove_fillers: fillers,
                preserve_english_terms: false,
            },
            keywords,
        };
        assert(fillers_view(r.postprocess.remove_fillers@) =~= default_fillers());
        assert(r.keywords@.map_values(|k: String| k@) =~= meeting_keywords());
        r
    }

    fn casual_template() -> (r: ContextTemplate)
        ensures
            template_view(r) == builtin_templates()[1],
    {
        let r = ContextTemplate {
            id: TemplateId::Casual,
            initial_prompt: String::from_str("這是一段日常對話。"),
            language_override: Some(String::from_str("zh")),
            temperature_override_milli: Some(200),
            postprocess: PostProcessSettings::default(),
            keywords: Vec::new(),
        };
        assert(r.keywords@.map_values(|k: String| k@) =~= Seq::<Seq<char>>::empty());
        r
    }

    fn technical_template() -> (r: ContextTemplate)
        ensures
            template_view(r) == builtin_templates()[2],
    {
        let keywords = strings(&["程式", "函式", "API", "bug", "資料庫", "伺服器", "版本", "部署"]);
        let d = PostProcessSettings::default();
        let r = ContextTemplate {
            id: TemplateId::Technical,
            initial_prompt: String::from_str(
                "This is a technical discussion about software engineering, including programming terms, API names, and technical concepts. 程式碼、函式名稱、技術術語請保留英文原文。",
            ),
            language_override: Some(String::from_str("zh")),
            temperature_override_milli: Some(0),
            postprocess: PostProcessSettings {
                add_punctuation: d.add_punctuation,
                formal_style: d.formal_style,
                remove_fillers: d.remove_fillers,
                preserve_english_terms: true,
            },
            keywords,
        };
        assert(r.keywords@.map_values(|k: String| k@) =~= technical_keywords());
        r
    }

    fn medical_template() -> (r: ContextTemplate)
        ensures
            template_view(r) == builtin_templates()[3],
    {
        let keywords = strings(&["症狀", "診斷", "治療", "藥物", "手術", "檢查", "病患", "醫師"]);
        let d = PostProcessSettings::default();
        let r = ContextTemplate {
            id: TemplateId::Medical,
            initial_prompt: String::from_str("這是醫療診療的對話，包含醫學術語、藥品名稱和診斷名稱。"),
            language_override: Some(String::from_str("zh")),
            temperature_override_milli: Some(0),
            postprocess: PostProcessSettings {
                add_punctuation: d.add_punctuation,
                formal_style: true,
                remove_fillers: d.remove_fillers,
                preserve_english_terms: d.preserve_english_terms,
            },
            keywords,
        };
        assert(r.keywords@.map_values(|k: String| k@) =~= medical_keywords());
        r
    }

    fn legal_template() -> (r: ContextTemplate)
        ensures
            template_view(r) == builtin_templates()[4],
    {
        let keywords = strings(&["合約", "條款", "法律", "訴訟", "判決", "法院", "律師", "被告"]);
        let d = PostProcessSettings::default();
        let r = ContextTemplate {
            id: TemplateId::Legal,
            initial_prompt: String::from_str("這是法律相關的對話，包含法律術語和條文引用。"),
            language_override: Some(String::from_str("zh")),
            temperature_override_milli: Some(0),
            postprocess: PostProcessSettings {
                add_punctuation: d.add_punctuation,
                formal_style: true,
                remove_fillers: d.remove_fillers,
                preserve_english_terms: d.preserve_english_terms,
            },
            keywords,
        };
        assert(r.keywords@.map_values(|k: String| k@) =~= legal_keywords());
        r
    }

    /// The template whose display name is the display name of `id`.
    pub fn get(&self, id: &TemplateId) -> (r: Option<&ContextTemplate>)
        ensures
            self@ == builtin_templates(),
            r is Some <==> exists|i: int|
                0 <= i < self@.len() && display_name_of(#[trigger] self@[i].id) == display_name_of(*id),
            r matches Some(t) ==> exists|i: int|
                0 <= i < self@.len() && template_view(*t) == #[trigger] self@[i] && display_name_of(self@[i].id)
                    == display_name_of(*id),
    {
        proof {
            use_type_invariant(self);
            assert forall|k: int| 0 <= k < self@.len() implies #[trigger] self@[k] == template_view(self.templates@[k]) by {}
        }
        let key = id.display_name();
        let mut i: usize = 0;
        while i < self.templates.len()
            invariant
                i <= self.templates.len(),
                self@ == builtin_templates(),
                self@.len() == self.templates@.len(),
                forall|k: int| 0 <= k < self@.len() ==> #[trigger] self@[k] == template_view(self.templates@[k]),
                key@ == display_name_of(*id),
                forall|k: int| 0 <= k < i ==> display_name_of(#[trigger] self@[k].id) != key@,
            decreases self.templates.len() - i,
        {
            if str_eq(self.templates[i].id.display_name(), key) {
                assert(self@[i as int] == template_view(self.templates@[i as int]));
                assert(display_name_of(self@[i as int].id) == display_name_of(*id));
                return Some(&self.templates[i]);
            }
            i = i + 1;
        }
        None
    }

    /// The casual template.
    pub fn get_casual(&self) -> (r: &ContextTemplate)
        ensures
            template_view(*r) == builtin_templates()[1],
    {
        proof {
            use_type_invariant(self);
            reveal_strlit("會議記錄");
            reveal_strlit("口語對話");
        }
        let key = TemplateId::Casual;
        let t = self.get(&key);
        proof {
            assert(self@[1].id == TemplateId::Casual);
            assert(display_name_of(self@[1].id) == display_name_of(key));
        }
        proof {
            if let Some(tt) = t {
                let i = choose|i: int|
                    0 <= i < self@.len() && template_view(*tt) == #[trigger] self@[i] && display_name_of(
                        self@[i].id,
                    ) == display_name_of(key);
                if i != 1 {
                    lemma_builtin_names_distinct(i, 1);
                }
            }
        }
        t.unwrap()
    }

    /// All templates in the order meeting, casual, technical, medical, legal.
    pub fn all(&self) -> (r: Vec<&ContextTemplate>)
        ensures
            r@.map_values(|t: &ContextTemplate| template_view(*t)) == builtin_templates(),
    {
        proof {
            use_type_invariant(self);
            assert forall|k: int| 0 <= k < self@.len() implies #[trigger] self@[k] == template_view(self.templates@[k]) by {}
        }
        let mut out: Vec<&ContextTemplate> = Vec::new();
        let mut i: usize = 0;
        while i < self.templates.len()
            invariant
                i <= self.templates.len(),
                self@ == builtin_templates(),
                self@.len() == self.templates@.len(),
                forall|k: int| 0 <= k < self@.len() ==> #[trigger] self@[k] == template_view(self.templates@[k]),
                out@.len() == i,
                forall|k: int| 0 <= k < i ==> template_view(*#[trigger] out@[k]) == self@[k],
            decreases self.templates.len() - i,
        {
            out.push(&self.templates[i]);
            i = i + 1;
        }
        assert(out@.map_values(|t: &ContextTemplate| template_view(*t)) =~= self@);
        out
    }
}

/// The built-in templates have pairwise different display names.
pub proof fn lemma_builtin_names_distinct(i: int, j: int)
    requires
        0 <= i < 5,
        0 <= j < 5,
        i != j,
    ensures
        display_name_of(builtin_templates()[i].id) != display_name_of(builtin_templates()[j].id),
{
    reveal_strlit("會議記錄");
    reveal_strlit("口語對話");
    reveal_strlit("技術討論");
    reveal_strlit("醫療紀錄");
    reveal_strlit("法律文書");
    let a = display_name_of(builtin_templates()[i].id);
    let b = display_name_of(builtin_templates()[j].id);
    if a == b {
        assert(a[0] == b[0]);
        assert(a[1] == b[1]);
    }
}

impl Default for TemplateRegistry {
    fn default() -> (r: Self)
        ensures
            r@ == builtin_templates(),
    {
        Self::new()
    }
}

} // verus!
