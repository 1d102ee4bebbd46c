//! Editing the template list: saving a prompt under a name, deleting by
//! name, and the rows the template editor shows.

use vstd::prelude::*;
use vstd::string::StringExecFns;

use crate::context_templates::templates::{
    template_view, ContextTemplate, PostProcessSettings, TemplateSpec,
};
use crate::context_templates::{display_name_of, TemplateId};
use crate::text::str_eq;

verus! {

/// The display names of the five built-in templates.
pub open spec fn builtin_template_names() -> Seq<Seq<char>> {
    seq!["會議記錄"@, "口語對話"@, "技術討論"@, "醫療紀錄"@, "法律文書"@]
}

/// `name` is the display name of a built-in template.
pub open spec fn is_builtin_name(name: Seq<char>) -> bool {
    builtin_template_names().contains(name)
}

/// Whether `name` is the display name of a built-in template.
pub fn is_builtin_template_name(name: &str) -> (r: bool)
    ensures
        r == is_builtin_name(name@),
{
    let r = str_eq(name, "會議記錄") || str_eq(name, "口語對話") || str_eq(name, "技術討論")
        || str_eq(name, "醫療紀錄") || str_eq(name, "法律文書");
    proof {
        let names = builtin_template_names();
        if is_builtin_name(name@) {
            let k = choose|k: int| 0 <= k < names.len() && names[k] == name@;
            assert(k == 0 || k == 1 || k == 2 || k == 3 || k == 4);
        }
        if r {
            assert(names[0] == "會議記錄"@);
            assert(names[1] == "口語對話"@);
            assert(names[2] == "技術討論"@);
            assert(names[3] == "醫療紀錄"@);
            assert(names[4] == "法律文書"@);
        }
    }
    r
}

/// A new custom template: the given name and prompt, Chinese, no
/// temperature override, the default clean-up and no keywords.
pub open spec fn is_new_custom(v: TemplateSpec, name: Seq<char>, prompt: Seq<char>) -> bool {
    &&& v.id matches TemplateId::Custom(n) && n@ == name
    &&& v.prompt == prompt
    &&& v.language == Some("zh"@)
    &&& v.temperature_milli is None
    &&& v.add_punctuation
    &&& !v.formal_style
    &&& v.fillers == seq!["嗯"@, "啊"@, "那個"@, "就是說"@]
    &&& !v.preserve_english_terms
    &&& v.keywords == Seq::<Seq<char>>::empty()
}

/// A custom template named `name` that transcribes with `prompt`.
pub fn make_custom_template(name: String, prompt: String) -> (r: ContextTemplate)
    ensures
        is_new_custom(template_view(r), name@, prompt@),
{
    let keywords: Vec<String> = Vec::new();
    let r = ContextTemplate {
        id: TemplateId::Custom(name),
        initial_prompt: prompt,
        language_override: Some(String::from_str("zh")),
        temperature_override_milli: None,
        postprocess: PostProcessSettings::default(),
        keywords,
    };
    assert(template_view(r).keywords =~= Seq::<Seq<char>>::empty());
    r
}

/// Template `i` of `s` is the first one displayed as `name`.
pub open spec fn is_first_named(s: Seq<ContextTemplate>, name: Seq<char>, i: int) -> bool {
    &&& 0 <= i < s.len()
    &&& display_name_of(s[i].id) == name
    &&& forall|k: int| 0 <= k < i ==> display_name_of(#[trigger] s[k].id) != name
}

/// Some template of `s` is displayed as `name`.
pub open spec fn has_named(s: Seq<ContextTemplate>, name: Seq<char>) -> bool {
    exists|k: int| 0 <= k < s.len() && display_name_of(#[trigger] s[k].id) == name
}

/// Saving under `orig` renames the template to `name` when the name changed
/// and `orig` is not a built-in name.
pub open spec fn renames(orig: Seq<char>, name: Seq<char>) -> bool {
    orig != name && !is_builtin_name(orig)
}

/// `t` is `o` saved with prompt `prompt`: renamed to a custom `name` when
/// `renames(orig, name)`, and otherwise unchanged.
pub open spec fn saved_as(
    o: ContextTemplate,
    t: ContextTemplate,
    orig: Seq<char>,
    name: Seq<char>,
    prompt: Seq<char>,
) -> bool {
    &&& t.initial_prompt@ == prompt
    &&& if renames(orig, name) {
        t.id matches TemplateId::Custom(n) && n@ == name
    } else {
        t.id == o.id
    }
    &&& t.language_override == o.language_override
    &&& t.temperature_override_milli == o.temperature_override_milli
    &&& t.postprocess == o.postprocess
    &&& t.keywords == o.keywords
}

/// The first template displayed as `orig` of `templates`.
fn find_named(templates: &Vec<ContextTemplate>, orig: &str) -> (r: Option<usize>)
    ensures
        r matches Some(i) ==> is_first_named(templates@, orig@, i as int),
        r is None ==> !has_named(templates@, orig@),
{
    let mut i: usize = 0;
    while i < templates.len()
        invariant
            i <= templates.len(),
            forall|k: int| 0 <= k < i ==> display_name_of(#[trigger] templates@[k].id) != orig@,
        decreases templates.len() - i,
    {
        if str_eq(templates[i].id.display_name(), orig) {
            return Some(i);
        }
        i = i + 1;
    }
    None
}

/// `n` is `o` after saving `prompt` under `orig` with the new name `name`:
/// the first template displayed as `orig` is saved in place, or, with none,
/// a new custom template is appended.
pub open spec fn saved_list(
    o: Seq<ContextTemplate>,
    n: Seq<ContextTemplate>,
    orig: Seq<char>,
    name: Seq<char>,
    prompt: Seq<char>,
) -> bool {
    &&& has_named(o, orig) ==> exists|i: int|
        #[trigger] is_first_named(o, orig, i) && n == o.update(i, n[i]) && saved_as(
            o[i],
            n[i],
            orig,
            name,
            prompt,
        )
    &&& !has_named(o, orig) ==> {
        &&& n.len() == o.len() + 1
        &&& n.take(o.len() as int) == o
        &&& is_new_custom(template_view(n.last()), name, prompt)
    }
}

/// The name a template saved under `orig` with the new name `name` ends up with.
pub open spec fn saved_name(o: Seq<ContextTemplate>, orig: Seq<char>, name: Seq<char>) -> Seq<char> {
    if has_named(o, orig) && !renames(orig, name) {
        orig
    } else {
        name
    }
}

/// Saves `prompt` as the prompt of the first template displayed as `orig`,
/// renaming it to `name` where `renames(orig, name)`; with no such template,
/// appends a new custom template named `name`.
pub fn save_template(templates: &mut Vec<ContextTemplate>, orig: &str, name: &str, prompt: &str)
    ensures
        saved_list(old(templates)@, final(templates)@, orig@, name@, prompt@),
{
    match find_named(templates, orig) {
        Some(i) => {
            let rename = !str_eq(orig, name) && !is_builtin_template_name(orig);
            let mut t = templates.remove(i);
            let ghost o = t;
            if rename {
                t.id = TemplateId::Custom(String::from_str(name));
            }
            t.initial_prompt = String::from_str(prompt);
            templates.insert(i, t);
            assert(saved_as(o, templates@[i as int], orig@, name@, prompt@));
            assert(templates@ =~= old(templates)@.update(i as int, templates@[i as int]));
            assert(is_first_named(old(templates)@, orig@, i as int));
        },
        None => {
            let t = make_custom_template(String::from_str(name), String::from_str(prompt));
            templates.push(t);
            assert(templates@.take(old(templates)@.len() as int) =~= old(templates)@);
        },
    }
}

/// Whether template `t` is kept when the templates named `name` are deleted.
pub open spec fn keeps(name: Seq<char>) -> spec_fn(ContextTemplate) -> bool {
    |t: ContextTemplate| display_name_of(t.id) != name
}

/// Deletes every template displayed as `name`, keeping the others in order.
pub fn delete_template(templates: &mut Vec<ContextTemplate>, name: &str)
    ensures
        final(templates)@ == old(templates)@.filter(keeps(name@)),
{
    let ghost o = templates@;
    let ghost f = keeps(name@);
    let mut i: usize = 0;
    let ghost mut j: int = 0;
    while i < templates.len()
        invariant
            0 <= j <= o.len(),
            o == old(templates)@,
            f == keeps(name@),
            templates@ == o.take(j).filter(f) + o.skip(j),
            i as int == o.take(j).filter(f).len(),
        decreases templates.len() - i,
    {
        proof {
            assert(o.skip(j)[0] == o[j]);
            assert(o.take(j + 1).drop_last() =~= o.take(j));
            assert(o.take(j + 1).last() == o[j]);
            reveal_with_fuel(Seq::filter, 1);
            assert(o.skip(j + 1) =~= o.skip(j).drop_first());
        }
        if str_eq(templates[i].id.display_name(), name) {
            templates.remove(i);
            proof {
                assert(!f(o[j]));
                assert(o.take(j + 1).filter(f) == o.take(j).filter(f));
                assert(templates@ =~= o.take(j + 1).filter(f) + o.skip(j + 1));
                j = j + 1;
            }
        } else {
            proof {
                assert(f(o[j]));
                assert(o.take(j + 1).filter(f) == o.take(j).filter(f).push(o[j]));
                assert(templates@ =~= o.take(j + 1).filter(f) + o.skip(j + 1));
                j = j + 1;
            }
            i = i + 1;
        }
    }
    proof {
        assert(j == o.len()) by {
            if j < o.len() {
                assert(templates@.len() == i + o.skip(j).len());
            }
        }
        assert(o.take(j) =~= o);
        assert(templates@ =~= o.filter(f));
    }
}

/// One row of the template editor.
pub struct TemplateEntry {
    pub name: String,
    pub prompt: String,
    pub is_builtin: bool,
}

/// The editor row for template `t`.
pub open spec fn entry_for(e: TemplateEntry, t: ContextTemplate) -> bool {
    &&& e.name@ == display_name_of(t.id)
    &&& e.prompt@ == t.initial_prompt@
    &&& e.is_builtin == is_builtin_name(display_name_of(t.id))
}

/// The editor rows for `templates`, one per template, in order.
pub fn template_entries(templates: &[ContextTemplate]) -> (r: Vec<TemplateEntry>)
    ensures
        r@.len() == templates@.len(),
        forall|k: int| 0 <= k < r@.len() ==> entry_for(#[trigger] r@[k], templates@[k]),
{
    let mut out: Vec<TemplateEntry> = Vec::new();
    let mut i: usize = 0;
    while i < templates.len()
        invariant
            i <= templates.len(),
            out@.len() == i,
            forall|k: int| 0 <= k < i ==> entry_for(#[trigger] out@[k], templates@[k]),
        decreases templates.len() - i,
    {
        let t = &templates[i];
        let name = t.id.display_name();
        let is_builtin = is_builtin_template_name(name);
        out.push(
            TemplateEntry {
                name: String::from_str(name),
                prompt: String::from_str(t.initial_prompt.as_str()),
                is_builtin,
            },
        );
        i = i + 1;
    }
    out
}

/// After a save, a template is displayed under the saved name and
/// transcribes with the saved prompt.
pub proof fn law_save_then_find(
    o: Seq<ContextTemplate>,
    n: Seq<ContextTemplate>,
    orig: Seq<char>,
    name: Seq<char>,
    prompt: Seq<char>,
)
    requires
        saved_list(o, n, orig, name, prompt),
    ensures
        exists|k: int|
            0 <= k < n.len() && display_name_of(#[trigger] n[k].id) == saved_name(o, orig, name)
                && n[k].initial_prompt@ == prompt,
{
    if has_named(o, orig) {
        let i = choose|i: int|
            #[trigger] is_first_named(o, orig, i) && n == o.update(i, n[i]) && saved_as(
                o[i],
                n[i],
                orig,
                name,
                prompt,
            );
        assert(display_name_of(n[i].id) == saved_name(o, orig, name));
    } else {
        let k = n.len() - 1;
        assert(display_name_of(n[k].id) == saved_name(o, orig, name));
    }
}

/// A save changes no template but the one saved, and removes none.
pub proof fn law_save_keeps_others(
    o: Seq<ContextTemplate>,
    n: Seq<ContextTemplate>,
    orig: Seq<char>,
    name: Seq<char>,
    prompt: Seq<char>,
)
    requires
        saved_list(o, n, orig, name, prompt),
    ensures
        n.len() >= o.len(),
        forall|k: int|
            0 <= k < o.len() && display_name_of(#[trigger] o[k].id) != orig ==> n[k] == o[k],
{
    if has_named(o, orig) {
        let i = choose|i: int|
            #[trigger] is_first_named(o, orig, i) && n == o.update(i, n[i]) && saved_as(
                o[i],
                n[i],
                orig,
                name,
                prompt,
            );
        assert forall|k: int|
            0 <= k < o.len() && display_name_of(#[trigger] o[k].id) != orig implies n[k] == o[k] by {
            assert(k != i);
        }
    } else {
        assert forall|k: int|
            0 <= k < o.len() && display_name_of(#[trigger] o[k].id) != orig implies n[k] == o[k] by {
            assert(n.take(o.len() as int)[k] == n[k]);
        }
    }
}

/// After deleting `name`, no template is displayed as `name`, and every
/// template that was displayed otherwise is still there.
pub proof fn law_delete_removes_name(o: Seq<ContextTemplate>, name: Seq<char>)
    ensures
        !has_named(o.filter(keeps(name)), name),
        forall|k: int|
            0 <= k < o.len() && display_name_of(#[trigger] o[k].id) != name ==> o.filter(
                keeps(name),
            ).contains(o[k]),
{
    broadcast use vstd::seq_lib::group_filter_ensures;

    let d = o.filter(keeps(name));
    assert forall|k: int| 0 <= k < d.len() implies display_name_of(#[trigger] d[k].id) != name by {
        assert(keeps(name)(d[k]));
    }
    assert forall|k: int|
        0 <= k < o.len() && display_name_of(#[trigger] o[k].id) != name implies d.contains(o[k]) by {
        assert(keeps(name)(o[k]));
    }
}

/// Deleting a name twice is deleting it once.
pub proof fn law_delete_idempotent(o: Seq<ContextTemplate>, name: Seq<char>)
    ensures
        o.filter(keeps(name)).filter(keeps(name)) == o.filter(keeps(name)),
    decreases o.len(),
{
    reveal_with_fuel(Seq::filter, 1);
    if o.len() > 0 {
        law_delete_idempotent(o.drop_last(), name);
        let f = keeps(name);
        let d = o.drop_last().filter(f);
        if f(o.last()) {
            assert(d.push(o.last()).drop_last() =~= d);
        }
    }
}

} // verus!
