//! Choice of the template whose keywords a text mentions most.

use vstd::prelude::*;

use super::templates::{builtin_templates, template_view, TemplateRegistry, TemplateSpec};
use super::TemplateId;
use crate::text::{chars_of, contains_chars, contains_spec};

verus! {

/// `str::to_lowercase`: the Unicode lower-case mapping of a text.
pub uninterp spec fn lowercase_of(s: Seq<char>) -> Seq<char>;

/// `str::to_lowercase` (std). The result is the name `lowercase_of` applied
/// to the text; the Unicode case tables are not restated.
#[verifier::external_body]
fn to_lowercase(s: &str) -> (r: String)
    ensures
        r@ == lowercase_of(s@),
{
    s.to_lowercase()
}

/// How many of `kws` occur in `text`.
pub open spec fn keyword_hits(kws: Seq<Seq<char>>, text: Seq<char>) -> nat
    decreases kws.len(),
{
    if kws.len() == 0 {
        0
    } else {
        keyword_hits(kws.drop_last(), text) + if contains_spec(text, kws.last()) {
            1nat
        } else {
            0nat
        }
    }
}

/// Scanning `ts` in order, the first template with the strictly highest
/// keyword count in `text`, with that count; the casual template with count
/// 0 when no template scores.
pub open spec fn best_template(ts: Seq<TemplateSpec>, text: Seq<char>) -> (TemplateId, nat)
    decreases ts.len(),
{
    if ts.len() == 0 {
        (TemplateId::Casual, 0)
    } else {
        let prev = best_template(ts.drop_last(), text);
        let sc = keyword_hits(ts.last().keywords, text);
        if sc > prev.1 {
            (ts.last().id, sc)
        } else {
            prev
        }
    }
}

/// Suggests a template for a text from the keywords it contains.
pub struct ContextDetector {
    pub registry: TemplateRegistry,
}

impl ContextDetector {
    /// A detector scoring the templates of `registry`.
    pub fn new(registry: TemplateRegistry) -> (r: Self)
        ensures
            r.registry == registry,
    {
        ContextDetector { registry }
    }

    /// The template for `text`: the keyword scan of [`best_template`] over
    /// the lower-cased text.
    pub fn detect(&self, text: &str) -> (r: TemplateId)
        ensures
            r == best_template(builtin_templates(), lowercase_of(text@)).0,
    {
        let lower = to_lowercase(text);
        self.detect_lowercased(lower.as_str())
    }

    /// The template for a text that is already lower-cased.
    pub fn detect_lowercased(&self, text_lower: &str) -> (r: TemplateId)
        ensures
            r == best_template(builtin_templates(), text_lower@).0,
    {
        let text = chars_of(text_lower);
        let templates = self.registry.all();
        let ghost ts = builtin_templates();
        assert(templates@.len() == ts.len() == 5) by {
            assert(templates@.map_values(|t: &super::templates::ContextTemplate| template_view(*t)).len() == templates@.len());
        }
        let mut best_id = TemplateId::Casual;
        let mut best_score: usize = 0;
        let mut i: usize = 0;
        while i < templates.len()
            invariant
                i <= templates.len(),
                templates@.len() == 5,
                ts == builtin_templates(),
                templates@.map_values(|t: &super::templates::ContextTemplate| template_view(*t)) == ts,
                text@ == text_lower@,
                best_score <= i * 8,
                (best_id, best_score as nat) == best_template(ts.take(i as int), text@),
            decreases templates.len() - i,
        {
            let t = templates[i];
            let kws = &t.keywords;
            let ghost kv = kws@.map_values(|k: String| k@);
            let mut score: usize = 0;
            let mut k: usize = 0;
            proof {
                reveal_with_fuel(keyword_hits, 1);
                assert(kv.take(0) =~= Seq::<Seq<char>>::empty());
                lemma_builtin_keyword_count(i as int);
                assert(template_view(*t) == ts[i as int]);
            }
            while k < kws.len()
                invariant
                    k <= kws.len(),
                    kws.len() <= 8,
                    kv == kws@.map_values(|k: String| k@),
                    score <= k,
                    score as nat == keyword_hits(kv.take(k as int), text@),
                decreases kws.len() - k,
            {
                let kw = chars_of(kws[k].as_str());
                if contains_chars(text.as_slice(), kw.as_slice()) {
                    score = score + 1;
                }
                k = k + 1;
                assert(kv.take(k as int).drop_last() =~= kv.take(k - 1));
            }
            assert(kv.take(kws.len() as int) =~= kv);
            if score > best_score {
                best_score = score;
                best_id = t.id.clone();
            }
            i = i + 1;
            assert(ts.take(i as int).drop_last() =~= ts.take(i - 1));
        }
        assert(ts.take(templates.len() as int) =~= ts);
        best_id
    }
}

/// Every built-in template has at most eight keywords.
proof fn lemma_builtin_keyword_count(i: int)
    requires
        0 <= i < 5,
    ensures
        builtin_templates()[i].keywords.len() <= 8,
{
}

/// A keyword list none of whose words occur in `text` scores nothing.
proof fn lemma_no_hits(kws: Seq<Seq<char>>, text: Seq<char>)
    requires
        forall|k: int| 0 <= k < kws.len() ==> !contains_spec(text, #[trigger] kws[k]),
    ensures
        keyword_hits(kws, text) == 0,
    decreases kws.len(),
{
    if kws.len() > 0 {
        lemma_no_hits(kws.drop_last(), text);
    }
}

/// A text that contains none of the templates' keywords gets the casual
/// template.
pub proof fn law_no_keyword_is_casual(ts: Seq<TemplateSpec>, text: Seq<char>)
    requires
        forall|i: int, k: int|
            0 <= i < ts.len() && 0 <= k < ts[i].keywords.len() ==> !contains_spec(
                text,
                #[trigger] ts[i].keywords[k],
            ),
    ensures
        best_template(ts, text) == (TemplateId::Casual, 0nat),
    decreases ts.len(),
{
    if ts.len() > 0 {
        let init = ts.drop_last();
        assert forall|i: int, k: int|
            0 <= i < init.len() && 0 <= k < init[i].keywords.len() implies !contains_spec(
                text,
                #[trigger] init[i].keywords[k],
            ) by {
            assert(init[i] == ts[i]);
        }
        law_no_keyword_is_casual(init, text);
        let last = ts.last();
        assert forall|k: int| 0 <= k < last.keywords.len() implies !contains_spec(
            text,
            #[trigger] last.keywords[k],
        ) by {
            assert(last.keywords[k] == ts[ts.len() - 1].keywords[k]);
        }
        lemma_no_hits(last.keywords, text);
    }
}

/// The chosen score is the highest keyword count of any template, and a
/// template other than the casual fallback is chosen only with its own count.
pub proof fn law_detect_picks_highest(ts: Seq<TemplateSpec>, text: Seq<char>)
    ensures
        forall|i: int| 0 <= i < ts.len() ==> keyword_hits(#[trigger] ts[i].keywords, text)
            <= best_template(ts, text).1,
        best_template(ts, text).1 > 0 ==> exists|i: int|
            0 <= i < ts.len() && ts[i].id == best_template(ts, text).0 && keyword_hits(
                #[trigger] ts[i].keywords,
                text,
            ) == best_template(ts, text).1,
    decreases ts.len(),
{
    if ts.len() > 0 {
        let init = ts.drop_last();
        law_detect_picks_highest(init, text);
        assert forall|i: int| 0 <= i < ts.len() implies keyword_hits(#[trigger] ts[i].keywords, text)
            <= best_template(ts, text).1 by {
            if i < ts.len() - 1 {
                assert(ts[i] == init[i]);
            }
        }
        if best_template(ts, text).1 > 0 {
            if keyword_hits(ts.last().keywords, text) > best_template(init, text).1 {
                assert(ts[ts.len() - 1] == ts.last());
            } else {
                let j = choose|j: int|
                    0 <= j < init.len() && init[j].id == best_template(init, text).0 && keyword_hits(
                        #[trigger] init[j].keywords,
                        text,
                    ) == best_template(init, text).1;
                assert(ts[j] == init[j]);
            }
        }
    }
}

/// One keyword scores 1 when the text contains it and 0 otherwise.
pub proof fn law_keyword_hits_single(w: Seq<char>, text: Seq<char>)
    ensures
        keyword_hits(seq![w], text) == (if contains_spec(text, w) {
            1nat
        } else {
            0nat
        }),
{
    reveal_with_fuel(keyword_hits, 2);
    assert(seq![w].drop_last() =~= Seq::<Seq<char>>::empty());
    assert(seq![w].last() == w);
}

/// Scores add up over any split of a keyword list: every keyword counts,
/// wherever it stands in the list.
pub proof fn law_keyword_hits_additive(a: Seq<Seq<char>>, b: Seq<Seq<char>>, text: Seq<char>)
    ensures
        keyword_hits(a + b, text) == keyword_hits(a, text) + keyword_hits(b, text),
    decreases b.len(),
{
    if b.len() == 0 {
        assert(a + b =~= a);
    } else {
        law_keyword_hits_additive(a, b.drop_last(), text);
        assert((a + b).drop_last() =~= a + b.drop_last());
        assert((a + b).last() == b.last());
    }
}

/// The score of a list is the number of its keywords the text contains:
/// it is at least one for a list with a contained keyword at any position.
pub proof fn law_keyword_hits_counts_each(kws: Seq<Seq<char>>, text: Seq<char>, k: int)
    requires
        0 <= k < kws.len(),
        contains_spec(text, kws[k]),
    ensures
        keyword_hits(kws, text) >= 1,
{
    let a = kws.subrange(0, k);
    let b = kws.subrange(k, k + 1);
    let c = kws.subrange(k + 1, kws.len() as int);
    assert(kws =~= a + b + c);
    assert(b =~= seq![kws[k]]);
    law_keyword_hits_additive(a + b, c, text);
    law_keyword_hits_additive(a, b, text);
    law_keyword_hits_single(kws[k], text);
}

/// The score of a keyword list is the number of its keywords that the text
/// contains, wherever they stand in the list.
pub proof fn law_keyword_hits_counts_contained(kws: Seq<Seq<char>>, text: Seq<char>)
    ensures
        keyword_hits(kws, text) == kws.filter(|w: Seq<char>| contains_spec(text, w)).len(),
    decreases kws.len(),
{
    reveal_with_fuel(Seq::filter, 1);
    if kws.len() > 0 {
        law_keyword_hits_counts_contained(kws.drop_last(), text);
    }
}

/// A text that contains a keyword of exactly one template, and no keyword
/// of any other, gets that template.
pub proof fn law_detect_unique_template(ts: Seq<TemplateSpec>, text: Seq<char>, j: int, k: int)
    requires
        0 <= j < ts.len(),
        0 <= k < ts[j].keywords.len(),
        contains_spec(text, ts[j].keywords[k]),
        forall|i: int, m: int|
            0 <= i < ts.len() && i != j && 0 <= m < ts[i].keywords.len() ==> !contains_spec(
                text,
                #[trigger] ts[i].keywords[m],
            ),
    ensures
        best_template(ts, text).0 == ts[j].id,
{
    law_keyword_hits_counts_each(ts[j].keywords, text, k);
    law_detect_picks_highest(ts, text);
    assert(keyword_hits(ts[j].keywords, text) <= best_template(ts, text).1);
    let i = choose|i: int|
        0 <= i < ts.len() && ts[i].id == best_template(ts, text).0 && keyword_hits(
            #[trigger] ts[i].keywords,
            text,
        ) == best_template(ts, text).1;
    if i != j {
        assert forall|m: int| 0 <= m < ts[i].keywords.len() implies !contains_spec(
            text,
            #[trigger] ts[i].keywords[m],
        ) by {}
        lemma_no_hits(ts[i].keywords, text);
    }
}

} // verus!
