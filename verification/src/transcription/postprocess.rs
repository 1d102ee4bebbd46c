//! Clean-up of recognised text: full-width punctuation, filler removal,
//! collapsing of repeated phrases and trimming.

use vstd::prelude::*;

pub use crate::context_templates::templates::PostProcessSettings;
use crate::context_templates::templates::fillers_view;
use crate::text::{
    chars_of, is_ws, lead_ws, lemma_lead_ws, lemma_trail_ws, occurs_at, occurs_at_exec, string_of,
    trail_ws, trim_chars, trim_spec,
};

verus! {

// ---------------------------------------------------------------------------
// Filler removal: `str::replace(pattern, "")`, applied once per filler.
// ---------------------------------------------------------------------------

/// The part of `s` from index `i` on, with every leftmost non-overlapping
/// occurrence of `p` deleted. An empty `p` deletes nothing.
pub open spec fn remove_from(s: Seq<char>, p: Seq<char>, i: int) -> Seq<char>
    decreases s.len() - i,
{
    if i < 0 || i >= s.len() || p.len() == 0 {
        if 0 <= i <= s.len() {
            s.subrange(i, s.len() as int)
        } else {
            seq![]
        }
    } else if occurs_at(s, p, i) {
        remove_from(s, p, i + p.len())
    } else {
        seq![s[i]].add(remove_from(s, p, i + 1))
    }
}

/// `s.replace(p, "")`.
pub open spec fn remove_all(s: Seq<char>, p: Seq<char>) -> Seq<char> {
    remove_from(s, p, 0)
}

/// Deletion of each filler in turn, in list order.
pub open spec fn strip_fillers(s: Seq<char>, fs: Seq<Seq<char>>) -> Seq<char>
    decreases fs.len(),
{
    if fs.len() == 0 {
        s
    } else {
        remove_all(strip_fillers(s, fs.drop_last()), fs.last())
    }
}

/// Executable [`remove_all`].
pub fn remove_all_exec(s: &[char], p: &[char]) -> (r: Vec<char>)
    ensures
        r@ == remove_all(s@, p@),
{
    let mut out: Vec<char> = Vec::new();
    let mut i: usize = 0;
    while i < s.len() && p.len() > 0
        invariant
            i <= s.len(),
            remove_all(s@, p@) == out@ + remove_from(s@, p@, i as int),
        decreases s.len() - i,
    {
        if occurs_at_exec(s, p, i) {
            i = i + p.len();
        } else {
            proof {
                assert(out@ + (seq![s@[i as int]] + remove_from(s@, p@, i + 1)) == out@.push(
                    s@[i as int],
                ) + remove_from(s@, p@, i + 1));
            }
            out.push(s[i]);
            i = i + 1;
        }
    }
    let mut k: usize = i;
    while k < s.len()
        invariant
            i <= k <= s.len(),
            remove_from(s@, p@, i as int) == s@.subrange(i as int, s.len() as int),
            remove_all(s@, p@) == out@ + s@.subrange(k as int, s.len() as int),
        decreases s.len() - k,
    {
        proof {
            assert(s@.subrange(k as int, s.len() as int) == seq![s@[k as int]] + s@.subrange(
                k + 1,
                s.len() as int,
            ));
        }
        out.push(s[k]);
        k = k + 1;
    }
    assert(s@.subrange(k as int, s.len() as int) =~= Seq::<char>::empty());
    assert(out@ + Seq::<char>::empty() =~= out@);
    out
}

// ---------------------------------------------------------------------------
// Collapsing of hallucinated repetitions.
// ---------------------------------------------------------------------------

/// End of the run of copies of the block `c[i..i+k]` that continues at `j`.
pub open spec fn repeat_end(c: Seq<char>, i: int, k: int, j: int) -> int
    decreases c.len() - j,
{
    if k > 0 && 0 <= j && j + k <= c.len() && c.subrange(j, j + k) == c.subrange(i, i + k) {
        repeat_end(c, i, k, j + k)
    } else {
        j
    }
}

/// The longest block length `k` in `2..=n` such that the block at `i`
/// appears at least three times in a row there; 0 when there is none.
pub open spec fn pick_block(c: Seq<char>, i: int, n: int) -> int
    decreases n,
{
    if n < 2 {
        0
    } else if i + 3 * n <= c.len() && repeat_end(c, i, n, i + n) >= i + 3 * n {
        n
    } else {
        pick_block(c, i, n - 1)
    }
}

/// The end of a run of repeats lies between its start and the text's end.
pub proof fn lemma_repeat_end_bounds(c: Seq<char>, i: int, k: int, j: int)
    requires
        0 <= j <= c.len(),
    ensures
        j <= repeat_end(c, i, k, j) <= c.len(),
    decreases c.len() - j,
{
    if k > 0 && 0 <= j && j + k <= c.len() && c.subrange(j, j + k) == c.subrange(i, i + k) {
        lemma_repeat_end_bounds(c, i, k, j + k);
    }
}

/// A block chosen at `i` is 2 to `n` characters long and repeats at least
/// three times within the text; 0 means none was chosen.
pub proof fn lemma_pick_block(c: Seq<char>, i: int, n: int)
    requires
        0 <= i,
    ensures
        pick_block(c, i, n) == 0 || (2 <= pick_block(c, i, n) <= n && i + 3 * pick_block(c, i, n)
            <= c.len() && i + 3 * pick_block(c, i, n) <= repeat_end(
            c,
            i,
            pick_block(c, i, n),
            i + pick_block(c, i, n),
        ) <= c.len()),
    decreases n,
{
    if n >= 2 {
        if i + 3 * n <= c.len() && repeat_end(c, i, n, i + n) >= i + 3 * n {
            lemma_repeat_end_bounds(c, i, n, i + n);
        } else {
            lemma_pick_block(c, i, n - 1);
        }
    }
}

/// Greedy scan from `i`: where a block of 2 to 10 characters repeats three or
/// more times in a row, one copy is kept; otherwise the character is kept.
pub open spec fn collapse_from(c: Seq<char>, i: int) -> Seq<char>
    decreases c.len() - i,
{
    if i < 0 || i >= c.len() {
        seq![]
    } else {
        let k = pick_block(c, i, 10);
        if k >= 2 {
            proof {
                lemma_pick_block(c, i, 10);
            }
            c.subrange(i, i + k).add(collapse_from(c, repeat_end(c, i, k, i + k)))
        } else {
            seq![c[i]].add(collapse_from(c, i + 1))
        }
    }
}

/// Removal of phrases that repeat three or more times in a row (a typical
/// recognition hallucination). Texts under six characters are left alone.
pub open spec fn remove_repeats(c: Seq<char>) -> Seq<char> {
    if c.len() < 6 {
        c
    } else {
        collapse_from(c, 0)
    }
}

/// Whether `c[a..a+k] == c[b..b+k]`.
fn blocks_equal(c: &[char], a: usize, b: usize, k: usize) -> (r: bool)
    requires
        a + k <= c.len(),
        b + k <= c.len(),
    ensures
        r == (c@.subrange(a as int, a + k) == c@.subrange(b as int, b + k)),
{
    let mut m: usize = 0;
    while m < k
        invariant
            m <= k,
            a + k <= c.len(),
            b + k <= c.len(),
            forall|t: int|
                0 <= t < m ==> #[trigger] c@.subrange(a as int, a + k)[t] == c@.subrange(
                    b as int,
                    b + k,
                )[t],
        decreases k - m,
    {
        if c[a + m] != c[b + m] {
            assert(c@.subrange(a as int, a + k)[m as int] != c@.subrange(b as int, b + k)[m as int]);
            return false;
        }
        m = m + 1;
    }
    assert(c@.subrange(a as int, a + k) =~= c@.subrange(b as int, b + k));
    true
}

/// Executable [`repeat_end`] for the run starting right after the block.
fn repeat_end_exec(c: &[char], i: usize, k: usize) -> (j: usize)
    requires
        k > 0,
        i + k <= c.len(),
    ensures
        j == repeat_end(c@, i as int, k as int, i + k),
        i + k <= j <= c.len(),
{
    let mut j: usize = i + k;
    let mut go = true;
    while go
        invariant
            k > 0,
            i + k <= j <= c.len(),
            go ==> repeat_end(c@, i as int, k as int, i + k) == repeat_end(
                c@,
                i as int,
                k as int,
                j as int,
            ),
            !go ==> repeat_end(c@, i as int, k as int, i + k) == j,
        decreases c.len() - j + (if go {
            1int
        } else {
            0int
        }),
    {
        if k <= c.len() - j && blocks_equal(c, j, i, k) {
            j = j + k;
        } else {
            go = false;
        }
    }
    j
}

/// Executable [`pick_block`] with `n == 10`.
fn pick_block_exec(c: &[char], i: usize) -> (k: usize)
    requires
        i < c.len(),
    ensures
        k as int == pick_block(c@, i as int, 10),
        k == 0 || 2 <= k <= 10,
{
    let mut k: usize = 10;
    while k >= 2
        invariant
            1 <= k <= 10,
            i < c.len(),
            pick_block(c@, i as int, 10) == pick_block(c@, i as int, k as int),
        decreases k,
    {
        if 3 * k <= c.len() - i {
            let e = repeat_end_exec(c, i, k);
            if e - i >= 3 * k {
                return k;
            }
        }
        k = k - 1;
    }
    0
}

/// Executable [`remove_repeats`].
pub fn remove_repeats_exec(c: &[char]) -> (r: Vec<char>)
    ensures
        r@ == remove_repeats(c@),
{
    let mut out: Vec<char> = Vec::new();
    if c.len() < 6 {
        let mut t: usize = 0;
        while t < c.len()
            invariant
                t <= c.len(),
                out@ == c@.take(t as int),
            decreases c.len() - t,
        {
            out.push(c[t]);
            t = t + 1;
            assert(c@.take(t as int) == c@.take(t - 1).push(c@[t - 1]));
        }
        assert(c@.take(c.len() as int) == c@);
        return out;
    }
    let mut i: usize = 0;
    while i < c.len()
        invariant
            i <= c.len(),
            c.len() >= 6,
            collapse_from(c@, 0) == out@ + collapse_from(c@, i as int),
        decreases c.len() - i,
    {
        let k = pick_block_exec(c, i);
        if k >= 2 {
            proof {
                lemma_pick_block(c@, i as int, 10);
            }
            let e = repeat_end_exec(c, i, k);
            let ghost before = out@;
            let mut m: usize = i;
            while m < i + k
                invariant
                    i <= m <= i + k,
                    i + k <= c.len(),
                    out@ == before + c@.subrange(i as int, m as int),
                decreases i + k - m,
            {
                out.push(c[m]);
                m = m + 1;
                assert(c@.subrange(i as int, m as int) == c@.subrange(i as int, m - 1).push(
                    c@[m - 1],
                ));
            }
            proof {
                assert(before + (c@.subrange(i as int, i + k) + collapse_from(c@, e as int))
                    == out@ + collapse_from(c@, e as int));
            }
            i = e;
        } else {
            proof {
                assert(out@ + (seq![c@[i as int]] + collapse_from(c@, i + 1)) == out@.push(
                    c@[i as int],
                ) + collapse_from(c@, i + 1));
            }
            out.push(c[i]);
            i = i + 1;
        }
    }
    assert(out@ + collapse_from(c@, i as int) == out@);
    out
}

// ---------------------------------------------------------------------------
// Punctuation.
// ---------------------------------------------------------------------------

/// The full-width form of an ASCII `, . ! ? : ;`; other characters unchanged.
pub open spec fn full_width(c: char) -> char {
    if c == ',' {
        '，'
    } else if c == '.' {
        '。'
    } else if c == '!' {
        '！'
    } else if c == '?' {
        '？'
    } else if c == ':' {
        '：'
    } else if c == ';' {
        '；'
    } else {
        c
    }
}

/// Every ASCII `, . ! ? : ;` replaced by its full-width form.
pub open spec fn normalize_punct(s: Seq<char>) -> Seq<char> {
    s.map_values(|c: char| full_width(c))
}

fn full_width_exec(c: char) -> (r: char)
    ensures
        r == full_width(c),
{
    if c == ',' {
        '，'
    } else if c == '.' {
        '。'
    } else if c == '!' {
        '！'
    } else if c == '?' {
        '？'
    } else if c == ':' {
        '：'
    } else if c == ';' {
        '；'
    } else {
        c
    }
}

/// Executable [`normalize_punct`].
pub fn normalize_punct_exec(s: &[char]) -> (r: Vec<char>)
    ensures
        r@ == normalize_punct(s@),
{
    let mut out: Vec<char> = Vec::new();
    let mut i: usize = 0;
    while i < s.len()
        invariant
            i <= s.len(),
            out@ == normalize_punct(s@.take(i as int)),
        decreases s.len() - i,
    {
        out.push(full_width_exec(s[i]));
        i = i + 1;
        assert(normalize_punct(s@.take(i as int)) =~= normalize_punct(s@.take(i - 1)).push(
            full_width(s@[i - 1]),
        ));
    }
    assert(s@.take(s.len() as int) == s@);
    out
}

// ---------------------------------------------------------------------------
// The whole pipeline.
// ---------------------------------------------------------------------------

/// Post-processing of `text` with the given filler list and punctuation
/// switch: punctuation made full-width when enabled, fillers out,
/// repetitions collapsed, surrounding whitespace trimmed.
pub open spec fn processed_with(add_punctuation: bool, fillers: Seq<Seq<char>>, text: Seq<char>) -> Seq<char> {
    let n = if add_punctuation {
        normalize_punct(text)
    } else {
        text
    };
    trim_spec(remove_repeats(strip_fillers(n, fillers)))
}

/// What [`PostProcessor::process`] returns for `text` under `st`.
pub open spec fn processed(st: PostProcessSettings, text: Seq<char>) -> Seq<char> {
    processed_with(st.add_punctuation, fillers_view(st.remove_fillers@), text)
}

/// Transcript post-processor.
pub struct PostProcessor {
    pub settings: PostProcessSettings,
}

impl PostProcessor {
    /// A post-processor with `settings`.
    pub fn new(settings: PostProcessSettings) -> (r: Self)
        ensures
            r.settings == settings,
    {
        PostProcessor { settings }
    }

    /// Converts punctuation to full width when enabled, removes fillers,
    /// collapses repeated phrases, and trims surrounding whitespace.
    pub fn process(&self, text: &str) -> (r: String)
        ensures
            r@ == processed(self.settings, text@),
    {
        let chars = chars_of(text);
        let n = if self.settings.add_punctuation {
            normalize_punct_exec(chars.as_slice())
        } else {
            chars
        };
        let a = self.remove_fillers(n.as_slice());
        let b = remove_repeats_exec(a.as_slice());
        let t = trim_chars(b.as_slice());
        string_of(t.as_slice())
    }

    fn remove_fillers(&self, text: &[char]) -> (r: Vec<char>)
        ensures
            r@ == strip_fillers(text@, fillers_view(self.settings.remove_fillers@)),
    {
        let fs = self.settings.fillers();
        let ghost fv = fillers_view(fs@);
        let mut acc: Vec<char> = Vec::new();
        let mut t: usize = 0;
        while t < text.len()
            invariant
                t <= text.len(),
                acc@ == text@.take(t as int),
            decreases text.len() - t,
        {
            acc.push(text[t]);
            t = t + 1;
            assert(text@.take(t as int) == text@.take(t - 1).push(text@[t - 1]));
        }
        assert(text@.take(text.len() as int) == text@);
        let mut i: usize = 0;
        while i < fs.len()
            invariant
                i <= fs.len(),
                fv == fillers_view(fs@),
                fs@ == self.settings.remove_fillers@,
                acc@ == strip_fillers(text@, fv.take(i as int)),
            decreases fs.len() - i,
        {
            let p = chars_of(fs[i].as_str());
            acc = remove_all_exec(acc.as_slice(), p.as_slice());
            i = i + 1;
            assert(fv.take(i as int).drop_last() == fv.take(i - 1));
        }
        assert(fv.take(fs.len() as int) == fv);
        acc
    }

    /// Replaces the settings.
    pub fn update_settings(&mut self, settings: PostProcessSettings)
        ensures
            final(self).settings == settings,
    {
        self.settings = settings;
    }
}

impl PostProcessSettings {
    /// The filler words that are deleted from transcripts.
    pub fn fillers(&self) -> (r: &[String])
        ensures
            r@ == self.remove_fillers@,
    {
        self.remove_fillers.as_slice()
    }
}

// ---------------------------------------------------------------------------
// Laws.
// ---------------------------------------------------------------------------

proof fn lemma_collapse_len(c: Seq<char>, i: int)
    requires
        0 <= i <= c.len(),
    ensures
        collapse_from(c, i).len() <= c.len() - i,
    decreases c.len() - i,
{
    if i < c.len() {
        let k = pick_block(c, i, 10);
        lemma_pick_block(c, i, 10);
        if k >= 2 {
            lemma_collapse_len(c, repeat_end(c, i, k, i + k));
        } else {
            lemma_collapse_len(c, i + 1);
        }
    }
}

/// Collapsing repetitions never makes a text longer.
pub proof fn law_remove_repeats_never_longer(c: Seq<char>)
    ensures
        remove_repeats(c).len() <= c.len(),
{
    if c.len() >= 6 {
        lemma_collapse_len(c, 0);
    }
}

/// Whether the block `c[i..i+k]` is immediately followed by two more copies.
pub open spec fn triple_at(c: Seq<char>, i: int, k: int) -> bool {
    &&& 0 <= i
    &&& 2 <= k <= 10
    &&& i + 3 * k <= c.len()
    &&& c.subrange(i + k, i + 2 * k) == c.subrange(i, i + k)
    &&& c.subrange(i + 2 * k, i + 3 * k) == c.subrange(i, i + k)
}

/// Whether some block of 2 to 10 characters occurs three times in a row in `c`.
pub open spec fn has_triple_repeat(c: Seq<char>) -> bool {
    exists|i: int, k: int| #[trigger] triple_at(c, i, k)
}

proof fn lemma_no_pick(c: Seq<char>, i: int, n: int)
    requires
        0 <= i,
        n <= 10,
        !has_triple_repeat(c),
    ensures
        pick_block(c, i, n) == 0,
    decreases n,
{
    if n >= 2 {
        if i + 3 * n <= c.len() && repeat_end(c, i, n, i + n) >= i + 3 * n {
            // The run reaches two further copies, which is a triple repetition.
            assert(repeat_end(c, i, n, i + n) != i + n);
            assert(c.subrange(i + n, i + 2 * n) == c.subrange(i, i + n));
            assert(repeat_end(c, i, n, i + n) == repeat_end(c, i, n, i + 2 * n));
            assert(repeat_end(c, i, n, i + 2 * n) != i + 2 * n);
            assert(c.subrange(i + 2 * n, i + 3 * n) == c.subrange(i, i + n));
            assert(triple_at(c, i, n));
        }
        lemma_no_pick(c, i, n - 1);
    }
}

proof fn lemma_collapse_identity(c: Seq<char>, i: int)
    requires
        0 <= i <= c.len(),
        !has_triple_repeat(c),
    ensures
        collapse_from(c, i) == c.subrange(i, c.len() as int),
    decreases c.len() - i,
{
    if i < c.len() {
        lemma_no_pick(c, i, 10);
        lemma_collapse_identity(c, i + 1);
        assert(seq![c[i]] + c.subrange(i + 1, c.len() as int) =~= c.subrange(i, c.len() as int));
    } else {
        assert(c.subrange(i, c.len() as int) =~= Seq::<char>::empty());
    }
}

/// A text in which no phrase of 2 to 10 characters repeats three times in a
/// row passes through repetition removal unchanged.
pub proof fn law_remove_repeats_identity(c: Seq<char>)
    requires
        !has_triple_repeat(c),
    ensures
        remove_repeats(c) == c,
{
    if c.len() >= 6 {
        lemma_collapse_identity(c, 0);
        assert(c.subrange(0, c.len() as int) =~= c);
    }
}

/// With punctuation normalisation on, no ASCII `, . ! ? : ;` survives
/// post-processing.
pub proof fn law_process_no_ascii_punct(st: PostProcessSettings, text: Seq<char>, k: int)
    requires
        st.add_punctuation,
        0 <= k < processed(st, text).len(),
    ensures
        processed(st, text)[k] != ',',
        processed(st, text)[k] != '.',
        processed(st, text)[k] != '!',
        processed(st, text)[k] != '?',
        processed(st, text)[k] != ':',
        processed(st, text)[k] != ';',
{
    let fs = fillers_view(st.remove_fillers@);
    let n = normalize_punct(text);
    let ascii = seq![',', '.', '!', '?', ':', ';'];
    assert forall|m: int| 0 <= m < 6 implies lacks(n, #[trigger] ascii[m]) by {
        assert forall|q: int| 0 <= q < n.len() implies n[q] != ascii[m] by {
            assert(n[q] == full_width(text[q]));
        }
    }
    assert(lacks(n, ascii[0]) && lacks(n, ascii[1]) && lacks(n, ascii[2]) && lacks(n, ascii[3])
        && lacks(n, ascii[4]) && lacks(n, ascii[5]));
    lemma_cleanup_lacks(n, fs, ',');
    lemma_cleanup_lacks(n, fs, '.');
    lemma_cleanup_lacks(n, fs, '!');
    lemma_cleanup_lacks(n, fs, '?');
    lemma_cleanup_lacks(n, fs, ':');
    lemma_cleanup_lacks(n, fs, ';');
}

/// `s` holds no character `c`.
pub open spec fn lacks(s: Seq<char>, c: char) -> bool {
    forall|k: int| 0 <= k < s.len() ==> s[k] != c
}

/// Deleting a pattern introduces no character.
proof fn lemma_remove_from_lacks(s: Seq<char>, p: Seq<char>, i: int, c: char)
    requires
        lacks(s, c),
    ensures
        lacks(remove_from(s, p, i), c),
    decreases s.len() - i,
{
    if i < 0 || i >= s.len() || p.len() == 0 {
    } else if occurs_at(s, p, i) {
        lemma_remove_from_lacks(s, p, i + p.len(), c);
    } else {
        lemma_remove_from_lacks(s, p, i + 1, c);
        let r = remove_from(s, p, i + 1);
        assert forall|k: int| 0 <= k < seq![s[i]].add(r).len() implies seq![s[i]].add(r)[k] != c by {
            if k > 0 {
                assert(seq![s[i]].add(r)[k] == r[k - 1]);
            }
        }
    }
}

/// Deleting a one-character pattern leaves none of it.
proof fn lemma_remove_single(s: Seq<char>, c: char, i: int)
    requires
        0 <= i,
    ensures
        lacks(remove_from(s, seq![c], i), c),
    decreases s.len() - i,
{
    let p = seq![c];
    if i >= s.len() {
    } else if occurs_at(s, p, i) {
        lemma_remove_single(s, c, i + 1);
    } else {
        lemma_remove_single(s, c, i + 1);
        assert(s.subrange(i, i + 1) =~= seq![s[i]]);
        assert(s[i] != c);
        let r = remove_from(s, p, i + 1);
        assert forall|k: int| 0 <= k < seq![s[i]].add(r).len() implies seq![s[i]].add(r)[k] != c by {
            if k > 0 {
                assert(seq![s[i]].add(r)[k] == r[k - 1]);
            }
        }
    }
}

/// Once a one-character filler has been deleted, the later fillers bring
/// it back nowhere.
proof fn lemma_strip_single(s: Seq<char>, fs: Seq<Seq<char>>, c: char)
    requires
        fs.contains(seq![c]),
    ensures
        lacks(strip_fillers(s, fs), c),
    decreases fs.len(),
{
    let prev = strip_fillers(s, fs.drop_last());
    if fs.last() == seq![c] {
        lemma_remove_single(prev, c, 0);
    } else {
        let m = choose|m: int| 0 <= m < fs.len() && fs[m] == seq![c];
        assert(m < fs.len() - 1);
        assert(fs.drop_last()[m] == seq![c]);
        lemma_strip_single(s, fs.drop_last(), c);
        lemma_remove_from_lacks(prev, fs.last(), 0, c);
    }
}

/// Collapsing repetitions introduces no character.
proof fn lemma_collapse_lacks(t: Seq<char>, i: int, c: char)
    requires
        lacks(t, c),
    ensures
        lacks(collapse_from(t, i), c),
    decreases t.len() - i,
{
    if i >= 0 && i < t.len() {
        let k = pick_block(t, i, 10);
        lemma_pick_block(t, i, 10);
        if k >= 2 {
            let j = repeat_end(t, i, k, i + k);
            lemma_collapse_lacks(t, j, c);
            let head = t.subrange(i, i + k);
            let rest = collapse_from(t, j);
            assert forall|m: int| 0 <= m < head.add(rest).len() implies head.add(rest)[m] != c by {
                if m < k {
                    assert(head.add(rest)[m] == t[i + m]);
                } else {
                    assert(head.add(rest)[m] == rest[m - k]);
                }
            }
        } else {
            lemma_collapse_lacks(t, i + 1, c);
            let rest = collapse_from(t, i + 1);
            assert forall|m: int| 0 <= m < seq![t[i]].add(rest).len() implies seq![t[i]].add(rest)[m] != c by {
                if m > 0 {
                    assert(seq![t[i]].add(rest)[m] == rest[m - 1]);
                }
            }
        }
    }
}

/// Filler removal keeps a character out once it is out.
proof fn lemma_strip_lacks(s: Seq<char>, fs: Seq<Seq<char>>, c: char)
    requires
        lacks(s, c),
    ensures
        lacks(strip_fillers(s, fs), c),
    decreases fs.len(),
{
    if fs.len() > 0 {
        lemma_strip_lacks(s, fs.drop_last(), c);
        lemma_remove_from_lacks(strip_fillers(s, fs.drop_last()), fs.last(), 0, c);
    }
}

/// Repeat collapsing and trimming keep a character out once it is out.
proof fn lemma_tail_lacks(a: Seq<char>, c: char)
    requires
        lacks(a, c),
    ensures
        lacks(trim_spec(remove_repeats(a)), c),
{
    let b = remove_repeats(a);
    if a.len() >= 6 {
        lemma_collapse_lacks(a, 0, c);
    }
    let t = b.skip(lead_ws(b) as int);
    lemma_lead_ws(b);
    assert forall|k: int| 0 <= k < t.len() implies t[k] != c by {
        assert(t[k] == b[k + lead_ws(b)]);
    }
    let r = t.take(t.len() - trail_ws(t));
    lemma_trail_ws(t);
    assert forall|k: int| 0 <= k < r.len() implies r[k] != c by {
        assert(r[k] == t[k]);
    }
}

/// The clean-up after normalisation introduces no character.
proof fn lemma_cleanup_lacks(n: Seq<char>, fs: Seq<Seq<char>>, c: char)
    requires
        lacks(n, c),
    ensures
        lacks(trim_spec(remove_repeats(strip_fillers(n, fs))), c),
{
    lemma_strip_lacks(n, fs, c);
    lemma_tail_lacks(strip_fillers(n, fs), c);
}

/// A one-character filler never appears in post-processed text.
pub proof fn law_single_char_filler_removed(st: PostProcessSettings, text: Seq<char>, c: char)
    requires
        fillers_view(st.remove_fillers@).contains(seq![c]),
    ensures
        lacks(processed(st, text), c),
{
    let fs = fillers_view(st.remove_fillers@);
    let n = if st.add_punctuation {
        normalize_punct(text)
    } else {
        text
    };
    lemma_strip_single(n, fs, c);
    lemma_tail_lacks(strip_fillers(n, fs), c);
}

/// Removal from position `a.len() + i` of `a + s` is removal from position
/// `i` of `s`: what comes before the scan start does not matter.
proof fn lemma_remove_from_shift(a: Seq<char>, s: Seq<char>, p: Seq<char>, i: int)
    requires
        0 <= i <= s.len(),
    ensures
        remove_from(a + s, p, a.len() + i) == remove_from(s, p, i),
    decreases s.len() - i,
{
    let t = a + s;
    let j = a.len() + i;
    if i >= s.len() || p.len() == 0 {
        assert(t.subrange(j, t.len() as int) =~= s.subrange(i, s.len() as int));
    } else {
        if j + p.len() <= t.len() {
            assert(t.subrange(j, j + p.len()) =~= s.subrange(i, i + p.len()));
        }
        assert(occurs_at(t, p, j) == occurs_at(s, p, i));
        if occurs_at(s, p, i) {
            lemma_remove_from_shift(a, s, p, i + p.len());
        } else {
            assert(t[j] == s[i]);
            lemma_remove_from_shift(a, s, p, i + 1);
        }
    }
}

/// A filler at the start of a text is removed whatever its length, and
/// removal goes on through the rest of the text: deleting `p` from `p + s`
/// is deleting `p` from `s`.
pub proof fn law_remove_leading_filler(p: Seq<char>, s: Seq<char>)
    requires
        p.len() > 0,
    ensures
        remove_all(p + s, p) == remove_all(s, p),
{
    let t = p + s;
    assert(t.subrange(0, p.len() as int) =~= p);
    assert(occurs_at(t, p, 0));
    lemma_remove_from_shift(p, s, p, 0);
}

/// A character that cannot begin the filler is kept, and removal goes on
/// through the rest of the text.
pub proof fn law_remove_keeps_other_start(c: char, p: Seq<char>, s: Seq<char>)
    requires
        p.len() > 0,
        p[0] != c,
    ensures
        remove_all(seq![c] + s, p) == seq![c] + remove_all(s, p),
{
    let t = seq![c] + s;
    assert(t[0] == c);
    assert(!occurs_at(t, p, 0)) by {
        if occurs_at(t, p, 0) {
            assert(t.subrange(0, p.len() as int)[0] == p[0]);
        }
    }
    lemma_remove_from_shift(seq![c], s, p, 0);
}

/// Every copy of a filler between pieces that hold no character able to
/// begin it is removed: deleting `p` from `y + p + z + p + w` leaves
/// `y + z + w`.
pub proof fn law_remove_every_occurrence(p: Seq<char>, y: Seq<char>, z: Seq<char>, w: Seq<char>)
    requires
        p.len() > 0,
        forall|k: int| 0 <= k < y.len() ==> y[k] != p[0],
        forall|k: int| 0 <= k < z.len() ==> z[k] != p[0],
        forall|k: int| 0 <= k < w.len() ==> w[k] != p[0],
    ensures
        remove_all(y + p + z + p + w, p) == y + z + w,
{
    lemma_remove_plain_prefix(y, p, p + z + p + w);
    law_remove_leading_filler(p, z + p + w);
    assert(p + z + p + w =~= p + (z + p + w));
    lemma_remove_plain_prefix(z, p, p + w);
    assert(z + p + w =~= z + (p + w));
    law_remove_leading_filler(p, w);
    lemma_remove_plain_prefix(w, p, Seq::<char>::empty());
    assert(w + Seq::<char>::empty() =~= w);
    assert(remove_all(Seq::<char>::empty(), p) =~= Seq::<char>::empty());
    assert(y + p + z + p + w =~= y + (p + z + p + w));
    assert(y + (z + (w + Seq::<char>::empty())) =~= y + z + w);
}

/// A prefix holding no character able to begin the filler is kept whole.
proof fn lemma_remove_plain_prefix(y: Seq<char>, p: Seq<char>, s: Seq<char>)
    requires
        p.len() > 0,
        forall|k: int| 0 <= k < y.len() ==> y[k] != p[0],
    ensures
        remove_all(y + s, p) == y + remove_all(s, p),
    decreases y.len(),
{
    if y.len() > 0 {
        let rest = y.drop_first();
        assert forall|k: int| 0 <= k < rest.len() implies rest[k] != p[0] by {
            assert(rest[k] == y[k + 1]);
        }
        lemma_remove_plain_prefix(rest, p, s);
        assert(y + s =~= seq![y[0]] + (rest + s));
        law_remove_keeps_other_start(y[0], p, rest + s);
        assert(seq![y[0]] + (rest + remove_all(s, p)) =~= y + remove_all(s, p));
    } else {
        assert(y + s =~= s);
        assert(y + remove_all(s, p) =~= remove_all(s, p));
    }
}

} // verus!
