//! Export of timed transcripts as plain text, SubRip and WebVTT.

use vstd::prelude::*;

use crate::text::{chars_of, dec, dec_chars, pad_dec, push_chars, push_padded, push_str, str_eq, string_of, trim_chars, trim_spec};
use crate::transcription::opencc::{chinese_text_of, convert_chinese_text};
use crate::whisper::TranscriptSegment;

verus! {

/// The file formats a transcript can be exported in.
#[derive(Debug, Clone, Copy, PartialEq, Eq, Structural)]
pub enum ExportFormat {
    Txt,
    Srt,
    Vtt,
}

impl ExportFormat {
    /// `"srt"` and `"vtt"` select those formats; anything else is plain text.
    pub fn from_extension(s: &str) -> (r: Self)
        ensures
            r == (if s@ == "srt"@ {
                ExportFormat::Srt
            } else if s@ == "vtt"@ {
                ExportFormat::Vtt
            } else {
                ExportFormat::Txt
            }),
    {
        if str_eq(s, "srt") {
            ExportFormat::Srt
        } else if str_eq(s, "vtt") {
            ExportFormat::Vtt
        } else {
            ExportFormat::Txt
        }
    }

    /// The file extension of the format, without the dot.
    pub fn extension(&self) -> (r: &'static str)
        ensures
            r@ == (match *self {
                ExportFormat::Txt => "txt"@,
                ExportFormat::Srt => "srt"@,
                ExportFormat::Vtt => "vtt"@,
            }),
    {
        match self {
            ExportFormat::Txt => "txt",
            ExportFormat::Srt => "srt",
            ExportFormat::Vtt => "vtt",
        }
    }
}

/// The export format a format setting names: `"srt"`, `"vtt"`, else plain text.
pub open spec fn export_format_named(s: Seq<char>) -> ExportFormat {
    if s == "srt"@ {
        ExportFormat::Srt
    } else if s == "vtt"@ {
        ExportFormat::Vtt
    } else {
        ExportFormat::Txt
    }
}

/// The extension of `format`, without the dot.
pub open spec fn extension_of(format: ExportFormat) -> Seq<char> {
    match format {
        ExportFormat::Txt => "txt"@,
        ExportFormat::Srt => "srt"@,
        ExportFormat::Vtt => "vtt"@,
    }
}

/// The suggested file name for a transcript of the media file whose name
/// without extension is `stem`: the stem, a dot and the format's extension.
pub fn export_file_name(stem: &str, format: ExportFormat) -> (r: String)
    ensures
        r@ == stem@ + "."@ + extension_of(format),
{
    let mut out = chars_of(stem);
    push_str(&mut out, ".");
    push_str(&mut out, format.extension());
    string_of(out.as_slice())
}

/// `parts` joined with `sep` between neighbours.
pub open spec fn join(parts: Seq<Seq<char>>, sep: Seq<char>) -> Seq<char>
    decreases parts.len(),
{
    if parts.len() == 0 {
        seq![]
    } else if parts.len() == 1 {
        parts[0]
    } else {
        join(parts.drop_last(), sep) + sep + parts.last()
    }
}

/// `parts` concatenated.
pub open spec fn concat_all(parts: Seq<Seq<char>>) -> Seq<char>
    decreases parts.len(),
{
    if parts.len() == 0 {
        seq![]
    } else {
        concat_all(parts.drop_last()) + parts.last()
    }
}

/// A time stamp `HH:MM:SS<sep>mmm`; negative times count as zero.
pub open spec fn clock_ms(ms: int, sep: char) -> Seq<char> {
    let t: nat = if ms < 0 {
        0
    } else {
        ms as nat
    };
    pad_dec(t / 3_600_000, 2) + seq![':'] + pad_dec((t % 3_600_000) / 60_000, 2) + seq![':']
        + pad_dec((t % 60_000) / 1_000, 2) + seq![sep] + pad_dec(t % 1_000, 3)
}

/// SubRip cue `n` (counted from 1) for `seg`.
pub open spec fn srt_cue(n: nat, seg: TranscriptSegment) -> Seq<char> {
    dec(n) + "\n"@ + clock_ms(seg.start_ms as int, ',') + " --> "@ + clock_ms(seg.end_ms as int, ',')
        + "\n"@ + trim_spec(seg.text@) + "\n"@
}

/// WebVTT cue for `seg`.
pub open spec fn vtt_cue(seg: TranscriptSegment) -> Seq<char> {
    clock_ms(seg.start_ms as int, '.') + " --> "@ + clock_ms(seg.end_ms as int, '.') + "\n"@
        + trim_spec(seg.text@) + "\n\n"@
}

/// The SubRip document for `segs`: cues separated by blank lines.
pub open spec fn srt_doc(segs: Seq<TranscriptSegment>) -> Seq<char> {
    join(Seq::new(segs.len(), |i: int| srt_cue((i + 1) as nat, segs[i])), "\n"@)
}

/// The WebVTT document for `segs`.
pub open spec fn vtt_doc(segs: Seq<TranscriptSegment>) -> Seq<char> {
    "WEBVTT\n\n"@ + concat_all(Seq::new(segs.len(), |i: int| vtt_cue(segs[i])))
}

/// The plain-text document: segment texts, one per line.
pub open spec fn txt_doc(segs: Seq<TranscriptSegment>) -> Seq<char> {
    join(Seq::new(segs.len(), |i: int| segs[i].text@), "\n"@)
}

/// The document for `segs` in `format`.
pub open spec fn transcript_doc(segs: Seq<TranscriptSegment>, format: ExportFormat) -> Seq<char> {
    match format {
        ExportFormat::Txt => txt_doc(segs),
        ExportFormat::Srt => srt_doc(segs),
        ExportFormat::Vtt => vtt_doc(segs),
    }
}

proof fn lemma_join_step(parts: Seq<Seq<char>>, sep: Seq<char>, i: int)
    requires
        1 <= i < parts.len(),
    ensures
        join(parts.take(i + 1), sep) == join(parts.take(i), sep) + sep + parts[i],
{
    assert(parts.take(i + 1).drop_last() == parts.take(i));
}

proof fn lemma_concat_step(parts: Seq<Seq<char>>, i: int)
    requires
        0 <= i < parts.len(),
    ensures
        concat_all(parts.take(i + 1)) == concat_all(parts.take(i)) + parts[i],
{
    assert(parts.take(i + 1).drop_last() == parts.take(i));
}

fn push_clock(out: &mut Vec<char>, ms: i64, sep: char)
    ensures
        final(out)@ == old(out)@ + clock_ms(ms as int, sep),
{
    let t: u64 = if ms < 0 {
        0
    } else {
        ms as u64
    };
    let ghost start = out@;
    push_padded(out, t / 3_600_000, 2);
    out.push(':');
    push_padded(out, (t % 3_600_000) / 60_000, 2);
    out.push(':');
    push_padded(out, (t % 60_000) / 1_000, 2);
    out.push(sep);
    push_padded(out, t % 1_000, 3);
    assert(out@ =~= start + clock_ms(ms as int, sep));
}

/// `HH:MM:SS,mmm`, the SubRip time stamp of `ms`.
fn ms_to_srt(ms: i64) -> (r: String)
    ensures
        r@ == clock_ms(ms as int, ','),
{
    let mut out: Vec<char> = Vec::new();
    push_clock(&mut out, ms, ',');
    assert(out@ =~= clock_ms(ms as int, ','));
    string_of(out.as_slice())
}

/// `HH:MM:SS.mmm`, the WebVTT time stamp of `ms`.
fn ms_to_vtt(ms: i64) -> (r: String)
    ensures
        r@ == clock_ms(ms as int, '.'),
{
    let mut out: Vec<char> = Vec::new();
    push_clock(&mut out, ms, '.');
    assert(out@ =~= clock_ms(ms as int, '.'));
    string_of(out.as_slice())
}

fn push_srt_cue(out: &mut Vec<char>, n: usize, seg: &TranscriptSegment)
    ensures
        final(out)@ == old(out)@ + srt_cue(n as nat, *seg),
{
    let ghost start = out@;
    let num = dec_chars(n as u64);
    push_chars(out, num.as_slice());
    push_str(out, "\n");
    let a = ms_to_srt(seg.start_ms);
    push_str(out, a.as_str());
    push_str(out, " --> ");
    let b = ms_to_srt(seg.end_ms);
    push_str(out, b.as_str());
    push_str(out, "\n");
    let tc = chars_of(seg.text.as_str());
    let t = trim_chars(tc.as_slice());
    push_chars(out, t.as_slice());
    push_str(out, "\n");
    assert(out@ =~= start + srt_cue(n as nat, *seg));
}

fn push_vtt_cue(out: &mut Vec<char>, seg: &TranscriptSegment)
    ensures
        final(out)@ == old(out)@ + vtt_cue(*seg),
{
    let ghost start = out@;
    let a = ms_to_vtt(seg.start_ms);
    push_str(out, a.as_str());
    push_str(out, " --> ");
    let b = ms_to_vtt(seg.end_ms);
    push_str(out, b.as_str());
    push_str(out, "\n");
    let tc = chars_of(seg.text.as_str());
    let t = trim_chars(tc.as_slice());
    push_chars(out, t.as_slice());
    push_str(out, "\n\n");
    assert(out@ =~= start + vtt_cue(*seg));
}

fn format_srt(segments: &[TranscriptSegment]) -> (r: String)
    ensures
        r@ == srt_doc(segments@),
{
    let ghost cues = Seq::new(segments@.len(), |i: int| srt_cue((i + 1) as nat, segments@[i]));
    let mut out: Vec<char> = Vec::new();
    let mut i: usize = 0;
    while i < segments.len()
        invariant
            i <= segments.len(),
            cues == Seq::new(segments@.len(), |i: int| srt_cue((i + 1) as nat, segments@[i])),
            out@ == join(cues.take(i as int), "\n"@),
        decreases segments.len() - i,
    {
        let ghost before = out@;
        if i > 0 {
            push_str(&mut out, "\n");
        }
        push_srt_cue(&mut out, i + 1, &segments[i]);
        proof {
            if i > 0 {
                lemma_join_step(cues, "\n"@, i as int);
                assert(out@ =~= before + "\n"@ + cues[i as int]);
            } else {
                assert(out@ =~= cues[0]);
                assert(cues.take(1) =~= seq![cues[0]]);
            }
        }
        i = i + 1;
    }
    assert(cues.take(segments.len() as int) =~= cues);
    string_of(out.as_slice())
}

fn format_vtt(segments: &[TranscriptSegment]) -> (r: String)
    ensures
        r@ == vtt_doc(segments@),
{
    let ghost cues = Seq::new(segments@.len(), |i: int| vtt_cue(segments@[i]));
    let mut out: Vec<char> = Vec::new();
    push_str(&mut out, "WEBVTT\n\n");
    let mut i: usize = 0;
    assert(cues.take(0) =~= Seq::<Seq<char>>::empty());
    assert(out@ =~= "WEBVTT\n\n"@ + concat_all(cues.take(0)));
    while i < segments.len()
        invariant
            i <= segments.len(),
            cues == Seq::new(segments@.len(), |i: int| vtt_cue(segments@[i])),
            out@ == "WEBVTT\n\n"@ + concat_all(cues.take(i as int)),
        decreases segments.len() - i,
    {
        let ghost before = out@;
        push_vtt_cue(&mut out, &segments[i]);
        proof {
            lemma_concat_step(cues, i as int);
            assert(out@ =~= before + cues[i as int]);
        }
        i = i + 1;
    }
    assert(cues.take(segments.len() as int) =~= cues);
    string_of(out.as_slice())
}

fn format_txt(segments: &[TranscriptSegment]) -> (r: String)
    ensures
        r@ == txt_doc(segments@),
{
    let ghost lines = Seq::new(segments@.len(), |i: int| segments@[i].text@);
    let mut out: Vec<char> = Vec::new();
    let mut i: usize = 0;
    while i < segments.len()
        invariant
            i <= segments.len(),
            lines == Seq::new(segments@.len(), |i: int| segments@[i].text@),
            out@ == join(lines.take(i as int), "\n"@),
        decreases segments.len() - i,
    {
        let ghost before = out@;
        if i > 0 {
            push_str(&mut out, "\n");
        }
        push_str(&mut out, segments[i].text.as_str());
        proof {
            if i > 0 {
                lemma_join_step(lines, "\n"@, i as int);
                assert(out@ =~= before + "\n"@ + lines[i as int]);
            } else {
                assert(out@ =~= lines[0]);
                assert(lines.take(1) =~= seq![lines[0]]);
            }
        }
        i = i + 1;
    }
    assert(lines.take(segments.len() as int) =~= lines);
    string_of(out.as_slice())
}

/// The transcript `segments` as a document in `format`.
pub fn format_transcript(segments: &[TranscriptSegment], format: ExportFormat) -> (r: String)
    ensures
        r@ == transcript_doc(segments@, format),
{
    match format {
        ExportFormat::Txt => format_txt(segments),
        ExportFormat::Srt => format_srt(segments),
        ExportFormat::Vtt => format_vtt(segments),
    }
}

/// The text a file transcription shows: the segments exported in the
/// format named by `fmt`, then put through the script conversion step.
pub fn file_result_text(segs: &[TranscriptSegment], fmt: &str, opencc_enabled: bool, mode: &str) -> (r: String)
    ensures
        r@ == chinese_text_of(transcript_doc(segs@, export_format_named(fmt@)), opencc_enabled, mode@),
{
    let format = ExportFormat::from_extension(fmt);
    let doc = format_transcript(segs, format);
    convert_chinese_text(doc.as_str(), opencc_enabled, mode)
}

/// A time stamp reads back as its time: for a time `ms` that is `h` hours,
/// `m` minutes, `s` seconds and `x` milliseconds, the stamp shows exactly
/// those four numbers, padded to two, two, two and three digits.
pub proof fn law_clock_reads_back(ms: int, sep: char, h: nat, m: nat, s: nat, x: nat)
    requires
        m < 60,
        s < 60,
        x < 1000,
        ms == h * 3_600_000 + m * 60_000 + s * 1_000 + x,
    ensures
        clock_ms(ms, sep) == pad_dec(h, 2) + seq![':'] + pad_dec(m, 2) + seq![':'] + pad_dec(s, 2)
            + seq![sep] + pad_dec(x, 3),
{
    let t = ms;
    let hi: int = h as int;
    let mi: int = m as int;
    let si: int = s as int;
    let xi: int = x as int;
    let rem: int = mi * 60_000 + si * 1_000 + xi;
    let low: int = si * 1_000 + xi;
    assert(0 <= rem < 3_600_000 && 0 <= low < 60_000) by (nonlinear_arith)
        requires
            rem == mi * 60_000 + si * 1_000 + xi,
            low == si * 1_000 + xi,
            0 <= mi < 60,
            0 <= si < 60,
            0 <= xi < 1000,
    ;
    assert(t == hi * 3_600_000 + rem);
    vstd::arithmetic::div_mod::lemma_fundamental_div_mod_converse(t, 3_600_000, hi, rem);
    vstd::arithmetic::div_mod::lemma_fundamental_div_mod_converse(rem, 60_000, mi, low);
    assert(t == (hi * 60 + mi) * 60_000 + low) by (nonlinear_arith)
        requires
            t == hi * 3_600_000 + mi * 60_000 + si * 1_000 + xi,
            low == si * 1_000 + xi,
    ;
    vstd::arithmetic::div_mod::lemma_fundamental_div_mod_converse(t, 60_000, hi * 60 + mi, low);
    vstd::arithmetic::div_mod::lemma_fundamental_div_mod_converse(low, 1_000, si, xi);
    assert(t == (hi * 3600 + mi * 60 + si) * 1_000 + xi) by (nonlinear_arith)
        requires
            t == hi * 3_600_000 + mi * 60_000 + si * 1_000 + xi,
    ;
    vstd::arithmetic::div_mod::lemma_fundamental_div_mod_converse(t, 1_000, hi * 3600 + mi * 60 + si, xi);
}

} // verus!
