//! Decisions of the model download: which sources to try, the file names
//! used, and the integrity check of what arrived.

use vstd::prelude::*;

use sha1::{Digest, Sha1};

use crate::text::{ascii_lower, ascii_lower_exec, chars_of, push_str, string_of, trim_spec, trim_str};

verus! {

/// The download sources: the primary URL then the mirrors, skipping those
/// that are blank after trimming.
pub open spec fn candidate_urls_of(primary: Seq<char>, mirrors: Seq<Seq<char>>) -> Seq<Seq<char>> {
    seq![primary].add(mirrors).filter(|u: Seq<char>| trim_spec(u).len() > 0)
}

/// Executable [`candidate_urls_of`].
pub fn candidate_urls(primary: &str, mirrors: &[String]) -> (r: Vec<String>)
    ensures
        r@.map_values(|u: String| u@) == candidate_urls_of(primary@, mirrors@.map_values(|u: String| u@)),
{
    let ghost all = seq![primary@].add(mirrors@.map_values(|u: String| u@));
    let ghost keep = |u: Seq<char>| trim_spec(u).len() > 0;
    let mut out: Vec<String> = Vec::new();
    if !trim_str(primary).as_str().is_empty() {
        out.push(primary.to_owned());
    }
    proof {
        reveal_with_fuel(Seq::filter, 2);
        assert(all.take(1) =~= seq![primary@]);
        assert(seq![primary@].drop_last() =~= Seq::<Seq<char>>::empty());
        assert(out@.map_values(|u: String| u@) =~= all.take(1).filter(keep));
    }
    let mut i: usize = 0;
    while i < mirrors.len()
        invariant
            i <= mirrors.len(),
            all == seq![primary@].add(mirrors@.map_values(|u: String| u@)),
            keep == (|u: Seq<char>| trim_spec(u).len() > 0),
            out@.map_values(|u: String| u@) == all.take(i + 1).filter(keep),
        decreases mirrors.len() - i,
    {
        let t = trim_str(mirrors[i].as_str());
        let ghost before = out@.map_values(|u: String| u@);
        if !t.as_str().is_empty() {
            out.push(mirrors[i].clone());
        }
        proof {
            reveal_with_fuel(Seq::filter, 1);
            assert(all.take(i + 2).drop_last() =~= all.take(i + 1));
            assert(all[i + 1] == mirrors@[i as int]@);
            if t@.len() > 0 {
                assert(out@.map_values(|u: String| u@) =~= before.push(mirrors@[i as int]@));
            } else {
                assert(out@.map_values(|u: String| u@) =~= before);
            }
        }
        i = i + 1;
    }
    assert(all.take(mirrors.len() + 1) =~= all);
    out
}

/// The temporary file a download is written to before it is checked:
/// the model file name with `.tmp` appended.
pub open spec fn temp_file_name_of(file_name: Seq<char>) -> Seq<char> {
    file_name + ".tmp"@
}

/// Executable [`temp_file_name_of`].
pub fn temp_file_name(file_name: &str) -> (r: String)
    ensures
        r@ == temp_file_name_of(file_name@),
{
    let mut out: Vec<char> = Vec::new();
    push_str(&mut out, file_name);
    push_str(&mut out, ".tmp");
    string_of(out.as_slice())
}

/// `str::eq_ignore_ascii_case`.
pub open spec fn eq_ignore_ascii_case_spec(a: Seq<char>, b: Seq<char>) -> bool {
    a.len() == b.len() && forall|i: int| 0 <= i < a.len() ==> #[trigger] ascii_lower(a[i]) == ascii_lower(b[i])
}

/// Executable [`eq_ignore_ascii_case_spec`].
pub fn eq_ignore_ascii_case(a: &str, b: &str) -> (r: bool)
    ensures
        r == eq_ignore_ascii_case_spec(a@, b@),
{
    let x = chars_of(a);
    let y = chars_of(b);
    if x.len() != y.len() {
        return false;
    }
    let mut i: usize = 0;
    while i < x.len()
        invariant
            x@ == a@,
            y@ == b@,
            x.len() == y.len(),
            i <= x.len(),
            forall|k: int| 0 <= k < i ==> #[trigger] ascii_lower(x@[k]) == ascii_lower(y@[k]),
        decreases x.len() - i,
    {
        if ascii_lower_exec(x[i]) != ascii_lower_exec(y[i]) {
            assert(!(ascii_lower(x@[i as int]) == ascii_lower(y@[i as int])));
            return false;
        }
        i = i + 1;
    }
    true
}

/// Whether a download whose digest prints as `computed` may be kept: the
/// expected checksum is empty (unknown) or matches ignoring ASCII case.
pub open spec fn checksum_ok(computed: Seq<char>, expected: Seq<char>) -> bool {
    expected.len() == 0 || eq_ignore_ascii_case_spec(computed, expected)
}

/// Executable [`checksum_ok`].
pub fn checksum_matches(computed: &str, expected: &str) -> (r: bool)
    ensures
        r == checksum_ok(computed@, expected@),
{
    expected.is_empty() || eq_ignore_ascii_case(computed, expected)
}

/// The lower-case hexadecimal digit for `d < 16`.
pub open spec fn hex_digit(d: nat) -> char {
    if d < 10 {
        ((d + 48) as u8) as char
    } else {
        ((d + 87) as u8) as char
    }
}

/// `format!("{:x}", bytes)` of a digest: two lower-case hex digits per byte.
pub open spec fn hex_lower_of(bytes: Seq<u8>) -> Seq<char>
    decreases bytes.len(),
{
    if bytes.len() == 0 {
        seq![]
    } else {
        hex_lower_of(bytes.drop_last()) + seq![
            hex_digit((bytes.last() / 16) as nat),
            hex_digit((bytes.last() % 16) as nat),
        ]
    }
}

fn hex_digit_exec(d: u8) -> (c: char)
    requires
        d < 16,
    ensures
        c == hex_digit(d as nat),
{
    if d < 10 {
        (d + 48) as char
    } else {
        (d + 87) as char
    }
}

/// Executable [`hex_lower_of`].
pub fn hex_lower(bytes: &[u8]) -> (r: String)
    ensures
        r@ == hex_lower_of(bytes@),
{
    let mut out: Vec<char> = Vec::new();
    let mut i: usize = 0;
    while i < bytes.len()
        invariant
            i <= bytes.len(),
            out@ == hex_lower_of(bytes@.take(i as int)),
        decreases bytes.len() - i,
    {
        let b = bytes[i];
        out.push(hex_digit_exec(b / 16));
        out.push(hex_digit_exec(b % 16));
        i = i + 1;
        assert(bytes@.take(i as int).drop_last() =~= bytes@.take(i - 1));
        assert(out@ =~= hex_lower_of(bytes@.take(i as int)));
    }
    assert(bytes@.take(bytes.len() as int) =~= bytes@);
    string_of(out.as_slice())
}

/// The SHA-1 digest of a byte string.
pub uninterp spec fn sha1_of(data: Seq<u8>) -> Seq<u8>;

/// `Sha1::digest` (sha1 crate): the 20-byte SHA-1 digest of `data`, named
/// `sha1_of`; the hash function itself is not restated.
#[verifier::external_body]
fn sha1_digest(data: &[u8]) -> (r: Vec<u8>)
    ensures
        r@ == sha1_of(data@),
        r@.len() == 20,
{
    Sha1::digest(data).to_vec()
}

/// The SHA-1 checksum of `data` as lower-case hex.
pub fn sha1_hex(data: &[u8]) -> (r: String)
    ensures
        r@ == hex_lower_of(sha1_of(data@)),
{
    let d = sha1_digest(data);
    hex_lower(d.as_slice())
}

/// Whether downloaded bytes pass the checksum check against `expected`.
pub fn verify_download(data: &[u8], expected: &str) -> (r: bool)
    ensures
        r == checksum_ok(hex_lower_of(sha1_of(data@)), expected@),
{
    let h = sha1_hex(data);
    checksum_matches(h.as_str(), expected)
}

/// What fetching one download source gave.
pub enum SourceOutcome {
    /// The request or the transfer failed.
    FetchFailed,
    /// The file arrived; its SHA-1 digest as hexadecimal.
    Fetched { digest_hex: String },
}

/// Why a model download failed.
#[derive(Debug, Clone, Copy, PartialEq, Eq, Structural)]
pub enum DownloadError {
    /// The model has no download source.
    NoSources,
    /// The last source tried could not be fetched.
    FetchFailed,
    /// The last source tried delivered a file that failed the checksum.
    ChecksumMismatch,
}

/// A source whose file arrived and passed the checksum against `expected`.
pub open spec fn source_accepted(o: SourceOutcome, expected: Seq<char>) -> bool {
    match o {
        SourceOutcome::Fetched { digest_hex } => checksum_ok(digest_hex@, expected),
        SourceOutcome::FetchFailed => false,
    }
}

/// The error a rejected source leaves behind.
pub open spec fn source_error(o: SourceOutcome) -> DownloadError {
    match o {
        SourceOutcome::FetchFailed => DownloadError::FetchFailed,
        SourceOutcome::Fetched { .. } => DownloadError::ChecksumMismatch,
    }
}

/// The outcome of a download over its sources tried in order (the primary
/// URL, then the mirrors): the first source whose file passes the checksum
/// is kept; with none, the error of the last source tried; with no source
/// at all, [`DownloadError::NoSources`].
pub fn download_verdict(outcomes: &[SourceOutcome], expected: &str) -> (r: Result<usize, DownloadError>)
    ensures
        outcomes@.len() == 0 ==> r == Err::<usize, DownloadError>(DownloadError::NoSources),
        r matches Ok(i) ==> i < outcomes@.len() && source_accepted(outcomes@[i as int], expected@)
            && forall|j: int| 0 <= j < i ==> !source_accepted(#[trigger] outcomes@[j], expected@),
        (exists|j: int| 0 <= j < outcomes@.len() && source_accepted(#[trigger] outcomes@[j], expected@))
            ==> r is Ok,
        outcomes@.len() > 0 && r is Err ==> r == Err::<usize, DownloadError>(
            source_error(outcomes@.last()),
        ),
{
    if outcomes.len() == 0 {
        return Err(DownloadError::NoSources);
    }
    let mut i: usize = 0;
    while i < outcomes.len()
        invariant
            i <= outcomes@.len(),
            outcomes@.len() > 0,
            forall|j: int| 0 <= j < i ==> !source_accepted(#[trigger] outcomes@[j], expected@),
        decreases outcomes.len() - i,
    {
        let ok = match &outcomes[i] {
            SourceOutcome::Fetched { digest_hex } => checksum_matches(digest_hex.as_str(), expected),
            SourceOutcome::FetchFailed => false,
        };
        if ok {
            return Ok(i);
        }
        i = i + 1;
    }
    let last = outcomes.len() - 1;
    match &outcomes[last] {
        SourceOutcome::FetchFailed => Err(DownloadError::FetchFailed),
        SourceOutcome::Fetched { .. } => Err(DownloadError::ChecksumMismatch),
    }
}

} // verus!
