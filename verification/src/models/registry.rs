//! Catalog entries and the choice of the catalog in use.

use vstd::prelude::*;

use std::path::PathBuf;

verus! {

/// Disk and video memory a model needs, in MiB.
#[derive(Debug, Clone, Copy, PartialEq, Eq, Structural)]
pub struct ModelSize {
    pub disk_mb: u64,
    pub vram_mb: u64,
}

/// One downloadable model. The speed factor relative to real time is held
/// in thousandths (`speed_multiplier_milli == 1500` is 1.5×).
pub struct ModelInfo {
    pub id: String,
    pub display_name: String,
    pub size: ModelSize,
    pub speed_multiplier_milli: u32,
    pub quality_stars: u8,
    pub is_english_only: bool,
    pub sha1: String,
    pub download_url: String,
    pub mirror_urls: Vec<String>,
    pub local_path: Option<PathBuf>,
    pub is_downloaded: bool,
}

/// The catalog of downloadable models (read from `model-catalog.json`).
pub struct ModelRegistry;

/// The first catalog among `attempts` that was read and parsed.
pub open spec fn first_parsed<T>(attempts: Seq<Option<T>>) -> Option<T>
    decreases attempts.len(),
{
    if attempts.len() == 0 {
        None
    } else if attempts[0] is Some {
        attempts[0]
    } else {
        first_parsed(attempts.drop_first())
    }
}

impl ModelRegistry {
    /// The catalog in use: the first external catalog file that was read
    /// and parsed (next to the program, then in the working directory),
    /// else the embedded catalog, else no models.
    pub fn choose_catalog<T>(external: Vec<Option<T>>, embedded: Option<T>) -> (r: Option<T>)
        ensures
            r == (match first_parsed(external@) {
                Some(c) => Some(c),
                None => embedded,
            }),
    {
        let ghost all = external@;
        let mut rest = external;
        let ghost mut k: int = 0;
        while rest.len() > 0
            invariant
                0 <= k <= all.len(),
                all == external@,
                rest@ == all.skip(k),
                forall|j: int| 0 <= j < k ==> all[j] is None,
            decreases rest.len(),
        {
            let next = rest.remove(0);
            proof {
                assert(next == all[k]);
                lemma_first_parsed_skip(all, k);
            }
            if next.is_some() {
                proof {
                    assert(all.skip(k)[0] == next);
                    assert(first_parsed(all.skip(k)) == next);
                }
                return next;
            }
            proof {
                assert(rest@ =~= all.skip(k + 1));
                k = k + 1;
            }
        }
        proof {
            assert(k == all.len());
            lemma_first_parsed_none(all);
        }
        embedded
    }

    /// Records which models are on disk: a model whose file was found gets
    /// its path and is marked downloaded; the others are left as they are.
    pub fn mark_downloaded(models: &mut Vec<ModelInfo>, found: Vec<Option<PathBuf>>)
        requires
            found@.len() == old(models)@.len(),
        ensures
            final(models)@.len() == old(models)@.len(),
            forall|i: int|
                0 <= i < old(models)@.len() ==> (#[trigger] final(models)@[i]) == (match found@[i] {
                    Some(p) => ModelInfo { local_path: Some(p), is_downloaded: true, ..old(models)@[i] },
                    None => old(models)@[i],
                }),
    {
        let ghost o = models@;
        let ghost f = found@;
        let mut found = found;
        let mut i: usize = found.len();
        while i > 0
            invariant
                i <= f.len(),
                f.len() == o.len(),
                models@.len() == o.len(),
                found@ == f.take(i as int),
                forall|k: int| 0 <= k < i ==> #[trigger] models@[k] == o[k],
                forall|k: int|
                    i <= k < o.len() ==> (#[trigger] models@[k]) == (match f[k] {
                        Some(p) => ModelInfo { local_path: Some(p), is_downloaded: true, ..o[k] },
                        None => o[k],
                    }),
            decreases i,
        {
            i = i - 1;
            let entry = found.pop().unwrap();
            proof {
                assert(entry == f[i as int]);
                assert(found@ =~= f.take(i as int));
            }
            if let Some(p) = entry {
                models[i].local_path = Some(p);
                models[i].is_downloaded = true;
            }
        }
    }
}

/// Skipping the first `k` attempts, all failed, changes no outcome.
proof fn lemma_first_parsed_skip<T>(all: Seq<Option<T>>, k: int)
    requires
        0 <= k <= all.len(),
        forall|j: int| 0 <= j < k ==> all[j] is None,
    ensures
        first_parsed(all) == first_parsed(all.skip(k)),
    decreases k,
{
    if k > 0 {
        lemma_first_parsed_skip(all.drop_first(), k - 1);
        assert(all.drop_first().skip(k - 1) =~= all.skip(k));
    } else {
        assert(all.skip(0) =~= all);
    }
}

/// With every attempt failed there is no parsed catalog.
proof fn lemma_first_parsed_none<T>(all: Seq<Option<T>>)
    requires
        forall|j: int| 0 <= j < all.len() ==> all[j] is None,
    ensures
        first_parsed(all) is None,
    decreases all.len(),
{
    if all.len() > 0 {
        lemma_first_parsed_none(all.drop_first());
    }
}

} // verus!
