//! The operation pipeline builder: every transform flag occurrence in the
//! resolved configuration becomes one (argument-slot index, operation)
//! entry, and the result is ordered by strictly increasing slot index — the
//! order in which a caller must apply the operations, whatever kind of
//! operation occupies a given slot.

use vstd::prelude::*;

use crate::ops::Operation;
use crate::ops::ResizeFilter;
use crate::ops::ResizeRequest;

verus! {

/// The transform-related part of a resolved command configuration: for each
/// operation kind, the (slot index, value) occurrences in command-line
/// order, plus the kind-wide modifiers.
pub struct ResolvedConfig {
    /// Resize occurrences with their argument-slot indices.
    pub resize: Vec<(usize, ResizeRequest)>,
    /// The resampling filter for every resize; defaulted when absent.
    pub filter: Option<ResizeFilter>,
    /// Palette-quantization occurrences with their argument-slot indices.
    pub quantization: Vec<(usize, u8)>,
    /// Dithering strength for every quantization, as a percentage.
    pub dithering: Option<u8>,
}

/// Entries stand in strictly increasing slot-index order.
pub open spec fn sorted_by_index(s: Seq<(usize, Operation)>) -> bool {
    forall|i: int, j: int| 0 <= i < j < s.len() ==> s[i].0 < s[j].0
}

impl ResolvedConfig {
    /// The filter every resize uses.
    pub open spec fn spec_filter(self) -> ResizeFilter {
        match self.filter {
            Some(f) => f,
            None => ResizeFilter::Lanczos3,
        }
    }

    /// The k-th resize occurrence as a pipeline entry, resolved against the
    /// dimensions (w, h) the image has at build time.
    pub open spec fn spec_resize_entry(self, w: int, h: int, k: int) -> (usize, Operation) {
        let idx = self.resize@[k].0;
        let t = self.resize@[k].1.spec_target(w, h);
        (idx, Operation::Resize {
            width: t.0 as usize,
            height: t.1 as usize,
            filter: self.spec_filter(),
        })
    }

    /// The k-th quantization occurrence as a pipeline entry.
    pub open spec fn spec_quantize_entry(self, k: int) -> (usize, Operation) {
        (self.quantization@[k].0, Operation::Quantize {
            colors: self.quantization@[k].1,
            dithering: self.dithering,
        })
    }

    /// Every entry the configuration induces, resize occurrences first.
    pub open spec fn spec_entries(self, w: int, h: int) -> Seq<(usize, Operation)> {
        Seq::new(self.resize@.len(), |k: int| self.spec_resize_entry(w, h, k))
            + Seq::new(self.quantization@.len(), |k: int| self.spec_quantize_entry(k))
    }

    /// The slot indices of all occurrences, in the same order.
    pub open spec fn spec_indices(self) -> Seq<usize> {
        Seq::new(self.resize@.len(), |k: int| self.resize@[k].0)
            + Seq::new(self.quantization@.len(), |k: int| self.quantization@[k].0)
    }

    /// The argument parser assigns slot indices unique across all operation
    /// kinds; the builder depends on this invariant.
    pub open spec fn indices_unique(self) -> bool {
        forall|i: int, j: int|
            0 <= i < j < self.spec_indices().len()
                ==> self.spec_indices()[i] != self.spec_indices()[j]
    }

    /// A configuration the upstream layer may hand over: unique indices,
    /// positive resize targets within machine limits, palette sizes of at
    /// least two, dithering a percentage.
    pub open spec fn wf(self, w: int, h: int) -> bool {
        &&& self.indices_unique()
        &&& forall|k: int| 0 <= k < self.resize@.len()
            ==> (#[trigger] self.resize@[k]).1.valid() && self.resize@[k].1.fits(w, h)
        &&& forall|k: int| 0 <= k < self.quantization@.len()
            ==> (#[trigger] self.quantization@[k]).1 >= 2
        &&& match self.dithering {
            Some(d) => d <= 100,
            None => true,
        }
    }
}

/// A configuration entry's slot index is the matching position of the
/// configuration's index sequence.
proof fn lemma_entry_indices(config: ResolvedConfig, w: int, h: int)
    ensures
        config.spec_entries(w, h).len() == config.spec_indices().len(),
        forall|k: int| 0 <= k < config.spec_entries(w, h).len()
            ==> (#[trigger] config.spec_entries(w, h)[k]).0 == config.spec_indices()[k],
{
    assert forall|k: int| 0 <= k < config.spec_entries(w, h).len()
        implies (#[trigger] config.spec_entries(w, h)[k]).0 == config.spec_indices()[k] by {
        if k < config.resize@.len() {
            assert(config.spec_entries(w, h)[k] == config.spec_resize_entry(w, h, k));
        } else {
            assert(config.spec_entries(w, h)[k]
                == config.spec_quantize_entry(k - config.resize@.len()));
        }
    }
}

/// An element of a prefix of a sequence is an element of any longer prefix.
proof fn lemma_prefix_contains_extend(
    s: Seq<(usize, Operation)>,
    a: int,
    b: int,
    x: (usize, Operation),
)
    requires
        0 <= a <= b <= s.len(),
        s.subrange(0, a).contains(x),
    ensures
        s.subrange(0, b).contains(x),
{
    let i = choose|i: int| 0 <= i < a && s.subrange(0, a)[i] == x;
    assert(s.subrange(0, b)[i] == x);
}

/// Insert an entry whose index occurs nowhere in a sorted pipeline, keeping
/// it sorted and keeping every present entry.
fn insert_sorted(out: &mut Vec<(usize, Operation)>, e: (usize, Operation))
    requires
        sorted_by_index(old(out)@),
        forall|m: int| 0 <= m < old(out)@.len() ==> (#[trigger] old(out)@[m]).0 != e.0,
    ensures
        final(out)@.len() == old(out)@.len() + 1,
        sorted_by_index(final(out)@),
        final(out)@.contains(e),
        forall|j: int| 0 <= j < old(out)@.len() ==> final(out)@.contains(#[trigger] old(out)@[j]),
        forall|m: int| 0 <= m < final(out)@.len()
            ==> (#[trigger] final(out)@[m]) == e || old(out)@.contains(final(out)@[m]),
{
    let mut pos: usize = 0;
    while pos < out.len() && out[pos].0 < e.0
        invariant
            0 <= pos <= out@.len(),
            out@ == old(out)@,
            forall|m: int| 0 <= m < pos ==> (#[trigger] out@[m]).0 < e.0,
        decreases out@.len() - pos,
    {
        pos = pos + 1;
    }
    // Every earlier entry has a smaller index; the entry at `pos`, if any,
    // has a larger one (equality is excluded by the caller's invariant).
    proof {
        if pos < out@.len() {
            assert(out@[pos as int].0 > e.0);
        }
    }
    out.insert(pos, e);
    proof {
        let new = out@;
        let prior = old(out)@;
        assert forall|i: int, j: int| 0 <= i < j < new.len() implies new[i].0 < new[j].0 by {
            if j < pos {
                assert(new[i] == prior[i] && new[j] == prior[j]);
            } else if i < pos && j == pos {
                assert(new[i] == prior[i]);
            } else if i < pos {
                assert(new[i] == prior[i] && new[j] == prior[j - 1]);
            } else if i == pos {
                assert(new[j] == prior[j - 1] && j - 1 >= pos);
            } else {
                assert(new[i] == prior[i - 1] && new[j] == prior[j - 1]);
            }
        }
        assert(new[pos as int] == e);
        assert forall|j: int| 0 <= j < prior.len() implies new.contains(#[trigger] prior[j]) by {
            if j < pos {
                assert(new[j] == prior[j]);
            } else {
                assert(new[j + 1] == prior[j]);
            }
        }
        assert forall|m: int| 0 <= m < new.len()
            implies (#[trigger] new[m]) == e || prior.contains(new[m]) by {
            if m < pos {
                assert(new[m] == prior[m]);
            } else if m > pos {
                assert(new[m] == prior[m - 1]);
            }
        }
    }
}

/// Build the operation pipeline from the resolved configuration and the
/// image's dimensions at build time. Every occurrence of a transform flag
/// becomes exactly one entry, nothing else is added, and entries stand in
/// strictly increasing argument-slot order — the application order.
pub fn operations(config: &ResolvedConfig, width: usize, height: usize)
    -> (r: Vec<(usize, Operation)>)
    requires
        config.wf(width as int, height as int),
    ensures
        r@.len() == config.spec_entries(width as int, height as int).len(),
        sorted_by_index(r@),
        forall|k: int| 0 <= k < config.spec_entries(width as int, height as int).len()
            ==> r@.contains(#[trigger] config.spec_entries(width as int, height as int)[k]),
        forall|m: int| 0 <= m < r@.len()
            ==> config.spec_entries(width as int, height as int).contains(#[trigger] r@[m]),
{
    let ghost w = width as int;
    let ghost h = height as int;
    let ghost se = config.spec_entries(w, h);
    proof {
        lemma_entry_indices(*config, w, h);
    }
    let filter = match config.filter {
        Some(f) => f,
        None => ResizeFilter::Lanczos3,
    };
    let mut out: Vec<(usize, Operation)> = Vec::new();
    let nr = config.resize.len();
    let mut k: usize = 0;
    while k < nr
        invariant
            0 <= k <= nr,
            nr == config.resize@.len(),
            config.wf(w, h),
            filter == config.spec_filter(),
            se == config.spec_entries(w, h),
            width as int == w,
            height as int == h,
            out@.len() == k,
            sorted_by_index(out@),
            forall|j: int| 0 <= j < k ==> out@.contains(#[trigger] se[j]),
            forall|m: int| 0 <= m < out@.len()
                ==> se.subrange(0, k as int).contains(#[trigger] out@[m]),
        decreases nr - k,
    {
        let (idx, req) = config.resize[k];
        let t = req.map_dimensions(width, height);
        let e = (idx, Operation::Resize { width: t.0, height: t.1, filter });
        proof {
            assert(e == se[k as int]);
            lemma_entry_indices(*config, w, h);
            assert forall|m: int| 0 <= m < out@.len()
                implies (#[trigger] out@[m]).0 != e.0 by {
                let j = choose|j: int|
                    0 <= j < k && #[trigger] se.subrange(0, k as int)[j] == out@[m];
                assert(se[j] == out@[m]);
                assert(se[j].0 == config.spec_indices()[j]);
                assert(se[k as int].0 == config.spec_indices()[k as int]);
            }
        }
        let ghost prior = out@;
        insert_sorted(&mut out, e);
        proof {
            assert(se.subrange(0, k + 1)[k as int] == se[k as int]);
            assert forall|m: int| 0 <= m < out@.len()
                implies se.subrange(0, k + 1).contains(#[trigger] out@[m]) by {
                if out@[m] == e {
                    assert(se.subrange(0, k + 1)[k as int] == out@[m]);
                } else {
                    assert(prior.contains(out@[m]));
                    lemma_prefix_contains_extend(se, k as int, k + 1, out@[m]);
                }
            }
        }
        k = k + 1;
    }
    let nq = config.quantization.len();
    let mut k2: usize = 0;
    while k2 < nq
        invariant
            0 <= k2 <= nq,
            nq == config.quantization@.len(),
            nr == config.resize@.len(),
            config.wf(w, h),
            se == config.spec_entries(w, h),
            out@.len() == nr + k2,
            sorted_by_index(out@),
            forall|j: int| 0 <= j < nr + k2 ==> out@.contains(#[trigger] se[j]),
            forall|m: int| 0 <= m < out@.len()
                ==> se.subrange(0, nr + k2).contains(#[trigger] out@[m]),
        decreases nq - k2,
    {
        let (idx, colors) = config.quantization[k2];
        let e = (idx, Operation::Quantize { colors, dithering: config.dithering });
        proof {
            assert(e == se[nr + k2]);
            lemma_entry_indices(*config, w, h);
            assert forall|m: int| 0 <= m < out@.len()
                implies (#[trigger] out@[m]).0 != e.0 by {
                let j = choose|j: int|
                    0 <= j < nr + k2 && #[trigger] se.subrange(0, nr + k2)[j] == out@[m];
                assert(se[j] == out@[m]);
                assert(se[j].0 == config.spec_indices()[j]);
                assert(se[nr + k2].0 == config.spec_indices()[nr + k2]);
            }
        }
        let ghost prior = out@;
        insert_sorted(&mut out, e);
        proof {
            assert(se.subrange(0, nr + k2 + 1)[nr + k2] == se[nr + k2]);
            assert forall|m: int| 0 <= m < out@.len()
                implies se.subrange(0, nr + k2 + 1).contains(#[trigger] out@[m]) by {
                if out@[m] == e {
                    assert(se.subrange(0, nr + k2 + 1)[nr + k2] == out@[m]);
                } else {
                    assert(prior.contains(out@[m]));
                    lemma_prefix_contains_extend(se, nr + k2, nr + k2 + 1, out@[m]);
                }
            }
        }
        k2 = k2 + 1;
    }
    proof {
        assert(se.subrange(0, nr + nq) =~= se);
        assert forall|m: int| 0 <= m < out@.len()
            implies se.contains(#[trigger] out@[m]) by {
            assert(se.subrange(0, nr + nq).contains(out@[m]));
        }
    }
    out
}

/// Application order follows the slot index alone: in a built pipeline, of
/// two entries the one with the smaller argument-slot index stands earlier,
/// whichever kind of operation occupies either slot. Swapping two entries'
/// indices therefore swaps their application order.
pub proof fn lemma_apply_order_follows_index(r: Seq<(usize, Operation)>, i: int, j: int)
    requires
        sorted_by_index(r),
        0 <= i < r.len(),
        0 <= j < r.len(),
        r[i].0 < r[j].0,
    ensures
        i < j,
{
    if i >= j {
        if i > j {
            assert(r[j].0 < r[i].0);
        }
    }
}

/// The pipeline a configuration induces is unique: two sequences of the
/// same entries, both in strictly increasing slot-index order, are equal.
/// With the builder's contract this makes pipeline construction
/// deterministic.
pub proof fn lemma_sorted_pipeline_unique(a: Seq<(usize, Operation)>, b: Seq<(usize, Operation)>)
    requires
        sorted_by_index(a),
        sorted_by_index(b),
        a.len() == b.len(),
        forall|m: int| 0 <= m < a.len() ==> b.contains(#[trigger] a[m]),
        forall|m: int| 0 <= m < b.len() ==> a.contains(#[trigger] b[m]),
    ensures
        a =~= b,
    decreases a.len(),
{
    if a.len() > 0 {
        let p = choose|p: int| 0 <= p < b.len() && b[p] == a[0];
        let q = choose|q: int| 0 <= q < a.len() && a[q] == b[0];
        assert(b[0].0 <= b[p].0);
        assert(a[0].0 <= a[q].0);
        assert(a[0].0 == b[0].0);
        assert(q == 0 && p == 0) by {
            if q > 0 {
                assert(a[0].0 < a[q].0);
            }
            if p > 0 {
                assert(b[0].0 < b[p].0);
            }
        }
        let at = a.subrange(1, a.len() as int);
        let bt = b.subrange(1, b.len() as int);
        assert forall|m: int| 0 <= m < at.len() implies bt.contains(#[trigger] at[m]) by {
            assert(at[m] == a[m + 1]);
            let pm = choose|pm: int| 0 <= pm < b.len() && b[pm] == a[m + 1];
            assert(a[0].0 < a[m + 1].0);
            assert(pm > 0) by {
                if pm == 0 {
                    assert(b[0].0 == a[m + 1].0);
                }
            }
            assert(bt[pm - 1] == a[m + 1]);
        }
        assert forall|m: int| 0 <= m < bt.len() implies at.contains(#[trigger] bt[m]) by {
            assert(bt[m] == b[m + 1]);
            let qm = choose|qm: int| 0 <= qm < a.len() && a[qm] == b[m + 1];
            assert(b[0].0 < b[m + 1].0);
            assert(qm > 0) by {
                if qm == 0 {
                    assert(a[0].0 == b[m + 1].0);
                }
            }
            assert(at[qm - 1] == b[m + 1]);
        }
        lemma_sorted_pipeline_unique(at, bt);
        assert forall|i: int| 0 <= i < a.len() implies a[i] == b[i] by {
            if i > 0 {
                assert(at[i - 1] == bt[i - 1]);
            }
        }
    }
}

} // verus!
