//! Threat signatures and the decision whether an archive matches one.
use vstd::prelude::*;
use crate::archive::ArchiveSnapshot;
use crate::text::{any_frag_in, chars_of_all, any_fragment_present, lowered, lowered_chars, seqs_of};

verus! {

/// Lower bound of the weight tolerance, in thousandths of a KiB per tenth of a KiB (0.95 × 1024 × 100).
pub const WEIGHT_LOW_FACTOR: u128 = 97280;

/// Upper bound of the weight tolerance, in thousandths of a KiB per tenth of a KiB (1.05 × 1024 × 100).
pub const WEIGHT_HIGH_FACTOR: u128 = 107520;

/// One known threat: the evidence that identifies it and the policy that decides a match.
///
/// Fragments are compared case-insensitively; sizes are given in tenths of a KiB.
#[derive(Clone, Debug)]
pub struct CheatInfo {
    /// Path fragments whose presence in an entry name is the directory signal.
    pub directories: Vec<String>,
    /// File-name fragments whose presence in an entry name is the class signal.
    pub classes: Vec<String>,
    /// Fragments of well-known libraries that rule the signature out in strict mode.
    pub exclude_dirs: Vec<String>,
    /// Target sizes in tenths of a KiB; a file within 5% of one is the weight signal.
    pub sizes_kb_tenths: Vec<u64>,
    /// Human-readable label.
    pub description: String,
    /// Strict policy: every declared structural signal is required.
    pub strict_mode: bool,
    /// Lenient policy: the number of signals required.
    pub min_conditions: usize,
}

/// Which of the three signals an archive satisfied.
#[derive(Clone, Copy, Debug, PartialEq, Eq, Structural)]
pub struct SignalSet {
    pub directory: bool,
    pub class: bool,
    pub weight: bool,
}

/// The outcome of weighing one archive against one signature.
#[derive(Clone, Copy, Debug, PartialEq, Eq, Structural)]
pub struct Evaluation {
    /// The signals found; all false when the signature was skipped.
    pub signals: SignalSet,
    /// Whether the archive is judged to be this threat.
    pub matched: bool,
}

impl SignalSet {
    /// No signal at all.
    pub open spec fn none() -> SignalSet {
        SignalSet { directory: false, class: false, weight: false }
    }

    /// The number of signals satisfied.
    pub open spec fn count(self) -> nat {
        (if self.directory { 1nat } else { 0nat }) + (if self.class { 1nat } else { 0nat }) + (
        if self.weight {
            1nat
        } else {
            0nat
        })
    }

    /// The number of signals satisfied.
    pub fn score(&self) -> (r: usize)
        ensures
            r == self.count(),
    {
        let mut r: usize = 0;
        if self.directory {
            r = r + 1;
        }
        if self.class {
            r = r + 1;
        }
        if self.weight {
            r = r + 1;
        }
        r
    }
}

/// A file of `size_bytes` bytes lies within 5% of `target_tenths` tenths of a KiB, bounds included.
pub open spec fn weight_fits(size_bytes: int, target_tenths: int) -> bool {
    &&& WEIGHT_LOW_FACTOR * target_tenths <= 1000 * size_bytes
    &&& 1000 * size_bytes <= WEIGHT_HIGH_FACTOR * target_tenths
}

/// The file size fits some target size.
pub open spec fn weight_signal(size_bytes: u64, targets: Seq<u64>) -> bool {
    exists|k: int| 0 <= k < targets.len() && #[trigger] weight_fits(size_bytes as int, targets[k] as int)
}

/// A signature as the matcher reads it: lower-case fragments as character sequences.
pub struct SignatureView {
    pub directories: Seq<Seq<char>>,
    pub classes: Seq<Seq<char>>,
    pub exclude_dirs: Seq<Seq<char>>,
    pub sizes: Seq<u64>,
    pub strict_mode: bool,
    pub min_conditions: nat,
}

impl SignatureView {
    /// At least one structural signal (directory or class) is declared.
    pub open spec fn declares_structure(self) -> bool {
        self.directories.len() > 0 || self.classes.len() > 0
    }

    /// No signal of any kind is declared: such a signature can never be decided and is skipped.
    pub open spec fn is_degenerate(self) -> bool {
        !self.declares_structure() && self.sizes.len() == 0
    }
}

/// A signature with its fragments lower-cased once, ready to be matched.
#[derive(Clone, Debug)]
pub struct LoweredSignature {
    pub directories: Vec<Vec<char>>,
    pub classes: Vec<Vec<char>>,
    pub exclude_dirs: Vec<Vec<char>>,
    pub sizes_kb_tenths: Vec<u64>,
    pub strict_mode: bool,
    pub min_conditions: usize,
}

impl View for LoweredSignature {
    type V = SignatureView;

    open spec fn view(&self) -> SignatureView {
        SignatureView {
            directories: seqs_of(self.directories@),
            classes: seqs_of(self.classes@),
            exclude_dirs: seqs_of(self.exclude_dirs@),
            sizes: self.sizes_kb_tenths@,
            strict_mode: self.strict_mode,
            min_conditions: self.min_conditions as nat,
        }
    }
}

impl CheatInfo {
    /// The signature as the matcher reads it, every fragment lower-cased.
    pub open spec fn matcher_view(&self) -> SignatureView {
        SignatureView {
            directories: lowered(self.directories@),
            classes: lowered(self.classes@),
            exclude_dirs: lowered(self.exclude_dirs@),
            sizes: self.sizes_kb_tenths@,
            strict_mode: self.strict_mode,
            min_conditions: self.min_conditions as nat,
        }
    }

    /// The signature asks for at least one signal under the lenient policy.
    pub open spec fn is_well_formed(&self) -> bool {
        self.min_conditions >= 1
    }
}

/// Some directory fragment occurs in some entry.
pub open spec fn directory_signal(entries: Seq<Seq<char>>, sig: SignatureView) -> bool {
    sig.directories.len() > 0 && any_frag_in(entries, sig.directories)
}

/// Some class fragment occurs in some entry.
pub open spec fn class_signal(entries: Seq<Seq<char>>, sig: SignatureView) -> bool {
    sig.classes.len() > 0 && any_frag_in(entries, sig.classes)
}

/// Strict mode is on and the archive bundles one of the excluded libraries.
pub open spec fn excluded_by_library(entries: Seq<Seq<char>>, sig: SignatureView) -> bool {
    sig.strict_mode && any_frag_in(entries, sig.exclude_dirs)
}

/// The three signals of an archive against a signature.
pub open spec fn signal_set(entries: Seq<Seq<char>>, size_bytes: u64, sig: SignatureView) -> SignalSet {
    SignalSet {
        directory: directory_signal(entries, sig),
        class: class_signal(entries, sig),
        weight: weight_signal(size_bytes, sig.sizes),
    }
}

/// Every declared structural signal holds, and at least one is declared.
pub open spec fn strict_requirements_met(entries: Seq<Seq<char>>, sig: SignatureView) -> bool {
    &&& sig.declares_structure()
    &&& (sig.directories.len() == 0 || directory_signal(entries, sig))
    &&& (sig.classes.len() == 0 || class_signal(entries, sig))
}

/// The signature is skipped without weighing any signal.
pub open spec fn skipped(entries: Seq<Seq<char>>, sig: SignatureView) -> bool {
    sig.is_degenerate() || excluded_by_library(entries, sig)
}

/// The verdict for an archive (entry names, byte size) against a signature.
pub open spec fn is_match(entries: Seq<Seq<char>>, size_bytes: u64, sig: SignatureView) -> bool {
    &&& !skipped(entries, sig)
    &&& if sig.strict_mode {
        strict_requirements_met(entries, sig)
    } else {
        signal_set(entries, size_bytes, sig).count() >= sig.min_conditions
    }
}

/// The evaluation of an archive against a lowered signature.
pub open spec fn judge(entries: Seq<Seq<char>>, size_bytes: u64, sig: SignatureView) -> Evaluation {
    if skipped(entries, sig) {
        Evaluation { signals: SignalSet::none(), matched: false }
    } else {
        Evaluation {
            signals: signal_set(entries, size_bytes, sig),
            matched: is_match(entries, size_bytes, sig),
        }
    }
}

/// The evaluation of an archive against a signature, whose fragments are compared in
/// lower case.
pub open spec fn evaluation_of(entries: Seq<Seq<char>>, size_bytes: u64, sig: CheatInfo) -> Evaluation {
    judge(entries, size_bytes, sig.matcher_view())
}

/// Whether a file of `size_bytes` bytes lies within 5% of one of the target sizes.
pub fn check_weight_match(size_bytes: u64, targets: &Vec<u64>) -> (r: bool)
    ensures
        r == weight_signal(size_bytes, targets@),
{
    let scaled: u128 = (size_bytes as u128) * 1000;
    let mut k: usize = 0;
    while k < targets.len()
        invariant
            k <= targets@.len(),
            scaled == 1000 * size_bytes,
            forall|j: int| 0 <= j < k ==> !#[trigger] weight_fits(size_bytes as int, targets@[j] as int),
        decreases targets@.len() - k,
    {
        let t: u128 = targets[k] as u128;
        assert(t * WEIGHT_HIGH_FACTOR <= 0x1_0000_0000_0000_0000 * 107520) by (nonlinear_arith)
            requires t < 0x1_0000_0000_0000_0000;
        if WEIGHT_LOW_FACTOR * t <= scaled && scaled <= WEIGHT_HIGH_FACTOR * t {
            assert(weight_fits(size_bytes as int, targets@[k as int] as int));
            return true;
        }
        k = k + 1;
    }
    false
}

impl CheatInfo {
    /// The signature with every fragment lower-cased.
    pub fn lowered(&self) -> (r: LoweredSignature)
        ensures
            r@ == self.matcher_view(),
    {
        LoweredSignature {
            directories: lowered_chars(&self.directories),
            classes: lowered_chars(&self.classes),
            exclude_dirs: lowered_chars(&self.exclude_dirs),
            sizes_kb_tenths: self.sizes_kb_tenths.clone(),
            strict_mode: self.strict_mode,
            min_conditions: self.min_conditions,
        }
    }

    /// Weighs an archive snapshot against this signature.
    pub fn evaluate(&self, snapshot: &ArchiveSnapshot) -> (r: Evaluation)
        ensures
            r == evaluation_of(snapshot.entries(), snapshot.size, *self),
    {
        let entries = chars_of_all(&snapshot.names);
        self.lowered().evaluate(&entries, snapshot.size)
    }
}

impl LoweredSignature {
    /// Weighs an archive, given as lower-case entry names in characters and its byte size,
    /// against this signature.
    ///
    /// Every signal is computed before the verdict; a degenerate signature, or a strict one
    /// whose excluded library is present, is skipped.
    pub fn evaluate(&self, entries: &Vec<Vec<char>>, size_bytes: u64) -> (r: Evaluation)
        ensures
            r == judge(seqs_of(entries@), size_bytes, self@),
    {
        let structural = self.directories.len() > 0 || self.classes.len() > 0;
        if !structural && self.sizes_kb_tenths.len() == 0 {
            return Evaluation { signals: SignalSet { directory: false, class: false, weight: false }, matched: false };
        }
        if self.strict_mode && any_fragment_present(entries, &self.exclude_dirs) {
            return Evaluation { signals: SignalSet { directory: false, class: false, weight: false }, matched: false };
        }
        let directory = self.directories.len() > 0 && any_fragment_present(entries, &self.directories);
        let class = self.classes.len() > 0 && any_fragment_present(entries, &self.classes);
        let weight = check_weight_match(size_bytes, &self.sizes_kb_tenths);
        let signals = SignalSet { directory, class, weight };
        let matched = if self.strict_mode {
            structural && (self.directories.len() == 0 || directory) && (self.classes.len() == 0
                || class)
        } else {
            signals.score() >= self.min_conditions
        };
        Evaluation { signals, matched }
    }
}

/// Under the lenient policy a signature that asks for at least one signal matches exactly
/// when the number of satisfied signals reaches `min_conditions`, whatever fragments are
/// present or absent.
pub proof fn lemma_lenient_verdict(entries: Seq<Seq<char>>, size_bytes: u64, sig: SignatureView)
    requires
        !sig.strict_mode,
        sig.min_conditions >= 1,
    ensures
        judge(entries, size_bytes, sig).matched <==> signal_set(entries, size_bytes, sig).count()
            >= sig.min_conditions,
{
    if sig.is_degenerate() {
        assert(signal_set(entries, size_bytes, sig).count() == 0);
    }
}

/// Under the strict policy a signature matches exactly when every declared structural
/// signal holds (at least one being declared) and no excluded fragment is present; the
/// archive's size plays no part.
pub proof fn lemma_strict_verdict(
    entries: Seq<Seq<char>>,
    size_a: u64,
    size_b: u64,
    sig: SignatureView,
)
    requires
        sig.strict_mode,
    ensures
        judge(entries, size_a, sig).matched <==> (strict_requirements_met(entries, sig)
            && !any_frag_in(entries, sig.exclude_dirs)),
        judge(entries, size_a, sig).matched == judge(entries, size_b, sig).matched,
{
}

/// The weight tolerance is 5% on both sides, edges included: a size of exactly 1.05 or
/// 0.95 times the target fits, while 1.051 times or more, or 0.949 times or less, does not.
pub proof fn lemma_weight_tolerance_edges(size_bytes: u64, target_tenths: u64)
    ensures
        1000 * size_bytes == 107520 * target_tenths ==> weight_fits(
            size_bytes as int,
            target_tenths as int,
        ),
        1000 * size_bytes == 97280 * target_tenths ==> weight_fits(
            size_bytes as int,
            target_tenths as int,
        ),
        target_tenths > 0 && 10000 * size_bytes >= 1076224 * target_tenths ==> !weight_fits(
            size_bytes as int,
            target_tenths as int,
        ),
        target_tenths > 0 && 10000 * size_bytes <= 971776 * target_tenths ==> !weight_fits(
            size_bytes as int,
            target_tenths as int,
        ),
{
}

/// Weighing the same archive snapshot against the same signature twice gives the same
/// verdict and the same signals.
pub proof fn lemma_evaluation_repeatable(
    first: ArchiveSnapshot,
    second: ArchiveSnapshot,
    sig: CheatInfo,
)
    requires
        first.entries() == second.entries(),
        first.size == second.size,
    ensures
        evaluation_of(first.entries(), first.size, sig) == evaluation_of(
            second.entries(),
            second.size,
            sig,
        ),
{
}

} // verus!
