//! The signature database and the classification of one archive against all of it.
use vstd::prelude::*;
use crate::archive::ArchiveSnapshot;
use crate::signature::{evaluation_of, CheatInfo, Evaluation, SignalSet};
use crate::text::{chars_of_all, decimal, decimal_text, seqs_of, views_of};

verus! {

/// A positive match of one archive file against one signature.
#[derive(Clone, Debug)]
pub struct ThreatResult {
    /// Full path of the archive file.
    pub path: String,
    /// File name of the archive.
    pub name: String,
    /// Size of the archive in bytes.
    pub size: u64,
    /// Identifier of the matched signature.
    pub cheat_type: String,
    /// Description of the signature, the size in KiB, and the signals that fired.
    pub details: Vec<String>,
    /// Number of signals satisfied.
    pub match_score: usize,
}

/// A signature under its identifier.
#[derive(Clone, Debug)]
pub struct NamedSignature {
    pub name: String,
    pub info: CheatInfo,
}

/// A signature database: identifiers with their signatures, in insertion order, each
/// identifier at most once.
#[derive(Clone, Debug)]
pub struct CheatDetector {
    database: Vec<NamedSignature>,
}

/// No identifier occurs twice.
pub open spec fn unique_names(db: Seq<(Seq<char>, CheatInfo)>) -> bool {
    forall|i: int, j: int| 0 <= i < db.len() && 0 <= j < db.len() && i != j ==> #[trigger] db[i].0 != #[trigger] db[j].0
}

/// Some signature carries the identifier `name`.
pub open spec fn has_name(db: Seq<(Seq<char>, CheatInfo)>, name: Seq<char>) -> bool {
    exists|i: int| 0 <= i < db.len() && #[trigger] db[i].0 == name
}

impl View for CheatDetector {
    type V = Seq<(Seq<char>, CheatInfo)>;

    closed spec fn view(&self) -> Seq<(Seq<char>, CheatInfo)> {
        self.database@.map_values(|e: NamedSignature| (e.name@, e.info))
    }
}

/// The size of a file in tenths of a KiB, rounded to the nearest tenth (halves up).
pub open spec fn kib_tenths(size_bytes: nat) -> nat {
    (size_bytes * 10 + 512) / 1024
}

/// The size of a file as text, in KiB with one decimal.
pub open spec fn size_text(size_bytes: nat) -> Seq<char> {
    decimal(kib_tenths(size_bytes) / 10) + seq!['.'] + decimal(kib_tenths(size_bytes) % 10)
        + " KiB"@
}

/// The signals that fired, as text.
pub open spec fn signals_text(s: SignalSet) -> Seq<char> {
    "signals: "@ + (if s.directory {
        "directory "@
    } else {
        Seq::empty()
    }) + (if s.class {
        "class "@
    } else {
        Seq::empty()
    }) + (if s.weight {
        "weight "@
    } else {
        Seq::empty()
    }) + "("@ + decimal(s.count()) + "/3)"@
}

/// `t` reports a match of the file at `path` named `name`, of `size` bytes, against the
/// signature `sig` under identifier `key`, with the signals `signals`.
pub open spec fn reports(
    t: ThreatResult,
    path: Seq<char>,
    name: Seq<char>,
    size: u64,
    key: Seq<char>,
    sig: CheatInfo,
    signals: SignalSet,
) -> bool {
    &&& t.path@ == path
    &&& t.name@ == name
    &&& t.size == size
    &&& t.cheat_type@ == key
    &&& views_of(t.details@) == seq![sig.description@, size_text(size as nat), signals_text(signals)]
    &&& t.match_score == signals.count()
}

/// The signature at position `i` matches the archive and none before it does.
pub open spec fn is_first_match(
    db: Seq<(Seq<char>, CheatInfo)>,
    entries: Seq<Seq<char>>,
    size: u64,
    i: int,
) -> bool {
    &&& 0 <= i < db.len()
    &&& evaluation_of(entries, size, db[i].1).matched
    &&& forall|j: int| 0 <= j < i ==> !(#[trigger] evaluation_of(entries, size, db[j].1)).matched
}

/// The size of a file as text, in KiB with one decimal.
fn format_size(size_bytes: u64) -> (r: String)
    ensures
        r@ == size_text(size_bytes as nat),
{
    let wide: u128 = (size_bytes as u128) * 10 + 512;
    assert(wide / 1024 <= u64::MAX) by (nonlinear_arith)
        requires wide <= 0xffff_ffff_ffff_ffff * 10 + 512;
    let tenths: u64 = (wide / 1024) as u64;
    let mut r = decimal_text(tenths / 10);
    proof {
        reveal_strlit(".");
    }
    r.append(".");
    let frac = decimal_text(tenths % 10);
    r.append(frac.as_str());
    r.append(" KiB");
    r
}

/// The signals that fired, as text.
fn format_signals(s: &SignalSet) -> (r: String)
    ensures
        r@ == signals_text(*s),
{
    let mut r = String::from_str("signals: ");
    if s.directory {
        r.append("directory ");
    }
    if s.class {
        r.append("class ");
    }
    if s.weight {
        r.append("weight ");
    }
    r.append("(");
    let score = s.score();
    let count = decimal_text(score as u64);
    r.append(count.as_str());
    r.append("/3)");
    r
}

impl CheatDetector {
    /// The database holds each identifier at most once.
    pub open spec fn well_formed(&self) -> bool {
        unique_names(self@)
    }

    /// Every signature asks for at least one signal under the lenient policy.
    pub open spec fn all_well_formed(&self) -> bool {
        forall|k: int| 0 <= k < self@.len() ==> (#[trigger] self@[k]).1.is_well_formed()
    }

    /// An empty database.
    pub fn empty() -> (r: CheatDetector)
        ensures
            r@ == Seq::<(Seq<char>, CheatInfo)>::empty(),
            r.well_formed(),
            r.all_well_formed(),
    {
        let r = CheatDetector { database: Vec::new() };
        assert(r@ =~= Seq::<(Seq<char>, CheatInfo)>::empty());
        r
    }

    /// The number of signatures.
    pub fn len(&self) -> (r: usize)
        ensures
            r == self@.len(),
    {
        self.database.len()
    }

    /// The identifier and signature at position `i`, in insertion order.
    pub fn entry(&self, i: usize) -> (r: (&String, &CheatInfo))
        requires
            i < self@.len(),
        ensures
            r.0@ == self@[i as int].0,
            *r.1 == self@[i as int].1,
    {
        let e = &self.database[i];
        (&e.name, &e.info)
    }

    /// Puts `info` under `name`: it replaces the signature already under that identifier,
    /// in place, or else is added at the end.
    pub fn insert(&mut self, name: String, info: CheatInfo)
        requires
            old(self).well_formed(),
        ensures
            final(self).well_formed(),
            forall|i: int|
                0 <= i < old(self)@.len() && (#[trigger] old(self)@[i]).0 == name@ ==> final(self)@
                    == old(self)@.update(i, (name@, info)),
            !has_name(old(self)@, name@) ==> final(self)@ == old(self)@.push((name@, info)),
            old(self).all_well_formed() && info.is_well_formed() ==> final(self).all_well_formed(),
    {
        let ghost before = self@;
        let mut i: usize = 0;
        while i < self.database.len()
            invariant
                self@ == before,
                before == old(self)@,
                unique_names(before),
                i <= before.len(),
                forall|j: int| 0 <= j < i ==> (#[trigger] before[j]).0 != name@,
            decreases before.len() - i,
        {
            if self.database[i].name == name {
                assert(before[i as int].0 == name@);
                self.database.set(i, NamedSignature { name, info });
                assert(self@ =~= before.update(i as int, (name@, info)));
                assert(unique_names(self@)) by {
                    assert forall|a: int, b: int|
                        0 <= a < self@.len() && 0 <= b < self@.len() && a != b implies #[trigger] self@[a].0
                            != #[trigger] self@[b].0 by {
                        assert(self@[a].0 == before[a].0);
                        assert(self@[b].0 == before[b].0);
                    }
                }
                assert(has_name(before, name@));
                assert forall|k: int| 0 <= k < self@.len() implies (#[trigger] self@[k]) == before[k]
                    || self@[k] == (name@, info) by {}
                assert forall|k: int|
                    0 <= k < before.len() && (#[trigger] before[k]).0 == name@ implies k == i by {
                    if k != i {
                        assert(before[k].0 != before[i as int].0);
                    }
                }
                return;
            }
            i = i + 1;
        }
        self.database.push(NamedSignature { name, info });
        assert(self@ =~= before.push((name@, info)));
        assert forall|k: int| 0 <= k < self@.len() implies (#[trigger] self@[k]) == before[k]
            || self@[k] == (name@, info) by {}
        assert(!has_name(before, name@));
    }

    /// Classifies an archive against the database, signature by signature in insertion
    /// order, and reports the first one that matches.
    ///
    /// Every signature is weighed: there is no pre-selection by size, so whether a
    /// signature matches never depends on the other signatures in the database.
    ///
    /// `jar_path` and `file_name` name the archive in the result.
    pub fn check_jar_file(&self, jar_path: &str, file_name: &str, snapshot: &ArchiveSnapshot) -> (r: Option<ThreatResult>)
        ensures
            r is None <==> forall|i: int|
                0 <= i < self@.len() ==> !(#[trigger] evaluation_of(snapshot.entries(), snapshot.size, self@[i].1)).matched,
            r matches Some(t) ==> exists|i: int|
                #[trigger] is_first_match(self@, snapshot.entries(), snapshot.size, i) && reports(
                    t,
                    jar_path@,
                    file_name@,
                    snapshot.size,
                    self@[i].0,
                    self@[i].1,
                    evaluation_of(snapshot.entries(), snapshot.size, self@[i].1).signals,
                ),
    {
        let entries = chars_of_all(&snapshot.names);
        let size = snapshot.size;
        let mut i: usize = 0;
        while i < self.database.len()
            invariant
                seqs_of(entries@) == snapshot.entries(),
                size == snapshot.size,
                i <= self@.len(),
                forall|j: int|
                    0 <= j < i ==> !(#[trigger] evaluation_of(snapshot.entries(), size, self@[j].1)).matched,
            decreases self@.len() - i,
        {
            let e = &self.database[i];
            assert(self@[i as int].1 == e.info);
            let ev: Evaluation = e.info.lowered().evaluate(&entries, size);
            if ev.matched {
                let mut details: Vec<String> = Vec::new();
                details.push(e.info.description.clone());
                details.push(format_size(size));
                details.push(format_signals(&ev.signals));
                let t = ThreatResult {
                    path: String::from_str(jar_path),
                    name: String::from_str(file_name),
                    size,
                    cheat_type: e.name.clone(),
                    details,
                    match_score: ev.signals.score(),
                };
                assert(views_of(t.details@) =~= seq![e.info.description@, size_text(size as nat), signals_text(ev.signals)]);
                assert(is_first_match(self@, snapshot.entries(), size, i as int));
                return Some(t);
            }
            i = i + 1;
        }
        None
    }
}

} // verus!
