//! Character-level text helpers with exact specifications.
use vstd::prelude::*;

verus! {

/// `needle` occurs in `hay` as a contiguous run of characters.
pub open spec fn contains_frag(hay: Seq<char>, needle: Seq<char>) -> bool {
    exists|i: int|
        0 <= i && i + needle.len() <= hay.len() && #[trigger] hay.subrange(i, i + needle.len())
            == needle
}

/// The characters of a string, as a vector.
pub fn chars_of(s: &str) -> (r: Vec<char>)
    ensures
        r@ == s@,
{
    let mut r: Vec<char> = Vec::new();
    for c in it: s.chars()
        invariant
            r@ == it.seq().take(it.index() as int),
    {
        r.push(c);
    }
    r
}

/// `needle` occurs in `hay` starting at position `i`.
fn occurs_at(hay: &Vec<char>, needle: &Vec<char>, i: usize) -> (r: bool)
    requires
        i + needle@.len() <= hay@.len(),
    ensures
        r == (hay@.subrange(i as int, i + needle@.len()) == needle@),
{
    let n = needle.len();
    let h = hay.len();
    let mut k: usize = 0;
    while k < n
        invariant
            n == needle@.len(),
            i + n <= hay@.len(),
            h == hay@.len(),
            k <= n,
            forall|j: int| 0 <= j < k ==> hay@[i + j] == needle@[j],
        decreases n - k,
    {
        if hay[i + k] != needle[k] {
            assert(hay@.subrange(i as int, i + n)[k as int] != needle@[k as int]);
            return false;
        }
        k = k + 1;
    }
    assert(hay@.subrange(i as int, i + n) =~= needle@);
    true
}

/// Whether `needle` occurs anywhere in `hay`.
pub fn contains_chars(hay: &Vec<char>, needle: &Vec<char>) -> (r: bool)
    ensures
        r == contains_frag(hay@, needle@),
{
    let n = needle.len();
    let h = hay.len();
    if n > h {
        return false;
    }
    let mut i: usize = 0;
    while i <= h - n
        invariant
            n == needle@.len(),
            h == hay@.len(),
            n <= h,
            i <= h - n + 1,
            forall|j: int|
                0 <= j < i ==> #[trigger] hay@.subrange(j, j + n) != needle@,
        decreases h - n + 1 - i,
    {
        if occurs_at(hay, needle, i) {
            return true;
        }
        if i == h - n {
            return false;
        }
        i = i + 1;
    }
    false
}


/// The views of a sequence of strings.
pub open spec fn views_of(v: Seq<String>) -> Seq<Seq<char>> {
    v.map_values(|s: String| s@)
}

/// The views of a sequence of character vectors.
pub open spec fn seqs_of(v: Seq<Vec<char>>) -> Seq<Seq<char>> {
    v.map_values(|c: Vec<char>| c@)
}

/// The lower-case form of a text, as Unicode case mapping defines it.
pub uninterp spec fn lower_of(s: Seq<char>) -> Seq<char>;

/// The lower-case forms of a sequence of strings.
pub open spec fn lowered(v: Seq<String>) -> Seq<Seq<char>> {
    v.map_values(|s: String| lower_of(s@))
}

/// Relies on `str::to_lowercase`: the lower-case form depends on the characters alone.
#[verifier::external_body]
pub(crate) fn lowercase(s: &str) -> (r: String)
    ensures
        r@ == lower_of(s@),
{
    s.to_lowercase()
}

/// Some fragment occurs in some entry.
pub open spec fn any_frag_in(entries: Seq<Seq<char>>, frags: Seq<Seq<char>>) -> bool {
    exists|e: int, f: int|
        0 <= e < entries.len() && 0 <= f < frags.len() && #[trigger] contains_frag(
            entries[e],
            frags[f],
        )
}

/// The character vectors of a list of strings.
pub fn chars_of_all(v: &Vec<String>) -> (r: Vec<Vec<char>>)
    ensures
        seqs_of(r@) == views_of(v@),
{
    let mut r: Vec<Vec<char>> = Vec::new();
    let mut i: usize = 0;
    while i < v.len()
        invariant
            i <= v@.len(),
            r@.len() == i,
            forall|j: int| 0 <= j < i ==> #[trigger] r@[j]@ == v@[j]@,
        decreases v@.len() - i,
    {
        r.push(chars_of(v[i].as_str()));
        i = i + 1;
    }
    assert(seqs_of(r@) =~= views_of(v@));
    r
}

/// The lower-cased character vectors of a list of strings.
pub fn lowered_chars(v: &Vec<String>) -> (r: Vec<Vec<char>>)
    ensures
        seqs_of(r@) == lowered(v@),
{
    let mut r: Vec<Vec<char>> = Vec::new();
    let mut i: usize = 0;
    while i < v.len()
        invariant
            i <= v@.len(),
            r@.len() == i,
            forall|j: int| 0 <= j < i ==> #[trigger] r@[j]@ == lower_of(v@[j]@),
        decreases v@.len() - i,
    {
        let low = lowercase(v[i].as_str());
        r.push(chars_of(low.as_str()));
        i = i + 1;
    }
    assert(seqs_of(r@) =~= lowered(v@));
    r
}

/// Whether some fragment occurs in some entry.
pub fn any_fragment_present(entries: &Vec<Vec<char>>, frags: &Vec<Vec<char>>) -> (r: bool)
    ensures
        r == any_frag_in(seqs_of(entries@), seqs_of(frags@)),
{
    let mut e: usize = 0;
    while e < entries.len()
        invariant
            e <= entries@.len(),
            forall|a: int, b: int|
                0 <= a < e && 0 <= b < frags@.len() ==> !contains_frag(
                    #[trigger] seqs_of(entries@)[a],
                    #[trigger] seqs_of(frags@)[b],
                ),
        decreases entries@.len() - e,
    {
        let mut f: usize = 0;
        while f < frags.len()
            invariant
                e < entries@.len(),
                f <= frags@.len(),
                forall|a: int, b: int|
                    0 <= a < e && 0 <= b < frags@.len() ==> !contains_frag(
                        #[trigger] seqs_of(entries@)[a],
                        #[trigger] seqs_of(frags@)[b],
                    ),
                forall|b: int|
                    0 <= b < f ==> !contains_frag(seqs_of(entries@)[e as int], #[trigger] seqs_of(frags@)[b]),
            decreases frags@.len() - f,
        {
            if contains_chars(&entries[e], &frags[f]) {
                assert(contains_frag(seqs_of(entries@)[e as int], seqs_of(frags@)[f as int]));
                return true;
            }
            f = f + 1;
        }
        e = e + 1;
    }
    assert(!any_frag_in(seqs_of(entries@), seqs_of(frags@))) by {
        if any_frag_in(seqs_of(entries@), seqs_of(frags@)) {
            let (a, b) = choose|a: int, b: int|
                0 <= a < seqs_of(entries@).len() && 0 <= b < seqs_of(frags@).len()
                    && #[trigger] contains_frag(seqs_of(entries@)[a], seqs_of(frags@)[b]);
            assert(!contains_frag(seqs_of(entries@)[a], seqs_of(frags@)[b]));
        }
    }
    false
}


/// The decimal digit for a value below ten.
pub open spec fn digit_char(d: nat) -> char {
    if d == 0 {
        '0'
    } else
    if d == 1 {
        '1'
    } else
    if d == 2 {
        '2'
    } else
    if d == 3 {
        '3'
    } else
    if d == 4 {
        '4'
    } else
    if d == 5 {
        '5'
    } else
    if d == 6 {
        '6'
    } else
    if d == 7 {
        '7'
    } else
    if d == 8 {
        '8'
    } else {
        '9'
    }
}

/// The decimal notation of a natural number, without leading zeros.
pub open spec fn decimal(n: nat) -> Seq<char>
    decreases n,
{
    if n < 10 {
        seq![digit_char(n)]
    } else {
        decimal(n / 10) + seq![digit_char(n % 10)]
    }
}

/// The one-character text of a decimal digit.
fn digit_str(d: u64) -> (r: &'static str)
    requires
        d < 10,
    ensures
        r@ =~= seq![digit_char(d as nat)],
{
    if d == 0 {
        proof {
            reveal_strlit("0");
        }
        "0"
    } else
    if d == 1 {
        proof {
            reveal_strlit("1");
        }
        "1"
    } else
    if d == 2 {
        proof {
            reveal_strlit("2");
        }
        "2"
    } else
    if d == 3 {
        proof {
            reveal_strlit("3");
        }
        "3"
    } else
    if d == 4 {
        proof {
            reveal_strlit("4");
        }
        "4"
    } else
    if d == 5 {
        proof {
            reveal_strlit("5");
        }
        "5"
    } else
    if d == 6 {
        proof {
            reveal_strlit("6");
        }
        "6"
    } else
    if d == 7 {
        proof {
            reveal_strlit("7");
        }
        "7"
    } else
    if d == 8 {
        proof {
            reveal_strlit("8");
        }
        "8"
    } else {
        proof {
            reveal_strlit("9");
        }
        "9"
    }
}

/// The decimal notation of `n`.
pub fn decimal_text(n: u64) -> (r: String)
    ensures
        r@ == decimal(n as nat),
    decreases n,
{
    if n < 10 {
        String::from_str(digit_str(n))
    } else {
        let mut r = decimal_text(n / 10);
        r.append(digit_str(n % 10));
        r
    }
}

} // verus!
