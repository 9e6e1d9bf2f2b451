//! Parsing of single cells of a signature table.
use vstd::prelude::*;
use crate::text::{chars_of, lower_of, lowercase, views_of};

verus! {

/// Unicode White_Space, the characters that `char::is_whitespace` accepts.
pub open spec fn is_ws(c: char) -> bool {
    let u = c as u32;
    ||| 9 <= u <= 13
    ||| u == 32
    ||| u == 0x85
    ||| u == 0xa0
    ||| u == 0x1680
    ||| 0x2000 <= u <= 0x200a
    ||| u == 0x2028
    ||| u == 0x2029
    ||| u == 0x202f
    ||| u == 0x205f
    ||| u == 0x3000
}

/// Whether a character is Unicode white space.
pub fn is_whitespace(c: char) -> (r: bool)
    ensures
        r == is_ws(c),
{
    let u = c as u32;
    (9 <= u && u <= 13) || u == 32 || u == 0x85 || u == 0xa0 || u == 0x1680 || (0x2000 <= u && u
        <= 0x200a) || u == 0x2028 || u == 0x2029 || u == 0x202f || u == 0x205f || u == 0x3000
}

/// The text without leading white space.
pub open spec fn trim_start(s: Seq<char>) -> Seq<char>
    decreases s.len(),
{
    if s.len() > 0 && is_ws(s[0]) {
        trim_start(s.drop_first())
    } else {
        s
    }
}

/// The text without trailing white space.
pub open spec fn trim_end(s: Seq<char>) -> Seq<char>
    decreases s.len(),
{
    if s.len() > 0 && is_ws(s.last()) {
        trim_end(s.drop_last())
    } else {
        s
    }
}

/// The text without leading or trailing white space.
pub open spec fn trimmed(s: Seq<char>) -> Seq<char> {
    trim_end(trim_start(s))
}

proof fn lemma_trim_start_from(s: Seq<char>, i: int)
    requires
        0 <= i <= s.len(),
        forall|j: int| 0 <= j < i ==> is_ws(#[trigger] s[j]),
    ensures
        trim_start(s) == trim_start(s.subrange(i, s.len() as int)),
    decreases i,
{
    if i > 0 {
        assert(is_ws(s[0]));
        lemma_trim_start_from(s.drop_first(), i - 1);
        assert(s.drop_first().subrange(i - 1, s.drop_first().len() as int) =~= s.subrange(i, s.len() as int));
    } else {
        assert(s.subrange(0, s.len() as int) =~= s);
    }
}

proof fn lemma_trim_end_to(s: Seq<char>, k: int)
    requires
        0 <= k <= s.len(),
        forall|j: int| k <= j < s.len() ==> is_ws(#[trigger] s[j]),
    ensures
        trim_end(s) == trim_end(s.subrange(0, k)),
    decreases s.len() - k,
{
    if k < s.len() {
        assert(is_ws(s.last()));
        lemma_trim_end_to(s.drop_last(), k);
        assert(s.drop_last().subrange(0, k) =~= s.subrange(0, k));
    } else {
        assert(s.subrange(0, k) =~= s);
    }
}

/// The text without leading or trailing white space.
pub fn trim(s: &str) -> (r: &str)
    ensures
        r@ == trimmed(s@),
{
    let cs = chars_of(s);
    let n = cs.len();
    let mut i: usize = 0;
    while i < n && is_whitespace(cs[i])
        invariant
            cs@ == s@,
            n == s@.len(),
            i <= n,
            forall|j: int| 0 <= j < i ==> is_ws(#[trigger] s@[j]),
        decreases n - i,
    {
        i = i + 1;
    }
    let mut k: usize = n;
    while k > i && is_whitespace(cs[k - 1])
        invariant
            cs@ == s@,
            n == s@.len(),
            i <= k <= n,
            forall|j: int| k <= j < n ==> is_ws(#[trigger] s@[j]),
        decreases k,
    {
        k = k - 1;
    }
    proof {
        lemma_trim_start_from(s@, i as int);
        let rest = s@.subrange(i as int, n as int);
        if i < n {
            assert(!is_ws(rest[0]));
        }
        assert(trim_start(rest) == rest);
        assert forall|j: int| k - i <= j < rest.len() implies is_ws(#[trigger] rest[j]) by {
            assert(rest[j] == s@[i + j]);
        }
        lemma_trim_end_to(rest, k - i);
        let mid = rest.subrange(0, k - i);
        assert(mid =~= s@.subrange(i as int, k as int));
        if k > i {
            assert(!is_ws(mid.last()));
        }
        assert(trim_end(mid) == mid);
    }
    s.substring_char(i, k)
}


/// The characters that separate the items of a list cell.
pub open spec fn is_separator(c: char) -> bool {
    c == ';' || c == ',' || c == '|'
}

/// The pieces between separators, empty ones included: `n` separators give `n + 1` pieces.
pub open spec fn split_pieces(s: Seq<char>) -> Seq<Seq<char>>
    decreases s.len(),
{
    if s.len() == 0 {
        seq![Seq::empty()]
    } else {
        let rest = split_pieces(s.drop_last());
        if is_separator(s.last()) {
            rest.push(Seq::empty())
        } else {
            rest.update(rest.len() - 1, rest.last().push(s.last()))
        }
    }
}

/// The trimmed pieces that are not empty, in order.
pub open spec fn kept_items(pieces: Seq<Seq<char>>) -> Seq<Seq<char>>
    decreases pieces.len(),
{
    if pieces.len() == 0 {
        Seq::empty()
    } else {
        let rest = kept_items(pieces.drop_last());
        if trimmed(pieces.last()).len() > 0 {
            rest.push(trimmed(pieces.last()))
        } else {
            rest
        }
    }
}

/// The items of a list cell: split at `;`, `,` or `|`, trimmed, empty ones dropped.
pub open spec fn list_items(s: Seq<char>) -> Seq<Seq<char>> {
    kept_items(split_pieces(s))
}

proof fn lemma_split_pieces_nonempty(s: Seq<char>)
    ensures
        split_pieces(s).len() >= 1,
    decreases s.len(),
{
    if s.len() > 0 {
        lemma_split_pieces_nonempty(s.drop_last());
    }
}

proof fn lemma_kept_items_push(pieces: Seq<Seq<char>>, p: Seq<char>)
    ensures
        kept_items(pieces.push(p)) == if trimmed(p).len() > 0 {
            kept_items(pieces).push(trimmed(p))
        } else {
            kept_items(pieces)
        },
{
    assert(pieces.push(p).drop_last() =~= pieces);
}

/// Splits a list cell at `;`, `,` and `|`, trims each item and drops the empty ones.
pub fn split_and_trim(s: &str) -> (r: Vec<String>)
    ensures
        views_of(r@) == list_items(s@),
{
    let cs = chars_of(s);
    let n = cs.len();
    let mut r: Vec<String> = Vec::new();
    let ghost mut done: Seq<Seq<char>> = Seq::empty();
    let mut start: usize = 0;
    let mut i: usize = 0;
    proof {
        assert(s@.take(0) =~= Seq::<char>::empty());
        assert(done.push(s@.subrange(0, 0)) =~= seq![Seq::<char>::empty()]);
    }
    while i < n
        invariant
            cs@ == s@,
            n == s@.len(),
            start <= i <= n,
            split_pieces(s@.take(i as int)) == done.push(s@.subrange(start as int, i as int)),
            views_of(r@) == kept_items(done),
        decreases n - i,
    {
        proof {
            assert(s@.take(i + 1).drop_last() =~= s@.take(i as int));
            assert(s@.take(i + 1).last() == s@[i as int]);
        }
        if cs[i] == ';' || cs[i] == ',' || cs[i] == '|' {
            let piece = trim(s.substring_char(start, i));
            proof {
                lemma_kept_items_push(done, s@.subrange(start as int, i as int));
            }
            if piece.unicode_len() > 0 {
                r.push(String::from_str(piece));
                assert(views_of(r@) =~= kept_items(done).push(piece@));
            }
            proof {
                done = done.push(s@.subrange(start as int, i as int));
                assert(s@.subrange(i + 1, i + 1) =~= Seq::<char>::empty());
            }
            start = i + 1;
        } else {
            proof {
                let prev = done.push(s@.subrange(start as int, i as int));
                assert(s@.subrange(start as int, i as int).push(s@[i as int]) =~= s@.subrange(
                    start as int,
                    i + 1,
                ));
                assert(prev.update(prev.len() - 1, prev.last().push(s@[i as int])) =~= done.push(
                    s@.subrange(start as int, i + 1),
                ));
            }
        }
        i = i + 1;
    }
    let piece = trim(s.substring_char(start, n));
    proof {
        assert(s@.take(n as int) =~= s@);
        lemma_kept_items_push(done, s@.subrange(start as int, n as int));
    }
    if piece.unicode_len() > 0 {
        r.push(String::from_str(piece));
        assert(views_of(r@) =~= kept_items(done).push(piece@));
    }
    r
}


/// The cell reads as "yes" in its lower-case form.
pub open spec fn is_truthy(t: Seq<char>) -> bool {
    t == "1"@ || t == "true"@ || t == "yes"@ || t == "y"@ || t == "да"@
}

/// Whether a lower-case cell says yes: `1`, `true`, `yes`, `y` or `да`.
pub fn is_truthy_word(l: &String) -> (r: bool)
    ensures
        r == is_truthy(l@),
{
    *l == String::from_str("1") || *l == String::from_str("true") || *l == String::from_str("yes")
        || *l == String::from_str("y") || *l == String::from_str("да")
}

/// Whether a cell says yes: `1`, `true`, `yes`, `y` or `да`, in any case.
pub fn parse_bool(s: &str) -> (r: bool)
    ensures
        r == is_truthy(lower_of(s@)),
{
    let l = lowercase(s);
    is_truthy_word(&l)
}

/// An ASCII decimal digit.
pub open spec fn is_digit(c: char) -> bool {
    48 <= c as u32 <= 57
}

/// The value of an ASCII decimal digit.
pub open spec fn digit_value(c: char) -> nat {
    (c as u32 - 48) as nat
}

/// Every character is an ASCII decimal digit.
pub open spec fn all_digits(s: Seq<char>) -> bool {
    forall|i: int| 0 <= i < s.len() ==> is_digit(#[trigger] s[i])
}

/// The value of a run of decimal digits; zero for the empty run.
pub open spec fn digits_value(s: Seq<char>) -> nat
    decreases s.len(),
{
    if s.len() == 0 {
        0
    } else {
        digits_value(s.drop_last()) * 10 + digit_value(s.last())
    }
}

proof fn lemma_digits_value_prefix(s: Seq<char>, k: int)
    requires
        0 <= k <= s.len(),
    ensures
        digits_value(s.take(k)) <= digits_value(s),
    decreases s.len(),
{
    if k < s.len() {
        assert(s.drop_last().take(k) =~= s.take(k));
        lemma_digits_value_prefix(s.drop_last(), k);
    } else {
        assert(s.take(k) =~= s);
    }
}

/// The value of the digits `cs[from..to]`, if it fits in a `u64`.
fn digits_to_u64(cs: &Vec<char>, from: usize, to: usize) -> (r: Option<u64>)
    requires
        from <= to <= cs@.len(),
        all_digits(cs@.subrange(from as int, to as int)),
    ensures
        r == if digits_value(cs@.subrange(from as int, to as int)) <= u64::MAX {
            Some(digits_value(cs@.subrange(from as int, to as int)) as u64)
        } else {
            None::<u64>
        },
{
    let mut acc: u64 = 0;
    let mut i: usize = from;
    assert(cs@.subrange(from as int, from as int) =~= Seq::<char>::empty());
    while i < to
        invariant
            from <= i <= to <= cs@.len(),
            all_digits(cs@.subrange(from as int, to as int)),
            acc == digits_value(cs@.subrange(from as int, i as int)),
        decreases to - i,
    {
        let ghost next = cs@.subrange(from as int, i + 1);
        assert(next.drop_last() =~= cs@.subrange(from as int, i as int));
        assert(cs@.subrange(from as int, to as int)[i - from] == cs[i as int]);
        let d: u64 = (cs[i] as u32 - 48) as u64;
        let step = match acc.checked_mul(10) {
            Some(m) => m.checked_add(d),
            None => None,
        };
        match step {
            Some(v) => {
                acc = v;
            },
            None => {
                proof {
                    assert(cs@.subrange(from as int, to as int).take(i + 1 - from) =~= next);
                    lemma_digits_value_prefix(cs@.subrange(from as int, to as int), i + 1 - from);
                }
                return None;
            },
        }
        i = i + 1;
    }
    Some(acc)
}

/// The digits of an unsigned number, after an optional leading `+`.
pub open spec fn unsigned_digits(s: Seq<char>) -> Seq<char> {
    if s.len() > 0 && s[0] == '+' {
        s.drop_first()
    } else {
        s
    }
}

/// The unsigned number a cell holds, as `usize::from_str` reads it.
pub open spec fn unsigned_value(s: Seq<char>) -> Option<usize> {
    let d = unsigned_digits(s);
    if d.len() > 0 && all_digits(d) && digits_value(d) <= usize::MAX {
        Some(digits_value(d) as usize)
    } else {
        None
    }
}

/// Reads an unsigned number: an optional `+` and at least one decimal digit, within `usize`.
pub fn parse_usize(s: &str) -> (r: Option<usize>)
    ensures
        r == unsigned_value(s@),
{
    let cs = chars_of(s);
    let n = cs.len();
    let from: usize = if n > 0 && cs[0] == '+' {
        1
    } else {
        0
    };
    assert(unsigned_digits(s@) =~= cs@.subrange(from as int, n as int));
    if from == n {
        return None;
    }
    let mut i: usize = from;
    while i < n
        invariant
            cs@ == s@,
            n == s@.len(),
            from <= i <= n,
            unsigned_digits(s@) == cs@.subrange(from as int, n as int),
            forall|j: int| from <= j < i ==> is_digit(#[trigger] cs@[j]),
        decreases n - i,
    {
        let u = cs[i] as u32;
        if u < 48 || u > 57 {
            assert(!is_digit(cs@.subrange(from as int, n as int)[i - from]));
            return None;
        }
        i = i + 1;
    }
    assert(all_digits(cs@.subrange(from as int, n as int))) by {
        assert forall|j: int| 0 <= j < n - from implies is_digit(#[trigger] cs@.subrange(from as int, n as int)[j]) by {
            assert(cs@.subrange(from as int, n as int)[j] == cs@[from + j]);
        }
    }
    match digits_to_u64(&cs, from, n) {
        Some(v) => {
            if v as u128 <= usize::MAX as u128 {
                Some(v as usize)
            } else {
                None
            }
        },
        None => None,
    }
}

/// The digits and dots of a cell, in order.
pub open spec fn numeric_chars(s: Seq<char>) -> Seq<char>
    decreases s.len(),
{
    if s.len() == 0 {
        Seq::empty()
    } else if is_digit(s.last()) || s.last() == '.' {
        numeric_chars(s.drop_last()).push(s.last())
    } else {
        numeric_chars(s.drop_last())
    }
}

/// The position of the first dot, or the length when there is none.
pub open spec fn dot_index(c: Seq<char>) -> nat
    decreases c.len(),
{
    if c.len() == 0 || c[0] == '.' {
        0
    } else {
        1 + dot_index(c.drop_first())
    }
}

/// A size in tenths of a KiB read from digits and at most one dot: further decimals are
/// dropped, and there must be a digit.
pub open spec fn tenths_value(c: Seq<char>) -> Option<u64> {
    let k = dot_index(c) as int;
    let int_part = c.take(k);
    let frac = if k < c.len() { c.skip(k + 1) } else { Seq::empty() };
    let value = digits_value(int_part) * 10 + if frac.len() > 0 { digit_value(frac[0]) } else { 0 };
    if all_digits(frac) && int_part.len() + frac.len() > 0 && value <= u64::MAX {
        Some(value as u64)
    } else {
        None
    }
}

/// A size in tenths of a KiB read from a cell, keeping only its digits and dots.
pub open spec fn size_value(s: Seq<char>) -> Option<u64> {
    tenths_value(numeric_chars(s))
}

proof fn lemma_dot_index(c: Seq<char>)
    ensures
        dot_index(c) <= c.len(),
        forall|j: int| 0 <= j < dot_index(c) ==> #[trigger] c[j] != '.',
        dot_index(c) < c.len() ==> c[dot_index(c) as int] == '.',
    decreases c.len(),
{
    if c.len() > 0 && c[0] != '.' {
        lemma_dot_index(c.drop_first());
        assert forall|j: int| 0 <= j < dot_index(c) implies #[trigger] c[j] != '.' by {
            if j > 0 {
                assert(c[j] == c.drop_first()[j - 1]);
            }
        }
    }
}

proof fn lemma_dot_index_at(c: Seq<char>, k: int)
    requires
        0 <= k <= c.len(),
        forall|j: int| 0 <= j < k ==> #[trigger] c[j] != '.',
        k < c.len() ==> c[k] == '.',
    ensures
        dot_index(c) == k,
    decreases c.len(),
{
    if c.len() > 0 && c[0] != '.' {
        assert forall|j: int| 0 <= j < k - 1 implies #[trigger] c.drop_first()[j] != '.' by {
            assert(c.drop_first()[j] == c[j + 1]);
        }
        lemma_dot_index_at(c.drop_first(), k - 1);
    }
}

/// Reads a size in tenths of a KiB: every character but digits and dots is ignored, the
/// rest must be digits with at most one dot and at least one digit; decimals after the
/// first are dropped. `None` when malformed or beyond `u64`.
pub fn parse_size_tenths(s: &str) -> (r: Option<u64>)
    ensures
        r == size_value(s@),
{
    let cs = chars_of(s);
    let mut c: Vec<char> = Vec::new();
    let mut i: usize = 0;
    while i < cs.len()
        invariant
            cs@ == s@,
            i <= cs@.len(),
            c@ == numeric_chars(s@.take(i as int)),
        decreases cs@.len() - i,
    {
        assert(s@.take(i + 1).drop_last() =~= s@.take(i as int));
        let ch = cs[i];
        let u = ch as u32;
        if (48 <= u && u <= 57) || ch == '.' {
            c.push(ch);
        }
        i = i + 1;
    }
    assert(s@.take(cs@.len() as int) =~= s@);
    let n = c.len();
    let mut k: usize = 0;
    while k < n && c[k] != '.'
        invariant
            n == c@.len(),
            k <= n,
            forall|j: int| 0 <= j < k ==> #[trigger] c@[j] != '.',
        decreases n - k,
    {
        k = k + 1;
    }
    proof {
        lemma_dot_index_at(c@, k as int);
        lemma_dot_index(c@);
    }
    let frac_from: usize = if k < n {
        k + 1
    } else {
        n
    };
    let ghost frac = if k < n { c@.skip(k + 1) } else { Seq::<char>::empty() };
    assert(frac =~= c@.subrange(frac_from as int, n as int));
    let mut j: usize = frac_from;
    while j < n
        invariant
            n == c@.len(),
            frac_from <= j <= n,
            frac == c@.subrange(frac_from as int, n as int),
            c@ == numeric_chars(s@),
            k == dot_index(c@),
            frac == (if k < n { c@.skip(k + 1) } else { Seq::<char>::empty() }),
            forall|m: int| frac_from <= m < j ==> #[trigger] c@[m] != '.',
        decreases n - j,
    {
        if c[j] == '.' {
            assert(!all_digits(frac)) by {
                assert(frac[j - frac_from] == c@[j as int]);
            }
            return None;
        }
        j = j + 1;
    }
    proof {
        assert forall|m: int| 0 <= m < n ==> is_digit(#[trigger] c@[m]) || c@[m] == '.' by {
            lemma_numeric_chars(s@);
        }
        assert forall|m: int| 0 <= m < frac.len() implies is_digit(#[trigger] frac[m]) by {
            assert(frac[m] == c@[frac_from + m]);
            lemma_numeric_chars(s@);
            assert(is_digit(c@[frac_from + m]) || c@[frac_from + m] == '.');
        }
        assert forall|m: int| 0 <= m < k implies is_digit(#[trigger] c@.subrange(0, k as int)[m]) by {
            lemma_numeric_chars(s@);
            assert(c@.subrange(0, k as int)[m] == c@[m]);
            assert(is_digit(c@[m]) || c@[m] == '.');
        }
        assert(c@.take(k as int) =~= c@.subrange(0, k as int));
    }
    if k + (n - frac_from) == 0 {
        return None;
    }
    let whole = match digits_to_u64(&c, 0, k) {
        Some(v) => v,
        None => {
            return None;
        },
    };
    let f: u64 = if frac_from < n {
        assert(frac[0] == c@[frac_from as int]);
        (c[frac_from] as u32 - 48) as u64
    } else {
        0
    };
    match whole.checked_mul(10) {
        Some(m) => m.checked_add(f),
        None => None,
    }
}

proof fn lemma_numeric_chars(s: Seq<char>)
    ensures
        forall|m: int|
            0 <= m < numeric_chars(s).len() ==> is_digit(#[trigger] numeric_chars(s)[m])
                || numeric_chars(s)[m] == '.',
    decreases s.len(),
{
    if s.len() > 0 {
        lemma_numeric_chars(s.drop_last());
        let prev = numeric_chars(s.drop_last());
        if is_digit(s.last()) || s.last() == '.' {
            assert forall|m: int| 0 <= m < prev.len() implies #[trigger] prev.push(s.last())[m] == prev[m] by {
            }
        }
    }
}

} // verus!
