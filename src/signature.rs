use vstd::prelude::*;

verus! {

/// A byte pattern to look for in memory; `None` marks a wildcard position
/// that any readable byte matches.
#[derive(Debug)]
pub struct Signature {
    pub pattern: Vec<Option<u8>>,
}

/// Whether one pattern entry accepts one memory byte. A byte that could not
/// be read (`None`) matches nothing, not even a wildcard.
pub open spec fn entry_matches(p: Option<u8>, m: Option<u8>) -> bool {
    m is Some && (p is None || p == m)
}

/// Whether `pat` matches `mem` starting at offset `i`.
pub open spec fn matches_at(pat: Seq<Option<u8>>, mem: Seq<Option<u8>>, i: int) -> bool {
    &&& 0 <= i
    &&& i + pat.len() <= mem.len()
    &&& forall|k: int| 0 <= k < pat.len() ==> entry_matches(pat[k], #[trigger] mem[i + k])
}

/// Whether `i` is the lowest offset at which `pat` matches `mem`.
pub open spec fn is_first_match(pat: Seq<Option<u8>>, mem: Seq<Option<u8>>, i: int) -> bool {
    matches_at(pat, mem, i) && forall|j: int| 0 <= j < i ==> !matches_at(pat, mem, j)
}

/// The lowest offset at which `pat` matches `mem`, if it matches anywhere.
pub open spec fn first_match(pat: Seq<Option<u8>>, mem: Seq<Option<u8>>) -> Option<int> {
    if exists|i: int| is_first_match(pat, mem, i) {
        Some(choose|i: int| is_first_match(pat, mem, i))
    } else {
        None
    }
}

/// There is at most one first match.
pub proof fn lemma_first_match_unique(pat: Seq<Option<u8>>, mem: Seq<Option<u8>>, i: int, j: int)
    requires
        is_first_match(pat, mem, i),
        is_first_match(pat, mem, j),
    ensures
        i == j,
{
    if i < j {
        assert(!matches_at(pat, mem, i));
    } else if j < i {
        assert(!matches_at(pat, mem, j));
    }
}

/// The value of a hexadecimal digit (either case), if `c` is one.
pub open spec fn hex_digit(c: u8) -> Option<u8> {
    if 48 <= c <= 57 {
        Some((c - 48) as u8)
    } else if 65 <= c <= 70 {
        Some((c - 55) as u8)
    } else if 97 <= c <= 102 {
        Some((c - 87) as u8)
    } else {
        None
    }
}

/// The number of entries that a signature text of `len` bytes holds: each
/// entry takes two characters and entries are separated by one space.
pub open spec fn entry_count(len: int) -> int {
    (len + 1) / 3
}

/// Whether the two characters of entry `k` of `t` form a wildcard `??`.
pub open spec fn is_wildcard_entry(t: Seq<u8>, k: int) -> bool {
    t[3 * k] == 63 && t[3 * k + 1] == 63
}

/// Whether the two characters of entry `k` of `t` are hexadecimal digits.
pub open spec fn is_hex_entry(t: Seq<u8>, k: int) -> bool {
    hex_digit(t[3 * k]) is Some && hex_digit(t[3 * k + 1]) is Some
}

/// Whether entry `k` of `t` is followed by a space.
pub open spec fn is_separated(t: Seq<u8>, k: int) -> bool {
    t[3 * k + 2] == 32
}

/// Whether `t` is a signature text: entries of two hexadecimal digits or
/// `??`, separated by single spaces, at least one entry.
pub open spec fn is_signature_text(t: Seq<u8>) -> bool {
    &&& t.len() % 3 == 2
    &&& forall|k: int|
        0 <= k < entry_count(t.len() as int) ==> is_wildcard_entry(t, k) || is_hex_entry(t, k)
    &&& forall|k: int| 0 <= k < entry_count(t.len() as int) - 1 ==> #[trigger] is_separated(t, k)
}

/// The pattern entry that entry `k` of a signature text stands for.
pub open spec fn entry_of(t: Seq<u8>, k: int) -> Option<u8> {
    if is_wildcard_entry(t, k) {
        None
    } else {
        Some((16 * hex_digit(t[3 * k])->0 + hex_digit(t[3 * k + 1])->0) as u8)
    }
}

/// The pattern that a signature text stands for.
pub open spec fn pattern_of(t: Seq<u8>) -> Seq<Option<u8>> {
    Seq::new(entry_count(t.len() as int) as nat, |k: int| entry_of(t, k))
}

fn hex_value(c: u8) -> (r: Option<u8>)
    ensures
        r == hex_digit(c),
{
    if 48 <= c && c <= 57 {
        Some(c - 48)
    } else if 65 <= c && c <= 70 {
        Some(c - 55)
    } else if 97 <= c && c <= 102 {
        Some(c - 87)
    } else {
        None
    }
}

impl Signature {
    /// Reads a signature from text such as `"48 8B ?? 05"`; `None` when the
    /// text is not in that form.
    pub fn parse(text: &[u8]) -> (r: Option<Signature>)
        ensures
            r is Some <==> is_signature_text(text@),
            r matches Some(s) ==> s.pattern@ == pattern_of(text@),
    {
        let len = text.len();
        if len % 3 != 2 {
            return None;
        }
        let n: usize = (len + 1) / 3;
        let mut pattern: Vec<Option<u8>> = Vec::new();
        let mut k: usize = 0;
        while k < n
            invariant
                len == text@.len(),
                len % 3 == 2,
                n == entry_count(len as int),
                0 <= k <= n,
                pattern@.len() == k,
                forall|j: int| 0 <= j < k ==> #[trigger] pattern@[j] == entry_of(text@, j),
                forall|j: int|
                    0 <= j < k ==> is_wildcard_entry(text@, j) || is_hex_entry(text@, j),
                forall|j: int| 0 <= j < k && j < n - 1 ==> #[trigger] is_separated(text@, j),
            decreases n - k,
        {
            let hi = text[3 * k];
            let lo = text[3 * k + 1];
            if hi == 63 && lo == 63 {
                pattern.push(None);
            } else {
                match (hex_value(hi), hex_value(lo)) {
                    (Some(h), Some(l)) => {
                        pattern.push(Some(16 * h + l));
                    },
                    _ => {
                        assert(!(is_wildcard_entry(text@, k as int) || is_hex_entry(
                            text@,
                            k as int,
                        )));
                        return None;
                    },
                }
            }
            if k + 1 < n && text[3 * k + 2] != 32 {
                assert(!is_separated(text@, k as int));
                return None;
            }
            k = k + 1;
        }
        assert(pattern@ =~= pattern_of(text@));
        Some(Signature { pattern })
    }

    /// Whether the pattern matches `mem` at offset `i`, where it fits.
    fn matches_at(&self, mem: &[Option<u8>], i: usize) -> (r: bool)
        requires
            i + self.pattern@.len() <= mem@.len(),
        ensures
            r == matches_at(self.pattern@, mem@, i as int),
    {
        let m = self.pattern.len();
        let n = mem.len();
        let mut k: usize = 0;
        while k < m
            invariant
                m == self.pattern@.len(),
                n == mem@.len(),
                i + m <= mem@.len(),
                0 <= k <= m,
                forall|j: int| 0 <= j < k ==> entry_matches(self.pattern@[j], #[trigger] mem@[i + j]),
            decreases m - k,
        {
            let ok = match mem[i + k] {
                Some(b) => match self.pattern[k] {
                    Some(p) => p == b,
                    None => true,
                },
                None => false,
            };
            if !ok {
                assert(!entry_matches(self.pattern@[k as int], mem@[i + k as int]));
                return false;
            }
            k = k + 1;
        }
        true
    }

    /// The lowest offset at which the pattern matches `mem`, or `None` where
    /// it matches nowhere.
    pub fn scan(&self, mem: &[Option<u8>]) -> (r: Option<usize>)
        ensures
            match r {
                Some(i) => is_first_match(self.pattern@, mem@, i as int),
                None => forall|j: int| !matches_at(self.pattern@, mem@, j),
            },
            r matches Some(i) ==> first_match(self.pattern@, mem@) == Some(i as int),
            r is None ==> first_match(self.pattern@, mem@) is None,
    {
        let m = self.pattern.len();
        if m > mem.len() {
            assert forall|j: int| !matches_at(self.pattern@, mem@, j) by {}
            return None;
        }
        let last = mem.len() - m;
        let mut i: usize = 0;
        loop
            invariant
                m == self.pattern@.len(),
                last + m == mem@.len(),
                0 <= i <= last,
                forall|j: int| 0 <= j < i ==> !matches_at(self.pattern@, mem@, j),
            decreases last - i,
        {
            if self.matches_at(mem, i) {
                proof {
                    let pat = self.pattern@;
                    assert(is_first_match(pat, mem@, i as int));
                    let c = choose|c: int| is_first_match(pat, mem@, c);
                    lemma_first_match_unique(pat, mem@, c, i as int);
                }
                return Some(i);
            }
            if i == last {
                proof {
                    assert forall|j: int| !matches_at(self.pattern@, mem@, j) by {
                        if j > last {
                            assert(!(j + m <= mem@.len()));
                        }
                    }
                }
                return None;
            }
            i = i + 1;
        }
    }
}

} // verus!
