//! Recognising the map names of the supported game-mode family.
use vstd::prelude::*;

verus! {

/// Index one past the last `/` in `s`, or 0 when `s` holds no `/`.
pub open spec fn segment_start(s: Seq<char>) -> int
    decreases s.len(),
{
    if s.len() == 0 {
        0
    } else if s.last() == '/' {
        s.len() as int
    } else {
        segment_start(s.drop_last())
    }
}

/// The last path segment of `s`: what follows its last `/`.
pub open spec fn last_segment(s: Seq<char>) -> Seq<char> {
    s.subrange(segment_start(s), s.len() as int)
}

pub open spec fn has_prefix(s: Seq<char>, p: Seq<char>) -> bool {
    p.len() <= s.len() && s.subrange(0, p.len() as int) == p
}

/// The prefixes of the maps of the supported mode family.
pub open spec fn map_prefixes() -> Seq<Seq<char>> {
    seq!["bkz_"@, "kz_"@, "kzpro_"@, "skz_"@, "vnl_"@, "xc_"@]
}

/// Whether `name` starts with one of the prefixes.
pub open spec fn supported_prefix(name: Seq<char>) -> bool {
    exists|i: int| 0 <= i < map_prefixes().len() && has_prefix(name, #[trigger] map_prefixes()[i])
}

/// A map name is supported when its last path segment starts with one of the prefixes.
pub open spec fn supported_map(name: Seq<char>) -> bool {
    supported_prefix(last_segment(name))
}

proof fn lemma_segment_start_bounds(s: Seq<char>)
    ensures
        0 <= segment_start(s) <= s.len(),
    decreases s.len(),
{
    if s.len() > 0 && s.last() != '/' {
        lemma_segment_start_bounds(s.drop_last());
    }
}

/// The last path segment of `name` (everything after its last `/`).
pub fn strip_map_path(name: &str) -> (r: String)
    ensures
        r@ == last_segment(name@),
{
    let n = name.unicode_len();
    let mut start: usize = 0;
    let mut i: usize = 0;
    while i < n
        invariant
            n == name@.len(),
            i <= n,
            start == segment_start(name@.subrange(0, i as int)),
        decreases n - i,
    {
        let c = name.get_char(i);
        proof {
            let pre = name@.subrange(0, i as int);
            let next = name@.subrange(0, i + 1);
            assert(next.drop_last() =~= pre);
            assert(next.last() == c);
        }
        if c == '/' {
            start = i + 1;
        }
        i = i + 1;
    }
    proof {
        assert(name@.subrange(0, n as int) =~= name@);
        lemma_segment_start_bounds(name@);
    }
    name.substring_char(start, n).to_string()
}

/// Whether `s` starts with `p`.
fn starts_with(s: &str, p: &str) -> (r: bool)
    ensures
        r == has_prefix(s@, p@),
{
    let n = s.unicode_len();
    let m = p.unicode_len();
    if m > n {
        return false;
    }
    let mut i: usize = 0;
    while i < m
        invariant
            m <= n,
            n == s@.len(),
            m == p@.len(),
            i <= m,
            forall|j: int| 0 <= j < i ==> s@[j] == p@[j],
        decreases m - i,
    {
        if s.get_char(i) != p.get_char(i) {
            assert(s@.subrange(0, m as int)[i as int] != p@[i as int]);
            return false;
        }
        i = i + 1;
    }
    assert(s@.subrange(0, m as int) =~= p@);
    true
}

/// Whether `name` itself (no path stripped) starts with one of the prefixes.
pub fn has_supported_prefix(name: &str) -> (r: bool)
    ensures
        r == supported_prefix(name@),
{
    let prefixes = ["bkz_", "kz_", "kzpro_", "skz_", "vnl_", "xc_"];
    proof {
        reveal_strlit("bkz_");
        reveal_strlit("kz_");
        reveal_strlit("kzpro_");
        reveal_strlit("skz_");
        reveal_strlit("vnl_");
        reveal_strlit("xc_");
    }
    assert(prefixes@.map_values(|p: &str| p@) =~= map_prefixes());
    let mut i: usize = 0;
    while i < 6
        invariant
            prefixes@.map_values(|p: &str| p@) == map_prefixes(),
            prefixes@.len() == 6,
            i <= 6,
            forall|j: int| 0 <= j < i ==> !has_prefix(name@, #[trigger] map_prefixes()[j]),
        decreases 6 - i,
    {
        let p = prefixes[i];
        assert(p@ == map_prefixes()[i as int]);
        if starts_with(name, p) {
            return true;
        }
        i = i + 1;
    }
    false
}

/// Whether `map_name` names a map of the supported family: its last path segment
/// starts with `bkz_`, `kz_`, `kzpro_`, `skz_`, `vnl_` or `xc_`.
pub fn is_valid_map_name(map_name: &str) -> (r: bool)
    ensures
        r == supported_map(map_name@),
{
    let name = strip_map_path(map_name);
    has_supported_prefix(name.as_str())
}

} // verus!
