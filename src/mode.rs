//! The gameplay mode, and how it is read from a player's clan tag.
use vstd::prelude::*;

verus! {

/// The three KZ modes.
#[derive(Debug, Clone, Copy, PartialEq, Eq, Structural)]
pub enum Mode {
    KZTimer,
    SimpleKZ,
    Vanilla,
}

/// What gokz_rs's `Mode::from_str` returns for a text (it lower-cases the text first,
/// which for non-ASCII text follows the Unicode tables).
pub uninterp spec fn parsed_mode(s: Seq<char>) -> Option<Mode>;

pub open spec fn ascii_lower_char(c: char) -> char {
    if 'A' <= c <= 'Z' {
        ((c as u8) + 32u8) as char
    } else {
        c
    }
}

pub open spec fn ascii_lower(s: Seq<char>) -> Seq<char> {
    s.map_values(|c: char| ascii_lower_char(c))
}

pub open spec fn is_ascii_text(s: Seq<char>) -> bool {
    vstd::utf8::is_ascii_chars(s)
}

/// The lower-case names that gokz_rs accepts for each mode.
pub open spec fn mode_of_name(s: Seq<char>) -> Option<Mode> {
    if s == "200"@ || s == "kztimer"@ || s == "kz_timer"@ || s == "kzt"@ {
        Some(Mode::KZTimer)
    } else if s == "201"@ || s == "simplekz"@ || s == "kz_simple"@ || s == "skz"@
        || s == "simple_kz"@ {
        Some(Mode::SimpleKZ)
    } else if s == "202"@ || s == "vanilla"@ || s == "kz_vanilla"@ || s == "vnl"@
        || s == "vanilla_kz"@ || s == "vanillakz"@ {
        Some(Mode::Vanilla)
    } else {
        None
    }
}

/// Relies on gokz_rs's `Mode::from_str`: it lower-cases the text and matches it against
/// a fixed list of names; on ASCII text the lower-casing is the ASCII one.
#[verifier::external_body]
fn mode_from_text(code: &str) -> (r: Option<Mode>)
    ensures
        r == parsed_mode(code@),
        is_ascii_text(code@) ==> r == mode_of_name(ascii_lower(code@)),
{
    match code.parse::<gokz_rs::Mode>() {
        Ok(gokz_rs::Mode::KZTimer) => Some(Mode::KZTimer),
        Ok(gokz_rs::Mode::SimpleKZ) => Some(Mode::SimpleKZ),
        Ok(gokz_rs::Mode::Vanilla) => Some(Mode::Vanilla),
        Err(_) => None,
    }
}

/// Index of the first space in `s`, or the length of `s` when it holds none.
pub open spec fn space_index(s: Seq<char>) -> int
    decreases s.len(),
{
    if s.len() == 0 || s[0] == ' ' {
        0
    } else {
        1 + space_index(s.drop_first())
    }
}

pub open spec fn without_brackets(s: Seq<char>) -> Seq<char> {
    s.filter(|c: char| c != '[' && c != ']')
}

pub open spec fn drop_leading_bracket(s: Seq<char>) -> Seq<char> {
    if s.len() > 0 && s[0] == '[' {
        s.drop_first()
    } else {
        s
    }
}

/// The mode code of a clan tag. A tag with a space (`[KZT Legend]`) is cut at its first
/// space and the left part loses a leading `[`; any other tag (`[KZT]`) loses every
/// `[` and `]`.
pub open spec fn mode_code(tag: Seq<char>) -> Seq<char> {
    let k = space_index(tag);
    if k < tag.len() {
        drop_leading_bracket(tag.subrange(0, k))
    } else {
        without_brackets(tag)
    }
}

/// The mode that a clan tag announces, if it announces one.
pub open spec fn mode_of_tag(tag: Seq<char>) -> Option<Mode> {
    parsed_mode(mode_code(tag))
}

proof fn lemma_space_index(s: Seq<char>, k: int)
    requires
        0 <= k <= s.len(),
        forall|j: int| 0 <= j < k ==> s[j] != ' ',
        k == s.len() || s[k] == ' ',
    ensures
        space_index(s) == k,
    decreases k,
{
    if k > 0 {
        lemma_space_index(s.drop_first(), k - 1);
    }
}

proof fn lemma_space_index_bounds(s: Seq<char>)
    ensures
        0 <= space_index(s) <= s.len(),
    decreases s.len(),
{
    if s.len() > 0 && s[0] != ' ' {
        lemma_space_index_bounds(s.drop_first());
    }
}

proof fn lemma_mode_code_ascii(tag: Seq<char>)
    requires
        is_ascii_text(tag),
        0 <= space_index(tag) <= tag.len(),
    ensures
        is_ascii_text(mode_code(tag)),
{
    let k = space_index(tag);
    if k < tag.len() {
        let left = tag.subrange(0, k);
        assert(is_ascii_text(left)) by {
            assert forall|i: int| 0 <= i < left.len() implies '\0' <= #[trigger] left[i] <= '\u{7f}' by {
                assert(left[i] == tag[i]);
            }
        }
        if left.len() > 0 && left[0] == '[' {
            let d = left.drop_first();
            assert forall|i: int| 0 <= i < d.len() implies '\0' <= #[trigger] d[i] <= '\u{7f}' by {
                assert(d[i] == left[i + 1]);
            }
        }
    } else {
        let f = without_brackets(tag);
        assert forall|i: int| 0 <= i < f.len() implies '\0' <= #[trigger] f[i] <= '\u{7f}' by {
            assert(f.contains(f[i]));
            tag.lemma_filter_contains_rev(|c: char| c != '[' && c != ']', f[i]);
        }
    }
}

/// The text of `tag` with every `[` and `]` taken out.
fn remove_brackets(tag: &str) -> (r: String)
    ensures
        r@ == without_brackets(tag@),
{
    let n = tag.unicode_len();
    let mut out = String::new();
    let mut i: usize = 0;
    while i < n
        invariant
            n == tag@.len(),
            i <= n,
            out@ == without_brackets(tag@.subrange(0, i as int)),
        decreases n - i,
    {
        let c = tag.get_char(i);
        proof {
            let pre = tag@.subrange(0, i as int);
            let next = tag@.subrange(0, i + 1);
            assert(next.drop_last() =~= pre);
            assert(next.last() == c);
            reveal(Seq::filter);
        }
        if c != '[' && c != ']' {
            let piece = tag.substring_char(i, i + 1);
            assert(piece@ =~= seq![c]);
            out.append(piece);
        }
        i = i + 1;
    }
    assert(tag@.subrange(0, n as int) =~= tag@);
    out
}

/// The mode code of a clan tag (see `mode_code`).
pub fn clan_mode_code(tag: &str) -> (r: String)
    ensures
        r@ == mode_code(tag@),
{
    let n = tag.unicode_len();
    let mut k: usize = 0;
    while k < n && tag.get_char(k) != ' '
        invariant
            n == tag@.len(),
            k <= n,
            forall|j: int| 0 <= j < k ==> tag@[j] != ' ',
        decreases n - k,
    {
        k = k + 1;
    }
    proof {
        lemma_space_index(tag@, k as int);
    }
    if k < n {
        if k > 0 && tag.get_char(0) == '[' {
            let left = tag.substring_char(1, k);
            assert(left@ =~= tag@.subrange(0, k as int).drop_first());
            left.to_string()
        } else {
            tag.substring_char(0, k).to_string()
        }
    } else {
        remove_brackets(tag)
    }
}

/// Reads the mode from a player's clan tag; a tag that announces no mode gives `None`.
pub fn parse_clan_mode(clan: &str) -> (r: Option<Mode>)
    ensures
        r == mode_of_tag(clan@),
        is_ascii_text(clan@) ==> r == mode_of_name(ascii_lower(mode_code(clan@))),
{
    let code = clan_mode_code(clan);
    proof {
        if is_ascii_text(clan@) {
            lemma_space_index_bounds(clan@);
            lemma_mode_code_ascii(clan@);
        }
    }
    mode_from_text(code.as_str())
}

} // verus!
