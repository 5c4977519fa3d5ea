use vstd::prelude::*;
use vstd::string::StrSliceExecFns;
use vstd::utf8::{decode_utf8, valid_utf8};

verus! {

/// The Unicode `White_Space` characters, exactly those that
/// `str::trim` removes from the ends of a string.
pub open spec fn is_wspace(c: char) -> bool {
    let u = c as u32;
    ||| u == 0x09
    ||| u == 0x0A
    ||| u == 0x0B
    ||| u == 0x0C
    ||| u == 0x0D
    ||| u == 0x20
    ||| u == 0x85
    ||| u == 0xA0
    ||| u == 0x1680
    ||| (0x2000 <= u && u <= 0x200A)
    ||| u == 0x2028
    ||| u == 0x2029
    ||| u == 0x202F
    ||| u == 0x205F
    ||| u == 0x3000
}

fn ws_char(c: char) -> (b: bool)
    ensures
        b == is_wspace(c),
{
    let u: u32 = c as u32;
    u == 0x09 || u == 0x0A || u == 0x0B || u == 0x0C || u == 0x0D || u == 0x20 || u == 0x85
        || u == 0xA0 || u == 0x1680 || (0x2000 <= u && u <= 0x200A) || u == 0x2028 || u == 0x2029
        || u == 0x202F || u == 0x205F || u == 0x3000
}

/// Length of the maximal whitespace prefix of `s`.
pub open spec fn ws_prefix_len(s: Seq<char>) -> int
    decreases s.len(),
{
    if s.len() == 0 {
        0
    } else if is_wspace(s[0]) {
        1 + ws_prefix_len(s.drop_first())
    } else {
        0
    }
}

/// Length of the maximal whitespace suffix of `s`.
pub open spec fn ws_suffix_len(s: Seq<char>) -> int
    decreases s.len(),
{
    if s.len() == 0 {
        0
    } else if is_wspace(s[s.len() - 1]) {
        1 + ws_suffix_len(s.drop_last())
    } else {
        0
    }
}

/// `s` with its maximal whitespace prefix and suffix removed: what
/// trimming leading and trailing whitespace leaves of `s`.
pub open spec fn trim_spec(s: Seq<char>) -> Seq<char> {
    if ws_prefix_len(s) == s.len() {
        Seq::empty()
    } else {
        s.subrange(ws_prefix_len(s), s.len() - ws_suffix_len(s))
    }
}

/// `ws_prefix_len` is characterised by its first non-whitespace position.
proof fn lemma_ws_prefix_char(s: Seq<char>, n: int)
    requires
        0 <= n <= s.len(),
        forall|k: int| 0 <= k < n ==> is_wspace(#[trigger] s[k]),
        n == s.len() || !is_wspace(s[n]),
    ensures
        ws_prefix_len(s) == n,
    decreases s.len(),
{
    if s.len() == 0 {
    } else if is_wspace(s[0]) {
        assert(n != 0);
        assert(forall|k: int|
            0 <= k < n - 1 ==> is_wspace(#[trigger] s.drop_first()[k]) == is_wspace(s[k + 1]));
        lemma_ws_prefix_char(s.drop_first(), n - 1);
    } else {
        assert(n == 0);
    }
}

/// `ws_suffix_len` is characterised by its last non-whitespace position.
proof fn lemma_ws_suffix_char(s: Seq<char>, n: int)
    requires
        0 <= n <= s.len(),
        forall|k: int| s.len() - n <= k < s.len() ==> is_wspace(#[trigger] s[k]),
        n == s.len() || !is_wspace(s[s.len() - 1 - n]),
    ensures
        ws_suffix_len(s) == n,
    decreases s.len(),
{
    if s.len() == 0 {
    } else if is_wspace(s[s.len() - 1]) {
        assert(n != 0);
        assert(forall|k: int|
            s.drop_last().len() - (n - 1) <= k < s.drop_last().len() ==> is_wspace(
                #[trigger] s.drop_last()[k],
            ) == is_wspace(s[k]));
        lemma_ws_suffix_char(s.drop_last(), n - 1);
    } else {
        assert(n == 0);
    }
}

/// A string without whitespace characters trims to itself.
pub proof fn lemma_trim_no_ws(s: Seq<char>)
    requires
        forall|i: int| 0 <= i < s.len() ==> !is_wspace(#[trigger] s[i]),
    ensures
        trim_spec(s) == s,
{
    lemma_ws_prefix_char(s, 0);
    lemma_ws_suffix_char(s, 0);
    if s.len() == 0 {
        assert(trim_spec(s) =~= s);
    } else {
        assert(trim_spec(s) =~= s);
    }
}

/// Remove leading and trailing whitespace from `s`.
pub fn trim_str<'a>(s: &'a str) -> (r: &'a str)
    ensures
        r@ == trim_spec(s@),
{
    let n: usize = s.unicode_len();
    let mut i: usize = 0;
    while i < n && ws_char(s.get_char(i))
        invariant
            0 <= i <= n,
            n == s@.len(),
            forall|k: int| 0 <= k < i ==> is_wspace(#[trigger] s@[k]),
        decreases n - i,
    {
        i = i + 1;
    }
    proof {
        lemma_ws_prefix_char(s@, i as int);
    }
    if i == n {
        let empty: &str = "";
        proof {
            reveal_strlit("");
            assert(empty@ =~= trim_spec(s@));
        }
        return empty;
    }
    // position i holds the first non-whitespace character
    let mut j: usize = n - 1;
    while j > i && ws_char(s.get_char(j))
        invariant
            i <= j < n,
            n == s@.len(),
            !is_wspace(s@[i as int]),
            forall|k: int| j < k < n ==> is_wspace(#[trigger] s@[k]),
        decreases j,
    {
        j = j - 1;
    }
    // position j holds the last non-whitespace character
    proof {
        lemma_ws_suffix_char(s@, n - 1 - j as int);
    }
    let r = s.substring_char(i, j + 1);
    proof {
        assert(r@ =~= trim_spec(s@));
    }
    r
}

/// Relies on `String::from_utf8`: it succeeds exactly on valid UTF-8
/// input and decodes the bytes to the characters they encode.
#[verifier::external_body]
pub(crate) fn string_from_utf8(bytes: Vec<u8>) -> (r: Option<String>)
    ensures
        r is Some <==> valid_utf8(bytes@),
        r matches Some(s) ==> s@ == decode_utf8(bytes@),
{
    String::from_utf8(bytes).ok()
}

} // verus!
