//! Character-level helpers for the few places the simulation reads text:
//! labels, stored preferences and hint ids.

use vstd::prelude::*;

verus! {

/// Whether two strings hold the same characters.
pub fn same_text(a: &str, b: &str) -> (r: bool)
    ensures
        r <==> a@ == b@,
{
    let n = a.unicode_len();
    let m = b.unicode_len();
    if n != m {
        return false;
    }
    let mut i: usize = 0;
    while i < n
        invariant
            n == a@.len(),
            m == b@.len(),
            n == m,
            i <= n,
            forall|j: int| 0 <= j < i ==> a@[j] == b@[j],
        decreases n - i,
    {
        if a.get_char(i) != b.get_char(i) {
            return false;
        }
        i = i + 1;
    }
    assert(a@ =~= b@);
    true
}

/// Whitespace as `char::is_whitespace` reads it, which is Unicode's
/// White_Space property: the space, tab through carriage return, next line,
/// no-break space, the Ogham space mark, the en quad through the hair space,
/// the line and paragraph separators, the narrow no-break space, the medium
/// mathematical space and the ideographic space.
pub open spec fn white_space(c: char) -> bool {
    let u = c as u32;
    ||| u == 0x20
    ||| 0x09 <= u <= 0x0d
    ||| u == 0x85
    ||| u == 0xa0
    ||| u == 0x1680
    ||| 0x2000 <= u <= 0x200a
    ||| u == 0x2028
    ||| u == 0x2029
    ||| u == 0x202f
    ||| u == 0x205f
    ||| u == 0x3000
}

/// Whether `c` is whitespace.
fn is_white_space(c: char) -> (r: bool)
    ensures
        r == white_space(c),
{
    let u = c as u32;
    u == 0x20 || (0x09 <= u && u <= 0x0d) || u == 0x85 || u == 0xa0 || u == 0x1680 || (0x2000
        <= u && u <= 0x200a) || u == 0x2028 || u == 0x2029 || u == 0x202f || u == 0x205f || u
        == 0x3000
}

/// How many whitespace characters `s` starts with.
pub open spec fn leading_white(s: Seq<char>) -> nat
    decreases s.len(),
{
    if s.len() > 0 && white_space(s[0]) {
        1 + leading_white(s.drop_first())
    } else {
        0
    }
}

/// How many whitespace characters `s` ends with.
pub open spec fn trailing_white(s: Seq<char>) -> nat
    decreases s.len(),
{
    if s.len() > 0 && white_space(s.last()) {
        1 + trailing_white(s.drop_last())
    } else {
        0
    }
}

/// `s` without its leading and trailing whitespace.
pub open spec fn trimmed(s: Seq<char>) -> Seq<char> {
    if leading_white(s) >= s.len() {
        Seq::empty()
    } else {
        s.subrange(leading_white(s) as int, s.len() - trailing_white(s))
    }
}

/// ASCII upper case folded to lower case; every other character unchanged.
pub open spec fn ascii_lower(c: char) -> char {
    if 'A' <= c && c <= 'Z' {
        ((c as u32) + 32) as char
    } else {
        c
    }
}

pub open spec fn lowered(s: Seq<char>) -> Seq<char> {
    s.map_values(|c: char| ascii_lower(c))
}

/// The stored form of a choice: trimmed, then ASCII-lowercased.
pub open spec fn normalized(s: Seq<char>) -> Seq<char> {
    lowered(trimmed(s))
}

proof fn lemma_leading_white_exact(s: Seq<char>, k: nat)
    requires
        k <= s.len(),
        forall|i: int| 0 <= i < k ==> white_space(#[trigger] s[i]),
        k < s.len() ==> !white_space(s[k as int]),
    ensures
        leading_white(s) == k,
    decreases s.len(),
{
    if k > 0 {
        let t = s.drop_first();
        assert forall|i: int| 0 <= i < k - 1 implies white_space(#[trigger] t[i]) by {
            assert(t[i] == s[i + 1]);
        }
        if k - 1 < t.len() {
            assert(t[k - 1] == s[k as int]);
        }
        lemma_leading_white_exact(t, (k - 1) as nat);
    }
}

proof fn lemma_trailing_white_exact(s: Seq<char>, k: nat)
    requires
        k <= s.len(),
        forall|i: int| s.len() - k <= i < s.len() ==> white_space(#[trigger] s[i]),
        k < s.len() ==> !white_space(s[s.len() - k - 1]),
    ensures
        trailing_white(s) == k,
    decreases s.len(),
{
    if k > 0 {
        let t = s.drop_last();
        assert forall|i: int| t.len() - (k - 1) <= i < t.len() implies white_space(
            #[trigger] t[i],
        ) by {
            assert(t[i] == s[i]);
        }
        if k - 1 < t.len() {
            assert(t[t.len() - (k - 1) - 1] == s[s.len() - k - 1]);
        }
        lemma_trailing_white_exact(t, (k - 1) as nat);
    }
}

/// The characters of `s`, trimmed and ASCII-lowercased, as stored choices
/// are compared.
pub fn normalize(s: &str) -> (r: Vec<char>)
    ensures
        r@ == normalized(s@),
{
    let n = s.unicode_len();
    let mut lead: usize = 0;
    while lead < n && is_white_space(s.get_char(lead))
        invariant
            n == s@.len(),
            lead <= n,
            forall|i: int| 0 <= i < lead ==> white_space(#[trigger] s@[i]),
        decreases n - lead,
    {
        lead = lead + 1;
    }
    proof {
        lemma_leading_white_exact(s@, lead as nat);
    }
    let mut out: Vec<char> = Vec::new();
    if lead >= n {
        assert(out@ =~= normalized(s@));
        return out;
    }
    let mut end: usize = n;
    while end > lead && is_white_space(s.get_char(end - 1))
        invariant
            n == s@.len(),
            lead < n,
            lead <= end <= n,
            forall|i: int| end <= i < n ==> white_space(#[trigger] s@[i]),
            !white_space(s@[lead as int]),
        decreases end,
    {
        end = end - 1;
    }
    proof {
        lemma_trailing_white_exact(s@, (n - end) as nat);
    }
    let mut i: usize = lead;
    while i < end
        invariant
            n == s@.len(),
            lead <= i <= end <= n,
            out@.len() == i - lead,
            forall|j: int| 0 <= j < out@.len() ==> #[trigger] out@[j] == ascii_lower(
                s@[lead + j],
            ),
        decreases end - i,
    {
        let c = s.get_char(i);
        let folded = if 'A' <= c && c <= 'Z' {
            char_add_32(c)
        } else {
            c
        };
        out.push(folded);
        i = i + 1;
    }
    assert(out@ =~= normalized(s@));
    out
}

/// `c` moved 32 code points up, which takes an ASCII capital to its small
/// letter.
fn char_add_32(c: char) -> (r: char)
    requires
        'A' <= c && c <= 'Z',
    ensures
        r == ((c as u32) + 32) as char,
{
    let code: u8 = (c as u32) as u8 + 32;
    code as char
}

/// Whether the characters in `v` spell `lit`.
pub fn chars_spell(v: &Vec<char>, lit: &str) -> (r: bool)
    ensures
        r <==> v@ == lit@,
{
    let n = lit.unicode_len();
    if v.len() != n {
        return false;
    }
    let mut i: usize = 0;
    while i < n
        invariant
            n == lit@.len(),
            v@.len() == n,
            i <= n,
            forall|j: int| 0 <= j < i ==> v@[j] == lit@[j],
        decreases n - i,
    {
        if v[i] != lit.get_char(i) {
            return false;
        }
        i = i + 1;
    }
    assert(v@ =~= lit@);
    true
}

/// A string that neither starts nor ends with whitespace is its own trim.
pub proof fn lemma_unpadded_is_trimmed(s: Seq<char>)
    requires
        s.len() > 0,
        !white_space(s[0]),
        !white_space(s.last()),
    ensures
        trimmed(s) == s,
{
    assert(leading_white(s) == 0);
    assert(trailing_white(s) == 0);
    assert(s.subrange(0, s.len() as int) =~= s);
}

} // verus!
