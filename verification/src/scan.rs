//! Finding a separator in bytes and in text, and cutting at it.

use vstd::prelude::*;
use vstd::string::StrSliceExecFns;
use vstd::string::StringExecFns;

verus! {

/// Index of the first element of `s` that equals `needle`; the length of
/// `s` where none does.
pub open spec fn position<T>(s: Seq<T>, needle: T) -> int
    decreases s.len(),
{
    if s.len() == 0 {
        0
    } else if s[0] == needle {
        0
    } else {
        1 + position(s.drop_first(), needle)
    }
}

/// The two parts of `s` around the first `needle`, which itself belongs to
/// neither; `None` where `s` holds no `needle`.
pub open spec fn cut<T>(s: Seq<T>, needle: T) -> Option<(Seq<T>, Seq<T>)> {
    let i = position(s, needle);
    if i < s.len() {
        Some((s.take(i), s.skip(i + 1)))
    } else {
        None
    }
}

/// `position` is in range, nothing before it equals `needle`, and where it
/// is an index the element there does.
pub proof fn lemma_position<T>(s: Seq<T>, needle: T)
    ensures
        0 <= position(s, needle) <= s.len(),
        forall|j: int| 0 <= j < position(s, needle) ==> s[j] != needle,
        position(s, needle) < s.len() ==> s[position(s, needle)] == needle,
        position(s, needle) == s.len() <==> !s.contains(needle),
    decreases s.len(),
{
    if s.len() > 0 && s[0] != needle {
        let rest = s.drop_first();
        lemma_position(rest, needle);
        assert forall|j: int| 0 <= j < position(s, needle) implies s[j] != needle by {
            if j > 0 {
                assert(s[j] == rest[j - 1]);
            }
        }
        if position(s, needle) < s.len() {
            assert(s[position(s, needle)] == rest[position(rest, needle)]);
        }
        if s.contains(needle) {
            let k = choose|k: int| 0 <= k < s.len() && s[k] == needle;
            assert(rest[k - 1] == needle);
        }
        if rest.contains(needle) {
            let k = choose|k: int| 0 <= k < rest.len() && rest[k] == needle;
            assert(s[k + 1] == needle);
        }
    }
}

/// An index that holds `needle` with no `needle` before it is the
/// `position`.
pub proof fn lemma_position_unique<T>(s: Seq<T>, needle: T, i: int)
    requires
        0 <= i <= s.len(),
        forall|j: int| 0 <= j < i ==> s[j] != needle,
        i < s.len() ==> s[i] == needle,
    ensures
        position(s, needle) == i,
{
    lemma_position(s, needle);
}

/// Cutting `a + [needle] + b` gives `a` and `b` back, where `a` holds no
/// `needle`.
pub proof fn lemma_cut_joined<T>(a: Seq<T>, needle: T, b: Seq<T>)
    requires
        !a.contains(needle),
    ensures
        cut(a + seq![needle] + b, needle) == Some((a, b)),
{
    let s = a + seq![needle] + b;
    assert forall|j: int| 0 <= j < a.len() implies s[j] != needle by {
        assert(s[j] == a[j]);
    }
    assert(s[a.len() as int] == needle);
    lemma_position_unique(s, needle, a.len() as int);
    assert(s.take(a.len() as int) =~= a);
    assert(s.skip(a.len() as int + 1) =~= b);
}

/// Finds the first `needle` among `bytes`.
pub fn find_byte(bytes: &[u8], needle: u8) -> (i: usize)
    ensures
        i == position(bytes@, needle),
{
    let mut i: usize = 0;
    while i < bytes.len() && bytes[i] != needle
        invariant
            i <= bytes.len(),
            forall|j: int| 0 <= j < i ==> bytes@[j] != needle,
        decreases bytes.len() - i,
    {
        i = i + 1;
    }
    proof {
        lemma_position_unique(bytes@, needle, i as int);
    }
    i
}

/// Finds the first `needle` among the characters of `text`.
pub fn find_char(text: &str, needle: char) -> (i: usize)
    ensures
        i == position(text@, needle),
{
    let n = text.unicode_len();
    let mut i: usize = 0;
    for c in it: text.chars()
        invariant
            n == text@.len(),
            i == it.index(),
            it.seq() == text@,
            forall|j: int| 0 <= j < i ==> text@[j] != needle,
    {
        if c == needle {
            proof {
                lemma_position_unique(text@, needle, i as int);
            }
            return i;
        }
        i = i + 1;
    }
    proof {
        lemma_position_unique(text@, needle, i as int);
    }
    i
}

/// Cuts `text` at its first `needle`.
pub fn split_text(text: &str, needle: char) -> (parts: Option<(String, String)>)
    ensures
        match parts {
            Some((a, b)) => cut(text@, needle) == Some((a@, b@)),
            None => cut(text@, needle) is None,
        },
{
    let n = text.unicode_len();
    let i = find_char(text, needle);
    proof {
        lemma_position(text@, needle);
    }
    if i < n {
        let a = text.substring_char(0, i);
        let b = text.substring_char(i + 1, n);
        Some((String::from_str(a), String::from_str(b)))
    } else {
        None
    }
}

} // verus!
