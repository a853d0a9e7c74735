//! Text predicates and helpers shared by the validation rules.
//!
//! Texts are modelled as `Seq<char>`, the view of `str` and `String`.

use vstd::prelude::*;
use vstd::std_specs::iter::IteratorSpec;

verus! {

/// Whether `c` carries the Unicode property White_Space.
pub open spec fn is_whitespace(c: char) -> bool {
    let n = c as u32;
    ||| 0x09 <= n <= 0x0D
    ||| n == 0x20
    ||| n == 0x85
    ||| n == 0xA0
    ||| n == 0x1680
    ||| 0x2000 <= n <= 0x200A
    ||| n == 0x2028
    ||| n == 0x2029
    ||| n == 0x202F
    ||| n == 0x205F
    ||| n == 0x3000
}

/// A text is blank when it holds nothing but white space; the empty text is blank.
pub open spec fn is_blank(s: Seq<char>) -> bool {
    forall|i: int| 0 <= i < s.len() ==> is_whitespace(#[trigger] s[i])
}

/// `s` without its leading white space.
pub open spec fn trim_start(s: Seq<char>) -> Seq<char>
    decreases s.len(),
{
    if s.len() > 0 && is_whitespace(s.first()) {
        trim_start(s.drop_first())
    } else {
        s
    }
}

/// `s` without its trailing white space.
pub open spec fn trim_end(s: Seq<char>) -> Seq<char>
    decreases s.len(),
{
    if s.len() > 0 && is_whitespace(s.last()) {
        trim_end(s.drop_last())
    } else {
        s
    }
}

/// `s` without its leading and trailing white space.
pub open spec fn trimmed(s: Seq<char>) -> Seq<char> {
    trim_end(trim_start(s))
}

/// When the first `k` characters of `s` are white space and the next one, if
/// any, is not, trimming the start drops exactly those `k`.
pub proof fn lemma_trim_start_skips(s: Seq<char>, k: int)
    requires
        0 <= k <= s.len(),
        forall|i: int| 0 <= i < k ==> is_whitespace(#[trigger] s[i]),
        k < s.len() ==> !is_whitespace(s[k]),
    ensures
        trim_start(s) == s.skip(k),
    decreases k,
{
    if k == 0 {
        assert(s.skip(0) == s);
    } else {
        let rest = s.drop_first();
        assert(is_whitespace(s[0]));
        assert forall|i: int| 0 <= i < k - 1 implies is_whitespace(#[trigger] rest[i]) by {
            assert(rest[i] == s[i + 1]);
        }
        lemma_trim_start_skips(rest, k - 1);
        assert(rest.skip(k - 1) == s.skip(k));
    }
}

/// When everything in `s` from position `k` on is white space and the
/// character before `k`, if any, is not, trimming the end keeps exactly the
/// first `k` characters.
pub proof fn lemma_trim_end_takes(s: Seq<char>, k: int)
    requires
        0 <= k <= s.len(),
        forall|i: int| k <= i < s.len() ==> is_whitespace(#[trigger] s[i]),
        0 < k ==> !is_whitespace(s[k - 1]),
    ensures
        trim_end(s) == s.take(k),
    decreases s.len() - k,
{
    if k == s.len() {
        assert(s.take(k) == s);
    } else {
        let rest = s.drop_last();
        assert(is_whitespace(s[s.len() - 1]));
        lemma_trim_end_takes(rest, k);
        assert(rest.take(k) == s.take(k));
    }
}

/// Trimming leaves nothing exactly when the text is blank.
pub proof fn lemma_trimmed_empty_iff_blank(s: Seq<char>)
    ensures
        trimmed(s).len() == 0 <==> is_blank(s),
    decreases s.len(),
{
    if s.len() > 0 && is_whitespace(s.first()) {
        let rest = s.drop_first();
        lemma_trimmed_empty_iff_blank(rest);
        if is_blank(rest) {
            assert forall|i: int| 0 <= i < s.len() implies is_whitespace(#[trigger] s[i]) by {
                if i > 0 {
                    assert(s[i] == rest[i - 1]);
                }
            }
        }
        if is_blank(s) {
            assert forall|i: int| 0 <= i < rest.len() implies is_whitespace(#[trigger] rest[i]) by {
                assert(rest[i] == s[i + 1]);
            }
        }
    } else if s.len() > 0 {
        assert(!is_whitespace(s[0]));
        lemma_trim_end_keeps_first(s);
    }
}

/// Trimming the end of a text that starts with a visible character keeps that
/// character.
proof fn lemma_trim_end_keeps_first(s: Seq<char>)
    requires
        s.len() > 0,
        !is_whitespace(s.first()),
    ensures
        trim_end(s).len() > 0,
    decreases s.len(),
{
    if is_whitespace(s.last()) {
        assert(s.len() > 1);
        assert(s.drop_last().first() == s.first());
        lemma_trim_end_keeps_first(s.drop_last());
    }
}

/// Tells whether `c` is a white-space character.
pub fn char_is_whitespace(c: char) -> (r: bool)
    ensures
        r == is_whitespace(c),
{
    let n: u32 = c as u32;
    (0x09 <= n && n <= 0x0D) || n == 0x20 || n == 0x85 || n == 0xA0 || n == 0x1680 || (0x2000 <= n
        && n <= 0x200A) || n == 0x2028 || n == 0x2029 || n == 0x202F || n == 0x205F || n == 0x3000
}

/// The part of `s` between its leading and its trailing white space.
pub fn trim(s: &str) -> (r: &str)
    ensures
        r@ == trimmed(s@),
{
    let n = s.unicode_len();
    // `start` counts the leading white space; `end` is one past the last
    // visible character met so far.
    let mut start: usize = 0;
    let mut end: usize = 0;
    let mut i: usize = 0;
    for c in it: s.chars()
        invariant
            it.seq() == s@,
            n == s@.len(),
            i == it.index(),
            start <= i,
            forall|j: int| 0 <= j < start ==> is_whitespace(#[trigger] s@[j]),
            start < i ==> !is_whitespace(s@[start as int]),
            start < i ==> start < end <= i,
            start == i ==> end == 0,
            0 < end ==> !is_whitespace(s@[end - 1]),
            forall|j: int| end <= j < i ==> is_whitespace(#[trigger] s@[j]),
    {
        if char_is_whitespace(c) {
            if start == i {
                start = i + 1;
            }
        } else {
            end = i + 1;
        }
        i = i + 1;
    }
    if start == n {
        end = n;
    }
    proof {
        let whole = s@;
        let tail = whole.skip(start as int);
        lemma_trim_start_skips(whole, start as int);
        assert forall|j: int| end - start <= j < tail.len() implies is_whitespace(
            #[trigger] tail[j],
        ) by {
            assert(tail[j] == whole[j + start]);
        }
        if end > start {
            assert(tail[end - start - 1] == whole[end - 1]);
        }
        lemma_trim_end_takes(tail, end - start);
        assert(tail.take(end - start) == whole.subrange(start as int, end as int));
    }
    s.substring_char(start, end)
}

/// Tells whether `s` is blank, which is to say whether nothing is left of it
/// once it is trimmed.
pub fn is_blank_text(s: &str) -> (r: bool)
    ensures
        r == is_blank(s@),
        r == (trimmed(s@).len() == 0),
{
    proof {
        lemma_trimmed_empty_iff_blank(s@);
    }
    trim(s).is_empty()
}

/// Tells whether `c` occurs in `s`.
pub fn contains_char(s: &str, c: char) -> (r: bool)
    ensures
        r == s@.contains(c),
{
    let mut found = false;
    for x in it: s.chars()
        invariant
            it.seq() == s@,
            found == s@.take(it.index()).contains(c),
    {
        proof {
            let before = s@.take(it.index());
            let after = s@.take(it.index() + 1);
            assert(after == before.push(x));
            if before.contains(c) {
                let k = choose|k: int| 0 <= k < before.len() && before[k] == c;
                assert(after[k] == c);
            }
            if x == c {
                assert(after[it.index()] == c);
            }
        }
        if x == c {
            found = true;
        }
    }
    assert(s@.take(s@.len() as int) == s@);
    found
}

/// Tells whether `a` and `b` hold the same characters.
pub fn same_text(a: &str, b: &str) -> (r: bool)
    ensures
        r == (a@ == b@),
{
    let mut rest = b.chars();
    let mut same = true;
    for x in it: a.chars()
        invariant
            it.seq() == a@,
            rest.obeys_prophetic_iter_laws(),
            same ==> it.index() <= b@.len() && rest.remaining() == b@.skip(it.index()),
            same ==> a@.take(it.index()) == b@.take(it.index()),
            !same ==> a@ != b@,
    {
        if same {
            let ghost i = it.index();
            match rest.next() {
                Some(y) => {
                    assert(y == b@[i]) by {
                        assert(b@.skip(i)[0] == b@[i]);
                    }
                    if x != y {
                        same = false;
                    } else {
                        assert(b@.skip(i).drop_first() == b@.skip(i + 1));
                        assert(a@.take(i + 1) == a@.take(i).push(x));
                        assert(b@.take(i + 1) == b@.take(i).push(y));
                    }
                },
                None => {
                    assert(b@.skip(i).len() == 0);
                    same = false;
                },
            }
        }
    }
    if same {
        let last = rest.next();
        proof {
            assert(a@.take(a@.len() as int) == a@);
            if last is None {
                assert(b@.skip(a@.len() as int).len() == 0);
                assert(b@.take(a@.len() as int) == b@);
            }
        }
        last.is_none()
    } else {
        false
    }
}

} // verus!
