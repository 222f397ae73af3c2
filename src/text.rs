//! Character-level helpers: string comparison, whitespace trimming and the
//! pieces of JSON text that requests are written in.
use vstd::prelude::*;
use vstd::string::*;

verus! {

/// Compares two strings character by character.
pub fn str_eq(a: &str, b: &str) -> (r: bool)
    ensures
        r == (a@ == b@),
{
    let n = a.unicode_len();
    if n != b.unicode_len() {
        return false;
    }
    let mut i: usize = 0;
    while i < n
        invariant
            n == a@.len(),
            n == b@.len(),
            i <= n,
            forall|j: int| 0 <= j < i ==> a@[j] == b@[j],
        decreases n - i,
    {
        if a.get_char(i) != b.get_char(i) {
            return false;
        }
        i = i + 1;
    }
    assert(a@ =~= b@);
    true
}

/// Unicode's `White_Space` property, the whitespace of `str::trim`.
pub open spec fn is_ws(c: char) -> bool {
    ('\u{9}' <= c && c <= '\u{d}') || c == ' ' || c == '\u{85}' || c == '\u{a0}'
        || c == '\u{1680}' || ('\u{2000}' <= c && c <= '\u{200a}') || c == '\u{2028}'
        || c == '\u{2029}' || c == '\u{202f}' || c == '\u{205f}' || c == '\u{3000}'
}

/// `s` without its leading and trailing whitespace.
pub open spec fn trimmed(s: Seq<char>) -> Seq<char>
    decreases s.len(),
{
    if s.len() > 0 && is_ws(s[0]) {
        trimmed(s.drop_first())
    } else if s.len() > 0 && is_ws(s.last()) {
        trimmed(s.drop_last())
    } else {
        s
    }
}

/// A string that holds nothing but whitespace (or nothing at all).
pub open spec fn is_blank(s: Seq<char>) -> bool {
    forall|i: int| 0 <= i < s.len() ==> is_ws(#[trigger] s[i])
}

/// Relies on `str::trim`: it removes the leading and trailing characters with
/// Unicode's `White_Space` property.
#[verifier::external_body]
pub fn trim(s: &str) -> (r: String)
    ensures
        r@ == trimmed(s@),
{
    s.trim().to_string()
}

/// A trimmed string is empty exactly when the string was blank.
pub proof fn lemma_trimmed_empty_iff_blank(s: Seq<char>)
    ensures
        (trimmed(s).len() == 0) == is_blank(s),
    decreases s.len(),
{
    if s.len() > 0 && is_ws(s[0]) {
        let t = s.drop_first();
        lemma_trimmed_empty_iff_blank(t);
        if is_blank(t) {
            assert forall|i: int| 0 <= i < s.len() implies is_ws(#[trigger] s[i]) by {
                if i > 0 {
                    assert(s[i] == t[i - 1]);
                }
            }
        }
        if is_blank(s) {
            assert forall|i: int| 0 <= i < t.len() implies is_ws(#[trigger] t[i]) by {
                assert(t[i] == s[i + 1]);
            }
        }
    } else if s.len() > 0 && is_ws(s.last()) {
        let t = s.drop_last();
        lemma_trimmed_empty_iff_blank(t);
        if is_blank(t) {
            assert forall|i: int| 0 <= i < s.len() implies is_ws(#[trigger] s[i]) by {
                if i < s.len() - 1 {
                    assert(s[i] == t[i]);
                }
            }
        }
        if is_blank(s) {
            assert forall|i: int| 0 <= i < t.len() implies is_ws(#[trigger] t[i]) by {
                assert(t[i] == s[i]);
            }
        }
    } else {
        if s.len() > 0 {
            assert(!is_ws(s[0]));
        }
    }
}

} // verus!

verus! {

/// The scope after `add` is joined onto `cur` with one space. Each added part
/// is trimmed first, and a part that is blank adds nothing.
pub open spec fn scope_after(cur: Option<Seq<char>>, add: Seq<char>) -> Option<Seq<char>> {
    if trimmed(add).len() == 0 {
        cur
    } else {
        match cur {
            Some(c) => Some(c + seq![' '] + trimmed(add)),
            None => Some(trimmed(add)),
        }
    }
}

/// Text that neither starts nor ends with whitespace.
pub open spec fn is_tidy(s: Seq<char>) -> bool {
    s.len() > 0 ==> !is_ws(s[0]) && !is_ws(s.last())
}

/// Trimming leaves no whitespace at either end.
pub proof fn lemma_trimmed_tidy(s: Seq<char>)
    ensures
        is_tidy(trimmed(s)),
    decreases s.len(),
{
    if s.len() > 0 && is_ws(s[0]) {
        lemma_trimmed_tidy(s.drop_first());
    } else if s.len() > 0 && is_ws(s.last()) {
        lemma_trimmed_tidy(s.drop_last());
    }
}

/// A scope collected by joining parts never starts or ends with whitespace
/// and is never empty.
pub proof fn lemma_scope_stays_tidy(cur: Option<Seq<char>>, add: Seq<char>)
    requires
        cur matches Some(c) ==> is_tidy(c) && c.len() > 0,
    ensures
        scope_after(cur, add) matches Some(t) ==> is_tidy(t) && t.len() > 0,
{
    lemma_trimmed_tidy(add);
    if trimmed(add).len() > 0 {
        if let Some(c) = cur {
            let t = c + seq![' '] + trimmed(add);
            assert(t[0] == c[0]);
            assert(t.last() == trimmed(add).last());
        }
    }
}

/// The view of an optional string.
pub open spec fn opt_view(o: Option<String>) -> Option<Seq<char>> {
    match o {
        Some(s) => Some(s@),
        None => None,
    }
}

/// Joins a scope onto the scope collected so far.
pub fn join_scope(cur: Option<String>, add: &str) -> (r: Option<String>)
    ensures
        opt_view(r) == scope_after(opt_view(cur), add@),
{
    let part = trim(add);
    if part.unicode_len() == 0 {
        return cur;
    }
    match cur {
        Some(c) => {
            let mut s = c;
            s.append(" ");
            s.append(part.as_str());
            proof {
                reveal_strlit(" ");
            }
            assert(s@ =~= c@ + seq![' '] + trimmed(add@));
            Some(s)
        },
        None => Some(part),
    }
}

} // verus!
