//! Text helpers: exact string comparison and the sanitization applied to the
//! optional descriptive attributes before they are shown in a table cell.

use vstd::prelude::*;

verus! {

/// Whether the Unicode `White_Space` property holds of `c`.
pub uninterp spec fn is_white(c: char) -> bool;

/// Relies on char::is_whitespace: whether the character has the Unicode
/// `White_Space` property, a function of the character alone.
pub assume_specification[ char::is_whitespace ](c: char) -> (r: bool)
    ensures
        r == is_white(c),
;

/// Whether two string slices hold the same characters.
pub fn str_eq(a: &str, b: &str) -> (r: bool)
    ensures
        r == (a@ == b@),
{
    let n = a.unicode_len();
    if n != b.unicode_len() {
        return false;
    }
    let mut i: usize = 0;
    while i < n
        invariant
            n == a@.len(),
            n == b@.len(),
            i <= n,
            forall|k: int| 0 <= k < i ==> a@[k] == b@[k],
        decreases n - i,
    {
        if a.get_char(i) != b.get_char(i) {
            return false;
        }
        i = i + 1;
    }
    proof {
        assert(a@ =~= b@);
    }
    true
}

/// The first index at or after `i` holding a non-whitespace character, or the
/// length if the rest of `s` is all whitespace.
pub open spec fn scan_ws_start(s: Seq<char>, i: nat) -> nat
    decreases s.len() - i,
{
    if i >= s.len() {
        s.len()
    } else if is_white(s[i as int]) {
        scan_ws_start(s, i + 1)
    } else {
        i
    }
}

/// One past the last non-whitespace character at or after `lo`, scanning down
/// from `j`, or `lo` if that whole range is whitespace.
pub open spec fn scan_ws_end(s: Seq<char>, j: nat, lo: nat) -> nat
    decreases j,
{
    if j <= lo {
        lo
    } else if is_white(s[j - 1]) {
        scan_ws_end(s, (j - 1) as nat, lo)
    } else {
        j
    }
}

/// `s` without its leading and trailing whitespace.
pub open spec fn trimmed(s: Seq<char>) -> Seq<char> {
    let lo = scan_ws_start(s, 0);
    let hi = scan_ws_end(s, s.len(), lo);
    s.subrange(lo as int, hi as int)
}

/// `s` without any newline character, wherever it stands.
pub open spec fn without_newlines(s: Seq<char>) -> Seq<char>
    decreases s.len(),
{
    if s.len() == 0 {
        s
    } else if s[0] == '\n' {
        without_newlines(s.drop_first())
    } else {
        seq![s[0]] + without_newlines(s.drop_first())
    }
}

/// The single-line table cell for an optional text attribute: empty when the
/// attribute is absent, else the text trimmed and with newlines removed.
pub open spec fn safe_view(opt_s: Option<String>) -> Seq<char> {
    match opt_s {
        Some(s) => without_newlines(trimmed(s@)),
        None => Seq::<char>::empty(),
    }
}

proof fn lemma_scan_ws_start_step(s: Seq<char>, i: nat, lo: nat)
    requires
        i <= lo <= s.len(),
        forall|k: int| i <= k < lo ==> is_white(s[k]),
        lo < s.len() ==> !is_white(s[lo as int]),
    ensures
        scan_ws_start(s, i) == lo,
    decreases lo - i,
{
    if i < lo {
        lemma_scan_ws_start_step(s, i + 1, lo);
    }
}

proof fn lemma_scan_ws_end_step(s: Seq<char>, j: nat, hi: nat, lo: nat)
    requires
        lo <= hi <= j <= s.len(),
        forall|k: int| hi <= k < j ==> is_white(s[k]),
        hi > lo ==> !is_white(s[hi - 1]),
    ensures
        scan_ws_end(s, j, lo) == hi,
    decreases j - hi,
{
    if hi < j {
        lemma_scan_ws_end_step(s, (j - 1) as nat, hi, lo);
    }
}

/// The table cell of an optional text attribute: the empty string when the
/// attribute is absent; else the text with leading and trailing whitespace
/// trimmed and every newline removed.
pub fn to_safe_string(opt_s: &Option<String>) -> (r: String)
    ensures
        r@ == safe_view(*opt_s),
{
    let s: &str = match opt_s {
        Some(s) => s.as_str(),
        None => {
            return String::new();
        },
    };
    let n = s.unicode_len();
    let mut lo: usize = 0;
    while lo < n && s.get_char(lo).is_whitespace()
        invariant
            n == s@.len(),
            lo <= n,
            forall|k: int| 0 <= k < lo ==> is_white(s@[k]),
        decreases n - lo,
    {
        lo = lo + 1;
    }
    let mut hi: usize = n;
    while hi > lo && s.get_char(hi - 1).is_whitespace()
        invariant
            n == s@.len(),
            lo <= hi <= n,
            forall|k: int| hi <= k < n ==> is_white(s@[k]),
        decreases hi,
    {
        hi = hi - 1;
    }
    proof {
        lemma_scan_ws_start_step(s@, 0, lo as nat);
        lemma_scan_ws_end_step(s@, s@.len(), hi as nat, lo as nat);
        assert(trimmed(s@) == s@.subrange(lo as int, hi as int));
    }
    let ghost t = s@.subrange(lo as int, hi as int);
    let mut out = String::new();
    let mut i: usize = lo;
    while i < hi
        invariant
            n == s@.len(),
            lo <= i <= hi <= n,
            t == s@.subrange(lo as int, hi as int),
            out@ + without_newlines(s@.subrange(i as int, hi as int)) == without_newlines(t),
        decreases hi - i,
    {
        let ghost pre = s@.subrange(i as int, hi as int);
        proof {
            assert(pre[0] == s@[i as int]);
            assert(pre.drop_first() =~= s@.subrange(i + 1, hi as int));
        }
        let c = s.get_char(i);
        if c != '\n' {
            let piece = s.substring_char(i, i + 1);
            proof {
                assert(piece@ =~= seq![s@[i as int]]);
            }
            out.append(piece);
            proof {
                assert(out@ + without_newlines(s@.subrange(i + 1, hi as int)) =~= without_newlines(
                    t,
                ));
            }
        }
        i = i + 1;
    }
    proof {
        assert(s@.subrange(hi as int, hi as int) =~= Seq::<char>::empty());
        assert(out@ =~= without_newlines(t));
    }
    out
}

} // verus!
