//! Locale-identifier normalization.
//!
//! For rule lookup a locale identifier is reduced to its base-language
//! subtag: the part before the first `-` separator, with ASCII uppercase
//! letters lowered (so `"en-US"` becomes `"en"` and `"PT-BR"` becomes
//! `"pt"`).  No further normalization is performed.

use vstd::prelude::*;
use vstd::string::StrSliceExecFns;

use crate::text::append_lower_char;
use crate::text::spec_lower;

verus! {

/// How many characters precede the first `-` separator (the whole length when
/// there is none).
pub open spec fn spec_base_len(s: Seq<char>) -> nat
    decreases s.len(),
{
    if s.len() == 0 {
        0
    } else if s[0] == '-' {
        0
    } else {
        1 + spec_base_len(s.drop_first())
    }
}

/// The normalized form of a locale identifier: the base-language subtag,
/// ASCII-lowercased.
pub open spec fn spec_normalize(s: Seq<char>) -> Seq<char> {
    spec_lower(s.take(spec_base_len(s) as int))
}

/// A position with no `-` before it, and `-` at it unless it is the end, is
/// exactly the base-subtag length.
proof fn lemma_base_len_at(s: Seq<char>, i: int)
    requires
        0 <= i <= s.len(),
        forall|j: int| 0 <= j < i ==> s[j] != '-',
        i < s.len() ==> s[i] == '-',
    ensures
        spec_base_len(s) == i,
    decreases i,
{
    if i == 0 {
    } else {
        assert(s[0] != '-');
        let rest = s.drop_first();
        assert forall|j: int| 0 <= j < i - 1 implies rest[j] != '-' by {
            assert(rest[j] == s[j + 1]);
        }
        lemma_base_len_at(rest, i - 1);
    }
}

/// Returns the normalized base-language subtag of a locale identifier.
pub fn normalize_locale(locale: &str) -> (r: String)
    ensures
        r@ == spec_normalize(locale@),
{
    let n = locale.unicode_len();
    let mut end: usize = 0;
    let mut found = false;
    while !found && end < n
        invariant
            n == locale@.len(),
            end <= n,
            forall|j: int| 0 <= j < end ==> locale@[j] != '-',
            found ==> end < n && locale@[end as int] == '-',
        decreases n - end + (if found {
            0int
        } else {
            1int
        }),
    {
        if locale.get_char(end) == '-' {
            found = true;
        } else {
            end = end + 1;
        }
    }
    proof {
        lemma_base_len_at(locale@, end as int);
    }
    let mut out = String::new();
    let mut i: usize = 0;
    while i < end
        invariant
            n == locale@.len(),
            end <= n,
            i <= end,
            spec_base_len(locale@) == end,
            out@ == spec_lower(locale@.take(i as int)),
        decreases end - i,
    {
        append_lower_char(&mut out, locale, i);
        proof {
            assert(out@ =~= spec_lower(locale@.take(i as int + 1)));
        }
        i = i + 1;
    }
    out
}

} // verus!
