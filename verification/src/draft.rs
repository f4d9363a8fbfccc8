use vstd::prelude::*;

verus! {

/// An issue to be created from raw editor input: the text before the first
/// blank line is the title, everything after it the description.
#[derive(Debug, Clone, PartialEq, Eq)]
pub struct IssueDraft {
    pub title: String,
    pub description: Option<String>,
}

/// True when the blank-line separator (two consecutive newlines) stands at
/// position `i` of `s`.
pub open spec fn sep_at(s: Seq<char>, i: int) -> bool {
    0 <= i && i + 2 <= s.len() && s[i] == '\n' && s[i + 1] == '\n'
}

/// The position of the first blank-line separator at or after `i`, or -1
/// when there is none.
pub open spec fn sep_search(s: Seq<char>, i: int) -> int
    decreases s.len() - i when 0 <= i <= s.len()
{
    if i + 2 <= s.len() {
        if s[i] == '\n' && s[i + 1] == '\n' {
            i
        } else {
            sep_search(s, i + 1)
        }
    } else {
        -1
    }
}

/// The position of the first blank-line separator of `s`, or -1 when `s`
/// has none.
pub open spec fn first_sep(s: Seq<char>) -> int {
    sep_search(s, 0)
}

/// `sep_search` finds exactly the first separator at or after `i`: a helper
/// for [`lemma_first_sep_correct`].
proof fn lemma_sep_search_correct(s: Seq<char>, i: int)
    requires
        0 <= i <= s.len(),
    ensures
        sep_search(s, i) == -1 ==> forall|j: int| i <= j ==> !sep_at(s, j),
        sep_search(s, i) >= 0 ==> sep_at(s, sep_search(s, i))
            && i <= sep_search(s, i)
            && (forall|j: int| i <= j < sep_search(s, i) ==> !sep_at(s, j)),
    decreases s.len() - i,
{
    if i + 2 <= s.len() {
        if s[i] == '\n' && s[i + 1] == '\n' {
        } else {
            lemma_sep_search_correct(s, i + 1);
        }
    } else {
        assert forall|j: int| i <= j implies !sep_at(s, j) by {
            assert(j + 2 > s.len());
        }
    }
}

/// Law: `first_sep` names the first separator. When it is -1 the text holds
/// no separator at all; otherwise it is a separator position and no earlier
/// position is one. Together with the contract of [`parse_draft`] this
/// states: the title is the text before the first separator and the
/// description everything after it, unmodified; and on text without a
/// separator the title is the whole text and the description is absent.
pub proof fn lemma_first_sep_correct(s: Seq<char>)
    ensures
        first_sep(s) == -1 ==> forall|j: int| !sep_at(s, j),
        first_sep(s) >= 0 ==> sep_at(s, first_sep(s))
            && (forall|j: int| 0 <= j < first_sep(s) ==> !sep_at(s, j)),
{
    lemma_sep_search_correct(s, 0);
    if first_sep(s) == -1 {
        assert forall|j: int| !sep_at(s, j) by {
            if 0 <= j {
                assert(!sep_at(s, j));
            }
        }
    }
}

/// A position known to be the first separator determines `sep_search` from
/// any point at or before it.
proof fn lemma_sep_search_at(s: Seq<char>, i: int, k: int)
    requires
        0 <= i <= k,
        sep_at(s, k),
        forall|j: int| i <= j < k ==> !sep_at(s, j),
    ensures
        sep_search(s, i) == k,
    decreases k - i,
{
    if i == k {
    } else {
        assert(!sep_at(s, i));
        lemma_sep_search_at(s, i + 1, k);
    }
}

/// No separator at or after `i` means `sep_search` reports none.
proof fn lemma_sep_search_none(s: Seq<char>, i: int)
    requires
        0 <= i <= s.len(),
        forall|j: int| i <= j ==> !sep_at(s, j),
    ensures
        sep_search(s, i) == -1,
    decreases s.len() - i,
{
    if i + 2 <= s.len() {
        assert(!sep_at(s, i));
        lemma_sep_search_none(s, i + 1);
    }
}

/// Splits raw editor input into an issue draft on the first blank line.
///
/// When the input holds no two consecutive newlines, the whole input is the
/// title and the description is absent. Otherwise the text before the first
/// such pair is the title and everything after it is the description,
/// preserved verbatim, internal blank lines included. Nothing is trimmed.
pub fn parse_draft(raw: &str) -> (d: IssueDraft)
    ensures
        first_sep(raw@) == -1 ==> d.title@ == raw@ && d.description is None,
        first_sep(raw@) >= 0 ==> (d.description matches Some(desc)
            && d.title@ == raw@.subrange(0, first_sep(raw@))
            && desc@ == raw@.subrange(first_sep(raw@) + 2, raw@.len() as int)),
{
    let n = raw.unicode_len();
    let mut i: usize = 0;
    let mut sep: Option<usize> = None;

    while sep.is_none() && n >= 2 && i <= n - 2
        invariant
            n == raw@.len(),
            0 <= i <= n,
            sep is None ==> forall|j: int| 0 <= j < i ==> !sep_at(raw@, j),
            sep matches Some(k) ==> sep_at(raw@, k as int)
                && (forall|j: int| 0 <= j < k ==> !sep_at(raw@, j)),
        decreases n - i + (if sep.is_none() { 1int } else { 0int }),
    {
        let c1 = raw.get_char(i);
        let c2 = raw.get_char(i + 1);
        if c1 == '\n' && c2 == '\n' {
            sep = Some(i);
        } else {
            i = i + 1;
        }
    }

    match sep {
        None => {
            proof {
                assert forall|j: int| 0 <= j implies !sep_at(raw@, j) by {
                    if j >= i {
                        assert(j + 2 > raw@.len());
                    }
                }
                lemma_sep_search_none(raw@, 0);
            }
            IssueDraft { title: String::from_str(raw), description: None }
        },
        Some(k) => {
            proof {
                lemma_sep_search_at(raw@, 0, k as int);
            }
            let title = String::from_str(raw.substring_char(0, k));
            let desc = String::from_str(raw.substring_char(k + 2, n));
            IssueDraft { title, description: Some(desc) }
        },
    }
}

} // verus!
