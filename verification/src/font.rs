//! Font stacks: which family the first usable entry of a CSS font stack
//! names.

use vstd::prelude::*;
use crate::text::{
    chars_of, copy_range, eq_ignore_ascii_case, same_ignoring_case, split, split_at_char, string_of,
    trim_bounds, trimmed,
};

verus! {

/// A font family: one of the generic ones, or one by name.
#[derive(Clone, Debug, PartialEq, Eq)]
pub enum FontFamily {
    Monospace,
    Serif,
    SansSerif,
    Cursive,
    Fantasy,
    Name(String),
}

/// A font family as contracts see it.
pub enum FontFamilyView {
    Monospace,
    Serif,
    SansSerif,
    Cursive,
    Fantasy,
    Name(Seq<char>),
}

impl View for FontFamily {
    type V = FontFamilyView;

    open spec fn view(&self) -> FontFamilyView {
        match *self {
            FontFamily::Monospace => FontFamilyView::Monospace,
            FontFamily::Serif => FontFamilyView::Serif,
            FontFamily::SansSerif => FontFamilyView::SansSerif,
            FontFamily::Cursive => FontFamilyView::Cursive,
            FontFamily::Fantasy => FontFamilyView::Fantasy,
            FontFamily::Name(name) => FontFamilyView::Name(name@),
        }
    }
}

/// How many characters at the start of `s` are `q`.
pub open spec fn lead_of(s: Seq<char>, q: char) -> int
    decreases s.len(),
{
    if s.len() == 0 || s[0] != q {
        0
    } else {
        1 + lead_of(s.drop_first(), q)
    }
}

/// Where `s` ends once the characters `q` at its end are left out.
pub open spec fn end_without(s: Seq<char>, q: char) -> int
    decreases s.len(),
{
    if s.len() == 0 || s.last() != q {
        s.len() as int
    } else {
        end_without(s.drop_last(), q)
    }
}

/// A text without the characters `q` at its start and at its end.
pub open spec fn without_char(s: Seq<char>, q: char) -> Seq<char> {
    if lead_of(s, q) >= end_without(s, q) {
        Seq::<char>::empty()
    } else {
        s.subrange(lead_of(s, q), end_without(s, q))
    }
}

/// The lead is the first position that holds another character.
proof fn lemma_lead_of(s: Seq<char>, q: char, k: int)
    requires
        0 <= k <= s.len(),
        forall|i: int| 0 <= i < k ==> s[i] == q,
        k == s.len() || s[k] != q,
    ensures
        lead_of(s, q) == k,
    decreases s.len(),
{
    if s.len() > 0 && k > 0 {
        let rest = s.drop_first();
        lemma_lead_of(rest, q, k - 1);
    }
}

/// The end is one past the last position that holds another character.
proof fn lemma_end_without(s: Seq<char>, q: char, k: int)
    requires
        0 <= k <= s.len(),
        forall|i: int| k <= i < s.len() ==> s[i] == q,
        k == 0 || s[k - 1] != q,
    ensures
        end_without(s, q) == k,
    decreases s.len(),
{
    if s.len() > 0 && k < s.len() {
        let rest = s.drop_last();
        lemma_end_without(rest, q, k);
    }
}

/// A copy of a text without the characters `q` at its start and its end.
fn strip_char(chars: &[char], q: char) -> (out: Vec<char>)
    ensures
        out@ == without_char(chars@, q),
{
    let n: usize = chars.len();
    let mut start: usize = 0;
    while start < n && chars[start] == q
        invariant
            start <= n,
            n == chars@.len(),
            forall|i: int| 0 <= i < start ==> chars@[i] == q,
        decreases n - start,
    {
        start = start + 1;
    }
    let mut end: usize = n;
    while end > 0 && chars[end - 1] == q
        invariant
            end <= n,
            n == chars@.len(),
            forall|i: int| end <= i < n ==> chars@[i] == q,
        decreases end,
    {
        end = end - 1;
    }
    proof {
        lemma_lead_of(chars@, q, start as int);
        lemma_end_without(chars@, q, end as int);
    }
    if start < end {
        copy_range(chars, start, end)
    } else {
        Vec::new()
    }
}

/// A copy of a text without its surrounding white space.
fn strip_space(chars: &[char]) -> (out: Vec<char>)
    ensures
        out@ == trimmed(chars@),
{
    let (from, to) = trim_bounds(chars);
    copy_range(chars, from, to)
}

/// The name that one entry of a font stack holds: the entry without
/// surrounding white space and quotes.
pub open spec fn entry_name(entry: Seq<char>) -> Seq<char> {
    trimmed(without_char(without_char(trimmed(entry), '"'), '\''))
}

/// The family that a name stands for: a generic family for its keyword,
/// in any case, and the family of that name otherwise.
pub open spec fn family_of(name: Seq<char>) -> FontFamilyView {
    if same_ignoring_case(name, "monospace"@) {
        FontFamilyView::Monospace
    } else if same_ignoring_case(name, "serif"@) {
        FontFamilyView::Serif
    } else if same_ignoring_case(name, "sans-serif"@) {
        FontFamilyView::SansSerif
    } else if same_ignoring_case(name, "cursive"@) {
        FontFamilyView::Cursive
    } else if same_ignoring_case(name, "fantasy"@) {
        FontFamilyView::Fantasy
    } else {
        FontFamilyView::Name(name)
    }
}

/// The family of the first entry, from entry `from` on, that holds a
/// name; monospace if none does.
pub open spec fn first_family(entries: Seq<Seq<char>>, from: int) -> FontFamilyView
    decreases entries.len() - from,
{
    if from < 0 || from >= entries.len() {
        FontFamilyView::Monospace
    } else if entry_name(entries[from]).len() == 0 {
        first_family(entries, from + 1)
    } else {
        family_of(entry_name(entries[from]))
    }
}

/// The family that a CSS font stack asks for first.
pub fn parse_font_family(font_stack: &str) -> (family: FontFamily)
    ensures
        family@ == first_family(split_at_char(font_stack@, ','), 0),
{
    let entries: Vec<String> = split(font_stack, ',');
    let ghost all = entries.deep_view();
    let mut i: usize = 0;
    while i < entries.len()
        invariant
            i <= entries@.len(),
            all == entries.deep_view(),
            all == split_at_char(font_stack@, ','),
            first_family(all, i as int) == first_family(all, 0),
        decreases entries@.len() - i,
    {
        let raw: Vec<char> = chars_of(entries[i].as_str());
        let a: Vec<char> = strip_space(raw.as_slice());
        let b: Vec<char> = strip_char(a.as_slice(), '"');
        let c: Vec<char> = strip_char(b.as_slice(), '\'');
        let d: Vec<char> = strip_space(c.as_slice());
        if d.len() != 0 {
            let name: String = string_of(d.as_slice());
            let s: &str = name.as_str();
            if eq_ignore_ascii_case(s, "monospace") {
                return FontFamily::Monospace;
            } else if eq_ignore_ascii_case(s, "serif") {
                return FontFamily::Serif;
            } else if eq_ignore_ascii_case(s, "sans-serif") {
                return FontFamily::SansSerif;
            } else if eq_ignore_ascii_case(s, "cursive") {
                return FontFamily::Cursive;
            } else if eq_ignore_ascii_case(s, "fantasy") {
                return FontFamily::Fantasy;
            } else {
                return FontFamily::Name(name);
            }
        }
        i = i + 1;
    }
    FontFamily::Monospace
}

} // verus!
