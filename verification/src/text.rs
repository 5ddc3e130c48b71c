//! Text utilities shared by every view: the placeholder shown for an absent
//! value, character-boundary-safe truncation for summary columns, and joining
//! of collection cells with a fixed separator.

use vstd::prelude::*;
use vstd::string::*;

verus! {

/// The display text substituted for an optional value that is absent.
pub open spec fn placeholder_seq() -> Seq<char> {
    seq!['\u{2014}']
}

/// Returns the placeholder string shown for an absent optional value.
pub fn placeholder_string() -> (r: String)
    ensures
        r@ == placeholder_seq(),
{
    let s = String::from_str("\u{2014}");
    proof {
        reveal_strlit("\u{2014}");
        assert(s@ =~= placeholder_seq());
    }
    s
}

/// What truncation to `max` characters yields: the text itself when it fits,
/// otherwise its first `max` characters followed by a single ellipsis marker.
pub open spec fn spec_truncate(s: Seq<char>, max: nat) -> Seq<char> {
    if s.len() <= max {
        s
    } else {
        s.subrange(0, max as int).push('\u{2026}')
    }
}

/// Truncates a summary cell to at most `max` characters plus one marker,
/// never splitting a multi-byte character.
pub fn truncate(s: &str, max: usize) -> (r: String)
    ensures
        r@ == spec_truncate(s@, max as nat),
{
    let n = s.unicode_len();
    if n <= max {
        s.to_owned()
    } else {
        let head = s.substring_char(0, max);
        let mut out = head.to_owned();
        out.append("\u{2026}");
        proof {
            reveal_strlit("\u{2026}");
            assert(out@ =~= s@.subrange(0, max as int).push('\u{2026}'));
        }
        out
    }
}

/// Truncation is character-boundary-safe and bounded: text that fits within
/// `max` characters is kept unchanged; longer text yields exactly its first
/// `max` characters followed by the one-character marker, so the result never
/// exceeds `max` plus the marker and is always built from a prefix of the
/// original.
pub proof fn lemma_truncate_bounds(s: Seq<char>, max: nat)
    ensures
        spec_truncate(s, max).len() <= max + 1,
        s.len() <= max ==> spec_truncate(s, max) == s,
        s.len() > max ==> spec_truncate(s, max).len() == max + 1,
        s.len() > max ==> spec_truncate(s, max).subrange(0, max as int) == s.subrange(
            0,
            max as int,
        ),
        s.len() > max ==> spec_truncate(s, max).last() == '\u{2026}',
{
    if s.len() > max {
        assert(spec_truncate(s, max).subrange(0, max as int) =~= s.subrange(0, max as int));
    }
}

/// What joining a list of cells with a separator yields: the cells in order,
/// with the separator between each adjacent pair and nowhere else.
pub open spec fn join_with(items: Seq<Seq<char>>, sep: Seq<char>) -> Seq<char>
    decreases items.len(),
{
    if items.len() == 0 {
        Seq::empty()
    } else if items.len() == 1 {
        items[0]
    } else {
        join_with(items.drop_last(), sep) + sep + items.last()
    }
}

/// Joins already-formatted cells with a fixed separator.
pub fn join_strings(items: &Vec<String>, sep: &str) -> (r: String)
    ensures
        r@ == join_with(items.deep_view(), sep@),
{
    let ghost all: Seq<Seq<char>> = items.deep_view();
    let mut out = String::new();
    let mut i: usize = 0;
    while i < items.len()
        invariant
            i <= items.len(),
            all == items.deep_view(),
            all.len() == items@.len(),
            forall|j: int| 0 <= j < all.len() ==> all[j] == items@[j]@,
            out@ == join_with(all.subrange(0, i as int), sep@),
        decreases items.len() - i,
    {
        if i > 0 {
            out.append(sep);
        }
        out.append(items[i].as_str());
        proof {
            let pre = all.subrange(0, i as int);
            let cur = all.subrange(0, i + 1 as int);
            assert(cur.drop_last() =~= pre);
            assert(cur.last() == all[i as int]);
            if i == 0 {
                assert(out@ =~= join_with(cur, sep@));
            } else {
                assert(out@ =~= join_with(cur, sep@));
            }
        }
        i += 1;
    }
    proof {
        assert(all.subrange(0, items@.len() as int) =~= all);
    }
    out
}

} // verus!
