//! The storage codec for a person's stack list and birthdate.
//!
//! The store keeps the stack as one delimiter-joined string, with
//! `" | "` as the separator; an empty joined string stands for an
//! absent list. The birthdate is kept as a calendar date and shown as
//! `YYYY-MM-DD`. This module defines both encodings, their decoders,
//! and the round-trip laws that relate them.

use crate::strutil::contains_seq;
use crate::strutil::is_match_at;
use vstd::prelude::*;
use vstd::string::*;

verus! {

/// The separator the store joins stack items with.
pub open spec fn sep_chars() -> Seq<char> {
    seq![' ', '|', ' ']
}

/// The separator occurs in `s` starting at position `i`.
pub open spec fn has_sep_at(s: Seq<char>, i: int) -> bool {
    0 <= i && i + 3 <= s.len() && s.subrange(i, i + 3) == sep_chars()
}

/// The separator occurs nowhere in `s`.
pub open spec fn sep_free(s: Seq<char>) -> bool {
    forall|i: int| !has_sep_at(s, i)
}

/// Splitting on the separator, leftmost occurrence first: the pieces
/// of `s`, in order. A string with no separator is one piece, so the
/// result is never empty.
pub open spec fn split_items(s: Seq<char>) -> Seq<Seq<char>>
    decreases s.len(),
{
    if has_sep_at(s, 0) {
        seq![Seq::<char>::empty()] + split_items(s.skip(3))
    } else if s.len() == 0 {
        seq![s]
    } else {
        let rest = split_items(s.drop_first());
        seq![seq![s[0]] + rest[0]] + rest.drop_first()
    }
}

/// The items joined with the separator; no items give the empty string.
pub open spec fn join_items(items: Seq<Seq<char>>) -> Seq<char>
    decreases items.len(),
{
    if items.len() == 0 {
        Seq::empty()
    } else if items.len() == 1 {
        items[0]
    } else {
        items[0] + sep_chars() + join_items(items.drop_first())
    }
}

/// How a stored joined string reads back: empty stands for an absent
/// list, anything else splits into its pieces.
pub open spec fn read_stack(joined: Seq<char>) -> Option<Seq<Seq<char>>> {
    if joined.len() == 0 {
        None
    } else {
        Some(split_items(joined))
    }
}

/// How an optional stack list is stored: absent is kept as the empty
/// string, a list as its items joined.
pub open spec fn joined_stack(stack: Option<Seq<Seq<char>>>) -> Seq<char> {
    match stack {
        Some(items) => join_items(items),
        None => Seq::empty(),
    }
}

/// The character sequences of an optional list of strings.
pub open spec fn stack_view(stack: Option<Vec<String>>) -> Option<Seq<Seq<char>>> {
    match stack {
        Some(items) => Some(items.deep_view()),
        None => None,
    }
}

/// A stack item that the joined encoding keeps faithfully: it does not
/// contain the separator, and does not end with the two characters
/// `" |"` (which would complete a separator with the character that
/// follows the item).
pub open spec fn item_round_trips(item: Seq<char>) -> bool {
    &&& !contains_seq(item, sep_chars())
    &&& !(item.len() >= 2 && item[item.len() - 2] == ' ' && item[item.len() - 1] == '|')
}

/// A string without the separator is a single piece.
pub proof fn lemma_split_no_sep(s: Seq<char>)
    requires
        sep_free(s),
    ensures
        split_items(s) =~= seq![s],
    decreases s.len(),
{
    assert(!has_sep_at(s, 0));
    if s.len() == 0 {
    } else {
        let t = s.drop_first();
        assert forall|i: int| !has_sep_at(t, i) by {
            if has_sep_at(t, i) {
                assert(t.subrange(i, i + 3) =~= s.subrange(i + 1, i + 4));
                assert(has_sep_at(s, i + 1));
            }
        }
        lemma_split_no_sep(t);
        let rest = split_items(t);
        assert(rest[0] == t);
        assert(seq![s[0]] + t =~= s);
        assert(rest.drop_first() =~= Seq::<Seq<char>>::empty());
    }
}

/// Splitting a string whose first separator occurrence starts at `k`:
/// the first piece is everything before `k`, and the rest is the split
/// of everything after the separator.
pub proof fn lemma_split_first_sep(s: Seq<char>, k: int)
    requires
        has_sep_at(s, k),
        forall|i: int| 0 <= i < k ==> !has_sep_at(s, i),
    ensures
        split_items(s) =~= seq![s.subrange(0, k)] + split_items(s.skip(k + 3)),
    decreases k,
{
    if k == 0 {
        assert(s.subrange(0, 0) =~= Seq::<char>::empty());
        assert(split_items(s) == seq![Seq::<char>::empty()] + split_items(s.skip(3)));
    } else {
        assert(!has_sep_at(s, 0));
        assert(s.len() > 0);
        let t = s.drop_first();
        assert(t.subrange(k - 1, k + 2) =~= s.subrange(k, k + 3));
        assert(has_sep_at(t, k - 1));
        assert forall|i: int| 0 <= i < k - 1 implies !has_sep_at(t, i) by {
            if has_sep_at(t, i) {
                assert(t.subrange(i, i + 3) =~= s.subrange(i + 1, i + 4));
                assert(has_sep_at(s, i + 1));
            }
        }
        lemma_split_first_sep(t, k - 1);
        let rest = split_items(t);
        assert(rest =~= seq![t.subrange(0, k - 1)] + split_items(t.skip(k + 2)));
        assert(rest[0] == t.subrange(0, k - 1));
        assert(rest.drop_first() =~= split_items(t.skip(k + 2)));
        assert(t.skip(k + 2) =~= s.skip(k + 3));
        assert(seq![s[0]] + t.subrange(0, k - 1) =~= s.subrange(0, k));
        assert(split_items(s) =~= seq![s.subrange(0, k)] + split_items(s.skip(k + 3)));
    }
}

/// In the string joined from two or more items whose first item round
/// trips, the first separator occurrence is exactly the one the join
/// put after the first item.
pub proof fn lemma_join_first_sep(items: Seq<Seq<char>>)
    requires
        items.len() >= 2,
        item_round_trips(items[0]),
    ensures
        has_sep_at(join_items(items), items[0].len() as int),
        forall|i: int| 0 <= i < items[0].len() ==> !has_sep_at(join_items(items), i),
        join_items(items).subrange(0, items[0].len() as int) =~= items[0],
        join_items(items).skip(items[0].len() + 3 as int) =~= join_items(items.drop_first()),
{
    let a = items[0];
    let n = a.len() as int;
    let s = join_items(items);
    assert(s == a + sep_chars() + join_items(items.drop_first()));
    assert(s.subrange(0, n) =~= a);
    assert(s.subrange(n, n + 3) =~= sep_chars());
    assert(has_sep_at(s, n));
    assert(s.skip(n + 3) =~= join_items(items.drop_first()));
    assert forall|i: int| 0 <= i < n implies !has_sep_at(s, i) by {
        if has_sep_at(s, i) {
            let w = s.subrange(i, i + 3);
            assert(w[0] == s[i] && w[1] == s[i + 1] && w[2] == s[i + 2]);
            assert(s[i] == ' ' && s[i + 1] == '|' && s[i + 2] == ' ');
            if i + 3 <= n {
                assert(a.subrange(i, i + 3) =~= s.subrange(i, i + 3));
                assert(is_match_at(a, sep_chars(), i));
                assert(contains_seq(a, sep_chars()));
            } else if i == n - 2 {
                assert(a[n - 2] == s[i] && a[n - 1] == s[i + 1]);
            } else {
                assert(i == n - 1);
                assert(s[i + 1] == sep_chars()[0]);
            }
        }
    }
}

/// The round trip of the stack encoding: a non-empty list whose items
/// all round trip is recovered exactly by splitting its joined string.
pub proof fn lemma_stack_round_trip(items: Seq<Seq<char>>)
    requires
        items.len() >= 1,
        forall|i: int| 0 <= i < items.len() ==> item_round_trips(#[trigger] items[i]),
    ensures
        split_items(join_items(items)) =~= items,
    decreases items.len(),
{
    if items.len() == 1 {
        let a = items[0];
        assert forall|i: int| !has_sep_at(a, i) by {
            if has_sep_at(a, i) {
                assert(is_match_at(a, sep_chars(), i));
                assert(contains_seq(a, sep_chars()));
            }
        }
        lemma_split_no_sep(a);
        assert(seq![a] =~= items);
    } else {
        let n = items[0].len() as int;
        lemma_join_first_sep(items);
        lemma_split_first_sep(join_items(items), n);
        lemma_stack_round_trip(items.drop_first());
        assert(split_items(join_items(items)) =~= seq![items[0]] + items.drop_first());
        assert(seq![items[0]] + items.drop_first() =~= items);
    }
}

/// A stored non-empty list whose items all round trip reads back
/// exactly: what the create path joins, the read path splits into the
/// same items.
pub proof fn lemma_stored_stack_round_trip(items: Seq<Seq<char>>)
    requires
        items.len() >= 1,
        forall|i: int| 0 <= i < items.len() ==> item_round_trips(#[trigger] items[i]),
        join_items(items).len() > 0,
    ensures
        read_stack(joined_stack(Some(items))) == Some(items),
{
    lemma_stack_round_trip(items);
}

/// An absent stack and an empty stack are both stored as the empty
/// string, and read back as an absent stack, not as an empty list.
pub proof fn lemma_empty_stack_absent()
    ensures
        joined_stack(None) =~= Seq::<char>::empty(),
        joined_stack(Some(Seq::<Seq<char>>::empty())) =~= Seq::<char>::empty(),
        read_stack(joined_stack(None)) is None,
        read_stack(joined_stack(Some(Seq::<Seq<char>>::empty()))) is None,
{
}

/// Joining one more item appends a separator and the item.
proof fn lemma_join_push(items: Seq<Seq<char>>, x: Seq<char>)
    ensures
        items.len() == 0 ==> join_items(items.push(x)) =~= x,
        items.len() >= 1 ==> join_items(items.push(x)) =~= join_items(items) + sep_chars() + x,
    decreases items.len(),
{
    if items.len() == 0 {
        assert(items.push(x)[0] == x);
    } else if items.len() == 1 {
        assert(items.push(x).drop_first() =~= seq![x]);
        assert(join_items(seq![x]) == x);
        assert(join_items(items.push(x)) == items[0] + sep_chars() + x);
    } else {
        lemma_join_push(items.drop_first(), x);
        assert(items.push(x).drop_first() =~= items.drop_first().push(x));
        assert(join_items(items.push(x)) == items[0] + sep_chars() + join_items(
            items.drop_first().push(x),
        ));
        assert(items[0] + sep_chars() + (join_items(items.drop_first()) + sep_chars() + x) =~= (
        items[0] + sep_chars() + join_items(items.drop_first())) + sep_chars() + x);
    }
}

/// Encodes an optional stack list for the store: the items joined with
/// the separator, or the empty string when the list is absent.
pub fn join_stack(stack: &Option<Vec<String>>) -> (r: String)
    ensures
        r@ == joined_stack(stack_view(*stack)),
{
    match stack {
        None => String::new(),
        Some(items) => {
            proof {
                reveal_strlit(" | ");
                assert(" | "@ =~= sep_chars());
            }
            let mut r = String::new();
            let mut idx: usize = 0;
            while idx < items.len()
                invariant
                    idx <= items.len(),
                    " | "@ == sep_chars(),
                    r@ == join_items(items.deep_view().take(idx as int)),
                decreases items.len() - idx,
            {
                if idx > 0 {
                    r.append(" | ");
                }
                r.append(items[idx].as_str());
                proof {
                    let dv = items.deep_view();
                    assert(dv.take(idx + 1) =~= dv.take(idx as int).push(dv[idx as int]));
                    lemma_join_push(dv.take(idx as int), dv[idx as int]);
                    assert(dv[idx as int] == items[idx as int]@);
                }
                idx += 1;
            }
            proof {
                assert(items.deep_view().take(items@.len() as int) =~= items.deep_view());
            }
            r
        },
    }
}

/// Finds the first separator occurrence at or after `from`, if any.
fn find_sep(s: &str, from: usize) -> (r: Option<usize>)
    requires
        from <= s@.len(),
    ensures
        r matches Some(k) ==> from <= k && has_sep_at(s@, k as int) && forall|j: int|
            from <= j < k ==> !has_sep_at(s@, j),
        r is None ==> forall|j: int| from <= j ==> !has_sep_at(s@, j),
{
    let n = s.unicode_len();
    if n < 3 {
        return None;
    }
    let mut i: usize = from;
    while i <= n - 3
        invariant
            3 <= n,
            from <= i,
            i <= n,
            n == s@.len(),
            forall|j: int| from <= j < i ==> !has_sep_at(s@, j),
        decreases n - i,
    {
        let c0 = s.get_char(i);
        let c1 = s.get_char(i + 1);
        let c2 = s.get_char(i + 2);
        if c0 == ' ' && c1 == '|' && c2 == ' ' {
            proof {
                assert(s@.subrange(i as int, i + 3) =~= sep_chars());
            }
            return Some(i);
        }
        proof {
            assert(!has_sep_at(s@, i as int)) by {
                if has_sep_at(s@, i as int) {
                    let w = s@.subrange(i as int, i + 3);
                    assert(w[0] == s@[i as int] && w[1] == s@[i + 1] && w[2] == s@[i + 2]);
                }
            }
        }
        i += 1;
    }
    None
}

/// Decodes a stored joined string: the empty string reads as an absent
/// stack, anything else as the list of its separator-delimited pieces.
pub fn split_stack(joined: &str) -> (r: Option<Vec<String>>)
    ensures
        r is Some <==> joined@.len() > 0,
        stack_view(r) == read_stack(joined@),
{
    let n = joined.unicode_len();
    if n == 0 {
        return None;
    }
    let mut pieces: Vec<String> = Vec::new();
    let mut start: usize = 0;
    proof {
        assert(joined@.skip(0) =~= joined@);
        assert(pieces.deep_view() =~= Seq::<Seq<char>>::empty());
        assert(Seq::<Seq<char>>::empty() + split_items(joined@) =~= split_items(joined@));
    }
    loop
        invariant
            start <= n,
            n == joined@.len(),
            n > 0,
            split_items(joined@) =~= pieces.deep_view() + split_items(
                joined@.skip(start as int),
            ),
        decreases n - start,
    {
        let ghost suffix = joined@.skip(start as int);
        match find_sep(joined, start) {
            Some(k) => {
                let piece = joined.substring_char(start, k).to_owned();
                pieces.push(piece);
                proof {
                    assert(suffix.subrange(k - start, k - start + 3) =~= joined@.subrange(
                        k as int,
                        k + 3,
                    ));
                    assert(has_sep_at(suffix, k - start));
                    assert forall|j: int| 0 <= j < k - start implies !has_sep_at(suffix, j) by {
                        if has_sep_at(suffix, j) {
                            assert(suffix.subrange(j, j + 3) =~= joined@.subrange(
                                start + j,
                                start + j + 3,
                            ));
                            assert(has_sep_at(joined@, start + j));
                        }
                    }
                    lemma_split_first_sep(suffix, k - start);
                    assert(suffix.subrange(0, k - start) =~= joined@.subrange(
                        start as int,
                        k as int,
                    ));
                    assert(suffix.skip(k - start + 3) =~= joined@.skip(k + 3));
                    assert(pieces.deep_view() =~= pieces.deep_view().take(
                        pieces.deep_view().len() - 1,
                    ).push(piece@));
                    assert(split_items(joined@) =~= pieces.deep_view() + split_items(
                        joined@.skip(k + 3),
                    ));
                }
                start = k + 3;
            },
            None => {
                let piece = joined.substring_char(start, n).to_owned();
                pieces.push(piece);
                proof {
                    assert forall|j: int| !has_sep_at(suffix, j) by {
                        if has_sep_at(suffix, j) {
                            assert(suffix.subrange(j, j + 3) =~= joined@.subrange(
                                start + j,
                                start + j + 3,
                            ));
                            assert(has_sep_at(joined@, start + j));
                        }
                    }
                    lemma_split_no_sep(suffix);
                    assert(suffix =~= joined@.subrange(start as int, n as int));
                    assert(pieces.deep_view() =~= pieces.deep_view().take(
                        pieces.deep_view().len() - 1,
                    ).push(piece@));
                    assert(pieces.deep_view() =~= split_items(joined@));
                }
                return Some(pieces);
            },
        }
    }
}

/// The decimal digit characters, in order.
pub open spec fn digit_char(n: int) -> char {
    if n == 0 {
        '0'
    } else if n == 1 {
        '1'
    } else if n == 2 {
        '2'
    } else if n == 3 {
        '3'
    } else if n == 4 {
        '4'
    } else if n == 5 {
        '5'
    } else if n == 6 {
        '6'
    } else if n == 7 {
        '7'
    } else if n == 8 {
        '8'
    } else {
        '9'
    }
}

/// A calendar date shown as `YYYY-MM-DD`: four year digits, two month
/// digits and two day digits, zero-padded, separated by hyphens.
pub open spec fn date_str(y: int, m: int, d: int) -> Seq<char> {
    seq![
        digit_char(y / 1000 % 10),
        digit_char(y / 100 % 10),
        digit_char(y / 10 % 10),
        digit_char(y % 10),
        '-',
        digit_char(m / 10),
        digit_char(m % 10),
        '-',
        digit_char(d / 10),
        digit_char(d % 10),
    ]
}

/// Appends the character of a single decimal digit.
fn append_digit(s: &mut String, d: u8)
    requires
        d < 10,
    ensures
        final(s)@ == old(s)@.push(digit_char(d as int)),
{
    let digit = if d == 0 {
        proof {
            reveal_strlit("0");
        }
        "0"
    } else if d == 1 {
        proof {
            reveal_strlit("1");
        }
        "1"
    } else if d == 2 {
        proof {
            reveal_strlit("2");
        }
        "2"
    } else if d == 3 {
        proof {
            reveal_strlit("3");
        }
        "3"
    } else if d == 4 {
        proof {
            reveal_strlit("4");
        }
        "4"
    } else if d == 5 {
        proof {
            reveal_strlit("5");
        }
        "5"
    } else if d == 6 {
        proof {
            reveal_strlit("6");
        }
        "6"
    } else if d == 7 {
        proof {
            reveal_strlit("7");
        }
        "7"
    } else if d == 8 {
        proof {
            reveal_strlit("8");
        }
        "8"
    } else {
        proof {
            reveal_strlit("9");
        }
        "9"
    };
    s.append(digit);
    proof {
        assert(old(s)@ + digit@ =~= old(s)@.push(digit_char(d as int)));
    }
}

/// Shows a calendar date as `YYYY-MM-DD`.
pub fn format_date(y: u16, m: u8, d: u8) -> (r: String)
    requires
        y <= 9999,
        m <= 99,
        d <= 99,
    ensures
        r@ == date_str(y as int, m as int, d as int),
{
    let mut r = String::new();
    append_digit(&mut r, ((y / 1000) % 10) as u8);
    append_digit(&mut r, ((y / 100) % 10) as u8);
    append_digit(&mut r, ((y / 10) % 10) as u8);
    append_digit(&mut r, (y % 10) as u8);
    proof {
        reveal_strlit("-");
    }
    r.append("-");
    append_digit(&mut r, m / 10);
    append_digit(&mut r, m % 10);
    r.append("-");
    append_digit(&mut r, d / 10);
    append_digit(&mut r, d % 10);
    proof {
        assert(r@ =~= date_str(y as int, m as int, d as int));
    }
    r
}

} // verus!
