//! Dotted version strings (`major.minor.patch`) and their ordering.
//!
//! A version is split at every `.`; its first three pieces are the major,
//! minor and patch numbers. A piece is read as `str::parse::<u32>` reads it
//! (an optional leading `+`, then one or more ASCII digits, at most
//! `u32::MAX`); a piece that does not read so, or one that is missing,
//! counts as zero.

use vstd::prelude::*;
use std::cmp::Ordering;
use crate::text::chars_of;

verus! {

/// `c` is one of the ASCII digits `0` to `9`.
pub open spec fn is_digit(c: char) -> bool {
    48 <= (c as u32) && (c as u32) <= 57
}

/// The value of the ASCII digit `c`.
pub open spec fn digit_value(c: char) -> nat {
    ((c as u32) - 48) as nat
}

/// Every character of `s` is an ASCII digit.
pub open spec fn all_digits(s: Seq<char>) -> bool {
    forall|i: int| 0 <= i < s.len() ==> #[trigger] is_digit(s[i])
}

/// The decimal number written by the digits of `s`.
pub open spec fn decimal_value(s: Seq<char>) -> nat
    decreases s.len(),
{
    if s.len() == 0 {
        0
    } else {
        decimal_value(s.drop_last()) * 10 + digit_value(s.last())
    }
}

/// `s` without a leading `+`, if it has one.
pub open spec fn unsigned_digits(s: Seq<char>) -> Seq<char> {
    if s.len() > 0 && s[0] == '+' {
        s.drop_first()
    } else {
        s
    }
}

/// `s` is what `str::parse::<u32>` accepts.
pub open spec fn reads_as_u32(s: Seq<char>) -> bool {
    let d = unsigned_digits(s);
    &&& d.len() > 0
    &&& all_digits(d)
    &&& decimal_value(d) <= u32::MAX
}

/// The number a version piece stands for: its value where it reads as a
/// `u32`, zero otherwise.
pub open spec fn piece_number(s: Seq<char>) -> nat {
    if reads_as_u32(s) {
        decimal_value(unsigned_digits(s))
    } else {
        0
    }
}

/// The pieces of `s` between the dots, as `str::split('.')` yields them:
/// one more piece than `s` has dots, empty pieces included.
pub open spec fn split_dots(s: Seq<char>) -> Seq<Seq<char>>
    decreases s.len(),
{
    if s.len() == 0 {
        seq![Seq::<char>::empty()]
    } else {
        let rest = split_dots(s.drop_last());
        if s.last() == '.' {
            rest.push(Seq::<char>::empty())
        } else {
            rest.update(rest.len() - 1, rest.last().push(s.last()))
        }
    }
}

/// The number of the piece at position `k`, zero where there is no such piece.
pub open spec fn number_at(pieces: Seq<Seq<char>>, k: int) -> nat {
    if 0 <= k < pieces.len() {
        piece_number(pieces[k])
    } else {
        0
    }
}

/// The `(major, minor, patch)` numbers of a version string.
pub open spec fn version_numbers(s: Seq<char>) -> (nat, nat, nat) {
    let pieces = split_dots(s);
    (number_at(pieces, 0), number_at(pieces, 1), number_at(pieces, 2))
}

/// Lexicographic order of two number triples.
pub open spec fn triple_order(a: (nat, nat, nat), b: (nat, nat, nat)) -> Ordering {
    if a.0 < b.0 {
        Ordering::Less
    } else if a.0 > b.0 {
        Ordering::Greater
    } else if a.1 < b.1 {
        Ordering::Less
    } else if a.1 > b.1 {
        Ordering::Greater
    } else if a.2 < b.2 {
        Ordering::Less
    } else if a.2 > b.2 {
        Ordering::Greater
    } else {
        Ordering::Equal
    }
}

/// How version `a` stands against version `b`.
pub open spec fn version_order(a: Seq<char>, b: Seq<char>) -> Ordering {
    triple_order(version_numbers(a), version_numbers(b))
}

/// Version `a` is older than version `b`.
pub open spec fn version_below(a: Seq<char>, b: Seq<char>) -> bool {
    version_order(a, b) == Ordering::Less
}

/// A prefix of a digit string never writes a larger number than the whole.
pub proof fn lemma_decimal_prefix_le(s: Seq<char>, k: int)
    requires
        0 <= k <= s.len(),
    ensures
        decimal_value(s.take(k)) <= decimal_value(s),
    decreases s.len(),
{
    if k < s.len() {
        lemma_decimal_prefix_le(s.drop_last(), k);
        assert(s.drop_last().take(k) =~= s.take(k));
    } else {
        assert(s.take(k) =~= s);
    }
}

/// Reads one version piece: its number where it reads as a `u32`, zero
/// otherwise.
pub fn piece_value(piece: &Vec<char>) -> (r: u32)
    ensures
        r == piece_number(piece@),
{
    let n: usize = piece.len();
    if n == 0 {
        return 0;
    }
    let start: usize = if piece[0] == '+' { 1 } else { 0 };
    let ghost digits = unsigned_digits(piece@);
    assert(digits =~= piece@.subrange(start as int, n as int));
    if start == n {
        return 0;
    }
    let mut value: u64 = 0;
    let mut i: usize = start;
    while i < n
        invariant
            start <= i <= n,
            n == piece@.len(),
            digits == piece@.subrange(start as int, n as int),
            digits == unsigned_digits(piece@),
            value == decimal_value(digits.take(i - start)),
            value <= u32::MAX,
            forall|j: int| 0 <= j < i - start ==> #[trigger] is_digit(digits[j]),
        decreases n - i,
    {
        let c = piece[i];
        let code: u32 = c as u32;
        if code < 48 || code > 57 {
            assert(!is_digit(digits[i - start]));
            assert(!reads_as_u32(piece@));
            return 0;
        }
        assert(digits.take(i + 1 - start).drop_last() =~= digits.take(i - start));
        let next: u64 = value * 10 + (code - 48) as u64;
        if next > 0xffff_ffff {
            proof {
                if all_digits(digits) {
                    lemma_decimal_prefix_le(digits, i + 1 - start);
                }
                assert(!reads_as_u32(piece@));
            }
            return 0;
        }
        value = next;
        i = i + 1;
    }
    assert(digits.take(n - start) =~= digits);
    value as u32
}

/// The `(major, minor, patch)` numbers of version `s`.
pub fn version_triple(s: &str) -> (r: (u32, u32, u32))
    ensures
        r.0 == version_numbers(s@).0,
        r.1 == version_numbers(s@).1,
        r.2 == version_numbers(s@).2,
{
    let chars = chars_of(s);
    let n: usize = chars.len();
    let mut numbers: [u32; 3] = [0, 0, 0];
    let mut done: usize = 0;
    let ghost mut finished: Seq<Seq<char>> = Seq::empty();
    let mut current: Vec<char> = Vec::new();
    let mut i: usize = 0;
    assert(chars@.take(0) =~= Seq::<char>::empty());
    while i < n
        invariant
            n == chars@.len(),
            chars@ == s@,
            i <= n,
            done <= i,
            finished.len() == done,
            split_dots(chars@.take(i as int)) == finished.push(current@),
            forall|k: int|
                0 <= k < 3 ==> #[trigger] numbers[k] == (if k < done {
                    piece_number(finished[k])
                } else {
                    0
                }),
        decreases n - i,
    {
        let c = chars[i];
        let ghost before = chars@.take(i as int);
        assert(chars@.take(i + 1).drop_last() =~= before);
        if c == '.' {
            if done < 3 {
                let v: u32 = piece_value(&current);
                numbers[done] = v;
            }
            proof {
                finished = finished.push(current@);
            }
            current = Vec::new();
            done = done + 1;
            assert(finished.push(current@) =~= split_dots(before).push(Seq::<char>::empty()));
        } else {
            let ghost old_current = current@;
            current.push(c);
            assert(finished.push(current@) =~= finished.push(old_current).update(
                finished.len() as int,
                old_current.push(c),
            ));
        }
        i = i + 1;
    }
    assert(chars@.take(n as int) =~= chars@);
    if done < 3 {
        let v: u32 = piece_value(&current);
        numbers[done] = v;
    }
    (numbers[0], numbers[1], numbers[2])
}

/// Compares two dotted version strings by their `(major, minor, patch)`
/// numbers; a piece that is missing or is not a `u32` counts as zero.
pub fn compare_versions(a: &str, b: &str) -> (r: Ordering)
    ensures
        r == version_order(a@, b@),
{
    let x = version_triple(a);
    let y = version_triple(b);
    if x.0 < y.0 {
        Ordering::Less
    } else if x.0 > y.0 {
        Ordering::Greater
    } else if x.1 < y.1 {
        Ordering::Less
    } else if x.1 > y.1 {
        Ordering::Greater
    } else if x.2 < y.2 {
        Ordering::Less
    } else if x.2 > y.2 {
        Ordering::Greater
    } else {
        Ordering::Equal
    }
}

/// Version `a` is older than version `b` (`compare_versions(a, b)` is
/// `Less`).
pub fn is_older(a: &str, b: &str) -> (r: bool)
    ensures
        r == version_below(a@, b@),
{
    match compare_versions(a, b) {
        Ordering::Less => true,
        Ordering::Equal => false,
        Ordering::Greater => false,
    }
}

/// `0.1.0` is a full `major.minor.patch` version: three pieces, each a
/// number, read as 0, 1 and 0.
pub proof fn lemma_version_0_1_0()
    ensures
        split_dots("0.1.0"@).len() == 3,
        forall|k: int| 0 <= k < 3 ==> #[trigger] reads_as_u32(split_dots("0.1.0"@)[k]),
        version_numbers("0.1.0"@) == (0nat, 1nat, 0nat),
{
    reveal_strlit("0.1.0");
    let s = "0.1.0"@;
    assert(s =~= seq!['0', '.', '1', '.', '0']);
    assert(s.take(1) =~= seq!['0']);
    assert(s.take(2) =~= seq!['0', '.']);
    assert(s.take(3) =~= seq!['0', '.', '1']);
    assert(s.take(4) =~= seq!['0', '.', '1', '.']);
    assert(s.take(1).drop_last() =~= Seq::<char>::empty());
    assert(s.take(2).drop_last() =~= s.take(1));
    assert(s.take(3).drop_last() =~= s.take(2));
    assert(s.take(4).drop_last() =~= s.take(3));
    assert(s.drop_last() =~= s.take(4));
    assert(split_dots(Seq::<char>::empty()) =~= seq![Seq::<char>::empty()]);
    assert(s.take(1).last() == '0');
    assert(Seq::<char>::empty().push('0') =~= seq!['0']);
    let p0 = split_dots(s.take(1));
    assert(p0 =~= seq![seq!['0']]);
    let p1 = split_dots(s.take(2));
    assert(p1 =~= seq![seq!['0'], Seq::<char>::empty()]);
    let p2 = split_dots(s.take(3));
    assert(p2 =~= seq![seq!['0'], seq!['1']]);
    let p3 = split_dots(s.take(4));
    assert(p3 =~= seq![seq!['0'], seq!['1'], Seq::<char>::empty()]);
    let p4 = split_dots(s);
    assert(p4 =~= seq![seq!['0'], seq!['1'], seq!['0']]);
    lemma_single_digit_piece('0');
    lemma_single_digit_piece('1');
    assert(('0' as u32) == 48);
    assert(('1' as u32) == 49);
}

/// A piece made of one digit reads as that digit's value.
proof fn lemma_single_digit_piece(c: char)
    requires
        is_digit(c),
    ensures
        reads_as_u32(seq![c]),
        piece_number(seq![c]) == digit_value(c),
{
    assert(unsigned_digits(seq![c]) =~= seq![c]) by {
        if c == '+' {
            assert(('+' as u32) == 43);
        }
    }
    assert(seq![c].drop_last() =~= Seq::<char>::empty());
    assert(seq![c].last() == c);
    assert(decimal_value(Seq::<char>::empty()) == 0);
    assert(decimal_value(seq![c]) == digit_value(c));
}

/// `a` comes strictly before `b` when the triples are read major first,
/// then minor, then patch.
pub open spec fn lexicographically_less(a: (nat, nat, nat), b: (nat, nat, nat)) -> bool {
    ||| a.0 < b.0
    ||| a.0 == b.0 && a.1 < b.1
    ||| a.0 == b.0 && a.1 == b.1 && a.2 < b.2
}

/// A version is older than another exactly when its `(major, minor,
/// patch)` numbers come strictly before the other's.
pub proof fn lemma_below_is_lexicographic(a: Seq<char>, b: Seq<char>)
    ensures
        version_below(a, b) <==> lexicographically_less(version_numbers(a), version_numbers(b)),
{
}

/// Every version stands level with itself.
pub proof fn lemma_version_order_reflexive(a: Seq<char>)
    ensures
        version_order(a, a) == Ordering::Equal,
{
}

/// Swapping the two versions turns the outcome around.
pub proof fn lemma_version_order_antisymmetric(a: Seq<char>, b: Seq<char>)
    ensures
        version_order(a, b) == Ordering::Less <==> version_order(b, a) == Ordering::Greater,
        version_order(a, b) == Ordering::Equal <==> version_order(b, a) == Ordering::Equal,
{
}

/// Two versions stand level exactly when their `(major, minor, patch)`
/// numbers agree.
pub proof fn lemma_version_order_equal_numbers(a: Seq<char>, b: Seq<char>)
    ensures
        version_order(a, b) == Ordering::Equal <==> version_numbers(a) == version_numbers(b),
{
}

/// Being older is transitive.
pub proof fn lemma_version_below_transitive(a: Seq<char>, b: Seq<char>, c: Seq<char>)
    requires
        version_below(a, b),
        version_below(b, c),
    ensures
        version_below(a, c),
{
}

/// A missing piece counts as zero: writing `.0` after a version of fewer
/// than three pieces leaves it level with the version as it was.
pub proof fn lemma_missing_piece_is_zero(s: Seq<char>)
    requires
        split_dots(s).len() < 3,
    ensures
        version_order(s.push('.').push('0'), s) == Ordering::Equal,
{
    let t = s.push('.');
    let u = t.push('0');
    assert(t.drop_last() =~= s);
    assert(u.drop_last() =~= t);
    let pieces = split_dots(s);
    assert(split_dots(t) == pieces.push(Seq::<char>::empty()));
    assert(split_dots(u) =~= pieces.push(seq!['0']));
    lemma_zero_piece();
}

/// The piece `0` stands for the number zero.
proof fn lemma_zero_piece()
    ensures
        piece_number(seq!['0']) == 0,
{
    assert(unsigned_digits(seq!['0']) =~= seq!['0']);
    assert(seq!['0'].drop_last() =~= Seq::<char>::empty());
    assert(('0' as u32) == 48);
    assert(digit_value('0') == 0);
    assert(decimal_value(Seq::<char>::empty()) == 0);
    assert(decimal_value(seq!['0']) == 0);
}

} // verus!
