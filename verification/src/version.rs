//! Dotted version strings: parsing into numeric components, the
//! three-component ordering, and the rule that decides which updates need
//! the user's consent.

use crate::text::{
    chars_of, is_whitespace, lemma_find, lemma_split_joined, lemma_trim_is_idempotent,
    lemma_trim_start_shortens, split, split_on, trim, trim_end, trim_start, trimmed,
};
use std::cmp::Ordering;
use vstd::prelude::*;

verus! {

/// The major, minor and patch components of a version.
#[derive(Clone, Copy, Debug, PartialEq, Eq, Structural)]
pub struct SemverTriple {
    pub major: u32,
    pub minor: u32,
    pub patch: u32,
}

/// Whether `c` is one of `0` to `9`.
pub open spec fn is_digit(c: char) -> bool {
    0x30 <= c as u32 <= 0x39
}

/// The number a decimal digit stands for; zero for any other character.
pub open spec fn digit_value(c: char) -> nat {
    if is_digit(c) {
        (c as u32 - 0x30) as nat
    } else {
        0
    }
}

/// Whether `s` consists of decimal digits only.
pub open spec fn all_digits(s: Seq<char>) -> bool {
    forall|i: int| 0 <= i < s.len() ==> is_digit(#[trigger] s[i])
}

/// The number that the digit string `s` denotes in base ten.
pub open spec fn decimal_value(s: Seq<char>) -> nat
    decreases s.len(),
{
    if s.len() == 0 {
        0
    } else {
        decimal_value(s.drop_last()) * 10 + digit_value(s.last())
    }
}

/// `s` without one leading plus sign.
pub open spec fn without_sign(s: Seq<char>) -> Seq<char> {
    if s.len() > 0 && s.first() == '+' {
        s.drop_first()
    } else {
        s
    }
}

/// The value of one version component: an optional `+` followed by one or
/// more decimal digits that denote a number within `u32`. Everything else,
/// the empty component included, counts as zero.
pub open spec fn component_value(s: Seq<char>) -> u32 {
    let digits = without_sign(s);
    if digits.len() > 0 && all_digits(digits) && decimal_value(digits) <= u32::MAX {
        decimal_value(digits) as u32
    } else {
        0
    }
}

/// The values of the dot-separated pieces of a version string: the string
/// is trimmed, cut at every dot, and each piece is read with
/// `component_value`.
pub open spec fn piece_values(s: Seq<char>) -> Seq<u32> {
    split(trim(s), '.').map_values(|piece: Seq<char>| component_value(piece))
}

/// Entry `i` of `parts`, or zero when the list has no such entry.
pub open spec fn part_or_zero(parts: Seq<u32>, i: int) -> u32 {
    if 0 <= i < parts.len() {
        parts[i]
    } else {
        0
    }
}

/// The triple that a version string denotes: its first three pieces, with
/// zero for a piece that the string lacks. Pieces beyond the third are not
/// part of it.
pub open spec fn semver_triple(s: Seq<char>) -> SemverTriple {
    let values = piece_values(s);
    SemverTriple {
        major: part_or_zero(values, 0),
        minor: part_or_zero(values, 1),
        patch: part_or_zero(values, 2),
    }
}

/// The components of a triple as a list: major, minor, patch.
pub open spec fn triple_parts(triple: SemverTriple) -> Seq<u32> {
    seq![triple.major, triple.minor, triple.patch]
}

/// The components of a version string: always three, in the order major,
/// minor, patch, with zero for a component that the string lacks.
pub open spec fn version_parts(s: Seq<char>) -> Seq<u32> {
    triple_parts(semver_triple(s))
}

/// How two numbers compare.
pub open spec fn number_order(a: u32, b: u32) -> Ordering {
    if a < b {
        Ordering::Less
    } else if a == b {
        Ordering::Equal
    } else {
        Ordering::Greater
    }
}

/// How two triples compare: by major, then minor, then patch.
pub open spec fn triple_order(a: SemverTriple, b: SemverTriple) -> Ordering {
    if a.major != b.major {
        number_order(a.major, b.major)
    } else if a.minor != b.minor {
        number_order(a.minor, b.minor)
    } else {
        number_order(a.patch, b.patch)
    }
}

/// How two lists of components compare: by the first entry in which they
/// differ, a list that ends first being the lesser one.
pub open spec fn parts_order(a: Seq<u32>, b: Seq<u32>) -> Ordering
    decreases a.len(),
{
    if a.len() == 0 {
        if b.len() == 0 {
            Ordering::Equal
        } else {
            Ordering::Less
        }
    } else if b.len() == 0 {
        Ordering::Greater
    } else if a.first() != b.first() {
        number_order(a.first(), b.first())
    } else {
        parts_order(a.drop_first(), b.drop_first())
    }
}

/// Whether going from `current` to `target` crosses the compatibility
/// boundary, which is the minor component.
pub open spec fn major_change(current: SemverTriple, target: SemverTriple) -> bool {
    current.minor != target.minor
}

/// A longer digit string denotes at least what its prefix denotes.
proof fn lemma_decimal_value_grows(s: Seq<char>, k: int)
    requires
        0 <= k <= s.len(),
    ensures
        decimal_value(s.take(k)) <= decimal_value(s),
    decreases s.len() - k,
{
    if k < s.len() {
        assert(s.take(k + 1).drop_last() == s.take(k));
        lemma_decimal_value_grows(s, k + 1);
    } else {
        assert(s.take(k) == s);
    }
}

/// Reads one version component.
pub fn parse_component(piece: &Vec<char>) -> (value: u32)
    ensures
        value == component_value(piece@),
{
    let start: usize = if piece.len() > 0 && piece[0] == '+' {
        1
    } else {
        0
    };
    let ghost digits = without_sign(piece@);
    assert(digits == piece@.skip(start as int));
    if start == piece.len() {
        return 0;
    }
    let mut acc: u64 = 0;
    let mut i: usize = start;
    assert(digits.take(0) == Seq::<char>::empty());
    while i < piece.len()
        invariant
            start <= i <= piece.len(),
            start < piece.len(),
            digits == without_sign(piece@),
            digits == piece@.skip(start as int),
            all_digits(digits.take(i - start)),
            acc == decimal_value(digits.take(i - start)),
            acc <= u32::MAX,
        decreases piece.len() - i,
    {
        let code: u32 = piece[i] as u32;
        if code < 0x30 || code > 0x39 {
            assert(!is_digit(digits[i - start]));
            return 0;
        }
        assert(digits.take(i - start + 1).drop_last() == digits.take(i - start));
        acc = acc * 10 + (code - 0x30) as u64;
        if acc > u32::MAX as u64 {
            proof {
                lemma_decimal_value_grows(digits, i - start + 1);
            }
            return 0;
        }
        i += 1;
    }
    assert(digits.take(digits.len() as int) == digits);
    acc as u32
}

/// The value of every dot-separated piece of the trimmed `version`.
fn read_pieces(version: &str) -> (values: Vec<u32>)
    ensures
        values@ == piece_values(version@),
{
    let chars = chars_of(version);
    let body = trimmed(&chars);
    let pieces = split_on(&body, '.');
    let ghost expected = split(trim(version@), '.');
    let mut values: Vec<u32> = Vec::new();
    let mut i: usize = 0;
    while i < pieces.len()
        invariant
            i <= pieces.len(),
            pieces@.len() == expected.len(),
            forall|k: int| 0 <= k < pieces@.len() ==> (#[trigger] pieces@[k])@ == expected[k],
            values@.len() == i,
            forall|k: int| 0 <= k < i ==> values@[k] == component_value(#[trigger] expected[k]),
        decreases pieces.len() - i,
    {
        values.push(parse_component(&pieces[i]));
        i += 1;
    }
    assert(values@ =~= piece_values(version@));
    values
}

/// The major, minor and patch components of `version`, in this order. The
/// result always has three entries: a component that the version lacks, or
/// that is no number, is zero, and what follows the third is left out.
pub fn get_version_parts(version: &str) -> (parts: Vec<u32>)
    ensures
        parts@ == version_parts(version@),
        parts@ == seq![
            semver_triple(version@).major,
            semver_triple(version@).minor,
            semver_triple(version@).patch,
        ],
{
    let triple = SemverTriple::parse(version);
    let mut parts: Vec<u32> = Vec::new();
    parts.push(triple.major);
    parts.push(triple.minor);
    parts.push(triple.patch);
    assert(parts@ =~= triple_parts(triple));
    parts
}

impl SemverTriple {
    /// The triple that `version` denotes; components it lacks are zero.
    pub fn parse(version: &str) -> (triple: SemverTriple)
        ensures
            triple == semver_triple(version@),
    {
        let values = read_pieces(version);
        SemverTriple {
            major: if values.len() > 0 {
                values[0]
            } else {
                0
            },
            minor: if values.len() > 1 {
                values[1]
            } else {
                0
            },
            patch: if values.len() > 2 {
                values[2]
            } else {
                0
            },
        }
    }

    /// Compares by major, then minor, then patch.
    pub fn compare(&self, other: &SemverTriple) -> (order: Ordering)
        ensures
            order == triple_order(*self, *other),
    {
        if self.major != other.major {
            compare_numbers(self.major, other.major)
        } else if self.minor != other.minor {
            compare_numbers(self.minor, other.minor)
        } else {
            compare_numbers(self.patch, other.patch)
        }
    }
}

/// Compares two numbers.
fn compare_numbers(a: u32, b: u32) -> (order: Ordering)
    ensures
        order == number_order(a, b),
{
    if a < b {
        Ordering::Less
    } else if a == b {
        Ordering::Equal
    } else {
        Ordering::Greater
    }
}

/// Compares two version strings by the triples they denote: by major,
/// then minor, then patch. This is the order of their component lists as
/// `get_version_parts` gives them.
pub fn compare_versions(v1: &str, v2: &str) -> (order: Ordering)
    ensures
        order == triple_order(semver_triple(v1@), semver_triple(v2@)),
        order == parts_order(version_parts(v1@), version_parts(v2@)),
{
    let a = SemverTriple::parse(v1);
    let b = SemverTriple::parse(v2);
    proof {
        lemma_order_follows_parts(a, b);
    }
    a.compare(&b)
}

/// Whether updating from `current` to `target` is a major change: their
/// minor components differ.
pub fn is_major_change(current: &str, target: &str) -> (major: bool)
    ensures
        major == major_change(semver_triple(current@), semver_triple(target@)),
{
    let a = SemverTriple::parse(current);
    let b = SemverTriple::parse(target);
    a.minor != b.minor
}

/// Two triples compare equal exactly when they are the same triple.
pub proof fn lemma_equal_means_same(a: SemverTriple, b: SemverTriple)
    ensures
        triple_order(a, b) == Ordering::Equal <==> a == b,
{
}

/// Comparing two versions is comparing their components in order: the
/// order of the triples is the order of their component lists.
pub proof fn lemma_order_follows_parts(a: SemverTriple, b: SemverTriple)
    ensures
        triple_order(a, b) == parts_order(triple_parts(a), triple_parts(b)),
{
    let x = triple_parts(a);
    let y = triple_parts(b);
    assert(x.drop_first() == seq![a.minor, a.patch]);
    assert(y.drop_first() == seq![b.minor, b.patch]);
    assert(x.drop_first().drop_first() == seq![a.patch]);
    assert(y.drop_first().drop_first() == seq![b.patch]);
    assert(x.drop_first().drop_first().drop_first() == Seq::<u32>::empty());
    assert(y.drop_first().drop_first().drop_first() == Seq::<u32>::empty());
    reveal_with_fuel(parts_order, 4);
}

/// Writing out a missing piece as zero changes no component: a list of
/// values and the same list with a zero appended agree at every position.
pub proof fn lemma_trailing_zero_changes_nothing(parts: Seq<u32>, i: int)
    ensures
        part_or_zero(parts.push(0), i) == part_or_zero(parts, i),
{
}

/// A version and the same version with `.0` appended have the same pieces
/// but for the added zero, and so denote the same triple and have the same
/// three components. The version must not begin or end with whitespace,
/// which trimming would take from one of the two and not from the other.
pub proof fn lemma_explicit_zero(version: Seq<char>)
    requires
        trim_start(version) == version,
        trim_end(version) == version,
    ensures
        piece_values(version + seq!['.', '0']) == piece_values(version).push(0),
        semver_triple(version + seq!['.', '0']) == semver_triple(version),
        version_parts(version + seq!['.', '0']) == version_parts(version),
{
    let zero = seq!['0'];
    let longer = version + seq!['.', '0'];
    assert(longer == version + seq!['.'] + zero);

    assert(trim(longer) == longer) by {
        if version.len() > 0 && is_whitespace(version.first()) {
            lemma_trim_start_shortens(version.drop_first());
        }
        assert(longer.first() == if version.len() > 0 {
            version.first()
        } else {
            '.'
        });
        assert(longer.last() == '0');
    }
    assert(trim(version) == version);

    lemma_split_joined(version, zero, '.');
    assert(split(zero, '.') == seq![zero]) by {
        lemma_find(zero, '.', 1);
    }
    assert(component_value(zero) == 0) by {
        assert(without_sign(zero) == zero);
        assert(zero.drop_last() == Seq::<char>::empty());
        reveal_with_fuel(decimal_value, 2);
    }
    let read = |piece: Seq<char>| component_value(piece);
    assert((split(version, '.') + seq![zero]).map_values(read) == split(version, '.').map_values(
        read,
    ).push(0));
    lemma_trailing_zero_changes_nothing(piece_values(version), 0);
    lemma_trailing_zero_changes_nothing(piece_values(version), 1);
    lemma_trailing_zero_changes_nothing(piece_values(version), 2);
}

/// Whitespace around a version changes nothing of what it denotes: a
/// version record that ends in a line break reads as the version without
/// it.
pub proof fn lemma_surrounding_whitespace_is_ignored(version: Seq<char>)
    ensures
        piece_values(trim(version)) == piece_values(version),
        semver_triple(trim(version)) == semver_triple(version),
        version_parts(trim(version)) == version_parts(version),
{
    lemma_trim_is_idempotent(version);
}

/// A change of the patch component alone is no major change, and a change
/// of the minor component always is one.
pub proof fn lemma_minor_is_the_boundary(current: SemverTriple, target: SemverTriple)
    ensures
        major_change(current, target) <==> current.minor != target.minor,
        current.major == target.major && current.minor == target.minor ==> !major_change(
            current,
            target,
        ),
        triple_order(current, target) == Ordering::Equal ==> !major_change(current, target),
{
}

} // verus!
