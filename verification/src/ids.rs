//! Issue ids: `<prefix>-<suffix>`, the suffix a number in base 36 of a width
//! that grows as the ids of a prefix fill up.

use vstd::prelude::*;
use crate::error::BeadsError;
use crate::model::texts;
use crate::graph::contains_text;
use crate::text::{digit_char, digits, format_decimal, format_radix, has_prefix, lowercased, text_eq, to_lowercase, trim, trimmed};

verus! {

/// The widest prefix.
pub const MAX_PREFIX_LEN: usize = 10;

pub open spec fn is_lower(c: char) -> bool {
    'a' <= c && c <= 'z'
}

pub open spec fn is_digit(c: char) -> bool {
    '0' <= c && c <= '9'
}

/// A prefix is one lower-case letter followed by up to nine lower-case
/// letters and digits.
pub open spec fn valid_prefix(prefix: Seq<char>) -> bool {
    &&& 1 <= prefix.len() <= 10
    &&& is_lower(prefix[0])
    &&& forall|i: int| 1 <= i < prefix.len() ==> is_lower(#[trigger] prefix[i]) || is_digit(prefix[i])
}

/// Whether a text can be the prefix of a workspace.
pub fn is_valid_prefix(prefix: &str) -> (r: bool)
    ensures
        r == valid_prefix(prefix@),
{
    let n: usize = prefix.unicode_len();
    if n < 1 || n > MAX_PREFIX_LEN {
        return false;
    }
    let first: char = prefix.get_char(0);
    if !('a' <= first && first <= 'z') {
        return false;
    }
    let mut i: usize = 1;
    while i < n
        invariant
            1 <= i <= n,
            n == prefix@.len(),
            forall|j: int| 1 <= j < i ==> is_lower(#[trigger] prefix@[j]) || is_digit(prefix@[j]),
        decreases n - i,
    {
        let c: char = prefix.get_char(i);
        if !(('a' <= c && c <= 'z') || ('0' <= c && c <= '9')) {
            return false;
        }
        i = i + 1;
    }
    true
}

/// Checks the prefix of a workspace; a text that cannot be one is
/// `InvalidPrefix`.
pub fn validate_prefix(prefix: &str) -> (r: Result<(), BeadsError>)
    ensures
        valid_prefix(prefix@) ==> r is Ok,
        !valid_prefix(prefix@) ==> (r matches Err(BeadsError::InvalidPrefix { prefix: p }) && p@ == prefix@),
{
    if is_valid_prefix(prefix) {
        Ok(())
    } else {
        Err(BeadsError::InvalidPrefix { prefix: prefix.to_owned() })
    }
}

/// 36 to the power of `w`.
pub open spec fn pow36(w: nat) -> nat
    decreases w,
{
    if w == 0 {
        1
    } else {
        36 * pow36((w - 1) as nat)
    }
}

/// Whether suffixes of width `w` are still roomy for a prefix with `count`
/// issues: fewer than 80% of the `36^w` suffixes are taken.
pub open spec fn roomy(count: nat, w: nat) -> bool {
    5 * count < 4 * pow36(w)
}

/// How far `count` issues are from leaving width `w` roomy; 0 where `w` is
/// roomy with some to spare.
pub open spec fn crowding(count: nat, w: nat) -> nat {
    if 5 * count + 4 >= 4 * pow36(w) {
        (5 * count + 4 - 4 * pow36(w)) as nat
    } else {
        0
    }
}

/// The narrowest width from `w` on that is roomy for `count` issues.
pub open spec fn width_from(count: nat, w: nat) -> nat
    decreases crowding(count, w),
    via width_terminates
{
    if roomy(count, w) {
        w
    } else {
        width_from(count, w + 1)
    }
}

#[via_fn]
proof fn width_terminates(count: nat, w: nat) {
    if !roomy(count, w) {
        pow36_grows(w);
    }
}

/// Powers of 36 are positive and grow.
pub proof fn pow36_grows(w: nat)
    ensures
        pow36(w) >= 1,
        pow36(w + 1) > pow36(w),
    decreases w,
{
    reveal_with_fuel(pow36, 2);
    if w > 0 {
        pow36_grows((w - 1) as nat);
    }
}

/// The width of the suffix of the next id of a prefix with `count` issues:
/// three characters, and one more each time 80% of the suffixes of a width are
/// taken.
pub open spec fn width_for(count: nat) -> nat {
    width_from(count, 3)
}

/// A roomy width stays roomy for fewer issues, so the width found for fewer
/// issues is no wider.
pub proof fn width_from_is_monotone(fewer: nat, more: nat, w: nat)
    requires
        fewer <= more,
    ensures
        width_from(fewer, w) <= width_from(more, w),
        width_from(fewer, w) >= w,
    decreases crowding(more, w),
{
    if roomy(more, w) {
        assert(roomy(fewer, w));
    } else {
        pow36_grows(w);
        width_from_is_monotone(fewer, more, w + 1);
        if roomy(fewer, w) {
        } else {
        }
    }
}

/// The width of the suffix never shrinks as the issues of a prefix grow in
/// number, and it is never under three.
pub proof fn width_never_shrinks(fewer: nat, more: nat)
    requires
        fewer <= more,
    ensures
        width_for(fewer) <= width_for(more),
        width_for(fewer) >= 3,
{
    width_from_is_monotone(fewer, more, 3);
}

/// The width of the suffix of the next id of a prefix with `count` issues.
pub fn suffix_width(count: u64) -> (w: usize)
    ensures
        w == width_for(count as nat),
        3 <= w <= 13,
{
    let mut w: usize = 3;
    let mut capacity: u128 = 46656;
    proof {
        reveal_with_fuel(pow36, 4);
        assert(pow36(3) == 46656);
    }
    while 5 * (count as u128) >= 4 * capacity
        invariant
            3 <= w <= 13,
            capacity == pow36(w as nat),
            width_from(count as nat, w as nat) == width_for(count as nat),
            w == 13 ==> roomy(count as nat, 13),
            capacity <= 170581728179578208256,
        decreases 13 - w,
    {
        proof {
            pow36_grows(w as nat);
            reveal_with_fuel(pow36, 2);
            assert(pow36((w + 1) as nat) == 36 * pow36(w as nat));
            // 36^12 is the last power that 80% of which a 64-bit count can reach.
            assert(capacity <= 5 * 18446744073709551615 / 4);
            assert(w < 13);
            if w == 12 {
                assert(36 * capacity >= 36 * pow36(12)) by (nonlinear_arith)
                    requires
                        capacity == pow36(12),
                ;
                pow36_12();
            }
            if w < 12 {
                pow36_bound(w as nat);
            }
        }
        capacity = capacity * 36;
        w = w + 1;
    }
    w
}

proof fn pow36_12()
    ensures
        pow36(12) == 4738381338321616896,
        pow36(13) == 170581728179578208256,
{
    reveal_with_fuel(pow36, 14);
}

proof fn pow36_bound(w: nat)
    requires
        w <= 12,
    ensures
        pow36(w) <= 4738381338321616896,
    decreases 12 - w,
{
    if w == 12 {
        pow36_12();
    } else {
        pow36_bound(w + 1);
        pow36_grows(w);
    }
}

/// The value of a digit of base 36; 0 for any other character.
pub open spec fn digit_value(c: char) -> nat {
    if is_digit(c) {
        (c as nat - '0' as nat) as nat
    } else if is_lower(c) {
        (c as nat - 'a' as nat + 10) as nat
    } else {
        0
    }
}

/// The number that a text of digits of base 36 writes.
pub open spec fn value36(text: Seq<char>) -> nat
    decreases text.len(),
{
    if text.len() == 0 {
        0
    } else {
        36 * value36(text.drop_last()) + digit_value(text.last())
    }
}

/// `n` zeros.
pub open spec fn zeros(n: nat) -> Seq<char> {
    Seq::new(n, |i: int| '0')
}

/// `n` in base 36, with zeros before it up to the width `w`.
pub open spec fn padded(n: nat, w: nat) -> Seq<char> {
    let written = digits(n, 36);
    if written.len() >= w {
        written
    } else {
        zeros((w - written.len()) as nat) + written
    }
}

/// The id with the given prefix and the counter `n` as its suffix.
pub open spec fn candidate(prefix: Seq<char>, n: nat, w: nat) -> Seq<char> {
    prefix + seq!['-'] + padded(n, w)
}

proof fn digit_value_of_digit_char(d: int)
    requires
        0 <= d < 36,
    ensures
        digit_value(digit_char(d)) == d,
{
}

proof fn value_of_digits(n: nat)
    ensures
        value36(digits(n, 36)) == n,
    decreases n,
{
    if n < 36 {
        digit_value_of_digit_char(n as int);
        assert(digits(n, 36) =~= seq![digit_char(n as int)]);
        assert(seq![digit_char(n as int)].drop_last() =~= Seq::<char>::empty());
        reveal_with_fuel(value36, 2);
    } else {
        value_of_digits(n / 36);
        digit_value_of_digit_char((n % 36) as int);
        let head = digits(n / 36, 36);
        let last = digit_char((n % 36) as int);
        assert(digits(n, 36) == head.push(last));
        assert(head.push(last).drop_last() =~= head);
    }
}

proof fn value_ignores_zeros(k: nat, text: Seq<char>)
    ensures
        value36(zeros(k) + text) == value36(text),
    decreases text.len(), k,
{
    if text.len() == 0 {
        assert(zeros(k) + text =~= zeros(k));
        if k > 0 {
            assert(zeros(k).drop_last() =~= zeros((k - 1) as nat) + Seq::<char>::empty());
            value_ignores_zeros((k - 1) as nat, Seq::empty());
        }
    } else {
        assert((zeros(k) + text).drop_last() =~= zeros(k) + text.drop_last());
        value_ignores_zeros(k, text.drop_last());
    }
}

/// The suffix of a counter writes that counter, so two counters with the
/// same suffix are one.
pub proof fn suffix_names_its_counter(n: nat, w: nat)
    ensures
        value36(padded(n, w)) == n,
{
    value_of_digits(n);
    let written = digits(n, 36);
    if written.len() < w {
        value_ignores_zeros((w - written.len()) as nat, written);
    }
}

/// Different counters give different ids.
pub proof fn candidates_differ(prefix: Seq<char>, n: nat, m: nat, w: nat)
    requires
        n != m,
    ensures
        candidate(prefix, n, w) != candidate(prefix, m, w),
{
    suffix_names_its_counter(n, w);
    suffix_names_its_counter(m, w);
    let a = candidate(prefix, n, w);
    let b = candidate(prefix, m, w);
    if a == b {
        assert(a.skip(prefix.len() as int + 1) =~= padded(n, w));
        assert(b.skip(prefix.len() as int + 1) =~= padded(m, w));
    }
}

/// Writes a counter as a suffix of the given width.
pub fn format_suffix(n: u64, width: usize) -> (r: String)
    ensures
        r@ == padded(n as nat, width as nat),
{
    let written: String = format_radix(n, 36);
    let len: usize = written.as_str().unicode_len();
    if len >= width {
        written
    } else {
        let mut r: String = String::new();
        let mut k: usize = 0;
        while k < width - len
            invariant
                len < width,
                k <= width - len,
                r@ == zeros(k as nat),
            decreases width - len - k,
        {
            r.append("0");
            proof {
                reveal_strlit("0");
                assert(r@ =~= zeros((k + 1) as nat));
            }
            k = k + 1;
        }
        r.append(written.as_str());
        r
    }
}

/// Builds the id with the given prefix and counter.
pub fn candidate_id(prefix: &str, n: u64, width: usize) -> (r: String)
    ensures
        r@ == candidate(prefix@, n as nat, width as nat),
{
    let mut r: String = prefix.to_owned();
    r.append("-");
    let suffix: String = format_suffix(n, width);
    r.append(suffix.as_str());
    proof {
        reveal_strlit("-");
        assert("-"@ =~= seq!['-']);
        assert(r@ =~= candidate(prefix@, n as nat, width as nat));
    }
    r
}

/// Entry `i` of `existing` is listed in `indices`.
pub open spec fn still_listed(indices: Seq<usize>, i: int) -> bool {
    exists|j: int| 0 <= j < indices.len() && #[trigger] indices[j] as int == i
}

/// The id of counter `m` is taken, for some counter from `from` up to but not
/// including `to`.
pub open spec fn taken_by_earlier(existing: Seq<Seq<char>>, prefix: Seq<char>, w: nat, from: nat, to: nat, i: int) -> bool {
    exists|m: nat| from <= m < to && existing[i] == #[trigger] candidate(prefix, m, w)
}

/// Generates the next id of a prefix: the id of the first counter from
/// `next` on that no existing id has.  `count` is the number of issues that
/// the prefix has; it decides the width of the suffix.
///
/// Fails only where the prefix is not valid, with `InvalidPrefix`, and where
/// the counters run out, with `Internal`.
pub fn generate_id(prefix: &str, existing: &Vec<String>, next: u64, count: u64) -> (r: Result<String, BeadsError>)
    ensures
        !valid_prefix(prefix@) ==> r matches Err(BeadsError::InvalidPrefix { .. }),
        valid_prefix(prefix@) && next + existing@.len() < u64::MAX ==> r is Ok,
        r matches Ok(id) ==> {
            &&& !texts(existing@).contains(id@)
            &&& exists|m: nat| next <= m <= next + existing@.len() && id@ == #[trigger] candidate(prefix@, m, width_for(count as nat))
                && forall|earlier: nat| next <= earlier < m ==> texts(existing@).contains(#[trigger] candidate(prefix@, earlier, width_for(count as nat)))
        },
        r matches Err(e) ==> (e is InvalidPrefix && !valid_prefix(prefix@)) || e is Internal,
{
    if !is_valid_prefix(prefix) {
        return Err(BeadsError::InvalidPrefix { prefix: prefix.to_owned() });
    }
    let width: usize = suffix_width(count);
    let ghost w = width as nat;
    let ghost ids = texts(existing@);
    // The existing ids that no counter so far has run into.
    let mut remaining: Vec<usize> = Vec::new();
    let mut k: usize = 0;
    while k < existing.len()
        invariant
            k <= existing.len(),
            remaining@.len() == k,
            forall|j: int| 0 <= j < k ==> remaining@[j] == j,
        decreases existing.len() - k,
    {
        remaining.push(k);
        k = k + 1;
    }
    let mut n: u64 = next;
    proof {
        assert forall|i: int| 0 <= i < ids.len() implies still_listed(remaining@, i) || taken_by_earlier(ids, prefix@, w, next as nat, n as nat, i) by {
            assert(remaining@[i] as int == i);
        }
    }
    loop
        invariant
            valid_prefix(prefix@),
            ids == texts(existing@),
            w == width_for(count as nat),
            w == width as nat,
            next <= n,
            n - next + remaining@.len() == existing@.len(),
            forall|j: int| 0 <= j < remaining@.len() ==> (#[trigger] remaining@[j]) < existing@.len(),
            forall|i: int| 0 <= i < ids.len() ==> still_listed(remaining@, i) || #[trigger] taken_by_earlier(ids, prefix@, w, next as nat, n as nat, i),
            forall|earlier: nat| next <= earlier < n ==> ids.contains(#[trigger] candidate(prefix@, earlier, w)),
        decreases remaining@.len(),
    {
        let id: String = candidate_id(prefix, n, width);
        let mut hit: Option<usize> = None;
        let mut j: usize = 0;
        while j < remaining.len() && hit.is_none()
            invariant
                j <= remaining@.len(),
                ids == texts(existing@),
                forall|i: int| 0 <= i < remaining@.len() ==> (#[trigger] remaining@[i]) < existing@.len(),
                hit is None ==> forall|i: int| 0 <= i < j ==> ids[(#[trigger] remaining@[i]) as int] != id@,
                hit matches Some(at) ==> at < remaining@.len() && ids[remaining@[at as int] as int] == id@,
            decreases remaining@.len() - j + (if hit is None { 1int } else { 0int }),
        {
            if text_eq(existing[remaining[j]].as_str(), id.as_str()) {
                hit = Some(j);
            } else {
                j = j + 1;
            }
        }
        match hit {
            None => {
                proof {
                    assert forall|i: int| 0 <= i < ids.len() implies ids[i] != id@ by {
                        if still_listed(remaining@, i) {
                            let at = choose|at: int| 0 <= at < remaining@.len() && #[trigger] remaining@[at] as int == i;
                            assert(ids[remaining@[at] as int] != id@);
                        } else {
                            assert(taken_by_earlier(ids, prefix@, w, next as nat, n as nat, i));
                            let m = choose|m: nat| next <= m < n && ids[i] == #[trigger] candidate(prefix@, m, w);
                            candidates_differ(prefix@, m, n as nat, w);
                        }
                    }
                    assert(id@ == candidate(prefix@, n as nat, w));
                }
                return Ok(id);
            },
            Some(at) => {
                if n == u64::MAX {
                    return Err(BeadsError::Internal { message: "the counters of the prefix have run out".to_owned() });
                }
                let ghost before = remaining@;
                let ghost gone = remaining@[at as int] as int;
                let ghost hit_counter = n as nat;
                let _ = remaining.swap_remove(at);
                n = n + 1;
                proof {
                    assert(ids[gone] == candidate(prefix@, hit_counter, w));
                    assert forall|earlier: nat| next <= earlier < n implies ids.contains(#[trigger] candidate(prefix@, earlier, w)) by {
                        if earlier == hit_counter {
                            assert(ids[gone] == candidate(prefix@, earlier, w));
                        }
                    }
                    assert forall|i: int| 0 <= i < ids.len() implies still_listed(remaining@, i) || #[trigger] taken_by_earlier(ids, prefix@, w, next as nat, n as nat, i) by {
                        if i == gone {
                            assert(next <= hit_counter < n && ids[i] == candidate(prefix@, hit_counter, w));
                        } else if still_listed(before, i) {
                            let old_at = choose|old_at: int| 0 <= old_at < before.len() && #[trigger] before[old_at] as int == i;
                            if old_at == before.len() - 1 {
                                assert(remaining@[at as int] as int == i);
                            } else {
                                assert(remaining@[old_at] as int == i);
                            }
                        } else {
                            assert(taken_by_earlier(ids, prefix@, w, next as nat, hit_counter, i));
                            let m = choose|m: nat| next <= m < hit_counter && ids[i] == #[trigger] candidate(prefix@, m, w);
                            assert(next <= m < n && ids[i] == candidate(prefix@, m, w));
                        }
                    }
                }
            },
        }
    }
}

/// A digit of base 36.
pub open spec fn is_base36(c: char) -> bool {
    is_digit(c) || is_lower(c)
}

/// The position of the first hyphen; the length of the text where it has
/// none.
pub open spec fn first_hyphen(text: Seq<char>) -> nat
    decreases text.len(),
{
    if text.len() == 0 || text[0] == '-' {
        0
    } else {
        1 + first_hyphen(text.drop_first())
    }
}

/// The id of an issue that is no child: a valid prefix, a hyphen, and one or
/// more digits of base 36.
pub open spec fn valid_root_id(id: Seq<char>) -> bool {
    let d = first_hyphen(id) as int;
    &&& d < id.len()
    &&& valid_prefix(id.take(d))
    &&& id.len() > d + 1
    &&& forall|i: int| d < i < id.len() ==> is_base36(#[trigger] id[i])
}

proof fn first_hyphen_found(text: Seq<char>, i: int)
    requires
        0 <= i <= text.len(),
        forall|j: int| 0 <= j < i ==> text[j] != '-',
        i == text.len() || text[i] == '-',
    ensures
        first_hyphen(text) == i,
    decreases text.len(),
{
    if i > 0 {
        let rest = text.drop_first();
        assert forall|j: int| 0 <= j < i - 1 implies rest[j] != '-' by {
            assert(rest[j] == text[j + 1]);
        }
        first_hyphen_found(rest, i - 1);
    }
}

/// Whether a text has the form of the id of an issue that is no child.
pub fn is_valid_id_format(id: &str) -> (r: bool)
    ensures
        r == valid_root_id(id@),
{
    let n: usize = id.unicode_len();
    let mut d: usize = 0;
    while d < n && id.get_char(d) != '-'
        invariant
            d <= n,
            n == id@.len(),
            forall|j: int| 0 <= j < d ==> id@[j] != '-',
        decreases n - d,
    {
        d = d + 1;
    }
    proof {
        first_hyphen_found(id@, d as int);
    }
    if d >= n || n - d < 2 {
        return false;
    }
    let prefix: &str = id.substring_char(0, d);
    assert(prefix@ =~= id@.take(d as int));
    if !is_valid_prefix(prefix) {
        return false;
    }
    let mut i: usize = d + 1;
    while i < n
        invariant
            d < i <= n,
            n == id@.len(),
            first_hyphen(id@) == d,
            valid_prefix(id@.take(d as int)),
            forall|j: int| d < j < i ==> is_base36(#[trigger] id@[j]),
        decreases n - i,
    {
        let c: char = id.get_char(i);
        if !(('0' <= c && c <= '9') || ('a' <= c && c <= 'z')) {
            assert(!is_base36(id@[i as int]));
            return false;
        }
        i = i + 1;
    }
    true
}

/// The id of child `k` of `parent`: the id of the parent, a dot, and `k` in
/// decimal.
pub open spec fn child_of(parent: Seq<char>, k: nat) -> Seq<char> {
    parent + seq!['.'] + digits(k, 10)
}

/// The number of dots in a text.
pub open spec fn dots(text: Seq<char>) -> nat
    decreases text.len(),
{
    if text.len() == 0 {
        0
    } else {
        dots(text.drop_last()) + if text.last() == '.' { 1nat } else { 0nat }
    }
}

/// Builds the id of child `k` of `parent`.
pub fn child_id(parent: &str, k: u64) -> (r: String)
    ensures
        r@ == child_of(parent@, k as nat),
{
    let mut r: String = parent.to_owned();
    r.append(".");
    let number: String = format_decimal(k);
    r.append(number.as_str());
    proof {
        reveal_strlit(".");
        assert("."@ =~= seq!['.']);
        assert(r@ =~= child_of(parent@, k as nat));
    }
    r
}

/// The depth of an id: 0 for an issue that is no child, and one more for
/// each generation.
pub fn id_depth(id: &str) -> (r: usize)
    ensures
        r == dots(id@),
{
    let n: usize = id.unicode_len();
    let mut depth: usize = 0;
    let mut i: usize = 0;
    while i < n
        invariant
            i <= n,
            n == id@.len(),
            depth == dots(id@.take(i as int)),
            depth <= i,
        decreases n - i,
    {
        proof {
            assert(id@.take(i + 1).drop_last() =~= id@.take(i as int));
            assert(id@.take(i + 1).last() == id@[i as int]);
        }
        if id.get_char(i) == '.' {
            depth = depth + 1;
        }
        i = i + 1;
    }
    assert(id@.take(i as int) =~= id@);
    depth
}

/// Whether the id is that of a child.
pub fn is_child_id(id: &str) -> (r: bool)
    ensures
        r == (dots(id@) > 0),
{
    id_depth(id) > 0
}

proof fn dots_add(a: Seq<char>, b: Seq<char>)
    ensures
        dots(a + b) == dots(a) + dots(b),
    decreases b.len(),
{
    if b.len() == 0 {
        assert(a + b =~= a);
    } else {
        assert((a + b).drop_last() =~= a + b.drop_last());
        dots_add(a, b.drop_last());
    }
}

proof fn digits_have_no_dots(n: nat)
    ensures
        dots(digits(n, 10)) == 0,
    decreases n,
{
    reveal_with_fuel(dots, 2);
    if n < 10 {
        assert(digits(n, 10) =~= seq![digit_char(n as int)]);
        assert(seq![digit_char(n as int)].drop_last() =~= Seq::<char>::empty());
    } else {
        digits_have_no_dots(n / 10);
        let head = digits(n / 10, 10);
        let last = digit_char((n % 10) as int);
        assert(digits(n, 10) == head.push(last));
        assert(head.push(last).drop_last() =~= head);
    }
}

/// A child is one generation deeper than its parent.
pub proof fn child_is_one_deeper(parent: Seq<char>, k: nat)
    ensures
        dots(child_of(parent, k)) == dots(parent) + 1,
{
    digits_have_no_dots(k);
    dots_add(parent + seq!['.'], digits(k, 10));
    dots_add(parent, seq!['.']);
    reveal_with_fuel(dots, 2);
    assert(seq!['.'].drop_last() =~= Seq::<char>::empty());
}

/// An id as it is looked up: trimmed and in lower case.
pub open spec fn normalized(input: Seq<char>) -> Seq<char> {
    lowercased(trimmed(input))
}

/// Trims an id and puts it in lower case.
pub fn normalize_id(input: &str) -> (r: String)
    ensures
        r@ == normalized(input@),
{
    to_lowercase(trim(input))
}

/// The ids that start with `pattern`, in the order of `ids`.
pub open spec fn matching(ids: Seq<Seq<char>>, pattern: Seq<char>) -> Seq<Seq<char>> {
    ids.filter(|id: Seq<char>| pattern.is_prefix_of(id))
}

/// Finds the ids that start with `pattern`.
pub fn find_matching_ids(ids: &Vec<String>, pattern: &str) -> (r: Vec<String>)
    ensures
        texts(r@) == matching(texts(ids@), pattern@),
{
    let ghost all = texts(ids@);
    let ghost fits = |id: Seq<char>| pattern@.is_prefix_of(id);
    let mut out: Vec<String> = Vec::new();
    let mut i: usize = 0;
    proof {
        reveal(Seq::filter);
        assert(all.take(0).filter(fits) =~= Seq::empty());
        assert(texts(out@) =~= all.take(0).filter(fits));
    }
    while i < ids.len()
        invariant
            i <= ids.len(),
            all == texts(ids@),
            fits == (|id: Seq<char>| pattern@.is_prefix_of(id)),
            texts(out@) == all.take(i as int).filter(fits),
        decreases ids.len() - i,
    {
        let ghost before = texts(out@);
        let ghost prefix = all.take(i as int);
        proof {
            assert(all.take(i + 1) =~= prefix.push(all[i as int]));
            prefix.lemma_filter_push(all[i as int], fits);
        }
        if has_prefix(ids[i].as_str(), pattern) {
            out.push(ids[i].clone());
            proof {
                assert(fits(all[i as int]));
                assert(texts(out@) =~= before.push(all[i as int]));
            }
        } else {
            proof {
                assert(!fits(all[i as int]));
            }
        }
        i = i + 1;
    }
    proof {
        assert(all.take(i as int) =~= all);
    }
    out
}

/// How an input was matched to an id.
#[derive(Clone, Copy, Debug, PartialEq, Eq, Structural)]
pub enum MatchType {
    /// The input is an id, with or without the prefix of the workspace.
    Exact,
    /// The input starts exactly one id.
    UniquePrefix,
    /// The input starts more than one id.
    Ambiguous,
    /// The input starts no id.
    NotFound,
}

/// The outcome of a lookup: how the input was matched, and the ids that it
/// was matched to: one for an exact match and for a unique prefix, two or
/// more for an ambiguous input, none where nothing was found.
#[derive(Debug, Clone)]
pub struct ResolvedId {
    pub match_type: MatchType,
    pub ids: Vec<String>,
}

/// `key` with the prefix of the workspace and a hyphen before it.
pub open spec fn with_prefix(prefix: Seq<char>, key: Seq<char>) -> Seq<char> {
    prefix + seq!['-'] + key
}

/// The ids that `key` starts, as it is or once the prefix of the workspace is
/// put before it, in the order of `ids`.
pub open spec fn candidates(ids: Seq<Seq<char>>, prefix: Seq<char>, key: Seq<char>) -> Seq<Seq<char>> {
    ids.filter(|id: Seq<char>| key.is_prefix_of(id) || with_prefix(prefix, key).is_prefix_of(id))
}

/// The rule of the lookup.  An id that is the key wins over everything; next
/// comes the id that is the key with the prefix of the workspace; then the
/// ids that the key, with or without the prefix, starts.
pub open spec fn resolution(ids: Seq<Seq<char>>, prefix: Seq<char>, key: Seq<char>) -> (MatchType, Seq<Seq<char>>) {
    if ids.contains(key) {
        (MatchType::Exact, seq![key])
    } else if ids.contains(with_prefix(prefix, key)) {
        (MatchType::Exact, seq![with_prefix(prefix, key)])
    } else {
        let found = candidates(ids, prefix, key);
        if found.len() == 0 {
            (MatchType::NotFound, found)
        } else if found.len() == 1 {
            (MatchType::UniquePrefix, found)
        } else {
            (MatchType::Ambiguous, found)
        }
    }
}

/// Looks an input up among the ids of a workspace.  The input may be a full
/// id, a suffix without the prefix of the workspace, or the start of either;
/// it is trimmed and put in lower case first.
pub fn resolve_id(input: &str, ids: &Vec<String>, prefix: &str) -> (r: ResolvedId)
    ensures
        (r.match_type, texts(r.ids@)) == resolution(texts(ids@), prefix@, normalized(input@)),
{
    let key: String = normalize_id(input);
    let mut full: String = prefix.to_owned();
    full.append("-");
    full.append(key.as_str());
    proof {
        reveal_strlit("-");
        assert("-"@ =~= seq!['-']);
        assert(full@ =~= with_prefix(prefix@, key@));
    }
    if contains_text(ids, key.as_str()) {
        let mut found: Vec<String> = Vec::new();
        found.push(key);
        assert(texts(found@) =~= seq![normalized(input@)]);
        return ResolvedId { match_type: MatchType::Exact, ids: found };
    }
    if contains_text(ids, full.as_str()) {
        let mut found: Vec<String> = Vec::new();
        found.push(full);
        assert(texts(found@) =~= seq![with_prefix(prefix@, normalized(input@))]);
        return ResolvedId { match_type: MatchType::Exact, ids: found };
    }
    let ghost all = texts(ids@);
    let ghost fits = |id: Seq<char>| key@.is_prefix_of(id) || with_prefix(prefix@, key@).is_prefix_of(id);
    let mut out: Vec<String> = Vec::new();
    let mut i: usize = 0;
    proof {
        reveal(Seq::filter);
        assert(all.take(0).filter(fits) =~= Seq::empty());
        assert(texts(out@) =~= all.take(0).filter(fits));
    }
    while i < ids.len()
        invariant
            i <= ids.len(),
            all == texts(ids@),
            full@ == with_prefix(prefix@, key@),
            fits == (|id: Seq<char>| key@.is_prefix_of(id) || with_prefix(prefix@, key@).is_prefix_of(id)),
            texts(out@) == all.take(i as int).filter(fits),
        decreases ids.len() - i,
    {
        let ghost before = texts(out@);
        let ghost head = all.take(i as int);
        proof {
            assert(all.take(i + 1) =~= head.push(all[i as int]));
            head.lemma_filter_push(all[i as int], fits);
        }
        if has_prefix(ids[i].as_str(), key.as_str()) || has_prefix(ids[i].as_str(), full.as_str()) {
            out.push(ids[i].clone());
            proof {
                assert(fits(all[i as int]));
                assert(texts(out@) =~= before.push(all[i as int]));
            }
        } else {
            proof {
                assert(!fits(all[i as int]));
            }
        }
        i = i + 1;
    }
    proof {
        assert(all.take(i as int) =~= all);
    }
    let match_type: MatchType = if out.len() == 0 {
        MatchType::NotFound
    } else if out.len() == 1 {
        MatchType::UniquePrefix
    } else {
        MatchType::Ambiguous
    };
    ResolvedId { match_type, ids: out }
}

/// The one id that an input stands for.  An input that starts no id is
/// `IssueNotFound`; one that starts several is `InvalidId`.  Both name the
/// input as it was given.
pub fn resolve_one(input: &str, ids: &Vec<String>, prefix: &str) -> (r: Result<String, BeadsError>)
    ensures
        match resolution(texts(ids@), prefix@, normalized(input@)).0 {
            MatchType::Exact => r matches Ok(id) && id@ == resolution(texts(ids@), prefix@, normalized(input@)).1[0],
            MatchType::UniquePrefix => r matches Ok(id) && id@ == resolution(texts(ids@), prefix@, normalized(input@)).1[0],
            MatchType::Ambiguous => r matches Err(BeadsError::InvalidId { id }) && id@ == input@,
            MatchType::NotFound => r matches Err(BeadsError::IssueNotFound { id }) && id@ == input@,
        },
{
    let mut resolved: ResolvedId = resolve_id(input, ids, prefix);
    match resolved.match_type {
        MatchType::Exact | MatchType::UniquePrefix => {
            assert(texts(resolved.ids@).len() == 1);
            assert(texts(resolved.ids@)[0] == resolved.ids@[0]@);
            Ok(resolved.ids.swap_remove(0))
        },
        MatchType::Ambiguous => Err(BeadsError::InvalidId { id: input.to_owned() }),
        MatchType::NotFound => Err(BeadsError::IssueNotFound { id: input.to_owned() }),
    }
}

} // verus!
