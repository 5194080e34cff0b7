//! Text helpers shared by the rest of the crate.

use vstd::prelude::*;

verus! {

/// Whether two strings hold the same characters.
pub fn text_eq(a: &str, b: &str) -> (r: bool)
    ensures
        r == (a@ == b@),
{
    let x: String = a.to_owned();
    let y: String = b.to_owned();
    x == y
}

/// The character that writes the digit `d` in bases up to 36.
pub open spec fn digit_char(d: int) -> char {
    if d == 0 { '0' } else if d == 1 { '1' } else if d == 2 { '2' } else if d == 3 { '3' }
    else if d == 4 { '4' } else if d == 5 { '5' } else if d == 6 { '6' } else if d == 7 { '7' }
    else if d == 8 { '8' } else if d == 9 { '9' } else if d == 10 { 'a' } else if d == 11 { 'b' }
    else if d == 12 { 'c' } else if d == 13 { 'd' } else if d == 14 { 'e' } else if d == 15 { 'f' }
    else if d == 16 { 'g' } else if d == 17 { 'h' } else if d == 18 { 'i' } else if d == 19 { 'j' }
    else if d == 20 { 'k' } else if d == 21 { 'l' } else if d == 22 { 'm' } else if d == 23 { 'n' }
    else if d == 24 { 'o' } else if d == 25 { 'p' } else if d == 26 { 'q' } else if d == 27 { 'r' }
    else if d == 28 { 's' } else if d == 29 { 't' } else if d == 30 { 'u' } else if d == 31 { 'v' }
    else if d == 32 { 'w' } else if d == 33 { 'x' } else if d == 34 { 'y' } else { 'z' }
}

/// The digits of `n` in base `base`, most significant first; `0` is `"0"`.
pub open spec fn digits(n: nat, base: nat) -> Seq<char>
    recommends
        2 <= base <= 36,
    decreases n,
    via digits_terminates
{
    if base < 2 || n < base {
        seq![digit_char(n as int)]
    } else {
        digits(n / base, base).push(digit_char((n % base) as int))
    }
}

#[via_fn]
proof fn digits_terminates(n: nat, base: nat) {
    if !(base < 2 || n < base) {
        assert(n / base < n) by (nonlinear_arith)
            requires
                base >= 2,
                n >= base,
        ;
    }
}

/// The one-character string of a digit below 36.
pub fn digit_text(d: u64) -> (r: &'static str)
    requires
        d < 36,
    ensures
        r@ == seq![digit_char(d as int)],
{
    let r: &'static str = match d {
        0 => "0", 1 => "1", 2 => "2", 3 => "3", 4 => "4", 5 => "5", 6 => "6", 7 => "7",
        8 => "8", 9 => "9", 10 => "a", 11 => "b", 12 => "c", 13 => "d", 14 => "e", 15 => "f",
        16 => "g", 17 => "h", 18 => "i", 19 => "j", 20 => "k", 21 => "l", 22 => "m", 23 => "n",
        24 => "o", 25 => "p", 26 => "q", 27 => "r", 28 => "s", 29 => "t", 30 => "u", 31 => "v",
        32 => "w", 33 => "x", 34 => "y", _ => "z",
    };
    proof {
        reveal_strlit("0"); reveal_strlit("1"); reveal_strlit("2"); reveal_strlit("3");
        reveal_strlit("4"); reveal_strlit("5"); reveal_strlit("6"); reveal_strlit("7");
        reveal_strlit("8"); reveal_strlit("9"); reveal_strlit("a"); reveal_strlit("b");
        reveal_strlit("c"); reveal_strlit("d"); reveal_strlit("e"); reveal_strlit("f");
        reveal_strlit("g"); reveal_strlit("h"); reveal_strlit("i"); reveal_strlit("j");
        reveal_strlit("k"); reveal_strlit("l"); reveal_strlit("m"); reveal_strlit("n");
        reveal_strlit("o"); reveal_strlit("p"); reveal_strlit("q"); reveal_strlit("r");
        reveal_strlit("s"); reveal_strlit("t"); reveal_strlit("u"); reveal_strlit("v");
        reveal_strlit("w"); reveal_strlit("x"); reveal_strlit("y"); reveal_strlit("z");
        assert(r@ =~= seq![digit_char(d as int)]);
    }
    r
}

/// Writes `n` in base `base`, most significant digit first.
pub fn format_radix(n: u64, base: u64) -> (r: String)
    requires
        2 <= base <= 36,
    ensures
        r@ == digits(n as nat, base as nat),
    decreases n,
{
    if n < base {
        digit_text(n).to_owned()
    } else {
        assert(n / base < n) by (nonlinear_arith)
            requires
                base >= 2,
                n >= base,
        ;
        let mut head: String = format_radix(n / base, base);
        head.append(digit_text(n % base));
        head
    }
}

/// Writes `n` in decimal.
pub fn format_decimal(n: u64) -> (r: String)
    ensures
        r@ == digits(n as nat, 10),
{
    format_radix(n, 10)
}

/// What `str::trim` leaves of a text: the text without the white space at its
/// start and at its end, white space being what Unicode calls so.
pub uninterp spec fn trimmed(text: Seq<char>) -> Seq<char>;

/// `str::trim`.  The result is a part of the text, so it is no longer than
/// the text.
#[verifier::external_body]
pub(crate) fn trim(text: &str) -> (r: &str)
    ensures
        r@ == trimmed(text@),
        r@.len() <= text@.len(),
{
    text.trim()
}

/// What `str::to_lowercase` makes of a text: the text in lower case, by the
/// Unicode rules.
pub uninterp spec fn lowercased(text: Seq<char>) -> Seq<char>;

/// `str::to_lowercase`.
#[verifier::external_body]
pub(crate) fn to_lowercase(text: &str) -> (r: String)
    ensures
        r@ == lowercased(text@),
{
    text.to_lowercase()
}

/// Whether `text` starts with `prefix`.
pub fn has_prefix(text: &str, prefix: &str) -> (r: bool)
    ensures
        r == prefix@.is_prefix_of(text@),
{
    let n: usize = prefix.unicode_len();
    if n > text.unicode_len() {
        false
    } else {
        let head: &str = text.substring_char(0, n);
        text_eq(head, prefix)
    }
}

/// The pieces between the separators of a text, in order.  A text without a
/// separator is one piece; an empty text is one empty piece.
pub open spec fn pieces(text: Seq<char>, separator: char) -> Seq<Seq<char>>
    decreases text.len(),
{
    if text.len() == 0 {
        seq![Seq::empty()]
    } else {
        let before = pieces(text.drop_last(), separator);
        if text.last() == separator {
            before.push(Seq::empty())
        } else {
            before.drop_last().push(before.last().push(text.last()))
        }
    }
}

/// Splits a text at each separator.
pub fn split(text: &str, separator: char) -> (r: Vec<String>)
    ensures
        r@.len() >= 1,
        Seq::new(r@.len(), |i: int| r@[i]@) == pieces(text@, separator),
{
    let n: usize = text.unicode_len();
    let mut done: Vec<String> = Vec::new();
    let mut start: usize = 0;
    let mut i: usize = 0;
    proof {
        assert(text@.take(0) =~= Seq::empty());
        assert(Seq::new(0, |k: int| done@[k]@).push(text@.subrange(0, 0)) =~= seq![Seq::<char>::empty()]);
    }
    while i < n
        invariant
            n == text@.len(),
            start <= i <= n,
            pieces(text@.take(i as int), separator) == Seq::new(done@.len(), |k: int| done@[k]@).push(
                text@.subrange(start as int, i as int),
            ),
        decreases n - i,
    {
        let ghost before = Seq::new(done@.len(), |k: int| done@[k]@);
        let ghost current = text@.subrange(start as int, i as int);
        proof {
            assert(text@.take(i + 1).drop_last() =~= text@.take(i as int));
            assert(text@.take(i + 1).last() == text@[i as int]);
            assert(before.push(current).drop_last() =~= before);
            assert(before.push(current).last() == current);
        }
        if text.get_char(i) == separator {
            done.push(text.substring_char(start, i).to_owned());
            start = i + 1;
            proof {
                assert(Seq::new(done@.len(), |k: int| done@[k]@) =~= before.push(current));
                assert(text@.subrange(start as int, i + 1) =~= Seq::empty());
            }
        } else {
            proof {
                assert(text@.subrange(start as int, i + 1) =~= current.push(text@[i as int]));
            }
        }
        i = i + 1;
    }
    let ghost before = Seq::new(done@.len(), |k: int| done@[k]@);
    done.push(text.substring_char(start, n).to_owned());
    proof {
        assert(text@.take(n as int) =~= text@);
        assert(Seq::new(done@.len(), |k: int| done@[k]@) =~= before.push(text@.subrange(start as int, n as int)));
    }
    done
}

/// Whether `a` comes before `b` from the character `i` on, the characters
/// before it being the same.
pub open spec fn before_from(a: Seq<char>, b: Seq<char>, i: int) -> bool
    decreases a.len() - i,
{
    if i < 0 || i >= b.len() {
        false
    } else if i >= a.len() {
        true
    } else if a[i] != b[i] {
        (a[i] as u32) < (b[i] as u32)
    } else {
        before_from(a, b, i + 1)
    }
}

/// Whether `a` comes before `b` in the order of texts: character by
/// character, by the numbers of the characters, a text coming before every
/// text that it starts.
pub open spec fn text_before(a: Seq<char>, b: Seq<char>) -> bool {
    before_from(a, b, 0)
}

/// Whether `a` comes before `b` in the order of texts.
pub fn comes_before(a: &str, b: &str) -> (r: bool)
    ensures
        r == text_before(a@, b@),
{
    let n: usize = a.unicode_len();
    let m: usize = b.unicode_len();
    let mut i: usize = 0;
    while i < n && i < m
        invariant
            n == a@.len(),
            m == b@.len(),
            i <= n,
            i <= m,
            text_before(a@, b@) == before_from(a@, b@, i as int),
        decreases n - i,
    {
        let x: char = a.get_char(i);
        let y: char = b.get_char(i);
        if x != y {
            return (x as u32) < (y as u32);
        }
        i = i + 1;
    }
    i < m
}

/// Of two texts, at most one comes before the other.
pub proof fn order_of_texts_is_one_way(a: Seq<char>, b: Seq<char>, i: int)
    requires
        0 <= i,
    ensures
        !(before_from(a, b, i) && before_from(b, a, i)),
    decreases a.len() - i,
{
    if i < a.len() && i < b.len() && a[i] == b[i] {
        order_of_texts_is_one_way(a, b, i + 1);
    }
}

/// A list in order with one more text: the text stands behind the last
/// text that it does not come before.
pub open spec fn inserted(list: Seq<Seq<char>>, text: Seq<char>) -> Seq<Seq<char>>
    decreases list.len(),
{
    if list.len() == 0 {
        seq![text]
    } else if text_before(text, list.last()) {
        inserted(list.drop_last(), text).push(list.last())
    } else {
        list.push(text)
    }
}

/// The texts of a list in order; texts that are equal keep their order.
pub open spec fn in_order(list: Seq<Seq<char>>) -> Seq<Seq<char>>
    decreases list.len(),
{
    if list.len() == 0 {
        Seq::empty()
    } else {
        inserted(in_order(list.drop_last()), list.last())
    }
}

/// Whether no text of the list comes before the text in front of it.
pub open spec fn ordered(list: Seq<Seq<char>>) -> bool {
    forall|i: int| 0 <= i < list.len() - 1 ==> !text_before(#[trigger] list[i + 1], list[i])
}

/// Where a text goes in, `inserted` puts it.
proof fn lemma_inserted_at(list: Seq<Seq<char>>, text: Seq<char>, at: int)
    requires
        0 <= at <= list.len(),
        forall|k: int| at <= k < list.len() ==> text_before(text, #[trigger] list[k]),
        at > 0 ==> !text_before(text, list[at - 1]),
    ensures
        inserted(list, text) == list.insert(at, text),
    decreases list.len(),
{
    if list.len() == 0 {
        assert(list.insert(at, text) =~= seq![text]);
    } else if at == list.len() {
        assert(list.insert(at, text) =~= list.push(text));
    } else {
        let head = list.drop_last();
        assert(text_before(text, list[list.len() - 1]));
        assert forall|k: int| at <= k < head.len() implies text_before(text, #[trigger] head[k]) by {
            assert(head[k] == list[k]);
        }
        lemma_inserted_at(head, text, at);
        assert(head.insert(at, text).push(list.last()) =~= list.insert(at, text));
    }
}

/// Puts a text into a list in order.
fn insert_text(list: &mut Vec<String>, text: String)
    ensures
        Seq::new(final(list)@.len(), |i: int| final(list)@[i]@) == inserted(
            Seq::new(old(list)@.len(), |i: int| old(list)@[i]@),
            text@,
        ),
{
    let ghost before = Seq::new(list@.len(), |i: int| list@[i]@);
    let mut at: usize = list.len();
    while at > 0 && comes_before(text.as_str(), list[at - 1].as_str())
        invariant
            at <= list@.len(),
            list@ == old(list)@,
            forall|k: int| at <= k < list@.len() ==> text_before(text@, #[trigger] list@[k]@),
        decreases at,
    {
        at = at - 1;
    }
    proof {
        assert forall|k: int| at <= k < before.len() implies text_before(text@, #[trigger] before[k]) by {
            assert(before[k] == list@[k]@);
        }
        lemma_inserted_at(before, text@, at as int);
    }
    list.insert(at, text);
    proof {
        assert(Seq::new(list@.len(), |i: int| list@[i]@) =~= before.insert(at as int, text@));
    }
}

/// The texts of a list in order, see [`in_order`].
pub fn sort_texts(list: &Vec<String>) -> (r: Vec<String>)
    ensures
        Seq::new(r@.len(), |i: int| r@[i]@) == in_order(Seq::new(list@.len(), |i: int| list@[i]@)),
{
    let ghost all = Seq::new(list@.len(), |i: int| list@[i]@);
    let mut out: Vec<String> = Vec::new();
    let mut i: usize = 0;
    proof {
        assert(all.take(0) =~= Seq::empty());
        assert(Seq::new(out@.len(), |k: int| out@[k]@) =~= in_order(all.take(0)));
    }
    while i < list.len()
        invariant
            i <= list.len(),
            all == Seq::new(list@.len(), |k: int| list@[k]@),
            Seq::new(out@.len(), |k: int| out@[k]@) == in_order(all.take(i as int)),
        decreases list.len() - i,
    {
        proof {
            assert(all.take(i + 1).drop_last() =~= all.take(i as int));
            assert(all.take(i + 1).last() == list@[i as int]@);
        }
        insert_text(&mut out, list[i].clone());
        i = i + 1;
    }
    proof {
        assert(all.take(i as int) =~= all);
    }
    out
}

/// The last text of a list with one more text is that text or the last of
/// the list, and the list is one longer.
proof fn lemma_inserted_last(list: Seq<Seq<char>>, text: Seq<char>)
    ensures
        inserted(list, text).len() == list.len() + 1,
        inserted(list, text).last() == text || (list.len() > 0 && inserted(list, text).last() == list.last()),
    decreases list.len(),
{
    if list.len() > 0 && text_before(text, list.last()) {
        lemma_inserted_last(list.drop_last(), text);
    }
}

/// A list that is in order stays so when a text is put in.
proof fn lemma_inserted_ordered(list: Seq<Seq<char>>, text: Seq<char>)
    requires
        ordered(list),
    ensures
        ordered(inserted(list, text)),
    decreases list.len(),
{
    let out = inserted(list, text);
    if list.len() == 0 {
    } else if text_before(text, list.last()) {
        let head = list.drop_last();
        assert forall|i: int| 0 <= i < head.len() - 1 implies !text_before(#[trigger] head[i + 1], head[i]) by {
            assert(head[i + 1] == list[i + 1]);
        }
        lemma_inserted_ordered(head, text);
        lemma_inserted_last(head, text);
        order_of_texts_is_one_way(text, list.last(), 0);
        let front = inserted(head, text);
        assert forall|i: int| 0 <= i < out.len() - 1 implies !text_before(#[trigger] out[i + 1], out[i]) by {
            if i + 1 < front.len() {
                assert(out[i + 1] == front[i + 1]);
                assert(out[i] == front[i]);
            } else {
                assert(out[i + 1] == list.last());
                assert(out[i] == front.last());
                if front.last() != text {
                    assert(head.last() == list[list.len() - 2]);
                    assert(list.last() == list[(list.len() - 2) + 1]);
                }
            }
        }
    } else {
        assert forall|i: int| 0 <= i < out.len() - 1 implies !text_before(#[trigger] out[i + 1], out[i]) by {
            if i + 1 < list.len() {
                assert(out[i + 1] == list[i + 1]);
            }
        }
    }
}

/// The texts of a list in order are in order: none comes before the one in
/// front of it.
pub proof fn texts_in_order_are_ordered(list: Seq<Seq<char>>)
    ensures
        ordered(in_order(list)),
        in_order(list).len() == list.len(),
    decreases list.len(),
{
    if list.len() > 0 {
        texts_in_order_are_ordered(list.drop_last());
        lemma_inserted_ordered(in_order(list.drop_last()), list.last());
        lemma_inserted_last(in_order(list.drop_last()), list.last());
    }
}

/// Putting a list in order changes nothing where it is in order already.
pub proof fn order_is_kept(list: Seq<Seq<char>>)
    requires
        ordered(list),
    ensures
        in_order(list) == list,
    decreases list.len(),
{
    if list.len() > 0 {
        let head = list.drop_last();
        assert forall|i: int| 0 <= i < head.len() - 1 implies !text_before(#[trigger] head[i + 1], head[i]) by {
            assert(head[i + 1] == list[i + 1]);
        }
        order_is_kept(head);
        if head.len() > 0 {
            assert(list.last() == list[(list.len() - 2) + 1]);
            assert(head.last() == list[list.len() - 2]);
        }
        assert(head.push(list.last()) =~= list);
    }
}

/// Putting a list in order twice is putting it in order once.
pub proof fn order_is_settled(list: Seq<Seq<char>>)
    ensures
        in_order(in_order(list)) == in_order(list),
{
    texts_in_order_are_ordered(list);
    order_is_kept(in_order(list));
}

/// A list in order holds the texts of the list, each as often as the list.
pub proof fn order_keeps_the_texts(list: Seq<Seq<char>>)
    ensures
        in_order(list).to_multiset() == list.to_multiset(),
    decreases list.len(),
{
    broadcast use vstd::seq_lib::group_to_multiset_ensures;
    if list.len() > 0 {
        let head = list.drop_last();
        order_keeps_the_texts(head);
        lemma_inserted_texts(in_order(head), list.last());
        assert(head.push(list.last()) =~= list);
    }
}

/// A list with one more text holds the texts of the list and that text.
proof fn lemma_inserted_texts(list: Seq<Seq<char>>, text: Seq<char>)
    ensures
        inserted(list, text).to_multiset() == list.to_multiset().insert(text),
    decreases list.len(),
{
    broadcast use vstd::seq_lib::group_to_multiset_ensures;
    if list.len() > 0 && text_before(text, list.last()) {
        let head = list.drop_last();
        lemma_inserted_texts(head, text);
        assert(head.push(list.last()) =~= list);
        assert(inserted(list, text).to_multiset() =~= list.to_multiset().insert(text));
    }
}

} // verus!
