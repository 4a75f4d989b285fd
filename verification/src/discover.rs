//! Finding the pages that a tool has written: which entries of the workspace
//! are output files, which page each one holds, and in what order they are
//! read.

use vstd::prelude::*;
use vstd::string::StrSliceExecFns;

verus! {

/// The text that the first capture group of `pattern` matches in the
/// leftmost match of `pattern` in `text`, as the `regex` crate finds it;
/// `None` where the pattern is not accepted, does not match, or matches
/// without the group.
pub uninterp spec fn first_group(pattern: Seq<char>, text: Seq<char>) -> Option<Seq<char>>;

/// `Regex::new`, `Regex::captures` and `Captures::get` of the `regex` crate.
/// The contract only names the outcome: the text is the one that
/// [`first_group`] gives for the pattern and the text searched.
#[verifier::external_body]
fn capture_first_group(pattern: &str, text: &str) -> (result: Option<String>)
    ensures
        match result {
            Some(group) => first_group(pattern@, text@) == Some(group@),
            None => first_group(pattern@, text@) is None,
        },
{
    let regex = regex::Regex::new(pattern).ok()?;
    let captures = regex.captures(text)?;
    let group = captures.get(1)?;
    Some(group.as_str().to_string())
}

/// Whether a character is one of the ten decimal digits.
pub open spec fn is_digit(c: char) -> bool {
    '0' <= c <= '9'
}

/// The number that a decimal digit stands for.
pub open spec fn digit_value(c: char) -> nat {
    (c as nat - '0' as nat) as nat
}

/// Whether every character of the text is a decimal digit.
pub open spec fn all_digits(text: Seq<char>) -> bool {
    forall|i: int| 0 <= i < text.len() ==> is_digit(#[trigger] text[i])
}

/// The number that a sequence of decimal digits denotes, the most
/// significant digit first.
pub open spec fn decimal_value(digits: Seq<char>) -> nat
    decreases digits.len(),
{
    if digits.len() == 0 {
        0
    } else {
        10 * decimal_value(digits.drop_last()) + digit_value(digits.last())
    }
}

/// How many characters of sign a text starts with: one for a leading `+`
/// or `-`, none otherwise.
pub open spec fn sign_length(text: Seq<char>) -> int {
    if text.len() > 0 && (text[0] == '-' || text[0] == '+') {
        1
    } else {
        0
    }
}

/// The page index that a text denotes: an optional sign, then one or more
/// decimal digits, the whole in the range of `i32`. Any other text denotes
/// none.
pub open spec fn spec_parse_index(text: Seq<char>) -> Option<i32> {
    let digits = text.skip(sign_length(text));
    let magnitude = decimal_value(digits) as int;
    let value = if text.len() > 0 && text[0] == '-' {
        -magnitude
    } else {
        magnitude
    };
    if digits.len() > 0 && all_digits(digits) && i32::MIN <= value <= i32::MAX {
        Some(value as i32)
    } else {
        None
    }
}

/// A number never gets smaller when more digits follow.
proof fn lemma_prefix_value(digits: Seq<char>, count: int)
    requires
        0 <= count <= digits.len(),
    ensures
        decimal_value(digits.take(count)) <= decimal_value(digits),
    decreases digits.len() - count,
{
    if count == digits.len() {
        assert(digits.take(count) =~= digits);
    } else {
        lemma_prefix_value(digits, count + 1);
        assert(digits.take(count + 1).drop_last() =~= digits.take(count));
    }
}

/// Read a page index from a text, as [`spec_parse_index`] defines it.
pub fn parse_index(text: &str) -> (result: Option<i32>)
    ensures
        result == spec_parse_index(text@),
{
    let length: usize = text.unicode_len();
    if length == 0 {
        return None;
    }
    let first = text.get_char(0);
    let negative = first == '-';
    let start: usize = if first == '-' || first == '+' {
        1
    } else {
        0
    };
    if start == length {
        return None;
    }
    let ghost digits = text@.skip(start as int);
    let mut value: i64 = 0;
    let mut i: usize = start;
    while i < length
        invariant
            start <= i <= length,
            length == text@.len(),
            start as int == sign_length(text@),
            start < length,
            negative == (text@[0] == '-'),
            digits == text@.skip(start as int),
            all_digits(digits.take(i - start)),
            value == decimal_value(digits.take(i - start)),
            0 <= value <= 0x8000_0000,
        decreases length - i,
    {
        let c = text.get_char(i);
        proof {
            assert(digits.take(i + 1 - start).drop_last() =~= digits.take(i - start));
            assert(digits.take(i + 1 - start).last() == c);
        }
        if !(c >= '0' && c <= '9') {
            assert(!is_digit(digits[i - start]));
            return None;
        }
        let digit: i64 = (c as u32 - '0' as u32) as i64;
        value = value * 10 + digit;
        if value > 0x8000_0000 {
            proof {
                lemma_prefix_value(digits, i + 1 - start);
            }
            return None;
        }
        i = i + 1;
    }
    proof {
        assert(digits.take(i - start) =~= digits);
    }
    if negative {
        Some((-value) as i32)
    } else if value <= i32::MAX as i64 {
        Some(value as i32)
    } else {
        None
    }
}

/// The page that an entry of the workspace holds: the index that the first
/// capture group of the pattern denotes in the entry's name, if there is one.
pub open spec fn page_index(pattern: Seq<char>, name: Seq<char>) -> Option<i32> {
    match first_group(pattern, name) {
        Some(text) => spec_parse_index(text),
        None => None,
    }
}

/// The page that the entry with the given name holds, by the output pattern
/// of the backend.
pub fn page_index_of(pattern: &str, name: &str) -> (result: Option<i32>)
    ensures
        result == page_index(pattern@, name@),
{
    match capture_first_group(pattern, name) {
        Some(text) => parse_index(text.as_str()),
        None => None,
    }
}

/// The names as sequences of characters.
pub open spec fn texts(names: Seq<String>) -> Seq<Seq<char>> {
    Seq::new(names.len(), |i: int| names[i]@)
}

/// Whether the entry at position `p` holds a page and no entry that was
/// listed after it, below `limit`, holds the same page. Where several
/// entries hold the same page, the one listed last is the page.
pub open spec fn is_last_of_page(
    pattern: Seq<char>,
    names: Seq<Seq<char>>,
    p: int,
    limit: int,
) -> bool {
    &&& 0 <= p < limit
    &&& page_index(pattern, names[p]) is Some
    &&& forall|q: int|
        p < q < limit ==> #[trigger] page_index(pattern, names[q]) != page_index(pattern, names[p])
}

/// Whether the entry at position `p` is read before the entry at position
/// `q`: both hold a page, and the page of `p` has the smaller index.
pub open spec fn reads_before(pattern: Seq<char>, names: Seq<Seq<char>>, p: int, q: int) -> bool {
    let i = page_index(pattern, names[p]);
    let j = page_index(pattern, names[q]);
    i is Some && j is Some && i->0 < j->0
}

/// Whether the positions stand in reading order: ascending by page index,
/// no index twice.
pub open spec fn in_read_order(pattern: Seq<char>, names: Seq<Seq<char>>, order: Seq<usize>) -> bool {
    forall|a: int, b: int|
        0 <= a < b < order.len() ==> reads_before(
            pattern,
            names,
            #[trigger] order[a] as int,
            #[trigger] order[b] as int,
        )
}

/// Whether `order` is the order in which the output files among `names` are
/// read: it holds, for every page that some name holds, the position of the
/// name listed last for that page, and no other position, ascending by page
/// index.
pub open spec fn is_read_order(pattern: Seq<char>, names: Seq<Seq<char>>, order: Seq<usize>) -> bool {
    &&& forall|k: int|
        0 <= k < order.len() ==> is_last_of_page(
            pattern,
            names,
            #[trigger] order[k] as int,
            names.len() as int,
        )
    &&& forall|p: int| #[trigger]
        is_last_of_page(pattern, names, p, names.len() as int) ==> order.contains(p as usize)
    &&& in_read_order(pattern, names, order)
}

/// Two sequences of positions that stand in reading order and hold the
/// same positions are the same sequence.
proof fn lemma_same_positions_same_order(
    pattern: Seq<char>,
    names: Seq<Seq<char>>,
    first: Seq<usize>,
    second: Seq<usize>,
)
    requires
        in_read_order(pattern, names, first),
        in_read_order(pattern, names, second),
        forall|x: usize| first.contains(x) <==> second.contains(x),
    ensures
        first == second,
    decreases first.len(),
{
    if first.len() == 0 {
        if second.len() > 0 {
            assert(second.contains(second[0]));
            assert(first.contains(second[0]));
        }
        assert(first =~= second);
    } else {
        assert(first.contains(first[0]));
        assert(second.contains(first[0]));
        let j = choose|j: int| 0 <= j < second.len() && second[j] == first[0];
        assert(second.contains(second[0]));
        assert(first.contains(second[0]));
        let i = choose|i: int| 0 <= i < first.len() && first[i] == second[0];
        if i > 0 && j > 0 {
            assert(reads_before(pattern, names, first[0] as int, first[i] as int));
            assert(reads_before(pattern, names, second[0] as int, second[j] as int));
        }
        assert(first[0] == second[0]);
        let rest = first.skip(1);
        let other = second.skip(1);
        assert forall|a: int, b: int| 0 <= a < b < rest.len() implies reads_before(
            pattern,
            names,
            #[trigger] rest[a] as int,
            #[trigger] rest[b] as int,
        ) by {
            assert(rest[a] == first[a + 1] && rest[b] == first[b + 1]);
        }
        assert forall|a: int, b: int| 0 <= a < b < other.len() implies reads_before(
            pattern,
            names,
            #[trigger] other[a] as int,
            #[trigger] other[b] as int,
        ) by {
            assert(other[a] == second[a + 1] && other[b] == second[b + 1]);
        }
        assert forall|x: usize| rest.contains(x) <==> other.contains(x) by {
            if rest.contains(x) {
                let k = choose|k: int| 0 <= k < rest.len() && rest[k] == x;
                assert(first[k + 1] == x);
                assert(reads_before(pattern, names, first[0] as int, first[k + 1] as int));
                assert(first.contains(x));
                assert(second.contains(x));
                let m = choose|m: int| 0 <= m < second.len() && second[m] == x;
                assert(m > 0);
                assert(other[m - 1] == x);
            }
            if other.contains(x) {
                let k = choose|k: int| 0 <= k < other.len() && other[k] == x;
                assert(second[k + 1] == x);
                assert(reads_before(pattern, names, second[0] as int, second[k + 1] as int));
                assert(second.contains(x));
                assert(first.contains(x));
                let m = choose|m: int| 0 <= m < first.len() && first[m] == x;
                assert(m > 0);
                assert(rest[m - 1] == x);
            }
        }
        lemma_same_positions_same_order(pattern, names, rest, other);
        assert(first.len() == second.len());
        assert forall|k: int| 0 <= k < first.len() implies first[k] == second[k] by {
            if k > 0 {
                assert(rest[k - 1] == first[k]);
                assert(other[k - 1] == second[k]);
            }
        }
        assert(first =~= second);
    }
}

/// The listed names determine the order in which the output files are
/// read: there is only one reading order of a listing.
pub proof fn lemma_read_order_is_unique(
    pattern: Seq<char>,
    names: Seq<Seq<char>>,
    first: Seq<usize>,
    second: Seq<usize>,
)
    requires
        is_read_order(pattern, names, first),
        is_read_order(pattern, names, second),
    ensures
        first == second,
{
    assert forall|x: usize| first.contains(x) <==> second.contains(x) by {
        if first.contains(x) {
            let k = choose|k: int| 0 <= k < first.len() && first[k] == x;
            assert(is_last_of_page(pattern, names, first[k] as int, names.len() as int));
        }
        if second.contains(x) {
            let k = choose|k: int| 0 <= k < second.len() && second[k] == x;
            assert(is_last_of_page(pattern, names, second[k] as int, names.len() as int));
        }
    }
    lemma_same_positions_same_order(pattern, names, first, second);
}

/// The pages of a reading order ascend: a file is read before another
/// exactly when its page index is the smaller one, and no two files of the
/// order hold the same page.
pub proof fn lemma_read_order_ascends(
    pattern: Seq<char>,
    names: Seq<Seq<char>>,
    order: Seq<usize>,
    a: int,
    b: int,
)
    requires
        is_read_order(pattern, names, order),
        0 <= a < order.len(),
        0 <= b < order.len(),
    ensures
        a < b <==> page_index(pattern, names[order[a] as int])->0 < page_index(
            pattern,
            names[order[b] as int],
        )->0,
        a != b ==> order[a] != order[b],
{
    if a < b {
        assert(reads_before(pattern, names, order[a] as int, order[b] as int));
    } else if b < a {
        assert(reads_before(pattern, names, order[b] as int, order[a] as int));
    }
}

/// Whether the keys ascend, none of them twice.
pub open spec fn ascending(keys: Seq<i32>) -> bool {
    forall|a: int, b: int| 0 <= a < b < keys.len() ==> (#[trigger] keys[a]) < (#[trigger] keys[b])
}

/// Put an entry with the given key and position in its place among entries
/// with ascending keys. An entry with the same key gives way to the new one.
/// The result is the place and whether an entry gave way.
fn place_entry(keys: &mut Vec<i32>, order: &mut Vec<usize>, key: i32, position: usize) -> (placed:
    (usize, bool))
    requires
        old(keys)@.len() == old(order)@.len(),
        ascending(old(keys)@),
    ensures
        placed.0 <= old(keys)@.len(),
        final(keys)@.len() == final(order)@.len(),
        ascending(final(keys)@),
        placed.1 ==> {
            &&& placed.0 < old(keys)@.len()
            &&& old(keys)@[placed.0 as int] == key
            &&& final(keys)@ == old(keys)@
            &&& final(order)@ == old(order)@.update(placed.0 as int, position)
        },
        !placed.1 ==> {
            &&& !old(keys)@.contains(key)
            &&& final(keys)@ == old(keys)@.insert(placed.0 as int, key)
            &&& final(order)@ == old(order)@.insert(placed.0 as int, position)
        },
{
    let mut at: usize = keys.len();
    while at > 0 && keys[at - 1] >= key
        invariant
            0 <= at <= keys.len(),
            forall|k: int| at <= k < keys.len() ==> keys[k] >= key,
        decreases at,
    {
        at = at - 1;
    }
    let ghost old_keys = keys@;
    assert forall|k: int| 0 <= k < at implies old_keys[k] < key by {
        if k < at - 1 {
            assert(old_keys[k] < old_keys[at - 1]);
        }
    }
    if at < keys.len() && keys[at] == key {
        order.set(at, position);
        (at, true)
    } else {
        proof {
            if old_keys.contains(key) {
                let k = choose|k: int| 0 <= k < old_keys.len() && old_keys[k] == key;
                if k > at {
                    assert(old_keys[at as int] < old_keys[k]);
                }
            }
        }
        order.insert(at, position);
        keys.insert(at, key);
        proof {
            assert forall|a: int, b: int| 0 <= a < b < keys@.len() implies (#[trigger] keys@[a])
                < (#[trigger] keys@[b]) by {
                let a0 = if a < at { a } else { a - 1 };
                let b0 = if b < at { b } else { b - 1 };
                if a == at {
                    assert(keys@[b] == old_keys[b0]);
                    assert(old_keys[b0] >= key);
                    if b0 > at {
                        assert(old_keys[at as int] < old_keys[b0]);
                    }
                } else if b == at {
                    assert(keys@[a] == old_keys[a0]);
                } else {
                    assert(keys@[a] == old_keys[a0] && keys@[b] == old_keys[b0]);
                    assert(a0 < b0);
                    assert(old_keys[a0] < old_keys[b0]);
                }
            }
        }
        (at, false)
    }
}

/// The order in which the output files among the listed names are read.
///
/// The result holds positions in `names`. A name is an output file when
/// the pattern's first capture group denotes a page index in it. Files are
/// read ascending by that index. Where several names denote the same index,
/// the one listed last is read and the others are not.
pub fn order_outputs(pattern: &str, names: &Vec<String>) -> (order: Vec<usize>)
    ensures
        is_read_order(pattern@, texts(names@), order@),
{
    let mut order: Vec<usize> = Vec::new();
    let mut keys: Vec<i32> = Vec::new();
    let ghost listed = texts(names@);
    let mut p: usize = 0;
    while p < names.len()
        invariant
            0 <= p <= names.len(),
            listed == texts(names@),
            keys@.len() == order@.len(),
            ascending(keys@),
            forall|k: int|
                0 <= k < order@.len() ==> is_last_of_page(
                    pattern@,
                    listed,
                    #[trigger] order@[k] as int,
                    p as int,
                ) && page_index(pattern@, listed[order@[k] as int]) == Some(keys@[k]),
            forall|q: int|
                0 <= q < p && (#[trigger] page_index(pattern@, listed[q])) is Some
                    ==> keys@.contains(page_index(pattern@, listed[q])->0),
        decreases names.len() - p,
    {
        let ghost old_order = order@;
        let ghost old_keys = keys@;
        match page_index_of(pattern, names[p].as_str()) {
            Some(key) => {
                let (at, replaced) = place_entry(&mut keys, &mut order, key, p);
                proof {
                    assert forall|k: int| 0 <= k < order@.len() implies is_last_of_page(
                        pattern@,
                        listed,
                        #[trigger] order@[k] as int,
                        p + 1,
                    ) && page_index(pattern@, listed[order@[k] as int]) == Some(keys@[k]) by {
                        if k != at {
                            let k0 = if replaced || k < at { k } else { k - 1 };
                            assert(order@[k] == old_order[k0] && keys@[k] == old_keys[k0]);
                            assert(is_last_of_page(pattern@, listed, old_order[k0] as int, p as int));
                            if !replaced {
                                assert(old_keys.contains(old_keys[k0]));
                            } else {
                                assert(old_keys[k0] != old_keys[at as int]);
                            }
                            assert(old_keys[k0] != key);
                        }
                    }
                    assert forall|q: int|
                        0 <= q < p + 1 && (#[trigger] page_index(pattern@, listed[q])) is Some
                            implies keys@.contains(page_index(pattern@, listed[q])->0) by {
                        if q == p {
                            assert(keys@[at as int] == key);
                        } else if !replaced {
                            let value = page_index(pattern@, listed[q])->0;
                            assert(old_keys.contains(value));
                            let k = choose|k: int| 0 <= k < old_keys.len() && old_keys[k] == value;
                            if k < at {
                                assert(keys@[k] == value);
                            } else {
                                assert(keys@[k + 1] == value);
                            }
                        }
                    }
                }
            },
            None => {
                proof {
                    assert forall|k: int| 0 <= k < order@.len() implies is_last_of_page(
                        pattern@,
                        listed,
                        #[trigger] order@[k] as int,
                        p + 1,
                    ) by {
                        assert(is_last_of_page(pattern@, listed, order@[k] as int, p as int));
                    }
                }
            },
        }
        p = p + 1;
    }
    proof {
        assert forall|q: int| #[trigger]
            is_last_of_page(pattern@, listed, q, listed.len() as int) implies order@.contains(
            q as usize,
        ) by {
            let value = page_index(pattern@, listed[q])->0;
            assert(keys@.contains(value));
            let k = choose|k: int| 0 <= k < keys@.len() && keys@[k] == value;
            assert(is_last_of_page(pattern@, listed, order@[k] as int, listed.len() as int));
            let found = order@[k] as int;
            if found < q {
                assert(page_index(pattern@, listed[q]) != page_index(pattern@, listed[found]));
            } else if q < found {
                assert(page_index(pattern@, listed[found]) != page_index(pattern@, listed[q]));
            }
            assert(order@[k] == q as usize);
        }
        assert forall|a: int, b: int| 0 <= a < b < order@.len() implies reads_before(
            pattern@,
            listed,
            #[trigger] order@[a] as int,
            #[trigger] order@[b] as int,
        ) by {
            assert(keys@[a] < keys@[b]);
        }
    }
    order
}

} // verus!
