//! Text: comparison, concatenation and decimal digits.
use vstd::prelude::*;
use vstd::string::*;

verus! {

/// The decimal digit `d`, for `d` below ten.
pub open spec fn digit(d: nat) -> char {
    (48 + d) as char
}

/// The decimal digits of `n`, most significant first, without leading zeros.
pub open spec fn decimal(n: nat) -> Seq<char>
    decreases n,
{
    if n < 10 {
        seq![digit(n)]
    } else {
        decimal(n / 10).push(digit(n % 10))
    }
}

/// The text of one digit.
fn digit_text(d: u128) -> (text: &'static str)
    requires
        d < 10,
    ensures
        text@ == seq![digit(d as nat)],
{
    proof {
        reveal_strlit("0");
        reveal_strlit("1");
        reveal_strlit("2");
        reveal_strlit("3");
        reveal_strlit("4");
        reveal_strlit("5");
        reveal_strlit("6");
        reveal_strlit("7");
        reveal_strlit("8");
        reveal_strlit("9");
    }
    match d {
        0 => "0",
        1 => "1",
        2 => "2",
        3 => "3",
        4 => "4",
        5 => "5",
        6 => "6",
        7 => "7",
        8 => "8",
        _ => "9",
    }
}

/// The decimal digits of `n`.
pub fn decimal_u128(n: u128) -> (text: String)
    ensures
        text@ == decimal(n as nat),
    decreases n,
{
    if n < 10 {
        digit_text(n).to_owned()
    } else {
        let mut text = decimal_u128(n / 10);
        text.append(digit_text(n % 10));
        text
    }
}

/// The decimal digits of `n`.
pub fn decimal_u64(n: u64) -> (text: String)
    ensures
        text@ == decimal(n as nat),
{
    decimal_u128(n as u128)
}

/// Whether two texts hold the same characters.
pub fn same_text(a: &str, b: &str) -> (same: bool)
    ensures
        same == (a@ == b@),
{
    a.to_owned() == b.to_owned()
}

/// `a` followed by `b`.
pub fn concat2(a: &str, b: &str) -> (text: String)
    ensures
        text@ == a@ + b@,
{
    let mut text = a.to_owned();
    text.append(b);
    text
}

/// `a`, `b` and `c`, one after the other.
pub fn concat3(a: &str, b: &str, c: &str) -> (text: String)
    ensures
        text@ == a@ + b@ + c@,
{
    let mut text = concat2(a, b);
    text.append(c);
    text
}

/// The characters of an optional text.
pub open spec fn optional_text(text: Option<String>) -> Option<Seq<char>> {
    match text {
        Some(value) => Some(value@),
        None => None,
    }
}

/// Whether two optional texts are both absent, or both present with the same characters.
pub fn same_optional_text(a: &Option<String>, b: &Option<String>) -> (same: bool)
    ensures
        same == (optional_text(*a) == optional_text(*b)),
{
    match (a, b) {
        (Some(left), Some(right)) => *left == *right,
        (None, None) => true,
        _ => false,
    }
}

/// Whether Unicode calls `c` white space.
pub open spec fn is_white_space(c: char) -> bool {
    ||| '\u{9}' <= c <= '\u{d}'
    ||| c == ' '
    ||| c == '\u{85}'
    ||| c == '\u{a0}'
    ||| c == '\u{1680}'
    ||| '\u{2000}' <= c <= '\u{200a}'
    ||| c == '\u{2028}'
    ||| c == '\u{2029}'
    ||| c == '\u{202f}'
    ||| c == '\u{205f}'
    ||| c == '\u{3000}'
}

/// The text without white space at its front.
pub open spec fn trimmed_front(text: Seq<char>) -> Seq<char>
    decreases text.len(),
{
    if text.len() > 0 && is_white_space(text[0]) {
        trimmed_front(text.skip(1))
    } else {
        text
    }
}

/// The text without white space at its end.
pub open spec fn trimmed_back(text: Seq<char>) -> Seq<char>
    decreases text.len(),
{
    if text.len() > 0 && is_white_space(text.last()) {
        trimmed_back(text.drop_last())
    } else {
        text
    }
}

/// The text without white space at either end.
pub open spec fn trimmed(text: Seq<char>) -> Seq<char> {
    trimmed_back(trimmed_front(text))
}

/// The lower-case letter for an upper-case ASCII letter, and any other character itself.
pub open spec fn ascii_lower(c: char) -> char {
    if 'A' <= c <= 'Z' {
        (c as u32 + 32) as char
    } else {
        c
    }
}

/// The text with its ASCII letters in lower case.
pub open spec fn ascii_lowered(text: Seq<char>) -> Seq<char> {
    text.map_values(|c: char| ascii_lower(c))
}

/// Whether `part` occurs in `text`.
pub open spec fn occurs_in(part: Seq<char>, text: Seq<char>) -> bool {
    exists|at: int|
        0 <= at && at + part.len() <= text.len() && #[trigger] text.subrange(at, at + part.len())
            == part
}

/// Calls `str::trim`, which takes the white space at both ends off.
#[verifier::external_body]
fn std_trim(text: &str) -> (rest: &str)
    ensures
        rest@ == trimmed(text@),
{
    text.trim()
}

/// Calls `str::to_ascii_lowercase`, which changes the letters from `A` to `Z` and nothing else.
#[verifier::external_body]
fn std_to_ascii_lowercase(text: &str) -> (lower: String)
    ensures
        lower@ == ascii_lowered(text@),
{
    text.to_ascii_lowercase()
}

/// Calls `str::contains` with a text, which says whether that text occurs.
#[verifier::external_body]
fn std_contains(text: &str, part: &str) -> (found: bool)
    ensures
        found == occurs_in(part@, text@),
{
    text.contains(part)
}

/// The text without white space at either end.
pub fn trim(text: &str) -> (rest: &str)
    ensures
        rest@ == trimmed(text@),
{
    std_trim(text)
}

/// The text with its ASCII letters in lower case.
pub fn to_ascii_lowercase(text: &str) -> (lower: String)
    ensures
        lower@ == ascii_lowered(text@),
{
    std_to_ascii_lowercase(text)
}

/// Whether `part` occurs in `text`.
pub fn contains_text(text: &str, part: &str) -> (found: bool)
    ensures
        found == occurs_in(part@, text@),
{
    std_contains(text, part)
}

/// The characters of each text of a list.
pub open spec fn texts(list: Seq<String>) -> Seq<Seq<char>> {
    list.map_values(|text: String| text@)
}

/// Whether both lists hold the same texts in the same order.
pub fn same_texts(a: &Vec<String>, b: &Vec<String>) -> (same: bool)
    ensures
        same == (texts(a@) == texts(b@)),
{
    if a.len() != b.len() {
        assert(texts(a@).len() != texts(b@).len());
        return false;
    }
    let mut i: usize = 0;
    while i < a.len()
        invariant
            i <= a@.len() == b@.len(),
            forall|j: int| 0 <= j < i ==> a@[j]@ == b@[j]@,
        decreases a@.len() - i,
    {
        if a[i] != b[i] {
            assert(texts(a@)[i as int] != texts(b@)[i as int]);
            return false;
        }
        i += 1;
    }
    assert(texts(a@) =~= texts(b@));
    true
}

/// A copy of the list.
pub fn copy_texts(list: &Vec<String>) -> (copy: Vec<String>)
    ensures
        texts(copy@) == texts(list@),
{
    let mut copy: Vec<String> = Vec::new();
    let mut i: usize = 0;
    while i < list.len()
        invariant
            i <= list@.len(),
            copy@.len() == i,
            forall|j: int| 0 <= j < i ==> copy@[j]@ == list@[j]@,
        decreases list@.len() - i,
    {
        copy.push(list[i].clone());
        i += 1;
    }
    assert(texts(copy@) =~= texts(list@));
    copy
}

/// Whether a text begins with another.
pub fn starts_with(text: &str, prefix: &str) -> (begins: bool)
    ensures
        begins == prefix@.is_prefix_of(text@),
{
    let len: usize = prefix.unicode_len();
    if text.unicode_len() < len {
        return false;
    }
    let head = text.substring_char(0, len);
    assert(head@ =~= text@.subrange(0, prefix@.len() as int));
    same_text(head, prefix)
}

/// The number of bytes that a text takes.
pub open spec fn byte_len(text: Seq<char>) -> usize {
    vstd::utf8::encode_utf8(text).len() as usize
}

/// The number of bytes that a text takes.
pub fn text_len(text: &str) -> (len: usize)
    ensures
        len == byte_len(text@),
{
    text.len()
}

/// Decimal texts are made of the ten digits, the last one for the ones.
pub proof fn decimals_end_with_their_ones(n: nat)
    ensures
        decimal(n).len() > 0,
        n < 10 ==> decimal(n).len() == 1,
        n >= 10 ==> decimal(n).drop_last() == decimal(n / 10),
        decimal(n).last() as nat == '0' as nat + n % 10,
{
    if n >= 10 {
        assert(decimal(n).drop_last() =~= decimal(n / 10));
    }
}

/// Different numbers have different decimal texts.
pub proof fn decimals_are_told_apart(a: nat, b: nat)
    requires
        decimal(a) == decimal(b),
    ensures
        a == b,
    decreases a,
{
    decimals_end_with_their_ones(a);
    decimals_end_with_their_ones(b);
    assert(a % 10 == b % 10);
    if a >= 10 {
        if b < 10 {
            decimals_end_with_their_ones(a / 10);
            assert(decimal(a).len() == decimal(a / 10).len() + 1);
        } else {
            decimals_are_told_apart(a / 10, b / 10);
        }
    } else if b >= 10 {
        decimals_end_with_their_ones(b / 10);
        assert(decimal(b).len() == decimal(b / 10).len() + 1);
    }
}

/// An optional text is there with its characters, or is not there.
pub proof fn optional_texts_are_their_texts(text: String, a: Option<String>, b: Option<String>)
    ensures
        optional_text(Some(text)) == Some(text@),
        optional_text(None) is None,
        optional_text(a) == optional_text(b) <==> match (a, b) {
            (Some(x), Some(y)) => x@ == y@,
            (None, None) => true,
            _ => false,
        },
{
}

/// Texts are taken one by one, in their order.
pub proof fn texts_are_taken_in_order(list: Seq<String>)
    ensures
        texts(list).len() == list.len(),
        forall|i: int| 0 <= i < list.len() ==> (#[trigger] texts(list)[i]) == list[i]@,
{
}

proof fn lemma_trimmed_front(text: Seq<char>)
    ensures
        trimmed_front(text).len() <= text.len(),
        trimmed_front(text) == text.skip(text.len() - trimmed_front(text).len()),
        forall|i: int|
            0 <= i < text.len() - trimmed_front(text).len() ==> is_white_space(#[trigger] text[i]),
        trimmed_front(text).len() > 0 ==> !is_white_space(trimmed_front(text)[0]),
    decreases text.len(),
{
    if text.len() > 0 && is_white_space(text[0]) {
        let rest = text.skip(1);
        lemma_trimmed_front(rest);
        let cut = rest.len() - trimmed_front(rest).len();
        assert(rest.skip(cut) =~= text.skip(cut + 1));
        assert forall|i: int| 0 <= i < cut + 1 implies is_white_space(#[trigger] text[i]) by {
            if i > 0 {
                assert(rest[i - 1] == text[i]);
            }
        }
    } else {
        assert(text.skip(0) =~= text);
    }
}

proof fn lemma_trimmed_back(text: Seq<char>)
    ensures
        trimmed_back(text).len() <= text.len(),
        trimmed_back(text) == text.take(trimmed_back(text).len() as int),
        forall|i: int|
            trimmed_back(text).len() <= i < text.len() ==> is_white_space(#[trigger] text[i]),
        trimmed_back(text).len() > 0 ==> !is_white_space(trimmed_back(text).last()),
    decreases text.len(),
{
    if text.len() > 0 && is_white_space(text.last()) {
        let rest = text.drop_last();
        lemma_trimmed_back(rest);
        let kept = trimmed_back(rest).len() as int;
        assert(rest.take(kept) =~= text.take(kept));
        assert forall|i: int| kept <= i < text.len() implies is_white_space(#[trigger] text[i]) by {
            if i < rest.len() {
                assert(rest[i] == text[i]);
            }
        }
    } else {
        assert(text.take(text.len() as int) =~= text);
    }
}

/// A trimmed text is a part of the text that neither begins nor ends with white space, and nothing
/// but white space is left out before and behind it.
pub proof fn trimming_takes_white_space_alone(text: Seq<char>)
    ensures
        trimmed(text).len() > 0 ==> !is_white_space(trimmed(text)[0]) && !is_white_space(
            trimmed(text).last(),
        ),
        exists|from: int, to: int|
            0 <= from <= to <= text.len() && trimmed(text) == #[trigger] text.subrange(from, to)
                && (forall|i: int| 0 <= i < from ==> is_white_space(#[trigger] text[i])) && (forall|
                i: int,
            |
                to <= i < text.len() ==> is_white_space(#[trigger] text[i])),
{
    let front = trimmed_front(text);
    lemma_trimmed_front(text);
    lemma_trimmed_back(front);
    let from = text.len() - front.len();
    let to = from + trimmed(text).len();
    assert(trimmed(text) =~= text.subrange(from, to));
    assert forall|i: int| to <= i < text.len() implies is_white_space(#[trigger] text[i]) by {
        assert(front[i - from] == text[i]);
    }
    if trimmed(text).len() > 0 {
        assert(trimmed(text)[0] == front[0]);
    }
}

/// Letters are made small one by one, and nothing else is changed.
pub proof fn lowering_changes_capitals_alone(text: Seq<char>, i: int)
    requires
        0 <= i < text.len(),
    ensures
        ascii_lowered(text).len() == text.len(),
        'A' <= text[i] <= 'Z' ==> ascii_lowered(text)[i] as nat == text[i] as nat + 32,
        !('A' <= text[i] <= 'Z') ==> ascii_lowered(text)[i] == text[i],
{
}

/// A part occurs in a text exactly where the text is something, the part, and something.
pub proof fn parts_occur_where_they_stand(before: Seq<char>, part: Seq<char>, after: Seq<char>)
    ensures
        occurs_in(part, before + part + after),
        occurs_in(Seq::empty(), before),
        part.len() > before.len() ==> !occurs_in(part, before),
{
    let text = before + part + after;
    let at = before.len() as int;
    assert(text.subrange(at, at + part.len()) =~= part);
    assert(before.subrange(0int, 0int + Seq::<char>::empty().len()) =~= Seq::<char>::empty());
}

} // verus!
