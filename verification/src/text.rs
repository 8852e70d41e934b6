//! Text helpers: optional text on the wire, lists of names, decimal numerals.

use vstd::prelude::*;

verus! {

/// `<String as From<&str>>::from`: the string holds the characters of the slice.
pub assume_specification<'a, 'b>[ <std::string::String as From<&'a str>>::from ](
    s: &'b str,
) -> (res: std::string::String)
    ensures
        res@ == s@,
;

/// `<T as From<T>>::from`, the conversion of a type into itself: the argument, unchanged.
pub assume_specification<T>[ <T as From<T>>::from ](t: T) -> (res: T)
    ensures
        res == t,
;

/// The characters an optional text has on the wire, where empty text stands for none.
pub open spec fn wire_text(text: Option<Seq<char>>) -> Seq<char> {
    match text {
        Some(t) => t,
        None => Seq::empty(),
    }
}

/// The optional text that characters on the wire stand for.
pub open spec fn optional_text(wire: Seq<char>) -> Option<Seq<char>> {
    if wire.len() == 0 {
        None
    } else {
        Some(wire)
    }
}

/// The characters of an optional string.
pub open spec fn chars_of(text: Option<String>) -> Option<Seq<char>> {
    match text {
        Some(t) => Some(t@),
        None => None,
    }
}

/// The characters of an optional string slice.
pub open spec fn str_chars_of(text: Option<&str>) -> Option<Seq<char>> {
    match text {
        Some(t) => Some(t@),
        None => None,
    }
}

/// The text, or empty text where there is none.
pub fn text_or_empty(text: &Option<String>) -> (r: String)
    ensures
        r@ == wire_text(chars_of(*text)),
{
    match text {
        Some(t) => t.clone(),
        None => String::new(),
    }
}

/// The text, or empty text where there is none.
pub fn str_or_empty(text: Option<&str>) -> (r: String)
    ensures
        r@ == wire_text(str_chars_of(text)),
{
    match text {
        Some(t) => t.to_string(),
        None => String::new(),
    }
}

/// The text that came over the wire, or none where it is empty.
pub open spec fn present(text: String) -> Option<String> {
    if text@.len() == 0 {
        None
    } else {
        Some(text)
    }
}

/// The text, or none where it is empty.
pub fn non_empty(text: String) -> (r: Option<String>)
    ensures
        r == present(text),
{
    if text.as_str().is_empty() {
        None
    } else {
        Some(text)
    }
}

/// What is written as optional text is read back, unless it was present but empty.
pub proof fn law_optional_text_round_trip(text: Option<Seq<char>>)
    requires
        text != Some(Seq::<char>::empty()),
    ensures
        optional_text(wire_text(text)) == text,
{
    if let Some(t) = text {
        if t.len() == 0 {
            assert(t =~= Seq::<char>::empty());
        }
    }
}

/// The characters of each name of a list.
pub open spec fn names_of(names: Seq<&str>) -> Seq<Seq<char>> {
    names.map_values(|n: &str| n@)
}

/// The characters of each string of a list.
pub open spec fn texts_of(texts: Seq<String>) -> Seq<Seq<char>> {
    texts.map_values(|t: String| t@)
}

/// A list of names, owned.
pub fn owned_names(names: &[&str]) -> (r: Vec<String>)
    ensures
        texts_of(r@) == names_of(names@),
{
    let mut r: Vec<String> = Vec::new();
    let mut i: usize = 0;
    while i < names.len()
        invariant
            i <= names.len(),
            r@.len() == i,
            forall|j: int| 0 <= j < i ==> (#[trigger] r@[j])@ == names@[j]@,
        decreases names.len() - i,
    {
        r.push(names[i].to_string());
        i += 1;
    }
    assert(texts_of(r@) =~= names_of(names@));
    r
}

/// Where a list of strings has the texts of a list of names, it has as many, and each string has
/// the characters of the name in its place.
pub proof fn lemma_same_names(texts: Seq<String>, names: Seq<&str>)
    requires
        texts_of(texts) == names_of(names),
    ensures
        texts.len() == names.len(),
        forall|i: int| 0 <= i < names.len() ==> (#[trigger] texts[i])@ == names[i]@,
{
    assert(texts_of(texts).len() == texts.len());
    assert(names_of(names).len() == names.len());
    assert forall|i: int| 0 <= i < names.len() implies (#[trigger] texts[i])@ == names[i]@ by {
        assert(texts_of(texts)[i] == names_of(names)[i]);
    }
}

/// The decimal digit of value `d`.
pub open spec fn digit(d: nat) -> char
    recommends
        d < 10,
{
    (('0' as nat) + d) as char
}

/// The decimal numeral of a number, without leading zeros.
pub open spec fn decimal(n: nat) -> Seq<char>
    decreases n,
{
    if n < 10 {
        seq![digit(n)]
    } else {
        decimal(n / 10).push(digit(n % 10))
    }
}

fn digit_text(d: u64) -> (r: &'static str)
    requires
        d < 10,
    ensures
        r@ == seq![digit(d as nat)],
{
    proof {
        reveal_strlit("0");
        reveal_strlit("1");
        reveal_strlit("2");
        reveal_strlit("3");
        reveal_strlit("4");
        reveal_strlit("5");
        reveal_strlit("6");
        reveal_strlit("7");
        reveal_strlit("8");
        reveal_strlit("9");
    }
    let r: &'static str = match d {
        0 => "0",
        1 => "1",
        2 => "2",
        3 => "3",
        4 => "4",
        5 => "5",
        6 => "6",
        7 => "7",
        8 => "8",
        _ => "9",
    };
    assert(r@ =~= seq![digit(d as nat)]);
    r
}

fn append_decimal(text: &mut String, n: u64)
    ensures
        final(text)@ == old(text)@ + decimal(n as nat),
    decreases n,
{
    if n >= 10 {
        append_decimal(text, n / 10);
    }
    text.append(digit_text(n % 10));
    assert(text@ =~= old(text)@ + decimal(n as nat));
}

/// The decimal numeral of a number.
pub fn decimal_text(n: u64) -> (r: String)
    ensures
        r@ == decimal(n as nat),
{
    let mut text = String::new();
    append_decimal(&mut text, n);
    assert(text@ =~= decimal(n as nat));
    text
}

/// Different numbers have different numerals.
pub proof fn law_decimal_injective(a: nat, b: nat)
    requires
        decimal(a) == decimal(b),
    ensures
        a == b,
    decreases a,
{
    assert(decimal(a).last() == digit(a % 10));
    assert(decimal(b).last() == digit(b % 10));
    lemma_decimal_len(a);
    lemma_decimal_len(b);
    if a >= 10 && b >= 10 {
        assert(decimal(a / 10) =~= decimal(a).drop_last());
        assert(decimal(b / 10) =~= decimal(b).drop_last());
        law_decimal_injective(a / 10, b / 10);
    }
}

proof fn lemma_decimal_len(n: nat)
    ensures
        decimal(n).len() >= 1,
        n >= 10 ==> decimal(n).len() >= 2,
    decreases n,
{
    if n >= 10 {
        lemma_decimal_len(n / 10);
    }
}

/// Optional text goes on the wire as it is, and none as no characters at all.
pub proof fn law_optional_text_goes_as_it_is(
    owned: Option<String>,
    a: String,
    borrowed: Option<&str>,
    b: String,
)
    requires
        call_ensures(text_or_empty, (&owned,), a),
        call_ensures(str_or_empty, (borrowed,), b),
    ensures
        owned is None ==> a@.len() == 0,
        owned matches Some(t) ==> a@ == t@,
        borrowed is None ==> b@.len() == 0,
        borrowed matches Some(t) ==> b@ == t@,
{
}

/// Text from the wire is none exactly where it has no characters, and itself otherwise.
pub proof fn law_empty_text_is_none(text: String, r: Option<String>)
    requires
        call_ensures(non_empty, (text,), r),
    ensures
        r is None <==> text@.len() == 0,
        r is Some ==> r == Some(text),
{
}

/// A list of names is owned name by name, in order.
pub proof fn law_each_name_is_owned(names: &[&str], r: Vec<String>, i: int)
    requires
        call_ensures(owned_names, (names,), r),
    ensures
        r@.len() == names@.len(),
        0 <= i < names@.len() ==> r@[i]@ == names@[i]@,
{
    lemma_same_names(r@, names@);
}

/// The number that decimal digits stand for, the last of them the lowest.
pub open spec fn numeral_value(digits: Seq<char>) -> int
    decreases digits.len(),
{
    if digits.len() == 0 {
        0
    } else {
        10 * numeral_value(digits.drop_last()) + (digits.last() as int - '0' as int)
    }
}

/// The numeral of a number is made of decimal digits, has no leading zero, and stands for that
/// number.
pub proof fn law_numeral_stands_for_its_number(n: u64, r: String)
    requires
        call_ensures(decimal_text, (n,), r),
    ensures
        numeral_value(r@) == n,
        r@.len() >= 1,
        forall|i: int| 0 <= i < r@.len() ==> '0' <= #[trigger] r@[i] <= '9',
        r@.len() > 1 ==> r@[0] != '0',
{
    lemma_numeral(n as nat);
}

/// The numeral of a number, digit by digit.
pub proof fn lemma_numeral(n: nat)
    ensures
        numeral_value(decimal(n)) == n,
        decimal(n).len() >= 1,
        forall|i: int| 0 <= i < decimal(n).len() ==> '0' <= #[trigger] decimal(n)[i] <= '9',
        n > 0 ==> decimal(n)[0] != '0',
        n == 0 ==> decimal(n).len() == 1,
    decreases n,
{
    let s = decimal(n);
    if n < 10 {
        assert(s.drop_last() =~= Seq::empty());
        assert(numeral_value(s.drop_last()) == 0);
    } else {
        lemma_numeral(n / 10);
        assert(s.drop_last() =~= decimal(n / 10));
        assert(s.last() == digit(n % 10));
        assert forall|i: int| 0 <= i < s.len() implies '0' <= #[trigger] s[i] <= '9' by {
            if i < s.len() - 1 {
                assert(s[i] == decimal(n / 10)[i]);
            }
        }
        assert(s[0] == decimal(n / 10)[0]);
    }
}

} // verus!
