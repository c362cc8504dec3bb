//! Text helpers shared by the engine: comparing string slices, joining
//! dotted names and writing numbers in decimal.

use vstd::prelude::*;

verus! {

/// Whether two string slices hold the same characters.
pub fn str_eq(a: &str, b: &str) -> (same: bool)
    ensures
        same == (a@ == b@),
{
    let left = a.to_owned();
    let right = b.to_owned();
    left == right
}

/// The character that writes the decimal digit `d`.
pub open spec fn digit_char(d: int) -> char
    recommends
        0 <= d <= 9,
{
    if d == 0 {
        '0'
    } else if d == 1 {
        '1'
    } else if d == 2 {
        '2'
    } else if d == 3 {
        '3'
    } else if d == 4 {
        '4'
    } else if d == 5 {
        '5'
    } else if d == 6 {
        '6'
    } else if d == 7 {
        '7'
    } else if d == 8 {
        '8'
    } else {
        '9'
    }
}

/// The decimal notation of `n`, without leading zeros (`0` is written "0").
pub open spec fn decimal(n: nat) -> Seq<char>
    decreases n,
{
    if n < 10 {
        seq![digit_char(n as int)]
    } else {
        decimal(n / 10).push(digit_char((n % 10) as int))
    }
}

fn digit_str(d: usize) -> (s: &'static str)
    requires
        d <= 9,
    ensures
        s@ == seq![digit_char(d as int)],
{
    proof {
        reveal_strlit("0");
        reveal_strlit("1");
        reveal_strlit("2");
        reveal_strlit("3");
        reveal_strlit("4");
        reveal_strlit("5");
        reveal_strlit("6");
        reveal_strlit("7");
        reveal_strlit("8");
        reveal_strlit("9");
    }
    let s = if d == 0 {
        "0"
    } else if d == 1 {
        "1"
    } else if d == 2 {
        "2"
    } else if d == 3 {
        "3"
    } else if d == 4 {
        "4"
    } else if d == 5 {
        "5"
    } else if d == 6 {
        "6"
    } else if d == 7 {
        "7"
    } else if d == 8 {
        "8"
    } else {
        "9"
    };
    assert(s@ =~= seq![digit_char(d as int)]);
    s
}

/// Writes `n` in decimal.
pub fn u64_to_string(n: u64) -> (s: String)
    ensures
        s@ == decimal(n as nat),
    decreases n,
{
    if n < 10 {
        String::from_str(digit_str(n as usize))
    } else {
        let mut s = u64_to_string(n / 10);
        s.append(digit_str((n % 10) as usize));
        assert(s@ =~= decimal(n as nat));
        s
    }
}

/// Writes `n` in decimal.
pub fn usize_to_string(n: usize) -> (s: String)
    ensures
        s@ == decimal(n as nat),
{
    u64_to_string(n as u64)
}

/// The texts of `parts` written one after another with `separator` between
/// each two of them.
pub open spec fn joined(parts: Seq<Seq<char>>, separator: Seq<char>) -> Seq<char>
    decreases parts.len(),
{
    if parts.len() == 0 {
        Seq::empty()
    } else if parts.len() == 1 {
        parts[0]
    } else {
        joined(parts.drop_last(), separator) + separator + parts.last()
    }
}

/// Joins `parts` with `separator` between each two of them.
pub fn join(parts: &Vec<String>, separator: &str) -> (text: String)
    ensures
        text@ == joined(parts.deep_view(), separator@),
{
    let mut text = String::new();
    let mut i: usize = 0;
    while i < parts.len()
        invariant
            i <= parts@.len(),
            text@ == joined(parts.deep_view().take(i as int), separator@),
        decreases parts@.len() - i,
    {
        let ghost before = parts.deep_view().take(i as int);
        let ghost after = parts.deep_view().take(i + 1);
        proof {
            assert(after.drop_last() =~= before);
            assert(after.last() == parts@[i as int]@);
        }
        if i > 0 {
            text.append(separator);
        }
        text.append(parts[i].as_str());
        proof {
            if i == 0 {
                assert(before =~= Seq::<Seq<char>>::empty());
                assert(text@ =~= after[0]);
            }
        }
        i += 1;
    }
    assert(parts.deep_view().take(i as int) =~= parts.deep_view());
    text
}

/// The text `a` followed by the text `b`.
pub fn concat(a: &str, b: &str) -> (text: String)
    ensures
        text@ == a@ + b@,
{
    let mut text = String::from_str(a);
    text.append(b);
    text
}

/// The text `a` followed by `b` and then by `c`.
pub fn concat3(a: &str, b: &str, c: &str) -> (text: String)
    ensures
        text@ == a@ + b@ + c@,
{
    let mut text = String::from_str(a);
    text.append(b);
    text.append(c);
    text
}

/// A copy of a list of texts.
pub fn clone_strings(texts: &Vec<String>) -> (copy: Vec<String>)
    ensures
        copy.deep_view() == texts.deep_view(),
{
    let mut copy: Vec<String> = Vec::new();
    let mut i: usize = 0;
    while i < texts.len()
        invariant
            i <= texts@.len(),
            copy@.len() == i,
            forall|j: int| 0 <= j < i ==> copy@[j]@ == texts@[j]@,
        decreases texts@.len() - i,
    {
        copy.push(texts[i].clone());
        i += 1;
    }
    assert(copy.deep_view() =~= texts.deep_view());
    copy
}

/// Whether `name` stands at index `i` of `names` and nowhere before it.
pub open spec fn is_first_at(names: Seq<Seq<char>>, name: Seq<char>, i: int) -> bool {
    &&& 0 <= i < names.len()
    &&& names[i] == name
    &&& forall|j: int| 0 <= j < i ==> names[j] != name
}

/// The index at which `name` first stands in `names`, if it does.
pub open spec fn position(names: Seq<Seq<char>>, name: Seq<char>) -> Option<int> {
    if exists|i: int| is_first_at(names, name, i) {
        Some(choose|i: int| is_first_at(names, name, i))
    } else {
        None
    }
}

/// A name that first stands at `i` has the position `i`.
pub proof fn lemma_position_found(names: Seq<Seq<char>>, name: Seq<char>, i: int)
    requires
        is_first_at(names, name, i),
    ensures
        position(names, name) == Some(i),
{
    let chosen = choose|k: int| is_first_at(names, name, k);
    assert(is_first_at(names, name, chosen));
    if chosen < i {
        assert(names[chosen] != name);
    }
    if i < chosen {
        assert(names[i] != name);
    }
}

/// A name that stands nowhere has no position.
pub proof fn lemma_position_missing(names: Seq<Seq<char>>, name: Seq<char>)
    requires
        forall|j: int| 0 <= j < names.len() ==> names[j] != name,
    ensures
        position(names, name) is None,
{
}

/// A position is an index at which the name stands, and the first such.
pub proof fn lemma_position_is_first(names: Seq<Seq<char>>, name: Seq<char>)
    ensures
        position(names, name) matches Some(i) ==> is_first_at(names, name, i),
        position(names, name) is None ==> forall|j: int|
            0 <= j < names.len() ==> names[j] != name,
{
    if position(names, name) is None {
        assert forall|j: int| 0 <= j < names.len() implies names[j] != name by {
            if names[j] == name {
                lemma_first_occurrence(names, name, j);
            }
        }
    }
}

/// A name that stands at `j` first stands at some index up to `j`.
pub proof fn lemma_first_occurrence(names: Seq<Seq<char>>, name: Seq<char>, j: int)
    requires
        0 <= j < names.len(),
        names[j] == name,
    ensures
        exists|i: int| is_first_at(names, name, i) && i <= j,
    decreases j,
{
    if exists|k: int| 0 <= k < j && names[k] == name {
        let k = choose|k: int| 0 <= k < j && names[k] == name;
        lemma_first_occurrence(names, name, k);
    } else {
        assert(is_first_at(names, name, j));
    }
}

/// Whether `code` is the code of one of the digits `0` to `9`.
pub open spec fn is_digit_code(code: int) -> bool {
    48 <= code <= 57
}

/// Whether `codes` writes a number: at least one digit, and digits only.
pub open spec fn is_number(codes: Seq<int>) -> bool {
    &&& codes.len() >= 1
    &&& forall|i: int| 0 <= i < codes.len() ==> is_digit_code(#[trigger] codes[i])
}

/// The number that the digits `codes` write in decimal.
pub open spec fn number_value(codes: Seq<int>) -> nat
    decreases codes.len(),
{
    if codes.len() == 0 {
        0
    } else {
        number_value(codes.drop_last()) * 10 + (codes.last() - 48) as nat
    }
}

/// The codes of the bytes from index `from` on; none where there are not
/// that many bytes.
pub open spec fn byte_codes(bytes: Seq<u8>, from: int) -> Seq<int> {
    if 0 <= from <= bytes.len() {
        Seq::new((bytes.len() - from) as nat, |i: int| bytes[from + i] as int)
    } else {
        Seq::empty()
    }
}

/// The codes of the characters from index `from` on; none where there are
/// not that many characters.
pub open spec fn char_codes(chars: Seq<char>, from: int) -> Seq<int> {
    if 0 <= from <= chars.len() {
        Seq::new((chars.len() - from) as nat, |i: int| chars[from + i] as int)
    } else {
        Seq::empty()
    }
}

/// What reading a number against a limit gives.
#[derive(Clone, Copy, Debug, PartialEq, Eq, Structural)]
pub enum Decimal {
    /// The text is no number.
    Invalid,
    /// The number, which is at most the limit.
    Within(u64),
    /// The text is a number above the limit.
    Above,
}

/// Whether `read` is what reading `codes` against `limit` gives.
pub open spec fn reads_as(codes: Seq<int>, limit: u64, read: Decimal) -> bool {
    match read {
        Decimal::Invalid => !is_number(codes),
        Decimal::Within(value) => is_number(codes) && number_value(codes) == value && value
            <= limit,
        Decimal::Above => is_number(codes) && number_value(codes) > limit,
    }
}

/// A number so far, or the knowledge that it is above the limit.
struct Reading {
    value: u64,
    above: bool,
}

impl Reading {
    spec fn holds(self, codes: Seq<int>, limit: u64) -> bool {
        if self.above {
            number_value(codes) > limit
        } else {
            number_value(codes) == self.value && self.value <= limit
        }
    }

    /// The reading after one more digit.
    fn push(self, digit: u64, limit: u64, Ghost(codes): Ghost<Seq<int>>) -> (next: Reading)
        requires
            digit <= 9,
            codes.len() >= 1,
            codes.last() == 48 + digit,
            self.holds(codes.drop_last(), limit),
        ensures
            next.holds(codes, limit),
    {
        if self.above || self.value > limit / 10 {
            Reading { value: 0, above: true }
        } else if digit > limit - self.value * 10 {
            Reading { value: 0, above: true }
        } else {
            Reading { value: self.value * 10 + digit, above: false }
        }
    }
}

/// Reads the number that the bytes from index `from` on write in decimal.
pub fn read_number_bytes(bytes: &[u8], from: usize, limit: u64) -> (read: Decimal)
    ensures
        reads_as(byte_codes(bytes@, from as int), limit, read),
{
    let ghost codes = byte_codes(bytes@, from as int);
    if from >= bytes.len() {
        return Decimal::Invalid;
    }
    let mut reading = Reading { value: 0, above: false };
    let mut i: usize = from;
    assert(codes.take(0) =~= Seq::empty());
    while i < bytes.len()
        invariant
            from <= i <= bytes@.len(),
            codes == byte_codes(bytes@, from as int),
            forall|k: int| 0 <= k < i - from ==> is_digit_code(#[trigger] codes[k]),
            reading.holds(codes.take(i - from), limit),
        decreases bytes@.len() - i,
    {
        let b = bytes[i];
        if b < 48 || b > 57 {
            assert(!is_digit_code(codes[i - from]));
            return Decimal::Invalid;
        }
        proof {
            assert(codes.take(i - from + 1).drop_last() =~= codes.take(i - from));
            assert(codes.take(i - from + 1).last() == b as int);
        }
        reading = reading.push((b - 48) as u64, limit, Ghost(codes.take(i - from + 1)));
        i += 1;
    }
    assert(codes.take(i - from) =~= codes);
    if reading.above {
        Decimal::Above
    } else {
        Decimal::Within(reading.value)
    }
}

/// Reads the number that the characters from index `from` on write in
/// decimal.
pub fn read_number_chars(text: &str, from: usize, limit: u64) -> (read: Decimal)
    ensures
        reads_as(char_codes(text@, from as int), limit, read),
{
    let ghost codes = char_codes(text@, from as int);
    let len = text.unicode_len();
    if from >= len {
        return Decimal::Invalid;
    }
    let mut reading = Reading { value: 0, above: false };
    let mut i: usize = from;
    assert(codes.take(0) =~= Seq::empty());
    while i < len
        invariant
            from <= i <= len,
            len == text@.len(),
            codes == char_codes(text@, from as int),
            forall|k: int| 0 <= k < i - from ==> is_digit_code(#[trigger] codes[k]),
            reading.holds(codes.take(i - from), limit),
        decreases len - i,
    {
        let c = text.get_char(i);
        if c < '0' || c > '9' {
            assert(!is_digit_code(codes[i - from]));
            return Decimal::Invalid;
        }
        proof {
            assert(codes.take(i - from + 1).drop_last() =~= codes.take(i - from));
            assert(codes.take(i - from + 1).last() == c as int);
        }
        reading = reading.push((c as u32 - 48) as u64, limit, Ghost(codes.take(i - from + 1)));
        i += 1;
    }
    assert(codes.take(i - from) =~= codes);
    if reading.above {
        Decimal::Above
    } else {
        Decimal::Within(reading.value)
    }
}

/// A copy of a list of rows.
pub fn clone_rows(rows: &Vec<Vec<String>>) -> (copy: Vec<Vec<String>>)
    ensures
        copy.deep_view() == rows.deep_view(),
{
    let mut copy: Vec<Vec<String>> = Vec::new();
    let mut i: usize = 0;
    while i < rows.len()
        invariant
            i <= rows@.len(),
            copy@.len() == i,
            forall|j: int| 0 <= j < i ==> copy@[j].deep_view() == rows@[j].deep_view(),
        decreases rows@.len() - i,
    {
        copy.push(clone_strings(&rows[i]));
        i += 1;
    }
    assert(copy.deep_view() =~= rows.deep_view());
    copy
}

} // verus!
