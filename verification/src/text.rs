//! Small pieces of text handling that the probes and messages share.

use vstd::prelude::*;
use vstd::string::StrSliceExecFns;
use vstd::string::StringExecFns;
use vstd::string::StringSliceAdditionalSpecFns;

verus! {

/// The ten decimal digits in order.
pub open spec fn digits() -> Seq<char> {
    "0123456789"@
}

/// The decimal notation of a number, without sign or leading zeros.
pub open spec fn decimal(n: nat) -> Seq<char>
    decreases n,
{
    if n < 10 {
        seq![digits()[n as int]]
    } else {
        decimal(n / 10).push(digits()[(n % 10) as int])
    }
}

/// The digit of a value below ten, as a piece of text.
fn digit_text(d: u64) -> (text: &'static str)
    requires
        d < 10,
    ensures
        text@ == seq![digits()[d as int]],
{
    let all: &'static str = "0123456789";
    proof {
        reveal_strlit("0123456789");
    }
    let start = d as usize;
    let piece = all.substring_ascii(start, start + 1);
    assert(piece@ =~= seq![digits()[d as int]]);
    piece
}

/// Writes a number in decimal.
pub fn to_decimal(n: u64) -> (text: String)
    ensures
        text@ == decimal(n as nat),
    decreases n,
{
    if n < 10 {
        String::from_str(digit_text(n))
    } else {
        let mut text = to_decimal(n / 10);
        text.append(digit_text(n % 10));
        text
    }
}

/// Whether a byte is ASCII white space.
pub open spec fn is_space(byte: u8) -> bool {
    byte == 0x20 || (0x09 <= byte && byte <= 0x0d)
}

/// An ASCII capital letter as its small letter; any other byte as it is.
pub open spec fn lower_byte(byte: u8) -> u8 {
    if 0x41 <= byte && byte <= 0x5a {
        (byte + 0x20) as u8
    } else {
        byte
    }
}

/// The bytes with every ASCII capital letter made small.
pub open spec fn lowercase(bytes: Seq<u8>) -> Seq<u8> {
    Seq::new(bytes.len(), |i: int| lower_byte(bytes[i]))
}

/// Whether `needle` occurs in `hay` as a run of adjacent bytes. The empty
/// run occurs in everything.
pub open spec fn occurs_in(needle: Seq<u8>, hay: Seq<u8>) -> bool {
    exists|k: int| occurs_at(needle, hay, k)
}

/// Whether `needle` stands in `hay` at position `k`.
pub open spec fn occurs_at(needle: Seq<u8>, hay: Seq<u8>, k: int) -> bool {
    0 <= k && k + needle.len() <= hay.len() && hay.subrange(k, k + needle.len()) == needle
}

/// The pieces of `bytes` between line feeds. A line feed ends a line; what
/// stands behind the last one is a line too, unless it is empty.
pub open spec fn lines_of(bytes: Seq<u8>) -> Seq<Seq<u8>>
    decreases bytes.len(),
{
    if bytes.len() == 0 {
        Seq::empty()
    } else {
        let before = bytes.drop_last();
        let open = before.len() > 0 && before.last() != 0x0a;
        let lines = lines_of(before);
        if bytes.last() == 0x0a {
            if open {
                lines
            } else {
                lines.push(Seq::empty())
            }
        } else if open && lines.len() > 0 {
            lines.drop_last().push(lines.last().push(bytes.last()))
        } else {
            lines.push(seq![bytes.last()])
        }
    }
}

/// The runs of bytes other than white space in `bytes`, in order.
pub open spec fn fields_of(bytes: Seq<u8>) -> Seq<Seq<u8>>
    decreases bytes.len(),
{
    if bytes.len() == 0 {
        Seq::empty()
    } else {
        let before = bytes.drop_last();
        let open = before.len() > 0 && !is_space(before.last());
        let fields = fields_of(before);
        if is_space(bytes.last()) {
            fields
        } else if open && fields.len() > 0 {
            fields.drop_last().push(fields.last().push(bytes.last()))
        } else {
            fields.push(seq![bytes.last()])
        }
    }
}

/// `bytes` without the white space at its front.
pub open spec fn strip_front(bytes: Seq<u8>) -> Seq<u8>
    decreases bytes.len(),
{
    if bytes.len() > 0 && is_space(bytes[0]) {
        strip_front(bytes.drop_first())
    } else {
        bytes
    }
}

/// `bytes` without the white space at its end.
pub open spec fn strip_back(bytes: Seq<u8>) -> Seq<u8>
    decreases bytes.len(),
{
    if bytes.len() > 0 && is_space(bytes.last()) {
        strip_back(bytes.drop_last())
    } else {
        bytes
    }
}

/// `bytes` without the white space at either end.
pub open spec fn trimmed(bytes: Seq<u8>) -> Seq<u8> {
    strip_back(strip_front(bytes))
}

/// Whether every byte is a decimal digit.
pub open spec fn all_digits(bytes: Seq<u8>) -> bool {
    forall|i: int| 0 <= i < bytes.len() ==> 0x30 <= #[trigger] bytes[i] <= 0x39
}

/// The number that decimal digits stand for.
pub open spec fn digits_value(bytes: Seq<u8>) -> nat
    decreases bytes.len(),
{
    if bytes.len() == 0 {
        0
    } else {
        digits_value(bytes.drop_last()) * 10 + (bytes.last() - 0x30) as nat
    }
}

/// What a text stands for as an unsigned number: its digits, with a plus
/// sign in front if it has one. Text with no digit, or with anything else
/// in it, stands for no number.
pub open spec fn unsigned_value(bytes: Seq<u8>) -> Option<nat> {
    let digits = if bytes.len() > 0 && bytes[0] == 0x2b {
        bytes.drop_first()
    } else {
        bytes
    };
    if digits.len() > 0 && all_digits(digits) {
        Some(digits_value(digits))
    } else {
        None
    }
}

pub fn is_space_byte(byte: u8) -> (space: bool)
    ensures
        space == is_space(byte),
{
    byte == 0x20 || (0x09 <= byte && byte <= 0x0d)
}

pub fn to_lower_byte(byte: u8) -> (lower: u8)
    ensures
        lower == lower_byte(byte),
{
    if 0x41 <= byte && byte <= 0x5a {
        byte + 0x20
    } else {
        byte
    }
}

/// Whether `text` is `word` once its ASCII capital letters are made small.
pub fn equals_ignoring_case(text: &[u8], word: &[u8]) -> (equal: bool)
    ensures
        equal == (lowercase(text@) == word@),
{
    if text.len() != word.len() {
        return false;
    }
    let mut i: usize = 0;
    while i < text.len()
        invariant
            text@.len() == word@.len(),
            i <= text@.len(),
            forall|j: int| 0 <= j < i ==> lower_byte(text@[j]) == word@[j],
        decreases text@.len() - i,
    {
        if to_lower_byte(text[i]) != word[i] {
            assert(lowercase(text@)[i as int] != word@[i as int]);
            return false;
        }
        i += 1;
    }
    assert(lowercase(text@) =~= word@);
    true
}

/// Whether `needle` stands in `hay` at position `k`.
fn matches_at(needle: &[u8], hay: &[u8], k: usize) -> (found: bool)
    requires
        k + needle@.len() <= hay@.len(),
    ensures
        found == occurs_at(needle@, hay@, k as int),
{
    let size = hay.len();
    let mut i: usize = 0;
    while i < needle.len()
        invariant
            size == hay@.len(),
            k + needle@.len() <= hay@.len(),
            i <= needle@.len(),
            forall|j: int| 0 <= j < i ==> hay@[k + j] == needle@[j],
        decreases needle@.len() - i,
    {
        if hay[k + i] != needle[i] {
            assert(hay@.subrange(k as int, k + needle@.len())[i as int] != needle@[i as int]);
            return false;
        }
        i += 1;
    }
    assert(hay@.subrange(k as int, k + needle@.len()) =~= needle@);
    true
}

/// Whether `needle` occurs somewhere in `hay`.
pub fn contains_bytes(hay: &[u8], needle: &[u8]) -> (found: bool)
    ensures
        found == occurs_in(needle@, hay@),
{
    if needle.len() > hay.len() {
        assert forall|k: int| !occurs_at(needle@, hay@, k) by {}
        return false;
    }
    if needle.len() == 0 {
        assert(occurs_at(needle@, hay@, 0)) by {
            assert(hay@.subrange(0, 0) =~= needle@);
        }
        return true;
    }
    let last = hay.len() - needle.len();
    let mut k: usize = 0;
    while k <= last
        invariant
            needle@.len() > 0,
            hay@.len() <= usize::MAX,
            last == hay@.len() - needle@.len(),
            k <= last + 1,
            forall|j: int| 0 <= j < k ==> !occurs_at(needle@, hay@, j),
        decreases last + 1 - k,
    {
        if matches_at(needle, hay, k) {
            return true;
        }
        k += 1;
    }
    assert forall|j: int| !occurs_at(needle@, hay@, j) by {}
    false
}

/// The views of the rows of a table of bytes.
pub open spec fn rows(table: Seq<Vec<u8>>) -> Seq<Seq<u8>> {
    Seq::new(table.len(), |i: int| table[i]@)
}

/// Splits text into its lines.
pub fn split_lines(bytes: &[u8]) -> (lines: Vec<Vec<u8>>)
    ensures
        rows(lines@) == lines_of(bytes@),
{
    let mut lines: Vec<Vec<u8>> = Vec::new();
    let mut current: Vec<u8> = Vec::new();
    let mut open = false;
    let mut i: usize = 0;
    assert(bytes@.take(0) =~= Seq::empty());
    while i < bytes.len()
        invariant
            i <= bytes@.len(),
            open == (i > 0 && bytes@[i - 1] != 0x0a),
            !open ==> current@.len() == 0,
            open ==> lines_of(bytes@.take(i as int)) == rows(lines@).push(current@),
            !open ==> lines_of(bytes@.take(i as int)) == rows(lines@),
        decreases bytes@.len() - i,
    {
        let byte = bytes[i];
        let ghost before = bytes@.take(i as int);
        let ghost now = bytes@.take(i + 1);
        assert(now.drop_last() =~= before);
        assert(now.last() == byte);
        if byte == 0x0a {
            if open {
                lines.push(current);
                current = Vec::new();
                assert(rows(lines@) =~= lines_of(now));
            } else {
                lines.push(Vec::new());
                assert(rows(lines@) =~= lines_of(now));
            }
            open = false;
        } else {
            if open {
                let ghost old_current = current@;
                current.push(byte);
                assert(rows(lines@).push(old_current).drop_last() =~= rows(lines@));
                assert(rows(lines@).push(current@) =~= lines_of(now));
            } else {
                current.push(byte);
                assert(current@ =~= seq![byte]);
                assert(rows(lines@).push(current@) =~= lines_of(now));
            }
            open = true;
        }
        i += 1;
    }
    assert(bytes@.take(i as int) =~= bytes@);
    if open {
        let ghost done = rows(lines@).push(current@);
        lines.push(current);
        assert(rows(lines@) =~= done);
    }
    lines
}

/// Splits a line into its fields.
pub fn split_fields(bytes: &[u8]) -> (fields: Vec<Vec<u8>>)
    ensures
        rows(fields@) == fields_of(bytes@),
{
    let mut fields: Vec<Vec<u8>> = Vec::new();
    let mut current: Vec<u8> = Vec::new();
    let mut open = false;
    let mut i: usize = 0;
    assert(bytes@.take(0) =~= Seq::empty());
    while i < bytes.len()
        invariant
            i <= bytes@.len(),
            open == (i > 0 && !is_space(bytes@[i - 1])),
            !open ==> current@.len() == 0,
            open ==> fields_of(bytes@.take(i as int)) == rows(fields@).push(current@),
            !open ==> fields_of(bytes@.take(i as int)) == rows(fields@),
        decreases bytes@.len() - i,
    {
        let byte = bytes[i];
        let ghost before = bytes@.take(i as int);
        let ghost now = bytes@.take(i + 1);
        assert(now.drop_last() =~= before);
        assert(now.last() == byte);
        if is_space_byte(byte) {
            if open {
                push_row(&mut fields, current);
                current = Vec::new();
            }
            assert(rows(fields@) =~= fields_of(now));
            open = false;
        } else {
            if open {
                let ghost old_current = current@;
                current.push(byte);
                assert(rows(fields@).push(old_current).drop_last() =~= rows(fields@));
                assert(rows(fields@).push(current@) =~= fields_of(now));
            } else {
                current.push(byte);
                assert(current@ =~= seq![byte]);
                assert(rows(fields@).push(current@) =~= fields_of(now));
            }
            open = true;
        }
        i += 1;
    }
    assert(bytes@.take(i as int) =~= bytes@);
    if open {
        push_row(&mut fields, current);
    }
    fields
}

fn push_row(table: &mut Vec<Vec<u8>>, row: Vec<u8>)
    ensures
        rows(final(table)@) == rows(old(table)@).push(row@),
{
    let ghost done = rows(table@).push(row@);
    table.push(row);
    assert(rows(table@) =~= done);
}

proof fn lemma_strip_front(bytes: Seq<u8>, start: int)
    requires
        0 <= start <= bytes.len(),
        forall|i: int| 0 <= i < start ==> is_space(bytes[i]),
        start < bytes.len() ==> !is_space(bytes[start]),
    ensures
        strip_front(bytes) == bytes.subrange(start, bytes.len() as int),
    decreases start,
{
    if start == 0 {
        assert(bytes.subrange(0, bytes.len() as int) =~= bytes);
    } else {
        let rest = bytes.drop_first();
        assert forall|i: int| 0 <= i < start - 1 implies is_space(rest[i]) by {
            assert(rest[i] == bytes[i + 1]);
        }
        lemma_strip_front(rest, start - 1);
        assert(rest.subrange(start - 1, rest.len() as int) =~= bytes.subrange(
            start,
            bytes.len() as int,
        ));
    }
}

proof fn lemma_strip_back(bytes: Seq<u8>, end: int)
    requires
        0 <= end <= bytes.len(),
        forall|i: int| end <= i < bytes.len() ==> is_space(bytes[i]),
        end > 0 ==> !is_space(bytes[end - 1]),
    ensures
        strip_back(bytes) == bytes.subrange(0, end),
    decreases bytes.len() - end,
{
    if end == bytes.len() {
        assert(bytes.subrange(0, end) =~= bytes);
    } else {
        let rest = bytes.drop_last();
        lemma_strip_back(rest, end);
        assert(rest.subrange(0, end) =~= bytes.subrange(0, end));
    }
}

proof fn lemma_digits_value_grows(digits: Seq<u8>, count: int)
    requires
        all_digits(digits),
        0 <= count <= digits.len(),
    ensures
        digits_value(digits.take(count)) <= digits_value(digits),
    decreases digits.len(),
{
    if count == digits.len() {
        assert(digits.take(count) =~= digits);
    } else {
        let shorter = digits.drop_last();
        assert(all_digits(shorter)) by {
            assert forall|i: int| 0 <= i < shorter.len() implies 0x30 <= #[trigger] shorter[i]
                <= 0x39 by {
                assert(shorter[i] == digits[i]);
            }
        }
        lemma_digits_value_grows(shorter, count);
        assert(shorter.take(count) =~= digits.take(count));
        assert(digits.last() == digits[digits.len() - 1]);
    }
}

/// Reads the unsigned decimal number that `bytes` holds between white
/// space. There is none where the text holds anything but digits behind an
/// optional plus sign, or holds no digit, or where the number does not fit
/// a `usize`.
pub fn parse_unsigned(bytes: &[u8]) -> (value: Option<usize>)
    ensures
        value == match unsigned_value(trimmed(bytes@)) {
            Some(number) => if number <= usize::MAX {
                Some(number as usize)
            } else {
                None
            },
            None => None,
        },
{
    let size = bytes.len();
    let (start, end) = trim_bounds(bytes);
    let ghost text = bytes@.subrange(start as int, end as int);
    let first = if start < end && bytes[start] == 0x2b {
        start + 1
    } else {
        start
    };
    let ghost digits = bytes@.subrange(first as int, end as int);
    proof {
        if first > start {
            assert(text[0] == 0x2b);
            assert(text.drop_first() =~= digits);
        } else {
            if text.len() > 0 {
                assert(text[0] == bytes@[start as int]);
            }
            assert(text =~= digits);
        }
    }
    if first == end {
        return None;
    }
    assert(unsigned_value(trimmed(bytes@)) == if all_digits(digits) {
        Some(digits_value(digits))
    } else {
        None
    });
    let mut i: usize = first;
    while i < end
        invariant
            unsigned_value(trimmed(bytes@)) == if all_digits(digits) {
                Some(digits_value(digits))
            } else {
                None
            },
            size == bytes@.len(),
            first <= i <= end <= size,
            digits == bytes@.subrange(first as int, end as int),
            forall|j: int| 0 <= j < i - first ==> 0x30 <= #[trigger] digits[j] <= 0x39,
        decreases end - i,
    {
        let byte = bytes[i];
        if byte < 0x30 || byte > 0x39 {
            assert(digits[i - first] == byte);
            assert(!all_digits(digits));
            return None;
        }
        assert(digits[i - first] == byte);
        i += 1;
    }
    assert(all_digits(digits));
    let mut number: usize = 0;
    let mut k: usize = first;
    assert(digits.take(0) =~= Seq::empty());
    while k < end
        invariant
            size == bytes@.len(),
            first <= k <= end <= size,
            digits == bytes@.subrange(first as int, end as int),
            all_digits(digits),
            unsigned_value(trimmed(bytes@)) == Some(digits_value(digits)),
            number == digits_value(digits.take(k - first)),
        decreases end - k,
    {
        assert(digits[k - first] == bytes@[k as int]);
        let digit = (bytes[k] - 0x30) as usize;
        proof {
            assert(digits.take(k - first + 1).drop_last() =~= digits.take(k - first));
            assert(digits.take(k - first + 1).last() == digits[k - first]);
            lemma_digits_value_grows(digits, k - first + 1);
        }
        let grown = match number.checked_mul(10) {
            Some(tens) => tens.checked_add(digit),
            None => None,
        };
        match grown {
            Some(next) => {
                number = next;
            },
            None => {
                return None;
            },
        }
        k += 1;
    }
    assert(digits.take(end - first) =~= digits);
    Some(number)
}

/// Whether `text` begins with `prefix`.
pub open spec fn begins_with(text: Seq<char>, prefix: Seq<char>) -> bool {
    prefix.len() <= text.len() && text.subrange(0, prefix.len() as int) == prefix
}

/// Whether `text` begins with `prefix`, character by character.
pub fn starts_with(text: &str, prefix: &str) -> (begins: bool)
    ensures
        begins == begins_with(text@, prefix@),
{
    let size = prefix.unicode_len();
    if text.unicode_len() < size {
        return false;
    }
    let mut i: usize = 0;
    while i < size
        invariant
            size == prefix@.len(),
            size <= text@.len(),
            i <= size,
            forall|j: int| 0 <= j < i ==> text@[j] == prefix@[j],
        decreases size - i,
    {
        if text.get_char(i) != prefix.get_char(i) {
            assert(text@.subrange(0, size as int)[i as int] != prefix@[i as int]);
            return false;
        }
        i += 1;
    }
    assert(text@.subrange(0, size as int) =~= prefix@);
    true
}

/// Whether two texts hold the same characters.
pub fn same_text(left: &str, right: &str) -> (same: bool)
    ensures
        same == (left@ == right@),
{
    if left.unicode_len() != right.unicode_len() {
        return false;
    }
    let begins = starts_with(left, right);
    assert(left@.subrange(0, right@.len() as int) =~= left@);
    begins
}

/// Where the text of `bytes` begins and ends once the white space at
/// either end is left out.
pub fn trim_bounds(bytes: &[u8]) -> (bounds: (usize, usize))
    ensures
        bounds.0 <= bounds.1 <= bytes@.len(),
        bytes@.subrange(bounds.0 as int, bounds.1 as int) == trimmed(bytes@),
{
    let size = bytes.len();
    let mut start: usize = 0;
    while start < size && is_space_byte(bytes[start])
        invariant
            size == bytes@.len(),
            start <= size,
            forall|i: int| 0 <= i < start ==> is_space(bytes@[i]),
        decreases size - start,
    {
        start += 1;
    }
    let mut end: usize = size;
    while end > start && is_space_byte(bytes[end - 1])
        invariant
            size == bytes@.len(),
            start <= end <= size,
            forall|i: int| end <= i < size ==> is_space(bytes@[i]),
        decreases end,
    {
        end -= 1;
    }
    proof {
        let front = bytes@.subrange(start as int, size as int);
        lemma_strip_front(bytes@, start as int);
        assert forall|i: int| end - start <= i < front.len() implies is_space(front[i]) by {
            assert(front[i] == bytes@[start + i]);
        }
        lemma_strip_back(front, end - start);
        assert(front.subrange(0, end - start) =~= bytes@.subrange(start as int, end as int));
    }
    (start, end)
}

/// The bytes of a text.
pub fn bytes_of(text: &str) -> (bytes: Vec<u8>)
    ensures
        bytes@ == text.spec_bytes(),
{
    vstd::slice::slice_to_vec(text.as_bytes())
}

} // verus!
