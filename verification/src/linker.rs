//! The FLASH region in a linker memory script.

use vstd::prelude::*;
use vstd::slice::slice_subrange;
use vstd::string::StrSliceExecFns;

verus! {

#[derive(Clone, Copy, Debug, PartialEq, Eq, Structural)]
pub enum RegionFault {
    NoFlashRegion,
    BadOrigin,
    BadLength,
}

/// ORIGIN and LENGTH of a memory region.
#[derive(Clone, Copy, Debug, PartialEq, Eq, Structural)]
pub struct Region {
    pub origin: u32,
    pub length: u32,
}

/// Unicode's white space.
pub open spec fn white_space(c: char) -> bool {
    let code = c as u32;
    ||| 0x9 <= code <= 0xD
    ||| code == 0x20
    ||| code == 0x85
    ||| code == 0xA0
    ||| code == 0x1680
    ||| 0x2000 <= code <= 0x200A
    ||| code == 0x2028
    ||| code == 0x2029
    ||| code == 0x202F
    ||| code == 0x205F
    ||| code == 0x3000
}

pub open spec fn occurs_at(text: Seq<char>, key: Seq<char>, at: int) -> bool {
    0 <= at && at + key.len() <= text.len() && text.subrange(at, at + key.len()) == key
}

/// Where `key` occurs first in `text`, from `from` on.
pub open spec fn position(text: Seq<char>, key: Seq<char>, from: int) -> Option<int>
    decreases text.len() - from,
{
    if occurs_at(text, key, from) {
        Some(from)
    } else if from >= text.len() {
        None
    } else {
        position(text, key, from + 1)
    }
}

/// The text in front of the first `key`, or all of it.
pub open spec fn before(text: Seq<char>, key: Seq<char>) -> Seq<char> {
    match position(text, key, 0) {
        Some(at) => text.take(at),
        None => text,
    }
}

pub open spec fn trim_start(text: Seq<char>) -> Seq<char>
    decreases text.len(),
{
    if text.len() > 0 && white_space(text.first()) {
        trim_start(text.skip(1))
    } else {
        text
    }
}

pub open spec fn trim_end(text: Seq<char>) -> Seq<char>
    decreases text.len(),
{
    if text.len() > 0 && white_space(text.last()) {
        trim_end(text.drop_last())
    } else {
        text
    }
}

/// Number of characters in front of the first comma or white space.
pub open spec fn word_length(text: Seq<char>) -> int
    decreases text.len(),
{
    if text.len() == 0 || text.first() == ',' || white_space(text.first()) {
        0
    } else {
        1 + word_length(text.skip(1))
    }
}

/// What a digit stands for.
pub open spec fn digit_value(c: char) -> int {
    if '0' <= c <= '9' {
        c as int - '0' as int
    } else if 'a' <= c <= 'f' {
        c as int - 'a' as int + 10
    } else if 'A' <= c <= 'F' {
        c as int - 'A' as int + 10
    } else {
        16
    }
}

pub open spec fn all_digits(text: Seq<char>, radix: int) -> bool {
    forall|i: int| 0 <= i < text.len() ==> digit_value(#[trigger] text[i]) < radix
}

/// The value of a sequence of digits.
pub open spec fn digits_value(text: Seq<char>, radix: int) -> int
    decreases text.len(),
{
    if text.len() == 0 {
        0
    } else {
        digits_value(text.drop_last(), radix) * radix + digit_value(text.last())
    }
}

/// The text without the plus sign that may stand in front of digits.
pub open spec fn unsigned(text: Seq<char>) -> Seq<char> {
    if text.len() > 1 && text.first() == '+' {
        text.skip(1)
    } else {
        text
    }
}

/// The number that a text holds: digits, with a plus sign in front of them or none.
pub open spec fn number(text: Seq<char>, radix: int) -> Option<int> {
    if text.len() > 0 && all_digits(unsigned(text), radix) {
        Some(digits_value(unsigned(text), radix))
    } else {
        None
    }
}

/// `scale` times a number, where it fits 32 bits.
pub open spec fn scaled(number: Option<int>, scale: int) -> Option<u32> {
    match number {
        Some(value) => if value * scale <= u32::MAX {
            Some((value * scale) as u32)
        } else {
            None
        },
        None => None,
    }
}

/// The number that a linker script writes as `text`.
pub open spec fn written_number(text: Seq<char>) -> Option<u32> {
    if text.len() >= 2 && text[0] == '0' && text[1] == 'x' {
        scaled(number(text.skip(2), 16), 1)
    } else if text.len() > 0 && text.last() == 'K' {
        scaled(number(text.drop_last(), 10), 1024)
    } else if text.len() > 0 && text.last() == 'M' {
        scaled(number(text.drop_last(), 10), 0x10_0000)
    } else {
        scaled(number(text, 10), 1)
    }
}

/// The number behind `key` and an equals sign.
pub open spec fn field(text: Seq<char>, key: Seq<char>) -> Option<u32> {
    match position(text, key, 0) {
        Some(at) => {
            let after = trim_start(text.skip(at + key.len()));
            if after.len() > 0 && after.first() == '=' {
                let value = trim_start(after.skip(1));
                written_number(value.take(word_length(value)))
            } else {
                None
            }
        },
        None => None,
    }
}

/// The region that the fields describe.
pub open spec fn fields(text: Seq<char>) -> Result<Region, RegionFault> {
    match field(text, "ORIGIN"@) {
        Some(origin) => match field(text, "LENGTH"@) {
            Some(length) => Ok(Region { origin, length }),
            None => Err(RegionFault::BadLength),
        },
        None => Err(RegionFault::BadOrigin),
    }
}

/// What a line says of the FLASH region, if it is the line of that region. A comment ends the
/// line.
pub open spec fn line_region(line: Seq<char>) -> Option<Result<Region, RegionFault>> {
    let text = before(line, "/*"@);
    match position(text, ":"@, 0) {
        Some(at) => if trim_end(trim_start(text.take(at))) == "FLASH"@ {
            Some(fields(text.skip(at + ":"@.len())))
        } else {
            None
        },
        None => None,
    }
}

/// The end of the line that starts at `from`.
pub open spec fn line_end(script: Seq<char>, from: int) -> int
    decreases script.len() - from,
{
    if from >= script.len() || script[from] == '\n' {
        from
    } else {
        line_end(script, from + 1)
    }
}

/// What the first line of the FLASH region says, among the lines from `from` on.
pub open spec fn region_from(script: Seq<char>, from: int) -> Result<Region, RegionFault>
    decreases script.len() - from,
    when 0 <= from <= script.len()
    via region_from_ends
{
    let end = line_end(script, from);
    match line_region(script.subrange(from, end)) {
        Some(region) => region,
        None => if end < script.len() {
            region_from(script, end + 1)
        } else {
            Err(RegionFault::NoFlashRegion)
        },
    }
}

#[via_fn]
proof fn region_from_ends(script: Seq<char>, from: int) {
    lemma_line_end(script, from);
}

proof fn lemma_line_end(script: Seq<char>, from: int)
    requires
        0 <= from <= script.len(),
    ensures
        from <= line_end(script, from) <= script.len(),
    decreases script.len() - from,
{
    if from < script.len() && script[from] != '\n' {
        lemma_line_end(script, from + 1);
    }
}

fn is_white_space(c: char) -> (white: bool)
    ensures
        white == white_space(c),
{
    let code: u32 = c as u32;
    (0x9 <= code && code <= 0xD) || code == 0x20 || code == 0x85 || code == 0xA0 || code == 0x1680
        || (0x2000 <= code && code <= 0x200A) || code == 0x2028 || code == 0x2029 || code == 0x202F
        || code == 0x205F || code == 0x3000
}

fn is_at(text: &[char], key: &str, at: usize) -> (found: bool)
    requires
        at <= text@.len(),
    ensures
        found == occurs_at(text@, key@, at as int),
{
    let length: usize = key.unicode_len();
    let size: usize = text.len();
    if length > size - at {
        return false;
    }
    let mut i: usize = 0;
    while i < length
        invariant
            length == key@.len(),
            at + length <= size == text@.len(),
            i <= length,
            forall|j: int| 0 <= j < i ==> text@[at + j] == #[trigger] key@[j],
        decreases length - i,
    {
        if text[at + i] != key.get_char(i) {
            assert(text@.subrange(at as int, at + length)[i as int] == text@[at + i]);
            return false;
        }
        i += 1;
    }
    assert(text@.subrange(at as int, at + length) =~= key@);
    true
}

fn find(text: &[char], key: &str) -> (at: Option<usize>)
    ensures
        match at {
            Some(i) => position(text@, key@, 0) == Some(i as int) && occurs_at(
                text@,
                key@,
                i as int,
            ),
            None => position(text@, key@, 0) is None,
        },
{
    let mut i: usize = 0;
    loop
        invariant
            i <= text@.len(),
            position(text@, key@, 0) == position(text@, key@, i as int),
        decreases text@.len() - i,
    {
        if is_at(text, key, i) {
            return Some(i);
        }
        if i == text.len() {
            return None;
        }
        i += 1;
    }
}

fn trimmed_start(text: &[char]) -> (rest: &[char])
    ensures
        rest@ == trim_start(text@),
{
    let mut i: usize = 0;
    assert(text@.skip(0) =~= text@);
    while i < text.len() && is_white_space(text[i])
        invariant
            i <= text@.len(),
            trim_start(text@.skip(i as int)) == trim_start(text@),
        decreases text@.len() - i,
    {
        assert(text@.skip(i as int).skip(1) =~= text@.skip(i + 1));
        i += 1;
    }
    assert(text@.skip(i as int) =~= text@.subrange(i as int, text@.len() as int));
    slice_subrange(text, i, text.len())
}

fn trimmed_end(text: &[char]) -> (rest: &[char])
    ensures
        rest@ == trim_end(text@),
{
    let mut i: usize = text.len();
    assert(text@.take(i as int) =~= text@);
    while i > 0 && is_white_space(text[i - 1])
        invariant
            i <= text@.len(),
            trim_end(text@.take(i as int)) == trim_end(text@),
        decreases i,
    {
        assert(text@.take(i as int).drop_last() =~= text@.take(i - 1));
        i -= 1;
    }
    assert(text@.take(i as int) =~= text@.subrange(0, i as int));
    slice_subrange(text, 0, i)
}

fn first_word(text: &[char]) -> (word: &[char])
    ensures
        0 <= word_length(text@) <= text@.len(),
        word@ == text@.take(word_length(text@)),
{
    let mut i: usize = 0;
    assert(text@.skip(0) =~= text@);
    while i < text.len() && text[i] != ',' && !is_white_space(text[i])
        invariant
            i <= text@.len(),
            word_length(text@) == i + word_length(text@.skip(i as int)),
        decreases text@.len() - i,
    {
        assert(text@.skip(i as int).skip(1) =~= text@.skip(i + 1));
        i += 1;
    }
    assert(word_length(text@.skip(i as int)) == 0);
    assert(text@.take(i as int) =~= text@.subrange(0, i as int));
    slice_subrange(text, 0, i)
}

fn digit(c: char) -> (value: u64)
    ensures
        value == digit_value(c),
        value <= 16,
{
    let code: u32 = c as u32;
    if '0' <= c && c <= '9' {
        (code - 0x30) as u64
    } else if 'a' <= c && c <= 'f' {
        (code - 0x61 + 10) as u64
    } else if 'A' <= c && c <= 'F' {
        (code - 0x41 + 10) as u64
    } else {
        16
    }
}

/// More digits make no number smaller.
proof fn lemma_prefix_is_no_larger(text: Seq<char>, length: int, radix: int)
    requires
        0 <= length <= text.len(),
        radix >= 1,
    ensures
        0 <= digits_value(text.take(length), radix) <= digits_value(text, radix),
    decreases text.len() - length, length,
{
    if length == text.len() {
        assert(text.take(length) =~= text);
        if length > 0 {
            let shorter = text.drop_last();
            lemma_prefix_is_no_larger(shorter, length - 1, radix);
            assert(shorter.take(length - 1) =~= shorter);
            assert(0 <= digits_value(shorter, radix) * radix) by (nonlinear_arith)
                requires
                    0 <= digits_value(shorter, radix),
                    radix >= 1,
            ;
        }
    } else {
        let shorter = text.drop_last();
        lemma_prefix_is_no_larger(shorter, length, radix);
        assert(shorter.take(length) =~= text.take(length));
        assert(digits_value(shorter, radix) <= digits_value(shorter, radix) * radix)
            by (nonlinear_arith)
            requires
                0 <= digits_value(shorter, radix),
                radix >= 1,
        ;
    }
}

fn parsed(text: &[char], radix: u64, scale: u64) -> (value: Option<u32>)
    requires
        2 <= radix <= 16,
        1 <= scale <= 0x10_0000,
    ensures
        value == scaled(number(text@, radix as int), scale as int),
{
    if text.len() == 0 {
        return None;
    }
    let start: usize = if text.len() > 1 && text[0] == '+' { 1 } else { 0 };
    let ghost digits = unsigned(text@);
    assert(digits =~= text@.skip(start as int));
    let mut value: u64 = 0;
    let mut fits: bool = true;
    let mut i: usize = start;
    while i < text.len()
        invariant
            start <= i <= text@.len(),
            digits == unsigned(text@),
            digits == text@.skip(start as int),
            2 <= radix <= 16,
            forall|j: int| 0 <= j < i - start ==> digit_value(#[trigger] digits[j]) < radix,
            value <= 0xFFFF_FFFF,
            fits ==> value == digits_value(digits.take(i - start), radix as int),
            !fits ==> digits_value(digits, radix as int) > u32::MAX,
        decreases text@.len() - i,
    {
        let d: u64 = digit(text[i]);
        assert(digits[i - start] == text@[i as int]);
        if d >= radix {
            assert(!all_digits(digits, radix as int));
            return None;
        }
        if fits {
            let longer = Ghost(digits.take(i + 1 - start));
            assert(longer@.drop_last() =~= digits.take(i - start));
            assert(longer@.last() == text@[i as int]);
            assert(value * radix <= 0xFFFF_FFFF * 16) by (nonlinear_arith)
                requires
                    value <= 0xFFFF_FFFF,
                    radix <= 16,
            ;
            let next: u64 = value * radix + d;
            if next > 0xFFFF_FFFF {
                proof {
                    lemma_prefix_is_no_larger(digits, i + 1 - start, radix as int);
                }
                fits = false;
            } else {
                value = next;
            }
        }
        i += 1;
    }
    assert(digits.take(i - start) =~= digits);
    assert(all_digits(digits, radix as int));
    if !fits {
        assert(digits_value(digits, radix as int) * scale > u32::MAX) by (nonlinear_arith)
            requires
                digits_value(digits, radix as int) > u32::MAX,
                scale >= 1,
        ;
        return None;
    }
    assert(value * scale <= 0xFFFF_FFFF * 0x10_0000) by (nonlinear_arith)
        requires
            value <= 0xFFFF_FFFF,
            scale <= 0x10_0000,
    ;
    let result: u64 = value * scale;
    if result > 0xFFFF_FFFF {
        None
    } else {
        Some(result as u32)
    }
}

/// Linker script numbers: hex, decimal, and K/M suffixes
pub fn linker_number(text: &[char]) -> (value: Option<u32>)
    ensures
        value == written_number(text@),
{
    let length: usize = text.len();
    if length >= 2 && text[0] == '0' && text[1] == 'x' {
        assert(text@.skip(2) =~= text@.subrange(2, length as int));
        return parsed(slice_subrange(text, 2, length), 16, 1);
    }
    if length > 0 && text[length - 1] == 'K' {
        assert(text@.drop_last() =~= text@.subrange(0, length - 1));
        return parsed(slice_subrange(text, 0, length - 1), 10, 1024);
    }
    if length > 0 && text[length - 1] == 'M' {
        assert(text@.drop_last() =~= text@.subrange(0, length - 1));
        return parsed(slice_subrange(text, 0, length - 1), 10, 0x10_0000);
    }
    parsed(text, 10, 1)
}

/// The number that a region's description gives for `key`.
pub fn region_field(text: &[char], key: &str) -> (value: Option<u32>)
    ensures
        value == field(text@, key@),
{
    let at: usize = match find(text, key) {
        Some(at) => at,
        None => {
            return None;
        },
    };
    let size: usize = text.len();
    let start: usize = at + key.unicode_len();
    assert(text@.skip(start as int) =~= text@.subrange(start as int, text@.len() as int));
    let after = trimmed_start(slice_subrange(text, start, size));
    if after.len() == 0 || after[0] != '=' {
        return None;
    }
    assert(after@.skip(1) =~= after@.subrange(1, after@.len() as int));
    let value = trimmed_start(slice_subrange(after, 1, after.len()));
    linker_number(first_word(value))
}

/// ORIGIN and LENGTH of the FLASH region in a linker memory script
pub fn flash_region(script: &[char]) -> (region: Result<Region, RegionFault>)
    ensures
        region == region_from(script@, 0),
{
    let mut from: usize = 0;
    loop
        invariant
            from <= script@.len(),
            region_from(script@, 0) == region_from(script@, from as int),
        decreases script@.len() - from,
    {
        let mut end: usize = from;
        while end < script.len() && script[end] != '\n'
            invariant
                from <= end <= script@.len(),
                line_end(script@, from as int) == line_end(script@, end as int),
            decreases script@.len() - end,
        {
            end += 1;
        }
        match flash_line(slice_subrange(script, from, end)) {
            Some(region) => {
                return region;
            },
            None => {},
        }
        if end == script.len() {
            return Err(RegionFault::NoFlashRegion);
        }
        from = end + 1;
    }
}

fn flash_line(line: &[char]) -> (region: Option<Result<Region, RegionFault>>)
    ensures
        region == line_region(line@),
{
    let text: &[char] = match find(line, "/*") {
        Some(at) => {
            assert(line@.take(at as int) =~= line@.subrange(0, at as int));
            slice_subrange(line, 0, at)
        },
        None => line,
    };
    let at: usize = match find(text, ":") {
        Some(at) => at,
        None => {
            return None;
        },
    };
    assert(text@.take(at as int) =~= text@.subrange(0, at as int));
    let name = trimmed_end(trimmed_start(slice_subrange(text, 0, at)));
    let is_flash = name.len() == "FLASH".unicode_len() && is_at(name, "FLASH", 0);
    assert(is_flash == (name@ == "FLASH"@)) by {
        assert(name@.subrange(0, name@.len() as int) =~= name@);
    }
    if !is_flash {
        return None;
    }
    let size: usize = text.len();
    let start: usize = at + ":".unicode_len();
    assert(text@.skip(start as int) =~= text@.subrange(start as int, text@.len() as int));
    let rest = slice_subrange(text, start, size);
    let origin: u32 = match region_field(rest, "ORIGIN") {
        Some(origin) => origin,
        None => {
            return Some(Err(RegionFault::BadOrigin));
        },
    };
    let length: u32 = match region_field(rest, "LENGTH") {
        Some(length) => length,
        None => {
            return Some(Err(RegionFault::BadLength));
        },
    };
    Some(Ok(Region { origin, length }))
}

/// A position is where the key occurs, and the first one. Without a position the key does not
/// occur.
pub proof fn law_position_is_the_first(text: Seq<char>, key: Seq<char>, from: int)
    requires
        0 <= from <= text.len(),
    ensures
        position(text, key, from) matches Some(at) ==> from <= at && at + key.len() <= text.len()
            && text.subrange(at, at + key.len()) == key && (forall|i: int|
            from <= i < at ==> !#[trigger] occurs_at(text, key, i)),
        position(text, key, from) is None ==> (forall|i: int|
            from <= i ==> !#[trigger] occurs_at(text, key, i)),
    decreases text.len() - from,
{
    if !occurs_at(text, key, from) && from < text.len() {
        law_position_is_the_first(text, key, from + 1);
    }
}

/// Trimming takes the white space off the ends, all of it and nothing else.
pub proof fn law_trimming_takes_white_space_off(text: Seq<char>)
    ensures
        ({
            let n = text.len() - trim_start(text).len();
            &&& 0 <= n
            &&& trim_start(text) == text.skip(n)
            &&& forall|i: int| 0 <= i < n ==> white_space(#[trigger] text[i])
            &&& n < text.len() ==> !white_space(text[n])
        }),
        ({
            let n = trim_end(text).len() as int;
            &&& n <= text.len()
            &&& trim_end(text) == text.take(n)
            &&& forall|i: int| n <= i < text.len() ==> white_space(#[trigger] text[i])
            &&& n > 0 ==> !white_space(text[n - 1])
        }),
    decreases text.len(),
{
    if text.len() > 0 && white_space(text.first()) {
        let rest = text.skip(1);
        law_trimming_takes_white_space_off(rest);
        let n = rest.len() - trim_start(rest).len();
        assert(rest.skip(n) =~= text.skip(n + 1));
        assert forall|i: int| 0 <= i < n + 1 implies white_space(#[trigger] text[i]) by {
            if i > 0 {
                assert(rest[i - 1] == text[i]);
            }
        }
    } else {
        assert(text.skip(0) =~= text);
    }
    if text.len() > 0 && white_space(text.last()) {
        let rest = text.drop_last();
        law_trimming_takes_white_space_off(rest);
        let n = trim_end(rest).len() as int;
        assert(rest.take(n) =~= text.take(n));
        assert forall|i: int| n <= i < text.len() implies white_space(#[trigger] text[i]) by {
            if i < text.len() - 1 {
                assert(rest[i] == text[i]);
            }
        }
    } else {
        assert(text.take(text.len() as int) =~= text);
    }
}

/// A word ends at the first comma or white space, or with the text.
pub proof fn law_word_ends_at_a_comma_or_white_space(text: Seq<char>)
    ensures
        ({
            let n = word_length(text);
            &&& 0 <= n <= text.len()
            &&& forall|i: int| 0 <= i < n ==> #[trigger] text[i] != ',' && !white_space(text[i])
            &&& n < text.len() ==> text[n] == ',' || white_space(text[n])
        }),
    decreases text.len(),
{
    if text.len() > 0 && text.first() != ',' && !white_space(text.first()) {
        let rest = text.skip(1);
        law_word_ends_at_a_comma_or_white_space(rest);
        let n = word_length(rest);
        assert forall|i: int| 0 <= i < n + 1 implies #[trigger] text[i] != ',' && !white_space(
            text[i],
        ) by {
            if i > 0 {
                assert(rest[i - 1] == text[i]);
            }
        }
    }
}

/// Digits stand for their values: ten decimal ones, and six more in both cases of letters.
pub proof fn law_digits_have_their_values(c: char)
    ensures
        digit_value('0') == 0,
        '0' <= c < '9' ==> digit_value((c as u32 + 1) as char) == digit_value(c) + 1,
        digit_value('9') == 9 && digit_value('a') == 10 && digit_value('A') == 10,
        'a' <= c <= 'f' ==> digit_value(c) == c as int - 87,
        'A' <= c <= 'F' ==> digit_value(c) == c as int - 55,
        '0' <= c <= '9' <==> 0 <= digit_value(c) < 10,
        ('0' <= c <= '9' || 'a' <= c <= 'f' || 'A' <= c <= 'F') <==> 0 <= digit_value(c) < 16,
{
}

/// The first digit of a number counts for the most, the last one for itself.
pub proof fn law_leading_digits_count_for_more(text: Seq<char>, radix: int)
    requires
        text.len() > 0,
        radix > 0,
    ensures
        digits_value(text, radix) == digit_value(text.first()) * vstd::arithmetic::power::pow(
            radix,
            (text.len() - 1) as nat,
        ) + digits_value(text.skip(1), radix),
    decreases text.len(),
{
    let rest = text.skip(1);
    let shorter = text.drop_last();
    if text.len() == 1 {
        assert(shorter =~= Seq::<char>::empty());
        assert(rest =~= Seq::<char>::empty());
        vstd::arithmetic::power::lemma_pow0(radix);
        assert(digits_value(shorter, radix) == 0);
        assert(digits_value(text, radix) == digit_value(text.last()));
    } else {
        law_leading_digits_count_for_more(shorter, radix);
        assert(shorter.skip(1) =~= rest.drop_last());
        vstd::arithmetic::power::lemma_pow_adds(radix, (text.len() - 2) as nat, 1);
        vstd::arithmetic::power::lemma_pow1(radix);
        let d = digit_value(text.first());
        let p = vstd::arithmetic::power::pow(radix, (text.len() - 2) as nat);
        let v = digits_value(rest.drop_last(), radix);
        assert((d * p + v) * radix == d * (p * radix) + v * radix) by (nonlinear_arith);
    }
}

/// What the suffixes and the prefix of a number do: K counts thousand-and-twenty-fours, M those of
/// K, and 0x makes the digits hexadecimal. A number that does not fit 32 bits, or has anything but
/// digits, is none.
pub proof fn law_numbers_scale_by_their_suffix(digits: Seq<char>)
    requires
        digits.len() > 0,
        all_digits(digits, 10),
        digits[0] != '0',
    ensures
        ({
            let n = digits_value(digits, 10);
            &&& n <= u32::MAX ==> written_number(digits) == Some(n as u32)
            &&& n > u32::MAX ==> written_number(digits) is None
            &&& 1024 * n <= u32::MAX ==> written_number(digits.push('K')) == Some((1024 * n) as u32)
            &&& 1024 * n > u32::MAX ==> written_number(digits.push('K')) is None
            &&& 1048576 * n <= u32::MAX ==> written_number(digits.push('M')) == Some(
                (1048576 * n) as u32,
            )
            &&& 1048576 * n > u32::MAX ==> written_number(digits.push('M')) is None
        }),
{
    let n = digits_value(digits, 10);
    assert(digits.push('K').drop_last() =~= digits);
    assert(digits.push('M').drop_last() =~= digits);
    assert(digit_value(digits[0]) < 10);
    assert(digit_value(digits[digits.len() - 1]) < 10);
    assert(unsigned(digits) == digits);
}

/// Behind 0x the digits are hexadecimal.
pub proof fn law_prefixed_numbers_are_hexadecimal(digits: Seq<char>)
    requires
        digits.len() > 0,
        all_digits(digits, 16),
    ensures
        ({
            let n = digits_value(digits, 16);
            let text = seq!['0', 'x'] + digits;
            &&& n <= u32::MAX ==> written_number(text) == Some(n as u32)
            &&& n > u32::MAX ==> written_number(text) is None
        }),
{
    let text = seq!['0', 'x'] + digits;
    assert(text.skip(2) =~= digits);
    assert(digit_value(digits[0]) < 16);
    assert(unsigned(digits) == digits);
}

/// A field is the number behind the key and the equals sign, up to the comma.
pub proof fn law_field_is_behind_its_key(key: Seq<char>, word: Seq<char>, rest: Seq<char>)
    requires
        word.len() > 0,
        forall|i: int|
            0 <= i < word.len() ==> #[trigger] word[i] != ',' && !white_space(word[i]),
    ensures
        field(key + seq!['='] + word + seq![','] + rest, key) == written_number(word),
{
    let text = key + seq!['='] + word + seq![','] + rest;
    assert(text.subrange(0, key.len() as int) =~= key);
    let after = text.skip(key.len() as int);
    assert(after =~= seq!['='] + word + seq![','] + rest);
    assert(trim_start(after) == after);
    let value = after.skip(1);
    assert(value =~= word + seq![','] + rest);
    assert(value.first() == word[0]);
    assert(trim_start(value) == value);
    law_word_ends_at_a_comma_or_white_space(value);
    let n = word_length(value);
    if n < word.len() {
        assert(value[n] == word[n]);
    } else if n > word.len() {
        assert(value[word.len() as int] == ',');
    }
    assert(value.take(n) =~= word);
}

/// The origin is the number of the field of that name, and so is the length. Of two bad fields the
/// origin is told.
pub proof fn law_region_has_its_fields(text: Seq<char>)
    ensures
        fields(text) matches Ok(region) ==> field(text, "ORIGIN"@) == Some(region.origin) && field(
            text,
            "LENGTH"@,
        ) == Some(region.length),
        field(text, "ORIGIN"@) is None <==> fields(text) == Err::<Region, _>(RegionFault::BadOrigin),
        field(text, "ORIGIN"@) is Some && field(text, "LENGTH"@) is None <==> fields(text) == Err::<
            Region,
            _,
        >(RegionFault::BadLength),
{
}

/// A comment ends a line: what stands behind its start changes nothing.
pub proof fn law_comments_say_nothing(line: Seq<char>, at: int)
    requires
        position(line, "/*"@, 0) == Some(at),
    ensures
        line_region(line) == line_region(line.take(at)),
{
    reveal_strlit("/*");
    law_position_is_the_first(line, "/*"@, 0);
    let code = line.take(at);
    law_position_is_the_first(code, "/*"@, 0);
    if let Some(i) = position(code, "/*"@, 0) {
        assert(line.subrange(i, i + 2) =~= code.subrange(i, i + 2));
        assert(occurs_at(line, "/*"@, i));
    }
}

/// The first line of the FLASH region decides: the region of a script is that of its first line
/// where that describes the region, else that of the rest.
pub proof fn law_first_line_of_the_region_decides(line: Seq<char>, rest: Seq<char>)
    requires
        forall|i: int| 0 <= i < line.len() ==> #[trigger] line[i] != '\n',
    ensures
        region_from(line + seq!['\n'] + rest, 0) == match line_region(line) {
            Some(region) => region,
            None => region_from(rest, 0),
        },
        region_from(line, 0) == match line_region(line) {
            Some(region) => region,
            None => Err(RegionFault::NoFlashRegion),
        },
{
    let script = line + seq!['\n'] + rest;
    lemma_line_end_is_first(script, 0, line.len() as int);
    assert(script.subrange(0, line.len() as int) =~= line);
    lemma_line_end_is_first(line, 0, line.len() as int);
    assert(line.subrange(0, line.len() as int) =~= line);
    let k = line.len() + 1;
    lemma_region_of_a_rest(script, k as int, 0);
    assert(script.skip(k as int) =~= rest);
}

proof fn lemma_line_end_is_first(script: Seq<char>, from: int, end: int)
    requires
        0 <= from <= end <= script.len(),
        forall|i: int| from <= i < end ==> #[trigger] script[i] != '\n',
        end < script.len() ==> script[end] == '\n',
    ensures
        line_end(script, from) == end,
    decreases end - from,
{
    if from < end {
        lemma_line_end_is_first(script, from + 1, end);
    }
}

proof fn lemma_line_end_of_a_rest(script: Seq<char>, k: int, from: int)
    requires
        0 <= k,
        0 <= from,
        k + from <= script.len(),
    ensures
        line_end(script, k + from) == k + line_end(script.skip(k), from),
    decreases script.len() - k - from,
{
    if k + from < script.len() && script[k + from] != '\n' {
        lemma_line_end_of_a_rest(script, k, from + 1);
    }
}

proof fn lemma_region_of_a_rest(script: Seq<char>, k: int, from: int)
    requires
        0 <= k,
        0 <= from,
        k + from <= script.len(),
    ensures
        region_from(script, k + from) == region_from(script.skip(k), from),
    decreases script.len() - k - from,
{
    lemma_line_end_of_a_rest(script, k, from);
    lemma_line_end(script, k + from);
    let rest = script.skip(k);
    let end = line_end(rest, from);
    assert(rest.subrange(from, end) =~= script.subrange(k + from, k + end));
    if k + end < script.len() {
        lemma_region_of_a_rest(script, k, end + 1);
    }
}

/// White space is the tab and what follows it up to the carriage return, the blank, and the wider
/// blanks and separators of Unicode. No letter, digit or sign of a script is white space.
pub proof fn law_white_space_separates(c: char)
    ensures
        c as u32 == 0x20 || 9 <= c as u32 <= 13 || c as u32 == 0x85 || c as u32 == 0xA0
            ==> white_space(c),
        c as u32 == 0x1680 || 0x2000 <= c as u32 <= 0x200A || c as u32 == 0x2028 || c as u32
            == 0x2029 || c as u32 == 0x202F || c as u32 == 0x205F || c as u32 == 0x3000
            ==> white_space(c),
        c as u32 > 0x3000 || c as u32 <= 8 || 14 <= c as u32 <= 0x1F || 0x21 <= c as u32 <= 0x84
            || 0x86 <= c as u32 <= 0x9F || 0xA1 <= c as u32 <= 0x167F ==> !white_space(c),
        0x1681 <= c as u32 <= 0x1FFF || 0x200B <= c as u32 <= 0x2027 || 0x202A <= c as u32 <= 0x202E
            || 0x2030 <= c as u32 <= 0x205E || 0x2060 <= c as u32 <= 0x2FFF ==> !white_space(c),
{
}

/// A plus sign in front of digits changes nothing.
pub proof fn law_plus_sign_changes_nothing(digits: Seq<char>, radix: int)
    requires
        digits.len() > 0,
        digits[0] != '+',
    ensures
        number(seq!['+'] + digits, radix) == number(digits, radix),
{
    assert((seq!['+'] + digits).skip(1) =~= digits);
    assert(unsigned(digits) == digits);
}

/// A mark of one character is found behind a text that does not hold it.
proof fn lemma_first_mark(text: Seq<char>, mark: Seq<char>, rest: Seq<char>)
    requires
        mark.len() == 1,
        forall|i: int| 0 <= i < text.len() ==> #[trigger] text[i] != mark[0],
    ensures
        position(text + mark + rest, mark, 0) == Some(text.len() as int),
{
    let whole = text + mark + rest;
    let at = text.len() as int;
    assert(whole.subrange(at, at + 1) =~= mark);
    assert(occurs_at(whole, mark, at));
    law_position_is_the_first(whole, mark, 0);
    let found = position(whole, mark, 0)->0;
    if found < at {
        assert(whole.subrange(found, found + 1)[0] == whole[found]);
        assert(whole[found] == text[found]);
    }
}

/// A word is what trimming leaves of it with white space on both sides.
proof fn lemma_trimmed(left: Seq<char>, word: Seq<char>, right: Seq<char>)
    requires
        word.len() > 0,
        !white_space(word.first()),
        !white_space(word.last()),
        forall|i: int| 0 <= i < left.len() ==> white_space(#[trigger] left[i]),
        forall|i: int| 0 <= i < right.len() ==> white_space(#[trigger] right[i]),
    ensures
        trim_end(trim_start(left + word + right)) == word,
{
    let text = left + word + right;
    law_trimming_takes_white_space_off(text);
    let n = text.len() - trim_start(text).len();
    assert(text[left.len() as int] == word.first());
    if n < left.len() {
        assert(text[n] == left[n]);
    }
    assert(n == left.len());
    let tail = trim_start(text);
    assert(tail =~= word + right);
    law_trimming_takes_white_space_off(tail);
    let m = trim_end(tail).len() as int;
    assert(tail[word.len() - 1] == word.last());
    if m > word.len() {
        assert(tail[m - 1] == right[m - 1 - word.len()]);
    }
    assert(m == word.len());
    assert(trim_end(tail) =~= word);
}

/// The line of the FLASH region is the one whose name in front of the colon is that, whatever white
/// space surrounds it. Its fields stand behind the colon.
pub proof fn law_flash_line_is_told_by_its_name(
    before_name: Seq<char>,
    behind_name: Seq<char>,
    rest: Seq<char>,
)
    requires
        forall|i: int| 0 <= i < before_name.len() ==> white_space(#[trigger] before_name[i]),
        forall|i: int| 0 <= i < behind_name.len() ==> white_space(#[trigger] behind_name[i]),
        position(before_name + "FLASH"@ + behind_name + ":"@ + rest, "/*"@, 0) is None,
    ensures
        line_region(before_name + "FLASH"@ + behind_name + ":"@ + rest) == Some(fields(rest)),
{
    let name = before_name + "FLASH"@ + behind_name;
    let line = name + ":"@ + rest;
    assert(before_name + "FLASH"@ + behind_name + ":"@ + rest =~= line);
    assert("FLASH"@.len() == 5 && "FLASH"@[0] == 'F' && "FLASH"@[1] == 'L' && "FLASH"@[2] == 'A'
        && "FLASH"@[3] == 'S' && "FLASH"@[4] == 'H') by {
        reveal_strlit("FLASH");
    }
    assert(":"@.len() == 1 && ":"@[0] == ':') by {
        reveal_strlit(":");
    }
    assert forall|i: int| 0 <= i < name.len() implies #[trigger] name[i] != ':' by {
        if i < before_name.len() {
            assert(name[i] == before_name[i]);
        } else if i >= before_name.len() + 5 {
            assert(name[i] == behind_name[i - before_name.len() - 5]);
        } else {
            assert(name[i] == "FLASH"@[i - before_name.len()]);
        }
    }
    lemma_first_mark(name, ":"@, rest);
    lemma_trimmed(before_name, "FLASH"@, behind_name);
    assert(line.take(name.len() as int) =~= name);
    assert(line.skip(name.len() as int + 1) =~= rest);
}

/// A line without the name of the region in front of a colon says nothing of the region.
pub proof fn law_other_lines_say_nothing(line: Seq<char>)
    requires
        line_region(line) is Some,
    ensures
        exists|at: int| #[trigger] occurs_at(line, "FLASH"@, at),
        exists|at: int| #[trigger] occurs_at(line, ":"@, at),
{
    reveal_strlit("FLASH");
    reveal_strlit(":");
    reveal_strlit("/*");
    law_position_is_the_first(line, "/*"@, 0);
    let text = before(line, "/*"@);
    law_position_is_the_first(text, ":"@, 0);
    let at = position(text, ":"@, 0)->0;
    assert(line.subrange(at, at + 1) =~= text.subrange(at, at + 1));
    assert(occurs_at(line, ":"@, at));
    let name = text.take(at);
    law_trimming_takes_white_space_off(name);
    let n = name.len() - trim_start(name).len();
    let tail = trim_start(name);
    law_trimming_takes_white_space_off(tail);
    assert(trim_end(tail) == "FLASH"@);
    assert(line.subrange(n, n + 5) =~= "FLASH"@) by {
        assert forall|i: int| 0 <= i < 5 implies line[n + i] == "FLASH"@[i] by {
            assert(trim_end(tail)[i] == tail[i]);
            assert(tail[i] == name[n + i]);
        }
    }
    assert(occurs_at(line, "FLASH"@, n));
}

} // verus!
