//! The battery's state, read from the text that the power supply driver
//! publishes: one `KEY=value` pair on each line.

use vstd::prelude::*;

verus! {

/// Charge that is reported when the text names none, or none that can be
/// read.
pub const DEFAULT_CAPACITY: u8 = 100;

/// File in which the device's power supply publishes its state.
pub const BATTERY_STATE_FILE: &'static str = "/sys/class/power_supply/bq27546-0/uevent";

/// `POWER_SUPPLY_CAPACITY=`
pub open spec fn capacity_key() -> Seq<u8> {
    seq![
        0x50u8, 0x4F, 0x57, 0x45, 0x52, 0x5F, 0x53, 0x55, 0x50, 0x50, 0x4C, 0x59, 0x5F, 0x43, 0x41,
        0x50, 0x41, 0x43, 0x49, 0x54, 0x59, 0x3D,
    ]
}

/// `POWER_SUPPLY_STATUS=`
pub open spec fn status_key() -> Seq<u8> {
    seq![
        0x50u8, 0x4F, 0x57, 0x45, 0x52, 0x5F, 0x53, 0x55, 0x50, 0x50, 0x4C, 0x59, 0x5F, 0x53, 0x54,
        0x41, 0x54, 0x55, 0x53, 0x3D,
    ]
}

/// `Charging`
pub open spec fn charging_word() -> Seq<u8> {
    seq![0x43u8, 0x68, 0x61, 0x72, 0x67, 0x69, 0x6E, 0x67]
}

/// Number of bytes from `from` to the next line feed, or to the end of the
/// text where there is none.
pub open spec fn line_len(content: Seq<u8>, from: int) -> nat
    decreases content.len() - from,
{
    if from < 0 || from >= content.len() || content[from] == 0x0A {
        0
    } else {
        1 + line_len(content, from + 1)
    }
}

/// Index of the first line feed at or after `from`, or the length of the
/// text where there is none.
pub open spec fn line_end(content: Seq<u8>, from: int) -> int {
    from + line_len(content, from)
}

/// The line that starts at `from`: the bytes up to the next line feed, less
/// a carriage return that stands right before the line feed. A last line
/// that no line feed ends keeps everything.
pub open spec fn line_at(content: Seq<u8>, from: int) -> Seq<u8> {
    let end = line_end(content, from);
    if from < end < content.len() && content[end - 1] == 0x0D {
        content.subrange(from, end - 1)
    } else {
        content.subrange(from, end)
    }
}

/// Whether `line` begins with `key`.
pub open spec fn has_prefix(line: Seq<u8>, key: Seq<u8>) -> bool {
    line.len() >= key.len() && line.subrange(0, key.len() as int) == key
}

/// Whether every byte is a decimal digit.
pub open spec fn all_digits(text: Seq<u8>) -> bool {
    forall|i: int| 0 <= i < text.len() ==> 0x30 <= #[trigger] text[i] <= 0x39
}

/// The number that a row of decimal digits writes.
pub open spec fn decimal(digits: Seq<u8>) -> int
    decreases digits.len(),
{
    if digits.len() == 0 {
        0
    } else {
        decimal(digits.drop_last()) * 10 + (digits.last() - 0x30)
    }
}

/// The byte that `text` writes in decimal: one or more digits, which a plus
/// sign may precede, with a value of at most 255. Anything else is no
/// number.
pub open spec fn parsed_u8(text: Seq<u8>) -> Option<u8> {
    let digits = if text.len() > 0 && text[0] == 0x2B {
        text.subrange(1, text.len() as int)
    } else {
        text
    };
    digits_value(digits)
}

/// Charge and charging flag after one more line is read. A capacity line
/// sets the charge to its number, or to the default where it holds none; a
/// status line sets the flag to whether the status is `Charging`; any other
/// line changes nothing.
pub open spec fn after_line(state: (u8, bool), line: Seq<u8>) -> (u8, bool) {
    if has_prefix(line, capacity_key()) {
        (
            match parsed_u8(line.subrange(capacity_key().len() as int, line.len() as int)) {
                Some(value) => value,
                None => DEFAULT_CAPACITY,
            },
            state.1,
        )
    } else if has_prefix(line, status_key()) {
        (state.0, line.subrange(status_key().len() as int, line.len() as int) == charging_word())
    } else {
        state
    }
}

/// Charge and charging flag after the lines from `from` on are read, one
/// after the other, starting from `state`.
pub open spec fn read_from(content: Seq<u8>, from: int, state: (u8, bool)) -> (u8, bool)
    decreases content.len() - from,
{
    if from < 0 || from >= content.len() {
        state
    } else if from + line_len(content, from) >= content.len() {
        after_line(state, line_at(content, from))
    } else {
        read_from(
            content,
            from + line_len(content, from) + 1,
            after_line(state, line_at(content, from)),
        )
    }
}

/// Charge in percent and charging flag that the text reports. A later line
/// overrides an earlier one; without any, the battery is full and not
/// charging.
pub open spec fn battery_state(content: Seq<u8>) -> (u8, bool) {
    read_from(content, 0, (DEFAULT_CAPACITY, false))
}

/// The byte that a row of digits writes, if it writes one.
pub open spec fn digits_value(digits: Seq<u8>) -> Option<u8> {
    if digits.len() > 0 && all_digits(digits) && decimal(digits) <= 255 {
        Some(decimal(digits) as u8)
    } else {
        None
    }
}

/// Finds the end of the line that starts at `from`.
fn find_line_end(content: &[u8], from: usize) -> (end: usize)
    requires
        from <= content@.len(),
    ensures
        end == line_end(content@, from as int),
        from <= end <= content@.len(),
{
    let mut end: usize = from;
    while end < content.len() && content[end] != 0x0A
        invariant
            from <= end <= content@.len(),
            line_end(content@, from as int) == line_end(content@, end as int),
        decreases content@.len() - end,
    {
        end += 1;
    }
    end
}

/// Whether the bytes of `content` from `from` to `to` begin with `key`.
fn begins_with(content: &[u8], from: usize, to: usize, key: &[u8]) -> (yes: bool)
    requires
        from <= to <= content@.len(),
    ensures
        yes == has_prefix(content@.subrange(from as int, to as int), key@),
{
    let ghost line = content@.subrange(from as int, to as int);
    if to - from < key.len() {
        return false;
    }
    let mut i: usize = 0;
    while i < key.len()
        invariant
            i <= key@.len(),
            from <= to <= content@.len(),
            key@.len() <= to - from,
            line == content@.subrange(from as int, to as int),
            forall|j: int| 0 <= j < i ==> #[trigger] line[j] == key@[j],
        decreases key@.len() - i,
    {
        if content[from + i] != key[i] {
            assert(line.subrange(0, key@.len() as int)[i as int] != key@[i as int]);
            return false;
        }
        i += 1;
    }
    assert(line.subrange(0, key@.len() as int) =~= key@);
    true
}

/// Whether the bytes of `content` from `from` to `to` are exactly `word`.
fn is_word(content: &[u8], from: usize, to: usize, word: &[u8]) -> (yes: bool)
    requires
        from <= to <= content@.len(),
    ensures
        yes == (content@.subrange(from as int, to as int) == word@),
{
    let ghost text = content@.subrange(from as int, to as int);
    if to - from != word.len() {
        return false;
    }
    let mut i: usize = 0;
    while i < word.len()
        invariant
            i <= word@.len(),
            from <= to <= content@.len(),
            word@.len() == to - from,
            text == content@.subrange(from as int, to as int),
            forall|j: int| 0 <= j < i ==> #[trigger] text[j] == word@[j],
        decreases word@.len() - i,
    {
        if content[from + i] != word[i] {
            assert(text[i as int] != word@[i as int]);
            return false;
        }
        i += 1;
    }
    assert(text =~= word@);
    true
}

/// A longer row of digits does not write a smaller number.
proof fn lemma_decimal_grows(digits: Seq<u8>, shorter: int)
    requires
        all_digits(digits),
        0 <= shorter <= digits.len(),
    ensures
        0 <= decimal(digits.subrange(0, shorter)) <= decimal(digits),
    decreases digits.len() - shorter,
{
    if shorter == digits.len() {
        assert(digits.subrange(0, shorter) =~= digits);
        lemma_decimal_nonnegative(digits);
    } else {
        let next = digits.subrange(0, shorter + 1);
        assert(next.drop_last() =~= digits.subrange(0, shorter));
        assert(next.last() == digits[shorter]);
        lemma_decimal_nonnegative(digits.subrange(0, shorter));
        lemma_decimal_grows(digits, shorter + 1);
    }
}

/// A row of digits writes no negative number.
proof fn lemma_decimal_nonnegative(digits: Seq<u8>)
    requires
        all_digits(digits),
    ensures
        0 <= decimal(digits),
    decreases digits.len(),
{
    if digits.len() > 0 {
        lemma_decimal_nonnegative(digits.drop_last());
    }
}

/// Reads the bytes of `content` from `from` to `to` as a decimal byte.
fn parse_u8(content: &[u8], from: usize, to: usize) -> (value: Option<u8>)
    requires
        from <= to <= content@.len(),
    ensures
        value == parsed_u8(content@.subrange(from as int, to as int)),
{
    let ghost text = content@.subrange(from as int, to as int);
    let start: usize = if from < to && content[from] == 0x2B {
        from + 1
    } else {
        from
    };
    let ghost digits = content@.subrange(start as int, to as int);
    proof {
        if from < to && content@[from as int] == 0x2B {
            assert(text[0] == 0x2B);
            assert(digits =~= text.subrange(1, text.len() as int));
        } else {
            assert(digits =~= text);
            if text.len() > 0 {
                assert(text[0] == content@[from as int]);
            }
        }
    }
    assert(parsed_u8(text) == digits_value(digits));
    if start == to {
        return None;
    }
    let mut total: u16 = 0;
    let mut i: usize = start;
    assert(digits.subrange(0, 0) =~= Seq::<u8>::empty());
    while i < to
        invariant
            start <= i <= to <= content@.len(),
            start < to,
            text == content@.subrange(from as int, to as int),
            parsed_u8(text) == digits_value(digits),
            digits == content@.subrange(start as int, to as int),
            all_digits(digits.subrange(0, i - start)),
            total == decimal(digits.subrange(0, i - start)),
            total <= 255,
        decreases to - i,
    {
        let byte = content[i];
        let ghost read = digits.subrange(0, i - start);
        let ghost more = digits.subrange(0, i - start + 1);
        proof {
            assert(more.drop_last() =~= read);
            assert(more.last() == byte);
        }
        if byte < 0x30 || byte > 0x39 {
            assert(!all_digits(digits)) by {
                assert(digits[i - start] == byte);
            }
            return None;
        }
        assert(all_digits(more)) by {
            assert forall|j: int| 0 <= j < more.len() implies 0x30 <= #[trigger] more[j] <= 0x39 by {
                if j < read.len() {
                    assert(more[j] == read[j]);
                }
            }
        }
        total = total * 10 + (byte - 0x30) as u16;
        if total > 255 {
            proof {
                if all_digits(digits) {
                    lemma_decimal_grows(digits, i - start + 1);
                }
            }
            return None;
        }
        i += 1;
    }
    assert(digits.subrange(0, to - start) =~= digits);
    Some(total as u8)
}

/// Reads the battery's charge in percent and whether it is charging from
/// the text of the power supply's state file.
pub fn read_battery(content: &[u8]) -> (state: (u8, bool))
    ensures
        state == battery_state(content@),
{
    let capacity_key: [u8; 22] = [
        0x50, 0x4F, 0x57, 0x45, 0x52, 0x5F, 0x53, 0x55, 0x50, 0x50, 0x4C, 0x59, 0x5F, 0x43, 0x41,
        0x50, 0x41, 0x43, 0x49, 0x54, 0x59, 0x3D,
    ];
    let status_key: [u8; 20] = [
        0x50, 0x4F, 0x57, 0x45, 0x52, 0x5F, 0x53, 0x55, 0x50, 0x50, 0x4C, 0x59, 0x5F, 0x53, 0x54,
        0x41, 0x54, 0x55, 0x53, 0x3D,
    ];
    let charging_word: [u8; 8] = [0x43, 0x68, 0x61, 0x72, 0x67, 0x69, 0x6E, 0x67];
    assert(capacity_key@ =~= self::capacity_key());
    assert(status_key@ =~= self::status_key());
    assert(charging_word@ =~= self::charging_word());

    let mut capacity: u8 = DEFAULT_CAPACITY;
    let mut charging: bool = false;
    let mut from: usize = 0;
    while from < content.len()
        invariant
            from <= content@.len(),
            capacity_key@ == self::capacity_key(),
            status_key@ == self::status_key(),
            charging_word@ == self::charging_word(),
            battery_state(content@) == read_from(content@, from as int, (capacity, charging)),
        decreases content@.len() - from,
    {
        let end = find_line_end(content, from);
        let stop: usize = if from < end && end < content.len() && content[end - 1] == 0x0D {
            end - 1
        } else {
            end
        };
        assert(content@.subrange(from as int, stop as int) == line_at(content@, from as int));
        let ghost line = line_at(content@, from as int);
        let ghost state = (capacity, charging);
        assert(read_from(content@, from as int, state) == if end >= content@.len() {
            after_line(state, line)
        } else {
            read_from(content@, end + 1, after_line(state, line))
        });
        if begins_with(content, from, stop, capacity_key.as_slice()) {
            assert(content@.subrange(from + 22, stop as int) =~= line.subrange(22, line.len() as int));
            capacity = match parse_u8(content, from + 22, stop) {
                Some(value) => value,
                None => DEFAULT_CAPACITY,
            };
        } else if begins_with(content, from, stop, status_key.as_slice()) {
            assert(content@.subrange(from + 20, stop as int) =~= line.subrange(20, line.len() as int));
            charging = is_word(content, from + 20, stop, charging_word.as_slice());
        }
        assert((capacity, charging) == after_line(state, line));
        if end >= content.len() {
            from = content.len();
        } else {
            from = end + 1;
        }
    }
    (capacity, charging)
}

} // verus!
