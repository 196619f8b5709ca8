use vstd::prelude::*;

use vstd::string::StringSliceAdditionalSpecFns;

verus! {

/// Available memory (KB) assumed when it cannot be determined: 8 GiB.
pub const FALLBACK_MEMORY_KB: usize = 8388608;

pub open spec fn min_nat(a: nat, b: nat) -> nat {
    if a <= b { a } else { b }
}

pub open spec fn max_nat(a: nat, b: nat) -> nat {
    if a >= b { a } else { b }
}

/// Buffer size in KB: an explicit request is kept as it is; otherwise block
/// devices get between 8 and 64 MiB (at most 1/50 of available memory above
/// the floor), regular files between 4 and 32 MiB (1/100 of memory).
pub open spec fn optimal_buffer_kb(is_block_device: bool, requested: Option<usize>, memory_kb: Option<nat>) -> nat {
    if let Some(kb) = requested {
        kb as nat
    } else {
        let memory = match memory_kb {
            Some(m) => m,
            None => FALLBACK_MEMORY_KB as nat,
        };
        if is_block_device {
            max_nat(8192, min_nat(65536, memory / 50))
        } else {
            max_nat(4096, min_nat(32768, memory / 100))
        }
    }
}

/// Chooses the I/O buffer size in KB from the device kind, the requested
/// size (`None` for automatic) and the available memory, if known.
pub fn get_optimal_buffer_size(
    is_block_device: bool,
    requested_size: Option<usize>,
    available_memory_kb: Option<usize>,
) -> (r: usize)
    ensures
        r == optimal_buffer_kb(
            is_block_device,
            requested_size,
            match available_memory_kb {
                Some(m) => Some(m as nat),
                None => None,
            },
        ),
        requested_size is None ==> 4096 <= r <= 65536,
{
    if let Some(kb) = requested_size {
        return kb;
    }
    let memory = match available_memory_kb {
        Some(m) => m,
        None => FALLBACK_MEMORY_KB,
    };
    if is_block_device {
        let capped = if memory / 50 < 65536 { memory / 50 } else { 65536 };
        if capped > 8192 { capped } else { 8192 }
    } else {
        let capped = if memory / 100 < 32768 { memory / 100 } else { 32768 };
        if capped > 4096 { capped } else { 4096 }
    }
}

/// ASCII whitespace: space, tab, line feed, vertical tab, form feed, carriage return.
pub open spec fn is_space(c: u8) -> bool {
    c == 32 || (9 <= c && c <= 13)
}

pub open spec fn is_digit(c: u8) -> bool {
    48 <= c && c <= 57
}

/// End of the line that starts at `i`: the next line feed, or the end of the text.
pub open spec fn line_end(s: Seq<u8>, i: nat) -> nat
    decreases s.len() - i,
{
    if i >= s.len() {
        s.len()
    } else if s[i as int] == 10 {
        i
    } else {
        line_end(s, i + 1)
    }
}

/// First index at or after `i`, below `end`, that is not whitespace.
pub open spec fn skip_spaces(s: Seq<u8>, i: nat, end: nat) -> nat
    decreases end - i,
{
    if i < end && i < s.len() && is_space(s[i as int]) {
        skip_spaces(s, i + 1, end)
    } else {
        i
    }
}

/// First index at or after `i`, below `end`, that is whitespace.
pub open spec fn skip_word(s: Seq<u8>, i: nat, end: nat) -> nat
    decreases end - i,
{
    if i < end && i < s.len() && !is_space(s[i as int]) {
        skip_word(s, i + 1, end)
    } else {
        i
    }
}

pub open spec fn all_digits(d: Seq<u8>) -> bool {
    forall|k: int| 0 <= k < d.len() ==> is_digit(#[trigger] d[k])
}

/// The number that decimal digits spell.
pub open spec fn decimal_value(d: Seq<u8>) -> nat
    decreases d.len(),
{
    if d.len() == 0 {
        0
    } else {
        decimal_value(d.drop_last()) * 10 + (d.last() - 48) as nat
    }
}

/// An unsigned integer in decimal, with an optional leading `+`, that fits in `usize`.
pub open spec fn parse_usize_spec(t: Seq<u8>) -> Option<nat> {
    let d = if t.len() > 0 && t[0] == 43 { t.subrange(1, t.len() as int) } else { t };
    if d.len() > 0 && all_digits(d) && decimal_value(d) <= usize::MAX {
        Some(decimal_value(d))
    } else {
        None
    }
}

pub open spec fn mem_available_tag() -> Seq<u8> {
    "MemAvailable:".spec_bytes()
}

/// The value of the line `s[start..end]`: the number in its second
/// whitespace-separated field, if the line starts with `MemAvailable:`.
pub open spec fn line_value(s: Seq<u8>, start: nat, end: nat) -> Option<nat> {
    let tag = mem_available_tag();
    if start + tag.len() <= end && s.subrange(start as int, (start + tag.len()) as int) == tag {
        let a = skip_spaces(s, start, end);
        let b = skip_word(s, a, end);
        let c = skip_spaces(s, b, end);
        let d = skip_word(s, c, end);
        if c < d {
            parse_usize_spec(s.subrange(c as int, d as int))
        } else {
            None
        }
    } else {
        None
    }
}

/// The first line, from `i` on, whose value is defined.
pub open spec fn mem_scan(s: Seq<u8>, i: nat) -> Option<nat>
    decreases s.len() - i,
{
    if i >= s.len() {
        None
    } else {
        let e = line_end(s, i);
        match line_value(s, i, e) {
            Some(v) => Some(v),
            None => if i <= e && e < s.len() {
                mem_scan(s, e + 1)
            } else {
                None
            },
        }
    }
}

fn find_line_end(s: &[u8], i: usize) -> (r: usize)
    requires
        i <= s@.len(),
    ensures
        r == line_end(s@, i as nat),
        i <= r <= s@.len(),
{
    let mut j = i;
    while j < s.len() && s[j] != 10
        invariant
            i <= j <= s@.len(),
            line_end(s@, j as nat) == line_end(s@, i as nat),
        decreases s@.len() - j,
    {
        j = j + 1;
    }
    j
}

fn skip_spaces_from(s: &[u8], i: usize, end: usize) -> (r: usize)
    requires
        i <= end <= s@.len(),
    ensures
        r == skip_spaces(s@, i as nat, end as nat),
        i <= r <= end,
{
    let mut j = i;
    while j < end && (s[j] == 32 || (9 <= s[j] && s[j] <= 13))
        invariant
            i <= j <= end,
            end <= s@.len(),
            skip_spaces(s@, j as nat, end as nat) == skip_spaces(s@, i as nat, end as nat),
        decreases end - j,
    {
        j = j + 1;
    }
    j
}

fn skip_word_from(s: &[u8], i: usize, end: usize) -> (r: usize)
    requires
        i <= end <= s@.len(),
    ensures
        r == skip_word(s@, i as nat, end as nat),
        i <= r <= end,
{
    let mut j = i;
    while j < end && !(s[j] == 32 || (9 <= s[j] && s[j] <= 13))
        invariant
            i <= j <= end,
            end <= s@.len(),
            skip_word(s@, j as nat, end as nat) == skip_word(s@, i as nat, end as nat),
        decreases end - j,
    {
        j = j + 1;
    }
    j
}

/// A longer run of digits spells at least as large a number as its prefix.
proof fn lemma_decimal_prefix(t: Seq<u8>, m: nat)
    requires
        m <= t.len(),
        all_digits(t),
    ensures
        decimal_value(t.subrange(0, m as int)) <= decimal_value(t),
    decreases t.len(),
{
    if m < t.len() {
        let shorter = t.drop_last();
        assert(all_digits(shorter)) by {
            assert forall|k: int| 0 <= k < shorter.len() implies is_digit(#[trigger] shorter[k]) by {
                assert(shorter[k] == t[k]);
            }
        }
        lemma_decimal_prefix(shorter, m);
        assert(shorter.subrange(0, m as int) =~= t.subrange(0, m as int));
    } else {
        assert(t.subrange(0, m as int) =~= t);
    }
}

/// Parses `s[c..d]` as a `usize` in decimal, with an optional leading `+`.
fn parse_usize_at(s: &[u8], c: usize, d: usize) -> (r: Option<usize>)
    requires
        c <= d <= s@.len(),
    ensures
        r == (match parse_usize_spec(s@.subrange(c as int, d as int)) {
            Some(v) => Some(v as usize),
            None => None::<usize>,
        }),
{
    let ghost t = s@.subrange(c as int, d as int);
    let mut k = c;
    if k < d && s[k] == 43 {
        k = k + 1;
    }
    let ghost digits = if t.len() > 0 && t[0] == 43 {
        t.subrange(1, t.len() as int)
    } else {
        t
    };
    assert(digits =~= s@.subrange(k as int, d as int));
    if k >= d {
        return None;
    }
    let mut j = k;
    while j < d
        invariant
            k <= j <= d,
            d <= s@.len(),
            digits == s@.subrange(k as int, d as int),
            t == s@.subrange(c as int, d as int),
            digits == (if t.len() > 0 && t[0] == 43 {
                t.subrange(1, t.len() as int)
            } else {
                t
            }),
            forall|x: int| k <= x < j ==> is_digit(#[trigger] s@[x]),
        decreases d - j,
    {
        if !(48 <= s[j] && s[j] <= 57) {
            assert(!is_digit(digits[j - k]));
            assert(!all_digits(digits));
            return None;
        }
        j = j + 1;
    }
    assert(all_digits(digits)) by {
        assert forall|x: int| 0 <= x < digits.len() implies is_digit(#[trigger] digits[x]) by {
            assert(digits[x] == s@[x + k]);
        }
    }
    let mut acc: usize = 0;
    let mut j = k;
    while j < d
        invariant
            k <= j <= d,
            d <= s@.len(),
            digits == s@.subrange(k as int, d as int),
            t == s@.subrange(c as int, d as int),
            digits == (if t.len() > 0 && t[0] == 43 {
                t.subrange(1, t.len() as int)
            } else {
                t
            }),
            all_digits(digits),
            acc as nat == decimal_value(s@.subrange(k as int, j as int)),
        decreases d - j,
    {
        assert(is_digit(digits[j - k]) && digits[j - k] == s@[j as int]);
        let digit = (s[j] - 48) as usize;
        proof {
            let next = s@.subrange(k as int, j + 1);
            assert(next.drop_last() =~= s@.subrange(k as int, j as int));
            assert(is_digit(digits[j - k]));
            assert(decimal_value(next) == acc * 10 + digit);
        }
        let wide = acc as u128 * 10 + digit as u128;
        if wide > usize::MAX as u128 {
            proof {
                lemma_decimal_prefix(digits, (j + 1 - k) as nat);
                assert(digits.subrange(0, j + 1 - k) =~= s@.subrange(k as int, j + 1));
                assert(decimal_value(digits) > usize::MAX);
            }
            return None;
        }
        acc = wide as usize;
        j = j + 1;
    }
    assert(s@.subrange(k as int, d as int) =~= digits);
    Some(acc)
}

/// The value of the line `s[start..end]`, per `line_value`.
fn line_value_at(s: &[u8], start: usize, end: usize) -> (r: Option<usize>)
    requires
        start <= end <= s@.len(),
    ensures
        r == (match line_value(s@, start as nat, end as nat) {
            Some(v) => Some(v as usize),
            None => None::<usize>,
        }),
{
    let tag = "MemAvailable:".as_bytes();
    if tag.len() > end - start {
        return None;
    }
    let mut i: usize = 0;
    while i < tag.len()
        invariant
            start + tag@.len() <= end <= s@.len(),
            i <= tag@.len(),
            tag@ == mem_available_tag(),
            forall|x: int| 0 <= x < i ==> s@[start + x] == tag@[x],
        decreases tag@.len() - i,
    {
        if s[start + i] != tag[i] {
            assert(s@.subrange(start as int, start + tag@.len())[i as int] != tag@[i as int]);
            return None;
        }
        i = i + 1;
    }
    assert(s@.subrange(start as int, start + tag@.len()) =~= tag@);
    let a = skip_spaces_from(s, start, end);
    let b = skip_word_from(s, a, end);
    let c = skip_spaces_from(s, b, end);
    let d = skip_word_from(s, c, end);
    if c < d {
        parse_usize_at(s, c, d)
    } else {
        None
    }
}

/// Reads the `MemAvailable:` figure (KB) out of the text of `/proc/meminfo`:
/// the first such line whose second field is a number.
pub fn parse_mem_available_kb(meminfo: &str) -> (r: Option<usize>)
    ensures
        r == (match mem_scan(meminfo.spec_bytes(), 0) {
            Some(v) => Some(v as usize),
            None => None::<usize>,
        }),
{
    let s = meminfo.as_bytes();
    let mut i: usize = 0;
    while i < s.len()
        invariant
            i <= s@.len(),
            s@ == meminfo.spec_bytes(),
            mem_scan(s@, i as nat) == mem_scan(s@, 0),
        decreases s@.len() - i,
    {
        let e = find_line_end(s, i);
        match line_value_at(s, i, e) {
            Some(v) => {
                return Some(v);
            },
            None => {},
        }
        if e >= s.len() {
            return None;
        }
        i = e + 1;
    }
    None
}

/// Available memory (KB) from a page count and a page size, when both are
/// positive and the result fits in `usize`.
pub open spec fn memory_from_pages(pages: i64, page_size: i64) -> Option<nat> {
    if pages > 0 && page_size > 0 && (pages * page_size) / 1024 <= usize::MAX {
        Some(((pages * page_size) / 1024) as nat)
    } else {
        None
    }
}

/// Available memory in KB: the `MemAvailable:` figure of the meminfo text
/// if it has one, otherwise what the count of available pages and the page
/// size give.
pub fn get_available_memory_kb(meminfo: Option<&str>, available_pages: i64, page_size: i64) -> (r: Option<usize>)
    ensures
        r == (match (match meminfo {
            Some(text) => mem_scan(text.spec_bytes(), 0),
            None => None,
        }) {
            Some(v) => Some(v as usize),
            None => match memory_from_pages(available_pages, page_size) {
                Some(v) => Some(v as usize),
                None => None::<usize>,
            },
        }),
{
    if let Some(text) = meminfo {
        if let Some(kb) = parse_mem_available_kb(text) {
            return Some(kb);
        }
    }
    if available_pages > 0 && page_size > 0 {
        assert(available_pages as i128 * page_size as i128 <= i64::MAX as i128 * i64::MAX as i128) by (nonlinear_arith)
            requires 0 < available_pages <= i64::MAX, 0 < page_size <= i64::MAX;
        let total = available_pages as i128 * page_size as i128;
        assert(total == available_pages * page_size);
        let kb = total / 1024;
        if kb <= usize::MAX as i128 {
            return Some(kb as usize);
        }
    }
    None
}

} // verus!
