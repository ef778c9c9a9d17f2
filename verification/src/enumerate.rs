//! The computing half of process enumeration.
//!
//! Walking the platform's process table is the caller's: it yields, per
//! visible process, a numeric-looking table entry and an attempt at a
//! resolved name.  Everything that can be decided about those values is
//! decided here: which table entries denote process identifiers, what a
//! resolved name is once surrounding whitespace is shed, and how the
//! per-process outcomes fold into one listing -- a failed name lookup
//! drops its entry and nothing else, so enumeration as a whole fails only
//! when the table itself could not be read.

use vstd::prelude::*;

use crate::process::Process;

verus! {

/// Whether `c` is a decimal digit.
pub open spec fn is_decimal_digit(c: char) -> bool {
    48 <= c as int && c as int <= 57
}

/// The numeric value of the digit `c`.
pub open spec fn digit_value(c: char) -> int {
    c as int - 48
}

/// Whether every character of `s` is a decimal digit.
pub open spec fn all_digits(s: Seq<char>) -> bool {
    forall|i: int| 0 <= i < s.len() ==> is_decimal_digit(s[i])
}

/// The number that `s` denotes in decimal, most significant digit first.
pub open spec fn decimal_value(s: Seq<char>) -> int
    decreases s.len(),
{
    if s.len() == 0 {
        0
    } else {
        decimal_value(s.drop_last()) * 10 + digit_value(s.last())
    }
}

proof fn lemma_decimal_value_nonneg(s: Seq<char>)
    requires
        all_digits(s),
    ensures
        decimal_value(s) >= 0,
    decreases s.len(),
{
    if s.len() > 0 {
        assert(all_digits(s.drop_last()));
        lemma_decimal_value_nonneg(s.drop_last());
    }
}

proof fn lemma_decimal_value_step(s: Seq<char>, i: int)
    requires
        0 <= i < s.len(),
    ensures
        decimal_value(s.take(i + 1)) == decimal_value(s.take(i)) * 10 + digit_value(s[i]),
{
    assert(s.take(i + 1).drop_last() =~= s.take(i));
    assert(s.take(i + 1).last() == s[i]);
}

proof fn lemma_decimal_value_extend(s: Seq<char>, k: int)
    requires
        0 <= k <= s.len(),
        all_digits(s),
    ensures
        decimal_value(s) >= decimal_value(s.take(k)),
    decreases s.len() - k,
{
    if k == s.len() {
        assert(s.take(k) =~= s);
    } else {
        lemma_decimal_value_step(s, k);
        assert(all_digits(s.take(k)));
        lemma_decimal_value_nonneg(s.take(k));
        lemma_decimal_value_extend(s, k + 1);
    }
}

/// Read a process-table entry name as a process identifier.
///
/// The result is the entry's decimal value exactly when the name is
/// nonempty, consists of decimal digits only, and denotes a value that
/// fits the platform's identifier width; any other entry (other files,
/// non-numeric names, an out-of-range number) is no process identifier.
pub fn parse_pid(name: &str) -> (r: Option<u32>)
    ensures
        match r {
            Some(v) => name@.len() > 0 && all_digits(name@) && v == decimal_value(name@),
            None => name@.len() == 0 || !all_digits(name@) || decimal_value(name@) > u32::MAX,
        },
{
    let len = name.unicode_len();
    if len == 0 {
        return None;
    }
    let mut value: u32 = 0;
    let mut i: usize = 0;
    while i < len
        invariant
            len == name@.len(),
            0 <= i <= len,
            forall|j: int| 0 <= j < i ==> is_decimal_digit(name@[j]),
            value == decimal_value(name@.take(i as int)),
        decreases len - i,
    {
        let c = name.get_char(i);
        let d = c as u32;
        if d < 48 || d > 57 {
            assert(!is_decimal_digit(name@[i as int]));
            return None;
        }
        let digit = d - 48;
        proof {
            lemma_decimal_value_step(name@, i as int);
        }
        if value > (u32::MAX - digit) / 10 {
            proof {
                vstd::arithmetic::div_mod::lemma_fundamental_div_mod(
                    (u32::MAX - digit) as int,
                    10,
                );
                vstd::arithmetic::div_mod::lemma_mod_bound((u32::MAX - digit) as int, 10);
                assert(decimal_value(name@.take(i + 1)) > u32::MAX);
                if all_digits(name@) {
                    lemma_decimal_value_extend(name@, i + 1);
                }
            }
            return None;
        }
        proof {
            vstd::arithmetic::div_mod::lemma_fundamental_div_mod((u32::MAX - digit) as int, 10);
            vstd::arithmetic::div_mod::lemma_mod_bound((u32::MAX - digit) as int, 10);
            assert(value * 10 + digit <= u32::MAX);
        }
        value = value * 10 + digit;
        i += 1;
    }
    assert(name@.take(len as int) =~= name@);
    Some(value)
}

/// Whether `c` is whitespace for the purpose of name resolution: the
/// Unicode characters with the White_Space property.
pub open spec fn is_blank(c: char) -> bool {
    let d = c as int;
    d == 0x09 || d == 0x0A || d == 0x0B || d == 0x0C || d == 0x0D || d == 0x20 || d == 0x85
        || d == 0xA0 || d == 0x1680 || (0x2000 <= d && d <= 0x200A) || d == 0x2028 || d == 0x2029
        || d == 0x202F || d == 0x205F || d == 0x3000
}

/// `s` with leading whitespace shed.
pub open spec fn trim_front(s: Seq<char>) -> Seq<char>
    decreases s.len(),
{
    if s.len() > 0 && is_blank(s.first()) {
        trim_front(s.drop_first())
    } else {
        s
    }
}

/// `s` with trailing whitespace shed.
pub open spec fn trim_back(s: Seq<char>) -> Seq<char>
    decreases s.len(),
{
    if s.len() > 0 && is_blank(s.last()) {
        trim_back(s.drop_last())
    } else {
        s
    }
}

/// `s` with whitespace shed from both ends.
pub open spec fn trimmed(s: Seq<char>) -> Seq<char> {
    trim_back(trim_front(s))
}

proof fn lemma_trim_front_is_subrange(s: Seq<char>, k: int)
    requires
        0 <= k <= s.len(),
        forall|j: int| 0 <= j < k ==> is_blank(s[j]),
        k < s.len() ==> !is_blank(s[k]),
    ensures
        trim_front(s) == s.subrange(k, s.len() as int),
    decreases k,
{
    if k == 0 {
        assert(s.subrange(0, s.len() as int) =~= s);
    } else {
        lemma_trim_front_is_subrange(s.drop_first(), k - 1);
        assert(s.drop_first().subrange(k - 1, s.drop_first().len() as int) =~= s.subrange(
            k,
            s.len() as int,
        ));
    }
}

proof fn lemma_trim_back_is_subrange(s: Seq<char>, m: int)
    requires
        0 <= m <= s.len(),
        forall|j: int| m <= j < s.len() ==> is_blank(s[j]),
        m > 0 ==> !is_blank(s[m - 1]),
    ensures
        trim_back(s) == s.subrange(0, m),
    decreases s.len() - m,
{
    if m == s.len() {
        assert(s.subrange(0, m) =~= s);
    } else {
        lemma_trim_back_is_subrange(s.drop_last(), m);
        assert(s.drop_last() =~= s.subrange(0, s.len() - 1));
        assert(s.drop_last().subrange(0, m) =~= s.subrange(0, m));
    }
}

/// The name a raw lookup result resolves to: the text with surrounding
/// whitespace shed, as the platform's name files carry a trailing line
/// break.
pub fn resolve_name(raw: &str) -> (name: String)
    ensures
        name@ == trimmed(raw@),
{
    let len = raw.unicode_len();
    let mut start: usize = 0;
    while start < len && is_blank_char(raw.get_char(start))
        invariant
            len == raw@.len(),
            0 <= start <= len,
            forall|j: int| 0 <= j < start ==> is_blank(raw@[j]),
        decreases len - start,
    {
        start += 1;
    }
    let mut end: usize = len;
    while end > start && is_blank_char(raw.get_char(end - 1))
        invariant
            len == raw@.len(),
            start <= end <= len,
            forall|j: int| end <= j < len ==> is_blank(raw@[j]),
        decreases end,
    {
        end -= 1;
    }
    proof {
        lemma_trim_front_is_subrange(raw@, start as int);
        let t = raw@.subrange(start as int, len as int);
        lemma_trim_back_is_subrange(t, end - start);
        assert(t.subrange(0, end - start) =~= raw@.subrange(start as int, end as int));
    }
    let piece = raw.substring_char(start, end);
    piece.to_owned()
}

/// Whether `c` is whitespace for the purpose of name resolution: the
/// Unicode characters with the White_Space property.
pub fn is_blank_char(c: char) -> (r: bool)
    ensures
        r == is_blank(c),
{
    let d = c as u32;
    d == 0x09 || d == 0x0A || d == 0x0B || d == 0x0C || d == 0x0D || d == 0x20 || d == 0x85
        || d == 0xA0 || d == 0x1680 || (0x2000 <= d && d <= 0x200A) || d == 0x2028 || d == 0x2029
        || d == 0x202F || d == 0x205F || d == 0x3000
}

/// The text that a sequence of UTF-16 code units decodes to, with each
/// invalid unit read as the replacement character.
pub uninterp spec fn utf16_lossy_of(units: Seq<u16>) -> Seq<char>;

/// Relies on String::from_utf16_lossy: the decode, with invalid data
/// replaced by the replacement character, depends on the code units alone.
#[verifier::external_body]
fn decode_utf16_lossy(units: &Vec<u16>) -> (r: String)
    ensures
        r@ == utf16_lossy_of(units@),
{
    String::from_utf16_lossy(units)
}

/// Read a platform name lookup's answer, handed over as UTF-16 code
/// units: an empty answer means the lookup failed for that process; any
/// other answer decodes to the name.
pub fn resolve_module_name(units: &Vec<u16>) -> (r: Option<String>)
    ensures
        match r {
            Some(name) => units@.len() > 0 && name@ == utf16_lossy_of(units@),
            None => units@.len() == 0,
        },
{
    if units.len() == 0 {
        None
    } else {
        Some(decode_utf16_lossy(units))
    }
}

/// One process as the platform's table listed it: the identifier, and the
/// resolved name when the per-process lookup succeeded.
#[derive(Debug, PartialEq, Eq)]
pub struct EnumEntry {
    /// The identifier the platform's table listed.
    pub pid: u32,
    /// The resolved executable name, or `None` when resolution failed for
    /// this process alone.
    pub name: Option<String>,
}

/// The listing that a table walk folds into: one discovered process per
/// entry whose name resolved, in table order; entries whose lookup failed
/// are skipped and poison nothing.
pub open spec fn collected(s: Seq<EnumEntry>) -> Seq<Process>
    decreases s.len(),
{
    if s.len() == 0 {
        Seq::empty()
    } else {
        match s.last().name {
            Some(n) => collected(s.drop_last()).push(Process::discovered_spec(s.last().pid, n)),
            None => collected(s.drop_last()),
        }
    }
}

proof fn lemma_collected_step(s: Seq<EnumEntry>, i: int)
    requires
        0 <= i < s.len(),
    ensures
        collected(s.take(i + 1)) == match s[i].name {
            Some(n) => collected(s.take(i)).push(Process::discovered_spec(s[i].pid, n)),
            None => collected(s.take(i)),
        },
{
    assert(s.take(i + 1).drop_last() =~= s.take(i));
    assert(s.take(i + 1).last() == s[i]);
}

/// Fold the per-process outcomes of a table walk into the listing:
/// exactly the entries whose name resolved, as unopened processes, in
/// table order.
pub fn collect_processes(entries: &Vec<EnumEntry>) -> (ps: Vec<Process>)
    ensures
        ps@ == collected(entries@),
{
    let n = entries.len();
    let mut ps: Vec<Process> = Vec::new();
    let mut i: usize = 0;
    while i < n
        invariant
            n == entries@.len(),
            0 <= i <= n,
            ps@ == collected(entries@.take(i as int)),
        decreases n - i,
    {
        proof {
            lemma_collected_step(entries@, i as int);
        }
        match &entries[i].name {
            Some(resolved) => {
                ps.push(Process::discovered(entries[i].pid, resolved.clone()));
            },
            None => {},
        }
        i += 1;
    }
    assert(entries@.take(n as int) =~= entries@);
    ps
}

/// Enumeration is complete over resolved names: every table entry whose
/// name lookup succeeded appears in the listing, as the unopened process
/// with that entry's identifier and name.
pub proof fn lemma_enumeration_complete(s: Seq<EnumEntry>, i: int, n: String)
    requires
        0 <= i < s.len(),
        s[i].name == Some(n),
    ensures
        exists|k: int|
            0 <= k < collected(s).len() && collected(s)[k] == Process::discovered_spec(
                s[i].pid,
                n,
            ),
    decreases s.len(),
{
    if i == s.len() - 1 {
        let k = collected(s).len() - 1;
        assert(collected(s)[k] == Process::discovered_spec(s[i].pid, n));
    } else {
        assert(s.drop_last()[i] == s[i]);
        lemma_enumeration_complete(s.drop_last(), i, n);
        let k0 = choose|k: int|
            0 <= k < collected(s.drop_last()).len() && collected(s.drop_last())[k]
                == Process::discovered_spec(s[i].pid, n);
        assert(collected(s)[k0] == Process::discovered_spec(s[i].pid, n));
    }
}

} // verus!
