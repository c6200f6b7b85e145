//! Which configuration sources the `config` crate reads without panicking.
//!
//! `config` reads every top-level key of the TOML file, and every key that
//! it makes of an environment name under its prefix, as a key path: an
//! identifier followed by `.child` parts and `[n]` array indices. When it
//! stores a value under a path whose index is negative it subtracts from the
//! array's length, and under a large index it grows the array to that
//! length; a negative index beyond the length overflows and a huge one fails
//! to allocate. Sources whose keys parse to a negative or large index are
//! refused; keys that do not parse as a path are stored as they are and are
//! harmless.

use vstd::prelude::*;
use vstd::string::StrSliceExecFns;
use crate::text::{decimal_value, is_digit};

verus! {

/// The top-level keys that `config` reads from a TOML text, in order, or
/// `None` when the text is not TOML.
pub uninterp spec fn toml_top_keys(text: Seq<char>) -> Option<Seq<Seq<char>>>;

/// The keys that `config` makes of the environment pairs `env` read under
/// `prefix` and `separator` (value parsing switched by `parse`), in order,
/// or `None` when it reports an error.
pub uninterp spec fn env_setting_keys(
    env: Seq<(Seq<char>, Seq<char>)>,
    prefix: Seq<char>,
    separator: Seq<char>,
    parse: bool,
) -> Option<Seq<Seq<char>>>;

/// Calls `config::Source::collect` on a `config::File` made from the TOML
/// text and lists the keys of the map it returns. Claimed: the keys are the
/// named ones. Parsing reads no key as a path, so it does not panic.
#[verifier::external_body]
pub(crate) fn read_toml_top_keys(text: &str) -> (r: Option<Vec<String>>)
    ensures
        match r {
            Some(keys) => toml_top_keys(text@) == Some(keys.deep_view()),
            None => toml_top_keys(text@) is None,
        },
{
    config::Source::collect(&config::File::from_str(text, config::FileFormat::Toml))
        .ok()
        .map(|m| m.keys().cloned().collect())
}

/// Calls `config::Source::collect` on a `config::Environment` fed with
/// `env` and lists the keys of the map it returns. Claimed: the keys are
/// the named ones. Collecting reads no key as a path, so it does not panic.
#[verifier::external_body]
pub(crate) fn read_env_setting_keys(
    env: &Vec<(String, String)>,
    prefix: &str,
    separator: &str,
    parse: bool,
) -> (r: Option<Vec<String>>)
    ensures
        match r {
            Some(keys) => env_setting_keys(env.deep_view(), prefix@, separator@, parse) == Some(keys.deep_view()),
            None => env_setting_keys(env.deep_view(), prefix@, separator@, parse) is None,
        },
{
    config::Source::collect(&config::Environment::with_prefix(prefix).separator(separator).try_parsing(parse)
        .source(Some(env.iter().cloned().collect())))
        .ok()
        .map(|m| m.keys().cloned().collect())
}

/// The smallest array index that counts as too large.
pub open spec fn index_limit() -> nat {
    65536
}

/// Classes of characters in a key path: an identifier's, blank, digit.
pub open spec fn in_class(c: char, class: u8) -> bool {
    if class == 0 {
        ('a' <= c && c <= 'z') || ('A' <= c && c <= 'Z') || ('0' <= c && c <= '9') || c == ' '
            || c == '_' || c == '-'
    } else if class == 1 {
        c == ' ' || c == '\t'
    } else {
        '0' <= c && c <= '9'
    }
}

/// Where the run of characters of `class` that starts at `i` ends.
pub open spec fn span_end(s: Seq<char>, i: int, class: u8) -> int
    decreases s.len() - i,
{
    if i < 0 || i >= s.len() || !in_class(s[i], class) {
        i
    } else {
        span_end(s, i + 1, class)
    }
}

/// A run of characters of a class ends no earlier than it starts, and within
/// the text.
pub proof fn span_end_bounds(s: Seq<char>, i: int, class: u8)
    requires
        0 <= i,
    ensures
        i <= span_end(s, i, class),
        i <= s.len() ==> span_end(s, i, class) <= s.len(),
    decreases s.len() - i,
{
    if i < s.len() && in_class(s[i], class) {
        span_end_bounds(s, i + 1, class);
    }
}

/// The number that the digits from `b` up to `c` write.
pub open spec fn digits_value(s: Seq<char>, b: int, c: int) -> nat
    decreases c - b,
{
    if c <= b {
        0
    } else {
        digits_value(s, b, c - 1) * 10 + ((s[c - 1] as u32) - 48) as nat
    }
}

/// Reading the rest of a key path from `i`: whether it parses, and whether
/// one of its indices is negative or at least `index_limit()`.
pub open spec fn path_rest(s: Seq<char>, i: int) -> (bool, bool)
    decreases s.len() - i,
{
    if i < 0 || i >= s.len() {
        (true, false)
    } else if s[i] == '.' {
        let j = span_end(s, i + 1, 0);
        proof {
            span_end_bounds(s, i + 1, 0);
        }
        if j == i + 1 {
            (false, false)
        } else {
            path_rest(s, j)
        }
    } else if s[i] == '[' {
        let a = span_end(s, i + 1, 1);
        let neg = a < s.len() && s[a] == '-';
        let b = if neg { a + 1 } else { a };
        let c = span_end(s, b, 2);
        let d = span_end(s, c, 1);
        proof {
            span_end_bounds(s, i + 1, 1);
            span_end_bounds(s, b, 2);
            span_end_bounds(s, c, 1);
        }
        let v = digits_value(s, b, c);
        let fits = if neg { v <= isize::MAX + 1 } else { v <= isize::MAX };
        if c > b && d < s.len() && s[d] == ']' && fits {
            let rest = path_rest(s, d + 1);
            (rest.0, rest.1 || (neg && v > 0) || (!neg && v >= index_limit()))
        } else {
            (false, false)
        }
    } else {
        (false, false)
    }
}

/// Whether `config` reads the key as a path with a negative or too large
/// array index.
pub open spec fn index_trouble(key: Seq<char>) -> bool {
    let j = span_end(key, 0, 0);
    j > 0 && path_rest(key, j).0 && path_rest(key, j).1
}

/// Whether none of `keys` is read with a negative or too large index.
pub open spec fn keys_plain(keys: Seq<Seq<char>>) -> bool {
    forall|i: int| 0 <= i < keys.len() ==> !index_trouble(#[trigger] keys[i])
}

/// The part of the environment that `config` stores: plain when its keys
/// are.
pub open spec fn env_plain(
    env: Seq<(Seq<char>, Seq<char>)>,
    prefix: Seq<char>,
    separator: Seq<char>,
    parse: bool,
) -> bool {
    match env_setting_keys(env, prefix, separator, parse) {
        Some(keys) => keys_plain(keys),
        None => true,
    }
}

/// Whether `config` stores the sources without panicking. A file that is
/// not TOML stops the merge before anything is stored.
pub open spec fn sources_panic_free(
    file: Option<Seq<char>>,
    env: Seq<(Seq<char>, Seq<char>)>,
    prefix: Seq<char>,
    separator: Seq<char>,
    parse: bool,
) -> bool {
    match file {
        Some(text) => match toml_top_keys(text) {
            Some(keys) => keys_plain(keys) && env_plain(env, prefix, separator, parse),
            None => true,
        },
        None => env_plain(env, prefix, separator, parse),
    }
}

proof fn span_end_exact(s: Seq<char>, i: int, k: int, class: u8)
    requires
        0 <= i <= k <= s.len(),
        forall|j: int| i <= j < k ==> in_class(#[trigger] s[j], class),
        k == s.len() || !in_class(s[k], class),
    ensures
        span_end(s, i, class) == k,
    decreases k - i,
{
    if i < k {
        span_end_exact(s, i + 1, k, class);
    }
}

proof fn digits_value_reads_decimal(s: Seq<char>, b: int, c: int)
    requires
        0 <= b <= c <= s.len(),
    ensures
        digits_value(s, b, c) == decimal_value(s.subrange(b, c)),
    decreases c - b,
{
    if b < c {
        digits_value_reads_decimal(s, b, c - 1);
        assert(s.subrange(b, c).drop_last() =~= s.subrange(b, c - 1));
    } else {
        assert(s.subrange(b, c) =~= Seq::<char>::empty());
    }
}

/// A key made of an identifier and one array index, `name[n]` or
/// `name[-n]`, is refused exactly when the index is negative and not zero,
/// or at least `index_limit()`.
pub proof fn single_index_trouble(name: Seq<char>, neg: bool, digits: Seq<char>)
    requires
        name.len() > 0,
        forall|j: int| 0 <= j < name.len() ==> in_class(#[trigger] name[j], 0),
        digits.len() > 0,
        forall|j: int| 0 <= j < digits.len() ==> is_digit(#[trigger] digits[j]),
        decimal_value(digits) <= isize::MAX,
    ensures
        index_trouble(name + seq!['['] + (if neg { seq!['-'] } else { Seq::<char>::empty() }) + digits + seq![']'])
            == ((neg && decimal_value(digits) > 0) || (!neg && decimal_value(digits) >= index_limit())),
{
    let sign = if neg { seq!['-'] } else { Seq::<char>::empty() };
    let key = name + seq!['['] + sign + digits + seq![']'];
    let n = name.len() as int;
    let b = n + 1 + sign.len();
    let c = b + digits.len();
    assert(key.len() == c + 1);
    assert(forall|j: int| 0 <= j < n ==> key[j] == name[j]);
    assert(key[n] == '[');
    assert(forall|j: int| b <= j < c ==> key[j] == digits[j - b]);
    assert(key[c] == ']');
    span_end_exact(key, 0, n, 0);
    if neg {
        assert(key[n + 1] == '-');
        span_end_exact(key, n + 1, n + 1, 1);
    } else {
        assert(key[n + 1] == digits[0]);
        span_end_exact(key, n + 1, n + 1, 1);
    }
    assert forall|j: int| b <= j < c implies in_class(#[trigger] key[j], 2) by {
        assert(key[j] == digits[j - b]);
    }
    span_end_exact(key, b, c, 2);
    span_end_exact(key, c, c, 1);
    digits_value_reads_decimal(key, b, c);
    assert(key.subrange(b, c) =~= digits);
    assert(path_rest(key, c + 1) == (true, false));
}

/// Whether a key holds `[`.
pub open spec fn holds_bracket(key: Seq<char>) -> bool {
    exists|j: int| 0 <= j < key.len() && key[j] == '['
}

proof fn rest_trouble_needs_bracket(s: Seq<char>, i: int)
    requires
        0 <= i,
        path_rest(s, i).1,
    ensures
        exists|j: int| i <= j < s.len() && s[j] == '[',
    decreases s.len() - i,
{
    if i < s.len() {
        if s[i] == '.' {
            let j = span_end(s, i + 1, 0);
            span_end_bounds(s, i + 1, 0);
            rest_trouble_needs_bracket(s, j);
        } else {
            assert(s[i] == '[');
        }
    }
}

/// Only an array index can be in trouble: a key without `[` is never
/// refused, whatever its dots and identifiers.
pub proof fn trouble_needs_bracket(key: Seq<char>)
    ensures
        index_trouble(key) ==> holds_bracket(key),
{
    if index_trouble(key) {
        rest_trouble_needs_bracket(key, span_end(key, 0, 0));
    }
}

/// Keys that hold no `[` are all plain.
pub proof fn bracketless_keys_plain(keys: Seq<Seq<char>>)
    requires
        forall|i: int| 0 <= i < keys.len() ==> !holds_bracket(#[trigger] keys[i]),
    ensures
        keys_plain(keys),
{
    assert forall|i: int| 0 <= i < keys.len() implies !index_trouble(#[trigger] keys[i]) by {
        trouble_needs_bracket(keys[i]);
    }
}

/// Sources whose keys hold no `[` are stored without trouble: the check is
/// passed whatever else the keys hold.
pub proof fn bracketless_sources_panic_free(
    file: Option<Seq<char>>,
    env: Seq<(Seq<char>, Seq<char>)>,
    prefix: Seq<char>,
    separator: Seq<char>,
    parse: bool,
)
    requires
        match file {
            Some(text) => toml_top_keys(text) matches Some(keys) ==> forall|i: int| 0 <= i < keys.len() ==> !holds_bracket(#[trigger] keys[i]),
            None => true,
        },
        env_setting_keys(env, prefix, separator, parse) matches Some(keys) ==> forall|i: int| 0 <= i < keys.len() ==> !holds_bracket(#[trigger] keys[i]),
    ensures
        sources_panic_free(file, env, prefix, separator, parse),
{
    if let Some(keys) = env_setting_keys(env, prefix, separator, parse) {
        bracketless_keys_plain(keys);
    }
    if let Some(text) = file {
        if let Some(keys) = toml_top_keys(text) {
            bracketless_keys_plain(keys);
        }
    }
}

/// A key of either source that is read with a negative or too large index
/// makes the sources refused, unless the file is not TOML at all (the merge
/// then stops before any key is stored).
pub proof fn troubled_key_refused(
    file: Option<Seq<char>>,
    env: Seq<(Seq<char>, Seq<char>)>,
    prefix: Seq<char>,
    separator: Seq<char>,
    parse: bool,
    key: Seq<char>,
)
    requires
        index_trouble(key),
        file matches Some(text) ==> toml_top_keys(text) is Some,
        (file matches Some(text) && toml_top_keys(text) matches Some(keys) && keys.contains(key))
            || (env_setting_keys(env, prefix, separator, parse) matches Some(keys) && keys.contains(key)),
    ensures
        !sources_panic_free(file, env, prefix, separator, parse),
{
}

fn char_in_class(c: char, class: u8) -> (r: bool)
    ensures
        r == in_class(c, class),
{
    if class == 0 {
        ('a' <= c && c <= 'z') || ('A' <= c && c <= 'Z') || ('0' <= c && c <= '9') || c == ' '
            || c == '_' || c == '-'
    } else if class == 1 {
        c == ' ' || c == '\t'
    } else {
        '0' <= c && c <= '9'
    }
}

fn span_end_exec(s: &str, n: usize, i: usize, class: u8) -> (r: usize)
    requires
        n == s@.len(),
        i <= n,
    ensures
        r as int == span_end(s@, i as int, class),
        i <= r <= n,
{
    let mut j = i;
    while j < n && char_in_class(s.get_char(j), class)
        invariant
            n == s@.len(),
            i <= j <= n,
            span_end(s@, i as int, class) == span_end(s@, j as int, class),
        decreases n - j,
    {
        j = j + 1;
    }
    j
}

proof fn digits_value_grows(s: Seq<char>, b: int, c: int)
    requires
        b < c,
        in_class(s[c - 1], 2),
    ensures
        digits_value(s, b, c) >= digits_value(s, b, c - 1),
        digits_value(s, b, c) == digits_value(s, b, c - 1) * 10 + ((s[c - 1] as u32) - 48) as nat,
{
}

/// The number that the digits from `b` up to `c` write, or `cap` when it
/// is at least `cap`.
fn digits_value_capped(s: &str, n: usize, b: usize, c: usize) -> (r: u128)
    requires
        n == s@.len(),
        b <= c <= n,
        forall|k: int| b <= k < c ==> in_class(#[trigger] s@[k], 2),
    ensures
        r == if digits_value(s@, b as int, c as int) < 0x1_0000_0000_0000_0000 {
            digits_value(s@, b as int, c as int)
        } else {
            0x1_0000_0000_0000_0000
        },
{
    let cap: u128 = 0x1_0000_0000_0000_0000;
    let mut v: u128 = 0;
    let mut j = b;
    while j < c
        invariant
            n == s@.len(),
            b <= j <= c <= n,
            forall|k: int| b <= k < c ==> in_class(#[trigger] s@[k], 2),
            v == if digits_value(s@, b as int, j as int) < cap { digits_value(s@, b as int, j as int) } else { cap as nat },
            cap == 0x1_0000_0000_0000_0000,
        decreases c - j,
    {
        let ch = s.get_char(j);
        let d: u128 = ((ch as u32) - 48) as u128;
        proof {
            assert(in_class(s@[j as int], 2));
            digits_value_grows(s@, b as int, j + 1);
        }
        if v >= cap {
            v = cap;
        } else {
            let w: u128 = v * 10 + d;
            v = if w >= cap { cap } else { w };
        }
        j = j + 1;
    }
    v
}

/// Whether `config` reads the key as a path with a negative or too large
/// array index.
pub fn index_trouble_check(key: &str) -> (r: bool)
    ensures
        r == index_trouble(key@),
{
    let n = key.unicode_len();
    let first = span_end_exec(key, n, 0, 0);
    if first == 0 {
        return false;
    }
    let ghost s = key@;
    let mut i = first;
    let mut trouble = false;
    while i < n
        invariant
            n == s.len(),
            s == key@,
            0 < first <= i <= n,
            index_trouble(s) == (path_rest(s, i as int).0 && (trouble || path_rest(s, i as int).1)),
            span_end(s, 0, 0) == first as int,
        decreases n - i,
    {
        let c = key.get_char(i);
        if c == '.' {
            let j = span_end_exec(key, n, i + 1, 0);
            if j == i + 1 {
                return false;
            }
            i = j;
        } else if c == '[' {
            let a = span_end_exec(key, n, i + 1, 1);
            let neg = a < n && key.get_char(a) == '-';
            let b = if neg { a + 1 } else { a };
            let e = span_end_exec(key, n, b, 2);
            let d = span_end_exec(key, n, e, 1);
            proof {
                assert forall|k: int| b <= k < e implies in_class(#[trigger] s[k], 2) by {
                    span_end_digits(s, b as int, k);
                }
            }
            let v = digits_value_capped(key, n, b, e);
            let max: u128 = isize::MAX as u128;
            let fits = if neg { v <= max + 1 } else { v <= max };
            if !(e > b && d < n && key.get_char(d) == ']' && fits) {
                return false;
            }
            if (neg && v > 0) || (!neg && v >= 65536) {
                trouble = true;
            }
            i = d + 1;
        } else {
            return false;
        }
    }
    trouble
}

proof fn span_end_digits(s: Seq<char>, b: int, k: int)
    requires
        0 <= b <= k < span_end(s, b, 2),
    ensures
        in_class(s[k], 2),
    decreases k - b,
{
    if k > b {
        span_end_digits(s, b + 1, k);
    }
}

/// Whether none of `keys` is read with a negative or too large index.
pub fn keys_plain_check(keys: &Vec<String>) -> (r: bool)
    ensures
        r == keys_plain(keys.deep_view()),
{
    let mut i: usize = 0;
    while i < keys.len()
        invariant
            i <= keys@.len(),
            keys.deep_view().len() == keys@.len(),
            forall|k: int| 0 <= k < i ==> !index_trouble(#[trigger] keys.deep_view()[k]),
        decreases keys@.len() - i,
    {
        assert(keys.deep_view()[i as int] == keys[i as int]@);
        if index_trouble_check(keys[i].as_str()) {
            return false;
        }
        i = i + 1;
    }
    true
}

} // verus!
