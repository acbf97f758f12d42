//! How long a stored response stays fresh: numbers, dates and
//! `Cache-Control` directives in header values, and the arithmetic of age
//! and lifetime.

use crate::headers::canonical_name;
use crate::headers::has_name;
use crate::headers::valid_name;
use crate::headers::HeaderEntries;
use crate::headers::Headers;
use crate::text::eq_ignore_case;
use crate::text::same_ignoring_case;
use crate::text::slice_to_vec;
use crate::text::split;
use crate::text::split_bytes;
use crate::text::trim_bytes;
use crate::text::trimmed;
use crate::text::views;
use vstd::prelude::*;
use vstd::string::StringSliceAdditionalSpecFns;

verus! {

/// An ASCII digit.
pub open spec fn is_digit(b: u8) -> bool {
    48 <= b <= 57
}

/// Whether `s` consists of ASCII digits.
pub open spec fn all_digits(s: Seq<u8>) -> bool {
    forall|i: int| 0 <= i < s.len() ==> is_digit(#[trigger] s[i])
}

/// The number that the digits of `s` write in decimal.
pub open spec fn decimal(s: Seq<u8>) -> nat
    decreases s.len(),
{
    if s.len() == 0 {
        0
    } else {
        10 * decimal(s.drop_last()) + (s.last() - 48) as nat
    }
}

/// The longest run of digits that is read as a number of seconds.
pub const MAX_DIGITS: usize = 18;

/// The number of seconds that `s` writes: one to eighteen digits.
pub open spec fn seconds(s: Seq<u8>) -> Option<u64> {
    if 1 <= s.len() <= MAX_DIGITS && all_digits(s) {
        Some(decimal(s) as u64)
    } else {
        None
    }
}

/// Ten to the power `n`.
pub open spec fn pow10(n: nat) -> nat
    decreases n,
{
    if n == 0 {
        1
    } else {
        10 * pow10((n - 1) as nat)
    }
}

/// A number of `n` digits is less than ten to the `n`.
pub proof fn lemma_decimal_bound(s: Seq<u8>)
    requires
        all_digits(s),
    ensures
        decimal(s) < pow10(s.len()),
    decreases s.len(),
{
    if s.len() > 0 {
        lemma_decimal_bound(s.drop_last());
    }
}

/// Eighteen digits fit in 64 bits.
pub proof fn lemma_pow10_fits(n: nat)
    requires
        n <= MAX_DIGITS,
    ensures
        pow10(n) <= 1_000_000_000_000_000_000,
    decreases MAX_DIGITS - n,
{
    if n < MAX_DIGITS {
        lemma_pow10_fits(n + 1);
    } else {
        reveal_with_fuel(pow10, 19);
    }
}

/// Reads a number of seconds.
pub fn parse_seconds(s: &[u8]) -> (n: Option<u64>)
    ensures
        n == seconds(s@),
{
    if s.len() == 0 || s.len() > MAX_DIGITS {
        return None;
    }
    let mut value: u64 = 0;
    let mut i: usize = 0;
    while i < s.len()
        invariant
            i <= s.len() <= MAX_DIGITS,
            all_digits(s@.subrange(0, i as int)),
            value == decimal(s@.subrange(0, i as int)),
        decreases s.len() - i,
    {
        let ghost before = s@.subrange(0, i as int);
        let ghost after = s@.subrange(0, i + 1);
        let b: u8 = s[i];
        if b < 48 || b > 57 {
            return None;
        }
        proof {
            assert(after.drop_last() =~= before);
            lemma_decimal_bound(after);
            lemma_pow10_fits(after.len());
        }
        value = value * 10 + (b - 48) as u64;
        i += 1;
    }
    proof {
        assert(s@.subrange(0, s.len() as int) =~= s@);
    }
    Some(value)
}

/// The months, by their English abbreviations.
pub open spec fn month_named(name: Seq<u8>) -> Option<int> {
    if name == "Jan".spec_bytes() {
        Some(1)
    } else if name == "Feb".spec_bytes() {
        Some(2)
    } else if name == "Mar".spec_bytes() {
        Some(3)
    } else if name == "Apr".spec_bytes() {
        Some(4)
    } else if name == "May".spec_bytes() {
        Some(5)
    } else if name == "Jun".spec_bytes() {
        Some(6)
    } else if name == "Jul".spec_bytes() {
        Some(7)
    } else if name == "Aug".spec_bytes() {
        Some(8)
    } else if name == "Sep".spec_bytes() {
        Some(9)
    } else if name == "Oct".spec_bytes() {
        Some(10)
    } else if name == "Nov".spec_bytes() {
        Some(11)
    } else if name == "Dec".spec_bytes() {
        Some(12)
    } else {
        None
    }
}

/// The number of days from the first of January 1970 to the given day of
/// the Gregorian calendar.
pub open spec fn days_from_epoch(year: int, month: int, day: int) -> int {
    let y = if month <= 2 {
        year - 1
    } else {
        year
    };
    let era = y / 400;
    let year_of_era = y - era * 400;
    let shifted_month = if month > 2 {
        month - 3
    } else {
        month + 9
    };
    let day_of_year = (153 * shifted_month + 2) / 5 + day - 1;
    let day_of_era = year_of_era * 365 + year_of_era / 4 - year_of_era / 100 + day_of_year;
    era * 146097 + day_of_era - 719468
}

/// A date in the fixed format of HTTP, such as
/// `Sun, 06 Nov 1994 08:49:37 GMT`, as seconds since the start of 1970.
/// Dates before 1970, and texts in any other format, are no dates.
pub open spec fn http_date(s: Seq<u8>) -> Option<u64> {
    if s.len() == 29 && s[3] == 44 && s[4] == 32 && s[7] == 32 && s[11] == 32 && s[16] == 32
        && s[19] == 58 && s[22] == 58 && s[25] == 32 && s.subrange(26, 29) == "GMT".spec_bytes()
        && all_digits(s.subrange(5, 7)) && all_digits(s.subrange(12, 16)) && all_digits(
        s.subrange(17, 19),
    ) && all_digits(s.subrange(20, 22)) && all_digits(s.subrange(23, 25)) && month_named(
        s.subrange(8, 11),
    ) is Some {
        let day = decimal(s.subrange(5, 7)) as int;
        let month = month_named(s.subrange(8, 11))->Some_0;
        let year = decimal(s.subrange(12, 16)) as int;
        let hour = decimal(s.subrange(17, 19)) as int;
        let minute = decimal(s.subrange(20, 22)) as int;
        let second = decimal(s.subrange(23, 25)) as int;
        if year >= 1970 && 1 <= day <= 31 && hour <= 23 && minute <= 59 && second <= 60 {
            Some(
                (days_from_epoch(year, month, day) * 86400 + hour * 3600 + minute * 60
                    + second) as u64,
            )
        } else {
            None
        }
    } else {
        None
    }
}

/// Reads the month of a date.
fn parse_month(name: &[u8]) -> (month: Option<u64>)
    ensures
        match month_named(name@) {
            Some(m) => month == Some(m as u64) && 1 <= m <= 12,
            None => month is None,
        },
{
    if crate::text::bytes_eq(name, "Jan".as_bytes()) {
        Some(1)
    } else if crate::text::bytes_eq(name, "Feb".as_bytes()) {
        Some(2)
    } else if crate::text::bytes_eq(name, "Mar".as_bytes()) {
        Some(3)
    } else if crate::text::bytes_eq(name, "Apr".as_bytes()) {
        Some(4)
    } else if crate::text::bytes_eq(name, "May".as_bytes()) {
        Some(5)
    } else if crate::text::bytes_eq(name, "Jun".as_bytes()) {
        Some(6)
    } else if crate::text::bytes_eq(name, "Jul".as_bytes()) {
        Some(7)
    } else if crate::text::bytes_eq(name, "Aug".as_bytes()) {
        Some(8)
    } else if crate::text::bytes_eq(name, "Sep".as_bytes()) {
        Some(9)
    } else if crate::text::bytes_eq(name, "Oct".as_bytes()) {
        Some(10)
    } else if crate::text::bytes_eq(name, "Nov".as_bytes()) {
        Some(11)
    } else if crate::text::bytes_eq(name, "Dec".as_bytes()) {
        Some(12)
    } else {
        None
    }
}

/// Reads the digits from `from` up to `to` as a number, if they are digits.
fn parse_field(s: &[u8], from: usize, to: usize) -> (n: Option<u64>)
    requires
        from < to <= s.len(),
        to - from <= 4,
    ensures
        n is Some <==> all_digits(s@.subrange(from as int, to as int)),
        n matches Some(v) ==> v == decimal(s@.subrange(from as int, to as int)) && v < 10000,
{
    let field = slice_to_vec(s, from, to);
    let n = parse_seconds(field.as_slice());
    proof {
        if n is Some {
            lemma_decimal_bound(field@);
            reveal_with_fuel(pow10, 5);
        }
    }
    n
}

/// Reads a date in the fixed format of HTTP.
pub fn parse_http_date(s: &[u8]) -> (date: Option<u64>)
    ensures
        date == http_date(s@),
{
    if s.len() != 29 {
        return None;
    }
    if s[3] != 44 || s[4] != 32 || s[7] != 32 || s[11] != 32 || s[16] != 32 || s[19] != 58
        || s[22] != 58 || s[25] != 32 {
        return None;
    }
    let zone = slice_to_vec(s, 26, 29);
    if !crate::text::bytes_eq(zone.as_slice(), "GMT".as_bytes()) {
        return None;
    }
    let day = match parse_field(s, 5, 7) {
        Some(v) => v,
        None => {
            return None;
        },
    };
    let year = match parse_field(s, 12, 16) {
        Some(v) => v,
        None => {
            return None;
        },
    };
    let hour = match parse_field(s, 17, 19) {
        Some(v) => v,
        None => {
            return None;
        },
    };
    let minute = match parse_field(s, 20, 22) {
        Some(v) => v,
        None => {
            return None;
        },
    };
    let second = match parse_field(s, 23, 25) {
        Some(v) => v,
        None => {
            return None;
        },
    };
    let name = slice_to_vec(s, 8, 11);
    let month = match parse_month(name.as_slice()) {
        Some(v) => v,
        None => {
            return None;
        },
    };
    if year < 1970 || day < 1 || day > 31 || hour > 23 || minute > 59 || second > 60 {
        return None;
    }
    let y: u64 = if month <= 2 {
        year - 1
    } else {
        year
    };
    let era: u64 = y / 400;
    let year_of_era: u64 = y - era * 400;
    let shifted_month: u64 = if month > 2 {
        month - 3
    } else {
        month + 9
    };
    let day_of_year: u64 = (153 * shifted_month + 2) / 5 + day - 1;
    let day_of_era: u64 = year_of_era * 365 + year_of_era / 4 - year_of_era / 100 + day_of_year;
    let days: u64 = era * 146097 + day_of_era - 719468;
    Some(days * 86400 + hour * 3600 + minute * 60 + second)
}


/// Whether `item` is or starts with the directive `name`: the part before
/// its first `=`, without blanks and without regard to case.
pub open spec fn is_directive(item: Seq<u8>, name: Seq<u8>) -> bool {
    same_ignoring_case(trimmed(split(item, 61)[0]), name)
}

/// The argument of a directive: what stands between its first and its
/// second `=`, without blanks; empty where there is no `=`.
pub open spec fn argument(item: Seq<u8>) -> Seq<u8> {
    let parts = split(item, 61);
    if parts.len() >= 2 {
        trimmed(parts[1])
    } else {
        Seq::empty()
    }
}

/// The first of `list` that is the directive `name`.
pub open spec fn first_directive(list: Seq<Seq<u8>>, name: Seq<u8>) -> Option<Seq<u8>>
    decreases list.len(),
{
    if list.len() == 0 {
        None
    } else if is_directive(list[0], name) {
        Some(list[0])
    } else {
        first_directive(list.drop_first(), name)
    }
}

/// The argument of the first directive `name` in the comma-separated
/// `value`, if the directive is there.
pub open spec fn directive(value: Seq<u8>, name: Seq<u8>) -> Option<Seq<u8>> {
    match first_directive(crate::text::items(value), name) {
        Some(item) => Some(argument(item)),
        None => None,
    }
}

/// Looks for the directive `name` in a comma-separated header value, and
/// hands back its argument.
pub fn find_directive(value: &[u8], name: &[u8]) -> (found: Option<Vec<u8>>)
    ensures
        found is Some <==> directive(value@, name@) is Some,
        found matches Some(a) ==> directive(value@, name@) == Some(a@),
{
    let list = crate::text::split_items(value);
    let ghost all = views(list@);
    let mut i: usize = 0;
    assert(all.subrange(0, all.len() as int) =~= all);
    while i < list.len()
        invariant
            i <= list.len(),
            all == views(list@),
            all == crate::text::items(value@),
            first_directive(all, name@) == first_directive(
                all.subrange(i as int, all.len() as int),
                name@,
            ),
        decreases list.len() - i,
    {
        let ghost rest = all.subrange(i as int, all.len() as int);
        assert(rest.drop_first() =~= all.subrange(i + 1, all.len() as int));
        let parts = split_bytes(list[i].as_slice(), 61);
        proof {
            crate::text::lemma_split_nonempty(list@[i as int]@, 61);
        }
        let head = trim_bytes(parts[0].as_slice());
        if eq_ignore_case(head.as_slice(), name) {
            if parts.len() >= 2 {
                return Some(trim_bytes(parts[1].as_slice()));
            } else {
                return Some(Vec::new());
            }
        }
        i += 1;
    }
    None
}

/// The first value of the header `name`.
pub open spec fn header_value(headers: HeaderEntries, name: Seq<char>) -> Option<Seq<u8>> {
    if has_name(headers, name) && headers[canonical_name(name)].len() > 0 {
        Some(headers[canonical_name(name)][0])
    } else {
        None
    }
}

/// The date that the header `name` holds.
pub open spec fn header_date(headers: HeaderEntries, name: Seq<char>) -> Option<u64> {
    match header_value(headers, name) {
        Some(v) => http_date(v),
        None => None,
    }
}

/// The argument of the directive `name` in the first `Cache-Control` value.
pub open spec fn cache_directive(headers: HeaderEntries, name: Seq<u8>) -> Option<Seq<u8>> {
    match header_value(headers, "cache-control"@) {
        Some(v) => directive(v, name),
        None => None,
    }
}

/// The `max-age` of a response, in seconds.
pub open spec fn max_age(headers: HeaderEntries) -> Option<u64> {
    match cache_directive(headers, "max-age".spec_bytes()) {
        Some(a) => seconds(a),
        None => None,
    }
}

/// For how many seconds a response with these headers is fresh, counted
/// from its `Date`: its `max-age`; without one, the time from its `Date` to
/// its `Expires`; without that, a tenth of the time from its
/// `Last-Modified` to its `Date`; and else not at all.
pub open spec fn lifetime(headers: HeaderEntries) -> nat {
    let date = header_date(headers, "date"@);
    let expires = header_date(headers, "expires"@);
    let modified = header_date(headers, "last-modified"@);
    if max_age(headers) is Some {
        max_age(headers)->Some_0 as nat
    } else if date is Some && expires is Some {
        if expires->Some_0 > date->Some_0 {
            (expires->Some_0 - date->Some_0) as nat
        } else {
            0
        }
    } else if date is Some && modified is Some && date->Some_0 > modified->Some_0 {
        ((date->Some_0 - modified->Some_0) / 10) as nat
    } else {
        0
    }
}

/// The age of a response at the time `now`, in seconds: the time since its
/// `Date`, and the age that it had then according to its `Age` header. A
/// response without a `Date` has no known age.
pub open spec fn age(headers: HeaderEntries, now: u64) -> Option<nat> {
    let since = match header_value(headers, "age"@) {
        Some(v) => match seconds(v) {
            Some(n) => n as nat,
            None => 0,
        },
        None => 0,
    };
    match header_date(headers, "date"@) {
        Some(date) => Some(
            since + (if now > date {
                (now - date) as nat
            } else {
                0
            }),
        ),
        None => None,
    }
}

/// Whether a response with these headers may be served at the time `now`
/// without asking the server: it allows that, its age is known, and its age
/// is less than its lifetime.
pub open spec fn fresh(headers: HeaderEntries, now: u64) -> bool {
    &&& cache_directive(headers, "no-cache".spec_bytes()) is None
    &&& age(headers, now) is Some
    &&& age(headers, now)->Some_0 < lifetime(headers)
}

/// The header names that the cache reads and writes are header names in
/// canonical form.
pub proof fn lemma_cache_names()
    ensures
        valid_name("cache-control"@) && canonical_name("cache-control"@) == "cache-control"@,
        valid_name("date"@) && canonical_name("date"@) == "date"@,
        valid_name("expires"@) && canonical_name("expires"@) == "expires"@,
        valid_name("last-modified"@) && canonical_name("last-modified"@) == "last-modified"@,
        valid_name("age"@) && canonical_name("age"@) == "age"@,
        valid_name("etag"@) && canonical_name("etag"@) == "etag"@,
        valid_name("warning"@) && canonical_name("warning"@) == "warning"@,
{
    reveal_strlit("cache-control");
    reveal_strlit("date");
    reveal_strlit("expires");
    reveal_strlit("last-modified");
    reveal_strlit("age");
    reveal_strlit("etag");
    reveal_strlit("warning");
}

/// The first value of the header `name`.
pub fn first_value(headers: &Headers, name: &str) -> (value: Option<Vec<u8>>)
    ensures
        value is Some <==> header_value(headers@, name@) is Some,
        value matches Some(v) ==> header_value(headers@, name@) == Some(v@)
            && crate::headers::valid_value(v@),
{
    headers.get(name)
}

/// The date that the header `name` holds.
pub fn date_of(headers: &Headers, name: &str) -> (date: Option<u64>)
    ensures
        date == header_date(headers@, name@),
{
    match first_value(headers, name) {
        Some(v) => parse_http_date(v.as_slice()),
        None => None,
    }
}

/// The argument of the directive `name` in the first `Cache-Control` value.
pub fn cache_directive_of(headers: &Headers, name: &[u8]) -> (found: Option<Vec<u8>>)
    ensures
        found is Some <==> cache_directive(headers@, name@) is Some,
        found matches Some(a) ==> cache_directive(headers@, name@) == Some(a@),
{
    match first_value(headers, "cache-control") {
        Some(v) => find_directive(v.as_slice(), name),
        None => None,
    }
}

/// For how many seconds a response with these headers is fresh.
pub fn lifetime_of(headers: &Headers) -> (n: u64)
    ensures
        n == lifetime(headers@),
{
    let max_age: Option<u64> = match cache_directive_of(headers, "max-age".as_bytes()) {
        Some(a) => parse_seconds(a.as_slice()),
        None => None,
    };
    if let Some(n) = max_age {
        return n;
    }
    let date = date_of(headers, "date");
    let expires = date_of(headers, "expires");
    let modified = date_of(headers, "last-modified");
    match (date, expires, modified) {
        (Some(d), Some(e), _) => if e > d {
            e - d
        } else {
            0
        },
        (Some(d), None, Some(m)) => if d > m {
            (d - m) / 10
        } else {
            0
        },
        _ => 0,
    }
}

/// Whether a response with these headers may be served at the time `now`,
/// given in seconds since the start of 1970, without asking the server.
pub fn is_fresh(headers: &Headers, now: u64) -> (yes: bool)
    ensures
        yes == fresh(headers@, now),
{
    if cache_directive_of(headers, "no-cache".as_bytes()).is_some() {
        return false;
    }
    let since: u64 = match first_value(headers, "age") {
        Some(v) => match parse_seconds(v.as_slice()) {
            Some(n) => n,
            None => 0,
        },
        None => 0,
    };
    let date = match date_of(headers, "date") {
        Some(d) => d,
        None => {
            return false;
        },
    };
    let elapsed: u64 = if now > date {
        now - date
    } else {
        0
    };
    let limit = lifetime_of(headers);
    match since.checked_add(elapsed) {
        Some(total) => total < limit,
        None => false,
    }
}

} // verus!
