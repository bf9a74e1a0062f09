//! The payload of a property change, as the host sends it: a JSON object
//! with the members `componentName`, `property` and `value`.
//!
//! The payload is checked against the JSON grammar, byte by byte, and the
//! three members are handed out as they were written. What is done with
//! them is not decided here.

use vstd::prelude::*;
use vstd::slice::slice_subrange;
use vstd::slice::slice_to_vec;

verus! {

/// How deeply arrays and objects may be nested inside the `value` member.
pub const MAX_NESTING: usize = 32;

/// Space, tab, line feed or carriage return.
pub open spec fn is_space(b: u8) -> bool {
    b == 0x20 || b == 0x09 || b == 0x0a || b == 0x0d
}

/// A decimal digit.
pub open spec fn is_digit(b: u8) -> bool {
    0x30 <= b <= 0x39
}

/// A hexadecimal digit, in either case.
pub open spec fn is_hex(b: u8) -> bool {
    is_digit(b) || (0x41 <= b <= 0x46) || (0x61 <= b <= 0x66)
}

/// A byte that may follow a backslash on its own: one of `"\/bfnrt`.
pub open spec fn is_escape(b: u8) -> bool {
    b == 0x22 || b == 0x5c || b == 0x2f || b == 0x62 || b == 0x66 || b == 0x6e || b == 0x72 || b
        == 0x74
}

/// Whether the byte at `i` is `b`.
pub open spec fn at(s: Seq<u8>, i: int, b: u8) -> bool {
    0 <= i < s.len() && s[i] == b
}

/// The first position at or after `i` that holds no white space.
pub open spec fn space_end(s: Seq<u8>, i: int) -> int
    decreases s.len() - i,
{
    if 0 <= i < s.len() && is_space(s[i]) {
        space_end(s, i + 1)
    } else {
        i
    }
}

/// The first position at or after `i` that holds no digit.
pub open spec fn digits_end(s: Seq<u8>, i: int) -> int
    decreases s.len() - i,
{
    if 0 <= i < s.len() && is_digit(s[i]) {
        digits_end(s, i + 1)
    } else {
        i
    }
}

/// Where the string ends whose content starts at `i`, just after the
/// opening quote: the position after the closing quote. There is none if
/// the string is not closed, holds a control character or a malformed
/// escape.
pub open spec fn string_end(s: Seq<u8>, i: int) -> Option<int>
    decreases s.len() - i,
{
    if i < 0 || i >= s.len() {
        None
    } else if s[i] == 0x22 {
        Some(i + 1)
    } else if s[i] == 0x5c {
        if i + 1 < s.len() && is_escape(s[i + 1]) {
            string_end(s, i + 2)
        } else if i + 5 < s.len() && s[i + 1] == 0x75 && is_hex(s[i + 2]) && is_hex(s[i + 3])
            && is_hex(s[i + 4]) && is_hex(s[i + 5]) {
            string_end(s, i + 6)
        } else {
            None
        }
    } else if s[i] < 0x20 {
        None
    } else {
        string_end(s, i + 1)
    }
}

/// Where the fraction, if one is written at `i`, ends.
pub open spec fn fraction_end(s: Seq<u8>, i: int) -> Option<int> {
    if at(s, i, 0x2e) {
        if i + 1 < s.len() && is_digit(s[i + 1]) {
            Some(digits_end(s, i + 2))
        } else {
            None
        }
    } else {
        Some(i)
    }
}

/// Where the exponent, if one is written at `i`, ends.
pub open spec fn exponent_end(s: Seq<u8>, i: int) -> Option<int> {
    if at(s, i, 0x65) || at(s, i, 0x45) {
        let d = if at(s, i + 1, 0x2b) || at(s, i + 1, 0x2d) {
            i + 2
        } else {
            i + 1
        };
        if 0 <= d < s.len() && is_digit(s[d]) {
            Some(digits_end(s, d + 1))
        } else {
            None
        }
    } else {
        Some(i)
    }
}

/// Where the number that starts at `i` ends.
pub open spec fn number_end(s: Seq<u8>, i: int) -> Option<int> {
    let a = if at(s, i, 0x2d) {
        i + 1
    } else {
        i
    };
    if 0 <= a < s.len() && is_digit(s[a]) {
        let b = if s[a] == 0x30 {
            a + 1
        } else {
            digits_end(s, a + 1)
        };
        match fraction_end(s, b) {
            Some(c) => exponent_end(s, c),
            None => None,
        }
    } else {
        None
    }
}

/// Space, tab, line feed or carriage return.
pub fn space(b: u8) -> (yes: bool)
    ensures
        yes == is_space(b),
{
    b == 0x20 || b == 0x09 || b == 0x0a || b == 0x0d
}

/// A decimal digit.
pub fn digit(b: u8) -> (yes: bool)
    ensures
        yes == is_digit(b),
{
    0x30 <= b && b <= 0x39
}

/// A hexadecimal digit, in either case.
pub fn hex(b: u8) -> (yes: bool)
    ensures
        yes == is_hex(b),
{
    digit(b) || (0x41 <= b && b <= 0x46) || (0x61 <= b && b <= 0x66)
}

/// Skips white space.
pub fn scan_space(s: &[u8], i: usize) -> (end: usize)
    requires
        i <= s.len(),
    ensures
        end == space_end(s@, i as int),
        i <= end <= s.len(),
{
    let mut j = i;
    while j < s.len() && space(s[j])
        invariant
            i <= j <= s.len(),
            space_end(s@, i as int) == space_end(s@, j as int),
        decreases s.len() - j,
    {
        j += 1;
    }
    j
}

/// Skips digits.
pub fn scan_digits(s: &[u8], i: usize) -> (end: usize)
    requires
        i <= s.len(),
    ensures
        end == digits_end(s@, i as int),
        i <= end <= s.len(),
{
    let mut j = i;
    while j < s.len() && digit(s[j])
        invariant
            i <= j <= s.len(),
            digits_end(s@, i as int) == digits_end(s@, j as int),
        decreases s.len() - j,
    {
        j += 1;
    }
    j
}

/// Finds the end of the string whose content starts at `i`.
pub fn scan_string(s: &[u8], i: usize) -> (end: Option<usize>)
    requires
        i <= s.len(),
    ensures
        match end {
            Some(e) => string_end(s@, i as int) == Some(e as int) && i < e <= s.len(),
            None => string_end(s@, i as int) is None,
        },
{
    let mut j = i;
    while j < s.len()
        invariant
            i <= j <= s.len(),
            string_end(s@, i as int) == string_end(s@, j as int),
        decreases s.len() - j,
    {
        let b = s[j];
        if b == 0x22 {
            return Some(j + 1);
        } else if b == 0x5c {
            if j + 1 < s.len() && (s[j + 1] == 0x22 || s[j + 1] == 0x5c || s[j + 1] == 0x2f || s[j
                + 1] == 0x62 || s[j + 1] == 0x66 || s[j + 1] == 0x6e || s[j + 1] == 0x72 || s[j
                + 1] == 0x74) {
                j += 2;
            } else if s.len() - j > 5 && s[j + 1] == 0x75 && hex(s[j + 2]) && hex(s[j + 3]) && hex(
                s[j + 4],
            ) && hex(s[j + 5]) {
                j += 6;
            } else {
                return None;
            }
        } else if b < 0x20 {
            return None;
        } else {
            j += 1;
        }
    }
    None
}

/// Finds the end of the number that starts at `i`.
pub fn scan_number(s: &[u8], i: usize) -> (end: Option<usize>)
    requires
        i <= s.len(),
    ensures
        match end {
            Some(e) => number_end(s@, i as int) == Some(e as int) && i < e <= s.len(),
            None => number_end(s@, i as int) is None,
        },
{
    let a = if i < s.len() && s[i] == 0x2d {
        i + 1
    } else {
        i
    };
    if !(a < s.len() && digit(s[a])) {
        return None;
    }
    let b = if s[a] == 0x30 {
        a + 1
    } else {
        scan_digits(s, a + 1)
    };
    let c = if b < s.len() && s[b] == 0x2e {
        if b + 1 < s.len() && digit(s[b + 1]) {
            scan_digits(s, b + 2)
        } else {
            return None;
        }
    } else {
        b
    };
    if c < s.len() && (s[c] == 0x65 || s[c] == 0x45) {
        let d = if c + 1 < s.len() && (s[c + 1] == 0x2b || s[c + 1] == 0x2d) {
            c + 2
        } else {
            c + 1
        };
        if d < s.len() && digit(s[d]) {
            Some(scan_digits(s, d + 1))
        } else {
            None
        }
    } else {
        Some(c)
    }
}

/// Whether `true` is written at `i`.
pub open spec fn true_at(s: Seq<u8>, i: int) -> bool {
    at(s, i, 0x74) && at(s, i + 1, 0x72) && at(s, i + 2, 0x75) && at(s, i + 3, 0x65)
}

/// Whether `false` is written at `i`.
pub open spec fn false_at(s: Seq<u8>, i: int) -> bool {
    at(s, i, 0x66) && at(s, i + 1, 0x61) && at(s, i + 2, 0x6c) && at(s, i + 3, 0x73) && at(
        s,
        i + 4,
        0x65,
    )
}

/// Whether `null` is written at `i`.
pub open spec fn null_at(s: Seq<u8>, i: int) -> bool {
    at(s, i, 0x6e) && at(s, i + 1, 0x75) && at(s, i + 2, 0x6c) && at(s, i + 3, 0x6c)
}

/// Where the JSON value that starts at `i` ends. An array or an object
/// takes one level of `depth`; with none left it is refused.
pub open spec fn value_end(s: Seq<u8>, i: int, depth: nat) -> Option<int>
    decreases depth, s.len() - i, 0nat,
{
    if i < 0 || i >= s.len() {
        None
    } else if s[i] == 0x22 {
        string_end(s, i + 1)
    } else if s[i] == 0x7b || s[i] == 0x5b {
        if depth == 0 {
            None
        } else {
            let j = space_end(s, i + 1);
            if s[i] == 0x7b {
                if at(s, j, 0x7d) {
                    Some(j + 1)
                } else {
                    members_end(s, j, (depth - 1) as nat)
                }
            } else {
                if at(s, j, 0x5d) {
                    Some(j + 1)
                } else {
                    elements_end(s, j, (depth - 1) as nat)
                }
            }
        }
    } else if s[i] == 0x74 {
        if true_at(s, i) {
            Some(i + 4)
        } else {
            None
        }
    } else if s[i] == 0x66 {
        if false_at(s, i) {
            Some(i + 5)
        } else {
            None
        }
    } else if s[i] == 0x6e {
        if null_at(s, i) {
            Some(i + 4)
        } else {
            None
        }
    } else {
        number_end(s, i)
    }
}

/// Where the object ends whose next member starts at `i`: the position
/// after its closing brace.
pub open spec fn members_end(s: Seq<u8>, i: int, depth: nat) -> Option<int>
    decreases depth, s.len() - i, 1nat,
{
    if !at(s, i, 0x22) {
        None
    } else {
        match string_end(s, i + 1) {
            None => None,
            Some(k) => {
                let c = space_end(s, k);
                let v = space_end(s, c + 1);
                if !at(s, c, 0x3a) || v < i || v > s.len() {
                    None
                } else {
                    match value_end(s, v, depth) {
                        None => None,
                        Some(e) => {
                            let n = space_end(s, e);
                            let next = space_end(s, n + 1);
                            if at(s, n, 0x2c) && i < next <= s.len() {
                                members_end(s, next, depth)
                            } else if at(s, n, 0x7d) {
                                Some(n + 1)
                            } else {
                                None
                            }
                        },
                    }
                }
            },
        }
    }
}

/// Where the array ends whose next element starts at `i`: the position
/// after its closing bracket.
pub open spec fn elements_end(s: Seq<u8>, i: int, depth: nat) -> Option<int>
    decreases depth, s.len() - i, 1nat,
{
    if i < 0 || i >= s.len() {
        None
    } else {
        match value_end(s, i, depth) {
            None => None,
            Some(e) => {
                let n = space_end(s, e);
                let next = space_end(s, n + 1);
                if at(s, n, 0x2c) && i < next <= s.len() {
                    elements_end(s, next, depth)
                } else if at(s, n, 0x5d) {
                    Some(n + 1)
                } else {
                    None
                }
            },
        }
    }
}

/// Finds the end of the JSON value that starts at `i`.
pub fn scan_value(s: &[u8], i: usize, depth: usize) -> (end: Option<usize>)
    requires
        i <= s.len(),
    ensures
        match end {
            Some(e) => value_end(s@, i as int, depth as nat) == Some(e as int) && i < e <= s.len(),
            None => value_end(s@, i as int, depth as nat) is None,
        },
    decreases depth, s.len() - i, 0nat,
{
    if i >= s.len() {
        return None;
    }
    let b = s[i];
    if b == 0x22 {
        scan_string(s, i + 1)
    } else if b == 0x7b || b == 0x5b {
        if depth == 0 {
            return None;
        }
        let j = scan_space(s, i + 1);
        if b == 0x7b {
            if j < s.len() && s[j] == 0x7d {
                Some(j + 1)
            } else {
                scan_members(s, j, depth - 1)
            }
        } else {
            if j < s.len() && s[j] == 0x5d {
                Some(j + 1)
            } else {
                scan_elements(s, j, depth - 1)
            }
        }
    } else if b == 0x74 {
        if s.len() - i >= 4 && s[i + 1] == 0x72 && s[i + 2] == 0x75 && s[i + 3] == 0x65 {
            Some(i + 4)
        } else {
            None
        }
    } else if b == 0x66 {
        if s.len() - i >= 5 && s[i + 1] == 0x61 && s[i + 2] == 0x6c && s[i + 3] == 0x73 && s[i
            + 4] == 0x65 {
            Some(i + 5)
        } else {
            None
        }
    } else if b == 0x6e {
        if s.len() - i >= 4 && s[i + 1] == 0x75 && s[i + 2] == 0x6c && s[i + 3] == 0x6c {
            Some(i + 4)
        } else {
            None
        }
    } else {
        scan_number(s, i)
    }
}

/// Finds the end of the object whose next member starts at `i`.
pub fn scan_members(s: &[u8], i: usize, depth: usize) -> (end: Option<usize>)
    requires
        i <= s.len(),
    ensures
        match end {
            Some(e) => members_end(s@, i as int, depth as nat) == Some(e as int) && i < e
                <= s.len(),
            None => members_end(s@, i as int, depth as nat) is None,
        },
    decreases depth, s.len() - i, 1nat,
{
    let mut pos = i;
    loop
        invariant
            i <= pos <= s.len(),
            members_end(s@, i as int, depth as nat) == members_end(s@, pos as int, depth as nat),
        decreases s.len() - pos,
    {
        if !(pos < s.len() && s[pos] == 0x22) {
            return None;
        }
        let k = match scan_string(s, pos + 1) {
            Some(k) => k,
            None => { return None; },
        };
        let c = scan_space(s, k);
        if !(c < s.len() && s[c] == 0x3a) {
            return None;
        }
        let v = scan_space(s, c + 1);
        let e = match scan_value(s, v, depth) {
            Some(e) => e,
            None => { return None; },
        };
        let n = scan_space(s, e);
        if n < s.len() && s[n] == 0x2c {
            pos = scan_space(s, n + 1);
        } else if n < s.len() && s[n] == 0x7d {
            return Some(n + 1);
        } else {
            return None;
        }
    }
}

/// Finds the end of the array whose next element starts at `i`.
pub fn scan_elements(s: &[u8], i: usize, depth: usize) -> (end: Option<usize>)
    requires
        i <= s.len(),
    ensures
        match end {
            Some(e) => elements_end(s@, i as int, depth as nat) == Some(e as int) && i < e
                <= s.len(),
            None => elements_end(s@, i as int, depth as nat) is None,
        },
    decreases depth, s.len() - i, 1nat,
{
    let mut pos = i;
    loop
        invariant
            i <= pos <= s.len(),
            elements_end(s@, i as int, depth as nat) == elements_end(s@, pos as int, depth as nat),
        decreases s.len() - pos,
    {
        if pos >= s.len() {
            return None;
        }
        let e = match scan_value(s, pos, depth) {
            Some(e) => e,
            None => { return None; },
        };
        let n = scan_space(s, e);
        if n < s.len() && s[n] == 0x2c {
            pos = scan_space(s, n + 1);
        } else if n < s.len() && s[n] == 0x5d {
            return Some(n + 1);
        } else {
            return None;
        }
    }
}

/// The name of the member that names the component: `componentName`.
pub open spec fn component_key() -> Seq<u8> {
    seq![0x63u8, 0x6f, 0x6d, 0x70, 0x6f, 0x6e, 0x65, 0x6e, 0x74, 0x4e, 0x61, 0x6d, 0x65]
}

/// The name of the member that names the property: `property`.
pub open spec fn property_key() -> Seq<u8> {
    seq![0x70u8, 0x72, 0x6f, 0x70, 0x65, 0x72, 0x74, 0x79]
}

/// The name of the member that holds the new value: `value`.
pub open spec fn value_key() -> Seq<u8> {
    seq![0x76u8, 0x61, 0x6c, 0x75, 0x65]
}

/// Where each of the three members was found, as the positions at which
/// what is handed out of it starts and ends.
pub struct Fields {
    pub component: Option<(int, int)>,
    pub property: Option<(int, int)>,
    pub value: Option<(int, int)>,
}

/// No member found yet.
pub open spec fn no_fields() -> Fields {
    Fields { component: None, property: None, value: None }
}

/// The fields after the member with the key from `ks` to `ke` and the
/// value from `vs` to `ve` is taken in. A key that is not one of the
/// three, a key that comes twice, and a component or property that is not a
/// string are refused.
pub open spec fn noted(s: Seq<u8>, found: Fields, ks: int, ke: int, vs: int, ve: int) -> Option<
    Fields,
> {
    let key = s.subrange(ks, ke);
    if key == component_key() {
        if found.component is None && at(s, vs, 0x22) {
            Some(Fields { component: Some((vs + 1, ve - 1)), ..found })
        } else {
            None
        }
    } else if key == property_key() {
        if found.property is None && at(s, vs, 0x22) {
            Some(Fields { property: Some((vs + 1, ve - 1)), ..found })
        } else {
            None
        }
    } else if key == value_key() {
        if found.value is None {
            Some(Fields { value: Some((vs, ve)), ..found })
        } else {
            None
        }
    } else {
        None
    }
}

/// The fields of the payload whose next member starts at `i`, given those
/// that were `found` before it. The object must close after its last
/// member, and nothing but white space may follow.
pub open spec fn fields_end(s: Seq<u8>, i: int, found: Fields) -> Option<Fields>
    decreases s.len() - i,
{
    if !at(s, i, 0x22) {
        None
    } else {
        match string_end(s, i + 1) {
            None => None,
            Some(k) => {
                let c = space_end(s, k);
                let v = space_end(s, c + 1);
                if !at(s, c, 0x3a) {
                    None
                } else {
                    match value_end(s, v, MAX_NESTING as nat) {
                        None => None,
                        Some(e) => match noted(s, found, i + 1, k - 1, v, e) {
                            None => None,
                            Some(more) => {
                                let n = space_end(s, e);
                                let next = space_end(s, n + 1);
                                if at(s, n, 0x2c) && i < next <= s.len() {
                                    fields_end(s, next, more)
                                } else if at(s, n, 0x7d) && next == s.len() {
                                    Some(more)
                                } else {
                                    None
                                }
                            },
                        },
                    }
                }
            },
        }
    }
}

/// A property change, as a mathematical value.
pub struct PropertyChangeView {
    pub componentName: Seq<u8>,
    pub property: Seq<u8>,
    pub value: Seq<u8>,
}

/// A property change that the host asks for.
#[derive(Clone, Debug, PartialEq, Eq)]
pub struct PropertyChange {
    /// The name of the component, as written between its quotes.
    pub componentName: Vec<u8>,
    /// The name of the property, as written between its quotes.
    pub property: Vec<u8>,
    /// The new value, as the JSON text that was written.
    pub value: Vec<u8>,
}

impl View for PropertyChange {
    type V = PropertyChangeView;

    open spec fn view(&self) -> PropertyChangeView {
        PropertyChangeView {
            componentName: self.componentName@,
            property: self.property@,
            value: self.value@,
        }
    }
}

/// Why a payload was refused.
#[derive(Clone, Copy, Debug, PartialEq, Eq, Structural)]
pub enum PayloadError {
    /// The payload is not a JSON object with exactly the members
    /// `componentName` (a string), `property` (a string) and `value`.
    Malformed,
}

/// What a payload says, if it is well formed: a JSON object, with white
/// space allowed around it, that has each of the three members once, in
/// any order.
pub open spec fn parsed_change(s: Seq<u8>) -> Option<PropertyChangeView> {
    let open = space_end(s, 0);
    if !at(s, open, 0x7b) {
        None
    } else {
        match fields_end(s, space_end(s, open + 1), no_fields()) {
            Some(Fields { component: Some(c), property: Some(p), value: Some(v) }) => Some(
                PropertyChangeView {
                    componentName: s.subrange(c.0, c.1),
                    property: s.subrange(p.0, p.1),
                    value: s.subrange(v.0, v.1),
                },
            ),
            _ => None,
        }
    }
}

/// A string that ends, ends after the place where its content starts.
pub proof fn lemma_string_end_bounds(s: Seq<u8>, i: int)
    ensures
        string_end(s, i) matches Some(e) ==> i < e <= s.len(),
    decreases s.len() - i,
{
    if 0 <= i < s.len() && s[i] != 0x22 {
        if s[i] == 0x5c {
            if i + 1 < s.len() && is_escape(s[i + 1]) {
                lemma_string_end_bounds(s, i + 2);
            } else if i + 5 < s.len() {
                lemma_string_end_bounds(s, i + 6);
            }
        } else {
            lemma_string_end_bounds(s, i + 1);
        }
    }
}

/// A span of positions, as a mathematical value.
pub open spec fn span(found: Option<(usize, usize)>) -> Option<(int, int)> {
    match found {
        Some((start, end)) => Some((start as int, end as int)),
        None => None,
    }
}

/// Whether the bytes from `start` to `end` are exactly `word`.
pub fn range_is(s: &[u8], start: usize, end: usize, word: &Vec<u8>) -> (same: bool)
    requires
        start <= end <= s.len(),
    ensures
        same == (s@.subrange(start as int, end as int) == word@),
{
    if end - start != word.len() {
        return false;
    }
    let mut k: usize = 0;
    while k < word.len()
        invariant
            start <= end <= s.len(),
            end - start == word.len(),
            k <= word.len(),
            forall|j: int| 0 <= j < k ==> s@[start + j] == word@[j],
        decreases word.len() - k,
    {
        if s[start + k] != word[k] {
            assert(s@.subrange(start as int, end as int)[k as int] != word@[k as int]);
            return false;
        }
        k += 1;
    }
    assert(s@.subrange(start as int, end as int) =~= word@);
    true
}

/// Reads a property change out of its payload.
pub fn parse_property_change(payload: &[u8]) -> (change: Result<PropertyChange, PayloadError>)
    ensures
        match change {
            Ok(c) => parsed_change(payload@) == Some(c@),
            Err(_) => parsed_change(payload@) is None,
        },
{
    let s = payload;
    let component_word: Vec<u8> = vec![
        0x63u8, 0x6f, 0x6d, 0x70, 0x6f, 0x6e, 0x65, 0x6e, 0x74, 0x4e, 0x61, 0x6d, 0x65,
    ];
    let property_word: Vec<u8> = vec![0x70u8, 0x72, 0x6f, 0x70, 0x65, 0x72, 0x74, 0x79];
    let value_word: Vec<u8> = vec![0x76u8, 0x61, 0x6c, 0x75, 0x65];
    assert(component_word@ =~= component_key());
    assert(property_word@ =~= property_key());
    assert(value_word@ =~= value_key());
    let open = scan_space(s, 0);
    if !(open < s.len() && s[open] == 0x7b) {
        return Err(PayloadError::Malformed);
    }
    let first = scan_space(s, open + 1);
    let mut component: Option<(usize, usize)> = None;
    let mut property: Option<(usize, usize)> = None;
    let mut value: Option<(usize, usize)> = None;
    let mut pos = first;
    loop
        invariant
            s@ == payload@,
            open == space_end(s@, 0),
            at(s@, open as int, 0x7b),
            first == space_end(s@, open + 1),
            pos <= s.len(),
            component_word@ == component_key(),
            property_word@ == property_key(),
            value_word@ == value_key(),
            component matches Some((a, b)) ==> a <= b <= s.len(),
            property matches Some((a, b)) ==> a <= b <= s.len(),
            value matches Some((a, b)) ==> a <= b <= s.len(),
            fields_end(s@, first as int, no_fields()) == fields_end(
                s@,
                pos as int,
                Fields { component: span(component), property: span(property), value: span(value) },
            ),
        decreases s.len() - pos,
    {
        if !(pos < s.len() && s[pos] == 0x22) {
            return Err(PayloadError::Malformed);
        }
        let k = match scan_string(s, pos + 1) {
            Some(k) => k,
            None => { return Err(PayloadError::Malformed); },
        };
        let c = scan_space(s, k);
        if !(c < s.len() && s[c] == 0x3a) {
            return Err(PayloadError::Malformed);
        }
        let v = scan_space(s, c + 1);
        let e = match scan_value(s, v, MAX_NESTING) {
            Some(e) => e,
            None => { return Err(PayloadError::Malformed); },
        };
        proof {
            lemma_string_end_bounds(s@, v + 1);
        }
        let quoted = s[v] == 0x22;
        if range_is(s, pos + 1, k - 1, &component_word) {
            if component.is_some() || !quoted {
                return Err(PayloadError::Malformed);
            }
            component = Some((v + 1, e - 1));
        } else if range_is(s, pos + 1, k - 1, &property_word) {
            if property.is_some() || !quoted {
                return Err(PayloadError::Malformed);
            }
            property = Some((v + 1, e - 1));
        } else if range_is(s, pos + 1, k - 1, &value_word) {
            if value.is_some() {
                return Err(PayloadError::Malformed);
            }
            value = Some((v, e));
        } else {
            return Err(PayloadError::Malformed);
        }
        let n = scan_space(s, e);
        if n < s.len() && s[n] == 0x2c {
            pos = scan_space(s, n + 1);
        } else if n < s.len() && s[n] == 0x7d {
            if scan_space(s, n + 1) != s.len() {
                return Err(PayloadError::Malformed);
            }
            return match (component, property, value) {
                (Some(c), Some(p), Some(v)) => Ok(
                    PropertyChange {
                        componentName: slice_to_vec(slice_subrange(s, c.0, c.1)),
                        property: slice_to_vec(slice_subrange(s, p.0, p.1)),
                        value: slice_to_vec(slice_subrange(s, v.0, v.1)),
                    },
                ),
                _ => Err(PayloadError::Malformed),
            };
        } else {
            return Err(PayloadError::Malformed);
        }
    }
}

} // verus!
