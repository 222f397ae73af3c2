//! The pieces of JSON text that requests are written in: quoted strings,
//! integers, and objects and arrays of already written values.
use crate::merge::str_views;
use vstd::prelude::*;
use vstd::string::*;

verus! {

/// A hexadecimal digit, lower case.
pub open spec fn hex_digit(d: int) -> char {
    if d < 10 {
        digit_char(d as nat)
    } else if d == 10 {
        'a'
    } else if d == 11 {
        'b'
    } else if d == 12 {
        'c'
    } else if d == 13 {
        'd'
    } else if d == 14 {
        'e'
    } else {
        'f'
    }
}

/// How one character is written inside a JSON string: quote and backslash
/// escaped, the control characters as a short escape or as `\u00XX`, every
/// other character as itself.
pub open spec fn escaped_char(c: char) -> Seq<char> {
    if c == '"' {
        seq!['\\', '"']
    } else if c == '\\' {
        seq!['\\', '\\']
    } else if c == '\u{8}' {
        seq!['\\', 'b']
    } else if c == '\t' {
        seq!['\\', 't']
    } else if c == '\n' {
        seq!['\\', 'n']
    } else if c == '\u{c}' {
        seq!['\\', 'f']
    } else if c == '\r' {
        seq!['\\', 'r']
    } else if (c as u32) < 0x20 {
        seq!['\\', 'u', '0', '0', hex_digit(
            (c as u32) as int / 16,
        ), hex_digit((c as u32) as int % 16)]
    } else {
        seq![c]
    }
}

/// The characters of a string, each written as `escaped_char` writes it.
pub open spec fn escaped(s: Seq<char>) -> Seq<char>
    decreases s.len(),
{
    if s.len() == 0 {
        Seq::empty()
    } else {
        escaped(s.drop_last()) + escaped_char(s.last())
    }
}

/// The JSON text of a string: in quotes, with its characters escaped.
pub open spec fn json_quoted(s: Seq<char>) -> Seq<char> {
    seq!['"'] + escaped(s) + seq!['"']
}

/// Relies on `serde_json::to_string` applied to a `str`: it writes the string
/// in quotes, escaping by its table `ESCAPE` and `write_char_escape`. Writing
/// into memory cannot fail, so its error arm is never taken.
#[verifier::external_body]
pub fn quote(s: &str) -> (r: String)
    ensures
        r@ == json_quoted(s@),
{
    match serde_json::to_string(s) {
        Ok(t) => t,
        Err(_) => String::new(),
    }
}

/// The character of a decimal digit.
pub open spec fn digit_char(d: nat) -> char {
    if d == 0 {
        '0'
    } else if d == 1 {
        '1'
    } else if d == 2 {
        '2'
    } else if d == 3 {
        '3'
    } else if d == 4 {
        '4'
    } else if d == 5 {
        '5'
    } else if d == 6 {
        '6'
    } else if d == 7 {
        '7'
    } else if d == 8 {
        '8'
    } else {
        '9'
    }
}

/// The decimal digits of `n`, without leading zeros.
pub open spec fn digits(n: nat) -> Seq<char>
    decreases n,
{
    if n < 10 {
        seq![digit_char(n)]
    } else {
        digits(n / 10) + seq![digit_char(n % 10)]
    }
}

/// The decimal text of an integer, with a leading `-` when it is negative.
pub open spec fn decimal(n: int) -> Seq<char> {
    if n < 0 {
        seq!['-'] + digits((-n) as nat)
    } else {
        digits(n as nat)
    }
}

/// Relies on `ToString` for `u64`: the decimal form of the number.
#[verifier::external_body]
pub fn u64_text(n: u64) -> (r: String)
    ensures
        r@ == decimal(n as int),
{
    n.to_string()
}

/// Relies on `ToString` for `i64`: the decimal form of the number, with a
/// leading `-` when it is negative.
#[verifier::external_body]
pub fn i64_text(n: i64) -> (r: String)
    ensures
        r@ == decimal(n as int),
{
    n.to_string()
}

/// The JSON text of a boolean.
pub open spec fn bool_json(b: bool) -> Seq<char> {
    if b {
        "true"@
    } else {
        "false"@
    }
}

pub fn bool_text(b: bool) -> (r: String)
    ensures
        r@ == bool_json(b),
{
    if b {
        String::from_str("true")
    } else {
        String::from_str("false")
    }
}

/// Texts separated by commas.
pub open spec fn joined(items: Seq<Seq<char>>) -> Seq<char>
    decreases items.len(),
{
    if items.len() == 0 {
        Seq::empty()
    } else if items.len() == 1 {
        items[0]
    } else {
        joined(items.drop_last()) + seq![','] + items.last()
    }
}

/// A JSON object made of members already written as `"key":value`.
pub open spec fn object(members: Seq<Seq<char>>) -> Seq<char> {
    seq!['{'] + joined(members) + seq!['}']
}

/// A JSON array made of values already written.
pub open spec fn array(items: Seq<Seq<char>>) -> Seq<char> {
    seq!['['] + joined(items) + seq![']']
}

/// One member of an object; keys here are plain names that need no escaping.
pub open spec fn member(key: Seq<char>, value: Seq<char>) -> Seq<char> {
    seq!['"'] + key + seq!['"', ':'] + value
}

/// The member for an optional value: none when the value is absent.
pub open spec fn opt_member(key: Seq<char>, value: Option<Seq<char>>) -> Seq<Seq<char>> {
    match value {
        Some(v) => seq![member(key, v)],
        None => Seq::empty(),
    }
}

/// A JSON array of strings.
pub open spec fn string_array(items: Seq<Seq<char>>) -> Seq<char> {
    array(items.map_values(|s: Seq<char>| json_quoted(s)))
}

fn joined_text(items: &Vec<String>) -> (r: String)
    ensures
        r@ == joined(str_views(items@)),
{
    let mut s = String::new();
    let mut i: usize = 0;
    while i < items.len()
        invariant
            i <= items@.len(),
            s@ == joined(str_views(items@).take(i as int)),
        decreases items@.len() - i,
    {
        let ghost before = str_views(items@).take(i as int);
        let ghost after = str_views(items@).take(i + 1);
        assert(after.drop_last() =~= before);
        assert(after.last() == items@[i as int]@);
        if i > 0 {
            s.append(",");
            proof {
                reveal_strlit(",");
            }
        } else {
            assert(after =~= seq![items@[0]@]);
        }
        s.append(items[i].as_str());
        i = i + 1;
    }
    assert(str_views(items@).take(items@.len() as int) =~= str_views(items@));
    s
}

/// Writes an object from its members.
pub fn object_text(members: &Vec<String>) -> (r: String)
    ensures
        r@ == object(str_views(members@)),
{
    let mut s = String::from_str("{");
    s.append(joined_text(members).as_str());
    s.append("}");
    proof {
        reveal_strlit("{");
        reveal_strlit("}");
    }
    assert(s@ =~= object(str_views(members@)));
    s
}

/// Writes an array from its values.
pub fn array_text(items: &Vec<String>) -> (r: String)
    ensures
        r@ == array(str_views(items@)),
{
    let mut s = String::from_str("[");
    s.append(joined_text(items).as_str());
    s.append("]");
    proof {
        reveal_strlit("[");
        reveal_strlit("]");
    }
    assert(s@ =~= array(str_views(items@)));
    s
}

/// Writes an array of strings.
pub fn string_array_text(items: &Vec<String>) -> (r: String)
    ensures
        r@ == string_array(str_views(items@)),
{
    let mut quoted: Vec<String> = Vec::new();
    let mut i: usize = 0;
    while i < items.len()
        invariant
            i <= items@.len(),
            quoted@.len() == i,
            forall|j: int| 0 <= j < i ==> #[trigger] quoted@[j]@ == json_quoted(items@[j]@),
        decreases items@.len() - i,
    {
        quoted.push(quote(items[i].as_str()));
        i = i + 1;
    }
    assert(str_views(quoted@) =~= str_views(items@).map_values(|s: Seq<char>| json_quoted(s)));
    array_text(&quoted)
}

/// Appends the member `"key":value` to `members`.
pub fn push_member(members: &mut Vec<String>, key: &str, value: String)
    ensures
        str_views(final(members)@) == str_views(old(members)@).push(member(key@, value@)),
{
    let mut m = String::from_str("\"");
    m.append(key);
    m.append("\":");
    m.append(value.as_str());
    proof {
        reveal_strlit("\"");
        reveal_strlit("\":");
    }
    assert(m@ =~= member(key@, value@));
    members.push(m);
    assert(str_views(members@) =~= str_views(old(members)@).push(member(key@, value@)));
}

} // verus!

verus! {

pub open spec fn opt_bool_json(o: Option<bool>) -> Option<Seq<char>> {
    match o {
        Some(b) => Some(bool_json(b)),
        None => None,
    }
}

pub open spec fn opt_int_json(o: Option<int>) -> Option<Seq<char>> {
    match o {
        Some(n) => Some(decimal(n)),
        None => None,
    }
}

pub open spec fn opt_u64_int(o: Option<u64>) -> Option<int> {
    match o {
        Some(n) => Some(n as int),
        None => None,
    }
}

pub open spec fn opt_i64_int(o: Option<i64>) -> Option<int> {
    match o {
        Some(n) => Some(n as int),
        None => None,
    }
}

pub open spec fn opt_str_json(o: Option<Seq<char>>) -> Option<Seq<char>> {
    match o {
        Some(s) => Some(json_quoted(s)),
        None => None,
    }
}

pub open spec fn opt_list_json(o: Option<Seq<Seq<char>>>) -> Option<Seq<char>> {
    match o {
        Some(l) => Some(string_array(l)),
        None => None,
    }
}

/// Appends `"key":value` when the value is present.
pub fn push_opt(members: &mut Vec<String>, key: &str, value: Option<String>)
    ensures
        str_views(final(members)@) == str_views(old(members)@) + opt_member(
            key@,
            crate::text::opt_view(value),
        ),
{
    match value {
        Some(v) => {
            push_member(members, key, v);
            assert(str_views(final(members)@) =~= str_views(old(members)@) + opt_member(
                key@,
                crate::text::opt_view(Some(v)),
            ));
        },
        None => {
            assert(str_views(old(members)@) + opt_member(key@, None) =~= str_views(
                old(members)@,
            ));
        },
    }
}

pub fn opt_bool_text(o: Option<bool>) -> (r: Option<String>)
    ensures
        crate::text::opt_view(r) == opt_bool_json(o),
{
    match o {
        Some(b) => Some(bool_text(b)),
        None => None,
    }
}

pub fn opt_u64_text(o: Option<u64>) -> (r: Option<String>)
    ensures
        crate::text::opt_view(r) == opt_int_json(opt_u64_int(o)),
{
    match o {
        Some(n) => Some(u64_text(n)),
        None => None,
    }
}

pub fn opt_i64_text(o: Option<i64>) -> (r: Option<String>)
    ensures
        crate::text::opt_view(r) == opt_int_json(opt_i64_int(o)),
{
    match o {
        Some(n) => Some(i64_text(n)),
        None => None,
    }
}

pub fn opt_str_text(o: &Option<String>) -> (r: Option<String>)
    ensures
        crate::text::opt_view(r) == opt_str_json(crate::text::opt_view(*o)),
{
    match o {
        Some(s) => Some(quote(s.as_str())),
        None => None,
    }
}

pub fn opt_list_text(o: &Option<Vec<String>>) -> (r: Option<String>)
    ensures
        crate::text::opt_view(r) == opt_list_json(
            match *o {
                Some(v) => Some(str_views(v@)),
                None => None,
            },
        ),
{
    match o {
        Some(v) => Some(string_array_text(v)),
        None => None,
    }
}

} // verus!
