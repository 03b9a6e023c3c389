//! JSON text as `serde_json` writes it in compact form: string literals,
//! arrays, and objects whose members are written in the order given.

use vstd::prelude::*;
use crate::text::{digit_char, joined, texts, join_texts};

verus! {

/// Lowercase hexadecimal digit of `d < 16`.
pub open spec fn hex_digit(d: nat) -> char {
    if d < 10 {
        digit_char(d)
    } else {
        ((87 + d) as u32) as char
    }
}

/// How `serde_json` writes one character inside a string literal.
pub open spec fn json_escaped_char(c: char) -> Seq<char> {
    if c == '"' {
        seq!['\\', '"']
    } else if c == '\\' {
        seq!['\\', '\\']
    } else if c == '\u{8}' {
        seq!['\\', 'b']
    } else if c == '\t' {
        seq!['\\', 't']
    } else if c == '\n' {
        seq!['\\', 'n']
    } else if c == '\u{c}' {
        seq!['\\', 'f']
    } else if c == '\r' {
        seq!['\\', 'r']
    } else if (c as u32) < 32 {
        seq!['\\', 'u', '0', '0', hex_digit(((c as u32) / 16) as nat), hex_digit(((c as u32) % 16) as nat)]
    } else {
        seq![c]
    }
}

/// The escaped characters of a string literal's contents.
pub open spec fn json_escaped(s: Seq<char>) -> Seq<char>
    decreases s.len(),
{
    if s.len() == 0 {
        Seq::empty()
    } else {
        json_escaped(s.drop_last()) + json_escaped_char(s.last())
    }
}

/// A JSON string literal holding `s`.
pub open spec fn json_string(s: Seq<char>) -> Seq<char> {
    seq!['"'] + json_escaped(s) + seq!['"']
}

/// The JSON literal `null`.
pub open spec fn json_null() -> Seq<char> {
    seq!['n', 'u', 'l', 'l']
}

/// The JSON literal of a boolean.
pub open spec fn json_bool(b: bool) -> Seq<char> {
    if b {
        seq!['t', 'r', 'u', 'e']
    } else {
        seq!['f', 'a', 'l', 's', 'e']
    }
}

/// A JSON array of already written values.
pub open spec fn json_array(items: Seq<Seq<char>>) -> Seq<char> {
    seq!['['] + joined(items, seq![',']) + seq![']']
}

/// One object member: the key as a string literal, a colon, the value.
pub open spec fn json_member(key: Seq<char>, value: Seq<char>) -> Seq<char> {
    json_string(key) + seq![':'] + value
}

/// The members of an object, written in order and separated by commas.
pub open spec fn member_texts(members: Seq<(Seq<char>, Seq<char>)>) -> Seq<Seq<char>> {
    members.map_values(|m: (Seq<char>, Seq<char>)| json_member(m.0, m.1))
}

/// A JSON object whose members are written in the order given.
pub open spec fn json_object(members: Seq<(Seq<char>, Seq<char>)>) -> Seq<char> {
    seq!['{'] + joined(member_texts(members), seq![',']) + seq!['}']
}

/// An array of string literals.
pub open spec fn json_string_array(items: Seq<Seq<char>>) -> Seq<char> {
    json_array(items.map_values(|s: Seq<char>| json_string(s)))
}

/// `serde_json::to_string` on a `&str`: the string as a JSON string
/// literal, with `"` and `\` escaped by a backslash, the control characters
/// backspace, tab, line feed, form feed and carriage return written as
/// `\b \t \n \f \r`, every other character below U+0020 written as `\u00`
/// and two lowercase hex digits, and all other characters unchanged.
/// Serialising a `str` into memory cannot fail.
#[verifier::external_body]
pub(crate) fn json_string_literal(s: &str) -> (r: String)
    ensures
        r@ == json_string(s@),
{
    serde_json::to_string(s).unwrap_or_default()
}

/// The views of pairs of strings.
pub open spec fn pair_texts(v: Seq<(String, String)>) -> Seq<(Seq<char>, Seq<char>)> {
    v.map_values(|p: (String, String)| (p.0@, p.1@))
}

/// Writes a JSON array whose items are the given JSON texts.
pub fn write_array(items: &Vec<String>) -> (r: String)
    ensures
        r@ == json_array(texts(items@)),
{
    proof {
        reveal_strlit("[");
        reveal_strlit(",");
        reveal_strlit("]");
    }
    assert("["@ =~= seq!['[']);
    assert(","@ =~= seq![',']);
    assert("]"@ =~= seq![']']);
    let mut r = String::new();
    r.append("[");
    let inner = join_texts(items, ",");
    r.append(inner.as_str());
    r.append("]");
    assert(r@ =~= json_array(texts(items@)));
    r
}

/// Writes a JSON array of string literals.
pub fn write_string_array(items: &Vec<String>) -> (r: String)
    ensures
        r@ == json_string_array(texts(items@)),
{
    let mut lits: Vec<String> = Vec::new();
    let mut i: usize = 0;
    while i < items.len()
        invariant
            i <= items@.len(),
            lits@.len() == i,
            forall|k: int| 0 <= k < i ==> #[trigger] lits@[k]@ == json_string(items@[k]@),
        decreases items@.len() - i,
    {
        lits.push(json_string_literal(items[i].as_str()));
        i = i + 1;
    }
    assert(texts(lits@) =~= texts(items@).map_values(|s: Seq<char>| json_string(s)));
    write_array(&lits)
}

/// Writes a JSON object from `(key, value JSON)` pairs, in the order given.
pub fn write_object(members: &Vec<(String, String)>) -> (r: String)
    ensures
        r@ == json_object(pair_texts(members@)),
{
    let mut parts: Vec<String> = Vec::new();
    let mut i: usize = 0;
    while i < members.len()
        invariant
            i <= members@.len(),
            parts@.len() == i,
            forall|k: int| 0 <= k < i ==> #[trigger] parts@[k]@ == json_member(members@[k].0@, members@[k].1@),
        decreases members@.len() - i,
    {
        let mut part = json_string_literal(members[i].0.as_str());
        part.append(":");
        part.append(members[i].1.as_str());
        proof { reveal_strlit(":"); assert(":"@ =~= seq![':']); }
        assert(part@ =~= json_member(members@[i as int].0@, members@[i as int].1@));
        parts.push(part);
        i = i + 1;
    }
    assert(texts(parts@) =~= member_texts(pair_texts(members@)));
    proof {
        reveal_strlit("{");
        reveal_strlit(",");
        reveal_strlit("}");
    }
    assert("{"@ =~= seq!['{']);
    assert(","@ =~= seq![',']);
    assert("}"@ =~= seq!['}']);
    let inner = join_texts(&parts, ",");
    let mut r = String::new();
    r.append("{");
    r.append(inner.as_str());
    r.append("}");
    assert(r@ =~= json_object(pair_texts(members@)));
    r
}


/// Joining one more item appends the separator and the item.
pub proof fn lemma_joined_push(items: Seq<Seq<char>>, x: Seq<char>, sep: Seq<char>)
    ensures
        joined(items.push(x), sep) == (if items.len() == 0 { x } else { joined(items, sep) + sep + x }),
{
    assert(items.push(x).drop_last() =~= items);
}

/// Adding a member to a non-empty object writes a comma and the member
/// before the closing brace.
pub proof fn lemma_json_object_push(members: Seq<(Seq<char>, Seq<char>)>, key: Seq<char>, value: Seq<char>)
    requires
        members.len() > 0,
    ensures
        json_object(members.push((key, value))) == seq!['{'] + joined(member_texts(members), seq![',']) + seq![',']
            + json_member(key, value) + seq!['}'],
{
    assert(member_texts(members.push((key, value))) =~= member_texts(members).push(json_member(key, value)));
    lemma_joined_push(member_texts(members), json_member(key, value), seq![',']);
}

/// The comma-separated members after one more member is added.
pub proof fn lemma_members_push(members: Seq<(Seq<char>, Seq<char>)>, key: Seq<char>, value: Seq<char>)
    ensures
        joined(member_texts(members.push((key, value))), seq![',']) == (if members.len() == 0 {
            json_member(key, value)
        } else {
            joined(member_texts(members), seq![',']) + seq![','] + json_member(key, value)
        }),
{
    assert(member_texts(members.push((key, value))) =~= member_texts(members).push(json_member(key, value)));
    lemma_joined_push(member_texts(members), json_member(key, value), seq![',']);
}

/// An object with one member.
pub proof fn lemma_json_object_single(key: Seq<char>, value: Seq<char>)
    ensures
        json_object(seq![(key, value)]) == seq!['{'] + json_member(key, value) + seq!['}'],
        joined(member_texts(seq![(key, value)]), seq![',']) == json_member(key, value),
{
    assert(member_texts(seq![(key, value)]) =~= seq![json_member(key, value)]);
}

} // verus!
