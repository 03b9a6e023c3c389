//! Cache keys of the student service and the pattern that clears every
//! cached page of the student list.

use vstd::prelude::*;
use crate::text::{int_text, nat_text, push_int, lemma_nat_text_reads_back, lemma_int_text_injective, is_digit};
use crate::json::hex_digit;

verus! {

/// The lowest `n` hexadecimal digits of `v`, most significant first.
pub open spec fn hex_text(v: nat, n: nat) -> Seq<char>
    decreases n,
{
    if n == 0 {
        Seq::empty()
    } else {
        hex_text(v / 16, (n - 1) as nat).push(hex_digit(v % 16))
    }
}

/// The hyphenated lowercase text of a UUID given as its 128-bit value:
/// 32 hex digits grouped 8-4-4-4-12.
pub open spec fn uuid_text(u: u128) -> Seq<char> {
    let h = hex_text(u as nat, 32);
    h.subrange(0, 8) + seq!['-'] + h.subrange(8, 12) + seq!['-'] + h.subrange(12, 16) + seq!['-']
        + h.subrange(16, 20) + seq!['-'] + h.subrange(20, 32)
}

/// `uuid::Uuid::from_u128(u).to_string()`: the UUID whose big-endian value
/// is `u`, written by its `Display` impl, which is the lowercase hyphenated
/// form (`format_hyphenated` with `upper == false` in the crate's source).
#[verifier::external_body]
pub fn uuid_string(u: u128) -> (r: String)
    ensures
        r@ == uuid_text(u),
{
    uuid::Uuid::from_u128(u).to_string()
}

/// Key under which one student is cached.
pub open spec fn student_key_text(uuid: Seq<char>) -> Seq<char> {
    "student:"@ + uuid
}

/// Key under which one page of the student list is cached.
pub open spec fn list_key_text(page: int, per_page: int) -> Seq<char> {
    "students:list:"@ + int_text(page) + ":"@ + int_text(per_page)
}

/// The pattern that the service hands to the cache to drop every cached
/// page of the student list.
pub open spec fn list_pattern_text() -> Seq<char> {
    "students:list:*"@
}

/// Whether `key` matches a cache key pattern that ends in `*` and has no
/// other wildcard: the key starts with everything before the `*`.
pub open spec fn matches_prefix_pattern(pattern: Seq<char>, key: Seq<char>) -> bool {
    &&& pattern.len() > 0
    &&& pattern.last() == '*'
    &&& key.len() >= pattern.len() - 1
    &&& key.take(pattern.len() - 1) == pattern.drop_last()
}

/// `format!("student:{uuid}")`.
pub fn student_key(uuid: &str) -> (r: String)
    ensures
        r@ == student_key_text(uuid@),
{
    let mut r = String::new();
    r.append("student:");
    r.append(uuid);
    assert(r@ =~= student_key_text(uuid@));
    r
}

/// `format!("students:list:{page}:{per_page}")`.
pub fn students_list_key(page: i64, per_page: i64) -> (r: String)
    ensures
        r@ == list_key_text(page as int, per_page as int),
{
    let mut r = String::new();
    r.append("students:list:");
    push_int(&mut r, page as i128);
    r.append(":");
    push_int(&mut r, per_page as i128);
    assert(r@ =~= list_key_text(page as int, per_page as int));
    r
}

/// The pattern `students:list:*` that clears all cached list pages.
pub fn student_list_pattern() -> (r: String)
    ensures
        r@ == list_pattern_text(),
{
    let mut r = String::new();
    r.append("students:list:*");
    assert(r@ =~= list_pattern_text());
    r
}

proof fn lemma_int_text_has_no_colon(i: int)
    ensures
        forall|k: int| 0 <= k < int_text(i).len() ==> #[trigger] int_text(i)[k] != ':',
        int_text(i).len() > 0,
{
    let m: nat = if i < 0 { (-i) as nat } else { i as nat };
    lemma_nat_text_reads_back(m);
    assert forall|k: int| 0 <= k < int_text(i).len() implies #[trigger] int_text(i)[k] != ':' by {
        if i < 0 {
            if k > 0 {
                assert(int_text(i)[k] == nat_text(m)[k - 1]);
                assert(is_digit(nat_text(m)[k - 1]));
            }
        } else {
            assert(is_digit(nat_text(m)[k]));
        }
    }
}

proof fn lemma_split_at_colon(a: Seq<char>, b: Seq<char>, c: Seq<char>, d: Seq<char>)
    requires
        forall|k: int| 0 <= k < a.len() ==> #[trigger] a[k] != ':',
        forall|k: int| 0 <= k < c.len() ==> #[trigger] c[k] != ':',
        a + ":"@ + b == c + ":"@ + d,
        ":"@ == seq![':'],
    ensures
        a == c,
        b == d,
{
    let x = a + ":"@ + b;
    let y = c + ":"@ + d;
    if a.len() < c.len() {
        assert(x[a.len() as int] == ':');
        assert(y[a.len() as int] == c[a.len() as int]);
    } else if c.len() < a.len() {
        assert(y[c.len() as int] == ':');
        assert(x[c.len() as int] == a[c.len() as int]);
    } else {
        assert(a =~= x.take(a.len() as int));
        assert(c =~= y.take(c.len() as int));
        assert(b =~= x.skip(a.len() as int + 1));
        assert(d =~= y.skip(c.len() as int + 1));
    }
}

/// Distinct pages of the student list are cached under distinct keys: the
/// key determines both the page number and the page size.
pub proof fn lemma_list_keys_distinct(p1: int, q1: int, p2: int, q2: int)
    requires
        list_key_text(p1, q1) == list_key_text(p2, q2),
    ensures
        p1 == p2,
        q1 == q2,
{
    reveal_strlit(":");
    assert(":"@ =~= seq![':']);
    let pre = "students:list:"@;
    let r1 = int_text(p1) + ":"@ + int_text(q1);
    let r2 = int_text(p2) + ":"@ + int_text(q2);
    assert(list_key_text(p1, q1) =~= pre + r1);
    assert(list_key_text(p2, q2) =~= pre + r2);
    assert(r1 =~= list_key_text(p1, q1).skip(pre.len() as int));
    assert(r2 =~= list_key_text(p2, q2).skip(pre.len() as int));
    lemma_int_text_has_no_colon(p1);
    lemma_int_text_has_no_colon(p2);
    lemma_split_at_colon(int_text(p1), int_text(q1), int_text(p2), int_text(q2));
    lemma_int_text_injective(p1, p2);
    lemma_int_text_injective(q1, q2);
}

/// The list-clearing pattern reaches every cached list page and no cached
/// student, whatever the page numbers and the student's key text.
pub proof fn lemma_list_pattern_scope(page: int, per_page: int, uuid: Seq<char>)
    ensures
        matches_prefix_pattern(list_pattern_text(), list_key_text(page, per_page)),
        !matches_prefix_pattern(list_pattern_text(), student_key_text(uuid)),
{
    reveal_strlit("students:list:*");
    reveal_strlit("students:list:");
    reveal_strlit("student:");
    let pat = list_pattern_text();
    let key = list_key_text(page, per_page);
    assert(pat.drop_last() =~= "students:list:"@);
    assert(key.take(pat.len() - 1) =~= "students:list:"@);
    let sk = student_key_text(uuid);
    if sk.len() >= pat.len() - 1 {
        assert(sk[7] == ':');
        assert(pat.drop_last()[7] == 's');
        assert(sk.take(pat.len() - 1)[7] != pat.drop_last()[7]);
    }
}

proof fn lemma_hex_text_len(v: nat, n: nat)
    ensures
        hex_text(v, n).len() == n,
        forall|k: int| 0 <= k < n ==> #[trigger] hex_text(v, n)[k] != '-',
    decreases n,
{
    if n > 0 {
        lemma_hex_text_len(v / 16, (n - 1) as nat);
        let d = v % 16;
        let c = hex_digit(d);
        if d < 10 {
            let x: u32 = (48 + d) as u32;
            assert((x as char) as u32 == x);
        } else {
            let x: u32 = (87 + d) as u32;
            assert((x as char) as u32 == x);
        }
        assert(c != '-');
        assert forall|k: int| 0 <= k < n implies #[trigger] hex_text(v, n)[k] != '-' by {
            if k < n - 1 {
                assert(hex_text(v, n)[k] == hex_text(v / 16, (n - 1) as nat)[k]);
            }
        }
    }
}

/// The text of a UUID has 36 characters: hyphens at positions 8, 13, 18
/// and 23 and hex digits elsewhere, which are the 32 hex digits of its
/// value in order.
pub proof fn lemma_uuid_text_shape(u: u128)
    ensures
        uuid_text(u).len() == 36,
        uuid_text(u)[8] == '-' && uuid_text(u)[13] == '-' && uuid_text(u)[18] == '-' && uuid_text(u)[23] == '-',
        forall|k: int| 0 <= k < 36 && k != 8 && k != 13 && k != 18 && k != 23 ==> #[trigger] uuid_text(u)[k] != '-',
        uuid_text(u).take(8) + uuid_text(u).subrange(9, 13) + uuid_text(u).subrange(14, 18)
            + uuid_text(u).subrange(19, 23) + uuid_text(u).subrange(24, 36) == hex_text(u as nat, 32),
{
    let h = hex_text(u as nat, 32);
    lemma_hex_text_len(u as nat, 32);
    let t = uuid_text(u);
    assert(t.len() == 36);
    assert forall|k: int| 0 <= k < 36 && k != 8 && k != 13 && k != 18 && k != 23 implies #[trigger] t[k] != '-' by {
        if k < 8 {
            assert(t[k] == h[k]);
        } else if k < 13 {
            assert(t[k] == h[k - 1]);
        } else if k < 18 {
            assert(t[k] == h[k - 2]);
        } else if k < 23 {
            assert(t[k] == h[k - 3]);
        } else {
            assert(t[k] == h[k - 4]);
        }
    }
    assert(t.take(8) + t.subrange(9, 13) + t.subrange(14, 18) + t.subrange(19, 23) + t.subrange(24, 36) =~= h);
}

/// A cached student's key is `student:` followed by exactly the text it was
/// made from, and a cached page's key is `students:list:` followed by the
/// page number, a colon and the page size.
pub proof fn lemma_key_layout(uuid: Seq<char>, page: int, per_page: int)
    ensures
        student_key_text(uuid).take(8) == "student:"@,
        student_key_text(uuid).skip(8) == uuid,
        list_key_text(page, per_page).take(14) == "students:list:"@,
        list_key_text(page, per_page).skip(14) == int_text(page) + ":"@ + int_text(per_page),
{
    reveal_strlit("student:");
    reveal_strlit("students:list:");
    assert(student_key_text(uuid).take(8) =~= "student:"@);
    assert(student_key_text(uuid).skip(8) =~= uuid);
    assert(list_key_text(page, per_page).take(14) =~= "students:list:"@);
    assert(list_key_text(page, per_page).skip(14) =~= int_text(page) + ":"@ + int_text(per_page));
}

/// Distinct students are cached under distinct keys.
pub proof fn lemma_student_keys_distinct(a: Seq<char>, b: Seq<char>)
    requires
        student_key_text(a) == student_key_text(b),
    ensures
        a == b,
{
    assert(a =~= student_key_text(a).skip("student:"@.len() as int));
    assert(b =~= student_key_text(b).skip("student:"@.len() as int));
}

} // verus!
