//! Password strength rules applied when an account is registered.

use vstd::prelude::*;
use vstd::utf8::encode_utf8;

verus! {

/// Whether `c` has the Unicode `Uppercase` property, which is what
/// `char::is_uppercase` reports (DerivedCoreProperties.txt of the UCD).
pub uninterp spec fn unicode_uppercase(c: char) -> bool;

/// Whether `c` has the Unicode `Lowercase` property, which is what
/// `char::is_lowercase` reports (DerivedCoreProperties.txt of the UCD).
pub uninterp spec fn unicode_lowercase(c: char) -> bool;

/// Whether `c` is alphabetic or numeric in the sense of Unicode, which is what
/// `char::is_alphanumeric` reports (`Alphabetic` property, or general
/// category `Nd`, `Nl` or `No`).
pub uninterp spec fn unicode_alphanumeric(c: char) -> bool;

/// Calls `char::is_uppercase`; its result is the Unicode `Uppercase`
/// property of `c`, which is named here and not spelled out.
#[verifier::external_body]
fn char_is_uppercase(c: char) -> (r: bool)
    ensures
        r == unicode_uppercase(c),
{
    c.is_uppercase()
}

/// Calls `char::is_lowercase`; its result is the Unicode `Lowercase`
/// property of `c`, which is named here and not spelled out.
#[verifier::external_body]
fn char_is_lowercase(c: char) -> (r: bool)
    ensures
        r == unicode_lowercase(c),
{
    c.is_lowercase()
}

/// Calls `char::is_alphanumeric`; its result is named here and not spelled out.
#[verifier::external_body]
fn char_is_alphanumeric(c: char) -> (r: bool)
    ensures
        r == unicode_alphanumeric(c),
{
    c.is_alphanumeric()
}

/// Whether `c` is an ASCII decimal digit, `'0'..='9'` (what
/// `char::is_ascii_digit` reports).
fn char_is_ascii_digit(c: char) -> (r: bool)
    ensures
        r == ('0' <= c && c <= '9'),
{
    '0' <= c && c <= '9'
}

pub open spec fn has_uppercase(p: Seq<char>) -> bool {
    exists|i: int| 0 <= i < p.len() && unicode_uppercase(#[trigger] p[i])
}

pub open spec fn has_lowercase(p: Seq<char>) -> bool {
    exists|i: int| 0 <= i < p.len() && unicode_lowercase(#[trigger] p[i])
}

pub open spec fn has_ascii_digit(p: Seq<char>) -> bool {
    exists|i: int| 0 <= i < p.len() && '0' <= #[trigger] p[i] && p[i] <= '9'
}

pub open spec fn has_special(p: Seq<char>) -> bool {
    exists|i: int| 0 <= i < p.len() && !unicode_alphanumeric(#[trigger] p[i])
}

/// The requirements that a password fails, in the order in which they are
/// reported, given whether it is too short and which character classes occur
/// in it.
pub open spec fn requirements_from(short: bool, upper: bool, lower: bool, digit: bool, special: bool) -> Seq<Seq<char>> {
    (if short { seq!["at least 8 characters"@] } else { seq![] })
        + (if !upper { seq!["an uppercase letter"@] } else { seq![] })
        + (if !lower { seq!["a lowercase letter"@] } else { seq![] })
        + (if !digit { seq!["a number"@] } else { seq![] })
        + (if !special { seq!["a special character"@] } else { seq![] })
}

/// The requirements that `p` fails, in the order in which they are reported.
/// The length rule counts the bytes of the UTF-8 encoding (what `str::len`
/// returns), not the characters.
pub open spec fn missing_requirements(p: Seq<char>) -> Seq<Seq<char>> {
    requirements_from(
        encode_utf8(p).len() < 8,
        has_uppercase(p),
        has_lowercase(p),
        has_ascii_digit(p),
        has_special(p),
    )
}

/// `parts` joined with `sep` between neighbours.
pub open spec fn join(parts: Seq<Seq<char>>, sep: Seq<char>) -> Seq<char>
    decreases parts.len(),
{
    if parts.len() == 0 {
        seq![]
    } else if parts.len() == 1 {
        parts[0]
    } else {
        join(parts.drop_last(), sep) + sep + parts.last()
    }
}

/// The message that lists the requirements `missing`.
pub open spec fn message_for(missing: Seq<Seq<char>>) -> Seq<char> {
    "Password must contain: "@ + join(missing, ", "@)
}

/// The message that lists what a weak password lacks.
pub open spec fn weakness_message(p: Seq<char>) -> Seq<char> {
    message_for(missing_requirements(p))
}

/// Which of the four character classes occur in `password`.
fn scan_classes(password: &str) -> (r: (bool, bool, bool, bool))
    ensures
        r.0 == has_uppercase(password@),
        r.1 == has_lowercase(password@),
        r.2 == has_ascii_digit(password@),
        r.3 == has_special(password@),
{
    let n = password.unicode_len();
    let mut upper = false;
    let mut lower = false;
    let mut digit = false;
    let mut special = false;
    let mut i: usize = 0;
    while i < n
        invariant
            n == password@.len(),
            i <= n,
            upper == exists|j: int| 0 <= j < i && unicode_uppercase(#[trigger] password@[j]),
            lower == exists|j: int| 0 <= j < i && unicode_lowercase(#[trigger] password@[j]),
            digit == exists|j: int| 0 <= j < i && '0' <= #[trigger] password@[j] && password@[j] <= '9',
            special == exists|j: int| 0 <= j < i && !unicode_alphanumeric(#[trigger] password@[j]),
        decreases n - i,
    {
        let c = password.get_char(i);
        if char_is_uppercase(c) {
            upper = true;
        }
        if char_is_lowercase(c) {
            lower = true;
        }
        if char_is_ascii_digit(c) {
            digit = true;
        }
        if !char_is_alphanumeric(c) {
            special = true;
        }
        i = i + 1;
    }
    (upper, lower, digit, special)
}

/// Joins `parts` with `sep`, appending to `out`.
fn append_joined(out: &mut String, parts: &Vec<&str>, sep: &str)
    ensures
        final(out)@ == old(out)@ + join(parts@.map_values(|s: &str| s@), sep@),
{
    let ghost views = parts@.map_values(|s: &str| s@);
    let ghost start = out@;
    let mut i: usize = 0;
    while i < parts.len()
        invariant
            views == parts@.map_values(|s: &str| s@),
            i <= parts.len(),
            out@ == start + join(views.take(i as int), sep@),
        decreases parts.len() - i,
    {
        if i != 0 {
            out.append(sep);
        }
        out.append(parts[i]);
        proof {
            assert(views.take(i + 1).drop_last() =~= views.take(i as int));
            assert(views.take(i + 1).last() == parts@[i as int]@);
            if i == 0 {
                assert(views.take(1) =~= seq![parts@[0]@]);
            }
        }
        i = i + 1;
    }
    assert(views.take(parts.len() as int) =~= views);
}

/// The verdict on a password of `byte_len` bytes in which the character
/// classes marked `true` occur: `Ok` where no rule fails, else the message
/// that names every failed rule in order.
pub fn password_verdict(byte_len: usize, upper: bool, lower: bool, digit: bool, special: bool) -> (r:
    Result<(), String>)
    ensures
        r is Ok <==> requirements_from(byte_len < 8, upper, lower, digit, special).len() == 0,
        r matches Err(msg) ==> msg@ == message_for(
            requirements_from(byte_len < 8, upper, lower, digit, special),
        ),
{
    let ghost e = Seq::<Seq<char>>::empty();
    let mut missing: Vec<&str> = Vec::new();
    if byte_len < 8 {
        missing.push("at least 8 characters");
    }
    let ghost m0 = if byte_len < 8 { seq!["at least 8 characters"@] } else { e };
    assert(missing@.map_values(|s: &str| s@) =~= m0);
    if !upper {
        missing.push("an uppercase letter");
    }
    let ghost m1 = m0 + if !upper { seq!["an uppercase letter"@] } else { e };
    assert(missing@.map_values(|s: &str| s@) =~= m1);
    if !lower {
        missing.push("a lowercase letter");
    }
    let ghost m2 = m1 + if !lower { seq!["a lowercase letter"@] } else { e };
    assert(missing@.map_values(|s: &str| s@) =~= m2);
    if !digit {
        missing.push("a number");
    }
    let ghost m3 = m2 + if !digit { seq!["a number"@] } else { e };
    assert(missing@.map_values(|s: &str| s@) =~= m3);
    if !special {
        missing.push("a special character");
    }
    let ghost m4 = m3 + if !special { seq!["a special character"@] } else { e };
    assert(missing@.map_values(|s: &str| s@) =~= m4);
    assert(m4 == requirements_from(byte_len < 8, upper, lower, digit, special));
    if missing.len() == 0 {
        Ok(())
    } else {
        let mut msg = String::new();
        msg.append("Password must contain: ");
        append_joined(&mut msg, &missing, ", ");
        Err(msg)
    }
}

/// Checks `password` against the strength rules: at least 8 bytes of UTF-8,
/// an uppercase letter, a lowercase letter, an ASCII digit and a character
/// that is neither alphabetic nor numeric. On failure the message names every
/// rule that failed, in that order.
pub fn validate_password(password: &str) -> (r: Result<(), String>)
    ensures
        r is Ok <==> missing_requirements(password@).len() == 0,
        r matches Err(msg) ==> msg@ == weakness_message(password@),
{
    let byte_len = password.as_bytes().len();
    let (upper, lower, digit, special) = scan_classes(password);
    password_verdict(byte_len, upper, lower, digit, special)
}

/// Whether `a` is a sublist of `b`: `b` with some entries dropped, the rest
/// kept in order.
pub open spec fn is_sublist(a: Seq<Seq<char>>, b: Seq<Seq<char>>) -> bool
    decreases b.len(),
{
    if b.len() == 0 {
        a.len() == 0
    } else {
        is_sublist(a, b.drop_first()) || (a.len() > 0 && a[0] == b[0] && is_sublist(
            a.drop_first(),
            b.drop_first(),
        ))
    }
}

proof fn lemma_sublist_empty(b: Seq<Seq<char>>)
    ensures
        is_sublist(Seq::empty(), b),
    decreases b.len(),
{
    if b.len() > 0 {
        lemma_sublist_empty(b.drop_first());
    }
}

proof fn lemma_sublist_of_empty(a: Seq<Seq<char>>)
    requires
        is_sublist(a, Seq::empty()),
    ensures
        a.len() == 0,
{
}

proof fn lemma_sublist_append(a1: Seq<Seq<char>>, b1: Seq<Seq<char>>, a2: Seq<Seq<char>>, b2: Seq<Seq<char>>)
    requires
        is_sublist(a1, b1),
        is_sublist(a2, b2),
    ensures
        is_sublist(a1 + a2, b1 + b2),
    decreases b1.len(),
{
    if b1.len() == 0 {
        assert(a1 + a2 =~= a2);
        assert(b1 + b2 =~= b2);
    } else {
        assert((b1 + b2).drop_first() =~= b1.drop_first() + b2);
        assert((b1 + b2)[0] == b1[0]);
        if is_sublist(a1, b1.drop_first()) {
            lemma_sublist_append(a1, b1.drop_first(), a2, b2);
        } else {
            lemma_sublist_append(a1.drop_first(), b1.drop_first(), a2, b2);
            assert((a1 + a2).drop_first() =~= a1.drop_first() + a2);
            assert((a1 + a2)[0] == a1[0]);
        }
    }
}

/// A rule listed for one text only where it is listed for the other gives a sublist.
proof fn lemma_part_sublist(r: Seq<char>, weaker: bool, stronger: bool)
    requires
        weaker ==> stronger,
    ensures
        is_sublist(
            if weaker { seq![r] } else { Seq::<Seq<char>>::empty() },
            if stronger { seq![r] } else { Seq::<Seq<char>>::empty() },
        ),
{
    let b = if stronger { seq![r] } else { Seq::<Seq<char>>::empty() };
    lemma_sublist_empty(b);
    if weaker {
        assert(seq![r].drop_first() =~= Seq::<Seq<char>>::empty());
        lemma_sublist_empty(Seq::<Seq<char>>::empty());
    }
}

proof fn lemma_encode_utf8_concat(a: Seq<char>, b: Seq<char>)
    ensures
        encode_utf8(a + b) == encode_utf8(a) + encode_utf8(b),
    decreases a.len(),
{
    if a.len() == 0 {
        assert(a + b =~= b);
        assert(encode_utf8(a) + encode_utf8(b) =~= encode_utf8(b));
    } else {
        assert((a + b).drop_first() =~= a.drop_first() + b);
        assert((a + b)[0] == a[0]);
        lemma_encode_utf8_concat(a.drop_first(), b);
        assert(encode_utf8(a + b) =~= encode_utf8(a) + encode_utf8(b));
    }
}

/// What `p` and `q` have, `p + q` has too; and it is at least as long.
proof fn lemma_classes_survive_concat(p: Seq<char>, q: Seq<char>)
    ensures
        encode_utf8(p + q).len() >= encode_utf8(p).len(),
        has_uppercase(p) ==> has_uppercase(p + q),
        has_lowercase(p) ==> has_lowercase(p + q),
        has_ascii_digit(p) ==> has_ascii_digit(p + q),
        has_special(p) ==> has_special(p + q),
        has_uppercase(q) ==> has_uppercase(p + q),
        has_lowercase(q) ==> has_lowercase(p + q),
        has_ascii_digit(q) ==> has_ascii_digit(p + q),
        has_special(q) ==> has_special(p + q),
        encode_utf8(p + q).len() >= encode_utf8(q).len(),
{
    lemma_encode_utf8_concat(p, q);
    let pq = p + q;
    if has_uppercase(p) {
        let i = choose|i: int| 0 <= i < p.len() && unicode_uppercase(#[trigger] p[i]);
        assert(pq[i] == p[i]);
    }
    if has_lowercase(p) {
        let i = choose|i: int| 0 <= i < p.len() && unicode_lowercase(#[trigger] p[i]);
        assert(pq[i] == p[i]);
    }
    if has_ascii_digit(p) {
        let i = choose|i: int| 0 <= i < p.len() && '0' <= #[trigger] p[i] && p[i] <= '9';
        assert(pq[i] == p[i]);
    }
    if has_special(p) {
        let i = choose|i: int| 0 <= i < p.len() && !unicode_alphanumeric(#[trigger] p[i]);
        assert(pq[i] == p[i]);
    }
    if has_uppercase(q) {
        let i = choose|i: int| 0 <= i < q.len() && unicode_uppercase(#[trigger] q[i]);
        assert(pq[p.len() + i] == q[i]);
    }
    if has_lowercase(q) {
        let i = choose|i: int| 0 <= i < q.len() && unicode_lowercase(#[trigger] q[i]);
        assert(pq[p.len() + i] == q[i]);
    }
    if has_ascii_digit(q) {
        let i = choose|i: int| 0 <= i < q.len() && '0' <= #[trigger] q[i] && q[i] <= '9';
        assert(pq[p.len() + i] == q[i]);
    }
    if has_special(q) {
        let i = choose|i: int| 0 <= i < q.len() && !unicode_alphanumeric(#[trigger] q[i]);
        assert(pq[p.len() + i] == q[i]);
    }
}

/// Where every rule that `x` fails is failed by `y` too, the failures of `x`
/// are a sublist of those of `y`.
proof fn lemma_missing_sublist(x: Seq<char>, y: Seq<char>)
    requires
        encode_utf8(x).len() < 8 ==> encode_utf8(y).len() < 8,
        has_uppercase(y) ==> has_uppercase(x),
        has_lowercase(y) ==> has_lowercase(x),
        has_ascii_digit(y) ==> has_ascii_digit(x),
        has_special(y) ==> has_special(x),
    ensures
        is_sublist(missing_requirements(x), missing_requirements(y)),
{
    let e = Seq::<Seq<char>>::empty();
    let x0 = if encode_utf8(x).len() < 8 { seq!["at least 8 characters"@] } else { e };
    let y0 = if encode_utf8(y).len() < 8 { seq!["at least 8 characters"@] } else { e };
    let x1 = if !has_uppercase(x) { seq!["an uppercase letter"@] } else { e };
    let y1 = if !has_uppercase(y) { seq!["an uppercase letter"@] } else { e };
    let x2 = if !has_lowercase(x) { seq!["a lowercase letter"@] } else { e };
    let y2 = if !has_lowercase(y) { seq!["a lowercase letter"@] } else { e };
    let x3 = if !has_ascii_digit(x) { seq!["a number"@] } else { e };
    let y3 = if !has_ascii_digit(y) { seq!["a number"@] } else { e };
    let x4 = if !has_special(x) { seq!["a special character"@] } else { e };
    let y4 = if !has_special(y) { seq!["a special character"@] } else { e };
    lemma_part_sublist("at least 8 characters"@, encode_utf8(x).len() < 8, encode_utf8(y).len() < 8);
    lemma_part_sublist("an uppercase letter"@, !has_uppercase(x), !has_uppercase(y));
    lemma_part_sublist("a lowercase letter"@, !has_lowercase(x), !has_lowercase(y));
    lemma_part_sublist("a number"@, !has_ascii_digit(x), !has_ascii_digit(y));
    lemma_part_sublist("a special character"@, !has_special(x), !has_special(y));
    lemma_sublist_append(x0, y0, x1, y1);
    lemma_sublist_append(x0 + x1, y0 + y1, x2, y2);
    lemma_sublist_append(x0 + x1 + x2, y0 + y1 + y2, x3, y3);
    lemma_sublist_append(x0 + x1 + x2 + x3, y0 + y1 + y2 + y3, x4, y4);
}

/// Adding text before or after a password never adds a failed rule: the
/// rules that `p + q` and `q + p` fail are sublists of those that `p` fails.
/// In particular a password that passes still passes with text added.
pub proof fn law_added_text_never_adds_failures(p: Seq<char>, q: Seq<char>)
    ensures
        is_sublist(missing_requirements(p + q), missing_requirements(p)),
        is_sublist(missing_requirements(q + p), missing_requirements(p)),
        missing_requirements(p).len() == 0 ==> missing_requirements(p + q).len() == 0
            && missing_requirements(q + p).len() == 0,
{
    lemma_classes_survive_concat(p, q);
    lemma_classes_survive_concat(q, p);
    lemma_missing_sublist(p + q, p);
    lemma_missing_sublist(q + p, p);
    if missing_requirements(p).len() == 0 {
        assert(missing_requirements(p) =~= Seq::<Seq<char>>::empty());
        lemma_sublist_of_empty(missing_requirements(p + q));
        lemma_sublist_of_empty(missing_requirements(q + p));
    }
}

proof fn lemma_singleton_contains(r: Seq<char>, x: Seq<char>)
    ensures
        seq![r].contains(x) <==> x == r,
{
    if x == r {
        assert(seq![r][0] == x);
    }
}

proof fn lemma_requirements_contain(short: bool, upper: bool, lower: bool, digit: bool, special: bool, x: Seq<char>)
    ensures
        requirements_from(short, upper, lower, digit, special).contains(x) <==> (short && x == "at least 8 characters"@)
            || (!upper && x == "an uppercase letter"@) || (!lower && x == "a lowercase letter"@) || (!digit && x
            == "a number"@) || (!special && x == "a special character"@),
{
    broadcast use vstd::seq_lib::lemma_seq_concat_contains_all_elements, vstd::seq_lib::lemma_seq_empty_contains_nothing;

    lemma_singleton_contains("at least 8 characters"@, x);
    lemma_singleton_contains("an uppercase letter"@, x);
    lemma_singleton_contains("a lowercase letter"@, x);
    lemma_singleton_contains("a number"@, x);
    lemma_singleton_contains("a special character"@, x);
}

proof fn lemma_rule_names_distinct()
    ensures
        "at least 8 characters"@ != "an uppercase letter"@,
        "at least 8 characters"@ != "a lowercase letter"@,
        "at least 8 characters"@ != "a number"@,
        "at least 8 characters"@ != "a special character"@,
        "an uppercase letter"@ != "a lowercase letter"@,
        "an uppercase letter"@ != "a number"@,
        "an uppercase letter"@ != "a special character"@,
        "a lowercase letter"@ != "a number"@,
        "a lowercase letter"@ != "a special character"@,
        "a number"@ != "a special character"@,
{
    reveal_strlit("at least 8 characters");
    reveal_strlit("an uppercase letter");
    reveal_strlit("a lowercase letter");
    reveal_strlit("a number");
    reveal_strlit("a special character");
    assert("an uppercase letter"@[1] != "a special character"@[1]);
    assert("at least 8 characters"@.len() != "an uppercase letter"@.len());
    assert("at least 8 characters"@.len() != "a lowercase letter"@.len());
    assert("at least 8 characters"@.len() != "a number"@.len());
    assert("at least 8 characters"@.len() != "a special character"@.len());
    assert("an uppercase letter"@.len() != "a lowercase letter"@.len());
    assert("an uppercase letter"@.len() != "a number"@.len());
    assert("a lowercase letter"@.len() != "a number"@.len());
    assert("a lowercase letter"@.len() != "a special character"@.len());
    assert("a number"@.len() != "a special character"@.len());
}

/// Each rule is reported exactly when the password breaks it, read off its
/// characters: the length rule when its UTF-8 encoding has fewer than 8
/// bytes; the number rule when no character is one of `'0'` to `'9'`; the
/// letter rules when no character is an uppercase (lowercase) letter; the
/// special rule when every character is alphabetic or numeric. Nothing else
/// is ever reported.
pub proof fn law_each_rule_reported_when_broken(p: Seq<char>)
    ensures
        missing_requirements(p).contains("at least 8 characters"@) <==> encode_utf8(p).len() < 8,
        missing_requirements(p).contains("an uppercase letter"@) <==> !exists|i: int|
            0 <= i < p.len() && unicode_uppercase(#[trigger] p[i]),
        missing_requirements(p).contains("a lowercase letter"@) <==> !exists|i: int|
            0 <= i < p.len() && unicode_lowercase(#[trigger] p[i]),
        missing_requirements(p).contains("a number"@) <==> !exists|i: int|
            0 <= i < p.len() && '0' <= #[trigger] p[i] && p[i] <= '9',
        missing_requirements(p).contains("a special character"@) <==> !exists|i: int|
            0 <= i < p.len() && !unicode_alphanumeric(#[trigger] p[i]),
        forall|x: Seq<char>|
            #[trigger] missing_requirements(p).contains(x) ==> x == "at least 8 characters"@ || x
                == "an uppercase letter"@ || x == "a lowercase letter"@ || x == "a number"@ || x
                == "a special character"@,
{
    lemma_rule_names_distinct();
    let short = encode_utf8(p).len() < 8;
    let (u, l, d, sp) = (has_uppercase(p), has_lowercase(p), has_ascii_digit(p), has_special(p));
    lemma_requirements_contain(short, u, l, d, sp, "at least 8 characters"@);
    lemma_requirements_contain(short, u, l, d, sp, "an uppercase letter"@);
    lemma_requirements_contain(short, u, l, d, sp, "a lowercase letter"@);
    lemma_requirements_contain(short, u, l, d, sp, "a number"@);
    lemma_requirements_contain(short, u, l, d, sp, "a special character"@);
    assert forall|x: Seq<char>| #[trigger] missing_requirements(p).contains(x) implies x == "at least 8 characters"@
        || x == "an uppercase letter"@ || x == "a lowercase letter"@ || x == "a number"@ || x
        == "a special character"@ by {
        lemma_requirements_contain(short, u, l, d, sp, x);
    }
}

/// A password with a digit `'0'` to `'9'` in it never fails the number rule,
/// so the verdict on it never names that rule.
pub proof fn law_any_ascii_digit_counts(p: Seq<char>, i: int)
    requires
        0 <= i < p.len(),
        '0' <= p[i] <= '9',
    ensures
        !missing_requirements(p).contains("a number"@),
{
    law_each_rule_reported_when_broken(p);
}

} // verus!
