//! Name synthesis: decimal rendering of numbers, ASCII case conversion of
//! CDDL identifiers, the reserved-word test, and numeric-suffix deduplication.

use vstd::prelude::*;

verus! {

/// The decimal digit character for `d` (meaningful for `0 <= d < 10`).
pub open spec fn dec_digit(d: int) -> char {
    if d == 0 {
        '0'
    } else if d == 1 {
        '1'
    } else if d == 2 {
        '2'
    } else if d == 3 {
        '3'
    } else if d == 4 {
        '4'
    } else if d == 5 {
        '5'
    } else if d == 6 {
        '6'
    } else if d == 7 {
        '7'
    } else if d == 8 {
        '8'
    } else {
        '9'
    }
}

/// Decimal rendering of a non-negative integer, most significant digit first.
pub open spec fn dec_seq(n: int) -> Seq<char>
    decreases n,
{
    if n < 10 {
        seq![dec_digit(n)]
    } else {
        dec_seq(n / 10).push(dec_digit(n % 10))
    }
}

/// Decimal rendering of an integer, with a leading minus sign when negative.
pub open spec fn dec_seq_signed(n: int) -> Seq<char> {
    if n < 0 {
        seq!['-'] + dec_seq(-n)
    } else {
        dec_seq(n)
    }
}

fn digit_str(d: u64) -> (r: &'static str)
    requires
        d < 10,
    ensures
        r@ == seq![dec_digit(d as int)],
{
    proof {
        reveal_strlit("0");
        reveal_strlit("1");
        reveal_strlit("2");
        reveal_strlit("3");
        reveal_strlit("4");
        reveal_strlit("5");
        reveal_strlit("6");
        reveal_strlit("7");
        reveal_strlit("8");
        reveal_strlit("9");
    }
    if d == 0 {
        "0"
    } else if d == 1 {
        "1"
    } else if d == 2 {
        "2"
    } else if d == 3 {
        "3"
    } else if d == 4 {
        "4"
    } else if d == 5 {
        "5"
    } else if d == 6 {
        "6"
    } else if d == 7 {
        "7"
    } else if d == 8 {
        "8"
    } else {
        "9"
    }
}

/// Appends the decimal rendering of `n` to `s`.
pub fn push_dec_u64(s: &mut String, n: u64)
    ensures
        final(s)@ == old(s)@ + dec_seq(n as int),
    decreases n,
{
    if n >= 10 {
        push_dec_u64(s, n / 10);
    }
    s.append(digit_str(n % 10));
    proof {
        if n >= 10 {
            assert(final(s)@ == old(s)@ + dec_seq(n as int / 10) + seq![
                dec_digit(n as int % 10),
            ]);
            assert(dec_seq(n as int) == dec_seq(n as int / 10).push(dec_digit(n as int % 10)));
            assert(old(s)@ + dec_seq(n as int / 10) + seq![dec_digit(n as int % 10)] == old(s)@
                + dec_seq(n as int));
        } else {
            assert(dec_seq(n as int) == seq![dec_digit(n as int)]);
            assert(old(s)@ + seq![dec_digit(n as int)] == old(s)@ + dec_seq(n as int));
        }
    }
}

/// The decimal rendering of `n` as a fresh string.
pub fn u64_to_dec_string(n: u64) -> (r: String)
    ensures
        r@ == dec_seq(n as int),
{
    let mut s = String::new();
    push_dec_u64(&mut s, n);
    proof {
        assert(Seq::<char>::empty() + dec_seq(n as int) == dec_seq(n as int));
    }
    s
}

/// Appends the signed decimal rendering of `n` to `s`.
pub fn push_dec_i64(s: &mut String, n: i64)
    ensures
        final(s)@ == old(s)@ + dec_seq_signed(n as int),
{
    if n < 0 {
        proof {
            reveal_strlit("-");
        }
        s.append("-");
        let mag: u64 = ((-(n as i128)) as u64);
        push_dec_u64(s, mag);
        proof {
            assert(old(s)@ + seq!['-'] + dec_seq(mag as int) == old(s)@ + (seq!['-'] + dec_seq(
                -(n as int),
            )));
        }
    } else {
        push_dec_u64(s, (n as u64));
    }
}

/// Whether `c` is an ASCII upper-case letter.
pub open spec fn is_ascii_upper(c: char) -> bool {
    'A' <= c && c <= 'Z'
}

/// The ASCII lower-case counterpart of `c` (other characters unchanged).
pub open spec fn lower_char(c: char) -> char {
    match c {
        'A' => 'a',
        'B' => 'b',
        'C' => 'c',
        'D' => 'd',
        'E' => 'e',
        'F' => 'f',
        'G' => 'g',
        'H' => 'h',
        'I' => 'i',
        'J' => 'j',
        'K' => 'k',
        'L' => 'l',
        'M' => 'm',
        'N' => 'n',
        'O' => 'o',
        'P' => 'p',
        'Q' => 'q',
        'R' => 'r',
        'S' => 's',
        'T' => 't',
        'U' => 'u',
        'V' => 'v',
        'W' => 'w',
        'X' => 'x',
        'Y' => 'y',
        'Z' => 'z',
        _ => c,
    }
}

/// The ASCII upper-case counterpart of `c` (other characters unchanged).
pub open spec fn upper_char(c: char) -> char {
    match c {
        'a' => 'A',
        'b' => 'B',
        'c' => 'C',
        'd' => 'D',
        'e' => 'E',
        'f' => 'F',
        'g' => 'G',
        'h' => 'H',
        'i' => 'I',
        'j' => 'J',
        'k' => 'K',
        'l' => 'L',
        'm' => 'M',
        'n' => 'N',
        'o' => 'O',
        'p' => 'P',
        'q' => 'Q',
        'r' => 'R',
        's' => 'S',
        't' => 'T',
        'u' => 'U',
        'v' => 'V',
        'w' => 'W',
        'x' => 'X',
        'y' => 'Y',
        'z' => 'Z',
        _ => c,
    }
}

fn lower_char_exec(c: char) -> (r: char)
    ensures
        r == lower_char(c),
{
    match c {
        'A' => 'a',
        'B' => 'b',
        'C' => 'c',
        'D' => 'd',
        'E' => 'e',
        'F' => 'f',
        'G' => 'g',
        'H' => 'h',
        'I' => 'i',
        'J' => 'j',
        'K' => 'k',
        'L' => 'l',
        'M' => 'm',
        'N' => 'n',
        'O' => 'o',
        'P' => 'p',
        'Q' => 'q',
        'R' => 'r',
        'S' => 's',
        'T' => 't',
        'U' => 'u',
        'V' => 'v',
        'W' => 'w',
        'X' => 'x',
        'Y' => 'y',
        'Z' => 'z',
        _ => c,
    }
}

fn upper_char_exec(c: char) -> (r: char)
    ensures
        r == upper_char(c),
{
    match c {
        'a' => 'A',
        'b' => 'B',
        'c' => 'C',
        'd' => 'D',
        'e' => 'E',
        'f' => 'F',
        'g' => 'G',
        'h' => 'H',
        'i' => 'I',
        'j' => 'J',
        'k' => 'K',
        'l' => 'L',
        'm' => 'M',
        'n' => 'N',
        'o' => 'O',
        'p' => 'P',
        'q' => 'Q',
        'r' => 'R',
        's' => 'S',
        't' => 'T',
        'u' => 'U',
        'v' => 'V',
        'w' => 'W',
        'x' => 'X',
        'y' => 'Y',
        'z' => 'Z',
        _ => c,
    }
}

/// Relies on String::push: appends exactly the given character at the end.
#[verifier::external_body]
fn push_char(s: &mut String, c: char)
    ensures
        final(s)@ == old(s)@.push(c),
{
    s.push(c)
}

/// One step of snake-case folding: `-` becomes `_`, `@` and `$` are dropped,
/// an upper-case letter not at the start gets a `_` before its lower-case form.
pub open spec fn snake_step(acc: Seq<char>, c: char) -> Seq<char> {
    if c == '-' {
        acc.push('_')
    } else if c == '@' || c == '$' {
        acc
    } else if is_ascii_upper(c) && acc.len() > 0 {
        acc.push('_').push(lower_char(c))
    } else {
        acc.push(lower_char(c))
    }
}

pub open spec fn snake_fold(acc: Seq<char>, s: Seq<char>) -> Seq<char>
    decreases s.len(),
{
    if s.len() == 0 {
        acc
    } else {
        snake_fold(snake_step(acc, s[0]), s.drop_first())
    }
}

/// The snake_case form of a CDDL identifier.
pub open spec fn snake_of(s: Seq<char>) -> Seq<char> {
    snake_fold(Seq::<char>::empty(), s)
}

/// One step of camel-case folding over the state (accumulator, upper-next flag):
/// `_` and `-` request an upper-case next letter, `@` and `$` are dropped.
pub open spec fn camel_step(acc: Seq<char>, up: bool, c: char) -> (Seq<char>, bool) {
    if c == '_' || c == '-' {
        (acc, true)
    } else if c == '@' || c == '$' {
        (acc, up)
    } else if up {
        (acc.push(upper_char(c)), false)
    } else {
        (acc.push(c), false)
    }
}

pub open spec fn camel_fold(acc: Seq<char>, up: bool, s: Seq<char>) -> (Seq<char>, bool)
    decreases s.len(),
{
    if s.len() == 0 {
        (acc, up)
    } else {
        let st = camel_step(acc, up, s[0]);
        camel_fold(st.0, st.1, s.drop_first())
    }
}

/// The CamelCase form of a CDDL identifier.
pub open spec fn camel_of(s: Seq<char>) -> Seq<char> {
    camel_fold(Seq::<char>::empty(), true, s).0
}

/// Converts a CDDL identifier to snake_case.
pub fn convert_to_snake_case(ident: &str) -> (r: String)
    ensures
        r@ == snake_of(ident@),
{
    broadcast use vstd::string::group_string_axioms;

    let mut acc = String::new();
    let mut it = ident.chars();
    let ghost full: Seq<char> = ident@;
    loop
        invariant
            snake_fold(acc@, vstd::std_specs::iter::IteratorSpec::remaining(&it)) == snake_of(
                full,
            ),
            vstd::std_specs::iter::IteratorSpec::obeys_prophetic_iter_laws(&it),
            vstd::std_specs::iter::IteratorSpec::decrease(&it) is Some,
        ensures
            acc@ == snake_of(full),
        decreases vstd::std_specs::iter::IteratorSpec::decrease(&it)->0,
    {
        match it.next() {
            Some(c) => {
                if c == '-' {
                    push_char(&mut acc, '_');
                } else if c == '@' || c == '$' {
                } else if c >= 'A' && c <= 'Z' && !acc.as_str().is_empty() {
                    push_char(&mut acc, '_');
                    let lc = lower_char_exec(c);
                    push_char(&mut acc, lc);
                } else {
                    let lc = lower_char_exec(c);
                    push_char(&mut acc, lc);
                }
            },
            None => {
                break ;
            },
        }
    }
    acc
}

/// Converts a CDDL identifier to CamelCase.
pub fn convert_to_camel_case(ident: &str) -> (r: String)
    ensures
        r@ == camel_of(ident@),
{
    broadcast use vstd::string::group_string_axioms;

    let mut acc = String::new();
    let mut up: bool = true;
    let mut it = ident.chars();
    let ghost full: Seq<char> = ident@;
    loop
        invariant
            camel_fold(acc@, up, vstd::std_specs::iter::IteratorSpec::remaining(&it)) == camel_fold(
                Seq::<char>::empty(),
                true,
                full,
            ),
            vstd::std_specs::iter::IteratorSpec::obeys_prophetic_iter_laws(&it),
            vstd::std_specs::iter::IteratorSpec::decrease(&it) is Some,
        ensures
            acc@ == camel_of(full),
        decreases vstd::std_specs::iter::IteratorSpec::decrease(&it)->0,
    {
        match it.next() {
            Some(c) => {
                if c == '_' || c == '-' {
                    up = true;
                } else if c == '@' || c == '$' {
                } else if up {
                    let uc = upper_char_exec(c);
                    push_char(&mut acc, uc);
                    up = false;
                } else {
                    push_char(&mut acc, c);
                    up = false;
                }
            },
            None => {
                break ;
            },
        }
    }
    acc
}


/// Index of the first entry of `m` whose name is `name`, if any.
pub open spec fn counter_find(m: Seq<(Seq<char>, u64)>, name: Seq<char>) -> Option<int>
    decreases m.len(),
{
    if m.len() == 0 {
        None
    } else if m[0].0 == name {
        Some(0int)
    } else {
        match counter_find(m.drop_first(), name) {
            Some(i) => Some(i + 1),
            None => None,
        }
    }
}

/// What one deduplication step does to the counter map and to the name:
/// the first use of a name keeps it and records a count of one; later uses
/// bump the count and append it (`a`, `a2`, `a3`, ...). The count saturates
/// at the largest value its word holds.
pub open spec fn dedup_step(m: Seq<(Seq<char>, u64)>, name: Seq<char>) -> (
    Seq<(Seq<char>, u64)>,
    Seq<char>,
) {
    match counter_find(m, name) {
        None => (m.push((name, 1u64)), name),
        Some(i) => {
            let c = m[i].1;
            let c2 = if c < u64::MAX { (c + 1) as u64 } else { c };
            (m.update(i, (name, c2)), name + dec_seq(c2 as int))
        },
    }
}

proof fn lemma_counter_find_none(m: Seq<(Seq<char>, u64)>, name: Seq<char>)
    requires
        forall|j: int| 0 <= j < m.len() ==> m[j].0 != name,
    ensures
        counter_find(m, name) is None,
    decreases m.len(),
{
    if m.len() > 0 {
        lemma_counter_find_none(m.drop_first(), name);
    }
}

proof fn lemma_counter_find_some(m: Seq<(Seq<char>, u64)>, name: Seq<char>, i: int)
    requires
        0 <= i < m.len(),
        m[i].0 == name,
        forall|j: int| 0 <= j < i ==> m[j].0 != name,
    ensures
        counter_find(m, name) == Some(i),
    decreases m.len(),
{
    if i > 0 {
        lemma_counter_find_some(m.drop_first(), name, i - 1);
    }
}

/// Deduplicates `name` against the counts seen so far, as `dedup_step` says.
pub fn append_number_if_duplicate(used: &mut Vec<(String, u64)>, name: String) -> (r: String)
    ensures
        (final(used).deep_view(), r@) == dedup_step(old(used).deep_view(), name@),
{
    let ghost m0: Seq<(Seq<char>, u64)> = used.deep_view();
    let n = used.len();
    let mut i: usize = 0;
    loop
        invariant
            *used == *old(used),
            n == used.len(),
            0 <= i <= n,
            forall|j: int| 0 <= j < i ==> used.deep_view()[j].0 != name@,
        ensures
            i <= n,
            *used == *old(used),
            forall|j: int| 0 <= j < i ==> used.deep_view()[j].0 != name@,
            i < n ==> used.deep_view()[i as int].0 == name@,
            i == n ==> forall|j: int| 0 <= j < n ==> used.deep_view()[j].0 != name@,
        decreases n - i,
    {
        if i == n {
            break ;
        }
        if used[i].0 == name {
            break ;
        }
        i = i + 1;
    }
    if i == n {
        proof {
            lemma_counter_find_none(m0, name@);
        }
        let r = name.clone();
        used.push((name, 1));
        proof {
            assert(used.deep_view() =~= m0.push((r@, 1u64)));
        }
        r
    } else {
        proof {
            lemma_counter_find_some(m0, name@, i as int);
        }
        let ghost name0: Seq<char> = name@;
        let c = used[i].1;
        let c2: u64 = if c < u64::MAX {
            c + 1
        } else {
            c
        };
        used[i] = (name.clone(), c2);
        let mut r = name;
        push_dec_u64(&mut r, c2);
        proof {
            assert(used.deep_view() =~= m0.update(i as int, (name0, c2)));
            assert(r@ == name0 + dec_seq(c2 as int));
        }
        r
    }
}


/// Whether `s` is a name of the standard CDDL prelude (RFC 8610), which a
/// schema author cannot redefine and which never names a field by itself.
pub open spec fn is_reserved_ident(s: Seq<char>) -> bool {
    s == "any"@ || s == "uint"@ || s == "nint"@ || s == "int"@ || s == "bstr"@ || s == "bytes"@ || s == "tstr"@ || s == "text"@ || s == "tdate"@ || s == "time"@ || s == "number"@ || s == "biguint"@ || s == "bignint"@ || s == "bigint"@ || s == "integer"@ || s == "unsigned"@ || s == "decfrac"@ || s == "bigfloat"@ || s == "eb64url"@ || s == "eb64legacy"@ || s == "eb16"@ || s == "encoded-cbor"@ || s == "uri"@ || s == "b64url"@ || s == "b64legacy"@ || s == "regexp"@ || s == "mime-message"@ || s == "cbor-any"@ || s == "float16"@ || s == "float32"@ || s == "float64"@ || s == "float16-32"@ || s == "float32-64"@ || s == "float"@ || s == "false"@ || s == "true"@ || s == "bool"@ || s == "nil"@ || s == "null"@ || s == "undefined"@
}

/// Whether `s` is an identifier the schema author defined (not a prelude name).
pub open spec fn is_user_defined(s: Seq<char>) -> bool {
    !is_reserved_ident(s)
}

pub fn is_identifier_user_defined(s: &String) -> (r: bool)
    ensures
        r == is_user_defined(s@),
{
    let r0: String = "any".to_owned();
    let r1: String = "uint".to_owned();
    let r2: String = "nint".to_owned();
    let r3: String = "int".to_owned();
    let r4: String = "bstr".to_owned();
    let r5: String = "bytes".to_owned();
    let r6: String = "tstr".to_owned();
    let r7: String = "text".to_owned();
    let r8: String = "tdate".to_owned();
    let r9: String = "time".to_owned();
    let r10: String = "number".to_owned();
    let r11: String = "biguint".to_owned();
    let r12: String = "bignint".to_owned();
    let r13: String = "bigint".to_owned();
    let r14: String = "integer".to_owned();
    let r15: String = "unsigned".to_owned();
    let r16: String = "decfrac".to_owned();
    let r17: String = "bigfloat".to_owned();
    let r18: String = "eb64url".to_owned();
    let r19: String = "eb64legacy".to_owned();
    let r20: String = "eb16".to_owned();
    let r21: String = "encoded-cbor".to_owned();
    let r22: String = "uri".to_owned();
    let r23: String = "b64url".to_owned();
    let r24: String = "b64legacy".to_owned();
    let r25: String = "regexp".to_owned();
    let r26: String = "mime-message".to_owned();
    let r27: String = "cbor-any".to_owned();
    let r28: String = "float16".to_owned();
    let r29: String = "float32".to_owned();
    let r30: String = "float64".to_owned();
    let r31: String = "float16-32".to_owned();
    let r32: String = "float32-64".to_owned();
    let r33: String = "float".to_owned();
    let r34: String = "false".to_owned();
    let r35: String = "true".to_owned();
    let r36: String = "bool".to_owned();
    let r37: String = "nil".to_owned();
    let r38: String = "null".to_owned();
    let r39: String = "undefined".to_owned();
    let reserved: bool = *s == r0 || *s == r1 || *s == r2 || *s == r3 || *s == r4 || *s == r5 || *s == r6 || *s == r7 || *s == r8 || *s == r9 || *s == r10 || *s == r11 || *s == r12 || *s == r13 || *s == r14 || *s == r15 || *s == r16 || *s == r17 || *s == r18 || *s == r19 || *s == r20 || *s == r21 || *s == r22 || *s == r23 || *s == r24 || *s == r25 || *s == r26 || *s == r27 || *s == r28 || *s == r29 || *s == r30 || *s == r31 || *s == r32 || *s == r33 || *s == r34 || *s == r35 || *s == r36 || *s == r37 || *s == r38 || *s == r39;
    !reserved
}

} // verus!
