//! Text helpers: decimal numerals, JSON string literals and the reading of
//! both back.
use vstd::prelude::*;
use vstd::string::*;

verus! {

/// The decimal digit for `d < 10`.
pub open spec fn digit_char(d: nat) -> char {
    if d == 0 { '0' }
    else if d == 1 { '1' }
    else if d == 2 { '2' }
    else if d == 3 { '3' }
    else if d == 4 { '4' }
    else if d == 5 { '5' }
    else if d == 6 { '6' }
    else if d == 7 { '7' }
    else if d == 8 { '8' }
    else { '9' }
}

pub open spec fn is_digit(c: char) -> bool {
    '0' <= c && c <= '9'
}

pub open spec fn digit_value(c: char) -> nat {
    ((c as int) - ('0' as int)) as nat
}

/// The decimal numeral of `n`, without leading zeros.
pub open spec fn dec(n: nat) -> Seq<char>
    decreases n,
{
    if n < 10 {
        seq![digit_char(n)]
    } else {
        dec(n / 10).push(digit_char(n % 10))
    }
}

/// The value of a run of decimal digits.
pub open spec fn dec_value(s: Seq<char>) -> nat
    decreases s.len(),
{
    if s.len() == 0 {
        0
    } else {
        dec_value(s.drop_last()) * 10 + digit_value(s.last())
    }
}

pub open spec fn all_digits(s: Seq<char>) -> bool {
    forall|i: int| 0 <= i < s.len() ==> #[trigger] is_digit(s[i])
}

pub proof fn lemma_digit_char(d: nat)
    requires
        d < 10,
    ensures
        is_digit(digit_char(d)),
        digit_value(digit_char(d)) == d,
{
}

/// A numeral is a non-empty run of digits whose value is the number.
pub proof fn lemma_dec(n: nat)
    ensures
        dec(n).len() >= 1,
        all_digits(dec(n)),
        dec_value(dec(n)) == n,
    decreases n,
{
    if n < 10 {
        lemma_digit_char(n);
        assert(dec(n).drop_last() =~= Seq::<char>::empty());
        assert(dec_value(Seq::<char>::empty()) == 0);
        assert(dec(n).last() == digit_char(n));
    } else {
        lemma_dec(n / 10);
        lemma_digit_char(n % 10);
        assert(dec(n).drop_last() =~= dec(n / 10));
        assert(dec(n).last() == digit_char(n % 10));
        assert(dec_value(dec(n)) == dec_value(dec(n / 10)) * 10 + n % 10);
        assert((n / 10) * 10 + n % 10 == n) by (nonlinear_arith);
        assert forall|i: int| 0 <= i < dec(n).len() implies #[trigger] is_digit(dec(n)[i]) by {
            if i < dec(n / 10).len() {
                assert(dec(n)[i] == dec(n / 10)[i]);
            }
        }
    }
}

/// Appending digits never lowers the value of a run of digits.
pub proof fn lemma_dec_value_prefix(s: Seq<char>, k: int)
    requires
        0 <= k <= s.len(),
    ensures
        dec_value(s.subrange(0, k)) <= dec_value(s),
    decreases s.len() - k,
{
    if k < s.len() {
        lemma_dec_value_prefix(s, k + 1);
        assert(s.subrange(0, k + 1).drop_last() =~= s.subrange(0, k));
    } else {
        assert(s.subrange(0, k) =~= s);
    }
}

#[verifier::external_body]
/// Appends one character; `String::push` of std.
pub fn push_char(s: &mut String, c: char)
    ensures
        final(s)@ == old(s)@.push(c),
{
    s.push(c)
}

pub fn digit(d: u64) -> (c: char)
    requires
        d < 10,
    ensures
        c == digit_char(d as nat),
{
    if d == 0 { '0' }
    else if d == 1 { '1' }
    else if d == 2 { '2' }
    else if d == 3 { '3' }
    else if d == 4 { '4' }
    else if d == 5 { '5' }
    else if d == 6 { '6' }
    else if d == 7 { '7' }
    else if d == 8 { '8' }
    else { '9' }
}

/// Appends the decimal numeral of `n`.
pub fn push_decimal(out: &mut String, n: u64)
    ensures
        final(out)@ == old(out)@ + dec(n as nat),
    decreases n,
{
    if n >= 10 {
        push_decimal(out, n / 10);
    }
    push_char(out, digit(n % 10));
    proof {
        if n >= 10 {
            assert(dec(n as nat) == dec((n / 10) as nat).push(digit_char((n % 10) as nat)));
        }
    }
    assert(out@ =~= old(out)@ + dec(n as nat));
}

/// The decimal numeral of `n` as a new string.
pub fn decimal(n: u64) -> (s: String)
    ensures
        s@ == dec(n as nat),
{
    let mut s = String::new();
    push_decimal(&mut s, n);
    assert(s@ =~= dec(n as nat));
    s
}

/// Lower-case hexadecimal digit for `d < 16`.
pub open spec fn hex_char(d: nat) -> char {
    if d < 10 { digit_char(d) }
    else if d == 10 { 'a' }
    else if d == 11 { 'b' }
    else if d == 12 { 'c' }
    else if d == 13 { 'd' }
    else if d == 14 { 'e' }
    else { 'f' }
}

pub open spec fn is_lower_hex(c: char) -> bool {
    is_digit(c) || ('a' <= c && c <= 'f')
}

pub open spec fn hex_value(c: char) -> nat {
    if is_digit(c) { digit_value(c) } else { ((c as int) - ('a' as int) + 10) as nat }
}

pub proof fn lemma_hex_char(d: nat)
    requires
        d < 16,
    ensures
        is_lower_hex(hex_char(d)),
        hex_value(hex_char(d)) == d,
{
}

/// How one character is written inside a JSON string literal: quote and
/// backslash are escaped, the control characters get their short escape
/// where JSON has one and `\u00xx` otherwise, every other character stands
/// as it is.
pub open spec fn json_escape_char(c: char) -> Seq<char> {
    if c == '"' {
        seq!['\\', '"']
    } else if c == '\\' {
        seq!['\\', '\\']
    } else if c == '\u{8}' {
        seq!['\\', 'b']
    } else if c == '\t' {
        seq!['\\', 't']
    } else if c == '\n' {
        seq!['\\', 'n']
    } else if c == '\u{c}' {
        seq!['\\', 'f']
    } else if c == '\r' {
        seq!['\\', 'r']
    } else if 0 <= (c as int) < 0x20 {
        seq!['\\', 'u', '0', '0', hex_char(((c as int) / 16) as nat), hex_char(((c as int) % 16) as nat)]
    } else {
        seq![c]
    }
}

/// The body of the JSON string literal of `s`.
pub open spec fn json_escape(s: Seq<char>) -> Seq<char>
    decreases s.len(),
{
    if s.len() == 0 {
        Seq::empty()
    } else {
        json_escape_char(s[0]) + json_escape(s.drop_first())
    }
}

/// The JSON string literal of `s`, quotes included.
pub open spec fn json_quoted(s: Seq<char>) -> Seq<char> {
    seq!['"'] + json_escape(s) + seq!['"']
}

/// A JSON member value: a string, or a natural number.
pub enum JsonScalar {
    Str(Seq<char>),
    Nat(nat),
}

/// The JSON text of a member value: the string literal, or the numeral.
pub open spec fn json_scalar_text(v: JsonScalar) -> Seq<char> {
    match v {
        JsonScalar::Str(s) => json_quoted(s),
        JsonScalar::Nat(n) => dec(n),
    }
}

/// A key that JSON writes as it is: lower-case ASCII letters and `_`.
pub open spec fn plain_key(k: Seq<char>) -> bool {
    k.len() > 0 && forall|i: int| 0 <= i < k.len() ==> ('a' <= #[trigger] k[i] <= 'z' || k[i] == '_')
}

/// Every key of the members is plain.
pub open spec fn plain_keys(m: Seq<(Seq<char>, JsonScalar)>) -> bool {
    forall|i: int| 0 <= i < m.len() ==> plain_key(#[trigger] m[i].0)
}

/// `"key":value`.
pub open spec fn json_member_text(kv: (Seq<char>, JsonScalar)) -> Seq<char> {
    seq!['"'] + kv.0 + seq!['"', ':'] + json_scalar_text(kv.1)
}

/// The members, separated by commas.
pub open spec fn json_members_text(m: Seq<(Seq<char>, JsonScalar)>) -> Seq<char>
    decreases m.len(),
{
    if m.len() == 0 {
        Seq::empty()
    } else if m.len() == 1 {
        json_member_text(m[0])
    } else {
        json_members_text(m.drop_last()) + seq![','] + json_member_text(m.last())
    }
}

/// The JSON object with these members, in order, without white space.
pub open spec fn json_object_text(m: Seq<(Seq<char>, JsonScalar)>) -> Seq<char> {
    seq!['{'] + json_members_text(m) + seq!['}']
}

pub proof fn lemma_json_escape_concat(a: Seq<char>, b: Seq<char>)
    ensures
        json_escape(a + b) == json_escape(a) + json_escape(b),
    decreases a.len(),
{
    if a.len() == 0 {
        assert(a + b =~= b);
        assert(json_escape(a) =~= Seq::<char>::empty());
        assert(json_escape(a) + json_escape(b) =~= json_escape(b));
    } else {
        lemma_json_escape_concat(a.drop_first(), b);
        assert((a + b).drop_first() =~= a.drop_first() + b);
        assert((a + b)[0] == a[0]);
        assert(json_escape(a + b) =~= json_escape_char(a[0]) + json_escape(a.drop_first() + b));
        assert(json_escape_char(a[0]) + (json_escape(a.drop_first()) + json_escape(b))
            =~= (json_escape_char(a[0]) + json_escape(a.drop_first())) + json_escape(b));
    }
}

pub proof fn lemma_json_escape_single(c: char)
    ensures
        json_escape(seq![c]) == json_escape_char(c),
{
    assert(seq![c].drop_first() =~= Seq::<char>::empty());
    assert(json_escape(seq![c].drop_first()) =~= Seq::<char>::empty());
    assert(json_escape_char(c) + Seq::<char>::empty() =~= json_escape_char(c));
}

/// The character an escape sequence starting at `s[i]` (a backslash) stands
/// for, if it is one that JSON defines with a short form or as `\u00xx`.
pub open spec fn escape_decoded(s: Seq<char>, i: int) -> Option<char> {
    let e = s[i + 1];
    if e == '"' { Some('"') }
    else if e == '\\' { Some('\\') }
    else if e == '/' { Some('/') }
    else if e == 'b' { Some('\u{8}') }
    else if e == 't' { Some('\t') }
    else if e == 'n' { Some('\n') }
    else if e == 'f' { Some('\u{c}') }
    else if e == 'r' { Some('\r') }
    else if e == 'u' && i + 5 < s.len() && s[i + 2] == '0' && s[i + 3] == '0'
        && is_lower_hex(s[i + 4]) && is_lower_hex(s[i + 5]) {
        Some(((hex_value(s[i + 4]) * 16 + hex_value(s[i + 5])) as int) as char)
    } else {
        None
    }
}

/// How many characters the escape sequence starting at `s[i]` takes.
pub open spec fn escape_width(s: Seq<char>, i: int) -> int {
    if s[i + 1] == 'u' { 6 } else { 2 }
}

/// Reads the body of a JSON string literal that starts at `s[i]` (just after
/// its opening quote): the characters it stands for, and the index just
/// after its closing quote.
pub open spec fn json_unescape_at(s: Seq<char>, i: int) -> Option<(Seq<char>, int)>
    decreases s.len() - i,
{
    if i < 0 || i >= s.len() {
        None
    } else if s[i] == '"' {
        Some((Seq::empty(), i + 1))
    } else if s[i] == '\\' {
        if i + 1 >= s.len() {
            None
        } else {
            match escape_decoded(s, i) {
                None => None,
                Some(c) => match json_unescape_at(s, i + escape_width(s, i)) {
                    Some((r, e)) => Some((seq![c] + r, e)),
                    None => None,
                },
            }
        }
    } else {
        match json_unescape_at(s, i + 1) {
            Some((r, e)) => Some((seq![s[i]] + r, e)),
            None => None,
        }
    }
}

proof fn lemma_char_int_roundtrip(c: char)
    ensures
        ((c as int) as char) == c,
{
}

/// Reading back the JSON string body of `n`, followed by a quote, gives `n`
/// and stops just after that quote.
pub proof fn lemma_json_unescape_escaped(s: Seq<char>, i: int, n: Seq<char>)
    requires
        0 <= i,
        i + json_escape(n).len() + 1 <= s.len(),
        s.subrange(i, i + json_escape(n).len() + 1) == json_escape(n) + seq!['"'],
    ensures
        json_unescape_at(s, i) == Some((n, i + json_escape(n).len() + 1)),
    decreases n.len(),
{
    let en = json_escape(n);
    assert(s[i] == s.subrange(i, i + en.len() + 1)[0]);
    if n.len() == 0 {
        assert(en =~= Seq::<char>::empty());
        assert((en + seq!['"'])[0] == '"');
    } else {
        let c = n[0];
        let rest = n.drop_first();
        let ec = json_escape_char(c);
        let er = json_escape(rest);
        assert(en == ec + er);
        let w = ec.len() as int;
        assert(s.subrange(i + w, i + w + er.len() + 1) =~= er + seq!['"']) by {
            assert forall|k: int| 0 <= k < er.len() + 1 implies
                #[trigger] s.subrange(i + w, i + w + er.len() + 1)[k] == (er + seq!['"'])[k] by {
                assert(s.subrange(i, i + en.len() + 1)[w + k] == (en + seq!['"'])[w + k]);
            }
        }
        lemma_json_unescape_escaped(s, i + w, rest);
        assert forall|k: int| 0 <= k < w implies #[trigger] s[i + k] == ec[k] by {
            assert(s.subrange(i, i + en.len() + 1)[k] == (en + seq!['"'])[k]);
        }
        if c == '"' || c == '\\' || c == '\u{8}' || c == '\t' || c == '\n' || c == '\u{c}' || c == '\r' {
            assert(s[i] == '\\');
            assert(escape_width(s, i) == w);
            assert(escape_decoded(s, i) == Some(c));
        } else if 0 <= (c as int) < 0x20 {
            assert(s[i] == '\\');
            let hi = ((c as int) / 16) as nat;
            let lo = ((c as int) % 16) as nat;
            let ci = c as int;
            assert(hi < 16 && lo < 16 && hi * 16 + lo == ci) by (nonlinear_arith)
                requires 0 <= ci < 32, hi == ci / 16, lo == ci % 16;
            lemma_hex_char(hi);
            lemma_hex_char(lo);
            assert(s[i + 1] == 'u');
            assert(s[i + 4] == hex_char(hi));
            assert(s[i + 5] == hex_char(lo));
            lemma_char_int_roundtrip(c);
            assert(escape_decoded(s, i) == Some(c));
            assert(escape_width(s, i) == w);
        } else {
            assert(s[i] == c);
        }
        assert(seq![c] + rest =~= n);
    }
}

/// The index just after the run of digits that starts at `s[i]`.
pub open spec fn digit_run_end(s: Seq<char>, i: int) -> int
    decreases s.len() - i,
{
    if 0 <= i < s.len() && is_digit(s[i]) {
        digit_run_end(s, i + 1)
    } else {
        i
    }
}

proof fn lemma_digit_run_end_skip(s: Seq<char>, a: int, b: int)
    requires
        0 <= a <= b <= s.len(),
        forall|k: int| a <= k < b ==> #[trigger] is_digit(s[k]),
    ensures
        digit_run_end(s, a) == digit_run_end(s, b),
    decreases b - a,
{
    if a < b {
        lemma_digit_run_end_skip(s, a + 1, b);
    }
}

proof fn lemma_digit_run_end_bounds(s: Seq<char>, i: int)
    requires
        0 <= i <= s.len(),
    ensures
        i <= digit_run_end(s, i) <= s.len(),
        forall|k: int| i <= k < digit_run_end(s, i) ==> #[trigger] is_digit(s[k]),
        digit_run_end(s, i) < s.len() ==> !is_digit(s[digit_run_end(s, i)]),
    decreases s.len() - i,
{
    if i < s.len() && is_digit(s[i]) {
        lemma_digit_run_end_bounds(s, i + 1);
    }
}

pub proof fn lemma_digit_run_of_numeral(s: Seq<char>, i: int, n: nat)
    requires
        0 <= i,
        i + dec(n).len() <= s.len(),
        s.subrange(i, i + dec(n).len()) == dec(n),
        i + dec(n).len() == s.len() || !is_digit(s[i + dec(n).len()]),
    ensures
        digit_run_end(s, i) == i + dec(n).len(),
{
    lemma_dec(n);
    let e = i + dec(n).len();
    assert forall|k: int| i <= k < e implies #[trigger] is_digit(s[k]) by {
        assert(s.subrange(i, e)[k - i] == dec(n)[k - i]);
    }
    lemma_digit_run_end_skip(s, i, e);
}

/// Reads the run of decimal digits that starts at `s[start]` as a `u64`.
/// `None` when there is no digit there or the value does not fit.
pub fn read_u64(s: &str, start: usize) -> (r: Option<(u64, usize)>)
    requires
        start <= s@.len(),
    ensures
        ({
            let e = digit_run_end(s@, start as int);
            match r {
                Some((v, end)) => end as int == e && e > start
                    && v as nat == dec_value(s@.subrange(start as int, e)),
                None => e == start || dec_value(s@.subrange(start as int, e)) > u64::MAX,
            }
        }),
{
    let n = s.unicode_len();
    let mut i = start;
    let mut v: u64 = 0;
    proof {
        lemma_digit_run_end_bounds(s@, start as int);
        assert(s@.subrange(start as int, start as int) =~= Seq::<char>::empty());
    }
    while i < n && '0' <= s.get_char(i) && s.get_char(i) <= '9'
        invariant
            n == s@.len(),
            start <= i <= n,
            forall|k: int| start <= k < i ==> #[trigger] is_digit(s@[k]),
            v as nat == dec_value(s@.subrange(start as int, i as int)),
            digit_run_end(s@, start as int) == digit_run_end(s@, i as int),
            start <= digit_run_end(s@, start as int) <= n,
        decreases n - i,
    {
        let c = s.get_char(i);
        let d = (c as u32 - '0' as u32) as u64;
        assert(s@.subrange(start as int, i + 1).drop_last() =~= s@.subrange(start as int, i as int));
        assert(s@.subrange(start as int, i + 1).last() == c);
        let ghost e = digit_run_end(s@, start as int);
        proof {
            lemma_digit_run_end_bounds(s@, start as int);
            lemma_digit_run_end_skip(s@, start as int, i + 1);
        }
        match v.checked_mul(10) {
            Some(m) => match m.checked_add(d) {
                Some(nv) => {
                    v = nv;
                }
                None => {
                    proof {
                        lemma_dec_value_prefix(s@.subrange(start as int, e), i + 1 - start);
                        assert(s@.subrange(start as int, e).subrange(0, i + 1 - start)
                            =~= s@.subrange(start as int, i + 1));
                    }
                    return None;
                }
            },
            None => {
                proof {
                    lemma_dec_value_prefix(s@.subrange(start as int, e), i + 1 - start);
                    assert(s@.subrange(start as int, e).subrange(0, i + 1 - start)
                        =~= s@.subrange(start as int, i + 1));
                }
                return None;
            }
        }
        i = i + 1;
    }
    proof {
        if i < n {
            assert(!is_digit(s@[i as int]));
        }
    }
    if i == start {
        None
    } else {
        Some((v, i))
    }
}

/// Whether `lit` stands in `s` at index `i`.
pub fn has_literal_at(s: &str, i: usize, lit: &str) -> (r: bool)
    ensures
        r == (i + lit@.len() <= s@.len() && s@.subrange(i as int, i + lit@.len()) == lit@),
{
    let n = s.unicode_len();
    let m = lit.unicode_len();
    if i > n || m > n - i {
        return false;
    }
    let mut k: usize = 0;
    while k < m
        invariant
            n == s@.len(),
            m == lit@.len(),
            i + m <= n,
            k <= m,
            forall|j: int| 0 <= j < k ==> s@[i + j] == lit@[j],
        decreases m - k,
    {
        if s.get_char(i + k) != lit.get_char(k) {
            assert(s@.subrange(i as int, i + m)[k as int] != lit@[k as int]);
            return false;
        }
        k = k + 1;
    }
    assert(s@.subrange(i as int, i + m) =~= lit@);
    true
}

/// Appends the JSON escape of one character.
pub fn push_json_escaped_char(out: &mut String, c: char)
    ensures
        final(out)@ == old(out)@ + json_escape_char(c),
{
    let ghost o = out@;
    if c == '"' {
        push_char(out, '\\');
        push_char(out, '"');
    } else if c == '\\' {
        push_char(out, '\\');
        push_char(out, '\\');
    } else if c == '\u{8}' {
        push_char(out, '\\');
        push_char(out, 'b');
    } else if c == '\t' {
        push_char(out, '\\');
        push_char(out, 't');
    } else if c == '\n' {
        push_char(out, '\\');
        push_char(out, 'n');
    } else if c == '\u{c}' {
        push_char(out, '\\');
        push_char(out, 'f');
    } else if c == '\r' {
        push_char(out, '\\');
        push_char(out, 'r');
    } else if (c as u32) < 0x20 {
        let v = c as u32;
        push_char(out, '\\');
        push_char(out, 'u');
        push_char(out, '0');
        push_char(out, '0');
        push_char(out, hex_digit(v / 16));
        push_char(out, hex_digit(v % 16));
    } else {
        push_char(out, c);
    }
    assert(out@ =~= o + json_escape_char(c));
}

pub fn hex_digit(d: u32) -> (c: char)
    requires
        d < 16,
    ensures
        c == hex_char(d as nat),
{
    if d < 10 {
        digit(d as u64)
    } else if d == 10 { 'a' }
    else if d == 11 { 'b' }
    else if d == 12 { 'c' }
    else if d == 13 { 'd' }
    else if d == 14 { 'e' }
    else { 'f' }
}

/// Appends the JSON string literal of `s`, quotes included.
pub fn push_json_string(out: &mut String, s: &str)
    ensures
        final(out)@ == old(out)@ + json_quoted(s@),
{
    let ghost o = out@;
    let n = s.unicode_len();
    push_char(out, '"');
    assert(s@.subrange(0, 0) =~= Seq::<char>::empty());
    assert(json_escape(Seq::<char>::empty()) =~= Seq::<char>::empty());
    let mut i: usize = 0;
    while i < n
        invariant
            n == s@.len(),
            i <= n,
            out@ == o + seq!['"'] + json_escape(s@.subrange(0, i as int)),
        decreases n - i,
    {
        let c = s.get_char(i);
        push_json_escaped_char(out, c);
        proof {
            assert(s@.subrange(0, i + 1) =~= s@.subrange(0, i as int) + seq![c]);
            lemma_json_escape_concat(s@.subrange(0, i as int), seq![c]);
            lemma_json_escape_single(c);
        }
        i = i + 1;
    }
    push_char(out, '"');
    assert(s@.subrange(0, n as int) =~= s@);
    assert(out@ =~= o + json_quoted(s@));
}

/// Reads the body of a JSON string literal that starts at `s[start]`.
pub fn read_json_string(s: &str, start: usize) -> (r: Option<(String, usize)>)
    requires
        start <= s@.len(),
    ensures
        match r {
            Some((v, e)) => json_unescape_at(s@, start as int) == Some((v@, e as int)),
            None => json_unescape_at(s@, start as int) is None,
        },
{
    let n = s.unicode_len();
    let mut out = String::new();
    let mut i = start;
    assert(out@ + Seq::<char>::empty() =~= out@);
    while i < n
        invariant
            n == s@.len(),
            start <= i <= n,
            json_unescape_at(s@, start as int) == match json_unescape_at(s@, i as int) {
                Some((r, e)) => Some((out@ + r, e)),
                None => None,
            },
        decreases n - i,
    {
        let c = s.get_char(i);
        if c == '"' {
            assert(out@ + Seq::<char>::empty() =~= out@);
            return Some((out, i + 1));
        } else if c == '\\' {
            if i + 1 >= n {
                return None;
            }
            let e = s.get_char(i + 1);
            let ghost o = out@;
            let decoded: char;
            let width: usize;
            if e == '"' {
                decoded = '"';
                width = 2;
            } else if e == '\\' {
                decoded = '\\';
                width = 2;
            } else if e == '/' {
                decoded = '/';
                width = 2;
            } else if e == 'b' {
                decoded = '\u{8}';
                width = 2;
            } else if e == 't' {
                decoded = '\t';
                width = 2;
            } else if e == 'n' {
                decoded = '\n';
                width = 2;
            } else if e == 'f' {
                decoded = '\u{c}';
                width = 2;
            } else if e == 'r' {
                decoded = '\r';
                width = 2;
            } else if e == 'u' && n - i > 5 && s.get_char(i + 2) == '0' && s.get_char(i + 3) == '0' {
                let h = s.get_char(i + 4);
                let l = s.get_char(i + 5);
                match (hex_digit_value(h), hex_digit_value(l)) {
                    (Some(hv), Some(lv)) => {
                        let code: u8 = (hv * 16 + lv) as u8;
                        decoded = code as char;
                        width = 6;
                        assert(decoded == ((hex_value(h) * 16 + hex_value(l)) as int) as char);
                    },
                    _ => {
                        return None;
                    },
                }
            } else {
                return None;
            }
            assert(escape_decoded(s@, i as int) == Some(decoded));
            assert(escape_width(s@, i as int) == width);
            push_char(&mut out, decoded);
            proof {
                match json_unescape_at(s@, i + width) {
                    Some((r, e2)) => {
                        assert(o + (seq![decoded] + r) =~= out@ + r);
                    },
                    None => {},
                }
            }
            i = i + width;
        } else {
            let ghost o = out@;
            push_char(&mut out, c);
            proof {
                match json_unescape_at(s@, i + 1) {
                    Some((r, e2)) => {
                        assert(o + (seq![c] + r) =~= out@ + r);
                    },
                    None => {},
                }
            }
            i = i + 1;
        }
    }
    None
}

/// The value of a lower-case hexadecimal digit.
pub fn hex_digit_value(c: char) -> (r: Option<u32>)
    ensures
        r is Some <==> is_lower_hex(c),
        r matches Some(v) ==> v as nat == hex_value(c) && v < 16,
{
    if '0' <= c && c <= '9' {
        Some(c as u32 - '0' as u32)
    } else if 'a' <= c && c <= 'f' {
        Some(c as u32 - 'a' as u32 + 10)
    } else {
        None
    }
}

} // verus!
