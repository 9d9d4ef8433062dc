//! Verified text primitives: decimal parsing and rendering, boolean
//! literals, ASCII case folding, string equality and comma splitting.
//!
//! Every option value crosses the boundary as text; these functions give
//! the exact grammar that the option catalog's rules are stated over.

use vstd::prelude::*;

verus! {

// ---------------------------------------------------------------------------
// Decimal digits
// ---------------------------------------------------------------------------
/// Is `c` one of the ten ASCII decimal digits?
pub open spec fn is_dec_digit(c: char) -> bool {
    48 <= c as u32 <= 57
}

/// Numeric value of a decimal digit character.
pub open spec fn digit_of(c: char) -> int {
    c as u32 - 48
}

/// Every character of `s` is a decimal digit.
pub open spec fn all_digits(s: Seq<char>) -> bool {
    forall|i: int| 0 <= i < s.len() ==> is_dec_digit(#[trigger] s[i])
}

/// The value of a digit string, most significant digit first.
pub open spec fn dec_value(s: Seq<char>) -> int
    decreases s.len(),
{
    if s.len() == 0 {
        0
    } else {
        dec_value(s.drop_last()) * 10 + digit_of(s.last())
    }
}

/// The digit character for a value `0 <= d <= 9`.
pub open spec fn digit_char(d: int) -> char {
    if d == 0 { '0' }
    else if d == 1 { '1' }
    else if d == 2 { '2' }
    else if d == 3 { '3' }
    else if d == 4 { '4' }
    else if d == 5 { '5' }
    else if d == 6 { '6' }
    else if d == 7 { '7' }
    else if d == 8 { '8' }
    else { '9' }
}

/// Canonical decimal rendering of a non-negative integer.
pub open spec fn spec_dec_string(n: int) -> Seq<char>
    decreases n,
{
    if n < 10 {
        seq![digit_char(n)]
    } else {
        spec_dec_string(n / 10).push(digit_char(n % 10))
    }
}

/// Canonical decimal rendering of a signed integer.
pub open spec fn spec_signed_dec_string(n: int) -> Seq<char> {
    if n < 0 {
        seq!['-'] + spec_dec_string(-n)
    } else {
        spec_dec_string(n)
    }
}

// ---------------------------------------------------------------------------
// Decimal parsing: specification
// ---------------------------------------------------------------------------
/// The value of a bare (unsigned, unprefixed) digit string, if it is one
/// and fits in `u64`.
pub open spec fn spec_digits_opt(s: Seq<char>) -> Option<u64> {
    if s.len() > 0 && all_digits(s) && dec_value(s) <= u64::MAX {
        Some(dec_value(s) as u64)
    } else {
        None
    }
}

/// The standard base-10 grammar for unsigned integers: an optional `+`
/// sign followed by at least one digit, rejecting overflow.
pub open spec fn spec_parse_dec(s: Seq<char>) -> Option<u64> {
    if s.len() > 0 && s[0] == '+' {
        spec_digits_opt(s.subrange(1, s.len() as int))
    } else {
        spec_digits_opt(s)
    }
}

/// `spec_parse_dec` narrowed to `u32`.
pub open spec fn spec_parse_u32(s: Seq<char>) -> Option<u32> {
    match spec_parse_dec(s) {
        Some(v) => if v <= u32::MAX { Some(v as u32) } else { None },
        None => None,
    }
}

/// `spec_parse_dec` narrowed to `usize`.
pub open spec fn spec_parse_usize(s: Seq<char>) -> Option<usize> {
    match spec_parse_dec(s) {
        Some(v) => if v <= usize::MAX { Some(v as usize) } else { None },
        None => None,
    }
}

/// The standard base-10 grammar for `i32`: an optional `+` or `-` sign
/// followed by at least one digit, rejecting overflow.
pub open spec fn spec_parse_i32(s: Seq<char>) -> Option<i32> {
    if s.len() > 0 && s[0] == '-' {
        match spec_digits_opt(s.subrange(1, s.len() as int)) {
            Some(v) => if v <= 2147483648u64 { Some((-(v as int)) as i32) } else { None },
            None => None,
        }
    } else {
        match spec_parse_dec(s) {
            Some(v) => if v <= i32::MAX { Some(v as i32) } else { None },
            None => None,
        }
    }
}

// ---------------------------------------------------------------------------
// Boolean literals
// ---------------------------------------------------------------------------
/// Canonical text of a boolean.
pub open spec fn spec_bool_str(b: bool) -> Seq<char> {
    if b { "true"@ } else { "false"@ }
}

/// The boolean grammar: exactly the two canonical literals.
pub open spec fn spec_parse_bool(s: Seq<char>) -> Option<bool> {
    if s == "true"@ {
        Some(true)
    } else if s == "false"@ {
        Some(false)
    } else {
        None
    }
}

// ---------------------------------------------------------------------------
// ASCII case folding
// ---------------------------------------------------------------------------
/// ASCII lower-casing of one character; anything outside `A`..`Z` is kept.
pub open spec fn lower_char(c: char) -> char {
    if 65 <= c as u32 <= 90 {
        (((c as u32) + 32) as u32) as char
    } else {
        c
    }
}

/// ASCII lower-casing of a character sequence.
pub open spec fn ascii_lower(s: Seq<char>) -> Seq<char> {
    Seq::new(s.len(), |i: int| lower_char(s[i]))
}

// ---------------------------------------------------------------------------
// Comma splitting
// ---------------------------------------------------------------------------
/// Splitting on `,`: `cur` is the token being read.  A separator always
/// terminates a token, so `n` separators yield `n + 1` tokens, empty ones
/// included.
pub open spec fn split_acc(s: Seq<char>, cur: Seq<char>) -> Seq<Seq<char>>
    decreases s.len(),
{
    if s.len() == 0 {
        seq![cur]
    } else if s[0] == ',' {
        seq![cur] + split_acc(s.drop_first(), seq![])
    } else {
        split_acc(s.drop_first(), cur.push(s[0]))
    }
}

/// The comma-separated tokens of `s`.
pub open spec fn spec_split_commas(s: Seq<char>) -> Seq<Seq<char>> {
    split_acc(s, seq![])
}

// ---------------------------------------------------------------------------
// Executable string equality
// ---------------------------------------------------------------------------
/// Character-exact string equality.
pub fn str_eq(a: &str, b: &str) -> (r: bool)
    ensures
        r == (a@ == b@),
{
    let la = a.unicode_len();
    let lb = b.unicode_len();
    if la != lb {
        return false;
    }
    let mut i: usize = 0;
    while i < la
        invariant
            i <= la,
            la == a@.len(),
            lb == b@.len(),
            la == lb,
            forall|j: int| 0 <= j < i ==> a@[j] == b@[j],
        decreases la - i,
    {
        if a.get_char(i) != b.get_char(i) {
            return false;
        }
        i += 1;
    }
    proof {
        assert(a@ =~= b@);
    }
    true
}

/// Lower-cases one character, ASCII-only.
pub fn lower_char_exec(c: char) -> (r: char)
    ensures
        r == lower_char(c),
{
    let u = c as u32;
    if 65 <= u && u <= 90 {
        ((c as u8) + 32) as char
    } else {
        c
    }
}

/// Does `s`, lower-cased ASCII-wise, equal `lit` exactly?
pub fn lower_eq(s: &str, lit: &str) -> (r: bool)
    ensures
        r == (ascii_lower(s@) == lit@),
{
    let la = s.unicode_len();
    let lb = lit.unicode_len();
    if la != lb {
        return false;
    }
    let mut i: usize = 0;
    while i < la
        invariant
            i <= la,
            la == s@.len(),
            lb == lit@.len(),
            la == lb,
            forall|j: int| 0 <= j < i ==> ascii_lower(s@)[j] == lit@[j],
        decreases la - i,
    {
        if lower_char_exec(s.get_char(i)) != lit.get_char(i) {
            return false;
        }
        i += 1;
    }
    proof {
        assert(ascii_lower(s@) =~= lit@);
    }
    true
}

// ---------------------------------------------------------------------------
// Executable decimal parsing
// ---------------------------------------------------------------------------
/// Parses the digit run `s[from..to]`, exactly as `spec_digits_opt` reads
/// that range.
fn parse_digits_range(s: &str, from: usize, to: usize) -> (r: Option<u64>)
    requires
        from <= to <= s@.len(),
    ensures
        r == spec_digits_opt(s@.subrange(from as int, to as int)),
{
    if from == to {
        return None;
    }
    let mut acc: u64 = 0;
    let mut over: bool = false;
    let mut i: usize = from;
    while i < to
        invariant
            from <= i <= to <= s@.len(),
            all_digits(s@.subrange(from as int, i as int)),
            !over ==> acc == dec_value(s@.subrange(from as int, i as int)),
            over ==> dec_value(s@.subrange(from as int, i as int)) > u64::MAX,
        decreases to - i,
    {
        let c = s.get_char(i);
        let u = c as u32;
        if u < 48 || 57 < u {
            proof {
                assert(s@.subrange(from as int, to as int)[i - from] == s@[i as int]);
                assert(!is_dec_digit(s@[i as int]));
            }
            return None;
        }
        let d: u64 = (u - 48) as u64;
        proof {
            let pre = s@.subrange(from as int, i as int);
            let ext = s@.subrange(from as int, i + 1);
            assert(ext.drop_last() =~= pre);
            assert(ext.last() == s@[i as int]);
        }
        if over {
            proof {
                let v = dec_value(s@.subrange(from as int, i as int));
                assert(v * 10 + digit_of(s@[i as int]) > u64::MAX) by (nonlinear_arith)
                    requires
                        v > u64::MAX,
                        digit_of(s@[i as int]) >= 0,
                ;
            }
        } else if acc > (u64::MAX - d) / 10 {
            proof {
                let v = dec_value(s@.subrange(from as int, i as int));
                assert(v * 10 + d > u64::MAX) by (nonlinear_arith)
                    requires
                        v == acc,
                        0 <= d <= 9,
                        acc > (u64::MAX - d) / 10,
                ;
                assert(digit_of(s@[i as int]) == d);
            }
            over = true;
        } else {
            proof {
                let v = dec_value(s@.subrange(from as int, i as int));
                assert(v * 10 + d <= u64::MAX) by (nonlinear_arith)
                    requires
                        v == acc,
                        0 <= d <= 9,
                        acc <= (u64::MAX - d) / 10,
                ;
                assert(digit_of(s@[i as int]) == d);
            }
            acc = acc * 10 + d;
        }
        i += 1;
    }
    if over {
        None
    } else {
        Some(acc)
    }
}

/// Parses an unsigned decimal with an optional `+` sign into `u64`.
pub fn parse_u64_str(s: &str) -> (r: Option<u64>)
    ensures
        r == spec_parse_dec(s@),
{
    let len = s.unicode_len();
    if len == 0 {
        return None;
    }
    if s.get_char(0) == '+' {
        parse_digits_range(s, 1, len)
    } else {
        proof {
            assert(s@.subrange(0, s@.len() as int) =~= s@);
        }
        parse_digits_range(s, 0, len)
    }
}

/// Parses an unsigned decimal into `u32`, rejecting overflow.
pub fn parse_u32_str(s: &str) -> (r: Option<u32>)
    ensures
        r == spec_parse_u32(s@),
{
    match parse_u64_str(s) {
        Some(v) => {
            if v <= u32::MAX as u64 {
                Some(v as u32)
            } else {
                None
            }
        },
        None => None,
    }
}

/// Parses an unsigned decimal into `usize`, rejecting overflow.
pub fn parse_usize_str(s: &str) -> (r: Option<usize>)
    ensures
        r == spec_parse_usize(s@),
{
    match parse_u64_str(s) {
        Some(v) => {
            if v <= usize::MAX as u64 {
                Some(v as usize)
            } else {
                None
            }
        },
        None => None,
    }
}

/// Parses a signed decimal with an optional `+` or `-` sign into `i32`.
pub fn parse_i32_str(s: &str) -> (r: Option<i32>)
    ensures
        r == spec_parse_i32(s@),
{
    let len = s.unicode_len();
    if len == 0 {
        return None;
    }
    if s.get_char(0) == '-' {
        match parse_digits_range(s, 1, len) {
            Some(v) => {
                if v <= 2147483648u64 {
                    Some((-(v as i64)) as i32)
                } else {
                    None
                }
            },
            None => None,
        }
    } else {
        match parse_u64_str(s) {
            Some(v) => {
                if v <= i32::MAX as u64 {
                    Some(v as i32)
                } else {
                    None
                }
            },
            None => None,
        }
    }
}

/// Parses exactly the two boolean literals.
pub fn parse_bool_str(s: &str) -> (r: Option<bool>)
    ensures
        r == spec_parse_bool(s@),
{
    if str_eq(s, "true") {
        Some(true)
    } else if str_eq(s, "false") {
        Some(false)
    } else {
        None
    }
}

// ---------------------------------------------------------------------------
// Executable decimal rendering
// ---------------------------------------------------------------------------
/// The one-character string for a digit value.
fn digit_str(d: u8) -> (r: &'static str)
    requires
        d < 10,
    ensures
        r@ == seq![digit_char(d as int)],
{
    proof {
        reveal_strlit("0");
        reveal_strlit("1");
        reveal_strlit("2");
        reveal_strlit("3");
        reveal_strlit("4");
        reveal_strlit("5");
        reveal_strlit("6");
        reveal_strlit("7");
        reveal_strlit("8");
        reveal_strlit("9");
    }
    let r = if d == 0 { "0" }
    else if d == 1 { "1" }
    else if d == 2 { "2" }
    else if d == 3 { "3" }
    else if d == 4 { "4" }
    else if d == 5 { "5" }
    else if d == 6 { "6" }
    else if d == 7 { "7" }
    else if d == 8 { "8" }
    else { "9" };
    proof {
        assert(r@ =~= seq![digit_char(d as int)]);
    }
    r
}

/// The digit characters of `d` read back to front.
pub open spec fn rev_digit_chars(d: Seq<u8>) -> Seq<char> {
    Seq::new(d.len(), |i: int| digit_char(d[d.len() - 1 - i] as int))
}

/// Renders `n` in canonical decimal.
pub fn render_u64(n: u64) -> (r: String)
    ensures
        r@ == spec_dec_string(n as int),
{
    let mut m: u64 = n;
    let mut d: Vec<u8> = Vec::new();
    d.push((m % 10) as u8);
    m = m / 10;
    proof {
        assert(rev_digit_chars(d@) =~= seq![digit_char((n as int) % 10)]);
        if n >= 10 {
            assert(spec_dec_string(n as int) == spec_dec_string(n as int / 10).push(
                digit_char(n as int % 10),
            ));
            assert(spec_dec_string(n as int) =~= spec_dec_string(m as int) + rev_digit_chars(d@));
        } else {
            assert(spec_dec_string(n as int) =~= rev_digit_chars(d@));
        }
    }
    while m != 0
        invariant
            d@.len() >= 1,
            forall|k: int| 0 <= k < d@.len() ==> d@[k] < 10,
            m == 0 ==> spec_dec_string(n as int) == rev_digit_chars(d@),
            m != 0 ==> spec_dec_string(n as int) == spec_dec_string(m as int) + rev_digit_chars(
                d@,
            ),
        decreases m,
    {
        let ghost pre = d@;
        let ghost m0 = m as int;
        d.push((m % 10) as u8);
        m = m / 10;
        proof {
            assert(rev_digit_chars(d@) =~= seq![digit_char(m0 % 10)] + rev_digit_chars(pre));
            if m0 >= 10 {
                assert(spec_dec_string(m0) == spec_dec_string(m0 / 10).push(digit_char(m0 % 10)));
                assert(spec_dec_string(m0) + rev_digit_chars(pre) =~= spec_dec_string(m0 / 10)
                    + rev_digit_chars(d@));
            } else {
                assert(spec_dec_string(m0) =~= seq![digit_char(m0)]);
                assert(spec_dec_string(m0) + rev_digit_chars(pre) =~= rev_digit_chars(d@));
            }
        }
    }
    let mut out = String::new();
    let mut j: usize = d.len();
    while j > 0
        invariant
            j <= d@.len(),
            forall|k: int| 0 <= k < d@.len() ==> d@[k] < 10,
            spec_dec_string(n as int) == rev_digit_chars(d@),
            out@ == rev_digit_chars(d@).take(d@.len() - j),
        decreases j,
    {
        j -= 1;
        let ghost before = out@;
        out.append(digit_str(d[j]));
        proof {
            assert(out@ =~= rev_digit_chars(d@).take(d@.len() - j));
        }
    }
    proof {
        assert(rev_digit_chars(d@).take(d@.len() as int) =~= rev_digit_chars(d@));
    }
    out
}

/// Renders `n` in canonical signed decimal.
pub fn render_i64(n: i64) -> (r: String)
    ensures
        r@ == spec_signed_dec_string(n as int),
{
    if n >= 0 {
        render_u64(n as u64)
    } else {
        let mag: u64 = if n == i64::MIN {
            9223372036854775808u64
        } else {
            (-n) as u64
        };
        let mut out = String::from_str("-");
        let digits = render_u64(mag);
        out.append(digits.as_str());
        proof {
            reveal_strlit("-");
            assert(out@ =~= seq!['-'] + spec_dec_string(-(n as int)));
        }
        out
    }
}

/// The canonical text of a boolean.
pub fn bool_str(b: bool) -> (r: String)
    ensures
        r@ == spec_bool_str(b),
{
    if b {
        String::from_str("true")
    } else {
        String::from_str("false")
    }
}

// ---------------------------------------------------------------------------
// Executable comma splitting
// ---------------------------------------------------------------------------
/// Splits `s` on commas; `n` commas give `n + 1` tokens, empty ones kept.
pub fn split_commas(s: &str) -> (r: Vec<String>)
    ensures
        r.deep_view() == spec_split_commas(s@),
{
    let len = s.unicode_len();
    let mut out: Vec<String> = Vec::new();
    let mut start: usize = 0;
    let mut i: usize = 0;
    proof {
        assert(s@.skip(0) =~= s@);
        assert(s@.subrange(0, 0) =~= seq![]);
        assert(out.deep_view() =~= Seq::<Seq<char>>::empty());
        assert(out.deep_view() + split_acc(s@, seq![]) =~= split_acc(s@, seq![]));
    }
    while i < len
        invariant
            start <= i <= len,
            len == s@.len(),
            spec_split_commas(s@) == out.deep_view() + split_acc(
                s@.skip(i as int),
                s@.subrange(start as int, i as int),
            ),
        decreases len - i,
    {
        let c = s.get_char(i);
        let ghost rem = s@.skip(i as int);
        let ghost cur = s@.subrange(start as int, i as int);
        proof {
            assert(rem[0] == s@[i as int]);
            assert(rem.drop_first() =~= s@.skip(i + 1));
        }
        if c == ',' {
            let tok = String::from_str(s.substring_char(start, i));
            let ghost dv0 = out.deep_view();
            out.push(tok);
            proof {
                assert(split_acc(rem, cur) == seq![cur] + split_acc(s@.skip(i + 1), seq![]));
                assert(out.deep_view() =~= dv0.push(cur));
                assert(s@.subrange(i + 1, i + 1) =~= seq![]);
                assert(out.deep_view() + split_acc(s@.skip(i + 1), s@.subrange(i + 1, i + 1))
                    =~= dv0 + split_acc(rem, cur));
            }
            start = i + 1;
        } else {
            proof {
                assert(split_acc(rem, cur) == split_acc(rem.drop_first(), cur.push(s@[i as int])));
                assert(cur.push(s@[i as int]) =~= s@.subrange(start as int, i + 1));
            }
        }
        i += 1;
    }
    let tok = String::from_str(s.substring_char(start, len));
    let ghost dv0 = out.deep_view();
    let ghost cur = s@.subrange(start as int, len as int);
    out.push(tok);
    proof {
        assert(s@.skip(len as int) =~= Seq::<char>::empty());
        assert(split_acc(s@.skip(len as int), cur) == seq![cur]);
        assert(out.deep_view() =~= dv0.push(cur));
        assert(out.deep_view() =~= dv0 + seq![cur]);
        assert(spec_split_commas(s@) == out.deep_view());
    }
    out
}

// ---------------------------------------------------------------------------
// Integer lists
// ---------------------------------------------------------------------------
/// Collection of the parsable tokens of a token list: tokens that are not
/// unsigned decimals are skipped.
pub open spec fn collect_u32s(ts: Seq<Seq<char>>, acc: Seq<u32>) -> Seq<u32>
    decreases ts.len(),
{
    if ts.len() == 0 {
        acc
    } else {
        collect_u32s(
            ts.drop_first(),
            match spec_parse_u32(ts[0]) {
                Some(v) => acc.push(v),
                None => acc,
            },
        )
    }
}

/// The integer list that a comma-separated token list parses to.
pub open spec fn spec_u32_list(s: Seq<char>) -> Seq<u32> {
    collect_u32s(spec_split_commas(s), seq![])
}

/// Parses a comma-separated integer list, skipping unparsable tokens.
pub fn parse_u32_list(s: &str) -> (r: Vec<u32>)
    ensures
        r@ == spec_u32_list(s@),
{
    let tokens = split_commas(s);
    let mut out: Vec<u32> = Vec::new();
    let mut i: usize = 0;
    proof {
        assert(tokens.deep_view().skip(0) =~= tokens.deep_view());
        assert(out@ =~= Seq::<u32>::empty());
    }
    while i < tokens.len()
        invariant
            i <= tokens.deep_view().len(),
            tokens.deep_view().len() == tokens@.len(),
            forall|j: int| 0 <= j < tokens@.len() ==> tokens.deep_view()[j] == #[trigger] tokens@[j]@,
            spec_u32_list(s@) == collect_u32s(tokens.deep_view().skip(i as int), out@),
        decreases tokens@.len() - i,
    {
        let ghost rem = tokens.deep_view().skip(i as int);
        proof {
            assert(rem[0] == tokens.deep_view()[i as int]);
            assert(rem.drop_first() =~= tokens.deep_view().skip(i + 1));
        }
        match parse_u32_str(tokens[i].as_str()) {
            Some(v) => {
                out.push(v);
            },
            None => {},
        }
        i += 1;
    }
    proof {
        assert(tokens.deep_view().skip(tokens@.len() as int) =~= Seq::<Seq<char>>::empty());
    }
    out
}

/// The concatenation of the decimal renderings of `ns`, with no separator.
pub open spec fn spec_u32_concat(ns: Seq<u32>) -> Seq<char>
    decreases ns.len(),
{
    if ns.len() == 0 {
        seq![]
    } else {
        spec_dec_string(ns[0] as int) + spec_u32_concat(ns.drop_first())
    }
}

/// Renders an integer list as concatenated decimals.
pub fn render_u32_list(v: &Vec<u32>) -> (r: String)
    ensures
        r@ == spec_u32_concat(v@),
{
    let mut out = String::new();
    let mut i: usize = 0;
    proof {
        assert(v@.skip(0) =~= v@);
    }
    while i < v.len()
        invariant
            i <= v@.len(),
            out@ + spec_u32_concat(v@.skip(i as int)) == spec_u32_concat(v@),
        decreases v@.len() - i,
    {
        let piece = render_u64(v[i] as u64);
        let ghost rem = v@.skip(i as int);
        proof {
            assert(rem[0] == v@[i as int]);
            assert(rem.drop_first() =~= v@.skip(i + 1));
        }
        out.append(piece.as_str());
        proof {
            assert(out@ + spec_u32_concat(v@.skip(i + 1)) =~= spec_u32_concat(v@));
        }
        i += 1;
    }
    proof {
        assert(v@.skip(v@.len() as int) =~= Seq::<u32>::empty());
        assert(out@ =~= out@ + spec_u32_concat(v@.skip(v@.len() as int)));
    }
    out
}

} // verus!
