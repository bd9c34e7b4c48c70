use vstd::prelude::*;
use crate::principal::Principal;
use vstd::std_specs::iter::IteratorSpec;

verus! {

/// The decimal digit character for `d`.
pub open spec fn digit_char(d: nat) -> char {
    if d == 0 { '0' }
    else if d == 1 { '1' }
    else if d == 2 { '2' }
    else if d == 3 { '3' }
    else if d == 4 { '4' }
    else if d == 5 { '5' }
    else if d == 6 { '6' }
    else if d == 7 { '7' }
    else if d == 8 { '8' }
    else { '9' }
}

/// The decimal representation of `n`, without leading zeros.
pub open spec fn decimal(n: nat) -> Seq<char>
    decreases n,
{
    if n < 10 {
        seq![digit_char(n)]
    } else {
        decimal(n / 10) + seq![digit_char(n % 10)]
    }
}

/// Every character of a decimal numeral is a digit, so none is a dash.
pub proof fn lemma_decimal_has_no_dash(n: nat)
    ensures
        decimal(n).len() >= 1,
        forall|i: int| 0 <= i < decimal(n).len() ==> #[trigger] decimal(n)[i] != '-',
    decreases n,
{
    if n >= 10 {
        lemma_decimal_has_no_dash(n / 10);
        let d = decimal(n / 10) + seq![digit_char(n % 10)];
        assert forall|i: int| 0 <= i < d.len() implies #[trigger] d[i] != '-' by {
            if i < decimal(n / 10).len() {
                assert(d[i] == decimal(n / 10)[i]);
            }
        }
    }
}

/// Different numbers have different numerals.
pub proof fn lemma_decimal_injective(a: nat, b: nat)
    requires
        decimal(a) == decimal(b),
    ensures
        a == b,
    decreases a,
{
    lemma_decimal_has_no_dash(a / 10);
    lemma_decimal_has_no_dash(b / 10);
    if a >= 10 && b >= 10 {
        let da = decimal(a / 10);
        let db = decimal(b / 10);
        assert(decimal(a).last() == digit_char(a % 10));
        assert(decimal(b).last() == digit_char(b % 10));
        assert(da =~= decimal(a).drop_last());
        assert(db =~= decimal(b).drop_last());
        lemma_decimal_injective(a / 10, b / 10);
        assert(digit_char(a % 10) == digit_char(b % 10));
        assert(a % 10 == b % 10);
    } else if a < 10 && b < 10 {
        assert(digit_char(a) == decimal(a)[0]);
        assert(digit_char(b) == decimal(b)[0]);
    } else if a < 10 && b >= 10 {
        assert(decimal(b).len() >= 2);
    } else if a >= 10 && b < 10 {
        assert(decimal(a).len() >= 2);
    }
}

/// Two texts that each end in a dash and a numeral are equal only if the
/// numerals are: the numeral is what follows the last dash.
pub proof fn lemma_dash_numeral_suffix(x: Seq<char>, a: nat, y: Seq<char>, b: nat)
    requires
        x + seq!['-'] + decimal(a) == y + seq!['-'] + decimal(b),
    ensures
        a == b,
{
    lemma_decimal_has_no_dash(a);
    lemma_decimal_has_no_dash(b);
    let l = x + seq!['-'] + decimal(a);
    let r = y + seq!['-'] + decimal(b);
    let la = decimal(a).len();
    let lb = decimal(b).len();
    assert(l.len() == r.len());
    if la < lb {
        let i = l.len() - la - 1;
        assert(l[i] == '-');
        assert(r[i] == decimal(b)[i - y.len() - 1]);
    } else if lb < la {
        let i = r.len() - lb - 1;
        assert(r[i] == '-');
        assert(l[i] == decimal(a)[i - x.len() - 1]);
    } else {
        assert(decimal(a) =~= l.subrange(l.len() - la, l.len() as int));
        assert(decimal(b) =~= r.subrange(r.len() - lb, r.len() as int));
        lemma_decimal_injective(a, b);
    }
}

/// The textual form of a boolean, as Rust prints it.
pub open spec fn bool_text(b: bool) -> Seq<char> {
    if b { seq!['t', 'r', 'u', 'e'] } else { seq!['f', 'a', 'l', 's', 'e'] }
}

/// The lowercase hexadecimal digit for `d`.
pub open spec fn hex_digit(d: nat) -> char {
    if d < 10 { digit_char(d) }
    else if d == 10 { 'a' }
    else if d == 11 { 'b' }
    else if d == 12 { 'c' }
    else if d == 13 { 'd' }
    else if d == 14 { 'e' }
    else { 'f' }
}

/// Two lowercase hexadecimal digits per byte, high nibble first.
pub open spec fn hex_lower(bytes: Seq<u8>) -> Seq<char>
    decreases bytes.len(),
{
    if bytes.len() == 0 {
        Seq::empty()
    } else {
        hex_lower(bytes.drop_last()) + seq![
            hex_digit((bytes.last() / 16) as nat),
            hex_digit((bytes.last() % 16) as nat),
        ]
    }
}

/// The textual representation of a principal (its CRC-32 checksum and bytes
/// in grouped lowercase base32), as the candid crate prints it.
pub uninterp spec fn principal_text(bytes: Seq<u8>) -> Seq<char>;

fn digit_str(d: u8) -> (r: &'static str)
    requires
        d < 10,
    ensures
        r@ == seq![digit_char(d as nat)],
{
    proof {
        reveal_strlit("0");
        reveal_strlit("1");
        reveal_strlit("2");
        reveal_strlit("3");
        reveal_strlit("4");
        reveal_strlit("5");
        reveal_strlit("6");
        reveal_strlit("7");
        reveal_strlit("8");
        reveal_strlit("9");
    }
    match d {
        0 => "0",
        1 => "1",
        2 => "2",
        3 => "3",
        4 => "4",
        5 => "5",
        6 => "6",
        7 => "7",
        8 => "8",
        _ => "9",
    }
}

/// Appends the decimal representation of `n` to `s`.
pub fn push_decimal(s: &mut String, n: u128)
    ensures
        final(s)@ == old(s)@ + decimal(n as nat),
    decreases n,
{
    if n >= 10 {
        push_decimal(s, n / 10);
    }
    let d = (n % 10) as u8;
    s.append(digit_str(d));
    proof {
        assert(final(s)@ =~= old(s)@ + decimal(n as nat)) by {
            if n >= 10 {
                assert(decimal(n as nat) == decimal((n / 10) as nat) + seq![digit_char((n % 10) as nat)]);
            }
        }
    }
}

/// The decimal representation of `n`.
pub fn decimal_string(n: u128) -> (r: String)
    ensures
        r@ == decimal(n as nat),
{
    let mut s = String::new();
    push_decimal(&mut s, n);
    assert(s@ =~= decimal(n as nat));
    s
}

/// Appends `true` or `false` to `s`.
pub fn push_bool(s: &mut String, b: bool)
    ensures
        final(s)@ == old(s)@ + bool_text(b),
{
    proof {
        reveal_strlit("true");
        reveal_strlit("false");
    }
    if b {
        s.append("true");
    } else {
        s.append("false");
    }
}

/// Appends the textual representation of the principal `p` to `s`.
pub fn push_principal(s: &mut String, p: &Principal)
    ensures
        final(s)@ == old(s)@ + principal_text(p@),
        no_underscore(principal_text(p@)),
        forall|b: Seq<u8>| b.len() <= 29 && #[trigger] principal_text(b) == principal_text(p@) ==> b == p@,
{
    let bytes = p.as_slice();
    let t = principal_to_text(&bytes);
    s.append(t.as_str());
}

/// Whether a text holds no underscore.
pub open spec fn no_underscore(t: Seq<char>) -> bool {
    forall|i: int| 0 <= i < t.len() ==> #[trigger] t[i] != '_'
}

/// Calls `candid::Principal::from_slice` on the bytes, then
/// `candid::Principal::to_text`; the result is named `principal_text`.
/// The text is the lowercase base-32 form of a checksum and the bytes, in
/// groups of five joined by dashes, so it holds no underscore, and no other
/// principal has the same text. `from_slice` panics beyond 29 bytes, which
/// the `requires` rules out.
#[verifier::external_body]
fn principal_to_text(bytes: &Vec<u8>) -> (r: String)
    requires
        bytes@.len() <= 29,
    ensures
        r@ == principal_text(bytes@),
        forall|i: int| 0 <= i < r@.len() ==> #[trigger] r@[i] != '_',
        forall|b: Seq<u8>| b.len() <= 29 && #[trigger] principal_text(b) == r@ ==> b == bytes@,
{
    candid::Principal::from_slice(bytes.as_slice()).to_text()
}

/// What `candid::Principal::from_text` makes of a text: the bytes of the
/// principal it names, or the message of the error.
pub uninterp spec fn principal_parse(s: Seq<char>) -> Result<Seq<u8>, Seq<char>>;

/// Calls `candid::Principal::from_text`, which parses the textual form of
/// a principal case-insensitively; the result is named `principal_parse`.
/// The contract also states what the parser's source shows of the text of
/// a principal: it parses back to the principal's bytes.
#[verifier::external_body]
pub(crate) fn principal_from_text(s: &str) -> (r: Result<Principal, String>)
    ensures
        principal_parse(s@) == (match r {
            Ok(p) => Ok::<Seq<u8>, Seq<char>>(p@),
            Err(e) => Err::<Seq<u8>, Seq<char>>(e@),
        }),
        (forall|b: Seq<u8>| b.len() <= 29 && #[trigger] principal_text(b) == s@ ==> (match r {
            Ok(p) => p@ == b,
            Err(_) => false,
        })),
{
    match candid::Principal::from_text(s) {
        Ok(p) => Ok(Principal::from_slice(p.as_slice())),
        Err(e) => Err(e.to_string()),
    }
}

/// Calls `hex::encode`, which writes each byte as two lowercase hexadecimal
/// digits, high nibble first.
#[verifier::external_body]
fn hex_encode(bytes: &Vec<u8>) -> (r: String)
    ensures
        r@ == hex_lower(bytes@),
{
    hex::encode(bytes)
}

/// Appends the lowercase hexadecimal form of the bytes to `s`.
pub fn push_hex(s: &mut String, bytes: &Vec<u8>)
    ensures
        final(s)@ == old(s)@ + hex_lower(bytes@),
{
    let t = hex_encode(bytes);
    s.append(t.as_str());
}

} // verus!

verus! {

/// The last `width` decimal digits of `n`, with leading zeros.
pub open spec fn padded_decimal(n: nat, width: nat) -> Seq<char>
    decreases width,
{
    if width == 0 {
        Seq::empty()
    } else {
        padded_decimal(n / 10, (width - 1) as nat) + seq![digit_char(n % 10)]
    }
}

/// An amount of e8s written as ICP with eight decimals.
pub open spec fn icp_text(e8s: nat) -> Seq<char> {
    decimal(e8s / 100_000_000) + seq!['.'] + padded_decimal(e8s % 100_000_000, 8)
}

/// Appends the last `width` decimal digits of `n`, with leading zeros.
pub fn push_padded_decimal(s: &mut String, n: u64, width: u64)
    ensures
        final(s)@ == old(s)@ + padded_decimal(n as nat, width as nat),
    decreases width,
{
    if width > 0 {
        push_padded_decimal(s, n / 10, width - 1);
        s.append(digit_str((n % 10) as u8));
        proof {
            assert(final(s)@ =~= old(s)@ + padded_decimal(n as nat, width as nat));
        }
    } else {
        proof {
            assert(final(s)@ =~= old(s)@ + padded_decimal(n as nat, width as nat));
        }
    }
}

/// Appends an amount of e8s as ICP with eight decimals.
pub fn push_icp(s: &mut String, e8s: u64)
    ensures
        final(s)@ == old(s)@ + icp_text(e8s as nat),
{
    push_decimal(s, (e8s / 100_000_000) as u128);
    proof { reveal_strlit("."); }
    s.append(".");
    push_padded_decimal(s, e8s % 100_000_000, 8);
    proof {
        assert(final(s)@ =~= old(s)@ + icp_text(e8s as nat));
    }
}

} // verus!

verus! {

/// The debug form of a string, as std's `Debug` for `str` writes it: the
/// string between double quotes, with quotes, backslashes, control
/// characters and the characters that Unicode deems unprintable escaped.
pub uninterp spec fn debug_str(s: Seq<char>) -> Seq<char>;

/// Calls std's `Debug` formatting of a string (`format!("{:?}", t)`); the
/// result is named `debug_str`.
#[verifier::external_body]
fn debug_text(t: &str) -> (r: String)
    ensures
        r@ == debug_str(t@),
{
    format!("{:?}", t)
}

/// Appends the debug form of `t`: its characters, escaped, between double
/// quotes.
pub fn push_debug_str(s: &mut String, t: &str)
    ensures
        final(s)@ == old(s)@ + debug_str(t@),
{
    let d = debug_text(t);
    s.append(d.as_str());
}

/// The views of a sequence of strings.
pub open spec fn strings_view(v: Seq<String>) -> Seq<Seq<char>> {
    v.map_values(|s: String| s@)
}

/// The parts joined in order with `sep` between each two.
pub open spec fn joined(parts: Seq<Seq<char>>, sep: Seq<char>) -> Seq<char>
    decreases parts.len(),
{
    if parts.len() == 0 {
        Seq::empty()
    } else if parts.len() == 1 {
        parts[0]
    } else {
        joined(parts.drop_last(), sep) + sep + parts.last()
    }
}

/// The parts joined in order with `sep` between each two.
pub fn join_strings(parts: &Vec<String>, sep: &str) -> (r: String)
    ensures
        r@ == joined(strings_view(parts@), sep@),
{
    let ghost v = strings_view(parts@);
    let mut out = String::new();
    let mut i: usize = 0;
    while i < parts.len()
        invariant
            v == strings_view(parts@),
            i <= parts@.len(),
            out@ == joined(v.take(i as int), sep@),
        decreases parts@.len() - i,
    {
        proof {
            assert(v.take(i + 1).drop_last() =~= v.take(i as int));
        }
        if i > 0 {
            out.append(sep);
        }
        out.append(parts[i].as_str());
        i = i + 1;
    }
    proof {
        assert(v.take(parts@.len() as int) =~= v);
    }
    out
}

/// The characters of `s`, in order.
pub fn chars_of(s: &str) -> (r: Vec<char>)
    ensures
        r@ == s@,
{
    let mut out: Vec<char> = Vec::new();
    let mut chars = s.chars();
    let ghost all = s@;
    proof {
        broadcast use vstd::string::axiom_spec_iter;
        assert(chars.remaining() == all);
        assert(all.subrange(0, all.len() as int) =~= all);
    }
    loop
        invariant
            all == s@,
            out@.len() <= all.len(),
            out@ == all.subrange(0, out@.len() as int),
            chars.remaining() == all.subrange(out@.len() as int, all.len() as int),
        ensures
            out@ == all,
        decreases all.len() - out@.len(),
    {
        let next = chars.next();
        proof {
            broadcast use vstd::string::next_postcondition;
        }
        match next {
            Some(c) => {
                let ghost i = out@.len() as int;
                proof {
                    assert(c == all[i]);
                    assert(chars.remaining() =~= all.subrange(i + 1, all.len() as int));
                }
                out.push(c);
                proof {
                    assert(out@ =~= all.subrange(0, i + 1));
                }
            },
            None => {
                proof {
                    assert(out@.len() == all.len());
                    assert(out@ =~= all);
                }
                break;
            },
        }
    }
    out
}

/// `a` and `b` agree before position `k`, and there `a` ends while `b`
/// goes on, or `a` has the smaller character.
pub open spec fn first_difference_favors(a: Seq<char>, b: Seq<char>, k: int) -> bool {
    &&& 0 <= k <= a.len()
    &&& k <= b.len()
    &&& forall|j: int| 0 <= j < k ==> a[j] == b[j]
    &&& ((k == a.len() && k < b.len()) || (k < a.len() && k < b.len() && (a[k] as u32) < (b[k] as u32)))
}

/// Whether `a` comes before `b` in lexicographic order of characters: `a`
/// is a proper prefix of `b`, or at the first position where they differ
/// `a` has the smaller character.
pub open spec fn text_less(a: Seq<char>, b: Seq<char>) -> bool {
    exists|k: int| #[trigger] first_difference_favors(a, b, k)
}

/// Lexicographic order is strict: no two texts each come before the other.
pub proof fn lemma_text_less_asymmetric(a: Seq<char>, b: Seq<char>)
    ensures
        !(text_less(a, b) && text_less(b, a)),
{
    if text_less(a, b) && text_less(b, a) {
        let k1 = choose|k: int| #[trigger] first_difference_favors(a, b, k);
        let k2 = choose|k: int| #[trigger] first_difference_favors(b, a, k);
        if k1 < k2 {
            assert(a[k1] == b[k1]);
        } else if k2 < k1 {
            assert(b[k2] == a[k2]);
        }
    }
}

/// Of two different texts, one comes before the other, once they agree up
/// to position `k`.
proof fn lemma_text_less_total_from(a: Seq<char>, b: Seq<char>, k: int)
    requires
        a != b,
        0 <= k <= a.len(),
        k <= b.len(),
        forall|j: int| 0 <= j < k ==> a[j] == b[j],
    ensures
        text_less(a, b) || text_less(b, a),
    decreases a.len() - k,
{
    if k == a.len() && k == b.len() {
        assert(a =~= b);
    } else if k == a.len() {
        assert(first_difference_favors(a, b, k));
    } else if k == b.len() {
        assert(first_difference_favors(b, a, k));
    } else if a[k] != b[k] {
        if (a[k] as u32) == (b[k] as u32) {
            vstd::utf8::char_u32_cast(a[k], a[k] as u32);
            vstd::utf8::char_u32_cast(b[k], b[k] as u32);
        }
        if (a[k] as u32) < (b[k] as u32) {
            assert(first_difference_favors(a, b, k));
        } else {
            assert(first_difference_favors(b, a, k));
        }
    } else {
        lemma_text_less_total_from(a, b, k + 1);
    }
}

/// Lexicographic order is total: of two different texts, one comes before
/// the other.
pub proof fn lemma_text_less_total(a: Seq<char>, b: Seq<char>)
    requires
        a != b,
    ensures
        text_less(a, b) || text_less(b, a),
{
    lemma_text_less_total_from(a, b, 0);
}

/// Whether `a` comes before `b` in lexicographic order of characters, the
/// order of Rust's comparison of strings.
pub fn str_less(a: &str, b: &str) -> (r: bool)
    ensures
        r == text_less(a@, b@),
{
    let x = chars_of(a);
    let y = chars_of(b);
    let mut i: usize = 0;
    while i < x.len() && i < y.len()
        invariant
            x@ == a@,
            y@ == b@,
            i <= x@.len(),
            i <= y@.len(),
            forall|j: int| 0 <= j < i ==> x@[j] == y@[j],
        decreases x@.len() - i,
    {
        let c = x[i];
        let d = y[i];
        if c != d {
            let less = (c as u32) < (d as u32);
            proof {
                if less {
                    assert(first_difference_favors(a@, b@, i as int));
                } else {
                    assert forall|k: int| !first_difference_favors(a@, b@, k) by {
                        if 0 <= k <= a@.len() && k <= b@.len() && (forall|j: int| 0 <= j < k ==> a@[j] == b@[j]) {
                            if k > i {
                                assert(a@[i as int] == b@[i as int]);
                            }
                        }
                    }
                }
            }
            return less;
        }
        i = i + 1;
    }
    let r = i == x.len() && i < y.len();
    proof {
        if r {
            assert(first_difference_favors(a@, b@, i as int));
        } else {
            assert forall|k: int| !first_difference_favors(a@, b@, k) by {
                if 0 <= k < i {
                    assert(x@[k] == y@[k]);
                }
            }
        }
    }
    r
}

/// The uppercase form of a text, by the Unicode case mapping that Rust's
/// `str::to_uppercase` applies.
pub uninterp spec fn uppercase(s: Seq<char>) -> Seq<char>;

/// The lowercase form of a text, by the Unicode case mapping that Rust's
/// `str::to_lowercase` applies.
pub uninterp spec fn lowercase(s: Seq<char>) -> Seq<char>;

/// Calls `str::to_uppercase`; the result is named `uppercase`.
#[verifier::external_body]
pub(crate) fn to_uppercase(s: &str) -> (r: String)
    ensures
        r@ == uppercase(s@),
{
    s.to_uppercase()
}

/// Calls `str::to_lowercase`; the result is named `lowercase`.
#[verifier::external_body]
pub(crate) fn to_lowercase(s: &str) -> (r: String)
    ensures
        r@ == lowercase(s@),
{
    s.to_lowercase()
}

} // verus!
