//! Address Validator: classifies a connection-target string (as bytes)
//! as either a domain-based HTTP endpoint or a literal `ip:port` pair.
//! Classification is pure, happens once at the process entry boundary,
//! and a malformed address never reaches the Connection Manager.

use vstd::prelude::*;

verus! {

/// Rejection of a connection-target string, before any I/O is attempted.
#[derive(Clone, Copy, PartialEq, Eq, Structural, Debug)]
pub enum ValidationError {
    Malformed,
}

/// A validated connection target: either a URL-like domain endpoint
/// (kept verbatim) or a literal IPv4 address with a port, kept as its
/// numeric fields.
#[derive(Clone, PartialEq, Eq, Debug)]
pub enum ConnectionTarget {
    DomainAddress(Vec<u8>),
    IpPort { a: u8, b: u8, c: u8, d: u8, port: u16 },
}

/// ASCII code of `'.'`.
pub const DOT: u8 = 46;

/// ASCII code of `':'`.
pub const COLON: u8 = 58;

/// ASCII code of `'0'`.
pub const DIGIT_ZERO: u8 = 48;

/// ASCII code of `'9'`.
pub const DIGIT_NINE: u8 = 57;

/// An ASCII decimal digit.
pub open spec fn is_digit(c: u8) -> bool {
    DIGIT_ZERO <= c <= DIGIT_NINE
}

pub open spec fn all_digits(s: Seq<u8>) -> bool {
    forall|i: int| 0 <= i < s.len() ==> is_digit(s[i])
}

/// Value of a digit string, most significant digit first.
pub open spec fn dec_val(s: Seq<u8>) -> nat
    decreases s.len(),
{
    if s.len() == 0 {
        0
    } else {
        dec_val(s.drop_last()) * 10 + (s.last() - DIGIT_ZERO) as nat
    }
}

/// Index of the first occurrence of `c` in `s`, or `s.len()` if absent.
pub open spec fn idx_of(s: Seq<u8>, c: u8) -> int
    decreases s.len(),
{
    if s.len() == 0 {
        0
    } else if s[0] == c {
        0
    } else {
        1 + idx_of(s.skip(1), c)
    }
}

/// The first position where `c` occurs determines `idx_of`.
pub proof fn lemma_idx_of_first(s: Seq<u8>, c: u8, i: int)
    requires
        0 <= i < s.len(),
        s[i] == c,
        forall|j: int| 0 <= j < i ==> s[j] != c,
    ensures
        idx_of(s, c) == i,
    decreases s.len(),
{
    if i > 0 {
        assert(s[0] != c);
        assert(s.skip(1)[i - 1] == s[i]);
        assert forall|j: int| 0 <= j < i - 1 implies s.skip(1)[j] != c by {
            assert(s.skip(1)[j] == s[j + 1]);
        }
        lemma_idx_of_first(s.skip(1), c, i - 1);
    }
}

/// When `c` does not occur in `s`, `idx_of` is `s.len()`.
pub proof fn lemma_idx_of_absent(s: Seq<u8>, c: u8)
    requires
        forall|j: int| 0 <= j < s.len() ==> s[j] != c,
    ensures
        idx_of(s, c) == s.len(),
    decreases s.len(),
{
    if s.len() > 0 {
        assert forall|j: int| 0 <= j < s.skip(1).len() implies s.skip(1)[j] != c by {
            assert(s.skip(1)[j] == s[j + 1]);
        }
        lemma_idx_of_absent(s.skip(1), c);
    }
}

/// First index at which `c` occurs in `s`, or `s.len()` when it does not.
pub fn find_byte(s: &[u8], c: u8) -> (i: usize)
    ensures
        i == idx_of(s@, c),
{
    let n = s.len();
    let mut i: usize = 0;
    while i < n
        invariant
            0 <= i <= n,
            n == s@.len(),
            forall|j: int| 0 <= j < i ==> s@[j] != c,
        decreases n - i,
    {
        if s[i] == c {
            proof {
                lemma_idx_of_first(s@, c, i as int);
            }
            return i;
        }
        i = i + 1;
    }
    proof {
        lemma_idx_of_absent(s@, c);
    }
    n
}

pub open spec fn pow10(n: nat) -> nat
    decreases n,
{
    if n == 0 {
        1
    } else {
        10 * pow10((n - 1) as nat)
    }
}

pub proof fn lemma_pow10_mono(a: nat, b: nat)
    requires
        a <= b,
    ensures
        pow10(a) <= pow10(b),
    decreases b,
{
    if a < b {
        lemma_pow10_mono(a, (b - 1) as nat);
        assert(pow10(b) == 10 * pow10((b - 1) as nat));
    }
}

/// A decimal numeral of one to three digits worth at most 255: one IPv4 octet.
pub open spec fn valid_octet(s: Seq<u8>) -> bool {
    1 <= s.len() <= 3 && all_digits(s) && dec_val(s) <= 255
}

/// A decimal numeral of one to five digits worth at most 65535: a port.
pub open spec fn valid_port(s: Seq<u8>) -> bool {
    1 <= s.len() <= 5 && all_digits(s) && dec_val(s) <= 65535
}

/// Parse a short decimal numeral.  Returns its value exactly when the
/// input is one to five digits; rejects everything else.
fn parse_num(s: &[u8]) -> (r: Option<u32>)
    ensures
        match r {
            Some(v) => 1 <= s@.len() <= 5 && all_digits(s@) && v == dec_val(s@),
            None => !(1 <= s@.len() <= 5 && all_digits(s@)),
        },
{
    let n = s.len();
    if n == 0 || n > 5 {
        return None;
    }
    let mut v: u32 = 0;
    let mut i: usize = 0;
    while i < n
        invariant
            0 <= i <= n,
            n == s@.len(),
            1 <= n <= 5,
            all_digits(s@.take(i as int)),
            v == dec_val(s@.take(i as int)),
            v < pow10(i as nat),
        decreases n - i,
    {
        let c = s[i];
        if c < DIGIT_ZERO || c > DIGIT_NINE {
            assert(!is_digit(s@[i as int]));
            return None;
        }
        proof {
            assert(s@.take(i + 1).drop_last() =~= s@.take(i as int));
            assert(s@.take(i + 1).last() == s@[i as int]);
            lemma_pow10_mono(i as nat, 4);
            assert(pow10(4) == 10 * pow10(3));
            assert(pow10(3) == 10 * pow10(2));
            assert(pow10(2) == 10 * pow10(1));
            assert(pow10(1) == 10 * pow10(0));
            assert(pow10((i + 1) as nat) == 10 * pow10(i as nat));
        }
        v = v * 10 + (c - DIGIT_ZERO) as u32;
        i = i + 1;
    }
    proof {
        assert(s@.take(n as int) =~= s@);
    }
    Some(v)
}

/// Parse one IPv4 octet: one to three digits, value at most 255.
fn parse_octet(s: &[u8]) -> (r: Option<u8>)
    ensures
        match r {
            Some(v) => valid_octet(s@) && v == dec_val(s@),
            None => !valid_octet(s@),
        },
{
    match parse_num(s) {
        Some(v) => {
            if s.len() <= 3 && v <= 255 {
                Some(v as u8)
            } else {
                None
            }
        },
        None => None,
    }
}

/// Parse a port: one to five digits, value at most 65535.
fn parse_port(s: &[u8]) -> (r: Option<u16>)
    ensures
        match r {
            Some(v) => valid_port(s@) && v == dec_val(s@),
            None => !valid_port(s@),
        },
{
    match parse_num(s) {
        Some(v) => {
            if v <= 65535 {
                Some(v as u16)
            } else {
                None
            }
        },
        None => None,
    }
}

/// A literal `<ipv4>:<port>` string: four octets separated by dots,
/// then a colon and a port, each part a short decimal numeral in range.
/// The splits are taken at the first `.` (three times) and then the
/// first `:`; since every part must be pure digits, the decomposition
/// is the only possible one.
pub open spec fn is_ip_port(s: Seq<u8>) -> bool {
    let i1 = idx_of(s, DOT);
    let t1 = s.skip(i1 + 1);
    let i2 = idx_of(t1, DOT);
    let t2 = t1.skip(i2 + 1);
    let i3 = idx_of(t2, DOT);
    let t3 = t2.skip(i3 + 1);
    let ic = idx_of(t3, COLON);
    &&& i1 < s.len()
    &&& i2 < t1.len()
    &&& i3 < t2.len()
    &&& ic < t3.len()
    &&& valid_octet(s.take(i1))
    &&& valid_octet(t1.take(i2))
    &&& valid_octet(t2.take(i3))
    &&& valid_octet(t3.take(ic))
    &&& valid_port(t3.skip(ic + 1))
}

/// The numeric fields (four octets, then the port) of an `ip:port`
/// string, read off the same decomposition that `is_ip_port` uses.
pub open spec fn ip_fields(s: Seq<u8>) -> (nat, nat, nat, nat, nat) {
    let i1 = idx_of(s, DOT);
    let t1 = s.skip(i1 + 1);
    let i2 = idx_of(t1, DOT);
    let t2 = t1.skip(i2 + 1);
    let i3 = idx_of(t2, DOT);
    let t3 = t2.skip(i3 + 1);
    let ic = idx_of(t3, COLON);
    (
        dec_val(s.take(i1)),
        dec_val(t1.take(i2)),
        dec_val(t2.take(i3)),
        dec_val(t3.take(ic)),
        dec_val(t3.skip(ic + 1)),
    )
}

/// Parse a literal `<ipv4>:<port>` pair, yielding its numeric fields;
/// returns `None` exactly on the strings that are not such a pair.
fn parse_ip_port(s: &[u8]) -> (r: Option<(u8, u8, u8, u8, u16)>)
    ensures
        match r {
            Some(t) => {
                &&& is_ip_port(s@)
                &&& t.0 as nat == ip_fields(s@).0
                &&& t.1 as nat == ip_fields(s@).1
                &&& t.2 as nat == ip_fields(s@).2
                &&& t.3 as nat == ip_fields(s@).3
                &&& t.4 as nat == ip_fields(s@).4
            },
            None => !is_ip_port(s@),
        },
{
    let n = s.len();
    let i1 = find_byte(s, DOT);
    if i1 >= n {
        return None;
    }
    let a = match parse_octet(vstd::slice::slice_subrange(s, 0, i1)) {
        Some(v) => v,
        None => {
            return None;
        },
    };
    let rest1 = vstd::slice::slice_subrange(s, i1 + 1, n);
    let n1 = rest1.len();
    let i2 = find_byte(rest1, DOT);
    if i2 >= n1 {
        return None;
    }
    let b = match parse_octet(vstd::slice::slice_subrange(rest1, 0, i2)) {
        Some(v) => v,
        None => {
            return None;
        },
    };
    let rest2 = vstd::slice::slice_subrange(rest1, i2 + 1, n1);
    let n2 = rest2.len();
    let i3 = find_byte(rest2, DOT);
    if i3 >= n2 {
        return None;
    }
    let c = match parse_octet(vstd::slice::slice_subrange(rest2, 0, i3)) {
        Some(v) => v,
        None => {
            return None;
        },
    };
    let rest3 = vstd::slice::slice_subrange(rest2, i3 + 1, n2);
    let n3 = rest3.len();
    let ic = find_byte(rest3, COLON);
    if ic >= n3 {
        return None;
    }
    let d = match parse_octet(vstd::slice::slice_subrange(rest3, 0, ic)) {
        Some(v) => v,
        None => {
            return None;
        },
    };
    let port = match parse_port(vstd::slice::slice_subrange(rest3, ic + 1, n3)) {
        Some(v) => v,
        None => {
            return None;
        },
    };
    Some((a, b, c, d, port))
}

/// ASCII code of `'-'`.
pub const HYPHEN: u8 = 45;

/// ASCII code of `'/'`.
pub const SLASH: u8 = 47;

pub open spec fn is_alpha(c: u8) -> bool {
    (65 <= c <= 90) || (97 <= c <= 122)
}

/// A character allowed in a bare hostname: letters, digits, `-`, `.`.
pub open spec fn is_host_char(c: u8) -> bool {
    is_digit(c) || is_alpha(c) || c == DOT || c == HYPHEN
}

/// A character allowed after a scheme: host characters plus `:` and `/`.
pub open spec fn is_url_char(c: u8) -> bool {
    is_host_char(c) || c == COLON || c == SLASH
}

/// The bytes of `"http://"`.
pub open spec fn http_prefix() -> Seq<u8> {
    seq![104u8, 116u8, 116u8, 112u8, COLON, SLASH, SLASH]
}

/// The bytes of `"https://"`.
pub open spec fn https_prefix() -> Seq<u8> {
    seq![104u8, 116u8, 116u8, 112u8, 115u8, COLON, SLASH, SLASH]
}

pub open spec fn all_url_chars(s: Seq<u8>) -> bool {
    forall|i: int| 0 <= i < s.len() ==> is_url_char(s[i])
}

pub open spec fn all_host_chars(s: Seq<u8>) -> bool {
    forall|i: int| 0 <= i < s.len() ==> is_host_char(s[i])
}

/// A URL-like address with an explicit scheme: `http://` or `https://`
/// followed by a nonempty remainder of URL characters.
pub open spec fn has_scheme(s: Seq<u8>) -> bool {
    ||| (s.len() > 7 && s.take(7) == http_prefix() && all_url_chars(s.skip(7)))
    ||| (s.len() > 8 && s.take(8) == https_prefix() && all_url_chars(s.skip(8)))
}

/// A bare hostname: nonempty, only host characters, and at least one
/// letter (a string of digits and dots alone is not a hostname).
pub open spec fn is_bare_host(s: Seq<u8>) -> bool {
    &&& s.len() > 0
    &&& all_host_chars(s)
    &&& exists|i: int| 0 <= i < s.len() && is_alpha(s[i])
}

/// A domain-based endpoint: a scheme-qualified URL or a bare hostname.
pub open spec fn is_domain(s: Seq<u8>) -> bool {
    has_scheme(s) || is_bare_host(s)
}

/// Decide whether every byte of `s` from `from` on is a URL character.
fn check_url_chars(s: &[u8], from: usize) -> (b: bool)
    requires
        from <= s@.len(),
    ensures
        b == all_url_chars(s@.skip(from as int)),
{
    let n = s.len();
    let mut i: usize = from;
    while i < n
        invariant
            from <= i <= n,
            n == s@.len(),
            forall|j: int| from <= j < i ==> is_url_char(s@[j]),
        decreases n - i,
    {
        let c = s[i];
        let ok = (DIGIT_ZERO <= c && c <= DIGIT_NINE) || (65 <= c && c <= 90) || (97 <= c
            && c <= 122) || c == DOT || c == HYPHEN || c == COLON || c == SLASH;
        if !ok {
            assert(!is_url_char(s@.skip(from as int)[i - from]));
            return false;
        }
        i = i + 1;
    }
    assert forall|j: int| 0 <= j < s@.skip(from as int).len() implies is_url_char(
        s@.skip(from as int)[j],
    ) by {
        assert(s@.skip(from as int)[j] == s@[j + from]);
    }
    true
}

/// Decide whether `s` is a bare hostname.
fn check_bare_host(s: &[u8]) -> (b: bool)
    ensures
        b == is_bare_host(s@),
{
    let n = s.len();
    if n == 0 {
        return false;
    }
    let mut i: usize = 0;
    let mut has_alpha = false;
    while i < n
        invariant
            0 <= i <= n,
            n == s@.len(),
            forall|j: int| 0 <= j < i ==> is_host_char(s@[j]),
            has_alpha == exists|j: int| 0 <= j < i && is_alpha(s@[j]),
        decreases n - i,
    {
        let c = s[i];
        let alpha = (65 <= c && c <= 90) || (97 <= c && c <= 122);
        let ok = (DIGIT_ZERO <= c && c <= DIGIT_NINE) || alpha || c == DOT || c == HYPHEN;
        if !ok {
            assert(!is_host_char(s@[i as int]));
            return false;
        }
        if alpha {
            has_alpha = true;
        }
        i = i + 1;
    }
    has_alpha
}

/// Decide whether `s` is a scheme-qualified URL.
fn check_scheme(s: &[u8]) -> (b: bool)
    ensures
        b == has_scheme(s@),
{
    let n = s.len();
    if n > 7 && s[0] == 104 && s[1] == 116 && s[2] == 116 && s[3] == 112 && s[4] == COLON && s[5]
        == SLASH && s[6] == SLASH {
        proof {
            assert(s@.take(7) =~= http_prefix());
        }
        return check_url_chars(s, 7);
    }
    if n > 8 && s[0] == 104 && s[1] == 116 && s[2] == 116 && s[3] == 112 && s[4] == 115 && s[5]
        == COLON && s[6] == SLASH && s[7] == SLASH {
        proof {
            assert(s@.take(8) =~= https_prefix());
            assert(s@.take(7) != http_prefix()) by {
                assert(s@.take(7)[4] == 115u8);
                assert(http_prefix()[4] == COLON);
            }
        }
        return check_url_chars(s, 8);
    }
    proof {
        if s@.len() > 7 && s@.take(7) == http_prefix() {
            assert(s@[0] == s@.take(7)[0] && s@[1] == s@.take(7)[1] && s@[2] == s@.take(7)[2]
                && s@[3] == s@.take(7)[3] && s@[4] == s@.take(7)[4] && s@[5] == s@.take(7)[5]
                && s@[6] == s@.take(7)[6]);
        }
        if s@.len() > 8 && s@.take(8) == https_prefix() {
            assert(s@[0] == s@.take(8)[0] && s@[1] == s@.take(8)[1] && s@[2] == s@.take(8)[2]
                && s@[3] == s@.take(8)[3] && s@[4] == s@.take(8)[4] && s@[5] == s@.take(8)[5]
                && s@[6] == s@.take(8)[6] && s@[7] == s@.take(8)[7]);
        }
    }
    false
}

/// Decide whether `s` is a domain-based endpoint.
fn check_domain(s: &[u8]) -> (b: bool)
    ensures
        b == is_domain(s@),
{
    if check_scheme(s) {
        true
    } else {
        check_bare_host(s)
    }
}

/// Classify a connection-target string, given as bytes.
///
/// A literal `<ipv4>:<port>` pair becomes `IpPort` with its numeric
/// fields; otherwise a URL-like or bare-hostname string becomes
/// `DomainAddress`, kept verbatim; anything else is `Malformed`.
/// Validation is pure and happens before any networking attempt.
pub fn classify(s: &[u8]) -> (r: Result<ConnectionTarget, ValidationError>)
    ensures
        is_ip_port(s@) ==> (r matches Ok(t) && (t matches ConnectionTarget::IpPort {
            a,
            b,
            c,
            d,
            port,
        } && a as nat == ip_fields(s@).0 && b as nat == ip_fields(s@).1 && c as nat == ip_fields(
            s@,
        ).2 && d as nat == ip_fields(s@).3 && port as nat == ip_fields(s@).4)),
        !is_ip_port(s@) && is_domain(s@) ==> (r matches Ok(t) && (t
            matches ConnectionTarget::DomainAddress(h) && h@ == s@)),
        !is_ip_port(s@) && !is_domain(s@) ==> r == Err::<ConnectionTarget, ValidationError>(
            ValidationError::Malformed,
        ),
        r is Ok <==> (is_ip_port(s@) || is_domain(s@)),
{
    match parse_ip_port(s) {
        Some((a, b, c, d, port)) => Ok(ConnectionTarget::IpPort { a, b, c, d, port }),
        None => {
            if check_domain(s) {
                Ok(ConnectionTarget::DomainAddress(vstd::slice::slice_to_vec(s)))
            } else {
                Err(ValidationError::Malformed)
            }
        },
    }
}

/// Canonical decimal numeral of `n`: no leading zeros (a single `0`
/// for zero), most significant digit first.
pub open spec fn dec_repr(n: nat) -> Seq<u8>
    decreases n,
{
    if n < 10 {
        seq![(n + DIGIT_ZERO) as u8]
    } else {
        dec_repr(n / 10).push((n % 10 + DIGIT_ZERO) as u8)
    }
}

/// Canonical bytes of an `ip:port` target with the given fields.
pub open spec fn ip_port_repr(a: nat, b: nat, c: nat, d: nat, port: nat) -> Seq<u8> {
    dec_repr(a) + seq![DOT] + dec_repr(b) + seq![DOT] + dec_repr(c) + seq![DOT] + dec_repr(d)
        + seq![COLON] + dec_repr(port)
}

/// Canonical bytes of a classified target: a domain address is kept
/// verbatim; an `ip:port` pair is printed with minimal numerals.
pub open spec fn canonical_bytes(t: ConnectionTarget) -> Seq<u8> {
    match t {
        ConnectionTarget::DomainAddress(h) => h@,
        ConnectionTarget::IpPort { a, b, c, d, port } => ip_port_repr(
            a as nat,
            b as nat,
            c as nat,
            d as nat,
            port as nat,
        ),
    }
}

/// Append the canonical decimal numeral of `n` to `out`.
fn push_dec(out: &mut Vec<u8>, n: u32)
    ensures
        final(out)@ == old(out)@ + dec_repr(n as nat),
    decreases n,
{
    if n < 10 {
        out.push(n as u8 + DIGIT_ZERO);
        proof {
            assert(final(out)@ =~= old(out)@ + dec_repr(n as nat));
        }
    } else {
        push_dec(out, n / 10);
        out.push((n % 10) as u8 + DIGIT_ZERO);
        proof {
            assert((n / 10) as nat == n as nat / 10);
            assert((n % 10) as nat == n as nat % 10);
            assert(final(out)@ =~= old(out)@ + dec_repr(n as nat));
        }
    }
}

impl ConnectionTarget {
    /// Re-serialize a classified target to its canonical byte form.
    pub fn to_bytes(&self) -> (r: Vec<u8>)
        ensures
            r@ == canonical_bytes(*self),
    {
        match self {
            ConnectionTarget::DomainAddress(h) => {
                let mut r: Vec<u8> = Vec::new();
                let n = h.len();
                let mut i: usize = 0;
                while i < n
                    invariant
                        0 <= i <= n,
                        n == h@.len(),
                        r@ == h@.take(i as int),
                    decreases n - i,
                {
                    r.push(h[i]);
                    proof {
                        assert(r@ =~= h@.take(i + 1));
                    }
                    i = i + 1;
                }
                proof {
                    assert(h@.take(n as int) =~= h@);
                }
                r
            },
            ConnectionTarget::IpPort { a, b, c, d, port } => {
                let mut r: Vec<u8> = Vec::new();
                push_dec(&mut r, *a as u32);
                r.push(DOT);
                push_dec(&mut r, *b as u32);
                r.push(DOT);
                push_dec(&mut r, *c as u32);
                r.push(DOT);
                push_dec(&mut r, *d as u32);
                r.push(COLON);
                push_dec(&mut r, *port as u32);
                proof {
                    assert(r@ =~= canonical_bytes(*self));
                }
                r
            },
        }
    }
}

/// Validate a connection-target string and return its canonical byte
/// form: `ip:port` pairs are re-printed from their numeric fields,
/// domain addresses are kept verbatim.
pub fn canonicalize(s: &[u8]) -> (r: Result<Vec<u8>, ValidationError>)
    ensures
        r matches Ok(v) ==> accepts(s@) && v@ == canon(s@),
        r is Err <==> !accepts(s@),
{
    match classify(s) {
        Ok(t) => Ok(t.to_bytes()),
        Err(e) => Err(e),
    }
}

pub proof fn lemma_dec_repr_digits(n: nat)
    ensures
        all_digits(dec_repr(n)),
        dec_repr(n).len() >= 1,
    decreases n,
{
    if n < 10 {
        assert(is_digit(dec_repr(n)[0]));
    } else {
        lemma_dec_repr_digits(n / 10);
        assert forall|i: int| 0 <= i < dec_repr(n).len() implies is_digit(dec_repr(n)[i]) by {
            if i < dec_repr(n / 10).len() {
                assert(dec_repr(n)[i] == dec_repr(n / 10)[i]);
            } else {
                assert(dec_repr(n)[i] == (n % 10 + DIGIT_ZERO) as u8);
            }
        }
    }
}

/// Printing and re-reading a number is the identity.
pub proof fn lemma_dec_val_dec_repr(n: nat)
    ensures
        dec_val(dec_repr(n)) == n,
    decreases n,
{
    if n < 10 {
        assert(dec_val(Seq::<u8>::empty()) == 0);
        assert(dec_repr(n).drop_last() =~= Seq::<u8>::empty());
        assert(dec_repr(n).last() == (n + DIGIT_ZERO) as u8);
        assert(dec_val(dec_repr(n)) == dec_val(Seq::<u8>::empty()) * 10 + ((n + DIGIT_ZERO) as u8
            - DIGIT_ZERO) as nat);
    } else {
        lemma_dec_val_dec_repr(n / 10);
        assert(dec_repr(n).drop_last() =~= dec_repr(n / 10));
        assert(dec_repr(n).last() == (n % 10 + DIGIT_ZERO) as u8);
        assert(dec_val(dec_repr(n)) == (n / 10) * 10 + n % 10);
    }
}

/// A number below `10^k` prints in at most `k` digits.
pub proof fn lemma_dec_repr_len(n: nat, k: nat)
    requires
        k >= 1,
        n < pow10(k),
    ensures
        dec_repr(n).len() <= k,
    decreases n,
{
    if n < 10 {
    } else {
        assert(pow10(k) == 10 * pow10((k - 1) as nat));
        assert(k >= 2) by {
            if k == 1 {
                assert(pow10(1) == 10 * pow10(0));
            }
        }
        assert(n / 10 < pow10((k - 1) as nat));
        lemma_dec_repr_len(n / 10, (k - 1) as nat);
    }
}

/// In `digits ++ [sep] ++ rest` with a non-digit separator, the first
/// occurrence of `sep` is exactly after the digits, so the split that
/// `is_ip_port` takes lands on the pieces it was built from.
pub proof fn lemma_split_at_sep(x: Seq<u8>, sep: u8, rest: Seq<u8>)
    requires
        all_digits(x),
        !is_digit(sep),
    ensures
        idx_of(x + seq![sep] + rest, sep) == x.len(),
        (x + seq![sep] + rest).take(x.len() as int) == x,
        (x + seq![sep] + rest).skip(x.len() + 1 as int) == rest,
{
    let s = x + seq![sep] + rest;
    assert(s[x.len() as int] == sep);
    assert forall|j: int| 0 <= j < x.len() implies s[j] != sep by {
        assert(s[j] == x[j]);
        assert(is_digit(x[j]));
    }
    lemma_idx_of_first(s, sep, x.len() as int);
    assert(s.take(x.len() as int) =~= x);
    assert(s.skip(x.len() + 1 as int) =~= rest);
}

/// The canonical print of in-range fields is a valid `ip:port` string,
/// and it reads back as exactly those fields.
#[verifier::rlimit(100)]
pub proof fn lemma_repr_is_ip_port(a: nat, b: nat, c: nat, d: nat, port: nat)
    requires
        a <= 255,
        b <= 255,
        c <= 255,
        d <= 255,
        port <= 65535,
    ensures
        is_ip_port(ip_port_repr(a, b, c, d, port)),
        ip_fields(ip_port_repr(a, b, c, d, port)) == (a, b, c, d, port),
{
    let ra = dec_repr(a);
    let rb = dec_repr(b);
    let rc = dec_repr(c);
    let rd = dec_repr(d);
    let rp = dec_repr(port);
    lemma_dec_repr_digits(a);
    lemma_dec_repr_digits(b);
    lemma_dec_repr_digits(c);
    lemma_dec_repr_digits(d);
    lemma_dec_repr_digits(port);
    lemma_dec_val_dec_repr(a);
    lemma_dec_val_dec_repr(b);
    lemma_dec_val_dec_repr(c);
    lemma_dec_val_dec_repr(d);
    lemma_dec_val_dec_repr(port);
    assert(pow10(1) == 10 * pow10(0));
    assert(pow10(2) == 10 * pow10(1));
    assert(pow10(3) == 10 * pow10(2));
    assert(pow10(4) == 10 * pow10(3));
    assert(pow10(5) == 10 * pow10(4));
    lemma_dec_repr_len(a, 3);
    lemma_dec_repr_len(b, 3);
    lemma_dec_repr_len(c, 3);
    lemma_dec_repr_len(d, 3);
    lemma_dec_repr_len(port, 5);
    let s = ip_port_repr(a, b, c, d, port);
    let rest1 = rb + seq![DOT] + rc + seq![DOT] + rd + seq![COLON] + rp;
    let rest2 = rc + seq![DOT] + rd + seq![COLON] + rp;
    let rest3 = rd + seq![COLON] + rp;
    assert(s =~= ra + seq![DOT] + rest1);
    assert(rest1 =~= rb + seq![DOT] + rest2);
    assert(rest2 =~= rc + seq![DOT] + rest3);
    lemma_split_at_sep(ra, DOT, rest1);
    lemma_split_at_sep(rb, DOT, rest2);
    lemma_split_at_sep(rc, DOT, rest3);
    lemma_split_at_sep(rd, COLON, rp);
    assert(idx_of(s, DOT) == ra.len() as int);
    assert(s.take(ra.len() as int) == ra);
    assert(s.skip(ra.len() + 1 as int) == rest1);
    assert(idx_of(rest1, DOT) == rb.len() as int);
    assert(rest1.take(rb.len() as int) == rb);
    assert(rest1.skip(rb.len() + 1 as int) == rest2);
    assert(idx_of(rest2, DOT) == rc.len() as int);
    assert(rest2.take(rc.len() as int) == rc);
    assert(rest2.skip(rc.len() + 1 as int) == rest3);
    assert(idx_of(rest3, COLON) == rd.len() as int);
    assert(rest3.take(rd.len() as int) == rd);
    assert(rest3.skip(rd.len() + 1 as int) == rp);
    assert(valid_octet(ra));
    assert(valid_octet(rb));
    assert(valid_octet(rc));
    assert(valid_octet(rd));
    assert(valid_port(rp));
    assert(is_ip_port(s));
    assert(ip_fields(s).0 == a);
    assert(ip_fields(s).1 == b);
    assert(ip_fields(s).2 == c);
    assert(ip_fields(s).3 == d);
    assert(ip_fields(s).4 == port);
}

/// Whether the Address Validator accepts the string at all.
pub open spec fn accepts(s: Seq<u8>) -> bool {
    is_ip_port(s) || is_domain(s)
}

/// Canonical form of an accepted string: an `ip:port` pair is printed
/// from its numeric fields; a domain address is kept verbatim.
pub open spec fn canon(s: Seq<u8>) -> Seq<u8> {
    if is_ip_port(s) {
        let f = ip_fields(s);
        ip_port_repr(f.0, f.1, f.2, f.3, f.4)
    } else {
        s
    }
}

/// Re-serializing the classified result of an accepted string is
/// idempotent: the canonical form classifies to the same target, and
/// canonicalizing it again changes nothing.
pub proof fn lemma_canon_idempotent(s: Seq<u8>)
    requires
        accepts(s),
    ensures
        accepts(canon(s)),
        is_ip_port(canon(s)) == is_ip_port(s),
        is_ip_port(s) ==> ip_fields(canon(s)) == ip_fields(s),
        !is_ip_port(s) ==> canon(s) == s,
        canon(canon(s)) == canon(s),
{
    if is_ip_port(s) {
        let f = ip_fields(s);
        lemma_repr_is_ip_port(f.0, f.1, f.2, f.3, f.4);
    }
}

} // verus!
