use vstd::prelude::*;
use crate::error::SamplyBeamError;
use openssl::asn1::Asn1IntegerRef;

verus! {

/// ASCII lowercase of one character: `A`..`Z` become `a`..`z`, the rest stay.
pub open spec fn lower_char(c: char) -> char {
    if 'A' <= c && c <= 'Z' {
        ((c as u8) + 32u8) as char
    } else {
        c
    }
}

pub open spec fn lower_seq(s: Seq<char>) -> Seq<char> {
    Seq::new(s.len(), |i: int| lower_char(s[i]))
}

fn to_lower(c: char) -> (r: char)
    ensures
        r == lower_char(c),
{
    if 'A' <= c && c <= 'Z' {
        ((c as u8) + 32u8) as char
    } else {
        c
    }
}

} // verus!

verus! {

/// Splits `s` into consecutive two-character groups joined by `:`; a final
/// odd character forms a group of its own.
pub open spec fn grouped(s: Seq<char>) -> Seq<char>
    decreases s.len(),
{
    if s.len() <= 2 {
        s
    } else {
        s.subrange(0, 2).push(':') + grouped(s.subrange(2, s.len() as int))
    }
}

/// The display form of a serial number written in hex digits: lowercased,
/// then grouped in pairs separated by colons.
pub open spec fn vault_str(hex: Seq<char>) -> Seq<char> {
    grouped(lower_seq(hex))
}

/// Relies on `String: FromIterator<char>`: the string holds the characters in order.
#[verifier::external_body]
fn string_of_chars(v: &Vec<char>) -> (r: String)
    ensures
        r@ == v@,
{
    v.iter().collect()
}

/// Formats a serial number given in hexadecimal digits as lowercase pairs
/// joined by colons, e.g. `440E0D` becomes `44:0e:0d`.
pub fn format_serial_hex(hex: &str) -> (r: String)
    ensures
        r@ == vault_str(hex@),
{
    let n = hex.unicode_len();
    let ghost l = lower_seq(hex@);
    let mut out: Vec<char> = Vec::new();
    let mut i: usize = 0;
    assert(l.subrange(0, n as int) =~= l);
    assert(out@ + grouped(l) =~= grouped(l));
    while i < n
        invariant
            n == hex@.len(),
            l == lower_seq(hex@),
            i <= n,
            out@ + grouped(l.subrange(i as int, n as int)) == grouped(l),
        decreases n - i,
    {
        let ghost rest = l.subrange(i as int, n as int);
        let ghost prev = out@;
        let a = to_lower(hex.get_char(i));
        out.push(a);
        if n - i <= 2 {
            if n - i == 2 {
                let b = to_lower(hex.get_char(i + 1));
                out.push(b);
            }
            assert(out@ =~= prev + rest);
            assert(grouped(l.subrange(n as int, n as int)) =~= Seq::<char>::empty());
            i = n;
        } else {
            let b = to_lower(hex.get_char(i + 1));
            out.push(b);
            out.push(':');
            assert(rest.subrange(2, rest.len() as int) =~= l.subrange(i + 2, n as int));
            assert(out@ =~= prev + rest.subrange(0, 2).push(':'));
            i = i + 2;
        }
    }
    assert(l.subrange(n as int, n as int) =~= Seq::<char>::empty());
    assert(out@ =~= grouped(l));
    string_of_chars(&out)
}

} // verus!

verus! {

#[verifier::external_type_specification]
#[verifier::external_body]
pub struct ExAsn1IntegerRef(Asn1IntegerRef);

/// The hexadecimal digits (uppercase, no prefix) of an ASN.1 integer, or
/// `None` where OpenSSL cannot convert it.
pub uninterp spec fn serial_hex_of(asn: &Asn1IntegerRef) -> Option<Seq<char>>;

/// Relies on openssl's `Asn1IntegerRef::to_bn` and `BigNumRef::to_hex_str`:
/// the integer in hexadecimal digits, or OpenSSL's error text. The result
/// depends on the integer alone.
#[verifier::external_body]
pub(crate) fn serial_hex(asn: &Asn1IntegerRef) -> (r: Result<String, String>)
    ensures
        match r {
            Ok(h) => serial_hex_of(asn) == Some(h@),
            Err(_) => serial_hex_of(asn) is None,
        },
{
    asn.to_bn().and_then(|bn| bn.to_hex_str().map(|h| h.to_string())).map_err(|e| e.to_string())
}

/// Whether `m` is the message of an unreadable certificate, for some cause.
pub open spec fn is_certificate_error_msg(m: Seq<char>) -> bool {
    exists|cause: Seq<char>| m == "Unable to parse your certificate: "@ + cause
}

/// The error reported when a certificate's serial number cannot be read.
pub fn certificate_error(cause: &str) -> (r: SamplyBeamError)
    ensures
        match r {
            SamplyBeamError::SignEncryptError(m) => m@ == "Unable to parse your certificate: "@
                + cause@,
            _ => false,
        },
{
    let mut m = String::from_str("Unable to parse your certificate: ");
    m.append(cause);
    SamplyBeamError::SignEncryptError(m)
}

/// Formats a certificate serial number as the key identifier: its hex
/// digits, lowercased, in pairs joined by colons.
pub fn asn_str_to_vault_str(asn: &Asn1IntegerRef) -> (r: Result<String, SamplyBeamError>)
    ensures
        r is Ok <==> serial_hex_of(asn) is Some,
        match r {
            Ok(s) => s@ == vault_str(serial_hex_of(asn)->0),
            Err(SamplyBeamError::SignEncryptError(m)) => is_certificate_error_msg(m@),
            Err(_) => false,
        },
{
    match serial_hex(asn) {
        Ok(hex) => Ok(format_serial_hex(hex.as_str())),
        Err(cause) => Err(certificate_error(cause.as_str())),
    }
}

} // verus!
