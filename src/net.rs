use vstd::prelude::*;
use crate::error::AppError;

verus! {

/// Separators accepted between the octets of a hardware address.
pub open spec fn is_separator(c: char) -> bool {
    c == '-' || c == ':'
}

/// The characters of `s` with every separator removed, in order.
pub open spec fn strip_separators(s: Seq<char>) -> Seq<char>
    decreases s.len(),
{
    if s.len() == 0 {
        Seq::<char>::empty()
    } else {
        let head = strip_separators(s.drop_last());
        if is_separator(s.last()) {
            head
        } else {
            head.push(s.last())
        }
    }
}

/// The value of a hexadecimal digit, either case.
pub open spec fn hex_value(c: char) -> Option<u8> {
    if '0' <= c && c <= '9' {
        Some((c as u32 - '0' as u32) as u8)
    } else if 'a' <= c && c <= 'f' {
        Some((c as u32 - 'a' as u32 + 10) as u8)
    } else if 'A' <= c && c <= 'F' {
        Some((c as u32 - 'A' as u32 + 10) as u8)
    } else {
        None
    }
}

/// Twelve digits with every one hexadecimal.
pub open spec fn all_hex(d: Seq<char>) -> bool {
    d.len() == 12 && forall|i: int| 0 <= i < 12 ==> #[trigger] hex_value(d[i]).is_some()
}

/// The octet written by digits `2k` and `2k + 1`.
pub open spec fn octet(d: Seq<char>, k: int) -> u8 {
    (hex_value(d[2 * k]).unwrap() * 16 + hex_value(d[2 * k + 1]).unwrap()) as u8
}

/// The six octets of a hardware address, or `None` when, once the separators
/// are removed, it is not exactly twelve hexadecimal digits.
pub open spec fn parse_mac(s: Seq<char>) -> Option<Seq<u8>> {
    let d = strip_separators(s);
    if all_hex(d) {
        Some(Seq::new(6, |k: int| octet(d, k)))
    } else {
        None
    }
}

/// The wake payload: six bytes of `0xFF`, then the address sixteen times.
pub open spec fn magic_packet_of(mac: Seq<u8>) -> Seq<u8> {
    Seq::new(102, |i: int| if i < 6 { 0xFFu8 } else { mac[(i - 6) % 6] })
}

fn hex_digit(c: char) -> (r: Option<u8>)
    ensures
        r == hex_value(c),
{
    if '0' <= c && c <= '9' {
        Some((c as u32 - '0' as u32) as u8)
    } else if 'a' <= c && c <= 'f' {
        Some((c as u32 - 'a' as u32 + 10) as u8)
    } else if 'A' <= c && c <= 'F' {
        Some((c as u32 - 'A' as u32 + 10) as u8)
    } else {
        None
    }
}

fn address_digits(mac: &str) -> (r: Vec<char>)
    ensures
        r@ == strip_separators(mac@),
{
    let n = mac.unicode_len();
    let mut digits: Vec<char> = Vec::new();
    let mut i: usize = 0;
    while i < n
        invariant
            n == mac@.len(),
            i <= n,
            digits@ == strip_separators(mac@.subrange(0, i as int)),
        decreases n - i,
    {
        let c = mac.get_char(i);
        assert(mac@.subrange(0, i + 1).drop_last() =~= mac@.subrange(0, i as int));
        if c != '-' && c != ':' {
            digits.push(c);
        }
        i = i + 1;
    }
    assert(mac@.subrange(0, n as int) =~= mac@);
    digits
}

/// Parses a hardware address written as six two-digit hexadecimal octets,
/// separated by `-` or `:` (or not at all).
pub fn parse_hardware_address(mac: &str) -> (r: Result<Vec<u8>, AppError>)
    ensures
        parse_mac(mac@) is None <==> r is Err,
        r is Err ==> r == Err::<Vec<u8>, AppError>(AppError::InvalidAddress),
        r is Ok ==> r->Ok_0@ == parse_mac(mac@)->Some_0,
{
    let digits = address_digits(mac);
    if digits.len() != 12 {
        return Err(AppError::InvalidAddress);
    }
    let mut octets: Vec<u8> = Vec::new();
    let mut k: usize = 0;
    while k < 6
        invariant
            digits@ == strip_separators(mac@),
            digits@.len() == 12,
            k <= 6,
            octets@.len() == k,
            forall|j: int| 0 <= j < 2 * k ==> #[trigger] hex_value(digits@[j]).is_some(),
            forall|j: int| 0 <= j < k ==> octets@[j] == #[trigger] octet(digits@, j),
        decreases 6 - k,
    {
        let hi = hex_digit(digits[2 * k]);
        let lo = hex_digit(digits[2 * k + 1]);
        match (hi, lo) {
            (Some(h), Some(l)) => {
                assert(h < 16 && l < 16);
                octets.push(h * 16 + l);
            },
            _ => {
                assert(!all_hex(digits@));
                return Err(AppError::InvalidAddress);
            },
        }
        k = k + 1;
    }
    assert(all_hex(digits@));
    assert(octets@ =~= Seq::new(6, |j: int| octet(digits@, j)));
    Ok(octets)
}

/// Builds the wake-on-LAN payload for a hardware address: six bytes of
/// `0xFF` followed by sixteen copies of the six address bytes. A malformed
/// address yields `InvalidAddress` and no payload.
pub fn magic_packet(mac: &str) -> (r: Result<Vec<u8>, AppError>)
    ensures
        parse_mac(mac@) is None <==> r is Err,
        r is Err ==> r == Err::<Vec<u8>, AppError>(AppError::InvalidAddress),
        r is Ok ==> r->Ok_0@ == magic_packet_of(parse_mac(mac@)->Some_0),
{
    let octets = parse_hardware_address(mac)?;
    let mut packet: Vec<u8> = Vec::new();
    let mut i: usize = 0;
    while i < 102
        invariant
            octets@.len() == 6,
            i <= 102,
            packet@.len() == i,
            forall|j: int| 0 <= j < i ==> packet@[j] == #[trigger] magic_packet_of(octets@)[j],
        decreases 102 - i,
    {
        if i < 6 {
            packet.push(0xFF);
        } else {
            packet.push(octets[(i - 6) % 6]);
        }
        i = i + 1;
    }
    assert(packet@ =~= magic_packet_of(octets@));
    Ok(packet)
}

/// The wake payload is 102 bytes: six bytes of `0xFF`, then sixteen verbatim
/// copies of the six address bytes.
pub proof fn lemma_magic_packet_layout(mac: Seq<u8>)
    requires
        mac.len() == 6,
    ensures
        magic_packet_of(mac).len() == 102,
        magic_packet_of(mac).subrange(0, 6) == seq![0xFFu8, 0xFFu8, 0xFFu8, 0xFFu8, 0xFFu8, 0xFFu8],
        forall|k: int|
            0 <= k < 16 ==> #[trigger] magic_packet_of(mac).subrange(6 + 6 * k, 12 + 6 * k) == mac,
{
    let p = magic_packet_of(mac);
    assert(p.subrange(0, 6) =~= seq![0xFFu8, 0xFFu8, 0xFFu8, 0xFFu8, 0xFFu8, 0xFFu8]);
    assert forall|k: int| 0 <= k < 16 implies #[trigger] p.subrange(6 + 6 * k, 12 + 6 * k)
        == mac by {
        assert forall|j: int| 0 <= j < 6 implies p.subrange(6 + 6 * k, 12 + 6 * k)[j] == mac[j] by {
            assert((6 + 6 * k + j - 6) % 6 == j) by (nonlinear_arith)
                requires
                    0 <= j < 6,
                    0 <= k,
            ;
        }
        assert(p.subrange(6 + 6 * k, 12 + 6 * k) =~= mac);
    }
}

/// An address with a digit that is not hexadecimal is refused.
pub proof fn lemma_non_hex_rejected(s: Seq<char>, i: int)
    requires
        0 <= i < strip_separators(s).len(),
        hex_value(strip_separators(s)[i]) is None,
    ensures
        parse_mac(s) is None,
{
    let d = strip_separators(s);
    assert(!hex_value(d[i]).is_some());
    assert(!all_hex(d));
}

} // verus!
