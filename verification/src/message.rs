//! Rendering a snapshot as the outbound JSON text message
//! `{"cpu": <0-100 integer>, "mem": <0-100 integer>, "net": <decimal, two
//! fractional digits>}`, built byte by byte so that the exact text is pinned
//! down by the contract.

use vstd::prelude::*;
use crate::metrics::HardwareSnapshot;

verus! {

/// The decimal ASCII digits of `n`, most significant first, without leading
/// zeros (`0` itself is the single digit `0`).
pub open spec fn spec_digits(n: nat) -> Seq<u8>
    decreases n,
{
    if n < 10 {
        seq![(48 + n) as u8]
    } else {
        spec_digits(n / 10).push((48 + n % 10) as u8)
    }
}

/// The exact bytes of the JSON message for a snapshot: both percentages as
/// plain integers, the network figure as a decimal with exactly two
/// fractional digits.
pub open spec fn spec_json_message(s: HardwareSnapshot) -> Seq<u8> {
    seq![123u8, 34u8, 99u8, 112u8, 117u8, 34u8, 58u8]  // {"cpu":
        + spec_digits(s.cpu_pct as nat)
        + seq![44u8, 34u8, 109u8, 101u8, 109u8, 34u8, 58u8]  // ,"mem":
        + spec_digits(s.mem_pct as nat)
        + seq![44u8, 34u8, 110u8, 101u8, 116u8, 34u8, 58u8]  // ,"net":
        + spec_digits((s.net_centi_kib / 100) as nat)
        + seq![
            46u8,
            (48 + (s.net_centi_kib as nat % 100) / 10) as u8,
            (48 + s.net_centi_kib as nat % 10) as u8,
            125u8,
        ]  // .dd}
}

/// Law: every byte a number renders to is a decimal ASCII digit, so the
/// numeric fields of the message are well-formed JSON number literals.
pub proof fn lemma_digits_are_ascii(n: nat)
    ensures
        forall|i: int| 0 <= i < spec_digits(n).len() ==> 48 <= #[trigger] spec_digits(n)[i] <= 57,
    decreases n,
{
    if n < 10 {
        assert(spec_digits(n)[0] == (48 + n) as u8);
    } else {
        lemma_digits_are_ascii(n / 10);
        let prefix = spec_digits(n / 10);
        let d = (48 + n % 10) as u8;
        assert forall|i: int| 0 <= i < spec_digits(n).len() implies 48 <= #[trigger] spec_digits(
            n,
        )[i] <= 57 by {
            if i < prefix.len() {
                assert(spec_digits(n)[i] == prefix[i]);
            } else {
                assert(spec_digits(n)[i] == d);
            }
        }
    }
}

/// Law (exactly two fractional digits): every message ends with a decimal
/// point, exactly two decimal ASCII digits, and the closing brace.
pub proof fn lemma_two_fraction_digits(s: HardwareSnapshot)
    ensures
        ({
            let m = spec_json_message(s);
            &&& m.len() >= 4
            &&& m[m.len() - 4] == 46
            &&& 48 <= m[m.len() - 3] <= 57
            &&& 48 <= m[m.len() - 2] <= 57
            &&& m[m.len() - 1] == 125
        }),
{
    let m = spec_json_message(s);
    let tail = seq![
        46u8,
        (48 + (s.net_centi_kib as nat % 100) / 10) as u8,
        (48 + s.net_centi_kib as nat % 10) as u8,
        125u8,
    ];
    assert(m[m.len() - 4] == tail[0]);
    assert(m[m.len() - 3] == tail[1]);
    assert(m[m.len() - 2] == tail[2]);
    assert(m[m.len() - 1] == tail[3]);
    assert((s.net_centi_kib as nat % 100) / 10 <= 9);
    assert(s.net_centi_kib as nat % 10 <= 9);
}

/// Append the decimal digits of `n` to `out`.
fn push_digits(out: &mut Vec<u8>, n: u64)
    ensures
        final(out)@ == old(out)@ + spec_digits(n as nat),
    decreases n,
{
    if n < 10 {
        out.push(48 + n as u8);
        assert(out@ =~= old(out)@ + spec_digits(n as nat));
    } else {
        push_digits(out, n / 10);
        out.push(48 + (n % 10) as u8);
        assert(out@ =~= old(out)@ + spec_digits(n as nat));
    }
}

/// Render one snapshot as its JSON text message, byte for byte as
/// `spec_json_message` states it.
pub fn json_message(s: &HardwareSnapshot) -> (m: Vec<u8>)
    ensures
        m@ == spec_json_message(*s),
{
    let mut out: Vec<u8> = Vec::new();
    out.push(123);
    out.push(34);
    out.push(99);
    out.push(112);
    out.push(117);
    out.push(34);
    out.push(58);
    push_digits(&mut out, s.cpu_pct as u64);
    out.push(44);
    out.push(34);
    out.push(109);
    out.push(101);
    out.push(109);
    out.push(34);
    out.push(58);
    push_digits(&mut out, s.mem_pct as u64);
    out.push(44);
    out.push(34);
    out.push(110);
    out.push(101);
    out.push(116);
    out.push(34);
    out.push(58);
    push_digits(&mut out, s.net_centi_kib / 100);
    out.push(46);
    out.push(48 + ((s.net_centi_kib % 100) / 10) as u8);
    out.push(48 + (s.net_centi_kib % 10) as u8);
    out.push(125);
    assert(out@ =~= spec_json_message(*s));
    out
}

} // verus!
