use vstd::prelude::*;
use crate::state::{SignData, SignDataView};

verus! {

/// Decimal digits of a non-negative integer, most significant first; the
/// empty sequence for 0.
pub open spec fn spec_dec_digits(n: int) -> Seq<u8>
    decreases n,
{
    if n <= 0 {
        Seq::empty()
    } else {
        spec_dec_digits(n / 10).push((48 + n % 10) as u8)
    }
}

/// ASCII decimal encoding of an unsigned 64-bit value, as a JSON number.
pub open spec fn spec_dec_u64(n: u64) -> Seq<u8> {
    if n == 0 {
        seq![48u8]
    } else {
        spec_dec_digits(n as int)
    }
}

/// Comma-joined decimal encodings of a sequence of 64-bit values.
pub open spec fn spec_json_u64_items(s: Seq<u64>) -> Seq<u8>
    decreases s.len(),
{
    if s.len() == 0 {
        Seq::empty()
    } else if s.len() == 1 {
        spec_dec_u64(s[0])
    } else {
        spec_json_u64_items(s.drop_last()) + seq![44u8] + spec_dec_u64(s.last())
    }
}

/// Comma-joined decimal encodings of a sequence of bytes.
pub open spec fn spec_json_byte_items(s: Seq<u8>) -> Seq<u8>
    decreases s.len(),
{
    if s.len() == 0 {
        Seq::empty()
    } else if s.len() == 1 {
        spec_dec_u64(s[0] as u64)
    } else {
        spec_json_byte_items(s.drop_last()) + seq![44u8] + spec_dec_u64(s.last() as u64)
    }
}

/// A byte string as a JSON array of numbers.
pub open spec fn spec_json_byte_array(s: Seq<u8>) -> Seq<u8> {
    seq![91u8] + spec_json_byte_items(s) + seq![93u8]
}

/// Comma-joined JSON arrays for a sequence of account identifiers.
pub open spec fn spec_json_account_items(s: Seq<Seq<u8>>) -> Seq<u8>
    decreases s.len(),
{
    if s.len() == 0 {
        Seq::empty()
    } else if s.len() == 1 {
        spec_json_byte_array(s[0])
    } else {
        spec_json_account_items(s.drop_last()) + seq![44u8] + spec_json_byte_array(s.last())
    }
}

/// The bytes of `{"amounts":[`.
pub open spec fn spec_lit_amounts() -> Seq<u8> {
    seq![123u8, 34u8, 97u8, 109u8, 111u8, 117u8, 110u8, 116u8, 115u8, 34u8, 58u8, 91u8]
}

/// The bytes of `],"accounts":[`.
pub open spec fn spec_lit_accounts() -> Seq<u8> {
    seq![93u8, 44u8, 34u8, 97u8, 99u8, 99u8, 111u8, 117u8, 110u8, 116u8, 115u8, 34u8, 58u8, 91u8]
}

/// The bytes of `],"nonce":`.
pub open spec fn spec_lit_nonce() -> Seq<u8> {
    seq![93u8, 44u8, 34u8, 110u8, 111u8, 110u8, 99u8, 101u8, 34u8, 58u8]
}

/// The canonical message the beacons sign: the compact JSON serialization of
/// the payload, with the fields `amounts`, `accounts`, `nonce` in that
/// order, numbers in decimal, and account identifiers as arrays of bytes.
pub open spec fn spec_sign_data_json(d: SignDataView) -> Seq<u8> {
    spec_lit_amounts() + spec_json_u64_items(d.amounts) + spec_lit_accounts()
        + spec_json_account_items(d.accounts) + spec_lit_nonce() + spec_dec_u64(d.nonce)
        + seq![125u8]
}

fn push_dec_digits(out: &mut Vec<u8>, m: u64)
    ensures
        final(out)@ == old(out)@ + spec_dec_digits(m as int),
    decreases m,
{
    if m > 0 {
        proof {
            assert(m as int / 10 < m as int) by (nonlinear_arith)
                requires
                    m > 0,
            ;
        }
        push_dec_digits(out, m / 10);
        let d: u8 = 48 + (m % 10) as u8;
        out.push(d);
        proof {
            assert(out@ =~= old(out)@ + spec_dec_digits(m as int));
        }
    } else {
        proof {
            assert(out@ =~= old(out)@ + spec_dec_digits(0));
        }
    }
}

fn push_u64_dec(out: &mut Vec<u8>, n: u64)
    ensures
        final(out)@ == old(out)@ + spec_dec_u64(n),
{
    if n == 0 {
        out.push(48);
        proof {
            assert(out@ =~= old(out)@ + spec_dec_u64(0));
        }
    } else {
        push_dec_digits(out, n);
    }
}

proof fn lemma_json_u64_items_step(s: Seq<u64>, i: int)
    requires
        0 <= i < s.len(),
    ensures
        spec_json_u64_items(s.take(i + 1)) == spec_json_u64_items(s.take(i)) + (if i > 0 {
            seq![44u8]
        } else {
            Seq::<u8>::empty()
        }) + spec_dec_u64(s[i]),
{
    let t = s.take(i + 1);
    assert(t.drop_last() =~= s.take(i));
    assert(t.last() == s[i]);
    if i == 0 {
        assert(spec_json_u64_items(s.take(1)) == spec_dec_u64(s[0]));
        assert(spec_json_u64_items(s.take(0)) + Seq::<u8>::empty() + spec_dec_u64(s[0])
            =~= spec_dec_u64(s[0]));
    }
}

proof fn lemma_json_byte_items_step(s: Seq<u8>, i: int)
    requires
        0 <= i < s.len(),
    ensures
        spec_json_byte_items(s.take(i + 1)) == spec_json_byte_items(s.take(i)) + (if i > 0 {
            seq![44u8]
        } else {
            Seq::<u8>::empty()
        }) + spec_dec_u64(s[i] as u64),
{
    let t = s.take(i + 1);
    assert(t.drop_last() =~= s.take(i));
    assert(t.last() == s[i]);
    if i == 0 {
        assert(spec_json_byte_items(s.take(1)) == spec_dec_u64(s[0] as u64));
        assert(spec_json_byte_items(s.take(0)) + Seq::<u8>::empty() + spec_dec_u64(s[0] as u64)
            =~= spec_dec_u64(s[0] as u64));
    }
}

proof fn lemma_json_account_items_step(s: Seq<Seq<u8>>, i: int)
    requires
        0 <= i < s.len(),
    ensures
        spec_json_account_items(s.take(i + 1)) == spec_json_account_items(s.take(i)) + (if i > 0 {
            seq![44u8]
        } else {
            Seq::<u8>::empty()
        }) + spec_json_byte_array(s[i]),
{
    let t = s.take(i + 1);
    assert(t.drop_last() =~= s.take(i));
    assert(t.last() == s[i]);
    if i == 0 {
        assert(spec_json_account_items(s.take(1)) == spec_json_byte_array(s[0]));
        assert(spec_json_account_items(s.take(0)) + Seq::<u8>::empty() + spec_json_byte_array(
            s[0],
        ) =~= spec_json_byte_array(s[0]));
    }
}

fn push_u64_items(out: &mut Vec<u8>, v: &Vec<u64>)
    ensures
        final(out)@ == old(out)@ + spec_json_u64_items(v@),
{
    let mut i: usize = 0;
    while i < v.len()
        invariant
            0 <= i <= v@.len(),
            out@ == old(out)@ + spec_json_u64_items(v@.take(i as int)),
        decreases v@.len() - i,
    {
        proof {
            lemma_json_u64_items_step(v@, i as int);
        }
        if i > 0 {
            out.push(44);
        }
        push_u64_dec(out, v[i]);
        i = i + 1;
    }
    proof {
        assert(v@.take(v@.len() as int) =~= v@);
    }
}

fn push_byte_array(out: &mut Vec<u8>, a: &[u8; 32])
    ensures
        final(out)@ == old(out)@ + spec_json_byte_array(a@),
{
    out.push(91);
    let mut i: usize = 0;
    while i < 32
        invariant
            0 <= i <= 32,
            out@ == old(out)@ + seq![91u8] + spec_json_byte_items(a@.take(i as int)),
        decreases 32 - i,
    {
        proof {
            lemma_json_byte_items_step(a@, i as int);
        }
        if i > 0 {
            out.push(44);
        }
        push_u64_dec(out, a[i] as u64);
        i = i + 1;
    }
    out.push(93);
    proof {
        assert(a@.take(32) =~= a@);
        assert(out@ =~= old(out)@ + spec_json_byte_array(a@));
    }
}

/// Serialize the signed payload into its canonical message bytes.
pub fn encode_sign_data(d: &SignData) -> (r: Vec<u8>)
    ensures
        r@ == spec_sign_data_json(d@),
{
    let mut out: Vec<u8> = Vec::new();
    out.push(123);
    out.push(34);
    out.push(97);
    out.push(109);
    out.push(111);
    out.push(117);
    out.push(110);
    out.push(116);
    out.push(115);
    out.push(34);
    out.push(58);
    out.push(91);
    proof {
        assert(out@ =~= spec_lit_amounts());
    }
    push_u64_items(&mut out, &d.amounts);
    out.push(93);
    out.push(44);
    out.push(34);
    out.push(97);
    out.push(99);
    out.push(99);
    out.push(111);
    out.push(117);
    out.push(110);
    out.push(116);
    out.push(115);
    out.push(34);
    out.push(58);
    out.push(91);
    proof {
        assert(out@ =~= spec_lit_amounts() + spec_json_u64_items(d@.amounts)
            + spec_lit_accounts());
    }
    let ghost prefix = out@;
    let mut i: usize = 0;
    while i < d.accounts.len()
        invariant
            0 <= i <= d.accounts@.len(),
            out@ == prefix + spec_json_account_items(d@.accounts.take(i as int)),
            d@.accounts.len() == d.accounts@.len(),
            forall|j: int|
                0 <= j < d.accounts@.len() ==> d@.accounts[j] == (#[trigger] d.accounts@[j])@,
        decreases d.accounts@.len() - i,
    {
        proof {
            lemma_json_account_items_step(d@.accounts, i as int);
        }
        if i > 0 {
            out.push(44);
        }
        let a: [u8; 32] = d.accounts[i];
        push_byte_array(&mut out, &a);
        i = i + 1;
    }
    proof {
        assert(d@.accounts.take(d@.accounts.len() as int) =~= d@.accounts);
    }
    out.push(93);
    out.push(44);
    out.push(34);
    out.push(110);
    out.push(111);
    out.push(110);
    out.push(99);
    out.push(101);
    out.push(34);
    out.push(58);
    proof {
        assert(out@ =~= spec_lit_amounts() + spec_json_u64_items(d@.amounts)
            + spec_lit_accounts() + spec_json_account_items(d@.accounts) + spec_lit_nonce());
    }
    push_u64_dec(&mut out, d.nonce);
    out.push(125);
    proof {
        assert(out@ =~= spec_sign_data_json(d@));
    }
    out
}

/// The decimal digits of a positive integer are never empty.
proof fn lemma_dec_digits_len(n: int)
    requires
        n > 0,
    ensures
        spec_dec_digits(n).len() >= 1,
{
}

proof fn lemma_dec_digits_injective(a: int, b: int)
    requires
        a >= 0,
        b >= 0,
        spec_dec_digits(a) == spec_dec_digits(b),
    ensures
        a == b,
    decreases a + b,
{
    if a == 0 && b == 0 {
    } else if a == 0 {
        lemma_dec_digits_len(b);
    } else if b == 0 {
        lemma_dec_digits_len(a);
    } else {
        let da = spec_dec_digits(a);
        let db = spec_dec_digits(b);
        assert(da.last() == (48 + a % 10) as u8);
        assert(db.last() == (48 + b % 10) as u8);
        assert(a % 10 == b % 10);
        assert(da.drop_last() =~= spec_dec_digits(a / 10));
        assert(db.drop_last() =~= spec_dec_digits(b / 10));
        lemma_dec_digits_injective(a / 10, b / 10);
    }
}

proof fn lemma_dec_u64_injective(a: u64, b: u64)
    requires
        spec_dec_u64(a) == spec_dec_u64(b),
    ensures
        a == b,
{
    if a == 0 && b != 0 {
        assert(spec_dec_digits(b as int).last() == (48 + b as int % 10) as u8);
        assert(b as int % 10 == 0);
        assert(spec_dec_digits(b as int).drop_last() =~= spec_dec_digits(b as int / 10));
        if b as int / 10 > 0 {
            lemma_dec_digits_len(b as int / 10);
        }
        assert(b as int == 10 * (b as int / 10) + b as int % 10);
        assert(false);
    } else if b == 0 && a != 0 {
        assert(spec_dec_digits(a as int).last() == (48 + a as int % 10) as u8);
        assert(a as int % 10 == 0);
        assert(spec_dec_digits(a as int).drop_last() =~= spec_dec_digits(a as int / 10));
        if a as int / 10 > 0 {
            lemma_dec_digits_len(a as int / 10);
        }
        assert(a as int == 10 * (a as int / 10) + a as int % 10);
        assert(false);
    } else if a != 0 && b != 0 {
        lemma_dec_digits_injective(a as int, b as int);
    }
}

/// Replay protection binds the counter into the canonical message: two
/// payloads with the same amounts and the same destination identifiers but
/// different counter values have different canonical messages, so a
/// signature set computed for one counter value can never satisfy the
/// message for another.
pub proof fn lemma_canonical_message_binds_nonce(
    amounts: Seq<u64>,
    accounts: Seq<Seq<u8>>,
    n1: u64,
    n2: u64,
)
    ensures
        spec_sign_data_json(SignDataView { amounts, accounts, nonce: n1 }) == spec_sign_data_json(
            SignDataView { amounts, accounts, nonce: n2 },
        ) ==> n1 == n2,
{
    let s1 = spec_sign_data_json(SignDataView { amounts, accounts, nonce: n1 });
    let s2 = spec_sign_data_json(SignDataView { amounts, accounts, nonce: n2 });
    if s1 == s2 {
        let p = spec_lit_amounts() + spec_json_u64_items(amounts) + spec_lit_accounts()
            + spec_json_account_items(accounts) + spec_lit_nonce();
        let d1 = spec_dec_u64(n1);
        let d2 = spec_dec_u64(n2);
        assert(s1.len() == p.len() + d1.len() + 1);
        assert(s2.len() == p.len() + d2.len() + 1);
        assert(d1.len() == d2.len());
        assert(d1 =~= s1.subrange(p.len() as int, (p.len() + d1.len()) as int));
        assert(d2 =~= s2.subrange(p.len() as int, (p.len() + d2.len()) as int));
        lemma_dec_u64_injective(n1, n2);
    }
}

} // verus!
