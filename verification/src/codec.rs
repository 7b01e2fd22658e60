use vstd::prelude::*;

use crate::account::AccountId;
use crate::record::EscrowAccount;
use crate::record::MAX_CONDITIONS_BYTES;

verus! {

broadcast use vstd::array::group_array_axioms, vstd::slice::group_slice_axioms;

/// The eight little-endian bytes of a 64-bit amount.
pub open spec fn u64_le_bytes(n: u64) -> Seq<u8> {
    seq![
        (n % 0x100) as u8,
        ((n / 0x100) % 0x100) as u8,
        ((n / 0x10000) % 0x100) as u8,
        ((n / 0x1000000) % 0x100) as u8,
        ((n / 0x100000000) % 0x100) as u8,
        ((n / 0x10000000000) % 0x100) as u8,
        ((n / 0x1000000000000) % 0x100) as u8,
        ((n / 0x100000000000000) % 0x100) as u8,
    ]
}

/// The four little-endian bytes of a 32-bit length.
pub open spec fn u32_le_bytes(n: u32) -> Seq<u8> {
    seq![
        (n % 0x100) as u8,
        ((n / 0x100) % 0x100) as u8,
        ((n / 0x10000) % 0x100) as u8,
        ((n / 0x1000000) % 0x100) as u8,
    ]
}

/// A record on the wire: the depositor, refund-account and receive-account
/// identities as 32 bytes each, the amount as eight little-endian bytes, the
/// condition text as its byte length in four little-endian bytes followed by
/// the bytes themselves, and one status byte: 1 while active, 0 once settled.
pub open spec fn encode_record(rec: EscrowAccount) -> Seq<u8> {
    rec.initializer@ + rec.initializer_deposit_token_account@
        + rec.initializer_receive_token_account@ + u64_le_bytes(rec.amount) + u32_le_bytes(
        vstd::utf8::encode_utf8(rec.conditions@).len() as u32,
    ) + vstd::utf8::encode_utf8(rec.conditions@) + seq![
        if rec.is_active {
            1u8
        } else {
            0u8
        },
    ]
}

fn push_id(out: &mut Vec<u8>, id: &AccountId)
    ensures
        final(out)@ == old(out)@ + id@,
{
    let mut i: usize = 0;
    while i < 32
        invariant
            i <= 32,
            out@ == old(out)@ + id@.subrange(0, i as int),
        decreases 32 - i,
    {
        out.push(id.bytes[i]);
        proof {
            assert(out@ =~= old(out)@ + id@.subrange(0, i + 1));
        }
        i += 1;
    }
    proof {
        assert(out@ =~= old(out)@ + id@);
    }
}

fn push_u64_le(out: &mut Vec<u8>, n: u64)
    ensures
        final(out)@ == old(out)@ + u64_le_bytes(n),
{
    out.push((n % 0x100) as u8);
    out.push(((n / 0x100) % 0x100) as u8);
    out.push(((n / 0x10000) % 0x100) as u8);
    out.push(((n / 0x1000000) % 0x100) as u8);
    out.push(((n / 0x100000000) % 0x100) as u8);
    out.push(((n / 0x10000000000) % 0x100) as u8);
    out.push(((n / 0x1000000000000) % 0x100) as u8);
    out.push(((n / 0x100000000000000) % 0x100) as u8);
    proof {
        assert(out@ =~= old(out)@ + u64_le_bytes(n));
    }
}

fn push_u32_le(out: &mut Vec<u8>, n: u32)
    ensures
        final(out)@ == old(out)@ + u32_le_bytes(n),
{
    out.push((n % 0x100) as u8);
    out.push(((n / 0x100) % 0x100) as u8);
    out.push(((n / 0x10000) % 0x100) as u8);
    out.push(((n / 0x1000000) % 0x100) as u8);
    proof {
        assert(out@ =~= old(out)@ + u32_le_bytes(n));
    }
}

fn push_bytes(out: &mut Vec<u8>, b: &[u8])
    ensures
        final(out)@ == old(out)@ + b@,
{
    let n = b.len();
    let mut i: usize = 0;
    while i < n
        invariant
            i <= n,
            n == b@.len(),
            out@ == old(out)@ + b@.subrange(0, i as int),
        decreases n - i,
    {
        let x = *vstd::slice::slice_index_get(b, i);
        out.push(x);
        proof {
            assert(out@ =~= old(out)@ + b@.subrange(0, i + 1));
        }
        i += 1;
    }
    proof {
        assert(out@ =~= old(out)@ + b@);
    }
}

/// Serializes a record into the storage layout, byte for byte as
/// `encode_record` lays it out. The bound on the condition text is the
/// record's own well-formedness bound, which every record the protocol
/// creates satisfies.
pub fn encode_record_bytes(rec: &EscrowAccount) -> (r: Vec<u8>)
    requires
        vstd::utf8::encode_utf8(rec.conditions@).len() <= MAX_CONDITIONS_BYTES,
    ensures
        r@ == encode_record(*rec),
{
    let mut out: Vec<u8> = Vec::new();
    push_id(&mut out, &rec.initializer);
    push_id(&mut out, &rec.initializer_deposit_token_account);
    push_id(&mut out, &rec.initializer_receive_token_account);
    push_u64_le(&mut out, rec.amount);
    let cond: &[u8] = rec.conditions.as_str().as_bytes();
    push_u32_le(&mut out, cond.len() as u32);
    push_bytes(&mut out, cond);
    out.push(if rec.is_active { 1 } else { 0 });
    proof {
        assert(out@ =~= encode_record(*rec));
    }
    out
}

fn read_id(bytes: &Vec<u8>, off: usize) -> (id: AccountId)
    requires
        off + 32 <= bytes@.len(),
    ensures
        id@ == bytes@.subrange(off as int, off as int + 32),
{
    let total = bytes.len();
    proof {
        assert(off + 32 <= total);
    }
    let mut arr = [0u8; 32];
    let mut i: usize = 0;
    while i < 32
        invariant
            i <= 32,
            off + 32 <= bytes@.len() <= usize::MAX,
            forall|j: int| 0 <= j < i ==> arr@[j] == bytes@[off + j],
        decreases 32 - i,
    {
        arr[i] = bytes[off + i];
        i += 1;
    }
    proof {
        assert(arr@ =~= bytes@.subrange(off as int, off as int + 32));
    }
    AccountId { bytes: arr }
}

fn read_u64_le(bytes: &Vec<u8>, off: usize) -> (n: u64)
    requires
        off + 8 <= bytes@.len(),
    ensures
        u64_le_bytes(n) == bytes@.subrange(off as int, off as int + 8),
{
    let total = bytes.len();
    proof {
        assert(off + 8 <= total);
    }
    let b0 = bytes[off] as u64;
    let b1 = bytes[off + 1] as u64;
    let b2 = bytes[off + 2] as u64;
    let b3 = bytes[off + 3] as u64;
    let b4 = bytes[off + 4] as u64;
    let b5 = bytes[off + 5] as u64;
    let b6 = bytes[off + 6] as u64;
    let b7 = bytes[off + 7] as u64;
    let n = b0 + b1 * 0x100 + b2 * 0x10000 + b3 * 0x1000000 + b4 * 0x100000000 + b5
        * 0x10000000000 + b6 * 0x1000000000000 + b7 * 0x100000000000000;
    proof {
        assert({
            &&& n % 0x100 == b0
            &&& (n / 0x100) % 0x100 == b1
            &&& (n / 0x10000) % 0x100 == b2
            &&& (n / 0x1000000) % 0x100 == b3
            &&& (n / 0x100000000) % 0x100 == b4
            &&& (n / 0x10000000000) % 0x100 == b5
            &&& (n / 0x1000000000000) % 0x100 == b6
            &&& (n / 0x100000000000000) % 0x100 == b7
        }) by (bit_vector)
            requires
                n == b0 + b1 * 0x100 + b2 * 0x10000 + b3 * 0x1000000 + b4 * 0x100000000 + b5
                    * 0x10000000000 + b6 * 0x1000000000000 + b7 * 0x100000000000000,
                b0 < 0x100,
                b1 < 0x100,
                b2 < 0x100,
                b3 < 0x100,
                b4 < 0x100,
                b5 < 0x100,
                b6 < 0x100,
                b7 < 0x100,
        ;
        assert(u64_le_bytes(n) =~= bytes@.subrange(off as int, off as int + 8));
    }
    n
}

fn read_u32_le(bytes: &Vec<u8>, off: usize) -> (n: u32)
    requires
        off + 4 <= bytes@.len(),
    ensures
        u32_le_bytes(n) == bytes@.subrange(off as int, off as int + 4),
{
    let total = bytes.len();
    proof {
        assert(off + 4 <= total);
    }
    let b0 = bytes[off] as u32;
    let b1 = bytes[off + 1] as u32;
    let b2 = bytes[off + 2] as u32;
    let b3 = bytes[off + 3] as u32;
    let n = b0 + b1 * 0x100 + b2 * 0x10000 + b3 * 0x1000000;
    proof {
        assert({
            &&& n % 0x100 == b0
            &&& (n / 0x100) % 0x100 == b1
            &&& (n / 0x10000) % 0x100 == b2
            &&& (n / 0x1000000) % 0x100 == b3
        }) by (bit_vector)
            requires
                n == b0 + b1 * 0x100 + b2 * 0x10000 + b3 * 0x1000000,
                b0 < 0x100,
                b1 < 0x100,
                b2 < 0x100,
                b3 < 0x100,
        ;
        assert(u32_le_bytes(n) =~= bytes@.subrange(off as int, off as int + 4));
    }
    n
}

fn read_vec(bytes: &Vec<u8>, off: usize, len: usize) -> (v: Vec<u8>)
    requires
        off + len <= bytes@.len(),
    ensures
        v@ == bytes@.subrange(off as int, off as int + len as int),
{
    let total = bytes.len();
    proof {
        assert(off + len <= total);
    }
    let mut v: Vec<u8> = Vec::new();
    let mut i: usize = 0;
    while i < len
        invariant
            i <= len,
            off + len <= bytes@.len() <= usize::MAX,
            v@ == bytes@.subrange(off as int, off as int + i as int),
        decreases len - i,
    {
        v.push(bytes[off + i]);
        proof {
            assert(v@ =~= bytes@.subrange(off as int, off as int + i + 1));
        }
        i += 1;
    }
    v
}

/// Relies on String::from_utf8: it succeeds exactly on valid UTF-8 input, and
/// the string it returns is the one those bytes encode.
#[verifier::external_body]
fn string_from_utf8(bytes: Vec<u8>) -> (r: Option<String>)
    ensures
        r matches Some(s) ==> vstd::utf8::encode_utf8(s@) == bytes@,
        (exists|c: Seq<char>| bytes@ == vstd::utf8::encode_utf8(c)) ==> r is Some,
{
    String::from_utf8(bytes).ok()
}

/// Parses the storage layout back into a record. Whatever it accepts is,
/// byte for byte, the encoding of the well-formed record it returns; wrong
/// length, a zero amount, oversized or ill-formed condition text, and a
/// status byte other than 0 or 1 are all rejected.
pub fn decode_record_bytes(bytes: &Vec<u8>) -> (r: Option<EscrowAccount>)
    ensures
        r matches Some(rec) ==> bytes@ == encode_record(rec) && rec.well_formed(),
        r is None ==> forall|rec0: EscrowAccount|
            rec0.well_formed() ==> bytes@ != #[trigger] encode_record(rec0),
{
    if bytes.len() < 109 {
        proof {
            assert forall|rec0: EscrowAccount|
                rec0.well_formed() implies bytes@ != encode_record(rec0) by {
                lemma_encode_record_components(rec0);
            }
        }
        return None;
    }
    let initializer = read_id(bytes, 0);
    let deposit = read_id(bytes, 32);
    let receive = read_id(bytes, 64);
    let amount = read_u64_le(bytes, 96);
    if amount == 0 {
        proof {
            assert forall|rec0: EscrowAccount|
                rec0.well_formed() implies bytes@ != encode_record(rec0) by {
                if bytes@ == encode_record(rec0) {
                    lemma_encode_record_components(rec0);
                    lemma_u64_le_bytes_injective(amount, rec0.amount);
                    assert(false);
                }
            }
        }
        return None;
    }
    let len32 = read_u32_le(bytes, 104);
    if len32 > MAX_CONDITIONS_BYTES as u32 {
        proof {
            assert forall|rec0: EscrowAccount|
                rec0.well_formed() implies bytes@ != encode_record(rec0) by {
                if bytes@ == encode_record(rec0) {
                    lemma_encode_record_components(rec0);
                    lemma_u32_le_bytes_injective(
                        len32,
                        vstd::utf8::encode_utf8(rec0.conditions@).len() as u32,
                    );
                    assert(false);
                }
            }
        }
        return None;
    }
    let len = len32 as usize;
    if bytes.len() != 109 + len {
        proof {
            assert forall|rec0: EscrowAccount|
                rec0.well_formed() implies bytes@ != encode_record(rec0) by {
                if bytes@ == encode_record(rec0) {
                    lemma_encode_record_components(rec0);
                    lemma_u32_le_bytes_injective(
                        len32,
                        vstd::utf8::encode_utf8(rec0.conditions@).len() as u32,
                    );
                    assert(false);
                }
            }
        }
        return None;
    }
    let cond_bytes = read_vec(bytes, 108, len);
    let ghost cond_view = cond_bytes@;
    let conditions = match string_from_utf8(cond_bytes) {
        Some(s) => s,
        None => {
            proof {
                assert forall|rec0: EscrowAccount|
                    rec0.well_formed() implies bytes@ != encode_record(rec0) by {
                    if bytes@ == encode_record(rec0) {
                        lemma_encode_record_components(rec0);
                        lemma_u32_le_bytes_injective(
                            len32,
                            vstd::utf8::encode_utf8(rec0.conditions@).len() as u32,
                        );
                        assert(cond_view == vstd::utf8::encode_utf8(rec0.conditions@));
                        assert(false);
                    }
                }
            }
            return None;
        },
    };
    let status = bytes[108 + len];
    if status > 1 {
        proof {
            assert forall|rec0: EscrowAccount|
                rec0.well_formed() implies bytes@ != encode_record(rec0) by {
                if bytes@ == encode_record(rec0) {
                    lemma_encode_record_components(rec0);
                    lemma_u32_le_bytes_injective(
                        len32,
                        vstd::utf8::encode_utf8(rec0.conditions@).len() as u32,
                    );
                    assert(false);
                }
            }
        }
        return None;
    }
    let rec = EscrowAccount {
        initializer: initializer,
        initializer_deposit_token_account: deposit,
        initializer_receive_token_account: receive,
        amount: amount,
        conditions: conditions,
        is_active: status == 1,
    };
    proof {
        assert(vstd::utf8::encode_utf8(rec.conditions@) == cond_view);
        assert(bytes@ =~= encode_record(rec));
    }
    Some(rec)
}

proof fn lemma_u64_le_bytes_injective(n1: u64, n2: u64)
    requires
        u64_le_bytes(n1) == u64_le_bytes(n2),
    ensures
        n1 == n2,
{
    assert(u64_le_bytes(n1)[0] == u64_le_bytes(n2)[0]);
    assert(u64_le_bytes(n1)[1] == u64_le_bytes(n2)[1]);
    assert(u64_le_bytes(n1)[2] == u64_le_bytes(n2)[2]);
    assert(u64_le_bytes(n1)[3] == u64_le_bytes(n2)[3]);
    assert(u64_le_bytes(n1)[4] == u64_le_bytes(n2)[4]);
    assert(u64_le_bytes(n1)[5] == u64_le_bytes(n2)[5]);
    assert(u64_le_bytes(n1)[6] == u64_le_bytes(n2)[6]);
    assert(u64_le_bytes(n1)[7] == u64_le_bytes(n2)[7]);
    assert(n1 == n2) by (bit_vector)
        requires
            n1 % 0x100 == n2 % 0x100,
            (n1 / 0x100) % 0x100 == (n2 / 0x100) % 0x100,
            (n1 / 0x10000) % 0x100 == (n2 / 0x10000) % 0x100,
            (n1 / 0x1000000) % 0x100 == (n2 / 0x1000000) % 0x100,
            (n1 / 0x100000000) % 0x100 == (n2 / 0x100000000) % 0x100,
            (n1 / 0x10000000000) % 0x100 == (n2 / 0x10000000000) % 0x100,
            (n1 / 0x1000000000000) % 0x100 == (n2 / 0x1000000000000) % 0x100,
            (n1 / 0x100000000000000) % 0x100 == (n2 / 0x100000000000000) % 0x100,
    ;
}

proof fn lemma_u32_le_bytes_injective(n1: u32, n2: u32)
    requires
        u32_le_bytes(n1) == u32_le_bytes(n2),
    ensures
        n1 == n2,
{
    assert(u32_le_bytes(n1)[0] == u32_le_bytes(n2)[0]);
    assert(u32_le_bytes(n1)[1] == u32_le_bytes(n2)[1]);
    assert(u32_le_bytes(n1)[2] == u32_le_bytes(n2)[2]);
    assert(u32_le_bytes(n1)[3] == u32_le_bytes(n2)[3]);
    assert(n1 == n2) by (bit_vector)
        requires
            n1 % 0x100 == n2 % 0x100,
            (n1 / 0x100) % 0x100 == (n2 / 0x100) % 0x100,
            (n1 / 0x10000) % 0x100 == (n2 / 0x10000) % 0x100,
            (n1 / 0x1000000) % 0x100 == (n2 / 0x1000000) % 0x100,
    ;
}

/// Where each field sits inside a record's encoding.
proof fn lemma_encode_record_components(rec: EscrowAccount)
    ensures
        encode_record(rec).len() == 109 + vstd::utf8::encode_utf8(rec.conditions@).len(),
        encode_record(rec).subrange(0, 32) == rec.initializer@,
        encode_record(rec).subrange(32, 64) == rec.initializer_deposit_token_account@,
        encode_record(rec).subrange(64, 96) == rec.initializer_receive_token_account@,
        encode_record(rec).subrange(96, 104) == u64_le_bytes(rec.amount),
        encode_record(rec).subrange(104, 108) == u32_le_bytes(
            vstd::utf8::encode_utf8(rec.conditions@).len() as u32,
        ),
        encode_record(rec).subrange(
            108,
            108 + vstd::utf8::encode_utf8(rec.conditions@).len() as int,
        ) == vstd::utf8::encode_utf8(rec.conditions@),
        encode_record(rec)[108 + vstd::utf8::encode_utf8(rec.conditions@).len() as int] == (
        if rec.is_active {
            1u8
        } else {
            0u8
        }),
{
    let c = vstd::utf8::encode_utf8(rec.conditions@);
    assert(encode_record(rec).subrange(0, 32) =~= rec.initializer@);
    assert(encode_record(rec).subrange(32, 64) =~= rec.initializer_deposit_token_account@);
    assert(encode_record(rec).subrange(64, 96) =~= rec.initializer_receive_token_account@);
    assert(encode_record(rec).subrange(96, 104) =~= u64_le_bytes(rec.amount));
    assert(encode_record(rec).subrange(104, 108) =~= u32_le_bytes(c.len() as u32));
    assert(encode_record(rec).subrange(108, 108 + c.len() as int) =~= c);
}

/// The wire format loses nothing: two records with the same encoding agree
/// on every field — the three identities, the amount, the status, and the
/// condition text character for character.
pub proof fn lemma_encode_record_injective(r1: EscrowAccount, r2: EscrowAccount)
    requires
        encode_record(r1) == encode_record(r2),
    ensures
        r1.initializer == r2.initializer,
        r1.initializer_deposit_token_account == r2.initializer_deposit_token_account,
        r1.initializer_receive_token_account == r2.initializer_receive_token_account,
        r1.amount == r2.amount,
        r1.conditions@ == r2.conditions@,
        r1.is_active == r2.is_active,
{
    let c1 = vstd::utf8::encode_utf8(r1.conditions@);
    let c2 = vstd::utf8::encode_utf8(r2.conditions@);
    lemma_encode_record_components(r1);
    lemma_encode_record_components(r2);
    assert(c1.len() == c2.len());

    assert(r1.initializer.bytes == r2.initializer.bytes);
    assert(r1.initializer_deposit_token_account.bytes
        == r2.initializer_deposit_token_account.bytes);
    assert(r1.initializer_receive_token_account.bytes
        == r2.initializer_receive_token_account.bytes);
    lemma_u64_le_bytes_injective(r1.amount, r2.amount);

    assert(c1 == c2);
    vstd::utf8::encode_utf8_decode_utf8(r1.conditions@);
    vstd::utf8::encode_utf8_decode_utf8(r2.conditions@);

    assert(encode_record(r1)[108 + c1.len() as int] == encode_record(r2)[108 + c2.len() as int]);
}

} // verus!
