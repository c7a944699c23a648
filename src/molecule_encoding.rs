use vstd::prelude::*;

verus! {

/// Largest value of the 32-bit size and offset fields of the encoding.
pub const MAX_NUMBER: u64 = 0xffff_ffff;

/// `n` as four little-endian bytes.
pub open spec fn le32(n: nat) -> Seq<u8> {
    seq![
        (n % 256) as u8,
        ((n / 256) % 256) as u8,
        ((n / 65536) % 256) as u8,
        ((n / 16777216) % 256) as u8,
    ]
}

/// A byte vector: its length as a 32-bit number, then its bytes.
pub open spec fn fixvec_bytes(items: Seq<u8>) -> Seq<u8> {
    le32(items.len()) + items
}

/// A table of three fields: the total size, the offset of each field (all
/// counted from the start of the table), then the fields' bytes in order.
pub open spec fn table3_bytes(a: Seq<u8>, b: Seq<u8>, c: Seq<u8>) -> Seq<u8> {
    le32(16 + a.len() + b.len() + c.len()) + le32(16) + le32(16 + a.len()) + le32(
        16 + a.len() + b.len(),
    ) + a + b + c
}

/// Each field of a three-field table can be read back from its encoding.
pub proof fn lemma_table3_fields(a: Seq<u8>, b: Seq<u8>, c: Seq<u8>)
    ensures
        table3_bytes(a, b, c).len() == 16 + a.len() as int + b.len() as int + c.len() as int,
        table3_bytes(a, b, c).subrange(16, 16 + a.len() as int) == a,
        table3_bytes(a, b, c).subrange(16 + a.len() as int, 16 + a.len() as int + b.len() as int) == b,
        table3_bytes(a, b, c).subrange(
            16 + a.len() as int + b.len() as int,
            16 + a.len() as int + b.len() as int + c.len() as int,
        ) == c,
{
    let t = table3_bytes(a, b, c);
    let h = le32(16 + a.len() + b.len() + c.len()) + le32(16) + le32(16 + a.len()) + le32(
        16 + a.len() + b.len(),
    );
    assert(t == h + a + b + c);
    assert(t.subrange(16, 16 + a.len() as int) =~= a);
    assert(t.subrange(16 + a.len() as int, 16 + a.len() as int + b.len() as int) =~= b);
    assert(t.subrange(16 + a.len() as int + b.len() as int, 16 + a.len() as int + b.len() as int + c.len() as int) =~= c);
}

/// The items of a byte vector can be read back from its encoding.
pub proof fn lemma_fixvec_items(items: Seq<u8>)
    ensures
        fixvec_bytes(items).len() == 4 + items.len() as int,
        fixvec_bytes(items).subrange(4, 4 + items.len() as int) == items,
{
    assert(fixvec_bytes(items).subrange(4, 4 + items.len() as int) =~= items);
}

/// Relies on molecule's `pack_number`: a 32-bit number as four
/// little-endian bytes.
#[verifier::external_body]
fn pack_number(n: u32) -> (r: [u8; 4])
    ensures
        r@ == le32(n as nat),
{
    molecule::pack_number(n)
}

/// Appends `s` to `v`.
fn append_bytes(v: &mut Vec<u8>, s: &[u8])
    ensures
        final(v)@ == old(v)@ + s@,
{
    let mut i: usize = 0;
    while i < s.len()
        invariant
            i <= s@.len(),
            v@ == old(v)@ + s@.subrange(0, i as int),
        decreases s@.len() - i,
    {
        v.push(s[i]);
        i = i + 1;
        assert(s@.subrange(0, i as int) == s@.subrange(0, i - 1 as int).push(s@[i - 1]));
    }
    assert(s@.subrange(0, i as int) == s@);
}

/// Appends `n` to `v` as four little-endian bytes.
fn append_number(v: &mut Vec<u8>, n: u32)
    ensures
        final(v)@ == old(v)@ + le32(n as nat),
{
    let b: [u8; 4] = pack_number(n);
    append_bytes(v, b.as_slice());
}

/// The encoding of a byte vector.
pub fn encode_fixvec(items: &[u8]) -> (r: Vec<u8>)
    requires
        items@.len() <= MAX_NUMBER,
    ensures
        r@ == fixvec_bytes(items@),
{
    let mut r: Vec<u8> = Vec::new();
    append_number(&mut r, items.len() as u32);
    append_bytes(&mut r, items);
    r
}

/// The encoding of a table whose three fields are already encoded as `a`,
/// `b` and `c`.
pub fn encode_table3(a: &[u8], b: &[u8], c: &[u8]) -> (r: Vec<u8>)
    requires
        16 + a@.len() + b@.len() + c@.len() <= MAX_NUMBER,
    ensures
        r@ == table3_bytes(a@, b@, c@),
{
    let header: u32 = 16;
    let end_a: u32 = header + a.len() as u32;
    let end_b: u32 = end_a + b.len() as u32;
    let total: u32 = end_b + c.len() as u32;
    let mut r: Vec<u8> = Vec::new();
    append_number(&mut r, total);
    append_number(&mut r, header);
    append_number(&mut r, end_a);
    append_number(&mut r, end_b);
    append_bytes(&mut r, a);
    append_bytes(&mut r, b);
    append_bytes(&mut r, c);
    r
}

} // verus!
