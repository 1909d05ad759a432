//! The serialized form of a product record.
//!
//! A record is persisted as one byte string: fixed-width little-endian
//! integers, length-prefixed UTF-8 text, one tag byte per optional field or
//! enum variant, and a count-prefixed payment list.  `spec_encode_product`
//! is the reference form; the encoder produces exactly it, and the decoder
//! accepts exactly the byte strings of that form, so create, read and
//! update round-trip losslessly.

use vstd::prelude::*;
use vstd::bytes::*;
use vstd::slice::*;
use vstd::string::*;
use vstd::utf8::*;
use crate::state::{MaxSupply, MerchProduct, PaymentConfig, Pubkey};

verus! {

/// Bias added to a signed timestamp so its serialized form is an unsigned
/// word; subtracting it restores the original value.
pub const I64_BIAS: u64 = 0x8000_0000_0000_0000;

/// The mathematical content of one payment leg.
pub ghost struct PaymentView {
    pub tag: Seq<char>,
    pub mint: Pubkey,
    pub amount: u64,
    pub recipient: Pubkey,
}

impl View for PaymentConfig {
    type V = PaymentView;

    open spec fn view(&self) -> PaymentView {
        PaymentView { tag: self.tag@, mint: self.mint, amount: self.amount, recipient: self.recipient }
    }
}

/// The mathematical content of a product record.
pub ghost struct ProductView {
    pub id: Pubkey,
    pub authority: Pubkey,
    pub name: Seq<char>,
    pub uri: Seq<char>,
    pub category: Seq<char>,
    pub current_supply: u64,
    pub max_supply: MaxSupply,
    pub sale_start_at: Option<i64>,
    pub sale_end_at: Option<i64>,
    pub linked_master_nft: Option<Pubkey>,
    pub claims_per_edition: u32,
    pub payments: Seq<PaymentView>,
    pub affiliate_commission_bps: u16,
}

impl View for MerchProduct {
    type V = ProductView;

    open spec fn view(&self) -> ProductView {
        ProductView {
            id: self.id,
            authority: self.authority,
            name: self.name@,
            uri: self.uri@,
            category: self.category@,
            current_supply: self.current_supply,
            max_supply: self.max_supply,
            sale_start_at: self.sale_start_at,
            sale_end_at: self.sale_end_at,
            linked_master_nft: self.linked_master_nft,
            claims_per_edition: self.claims_per_edition,
            payments: self.payments@.map_values(|p: PaymentConfig| p@),
            affiliate_commission_bps: self.affiliate_commission_bps,
        }
    }
}

// ---------------------------------------------------------------------------
// Reference encoding
// ---------------------------------------------------------------------------

pub open spec fn enc_u16(x: u16) -> Seq<u8> {
    spec_u16_to_le_bytes(x)
}

pub open spec fn enc_u32(x: u32) -> Seq<u8> {
    spec_u32_to_le_bytes(x)
}

pub open spec fn enc_u64(x: u64) -> Seq<u8> {
    spec_u64_to_le_bytes(x)
}

pub open spec fn enc_i64(x: i64) -> Seq<u8> {
    enc_u64(((x as int) + (I64_BIAS as int)) as u64)
}

pub open spec fn enc_pubkey(k: Pubkey) -> Seq<u8> {
    enc_u64(k.value)
}

pub open spec fn enc_str(s: Seq<char>) -> Seq<u8> {
    enc_u32(encode_utf8(s).len() as u32) + encode_utf8(s)
}

pub open spec fn enc_opt_i64(v: Option<i64>) -> Seq<u8> {
    match v {
        None => seq![0u8],
        Some(x) => seq![1u8] + enc_i64(x),
    }
}

pub open spec fn enc_opt_pubkey(v: Option<Pubkey>) -> Seq<u8> {
    match v {
        None => seq![0u8],
        Some(k) => seq![1u8] + enc_pubkey(k),
    }
}

pub open spec fn enc_max_supply(m: MaxSupply) -> Seq<u8> {
    match m {
        MaxSupply::Unbounded => seq![0u8],
        MaxSupply::Fixed(n) => seq![1u8] + enc_u64(n),
        MaxSupply::MirrorExternalEdition => seq![2u8],
    }
}

pub open spec fn enc_payment(p: PaymentView) -> Seq<u8> {
    enc_str(p.tag) + enc_pubkey(p.mint) + enc_u64(p.amount) + enc_pubkey(p.recipient)
}

pub open spec fn enc_payment_seq(s: Seq<PaymentView>) -> Seq<u8>
    decreases s.len(),
{
    if s.len() == 0 {
        Seq::empty()
    } else {
        enc_payment(s[0]) + enc_payment_seq(s.drop_first())
    }
}

pub open spec fn enc_payments(s: Seq<PaymentView>) -> Seq<u8> {
    enc_u32(s.len() as u32) + enc_payment_seq(s)
}

/// The serialized form of a whole record.
pub open spec fn spec_encode_product(p: ProductView) -> Seq<u8> {
    enc_pubkey(p.id) + enc_pubkey(p.authority) + enc_str(p.name) + enc_str(p.uri) + enc_str(
        p.category,
    ) + enc_u64(p.current_supply) + enc_max_supply(p.max_supply) + enc_opt_i64(p.sale_start_at)
        + enc_opt_i64(p.sale_end_at) + enc_opt_pubkey(p.linked_master_nft) + enc_u32(
        p.claims_per_edition,
    ) + enc_payments(p.payments) + enc_u16(p.affiliate_commission_bps)
}

/// A text field fits the serialized form when its UTF-8 length fits the
/// 32-bit length prefix.
pub open spec fn str_encodable(s: Seq<char>) -> bool {
    encode_utf8(s).len() <= u32::MAX
}

pub open spec fn payment_encodable(p: PaymentView) -> bool {
    str_encodable(p.tag)
}

/// A record fits the serialized form: every text field and the payment
/// count fit their 32-bit length prefixes.
pub open spec fn product_encodable(p: ProductView) -> bool {
    &&& str_encodable(p.name)
    &&& str_encodable(p.uri)
    &&& str_encodable(p.category)
    &&& p.payments.len() <= u32::MAX
    &&& forall|i: int| 0 <= i < p.payments.len() ==> payment_encodable(#[trigger] p.payments[i])
}

// ---------------------------------------------------------------------------
// Encoder
// ---------------------------------------------------------------------------

fn write_u8(out: &mut Vec<u8>, x: u8)
    ensures
        final(out)@ == old(out)@ + seq![x],
{
    out.push(x);
    proof {
        assert(out@ =~= old(out)@ + seq![x]);
    }
}

fn write_u16(out: &mut Vec<u8>, x: u16)
    ensures
        final(out)@ == old(out)@ + enc_u16(x),
{
    let mut b = u16_to_le_bytes(x);
    out.append(&mut b);
}

fn write_u32(out: &mut Vec<u8>, x: u32)
    ensures
        final(out)@ == old(out)@ + enc_u32(x),
{
    let mut b = u32_to_le_bytes(x);
    out.append(&mut b);
}

fn write_u64(out: &mut Vec<u8>, x: u64)
    ensures
        final(out)@ == old(out)@ + enc_u64(x),
{
    let mut b = u64_to_le_bytes(x);
    out.append(&mut b);
}

fn write_i64(out: &mut Vec<u8>, x: i64)
    ensures
        final(out)@ == old(out)@ + enc_i64(x),
{
    let biased: i128 = (x as i128) + (I64_BIAS as i128);
    write_u64(out, biased as u64);
}

fn write_pubkey(out: &mut Vec<u8>, k: &Pubkey)
    ensures
        final(out)@ == old(out)@ + enc_pubkey(*k),
{
    write_u64(out, k.value);
}

fn write_str(out: &mut Vec<u8>, s: &String)
    requires
        str_encodable(s@),
    ensures
        final(out)@ == old(out)@ + enc_str(s@),
{
    let bytes = s.as_str().as_bytes();
    let n = bytes.len();
    write_u32(out, n as u32);
    let mut bv = slice_to_vec(bytes);
    out.append(&mut bv);
    proof {
        assert(out@ =~= old(out)@ + enc_str(s@));
    }
}

fn write_opt_i64(out: &mut Vec<u8>, v: &Option<i64>)
    ensures
        final(out)@ == old(out)@ + enc_opt_i64(*v),
{
    match v {
        None => write_u8(out, 0),
        Some(x) => {
            write_u8(out, 1);
            write_i64(out, *x);
            proof {
                assert(out@ =~= old(out)@ + enc_opt_i64(*v));
            }
        },
    }
}

fn write_opt_pubkey(out: &mut Vec<u8>, v: &Option<Pubkey>)
    ensures
        final(out)@ == old(out)@ + enc_opt_pubkey(*v),
{
    match v {
        None => write_u8(out, 0),
        Some(k) => {
            write_u8(out, 1);
            write_pubkey(out, k);
            proof {
                assert(out@ =~= old(out)@ + enc_opt_pubkey(*v));
            }
        },
    }
}

fn write_max_supply(out: &mut Vec<u8>, m: &MaxSupply)
    ensures
        final(out)@ == old(out)@ + enc_max_supply(*m),
{
    match m {
        MaxSupply::Unbounded => write_u8(out, 0),
        MaxSupply::Fixed(n) => {
            write_u8(out, 1);
            write_u64(out, *n);
            proof {
                assert(out@ =~= old(out)@ + enc_max_supply(*m));
            }
        },
        MaxSupply::MirrorExternalEdition => write_u8(out, 2),
    }
}

fn write_payment(out: &mut Vec<u8>, p: &PaymentConfig)
    requires
        payment_encodable(p@),
    ensures
        final(out)@ == old(out)@ + enc_payment(p@),
{
    write_str(out, &p.tag);
    write_pubkey(out, &p.mint);
    write_u64(out, p.amount);
    write_pubkey(out, &p.recipient);
    proof {
        assert(out@ =~= old(out)@ + enc_payment(p@));
    }
}

proof fn lemma_payment_seq_snoc(s: Seq<PaymentView>, i: int)
    requires
        0 <= i < s.len(),
    ensures
        enc_payment_seq(s.take(i + 1)) == enc_payment_seq(s.take(i)) + enc_payment(s[i]),
    decreases i,
{
    if i == 0 {
        assert(s.take(1).drop_first() =~= Seq::<PaymentView>::empty());
        assert(s.take(1)[0] == s[0]);
        assert(s.take(0) =~= Seq::<PaymentView>::empty());
        assert(enc_payment_seq(s.take(1)) =~= enc_payment_seq(s.take(0)) + enc_payment(s[0]));
    } else {
        lemma_payment_seq_snoc(s.drop_first(), i - 1);
        assert(s.take(i + 1).drop_first() =~= s.drop_first().take(i));
        assert(s.take(i).drop_first() =~= s.drop_first().take(i - 1));
        assert(s.take(i + 1)[0] == s[0]);
        assert(s.take(i)[0] == s[0]);
        assert(enc_payment_seq(s.take(i + 1)) == enc_payment(s[0]) + enc_payment_seq(
            s.drop_first().take(i),
        ));
        assert(enc_payment_seq(s.take(i)) == enc_payment(s[0]) + enc_payment_seq(
            s.drop_first().take(i - 1),
        ));
        assert(enc_payment_seq(s.take(i + 1)) =~= enc_payment_seq(s.take(i)) + enc_payment(s[i]));
    }
}

fn write_payments(out: &mut Vec<u8>, payments: &Vec<PaymentConfig>)
    requires
        payments@.len() <= u32::MAX,
        forall|i: int| 0 <= i < payments@.len() ==> payment_encodable((#[trigger] payments@[i])@),
    ensures
        final(out)@ == old(out)@ + enc_payments(payments@.map_values(|p: PaymentConfig| p@)),
{
    let ghost pv = payments@.map_values(|p: PaymentConfig| p@);
    write_u32(out, payments.len() as u32);
    let n = payments.len();
    let mut i: usize = 0;
    while i < n
        invariant
            n == payments@.len(),
            pv == payments@.map_values(|p: PaymentConfig| p@),
            pv.len() == n,
            forall|k: int| 0 <= k < n ==> payment_encodable(#[trigger] pv[k]),
            i <= n,
            out@ == old(out)@ + enc_u32(n as u32) + enc_payment_seq(pv.take(i as int)),
        decreases n - i,
    {
        proof {
            assert(payments@[i as int]@ == pv[i as int]);
        }
        write_payment(out, &payments[i]);
        proof {
            lemma_payment_seq_snoc(pv, i as int);
            assert(out@ =~= old(out)@ + enc_u32(n as u32) + enc_payment_seq(
                pv.take(i as int + 1),
            ));
        }
        i = i + 1;
    }
    proof {
        assert(pv.take(n as int) =~= pv);
        assert(out@ =~= old(out)@ + enc_payments(pv));
    }
}

/// Serializes a record into exactly its reference byte form.
pub fn encode_product(p: &MerchProduct) -> (r: Vec<u8>)
    requires
        product_encodable(p@),
    ensures
        r@ == spec_encode_product(p@),
{
    let mut out: Vec<u8> = Vec::new();
    write_pubkey(&mut out, &p.id);
    write_pubkey(&mut out, &p.authority);
    write_str(&mut out, &p.name);
    write_str(&mut out, &p.uri);
    write_str(&mut out, &p.category);
    write_u64(&mut out, p.current_supply);
    write_max_supply(&mut out, &p.max_supply);
    write_opt_i64(&mut out, &p.sale_start_at);
    write_opt_i64(&mut out, &p.sale_end_at);
    write_opt_pubkey(&mut out, &p.linked_master_nft);
    write_u32(&mut out, p.claims_per_edition);
    proof {
        assert forall|i: int| 0 <= i < p.payments@.len() implies payment_encodable(
            (#[trigger] p.payments@[i])@,
        ) by {
            assert(p@.payments[i] == p.payments@[i]@);
        }
    }
    write_payments(&mut out, &p.payments);
    write_u16(&mut out, p.affiliate_commission_bps);
    proof {
        assert(out@ =~= spec_encode_product(p@));
    }
    out
}

impl MerchProduct {
    /// Serializes this record; the backing storage must be resized to the
    /// result's exact length and fully overwritten with it.
    pub fn serialize(&self) -> (r: Vec<u8>)
        requires
            product_encodable(self@),
        ensures
            r@ == spec_encode_product(self@),
    {
        encode_product(self)
    }
}

// ---------------------------------------------------------------------------
// Reference decoding
// ---------------------------------------------------------------------------

pub open spec fn dec_u8_at(b: Seq<u8>, pos: int) -> Option<(u8, int)> {
    if 0 <= pos && pos + 1 <= b.len() {
        Some((b[pos], pos + 1))
    } else {
        None
    }
}

pub open spec fn dec_u16_at(b: Seq<u8>, pos: int) -> Option<(u16, int)> {
    if 0 <= pos && pos + 2 <= b.len() {
        Some((spec_u16_from_le_bytes(b.subrange(pos, pos + 2)), pos + 2))
    } else {
        None
    }
}

pub open spec fn dec_u32_at(b: Seq<u8>, pos: int) -> Option<(u32, int)> {
    if 0 <= pos && pos + 4 <= b.len() {
        Some((spec_u32_from_le_bytes(b.subrange(pos, pos + 4)), pos + 4))
    } else {
        None
    }
}

pub open spec fn dec_u64_at(b: Seq<u8>, pos: int) -> Option<(u64, int)> {
    if 0 <= pos && pos + 8 <= b.len() {
        Some((spec_u64_from_le_bytes(b.subrange(pos, pos + 8)), pos + 8))
    } else {
        None
    }
}

pub open spec fn dec_i64_at(b: Seq<u8>, pos: int) -> Option<(i64, int)> {
    match dec_u64_at(b, pos) {
        None => None,
        Some((x, end)) => Some((((x as int) - (I64_BIAS as int)) as i64, end)),
    }
}

pub open spec fn dec_pubkey_at(b: Seq<u8>, pos: int) -> Option<(Pubkey, int)> {
    match dec_u64_at(b, pos) {
        None => None,
        Some((x, end)) => Some((Pubkey { value: x }, end)),
    }
}

pub open spec fn dec_str_at(b: Seq<u8>, pos: int) -> Option<(Seq<char>, int)> {
    match dec_u32_at(b, pos) {
        None => None,
        Some((n, mid)) => if mid + n <= b.len() {
            if valid_utf8(b.subrange(mid, mid + n)) {
                Some((decode_utf8(b.subrange(mid, mid + n)), mid + n))
            } else {
                None
            }
        } else {
            None
        },
    }
}

pub open spec fn dec_opt_i64_at(b: Seq<u8>, pos: int) -> Option<(Option<i64>, int)> {
    match dec_u8_at(b, pos) {
        None => None,
        Some((tag, mid)) => if tag == 0 {
            Some((None, mid))
        } else if tag == 1 {
            match dec_i64_at(b, mid) {
                None => None,
                Some((x, end)) => Some((Some(x), end)),
            }
        } else {
            None
        },
    }
}

pub open spec fn dec_opt_pubkey_at(b: Seq<u8>, pos: int) -> Option<(Option<Pubkey>, int)> {
    match dec_u8_at(b, pos) {
        None => None,
        Some((tag, mid)) => if tag == 0 {
            Some((None, mid))
        } else if tag == 1 {
            match dec_pubkey_at(b, mid) {
                None => None,
                Some((k, end)) => Some((Some(k), end)),
            }
        } else {
            None
        },
    }
}

pub open spec fn dec_max_supply_at(b: Seq<u8>, pos: int) -> Option<(MaxSupply, int)> {
    match dec_u8_at(b, pos) {
        None => None,
        Some((tag, mid)) => if tag == 0 {
            Some((MaxSupply::Unbounded, mid))
        } else if tag == 1 {
            match dec_u64_at(b, mid) {
                None => None,
                Some((n, end)) => Some((MaxSupply::Fixed(n), end)),
            }
        } else if tag == 2 {
            Some((MaxSupply::MirrorExternalEdition, mid))
        } else {
            None
        },
    }
}

pub open spec fn dec_payment_at(b: Seq<u8>, pos: int) -> Option<(PaymentView, int)> {
    match dec_str_at(b, pos) {
        None => None,
        Some((tag, p1)) => match dec_pubkey_at(b, p1) {
            None => None,
            Some((mint, p2)) => match dec_u64_at(b, p2) {
                None => None,
                Some((amount, p3)) => match dec_pubkey_at(b, p3) {
                    None => None,
                    Some((recipient, end)) => Some(
                        (PaymentView { tag, mint, amount, recipient }, end),
                    ),
                },
            },
        },
    }
}

pub open spec fn dec_payment_list_at(b: Seq<u8>, pos: int, n: nat) -> Option<
    (Seq<PaymentView>, int),
>
    decreases n,
{
    if n == 0 {
        Some((Seq::empty(), pos))
    } else {
        match dec_payment_at(b, pos) {
            None => None,
            Some((p, mid)) => match dec_payment_list_at(b, mid, (n - 1) as nat) {
                None => None,
                Some((rest, end)) => Some((seq![p] + rest, end)),
            },
        }
    }
}

pub open spec fn dec_payments_at(b: Seq<u8>, pos: int) -> Option<(Seq<PaymentView>, int)> {
    match dec_u32_at(b, pos) {
        None => None,
        Some((n, mid)) => dec_payment_list_at(b, mid, n as nat),
    }
}

pub open spec fn dec_product_at(b: Seq<u8>, pos: int) -> Option<(ProductView, int)> {
    match dec_pubkey_at(b, pos) {
        None => None,
        Some((id, p1)) => match dec_pubkey_at(b, p1) {
            None => None,
            Some((authority, p2)) => match dec_str_at(b, p2) {
                None => None,
                Some((name, p3)) => match dec_str_at(b, p3) {
                    None => None,
                    Some((uri, p4)) => match dec_str_at(b, p4) {
                        None => None,
                        Some((category, p5)) => match dec_u64_at(b, p5) {
                            None => None,
                            Some((current_supply, p6)) => match dec_max_supply_at(b, p6) {
                                None => None,
                                Some((max_supply, p7)) => match dec_opt_i64_at(b, p7) {
                                    None => None,
                                    Some((sale_start_at, p8)) => match dec_opt_i64_at(b, p8) {
                                        None => None,
                                        Some((sale_end_at, p9)) => match dec_opt_pubkey_at(
                                            b,
                                            p9,
                                        ) {
                                            None => None,
                                            Some((linked_master_nft, p10)) => match dec_u32_at(
                                                b,
                                                p10,
                                            ) {
                                                None => None,
                                                Some((claims_per_edition, p11)) => match dec_payments_at(
                                                    b,
                                                    p11,
                                                ) {
                                                    None => None,
                                                    Some((payments, p12)) => match dec_u16_at(
                                                        b,
                                                        p12,
                                                    ) {
                                                        None => None,
                                                        Some((affiliate_commission_bps, end)) => Some(
                                                            (
                                                                ProductView {
                                                                    id,
                                                                    authority,
                                                                    name,
                                                                    uri,
                                                                    category,
                                                                    current_supply,
                                                                    max_supply,
                                                                    sale_start_at,
                                                                    sale_end_at,
                                                                    linked_master_nft,
                                                                    claims_per_edition,
                                                                    payments,
                                                                    affiliate_commission_bps,
                                                                },
                                                                end,
                                                            ),
                                                        ),
                                                    },
                                                },
                                            },
                                        },
                                    },
                                },
                            },
                        },
                    },
                },
            },
        },
    }
}

/// The record a byte string denotes, when it is exactly the serialized form
/// of one record with nothing left over.
pub open spec fn spec_decode_product(b: Seq<u8>) -> Option<ProductView> {
    match dec_product_at(b, 0) {
        None => None,
        Some((p, end)) => if end == b.len() {
            Some(p)
        } else {
            None
        },
    }
}

// ---------------------------------------------------------------------------
// Decoder
// ---------------------------------------------------------------------------

/// Relies on core::str::from_utf8: yields the text whose UTF-8 encoding is
/// exactly the given bytes, and fails precisely on invalid UTF-8.
#[verifier::external_body]
fn bytes_to_str(v: &[u8]) -> (r: Option<&str>)
    ensures
        match r {
            Some(s) => valid_utf8(v@) && s@ == decode_utf8(v@),
            None => !valid_utf8(v@),
        },
{
    core::str::from_utf8(v).ok()
}

fn read_u8(b: &[u8], pos: usize) -> (r: Option<(u8, usize)>)
    requires
        pos <= b@.len(),
    ensures
        match r {
            Some((x, end)) => dec_u8_at(b@, pos as int) == Some((x, end as int)) && pos < end
                <= b@.len(),
            None => dec_u8_at(b@, pos as int) is None,
        },
{
    if pos < b.len() {
        Some((b[pos], pos + 1))
    } else {
        None
    }
}

fn read_u16(b: &[u8], pos: usize) -> (r: Option<(u16, usize)>)
    requires
        pos <= b@.len(),
    ensures
        match r {
            Some((x, end)) => dec_u16_at(b@, pos as int) == Some((x, end as int)) && pos < end
                <= b@.len(),
            None => dec_u16_at(b@, pos as int) is None,
        },
{
    if b.len() - pos >= 2 {
        let s = slice_subrange(b, pos, pos + 2);
        Some((u16_from_le_bytes(s), pos + 2))
    } else {
        None
    }
}

fn read_u32(b: &[u8], pos: usize) -> (r: Option<(u32, usize)>)
    requires
        pos <= b@.len(),
    ensures
        match r {
            Some((x, end)) => dec_u32_at(b@, pos as int) == Some((x, end as int)) && pos < end
                <= b@.len(),
            None => dec_u32_at(b@, pos as int) is None,
        },
{
    if b.len() - pos >= 4 {
        let s = slice_subrange(b, pos, pos + 4);
        Some((u32_from_le_bytes(s), pos + 4))
    } else {
        None
    }
}

fn read_u64(b: &[u8], pos: usize) -> (r: Option<(u64, usize)>)
    requires
        pos <= b@.len(),
    ensures
        match r {
            Some((x, end)) => dec_u64_at(b@, pos as int) == Some((x, end as int)) && pos < end
                <= b@.len(),
            None => dec_u64_at(b@, pos as int) is None,
        },
{
    if b.len() - pos >= 8 {
        let s = slice_subrange(b, pos, pos + 8);
        Some((u64_from_le_bytes(s), pos + 8))
    } else {
        None
    }
}

fn read_i64(b: &[u8], pos: usize) -> (r: Option<(i64, usize)>)
    requires
        pos <= b@.len(),
    ensures
        match r {
            Some((x, end)) => dec_i64_at(b@, pos as int) == Some((x, end as int)) && pos < end
                <= b@.len(),
            None => dec_i64_at(b@, pos as int) is None,
        },
{
    match read_u64(b, pos) {
        None => None,
        Some((x, end)) => {
            let v: i128 = (x as i128) - (I64_BIAS as i128);
            Some((v as i64, end))
        },
    }
}

fn read_pubkey(b: &[u8], pos: usize) -> (r: Option<(Pubkey, usize)>)
    requires
        pos <= b@.len(),
    ensures
        match r {
            Some((k, end)) => dec_pubkey_at(b@, pos as int) == Some((k, end as int)) && pos < end
                <= b@.len(),
            None => dec_pubkey_at(b@, pos as int) is None,
        },
{
    match read_u64(b, pos) {
        None => None,
        Some((x, end)) => Some((Pubkey { value: x }, end)),
    }
}

fn read_string(b: &[u8], pos: usize) -> (r: Option<(String, usize)>)
    requires
        pos <= b@.len(),
    ensures
        match r {
            Some((s, end)) => dec_str_at(b@, pos as int) == Some((s@, end as int)) && pos < end
                <= b@.len(),
            None => dec_str_at(b@, pos as int) is None,
        },
{
    match read_u32(b, pos) {
        None => None,
        Some((n, mid)) => {
            let nn = n as usize;
            if nn <= b.len() - mid {
                let content = slice_subrange(b, mid, mid + nn);
                match bytes_to_str(content) {
                    None => None,
                    Some(st) => Some((st.to_owned(), mid + nn)),
                }
            } else {
                None
            }
        },
    }
}

fn read_opt_i64(b: &[u8], pos: usize) -> (r: Option<(Option<i64>, usize)>)
    requires
        pos <= b@.len(),
    ensures
        match r {
            Some((v, end)) => dec_opt_i64_at(b@, pos as int) == Some((v, end as int)) && pos < end
                <= b@.len(),
            None => dec_opt_i64_at(b@, pos as int) is None,
        },
{
    match read_u8(b, pos) {
        None => None,
        Some((tag, mid)) => {
            if tag == 0 {
                Some((None, mid))
            } else if tag == 1 {
                match read_i64(b, mid) {
                    None => None,
                    Some((x, end)) => Some((Some(x), end)),
                }
            } else {
                None
            }
        },
    }
}

fn read_opt_pubkey(b: &[u8], pos: usize) -> (r: Option<(Option<Pubkey>, usize)>)
    requires
        pos <= b@.len(),
    ensures
        match r {
            Some((v, end)) => dec_opt_pubkey_at(b@, pos as int) == Some((v, end as int)) && pos
                < end <= b@.len(),
            None => dec_opt_pubkey_at(b@, pos as int) is None,
        },
{
    match read_u8(b, pos) {
        None => None,
        Some((tag, mid)) => {
            if tag == 0 {
                Some((None, mid))
            } else if tag == 1 {
                match read_pubkey(b, mid) {
                    None => None,
                    Some((k, end)) => Some((Some(k), end)),
                }
            } else {
                None
            }
        },
    }
}

fn read_max_supply(b: &[u8], pos: usize) -> (r: Option<(MaxSupply, usize)>)
    requires
        pos <= b@.len(),
    ensures
        match r {
            Some((m, end)) => dec_max_supply_at(b@, pos as int) == Some((m, end as int)) && pos
                < end <= b@.len(),
            None => dec_max_supply_at(b@, pos as int) is None,
        },
{
    match read_u8(b, pos) {
        None => None,
        Some((tag, mid)) => {
            if tag == 0 {
                Some((MaxSupply::Unbounded, mid))
            } else if tag == 1 {
                match read_u64(b, mid) {
                    None => None,
                    Some((n, end)) => Some((MaxSupply::Fixed(n), end)),
                }
            } else if tag == 2 {
                Some((MaxSupply::MirrorExternalEdition, mid))
            } else {
                None
            }
        },
    }
}

fn read_payment(b: &[u8], pos: usize) -> (r: Option<(PaymentConfig, usize)>)
    requires
        pos <= b@.len(),
    ensures
        match r {
            Some((p, end)) => dec_payment_at(b@, pos as int) == Some((p@, end as int)) && pos < end
                <= b@.len(),
            None => dec_payment_at(b@, pos as int) is None,
        },
{
    match read_string(b, pos) {
        None => None,
        Some((tag, p1)) => match read_pubkey(b, p1) {
            None => None,
            Some((mint, p2)) => match read_u64(b, p2) {
                None => None,
                Some((amount, p3)) => match read_pubkey(b, p3) {
                    None => None,
                    Some((recipient, end)) => Some(
                        (PaymentConfig { tag, mint, amount, recipient }, end),
                    ),
                },
            },
        },
    }
}

fn read_payment_list(b: &[u8], pos: usize, n: u32) -> (r: Option<(Vec<PaymentConfig>, usize)>)
    requires
        pos <= b@.len(),
    ensures
        match r {
            Some((v, end)) => dec_payment_list_at(b@, pos as int, n as nat) == Some(
                (v@.map_values(|p: PaymentConfig| p@), end as int),
            ) && pos <= end <= b@.len(),
            None => dec_payment_list_at(b@, pos as int, n as nat) is None,
        },
{
    let mut v: Vec<PaymentConfig> = Vec::new();
    let mut cur: usize = pos;
    let mut i: u32 = 0;
    while i < n
        invariant
            pos <= cur <= b@.len(),
            i <= n,
            dec_payment_list_at(b@, pos as int, n as nat) == (match dec_payment_list_at(
                b@,
                cur as int,
                (n - i) as nat,
            ) {
                Some((rest, end)) => Some((v@.map_values(|p: PaymentConfig| p@) + rest, end)),
                None => None::<(Seq<PaymentView>, int)>,
            }),
        decreases n - i,
    {
        match read_payment(b, cur) {
            None => {
                return None;
            },
            Some((p, end)) => {
                proof {
                    assert((v@.push(p)).map_values(|q: PaymentConfig| q@) =~= v@.map_values(
                        |q: PaymentConfig| q@,
                    ).push(p@));
                    assert forall|rest: Seq<PaymentView>|
                        v@.map_values(|q: PaymentConfig| q@) + (seq![p@] + rest) =~= v@.map_values(
                            |q: PaymentConfig| q@,
                        ).push(p@) + rest by {}
                }
                v.push(p);
                cur = end;
                i = i + 1;
            },
        }
    }
    proof {
        assert(v@.map_values(|p: PaymentConfig| p@) + Seq::<PaymentView>::empty() =~= v@.map_values(
            |p: PaymentConfig| p@,
        ));
    }
    Some((v, cur))
}

fn read_payments(b: &[u8], pos: usize) -> (r: Option<(Vec<PaymentConfig>, usize)>)
    requires
        pos <= b@.len(),
    ensures
        match r {
            Some((v, end)) => dec_payments_at(b@, pos as int) == Some(
                (v@.map_values(|p: PaymentConfig| p@), end as int),
            ) && pos <= end <= b@.len(),
            None => dec_payments_at(b@, pos as int) is None,
        },
{
    match read_u32(b, pos) {
        None => None,
        Some((n, mid)) => read_payment_list(b, mid, n),
    }
}

/// Reads a record back from its serialized form.  The bytes must be exactly
/// the serialized form of one record; anything else is rejected.
pub fn decode_product(b: &[u8]) -> (r: Option<MerchProduct>)
    ensures
        match r {
            Some(p) => spec_decode_product(b@) == Some(p@) && product_encodable(p@) && b@
                == spec_encode_product(p@),
            None => spec_decode_product(b@) is None,
        },
{
    let r = read_product(b);
    proof {
        match &r {
            Some(p) => lemma_decode_encode_product(b@, p@),
            None => (),
        }
    }
    r
}

fn read_product(b: &[u8]) -> (r: Option<MerchProduct>)
    ensures
        match r {
            Some(p) => spec_decode_product(b@) == Some(p@),
            None => spec_decode_product(b@) is None,
        },
{
    let id = match read_pubkey(b, 0) {
        None => {
            return None;
        },
        Some(x) => x,
    };
    let authority = match read_pubkey(b, id.1) {
        None => {
            return None;
        },
        Some(x) => x,
    };
    let name = match read_string(b, authority.1) {
        None => {
            return None;
        },
        Some(x) => x,
    };
    let uri = match read_string(b, name.1) {
        None => {
            return None;
        },
        Some(x) => x,
    };
    let category = match read_string(b, uri.1) {
        None => {
            return None;
        },
        Some(x) => x,
    };
    let current_supply = match read_u64(b, category.1) {
        None => {
            return None;
        },
        Some(x) => x,
    };
    let max_supply = match read_max_supply(b, current_supply.1) {
        None => {
            return None;
        },
        Some(x) => x,
    };
    let sale_start_at = match read_opt_i64(b, max_supply.1) {
        None => {
            return None;
        },
        Some(x) => x,
    };
    let sale_end_at = match read_opt_i64(b, sale_start_at.1) {
        None => {
            return None;
        },
        Some(x) => x,
    };
    let linked_master_nft = match read_opt_pubkey(b, sale_end_at.1) {
        None => {
            return None;
        },
        Some(x) => x,
    };
    let claims_per_edition = match read_u32(b, linked_master_nft.1) {
        None => {
            return None;
        },
        Some(x) => x,
    };
    let payments = match read_payments(b, claims_per_edition.1) {
        None => {
            return None;
        },
        Some(x) => x,
    };
    let affiliate_commission_bps = match read_u16(b, payments.1) {
        None => {
            return None;
        },
        Some(x) => x,
    };
    if affiliate_commission_bps.1 != b.len() {
        return None;
    }
    Some(
        MerchProduct {
            id: id.0,
            authority: authority.0,
            name: name.0,
            uri: uri.0,
            category: category.0,
            current_supply: current_supply.0,
            max_supply: max_supply.0,
            sale_start_at: sale_start_at.0,
            sale_end_at: sale_end_at.0,
            linked_master_nft: linked_master_nft.0,
            claims_per_edition: claims_per_edition.0,
            payments: payments.0,
            affiliate_commission_bps: affiliate_commission_bps.0,
        },
    )
}

// ---------------------------------------------------------------------------
// Round trip: decoding a serialized record restores it exactly
// ---------------------------------------------------------------------------

proof fn lemma_dec_u8(b: Seq<u8>, pos: int, x: u8)
    requires
        0 <= pos,
        pos + 1 <= b.len(),
        b.subrange(pos, pos + 1) == seq![x],
    ensures
        dec_u8_at(b, pos) == Some((x, pos + 1)),
{
    assert(b[pos] == b.subrange(pos, pos + 1)[0]);
}


proof fn lemma_dec_u16(b: Seq<u8>, pos: int, x: u16)
    requires
        0 <= pos,
        pos + 2 <= b.len(),
        b.subrange(pos, pos + 2) == enc_u16(x),
    ensures
        dec_u16_at(b, pos) == Some((x, pos + 2)),
{
    lemma_auto_spec_u16_to_from_le_bytes();
    assert(spec_u16_to_le_bytes(x).len() == 2);
    assert(spec_u16_from_le_bytes(spec_u16_to_le_bytes(x)) == x);
}

proof fn lemma_dec_u32(b: Seq<u8>, pos: int, x: u32)
    requires
        0 <= pos,
        pos + 4 <= b.len(),
        b.subrange(pos, pos + 4) == enc_u32(x),
    ensures
        dec_u32_at(b, pos) == Some((x, pos + 4)),
{
    lemma_auto_spec_u32_to_from_le_bytes();
    assert(spec_u32_to_le_bytes(x).len() == 4);
    assert(spec_u32_from_le_bytes(spec_u32_to_le_bytes(x)) == x);
}

proof fn lemma_dec_u64(b: Seq<u8>, pos: int, x: u64)
    requires
        0 <= pos,
        pos + 8 <= b.len(),
        b.subrange(pos, pos + 8) == enc_u64(x),
    ensures
        dec_u64_at(b, pos) == Some((x, pos + 8)),
{
    lemma_auto_spec_u64_to_from_le_bytes();
    assert(spec_u64_to_le_bytes(x).len() == 8);
    assert(spec_u64_from_le_bytes(spec_u64_to_le_bytes(x)) == x);
}

proof fn lemma_dec_i64(b: Seq<u8>, pos: int, x: i64)
    requires
        0 <= pos,
        pos + 8 <= b.len(),
        b.subrange(pos, pos + 8) == enc_i64(x),
    ensures
        dec_i64_at(b, pos) == Some((x, pos + 8)),
{
    let biased: u64 = ((x as int) + (I64_BIAS as int)) as u64;
    lemma_dec_u64(b, pos, biased);
    assert((((biased as int) - (I64_BIAS as int)) as i64) == x);
}

proof fn lemma_dec_pubkey(b: Seq<u8>, pos: int, k: Pubkey)
    requires
        0 <= pos,
        pos + 8 <= b.len(),
        b.subrange(pos, pos + 8) == enc_pubkey(k),
    ensures
        dec_pubkey_at(b, pos) == Some((k, pos + 8)),
{
    lemma_dec_u64(b, pos, k.value);
}

/// Splits the fact that a stretch of `b` equals a concatenation into the
/// facts that its two halves match the two parts.
proof fn lemma_split_concat(b: Seq<u8>, pos: int, x: Seq<u8>, y: Seq<u8>)
    requires
        0 <= pos,
        pos + x.len() + y.len() <= b.len(),
        b.subrange(pos, pos + x.len() + y.len()) == x + y,
    ensures
        b.subrange(pos, pos + x.len()) == x,
        b.subrange(pos + x.len(), pos + x.len() + y.len()) == y,
{
    let l = x.len() as int;
    let m = l + y.len();
    assert forall|i: int| 0 <= i < l implies #[trigger] b.subrange(pos, pos + l)[i] == x[i] by {
        assert(b.subrange(pos, pos + m)[i] == (x + y)[i]);
    }
    assert(b.subrange(pos, pos + l) =~= x);
    assert forall|i: int| 0 <= i < y.len() implies #[trigger] b.subrange(pos + l, pos + m)[i]
        == y[i] by {
        assert(b.subrange(pos, pos + m)[l + i] == (x + y)[l + i]);
    }
    assert(b.subrange(pos + l, pos + m) =~= y);
}

proof fn lemma_dec_str(b: Seq<u8>, pos: int, s: Seq<char>)
    requires
        str_encodable(s),
        0 <= pos,
        pos + enc_str(s).len() <= b.len(),
        b.subrange(pos, pos + enc_str(s).len()) == enc_str(s),
    ensures
        dec_str_at(b, pos) == Some((s, pos + enc_str(s).len())),
{
    let u = encode_utf8(s);
    lemma_auto_spec_u32_to_from_le_bytes();
    assert(enc_u32(u.len() as u32).len() == 4);
    assert(enc_str(s).len() == 4 + u.len());
    lemma_split_concat(b, pos, enc_u32(u.len() as u32), u);
    lemma_dec_u32(b, pos, u.len() as u32);
    encode_utf8_valid_utf8(s);
    encode_utf8_decode_utf8(s);
}

proof fn lemma_dec_opt_i64(b: Seq<u8>, pos: int, v: Option<i64>)
    requires
        0 <= pos,
        pos + enc_opt_i64(v).len() <= b.len(),
        b.subrange(pos, pos + enc_opt_i64(v).len()) == enc_opt_i64(v),
    ensures
        dec_opt_i64_at(b, pos) == Some((v, pos + enc_opt_i64(v).len())),
{
    match v {
        None => {
            assert(b.subrange(pos, pos + 1) =~= seq![0u8]);
            lemma_dec_u8(b, pos, 0);
        },
        Some(x) => {
            lemma_auto_spec_u64_to_from_le_bytes();
            assert(enc_i64(x).len() == 8);
            lemma_split_concat(b, pos, seq![1u8], enc_i64(x));
            lemma_dec_u8(b, pos, 1);
            lemma_dec_i64(b, pos + 1, x);
        },
    }
}

proof fn lemma_dec_opt_pubkey(b: Seq<u8>, pos: int, v: Option<Pubkey>)
    requires
        0 <= pos,
        pos + enc_opt_pubkey(v).len() <= b.len(),
        b.subrange(pos, pos + enc_opt_pubkey(v).len()) == enc_opt_pubkey(v),
    ensures
        dec_opt_pubkey_at(b, pos) == Some((v, pos + enc_opt_pubkey(v).len())),
{
    match v {
        None => {
            assert(b.subrange(pos, pos + 1) =~= seq![0u8]);
            lemma_dec_u8(b, pos, 0);
        },
        Some(k) => {
            lemma_auto_spec_u64_to_from_le_bytes();
            assert(enc_pubkey(k).len() == 8);
            lemma_split_concat(b, pos, seq![1u8], enc_pubkey(k));
            lemma_dec_u8(b, pos, 1);
            lemma_dec_pubkey(b, pos + 1, k);
        },
    }
}

proof fn lemma_dec_max_supply(b: Seq<u8>, pos: int, m: MaxSupply)
    requires
        0 <= pos,
        pos + enc_max_supply(m).len() <= b.len(),
        b.subrange(pos, pos + enc_max_supply(m).len()) == enc_max_supply(m),
    ensures
        dec_max_supply_at(b, pos) == Some((m, pos + enc_max_supply(m).len())),
{
    match m {
        MaxSupply::Unbounded => {
            assert(b.subrange(pos, pos + 1) =~= seq![0u8]);
            lemma_dec_u8(b, pos, 0);
        },
        MaxSupply::Fixed(n) => {
            lemma_auto_spec_u64_to_from_le_bytes();
            assert(enc_u64(n).len() == 8);
            lemma_split_concat(b, pos, seq![1u8], enc_u64(n));
            lemma_dec_u8(b, pos, 1);
            lemma_dec_u64(b, pos + 1, n);
        },
        MaxSupply::MirrorExternalEdition => {
            assert(b.subrange(pos, pos + 1) =~= seq![2u8]);
            lemma_dec_u8(b, pos, 2);
        },
    }
}

proof fn lemma_dec_payment(b: Seq<u8>, pos: int, p: PaymentView)
    requires
        payment_encodable(p),
        0 <= pos,
        pos + enc_payment(p).len() <= b.len(),
        b.subrange(pos, pos + enc_payment(p).len()) == enc_payment(p),
    ensures
        dec_payment_at(b, pos) == Some((p, pos + enc_payment(p).len())),
{
    lemma_auto_spec_u32_to_from_le_bytes();
    lemma_auto_spec_u64_to_from_le_bytes();
    let e0 = enc_str(p.tag);
    let e1 = enc_pubkey(p.mint);
    let e2 = enc_u64(p.amount);
    let e3 = enc_pubkey(p.recipient);
    let l0 = e0.len() as int;
    assert(e1.len() == 8 && e2.len() == 8 && e3.len() == 8);
    assert(enc_payment(p) == ((e0 + e1) + e2) + e3);
    lemma_split_concat(b, pos, (e0 + e1) + e2, e3);
    lemma_split_concat(b, pos, e0 + e1, e2);
    lemma_split_concat(b, pos, e0, e1);
    lemma_dec_str(b, pos, p.tag);
    lemma_dec_pubkey(b, pos + l0, p.mint);
    lemma_dec_u64(b, pos + l0 + 8, p.amount);
    lemma_dec_pubkey(b, pos + l0 + 16, p.recipient);
}

proof fn lemma_dec_payment_list(b: Seq<u8>, pos: int, s: Seq<PaymentView>)
    requires
        forall|i: int| 0 <= i < s.len() ==> payment_encodable(#[trigger] s[i]),
        0 <= pos,
        pos + enc_payment_seq(s).len() <= b.len(),
        b.subrange(pos, pos + enc_payment_seq(s).len()) == enc_payment_seq(s),
    ensures
        dec_payment_list_at(b, pos, s.len()) == Some((s, pos + enc_payment_seq(s).len())),
    decreases s.len(),
{
    if s.len() == 0 {
        assert(s =~= Seq::<PaymentView>::empty());
    } else {
        let first = s[0];
        let rest = s.drop_first();
        let e0 = enc_payment(first);
        let l0 = e0.len() as int;
        assert(enc_payment_seq(s) == e0 + enc_payment_seq(rest));
        lemma_split_concat(b, pos, e0, enc_payment_seq(rest));
        lemma_dec_payment(b, pos, first);
        assert(forall|i: int| 0 <= i < rest.len() ==> payment_encodable(#[trigger] rest[i]));
        lemma_dec_payment_list(b, pos + l0, rest);
        assert(seq![first] + rest =~= s);
    }
}

proof fn lemma_dec_payments(b: Seq<u8>, pos: int, s: Seq<PaymentView>)
    requires
        s.len() <= u32::MAX,
        forall|i: int| 0 <= i < s.len() ==> payment_encodable(#[trigger] s[i]),
        0 <= pos,
        pos + enc_payments(s).len() <= b.len(),
        b.subrange(pos, pos + enc_payments(s).len()) == enc_payments(s),
    ensures
        dec_payments_at(b, pos) == Some((s, pos + enc_payments(s).len())),
{
    lemma_auto_spec_u32_to_from_le_bytes();
    assert(enc_u32(s.len() as u32).len() == 4);
    lemma_split_concat(b, pos, enc_u32(s.len() as u32), enc_payment_seq(s));
    lemma_dec_u32(b, pos, s.len() as u32);
    lemma_dec_payment_list(b, pos + 4, s);
}

/// Decoding is a left inverse of encoding: reading back the serialized form
/// of any record yields that record, field for field.
#[verifier::rlimit(100)]
pub proof fn lemma_encode_decode_product(p: ProductView)
    requires
        product_encodable(p),
    ensures
        spec_decode_product(spec_encode_product(p)) == Some(p),
{
    lemma_auto_spec_u16_to_from_le_bytes();
    lemma_auto_spec_u32_to_from_le_bytes();
    lemma_auto_spec_u64_to_from_le_bytes();
    let b = spec_encode_product(p);
    let e1 = enc_pubkey(p.id);
    let e2 = enc_pubkey(p.authority);
    let e3 = enc_str(p.name);
    let e4 = enc_str(p.uri);
    let e5 = enc_str(p.category);
    let e6 = enc_u64(p.current_supply);
    let e7 = enc_max_supply(p.max_supply);
    let e8 = enc_opt_i64(p.sale_start_at);
    let e9 = enc_opt_i64(p.sale_end_at);
    let e10 = enc_opt_pubkey(p.linked_master_nft);
    let e11 = enc_u32(p.claims_per_edition);
    let e12 = enc_payments(p.payments);
    let e13 = enc_u16(p.affiliate_commission_bps);
    let c1 = e1;
    let c2 = c1 + e2;
    let c3 = c2 + e3;
    let c4 = c3 + e4;
    let c5 = c4 + e5;
    let c6 = c5 + e6;
    let c7 = c6 + e7;
    let c8 = c7 + e8;
    let c9 = c8 + e9;
    let c10 = c9 + e10;
    let c11 = c10 + e11;
    let c12 = c11 + e12;
    assert(b == c12 + e13);
    assert(b.subrange(0, b.len() as int) =~= b);
    lemma_split_concat(b, 0, c12, e13);
    lemma_split_concat(b, 0, c11, e12);
    lemma_split_concat(b, 0, c10, e11);
    lemma_split_concat(b, 0, c9, e10);
    lemma_split_concat(b, 0, c8, e9);
    lemma_split_concat(b, 0, c7, e8);
    lemma_split_concat(b, 0, c6, e7);
    lemma_split_concat(b, 0, c5, e6);
    lemma_split_concat(b, 0, c4, e5);
    lemma_split_concat(b, 0, c3, e4);
    lemma_split_concat(b, 0, c2, e3);
    lemma_split_concat(b, 0, c1, e2);
    let o1 = c1.len() as int;
    let o2 = c2.len() as int;
    let o3 = c3.len() as int;
    let o4 = c4.len() as int;
    let o5 = c5.len() as int;
    let o6 = c6.len() as int;
    let o7 = c7.len() as int;
    let o8 = c8.len() as int;
    let o9 = c9.len() as int;
    let o10 = c10.len() as int;
    let o11 = c11.len() as int;
    let o12 = c12.len() as int;
    assert(b.subrange(0, o1) =~= c1);
    lemma_dec_pubkey(b, 0, p.id);
    lemma_dec_pubkey(b, o1, p.authority);
    lemma_dec_str(b, o2, p.name);
    lemma_dec_str(b, o3, p.uri);
    lemma_dec_str(b, o4, p.category);
    lemma_dec_u64(b, o5, p.current_supply);
    lemma_dec_max_supply(b, o6, p.max_supply);
    lemma_dec_opt_i64(b, o7, p.sale_start_at);
    lemma_dec_opt_i64(b, o8, p.sale_end_at);
    lemma_dec_opt_pubkey(b, o9, p.linked_master_nft);
    lemma_dec_u32(b, o10, p.claims_per_edition);
    lemma_dec_payments(b, o11, p.payments);
    lemma_dec_u16(b, o12, p.affiliate_commission_bps);
}

// ---------------------------------------------------------------------------
// Soundness: the decoder accepts nothing but serialized records
// ---------------------------------------------------------------------------

/// A stretch of `b` is the concatenation of its two halves.
proof fn lemma_join_concat(b: Seq<u8>, pos: int, mid: int, end: int)
    requires
        0 <= pos <= mid <= end <= b.len(),
    ensures
        b.subrange(pos, end) == b.subrange(pos, mid) + b.subrange(mid, end),
{
    assert(b.subrange(pos, end) =~= b.subrange(pos, mid) + b.subrange(mid, end));
}

proof fn lemma_sound_u8(b: Seq<u8>, pos: int, x: u8, end: int)
    requires
        dec_u8_at(b, pos) == Some((x, end)),
    ensures
        0 <= pos,
        end == pos + 1 <= b.len(),
        b.subrange(pos, end) == seq![x],
{
    assert(b.subrange(pos, pos + 1) =~= seq![x]);
}

proof fn lemma_sound_u16(b: Seq<u8>, pos: int, x: u16, end: int)
    requires
        dec_u16_at(b, pos) == Some((x, end)),
    ensures
        0 <= pos,
        end == pos + 2 <= b.len(),
        b.subrange(pos, end) == enc_u16(x),
{
    lemma_auto_spec_u16_to_from_le_bytes();
    assert(spec_u16_to_le_bytes(spec_u16_from_le_bytes(b.subrange(pos, pos + 2))) == b.subrange(
        pos,
        pos + 2,
    ));
}

proof fn lemma_sound_u32(b: Seq<u8>, pos: int, x: u32, end: int)
    requires
        dec_u32_at(b, pos) == Some((x, end)),
    ensures
        0 <= pos,
        end == pos + 4 <= b.len(),
        b.subrange(pos, end) == enc_u32(x),
{
    lemma_auto_spec_u32_to_from_le_bytes();
    assert(spec_u32_to_le_bytes(spec_u32_from_le_bytes(b.subrange(pos, pos + 4))) == b.subrange(
        pos,
        pos + 4,
    ));
}

proof fn lemma_sound_u64(b: Seq<u8>, pos: int, x: u64, end: int)
    requires
        dec_u64_at(b, pos) == Some((x, end)),
    ensures
        0 <= pos,
        end == pos + 8 <= b.len(),
        b.subrange(pos, end) == enc_u64(x),
{
    lemma_auto_spec_u64_to_from_le_bytes();
    assert(spec_u64_to_le_bytes(spec_u64_from_le_bytes(b.subrange(pos, pos + 8))) == b.subrange(
        pos,
        pos + 8,
    ));
}

proof fn lemma_sound_i64(b: Seq<u8>, pos: int, x: i64, end: int)
    requires
        dec_i64_at(b, pos) == Some((x, end)),
    ensures
        0 <= pos,
        end == pos + 8 <= b.len(),
        b.subrange(pos, end) == enc_i64(x),
{
    let u = spec_u64_from_le_bytes(b.subrange(pos, pos + 8));
    lemma_sound_u64(b, pos, u, end);
    assert(((x as int) + (I64_BIAS as int)) as u64 == u);
}

proof fn lemma_sound_pubkey(b: Seq<u8>, pos: int, k: Pubkey, end: int)
    requires
        dec_pubkey_at(b, pos) == Some((k, end)),
    ensures
        0 <= pos,
        end == pos + 8 <= b.len(),
        b.subrange(pos, end) == enc_pubkey(k),
{
    lemma_sound_u64(b, pos, k.value, end);
}

proof fn lemma_sound_str(b: Seq<u8>, pos: int, s: Seq<char>, end: int)
    requires
        dec_str_at(b, pos) == Some((s, end)),
    ensures
        0 <= pos,
        pos + 4 <= end <= b.len(),
        b.subrange(pos, end) == enc_str(s),
        str_encodable(s),
{
    let n = spec_u32_from_le_bytes(b.subrange(pos, pos + 4));
    lemma_sound_u32(b, pos, n, pos + 4);
    let content = b.subrange(pos + 4, pos + 4 + n);
    decode_utf8_encode_utf8(content);
    assert(encode_utf8(s) == content);
    lemma_join_concat(b, pos, pos + 4, end);
}

proof fn lemma_sound_opt_i64(b: Seq<u8>, pos: int, v: Option<i64>, end: int)
    requires
        dec_opt_i64_at(b, pos) == Some((v, end)),
    ensures
        0 <= pos,
        pos < end <= b.len(),
        b.subrange(pos, end) == enc_opt_i64(v),
{
    let tag = b[pos];
    lemma_sound_u8(b, pos, tag, pos + 1);
    match v {
        None => {},
        Some(x) => {
            lemma_sound_i64(b, pos + 1, x, end);
            lemma_join_concat(b, pos, pos + 1, end);
        },
    }
}

proof fn lemma_sound_opt_pubkey(b: Seq<u8>, pos: int, v: Option<Pubkey>, end: int)
    requires
        dec_opt_pubkey_at(b, pos) == Some((v, end)),
    ensures
        0 <= pos,
        pos < end <= b.len(),
        b.subrange(pos, end) == enc_opt_pubkey(v),
{
    let tag = b[pos];
    lemma_sound_u8(b, pos, tag, pos + 1);
    match v {
        None => {},
        Some(k) => {
            lemma_sound_pubkey(b, pos + 1, k, end);
            lemma_join_concat(b, pos, pos + 1, end);
        },
    }
}

proof fn lemma_sound_max_supply(b: Seq<u8>, pos: int, m: MaxSupply, end: int)
    requires
        dec_max_supply_at(b, pos) == Some((m, end)),
    ensures
        0 <= pos,
        pos < end <= b.len(),
        b.subrange(pos, end) == enc_max_supply(m),
{
    let tag = b[pos];
    lemma_sound_u8(b, pos, tag, pos + 1);
    match m {
        MaxSupply::Unbounded => {},
        MaxSupply::Fixed(n) => {
            lemma_sound_u64(b, pos + 1, n, end);
            lemma_join_concat(b, pos, pos + 1, end);
        },
        MaxSupply::MirrorExternalEdition => {},
    }
}

proof fn lemma_sound_payment(b: Seq<u8>, pos: int, p: PaymentView, end: int)
    requires
        dec_payment_at(b, pos) == Some((p, end)),
    ensures
        0 <= pos,
        pos <= end <= b.len(),
        b.subrange(pos, end) == enc_payment(p),
        payment_encodable(p),
{
    let (tag, p1) = dec_str_at(b, pos)->0;
    let (mint, p2) = dec_pubkey_at(b, p1)->0;
    let (amount, p3) = dec_u64_at(b, p2)->0;
    let (recipient, e) = dec_pubkey_at(b, p3)->0;
    lemma_sound_str(b, pos, tag, p1);
    lemma_sound_pubkey(b, p1, mint, p2);
    lemma_sound_u64(b, p2, amount, p3);
    lemma_sound_pubkey(b, p3, recipient, e);
    lemma_join_concat(b, pos, p1, p2);
    lemma_join_concat(b, pos, p2, p3);
    lemma_join_concat(b, pos, p3, e);
}

proof fn lemma_sound_payment_list(b: Seq<u8>, pos: int, n: nat, s: Seq<PaymentView>, end: int)
    requires
        dec_payment_list_at(b, pos, n) == Some((s, end)),
        0 <= pos <= b.len(),
    ensures
        s.len() == n,
        pos <= end <= b.len(),
        b.subrange(pos, end) == enc_payment_seq(s),
        forall|i: int| 0 <= i < s.len() ==> payment_encodable(#[trigger] s[i]),
    decreases n,
{
    if n == 0 {
        assert(b.subrange(pos, pos) =~= Seq::<u8>::empty());
    } else {
        let (p, mid) = dec_payment_at(b, pos)->0;
        let (rest, e2) = dec_payment_list_at(b, mid, (n - 1) as nat)->0;
        lemma_sound_payment(b, pos, p, mid);
        lemma_sound_payment_list(b, mid, (n - 1) as nat, rest, e2);
        lemma_join_concat(b, pos, mid, end);
        assert(s == seq![p] + rest);
        assert(s[0] == p);
        assert(s.drop_first() =~= rest);
        assert(enc_payment_seq(s) == enc_payment(p) + enc_payment_seq(rest));
    }
}

proof fn lemma_sound_payments(b: Seq<u8>, pos: int, s: Seq<PaymentView>, end: int)
    requires
        dec_payments_at(b, pos) == Some((s, end)),
    ensures
        0 <= pos,
        pos <= end <= b.len(),
        b.subrange(pos, end) == enc_payments(s),
        s.len() <= u32::MAX,
        forall|i: int| 0 <= i < s.len() ==> payment_encodable(#[trigger] s[i]),
{
    let (n, mid) = dec_u32_at(b, pos)->0;
    lemma_sound_u32(b, pos, n, mid);
    lemma_sound_payment_list(b, mid, n as nat, s, end);
    lemma_join_concat(b, pos, mid, end);
}

/// Decoding is also a right inverse of encoding: the decoder accepts only
/// the exact serialized form of a record, so a record's serialized form is
/// unique and two different records never share one.
#[verifier::rlimit(100)]
pub proof fn lemma_decode_encode_product(b: Seq<u8>, p: ProductView)
    requires
        spec_decode_product(b) == Some(p),
    ensures
        product_encodable(p),
        spec_encode_product(p) == b,
{
    let (id, p1) = dec_pubkey_at(b, 0)->0;
    let (authority, p2) = dec_pubkey_at(b, p1)->0;
    let (name, p3) = dec_str_at(b, p2)->0;
    let (uri, p4) = dec_str_at(b, p3)->0;
    let (category, p5) = dec_str_at(b, p4)->0;
    let (current_supply, p6) = dec_u64_at(b, p5)->0;
    let (max_supply, p7) = dec_max_supply_at(b, p6)->0;
    let (sale_start_at, p8) = dec_opt_i64_at(b, p7)->0;
    let (sale_end_at, p9) = dec_opt_i64_at(b, p8)->0;
    let (linked_master_nft, p10) = dec_opt_pubkey_at(b, p9)->0;
    let (claims_per_edition, p11) = dec_u32_at(b, p10)->0;
    let (payments, p12) = dec_payments_at(b, p11)->0;
    let (affiliate_commission_bps, p13) = dec_u16_at(b, p12)->0;
    lemma_sound_pubkey(b, 0, id, p1);
    lemma_sound_pubkey(b, p1, authority, p2);
    lemma_sound_str(b, p2, name, p3);
    lemma_sound_str(b, p3, uri, p4);
    lemma_sound_str(b, p4, category, p5);
    lemma_sound_u64(b, p5, current_supply, p6);
    lemma_sound_max_supply(b, p6, max_supply, p7);
    lemma_sound_opt_i64(b, p7, sale_start_at, p8);
    lemma_sound_opt_i64(b, p8, sale_end_at, p9);
    lemma_sound_opt_pubkey(b, p9, linked_master_nft, p10);
    lemma_sound_u32(b, p10, claims_per_edition, p11);
    lemma_sound_payments(b, p11, payments, p12);
    lemma_sound_u16(b, p12, affiliate_commission_bps, p13);
    lemma_join_concat(b, 0, p1, p2);
    lemma_join_concat(b, 0, p2, p3);
    lemma_join_concat(b, 0, p3, p4);
    lemma_join_concat(b, 0, p4, p5);
    lemma_join_concat(b, 0, p5, p6);
    lemma_join_concat(b, 0, p6, p7);
    lemma_join_concat(b, 0, p7, p8);
    lemma_join_concat(b, 0, p8, p9);
    lemma_join_concat(b, 0, p9, p10);
    lemma_join_concat(b, 0, p10, p11);
    lemma_join_concat(b, 0, p11, p12);
    lemma_join_concat(b, 0, p12, p13);
    assert(b.subrange(0, p13) =~= b);
}

} // verus!
