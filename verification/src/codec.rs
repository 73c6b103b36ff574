use crate::dto::invoice::{Invoice, InvoiceStatus, InvoiceV};
use crate::dto::invoice_item::{Amount, InvoiceItem, InvoiceItemV};
use crate::hexfmt::{
    decode_hex, encode_hex, hex_at, hex_digits, lemma_hex_round_trip, lemma_hex_value_bound,
    pow16,
};
use crate::usecase::invoice_insert_item_usecase::{
    InvoiceInsertItemResponse, InvoiceInsertItemResponseV,
};
use vstd::prelude::*;
use vstd::string::*;

verus! {

// The serialized form of an idempotent-creation response, as the cache
// stores it: numbers as fixed-width hexadecimal digits, character data
// length-prefixed, and one leading tag character per shape. The decoder
// below reads back exactly what the encoder wrote.

/// The one-character tag of an invoice status.
pub open spec fn status_code(s: InvoiceStatus) -> char {
    match s {
        InvoiceStatus::Draft => 'd',
        InvoiceStatus::Pending => 'p',
        InvoiceStatus::ChargedWithError => 'e',
        InvoiceStatus::Paid => 'a',
        InvoiceStatus::Cancelled => 'c',
        InvoiceStatus::Uncollectible => 'u',
        InvoiceStatus::Refunded => 'r',
        InvoiceStatus::InProtest => 'i',
        InvoiceStatus::Chargeback => 'b',
        InvoiceStatus::UnmappedStatus => '?',
    }
}

/// The invoice status a tag character names, if any.
pub open spec fn code_status(c: char) -> Option<InvoiceStatus> {
    if c == 'd' {
        Some(InvoiceStatus::Draft)
    } else if c == 'p' {
        Some(InvoiceStatus::Pending)
    } else if c == 'e' {
        Some(InvoiceStatus::ChargedWithError)
    } else if c == 'a' {
        Some(InvoiceStatus::Paid)
    } else if c == 'c' {
        Some(InvoiceStatus::Cancelled)
    } else if c == 'u' {
        Some(InvoiceStatus::Uncollectible)
    } else if c == 'r' {
        Some(InvoiceStatus::Refunded)
    } else if c == 'i' {
        Some(InvoiceStatus::InProtest)
    } else if c == 'b' {
        Some(InvoiceStatus::Chargeback)
    } else if c == '?' {
        Some(InvoiceStatus::UnmappedStatus)
    } else {
        None
    }
}

/// An optional item id: a tag character, then the id where there is one.
pub open spec fn enc_opt_id(id: Option<u128>) -> Seq<char> {
    match id {
        None => seq!['n'],
        Some(v) => seq!['s'] + hex_digits(v as nat, 32),
    }
}

/// Character data, length-prefixed.
pub open spec fn enc_chunk(s: Seq<char>) -> Seq<char> {
    hex_digits(s.len(), 16) + s
}

/// One invoice item.
pub open spec fn enc_item(it: InvoiceItemV) -> Seq<char> {
    enc_opt_id(it.id) + enc_chunk(it.description) + hex_digits(it.quantity as nat, 4)
        + hex_digits(it.amount.mantissa as nat, 16) + hex_digits(it.amount.scale as nat, 2)
        + enc_chunk(it.currency)
}

/// A list of items, one after the other.
pub open spec fn enc_item_list(items: Seq<InvoiceItemV>) -> Seq<char>
    decreases items.len(),
{
    if items.len() == 0 {
        Seq::empty()
    } else {
        enc_item_list(items.drop_last()) + enc_item(items.last())
    }
}

/// A counted list of items.
pub open spec fn enc_items(items: Seq<InvoiceItemV>) -> Seq<char> {
    hex_digits(items.len(), 16) + enc_item_list(items)
}

/// One invoice with its items.
pub open spec fn enc_invoice(iv: InvoiceV) -> Seq<char> {
    hex_digits(iv.id as nat, 32) + hex_digits(iv.user_id as nat, 32) + seq![status_code(iv.status)]
        + enc_items(iv.itens)
}

/// A whole response: a tag character for the shape, then its payload.
pub open spec fn enc_response(v: InvoiceInsertItemResponseV) -> Seq<char> {
    match v {
        InvoiceInsertItemResponseV::Invoice(iv) => seq!['I'] + enc_invoice(iv),
        InvoiceInsertItemResponseV::Item(items) => seq!['L'] + enc_items(items),
    }
}

/// An item whose character data fits its length prefix. Every item an
/// executable value denotes satisfies this.
pub open spec fn item_wf(it: InvoiceItemV) -> bool {
    &&& it.description.len() < pow16(16)
    &&& it.currency.len() < pow16(16)
}

/// An item list that fits its count prefix.
pub open spec fn items_wf(items: Seq<InvoiceItemV>) -> bool {
    &&& items.len() < pow16(16)
    &&& forall|k: int| 0 <= k < items.len() ==> item_wf(#[trigger] items[k])
}

/// A response whose lists and character data fit their prefixes.
pub open spec fn response_wf(v: InvoiceInsertItemResponseV) -> bool {
    match v {
        InvoiceInsertItemResponseV::Invoice(iv) => items_wf(iv.itens),
        InvoiceInsertItemResponseV::Item(items) => items_wf(items),
    }
}

// What reading the serialized form back yields. Each reader takes the whole
// character sequence and a position, and yields the value it read together
// with the position after it, or nothing where the text is no encoding.

/// Reads an optional item id.
pub open spec fn dec_opt_id(s: Seq<char>, pos: int) -> Option<(Option<u128>, int)> {
    if 0 <= pos < s.len() {
        if s[pos] == 'n' {
            Some((None, pos + 1))
        } else if s[pos] == 's' {
            match hex_at(s, pos + 1, 32) {
                Some(v) => Some((Some(v as u128), pos + 33)),
                None => None,
            }
        } else {
            None
        }
    } else {
        None
    }
}

/// Reads length-prefixed character data.
pub open spec fn dec_chunk(s: Seq<char>, pos: int) -> Option<(Seq<char>, int)> {
    match hex_at(s, pos, 16) {
        Some(l) => if pos + 16 + l <= s.len() {
            Some((s.subrange(pos + 16, pos + 16 + l), pos + 16 + l))
        } else {
            None
        },
        None => None,
    }
}

/// Reads one item.
pub open spec fn dec_item(s: Seq<char>, pos: int) -> Option<(InvoiceItemV, int)> {
    match dec_opt_id(s, pos) {
        None => None,
        Some((id, p1)) => match dec_chunk(s, p1) {
            None => None,
            Some((desc, p2)) => match (hex_at(s, p2, 4), hex_at(s, p2 + 4, 16), hex_at(
                s,
                p2 + 20,
                2,
            )) {
                (Some(q), Some(m), Some(sc)) => match dec_chunk(s, p2 + 22) {
                    None => None,
                    Some((cur, p3)) => Some(
                        (
                            InvoiceItemV {
                                id: id,
                                description: desc,
                                quantity: q as u16,
                                amount: Amount { mantissa: m as u64, scale: sc as u8 },
                                currency: cur,
                            },
                            p3,
                        ),
                    ),
                },
                _ => None,
            },
        },
    }
}

/// Reads `count` items, one after the other.
pub open spec fn dec_item_list(s: Seq<char>, pos: int, count: nat) -> Option<
    (Seq<InvoiceItemV>, int),
>
    decreases count,
{
    if count == 0 {
        Some((Seq::empty(), pos))
    } else {
        match dec_item(s, pos) {
            None => None,
            Some((it, p1)) => match dec_item_list(s, p1, (count - 1) as nat) {
                None => None,
                Some((rest, p2)) => Some((seq![it] + rest, p2)),
            },
        }
    }
}

/// Reads a counted item list.
pub open spec fn dec_items(s: Seq<char>, pos: int) -> Option<(Seq<InvoiceItemV>, int)> {
    match hex_at(s, pos, 16) {
        None => None,
        Some(c) => dec_item_list(s, pos + 16, c as nat),
    }
}

/// Reads one invoice.
pub open spec fn dec_invoice(s: Seq<char>, pos: int) -> Option<(InvoiceV, int)> {
    match (hex_at(s, pos, 32), hex_at(s, pos + 32, 32)) {
        (Some(id), Some(uid)) => if pos + 64 < s.len() {
            match code_status(s[pos + 64]) {
                None => None,
                Some(st) => match dec_items(s, pos + 65) {
                    None => None,
                    Some((items, p)) => Some(
                        (
                            InvoiceV {
                                id: id as u128,
                                user_id: uid as u128,
                                status: st,
                                itens: items,
                            },
                            p,
                        ),
                    ),
                },
            }
        } else {
            None
        },
        _ => None,
    }
}

/// Reads a whole response; the text must be consumed exactly.
pub open spec fn dec_response(s: Seq<char>) -> Option<InvoiceInsertItemResponseV> {
    if s.len() == 0 {
        None
    } else if s[0] == 'I' {
        match dec_invoice(s, 1) {
            Some((iv, p)) => if p == s.len() {
                Some(InvoiceInsertItemResponseV::Invoice(iv))
            } else {
                None
            },
            None => None,
        }
    } else if s[0] == 'L' {
        match dec_items(s, 1) {
            Some((items, p)) => if p == s.len() {
                Some(InvoiceInsertItemResponseV::Item(items))
            } else {
                None
            },
            None => None,
        }
    } else {
        None
    }
}

/// The powers of 16 that bound the fixed-width fields.
proof fn lemma_pow16_field_bounds()
    ensures
        pow16(2) == 0x100,
        pow16(4) == 0x10000,
        pow16(16) == 0x10000000000000000,
        pow16(32) == 0x100000000000000000000000000000000,
{
    reveal_with_fuel(pow16, 33);
    assert(pow16(2) == 0x100);
    assert(pow16(4) == 0x10000);
    assert(pow16(16) == 0x10000000000000000);
    assert(pow16(32) == 0x100000000000000000000000000000000);
}

/// Splits "this part of `s` reads `a + b`" into one fact per part.
proof fn lemma_subrange_split(s: Seq<char>, pos: int, a: Seq<char>, b: Seq<char>)
    requires
        0 <= pos,
        pos + a.len() + b.len() <= s.len(),
        s.subrange(pos, pos + a.len() + b.len()) == a + b,
    ensures
        s.subrange(pos, pos + a.len() as int) == a,
        s.subrange(pos + a.len(), pos + a.len() + b.len()) == b,
{
    let l = a.len() as int;
    let m = b.len() as int;
    let whole = s.subrange(pos, pos + l + m);
    assert forall|i: int| 0 <= i < l implies s.subrange(pos, pos + l)[i] == a[i] by {
        assert(whole[i] == (a + b)[i]);
    }
    assert(s.subrange(pos, pos + l) =~= a);
    assert forall|i: int| 0 <= i < m implies s.subrange(pos + l, pos + l + m)[i] == b[i] by {
        assert(whole[l + i] == (a + b)[l + i]);
    }
    assert(s.subrange(pos + l, pos + l + m) =~= b);
}

/// Where a stretch of `s` holds the digits of `v`, reading there yields `v`.
proof fn lemma_rt_hex(s: Seq<char>, pos: int, v: nat, width: nat)
    requires
        0 <= pos,
        v < pow16(width),
        pos + width <= s.len(),
        s.subrange(pos, pos + width) == hex_digits(v, width),
    ensures
        hex_at(s, pos, width as int) == Some(v as int),
{
    lemma_hex_round_trip(v, width);
}

/// Where a stretch of `s` holds an encoded optional id, reading there
/// yields it back.
proof fn lemma_rt_opt_id(s: Seq<char>, pos: int, id: Option<u128>)
    requires
        0 <= pos,
        pos + enc_opt_id(id).len() <= s.len(),
        s.subrange(pos, pos + enc_opt_id(id).len() as int) == enc_opt_id(id),
    ensures
        dec_opt_id(s, pos) == Some((id, pos + enc_opt_id(id).len())),
{
    lemma_pow16_field_bounds();
    let e = enc_opt_id(id);
    match id {
        None => {
            assert(s[pos] == e[0]);
        },
        Some(v) => {
            lemma_hex_round_trip(v as nat, 32);
            assert(s[pos] == e[0]);
            lemma_subrange_split(s, pos, seq!['s'], hex_digits(v as nat, 32));
            lemma_rt_hex(s, pos + 1, v as nat, 32);
        },
    }
}

/// Where a stretch of `s` holds an encoded chunk, reading there yields it
/// back.
proof fn lemma_rt_chunk(s: Seq<char>, pos: int, c: Seq<char>)
    requires
        0 <= pos,
        c.len() < pow16(16),
        pos + enc_chunk(c).len() <= s.len(),
        s.subrange(pos, pos + enc_chunk(c).len() as int) == enc_chunk(c),
    ensures
        dec_chunk(s, pos) == Some((c, pos + enc_chunk(c).len())),
{
    lemma_hex_round_trip(c.len(), 16);
    lemma_subrange_split(s, pos, hex_digits(c.len(), 16), c);
    lemma_rt_hex(s, pos, c.len(), 16);
}

/// Where a stretch of `s` holds an encoded item, reading there yields it
/// back.
proof fn lemma_rt_item(s: Seq<char>, pos: int, it: InvoiceItemV)
    requires
        0 <= pos,
        item_wf(it),
        pos + enc_item(it).len() <= s.len(),
        s.subrange(pos, pos + enc_item(it).len() as int) == enc_item(it),
    ensures
        dec_item(s, pos) == Some((it, pos + enc_item(it).len())),
{
    lemma_pow16_field_bounds();
    let e0 = enc_opt_id(it.id);
    let e1 = enc_chunk(it.description);
    let e2 = hex_digits(it.quantity as nat, 4);
    let e3 = hex_digits(it.amount.mantissa as nat, 16);
    let e4 = hex_digits(it.amount.scale as nat, 2);
    let e5 = enc_chunk(it.currency);
    lemma_hex_round_trip(it.quantity as nat, 4);
    lemma_hex_round_trip(it.amount.mantissa as nat, 16);
    lemma_hex_round_trip(it.amount.scale as nat, 2);
    assert(enc_item(it) =~= e0 + (e1 + (e2 + (e3 + (e4 + e5)))));
    lemma_subrange_split(s, pos, e0, e1 + (e2 + (e3 + (e4 + e5))));
    let p1 = pos + e0.len() as int;
    lemma_subrange_split(s, p1, e1, e2 + (e3 + (e4 + e5)));
    let p2 = p1 + e1.len() as int;
    lemma_subrange_split(s, p2, e2, e3 + (e4 + e5));
    let p3 = p2 + e2.len() as int;
    lemma_subrange_split(s, p3, e3, e4 + e5);
    let p4 = p3 + e3.len() as int;
    lemma_subrange_split(s, p4, e4, e5);
    let p5 = p4 + e4.len() as int;
    lemma_rt_opt_id(s, pos, it.id);
    lemma_rt_chunk(s, p1, it.description);
    lemma_rt_hex(s, p2, it.quantity as nat, 4);
    lemma_rt_hex(s, p3, it.amount.mantissa as nat, 16);
    lemma_rt_hex(s, p4, it.amount.scale as nat, 2);
    lemma_rt_chunk(s, p5, it.currency);
}

/// The item list encoding can also be unfolded from the front.
proof fn lemma_enc_item_list_front(items: Seq<InvoiceItemV>)
    requires
        items.len() > 0,
    ensures
        enc_item_list(items) == enc_item(items[0]) + enc_item_list(items.skip(1)),
    decreases items.len(),
{
    if items.len() == 1 {
        assert(items.drop_last() =~= Seq::<InvoiceItemV>::empty());
        assert(items.skip(1) =~= Seq::<InvoiceItemV>::empty());
        assert(enc_item_list(items) =~= enc_item(items[0]) + enc_item_list(items.skip(1)));
    } else {
        lemma_enc_item_list_front(items.drop_last());
        assert(items.drop_last()[0] == items[0]);
        assert(items.drop_last().skip(1) =~= items.skip(1).drop_last());
        assert(items.skip(1).last() == items.last());
        assert(enc_item_list(items) =~= enc_item(items[0]) + enc_item_list(items.skip(1)));
    }
}

/// Where a stretch of `s` holds `count` encoded items, reading there yields
/// them back.
proof fn lemma_rt_item_list(s: Seq<char>, pos: int, items: Seq<InvoiceItemV>)
    requires
        0 <= pos,
        forall|k: int| 0 <= k < items.len() ==> item_wf(#[trigger] items[k]),
        pos + enc_item_list(items).len() <= s.len(),
        s.subrange(pos, pos + enc_item_list(items).len() as int) == enc_item_list(items),
    ensures
        dec_item_list(s, pos, items.len()) == Some((items, pos + enc_item_list(items).len())),
    decreases items.len(),
{
    if items.len() == 0 {
        assert(dec_item_list(s, pos, 0) == Some((Seq::<InvoiceItemV>::empty(), pos)));
        assert(items =~= Seq::<InvoiceItemV>::empty());
    } else {
        lemma_enc_item_list_front(items);
        let e0 = enc_item(items[0]);
        let rest = enc_item_list(items.skip(1));
        lemma_subrange_split(s, pos, e0, rest);
        lemma_rt_item(s, pos, items[0]);
        lemma_rt_item_list(s, pos + e0.len(), items.skip(1));
        assert(seq![items[0]] + items.skip(1) =~= items);
    }
}

/// Where a stretch of `s` holds a counted item list, reading there yields
/// it back.
proof fn lemma_rt_items(s: Seq<char>, pos: int, items: Seq<InvoiceItemV>)
    requires
        0 <= pos,
        items_wf(items),
        pos + enc_items(items).len() <= s.len(),
        s.subrange(pos, pos + enc_items(items).len() as int) == enc_items(items),
    ensures
        dec_items(s, pos) == Some((items, pos + enc_items(items).len())),
{
    lemma_hex_round_trip(items.len(), 16);
    lemma_subrange_split(s, pos, hex_digits(items.len(), 16), enc_item_list(items));
    lemma_rt_hex(s, pos, items.len(), 16);
    lemma_rt_item_list(s, pos + 16, items);
}

/// Where a stretch of `s` holds an encoded invoice, reading there yields it
/// back.
proof fn lemma_rt_invoice(s: Seq<char>, pos: int, iv: InvoiceV)
    requires
        0 <= pos,
        items_wf(iv.itens),
        pos + enc_invoice(iv).len() <= s.len(),
        s.subrange(pos, pos + enc_invoice(iv).len() as int) == enc_invoice(iv),
    ensures
        dec_invoice(s, pos) == Some((iv, pos + enc_invoice(iv).len())),
{
    lemma_pow16_field_bounds();
    let e0 = hex_digits(iv.id as nat, 32);
    let e1 = hex_digits(iv.user_id as nat, 32);
    let e2 = seq![status_code(iv.status)];
    let e3 = enc_items(iv.itens);
    lemma_hex_round_trip(iv.id as nat, 32);
    lemma_hex_round_trip(iv.user_id as nat, 32);
    assert(enc_invoice(iv) =~= e0 + (e1 + (e2 + e3)));
    lemma_subrange_split(s, pos, e0, e1 + (e2 + e3));
    lemma_subrange_split(s, pos + 32, e1, e2 + e3);
    lemma_subrange_split(s, pos + 64, e2, e3);
    lemma_rt_hex(s, pos, iv.id as nat, 32);
    lemma_rt_hex(s, pos + 32, iv.user_id as nat, 32);
    assert(s.subrange(pos + 64, pos + 65)[0] == s[pos + 64]);
    assert(s[pos + 64] == status_code(iv.status));
    lemma_rt_items(s, pos + 65, iv.itens);
}

/// THE round trip of the cache codec: what the encoder writes of a
/// well-formed response, the decoder reads back, exactly and completely.
pub proof fn lemma_response_round_trip(v: InvoiceInsertItemResponseV)
    requires
        response_wf(v),
    ensures
        dec_response(enc_response(v)) == Some(v),
{
    let s = enc_response(v);
    match v {
        InvoiceInsertItemResponseV::Invoice(iv) => {
            assert(s[0] == 'I');
            assert(s.subrange(1, 1 + enc_invoice(iv).len() as int) =~= enc_invoice(iv));
            lemma_rt_invoice(s, 1, iv);
        },
        InvoiceInsertItemResponseV::Item(items) => {
            assert(s[0] == 'L');
            assert(s.subrange(1, 1 + enc_items(items).len() as int) =~= enc_items(items));
            lemma_rt_items(s, 1, items);
        },
    }
}

/// The tag character of an invoice status, as text.
fn status_code_str(s: InvoiceStatus) -> (r: &'static str)
    ensures
        r@ =~= seq![status_code(s)],
{
    proof {
        reveal_strlit("d");
        reveal_strlit("p");
        reveal_strlit("e");
        reveal_strlit("a");
        reveal_strlit("c");
        reveal_strlit("u");
        reveal_strlit("r");
        reveal_strlit("i");
        reveal_strlit("b");
        reveal_strlit("?");
    }
    match s {
        InvoiceStatus::Draft => "d",
        InvoiceStatus::Pending => "p",
        InvoiceStatus::ChargedWithError => "e",
        InvoiceStatus::Paid => "a",
        InvoiceStatus::Cancelled => "c",
        InvoiceStatus::Uncollectible => "u",
        InvoiceStatus::Refunded => "r",
        InvoiceStatus::InProtest => "i",
        InvoiceStatus::Chargeback => "b",
        InvoiceStatus::UnmappedStatus => "?",
    }
}

/// Appends one serialized item to `out`.
fn encode_item_into(out: &mut String, it: &InvoiceItem)
    ensures
        final(out)@ == old(out)@ + enc_item(it@),
        item_wf(it@),
{
    match &it.id {
        None => {
            proof {
                reveal_strlit("n");
            }
            out.append("n");
        },
        Some(v) => {
            proof {
                reveal_strlit("s");
            }
            out.append("s");
            let hex = encode_hex(*v, 32);
            out.append(hex.as_str());
        },
    }
    let dlen = it.description.as_str().unicode_len();
    out.append(encode_hex(dlen as u128, 16).as_str());
    out.append(it.description.as_str());
    out.append(encode_hex(it.quantity as u128, 4).as_str());
    out.append(encode_hex(it.amount.mantissa as u128, 16).as_str());
    out.append(encode_hex(it.amount.scale as u128, 2).as_str());
    let clen = it.currency.as_str().unicode_len();
    out.append(encode_hex(clen as u128, 16).as_str());
    out.append(it.currency.as_str());
    proof {
        crate::hexfmt::lemma_pow16_le(16, 16);
        reveal_with_fuel(pow16, 17);
        assert(pow16(16) == 0x10000000000000000nat);
        assert(final(out)@ =~= old(out)@ + enc_item(it@));
    }
}

/// Appends a counted item list to `out`.
fn encode_items_into(out: &mut String, items: &Vec<InvoiceItem>)
    ensures
        final(out)@ == old(out)@ + enc_items(crate::store::item_views(items@)),
        items_wf(crate::store::item_views(items@)),
{
    let n = items.len();
    out.append(encode_hex(n as u128, 16).as_str());
    let ghost views = crate::store::item_views(items@);
    let mut i: usize = 0;
    proof {
        reveal_with_fuel(pow16, 17);
        assert(pow16(16) == 0x10000000000000000nat);
        assert(enc_item_list(views.take(0)) =~= Seq::<char>::empty());
        assert(out@ =~= old(out)@ + hex_digits(views.len(), 16) + enc_item_list(views.take(0)));
    }
    while i < n
        invariant
            i <= n,
            n == items.len(),
            views == crate::store::item_views(items@),
            views.len() == n,
            out@ == old(out)@ + hex_digits(views.len(), 16) + enc_item_list(views.take(i as int)),
            forall|k: int| 0 <= k < i ==> item_wf(#[trigger] views[k]),
        decreases n - i,
    {
        encode_item_into(out, &items[i]);
        proof {
            let t1 = views.take(i + 1 as int);
            assert(t1.drop_last() =~= views.take(i as int));
            assert(t1.last() == views[i as int]);
            assert(views[i as int] == items@[i as int]@);
            assert(out@ =~= old(out)@ + hex_digits(views.len(), 16) + enc_item_list(t1));
        }
        i = i + 1;
    }
    proof {
        assert(views.take(n as int) =~= views);
    }
}

/// Appends one serialized invoice to `out`.
fn encode_invoice_into(out: &mut String, inv: &Invoice)
    ensures
        final(out)@ == old(out)@ + enc_invoice(inv@),
        items_wf(inv@.itens),
{
    out.append(encode_hex(inv.id, 32).as_str());
    out.append(encode_hex(inv.user_id, 32).as_str());
    out.append(status_code_str(inv.status));
    encode_items_into(out, &inv.itens);
    proof {
        assert(final(out)@ =~= old(out)@ + enc_invoice(inv@));
    }
}

/// The invoice status a tag character names, if any.
fn status_of_code(c: char) -> (r: Option<InvoiceStatus>)
    ensures
        r == code_status(c),
{
    match c {
        'd' => Some(InvoiceStatus::Draft),
        'p' => Some(InvoiceStatus::Pending),
        'e' => Some(InvoiceStatus::ChargedWithError),
        'a' => Some(InvoiceStatus::Paid),
        'c' => Some(InvoiceStatus::Cancelled),
        'u' => Some(InvoiceStatus::Uncollectible),
        'r' => Some(InvoiceStatus::Refunded),
        'i' => Some(InvoiceStatus::InProtest),
        'b' => Some(InvoiceStatus::Chargeback),
        '?' => Some(InvoiceStatus::UnmappedStatus),
        _ => None,
    }
}

/// Reads an optional item id.
fn decode_opt_id(s: &str, pos: usize) -> (r: Option<(Option<u128>, usize)>)
    ensures
        match (r, dec_opt_id(s@, pos as int)) {
            (Some((id, p)), Some((idv, pv))) => id == idv && p as int == pv,
            (None, None) => true,
            _ => false,
        },
{
    let n = s.unicode_len();
    if pos >= n {
        return None;
    }
    let c = s.get_char(pos);
    if c == 'n' {
        Some((None, pos + 1))
    } else if c == 's' {
        if n - pos - 1 < 32 {
            return None;
        }
        match decode_hex(s, pos + 1, 32) {
            Some(v) => Some((Some(v), pos + 33)),
            None => None,
        }
    } else {
        None
    }
}

/// Reads length-prefixed character data.
fn decode_chunk(s: &str, pos: usize) -> (r: Option<(String, usize)>)
    ensures
        match (r, dec_chunk(s@, pos as int)) {
            (Some((t, p)), Some((v, pv))) => t@ == v && p as int == pv,
            (None, None) => true,
            _ => false,
        },
{
    let n = s.unicode_len();
    if pos > n || n - pos < 16 {
        return None;
    }
    let l = match decode_hex(s, pos, 16) {
        Some(l) => l,
        None => {
            return None;
        },
    };
    let rem = n - (pos + 16);
    if l > rem as u128 {
        return None;
    }
    let li = l as usize;
    let t = s.substring_char(pos + 16, pos + 16 + li).to_owned();
    Some((t, pos + 16 + li))
}

/// Reads one item.
fn decode_item(s: &str, pos: usize) -> (r: Option<(InvoiceItem, usize)>)
    ensures
        match (r, dec_item(s@, pos as int)) {
            (Some((it, p)), Some((itv, pv))) => it@ == itv && p as int == pv,
            (None, None) => true,
            _ => false,
        },
{
    let (id, p1) = match decode_opt_id(s, pos) {
        Some(x) => x,
        None => {
            return None;
        },
    };
    let (desc, p2) = match decode_chunk(s, p1) {
        Some(x) => x,
        None => {
            return None;
        },
    };
    let n = s.unicode_len();
    if p2 > n || n - p2 < 22 {
        proof {
            if p2 + 4 <= s@.len() {
                if p2 + 20 <= s@.len() {
                    assert(p2 + 22 > s@.len());
                }
            }
        }
        return None;
    }
    let q = match decode_hex(s, p2, 4) {
        Some(x) => x,
        None => {
            return None;
        },
    };
    let m = match decode_hex(s, p2 + 4, 16) {
        Some(x) => x,
        None => {
            return None;
        },
    };
    let sc = match decode_hex(s, p2 + 20, 2) {
        Some(x) => x,
        None => {
            return None;
        },
    };
    let (cur, p3) = match decode_chunk(s, p2 + 22) {
        Some(x) => x,
        None => {
            return None;
        },
    };
    proof {
        lemma_pow16_field_bounds();
        lemma_hex_value_bound(s@.subrange(p2 as int, p2 as int + 4));
        lemma_hex_value_bound(s@.subrange(p2 as int + 4, p2 as int + 20));
        lemma_hex_value_bound(s@.subrange(p2 as int + 20, p2 as int + 22));
    }
    let it = InvoiceItem {
        id: id,
        description: desc,
        quantity: q as u16,
        amount: Amount { mantissa: m as u64, scale: sc as u8 },
        currency: cur,
    };
    Some((it, p3))
}

/// Reads `count` items, one after the other.
fn decode_item_list(s: &str, pos: usize, count: u128) -> (r: Option<(Vec<InvoiceItem>, usize)>)
    ensures
        match (r, dec_item_list(s@, pos as int, count as nat)) {
            (Some((v, p)), Some((sv, pv))) => crate::store::item_views(v@) == sv && p as int
                == pv,
            (None, None) => true,
            _ => false,
        },
    decreases count,
{
    if count == 0 {
        let empty: Vec<InvoiceItem> = Vec::new();
        proof {
            assert(crate::store::item_views(empty@) =~= Seq::<InvoiceItemV>::empty());
        }
        return Some((empty, pos));
    }
    let (it, p1) = match decode_item(s, pos) {
        Some(x) => x,
        None => {
            return None;
        },
    };
    let (mut rest, p2) = match decode_item_list(s, p1, count - 1) {
        Some(x) => x,
        None => {
            return None;
        },
    };
    let ghost rest_views = crate::store::item_views(rest@);
    let ghost itv = it@;
    rest.insert(0, it);
    proof {
        assert(crate::store::item_views(rest@) =~= seq![itv] + rest_views);
    }
    Some((rest, p2))
}

/// Reads a counted item list.
fn decode_items(s: &str, pos: usize) -> (r: Option<(Vec<InvoiceItem>, usize)>)
    ensures
        match (r, dec_items(s@, pos as int)) {
            (Some((v, p)), Some((sv, pv))) => crate::store::item_views(v@) == sv && p as int
                == pv,
            (None, None) => true,
            _ => false,
        },
{
    let n = s.unicode_len();
    if pos > n || n - pos < 16 {
        return None;
    }
    let c = match decode_hex(s, pos, 16) {
        Some(c) => c,
        None => {
            return None;
        },
    };
    decode_item_list(s, pos + 16, c)
}

/// Reads one invoice.
fn decode_invoice(s: &str, pos: usize) -> (r: Option<(Invoice, usize)>)
    ensures
        match (r, dec_invoice(s@, pos as int)) {
            (Some((inv, p)), Some((iv, pv))) => inv@ == iv && p as int == pv,
            (None, None) => true,
            _ => false,
        },
{
    let n = s.unicode_len();
    if pos > n || n - pos < 65 {
        return None;
    }
    let id = match decode_hex(s, pos, 32) {
        Some(x) => x,
        None => {
            return None;
        },
    };
    let uid = match decode_hex(s, pos + 32, 32) {
        Some(x) => x,
        None => {
            return None;
        },
    };
    let st = match status_of_code(s.get_char(pos + 64)) {
        Some(x) => x,
        None => {
            return None;
        },
    };
    let (items, p) = match decode_items(s, pos + 65) {
        Some(x) => x,
        None => {
            return None;
        },
    };
    let inv = Invoice { id: id, user_id: uid, status: st, itens: items };
    Some((inv, p))
}

/// Reads a whole serialized response back, or nothing where the text is no
/// encoding.
pub(crate) fn decode_response(s: &str) -> (r: Option<InvoiceInsertItemResponse>)
    ensures
        match (r, dec_response(s@)) {
            (Some(resp), Some(v)) => resp@ == v,
            (None, None) => true,
            _ => false,
        },
{
    let n = s.unicode_len();
    if n == 0 {
        return None;
    }
    let tag = s.get_char(0);
    if tag == 'I' {
        match decode_invoice(s, 1) {
            Some((inv, p)) => if p == n {
                Some(InvoiceInsertItemResponse::Invoice(inv))
            } else {
                None
            },
            None => None,
        }
    } else if tag == 'L' {
        match decode_items(s, 1) {
            Some((items, p)) => if p == n {
                Some(InvoiceInsertItemResponse::Item(items))
            } else {
                None
            },
            None => None,
        }
    } else {
        None
    }
}

/// Serializes a response for the idempotency cache.
pub(crate) fn encode_response(resp: &InvoiceInsertItemResponse) -> (r: String)
    ensures
        r@ == enc_response(resp@),
        response_wf(resp@),
{
    let mut out = String::new();
    match resp {
        InvoiceInsertItemResponse::Invoice(inv) => {
            proof {
                reveal_strlit("I");
            }
            out.append("I");
            encode_invoice_into(&mut out, inv);
            proof {
                assert(out@ =~= enc_response(resp@));
            }
        },
        InvoiceInsertItemResponse::Item(items) => {
            proof {
                reveal_strlit("L");
            }
            out.append("L");
            encode_items_into(&mut out, items);
            proof {
                assert(out@ =~= enc_response(resp@));
            }
        },
    }
    out
}

} // verus!
