//! Byte-level codec for the live-update protocol frames.
//!
//! Inbound control frames are JSON objects with exactly the members
//! `"type"` (the discriminator: `subscribe` or `unsubscribe`) and
//! `"channel"`, in either order, with optional blanks between tokens.
//! String tokens are taken literally — the two frames need no escape
//! sequences, so a frame using any is simply malformed.  The decoder
//! accepts exactly this grammar; everything else is reported as a
//! malformed frame, which the actor answers with an `err` frame while the
//! connection stays open.
//!
//! Outbound frames are encoded canonically, without blanks, with string
//! payloads escaped byte for byte.

use vstd::prelude::*;

use crate::listing::{Listing, ListingView};
use crate::protocol::{Channel, InboundMsg, OutboundMsg, OutboundMsgView};

verus! {

/// A blank byte the decoder skips between tokens.
pub open spec fn is_ws(b: u8) -> bool {
    b == 32 || b == 9 || b == 10 || b == 13
}

/// First index at or after `i` holding a non-blank byte (or the end).
pub open spec fn skip_ws(s: Seq<u8>, i: int) -> int
    decreases s.len() - i,
{
    if 0 <= i < s.len() && is_ws(s[i]) {
        skip_ws(s, i + 1)
    } else {
        i
    }
}

/// First index at or after `i` holding a double quote, if any.
pub open spec fn find_quote(s: Seq<u8>, i: int) -> Option<int>
    decreases s.len() - i,
{
    if i < 0 || i >= s.len() {
        None
    } else if s[i] == 34 {
        Some(i)
    } else {
        find_quote(s, i + 1)
    }
}

/// One `"key" : "value"` member starting at or after `i`: its key bytes,
/// its value bytes, and the index just past the closing quote.
pub open spec fn spec_pair(s: Seq<u8>, i: int) -> Option<(Seq<u8>, Seq<u8>, int)> {
    let a = skip_ws(s, i);
    if a >= s.len() || s[a] != 34 {
        None
    } else {
        match find_quote(s, a + 1) {
            None => None,
            Some(ke) => {
                let c = skip_ws(s, ke + 1);
                if c >= s.len() || s[c] != 58 {
                    None
                } else {
                    let b = skip_ws(s, c + 1);
                    if b >= s.len() || s[b] != 34 {
                        None
                    } else {
                        match find_quote(s, b + 1) {
                            None => None,
                            Some(ve) => Some(
                                (s.subrange(a + 1, ke), s.subrange(b + 1, ve), ve + 1),
                            ),
                        }
                    }
                }
            }
        }
    }
}

/// The bytes of `type`.
pub open spec fn txt_type() -> Seq<u8> {
    seq![116u8, 121u8, 112u8, 101u8]
}

/// The bytes of `channel`.
pub open spec fn txt_channel() -> Seq<u8> {
    seq![99u8, 104u8, 97u8, 110u8, 110u8, 101u8, 108u8]
}

/// The bytes of `subscribe`.
pub open spec fn txt_subscribe() -> Seq<u8> {
    seq![115u8, 117u8, 98u8, 115u8, 99u8, 114u8, 105u8, 98u8, 101u8]
}

/// The bytes of `unsubscribe`.
pub open spec fn txt_unsubscribe() -> Seq<u8> {
    seq![117u8, 110u8] + txt_subscribe()
}

/// The bytes of `listings`.
pub open spec fn txt_listings() -> Seq<u8> {
    seq![108u8, 105u8, 115u8, 116u8, 105u8, 110u8, 103u8, 115u8]
}

/// The channel a wire name denotes, if any.
pub open spec fn spec_channel_of(v: Seq<u8>) -> Option<Channel> {
    if v == txt_listings() {
        Some(Channel::Listings)
    } else {
        None
    }
}

/// The message denoted by a `type` value and a `channel` value.
pub open spec fn spec_msg_of(tv: Seq<u8>, cv: Seq<u8>) -> Option<InboundMsg> {
    match spec_channel_of(cv) {
        None => None,
        Some(channel) => if tv == txt_subscribe() {
            Some(InboundMsg::Subscribe { channel })
        } else if tv == txt_unsubscribe() {
            Some(InboundMsg::Unsubscribe { channel })
        } else {
            None
        },
    }
}

/// The message denoted by the two members of a frame, keyed either way
/// round.  A frame that repeats a key or uses any other key denotes
/// nothing.
pub open spec fn spec_msg_of_pairs(
    k1: Seq<u8>,
    v1: Seq<u8>,
    k2: Seq<u8>,
    v2: Seq<u8>,
) -> Option<InboundMsg> {
    if k1 == txt_type() && k2 == txt_channel() {
        spec_msg_of(v1, v2)
    } else if k1 == txt_channel() && k2 == txt_type() {
        spec_msg_of(v2, v1)
    } else {
        None
    }
}

/// The control message a whole frame denotes: an object of exactly two
/// members, `type` and `channel` in either order, and nothing but blanks
/// after the closing brace.
pub open spec fn spec_parse_frame(s: Seq<u8>) -> Option<InboundMsg> {
    let a = skip_ws(s, 0);
    if a >= s.len() || s[a] != 123 {
        None
    } else {
        match spec_pair(s, a + 1) {
            None => None,
            Some((k1, v1, i1)) => {
                let c = skip_ws(s, i1);
                if c >= s.len() || s[c] != 44 {
                    None
                } else {
                    match spec_pair(s, c + 1) {
                        None => None,
                        Some((k2, v2, i2)) => {
                            let e = skip_ws(s, i2);
                            if e >= s.len() || s[e] != 125 {
                                None
                            } else if skip_ws(s, e + 1) != s.len() {
                                None
                            } else {
                                spec_msg_of_pairs(k1, v1, k2, v2)
                            }
                        }
                    }
                }
            }
        }
    }
}

/// Decimal digits of `n`, most significant first.
pub open spec fn dec_digits(n: nat) -> Seq<u8>
    decreases n,
{
    if n < 10 {
        seq![(48 + n) as u8]
    } else {
        dec_digits(n / 10).push((48 + n % 10) as u8)
    }
}

/// A hexadecimal digit, lower case.
pub open spec fn hex_digit(n: nat) -> u8 {
    if n < 10 {
        (48 + n) as u8
    } else {
        (87 + n) as u8
    }
}

/// One payload byte as it stands inside a JSON string: quotes and
/// backslashes escaped, printable ASCII kept, everything else written as
/// a `\u00..` escape of the byte value.
pub open spec fn esc_byte(b: u8) -> Seq<u8> {
    if b == 34 {
        seq![92u8, 34u8]
    } else if b == 92 {
        seq![92u8, 92u8]
    } else if 32 <= b < 127 {
        seq![b]
    } else {
        seq![92u8, 117u8, 48u8, 48u8, hex_digit((b >> 4) as nat), hex_digit((b & 15) as nat)]
    }
}

/// A whole payload escaped for a JSON string, byte for byte.
pub open spec fn json_escape(s: Seq<u8>) -> Seq<u8>
    decreases s.len(),
{
    if s.len() == 0 {
        Seq::empty()
    } else {
        esc_byte(s[0]) + json_escape(s.drop_first())
    }
}

/// Why a frame was refused.
#[derive(Clone, Copy, PartialEq, Eq, Structural, Debug)]
pub enum DecodeError {
    /// The bytes do not form a control frame of the grammar above.
    Malformed,
}

/// First non-blank position at or after `i`.
fn skip_ws_exec(s: &Vec<u8>, i: usize) -> (j: usize)
    requires
        i <= s@.len(),
    ensures
        j == skip_ws(s@, i as int),
        i <= j <= s@.len(),
{
    let mut j: usize = i;
    while j < s.len() && (s[j] == 32 || s[j] == 9 || s[j] == 10 || s[j] == 13)
        invariant
            i <= j <= s@.len(),
            skip_ws(s@, i as int) == skip_ws(s@, j as int),
        decreases s@.len() - j,
    {
        j = j + 1;
    }
    j
}

/// Position of the next double quote at or after `i`, if any.
fn find_quote_exec(s: &Vec<u8>, i: usize) -> (r: Option<usize>)
    requires
        i <= s@.len(),
    ensures
        match r {
            Some(j) => find_quote(s@, i as int) == Some(j as int) && i <= j < s@.len(),
            None => find_quote(s@, i as int) is None,
        },
{
    let mut j: usize = i;
    while j < s.len() && s[j] != 34
        invariant
            i <= j <= s@.len(),
            find_quote(s@, i as int) == find_quote(s@, j as int),
        decreases s@.len() - j,
    {
        j = j + 1;
    }
    if j < s.len() {
        Some(j)
    } else {
        None
    }
}

/// Whether the bytes `s[a..b]` spell exactly `w`.
fn span_is(s: &Vec<u8>, a: usize, b: usize, w: &Vec<u8>) -> (r: bool)
    requires
        a <= b <= s@.len(),
    ensures
        r == (s@.subrange(a as int, b as int) == w@),
{
    if b - a != w.len() {
        proof {
            assert(s@.subrange(a as int, b as int).len() != w@.len());
        }
        return false;
    }
    let mut k: usize = 0;
    while k < w.len()
        invariant
            a <= b <= s@.len(),
            b - a == w@.len(),
            k <= w@.len(),
            forall|t: int| 0 <= t < k ==> s@.subrange(a as int, b as int)[t] == w@[t],
        decreases w@.len() - k,
    {
        if s[a + k] != w[k] {
            proof {
                assert(s@.subrange(a as int, b as int)[k as int] != w@[k as int]);
            }
            return false;
        }
        k = k + 1;
    }
    proof {
        assert(s@.subrange(a as int, b as int) =~= w@);
    }
    true
}

/// The bytes of `type`.
fn tok_type() -> (v: Vec<u8>)
    ensures
        v@ == txt_type(),
{
    let mut v: Vec<u8> = Vec::new();
    v.push(116);
    v.push(121);
    v.push(112);
    v.push(101);
    proof {
        assert(v@ =~= txt_type());
    }
    v
}

/// The bytes of `channel`.
fn tok_channel() -> (v: Vec<u8>)
    ensures
        v@ == txt_channel(),
{
    let mut v: Vec<u8> = Vec::new();
    v.push(99);
    v.push(104);
    v.push(97);
    v.push(110);
    v.push(110);
    v.push(101);
    v.push(108);
    proof {
        assert(v@ =~= txt_channel());
    }
    v
}

/// The bytes of `subscribe`.
fn tok_subscribe() -> (v: Vec<u8>)
    ensures
        v@ == txt_subscribe(),
{
    let mut v: Vec<u8> = Vec::new();
    v.push(115);
    v.push(117);
    v.push(98);
    v.push(115);
    v.push(99);
    v.push(114);
    v.push(105);
    v.push(98);
    v.push(101);
    proof {
        assert(v@ =~= txt_subscribe());
    }
    v
}

/// The bytes of `unsubscribe`.
fn tok_unsubscribe() -> (v: Vec<u8>)
    ensures
        v@ == txt_unsubscribe(),
{
    let mut v: Vec<u8> = Vec::new();
    v.push(117);
    v.push(110);
    v.push(115);
    v.push(117);
    v.push(98);
    v.push(115);
    v.push(99);
    v.push(114);
    v.push(105);
    v.push(98);
    v.push(101);
    proof {
        assert(v@ =~= txt_unsubscribe());
    }
    v
}

/// The bytes of `listings`.
fn tok_listings() -> (v: Vec<u8>)
    ensures
        v@ == txt_listings(),
{
    let mut v: Vec<u8> = Vec::new();
    v.push(108);
    v.push(105);
    v.push(115);
    v.push(116);
    v.push(105);
    v.push(110);
    v.push(103);
    v.push(115);
    proof {
        assert(v@ =~= txt_listings());
    }
    v
}

/// One `"key":"value"` member: the two spans and the index past it.
fn parse_pair(s: &Vec<u8>, i: usize) -> (r: Option<(usize, usize, usize, usize, usize)>)
    requires
        i <= s@.len(),
    ensures
        match r {
            Some((ks, ke, vs, ve, nx)) => {
                &&& ks <= ke <= s@.len()
                &&& vs <= ve <= s@.len()
                &&& nx <= s@.len()
                &&& spec_pair(s@, i as int) == Some(
                    (
                        s@.subrange(ks as int, ke as int),
                        s@.subrange(vs as int, ve as int),
                        nx as int,
                    ),
                )
            },
            None => spec_pair(s@, i as int) is None,
        },
{
    let a = skip_ws_exec(s, i);
    if a >= s.len() || s[a] != 34 {
        return None;
    }
    let ke = match find_quote_exec(s, a + 1) {
        Some(j) => j,
        None => {
            return None;
        }
    };
    let c = skip_ws_exec(s, ke + 1);
    if c >= s.len() || s[c] != 58 {
        return None;
    }
    let b = skip_ws_exec(s, c + 1);
    if b >= s.len() || s[b] != 34 {
        return None;
    }
    let ve = match find_quote_exec(s, b + 1) {
        Some(j) => j,
        None => {
            return None;
        }
    };
    Some((a + 1, ke, b + 1, ve, ve + 1))
}

/// Decodes one inbound control frame.  Succeeds with the message exactly
/// when the bytes match the documented grammar, and reports a malformed
/// frame otherwise.
pub fn parse_frame(s: &Vec<u8>) -> (r: Result<InboundMsg, DecodeError>)
    ensures
        r matches Ok(m) ==> spec_parse_frame(s@) == Some(m),
        r is Err <==> spec_parse_frame(s@) is None,
{
    let a = skip_ws_exec(s, 0);
    if a >= s.len() || s[a] != 123 {
        return Err(DecodeError::Malformed);
    }
    let (k1s, k1e, v1s, v1e, i1) = match parse_pair(s, a + 1) {
        Some(p) => p,
        None => {
            return Err(DecodeError::Malformed);
        }
    };
    let c = skip_ws_exec(s, i1);
    if c >= s.len() || s[c] != 44 {
        return Err(DecodeError::Malformed);
    }
    let (k2s, k2e, v2s, v2e, i2) = match parse_pair(s, c + 1) {
        Some(p) => p,
        None => {
            return Err(DecodeError::Malformed);
        }
    };
    let e = skip_ws_exec(s, i2);
    if e >= s.len() || s[e] != 125 {
        return Err(DecodeError::Malformed);
    }
    if skip_ws_exec(s, e + 1) != s.len() {
        return Err(DecodeError::Malformed);
    }
    let key_type = tok_type();
    let key_channel = tok_channel();
    let (ts, te, cs, ce) = if span_is(s, k1s, k1e, &key_type) && span_is(s, k2s, k2e, &key_channel) {
        (v1s, v1e, v2s, v2e)
    } else if span_is(s, k1s, k1e, &key_channel) && span_is(s, k2s, k2e, &key_type) {
        (v2s, v2e, v1s, v1e)
    } else {
        return Err(DecodeError::Malformed);
    };
    if !span_is(s, cs, ce, &tok_listings()) {
        return Err(DecodeError::Malformed);
    }
    let channel = Channel::Listings;
    if span_is(s, ts, te, &tok_subscribe()) {
        Ok(InboundMsg::Subscribe { channel })
    } else if span_is(s, ts, te, &tok_unsubscribe()) {
        Ok(InboundMsg::Unsubscribe { channel })
    } else {
        Err(DecodeError::Malformed)
    }
}

/// The bytes of `{"type":"`.
pub open spec fn txt_frame_type_prefix() -> Seq<u8> {
    seq![123u8, 34u8, 116u8, 121u8, 112u8, 101u8, 34u8, 58u8, 34u8]
}

/// The bytes of `","channel":"`.
pub open spec fn txt_mid_channel() -> Seq<u8> {
    seq![34u8, 44u8, 34u8, 99u8, 104u8, 97u8, 110u8, 110u8, 101u8, 108u8, 34u8, 58u8, 34u8]
}

/// The bytes of `"}`.
pub open spec fn txt_end_str_obj() -> Seq<u8> {
    seq![34u8, 125u8]
}

/// The bytes of `{"type":"err","message":"`.
pub open spec fn txt_err_prefix() -> Seq<u8> {
    seq![123u8, 34u8, 116u8, 121u8, 112u8, 101u8, 34u8, 58u8, 34u8, 101u8, 114u8, 114u8, 34u8, 44u8, 34u8, 109u8, 101u8, 115u8, 115u8, 97u8, 103u8, 101u8, 34u8, 58u8, 34u8]
}

/// The bytes of `{"type":"listings","listings":[`.
pub open spec fn txt_batch_prefix() -> Seq<u8> {
    seq![123u8, 34u8, 116u8, 121u8, 112u8, 101u8, 34u8, 58u8, 34u8, 108u8, 105u8, 115u8, 116u8, 105u8, 110u8, 103u8, 115u8, 34u8, 44u8, 34u8, 108u8, 105u8, 115u8, 116u8, 105u8, 110u8, 103u8, 115u8, 34u8, 58u8, 91u8]
}

/// The bytes of `]}`.
pub open spec fn txt_batch_close() -> Seq<u8> {
    seq![93u8, 125u8]
}

/// The bytes of `{"id":`.
pub open spec fn txt_l_id() -> Seq<u8> {
    seq![123u8, 34u8, 105u8, 100u8, 34u8, 58u8]
}

/// The bytes of `,"last_server_restart":`.
pub open spec fn txt_l_restart() -> Seq<u8> {
    seq![44u8, 34u8, 108u8, 97u8, 115u8, 116u8, 95u8, 115u8, 101u8, 114u8, 118u8, 101u8, 114u8, 95u8, 114u8, 101u8, 115u8, 116u8, 97u8, 114u8, 116u8, 34u8, 58u8]
}

/// The bytes of `,"created_world":`.
pub open spec fn txt_l_created_world() -> Seq<u8> {
    seq![44u8, 34u8, 99u8, 114u8, 101u8, 97u8, 116u8, 101u8, 100u8, 95u8, 119u8, 111u8, 114u8, 108u8, 100u8, 34u8, 58u8]
}

/// The bytes of `,"home_world":`.
pub open spec fn txt_l_home_world() -> Seq<u8> {
    seq![44u8, 34u8, 104u8, 111u8, 109u8, 101u8, 95u8, 119u8, 111u8, 114u8, 108u8, 100u8, 34u8, 58u8]
}

/// The bytes of `,"current_world":`.
pub open spec fn txt_l_current_world() -> Seq<u8> {
    seq![44u8, 34u8, 99u8, 117u8, 114u8, 114u8, 101u8, 110u8, 116u8, 95u8, 119u8, 111u8, 114u8, 108u8, 100u8, 34u8, 58u8]
}

/// The bytes of `,"seconds_remaining":`.
pub open spec fn txt_l_seconds() -> Seq<u8> {
    seq![44u8, 34u8, 115u8, 101u8, 99u8, 111u8, 110u8, 100u8, 115u8, 95u8, 114u8, 101u8, 109u8, 97u8, 105u8, 110u8, 105u8, 110u8, 103u8, 34u8, 58u8]
}

/// The bytes of `,"category":`.
pub open spec fn txt_l_category() -> Seq<u8> {
    seq![44u8, 34u8, 99u8, 97u8, 116u8, 101u8, 103u8, 111u8, 114u8, 121u8, 34u8, 58u8]
}

/// The bytes of `,"search_area":`.
pub open spec fn txt_l_search_area() -> Seq<u8> {
    seq![44u8, 34u8, 115u8, 101u8, 97u8, 114u8, 99u8, 104u8, 95u8, 97u8, 114u8, 101u8, 97u8, 34u8, 58u8]
}

/// The bytes of `,"name":"`.
pub open spec fn txt_l_name() -> Seq<u8> {
    seq![44u8, 34u8, 110u8, 97u8, 109u8, 101u8, 34u8, 58u8, 34u8]
}

/// The bytes of `","description":"`.
pub open spec fn txt_l_description() -> Seq<u8> {
    seq![34u8, 44u8, 34u8, 100u8, 101u8, 115u8, 99u8, 114u8, 105u8, 112u8, 116u8, 105u8, 111u8, 110u8, 34u8, 58u8, 34u8]
}

/// The bytes of `subscribed`.
pub open spec fn txt_subscribed() -> Seq<u8> {
    txt_subscribe() + seq![100u8]
}

/// The bytes of `unsubscribed`.
pub open spec fn txt_unsubscribed() -> Seq<u8> {
    txt_unsubscribe() + seq![100u8]
}

/// The wire name of a channel.
pub open spec fn channel_text(ch: Channel) -> Seq<u8> {
    match ch {
        Channel::Listings => txt_listings(),
    }
}

/// One listing as a canonical JSON object.
pub open spec fn spec_encode_listing(l: ListingView) -> Seq<u8> {
    txt_l_id() + dec_digits(l.id as nat) + txt_l_restart() + dec_digits(
        l.last_server_restart as nat,
    ) + txt_l_created_world() + dec_digits(l.created_world as nat) + txt_l_home_world()
        + dec_digits(l.home_world as nat) + txt_l_current_world() + dec_digits(
        l.current_world as nat,
    ) + txt_l_seconds() + dec_digits(l.seconds_remaining as nat) + txt_l_category() + dec_digits(
        l.category as nat,
    ) + txt_l_search_area() + dec_digits(l.search_area as nat) + txt_l_name() + json_escape(l.name)
        + txt_l_description() + json_escape(l.description) + txt_end_str_obj()
}

/// The comma-led encodings of every batch element after the first.
pub open spec fn spec_encode_batch_tail(ls: Seq<ListingView>) -> Seq<u8>
    decreases ls.len(),
{
    if ls.len() == 0 {
        Seq::empty()
    } else {
        seq![44u8] + spec_encode_listing(ls[0]) + spec_encode_batch_tail(ls.drop_first())
    }
}

/// A whole batch, comma separated.
pub open spec fn spec_encode_batch(ls: Seq<ListingView>) -> Seq<u8> {
    if ls.len() == 0 {
        Seq::empty()
    } else {
        spec_encode_listing(ls[0]) + spec_encode_batch_tail(ls.drop_first())
    }
}

/// One outbound frame, canonically encoded.
pub open spec fn spec_encode_outbound(m: OutboundMsgView) -> Seq<u8> {
    match m {
        OutboundMsgView::Subscribed { channel } => txt_frame_type_prefix() + txt_subscribed()
            + txt_mid_channel() + channel_text(channel) + txt_end_str_obj(),
        OutboundMsgView::Unsubscribed { channel } => txt_frame_type_prefix() + txt_unsubscribed()
            + txt_mid_channel() + channel_text(channel) + txt_end_str_obj(),
        OutboundMsgView::Listings { listings } => txt_batch_prefix() + spec_encode_batch(listings)
            + txt_batch_close(),
        OutboundMsgView::Error { message } => txt_err_prefix() + json_escape(message)
            + txt_end_str_obj(),
    }
}

/// The bytes of `{"type":"`.
fn tok_frame_type_prefix() -> (v: Vec<u8>)
    ensures
        v@ == txt_frame_type_prefix(),
{
    let mut v: Vec<u8> = Vec::new();
    v.push(123);
    v.push(34);
    v.push(116);
    v.push(121);
    v.push(112);
    v.push(101);
    v.push(34);
    v.push(58);
    v.push(34);
    proof {
        assert(v@ =~= txt_frame_type_prefix());
    }
    v
}

/// The bytes of `","channel":"`.
fn tok_mid_channel() -> (v: Vec<u8>)
    ensures
        v@ == txt_mid_channel(),
{
    let mut v: Vec<u8> = Vec::new();
    v.push(34);
    v.push(44);
    v.push(34);
    v.push(99);
    v.push(104);
    v.push(97);
    v.push(110);
    v.push(110);
    v.push(101);
    v.push(108);
    v.push(34);
    v.push(58);
    v.push(34);
    proof {
        assert(v@ =~= txt_mid_channel());
    }
    v
}

/// The bytes of `"}`.
fn tok_end_str_obj() -> (v: Vec<u8>)
    ensures
        v@ == txt_end_str_obj(),
{
    let mut v: Vec<u8> = Vec::new();
    v.push(34);
    v.push(125);
    proof {
        assert(v@ =~= txt_end_str_obj());
    }
    v
}

/// The bytes of `{"type":"err","message":"`.
fn tok_err_prefix() -> (v: Vec<u8>)
    ensures
        v@ == txt_err_prefix(),
{
    let mut v: Vec<u8> = Vec::new();
    v.push(123);
    v.push(34);
    v.push(116);
    v.push(121);
    v.push(112);
    v.push(101);
    v.push(34);
    v.push(58);
    v.push(34);
    v.push(101);
    v.push(114);
    v.push(114);
    v.push(34);
    v.push(44);
    v.push(34);
    v.push(109);
    v.push(101);
    v.push(115);
    v.push(115);
    v.push(97);
    v.push(103);
    v.push(101);
    v.push(34);
    v.push(58);
    v.push(34);
    proof {
        assert(v@ =~= txt_err_prefix());
    }
    v
}

/// The bytes of `{"type":"listings","listings":[`.
fn tok_batch_prefix() -> (v: Vec<u8>)
    ensures
        v@ == txt_batch_prefix(),
{
    let mut v: Vec<u8> = Vec::new();
    v.push(123);
    v.push(34);
    v.push(116);
    v.push(121);
    v.push(112);
    v.push(101);
    v.push(34);
    v.push(58);
    v.push(34);
    v.push(108);
    v.push(105);
    v.push(115);
    v.push(116);
    v.push(105);
    v.push(110);
    v.push(103);
    v.push(115);
    v.push(34);
    v.push(44);
    v.push(34);
    v.push(108);
    v.push(105);
    v.push(115);
    v.push(116);
    v.push(105);
    v.push(110);
    v.push(103);
    v.push(115);
    v.push(34);
    v.push(58);
    v.push(91);
    proof {
        assert(v@ =~= txt_batch_prefix());
    }
    v
}

/// The bytes of `]}`.
fn tok_batch_close() -> (v: Vec<u8>)
    ensures
        v@ == txt_batch_close(),
{
    let mut v: Vec<u8> = Vec::new();
    v.push(93);
    v.push(125);
    proof {
        assert(v@ =~= txt_batch_close());
    }
    v
}

/// The bytes of `{"id":`.
fn tok_l_id() -> (v: Vec<u8>)
    ensures
        v@ == txt_l_id(),
{
    let mut v: Vec<u8> = Vec::new();
    v.push(123);
    v.push(34);
    v.push(105);
    v.push(100);
    v.push(34);
    v.push(58);
    proof {
        assert(v@ =~= txt_l_id());
    }
    v
}

/// The bytes of `,"last_server_restart":`.
fn tok_l_restart() -> (v: Vec<u8>)
    ensures
        v@ == txt_l_restart(),
{
    let mut v: Vec<u8> = Vec::new();
    v.push(44);
    v.push(34);
    v.push(108);
    v.push(97);
    v.push(115);
    v.push(116);
    v.push(95);
    v.push(115);
    v.push(101);
    v.push(114);
    v.push(118);
    v.push(101);
    v.push(114);
    v.push(95);
    v.push(114);
    v.push(101);
    v.push(115);
    v.push(116);
    v.push(97);
    v.push(114);
    v.push(116);
    v.push(34);
    v.push(58);
    proof {
        assert(v@ =~= txt_l_restart());
    }
    v
}

/// The bytes of `,"created_world":`.
fn tok_l_created_world() -> (v: Vec<u8>)
    ensures
        v@ == txt_l_created_world(),
{
    let mut v: Vec<u8> = Vec::new();
    v.push(44);
    v.push(34);
    v.push(99);
    v.push(114);
    v.push(101);
    v.push(97);
    v.push(116);
    v.push(101);
    v.push(100);
    v.push(95);
    v.push(119);
    v.push(111);
    v.push(114);
    v.push(108);
    v.push(100);
    v.push(34);
    v.push(58);
    proof {
        assert(v@ =~= txt_l_created_world());
    }
    v
}

/// The bytes of `,"home_world":`.
fn tok_l_home_world() -> (v: Vec<u8>)
    ensures
        v@ == txt_l_home_world(),
{
    let mut v: Vec<u8> = Vec::new();
    v.push(44);
    v.push(34);
    v.push(104);
    v.push(111);
    v.push(109);
    v.push(101);
    v.push(95);
    v.push(119);
    v.push(111);
    v.push(114);
    v.push(108);
    v.push(100);
    v.push(34);
    v.push(58);
    proof {
        assert(v@ =~= txt_l_home_world());
    }
    v
}

/// The bytes of `,"current_world":`.
fn tok_l_current_world() -> (v: Vec<u8>)
    ensures
        v@ == txt_l_current_world(),
{
    let mut v: Vec<u8> = Vec::new();
    v.push(44);
    v.push(34);
    v.push(99);
    v.push(117);
    v.push(114);
    v.push(114);
    v.push(101);
    v.push(110);
    v.push(116);
    v.push(95);
    v.push(119);
    v.push(111);
    v.push(114);
    v.push(108);
    v.push(100);
    v.push(34);
    v.push(58);
    proof {
        assert(v@ =~= txt_l_current_world());
    }
    v
}

/// The bytes of `,"seconds_remaining":`.
fn tok_l_seconds() -> (v: Vec<u8>)
    ensures
        v@ == txt_l_seconds(),
{
    let mut v: Vec<u8> = Vec::new();
    v.push(44);
    v.push(34);
    v.push(115);
    v.push(101);
    v.push(99);
    v.push(111);
    v.push(110);
    v.push(100);
    v.push(115);
    v.push(95);
    v.push(114);
    v.push(101);
    v.push(109);
    v.push(97);
    v.push(105);
    v.push(110);
    v.push(105);
    v.push(110);
    v.push(103);
    v.push(34);
    v.push(58);
    proof {
        assert(v@ =~= txt_l_seconds());
    }
    v
}

/// The bytes of `,"category":`.
fn tok_l_category() -> (v: Vec<u8>)
    ensures
        v@ == txt_l_category(),
{
    let mut v: Vec<u8> = Vec::new();
    v.push(44);
    v.push(34);
    v.push(99);
    v.push(97);
    v.push(116);
    v.push(101);
    v.push(103);
    v.push(111);
    v.push(114);
    v.push(121);
    v.push(34);
    v.push(58);
    proof {
        assert(v@ =~= txt_l_category());
    }
    v
}

/// The bytes of `,"search_area":`.
fn tok_l_search_area() -> (v: Vec<u8>)
    ensures
        v@ == txt_l_search_area(),
{
    let mut v: Vec<u8> = Vec::new();
    v.push(44);
    v.push(34);
    v.push(115);
    v.push(101);
    v.push(97);
    v.push(114);
    v.push(99);
    v.push(104);
    v.push(95);
    v.push(97);
    v.push(114);
    v.push(101);
    v.push(97);
    v.push(34);
    v.push(58);
    proof {
        assert(v@ =~= txt_l_search_area());
    }
    v
}

/// The bytes of `,"name":"`.
fn tok_l_name() -> (v: Vec<u8>)
    ensures
        v@ == txt_l_name(),
{
    let mut v: Vec<u8> = Vec::new();
    v.push(44);
    v.push(34);
    v.push(110);
    v.push(97);
    v.push(109);
    v.push(101);
    v.push(34);
    v.push(58);
    v.push(34);
    proof {
        assert(v@ =~= txt_l_name());
    }
    v
}

/// The bytes of `","description":"`.
fn tok_l_description() -> (v: Vec<u8>)
    ensures
        v@ == txt_l_description(),
{
    let mut v: Vec<u8> = Vec::new();
    v.push(34);
    v.push(44);
    v.push(34);
    v.push(100);
    v.push(101);
    v.push(115);
    v.push(99);
    v.push(114);
    v.push(105);
    v.push(112);
    v.push(116);
    v.push(105);
    v.push(111);
    v.push(110);
    v.push(34);
    v.push(58);
    v.push(34);
    proof {
        assert(v@ =~= txt_l_description());
    }
    v
}

/// The bytes of `subscribed`.
fn tok_subscribed() -> (v: Vec<u8>)
    ensures
        v@ == txt_subscribed(),
{
    let mut v = tok_subscribe();
    v.push(100);
    proof {
        assert(v@ =~= txt_subscribed());
    }
    v
}

/// The bytes of `unsubscribed`.
fn tok_unsubscribed() -> (v: Vec<u8>)
    ensures
        v@ == txt_unsubscribed(),
{
    let mut v = tok_unsubscribe();
    v.push(100);
    proof {
        assert(v@ =~= txt_unsubscribed());
    }
    v
}

/// The wire name of a channel.
fn channel_bytes(ch: Channel) -> (v: Vec<u8>)
    ensures
        v@ == channel_text(ch),
{
    match ch {
        Channel::Listings => tok_listings(),
    }
}

/// Appends all of `w` to `out`.
fn push_all(out: &mut Vec<u8>, w: &Vec<u8>)
    ensures
        final(out)@ == old(out)@ + w@,
{
    let mut i: usize = 0;
    proof {
        assert(out@ =~= old(out)@ + w@.subrange(0, 0));
    }
    while i < w.len()
        invariant
            i <= w@.len(),
            out@ == old(out)@ + w@.subrange(0, i as int),
        decreases w@.len() - i,
    {
        out.push(w[i]);
        proof {
            assert(out@ =~= old(out)@ + w@.subrange(0, i + 1 as int));
        }
        i = i + 1;
    }
    proof {
        assert(w@.subrange(0, w@.len() as int) =~= w@);
    }
}

/// Decimal encoding of `n`, most significant digit first.
pub fn dec_bytes(n: u64) -> (v: Vec<u8>)
    ensures
        v@ == dec_digits(n as nat),
    decreases n,
{
    if n < 10 {
        let mut v: Vec<u8> = Vec::new();
        v.push(48 + n as u8);
        proof {
            assert(v@ =~= dec_digits(n as nat));
        }
        v
    } else {
        let mut v = dec_bytes(n / 10);
        v.push(48 + (n % 10) as u8);
        proof {
            assert(v@ =~= dec_digits(n as nat));
        }
        v
    }
}

/// A hexadecimal digit, lower case.
fn hex_digit_byte(n: u8) -> (d: u8)
    requires
        n < 16,
    ensures
        d == hex_digit(n as nat),
{
    if n < 10 {
        48 + n
    } else {
        87 + n
    }
}

/// A payload escaped for a JSON string, byte for byte.
pub fn escape_bytes(src: &Vec<u8>) -> (v: Vec<u8>)
    ensures
        v@ == json_escape(src@),
{
    let mut v: Vec<u8> = Vec::new();
    let mut i: usize = 0;
    proof {
        assert(src@.skip(0) =~= src@);
        assert(v@ + json_escape(src@) =~= json_escape(src@));
    }
    while i < src.len()
        invariant
            i <= src@.len(),
            v@ + json_escape(src@.skip(i as int)) == json_escape(src@),
        decreases src@.len() - i,
    {
        let ghost tail = src@.skip(i as int);
        proof {
            assert(tail.drop_first() =~= src@.skip(i as int + 1));
            assert(tail[0] == src@[i as int]);
        }
        let b = src[i];
        let ghost vpre = v@;
        if b == 34 {
            v.push(92);
            v.push(34);
        } else if b == 92 {
            v.push(92);
            v.push(92);
        } else if b >= 32 && b < 127 {
            v.push(b);
        } else {
            proof {
                assert((b >> 4) < 16 && (b & 15) < 16) by (bit_vector);
            }
            v.push(92);
            v.push(117);
            v.push(48);
            v.push(48);
            let hi = hex_digit_byte(b >> 4);
            v.push(hi);
            let lo = hex_digit_byte(b & 15);
            v.push(lo);
        }
        proof {
            assert(v@ =~= vpre + esc_byte(src@[i as int]));
            assert(v@ + json_escape(src@.skip(i as int + 1)) =~= json_escape(src@));
        }
        i = i + 1;
    }
    proof {
        assert(src@.skip(src@.len() as int) =~= Seq::<u8>::empty());
        assert(v@ =~= json_escape(src@));
    }
    v
}

/// One listing as a canonical JSON object.
pub fn encode_listing(l: &Listing) -> (v: Vec<u8>)
    ensures
        v@ == spec_encode_listing(l@),
{
    let mut v = tok_l_id();
    let mut part = dec_bytes(l.id as u64);
    push_all(&mut v, &part);
    part = tok_l_restart();
    push_all(&mut v, &part);
    part = dec_bytes(l.last_server_restart as u64);
    push_all(&mut v, &part);
    part = tok_l_created_world();
    push_all(&mut v, &part);
    part = dec_bytes(l.created_world as u64);
    push_all(&mut v, &part);
    part = tok_l_home_world();
    push_all(&mut v, &part);
    part = dec_bytes(l.home_world as u64);
    push_all(&mut v, &part);
    part = tok_l_current_world();
    push_all(&mut v, &part);
    part = dec_bytes(l.current_world as u64);
    push_all(&mut v, &part);
    part = tok_l_seconds();
    push_all(&mut v, &part);
    part = dec_bytes(l.seconds_remaining as u64);
    push_all(&mut v, &part);
    part = tok_l_category();
    push_all(&mut v, &part);
    part = dec_bytes(l.category as u64);
    push_all(&mut v, &part);
    part = tok_l_search_area();
    push_all(&mut v, &part);
    part = dec_bytes(l.search_area as u64);
    push_all(&mut v, &part);
    part = tok_l_name();
    push_all(&mut v, &part);
    part = escape_bytes(&l.name);
    push_all(&mut v, &part);
    part = tok_l_description();
    push_all(&mut v, &part);
    part = escape_bytes(&l.description);
    push_all(&mut v, &part);
    part = tok_end_str_obj();
    push_all(&mut v, &part);
    proof {
        assert(v@ =~= spec_encode_listing(l@));
    }
    v
}

/// One outbound frame, canonically encoded: the control acknowledgments,
/// the error report, or a whole forwarded batch.
pub fn encode_outbound(m: &OutboundMsg) -> (v: Vec<u8>)
    ensures
        v@ == spec_encode_outbound(m@),
{
    match m {
        OutboundMsg::Subscribed { channel } => {
            let mut v = tok_frame_type_prefix();
            let mut part = tok_subscribed();
            push_all(&mut v, &part);
            part = tok_mid_channel();
            push_all(&mut v, &part);
            part = channel_bytes(*channel);
            push_all(&mut v, &part);
            part = tok_end_str_obj();
            push_all(&mut v, &part);
            proof {
                assert(v@ =~= spec_encode_outbound(m@));
            }
            v
        }
        OutboundMsg::Unsubscribed { channel } => {
            let mut v = tok_frame_type_prefix();
            let mut part = tok_unsubscribed();
            push_all(&mut v, &part);
            part = tok_mid_channel();
            push_all(&mut v, &part);
            part = channel_bytes(*channel);
            push_all(&mut v, &part);
            part = tok_end_str_obj();
            push_all(&mut v, &part);
            proof {
                assert(v@ =~= spec_encode_outbound(m@));
            }
            v
        }
        OutboundMsg::Error { message } => {
            let mut v = tok_err_prefix();
            let mut part = escape_bytes(message);
            push_all(&mut v, &part);
            part = tok_end_str_obj();
            push_all(&mut v, &part);
            proof {
                assert(v@ =~= spec_encode_outbound(m@));
            }
            v
        }
        OutboundMsg::Listings { listings } => {
            let ghost views = listings.deep_view();
            let mut v = tok_batch_prefix();
            let mut i: usize = 0;
            proof {
                assert(views.skip(0) =~= views);
                assert(v@ + spec_encode_batch(views) + txt_batch_close() =~= txt_batch_prefix()
                    + spec_encode_batch(views) + txt_batch_close());
            }
            while i < listings.len()
                invariant
                    i <= views.len(),
                    views == listings.deep_view(),
                    ({
                        let rest = if i == 0 {
                            spec_encode_batch(views)
                        } else {
                            spec_encode_batch_tail(views.skip(i as int))
                        };
                        v@ + rest + txt_batch_close() == txt_batch_prefix() + spec_encode_batch(
                            views,
                        ) + txt_batch_close()
                    }),
                decreases views.len() - i,
            {
                let ghost vpre = v@;
                proof {
                    if i == 0 {
                        assert(views.drop_first() =~= views.skip(1));
                    } else {
                        assert(views.skip(i as int).drop_first() =~= views.skip(i as int + 1));
                        assert(views.skip(i as int)[0] == views[i as int]);
                    }
                }
                if i > 0 {
                    v.push(44);
                }
                let part = encode_listing(&listings[i]);
                push_all(&mut v, &part);
                proof {
                    if i == 0 {
                        assert(v@ =~= vpre + spec_encode_listing(views[0]));
                        assert(v@ + spec_encode_batch_tail(views.skip(1)) + txt_batch_close()
                            =~= txt_batch_prefix() + spec_encode_batch(views) + txt_batch_close());
                    } else {
                        assert(v@ =~= vpre + (seq![44u8] + spec_encode_listing(views[i as int])));
                        assert(v@ + spec_encode_batch_tail(views.skip(i as int + 1))
                            + txt_batch_close() =~= txt_batch_prefix() + spec_encode_batch(views)
                            + txt_batch_close());
                    }
                }
                i = i + 1;
            }
            proof {
                if views.len() > 0 {
                    assert(views.skip(views.len() as int) =~= Seq::<ListingView>::empty());
                }
            }
            let part = tok_batch_close();
            push_all(&mut v, &part);
            proof {
                assert(v@ =~= spec_encode_outbound(m@));
            }
            v
        }
    }
}

/// The bytes of `invalid control frame`: what the actor reports for a malformed frame.
pub open spec fn decode_error_text() -> Seq<u8> {
    seq![105u8, 110u8, 118u8, 97u8, 108u8, 105u8, 100u8, 32u8, 99u8, 111u8, 110u8, 116u8, 114u8, 111u8, 108u8, 32u8, 102u8, 114u8, 97u8, 109u8, 101u8]
}

/// The bytes of `invalid control frame`.
pub fn decode_error_message() -> (v: Vec<u8>)
    ensures
        v@ == decode_error_text(),
{
    let mut v: Vec<u8> = Vec::new();
    v.push(105);
    v.push(110);
    v.push(118);
    v.push(97);
    v.push(108);
    v.push(105);
    v.push(100);
    v.push(32);
    v.push(99);
    v.push(111);
    v.push(110);
    v.push(116);
    v.push(114);
    v.push(111);
    v.push(108);
    v.push(32);
    v.push(102);
    v.push(114);
    v.push(97);
    v.push(109);
    v.push(101);
    proof {
        assert(v@ =~= decode_error_text());
    }
    v
}

} // verus!
