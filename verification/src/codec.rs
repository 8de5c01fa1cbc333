//! The body codec: a clipboard message as a byte sequence.
//!
//! A body is: a one-byte content tag, the timestamp as 8 big-endian bytes,
//! then sender id, sender name and the content's fields, strings and byte
//! payloads each prefixed by a 4-byte big-endian length, strings carried as
//! UTF-8. Both ends of a connection run this codec, so the two sides agree.

use vstd::prelude::*;
use vstd::slice::slice_subrange;
use vstd::slice::slice_to_vec;
use vstd::slice::slice_index_get;
use vstd::string::StringSliceAdditionalSpecFns;
use vstd::utf8::valid_utf8;
use vstd::utf8::decode_utf8;
use vstd::utf8::encode_utf8;
use vstd::utf8::encode_utf8_valid_utf8;
use vstd::utf8::encode_utf8_decode_utf8;
use crate::errors::NetError;
use crate::messages::ClipboardContent;
use crate::messages::ClipboardMessage;
use crate::messages::ContentView;
use crate::messages::MessageView;
use crate::wire::be_val;
use crate::wire::be_enc;
use crate::wire::be_extend;
use crate::wire::be_read;
use crate::wire::pow256;
use crate::wire::lemma_be_enc_len;
use crate::wire::lemma_be_roundtrip;
use crate::wire::lemma_be_val_bound;

verus! {

/// Upper bound in bytes on a message body; larger inbound frames are
/// rejected before their body is read.
pub const MESSAGE_MAX_SIZE: usize = 10 * 1024 * 1024;

/// Tag byte announcing a text body.
pub const TAG_TEXT: u8 = 0;

/// Tag byte announcing an image body.
pub const TAG_IMAGE: u8 = 1;

/// A byte field as it stands on the wire: a 4-byte big-endian length, then
/// the bytes themselves.
pub open spec fn lp(f: Seq<u8>) -> Seq<u8> {
    be_enc(f.len(), 4) + f
}

/// The tag byte of a content variant.
pub open spec fn content_tag(c: ContentView) -> u8 {
    match c {
        ContentView::Text(_) => TAG_TEXT,
        ContentView::Image { .. } => TAG_IMAGE,
    }
}

/// The wire form of the content's own fields.
pub open spec fn encode_content(c: ContentView) -> Seq<u8> {
    match c {
        ContentView::Text(t) => lp(encode_utf8(t)),
        ContentView::Image { width, height, data } => be_enc(width as nat, 4) + be_enc(
            height as nat,
            4,
        ) + lp(data),
    }
}

/// The wire form of a whole message body.
pub open spec fn encode_body(m: MessageView) -> Seq<u8> {
    seq![content_tag(m.content)] + be_enc(m.timestamp as nat, 8) + lp(encode_utf8(m.sender_id))
        + lp(encode_utf8(m.sender_name)) + encode_content(m.content)
}

/// A message is encodable exactly when its body fits the maximum size.
pub open spec fn encodable(m: MessageView) -> bool {
    encode_body(m).len() <= MESSAGE_MAX_SIZE
}

/// Reads a length-prefixed byte field at `pos`: the field and the position
/// after it, or `None` if the bytes run out.
pub open spec fn parse_lp(b: Seq<u8>, pos: int) -> Option<(Seq<u8>, int)> {
    if 0 <= pos && pos + 4 <= b.len() {
        let l = be_val(b.subrange(pos, pos + 4)) as int;
        if pos + 4 + l <= b.len() {
            Some((b.subrange(pos + 4, pos + 4 + l), pos + 4 + l))
        } else {
            None
        }
    } else {
        None
    }
}

/// Reads the content fields for `tag` at `pos`.
pub open spec fn decode_content(b: Seq<u8>, pos: int, tag: u8) -> Option<(ContentView, int)> {
    if tag == TAG_TEXT {
        match parse_lp(b, pos) {
            Some((tb, p)) => if valid_utf8(tb) {
                Some((ContentView::Text(decode_utf8(tb)), p))
            } else {
                None
            },
            None => None,
        }
    } else if tag == TAG_IMAGE {
        if 0 <= pos && pos + 8 <= b.len() {
            let w = be_val(b.subrange(pos, pos + 4));
            let h = be_val(b.subrange(pos + 4, pos + 8));
            match parse_lp(b, pos + 8) {
                Some((db, p)) => Some(
                    (ContentView::Image { width: w as u32, height: h as u32, data: db }, p),
                ),
                None => None,
            }
        } else {
            None
        }
    } else {
        None
    }
}

/// Reads a whole body: `Some(m)` exactly when `b` is a well-formed body,
/// spelled out to its last byte.
pub open spec fn decode_body(b: Seq<u8>) -> Option<MessageView> {
    if b.len() >= 9 {
        let tag = b[0];
        let ts = be_val(b.subrange(1, 9));
        match parse_lp(b, 9) {
            Some((idb, p1)) => if valid_utf8(idb) {
                match parse_lp(b, p1) {
                    Some((nameb, p2)) => if valid_utf8(nameb) {
                        match decode_content(b, p2, tag) {
                            Some((c, p3)) => if p3 == b.len() {
                                Some(
                                    MessageView {
                                        content: c,
                                        timestamp: ts as u64,
                                        sender_id: decode_utf8(idb),
                                        sender_name: decode_utf8(nameb),
                                    },
                                )
                            } else {
                                None
                            },
                            None => None,
                        }
                    } else {
                        None
                    },
                    None => None,
                }
            } else {
                None
            },
            None => None,
        }
    } else {
        None
    }
}

/// A length-prefixed field written at `pos` is read back intact.
proof fn lemma_parse_lp_exact(b: Seq<u8>, pos: int, f: Seq<u8>)
    requires
        0 <= pos,
        f.len() < pow256(4),
        pos + 4 + f.len() <= b.len(),
        b.subrange(pos, pos + 4 + f.len()) == lp(f),
    ensures
        parse_lp(b, pos) == Some((f, pos + 4 + f.len())),
{
    lemma_be_enc_len(f.len(), 4);
    assert(b.subrange(pos, pos + 4) =~= lp(f).subrange(0, 4));
    assert(lp(f).subrange(0, 4) =~= be_enc(f.len(), 4));
    lemma_be_roundtrip(f.len(), 4);
    assert(be_val(b.subrange(pos, pos + 4)) == f.len());
    assert(b.subrange(pos + 4, pos + 4 + f.len()) =~= lp(f).subrange(4, 4 + f.len() as int));
    assert(lp(f).subrange(4, 4 + f.len() as int) =~= f);
}

proof fn lemma_pow256_4()
    ensures
        pow256(4) == 0x100000000,
{
    reveal_with_fuel(pow256, 5);
}

proof fn lemma_pow256_8()
    ensures
        pow256(8) == 0x10000000000000000,
{
    reveal_with_fuel(pow256, 9);
}

/// Round trip: an encodable message read back from its own encoding is
/// itself.
pub proof fn lemma_decode_encode(m: MessageView)
    requires
        encodable(m),
    ensures
        decode_body(encode_body(m)) == Some(m),
{
    broadcast use encode_utf8_valid_utf8;
    broadcast use encode_utf8_decode_utf8;

    let b = encode_body(m);
    let idb = encode_utf8(m.sender_id);
    let nameb = encode_utf8(m.sender_name);
    let cpart = encode_content(m.content);
    lemma_be_enc_len(m.timestamp as nat, 8);
    lemma_be_enc_len(idb.len(), 4);
    lemma_be_enc_len(nameb.len(), 4);
    lemma_pow256_4();
    lemma_pow256_8();
    let p1 = 13 + idb.len() as int;
    let p2 = p1 + 4 + nameb.len() as int;
    assert(b.len() == 9 + 4 + idb.len() + 4 + nameb.len() + cpart.len());
    assert(b[0] == content_tag(m.content));
    assert(b.subrange(1, 9) =~= be_enc(m.timestamp as nat, 8));
    lemma_be_roundtrip(m.timestamp as nat, 8);
    assert(b.subrange(9, 13 + idb.len() as int) =~= lp(idb));
    lemma_parse_lp_exact(b, 9, idb);
    assert(b.subrange(p1, p1 + 4 + nameb.len()) =~= lp(nameb));
    lemma_parse_lp_exact(b, p1, nameb);
    match m.content {
        ContentView::Text(t) => {
            let tb = encode_utf8(t);
            lemma_be_enc_len(tb.len(), 4);
            assert(b.subrange(p2, p2 + 4 + tb.len()) =~= lp(tb));
            lemma_parse_lp_exact(b, p2, tb);
            assert(p2 + 4 + tb.len() == b.len());
            assert(decode_body(b) == Some(m));
        },
        ContentView::Image { width, height, data } => {
            lemma_be_enc_len(width as nat, 4);
            lemma_be_enc_len(height as nat, 4);
            lemma_be_enc_len(data.len(), 4);
            assert(b.subrange(p2, p2 + 4) =~= be_enc(width as nat, 4));
            assert(b.subrange(p2 + 4, p2 + 8) =~= be_enc(height as nat, 4));
            lemma_be_roundtrip(width as nat, 4);
            lemma_be_roundtrip(height as nat, 4);
            assert(b.subrange(p2 + 8, p2 + 8 + 4 + data.len()) =~= lp(data));
            lemma_parse_lp_exact(b, p2 + 8, data);
            assert(p2 + 8 + 4 + data.len() == b.len());
            assert(decode_body(b) == Some(m));
        },
    }
}

/// Relies on `core::str::from_utf8`: it succeeds exactly on the valid
/// UTF-8 byte sequences and returns the string those bytes spell.
#[verifier::external_body]
fn bytes_to_str(v: &[u8]) -> (r: Option<&str>)
    ensures
        r is Some <==> valid_utf8(v@),
        r is Some ==> r.unwrap().spec_bytes() == v@,
{
    core::str::from_utf8(v).ok()
}

/// Reads a length-prefixed byte field at `pos`, as [`parse_lp`] does.
fn read_lp<'a>(b: &'a [u8], pos: usize) -> (r: Option<(&'a [u8], usize)>)
    requires
        pos <= b@.len(),
    ensures
        match r {
            Some(fp) => parse_lp(b@, pos as int) == Some((fp.0@, fp.1 as int)) && pos + 4 <= fp.1
                <= b@.len(),
            None => parse_lp(b@, pos as int) is None,
        },
{
    let n = b.len();
    if n - pos < 4 {
        return None;
    }
    let l = be_read(b, pos, 4);
    proof {
        lemma_be_val_bound(b@.subrange(pos as int, pos + 4));
        lemma_pow256_4();
    }
    if l > (n - pos - 4) as u64 {
        return None;
    }
    let lu = l as usize;
    Some((slice_subrange(b, pos + 4, pos + 4 + lu), pos + 4 + lu))
}

impl ClipboardMessage {
    /// Serializes the message body. Fails with `EncodeFailed` exactly when
    /// the body would exceed the maximum message size.
    pub fn to_bytes(&self) -> (r: Result<Vec<u8>, NetError>)
        ensures
            r is Ok <==> encodable(self@),
            r is Ok ==> r.unwrap()@ == encode_body(self@),
            r is Err ==> r.unwrap_err() == NetError::EncodeFailed,
    {
        let mut out: Vec<u8> = Vec::new();
        let tag: u8 = match &self.content {
            ClipboardContent::Text(_) => TAG_TEXT,
            ClipboardContent::Image { .. } => TAG_IMAGE,
        };
        out.push(tag);
        be_extend(&mut out, self.timestamp, 8);
        let mut idb = self.sender_id.as_str().as_bytes_vec();
        be_extend(&mut out, idb.len() as u64, 4);
        out.append(&mut idb);
        let mut nameb = self.sender_name.as_str().as_bytes_vec();
        be_extend(&mut out, nameb.len() as u64, 4);
        out.append(&mut nameb);
        match &self.content {
            ClipboardContent::Text(t) => {
                let mut tb = t.as_str().as_bytes_vec();
                be_extend(&mut out, tb.len() as u64, 4);
                out.append(&mut tb);
            },
            ClipboardContent::Image { width, height, data } => {
                be_extend(&mut out, *width as u64, 4);
                be_extend(&mut out, *height as u64, 4);
                be_extend(&mut out, data.len() as u64, 4);
                out.extend_from_slice(data.as_slice());
            },
        }
        assert(out@ =~= encode_body(self@));
        if out.len() > MESSAGE_MAX_SIZE {
            Err(NetError::EncodeFailed)
        } else {
            Ok(out)
        }
    }

    /// Parses a message body. Fails with `MalformedPayload` exactly when
    /// `data` is not a well-formed body.
    pub fn from_bytes(data: &[u8]) -> (r: Result<ClipboardMessage, NetError>)
        ensures
            r is Ok ==> decode_body(data@) == Some(r.unwrap()@),
            r is Err ==> decode_body(data@) is None && r.unwrap_err()
                == NetError::MalformedPayload,
    {
        broadcast use encode_utf8_decode_utf8;

        let n = data.len();
        if n < 9 {
            return Err(NetError::MalformedPayload);
        }
        let tag = *slice_index_get(data, 0);
        let ts = be_read(data, 1, 8);
        proof {
            lemma_be_val_bound(data@.subrange(1, 9));
            lemma_pow256_8();
        }
        let (idb, p1) = match read_lp(data, 9) {
            Some(fp) => fp,
            None => {
                return Err(NetError::MalformedPayload);
            },
        };
        let sender_id = match bytes_to_str(idb) {
            Some(s) => s.to_owned(),
            None => {
                return Err(NetError::MalformedPayload);
            },
        };
        let (nameb, p2) = match read_lp(data, p1) {
            Some(fp) => fp,
            None => {
                return Err(NetError::MalformedPayload);
            },
        };
        let sender_name = match bytes_to_str(nameb) {
            Some(s) => s.to_owned(),
            None => {
                return Err(NetError::MalformedPayload);
            },
        };
        let content: ClipboardContent = if tag == TAG_TEXT {
            let (tb, p3) = match read_lp(data, p2) {
                Some(fp) => fp,
                None => {
                    return Err(NetError::MalformedPayload);
                },
            };
            let text = match bytes_to_str(tb) {
                Some(s) => s.to_owned(),
                None => {
                    return Err(NetError::MalformedPayload);
                },
            };
            if p3 != n {
                return Err(NetError::MalformedPayload);
            }
            ClipboardContent::Text(text)
        } else if tag == TAG_IMAGE {
            if n - p2 < 8 {
                return Err(NetError::MalformedPayload);
            }
            let w = be_read(data, p2, 4);
            let h = be_read(data, p2 + 4, 4);
            proof {
                lemma_be_val_bound(data@.subrange(p2 as int, p2 + 4));
                lemma_be_val_bound(data@.subrange(p2 + 4, p2 + 8));
                lemma_pow256_4();
            }
            let (db, p3) = match read_lp(data, p2 + 8) {
                Some(fp) => fp,
                None => {
                    return Err(NetError::MalformedPayload);
                },
            };
            if p3 != n {
                return Err(NetError::MalformedPayload);
            }
            ClipboardContent::Image { width: w as u32, height: h as u32, data: slice_to_vec(db) }
        } else {
            return Err(NetError::MalformedPayload);
        };
        let m = ClipboardMessage { content, timestamp: ts, sender_id, sender_name };
        assert(decode_body(data@) == Some(m@));
        Ok(m)
    }
}

} // verus!
