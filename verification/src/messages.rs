//! The unit of synchronization: a clipboard message, carrying either text
//! or an encoded image, together with a timestamp and the sender's identity.
//!
//! The sender strings are caller-supplied and are not verified against the
//! connection a message arrived on; this layer deliberately keeps that
//! limitation of the protocol rather than adding authentication.

use vstd::prelude::*;
use std::time::SystemTime;
use std::time::UNIX_EPOCH;

verus! {

/// The mathematical value of a [`ClipboardContent`].
#[verifier::ext_equal]
pub enum ContentView {
    Text(Seq<char>),
    Image { width: u32, height: u32, data: Seq<u8> },
}

/// The mathematical value of a [`ClipboardMessage`].
#[verifier::ext_equal]
pub struct MessageView {
    pub content: ContentView,
    pub timestamp: u64,
    pub sender_id: Seq<char>,
    pub sender_name: Seq<char>,
}

/// What a clipboard holds: a string, or a still image as an encoded byte
/// payload (opaque to this layer) with its pixel dimensions.
#[derive(Debug, Clone, PartialEq)]
pub enum ClipboardContent {
    Text(String),
    Image { width: u32, height: u32, data: Vec<u8> },
}

impl View for ClipboardContent {
    type V = ContentView;

    open spec fn view(&self) -> ContentView {
        match self {
            ClipboardContent::Text(t) => ContentView::Text(t@),
            ClipboardContent::Image { width, height, data } => ContentView::Image {
                width: *width,
                height: *height,
                data: data@,
            },
        }
    }
}

/// One clipboard synchronization message.
#[derive(Debug, Clone, PartialEq)]
pub struct ClipboardMessage {
    pub content: ClipboardContent,
    pub timestamp: u64,
    pub sender_id: String,
    pub sender_name: String,
}

impl View for ClipboardMessage {
    type V = MessageView;

    open spec fn view(&self) -> MessageView {
        MessageView {
            content: self.content@,
            timestamp: self.timestamp,
            sender_id: self.sender_id@,
            sender_name: self.sender_name@,
        }
    }
}

/// Appends `c` to the string.
pub assume_specification[ String::push ](s: &mut String, c: char)
    ensures
        final(s)@ == old(s)@.push(c),
;

/// The decimal digit `d` as a character.
pub open spec fn digit_char(d: nat) -> char {
    if d == 0 {
        '0'
    } else if d == 1 {
        '1'
    } else if d == 2 {
        '2'
    } else if d == 3 {
        '3'
    } else if d == 4 {
        '4'
    } else if d == 5 {
        '5'
    } else if d == 6 {
        '6'
    } else if d == 7 {
        '7'
    } else if d == 8 {
        '8'
    } else {
        '9'
    }
}

/// The decimal digits of `n`, most significant first, no leading zeros.
pub open spec fn dec_str(n: nat) -> Seq<char>
    decreases n,
{
    if n < 10 {
        seq![digit_char(n)]
    } else {
        dec_str(n / 10).push(digit_char(n % 10))
    }
}

fn digit_of(d: u64) -> (c: char)
    requires
        d < 10,
    ensures
        c == digit_char(d as nat),
{
    if d == 0 {
        '0'
    } else if d == 1 {
        '1'
    } else if d == 2 {
        '2'
    } else if d == 3 {
        '3'
    } else if d == 4 {
        '4'
    } else if d == 5 {
        '5'
    } else if d == 6 {
        '6'
    } else if d == 7 {
        '7'
    } else if d == 8 {
        '8'
    } else {
        '9'
    }
}

/// Appends the decimal digits of `x` to `s`.
pub fn push_dec(s: &mut String, x: u64)
    ensures
        final(s)@ == old(s)@ + dec_str(x as nat),
    decreases x,
{
    broadcast use vstd::seq_lib::group_seq_properties;

    if x < 10 {
        s.push(digit_of(x));
        assert(final(s)@ =~= old(s)@ + dec_str(x as nat));
    } else {
        let pre = Ghost(s@);
        push_dec(s, x / 10);
        s.push(digit_of(x % 10));
        assert(final(s)@ =~= pre@ + dec_str(x as nat)) by {
            assert((x / 10) as nat == (x as nat) / 10);
            assert((x % 10) as nat == (x as nat) % 10);
        }
    }
}

/// What [`ClipboardContent::preview`] returns: text is cut to
/// `max_length` characters with an ellipsis; an image is shown by its
/// dimensions.
pub open spec fn preview_spec(c: ContentView, max_length: int) -> Seq<char> {
    match c {
        ContentView::Text(t) => if t.len() > max_length {
            t.take(max_length) + "..."@
        } else {
            t
        },
        ContentView::Image { width, height, data } => "图片 "@ + dec_str(width as nat) + "x"@
            + dec_str(height as nat),
    }
}

impl ClipboardContent {
    /// A short human-readable preview of the content.
    pub fn preview(&self, max_length: usize) -> (r: String)
        ensures
            r@ == preview_spec(self@, max_length as int),
    {
        match self {
            ClipboardContent::Text(text) => {
                let n = text.as_str().unicode_len();
                if n > max_length {
                    let truncated = text.as_str().substring_char(0, max_length);
                    let mut out = truncated.to_owned();
                    out.append("...");
                    assert(out@ =~= text@.take(max_length as int) + "..."@);
                    out
                } else {
                    text.clone()
                }
            },
            ClipboardContent::Image { width, height, data } => {
                let mut out = String::from_str("图片 ");
                push_dec(&mut out, *width as u64);
                out.push('x');
                push_dec(&mut out, *height as u64);
                proof {
                    reveal_strlit("x");
                    assert(out@ =~= preview_spec(self@, max_length as int));
                }
                out
            },
        }
    }
}

/// Relies on `std::time::SystemTime::now` for the clock reading: seconds
/// since the epoch, or 0 for a clock set before it. Nothing is promised of
/// the value.
#[verifier::external_body]
fn now_unix_secs() -> u64 {
    SystemTime::now().duration_since(UNIX_EPOCH).map(|d| d.as_secs()).unwrap_or(0)
}

impl ClipboardMessage {
    /// Builds a text message stamped with the current time.
    pub fn new_text(content: String, sender_id: String, sender_name: String) -> (m: Self)
        ensures
            m@.content == ContentView::Text(content@),
            m@.sender_id == sender_id@,
            m@.sender_name == sender_name@,
    {
        ClipboardMessage {
            content: ClipboardContent::Text(content),
            timestamp: now_unix_secs(),
            sender_id,
            sender_name,
        }
    }

    /// Builds an image message stamped with the current time.
    pub fn new_image(
        width: u32,
        height: u32,
        data: Vec<u8>,
        sender_id: String,
        sender_name: String,
    ) -> (m: Self)
        ensures
            m@.content == (ContentView::Image { width, height, data: data@ }),
            m@.sender_id == sender_id@,
            m@.sender_name == sender_name@,
    {
        ClipboardMessage {
            content: ClipboardContent::Image { width, height, data },
            timestamp: now_unix_secs(),
            sender_id,
            sender_name,
        }
    }
}

} // verus!
