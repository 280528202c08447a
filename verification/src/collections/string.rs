//! Text with a fixed capacity in bytes.

use crate::error::{PinoError, STACK_STRING_FULL};
use vstd::prelude::*;
use vstd::utf8::{
    decode_utf8, decode_utf8_encode_utf8, encode_utf8, encode_utf8_decode_utf8,
    encode_utf8_valid_utf8, is_ascii_chars, is_ascii_chars_encode_utf8, valid_utf8,
};

verus! {

/// The sixteen symbols of lowercase hexadecimal, by value.
pub const HEX_ALPHABET: [u8; 16] = [
    0x30, 0x31, 0x32, 0x33, 0x34, 0x35, 0x36, 0x37, 0x38, 0x39, 0x61, 0x62, 0x63, 0x64, 0x65, 0x66,
];

/// The number of bytes that `text` takes in UTF-8.
pub open spec fn utf8_len(text: Seq<char>) -> nat {
    encode_utf8(text).len()
}

/// What appending `extra` makes of `text` when at most `capacity` bytes of
/// UTF-8 can be held: the joined text, or `None` when it does not fit.
pub open spec fn appended(text: Seq<char>, capacity: nat, extra: Seq<char>) -> Option<Seq<char>> {
    if utf8_len(text) + utf8_len(extra) <= capacity {
        Some(text + extra)
    } else {
        None
    }
}

/// The lowercase hexadecimal symbol for a value below sixteen: `'0'` to
/// `'9'`, then `'a'` to `'f'`.
pub open spec fn hex_symbol(nibble: int) -> char {
    if nibble < 10 {
        (0x30 + nibble) as char
    } else {
        (0x61 + nibble - 10) as char
    }
}

/// The lowercase hexadecimal form of `bytes`: two symbols per byte, the
/// high half first.
pub open spec fn hex_text(bytes: Seq<u8>) -> Seq<char> {
    Seq::new(
        2 * bytes.len(),
        |i: int|
            if i % 2 == 0 {
                hex_symbol(bytes[i / 2] as int / 16)
            } else {
                hex_symbol(bytes[i / 2] as int % 16)
            },
    )
}

/// The UTF-8 form of a joined text is the two UTF-8 forms joined.
pub proof fn lemma_encode_concat(a: Seq<char>, b: Seq<char>)
    ensures
        encode_utf8(a + b) == encode_utf8(a) + encode_utf8(b),
    decreases a.len(),
{
    if a.len() == 0 {
        assert(a + b =~= b);
        assert(encode_utf8(a) + encode_utf8(b) =~= encode_utf8(b));
    } else {
        lemma_encode_concat(a.drop_first(), b);
        assert((a + b).drop_first() =~= a.drop_first() + b);
        assert((a + b)[0] == a[0]);
        assert(encode_utf8(a + b) =~= encode_utf8(a) + encode_utf8(b));
    }
}

/// Hexadecimal text is ASCII and takes two bytes per byte encoded; of no
/// bytes it is the empty text.
pub proof fn lemma_hex_text_is_ascii(bytes: Seq<u8>)
    ensures
        is_ascii_chars(hex_text(bytes)),
        utf8_len(hex_text(bytes)) == 2 * bytes.len(),
        bytes.len() == 0 ==> hex_text(bytes) == Seq::<char>::empty(),
{
    let text = hex_text(bytes);
    assert forall|i: int| 0 <= i < text.len() implies '\0' <= #[trigger] text[i] <= '\u{7f}' by {
        let nibble = if i % 2 == 0 {
            bytes[i / 2] as int / 16
        } else {
            bytes[i / 2] as int % 16
        };
        assert(0 <= nibble < 16);
        assert(text[i] == hex_symbol(nibble));
    }
    is_ascii_chars_encode_utf8(text);
    if bytes.len() == 0 {
        assert(text =~= Seq::<char>::empty());
    }
}

/// Appending the hexadecimal form of no bytes always fits and changes
/// nothing, whatever the text and the capacity that holds it.
pub proof fn lemma_append_no_hex(text: Seq<char>, capacity: nat)
    requires
        utf8_len(text) <= capacity,
    ensures
        appended(text, capacity, hex_text(Seq::<u8>::empty())) == Some(text),
{
    lemma_hex_text_is_ascii(Seq::<u8>::empty());
    assert(text + Seq::<char>::empty() =~= text);
}

/// Declares [`core::str::Utf8Error`], which is only told apart from success.
#[verifier::external_type_specification]
#[verifier::external_body]
pub struct ExUtf8Error(core::str::Utf8Error);

/// [`core::str::from_utf8`] accepts every well-formed UTF-8 sequence, and
/// the text it returns is made of exactly the bytes it was given.
pub assume_specification[ core::str::from_utf8 ](bytes: &[u8]) -> (r: core::result::Result<
    &str,
    core::str::Utf8Error,
>)
    ensures
        valid_utf8(bytes@) ==> r is Ok,
        r matches Ok(text) ==> encode_utf8(text@) == bytes@,
;

/// Calls [`char::encode_utf8`], which writes the character's UTF-8 form to
/// the front of the buffer and returns that part as text; four bytes are
/// enough for any character.
#[verifier::external_body]
fn encode_char<'a>(ch: char, buffer: &'a mut [u8; 4]) -> (text: &'a str)
    ensures
        text@ == seq![ch],
{
    ch.encode_utf8(buffer)
}

/// Text with a fixed maximum capacity of `N` bytes of UTF-8, held in place.
///
/// Its view is the text as a sequence of characters.
pub struct StackString<const N: usize> {
    data: [u8; N],
    len: usize,
}

impl<const N: usize> View for StackString<N> {
    type V = Seq<char>;

    closed spec fn view(&self) -> Seq<char> {
        decode_utf8(self.bytes())
    }
}

impl<const N: usize> StackString<N> {
    /// The bytes in use.
    pub closed spec fn bytes(&self) -> Seq<u8> {
        self.data@.subrange(0, self.len as int)
    }

    /// Holds of every string that this module hands out: the length stays
    /// within the capacity and the bytes in use are well-formed UTF-8. Every
    /// operation keeps it.
    pub closed spec fn wf(&self) -> bool {
        &&& self.len <= N
        &&& valid_utf8(self.bytes())
    }

    /// The bytes in use are the UTF-8 form of the text.
    pub proof fn lemma_bytes_encode_view(&self)
        requires
            self.wf(),
        ensures
            self.bytes() == encode_utf8(self@),
            utf8_len(self@) <= N,
    {
        decode_utf8_encode_utf8(self.bytes());
    }

    /// Creates a new empty StackString.
    pub fn new() -> (r: Self)
        ensures
            r.wf(),
            r@ == Seq::<char>::empty(),
    {
        let r = StackString { data: [0u8; N], len: 0 };
        assert(r.bytes() =~= Seq::<u8>::empty());
        reveal_with_fuel(decode_utf8, 1);
        reveal_with_fuel(valid_utf8, 1);
        r
    }

    /// Returns the length in bytes.
    pub fn len(&self) -> (r: usize)
        requires
            self.wf(),
        ensures
            r == utf8_len(self@),
            r <= N,
    {
        proof {
            self.lemma_bytes_encode_view();
        }
        self.len
    }

    /// Returns true if the string is empty.
    pub fn is_empty(&self) -> (r: bool)
        requires
            self.wf(),
        ensures
            r == (self@.len() == 0),
    {
        proof {
            self.lemma_bytes_encode_view();
            reveal_with_fuel(decode_utf8, 1);
            reveal_with_fuel(encode_utf8, 1);
        }
        self.len == 0
    }

    /// Returns the maximum capacity in bytes.
    pub fn capacity(&self) -> (r: usize)
        ensures
            r == N,
    {
        N
    }

    /// Returns true if the string is at capacity.
    pub fn is_full(&self) -> (r: bool)
        requires
            self.wf(),
        ensures
            r == (utf8_len(self@) == N),
    {
        proof {
            self.lemma_bytes_encode_view();
        }
        self.len == N
    }

    /// Writes `bytes`, the UTF-8 form of `extra`, behind the bytes in use
    /// and takes them into the text. The caller has checked that they fit.
    fn extend(&mut self, bytes: &[u8], Ghost(extra): Ghost<Seq<char>>)
        requires
            old(self).wf(),
            bytes@ == encode_utf8(extra),
            old(self).len + bytes@.len() <= N,
        ensures
            final(self).wf(),
            final(self)@ == old(self)@ + extra,
    {
        let start = self.len;
        let mut i: usize = 0;
        while i < bytes.len()
            invariant
                i <= bytes@.len(),
                start + bytes@.len() <= N,
                self.len == start,
                self.data@.subrange(0, start as int) == old(self).bytes(),
                self.data@.subrange(start as int, start + i) == bytes@.subrange(0, i as int),
            decreases bytes@.len() - i,
        {
            self.data[start + i] = bytes[i];
            proof {
                assert(self.data@.subrange(0, start as int) =~= old(self).bytes());
                assert(self.data@.subrange(start as int, start + i + 1) =~= bytes@.subrange(
                    0,
                    i + 1,
                ));
            }
            i += 1;
        }
        self.len = start + bytes.len();
        proof {
            let before = old(self).bytes();
            assert(bytes@.subrange(0, bytes@.len() as int) =~= bytes@);
            assert(self.bytes() =~= before + bytes@);
            decode_utf8_encode_utf8(before);
            lemma_encode_concat(old(self)@, extra);
            encode_utf8_valid_utf8(old(self)@ + extra);
            encode_utf8_decode_utf8(old(self)@ + extra);
        }
    }

    /// Appends a string slice to this string.
    ///
    /// Either all of `s` is appended, or, when its bytes do not fit in what
    /// is left of the `N`, nothing is and the error is
    /// `Custom(STACK_STRING_FULL)`.
    pub fn push_str(&mut self, s: &str) -> (r: Result<(), PinoError>)
        requires
            old(self).wf(),
        ensures
            final(self).wf(),
            match appended(old(self)@, N as nat, s@) {
                Some(text) => r == Ok::<(), PinoError>(()) && final(self)@ == text,
                None => r == Err::<(), PinoError>(PinoError::Custom(STACK_STRING_FULL))
                    && final(self)@ == old(self)@,
            },
    {
        proof {
            self.lemma_bytes_encode_view();
        }
        let bytes = s.as_bytes();
        if bytes.len() > N - self.len {
            return Err(PinoError::Custom(STACK_STRING_FULL));
        }
        self.extend(bytes, Ghost(s@));
        Ok(())
    }

    /// Appends a character to this string, under the same rule as
    /// [`StackString::push_str`].
    pub fn push(&mut self, ch: char) -> (r: Result<(), PinoError>)
        requires
            old(self).wf(),
        ensures
            final(self).wf(),
            match appended(old(self)@, N as nat, seq![ch]) {
                Some(text) => r == Ok::<(), PinoError>(()) && final(self)@ == text,
                None => r == Err::<(), PinoError>(PinoError::Custom(STACK_STRING_FULL))
                    && final(self)@ == old(self)@,
            },
    {
        let mut buffer = [0u8; 4];
        let s = encode_char(ch, &mut buffer);
        self.push_str(s)
    }

    /// Appends the lowercase hexadecimal form of `pubkey`, two symbols per
    /// byte.
    ///
    /// Either the whole form is appended, or, when it does not fit in what
    /// is left of the `N` bytes, nothing is and the error is
    /// `Custom(STACK_STRING_FULL)`. Of no bytes the form is empty, so that
    /// call succeeds and changes nothing.
    pub fn push_pubkey(&mut self, pubkey: &[u8]) -> (r: Result<(), PinoError>)
        requires
            old(self).wf(),
        ensures
            final(self).wf(),
            match appended(old(self)@, N as nat, hex_text(pubkey@)) {
                Some(text) => r == Ok::<(), PinoError>(()) && final(self)@ == text,
                None => r == Err::<(), PinoError>(PinoError::Custom(STACK_STRING_FULL))
                    && final(self)@ == old(self)@,
            },
            pubkey@.len() == 0 ==> r == Ok::<(), PinoError>(()) && final(self)@ == old(self)@,
    {
        proof {
            self.lemma_bytes_encode_view();
            lemma_hex_text_is_ascii(pubkey@);
            lemma_append_no_hex(self@, N as nat);
        }
        if pubkey.len() > (N - self.len) / 2 {
            return Err(PinoError::Custom(STACK_STRING_FULL));
        }
        let start = self.len;
        let ghost text = hex_text(pubkey@);
        let mut i: usize = 0;
        while i < pubkey.len()
            invariant
                i <= pubkey@.len(),
                start + 2 * pubkey@.len() <= N,
                self.len == start,
                text == hex_text(pubkey@),
                self.data@.subrange(0, start as int) == old(self).bytes(),
                forall|k: int| 0 <= k < 2 * i ==> self.data@[start + k] == text[k] as u8,
            decreases pubkey@.len() - i,
        {
            let byte = pubkey[i];
            let high = byte >> 4;
            let low = byte & 0xf;
            proof {
                assert(high == byte / 16 && high < 16) by (bit_vector)
                    requires
                        high == byte >> 4,
                ;
                assert(low == byte % 16 && low < 16) by (bit_vector)
                    requires
                        low == byte & 0xf,
                ;
            }
            self.data[start + 2 * i] = hex_byte(high);
            self.data[start + 2 * i + 1] = hex_byte(low);
            proof {
                assert(self.data@.subrange(0, start as int) =~= old(self).bytes());
                assert(text[2 * i] == hex_symbol(high as int));
                assert(text[2 * i + 1] == hex_symbol(low as int));
            }
            i += 1;
        }
        self.len = start + 2 * pubkey.len();
        proof {
            let before = old(self).bytes();
            let written = encode_utf8(text);
            is_ascii_chars_encode_utf8(text);
            assert(self.bytes() =~= before + written);
            decode_utf8_encode_utf8(before);
            lemma_encode_concat(old(self)@, text);
            encode_utf8_valid_utf8(old(self)@ + text);
            encode_utf8_decode_utf8(old(self)@ + text);
            if pubkey@.len() == 0 {
                assert(old(self)@ + text =~= old(self)@);
            }
        }
        Ok(())
    }

    /// Returns the string as a &str.
    pub fn as_str(&self) -> (r: &str)
        requires
            self.wf(),
        ensures
            r@ == self@,
    {
        let whole = self.data.as_slice();
        match core::str::from_utf8(&whole[0..self.len]) {
            Ok(text) => {
                proof {
                    encode_utf8_decode_utf8(text@);
                }
                text
            },
            Err(_) => "",
        }
    }

    /// Clears the string. The bytes stay where they are and are no longer
    /// read.
    pub fn clear(&mut self)
        requires
            old(self).wf(),
        ensures
            final(self).wf(),
            final(self)@ == Seq::<char>::empty(),
    {
        self.len = 0;
        assert(self.bytes() =~= Seq::<u8>::empty());
        reveal_with_fuel(decode_utf8, 1);
        reveal_with_fuel(valid_utf8, 1);
    }
}

/// The symbol of [`HEX_ALPHABET`] for a value below sixteen.
fn hex_byte(nibble: u8) -> (symbol: u8)
    requires
        nibble < 16,
    ensures
        symbol == hex_symbol(nibble as int) as u8,
{
    HEX_ALPHABET[nibble as usize]
}

} // verus!
