use vstd::prelude::*;
use vstd::string::StringSliceAdditionalSpecFns;
use vstd::utf8::*;

verus! {

/// Number of C chars in a `CUtlString` buffer.
pub const CUTL_STRING_LEN: usize = 512;

/// The buffer `CUtlString::new` builds from the UTF-8 bytes of a text: all zeros when the
/// text holds a NUL byte, else its first (at most 511) bytes as C chars followed by zeros.
pub open spec fn cutl_buffer(bytes: Seq<u8>) -> Seq<i8> {
    if bytes.contains(0u8) {
        Seq::new(CUTL_STRING_LEN as nat, |i: int| 0i8)
    } else {
        Seq::new(
            CUTL_STRING_LEN as nat,
            |i: int| if i < bytes.len() && i < CUTL_STRING_LEN - 1 { bytes[i] as i8 } else { 0i8 },
        )
    }
}

/// The bytes that `CUtlString::to_string` reads from a buffer: everything before the first
/// zero, with the `-1` chars left out.
pub open spec fn visible_bytes(s: Seq<i8>) -> Seq<u8>
    decreases s.len(),
{
    if s.len() == 0 || s[0] == 0i8 {
        Seq::empty()
    } else if s[0] == -1i8 {
        visible_bytes(s.drop_first())
    } else {
        seq![s[0] as u8] + visible_bytes(s.drop_first())
    }
}

/// The text decoded from the visible bytes, or the empty text when they are not UTF-8.
pub open spec fn decoded_text(s: Seq<i8>) -> Seq<char> {
    let b = visible_bytes(s);
    if valid_utf8(b) {
        decode_utf8(b)
    } else {
        Seq::empty()
    }
}

/// `String::from_utf8`: a string exactly when the bytes are valid UTF-8, holding the
/// characters they encode.
#[verifier::external_body]
fn string_from_utf8(bytes: Vec<u8>) -> (r: Option<String>)
    ensures
        r is Some <==> valid_utf8(bytes@),
        r matches Some(s) ==> s@ == decode_utf8(bytes@),
{
    match String::from_utf8(bytes) {
        Ok(s) => Some(s),
        Err(_) => None,
    }
}

/// A byte other than `0` and `0xFF` survives the round trip through a C char, and is
/// neither the terminator nor the skipped `-1` char.
proof fn lemma_byte_as_char(x: u8)
    ensures
        (x as i8) as u8 == x,
        x != 0 ==> x as i8 != 0i8,
        x != 0xFF ==> x as i8 != -1i8,
{
    assert((x as i8) as u8 == x) by (bit_vector);
    assert(x != 0 ==> x as i8 != 0i8) by (bit_vector);
    assert(x != 0xFF ==> x as i8 != -1i8) by (bit_vector);
}

/// No byte of the UTF-8 encoding of a scalar is `0xFF`.
proof fn lemma_scalar_encoding_has_no_ff(c: u32)
    ensures
        forall|i: int| 0 <= i < encode_scalar(c).len() ==> encode_scalar(c)[i] != 0xFFu8,
{
    assert(((c & 0x7F) as u8) != 0xFFu8) by (bit_vector);
    assert((0xC0u8 | ((c >> 6) & 0x1F) as u8) != 0xFFu8) by (bit_vector);
    assert((0xE0u8 | ((c >> 12) & 0x0F) as u8) != 0xFFu8) by (bit_vector);
    assert((0xF0u8 | ((c >> 18) & 0x7) as u8) != 0xFFu8) by (bit_vector);
    assert((0x80u8 | (c & 0x3F) as u8) != 0xFFu8) by (bit_vector);
    assert((0x80u8 | ((c >> 6) & 0x3F) as u8) != 0xFFu8) by (bit_vector);
    assert((0x80u8 | ((c >> 12) & 0x3F) as u8) != 0xFFu8) by (bit_vector);
}

/// No byte of a UTF-8 encoding is `0xFF`.
proof fn lemma_encoding_has_no_ff(chars: Seq<char>)
    ensures
        forall|i: int| 0 <= i < encode_utf8(chars).len() ==> encode_utf8(chars)[i] != 0xFFu8,
    decreases chars.len(),
{
    if chars.len() > 0 {
        lemma_scalar_encoding_has_no_ff(chars[0] as u32);
        lemma_encoding_has_no_ff(chars.drop_first());
        let head = encode_scalar(chars[0] as u32);
        let tail = encode_utf8(chars.drop_first());
        assert(encode_utf8(chars) == head + tail);
        assert forall|i: int| 0 <= i < encode_utf8(chars).len() implies encode_utf8(chars)[i]
            != 0xFFu8 by {
            if i < head.len() {
                assert(encode_utf8(chars)[i] == head[i]);
            } else {
                assert(encode_utf8(chars)[i] == tail[i - head.len()]);
            }
        }
    }
}

/// A buffer that holds the bytes `b` (none of them `0` or `0xFF`) followed by a zero shows
/// exactly `b`.
proof fn lemma_visible_prefix(b: Seq<u8>, t: Seq<i8>)
    requires
        t.len() > b.len(),
        forall|i: int| 0 <= i < b.len() ==> t[i] == b[i] as i8,
        forall|i: int| 0 <= i < b.len() ==> b[i] != 0u8 && b[i] != 0xFFu8,
        t[b.len() as int] == 0i8,
    ensures
        visible_bytes(t) == b,
    decreases b.len(),
{
    if b.len() == 0 {
        assert(visible_bytes(t) =~= b);
    } else {
        lemma_byte_as_char(b[0]);
        lemma_visible_prefix(b.drop_first(), t.drop_first());
        assert(seq![t[0] as u8] + b.drop_first() =~= b);
    }
}

/// Reading back a `CUtlString` built from a text gives that text, when its UTF-8 encoding
/// fits in the buffer before the terminator and holds no NUL byte.
pub proof fn lemma_cutl_string_round_trip(s: Seq<char>)
    requires
        encode_utf8(s).len() < CUTL_STRING_LEN,
        !encode_utf8(s).contains(0u8),
    ensures
        decoded_text(cutl_buffer(encode_utf8(s))) == s,
{
    let b = encode_utf8(s);
    let t = cutl_buffer(b);
    lemma_encoding_has_no_ff(s);
    assert forall|i: int| 0 <= i < b.len() implies b[i] != 0u8 && b[i] != 0xFFu8 by {
        if b[i] == 0u8 {
            assert(b.contains(0u8));
        }
    }
    lemma_visible_prefix(b, t);
    encode_utf8_valid_utf8(s);
    encode_utf8_decode_utf8(s);
}

/// A text that holds a NUL byte gives an all-zero buffer, which reads back as the empty
/// text.
pub proof fn lemma_cutl_string_nul_reads_empty(bytes: Seq<u8>)
    requires
        bytes.contains(0u8),
    ensures
        decoded_text(cutl_buffer(bytes)) == Seq::<char>::empty(),
{
    let t = cutl_buffer(bytes);
    assert(t[0] == 0i8);
    assert(visible_bytes(t) =~= Seq::<u8>::empty());
    assert(valid_utf8(Seq::<u8>::empty()));
    assert(decode_utf8(Seq::<u8>::empty()) =~= Seq::<char>::empty());
}

/// The buffer built from a text is 512 chars: all zero when the text holds a NUL byte;
/// otherwise the text's bytes (at most 511 of them) as C chars, and zero at every index
/// at or after the text's length and at the last index.
pub proof fn lemma_cutl_buffer_layout(bytes: Seq<u8>)
    ensures
        cutl_buffer(bytes).len() == 512,
        cutl_buffer(bytes)[511] == 0i8,
        bytes.contains(0u8) ==> forall|i: int| 0 <= i < 512 ==> cutl_buffer(bytes)[i] == 0i8,
        !bytes.contains(0u8) ==> forall|i: int|
            0 <= i < 511 && i < bytes.len() ==> cutl_buffer(bytes)[i] == bytes[i] as i8,
        !bytes.contains(0u8) ==> forall|i: int|
            bytes.len() <= i < 512 ==> cutl_buffer(bytes)[i] == 0i8,
        (exists|i: int| 0 <= i < 512 && cutl_buffer(bytes)[i] == 0i8),
{
    assert(cutl_buffer(bytes)[511] == 0i8);
}

/// A buffer whose first zero is at `k`, with no `-1` char before it, shows exactly its
/// first `k` chars, as bytes.
pub proof fn lemma_visible_plain(s: Seq<i8>, k: int)
    requires
        0 <= k < s.len(),
        s[k] == 0i8,
        forall|j: int| 0 <= j < k ==> s[j] != 0i8 && s[j] != -1i8,
    ensures
        visible_bytes(s) == Seq::new(k as nat, |j: int| s[j] as u8),
    decreases k,
{
    if k == 0 {
        assert(visible_bytes(s) =~= Seq::new(k as nat, |j: int| s[j] as u8));
    } else {
        lemma_visible_plain(s.drop_first(), k - 1);
        assert(seq![s[0] as u8] + Seq::new((k - 1) as nat, |j: int| s.drop_first()[j] as u8)
            =~= Seq::new(k as nat, |j: int| s[j] as u8));
    }
}

/// A fixed-size, zero-terminated C string as the game lays it out in memory.
#[derive(Copy, Clone)]
pub struct CUtlString {
    pub text: [i8; 512],
}

impl Default for CUtlString {
    fn default() -> (r: Self)
        ensures
            r.text@ == Seq::new(CUTL_STRING_LEN as nat, |i: int| 0i8),
    {
        let r = CUtlString { text: [0; 512] };
        assert(r.text@ =~= Seq::new(CUTL_STRING_LEN as nat, |i: int| 0i8));
        r
    }
}

impl CUtlString {
    /// Whether the buffer holds a zero, so that reading it as a C string stops inside it.
    pub open spec fn is_terminated(&self) -> bool {
        exists|i: int| 0 <= i < CUTL_STRING_LEN && self.text@[i] == 0i8
    }

    /// Tests whether the buffer holds a zero (see `is_terminated`).
    pub fn is_terminated_exec(&self) -> (b: bool)
        ensures
            b == self.is_terminated(),
            b <==> exists|i: int| 0 <= i < 512 && self.text@[i] == 0i8,
            forall|k: int| 0 <= k < 512 && self.text@[k] == 0i8 ==> b,
            !b ==> forall|k: int| 0 <= k < 512 ==> self.text@[k] != 0i8,
    {
        let mut i: usize = 0;
        while i < CUTL_STRING_LEN
            invariant
                i <= CUTL_STRING_LEN,
                self.text@.len() == CUTL_STRING_LEN,
                forall|j: int| 0 <= j < i ==> self.text@[j] != 0i8,
            decreases CUTL_STRING_LEN - i,
        {
            if self.text[i] == 0 {
                return true;
            }
            i = i + 1;
        }
        false
    }

    /// Builds the buffer from `text` (see `cutl_buffer`); the last char is always zero.
    pub fn new(text: &str) -> (r: Self)
        ensures
            r.text@ == cutl_buffer(text.spec_bytes()),
            r.text@.len() == 512,
            r.text@[CUTL_STRING_LEN - 1] == 0i8,
            r.is_terminated(),
            text.spec_bytes().contains(0u8) ==> forall|i: int| 0 <= i < 512 ==> r.text@[i] == 0i8,
            !text.spec_bytes().contains(0u8) ==> forall|i: int|
                0 <= i < 511 && i < text.spec_bytes().len() ==> r.text@[i]
                    == text.spec_bytes()[i] as i8,
            !text.spec_bytes().contains(0u8) ==> forall|i: int|
                text.spec_bytes().len() <= i < 512 ==> r.text@[i] == 0i8,
    {
        proof {
            lemma_cutl_buffer_layout(text.spec_bytes());
        }
        let bytes = text.as_bytes();
        let n = bytes.len();
        let mut has_nul = false;
        let mut k: usize = 0;
        while k < n
            invariant
                n == bytes@.len(),
                k <= n,
                has_nul <==> exists|j: int| 0 <= j < k && bytes@[j] == 0u8,
            decreases n - k,
        {
            if bytes[k] == 0 {
                has_nul = true;
            }
            k = k + 1;
        }
        proof {
            if has_nul {
                let j = choose|j: int| 0 <= j < n && bytes@[j] == 0u8;
                assert(text.spec_bytes().contains(0u8)) by {
                    assert(text.spec_bytes()[j] == 0u8);
                }
            }
        }
        let mut buffer: [i8; 512] = [0; 512];
        if !has_nul {
            let length = if n < CUTL_STRING_LEN - 1 { n } else { CUTL_STRING_LEN - 1 };
            for i in 0..length
                invariant
                    length <= n,
                    length < CUTL_STRING_LEN,
                    n == bytes@.len(),
                    length == n || length == CUTL_STRING_LEN - 1,
                    buffer@.len() == CUTL_STRING_LEN,
                    forall|j: int| 0 <= j < i ==> buffer@[j] == bytes@[j] as i8,
                    forall|j: int| i <= j < CUTL_STRING_LEN ==> buffer@[j] == 0i8,
            {
                buffer[i] = bytes[i] as i8;
            }
        }
        let r = CUtlString { text: buffer };
        assert(r.text@ =~= cutl_buffer(text.spec_bytes()));
        assert(r.text@[CUTL_STRING_LEN - 1] == 0i8);
        r
    }

    /// Reads the text up to the first zero, leaving out `-1` chars, and decodes it as
    /// UTF-8; the empty string when it is not UTF-8.
    pub fn to_string(&self) -> (s: String)
        requires
            self.is_terminated(),
        ensures
            s@ == decoded_text(self.text@),
            forall|k: int|
                #![trigger self.text@[k]]
                0 <= k < 512 && self.text@[k] == 0i8 && (forall|j: int|
                    0 <= j < k ==> self.text@[j] != 0i8 && self.text@[j] != -1i8) ==> s@ == (if valid_utf8(
                    Seq::new(k as nat, |j: int| self.text@[j] as u8),
                ) {
                    decode_utf8(Seq::new(k as nat, |j: int| self.text@[j] as u8))
                } else {
                    Seq::empty()
                }),
    {
        proof {
            assert forall|k: int|
                #![trigger self.text@[k]]
                0 <= k < 512 && self.text@[k] == 0i8 && (forall|j: int|
                    0 <= j < k ==> self.text@[j] != 0i8 && self.text@[j] != -1i8) implies visible_bytes(
                self.text@,
            ) == Seq::new(k as nat, |j: int| self.text@[j] as u8) by {
                lemma_visible_plain(self.text@, k);
            }
        }
        let mut chars: Vec<u8> = Vec::new();
        let mut i: usize = 0;
        proof {
            assert(self.text@.skip(0) =~= self.text@);
        }
        while self.text[i] != 0
            invariant
                i < CUTL_STRING_LEN,
                self.text@.len() == CUTL_STRING_LEN,
                self.is_terminated(),
                forall|j: int| 0 <= j < i ==> self.text@[j] != 0i8,
                visible_bytes(self.text@) == chars@ + visible_bytes(self.text@.skip(i as int)),
            decreases CUTL_STRING_LEN - i,
        {
            let c = self.text[i];
            let ghost rest = self.text@.skip(i as int);
            proof {
                assert(rest[0] == c);
                assert(rest.drop_first() =~= self.text@.skip(i + 1));
            }
            if c != -1 {
                chars.push(c as u8);
                proof {
                    assert(visible_bytes(rest) == seq![c as u8] + visible_bytes(rest.drop_first()));
                    assert(chars@ + visible_bytes(self.text@.skip(i + 1)) =~= (chars@.drop_last()
                        + seq![c as u8]) + visible_bytes(self.text@.skip(i + 1)));
                }
            }
            proof {
                if i + 1 >= CUTL_STRING_LEN {
                    let w = choose|w: int| 0 <= w < CUTL_STRING_LEN && self.text@[w] == 0i8;
                    assert(self.text@[w] != 0i8);
                }
            }
            i = i + 1;
        }
        proof {
            let rest = self.text@.skip(i as int);
            assert(rest[0] == 0i8);
            assert(visible_bytes(rest) == Seq::<u8>::empty());
            assert(chars@ + Seq::<u8>::empty() =~= chars@);
        }
        match string_from_utf8(chars) {
            Some(s) => s,
            None => String::new(),
        }
    }
}

/// A game-side vector header: element count and address of the elements.
#[derive(Copy, Clone)]
pub struct CUtlVector {
    pub count: u64,
    pub data: u64,
}

impl Default for CUtlVector {
    fn default() -> (r: Self)
        ensures
            r.count == 0,
            r.data == 0,
    {
        CUtlVector { count: 0, data: 0 }
    }
}

} // verus!
