use vstd::prelude::*;
use vstd::string::StringSliceAdditionalSpecFns;
use vstd::utf8::encode_utf8;

verus! {

broadcast use vstd::string::axiom_spec_iter;

/// Unicode White_Space: the chars that `str::trim` removes.
pub open spec fn is_white_space(c: char) -> bool {
    let u = c as u32;
    ||| 0x09 <= u <= 0x0D
    ||| u == 0x20
    ||| u == 0x85
    ||| u == 0xA0
    ||| u == 0x1680
    ||| 0x2000 <= u <= 0x200A
    ||| u == 0x2028
    ||| u == 0x2029
    ||| u == 0x202F
    ||| u == 0x205F
    ||| u == 0x3000
}

/// The text without its leading white space.
pub open spec fn trim_start(s: Seq<char>) -> Seq<char>
    decreases s.len(),
{
    if s.len() > 0 && is_white_space(s[0]) {
        trim_start(s.drop_first())
    } else {
        s
    }
}

/// The text without its trailing white space.
pub open spec fn trim_end(s: Seq<char>) -> Seq<char>
    decreases s.len(),
{
    if s.len() > 0 && is_white_space(s.last()) {
        trim_end(s.drop_last())
    } else {
        s
    }
}

/// The text without its leading and trailing white space.
pub open spec fn trimmed(s: Seq<char>) -> Seq<char> {
    trim_end(trim_start(s))
}

/// `str::trim`: the text with its leading and trailing chars of the Unicode White_Space
/// property removed.
#[verifier::external_body]
fn str_trim(s: &str) -> (r: &str)
    ensures
        r@ == trimmed(s@),
{
    s.trim()
}

/// `String::push`: appends one char.
#[verifier::external_body]
fn string_push(s: &mut String, c: char)
    ensures
        final(s)@ == old(s)@.push(c),
{
    s.push(c)
}

/// Longest label, in bytes, that is shown without shortening.
pub const NAMETAG_MAX_BYTES: usize = 7;

/// A label as shown above a player: unchanged when its UTF-8 encoding has at most 7
/// bytes, else its first 7 chars (all of them if it has fewer) followed by `...`.
pub open spec fn shortened(t: Seq<char>) -> Seq<char> {
    if encode_utf8(t).len() > NAMETAG_MAX_BYTES {
        let head = if t.len() <= NAMETAG_MAX_BYTES { t } else { t.take(NAMETAG_MAX_BYTES as int) };
        head + seq!['.', '.', '.']
    } else {
        t
    }
}

/// The label shown above a player: the trimmed name, shortened (see `shortened`).
pub open spec fn spec_nametag(name: Seq<char>) -> Seq<char> {
    shortened(trimmed(name))
}

/// Where `trim_start` cuts: the text from the first char that is not white space.
proof fn lemma_trim_start(s: Seq<char>) -> (i: int)
    ensures
        0 <= i <= s.len(),
        trim_start(s) == s.skip(i),
        forall|k: int| 0 <= k < i ==> is_white_space(#[trigger] s[k]),
        i < s.len() ==> !is_white_space(s[i]),
    decreases s.len(),
{
    if s.len() > 0 && is_white_space(s[0]) {
        let j = lemma_trim_start(s.drop_first());
        assert(s.drop_first().skip(j) =~= s.skip(j + 1));
        assert forall|k: int| 0 <= k < j + 1 implies is_white_space(#[trigger] s[k]) by {
            if k > 0 {
                assert(s[k] == s.drop_first()[k - 1]);
            }
        }
        j + 1
    } else {
        assert(s.skip(0) =~= s);
        0
    }
}

/// Where `trim_end` cuts: the text up to the last char that is not white space.
proof fn lemma_trim_end(s: Seq<char>) -> (j: int)
    ensures
        0 <= j <= s.len(),
        trim_end(s) == s.take(j),
        forall|k: int| j <= k < s.len() ==> is_white_space(#[trigger] s[k]),
        j > 0 ==> !is_white_space(s[j - 1]),
    decreases s.len(),
{
    if s.len() > 0 && is_white_space(s.last()) {
        let j = lemma_trim_end(s.drop_last());
        assert(s.drop_last().take(j) =~= s.take(j));
        assert forall|k: int| j <= k < s.len() implies is_white_space(#[trigger] s[k]) by {
            if k < s.len() - 1 {
                assert(s[k] == s.drop_last()[k]);
            }
        }
        j
    } else {
        assert(s.take(s.len() as int) =~= s);
        s.len() as int
    }
}

/// What `str::trim` leaves is the stretch of the text between its leading and its
/// trailing white space: a contiguous part `s[i..j]` where every char before `i` and
/// from `j` on is white space, and, when it is not empty, it starts and ends with a char
/// that is not. Chars inside it, white space or not, are all kept.
pub proof fn lemma_trimmed(s: Seq<char>)
    ensures
        exists|i: int, j: int|
            0 <= i <= j <= s.len() && trimmed(s) == s.subrange(i, j) && (forall|k: int|
                0 <= k < i ==> is_white_space(#[trigger] s[k])) && (forall|k: int|
                j <= k < s.len() ==> is_white_space(#[trigger] s[k])) && (i < j ==> !is_white_space(
                s[i]) && !is_white_space(s[j - 1])),
{
    let i = lemma_trim_start(s);
    let u = s.skip(i);
    let m = lemma_trim_end(u);
    let j = i + m;
    assert(trimmed(s) == u.take(m));
    assert(u.take(m) =~= s.subrange(i, j));
    assert forall|k: int| j <= k < s.len() implies is_white_space(#[trigger] s[k]) by {
        assert(s[k] == u[k - i]);
    }
    if i < j {
        assert(s[j - 1] == u[m - 1]);
        assert(s[i] == u[0]);
        if m == 0 {
            assert(false);
        }
    } else {
        assert(j == i);
    }
    assert(0 <= i <= j <= s.len() && trimmed(s) == s.subrange(i, j) && (forall|k: int|
        0 <= k < i ==> is_white_space(#[trigger] s[k])) && (forall|k: int|
        j <= k < s.len() ==> is_white_space(#[trigger] s[k])) && (i < j ==> !is_white_space(s[i])
        && !is_white_space(s[j - 1])));
}

/// The label of a name: with `t` the name as `str::trim` leaves it, the label is `t` when
/// `t` has at most 7 bytes in UTF-8; otherwise it is the first 7 chars of `t` (all of
/// them when `t` has fewer) followed by three dots.
pub proof fn lemma_nametag(name: Seq<char>)
    ensures
        encode_utf8(trimmed(name)).len() <= 7 ==> spec_nametag(name) == trimmed(name),
        encode_utf8(trimmed(name)).len() > 7 && trimmed(name).len() <= 7 ==> spec_nametag(name)
            == trimmed(name) + seq!['.', '.', '.'],
        trimmed(name).len() > 7 ==> spec_nametag(name) == trimmed(name).take(7) + seq!['.', '.', '.'],
        trimmed(name).len() > 7 ==> encode_utf8(trimmed(name)).len() > 7,
{
    lemma_encoding_at_least_one_byte_per_char(trimmed(name));
}

/// Every char takes at least one byte in UTF-8.
proof fn lemma_encoding_at_least_one_byte_per_char(t: Seq<char>)
    ensures
        encode_utf8(t).len() >= t.len(),
    decreases t.len(),
{
    if t.len() > 0 {
        lemma_encoding_at_least_one_byte_per_char(t.drop_first());
    }
}

/// Shortens an already trimmed label (see `shortened`).
pub fn shorten_label(t: &str) -> (r: String)
    ensures
        r@ == shortened(t@),
        encode_utf8(t@).len() <= 7 ==> r@ == t@,
        encode_utf8(t@).len() > 7 && t@.len() <= 7 ==> r@ == t@ + seq!['.', '.', '.'],
        t@.len() > 7 ==> r@ == t@.take(7) + seq!['.', '.', '.'],
{
    proof {
        lemma_encoding_at_least_one_byte_per_char(t@);
    }
    if t.as_bytes().len() <= NAMETAG_MAX_BYTES {
        return t.to_owned();
    }
    let mut out = String::new();
    let mut count: usize = 0;
    for c in it: t.chars()
        invariant
            it.seq() == t@,
            count == if it.index() < NAMETAG_MAX_BYTES { it.index() } else { NAMETAG_MAX_BYTES as int },
            out@ == t@.take(count as int),
    {
        if count < NAMETAG_MAX_BYTES {
            string_push(&mut out, c);
            count = count + 1;
        }
    }
    proof {
        if t@.len() <= NAMETAG_MAX_BYTES {
            assert(t@.take(t@.len() as int) =~= t@);
        }
    }
    string_push(&mut out, '.');
    string_push(&mut out, '.');
    string_push(&mut out, '.');
    assert(out@ =~= shortened(t@));
    out
}

/// The label shown above a player whose name is `name` (see `spec_nametag`).
pub fn nametag_text(name: &str) -> (r: String)
    ensures
        r@ == spec_nametag(name@),
        encode_utf8(trimmed(name@)).len() <= 7 ==> r@ == trimmed(name@),
        encode_utf8(trimmed(name@)).len() > 7 && trimmed(name@).len() <= 7 ==> r@ == trimmed(name@)
            + seq!['.', '.', '.'],
        trimmed(name@).len() > 7 ==> r@ == trimmed(name@).take(7) + seq!['.', '.', '.'],
{
    proof {
        lemma_nametag(name@);
    }
    let t = str_trim(name);
    shorten_label(t)
}

} // verus!
