use vstd::prelude::*;

verus! {

/// The character of a decimal digit.
pub open spec fn digit_char(d: nat) -> char {
    if d < 10 {
        ((48 + d) as u8) as char
    } else {
        '?'
    }
}

/// The decimal representation of `n`, without leading zeros.
pub open spec fn decimal(n: nat) -> Seq<char>
    decreases n,
{
    if n < 10 {
        seq![digit_char(n)]
    } else {
        decimal(n / 10).push(digit_char(n % 10))
    }
}

/// Relies on `String::push`: the character is appended at the end.
#[verifier::external_body]
pub(crate) fn push_char(s: &mut String, c: char)
    ensures
        final(s)@ == old(s)@.push(c),
{
    s.push(c)
}

/// Appends a string slice.
pub(crate) fn push_str(s: &mut String, t: &str)
    ensures
        final(s)@ == old(s)@ + t@,
{
    s.append(t);
}

fn digit(d: u64) -> (c: char)
    requires
        d < 10,
    ensures
        c == digit_char(d as nat),
{
    (48u8 + (d as u8)) as char
}

/// Appends the decimal form of `n`.
pub(crate) fn push_decimal(s: &mut String, n: u64)
    ensures
        final(s)@ == old(s)@ + decimal(n as nat),
    decreases n,
{
    if n >= 10 {
        push_decimal(s, n / 10);
    }
    push_char(s, digit(n % 10));
    assert(s@ =~= old(s)@ + decimal(n as nat));
}

} // verus!

verus! {

/// What `String::from_utf8_lossy` makes of a byte sequence.
pub uninterp spec fn utf8_lossy(b: Seq<u8>) -> Seq<char>;

/// Relies on `String::from_utf8_lossy`: the result depends on the bytes alone,
/// and no bytes give the empty string.
#[verifier::external_body]
pub(crate) fn decode_utf8_lossy(b: &[u8]) -> (r: String)
    ensures
        r@ == utf8_lossy(b@),
        b@.len() == 0 ==> r@.len() == 0,
{
    String::from_utf8_lossy(b).into_owned()
}

/// The bytes of the NUL-terminated string at `off`, without the terminator;
/// the string ends at the buffer's end where no NUL comes first.
pub open spec fn cstring_bytes(d: Seq<u8>, off: int) -> Seq<u8>
    decreases d.len() - off,
{
    if off < 0 || off >= d.len() || d[off] == 0 {
        Seq::empty()
    } else {
        seq![d[off]] + cstring_bytes(d, off + 1)
    }
}

/// The text of the NUL-terminated string at `off`.
pub open spec fn cstring_text(d: Seq<u8>, off: int) -> Seq<char> {
    utf8_lossy(cstring_bytes(d, off))
}

/// Collects the bytes of the NUL-terminated string at `offset`.
pub fn cstring_at(data: &[u8], offset: usize) -> (r: Vec<u8>)
    ensures
        r@ == cstring_bytes(data@, offset as int),
{
    let mut out: Vec<u8> = Vec::new();
    let mut end = offset;
    while end < data.len() && data[end] != 0
        invariant
            offset <= end,
            out@ + cstring_bytes(data@, end as int) == cstring_bytes(data@, offset as int),
        decreases data@.len() - end,
    {
        let ghost before = out@;
        out.push(data[end]);
        assert(out@ + cstring_bytes(data@, end + 1) =~= before + cstring_bytes(data@, end as int));
        end = end + 1;
    }
    assert(out@ + cstring_bytes(data@, end as int) =~= out@);
    out
}

/// Reads the NUL-terminated string at `offset` as text; an offset at or past
/// the end of the buffer gives the empty string.
pub fn read_cstring(data: &[u8], offset: usize) -> (r: String)
    ensures
        r@ == cstring_text(data@, offset as int),
{
    let bytes = cstring_at(data, offset);
    decode_utf8_lossy(bytes.as_slice())
}

} // verus!

verus! {

/// Whether two strings hold the same characters.
pub fn str_eq(a: &str, b: &str) -> (r: bool)
    ensures
        r == (a@ == b@),
{
    let n = a.unicode_len();
    if n != b.unicode_len() {
        return false;
    }
    let mut i: usize = 0;
    while i < n
        invariant
            n == a@.len(),
            n == b@.len(),
            i <= n,
            forall|j: int| 0 <= j < i ==> a@[j] == b@[j],
        decreases n - i,
    {
        if a.get_char(i) != b.get_char(i) {
            return false;
        }
        i = i + 1;
    }
    assert(a@ =~= b@);
    true
}

/// What `String::from_utf16_lossy` makes of a sequence of UTF-16 code units.
pub uninterp spec fn utf16_lossy(units: Seq<u16>) -> Seq<char>;

/// Relies on `String::from_utf16_lossy`: the result depends on the code units
/// alone, and no units give the empty string.
#[verifier::external_body]
pub(crate) fn decode_utf16_lossy(units: &[u16]) -> (r: String)
    ensures
        r@ == utf16_lossy(units@),
        units@.len() == 0 ==> r@.len() == 0,
{
    String::from_utf16_lossy(units)
}

/// The code units of a fixed-size wide-character buffer up to its first NUL,
/// or all of them where it holds none.
pub open spec fn wide_prefix(buf: Seq<u16>) -> Seq<u16>
    decreases buf.len(),
{
    if buf.len() == 0 || buf[0] == 0 {
        Seq::empty()
    } else {
        seq![buf[0]] + wide_prefix(buf.drop_first())
    }
}

/// Decodes a fixed-size wide-character name buffer, cut at its first NUL.
pub fn decode_wide_name(buf: &[u16]) -> (r: String)
    ensures
        r@ == utf16_lossy(wide_prefix(buf@)),
{
    let mut units: Vec<u16> = Vec::new();
    let mut i: usize = 0;
    assert(buf@.subrange(0, buf@.len() as int) =~= buf@);
    while i < buf.len() && buf[i] != 0
        invariant
            i <= buf@.len(),
            units@ + wide_prefix(buf@.subrange(i as int, buf@.len() as int)) == wide_prefix(buf@),
        decreases buf@.len() - i,
    {
        let ghost rest = buf@.subrange(i as int, buf@.len() as int);
        assert(rest.drop_first() =~= buf@.subrange(i + 1, buf@.len() as int));
        let ghost before = units@;
        units.push(buf[i]);
        assert(units@ + wide_prefix(rest.drop_first()) =~= before + wide_prefix(rest));
        i = i + 1;
    }
    let ghost rest = buf@.subrange(i as int, buf@.len() as int);
    assert(wide_prefix(rest) =~= Seq::<u16>::empty()) by {
        if rest.len() > 0 {
            assert(rest[0] == buf@[i as int]);
        }
    }
    assert(units@ =~= wide_prefix(buf@));
    decode_utf16_lossy(units.as_slice())
}

} // verus!
