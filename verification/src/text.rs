//! Text handling at the boundary with the native library: C strings, decimal
//! numbers, and the small parsers the wrapper applies to text the library returns.

use vstd::prelude::*;
use vstd::string::StringSliceAdditionalSpecFns;
use vstd::utf8::{decode_utf8, valid_utf8};

use crate::error::{FsdkError, Result};

verus! {

// ---------------------------------------------------------------------------
// Characters and strings
// ---------------------------------------------------------------------------

/// Appends one character to a string (`String::push`).
#[verifier::external_body]
pub(crate) fn push_char(s: &mut String, c: char)
    ensures
        final(s)@ == old(s)@.push(c),
{
    s.push(c);
}

/// The text that `String::from_utf8_lossy` makes of a byte sequence.
pub uninterp spec fn utf8_lossy(bytes: Seq<u8>) -> Seq<char>;

/// Decodes bytes as UTF-8 with `String::from_utf8_lossy`, each invalid sequence
/// becoming U+FFFD. The contract names the result, and states what the
/// documentation promises: valid UTF-8 is decoded unchanged, and since a NUL
/// character is decoded only from a NUL byte (a replacement is U+FFFD), bytes
/// without NUL give text without NUL.
#[verifier::external_body]
fn decode_utf8_lossy(bytes: &[u8]) -> (s: String)
    ensures
        s@ == utf8_lossy(bytes@),
        valid_utf8(bytes@) ==> s@ == decode_utf8(bytes@),
        nul_free(bytes@) ==> !s@.contains('\0'),
{
    String::from_utf8_lossy(bytes).into_owned()
}

/// The characters of a string slice.
pub fn chars_of(s: &str) -> (v: Vec<char>)
    ensures
        v@ == s@,
{
    let mut v: Vec<char> = Vec::new();
    for c in it: s.chars()
        invariant
            v@ == it.seq().take(it.index() as int),
    {
        v.push(c);
    }
    v
}

/// The string made of `cs[from..to]`.
pub fn string_of(cs: &Vec<char>, from: usize, to: usize) -> (s: String)
    requires
        from <= to <= cs@.len(),
    ensures
        s@ == cs@.subrange(from as int, to as int),
{
    let mut s = String::new();
    let mut i = from;
    while i < to
        invariant
            from <= i <= to <= cs@.len(),
            s@ == cs@.subrange(from as int, i as int),
        decreases to - i,
    {
        push_char(&mut s, cs[i]);
        i = i + 1;
        assert(cs@.subrange(from as int, i as int) == cs@.subrange(from as int, i - 1).push(
            cs@[i - 1],
        ));
    }
    s
}

/// Appends `t` to `s`.
pub fn append_chars(s: &mut String, t: &str)
    ensures
        final(s)@ == old(s)@ + t@,
{
    let cs = chars_of(t);
    let mut i: usize = 0;
    while i < cs.len()
        invariant
            i <= cs@.len(),
            cs@ == t@,
            s@ == old(s)@ + cs@.take(i as int),
        decreases cs@.len() - i,
    {
        push_char(s, cs[i]);
        i = i + 1;
        assert(cs@.take(i as int) == cs@.take(i - 1).push(cs@[i - 1]));
    }
    assert(cs@.take(cs@.len() as int) == cs@);
}

/// A string with the characters of `t`.
pub fn string_from(t: &str) -> (s: String)
    ensures
        s@ == t@,
{
    let mut s = String::new();
    append_chars(&mut s, t);
    assert(s@ == Seq::<char>::empty() + t@);
    s
}

// ---------------------------------------------------------------------------
// Decimal numbers
// ---------------------------------------------------------------------------

/// The character of the decimal digit `d`.
pub open spec fn digit_char(d: nat) -> char {
    ('0' as u32 + d) as char
}

/// The decimal notation of a natural number, without leading zeros.
pub open spec fn decimal(n: nat) -> Seq<char>
    decreases n,
{
    if n < 10 {
        seq![digit_char(n)]
    } else {
        decimal(n / 10).push(digit_char(n % 10))
    }
}

/// The decimal notation of an integer, with a leading `-` when it is negative.
pub open spec fn signed_decimal(v: int) -> Seq<char> {
    if v < 0 {
        seq!['-'] + decimal((-v) as nat)
    } else {
        decimal(v as nat)
    }
}

fn digit(d: u64) -> (c: char)
    requires
        d < 10,
    ensures
        c == digit_char(d as nat),
{
    let b: u8 = 48u8 + (d as u8);
    b as char
}

/// Appends the decimal notation of `n` to `s`.
pub fn push_decimal(s: &mut String, n: u64)
    ensures
        final(s)@ == old(s)@ + decimal(n as nat),
    decreases n,
{
    if n >= 10 {
        push_decimal(s, n / 10);
    }
    push_char(s, digit(n % 10));
    proof {
        if n >= 10 {
            assert(old(s)@ + decimal(n as nat) == (old(s)@ + decimal((n / 10) as nat)).push(
                digit_char((n % 10) as nat),
            ));
        } else {
            assert(old(s)@ + decimal(n as nat) == old(s)@.push(digit_char(n as nat)));
        }
    }
}

/// Appends the decimal notation of `v` to `s`, with a `-` before a negative value.
pub fn push_signed_decimal(s: &mut String, v: i64)
    ensures
        final(s)@ == old(s)@ + signed_decimal(v as int),
{
    if v < 0 {
        push_char(s, '-');
        let magnitude: u64 = ((-(v + 1)) as u64) + 1;
        push_decimal(s, magnitude);
        assert(old(s)@ + signed_decimal(v as int) == old(s)@.push('-') + decimal(
            magnitude as nat,
        ));
    } else {
        push_decimal(s, v as u64);
    }
}

// ---------------------------------------------------------------------------
// C strings
// ---------------------------------------------------------------------------

/// Whether no byte of `b` is NUL.
pub open spec fn nul_free(b: Seq<u8>) -> bool {
    forall|i: int| 0 <= i < b.len() ==> b[i] != 0
}

/// Whether `p` is the position of the first NUL byte of `b`.
pub open spec fn first_nul_at(b: Seq<u8>, p: int) -> bool {
    &&& 0 <= p < b.len()
    &&& b[p] == 0
    &&& nul_free(b.take(p))
}

/// The message of the error that a NUL byte at position `p` of a text argument causes.
pub open spec fn nul_error_text(p: nat) -> Seq<char> {
    "nul byte found in provided data at position: "@ + decimal(p)
}

/// Whether the text `s` can be handed to the native library: it holds no NUL byte.
pub open spec fn c_text_ok(s: &str) -> bool {
    nul_free(s.spec_bytes())
}

/// Whether `e` is the error that handing the text `s` to the native library reports:
/// the position of its first NUL byte.
pub open spec fn nul_error(s: &str, e: FsdkError) -> bool {
    exists|p: int|
        first_nul_at(s.spec_bytes(), p) && (e matches FsdkError::InvalidString(m) && m@
            == nul_error_text(p as nat))
}

/// Whether `r` fails with the error that the text `s` causes.
pub open spec fn text_error<T>(s: &str, r: Result<T>) -> bool {
    r matches Err(e) && nul_error(s, e)
}

/// The bytes of a text argument as the native library receives it: the UTF-8
/// encoding of `s`, which must hold no NUL byte.
pub fn c_string_bytes(s: &str) -> (r: Result<Vec<u8>>)
    ensures
        r is Ok <==> nul_free(s.spec_bytes()),
        r matches Ok(v) ==> v@ == s.spec_bytes(),
        r matches Err(e) ==> nul_error(s, e),
{
    let bytes = s.as_bytes();
    let mut out: Vec<u8> = Vec::new();
    let mut i: usize = 0;
    while i < bytes.len()
        invariant
            i <= bytes@.len(),
            bytes@ == s.spec_bytes(),
            out@ == bytes@.take(i as int),
            nul_free(bytes@.take(i as int)),
        decreases bytes@.len() - i,
    {
        if bytes[i] == 0 {
            let mut m = string_from("nul byte found in provided data at position: ");
            push_decimal(&mut m, i as u64);
            proof {
                reveal_strlit("nul byte found in provided data at position: ");
                assert(first_nul_at(bytes@, i as int));
            }
            return Err(FsdkError::InvalidString(m));
        }
        out.push(bytes[i]);
        i = i + 1;
        assert(bytes@.take(i as int) == bytes@.take(i - 1).push(bytes@[i - 1]));
    }
    assert(bytes@.take(bytes@.len() as int) == bytes@);
    Ok(out)
}

/// The bytes of a C string stored in `buffer`: those before the first NUL byte, or
/// the whole buffer when it holds none.
pub open spec fn c_string_content(buffer: Seq<u8>) -> Seq<u8> {
    if exists|p: int| first_nul_at(buffer, p) {
        buffer.take(choose|p: int| first_nul_at(buffer, p))
    } else {
        buffer
    }
}

proof fn lemma_first_nul_unique(b: Seq<u8>, p: int, q: int)
    requires
        first_nul_at(b, p),
        first_nul_at(b, q),
    ensures
        p == q,
{
    if p < q {
        assert(b.take(q)[p] == b[p]);
    } else if q < p {
        assert(b.take(p)[q] == b[q]);
    }
}

/// Reads the C string that the native library wrote into `buffer`, decoding it as
/// UTF-8 with invalid sequences replaced.
pub fn read_c_string(buffer: &[u8]) -> (s: String)
    ensures
        s@ == utf8_lossy(c_string_content(buffer@)),
        !s@.contains('\0'),
        valid_utf8(c_string_content(buffer@)) ==> s@ == decode_utf8(c_string_content(buffer@)),
{
    let mut content: Vec<u8> = Vec::new();
    let mut i: usize = 0;
    while i < buffer.len() && buffer[i] != 0
        invariant
            i <= buffer@.len(),
            content@ == buffer@.take(i as int),
            nul_free(buffer@.take(i as int)),
        decreases buffer@.len() - i,
    {
        content.push(buffer[i]);
        i = i + 1;
        assert(buffer@.take(i as int) == buffer@.take(i - 1).push(buffer@[i - 1]));
    }
    proof {
        if i < buffer@.len() {
            assert(first_nul_at(buffer@, i as int));
            let p = choose|p: int| first_nul_at(buffer@, p);
            lemma_first_nul_unique(buffer@, p, i as int);
        } else {
            assert(buffer@.take(i as int) == buffer@);
            if exists|p: int| first_nul_at(buffer@, p) {
                let p = choose|p: int| first_nul_at(buffer@, p);
                assert(buffer@.take(i as int)[p] == 0);
            }
        }
    }
    decode_utf8_lossy(content.as_slice())
}

/// A text handed to the native library comes back unchanged when read from a buffer
/// that holds its bytes, a NUL, and anything after: the C string in that buffer is
/// exactly the bytes that `c_string_bytes` produced, and they decode to the text.
pub proof fn lemma_c_string_round_trip(s: &str, tail: Seq<u8>)
    requires
        c_text_ok(s),
    ensures
        c_string_content(s.spec_bytes() + seq![0u8] + tail) == s.spec_bytes(),
        valid_utf8(c_string_content(s.spec_bytes() + seq![0u8] + tail)),
        decode_utf8(c_string_content(s.spec_bytes() + seq![0u8] + tail)) == s@,
{
    let b = s.spec_bytes();
    let buf = b + seq![0u8] + tail;
    let n = b.len() as int;
    assert(buf.take(n) == b);
    assert(buf[n] == 0);
    assert(first_nul_at(buf, n));
    let p = choose|p: int| first_nul_at(buf, p);
    lemma_first_nul_unique(buf, p, n);
    vstd::utf8::encode_utf8_valid_utf8(s@);
    vstd::utf8::encode_utf8_decode_utf8(s@);
}

} // verus!
verus! {

// ---------------------------------------------------------------------------
// Names of a tracker ID
// ---------------------------------------------------------------------------

/// Scans `s` for `;`-separated names: the names completed so far and the name being
/// read at the end of `s`.
pub open spec fn name_scan(s: Seq<char>) -> (Seq<Seq<char>>, Seq<char>)
    decreases s.len(),
{
    if s.len() == 0 {
        (Seq::empty(), Seq::empty())
    } else {
        let (done, cur) = name_scan(s.drop_last());
        if s.last() == ';' {
            if cur.len() > 0 {
                (done.push(cur), Seq::empty())
            } else {
                (done, Seq::empty())
            }
        } else {
            (done, cur.push(s.last()))
        }
    }
}

/// The non-empty pieces of `s` between `;` separators, in order.
pub open spec fn names_in(s: Seq<char>) -> Seq<Seq<char>> {
    let (done, cur) = name_scan(s);
    if cur.len() > 0 {
        done.push(cur)
    } else {
        done
    }
}

/// Splits the `;`-separated list of names that the tracker returns, dropping empty
/// pieces.
pub fn split_names(list: &str) -> (names: Vec<String>)
    ensures
        names@.len() == names_in(list@).len(),
        forall|i: int| 0 <= i < names@.len() ==> #[trigger] names@[i]@ == names_in(list@)[i],
{
    let cs = chars_of(list);
    let mut names: Vec<String> = Vec::new();
    let mut start: usize = 0;
    let mut i: usize = 0;
    while i < cs.len()
        invariant
            cs@ == list@,
            start <= i <= cs@.len(),
            name_scan(cs@.take(i as int)).1 == cs@.subrange(start as int, i as int),
            names@.len() == name_scan(cs@.take(i as int)).0.len(),
            forall|k: int|
                0 <= k < names@.len() ==> #[trigger] names@[k]@ == name_scan(
                    cs@.take(i as int),
                ).0[k],
        decreases cs@.len() - i,
    {
        assert(cs@.take(i + 1).drop_last() == cs@.take(i as int));
        if cs[i] == ';' {
            if start < i {
                let name = string_of(&cs, start, i);
                names.push(name);
            }
            start = i + 1;
        }
        i = i + 1;
        assert(cs@.subrange(start as int, i as int) =~= if cs@[i - 1] == ';' {
            Seq::empty()
        } else {
            cs@.subrange(start as int, i - 1).push(cs@[i - 1])
        });
    }
    assert(cs@.take(cs@.len() as int) == cs@);
    if start < cs.len() {
        let name = string_of(&cs, start, cs.len());
        names.push(name);
    }
    names
}

/// Every name that `split_names` returns is non-empty and holds no `;`.
pub proof fn lemma_names_are_clean(s: Seq<char>)
    ensures
        forall|i: int|
            0 <= i < names_in(s).len() ==> #[trigger] names_in(s)[i].len() > 0 && !names_in(
                s,
            )[i].contains(';'),
{
    lemma_name_scan_clean(s);
}

/// The `;`-separated text of the names `names`.
pub open spec fn joined_names(names: Seq<Seq<char>>) -> Seq<char>
    decreases names.len(),
{
    if names.len() == 0 {
        Seq::empty()
    } else if names.len() == 1 {
        names[0]
    } else {
        joined_names(names.drop_last()) + seq![';'] + names.last()
    }
}

proof fn lemma_name_scan_append(p: Seq<char>, t: Seq<char>)
    requires
        !t.contains(';'),
    ensures
        name_scan(p + t) == (name_scan(p).0, name_scan(p).1 + t),
    decreases t.len(),
{
    if t.len() == 0 {
        assert(p + t =~= p);
        assert(name_scan(p).1 + t =~= name_scan(p).1);
    } else {
        let u = t.drop_last();
        assert(!u.contains(';')) by {
            if u.contains(';') {
                let i = choose|i: int| 0 <= i < u.len() && u[i] == ';';
                assert(t[i] == ';');
            }
        }
        lemma_name_scan_append(p, u);
        assert((p + t).drop_last() =~= p + u);
        assert((p + t).last() == t.last());
        assert(t.last() != ';') by {
            assert(t[t.len() - 1] == t.last());
        }
        assert((name_scan(p).1 + u).push(t.last()) =~= name_scan(p).1 + t);
    }
}

proof fn lemma_scan_joined(names: Seq<Seq<char>>)
    requires
        names.len() > 0,
        forall|i: int| 0 <= i < names.len() ==> #[trigger] names[i].len() > 0 && !names[i].contains(';'),
    ensures
        name_scan(joined_names(names)) == (names.drop_last(), names.last()),
    decreases names.len(),
{
    if names.len() == 1 {
        lemma_name_scan_append(Seq::empty(), names[0]);
        assert(Seq::<char>::empty() + names[0] =~= names[0]);
        assert(names.drop_last() =~= Seq::<Seq<char>>::empty());
        assert(Seq::<char>::empty() + names[0] == names[0]);
    } else {
        let rest = names.drop_last();
        assert forall|i: int| 0 <= i < rest.len() implies #[trigger] rest[i].len() > 0 && !rest[i].contains(';') by {
            assert(rest[i] == names[i]);
        }
        lemma_scan_joined(rest);
        let j = joined_names(rest);
        assert(rest.last() == names[names.len() - 2]);
        assert((j + seq![';']).drop_last() =~= j);
        assert(name_scan(j + seq![';']) == (rest.drop_last().push(rest.last()), Seq::<char>::empty()));
        assert(rest.drop_last().push(rest.last()) =~= rest);
        assert(names.last() == names[names.len() - 1]);
        lemma_name_scan_append(j + seq![';'], names.last());
        assert(Seq::<char>::empty() + names.last() =~= names.last());
    }
}

/// Splitting the `;`-separated text of non-empty names that hold no `;` gives back
/// exactly those names, in order: every other character, `,` and white space
/// among them, stays inside its name.
pub proof fn lemma_split_joined_names(names: Seq<Seq<char>>)
    requires
        forall|i: int| 0 <= i < names.len() ==> #[trigger] names[i].len() > 0 && !names[i].contains(';'),
    ensures
        names_in(joined_names(names)) == names,
{
    if names.len() > 0 {
        lemma_scan_joined(names);
        assert(names.last() == names[names.len() - 1]);
        assert(names.drop_last().push(names.last()) =~= names);
    } else {
        assert(name_scan(Seq::<char>::empty()) == (Seq::<Seq<char>>::empty(), Seq::<char>::empty()));
    }
}

proof fn lemma_name_scan_after_separator(a: Seq<char>, b: Seq<char>)
    ensures
        name_scan(a + seq![';'] + b) == (names_in(a) + name_scan(b).0, name_scan(b).1),
    decreases b.len(),
{
    let sa = a + seq![';'];
    if b.len() == 0 {
        assert(sa + b =~= sa);
        assert(sa.drop_last() =~= a);
        assert(names_in(a) + Seq::<Seq<char>>::empty() =~= names_in(a));
    } else {
        let b0 = b.drop_last();
        lemma_name_scan_after_separator(a, b0);
        assert((sa + b).drop_last() =~= sa + b0);
        assert((sa + b).last() == b.last());
        let (d0, c0) = name_scan(b0);
        if b.last() == ';' {
            if c0.len() > 0 {
                assert((names_in(a) + d0).push(c0) =~= names_in(a) + d0.push(c0));
            }
        }
    }
}

/// A name list splits piece by piece: the names of two lists joined by a `;` are
/// the names of the first followed by the names of the second. A `;` at either end
/// adds no name.
pub proof fn lemma_split_concatenation(a: Seq<char>, b: Seq<char>)
    ensures
        names_in(a + seq![';'] + b) == names_in(a) + names_in(b),
        names_in(a + seq![';']) == names_in(a),
{
    lemma_name_scan_after_separator(a, b);
    let (d, c) = name_scan(b);
    if c.len() > 0 {
        assert((names_in(a) + d).push(c) =~= names_in(a) + d.push(c));
    }
    lemma_name_scan_after_separator(a, Seq::empty());
    assert(a + seq![';'] + Seq::<char>::empty() =~= a + seq![';']);
    assert(names_in(a) + Seq::<Seq<char>>::empty() =~= names_in(a));
}

/// In particular a list of two names splits into those two names.
pub proof fn lemma_split_two_names(n1: Seq<char>, n2: Seq<char>)
    requires
        n1.len() > 0,
        n2.len() > 0,
        !n1.contains(';'),
        !n2.contains(';'),
    ensures
        names_in(n1 + seq![';'] + n2) == seq![n1, n2],
{
    let names = seq![n1, n2];
    assert(names[0] == n1 && names[1] == n2);
    assert(names.drop_last() =~= seq![n1]);
    assert(joined_names(seq![n1]) == n1);
    assert(joined_names(names) == n1 + seq![';'] + n2);
    lemma_split_joined_names(names);
}

proof fn lemma_name_scan_clean(s: Seq<char>)
    ensures
        forall|i: int|
            0 <= i < name_scan(s).0.len() ==> #[trigger] name_scan(s).0[i].len() > 0
                && !name_scan(s).0[i].contains(';'),
        !name_scan(s).1.contains(';'),
    decreases s.len(),
{
    if s.len() > 0 {
        lemma_name_scan_clean(s.drop_last());
        let (done, cur) = name_scan(s.drop_last());
        if s.last() != ';' {
            assert forall|j: int| 0 <= j < cur.push(s.last()).len() implies cur.push(
                s.last(),
            )[j] != ';' by {
                if j < cur.len() {
                    assert(cur[j] != ';');
                }
            }
        }
    }
}

// ---------------------------------------------------------------------------
// Trimming
// ---------------------------------------------------------------------------

/// Whether `c` is white space in the sense of Unicode (what `char::is_whitespace` tests).
pub open spec fn is_white_space(c: char) -> bool {
    let u = c as u32;
    ||| 0x09 <= u <= 0x0d
    ||| u == 0x20
    ||| u == 0x85
    ||| u == 0xa0
    ||| u == 0x1680
    ||| 0x2000 <= u <= 0x200a
    ||| u == 0x2028
    ||| u == 0x2029
    ||| u == 0x202f
    ||| u == 0x205f
    ||| u == 0x3000
}

/// Whether `c` is a control character (general category Cc; what `char::is_control`
/// tests).
pub open spec fn is_control_char(c: char) -> bool {
    let u = c as u32;
    u <= 0x1f || 0x7f <= u <= 0x9f
}

/// Whether `c` ends a liveness error message: a `;` or a control character.
pub open spec fn is_message_tail(c: char) -> bool {
    c == ';' || is_control_char(c)
}

/// `s` without its leading white space.
pub open spec fn trim_start(s: Seq<char>) -> Seq<char>
    decreases s.len(),
{
    if s.len() > 0 && is_white_space(s[0]) {
        trim_start(s.drop_first())
    } else {
        s
    }
}

/// `s` without its trailing white space.
pub open spec fn trim_end(s: Seq<char>) -> Seq<char>
    decreases s.len(),
{
    if s.len() > 0 && is_white_space(s.last()) {
        trim_end(s.drop_last())
    } else {
        s
    }
}

/// `s` without leading and trailing white space (what `str::trim` returns).
pub open spec fn trim(s: Seq<char>) -> Seq<char> {
    trim_end(trim_start(s))
}

/// `s` without its trailing `;` and control characters.
pub open spec fn trim_message_tail(s: Seq<char>) -> Seq<char>
    decreases s.len(),
{
    if s.len() > 0 && is_message_tail(s.last()) {
        trim_message_tail(s.drop_last())
    } else {
        s
    }
}

fn white_space(c: char) -> (b: bool)
    ensures
        b == is_white_space(c),
{
    let u = c as u32;
    (0x09 <= u && u <= 0x0d) || u == 0x20 || u == 0x85 || u == 0xa0 || u == 0x1680 || (0x2000
        <= u && u <= 0x200a) || u == 0x2028 || u == 0x2029 || u == 0x202f || u == 0x205f || u
        == 0x3000
}

fn message_tail(c: char) -> (b: bool)
    ensures
        b == is_message_tail(c),
{
    let u = c as u32;
    c == ';' || u <= 0x1f || (0x7f <= u && u <= 0x9f)
}

/// The bounds `(a, b)` of `trim(cs[..])` within `cs`.
fn trim_bounds(cs: &Vec<char>) -> (r: (usize, usize))
    ensures
        r.0 <= r.1 <= cs@.len(),
        cs@.subrange(r.0 as int, r.1 as int) == trim(cs@),
{
    let n = cs.len();
    let mut a: usize = 0;
    assert(cs@.subrange(0, n as int) == cs@);
    while a < n && white_space(cs[a])
        invariant
            a <= n == cs@.len(),
            trim_start(cs@) == trim_start(cs@.subrange(a as int, n as int)),
        decreases n - a,
    {
        assert(cs@.subrange(a as int, n as int).drop_first() == cs@.subrange(a + 1, n as int));
        a = a + 1;
    }
    assert(trim_start(cs@.subrange(a as int, n as int)) == cs@.subrange(a as int, n as int));
    let mut b: usize = n;
    while b > a && white_space(cs[b - 1])
        invariant
            a <= b <= n == cs@.len(),
            trim(cs@) == trim_end(cs@.subrange(a as int, b as int)),
        decreases b - a,
    {
        assert(cs@.subrange(a as int, b as int).drop_last() == cs@.subrange(a as int, b - 1));
        b = b - 1;
    }
    (a, b)
}

proof fn lemma_trim_start_clean(s: Seq<char>)
    ensures
        trim_start(s).len() > 0 ==> !is_white_space(trim_start(s)[0]),
    decreases s.len(),
{
    if s.len() > 0 && is_white_space(s[0]) {
        lemma_trim_start_clean(s.drop_first());
    }
}

proof fn lemma_trim_end_prefix(s: Seq<char>)
    ensures
        trim_end(s).len() <= s.len(),
        trim_end(s) == s.take(trim_end(s).len() as int),
        trim_end(s).len() > 0 ==> !is_white_space(trim_end(s).last()),
    decreases s.len(),
{
    if s.len() > 0 && is_white_space(s.last()) {
        lemma_trim_end_prefix(s.drop_last());
        let t = trim_end(s.drop_last());
        assert(s.drop_last().take(t.len() as int) == s.take(t.len() as int));
    } else {
        assert(s.take(s.len() as int) == s);
    }
}

/// What `trimmed` returns neither begins nor ends with white space, and trimming it
/// again changes nothing.
pub proof fn lemma_trim_clean(s: Seq<char>)
    ensures
        trim(s).len() > 0 ==> !is_white_space(trim(s)[0]) && !is_white_space(trim(s).last()),
        trim(trim(s)) == trim(s),
{
    let a = trim_start(s);
    lemma_trim_start_clean(s);
    lemma_trim_end_prefix(a);
    let t = trim(s);
    if t.len() > 0 {
        assert(t[0] == a[0]);
    }
    lemma_trim_end_prefix(t);
    assert(trim_start(t) == t);
    if t.len() > 0 {
        assert(trim_end(t) == t);
    }
}

/// Returns `s` without leading and trailing white space.
pub fn trimmed(s: &str) -> (t: String)
    ensures
        t@ == trim(s@),
{
    let cs = chars_of(s);
    let (a, b) = trim_bounds(&cs);
    string_of(&cs, a, b)
}

// ---------------------------------------------------------------------------
// Liveness error attribute
// ---------------------------------------------------------------------------

/// The message in a liveness error attribute `LivenessError=<message>;`: what follows
/// the first `=`, without trailing `;` and control characters; empty when there is
/// no `=`.
pub open spec fn liveness_error_message(attr: Seq<char>) -> Seq<char> {
    if attr.contains('=') {
        let start = choose|i: int| 0 <= i < attr.len() && attr[i] == '=' && !attr.take(i).contains('=');
        trim_message_tail(attr.subrange(start + 1, attr.len() as int))
    } else {
        Seq::empty()
    }
}

proof fn lemma_first_occurrence(s: Seq<char>, c: char)
    requires
        s.contains(c),
    ensures
        exists|i: int| 0 <= i < s.len() && s[i] == c && !s.take(i).contains(c),
    decreases s.len(),
{
    if s[0] == c {
        assert(s.take(0).len() == 0);
    } else {
        let k = choose|k: int| 0 <= k < s.len() && s[k] == c;
        assert(s.drop_first()[k - 1] == c);
        lemma_first_occurrence(s.drop_first(), c);
        let j = choose|j: int|
            0 <= j < s.drop_first().len() && s.drop_first()[j] == c && !s.drop_first().take(j).contains(c);
        assert(s.take(j + 1) == seq![s[0]] + s.drop_first().take(j));
        assert(s[j + 1] == c);
        assert(!s.take(j + 1).contains(c)) by {
            if s.take(j + 1).contains(c) {
                let t = s.take(j + 1);
                let m = choose|m: int| 0 <= m < t.len() && #[trigger] t[m] == c;
                if m > 0 {
                    assert(s.drop_first().take(j)[m - 1] == c);
                }
            }
        }
    }
}

proof fn lemma_message_tail_clean(s: Seq<char>)
    ensures
        trim_message_tail(s).len() > 0 ==> !is_message_tail(trim_message_tail(s).last()),
        trim_message_tail(s).len() <= s.len(),
        trim_message_tail(s) == s.take(trim_message_tail(s).len() as int),
    decreases s.len(),
{
    if s.len() > 0 && is_message_tail(s.last()) {
        lemma_message_tail_clean(s.drop_last());
        let t = trim_message_tail(s.drop_last());
        assert(s.drop_last().take(t.len() as int) == s.take(t.len() as int));
    } else {
        assert(s.take(s.len() as int) == s);
    }
}

/// A liveness error message never ends with `;` or a control character, and is a
/// piece of the attribute text: what follows its first `=`, cut short.
pub proof fn lemma_liveness_message_clean(attr: Seq<char>)
    ensures
        liveness_error_message(attr).len() > 0 ==> {
            &&& liveness_error_message(attr).last() != ';'
            &&& !is_control_char(liveness_error_message(attr).last())
        },
        attr.contains('=') ==> exists|i: int|
            0 <= i < attr.len() && attr[i] == '=' && !attr.take(i).contains('=')
                && liveness_error_message(attr) == attr.subrange(i + 1, attr.len() as int).take(
                liveness_error_message(attr).len() as int,
            ),
{
    if attr.contains('=') {
        lemma_first_occurrence(attr, '=');
        let start = choose|j: int| 0 <= j < attr.len() && attr[j] == '=' && !attr.take(j).contains('=');
        lemma_message_tail_clean(attr.subrange(start + 1, attr.len() as int));
    }
}

/// Extracts the message from the `LivenessError` attribute text that the tracker
/// returns; empty when the text holds no message.
pub fn liveness_error_text(attr: &str) -> (msg: String)
    ensures
        msg@ == liveness_error_message(attr@),
{
    let cs = chars_of(attr);
    let n = cs.len();
    let mut i: usize = 0;
    while i < n && cs[i] != '='
        invariant
            i <= n == cs@.len(),
            !cs@.take(i as int).contains('='),
        decreases n - i,
    {
        assert(cs@.take(i + 1) == cs@.take(i as int).push(cs@[i as int]));
        i = i + 1;
    }
    if i == n {
        assert(cs@.take(n as int) == cs@);
        return String::new();
    }
    proof {
        let start = choose|j: int| 0 <= j < cs@.len() && cs@[j] == '=' && !cs@.take(j).contains('=');
        assert(cs@[i as int] == '=');
        if start < i {
            assert(cs@.take(i as int)[start] == '=');
        } else if start > i {
            assert(cs@.take(start)[i as int] == '=');
        }
    }
    let mut b: usize = n;
    while b > i + 1 && message_tail(cs[b - 1])
        invariant
            i + 1 <= b <= n == cs@.len(),
            trim_message_tail(cs@.subrange(i + 1, n as int)) == trim_message_tail(
                cs@.subrange(i + 1, b as int),
            ),
        decreases b - i,
    {
        assert(cs@.subrange(i + 1, b as int).drop_last() == cs@.subrange(i + 1, b - 1));
        b = b - 1;
    }
    string_of(&cs, i + 1, b)
}

} // verus!
