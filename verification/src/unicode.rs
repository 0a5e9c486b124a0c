//! `UNICODE_STRING` construction: UTF-16 encoding of Rust strings, the
//! length limits of a counted string, a fixed-capacity local string and an
//! owned one, and decoding back to a Rust string.

use vstd::prelude::*;

verus! {

/// Why a counted string could not be built or read.
#[derive(Debug, Clone, Copy, PartialEq, Eq, Structural)]
pub enum UnicodeStringError {
    TooLong,
    AllocationFailed,
    InvalidUtf16,
}

impl UnicodeStringError {
    /// The human-readable description of the error.
    pub fn message(&self) -> (r: &'static str)
        ensures
            r@ == (match self {
                UnicodeStringError::TooLong => "UNICODE_STRING exceeds u16 length"@,
                UnicodeStringError::AllocationFailed => "UNICODE_STRING allocation failed"@,
                UnicodeStringError::InvalidUtf16 => "UNICODE_STRING contains invalid UTF-16"@,
            }),
    {
        match self {
            UnicodeStringError::TooLong => "UNICODE_STRING exceeds u16 length",
            UnicodeStringError::AllocationFailed => "UNICODE_STRING allocation failed",
            UnicodeStringError::InvalidUtf16 => "UNICODE_STRING contains invalid UTF-16",
        }
    }
}

/// The length fields of a kernel counted string, in bytes.
#[allow(non_snake_case, non_camel_case_types)]
#[derive(Debug, Clone, Copy, PartialEq, Eq, Structural)]
pub struct UNICODE_STRING {
    pub Length: u16,
    pub MaximumLength: u16,
}

/// The most UTF-16 units a counted string can describe, terminator
/// included: `u16::MAX / 2`.
pub const MAX_UNITS: usize = 32767;

/// The UTF-16 encoding of one character.
pub open spec fn utf16_of_char(c: char) -> Seq<u16> {
    let v = c as u32;
    if v < 0x10000 {
        seq![v as u16]
    } else {
        let w = (v - 0x10000) as u32;
        seq![(0xD800 + w / 1024) as u16, (0xDC00 + w % 1024) as u16]
    }
}

/// The UTF-16 encoding of a character sequence.
pub open spec fn utf16_encode(s: Seq<char>) -> Seq<u16>
    decreases s.len(),
{
    if s.len() == 0 {
        seq![]
    } else {
        utf16_of_char(s[0]) + utf16_encode(s.drop_first())
    }
}

/// Encoding distributes over concatenation.
pub proof fn lemma_encode_append(a: Seq<char>, b: Seq<char>)
    ensures
        utf16_encode(a + b) == utf16_encode(a) + utf16_encode(b),
    decreases a.len(),
{
    if a.len() == 0 {
        assert(a + b =~= b);
        assert(utf16_encode(a) =~= Seq::<u16>::empty());
        assert(utf16_encode(a) + utf16_encode(b) =~= utf16_encode(b));
    } else {
        assert((a + b).drop_first() =~= a.drop_first() + b);
        lemma_encode_append(a.drop_first(), b);
        assert((a + b)[0] == a[0]);
        assert(utf16_of_char(a[0]) + (utf16_encode(a.drop_first()) + utf16_encode(b))
            =~= (utf16_of_char(a[0]) + utf16_encode(a.drop_first())) + utf16_encode(b));
    }
}

proof fn lemma_encode_single(c: char)
    ensures
        utf16_encode(seq![c]) == utf16_of_char(c),
{
    assert(seq![c].drop_first() =~= Seq::<char>::empty());
    assert(utf16_encode(Seq::<char>::empty()) =~= Seq::<u16>::empty());
    assert(utf16_of_char(c) + Seq::<u16>::empty() =~= utf16_of_char(c));
}

proof fn lemma_encode_take(s: Seq<char>, i: int)
    requires
        0 <= i < s.len(),
    ensures
        utf16_encode(s.take(i + 1)) == utf16_encode(s.take(i)) + utf16_of_char(s[i]),
{
    assert(s.take(i + 1) =~= s.take(i) + seq![s[i]]);
    lemma_encode_append(s.take(i), seq![s[i]]);
    lemma_encode_single(s[i]);
}

fn push_char_units(out: &mut Vec<u16>, c: char)
    ensures
        final(out)@ == old(out)@ + utf16_of_char(c),
{
    let v = c as u32;
    if v < 0x10000 {
        out.push(v as u16);
    } else {
        let w = v - 0x10000;
        assert(w / 1024 < 1024);
        out.push((0xD800 + w / 1024) as u16);
        out.push((0xDC00 + w % 1024) as u16);
    }
    assert(final(out)@ =~= old(out)@ + utf16_of_char(c));
}

/// Encodes a string as UTF-16 units.
pub fn encode_utf16(value: &str) -> (r: Vec<u16>)
    ensures
        r@ == utf16_encode(value@),
{
    let mut out: Vec<u16> = Vec::new();
    for c in it: value.chars()
        invariant
            it.seq() == value@,
            0 <= it.index() <= value@.len(),
            out@ == utf16_encode(value@.take(it.index() as int)),
    {
        proof {
            lemma_encode_take(value@, it.index() as int);
        }
        push_char_units(&mut out, c);
    }
    assert(value@.take(value@.len() as int) =~= value@);
    out
}

/// The number of UTF-16 units `value` encodes to, counted without encoding
/// it and capped at `MAX_UNITS`.
pub fn utf16_len_capped(value: &str) -> (n: usize)
    ensures
        n as int == if utf16_encode(value@).len() < MAX_UNITS {
            utf16_encode(value@).len() as int
        } else {
            MAX_UNITS as int
        },
{
    let mut n: usize = 0;
    for c in it: value.chars()
        invariant
            it.seq() == value@,
            0 <= it.index() <= value@.len(),
            n as int == if utf16_encode(value@.take(it.index() as int)).len() < MAX_UNITS {
                utf16_encode(value@.take(it.index() as int)).len() as int
            } else {
                MAX_UNITS as int
            },
    {
        proof {
            lemma_encode_take(value@, it.index() as int);
        }
        let units: usize = if (c as u32) < 0x10000 {
            1
        } else {
            2
        };
        assert(utf16_of_char(c).len() == units);
        if n < MAX_UNITS {
            n = if n + units >= MAX_UNITS {
                MAX_UNITS
            } else {
                n + units
            };
        }
    }
    assert(value@.take(value@.len() as int) =~= value@);
    n
}

pub open spec fn is_high_surrogate(u: u16) -> bool {
    0xD800 <= u <= 0xDBFF
}

pub open spec fn is_low_surrogate(u: u16) -> bool {
    0xDC00 <= u <= 0xDFFF
}

/// UTF-16 decoding: `None` when a surrogate is unpaired.
pub open spec fn utf16_decode(u: Seq<u16>) -> Option<Seq<char>>
    decreases u.len(),
{
    if u.len() == 0 {
        Some(seq![])
    } else if !(0xD800 <= u[0] <= 0xDFFF) {
        match utf16_decode(u.drop_first()) {
            Some(rest) => Some(seq![(u[0] as u32) as char] + rest),
            None => None,
        }
    } else if is_high_surrogate(u[0]) && u.len() >= 2 && is_low_surrogate(u[1]) {
        let v = (0x10000 + (u[0] - 0xD800) * 1024 + (u[1] - 0xDC00)) as u32;
        match utf16_decode(u.subrange(2, u.len() as int)) {
            Some(rest) => Some(seq![v as char] + rest),
            None => None,
        }
    } else {
        None
    }
}

proof fn lemma_char_scalar(c: char)
    ensures
        (c as u32) <= 0xD7FF || (0xE000 <= (c as u32) <= 0x10FFFF),
        ((c as u32) as char) == c,
{
}

/// Decoding undoes encoding: every string survives the round trip through
/// UTF-16.
pub proof fn lemma_decode_encode(s: Seq<char>)
    ensures
        utf16_decode(utf16_encode(s)) == Some(s),
    decreases s.len(),
{
    if s.len() == 0 {
        assert(utf16_encode(s) =~= Seq::<u16>::empty());
    } else {
        let c = s[0];
        let e = utf16_encode(s);
        let rest = utf16_encode(s.drop_first());
        lemma_decode_encode(s.drop_first());
        let v = c as u32;
        lemma_char_scalar(c);
        assert(e == utf16_of_char(c) + rest);
        if v < 0x10000 {
            assert(!(0xD800 <= v <= 0xDFFF));
            assert(e[0] == v as u16);
            assert(e.drop_first() =~= rest);
            assert((e[0] as u32) as char == c);
            assert(seq![c] + s.drop_first() =~= s);
        } else {
            let w = (v - 0x10000) as u32;
            assert(w < 0x100000);
            let hi = (0xD800 + w / 1024) as u16;
            let lo = (0xDC00 + w % 1024) as u16;
            assert(e[0] == hi);
            assert(e[1] == lo);
            assert(is_high_surrogate(hi));
            assert(is_low_surrogate(lo));
            assert(e.subrange(2, e.len() as int) =~= rest);
            assert(0x10000 + (hi - 0xD800) * 1024 + (lo - 0xDC00) == v) by {
                assert(w == (w / 1024) * 1024 + w % 1024);
            }
            assert(seq![c] + s.drop_first() =~= s);
        }
    }
}

/// Encoding undoes decoding: well-formed UTF-16 decodes to a string whose
/// encoding is exactly the units decoded.
pub proof fn lemma_encode_decode(u: Seq<u16>)
    requires
        utf16_decode(u) is Some,
    ensures
        utf16_encode(utf16_decode(u)->0) == u,
    decreases u.len(),
{
    if u.len() == 0 {
        assert(utf16_encode(Seq::<char>::empty()) =~= Seq::<u16>::empty());
        assert(utf16_decode(u)->0 =~= Seq::<char>::empty());
    } else if !(0xD800 <= u[0] <= 0xDFFF) {
        let rest_u = u.drop_first();
        lemma_encode_decode(rest_u);
        let rest = utf16_decode(rest_u)->0;
        let c = (u[0] as u32) as char;
        let s = seq![c] + rest;
        assert(utf16_decode(u)->0 == s);
        assert(c as u32 == u[0] as u32);
        assert(s[0] == c);
        assert(s.drop_first() =~= rest);
        assert(utf16_of_char(c) =~= seq![u[0]]);
        assert(utf16_encode(s) == utf16_of_char(c) + utf16_encode(rest));
        assert(seq![u[0]] + rest_u =~= u);
    } else {
        let hi = u[0];
        let lo = u[1];
        let rest_u = u.subrange(2, u.len() as int);
        lemma_encode_decode(rest_u);
        let rest = utf16_decode(rest_u)->0;
        let a = (hi - 0xD800) as int;
        let b = (lo - 0xDC00) as int;
        let v = (0x10000 + a * 1024 + b) as u32;
        assert(0 <= a < 1024 && 0 <= b < 1024);
        assert(0x10000 <= 0x10000 + a * 1024 + b <= 0x10FFFF) by (nonlinear_arith)
            requires
                0 <= a < 1024,
                0 <= b < 1024,
        ;
        let c = v as char;
        let s = seq![c] + rest;
        assert(utf16_decode(u)->0 == s);
        assert(c as u32 == v);
        let w = (v - 0x10000) as u32;
        assert(w == a * 1024 + b);
        vstd::arithmetic::div_mod::lemma_fundamental_div_mod_converse(w as int, 1024, a, b);
        assert(utf16_of_char(c) =~= seq![hi, lo]);
        assert(s[0] == c);
        assert(s.drop_first() =~= rest);
        assert(utf16_encode(s) == utf16_of_char(c) + utf16_encode(rest));
        assert(seq![hi, lo] + rest_u =~= u);
    }
}

/// The documented behaviour of `char::from_u32`: a character for every
/// scalar value, `None` for surrogates and values above `0x10FFFF`.
#[verifier::external_body]
fn char_from_u32(v: u32) -> (r: Option<char>)
    ensures
        (v <= 0xD7FF || 0xE000 <= v <= 0x10FFFF) ==> r == Some(v as char),
        !(v <= 0xD7FF || 0xE000 <= v <= 0x10FFFF) ==> r is None,
{
    char::from_u32(v)
}

/// `String::push`: appends one character.
#[verifier::external_body]
pub(crate) fn string_push(s: &mut String, c: char)
    ensures
        final(s)@ == old(s)@.push(c),
{
    s.push(c)
}

/// `String::try_reserve`: on success the string has room for `additional`
/// more bytes; whether an allocation succeeds depends on the machine, but a
/// request for nothing more never allocates (the capacity is already
/// sufficient) and so succeeds. The contents never change; the capacity is
/// left unsaid.
#[verifier::external_body]
fn string_try_reserve(s: &mut String, additional: usize) -> (ok: bool)
    ensures
        final(s)@ == old(s)@,
        additional == 0 ==> ok,
{
    s.try_reserve(additional).is_ok()
}

/// Decodes UTF-16 units into `out`, failing on an unpaired surrogate.
fn decode_into(units: &[u16], out: &mut String) -> (ok: bool)
    requires
        old(out)@.len() == 0,
    ensures
        ok == (utf16_decode(units@) is Some),
        ok ==> final(out)@ == utf16_decode(units@)->0,
{
    let n = units.len();
    let mut i: usize = 0;
    assert(units@.subrange(0, n as int) =~= units@);
    proof {
        match utf16_decode(units@) {
            Some(rest) => {
                assert(out@ + rest =~= rest);
            },
            None => {},
        }
    }
    while i < n
        invariant
            n == units@.len(),
            0 <= i <= n,
            utf16_decode(units@) == (match utf16_decode(units@.subrange(i as int, n as int)) {
                Some(rest) => Some(out@ + rest),
                None => None,
            }),
        decreases n - i,
    {
        let u0 = units[i];
        let ghost tail = units@.subrange(i as int, n as int);
        assert(tail[0] == u0);
        if u0 < 0xD800 || u0 > 0xDFFF {
            let c = match char_from_u32(u0 as u32) {
                Some(c) => c,
                None => {
                    assert(false);
                    return false;
                },
            };
            assert(tail.drop_first() =~= units@.subrange(i + 1, n as int));
            proof {
                match utf16_decode(units@.subrange(i + 1, n as int)) {
                    Some(rest) => {
                        assert(out@ + (seq![c] + rest) =~= out@.push(c) + rest);
                    },
                    None => {},
                }
            }
            string_push(out, c);
            i = i + 1;
        } else if u0 <= 0xDBFF && i + 1 < n && units[i + 1] >= 0xDC00 && units[i + 1] <= 0xDFFF {
            let u1 = units[i + 1];
            assert(tail[1] == u1);
            let v: u32 = 0x10000 + (u0 as u32 - 0xD800) * 1024 + (u1 as u32 - 0xDC00);
            let c = match char_from_u32(v) {
                Some(c) => c,
                None => {
                    assert(false);
                    return false;
                },
            };
            assert(tail.subrange(2, tail.len() as int) =~= units@.subrange(i + 2, n as int));
            proof {
                match utf16_decode(units@.subrange(i + 2, n as int)) {
                    Some(rest) => {
                        assert(out@ + (seq![c] + rest) =~= out@.push(c) + rest);
                    },
                    None => {},
                }
            }
            string_push(out, c);
            i = i + 2;
        } else {
            return false;
        }
    }
    assert(units@.subrange(n as int, n as int) =~= Seq::<u16>::empty());
    assert(out@ + Seq::<char>::empty() =~= out@);
    true
}

/// The bytes reserved before decoding `units` UTF-16 units: three per unit
/// (the most UTF-8 a unit can become), or `None` when that overflows.
pub fn utf16_reserve_bytes(units: usize) -> (r: Option<usize>)
    ensures
        units * 3 <= usize::MAX ==> r == Some((units * 3) as usize),
        units * 3 > usize::MAX ==> r is None,
{
    units.checked_mul(3)
}

/// Converts the UTF-16 units of a counted string into a Rust string:
/// `InvalidUtf16` for an unpaired surrogate, `AllocationFailed` when room for
/// three bytes per unit cannot be reserved. Whether the reservation succeeds
/// is the allocator's answer; `utf16_to_string_reserved` states what comes
/// back for each answer.
pub fn utf16_to_string(units: &[u16]) -> (r: Result<String, UnicodeStringError>)
    ensures
        units@.len() * 3 > usize::MAX ==> r == Err::<String, UnicodeStringError>(
            UnicodeStringError::TooLong,
        ),
        units@.len() == 0 ==> r is Ok && r->Ok_0@ == Seq::<char>::empty(),
        units@.len() * 3 <= usize::MAX ==> r == Err::<String, UnicodeStringError>(
            UnicodeStringError::AllocationFailed,
        ) || (match utf16_decode(units@) {
            Some(chars) => r is Ok && r->Ok_0@ == chars,
            None => r == Err::<String, UnicodeStringError>(UnicodeStringError::InvalidUtf16),
        }),
        r is Ok ==> utf16_encode(r->Ok_0@) == units@,
{
    let reserve = match utf16_reserve_bytes(units.len()) {
        Some(v) => v,
        None => return Err(UnicodeStringError::TooLong),
    };
    let mut out = String::new();
    let reserved = string_try_reserve(&mut out, reserve);
    utf16_to_string_reserved(units, out, reserved)
}

/// The part of `utf16_to_string` after the reservation, given the empty
/// string it reserved room in and whether the reservation succeeded:
/// `AllocationFailed` exactly when it did not; otherwise the decoded text, or
/// `InvalidUtf16` for an unpaired surrogate.
pub fn utf16_to_string_reserved(units: &[u16], out: String, reserved: bool) -> (r: Result<
    String,
    UnicodeStringError,
>)
    requires
        out@ == Seq::<char>::empty(),
    ensures
        !reserved ==> r == Err::<String, UnicodeStringError>(
            UnicodeStringError::AllocationFailed,
        ),
        reserved ==> match utf16_decode(units@) {
            Some(chars) => r is Ok && r->Ok_0@ == chars && utf16_encode(chars) == units@,
            None => r == Err::<String, UnicodeStringError>(UnicodeStringError::InvalidUtf16),
        },
{
    if !reserved {
        return Err(UnicodeStringError::AllocationFailed);
    }
    let mut out = out;
    if decode_into(units, &mut out) {
        proof {
            lemma_encode_decode(units@);
        }
        Ok(out)
    } else {
        Err(UnicodeStringError::InvalidUtf16)
    }
}

/// A borrowed counted-string view of a string's buffer.
pub struct UnicodeStringRef<'a> {
    inner: UNICODE_STRING,
    _marker: core::marker::PhantomData<&'a [u16]>,
}

impl<'a> UnicodeStringRef<'a> {
    pub closed spec fn view(&self) -> UNICODE_STRING {
        self.inner
    }

    pub fn as_ref(&self) -> (r: &UNICODE_STRING)
        ensures
            *r == self.view(),
    {
        &self.inner
    }
}

pub open spec fn min_usize(a: usize, b: usize) -> usize {
    if a <= b {
        a
    } else {
        b
    }
}

/// A counted string with a fixed buffer of `N` UTF-16 units that keeps a
/// terminating NUL, so at most `min(N, 32767) - 1` units of text.
pub struct LocalUnicodeString<const N: usize> {
    buffer: Vec<u16>,
    len: usize,
}

impl<const N: usize> LocalUnicodeString<N> {
    /// The usable capacity in units, terminator included.
    pub open spec fn cap() -> usize {
        min_usize(N, MAX_UNITS)
    }

    /// The text, as UTF-16 units.
    pub closed spec fn view(&self) -> Seq<u16> {
        self.buffer@.subrange(0, self.len as int)
    }

    /// The buffer has `N` units, the text leaves room for its terminator, and
    /// the unit after the text is that terminator.
    #[verifier::type_invariant]
    spec fn wf(&self) -> bool {
        &&& self.buffer@.len() == N
        &&& (self.len == 0 || self.len < Self::cap())
        &&& self.len <= N
        &&& (self.len < N ==> self.buffer@[self.len as int] == 0)
    }

    /// An empty string.
    pub fn new() -> (r: Self)
        ensures
            r@ == Seq::<u16>::empty(),
    {
        let buffer: Vec<u16> = vec![0u16; N];
        assert(buffer@.len() == N);
        let r = LocalUnicodeString { buffer, len: 0 };
        assert(r@ =~= Seq::<u16>::empty());
        r
    }

    /// A string holding `value`, or `TooLong` when its encoding and the
    /// terminator do not fit.
    pub fn from_str(value: &str) -> (r: Result<Self, UnicodeStringError>)
        ensures
            utf16_encode(value@).len() + 1 <= Self::cap() ==> r is Ok && r->Ok_0@
                == utf16_encode(value@),
            utf16_encode(value@).len() + 1 > Self::cap() ==> r == Err::<Self, UnicodeStringError>(
                UnicodeStringError::TooLong,
            ),
    {
        let mut out = Self::new();
        match out.try_push_str(value) {
            Ok(()) => {
                assert(Seq::<u16>::empty() + utf16_encode(value@) =~= utf16_encode(value@));
                Ok(out)
            },
            Err(e) => Err(e),
        }
    }

    /// Empties the string.
    pub fn clear(&mut self)
        ensures
            final(self)@ == Seq::<u16>::empty(),
    {
        proof {
            use_type_invariant(&*self);
        }
        // The terminator moves first, so the string is well formed at each
        // step; an empty string already has it in front.
        if self.len > 0 {
            self.buffer[0] = 0;
        }
        self.len = 0;
        assert(self.buffer@.subrange(0, 0) =~= Seq::<u16>::empty());
    }

    /// Appends `value`; fails with `TooLong`, leaving the string unchanged,
    /// when the result and its terminator would not fit.
    pub fn try_push_str(&mut self, value: &str) -> (r: Result<(), UnicodeStringError>)
        ensures
            old(self)@.len() + utf16_encode(value@).len() + 1 <= Self::cap() ==> r is Ok
                && final(self)@ == old(self)@ + utf16_encode(value@),
            old(self)@.len() + utf16_encode(value@).len() + 1 > Self::cap() ==> r == Err::<
                (),
                UnicodeStringError,
            >(UnicodeStringError::TooLong) && final(self)@ == old(self)@,
    {
        proof {
            use_type_invariant(&*self);
        }
        let cap: usize = if N <= MAX_UNITS {
            N
        } else {
            MAX_UNITS
        };
        let units = encode_utf16(value);
        let value_len = units.len();
        assert(self@.len() == self.len);
        if value_len >= cap || self.len + value_len + 1 > cap {
            return Err(UnicodeStringError::TooLong);
        }
        if value_len == 0 {
            assert(utf16_encode(value@) =~= Seq::<u16>::empty());
            assert(old(self)@ + Seq::<u16>::empty() =~= old(self)@);
            return Ok(());
        }
        let start = self.len;
        let end = start + value_len;
        // The new terminator and length come first, then the text in front
        // of them, so the string is well formed at each step.
        self.buffer[end] = 0;
        self.len = end;
        let mut idx: usize = 0;
        while idx < value_len
            invariant
                value_len == units@.len(),
                end == start + value_len,
                end + 1 <= cap,
                cap == Self::cap(),
                cap <= N,
                self.buffer@.len() == N,
                self.len == end,
                self.buffer@[end as int] == 0,
                0 <= idx <= value_len,
                forall|k: int| 0 <= k < start ==> self.buffer@[k] == old(self).buffer@[k],
                forall|k: int| 0 <= k < idx ==> self.buffer@[start + k] == units@[k],
            decreases value_len - idx,
        {
            self.buffer[start + idx] = units[idx];
            idx = idx + 1;
        }
        assert(self@ =~= old(self)@ + utf16_encode(value@));
        Ok(())
    }

    pub fn len(&self) -> (r: usize)
        ensures
            r == self@.len(),
    {
        proof {
            use_type_invariant(self);
        }
        self.len
    }

    pub fn is_empty(&self) -> (r: bool)
        ensures
            r == (self@.len() == 0),
    {
        proof {
            use_type_invariant(self);
        }
        self.len == 0
    }

    /// A counted-string view: `Length` is the text's byte length,
    /// `MaximumLength` the capacity's.
    pub fn as_unicode_ref(&self) -> (r: UnicodeStringRef<'_>)
        ensures
            r@.Length == self@.len() * 2,
            r@.MaximumLength == Self::cap() * 2,
    {
        proof {
            use_type_invariant(self);
        }
        let cap: usize = if N <= MAX_UNITS {
            N
        } else {
            MAX_UNITS
        };
        UnicodeStringRef {
            inner: UNICODE_STRING { Length: (self.len * 2) as u16, MaximumLength: (cap * 2) as u16 },
            _marker: core::marker::PhantomData,
        }
    }

    /// The text as UTF-16 units, without the terminator.
    pub fn as_utf16(&self) -> (r: &[u16])
        ensures
            r@ == self@,
    {
        proof {
            use_type_invariant(self);
        }
        vstd::slice::slice_subrange(self.buffer.as_slice(), 0, self.len)
    }

    /// The text followed by its NUL terminator, which a buffer of at least
    /// one unit always holds.
    pub fn as_utf16_with_nul(&self) -> (r: &[u16])
        requires
            N > 0,
        ensures
            r@ == self@.push(0),
    {
        proof {
            use_type_invariant(self);
        }
        let r = vstd::slice::slice_subrange(self.buffer.as_slice(), 0, self.len + 1);
        assert(r@ =~= self@.push(0));
        r
    }
}

/// The error of `core::fmt::Write`, which carries nothing.
#[verifier::external_type_specification]
#[verifier::external_body]
pub struct ExFmtError(core::fmt::Error);

/// `core::fmt::Error::default()`: the formatting error, which carries
/// nothing.
#[verifier::external_body]
fn fmt_error() -> core::fmt::Error {
    core::fmt::Error::default()
}

impl<const N: usize> core::fmt::Write for LocalUnicodeString<N> {
    /// Appends `s`; a string that would not fit is refused.
    fn write_str(&mut self, s: &str) -> (r: core::fmt::Result)
        ensures
            old(self)@.len() + utf16_encode(s@).len() + 1 <= Self::cap() ==> r is Ok && final(self)@
                == old(self)@ + utf16_encode(s@),
            old(self)@.len() + utf16_encode(s@).len() + 1 > Self::cap() ==> r is Err,
            r is Err ==> final(self)@ == old(self)@,
    {
        match self.try_push_str(s) {
            Ok(()) => Ok(()),
            Err(_) => Err(fmt_error()),
        }
    }
}

/// A counted string that owns its NUL-terminated UTF-16 buffer.
pub struct OwnedUnicodeString {
    inner: UNICODE_STRING,
    buffer: Vec<u16>,
}

impl OwnedUnicodeString {
    /// The text, as UTF-16 units.
    pub closed spec fn view(&self) -> Seq<u16> {
        self.buffer@.subrange(0, self.buffer@.len() - 1)
    }

    pub closed spec fn header(&self) -> UNICODE_STRING {
        self.inner
    }

    /// The buffer ends in its NUL, and the header counts the units before it
    /// and the whole buffer.
    #[verifier::type_invariant]
    spec fn wf(&self) -> bool {
        &&& self.buffer@.len() >= 1
        &&& self.buffer@.len() <= MAX_UNITS
        &&& self.buffer@.last() == 0
        &&& self.inner.Length == (self.buffer@.len() - 1) * 2
        &&& self.inner.MaximumLength == self.buffer@.len() * 2
    }

    /// Builds the counted string for `value`, or `TooLong` when its encoding
    /// and terminator exceed 32767 units. The buffer is a vector of this
    /// value's own, so no allocator answer enters.
    pub fn new(value: &str) -> (r: Result<Self, UnicodeStringError>)
        ensures
            utf16_encode(value@).len() + 1 <= MAX_UNITS ==> r is Ok && r->Ok_0@
                == utf16_encode(value@) && r->Ok_0.header().Length == utf16_encode(value@).len()
                * 2 && r->Ok_0.header().MaximumLength == (utf16_encode(value@).len() + 1) * 2,
            utf16_encode(value@).len() + 1 > MAX_UNITS ==> r == Err::<Self, UnicodeStringError>(
                UnicodeStringError::TooLong,
            ),
    {
        Self::new_with_allocation(value, true)
    }

    /// Builds the counted string for `value` given whether an allocator
    /// granted its buffer: `TooLong` when the encoding and terminator exceed
    /// 32767 units (checked before any allocation), else `AllocationFailed`
    /// when the buffer was refused, else the string.
    pub fn new_with_allocation(value: &str, allocated: bool) -> (r: Result<
        Self,
        UnicodeStringError,
    >)
        ensures
            utf16_encode(value@).len() + 1 > MAX_UNITS ==> r == Err::<Self, UnicodeStringError>(
                UnicodeStringError::TooLong,
            ),
            utf16_encode(value@).len() + 1 <= MAX_UNITS && !allocated ==> r == Err::<
                Self,
                UnicodeStringError,
            >(UnicodeStringError::AllocationFailed),
            utf16_encode(value@).len() + 1 <= MAX_UNITS && allocated ==> r is Ok
                && r->Ok_0@ == utf16_encode(value@) && r->Ok_0.header().Length == utf16_encode(
                value@,
            ).len() * 2 && r->Ok_0.header().MaximumLength == (utf16_encode(value@).len() + 1)
                * 2,
    {
        if utf16_len_capped(value) >= MAX_UNITS {
            return Err(UnicodeStringError::TooLong);
        }
        if !allocated {
            return Err(UnicodeStringError::AllocationFailed);
        }
        let mut buffer = encode_utf16(value);
        let len = buffer.len();
        buffer.push(0);
        let inner = UNICODE_STRING { Length: (len * 2) as u16, MaximumLength: ((len + 1) * 2) as u16 };
        let r = OwnedUnicodeString { inner, buffer };
        assert(r@ =~= utf16_encode(value@));
        Ok(r)
    }

    /// The counted string; its buffer stays owned by this value.
    pub fn as_unicode(&self) -> (r: &UNICODE_STRING)
        ensures
            *r == self.header(),
    {
        &self.inner
    }

    /// The text as UTF-16 units (`Length / 2` of them).
    pub fn as_utf16(&self) -> (r: &[u16])
        ensures
            r@ == self@,
            r@.len() == self.header().Length / 2,
    {
        proof {
            use_type_invariant(self);
        }
        let len = (self.inner.Length / 2) as usize;
        vstd::slice::slice_subrange(self.buffer.as_slice(), 0, len)
    }

    /// The buffer with its terminating NUL.
    pub fn as_utf16_with_nul(&self) -> (r: &[u16])
        ensures
            r@ == self@.push(0),
    {
        proof {
            use_type_invariant(self);
        }
        assert(self.buffer@ =~= self@.push(0));
        self.buffer.as_slice()
    }
}

/// The number of UTF-16 units a counted string refers to: none when its
/// buffer is null or its length zero, else `Length / 2`.
pub fn unicode_string_units(unicode: &UNICODE_STRING, buffer_null: bool) -> (r: usize)
    ensures
        buffer_null || unicode.Length == 0 ==> r == 0,
        !buffer_null && unicode.Length != 0 ==> r == unicode.Length / 2,
{
    if buffer_null || unicode.Length == 0 {
        return 0;
    }
    (unicode.Length / 2) as usize
}

} // verus!
