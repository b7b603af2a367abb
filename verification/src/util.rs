//! Decoding of the byte strings that libnvme hands back: NUL-terminated C
//! strings and the fixed-length, space/NUL-padded ASCII fields of NVMe data
//! structures.

use vstd::prelude::*;
use vstd::utf8::*;
use vstd::string::StringSliceAdditionalSpecFns;
use crate::error::{Error, Result};

verus! {

/// The error that `core::str::from_utf8` reports for bytes that are not
/// valid UTF-8 (where the valid prefix ends and how long the bad sequence
/// is, both functions of the bytes).
pub uninterp spec fn utf8_error_for(bytes: Seq<u8>) -> core::str::Utf8Error;

/// `core::str::from_utf8` succeeds exactly on valid UTF-8, and on success
/// the returned string slice is made of the very bytes it was given (it is a
/// reinterpretation, not a copy). On failure the error is named by the
/// bytes; what it reports is not stated.
pub assume_specification[ core::str::from_utf8 ](v: &[u8]) -> (res: core::result::Result<
    &str,
    core::str::Utf8Error,
>)
    ensures
        res is Ok <==> valid_utf8(v@),
        res matches Ok(s) ==> s.spec_bytes() == v@,
        res matches Err(e) ==> e == utf8_error_for(v@),
;

/// A padding byte: NUL or one of the bytes that `u8::is_ascii_whitespace`
/// accepts (space, tab, line feed, form feed, carriage return).
pub open spec fn is_padding(b: u8) -> bool {
    b == 0x00 || b == 0x20 || b == 0x09 || b == 0x0a || b == 0x0c || b == 0x0d
}

/// Length of `s` once its trailing padding is removed.
pub open spec fn trimmed_len(s: Seq<u8>) -> nat
    decreases s.len(),
{
    if s.len() == 0 {
        0
    } else if is_padding(s.last()) {
        trimmed_len(s.drop_last())
    } else {
        s.len()
    }
}

/// `s` without its trailing padding.
pub open spec fn trim_padding(s: Seq<u8>) -> Seq<u8> {
    s.subrange(0, trimmed_len(s) as int)
}

/// Every byte of `s` is a padding byte.
pub open spec fn all_padding(s: Seq<u8>) -> bool {
    forall|i: int| 0 <= i < s.len() ==> #[trigger] is_padding(s[i])
}

/// Every byte of `s` is ASCII (below 0x80).
pub open spec fn all_ascii(s: Seq<u8>) -> bool {
    forall|i: int| 0 <= i < s.len() ==> #[trigger] s[i] < 0x80
}

/// What `trimmed_len` is: the trimmed part is a prefix, everything after it
/// is padding, and it is empty or ends in a byte that is not padding.
pub proof fn lemma_trimmed_len(s: Seq<u8>)
    ensures
        trimmed_len(s) <= s.len(),
        all_padding(s.subrange(trimmed_len(s) as int, s.len() as int)),
        trimmed_len(s) > 0 ==> !is_padding(s[trimmed_len(s) - 1]),
    decreases s.len(),
{
    if s.len() > 0 && is_padding(s.last()) {
        lemma_trimmed_len(s.drop_last());
        let t: int = trimmed_len(s) as int;
        assert forall|i: int| 0 <= i < s.len() - t implies #[trigger] is_padding(
            s.subrange(t, s.len() as int)[i],
        ) by {
            if t + i < s.len() - 1 {
                assert(s.subrange(t, s.len() as int)[i] == s.drop_last().subrange(
                    t,
                    s.len() - 1,
                )[i]);
            }
        }
    }
}

/// A prefix that ends in a non-padding byte and is followed only by padding
/// is the trimmed part.
pub proof fn lemma_trimmed_len_unique(s: Seq<u8>, k: int)
    requires
        0 <= k <= s.len(),
        all_padding(s.subrange(k, s.len() as int)),
        k > 0 ==> !is_padding(s[k - 1]),
    ensures
        trimmed_len(s) == k,
    decreases s.len(),
{
    if s.len() > k {
        assert(is_padding(s.subrange(k, s.len() as int)[s.len() - 1 - k]));
        let d = s.drop_last();
        assert forall|i: int| 0 <= i < d.len() - k implies #[trigger] is_padding(
            d.subrange(k, d.len() as int)[i],
        ) by {
            assert(d.subrange(k, d.len() as int)[i] == s.subrange(k, s.len() as int)[i]);
        }
        if k > 0 {
            assert(d[k - 1] == s[k - 1]);
        }
        lemma_trimmed_len_unique(d, k);
    }
}

/// The padding bytes are exactly NUL and the ASCII whitespace bytes: tab,
/// line feed, form feed, carriage return and space. Letters, digits and
/// every other byte are content.
pub proof fn padding_bytes_are_nul_and_ascii_whitespace(b: u8)
    ensures
        is_padding(b) <==> (b == 0x00 || b == 0x09 || b == 0x0a || b == 0x0c || b == 0x0d || b
            == 0x20),
{
}

/// A field whose last byte is neither NUL nor ASCII whitespace trims to
/// the whole field.
pub proof fn trim_keeps_field_ending_in_content(s: Seq<u8>)
    requires
        s.len() > 0,
        !(s.last() == 0x00 || s.last() == 0x09 || s.last() == 0x0a || s.last() == 0x0c
            || s.last() == 0x0d || s.last() == 0x20),
    ensures
        trim_padding(s) == s,
{
    assert(s.subrange(0, s.len() as int) =~= s);
}

/// Trimming removes only NUL and ASCII whitespace bytes, and only from the
/// end: the result is a prefix of the field, every byte after it is NUL or
/// ASCII whitespace, and its own last byte is neither.
pub proof fn trim_removes_only_trailing_nul_and_whitespace(s: Seq<u8>)
    ensures
        trim_padding(s).len() <= s.len(),
        trim_padding(s) == s.subrange(0, trim_padding(s).len() as int),
        forall|i: int|
            trim_padding(s).len() <= i < s.len() ==> (#[trigger] s[i] == 0x00 || s[i] == 0x09
                || s[i] == 0x0a || s[i] == 0x0c || s[i] == 0x0d || s[i] == 0x20),
        trim_padding(s).len() > 0 ==> !(trim_padding(s).last() == 0x00 || trim_padding(s).last()
            == 0x09 || trim_padding(s).last() == 0x0a || trim_padding(s).last() == 0x0c
            || trim_padding(s).last() == 0x0d || trim_padding(s).last() == 0x20),
{
    lemma_trimmed_len(s);
    let k: int = trimmed_len(s) as int;
    assert forall|i: int| k <= i < s.len() implies (#[trigger] s[i] == 0x00 || s[i] == 0x09
        || s[i] == 0x0a || s[i] == 0x0c || s[i] == 0x0d || s[i] == 0x20) by {
        assert(is_padding(s.subrange(k, s.len() as int)[i - k]));
    }
}

/// Trimming twice is trimming once.
pub proof fn trim_is_idempotent(s: Seq<u8>)
    ensures
        trim_padding(trim_padding(s)) == trim_padding(s),
{
    lemma_trimmed_len(s);
    let t = trim_padding(s);
    assert(t.subrange(t.len() as int, t.len() as int) =~= Seq::<u8>::empty());
    if t.len() > 0 {
        assert(t[t.len() - 1] == s[t.len() - 1]);
    }
    lemma_trimmed_len_unique(t, t.len() as int);
    assert(t.subrange(0, t.len() as int) =~= t);
}

/// Appending padding to a field does not change what it trims to.
pub proof fn trim_ignores_appended_padding(s: Seq<u8>, pad: Seq<u8>)
    requires
        all_padding(pad),
    ensures
        trim_padding(s + pad) == trim_padding(s),
{
    lemma_trimmed_len(s);
    let k: int = trimmed_len(s) as int;
    let sp = s + pad;
    assert forall|i: int| 0 <= i < sp.len() - k implies #[trigger] is_padding(
        sp.subrange(k, sp.len() as int)[i],
    ) by {
        if k + i < s.len() {
            assert(sp.subrange(k, sp.len() as int)[i] == s.subrange(k, s.len() as int)[i]);
        } else {
            assert(sp.subrange(k, sp.len() as int)[i] == pad[k + i - s.len()]);
        }
    }
    if k > 0 {
        assert(sp[k - 1] == s[k - 1]);
    }
    lemma_trimmed_len_unique(sp, k);
    assert(sp.subrange(0, k) =~= s.subrange(0, k));
}

/// Bytes that are all ASCII are valid UTF-8.
pub proof fn lemma_ascii_is_utf8(s: Seq<u8>)
    requires
        all_ascii(s),
    ensures
        valid_utf8(s),
{
    assert(s.subrange(0, 0) =~= Seq::<u8>::empty());
    assert(valid_utf8(Seq::<u8>::empty()));
    assert forall|i: int| 0 <= 0 <= i < s.len() <= s.len() implies #[trigger] is_leading_byte_width_1(
        s[i],
    ) by {
        assert(s[i] < 0x80);
    }
    partial_valid_utf8_extend_ascii_block(s, 0, s.len() as int);
    assert(s.subrange(0, s.len() as int) =~= s);
}

/// The characters that ASCII bytes stand for, one per byte.
pub open spec fn ascii_text(s: Seq<u8>) -> Seq<char> {
    Seq::new(s.len(), |i: int| s[i] as char)
}

/// ASCII bytes are valid UTF-8 and decode to one character per byte.
pub proof fn lemma_ascii_decode(s: Seq<u8>)
    requires
        all_ascii(s),
    ensures
        valid_utf8(s),
        decode_utf8(s) == ascii_text(s),
    decreases s.len(),
{
    lemma_ascii_is_utf8(s);
    if s.len() > 0 {
        let b: u8 = s[0];
        assert(b < 0x80);
        assert((b & 0x7F) == b) by (bit_vector)
            requires
                b < 0x80,
        ;
        let rest = s.drop_first();
        assert(pop_first_scalar(s) =~= rest);
        assert(all_ascii(rest)) by {
            assert forall|i: int| 0 <= i < rest.len() implies #[trigger] rest[i] < 0x80 by {
                assert(rest[i] == s[i + 1]);
            }
        }
        lemma_ascii_decode(rest);
        assert(decode_utf8(s) =~= ascii_text(s));
    } else {
        assert(decode_utf8(s) =~= ascii_text(s));
    }
}

/// Strip trailing NUL and ASCII whitespace bytes.
///
/// The result is the longest prefix of `s` that is empty or ends in a byte
/// that is neither NUL nor ASCII whitespace; padding inside the field is kept.
pub fn trim_trailing_padding(s: &[u8]) -> (r: &[u8])
    ensures
        r@ == trim_padding(s@),
        r@.len() <= s@.len(),
        r@ == s@.subrange(0, r@.len() as int),
        all_padding(s@.subrange(r@.len() as int, s@.len() as int)),
        r@.len() > 0 ==> !is_padding(r@.last()),
        forall|i: int|
            r@.len() <= i < s@.len() ==> (#[trigger] s@[i] == 0x00 || s@[i] == 0x09 || s@[i]
                == 0x0a || s@[i] == 0x0c || s@[i] == 0x0d || s@[i] == 0x20),
        r@.len() > 0 ==> !(r@.last() == 0x00 || r@.last() == 0x09 || r@.last() == 0x0a
            || r@.last() == 0x0c || r@.last() == 0x0d || r@.last() == 0x20),
{
    let mut end: usize = s.len();
    assert(s@.subrange(0, end as int) =~= s@);
    while end > 0 && is_padding_byte(s[end - 1])
        invariant
            end <= s@.len(),
            trimmed_len(s@.subrange(0, end as int)) == trimmed_len(s@),
        decreases end,
    {
        assert(s@.subrange(0, end as int).drop_last() =~= s@.subrange(0, end - 1));
        end = end - 1;
    }
    proof {
        if end > 0 {
            assert(s@.subrange(0, end as int).last() == s@[end - 1]);
        }
        lemma_trimmed_len(s@);
        trim_removes_only_trailing_nul_and_whitespace(s@);
    }
    &s[0..end]
}

/// Whether `b` is NUL or ASCII whitespace.
fn is_padding_byte(b: u8) -> (r: bool)
    ensures
        r == is_padding(b),
        r <==> (b == 0x00 || b == 0x09 || b == 0x0a || b == 0x0c || b == 0x0d || b == 0x20),
{
    b == 0x00 || b == 0x20 || b == 0x09 || b == 0x0a || b == 0x0c || b == 0x0d
}

/// Decode an NVMe fixed-length ASCII field (space-padded, possibly
/// NUL-padded) into a trimmed `&str` borrowing from the input slice.
///
/// Fails with [`Error::Utf8`] exactly when the trimmed bytes are not valid
/// UTF-8; an all-ASCII field always decodes.
pub fn fixed_ascii_to_str(bytes: &[u8]) -> (r: Result<&str>)
    ensures
        r is Ok <==> valid_utf8(trim_padding(bytes@)),
        r is Err ==> r->Err_0 == Error::Utf8(utf8_error_for(trim_padding(bytes@))),
        r matches Ok(s) ==> s.spec_bytes() == trim_padding(bytes@),
        all_ascii(bytes@) ==> (r matches Ok(s) && s@ == ascii_text(trim_padding(bytes@))),
{
    let trimmed = trim_trailing_padding(bytes);
    proof {
        if all_ascii(bytes@) {
            assert(all_ascii(trimmed@)) by {
                assert forall|i: int| 0 <= i < trimmed@.len() implies #[trigger] trimmed@[i]
                    < 0x80 by {
                    assert(trimmed@[i] == bytes@.subrange(0, trimmed@.len() as int)[i]);
                }
            }
            lemma_ascii_decode(trimmed@);
        }
    }
    match core::str::from_utf8(trimmed) {
        Ok(s) => {
            proof {
                encode_utf8_decode_utf8(s@);
            }
            Ok(s)
        },
        Err(e) => Err(Error::Utf8(e)),
    }
}

/// Convert the contents of a libnvme-returned `const char *` into a trimmed
/// `&str`.
///
/// `raw` is `None` for a NULL pointer, otherwise the bytes before the
/// terminating NUL. A NULL pointer gives [`Error::NotAvailable`]; bytes that
/// are not valid UTF-8 once trimmed give [`Error::Utf8`].
pub fn cstr_to_str(raw: Option<&[u8]>) -> (r: Result<&str>)
    ensures
        raw is None <==> (r is Err && r->Err_0 is NotAvailable),
        raw matches Some(b) ==> {
            &&& (r is Ok <==> valid_utf8(trim_padding(b@)))
            &&& (r is Err ==> r->Err_0 == Error::Utf8(utf8_error_for(trim_padding(b@))))
            &&& (r matches Ok(s) ==> s.spec_bytes() == trim_padding(b@))
            &&& (all_ascii(b@) ==> (r matches Ok(s) && s@ == ascii_text(trim_padding(b@))))
        },
{
    match raw {
        None => Err(Error::NotAvailable),
        Some(b) => fixed_ascii_to_str(b),
    }
}

/// Copy a libnvme-allocated C string into an owned `String`.
///
/// `raw` is `None` for a NULL pointer, otherwise the bytes before the
/// terminating NUL. Unlike [`cstr_to_str`] nothing is trimmed.
pub fn cstr_to_string(raw: Option<&[u8]>) -> (r: Result<String>)
    ensures
        raw is None <==> (r is Err && r->Err_0 is NotAvailable),
        raw matches Some(b) ==> {
            &&& (r is Ok <==> valid_utf8(b@))
            &&& (r is Err ==> r->Err_0 == Error::Utf8(utf8_error_for(b@)))
            &&& (r matches Ok(s) ==> encode_utf8(s@) == b@)
            &&& (all_ascii(b@) ==> (r matches Ok(s) && s@ == ascii_text(b@)))
        },
{
    match raw {
        None => Err(Error::NotAvailable),
        Some(b) => {
            proof {
                if all_ascii(b@) {
                    lemma_ascii_decode(b@);
                }
            }
            match core::str::from_utf8(b) {
                Ok(s) => {
                    proof {
                        encode_utf8_decode_utf8(s@);
                    }
                    Ok(s.to_owned())
                },
                Err(e) => Err(Error::Utf8(e)),
            }
        },
    }
}

} // verus!
