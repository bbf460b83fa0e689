//! Byte-stream framing for the line protocol.
//!
//! Bytes arrive from the transport in chunks. A chunk that is valid UTF-8 is
//! appended to an accumulation buffer; any other chunk is discarded whole.
//! Once the buffer ends with the line separator it is split into lines, every
//! separator bounding one line (so a terminated buffer always yields a final
//! empty segment).

use vstd::prelude::*;
use vstd::string::*;
use vstd::utf8::*;

verus! {

/// The buffer after absorbing one chunk: extended by the chunk's characters
/// when the chunk is valid UTF-8, unchanged otherwise.
pub open spec fn spec_append_chunk(buf: Seq<char>, chunk: Seq<u8>) -> Seq<char> {
    if valid_utf8(chunk) {
        buf + decode_utf8(chunk)
    } else {
        buf
    }
}

/// Relies on `String::from_utf8`: the bytes convert to text exactly when
/// they form a valid UTF-8 encoding, and convert to the characters they
/// encode.
#[verifier::external_body]
fn utf8_text(bytes: Vec<u8>) -> (r: Option<String>)
    ensures
        r is Some <==> valid_utf8(bytes@),
        r matches Some(s) ==> s@ == decode_utf8(bytes@),
{
    String::from_utf8(bytes).ok()
}

/// Absorbs one received chunk into the accumulation buffer, discarding the
/// chunk whole when it is not valid UTF-8.
pub fn append_chunk(buffer: &mut String, chunk: Vec<u8>)
    ensures
        final(buffer)@ == spec_append_chunk(old(buffer)@, chunk@),
{
    match utf8_text(chunk) {
        Some(text) => buffer.append(text.as_str()),
        None => (),
    }
}

/// Whether the buffer holds at least one complete line: it is non-empty and
/// ends with the line separator.
pub open spec fn spec_complete(buf: Seq<char>) -> bool {
    buf.len() > 0 && buf[buf.len() - 1] == '\n'
}

/// Whether the accumulated buffer ends with the line separator.
pub fn buffer_complete(buffer: &str) -> (r: bool)
    ensures
        r == spec_complete(buffer@),
{
    let n = buffer.unicode_len();
    if n == 0 {
        false
    } else {
        buffer.get_char(n - 1) == '\n'
    }
}

/// The segments of `s` bounded by line separators, in order. A sequence with
/// `k` separators splits into `k + 1` segments; separators are not part of
/// any segment.
pub open spec fn spec_split(s: Seq<char>) -> Seq<Seq<char>>
    decreases s.len(),
{
    if s.len() == 0 {
        seq![Seq::<char>::empty()]
    } else if s[0] == '\n' {
        seq![Seq::<char>::empty()] + spec_split(s.drop_first())
    } else {
        let rest = spec_split(s.drop_first());
        seq![seq![s[0]] + rest[0]] + rest.drop_first()
    }
}

/// A sequence without separators splits into itself alone.
pub proof fn lemma_split_no_newline(s: Seq<char>)
    requires
        forall|j: int| 0 <= j < s.len() ==> s[j] != '\n',
    ensures
        spec_split(s) == seq![s],
    decreases s.len(),
{
    if s.len() == 0 {
        assert(spec_split(s) =~~= seq![s]);
    } else {
        lemma_split_no_newline(s.drop_first());
        assert(spec_split(s) =~~= seq![s]);
    }
}

/// Splitting at the first separator: the segment before it, then the split
/// of what follows it.
pub proof fn lemma_split_at_first(s: Seq<char>, i: int)
    requires
        0 <= i < s.len(),
        s[i] == '\n',
        forall|j: int| 0 <= j < i ==> s[j] != '\n',
    ensures
        spec_split(s) == seq![s.take(i)] + spec_split(s.skip(i + 1)),
    decreases i,
{
    if i == 0 {
        assert(s.take(0) =~= Seq::<char>::empty());
        assert(s.skip(1) =~= s.drop_first());
        assert(spec_split(s) =~~= seq![s.take(0)] + spec_split(s.skip(1)));
    } else {
        let d = s.drop_first();
        lemma_split_at_first(d, i - 1);
        let rest = spec_split(d);
        assert(rest == seq![d.take(i - 1)] + spec_split(d.skip(i)));
        assert(rest[0] == d.take(i - 1));
        assert(rest.drop_first() =~= spec_split(d.skip(i)));
        assert(seq![s[0]] + d.take(i - 1) =~= s.take(i));
        assert(d.skip(i) =~= s.skip(i + 1));
        assert(spec_split(s) =~~= seq![s.take(i)] + spec_split(s.skip(i + 1)));
    }
}

/// Splits the accumulated buffer into its lines, in order.
pub fn split_lines(s: &str) -> (lines: Vec<String>)
    ensures
        lines.deep_view() == spec_split(s@),
    decreases s@.len(),
{
    let n = s.unicode_len();
    let mut i: usize = 0;
    let mut found: bool = false;
    while !found && i < n
        invariant
            i <= n,
            n == s@.len(),
            !found ==> forall|j: int| 0 <= j < i ==> s@[j] != '\n',
            found ==> i < n && s@[i as int] == '\n' && forall|j: int| 0 <= j < i ==> s@[j] != '\n',
        decreases n - i, if found { 0int } else { 1int },
    {
        if s.get_char(i) == '\n' {
            found = true;
        } else {
            i = i + 1;
        }
    }
    if !found {
        proof {
            lemma_split_no_newline(s@);
        }
        let mut lines: Vec<String> = Vec::new();
        lines.push(String::from_str(s));
        proof {
            assert(lines.deep_view() =~~= seq![s@]);
        }
        lines
    } else {
        let head = s.substring_char(0, i);
        let tail = s.substring_char(i + 1, n);
        proof {
            lemma_split_at_first(s@, i as int);
            assert(tail@ =~= s@.skip(i as int + 1));
            assert(head@ =~= s@.take(i as int));
        }
        let mut lines = split_lines(tail);
        let ghost rest = lines.deep_view();
        lines.insert(0, String::from_str(head));
        proof {
            assert(lines.deep_view() =~~= seq![s@.take(i as int)] + rest);
        }
        lines
    }
}

} // verus!
