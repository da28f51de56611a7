//! The connection string of a Service Bus namespace: `Key=Value` pairs,
//! separated by semicolons.

use crate::text::{
    chars_of, push_char, range_equals, string_of_range, trim, trim_end, trim_end_index,
    trim_start_index,
};
use vstd::prelude::*;
use vstd::string::StringExecFns;

verus! {

/// The index of the first `c` in `s`, or the length of `s` if there is none.
pub open spec fn index_of(s: Seq<char>, c: char) -> int
    decreases s.len(),
{
    if s.len() == 0 {
        0
    } else if s[0] == c {
        0
    } else {
        1 + index_of(s.drop_first(), c)
    }
}

/// The pieces of `s` between its semicolons, in order. There is always at
/// least one, and a piece may be empty.
pub open spec fn segments(s: Seq<char>) -> Seq<Seq<char>>
    decreases s.len(),
{
    let i = index_of(s, ';');
    if i < 0 || i >= s.len() {
        seq![s]
    } else {
        seq![s.subrange(0, i)] + segments(s.subrange(i + 1, s.len() as int))
    }
}

/// The key of a segment: what stands before its first equals sign, trimmed.
/// A segment without an equals sign is a key as a whole.
pub open spec fn segment_key(seg: Seq<char>) -> Seq<char> {
    let eq = index_of(seg, '=');
    if 0 <= eq < seg.len() {
        trim(seg.subrange(0, eq))
    } else {
        trim(seg)
    }
}

/// The value of a segment: what follows its first equals sign, without the
/// white space at its end. A segment without an equals sign has an empty value.
pub open spec fn segment_value(seg: Seq<char>) -> Seq<char> {
    let eq = index_of(seg, '=');
    if 0 <= eq < seg.len() {
        trim_end(seg.subrange(eq + 1, seg.len() as int))
    } else {
        Seq::empty()
    }
}

/// The value that the segments give to `name`: that of the last segment with
/// this key.
pub open spec fn field_in(segs: Seq<Seq<char>>, name: Seq<char>) -> Option<Seq<char>>
    decreases segs.len(),
{
    if segs.len() == 0 {
        None
    } else if segment_key(segs.last()) == name {
        Some(segment_value(segs.last()))
    } else {
        field_in(segs.drop_last(), name)
    }
}

/// The value of the field `name` in a connection string, if it has one.
pub open spec fn connection_field(conn: Seq<char>, name: Seq<char>) -> Option<Seq<char>> {
    field_in(segments(conn), name)
}

/// An optional string as an optional sequence of characters.
pub open spec fn text_of(o: Option<String>) -> Option<Seq<char>> {
    match o {
        Some(s) => Some(s@),
        None => None,
    }
}

proof fn lemma_index_of(s: Seq<char>, c: char, k: int)
    requires
        0 <= k <= s.len(),
        forall|j: int| 0 <= j < k ==> s[j] != c,
        k == s.len() || s[k] == c,
    ensures
        index_of(s, c) == k,
    decreases k,
{
    if k > 0 {
        let rest = s.drop_first();
        assert(forall|j: int| 0 <= j < k - 1 ==> rest[j] == s[j + 1]);
        lemma_index_of(rest, c, k - 1);
    }
}

/// Where the key and the value of the segment `chars[from..to]` lie.
fn segment_parts(chars: &Vec<char>, from: usize, to: usize) -> (parts: (
    usize,
    usize,
    usize,
    usize,
))
    requires
        from <= to <= chars@.len(),
    ensures
        from <= parts.0 <= parts.1 <= to,
        from <= parts.2 <= parts.3 <= to,
        chars@.subrange(parts.0 as int, parts.1 as int) == segment_key(
            chars@.subrange(from as int, to as int),
        ),
        chars@.subrange(parts.2 as int, parts.3 as int) == segment_value(
            chars@.subrange(from as int, to as int),
        ),
{
    let ghost seg = chars@.subrange(from as int, to as int);
    let mut eq: usize = from;
    while eq < to && chars[eq] != '='
        invariant
            from <= eq <= to <= chars@.len(),
            forall|j: int| from <= j < eq ==> chars@[j] != '=',
        decreases to - eq,
    {
        eq += 1;
    }
    proof {
        lemma_index_of(seg, '=', eq - from);
    }
    if eq < to {
        let key_start = trim_start_index(chars, from, eq);
        let key_end = trim_end_index(chars, key_start, eq);
        let value_end = trim_end_index(chars, eq + 1, to);
        proof {
            assert(seg.subrange(0, eq - from) =~= chars@.subrange(from as int, eq as int));
            assert(seg.subrange(eq - from + 1, seg.len() as int) =~= chars@.subrange(
                eq + 1,
                to as int,
            ));
        }
        (key_start, key_end, eq + 1, value_end)
    } else {
        let key_start = trim_start_index(chars, from, to);
        let key_end = trim_end_index(chars, key_start, to);
        proof {
            assert(chars@.subrange(to as int, to as int) =~= Seq::<char>::empty());
        }
        (key_start, key_end, to, to)
    }
}

/// The value found so far, replaced by that of `chars[from..to]` if this
/// segment has the key `name`.
fn updated_by_segment(
    chars: &Vec<char>,
    from: usize,
    to: usize,
    name: &Vec<char>,
    found: Option<String>,
) -> (next: Option<String>)
    requires
        from <= to <= chars@.len(),
    ensures
        text_of(next) == (if segment_key(chars@.subrange(from as int, to as int)) == name@ {
            Some(segment_value(chars@.subrange(from as int, to as int)))
        } else {
            text_of(found)
        }),
{
    let (key_start, key_end, value_start, value_end) = segment_parts(chars, from, to);
    if range_equals(chars, key_start, key_end, name) {
        Some(string_of_range(chars, value_start, value_end))
    } else {
        found
    }
}

/// Looks a field up in a connection string. Where several segments have the
/// key, the last one counts; a key without an equals sign has an empty value.
pub fn connection_value(conn: &str, name: &str) -> (value: Option<String>)
    ensures
        text_of(value) == connection_field(conn@, name@),
{
    let chars = chars_of(conn);
    let name_chars = chars_of(name);
    let n: usize = chars.len();
    let mut found: Option<String> = None;
    let mut start: usize = 0;
    let mut i: usize = 0;
    let ghost mut done: Seq<Seq<char>> = Seq::empty();
    proof {
        assert(chars@.subrange(0, n as int) =~= chars@);
        assert(done + segments(chars@) =~= segments(chars@));
    }
    while i < n
        invariant
            start <= i <= n,
            n == chars@.len(),
            forall|j: int| start <= j < i ==> chars@[j] != ';',
            segments(chars@) == done + segments(chars@.subrange(start as int, n as int)),
            text_of(found) == field_in(done, name_chars@),
        decreases n - i,
    {
        if chars[i] == ';' {
            let ghost rest = chars@.subrange(start as int, n as int);
            let ghost seg = chars@.subrange(start as int, i as int);
            found = updated_by_segment(&chars, start, i, &name_chars, found);
            proof {
                lemma_index_of(rest, ';', i - start);
                assert(rest.subrange(0, i - start) =~= seg);
                assert(rest.subrange(i - start + 1, rest.len() as int) =~= chars@.subrange(
                    i + 1,
                    n as int,
                ));
                let after = segments(chars@.subrange(i + 1, n as int));
                assert(segments(rest) == seq![seg] + after);
                assert(done + (seq![seg] + after) =~= done.push(seg) + after);
                assert(done.push(seg).drop_last() =~= done);
                done = done.push(seg);
            }
            start = i + 1;
        }
        i += 1;
    }
    let ghost last = chars@.subrange(start as int, n as int);
    found = updated_by_segment(&chars, start, n, &name_chars, found);
    proof {
        lemma_index_of(last, ';', n - start);
        assert(segments(last) == seq![last]);
        assert(done + seq![last] =~= done.push(last));
        assert(done.push(last).drop_last() =~= done);
    }
    found
}

/// The text with every `sb://` in it replaced by `https://`, from left to
/// right.
pub open spec fn sb_replaced(s: Seq<char>) -> Seq<char>
    decreases s.len(),
{
    if s.len() >= 5 && s.subrange(0, 5) == "sb://"@ {
        "https://"@ + sb_replaced(s.subrange(5, s.len() as int))
    } else if s.len() > 0 {
        seq![s[0]] + sb_replaced(s.drop_first())
    } else {
        s
    }
}

/// The text with `https` in place of what stands before its first colon; a
/// text without a colon follows `https` as a whole.
pub open spec fn https_scheme(s: Seq<char>) -> Seq<char> {
    let colon = index_of(s, ':');
    if 0 <= colon < s.len() {
        "https"@ + s.subrange(colon, s.len() as int)
    } else {
        "https"@ + s
    }
}

/// Rewrites the scheme of the service, `sb://`, to `https://` wherever it
/// occurs in `text`.
pub fn replace_sb_scheme(text: &str) -> (replaced: String)
    ensures
        replaced@ == sb_replaced(text@),
{
    let chars = chars_of(text);
    let pattern = chars_of("sb://");
    let n: usize = chars.len();
    let mut replaced = String::new();
    let mut i: usize = 0;
    proof {
        assert(chars@.subrange(0, n as int) =~= chars@);
        assert(replaced@ + sb_replaced(chars@) =~= sb_replaced(chars@));
    }
    while i < n
        invariant
            i <= n,
            n == chars@.len(),
            pattern@ == "sb://"@,
            replaced@ + sb_replaced(chars@.subrange(i as int, n as int)) == sb_replaced(chars@),
        decreases n - i,
    {
        let ghost rest = chars@.subrange(i as int, n as int);
        let ghost before = replaced@;
        if n - i >= 5 && range_equals(&chars, i, i + 5, &pattern) {
            replaced.append("https://");
            proof {
                assert(rest.subrange(0, 5) =~= chars@.subrange(i as int, i + 5));
                assert(rest.subrange(5, rest.len() as int) =~= chars@.subrange(i + 5, n as int));
                let tail = sb_replaced(chars@.subrange(i + 5, n as int));
                assert(sb_replaced(rest) == "https://"@ + tail);
                assert((before + "https://"@) + tail =~= before + ("https://"@ + tail));
            }
            i += 5;
        } else {
            push_char(&mut replaced, chars[i]);
            proof {
                if n - i >= 5 {
                    assert(rest.subrange(0, 5) =~= chars@.subrange(i as int, i + 5));
                }
                assert(rest.drop_first() =~= chars@.subrange(i + 1, n as int));
                let tail = sb_replaced(chars@.subrange(i + 1, n as int));
                assert(sb_replaced(rest) == seq![rest[0]] + tail);
                assert(before.push(chars@[i as int]) + tail =~= before + (seq![rest[0]] + tail));
            }
            i += 1;
        }
    }
    proof {
        assert(replaced@ + sb_replaced(chars@.subrange(n as int, n as int)) =~= replaced@);
    }
    replaced
}

/// Puts `https` in place of the scheme of `text`.
pub fn replace_scheme(text: &str) -> (replaced: String)
    ensures
        replaced@ == https_scheme(text@),
{
    let chars = chars_of(text);
    let n: usize = chars.len();
    let mut colon: usize = 0;
    while colon < n && chars[colon] != ':'
        invariant
            colon <= n,
            n == chars@.len(),
            forall|j: int| 0 <= j < colon ==> chars@[j] != ':',
        decreases n - colon,
    {
        colon += 1;
    }
    proof {
        lemma_index_of(chars@, ':', colon as int);
    }
    let mut replaced = String::from_str("https");
    if colon < n {
        let rest = string_of_range(&chars, colon, n);
        replaced.append(rest.as_str());
    } else {
        replaced.append(text);
    }
    replaced
}

} // verus!
