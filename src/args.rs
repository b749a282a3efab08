//! Argument-list utilities: string comparison, flag search and flag exclusion.

use vstd::prelude::*;
use vstd::string::*;
use vstd::utf8::{
    decode_utf8, encode_scalar, encode_utf8, encode_utf8_decode_utf8, is_char_boundary,
};

verus! {

/// The character sequences of a list of string slices.
pub open spec fn strs_view(v: Seq<&str>) -> Seq<Seq<char>> {
    v.map_values(|s: &str| s@)
}

/// `s` with every element equal to `flag` removed, order of the rest kept.
pub open spec fn without(s: Seq<Seq<char>>, flag: Seq<char>) -> Seq<Seq<char>>
    decreases s.len(),
{
    if s.len() == 0 {
        s
    } else {
        let rest = without(s.drop_last(), flag);
        if s.last() == flag {
            rest
        } else {
            rest.push(s.last())
        }
    }
}

/// Whether two string slices hold the same characters.
pub fn str_eq(a: &str, b: &str) -> (r: bool)
    ensures
        r == (a@ == b@),
{
    let n = a.unicode_len();
    if n != b.unicode_len() {
        return false;
    }
    let mut i: usize = 0;
    while i < n
        invariant
            n == a@.len(),
            n == b@.len(),
            i <= n,
            forall|j: int| 0 <= j < i ==> a@[j] == b@[j],
        decreases n - i,
    {
        if a.get_char(i) != b.get_char(i) {
            return false;
        }
        i = i + 1;
    }
    assert(a@ =~= b@);
    true
}

/// Whether `args` holds an element equal to `flag`.
pub fn contains_flag(args: &Vec<&str>, flag: &str) -> (r: bool)
    ensures
        r == strs_view(args@).contains(flag@),
{
    let mut i: usize = 0;
    while i < args.len()
        invariant
            i <= args@.len(),
            forall|j: int| 0 <= j < i ==> args@[j]@ != flag@,
        decreases args@.len() - i,
    {
        if str_eq(args[i], flag) {
            assert(strs_view(args@)[i as int] == flag@);
            return true;
        }
        i = i + 1;
    }
    assert(!strs_view(args@).contains(flag@)) by {
        if strs_view(args@).contains(flag@) {
            let k = choose|k: int| 0 <= k < strs_view(args@).len() && strs_view(args@)[k] == flag@;
            assert(args@[k]@ == flag@);
        }
    }
    false
}

/// A copy of `args` without the elements equal to `remove_string`.
pub fn exclude<'a>(args: &Vec<&'a str>, remove_string: &'a str) -> (r: Vec<&'a str>)
    ensures
        strs_view(r@) == without(strs_view(args@), remove_string@),
{
    let mut out: Vec<&'a str> = Vec::new();
    let mut i: usize = 0;
    while i < args.len()
        invariant
            i <= args@.len(),
            strs_view(out@) == without(strs_view(args@).take(i as int), remove_string@),
        decreases args@.len() - i,
    {
        let ghost before = out@;
        let s = args[i];
        let keep = !str_eq(s, remove_string);
        if keep {
            out.push(s);
        }
        proof {
            let t = strs_view(args@).take(i + 1);
            assert(t.drop_last() =~= strs_view(args@).take(i as int));
            assert(t.last() == s@);
            assert(strs_view(out@) =~= if keep { strs_view(before).push(s@) } else { strs_view(before) });
        }
        i = i + 1;
    }
    assert(strs_view(args@).take(args@.len() as int) =~= strs_view(args@));
    out
}

/// The UTF-8 encoding of two character sequences one after the other is the
/// encoding of the first followed by that of the second.
proof fn lemma_encode_utf8_concat(a: Seq<char>, b: Seq<char>)
    ensures
        encode_utf8(a + b) == encode_utf8(a) + encode_utf8(b),
    decreases a.len(),
{
    if a.len() == 0 {
        assert(a + b =~= b);
        assert(encode_utf8(a) + encode_utf8(b) =~= encode_utf8(b));
    } else {
        lemma_encode_utf8_concat(a.drop_first(), b);
        assert((a + b).drop_first() =~= a.drop_first() + b);
        assert((a + b)[0] == a[0]);
        let e = encode_scalar(a[0] as u32);
        assert(e + (encode_utf8(a.drop_first()) + encode_utf8(b)) =~= (e + encode_utf8(
            a.drop_first(),
        )) + encode_utf8(b));
    }
}

/// `text` cut to its first `max_width` bytes, with an ellipsis where
/// something was cut. The cut must fall between two characters.
pub fn limit_text(text: &str, max_width: usize) -> (r: String)
    requires
        text.spec_bytes().len() > max_width ==> is_char_boundary(
            text.spec_bytes(),
            max_width as int,
        ),
    ensures
        text.spec_bytes().len() <= max_width ==> r@ == text@,
        text.spec_bytes().len() > max_width ==> encode_utf8(r@) == text.spec_bytes().subrange(
            0,
            max_width as int,
        ) + encode_utf8("\u{2026}"@),
        text.spec_bytes().len() > max_width ==> r@ == decode_utf8(
            text.spec_bytes().subrange(0, max_width as int),
        ) + "\u{2026}"@,
{
    if text.as_bytes().len() <= max_width {
        return String::from_str(text);
    }
    let (head, _rest) = text.split_at(max_width);
    let mut r = String::from_str(head);
    r.append("\u{2026}");
    proof {
        lemma_encode_utf8_concat(head@, "\u{2026}"@);
        encode_utf8_decode_utf8(head@);
    }
    r
}

} // verus!
