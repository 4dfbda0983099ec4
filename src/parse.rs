use vstd::prelude::*;

verus! {

/// Relies on `str`'s `==`: true exactly when both hold the same characters.
#[verifier::external_body]
pub(crate) fn same_text(a: &str, b: &str) -> (r: bool)
    ensures
        r == (a@ == b@),
{
    a == b
}

pub open spec fn is_digit(c: char) -> bool {
    '0' <= c <= '9'
}

/// The number that a run of decimal digits spells.
pub open spec fn digits_value(s: Seq<char>) -> int
    decreases s.len(),
{
    if s.len() == 0 {
        0
    } else {
        digits_value(s.drop_last()) * 10 + (s.last() as int - '0' as int)
    }
}

/// The digits of an unsigned number: the text without one leading '+'.
pub open spec fn unsigned_digits(s: Seq<char>) -> Seq<char> {
    if s.len() > 0 && s[0] == '+' {
        s.drop_first()
    } else {
        s
    }
}

/// The `u32` that `s` spells in decimal, with an optional leading '+'; none when
/// `s` holds no digit, holds anything but digits, or spells a number past `u32::MAX`.
pub open spec fn parsed_u32(s: Seq<char>) -> Option<u32> {
    let d = unsigned_digits(s);
    if d.len() > 0 && (forall|i: int| 0 <= i < d.len() ==> is_digit(#[trigger] d[i]))
        && digits_value(d) <= u32::MAX {
        Some(digits_value(d) as u32)
    } else {
        None
    }
}

/// Reads a decimal `u32`.
pub fn parse_u32(s: &str) -> (r: Option<u32>)
    ensures
        r == parsed_u32(s@),
{
    let len = s.unicode_len();
    let mut start: usize = 0;
    if len > 0 && s.get_char(0) == '+' {
        start = 1;
    }
    let ghost d = unsigned_digits(s@);
    assert(d =~= s@.subrange(start as int, len as int));
    if start == len {
        return None;
    }
    let cap: u64 = 0x1_0000_0000;
    let mut acc: u64 = 0;
    let mut i: usize = start;
    while i < len
        invariant
            start <= i <= len,
            len == s@.len(),
            d == s@.subrange(start as int, len as int),
            d == unsigned_digits(s@),
            cap == u32::MAX + 1,
            forall|j: int| start <= j < i ==> is_digit(s@[j]),
            acc == if digits_value(s@.subrange(start as int, i as int)) < cap {
                digits_value(s@.subrange(start as int, i as int))
            } else {
                cap as int
            },
        decreases len - i,
    {
        let c = s.get_char(i);
        if !('0' <= c && c <= '9') {
            assert(!is_digit(d[i - start]));
            return None;
        }
        let ghost prev = s@.subrange(start as int, i as int);
        let ghost next = s@.subrange(start as int, i + 1);
        assert(next.drop_last() =~= prev);
        assert(next.last() == c);
        let digit = (c as u32 - '0' as u32) as u64;
        assert(digits_value(next) == digits_value(prev) * 10 + digit);
        let grown = acc * 10 + digit;
        acc = if grown < cap {
            grown
        } else {
            cap
        };
        i += 1;
    }
    assert(s@.subrange(start as int, len as int) == d);
    if acc < cap {
        Some(acc as u32)
    } else {
        None
    }
}

/// The pieces of `s` between the occurrences of `sep`, in order; one empty piece
/// for an empty text.
pub open spec fn split_text(s: Seq<char>, sep: char) -> Seq<Seq<char>>
    decreases s.len(),
{
    if s.len() == 0 {
        seq![Seq::empty()]
    } else {
        let prev = split_text(s.drop_last(), sep);
        if s.last() == sep {
            prev.push(Seq::empty())
        } else {
            prev.update(prev.len() - 1, prev.last().push(s.last()))
        }
    }
}

pub(crate) proof fn lemma_split_nonempty(s: Seq<char>, sep: char)
    ensures
        split_text(s, sep).len() >= 1,
    decreases s.len(),
{
    if s.len() > 0 {
        lemma_split_nonempty(s.drop_last(), sep);
    }
}

/// Splits `s` at every `sep`.
pub fn split_fields(s: &str, sep: char) -> (r: Vec<String>)
    ensures
        r@.map_values(|f: String| f@) == split_text(s@, sep),
{
    let len = s.unicode_len();
    let mut done: Vec<String> = Vec::new();
    let mut start: usize = 0;
    let mut i: usize = 0;
    assert(s@.subrange(0, 0) =~= Seq::<char>::empty());
    while i < len
        invariant
            start <= i <= len,
            len == s@.len(),
            done@.map_values(|f: String| f@).push(s@.subrange(start as int, i as int))
                == split_text(s@.subrange(0, i as int), sep),
        decreases len - i,
    {
        let c = s.get_char(i);
        let ghost whole = s@.subrange(0, i + 1);
        let ghost prev = split_text(s@.subrange(0, i as int), sep);
        assert(whole.drop_last() =~= s@.subrange(0, i as int));
        assert(whole.last() == c);
        proof {
            lemma_split_nonempty(s@.subrange(0, i as int), sep);
        }
        if c == sep {
            let piece = String::from_str(s.substring_char(start, i));
            done.push(piece);
            start = i + 1;
            assert(s@.subrange(start as int, start as int) =~= Seq::<char>::empty());
            assert(done@.map_values(|f: String| f@).push(s@.subrange(start as int, i + 1))
                =~= prev.push(Seq::empty()));
        } else {
            assert(s@.subrange(start as int, i + 1) =~= s@.subrange(start as int, i as int).push(c));
            assert(done@.map_values(|f: String| f@).push(s@.subrange(start as int, i + 1))
                =~= prev.update(prev.len() - 1, prev.last().push(c)));
        }
        i += 1;
    }
    let last = String::from_str(s.substring_char(start, len));
    done.push(last);
    assert(s@.subrange(0, len as int) =~= s@);
    assert(done@.map_values(|f: String| f@) =~= split_text(s@, sep));
    done
}

/// The numbers of a comma-separated list such as "0,0,800,600"; none when a piece
/// is not a `u32`.
pub open spec fn parsed_u32_list(s: Seq<char>) -> Option<Seq<u32>> {
    let pieces = split_text(s, ',');
    if forall|i: int| 0 <= i < pieces.len() ==> (#[trigger] parsed_u32(pieces[i])) is Some {
        Some(pieces.map_values(|p: Seq<char>| parsed_u32(p)->0))
    } else {
        None
    }
}

/// Reads a comma-separated list of `u32`.
pub fn parse_u32_list(s: &str) -> (r: Option<Vec<u32>>)
    ensures
        r matches Some(v) ==> parsed_u32_list(s@) == Some(v@),
        r is None ==> parsed_u32_list(s@) is None,
{
    let pieces = split_fields(s, ',');
    let ghost spieces = split_text(s@, ',');
    assert(pieces@.len() == spieces.len()) by {
        assert(pieces@.map_values(|f: String| f@).len() == pieces@.len());
    }
    let mut out: Vec<u32> = Vec::new();
    let mut i: usize = 0;
    while i < pieces.len()
        invariant
            i <= pieces@.len(),
            pieces@.len() == spieces.len(),
            spieces == split_text(s@, ','),
            pieces@.map_values(|f: String| f@) == spieces,
            out@.len() == i,
            forall|j: int| 0 <= j < i ==> parsed_u32(spieces[j]) == Some(#[trigger] out@[j]),
        decreases pieces@.len() - i,
    {
        assert(pieces@[i as int]@ == spieces[i as int]);
        match parse_u32(pieces[i].as_str()) {
            Some(n) => out.push(n),
            None => {
                return None;
            },
        }
        i += 1;
    }
    assert forall|j: int| 0 <= j < spieces.len() implies (#[trigger] parsed_u32(
        spieces[j],
    )) is Some by {
        assert(parsed_u32(spieces[j]) == Some(out@[j]));
    }
    assert(out@ =~= spieces.map_values(|p: Seq<char>| parsed_u32(p)->0));
    Some(out)
}

} // verus!
