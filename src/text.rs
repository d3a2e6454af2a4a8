//! Text building blocks: JSON string literals, decimal numerals, lists split on
//! a separator and lists joined by one.

use vstd::prelude::*;

verus! {

/// The JSON string literal, quotes and escapes included, that serde_json writes
/// for the characters `s`.
pub uninterp spec fn json_str_of(s: Seq<char>) -> Seq<char>;

/// The error type of serde_json, carried through opaquely.
#[verifier::external_type_specification]
#[verifier::external_body]
pub struct ExJsonError(serde_json::Error);

/// Relies on serde_json::to_string: on a `str` it writes the escaped literal
/// into a `Vec<u8>`, and neither the string serializer nor the in-memory writer
/// has a failing path, so the result is always `Ok`.
#[verifier::external_body]
fn json_literal(s: &str) -> (r: Result<String, serde_json::Error>)
    ensures
        r is Ok,
        r->Ok_0@ == json_str_of(s@),
{
    serde_json::to_string(s)
}

/// The JSON string literal for `s`, as serde_json writes it.
pub fn json_string(s: &str) -> (r: String)
    ensures
        r@ == json_str_of(s@),
{
    json_literal(s).unwrap()
}

/// The decimal digit character for `d < 10`.
pub open spec fn digit_char(d: nat) -> char {
    seq!['0', '1', '2', '3', '4', '5', '6', '7', '8', '9'][d as int]
}

/// The decimal numeral of `n`, without leading zeros.
pub open spec fn decimal(n: nat) -> Seq<char>
    decreases n,
{
    if n < 10 {
        seq![digit_char(n)]
    } else {
        decimal(n / 10).push(digit_char(n % 10))
    }
}

/// The decimal numeral of `n`.
pub fn decimal_string(n: u32) -> (r: String)
    ensures
        r@ == decimal(n as nat),
    decreases n,
{
    let digits = "0123456789";
    proof {
        reveal_strlit("0123456789");
    }
    let d = (n % 10) as usize;
    let last = digits.substring_char(d, d + 1);
    assert(last@ =~= seq![digit_char((n % 10) as nat)]);
    if n < 10 {
        last.to_string()
    } else {
        let mut r = decimal_string(n / 10);
        r.append(last);
        r
    }
}

/// The pieces of `s` between occurrences of `sep`, read left to right: a
/// separator starts a new piece and every other character extends the last
/// one. No piece is trimmed and none is dropped, so an empty `s` gives one
/// empty piece.
pub open spec fn split_on(s: Seq<char>, sep: char) -> Seq<Seq<char>>
    decreases s.len(),
{
    if s.len() == 0 {
        seq![Seq::empty()]
    } else {
        let pieces = split_on(s.drop_last(), sep);
        if s.last() == sep {
            pieces.push(Seq::empty())
        } else {
            pieces.update(pieces.len() - 1, pieces.last().push(s.last()))
        }
    }
}

/// `items` written one after another with `sep` between each two.
pub open spec fn joined(items: Seq<Seq<char>>, sep: Seq<char>) -> Seq<char>
    decreases items.len(),
{
    if items.len() == 0 {
        Seq::empty()
    } else if items.len() == 1 {
        items[0]
    } else {
        joined(items.drop_last(), sep) + sep + items.last()
    }
}

proof fn lemma_split_nonempty(s: Seq<char>, sep: char)
    ensures
        split_on(s, sep).len() >= 1,
    decreases s.len(),
{
    if s.len() > 0 {
        lemma_split_nonempty(s.drop_last(), sep);
    }
}

/// Splitting at a separator keeps every character: joining the pieces with
/// that separator gives back the text, untrimmed and with no piece dropped.
pub proof fn lemma_split_join(s: Seq<char>, sep: char)
    ensures
        joined(split_on(s, sep), seq![sep]) == s,
    decreases s.len(),
{
    if s.len() > 0 {
        let init = s.drop_last();
        lemma_split_join(init, sep);
        lemma_split_nonempty(init, sep);
        let pieces = split_on(init, sep);
        if s.last() == sep {
            assert(pieces.push(Seq::empty()).drop_last() =~= pieces);
            assert(s =~= init + seq![sep] + Seq::<char>::empty());
        } else {
            let next = pieces.update(pieces.len() - 1, pieces.last().push(s.last()));
            if pieces.len() == 1 {
                assert(s =~= next[0]);
            } else {
                assert(next.drop_last() =~= pieces.drop_last());
                assert(joined(pieces, seq![sep]) == joined(pieces.drop_last(), seq![sep]) + seq![sep]
                    + pieces.last());
                let front = joined(pieces.drop_last(), seq![sep]);
                assert(init == front + seq![sep] + pieces.last());
                assert(s =~= init.push(s.last()));
                assert(next.last() == pieces.last().push(s.last()));
                assert(s =~= front + seq![sep] + next.last());
            }
        }
    }
}

/// Splits `s` at every `sep`, keeping every piece as it stands.
pub fn split_at_char(s: &str, sep: char) -> (r: Vec<String>)
    ensures
        r.deep_view() == split_on(s@, sep),
{
    let n = s.unicode_len();
    let mut done: Vec<String> = Vec::new();
    let mut start: usize = 0;
    let mut i: usize = 0;
    assert(s@.subrange(0, 0) =~= Seq::<char>::empty());
    assert(done.deep_view().push(Seq::<char>::empty()) =~= seq![Seq::<char>::empty()]);
    while i < n
        invariant
            n == s@.len(),
            start <= i <= n,
            split_on(s@.subrange(0, i as int), sep) == done.deep_view().push(
                s@.subrange(start as int, i as int),
            ),
        decreases n - i,
    {
        let c = s.get_char(i);
        let ghost prefix = s@.subrange(0, i as int);
        let ghost next = s@.subrange(0, i + 1);
        assert(next.drop_last() =~= prefix);
        assert(next.last() == c);
        if c == sep {
            let piece = s.substring_char(start, i).to_string();
            done.push(piece);
            start = i + 1;
            assert(done.deep_view() =~= split_on(prefix, sep));
            assert(s@.subrange(start as int, i + 1) =~= Seq::<char>::empty());
        } else {
            assert(s@.subrange(start as int, i + 1) =~= s@.subrange(start as int, i as int).push(c));
        }
        i = i + 1;
    }
    let piece = s.substring_char(start, n).to_string();
    done.push(piece);
    assert(s@.subrange(0, n as int) =~= s@);
    assert(done.deep_view() =~= split_on(s@, sep));
    done
}

} // verus!
