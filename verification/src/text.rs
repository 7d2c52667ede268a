//! Text helpers shared by the library: character access, string building,
//! case conversion and decimal rendering.
use vstd::prelude::*;
use vstd::std_specs::iter::IteratorSpec;
use vstd::string::StringExecFns;

verus! {

/// Name for what `str::to_lowercase` returns for a string.
pub uninterp spec fn spec_lowercase(s: Seq<char>) -> Seq<char>;

/// Name for what `str::to_uppercase` returns for a string.
pub uninterp spec fn spec_uppercase(s: Seq<char>) -> Seq<char>;

/// Name for what `char::is_uppercase` returns for a character.
pub uninterp spec fn spec_is_uppercase(c: char) -> bool;

/// Name for the first character that `char::to_lowercase` yields for a character.
pub uninterp spec fn spec_char_lowercase(c: char) -> char;

/// The characters of `s`, in order.
pub(crate) fn chars_of(s: &str) -> (res: Vec<char>)
    ensures
        res@ == s@,
{
    broadcast use vstd::string::axiom_spec_iter, vstd::string::next_postcondition;

    let mut out: Vec<char> = Vec::new();
    let mut chars = s.chars();
    loop
        invariant
            out@ + chars.remaining() == s@,
            chars.decrease() is Some,
        ensures
            out@ == s@,
        decreases chars.decrease()->0,
    {
        let ghost before = chars.remaining();
        match chars.next() {
            Some(c) => {
                assert(before.len() > 0);
                out.push(c);
                assert(out@ + chars.remaining() =~= s@) by {
                    assert(before =~= seq![c] + before.drop_first());
                }
            },
            None => {
                assert(out@ =~= s@);
                break;
            },
        }
    }
    out
}

/// Appends one character to a string.
///
/// Trusted: calls `String::push`; claims the character is appended at the end.
#[verifier::external_body]
pub(crate) fn push_char(s: &mut String, c: char)
    ensures
        final(s)@ == old(s)@.push(c),
{
    s.push(c);
}

/// Lower-cases a string with `str::to_lowercase`.
///
/// Trusted: claims only that the result is the named function of the argument.
#[verifier::external_body]
pub(crate) fn to_lowercase(s: &str) -> (res: String)
    ensures
        res@ == spec_lowercase(s@),
{
    s.to_lowercase()
}

/// Upper-cases a string with `str::to_uppercase`.
///
/// Trusted: claims only that the result is the named function of the argument.
#[verifier::external_body]
pub(crate) fn to_uppercase(s: &str) -> (res: String)
    ensures
        res@ == spec_uppercase(s@),
{
    s.to_uppercase()
}

/// Whether `char::is_uppercase` holds of a character.
///
/// Trusted: claims only that the result is the named function of the argument.
#[verifier::external_body]
pub(crate) fn char_is_uppercase(c: char) -> (res: bool)
    ensures
        res == spec_is_uppercase(c),
{
    c.is_uppercase()
}

/// The first character yielded by `char::to_lowercase`.
///
/// Trusted: `char::to_lowercase` always yields at least one character, so the
/// `unwrap` cannot fail; claims only that the result is the named function of
/// the argument.
#[verifier::external_body]
pub(crate) fn char_lowercase(c: char) -> (res: char)
    ensures
        res == spec_char_lowercase(c),
{
    c.to_lowercase().next().unwrap()
}

/// An owned copy of a string slice.
pub fn owned(s: &str) -> (res: String)
    ensures
        res@ == s@,
{
    s.to_owned()
}

/// Whether `s` begins with `prefix`.
pub open spec fn spec_starts_with(s: Seq<char>, prefix: Seq<char>) -> bool {
    prefix.len() <= s.len() && s.subrange(0, prefix.len() as int) == prefix
}

/// Whether `s` begins with `prefix`.
pub fn starts_with(s: &str, prefix: &str) -> (res: bool)
    ensures
        res == spec_starts_with(s@, prefix@),
{
    let sc = chars_of(s);
    let pc = chars_of(prefix);
    if pc.len() > sc.len() {
        return false;
    }
    let mut i: usize = 0;
    while i < pc.len()
        invariant
            sc@ == s@,
            pc@ == prefix@,
            pc.len() <= sc.len(),
            i <= pc.len(),
            forall|j: int| 0 <= j < i ==> sc@[j] == pc@[j],
        decreases pc.len() - i,
    {
        if sc[i] != pc[i] {
            assert(s@.subrange(0, prefix@.len() as int)[i as int] != prefix@[i as int]);
            return false;
        }
        i = i + 1;
    }
    assert(s@.subrange(0, prefix@.len() as int) =~= prefix@);
    true
}

/// Whether `s` ends with the character `c`.
pub fn ends_with_char(s: &str, c: char) -> (res: bool)
    ensures
        res == (s@.len() > 0 && s@.last() == c),
{
    let sc = chars_of(s);
    let n = sc.len();
    n > 0 && sc[n - 1] == c
}

/// Replaces every occurrence of `from` by `to` in a character sequence.
pub open spec fn spec_replace_char(s: Seq<char>, from: char, to: char) -> Seq<char> {
    s.map_values(|c: char| if c == from { to } else { c })
}

/// Replaces every occurrence of `from` by `to`.
pub fn replace_char(s: &str, from: char, to: char) -> (res: String)
    ensures
        res@ == spec_replace_char(s@, from, to),
{
    let cs = chars_of(s);
    let mut out = String::new();
    let mut i: usize = 0;
    while i < cs.len()
        invariant
            cs@ == s@,
            i <= cs.len(),
            out@ == spec_replace_char(s@.take(i as int), from, to),
        decreases cs.len() - i,
    {
        let c = cs[i];
        push_char(&mut out, if c == from { to } else { c });
        assert(spec_replace_char(s@.take(i + 1), from, to) =~= spec_replace_char(
            s@.take(i as int),
            from,
            to,
        ).push(if c == from { to } else { c }));
        i = i + 1;
    }
    assert(s@.take(cs.len() as int) =~= s@);
    out
}

/// The decimal digit character for `d`.
pub open spec fn digit_char(d: nat) -> char {
    if d == 0 {
        '0'
    } else if d == 1 {
        '1'
    } else if d == 2 {
        '2'
    } else if d == 3 {
        '3'
    } else if d == 4 {
        '4'
    } else if d == 5 {
        '5'
    } else if d == 6 {
        '6'
    } else if d == 7 {
        '7'
    } else if d == 8 {
        '8'
    } else {
        '9'
    }
}

/// The decimal representation of a natural number, without leading zeros.
pub open spec fn spec_decimal(n: nat) -> Seq<char>
    decreases n,
{
    if n < 10 {
        seq![digit_char(n)]
    } else {
        spec_decimal(n / 10).push(digit_char(n % 10))
    }
}

fn digit(d: u64) -> (c: char)
    requires
        d < 10,
    ensures
        c == digit_char(d as nat),
{
    if d == 0 {
        '0'
    } else if d == 1 {
        '1'
    } else if d == 2 {
        '2'
    } else if d == 3 {
        '3'
    } else if d == 4 {
        '4'
    } else if d == 5 {
        '5'
    } else if d == 6 {
        '6'
    } else if d == 7 {
        '7'
    } else if d == 8 {
        '8'
    } else {
        '9'
    }
}

/// The decimal representation of `n`.
pub fn decimal(n: u64) -> (res: String)
    ensures
        res@ == spec_decimal(n as nat),
    decreases n,
{
    if n < 10 {
        let mut s = String::new();
        push_char(&mut s, digit(n));
        s
    } else {
        let mut s = decimal(n / 10);
        push_char(&mut s, digit(n % 10));
        s
    }
}

/// Pads `s` on the left with spaces to at least `width` characters.
pub open spec fn spec_pad_left(s: Seq<char>, width: nat) -> Seq<char> {
    if s.len() >= width {
        s
    } else {
        Seq::new((width - s.len()) as nat, |i: int| ' ') + s
    }
}

/// Pads `s` on the right with spaces to at least `width` characters.
pub open spec fn spec_pad_right(s: Seq<char>, width: nat) -> Seq<char> {
    if s.len() >= width {
        s
    } else {
        s + Seq::new((width - s.len()) as nat, |i: int| ' ')
    }
}

/// Pads `s` on the left with spaces to at least `width` characters.
pub fn pad_left(s: &str, width: usize) -> (res: String)
    ensures
        res@ == spec_pad_left(s@, width as nat),
{
    let cs = chars_of(s);
    let mut out = String::new();
    if cs.len() < width {
        let fill = width - cs.len();
        let mut i: usize = 0;
        while i < fill
            invariant
                i <= fill,
                out@ == Seq::new(i as nat, |k: int| ' '),
            decreases fill - i,
        {
            push_char(&mut out, ' ');
            assert(Seq::new((i + 1) as nat, |k: int| ' ') =~= Seq::new(i as nat, |k: int| ' ').push(
                ' ',
            ));
            i = i + 1;
        }
    }
    out.append(s);
    out
}

/// Pads `s` on the right with spaces to at least `width` characters.
pub fn pad_right(s: &str, width: usize) -> (res: String)
    ensures
        res@ == spec_pad_right(s@, width as nat),
{
    let cs = chars_of(s);
    let mut out = owned(s);
    if cs.len() < width {
        let fill = width - cs.len();
        let mut i: usize = 0;
        while i < fill
            invariant
                i <= fill,
                out@ == s@ + Seq::new(i as nat, |k: int| ' '),
            decreases fill - i,
        {
            push_char(&mut out, ' ');
            assert(s@ + Seq::new((i + 1) as nat, |k: int| ' ') =~= (s@ + Seq::new(
                i as nat,
                |k: int| ' ',
            )).push(' '));
            i = i + 1;
        }
    }
    out
}

/// Joins `items`, putting `sep` between each two of them.
pub open spec fn spec_join(items: Seq<Seq<char>>, sep: Seq<char>) -> Seq<char>
    decreases items.len(),
{
    if items.len() == 0 {
        Seq::empty()
    } else if items.len() == 1 {
        items[0]
    } else {
        spec_join(items.drop_last(), sep) + sep + items.last()
    }
}

/// Character sequences of a sequence of strings.
pub open spec fn views_of(v: Seq<String>) -> Seq<Seq<char>> {
    Seq::new(v.len(), |i: int| v[i]@)
}

/// Joins `items`, putting `sep` between each two of them.
pub fn join(items: &Vec<String>, sep: &str) -> (res: String)
    ensures
        res@ == spec_join(views_of(items@), sep@),
{
    let mut out = String::new();
    let ghost all = views_of(items@);
    let mut i: usize = 0;
    while i < items.len()
        invariant
            i <= items@.len(),
            all == views_of(items@),
            out@ == spec_join(all.take(i as int), sep@),
        decreases items@.len() - i,
    {
        if i > 0 {
            out.append(sep);
        }
        out.append(items[i].as_str());
        assert(all.take(i + 1).drop_last() =~= all.take(i as int));
        i = i + 1;
    }
    assert(all.take(items@.len() as int) =~= all);
    out
}

} // verus!
