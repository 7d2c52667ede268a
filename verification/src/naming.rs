//! Naming conventions of options and commands: case conversion of type and
//! field names, CLI names and flags, and normalized token text.
use crate::options::option_issue::spec_kebab;
use crate::options::option_issue::snake_to_kebab;
use crate::text::{
    char_is_uppercase, char_lowercase, chars_of, owned, push_char, spec_char_lowercase,
    spec_is_uppercase, spec_lowercase, spec_starts_with, to_lowercase,
};
use vstd::prelude::*;
use vstd::string::StringExecFns;

verus! {

/// The characters written for character `c` at position `i` of a
/// `PascalCase` name: an uppercase character becomes its lowercase form,
/// preceded by an underscore unless it is the first; others stay.
pub open spec fn snake_piece(c: char, i: int) -> Seq<char> {
    if spec_is_uppercase(c) {
        (if i > 0 {
            seq!['_']
        } else {
            Seq::empty()
        }).push(spec_char_lowercase(c))
    } else {
        seq![c]
    }
}

/// A `PascalCase` name in `snake_case`, one uppercase letter per word
/// boundary: `HTMLParser` becomes `h_t_m_l_parser`.
pub open spec fn spec_to_snake_case(s: Seq<char>) -> Seq<char>
    decreases s.len(),
{
    if s.len() == 0 {
        Seq::empty()
    } else {
        spec_to_snake_case(s.drop_last()) + snake_piece(s.last(), s.len() - 1)
    }
}

/// Convert a `PascalCase` string to `snake_case`.
///
/// Only handles simple `PascalCase` (one uppercase letter per word boundary).
/// Consecutive uppercase letters are treated individually, e.g.
/// `HTMLParser` becomes `h_t_m_l_parser`, not `html_parser`.
pub fn to_snake_case(s: &str) -> (res: String)
    ensures
        res@ == spec_to_snake_case(s@),
{
    let cs = chars_of(s);
    let mut result = String::new();
    let mut i: usize = 0;
    while i < cs.len()
        invariant
            cs@ == s@,
            i <= cs@.len(),
            result@ == spec_to_snake_case(s@.take(i as int)),
        decreases cs@.len() - i,
    {
        let ch = cs[i];
        if char_is_uppercase(ch) {
            if i > 0 {
                push_char(&mut result, '_');
            }
            push_char(&mut result, char_lowercase(ch));
        } else {
            push_char(&mut result, ch);
        }
        assert(s@.take(i + 1).drop_last() =~= s@.take(i as int));
        assert(result@ =~= spec_to_snake_case(s@.take(i + 1)));
        i = i + 1;
    }
    assert(s@.take(cs@.len() as int) =~= s@);
    result
}

/// The field name for an options type: the type name in `snake_case`.
pub fn field_name_for(struct_name: &str) -> (res: String)
    ensures
        res@ == spec_to_snake_case(struct_name@),
{
    to_snake_case(struct_name)
}

/// The partial options type of an options type: its name with `Partial` appended.
pub fn partial_type_for(struct_name: &str) -> (res: String)
    ensures
        res@ == struct_name@ + "Partial"@,
{
    let mut s = owned(struct_name);
    s.append("Partial");
    s
}

/// Effective CLI name of a command variant: the `cli_name` override, or the
/// lowercased variant name.
pub fn effective_cli_name(variant_name: &str, cli_name: &Option<String>) -> (res: String)
    ensures
        res@ == (match cli_name {
            Some(n) => n@,
            None => spec_lowercase(variant_name@),
        }),
{
    match cli_name {
        Some(n) => n.clone(),
        None => to_lowercase(variant_name),
    }
}

/// The CLI flag documented for a field: `--{long}` for an explicit long
/// name, `--{kebab-case field}` for a bare `long` or no argument attribute,
/// and nothing for a positional argument (one with a value name but no long
/// name).
pub open spec fn spec_cli_flag(field: Seq<char>, arg_long: Option<Seq<char>>, has_value_name: bool) -> Seq<char> {
    match arg_long {
        Some(name) => if name.len() > 0 {
            "--"@ + name
        } else {
            "--"@ + spec_kebab(field)
        },
        None => if has_value_name {
            Seq::empty()
        } else {
            "--"@ + spec_kebab(field)
        },
    }
}

/// Generate the CLI flag string for documentation.
pub fn cli_flag(field: &str, arg_long: Option<&str>, has_value_name: bool) -> (res: String)
    ensures
        res@ == spec_cli_flag(
            field@,
            match arg_long {
                Some(l) => Some(l@),
                None => None,
            },
            has_value_name,
        ),
{
    match arg_long {
        Some(name) => {
            let mut s = owned("--");
            if chars_of(name).len() > 0 {
                s.append(name);
            } else {
                let kebab = snake_to_kebab(field);
                s.append(kebab.as_str());
            }
            s
        },
        None => {
            if has_value_name {
                String::new()
            } else {
                let mut s = owned("--");
                let kebab = snake_to_kebab(field);
                s.append(kebab.as_str());
                s
            }
        },
    }
}

/// The ASCII uppercase form of `c`.
pub open spec fn ascii_upper(c: char) -> char {
    if 'a' <= c && c <= 'z' {
        ((c as u32) - 32) as char
    } else {
        c
    }
}

fn to_ascii_upper(c: char) -> (res: char)
    ensures
        res == ascii_upper(c),
{
    if 'a' <= c && c <= 'z' {
        let code = (c as u8) - 32;
        assert(code as u32 == (c as u32) - 32);
        code as char
    } else {
        c
    }
}

/// A human-readable name for a field in error messages: underscores become
/// spaces and the first character is capitalized.
pub open spec fn spec_field_name_for_error(ident: Seq<char>) -> Seq<char> {
    let name = crate::text::spec_replace_char(ident, '_', ' ');
    if name.len() == 0 {
        name
    } else {
        name.update(0, ascii_upper(name[0]))
    }
}

/// Converts a field identifier to a human-readable name for error messages.
pub fn field_name_for_error(ident: &str) -> (res: String)
    requires
        ident@.len() > 0 ==> ident@[0] <= '\u{7f}',
    ensures
        res@ == spec_field_name_for_error(ident@),
{
    let name = crate::text::replace_char(ident, '_', ' ');
    let cs = chars_of(name.as_str());
    let mut out = String::new();
    let mut i: usize = 0;
    while i < cs.len()
        invariant
            cs@ == name@,
            i <= cs@.len(),
            out@ == (if i == 0 {
                Seq::empty()
            } else {
                spec_field_name_for_error(ident@).take(i as int)
            }),
            name@ == crate::text::spec_replace_char(ident@, '_', ' '),
        decreases cs@.len() - i,
    {
        let c = if i == 0 {
            to_ascii_upper(cs[i])
        } else {
            cs[i]
        };
        push_char(&mut out, c);
        assert(out@ =~= spec_field_name_for_error(ident@).take(i + 1));
        i = i + 1;
    }
    assert(spec_field_name_for_error(ident@).take(cs@.len() as int) =~= spec_field_name_for_error(
        ident@,
    ));
    out
}

/// `s` with every non-overlapping occurrence of `from`, scanning from the
/// left, replaced by `to`.
pub open spec fn spec_replace(s: Seq<char>, from: Seq<char>, to: Seq<char>) -> Seq<char>
    recommends
        from.len() > 0,
    decreases s.len(),
{
    if s.len() == 0 || from.len() == 0 {
        s
    } else if spec_starts_with(s, from) {
        to + spec_replace(s.skip(from.len() as int), from, to)
    } else {
        seq![s[0]] + spec_replace(s.drop_first(), from, to)
    }
}

fn starts_at(cs: &Vec<char>, i: usize, pat: &Vec<char>) -> (res: bool)
    requires
        i <= cs@.len(),
    ensures
        res == spec_starts_with(cs@.skip(i as int), pat@),
{
    if pat.len() > cs.len() - i {
        return false;
    }
    let mut k: usize = 0;
    while k < pat.len()
        invariant
            i + pat@.len() <= cs@.len(),
            cs@.len() <= usize::MAX,
            k <= pat@.len(),
            forall|j: int| 0 <= j < k ==> cs@[i + j] == pat@[j],
        decreases pat@.len() - k,
    {
        if cs[i + k] != pat[k] {
            assert(cs@.skip(i as int).subrange(0, pat@.len() as int)[k as int] != pat@[k as int]);
            return false;
        }
        k = k + 1;
    }
    assert(cs@.skip(i as int).subrange(0, pat@.len() as int) =~= pat@);
    true
}

/// Replaces every non-overlapping occurrence of `from`, scanning from the left.
pub fn replace(s: &str, from: &str, to: &str) -> (res: String)
    requires
        from@.len() > 0,
    ensures
        res@ == spec_replace(s@, from@, to@),
{
    let cs = chars_of(s);
    let pat = chars_of(from);
    let mut out = String::new();
    let mut i: usize = 0;
    assert(s@.skip(0) =~= s@);
    while i < cs.len()
        invariant
            cs@ == s@,
            pat@ == from@,
            from@.len() > 0,
            i <= cs@.len(),
            out@ + spec_replace(s@.skip(i as int), from@, to@) == spec_replace(s@, from@, to@),
        decreases cs@.len() - i,
    {
        let ghost rest = s@.skip(i as int);
        if starts_at(&cs, i, &pat) {
            out.append(to);
            proof {
                assert(rest.skip(from@.len() as int) =~= s@.skip(i + from@.len()));
            }
            i = i + pat.len();
        } else {
            push_char(&mut out, cs[i]);
            proof {
                assert(rest.drop_first() =~= s@.skip(i + 1));
                assert(rest[0] == cs@[i as int]);
            }
            i = i + 1;
        }
    }
    assert(s@.skip(cs@.len() as int) =~= Seq::<char>::empty());
    assert(out@ + Seq::<char>::empty() =~= out@);
    out
}

/// Token text with the spacing that token stringification puts around
/// punctuation removed, by these replacements in order: " :: " to "::",
/// " !" and "! " to "!", " (" and "( " to "(", " )" to ")", " [" and "[ "
/// to "[", " ]" to "]".
pub open spec fn spec_normalize_token_string(s: Seq<char>) -> Seq<char> {
    let s1 = spec_replace(s, " :: "@, "::"@);
    let s2 = spec_replace(s1, " !"@, "!"@);
    let s3 = spec_replace(s2, "! "@, "!"@);
    let s4 = spec_replace(s3, " ("@, "("@);
    let s5 = spec_replace(s4, "( "@, "("@);
    let s6 = spec_replace(s5, " )"@, ")"@);
    let s7 = spec_replace(s6, " ["@, "["@);
    let s8 = spec_replace(s7, "[ "@, "["@);
    spec_replace(s8, " ]"@, "]"@)
}

/// Normalize token stringification by removing excess whitespace around punctuation.
pub fn normalize_token_string(s: &str) -> (res: String)
    ensures
        res@ == spec_normalize_token_string(s@),
{
    proof {
        reveal_strlit(" :: ");
        reveal_strlit(" !");
        reveal_strlit("! ");
        reveal_strlit(" (");
        reveal_strlit("( ");
        reveal_strlit(" )");
        reveal_strlit(" [");
        reveal_strlit("[ ");
        reveal_strlit(" ]");
    }
    let s1 = replace(s, " :: ", "::");
    let s2 = replace(s1.as_str(), " !", "!");
    let s3 = replace(s2.as_str(), "! ", "!");
    let s4 = replace(s3.as_str(), " (", "(");
    let s5 = replace(s4.as_str(), "( ", "(");
    let s6 = replace(s5.as_str(), " )", ")");
    let s7 = replace(s6.as_str(), " [", "[");
    let s8 = replace(s7.as_str(), "[ ", "[");
    replace(s8.as_str(), " ]", "]")
}

} // verus!
