//! Parsing of the schema-level transformer annotation payload.
//!
//! An error schema may carry at most one schema-level annotation; its
//! payload configures a transformer when it has the shape
//! `transformer = "<name>"` (spaces allowed around the tokens, the name
//! being any characters other than a double quote).  A payload of any
//! other shape configures nothing: the schema then keeps the default
//! rendering.

use vstd::prelude::*;

verus! {

/// Whitespace accepted around the tokens of the payload grammar.
pub open spec fn is_space(c: char) -> bool {
    c == ' ' || c == '\t' || c == '\n' || c == '\r'
}

/// The first index at or after `i` that holds a non-space character,
/// or the end of the payload.
pub open spec fn spec_skip_spaces(s: Seq<char>, i: int) -> int
    decreases s.len() - i,
{
    if i < s.len() && is_space(s[i]) {
        spec_skip_spaces(s, i + 1)
    } else {
        i
    }
}

/// The index of the first double quote at or after `i`, if any.
pub open spec fn spec_find_quote(s: Seq<char>, i: int) -> Option<int>
    decreases s.len() - i,
{
    if i >= s.len() {
        None
    } else if s[i] == '"' {
        Some(i)
    } else {
        spec_find_quote(s, i + 1)
    }
}

pub proof fn lemma_find_quote_bounds(s: Seq<char>, i: int)
    requires
        0 <= i <= s.len(),
        spec_find_quote(s, i) is Some,
    ensures
        i <= spec_find_quote(s, i)->Some_0 < s.len(),
        s[spec_find_quote(s, i)->Some_0] == '"',
    decreases s.len() - i,
{
    if i < s.len() && s[i] != '"' {
        lemma_find_quote_bounds(s, i + 1);
    }
}

/// The payload grammar: spaces, `transformer`, spaces, `=`, spaces, a
/// double-quoted name, spaces, end.  Yields the name's characters, or
/// `None` on any payload of another shape.
pub open spec fn spec_parse_transformer_meta(s: Seq<char>) -> Option<Seq<char>> {
    let key = spec_skip_spaces(s, 0);
    if key + 11 <= s.len() && s.subrange(key, key + 11) == "transformer"@ {
        let eq = spec_skip_spaces(s, key + 11);
        if eq < s.len() && s[eq] == '=' {
            let open_quote = spec_skip_spaces(s, eq + 1);
            if open_quote < s.len() && s[open_quote] == '"' {
                match spec_find_quote(s, open_quote + 1) {
                    Some(close_quote) => {
                        if spec_skip_spaces(s, close_quote + 1) == s.len() {
                            Some(s.subrange(open_quote + 1, close_quote))
                        } else {
                            None
                        }
                    },
                    None => None,
                }
            } else {
                None
            }
        } else {
            None
        }
    } else {
        None
    }
}

fn is_space_char(c: char) -> (r: bool)
    ensures
        r == is_space(c),
{
    c == ' ' || c == '\t' || c == '\n' || c == '\r'
}

fn skip_spaces(s: &str, from: usize, len: usize) -> (r: usize)
    requires
        from <= s@.len(),
        len == s@.len(),
    ensures
        r == spec_skip_spaces(s@, from as int),
        from <= r <= s@.len(),
{
    let mut i = from;
    while i < len
        invariant
            from <= i <= len,
            len == s@.len(),
            spec_skip_spaces(s@, from as int) == spec_skip_spaces(s@, i as int),
        ensures
            spec_skip_spaces(s@, from as int) == spec_skip_spaces(s@, i as int),
            i == len || !is_space(s@[i as int]),
        decreases len - i,
    {
        let c = s.get_char(i);
        if !is_space_char(c) {
            break;
        }
        proof {
            assert(spec_skip_spaces(s@, i as int) == spec_skip_spaces(s@, i + 1));
        }
        i += 1;
    }
    i
}

fn find_quote(s: &str, from: usize, len: usize) -> (r: Option<usize>)
    requires
        from <= s@.len(),
        len == s@.len(),
    ensures
        match r {
            Some(q) => spec_find_quote(s@, from as int) == Some(q as int),
            None => spec_find_quote(s@, from as int) is None,
        },
{
    let mut i = from;
    while i < len
        invariant
            from <= i <= len,
            len == s@.len(),
            spec_find_quote(s@, from as int) == spec_find_quote(s@, i as int),
        ensures
            spec_find_quote(s@, from as int) == spec_find_quote(s@, i as int),
            i < len ==> s@[i as int] == '"',
            i == len || i < s@.len(),
        decreases len - i,
    {
        let c = s.get_char(i);
        if c == '"' {
            break;
        }
        proof {
            assert(spec_find_quote(s@, i as int) == spec_find_quote(s@, i + 1));
        }
        i += 1;
    }
    if i < len {
        Some(i)
    } else {
        None
    }
}

/// Parses an annotation payload; yields the transformer name it
/// configures, or `None` when the payload configures none.
pub fn parse_transformer_meta(s: &str) -> (r: Option<String>)
    ensures
        r is Some <==> spec_parse_transformer_meta(s@) is Some,
        r matches Some(name) ==> Some(name@) == spec_parse_transformer_meta(s@),
{
    let len = s.unicode_len();
    let key = skip_spaces(s, 0, len);
    if !(len >= 11 && key <= len - 11) {
        return None;
    }
    let keyword = s.substring_char(key, key + 11);
    let k: String = keyword.to_owned();
    if !(k == "transformer".to_owned()) {
        return None;
    }
    let eq = skip_spaces(s, key + 11, len);
    if !(eq < len) {
        return None;
    }
    if !(s.get_char(eq) == '=') {
        return None;
    }
    let open_quote = skip_spaces(s, eq + 1, len);
    if !(open_quote < len) {
        return None;
    }
    if !(s.get_char(open_quote) == '"') {
        return None;
    }
    let close_quote = match find_quote(s, open_quote + 1, len) {
        Some(q) => q,
        None => {
            return None;
        },
    };
    proof {
        lemma_find_quote_bounds(s@, open_quote + 1);
    }
    let rest = skip_spaces(s, close_quote + 1, len);
    if !(rest == len) {
        return None;
    }
    let name = s.substring_char(open_quote + 1, close_quote);
    Some(name.to_owned())
}

} // verus!
